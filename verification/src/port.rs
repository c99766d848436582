//! The scan engine's data model and logic: ports, addresses, targets, the
//! classification of probe outcomes, the fan-out plan of one probe per
//! (address, port) pair, and the assembly of annotated results.
//!
//! The engine itself is pure: the TCP connect attempts and the task
//! runtime that races them live outside the library, hand every outcome
//! back as a plain value, and the functions here turn those outcomes into
//! the annotated report.

use vstd::prelude::*;

verus! {

/// The time budget of one probe, in milliseconds: a connect attempt that
/// has not resolved after this long counts as not open.
pub const PROBE_TIMEOUT_MILLIS: u64 = 3000;

/// One candidate TCP port on one target, together with the result of
/// probing it. `is_open` is `None` until the port has been probed, then
/// exactly `Some(true)` (open) or `Some(false)` (closed or unreachable).
#[derive(Debug, PartialEq)]
pub struct Port {
    pub service: String,
    pub number: u16,
    pub is_open: Option<bool>,
}

impl Clone for Port {
    fn clone(&self) -> (r: Self)
        ensures
            r == *self,
    {
        Port { service: self.service.clone(), number: self.number, is_open: self.is_open }
    }
}

/// A resolved IP address, held as plain integers: either four octets of a
/// version-4 address or eight 16-bit groups of a version-6 address.
#[derive(Debug, Clone, Copy, PartialEq, Eq, Structural)]
pub enum IpAddress {
    V4(u8, u8, u8, u8),
    V6(u16, u16, u16, u16, u16, u16, u16, u16),
}

/// A resolved socket endpoint: an IP address and a TCP port number.
#[derive(Debug, Clone, Copy, PartialEq, Eq, Structural)]
pub struct SocketAddress {
    pub ip: IpAddress,
    pub port: u16,
}

impl SocketAddress {
    /// The same endpoint with the port number replaced: how the engine
    /// turns a target's base address into the address of one probe.
    pub fn with_port(&self, number: u16) -> (r: SocketAddress)
        ensures
            r.ip == self.ip,
            r.port == number,
    {
        SocketAddress { ip: self.ip, port: number }
    }
}

/// How a single TCP connect attempt ended.
#[derive(Debug, Clone, Copy, PartialEq, Eq, Structural)]
pub enum ProbeOutcome {
    /// The connection was established within the time budget.
    Connected,
    /// The peer refused the connection.
    Refused,
    /// The connection was reset.
    Reset,
    /// The network or host was unreachable, or the attempt failed for any
    /// other reason.
    Unreachable,
    /// The time budget elapsed before the attempt resolved.
    TimedOut,
}

/// Classify a probe outcome as open or not open: only an established
/// connection counts as open; every failure mode collapses to closed.
pub fn classify_probe(outcome: ProbeOutcome) -> (open: bool)
    ensures
        open == (outcome is Connected),
{
    match outcome {
        ProbeOutcome::Connected => true,
        ProbeOutcome::Refused => false,
        ProbeOutcome::Reset => false,
        ProbeOutcome::Unreachable => false,
        ProbeOutcome::TimedOut => false,
    }
}

/// The lifecycle of one unit of scan work, at either level (one probe, or
/// one target's whole port scan): spawned but not yet resolved, result
/// computed and sent, result drained by the parent.
#[derive(Debug, Clone, Copy, PartialEq, Eq, Structural)]
pub enum ProbePhase {
    Pending,
    Resolved,
    Collected,
}

impl ProbePhase {
    /// Step a unit of work one transition forward: pending work resolves,
    /// resolved work is collected. There is no retry and no cancellation,
    /// and a collected unit has nowhere further to go, so the engine never
    /// steps one.
    pub fn advance(self) -> (r: ProbePhase)
        requires
            self !is Collected,
        ensures
            self is Pending ==> r is Resolved,
            self is Resolved ==> r is Collected,
    {
        match self {
            ProbePhase::Pending => ProbePhase::Resolved,
            ProbePhase::Resolved => ProbePhase::Collected,
            ProbePhase::Collected => ProbePhase::Collected,
        }
    }
}

/// One network endpoint to scan: a resolved address, the hostname it came
/// from, and the ports to probe against the address.
#[derive(Debug, PartialEq)]
pub struct Target {
    pub name: String,
    pub address: SocketAddress,
    pub ports: Vec<Port>,
}

impl Clone for Target {
    fn clone(&self) -> (r: Self)
        ensures
            r.name == self.name,
            r.address == self.address,
            r.ports@ == self.ports@,
    {
        let ports = self.ports.clone();
        proof {
            assert forall|i: int| 0 <= i < self.ports@.len() implies ports@[i]
                == self.ports@[i] by {
                assert(cloned(self.ports@[i], ports@[i]));
            }
            assert(ports@ =~= self.ports@);
        }
        Target { name: self.name.clone(), address: self.address, ports }
    }
}

/// One port of the result annotates one port of the input: same service,
/// same number, and the status settled to the probe's outcome.
pub open spec fn port_annotated(p: Port, q: Port, outcome: bool) -> bool {
    &&& q.service == p.service
    &&& q.number == p.number
    &&& q.is_open == Some(outcome)
}

/// The result list annotates the input list port by port: nothing
/// dropped, nothing added, every status settled.
pub open spec fn ports_annotated(ps: Seq<Port>, qs: Seq<Port>, os: Seq<bool>) -> bool {
    &&& os.len() == ps.len()
    &&& qs.len() == ps.len()
    &&& forall|i: int| 0 <= i < ps.len() ==> port_annotated(ps[i], qs[i], os[i])
}

/// The result target annotates the input target: same name, same
/// address, and its port list annotated by the given outcomes.
pub open spec fn target_annotated(t: Target, u: Target, os: Seq<bool>) -> bool {
    &&& u.name == t.name
    &&& u.address == t.address
    &&& ports_annotated(t.ports@, u.ports@, os)
}

/// The result batch annotates the input batch target by target.
pub open spec fn targets_annotated(ts: Seq<Target>, us: Seq<Target>, os: Seq<Seq<bool>>) -> bool {
    &&& os.len() == ts.len()
    &&& us.len() == ts.len()
    &&& forall|i: int| 0 <= i < ts.len() ==> target_annotated(ts[i], us[i], os[i])
}

/// A port with the same identity (service name and port number) stands
/// somewhere in `ps`.
pub open spec fn port_present(q: Port, ps: Seq<Port>) -> bool {
    exists|k: int|
        0 <= k < ps.len() && ps[k].service == q.service && ps[k].number == q.number
}

/// Plan the fan-out of one target: the fully-specified address of each
/// probe, the target's base address with that port's number substituted.
pub fn probe_addresses(address: &SocketAddress, ports: &Vec<Port>) -> (r: Vec<SocketAddress>)
    ensures
        r@.len() == ports@.len(),
        forall|i: int|
            0 <= i < ports@.len() ==> (#[trigger] r@[i]).ip == address.ip && r@[i].port
                == ports@[i].number,
{
    let mut r: Vec<SocketAddress> = Vec::new();
    let mut i: usize = 0;
    while i < ports.len()
        invariant
            i <= ports@.len(),
            r@.len() == i,
            forall|k: int|
                0 <= k < i ==> (#[trigger] r@[k]).ip == address.ip && r@[k].port
                    == ports@[k].number,
        decreases ports@.len() - i,
    {
        r.push(address.with_port(ports[i].number));
        i += 1;
    }
    r
}

/// Fan-in of one target's probes: attach to every port the outcome of
/// its own probe. `outcomes[i]` is the outcome of the probe planned for
/// `ports[i]`.
pub fn annotate_ports(ports: Vec<Port>, outcomes: &Vec<bool>) -> (r: Vec<Port>)
    requires
        outcomes@.len() == ports@.len(),
    ensures
        ports_annotated(ports@, r@, outcomes@),
{
    let mut r: Vec<Port> = Vec::new();
    let mut i: usize = 0;
    while i < ports.len()
        invariant
            i <= ports@.len(),
            outcomes@.len() == ports@.len(),
            r@.len() == i,
            forall|k: int| 0 <= k < i ==> port_annotated(ports@[k], r@[k], outcomes@[k]),
        decreases ports@.len() - i,
    {
        let p = &ports[i];
        r.push(Port { service: p.service.clone(), number: p.number, is_open: Some(outcomes[i]) });
        i += 1;
    }
    r
}

/// Fan-in of one target: replace its port list with the annotated one,
/// keeping name and address.
pub fn annotate_target(target: Target, outcomes: &Vec<bool>) -> (r: Target)
    requires
        outcomes@.len() == target.ports@.len(),
    ensures
        target_annotated(target, r, outcomes@),
{
    let Target { name, address, ports } = target;
    let annotated = annotate_ports(ports, outcomes);
    Target { name, address, ports: annotated }
}

/// Fan-in across the batch: annotate every target with the outcomes of
/// its own probes. `outcomes[i]` carries one outcome per port of
/// `targets[i]`.
pub fn annotate_targets(targets: Vec<Target>, outcomes: &Vec<Vec<bool>>) -> (r: Vec<Target>)
    requires
        outcomes@.len() == targets@.len(),
        forall|i: int|
            0 <= i < targets@.len() ==> (#[trigger] outcomes@[i])@.len()
                == targets@[i].ports@.len(),
    ensures
        targets_annotated(targets@, r@, outcomes.deep_view()),
{
    let ghost orig = targets@;
    let mut targets = targets;
    let mut r: Vec<Target> = Vec::new();
    while targets.len() > 0
        invariant
            outcomes@.len() == orig.len(),
            forall|i: int|
                0 <= i < orig.len() ==> (#[trigger] outcomes@[i])@.len() == orig[i].ports@.len(),
            r@.len() + targets@.len() == orig.len(),
            targets@ =~= orig.subrange(r@.len() as int, orig.len() as int),
            forall|k: int|
                0 <= k < r@.len() ==> target_annotated(orig[k], r@[k], outcomes@[k]@),
        decreases targets@.len(),
    {
        let ghost done = r@.len() as int;
        let t = targets.remove(0);
        proof {
            assert(t == orig[done]);
        }
        let u = annotate_target(t, &outcomes[r.len()]);
        r.push(u);
        proof {
            assert(targets@ =~= orig.subrange(r@.len() as int, orig.len() as int));
        }
    }
    proof {
        assert(r@.len() == orig.len());
        assert(outcomes.deep_view().len() == outcomes@.len());
        assert forall|k: int| 0 <= k < orig.len() implies target_annotated(
            orig[k],
            r@[k],
            outcomes.deep_view()[k],
        ) by {
            assert(outcomes.deep_view()[k] == outcomes@[k]@);
        }
    }
    r
}

/// Completeness: an annotated batch returns, for every target, exactly
/// as many ports as went in, each the annotation of the input port at the
/// same place — none dropped, none added, every status settled.
pub proof fn lemma_scan_completeness(ts: Seq<Target>, us: Seq<Target>, os: Seq<Seq<bool>>, i: int)
    requires
        targets_annotated(ts, us, os),
        0 <= i < us.len(),
    ensures
        us[i].ports@.len() == ts[i].ports@.len(),
        forall|k: int|
            0 <= k < us[i].ports@.len() ==> port_annotated(
                ts[i].ports@[k],
                #[trigger] us[i].ports@[k],
                os[i][k],
            ),
        forall|k: int| 0 <= k < us[i].ports@.len() ==> !((#[trigger] us[i].ports@[k]).is_open is None),
{
    assert(target_annotated(ts[i], us[i], os[i]));
    assert forall|k: int| 0 <= k < us[i].ports@.len() implies !((#[trigger] us[i].ports@[k]).is_open
        is None) by {
        assert(port_annotated(ts[i].ports@[k], us[i].ports@[k], os[i][k]));
    }
}

/// Isolation: in one batch, every port of a returned target was present
/// in that same target's input; in particular, for two different targets
/// of the batch, neither's result holds a port that only the other's
/// input had.
pub proof fn lemma_target_isolation(ts: Seq<Target>, us: Seq<Target>, os: Seq<Seq<bool>>, i: int)
    requires
        targets_annotated(ts, us, os),
        0 <= i < us.len(),
    ensures
        forall|k: int|
            0 <= k < us[i].ports@.len() ==> port_present(#[trigger] us[i].ports@[k], ts[i].ports@),
{
    assert(target_annotated(ts[i], us[i], os[i]));
    assert forall|k: int| 0 <= k < us[i].ports@.len() implies port_present(
        #[trigger] us[i].ports@[k],
        ts[i].ports@,
    ) by {
        assert(port_annotated(ts[i].ports@[k], us[i].ports@[k], os[i][k]));
        assert(ts[i].ports@[k].service == us[i].ports@[k].service && ts[i].ports@[k].number
            == us[i].ports@[k].number);
    }
}

/// Boolean totality: every port of an annotated list has its status
/// settled to `Some(true)` or `Some(false)`, never left unset.
pub proof fn lemma_status_total(ps: Seq<Port>, qs: Seq<Port>, os: Seq<bool>)
    requires
        ports_annotated(ps, qs, os),
    ensures
        forall|k: int|
            0 <= k < qs.len() ==> (#[trigger] qs[k]).is_open == Some(true) || qs[k].is_open
                == Some(false),
{
    assert forall|k: int| 0 <= k < qs.len() implies (#[trigger] qs[k]).is_open == Some(true)
        || qs[k].is_open == Some(false) by {
        assert(port_annotated(ps[k], qs[k], os[k]));
        if os[k] {
            assert(qs[k].is_open == Some(true));
        } else {
            assert(qs[k].is_open == Some(false));
        }
    }
}

} // verus!
