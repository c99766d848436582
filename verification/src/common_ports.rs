//! The well-known-ports table and the selection from it: the most
//! common TCP services, most common first, handed out as unprobed ports.
//!
//! The table is plain data, pinned entry by entry: `table_entry` gives
//! the port number and service name at each position, and every function
//! that hands entries out promises to match it. The data is large, so it
//! is laid out as a tree of builders: a chunk holds fifty entries, a
//! section appends ten chunks, and the full table appends the ten
//! sections; the entry specification is split the same way.

use vstd::prelude::*;

use crate::port::Port;

verus! {

/// How many entries the well-known-ports table holds; a request for more
/// is capped here.
pub const MAX_COMMON_PORTS: usize = 5000;

/// What holds of every entry that comes out of the table: a valid TCP
/// port number and a status not yet probed.
pub open spec fn table_entry_ok(p: Port) -> bool {
    &&& 1 <= p.number
    &&& p.is_open is None
}

/// One port of the table matches one entry of its specification: the
/// entry's port number, its service name, and a status not yet probed.
pub open spec fn entry_matches(p: Port, e: (u16, Seq<char>)) -> bool {
    &&& p.number == e.0
    &&& p.service@ == e.1
    &&& p.is_open is None
}

/// The table's entry at position `i`, for `0 <= i < 5000`: the port
/// number and service name of the `i`-th most common service.
pub closed spec fn table_entry(i: int) -> (u16, Seq<char>) {
    if i < 500 {
        section_entry_0(i)
    } else if i < 1000 {
        section_entry_1(i - 500)
    } else if i < 1500 {
        section_entry_2(i - 1000)
    } else if i < 2000 {
        section_entry_3(i - 1500)
    } else if i < 2500 {
        section_entry_4(i - 2000)
    } else if i < 3000 {
        section_entry_5(i - 2500)
    } else if i < 3500 {
        section_entry_6(i - 3000)
    } else if i < 4000 {
        section_entry_7(i - 3500)
    } else if i < 4500 {
        section_entry_8(i - 4000)
    } else {
        section_entry_9(i - 4500)
    }
}

closed spec fn section_entry_0(i: int) -> (u16, Seq<char>) {
    if i < 50 {
        chunk_entry_0(i)
    } else if i < 100 {
        chunk_entry_1(i - 50)
    } else if i < 150 {
        chunk_entry_2(i - 100)
    } else if i < 200 {
        chunk_entry_3(i - 150)
    } else if i < 250 {
        chunk_entry_4(i - 200)
    } else if i < 300 {
        chunk_entry_5(i - 250)
    } else if i < 350 {
        chunk_entry_6(i - 300)
    } else if i < 400 {
        chunk_entry_7(i - 350)
    } else if i < 450 {
        chunk_entry_8(i - 400)
    } else {
        chunk_entry_9(i - 450)
    }
}

closed spec fn section_entry_1(i: int) -> (u16, Seq<char>) {
    if i < 50 {
        chunk_entry_10(i)
    } else if i < 100 {
        chunk_entry_11(i - 50)
    } else if i < 150 {
        chunk_entry_12(i - 100)
    } else if i < 200 {
        chunk_entry_13(i - 150)
    } else if i < 250 {
        chunk_entry_14(i - 200)
    } else if i < 300 {
        chunk_entry_15(i - 250)
    } else if i < 350 {
        chunk_entry_16(i - 300)
    } else if i < 400 {
        chunk_entry_17(i - 350)
    } else if i < 450 {
        chunk_entry_18(i - 400)
    } else {
        chunk_entry_19(i - 450)
    }
}

closed spec fn section_entry_2(i: int) -> (u16, Seq<char>) {
    if i < 50 {
        chunk_entry_20(i)
    } else if i < 100 {
        chunk_entry_21(i - 50)
    } else if i < 150 {
        chunk_entry_22(i - 100)
    } else if i < 200 {
        chunk_entry_23(i - 150)
    } else if i < 250 {
        chunk_entry_24(i - 200)
    } else if i < 300 {
        chunk_entry_25(i - 250)
    } else if i < 350 {
        chunk_entry_26(i - 300)
    } else if i < 400 {
        chunk_entry_27(i - 350)
    } else if i < 450 {
        chunk_entry_28(i - 400)
    } else {
        chunk_entry_29(i - 450)
    }
}

closed spec fn section_entry_3(i: int) -> (u16, Seq<char>) {
    if i < 50 {
        chunk_entry_30(i)
    } else if i < 100 {
        chunk_entry_31(i - 50)
    } else if i < 150 {
        chunk_entry_32(i - 100)
    } else if i < 200 {
        chunk_entry_33(i - 150)
    } else if i < 250 {
        chunk_entry_34(i - 200)
    } else if i < 300 {
        chunk_entry_35(i - 250)
    } else if i < 350 {
        chunk_entry_36(i - 300)
    } else if i < 400 {
        chunk_entry_37(i - 350)
    } else if i < 450 {
        chunk_entry_38(i - 400)
    } else {
        chunk_entry_39(i - 450)
    }
}

closed spec fn section_entry_4(i: int) -> (u16, Seq<char>) {
    if i < 50 {
        chunk_entry_40(i)
    } else if i < 100 {
        chunk_entry_41(i - 50)
    } else if i < 150 {
        chunk_entry_42(i - 100)
    } else if i < 200 {
        chunk_entry_43(i - 150)
    } else if i < 250 {
        chunk_entry_44(i - 200)
    } else if i < 300 {
        chunk_entry_45(i - 250)
    } else if i < 350 {
        chunk_entry_46(i - 300)
    } else if i < 400 {
        chunk_entry_47(i - 350)
    } else if i < 450 {
        chunk_entry_48(i - 400)
    } else {
        chunk_entry_49(i - 450)
    }
}

closed spec fn section_entry_5(i: int) -> (u16, Seq<char>) {
    if i < 50 {
        chunk_entry_50(i)
    } else if i < 100 {
        chunk_entry_51(i - 50)
    } else if i < 150 {
        chunk_entry_52(i - 100)
    } else if i < 200 {
        chunk_entry_53(i - 150)
    } else if i < 250 {
        chunk_entry_54(i - 200)
    } else if i < 300 {
        chunk_entry_55(i - 250)
    } else if i < 350 {
        chunk_entry_56(i - 300)
    } else if i < 400 {
        chunk_entry_57(i - 350)
    } else if i < 450 {
        chunk_entry_58(i - 400)
    } else {
        chunk_entry_59(i - 450)
    }
}

closed spec fn section_entry_6(i: int) -> (u16, Seq<char>) {
    if i < 50 {
        chunk_entry_60(i)
    } else if i < 100 {
        chunk_entry_61(i - 50)
    } else if i < 150 {
        chunk_entry_62(i - 100)
    } else if i < 200 {
        chunk_entry_63(i - 150)
    } else if i < 250 {
        chunk_entry_64(i - 200)
    } else if i < 300 {
        chunk_entry_65(i - 250)
    } else if i < 350 {
        chunk_entry_66(i - 300)
    } else if i < 400 {
        chunk_entry_67(i - 350)
    } else if i < 450 {
        chunk_entry_68(i - 400)
    } else {
        chunk_entry_69(i - 450)
    }
}

closed spec fn section_entry_7(i: int) -> (u16, Seq<char>) {
    if i < 50 {
        chunk_entry_70(i)
    } else if i < 100 {
        chunk_entry_71(i - 50)
    } else if i < 150 {
        chunk_entry_72(i - 100)
    } else if i < 200 {
        chunk_entry_73(i - 150)
    } else if i < 250 {
        chunk_entry_74(i - 200)
    } else if i < 300 {
        chunk_entry_75(i - 250)
    } else if i < 350 {
        chunk_entry_76(i - 300)
    } else if i < 400 {
        chunk_entry_77(i - 350)
    } else if i < 450 {
        chunk_entry_78(i - 400)
    } else {
        chunk_entry_79(i - 450)
    }
}

closed spec fn section_entry_8(i: int) -> (u16, Seq<char>) {
    if i < 50 {
        chunk_entry_80(i)
    } else if i < 100 {
        chunk_entry_81(i - 50)
    } else if i < 150 {
        chunk_entry_82(i - 100)
    } else if i < 200 {
        chunk_entry_83(i - 150)
    } else if i < 250 {
        chunk_entry_84(i - 200)
    } else if i < 300 {
        chunk_entry_85(i - 250)
    } else if i < 350 {
        chunk_entry_86(i - 300)
    } else if i < 400 {
        chunk_entry_87(i - 350)
    } else if i < 450 {
        chunk_entry_88(i - 400)
    } else {
        chunk_entry_89(i - 450)
    }
}

closed spec fn section_entry_9(i: int) -> (u16, Seq<char>) {
    if i < 50 {
        chunk_entry_90(i)
    } else if i < 100 {
        chunk_entry_91(i - 50)
    } else if i < 150 {
        chunk_entry_92(i - 100)
    } else if i < 200 {
        chunk_entry_93(i - 150)
    } else if i < 250 {
        chunk_entry_94(i - 200)
    } else if i < 300 {
        chunk_entry_95(i - 250)
    } else if i < 350 {
        chunk_entry_96(i - 300)
    } else if i < 400 {
        chunk_entry_97(i - 350)
    } else if i < 450 {
        chunk_entry_98(i - 400)
    } else {
        chunk_entry_99(i - 450)
    }
}

closed spec fn chunk_entry_0(i: int) -> (u16, Seq<char>) {
    if i == 0 {
        (80u16, "http"@)
    } else if i == 1 {
        (23u16, "telnet"@)
    } else if i == 2 {
        (443u16, "https"@)
    } else if i == 3 {
        (21u16, "ftp"@)
    } else if i == 4 {
        (22u16, "ssh"@)
    } else if i == 5 {
        (25u16, "smtp"@)
    } else if i == 6 {
        (3389u16, "ms-wbt-server"@)
    } else if i == 7 {
        (110u16, "pop3"@)
    } else if i == 8 {
        (445u16, "microsoft-ds"@)
    } else if i == 9 {
        (139u16, "netbios-ssn"@)
    } else if i == 10 {
        (143u16, "imap"@)
    } else if i == 11 {
        (53u16, "domain"@)
    } else if i == 12 {
        (135u16, "msrpc"@)
    } else if i == 13 {
        (3306u16, "mysql"@)
    } else if i == 14 {
        (8080u16, "http-proxy"@)
    } else if i == 15 {
        (1723u16, "pptp"@)
    } else if i == 16 {
        (111u16, "rpcbind"@)
    } else if i == 17 {
        (995u16, "pop3s"@)
    } else if i == 18 {
        (993u16, "imaps"@)
    } else if i == 19 {
        (5900u16, "vnc"@)
    } else if i == 20 {
        (1025u16, "NFS-or-IIS"@)
    } else if i == 21 {
        (587u16, "submission"@)
    } else if i == 22 {
        (8888u16, "sun-answerbook"@)
    } else if i == 23 {
        (199u16, "smux"@)
    } else if i == 24 {
        (1720u16, "h323q931"@)
    } else if i == 25 {
        (465u16, "smtps"@)
    } else if i == 26 {
        (548u16, "afp"@)
    } else if i == 27 {
        (113u16, "ident"@)
    } else if i == 28 {
        (81u16, "hosts2-ns"@)
    } else if i == 29 {
        (6001u16, "X11:1"@)
    } else if i == 30 {
        (10000u16, "snet-sensor-mgmt"@)
    } else if i == 31 {
        (514u16, "shell"@)
    } else if i == 32 {
        (5060u16, "sip"@)
    } else if i == 33 {
        (179u16, "bgp"@)
    } else if i == 34 {
        (1026u16, "LSA-or-nterm"@)
    } else if i == 35 {
        (2000u16, "cisco-sccp"@)
    } else if i == 36 {
        (8443u16, "https-alt"@)
    } else if i == 37 {
        (8000u16, "http-alt"@)
    } else if i == 38 {
        (32768u16, "filenet-tms"@)
    } else if i == 39 {
        (554u16, "rtsp"@)
    } else if i == 40 {
        (26u16, "rsftp"@)
    } else if i == 41 {
        (1433u16, "ms-sql-s"@)
    } else if i == 42 {
        (49152u16, "unknown"@)
    } else if i == 43 {
        (2001u16, "dc"@)
    } else if i == 44 {
        (515u16, "printer"@)
    } else if i == 45 {
        (8008u16, "http"@)
    } else if i == 46 {
        (49154u16, "unknown"@)
    } else if i == 47 {
        (1027u16, "IIS"@)
    } else if i == 48 {
        (5666u16, "nrpe"@)
    } else {
        (646u16, "ldp"@)
    }
}

closed spec fn chunk_entry_1(i: int) -> (u16, Seq<char>) {
    if i == 0 {
        (5000u16, "upnp"@)
    } else if i == 1 {
        (5631u16, "pcanywheredata"@)
    } else if i == 2 {
        (631u16, "ipp"@)
    } else if i == 3 {
        (49153u16, "unknown"@)
    } else if i == 4 {
        (8081u16, "blackice-icecap"@)
    } else if i == 5 {
        (2049u16, "nfs"@)
    } else if i == 6 {
        (88u16, "kerberos-sec"@)
    } else if i == 7 {
        (79u16, "finger"@)
    } else if i == 8 {
        (5800u16, "vnc-http"@)
    } else if i == 9 {
        (106u16, "pop3pw"@)
    } else if i == 10 {
        (2121u16, "ccproxy-ftp"@)
    } else if i == 11 {
        (1110u16, "nfsd-status"@)
    } else if i == 12 {
        (49155u16, "unknown"@)
    } else if i == 13 {
        (6000u16, "X11"@)
    } else if i == 14 {
        (513u16, "login"@)
    } else if i == 15 {
        (990u16, "ftps"@)
    } else if i == 16 {
        (5357u16, "wsdapi"@)
    } else if i == 17 {
        (427u16, "svrloc"@)
    } else if i == 18 {
        (49156u16, "unknown"@)
    } else if i == 19 {
        (543u16, "klogin"@)
    } else if i == 20 {
        (544u16, "kshell"@)
    } else if i == 21 {
        (5101u16, "admdog"@)
    } else if i == 22 {
        (144u16, "news"@)
    } else if i == 23 {
        (7u16, "echo"@)
    } else if i == 24 {
        (389u16, "ldap"@)
    } else if i == 25 {
        (8009u16, "ajp13"@)
    } else if i == 26 {
        (3128u16, "squid-http"@)
    } else if i == 27 {
        (444u16, "snpp"@)
    } else if i == 28 {
        (9999u16, "abyss"@)
    } else if i == 29 {
        (5009u16, "airport-admin"@)
    } else if i == 30 {
        (7070u16, "realserver"@)
    } else if i == 31 {
        (5190u16, "aol"@)
    } else if i == 32 {
        (3000u16, "ppp"@)
    } else if i == 33 {
        (5432u16, "postgresql"@)
    } else if i == 34 {
        (1900u16, "upnp"@)
    } else if i == 35 {
        (3986u16, "mapper-ws_ethd"@)
    } else if i == 36 {
        (13u16, "daytime"@)
    } else if i == 37 {
        (1029u16, "ms-lsa"@)
    } else if i == 38 {
        (9u16, "discard"@)
    } else if i == 39 {
        (5051u16, "ida-agent"@)
    } else if i == 40 {
        (6646u16, "unknown"@)
    } else if i == 41 {
        (49157u16, "unknown"@)
    } else if i == 42 {
        (1028u16, "unknown"@)
    } else if i == 43 {
        (873u16, "rsync"@)
    } else if i == 44 {
        (1755u16, "wms"@)
    } else if i == 45 {
        (2717u16, "pn-requester"@)
    } else if i == 46 {
        (4899u16, "radmin"@)
    } else if i == 47 {
        (9100u16, "jetdirect"@)
    } else if i == 48 {
        (119u16, "nntp"@)
    } else {
        (37u16, "time"@)
    }
}

closed spec fn chunk_entry_2(i: int) -> (u16, Seq<char>) {
    if i == 0 {
        (1000u16, "cadlock"@)
    } else if i == 1 {
        (3001u16, "nessus"@)
    } else if i == 2 {
        (5001u16, "commplex-link"@)
    } else if i == 3 {
        (82u16, "xfer"@)
    } else if i == 4 {
        (10010u16, "rxapi"@)
    } else if i == 5 {
        (1030u16, "iad1"@)
    } else if i == 6 {
        (9090u16, "zeus-admin"@)
    } else if i == 7 {
        (2107u16, "msmq-mgmt"@)
    } else if i == 8 {
        (1024u16, "kdm"@)
    } else if i == 9 {
        (2103u16, "zephyr-clt"@)
    } else if i == 10 {
        (6004u16, "X11:4"@)
    } else if i == 11 {
        (1801u16, "msmq"@)
    } else if i == 12 {
        (5050u16, "mmcc"@)
    } else if i == 13 {
        (19u16, "chargen"@)
    } else if i == 14 {
        (8031u16, "unknown"@)
    } else if i == 15 {
        (1041u16, "danf-ak2"@)
    } else if i == 16 {
        (255u16, "unknown"@)
    } else if i == 17 {
        (1049u16, "td-postman"@)
    } else if i == 18 {
        (1048u16, "neod2"@)
    } else if i == 19 {
        (2967u16, "symantec-av"@)
    } else if i == 20 {
        (1053u16, "remote-as"@)
    } else if i == 21 {
        (3703u16, "adobeserver-3"@)
    } else if i == 22 {
        (1056u16, "vfo"@)
    } else if i == 23 {
        (1065u16, "syscomlan"@)
    } else if i == 24 {
        (1064u16, "jstel"@)
    } else if i == 25 {
        (1054u16, "brvread"@)
    } else if i == 26 {
        (17u16, "qotd"@)
    } else if i == 27 {
        (808u16, "ccproxy-http"@)
    } else if i == 28 {
        (3689u16, "rendezvous"@)
    } else if i == 29 {
        (1031u16, "iad2"@)
    } else if i == 30 {
        (1044u16, "dcutility"@)
    } else if i == 31 {
        (1071u16, "bsquare-voip"@)
    } else if i == 32 {
        (5901u16, "vnc-1"@)
    } else if i == 33 {
        (9102u16, "jetdirect"@)
    } else if i == 34 {
        (100u16, "newacct"@)
    } else if i == 35 {
        (8010u16, "xmpp"@)
    } else if i == 36 {
        (2869u16, "icslap"@)
    } else if i == 37 {
        (1039u16, "sbl"@)
    } else if i == 38 {
        (5120u16, "barracuda-bbs"@)
    } else if i == 39 {
        (4001u16, "newoak"@)
    } else if i == 40 {
        (9000u16, "cslistener"@)
    } else if i == 41 {
        (2105u16, "eklogin"@)
    } else if i == 42 {
        (636u16, "ldapssl"@)
    } else if i == 43 {
        (1038u16, "mtqp"@)
    } else if i == 44 {
        (2601u16, "zebra"@)
    } else if i == 45 {
        (1u16, "tcpmux"@)
    } else if i == 46 {
        (7000u16, "afs3-fileserver"@)
    } else if i == 47 {
        (1066u16, "fpo-fns"@)
    } else if i == 48 {
        (1069u16, "cognex-insight"@)
    } else {
        (625u16, "apple-xsrvr-admin"@)
    }
}

closed spec fn chunk_entry_3(i: int) -> (u16, Seq<char>) {
    if i == 0 {
        (311u16, "asip-webadmin"@)
    } else if i == 1 {
        (280u16, "http-mgmt"@)
    } else if i == 2 {
        (254u16, "unknown"@)
    } else if i == 3 {
        (4000u16, "remoteanything"@)
    } else if i == 4 {
        (1761u16, "landesk-rc"@)
    } else if i == 5 {
        (5003u16, "filemaker"@)
    } else if i == 6 {
        (2002u16, "globe"@)
    } else if i == 7 {
        (2005u16, "deslogin"@)
    } else if i == 8 {
        (1998u16, "x25-svc-port"@)
    } else if i == 9 {
        (1032u16, "iad3"@)
    } else if i == 10 {
        (1050u16, "java-or-OTGfileshare"@)
    } else if i == 11 {
        (6112u16, "dtspc"@)
    } else if i == 12 {
        (3690u16, "svn"@)
    } else if i == 13 {
        (1521u16, "oracle"@)
    } else if i == 14 {
        (2161u16, "apc-agent"@)
    } else if i == 15 {
        (6002u16, "X11:2"@)
    } else if i == 16 {
        (1080u16, "socks"@)
    } else if i == 17 {
        (2401u16, "cvspserver"@)
    } else if i == 18 {
        (4045u16, "lockd"@)
    } else if i == 19 {
        (902u16, "iss-realsecure"@)
    } else if i == 20 {
        (7937u16, "nsrexecd"@)
    } else if i == 21 {
        (787u16, "qsc"@)
    } else if i == 22 {
        (1058u16, "nim"@)
    } else if i == 23 {
        (2383u16, "ms-olap4"@)
    } else if i == 24 {
        (32771u16, "sometimes-rpc5"@)
    } else if i == 25 {
        (1033u16, "netinfo"@)
    } else if i == 26 {
        (1040u16, "netsaint"@)
    } else if i == 27 {
        (1059u16, "nimreg"@)
    } else if i == 28 {
        (50000u16, "ibm-db2"@)
    } else if i == 29 {
        (5555u16, "freeciv"@)
    } else if i == 30 {
        (10001u16, "scp-config"@)
    } else if i == 31 {
        (1494u16, "citrix-ica"@)
    } else if i == 32 {
        (593u16, "http-rpc-epmap"@)
    } else if i == 33 {
        (2301u16, "compaqdiag"@)
    } else if i == 34 {
        (3u16, "compressnet"@)
    } else if i == 35 {
        (3268u16, "globalcatLDAP"@)
    } else if i == 36 {
        (7938u16, "lgtomapper"@)
    } else if i == 37 {
        (1234u16, "hotline"@)
    } else if i == 38 {
        (1022u16, "exp2"@)
    } else if i == 39 {
        (1074u16, "warmspotMgmt"@)
    } else if i == 40 {
        (8002u16, "teradataordbms"@)
    } else if i == 41 {
        (1036u16, "nsstp"@)
    } else if i == 42 {
        (1035u16, "multidropper"@)
    } else if i == 43 {
        (9001u16, "tor-orport"@)
    } else if i == 44 {
        (1037u16, "ams"@)
    } else if i == 45 {
        (464u16, "kpasswd5"@)
    } else if i == 46 {
        (497u16, "retrospect"@)
    } else if i == 47 {
        (1935u16, "rtmp"@)
    } else if i == 48 {
        (6666u16, "irc"@)
    } else {
        (2003u16, "finger"@)
    }
}

closed spec fn chunk_entry_4(i: int) -> (u16, Seq<char>) {
    if i == 0 {
        (6543u16, "mythtv"@)
    } else if i == 1 {
        (1352u16, "lotusnotes"@)
    } else if i == 2 {
        (24u16, "priv-mail"@)
    } else if i == 3 {
        (3269u16, "globalcatLDAPssl"@)
    } else if i == 4 {
        (1111u16, "lmsocialserver"@)
    } else if i == 5 {
        (407u16, "timbuktu"@)
    } else if i == 6 {
        (500u16, "isakmp"@)
    } else if i == 7 {
        (20u16, "ftp-data"@)
    } else if i == 8 {
        (2006u16, "invokator"@)
    } else if i == 9 {
        (3260u16, "iscsi"@)
    } else if i == 10 {
        (15000u16, "hydap"@)
    } else if i == 11 {
        (1218u16, "aeroflight-ads"@)
    } else if i == 12 {
        (1034u16, "zincite-a"@)
    } else if i == 13 {
        (4444u16, "krb524"@)
    } else if i == 14 {
        (264u16, "bgmp"@)
    } else if i == 15 {
        (2004u16, "mailbox"@)
    } else if i == 16 {
        (33u16, "dsp"@)
    } else if i == 17 {
        (1042u16, "afrog"@)
    } else if i == 18 {
        (42510u16, "caerpc"@)
    } else if i == 19 {
        (999u16, "garcon"@)
    } else if i == 20 {
        (3052u16, "powerchute"@)
    } else if i == 21 {
        (1023u16, "netvenuechat"@)
    } else if i == 22 {
        (1068u16, "instl_bootc"@)
    } else if i == 23 {
        (222u16, "rsh-spx"@)
    } else if i == 24 {
        (7100u16, "font-service"@)
    } else if i == 25 {
        (888u16, "accessbuilder"@)
    } else if i == 26 {
        (563u16, "snews"@)
    } else if i == 27 {
        (1717u16, "fj-hdnet"@)
    } else if i == 28 {
        (2008u16, "conf"@)
    } else if i == 29 {
        (992u16, "telnets"@)
    } else if i == 30 {
        (32770u16, "sometimes-rpc3"@)
    } else if i == 31 {
        (32772u16, "sometimes-rpc7"@)
    } else if i == 32 {
        (7001u16, "afs3-callback"@)
    } else if i == 33 {
        (8082u16, "blackice-alerts"@)
    } else if i == 34 {
        (2007u16, "dectalk"@)
    } else if i == 35 {
        (5550u16, "sdadmind"@)
    } else if i == 36 {
        (2009u16, "news"@)
    } else if i == 37 {
        (5801u16, "vnc-http-1"@)
    } else if i == 38 {
        (1043u16, "boinc"@)
    } else if i == 39 {
        (512u16, "exec"@)
    } else if i == 40 {
        (2701u16, "sms-rcinfo"@)
    } else if i == 41 {
        (7019u16, "doceri-ctl"@)
    } else if i == 42 {
        (50001u16, "unknown"@)
    } else if i == 43 {
        (1700u16, "mps-raft"@)
    } else if i == 44 {
        (4662u16, "edonkey"@)
    } else if i == 45 {
        (2065u16, "dlsrpn"@)
    } else if i == 46 {
        (2010u16, "search"@)
    } else if i == 47 {
        (42u16, "nameserver"@)
    } else if i == 48 {
        (9535u16, "man"@)
    } else {
        (2602u16, "ripd"@)
    }
}

closed spec fn chunk_entry_5(i: int) -> (u16, Seq<char>) {
    if i == 0 {
        (3333u16, "dec-notes"@)
    } else if i == 1 {
        (161u16, "snmp"@)
    } else if i == 2 {
        (5100u16, "admd"@)
    } else if i == 3 {
        (5002u16, "rfe"@)
    } else if i == 4 {
        (2604u16, "ospfd"@)
    } else if i == 5 {
        (4002u16, "mlchat-proxy"@)
    } else if i == 6 {
        (6059u16, "X11:59"@)
    } else if i == 7 {
        (1047u16, "neod1"@)
    } else if i == 8 {
        (8192u16, "sophos"@)
    } else if i == 9 {
        (8193u16, "sophos"@)
    } else if i == 10 {
        (2702u16, "sms-xfer"@)
    } else if i == 11 {
        (6789u16, "ibm-db2-admin"@)
    } else if i == 12 {
        (9595u16, "pds"@)
    } else if i == 13 {
        (1051u16, "optima-vnet"@)
    } else if i == 14 {
        (9594u16, "msgsys"@)
    } else if i == 15 {
        (9593u16, "cba8"@)
    } else if i == 16 {
        (16993u16, "amt-soap-https"@)
    } else if i == 17 {
        (16992u16, "amt-soap-http"@)
    } else if i == 18 {
        (5226u16, "hp-status"@)
    } else if i == 19 {
        (5225u16, "hp-server"@)
    } else if i == 20 {
        (32769u16, "filenet-rpc"@)
    } else if i == 21 {
        (1052u16, "ddt"@)
    } else if i == 22 {
        (8194u16, "sophos"@)
    } else if i == 23 {
        (1055u16, "ansyslmd"@)
    } else if i == 24 {
        (3283u16, "netassistant"@)
    } else if i == 25 {
        (1062u16, "veracity"@)
    } else if i == 26 {
        (9415u16, "unknown"@)
    } else if i == 27 {
        (8701u16, "unknown"@)
    } else if i == 28 {
        (8652u16, "unknown"@)
    } else if i == 29 {
        (8651u16, "unknown"@)
    } else if i == 30 {
        (8089u16, "unknown"@)
    } else if i == 31 {
        (65389u16, "unknown"@)
    } else if i == 32 {
        (65000u16, "unknown"@)
    } else if i == 33 {
        (64680u16, "unknown"@)
    } else if i == 34 {
        (64623u16, "unknown"@)
    } else if i == 35 {
        (55600u16, "unknown"@)
    } else if i == 36 {
        (55555u16, "unknown"@)
    } else if i == 37 {
        (52869u16, "unknown"@)
    } else if i == 38 {
        (35500u16, "unknown"@)
    } else if i == 39 {
        (33354u16, "unknown"@)
    } else if i == 40 {
        (23502u16, "unknown"@)
    } else if i == 41 {
        (20828u16, "unknown"@)
    } else if i == 42 {
        (1311u16, "rxmon"@)
    } else if i == 43 {
        (1060u16, "polestar"@)
    } else if i == 44 {
        (4443u16, "pharos"@)
    } else if i == 45 {
        (1067u16, "instl_boots"@)
    } else if i == 46 {
        (13782u16, "netbackup"@)
    } else if i == 47 {
        (5902u16, "vnc-2"@)
    } else if i == 48 {
        (366u16, "odmr"@)
    } else {
        (9050u16, "tor-socks"@)
    }
}

closed spec fn chunk_entry_6(i: int) -> (u16, Seq<char>) {
    if i == 0 {
        (1002u16, "windows-icfw"@)
    } else if i == 1 {
        (85u16, "mit-ml-dev"@)
    } else if i == 2 {
        (5500u16, "hotline"@)
    } else if i == 3 {
        (5431u16, "park-agent"@)
    } else if i == 4 {
        (1864u16, "paradym-31"@)
    } else if i == 5 {
        (1863u16, "msnp"@)
    } else if i == 6 {
        (8085u16, "unknown"@)
    } else if i == 7 {
        (51103u16, "unknown"@)
    } else if i == 8 {
        (49999u16, "unknown"@)
    } else if i == 9 {
        (45100u16, "unknown"@)
    } else if i == 10 {
        (10243u16, "unknown"@)
    } else if i == 11 {
        (49u16, "tacacs"@)
    } else if i == 12 {
        (6667u16, "irc"@)
    } else if i == 13 {
        (90u16, "dnsix"@)
    } else if i == 14 {
        (27000u16, "flexlm0"@)
    } else if i == 15 {
        (1503u16, "imtc-mcs"@)
    } else if i == 16 {
        (6881u16, "bittorrent-tracker"@)
    } else if i == 17 {
        (1500u16, "vlsi-lm"@)
    } else if i == 18 {
        (8021u16, "ftp-proxy"@)
    } else if i == 19 {
        (340u16, "unknown"@)
    } else if i == 20 {
        (5566u16, "westec-connect"@)
    } else if i == 21 {
        (8088u16, "radan-http"@)
    } else if i == 22 {
        (2222u16, "EtherNetIP-1"@)
    } else if i == 23 {
        (9071u16, "unknown"@)
    } else if i == 24 {
        (8899u16, "ospf-lite"@)
    } else if i == 25 {
        (6005u16, "X11:5"@)
    } else if i == 26 {
        (9876u16, "sd"@)
    } else if i == 27 {
        (1501u16, "sas-3"@)
    } else if i == 28 {
        (5102u16, "admeng"@)
    } else if i == 29 {
        (32774u16, "sometimes-rpc11"@)
    } else if i == 30 {
        (32773u16, "sometimes-rpc9"@)
    } else if i == 31 {
        (9101u16, "jetdirect"@)
    } else if i == 32 {
        (5679u16, "activesync"@)
    } else if i == 33 {
        (163u16, "cmip-man"@)
    } else if i == 34 {
        (648u16, "rrp"@)
    } else if i == 35 {
        (146u16, "iso-tp0"@)
    } else if i == 36 {
        (1666u16, "netview-aix-6"@)
    } else if i == 37 {
        (901u16, "samba-swat"@)
    } else if i == 38 {
        (83u16, "mit-ml-dev"@)
    } else if i == 39 {
        (9207u16, "wap-vcal-s"@)
    } else if i == 40 {
        (8001u16, "vcom-tunnel"@)
    } else if i == 41 {
        (8083u16, "us-srv"@)
    } else if i == 42 {
        (8084u16, "websnp"@)
    } else if i == 43 {
        (5004u16, "avt-profile-1"@)
    } else if i == 44 {
        (3476u16, "nppmp"@)
    } else if i == 45 {
        (5214u16, "unknown"@)
    } else if i == 46 {
        (14238u16, "unknown"@)
    } else if i == 47 {
        (12345u16, "netbus"@)
    } else if i == 48 {
        (912u16, "apex-mesh"@)
    } else {
        (30u16, "unknown"@)
    }
}

closed spec fn chunk_entry_7(i: int) -> (u16, Seq<char>) {
    if i == 0 {
        (2605u16, "bgpd"@)
    } else if i == 1 {
        (2030u16, "device2"@)
    } else if i == 2 {
        (6u16, "unknown"@)
    } else if i == 3 {
        (541u16, "uucp-rlogin"@)
    } else if i == 4 {
        (8007u16, "ajp12"@)
    } else if i == 5 {
        (3005u16, "deslogin"@)
    } else if i == 6 {
        (4u16, "unknown"@)
    } else if i == 7 {
        (1248u16, "hermes"@)
    } else if i == 8 {
        (2500u16, "rtsserv"@)
    } else if i == 9 {
        (880u16, "unknown"@)
    } else if i == 10 {
        (306u16, "unknown"@)
    } else if i == 11 {
        (4242u16, "vrml-multi-use"@)
    } else if i == 12 {
        (1097u16, "sunclustermgr"@)
    } else if i == 13 {
        (9009u16, "pichat"@)
    } else if i == 14 {
        (2525u16, "ms-v-worlds"@)
    } else if i == 15 {
        (1086u16, "cplscrambler-lg"@)
    } else if i == 16 {
        (1088u16, "cplscrambler-al"@)
    } else if i == 17 {
        (8291u16, "unknown"@)
    } else if i == 18 {
        (52822u16, "unknown"@)
    } else if i == 19 {
        (6101u16, "backupexec"@)
    } else if i == 20 {
        (900u16, "omginitialrefs"@)
    } else if i == 21 {
        (7200u16, "fodms"@)
    } else if i == 22 {
        (2809u16, "corbaloc"@)
    } else if i == 23 {
        (800u16, "mdbs_daemon"@)
    } else if i == 24 {
        (32775u16, "sometimes-rpc13"@)
    } else if i == 25 {
        (12000u16, "cce4x"@)
    } else if i == 26 {
        (1083u16, "ansoft-lm-1"@)
    } else if i == 27 {
        (211u16, "914c-g"@)
    } else if i == 28 {
        (987u16, "unknown"@)
    } else if i == 29 {
        (705u16, "agentx"@)
    } else if i == 30 {
        (20005u16, "btx"@)
    } else if i == 31 {
        (711u16, "cisco-tdp"@)
    } else if i == 32 {
        (13783u16, "netbackup"@)
    } else if i == 33 {
        (6969u16, "acmsoda"@)
    } else if i == 34 {
        (3071u16, "csd-mgmt-port"@)
    } else if i == 35 {
        (5269u16, "xmpp-server"@)
    } else if i == 36 {
        (5222u16, "xmpp-client"@)
    } else if i == 37 {
        (1046u16, "wfremotertm"@)
    } else if i == 38 {
        (1085u16, "webobjects"@)
    } else if i == 39 {
        (5987u16, "wbem-rmi"@)
    } else if i == 40 {
        (5989u16, "wbem-https"@)
    } else if i == 41 {
        (5988u16, "wbem-http"@)
    } else if i == 42 {
        (2190u16, "tivoconnect"@)
    } else if i == 43 {
        (11967u16, "sysinfo-sp"@)
    } else if i == 44 {
        (8600u16, "asterix"@)
    } else if i == 45 {
        (3766u16, "sitewatch-s"@)
    } else if i == 46 {
        (7627u16, "soap-http"@)
    } else if i == 47 {
        (8087u16, "simplifymedia"@)
    } else if i == 48 {
        (30000u16, "ndmps"@)
    } else {
        (9010u16, "sdr"@)
    }
}

closed spec fn chunk_entry_8(i: int) -> (u16, Seq<char>) {
    if i == 0 {
        (7741u16, "scriptview"@)
    } else if i == 1 {
        (14000u16, "scotty-ft"@)
    } else if i == 2 {
        (3367u16, "satvid-datalnk"@)
    } else if i == 3 {
        (1099u16, "rmiregistry"@)
    } else if i == 4 {
        (1098u16, "rmiactivation"@)
    } else if i == 5 {
        (3031u16, "eppc"@)
    } else if i == 6 {
        (2718u16, "pn-requester2"@)
    } else if i == 7 {
        (6580u16, "parsec-master"@)
    } else if i == 8 {
        (15002u16, "onep-tls"@)
    } else if i == 9 {
        (4129u16, "nuauth"@)
    } else if i == 10 {
        (6901u16, "jetstream"@)
    } else if i == 11 {
        (3827u16, "netmpi"@)
    } else if i == 12 {
        (3580u16, "nati-svrloc"@)
    } else if i == 13 {
        (2144u16, "lv-ffx"@)
    } else if i == 14 {
        (9900u16, "iua"@)
    } else if i == 15 {
        (8181u16, "intermapper"@)
    } else if i == 16 {
        (3801u16, "ibm-mgr"@)
    } else if i == 17 {
        (1718u16, "h323gatedisc"@)
    } else if i == 18 {
        (2811u16, "gsiftp"@)
    } else if i == 19 {
        (9080u16, "glrpc"@)
    } else if i == 20 {
        (2135u16, "gris"@)
    } else if i == 21 {
        (1045u16, "fpitp"@)
    } else if i == 22 {
        (2399u16, "fmpro-fdal"@)
    } else if i == 23 {
        (3017u16, "event_listener"@)
    } else if i == 24 {
        (10002u16, "documentum"@)
    } else if i == 25 {
        (1148u16, "elfiq-repl"@)
    } else if i == 26 {
        (9002u16, "dynamid"@)
    } else if i == 27 {
        (8873u16, "dxspider"@)
    } else if i == 28 {
        (2875u16, "dxmessagebase2"@)
    } else if i == 29 {
        (9011u16, "d-star"@)
    } else if i == 30 {
        (5718u16, "dpm"@)
    } else if i == 31 {
        (8086u16, "d-s-n"@)
    } else if i == 32 {
        (3998u16, "dnx"@)
    } else if i == 33 {
        (2607u16, "connection"@)
    } else if i == 34 {
        (11110u16, "sgi-soap"@)
    } else if i == 35 {
        (4126u16, "ddrepl"@)
    } else if i == 36 {
        (5911u16, "cpdlc"@)
    } else if i == 37 {
        (5910u16, "cm"@)
    } else if i == 38 {
        (9618u16, "condor"@)
    } else if i == 39 {
        (2381u16, "compaq-https"@)
    } else if i == 40 {
        (1096u16, "cnrprotocol"@)
    } else if i == 41 {
        (3300u16, "ceph"@)
    } else if i == 42 {
        (3351u16, "btrieve"@)
    } else if i == 43 {
        (1073u16, "bridgecontrol"@)
    } else if i == 44 {
        (8333u16, "bitcoin"@)
    } else if i == 45 {
        (3784u16, "bfd-control"@)
    } else if i == 46 {
        (5633u16, "beorl"@)
    } else if i == 47 {
        (15660u16, "bex-xr"@)
    } else if i == 48 {
        (6123u16, "backup-express"@)
    } else {
        (3211u16, "avsecuremgmt"@)
    }
}

closed spec fn chunk_entry_9(i: int) -> (u16, Seq<char>) {
    if i == 0 {
        (1078u16, "avocent-proxy"@)
    } else if i == 1 {
        (3659u16, "apple-sasl"@)
    } else if i == 2 {
        (3551u16, "apcupsd"@)
    } else if i == 3 {
        (2260u16, "apc-2260"@)
    } else if i == 4 {
        (2160u16, "apc-2160"@)
    } else if i == 5 {
        (2100u16, "amiganetfs"@)
    } else if i == 6 {
        (16001u16, "fmsascon"@)
    } else if i == 7 {
        (3325u16, "active-net"@)
    } else if i == 8 {
        (3323u16, "active-net"@)
    } else if i == 9 {
        (1104u16, "xrl"@)
    } else if i == 10 {
        (9968u16, "unknown"@)
    } else if i == 11 {
        (9503u16, "unknown"@)
    } else if i == 12 {
        (9502u16, "unknown"@)
    } else if i == 13 {
        (9485u16, "unknown"@)
    } else if i == 14 {
        (9290u16, "unknown"@)
    } else if i == 15 {
        (9220u16, "unknown"@)
    } else if i == 16 {
        (8994u16, "unknown"@)
    } else if i == 17 {
        (8649u16, "unknown"@)
    } else if i == 18 {
        (8222u16, "unknown"@)
    } else if i == 19 {
        (7911u16, "unknown"@)
    } else if i == 20 {
        (7625u16, "unknown"@)
    } else if i == 21 {
        (7106u16, "unknown"@)
    } else if i == 22 {
        (65129u16, "unknown"@)
    } else if i == 23 {
        (63331u16, "unknown"@)
    } else if i == 24 {
        (6156u16, "unknown"@)
    } else if i == 25 {
        (6129u16, "unknown"@)
    } else if i == 26 {
        (60020u16, "unknown"@)
    } else if i == 27 {
        (5962u16, "unknown"@)
    } else if i == 28 {
        (5961u16, "unknown"@)
    } else if i == 29 {
        (5960u16, "unknown"@)
    } else if i == 30 {
        (5959u16, "unknown"@)
    } else if i == 31 {
        (5925u16, "unknown"@)
    } else if i == 32 {
        (5877u16, "unknown"@)
    } else if i == 33 {
        (5825u16, "unknown"@)
    } else if i == 34 {
        (5810u16, "unknown"@)
    } else if i == 35 {
        (58080u16, "unknown"@)
    } else if i == 36 {
        (57294u16, "unknown"@)
    } else if i == 37 {
        (50800u16, "unknown"@)
    } else if i == 38 {
        (50006u16, "unknown"@)
    } else if i == 39 {
        (50003u16, "unknown"@)
    } else if i == 40 {
        (49160u16, "unknown"@)
    } else if i == 41 {
        (49159u16, "unknown"@)
    } else if i == 42 {
        (49158u16, "unknown"@)
    } else if i == 43 {
        (48080u16, "unknown"@)
    } else if i == 44 {
        (40193u16, "unknown"@)
    } else if i == 45 {
        (34573u16, "unknown"@)
    } else if i == 46 {
        (34572u16, "unknown"@)
    } else if i == 47 {
        (34571u16, "unknown"@)
    } else if i == 48 {
        (3404u16, "unknown"@)
    } else {
        (33899u16, "unknown"@)
    }
}

closed spec fn chunk_entry_10(i: int) -> (u16, Seq<char>) {
    if i == 0 {
        (3301u16, "unknown"@)
    } else if i == 1 {
        (32782u16, "unknown"@)
    } else if i == 2 {
        (32781u16, "unknown"@)
    } else if i == 3 {
        (31038u16, "unknown"@)
    } else if i == 4 {
        (30718u16, "unknown"@)
    } else if i == 5 {
        (28201u16, "unknown"@)
    } else if i == 6 {
        (27715u16, "unknown"@)
    } else if i == 7 {
        (25734u16, "unknown"@)
    } else if i == 8 {
        (24800u16, "unknown"@)
    } else if i == 9 {
        (22939u16, "unknown"@)
    } else if i == 10 {
        (21571u16, "unknown"@)
    } else if i == 11 {
        (20221u16, "unknown"@)
    } else if i == 12 {
        (20031u16, "unknown"@)
    } else if i == 13 {
        (19842u16, "unknown"@)
    } else if i == 14 {
        (19801u16, "unknown"@)
    } else if i == 15 {
        (19101u16, "unknown"@)
    } else if i == 16 {
        (17988u16, "unknown"@)
    } else if i == 17 {
        (1783u16, "unknown"@)
    } else if i == 18 {
        (16018u16, "unknown"@)
    } else if i == 19 {
        (16016u16, "unknown"@)
    } else if i == 20 {
        (15003u16, "unknown"@)
    } else if i == 21 {
        (14442u16, "unknown"@)
    } else if i == 22 {
        (13456u16, "unknown"@)
    } else if i == 23 {
        (10629u16, "unknown"@)
    } else if i == 24 {
        (10628u16, "unknown"@)
    } else if i == 25 {
        (10626u16, "unknown"@)
    } else if i == 26 {
        (10621u16, "unknown"@)
    } else if i == 27 {
        (10617u16, "unknown"@)
    } else if i == 28 {
        (10616u16, "unknown"@)
    } else if i == 29 {
        (10566u16, "unknown"@)
    } else if i == 30 {
        (10025u16, "unknown"@)
    } else if i == 31 {
        (10024u16, "unknown"@)
    } else if i == 32 {
        (10012u16, "unknown"@)
    } else if i == 33 {
        (1169u16, "tripwire"@)
    } else if i == 34 {
        (5030u16, "surfpass"@)
    } else if i == 35 {
        (5414u16, "statusd"@)
    } else if i == 36 {
        (1057u16, "startron"@)
    } else if i == 37 {
        (6788u16, "smc-http"@)
    } else if i == 38 {
        (1947u16, "sentinelsrm"@)
    } else if i == 39 {
        (1094u16, "rootd"@)
    } else if i == 40 {
        (1075u16, "rdrmshc"@)
    } else if i == 41 {
        (1108u16, "ratio-adp"@)
    } else if i == 42 {
        (4003u16, "pxc-splr-ft"@)
    } else if i == 43 {
        (1081u16, "pvuniwien"@)
    } else if i == 44 {
        (1093u16, "proofd"@)
    } else if i == 45 {
        (4449u16, "privatewire"@)
    } else if i == 46 {
        (1687u16, "nsjtp-ctrl"@)
    } else if i == 47 {
        (1840u16, "netopia-vo2"@)
    } else if i == 48 {
        (1100u16, "mctp"@)
    } else {
        (1063u16, "kyoceranetdev"@)
    }
}

closed spec fn chunk_entry_11(i: int) -> (u16, Seq<char>) {
    if i == 0 {
        (1061u16, "kiosk"@)
    } else if i == 1 {
        (1107u16, "isoipsigport-2"@)
    } else if i == 2 {
        (1106u16, "isoipsigport-1"@)
    } else if i == 3 {
        (9500u16, "ismserver"@)
    } else if i == 4 {
        (20222u16, "ipulse-ics"@)
    } else if i == 5 {
        (7778u16, "interwise"@)
    } else if i == 6 {
        (1077u16, "imgames"@)
    } else if i == 7 {
        (1310u16, "husky"@)
    } else if i == 8 {
        (2119u16, "gsigatekeeper"@)
    } else if i == 9 {
        (2492u16, "groove"@)
    } else if i == 10 {
        (1070u16, "gmrupdateserv"@)
    } else if i == 11 {
        (20000u16, "dnp"@)
    } else if i == 12 {
        (8400u16, "cvd"@)
    } else if i == 13 {
        (1272u16, "cspmlockmgr"@)
    } else if i == 14 {
        (6389u16, "clariion-evr01"@)
    } else if i == 15 {
        (7777u16, "cbt"@)
    } else if i == 16 {
        (1072u16, "cardax"@)
    } else if i == 17 {
        (1079u16, "asprovatalk"@)
    } else if i == 18 {
        (1082u16, "amt-esd-prot"@)
    } else if i == 19 {
        (8402u16, "abarsd"@)
    } else if i == 20 {
        (89u16, "su-mit-tg"@)
    } else if i == 21 {
        (691u16, "resvc"@)
    } else if i == 22 {
        (1001u16, "webpush"@)
    } else if i == 23 {
        (32776u16, "sometimes-rpc15"@)
    } else if i == 24 {
        (1999u16, "tcp-id-port"@)
    } else if i == 25 {
        (212u16, "anet"@)
    } else if i == 26 {
        (2020u16, "xinupageserver"@)
    } else if i == 27 {
        (6003u16, "X11:3"@)
    } else if i == 28 {
        (7002u16, "afs3-prserver"@)
    } else if i == 29 {
        (2998u16, "iss-realsec"@)
    } else if i == 30 {
        (50002u16, "iiimsf"@)
    } else if i == 31 {
        (3372u16, "msdtc"@)
    } else if i == 32 {
        (898u16, "sun-manageconsole"@)
    } else if i == 33 {
        (5510u16, "secureidprop"@)
    } else if i == 34 {
        (32u16, "unknown"@)
    } else if i == 35 {
        (2033u16, "glogger"@)
    } else if i == 36 {
        (5903u16, "vnc-3"@)
    } else if i == 37 {
        (99u16, "metagram"@)
    } else if i == 38 {
        (749u16, "kerberos-adm"@)
    } else if i == 39 {
        (425u16, "icad-el"@)
    } else if i == 40 {
        (43u16, "whois"@)
    } else if i == 41 {
        (5405u16, "pcduo"@)
    } else if i == 42 {
        (6106u16, "isdninfo"@)
    } else if i == 43 {
        (13722u16, "netbackup"@)
    } else if i == 44 {
        (6502u16, "netop-rc"@)
    } else if i == 45 {
        (7007u16, "afs3-bos"@)
    } else if i == 46 {
        (458u16, "appleqtc"@)
    } else if i == 47 {
        (9666u16, "zoomcp"@)
    } else if i == 48 {
        (8100u16, "xprint-server"@)
    } else {
        (3737u16, "xpanel"@)
    }
}

closed spec fn chunk_entry_12(i: int) -> (u16, Seq<char>) {
    if i == 0 {
        (5298u16, "presence"@)
    } else if i == 1 {
        (1152u16, "winpoplanmess"@)
    } else if i == 2 {
        (8090u16, "opsmessaging"@)
    } else if i == 3 {
        (2191u16, "tvbus"@)
    } else if i == 4 {
        (3011u16, "trusted-web"@)
    } else if i == 5 {
        (1580u16, "tn-tl-r1"@)
    } else if i == 6 {
        (9877u16, "x510"@)
    } else if i == 7 {
        (5200u16, "targus-getdata"@)
    } else if i == 8 {
        (3851u16, "spectraport"@)
    } else if i == 9 {
        (3371u16, "satvid-datalnk"@)
    } else if i == 10 {
        (3370u16, "satvid-datalnk"@)
    } else if i == 11 {
        (3369u16, "satvid-datalnk"@)
    } else if i == 12 {
        (7402u16, "rtps-dd-mt"@)
    } else if i == 13 {
        (5054u16, "rlm-admin"@)
    } else if i == 14 {
        (3918u16, "pktcablemmcops"@)
    } else if i == 15 {
        (3077u16, "orbix-loc-ssl"@)
    } else if i == 16 {
        (7443u16, "oracleas-https"@)
    } else if i == 17 {
        (3493u16, "nut"@)
    } else if i == 18 {
        (3828u16, "neteh"@)
    } else if i == 19 {
        (1186u16, "mysql-cluster"@)
    } else if i == 20 {
        (2179u16, "vmrdp"@)
    } else if i == 21 {
        (1183u16, "llsurfup-http"@)
    } else if i == 22 {
        (19315u16, "keyshadow"@)
    } else if i == 23 {
        (19283u16, "keysrvr"@)
    } else if i == 24 {
        (3995u16, "iss-mgmt-ssl"@)
    } else if i == 25 {
        (5963u16, "indy"@)
    } else if i == 26 {
        (1124u16, "hpvmmcontrol"@)
    } else if i == 27 {
        (8500u16, "fmtp"@)
    } else if i == 28 {
        (1089u16, "ff-annunc"@)
    } else if i == 29 {
        (10004u16, "emcrmirccd"@)
    } else if i == 30 {
        (2251u16, "dif-port"@)
    } else if i == 31 {
        (1087u16, "cplscrambler-in"@)
    } else if i == 32 {
        (5280u16, "xmpp-bosh"@)
    } else if i == 33 {
        (3871u16, "avocent-adsap"@)
    } else if i == 34 {
        (3030u16, "arepa-cas"@)
    } else if i == 35 {
        (62078u16, "iphone-sync"@)
    } else if i == 36 {
        (9091u16, "xmltec-xmlmail"@)
    } else if i == 37 {
        (4111u16, "xgrid"@)
    } else if i == 38 {
        (1334u16, "writesrv"@)
    } else if i == 39 {
        (3261u16, "winshadow"@)
    } else if i == 40 {
        (2522u16, "windb"@)
    } else if i == 41 {
        (5859u16, "wherehoo"@)
    } else if i == 42 {
        (1247u16, "visionpyramid"@)
    } else if i == 43 {
        (9944u16, "unknown"@)
    } else if i == 44 {
        (9943u16, "unknown"@)
    } else if i == 45 {
        (9110u16, "unknown"@)
    } else if i == 46 {
        (8654u16, "unknown"@)
    } else if i == 47 {
        (8254u16, "unknown"@)
    } else if i == 48 {
        (8180u16, "unknown"@)
    } else {
        (8011u16, "unknown"@)
    }
}

closed spec fn chunk_entry_13(i: int) -> (u16, Seq<char>) {
    if i == 0 {
        (7512u16, "unknown"@)
    } else if i == 1 {
        (7435u16, "unknown"@)
    } else if i == 2 {
        (7103u16, "unknown"@)
    } else if i == 3 {
        (61900u16, "unknown"@)
    } else if i == 4 {
        (61532u16, "unknown"@)
    } else if i == 5 {
        (5922u16, "unknown"@)
    } else if i == 6 {
        (5915u16, "unknown"@)
    } else if i == 7 {
        (5904u16, "unknown"@)
    } else if i == 8 {
        (5822u16, "unknown"@)
    } else if i == 9 {
        (56738u16, "unknown"@)
    } else if i == 10 {
        (55055u16, "unknown"@)
    } else if i == 11 {
        (51493u16, "unknown"@)
    } else if i == 12 {
        (50636u16, "unknown"@)
    } else if i == 13 {
        (50389u16, "unknown"@)
    } else if i == 14 {
        (49175u16, "unknown"@)
    } else if i == 15 {
        (49165u16, "unknown"@)
    } else if i == 16 {
        (49163u16, "unknown"@)
    } else if i == 17 {
        (3546u16, "unknown"@)
    } else if i == 18 {
        (32784u16, "unknown"@)
    } else if i == 19 {
        (27355u16, "unknown"@)
    } else if i == 20 {
        (27353u16, "unknown"@)
    } else if i == 21 {
        (27352u16, "unknown"@)
    } else if i == 22 {
        (24444u16, "unknown"@)
    } else if i == 23 {
        (19780u16, "unknown"@)
    } else if i == 24 {
        (18988u16, "unknown"@)
    } else if i == 25 {
        (16012u16, "unknown"@)
    } else if i == 26 {
        (15742u16, "unknown"@)
    } else if i == 27 {
        (10778u16, "unknown"@)
    } else if i == 28 {
        (4006u16, "pxc-spvr"@)
    } else if i == 29 {
        (2126u16, "pktcable-cops"@)
    } else if i == 30 {
        (4446u16, "n1-fwp"@)
    } else if i == 31 {
        (3880u16, "igrs"@)
    } else if i == 32 {
        (1782u16, "hp-hcip"@)
    } else if i == 33 {
        (1296u16, "dproxy"@)
    } else if i == 34 {
        (9998u16, "distinct32"@)
    } else if i == 35 {
        (9040u16, "tor-trans"@)
    } else if i == 36 {
        (32779u16, "sometimes-rpc21"@)
    } else if i == 37 {
        (1021u16, "exp1"@)
    } else if i == 38 {
        (32777u16, "sometimes-rpc17"@)
    } else if i == 39 {
        (2021u16, "servexec"@)
    } else if i == 40 {
        (32778u16, "sometimes-rpc19"@)
    } else if i == 41 {
        (616u16, "sco-sysmgr"@)
    } else if i == 42 {
        (666u16, "doom"@)
    } else if i == 43 {
        (700u16, "epp"@)
    } else if i == 44 {
        (5802u16, "vnc-http-2"@)
    } else if i == 45 {
        (4321u16, "rwhois"@)
    } else if i == 46 {
        (545u16, "ekshell"@)
    } else if i == 47 {
        (1524u16, "ingreslock"@)
    } else if i == 48 {
        (1112u16, "msql"@)
    } else {
        (49400u16, "compaqdiag"@)
    }
}

closed spec fn chunk_entry_14(i: int) -> (u16, Seq<char>) {
    if i == 0 {
        (84u16, "ctf"@)
    } else if i == 1 {
        (38292u16, "landesk-cba"@)
    } else if i == 2 {
        (2040u16, "lam"@)
    } else if i == 3 {
        (32780u16, "sometimes-rpc23"@)
    } else if i == 4 {
        (3006u16, "deslogind"@)
    } else if i == 5 {
        (2111u16, "kx"@)
    } else if i == 6 {
        (1084u16, "ansoft-lm-2"@)
    } else if i == 7 {
        (1600u16, "issd"@)
    } else if i == 8 {
        (2048u16, "dls-monitor"@)
    } else if i == 9 {
        (2638u16, "sybase"@)
    } else if i == 10 {
        (9111u16, "DragonIDSConsole"@)
    } else if i == 11 {
        (6699u16, "napster"@)
    } else if i == 12 {
        (16080u16, "osxwebadmin"@)
    } else if i == 13 {
        (6547u16, "powerchuteplus"@)
    } else if i == 14 {
        (6007u16, "X11:7"@)
    } else if i == 15 {
        (1533u16, "virtual-places"@)
    } else if i == 16 {
        (5560u16, "isqlplus"@)
    } else if i == 17 {
        (2106u16, "ekshell"@)
    } else if i == 18 {
        (1443u16, "ies-lm"@)
    } else if i == 19 {
        (667u16, "disclose"@)
    } else if i == 20 {
        (720u16, "unknown"@)
    } else if i == 21 {
        (2034u16, "scoremgr"@)
    } else if i == 22 {
        (555u16, "dsf"@)
    } else if i == 23 {
        (801u16, "device"@)
    } else if i == 24 {
        (3221u16, "xnm-clear-text"@)
    } else if i == 25 {
        (6025u16, "x11"@)
    } else if i == 26 {
        (3826u16, "wormux"@)
    } else if i == 27 {
        (9200u16, "wap-wsp"@)
    } else if i == 28 {
        (2608u16, "wag-service"@)
    } else if i == 29 {
        (4279u16, "vrml-multi-use"@)
    } else if i == 30 {
        (7025u16, "vmsvc-2"@)
    } else if i == 31 {
        (11111u16, "vce"@)
    } else if i == 32 {
        (3527u16, "beserver-msg-q"@)
    } else if i == 33 {
        (1151u16, "unizensus"@)
    } else if i == 34 {
        (8200u16, "trivnet1"@)
    } else if i == 35 {
        (8300u16, "tmi"@)
    } else if i == 36 {
        (6689u16, "tsa"@)
    } else if i == 37 {
        (9878u16, "kca-service"@)
    } else if i == 38 {
        (10009u16, "swdtp-sv"@)
    } else if i == 39 {
        (8800u16, "sunwebadmin"@)
    } else if i == 40 {
        (5730u16, "unieng"@)
    } else if i == 41 {
        (2394u16, "ms-olap2"@)
    } else if i == 42 {
        (2393u16, "ms-olap1"@)
    } else if i == 43 {
        (2725u16, "msolap-ptp2"@)
    } else if i == 44 {
        (5061u16, "sip-tls"@)
    } else if i == 45 {
        (6566u16, "sane-port"@)
    } else if i == 46 {
        (9081u16, "cisco-aqos"@)
    } else if i == 47 {
        (5678u16, "rrac"@)
    } else if i == 48 {
        (3800u16, "pwgpsi"@)
    } else {
        (4550u16, "gds-adppiw-db"@)
    }
}

closed spec fn chunk_entry_15(i: int) -> (u16, Seq<char>) {
    if i == 0 {
        (5080u16, "onscreen"@)
    } else if i == 1 {
        (1201u16, "nucleus-sand"@)
    } else if i == 2 {
        (3168u16, "poweronnud"@)
    } else if i == 3 {
        (3814u16, "neto-dcs"@)
    } else if i == 4 {
        (1862u16, "mysql-cm-agent"@)
    } else if i == 5 {
        (1114u16, "mini-sql"@)
    } else if i == 6 {
        (6510u16, "mcer-port"@)
    } else if i == 7 {
        (3905u16, "mupdate"@)
    } else if i == 8 {
        (8383u16, "m2mservices"@)
    } else if i == 9 {
        (3914u16, "listcrt-port-2"@)
    } else if i == 10 {
        (3971u16, "lanrevserver"@)
    } else if i == 11 {
        (3809u16, "apocd"@)
    } else if i == 12 {
        (5033u16, "jtnetd-server"@)
    } else if i == 13 {
        (7676u16, "imqbrokerd"@)
    } else if i == 14 {
        (3517u16, "802-11-iapp"@)
    } else if i == 15 {
        (4900u16, "hfcs"@)
    } else if i == 16 {
        (3869u16, "ovsam-mgmt"@)
    } else if i == 17 {
        (9418u16, "git"@)
    } else if i == 18 {
        (2909u16, "funk-dialout"@)
    } else if i == 19 {
        (3878u16, "fotogcad"@)
    } else if i == 20 {
        (8042u16, "fs-agent"@)
    } else if i == 21 {
        (1091u16, "ff-sm"@)
    } else if i == 22 {
        (1090u16, "ff-fms"@)
    } else if i == 23 {
        (3920u16, "exasoftport1"@)
    } else if i == 24 {
        (6567u16, "esp"@)
    } else if i == 25 {
        (1138u16, "encrypted_admin"@)
    } else if i == 26 {
        (3945u16, "emcads"@)
    } else if i == 27 {
        (1175u16, "dossier"@)
    } else if i == 28 {
        (10003u16, "documentum_s"@)
    } else if i == 29 {
        (3390u16, "dsc"@)
    } else if i == 30 {
        (3889u16, "dandv-tester"@)
    } else if i == 31 {
        (1131u16, "caspssl"@)
    } else if i == 32 {
        (8292u16, "blp3"@)
    } else if i == 33 {
        (5087u16, "biotic"@)
    } else if i == 34 {
        (1119u16, "bnetgame"@)
    } else if i == 35 {
        (1117u16, "ardus-mtrns"@)
    } else if i == 36 {
        (7800u16, "asr"@)
    } else if i == 37 {
        (4848u16, "appserv-http"@)
    } else if i == 38 {
        (16000u16, "fmsas"@)
    } else if i == 39 {
        (3324u16, "active-net"@)
    } else if i == 40 {
        (3322u16, "active-net"@)
    } else if i == 41 {
        (5221u16, "3exmp"@)
    } else if i == 42 {
        (4445u16, "upnotifyp"@)
    } else if i == 43 {
        (9917u16, "unknown"@)
    } else if i == 44 {
        (9575u16, "unknown"@)
    } else if i == 45 {
        (9099u16, "unknown"@)
    } else if i == 46 {
        (9003u16, "unknown"@)
    } else if i == 47 {
        (8290u16, "unknown"@)
    } else if i == 48 {
        (8099u16, "unknown"@)
    } else {
        (8093u16, "unknown"@)
    }
}

closed spec fn chunk_entry_16(i: int) -> (u16, Seq<char>) {
    if i == 0 {
        (8045u16, "unknown"@)
    } else if i == 1 {
        (7921u16, "unknown"@)
    } else if i == 2 {
        (7920u16, "unknown"@)
    } else if i == 3 {
        (7496u16, "unknown"@)
    } else if i == 4 {
        (6839u16, "unknown"@)
    } else if i == 5 {
        (6792u16, "unknown"@)
    } else if i == 6 {
        (6779u16, "unknown"@)
    } else if i == 7 {
        (6692u16, "unknown"@)
    } else if i == 8 {
        (6565u16, "unknown"@)
    } else if i == 9 {
        (60443u16, "unknown"@)
    } else if i == 10 {
        (5952u16, "unknown"@)
    } else if i == 11 {
        (5950u16, "unknown"@)
    } else if i == 12 {
        (5907u16, "unknown"@)
    } else if i == 13 {
        (5906u16, "unknown"@)
    } else if i == 14 {
        (5862u16, "unknown"@)
    } else if i == 15 {
        (5850u16, "unknown"@)
    } else if i == 16 {
        (5815u16, "unknown"@)
    } else if i == 17 {
        (5811u16, "unknown"@)
    } else if i == 18 {
        (57797u16, "unknown"@)
    } else if i == 19 {
        (56737u16, "unknown"@)
    } else if i == 20 {
        (5544u16, "unknown"@)
    } else if i == 21 {
        (55056u16, "unknown"@)
    } else if i == 22 {
        (5440u16, "unknown"@)
    } else if i == 23 {
        (54328u16, "unknown"@)
    } else if i == 24 {
        (54045u16, "unknown"@)
    } else if i == 25 {
        (52848u16, "unknown"@)
    } else if i == 26 {
        (52673u16, "unknown"@)
    } else if i == 27 {
        (50500u16, "unknown"@)
    } else if i == 28 {
        (50300u16, "unknown"@)
    } else if i == 29 {
        (49176u16, "unknown"@)
    } else if i == 30 {
        (49167u16, "unknown"@)
    } else if i == 31 {
        (49161u16, "unknown"@)
    } else if i == 32 {
        (44501u16, "unknown"@)
    } else if i == 33 {
        (44176u16, "unknown"@)
    } else if i == 34 {
        (41511u16, "unknown"@)
    } else if i == 35 {
        (40911u16, "unknown"@)
    } else if i == 36 {
        (32785u16, "unknown"@)
    } else if i == 37 {
        (32783u16, "unknown"@)
    } else if i == 38 {
        (30951u16, "unknown"@)
    } else if i == 39 {
        (27356u16, "unknown"@)
    } else if i == 40 {
        (26214u16, "unknown"@)
    } else if i == 41 {
        (25735u16, "unknown"@)
    } else if i == 42 {
        (19350u16, "unknown"@)
    } else if i == 43 {
        (18101u16, "unknown"@)
    } else if i == 44 {
        (18040u16, "unknown"@)
    } else if i == 45 {
        (17877u16, "unknown"@)
    } else if i == 46 {
        (16113u16, "unknown"@)
    } else if i == 47 {
        (15004u16, "unknown"@)
    } else if i == 48 {
        (14441u16, "unknown"@)
    } else {
        (12265u16, "unknown"@)
    }
}

closed spec fn chunk_entry_17(i: int) -> (u16, Seq<char>) {
    if i == 0 {
        (12174u16, "unknown"@)
    } else if i == 1 {
        (10215u16, "unknown"@)
    } else if i == 2 {
        (10180u16, "unknown"@)
    } else if i == 3 {
        (4567u16, "tram"@)
    } else if i == 4 {
        (6100u16, "synchronet-db"@)
    } else if i == 5 {
        (4004u16, "pxc-roid"@)
    } else if i == 6 {
        (4005u16, "pxc-pin"@)
    } else if i == 7 {
        (8022u16, "oa-system"@)
    } else if i == 8 {
        (9898u16, "monkeycom"@)
    } else if i == 9 {
        (7999u16, "irdmi2"@)
    } else if i == 10 {
        (1271u16, "excw"@)
    } else if i == 11 {
        (1199u16, "dmidi"@)
    } else if i == 12 {
        (3003u16, "cgms"@)
    } else if i == 13 {
        (1122u16, "availant-mgr"@)
    } else if i == 14 {
        (2323u16, "3d-nfsd"@)
    } else if i == 15 {
        (4224u16, "xtell"@)
    } else if i == 16 {
        (2022u16, "down"@)
    } else if i == 17 {
        (617u16, "sco-dtmgr"@)
    } else if i == 18 {
        (777u16, "multiling-http"@)
    } else if i == 19 {
        (417u16, "onmux"@)
    } else if i == 20 {
        (714u16, "iris-xpcs"@)
    } else if i == 21 {
        (6346u16, "gnutella"@)
    } else if i == 22 {
        (981u16, "unknown"@)
    } else if i == 23 {
        (722u16, "unknown"@)
    } else if i == 24 {
        (1009u16, "unknown"@)
    } else if i == 25 {
        (4998u16, "maybe-veritas"@)
    } else if i == 26 {
        (70u16, "gopher"@)
    } else if i == 27 {
        (1076u16, "sns_credit"@)
    } else if i == 28 {
        (5999u16, "ncd-conf"@)
    } else if i == 29 {
        (10082u16, "amandaidx"@)
    } else if i == 30 {
        (765u16, "webster"@)
    } else if i == 31 {
        (301u16, "unknown"@)
    } else if i == 32 {
        (524u16, "ncp"@)
    } else if i == 33 {
        (668u16, "mecomm"@)
    } else if i == 34 {
        (2041u16, "interbase"@)
    } else if i == 35 {
        (6009u16, "X11:9"@)
    } else if i == 36 {
        (1417u16, "timbuktu-srv1"@)
    } else if i == 37 {
        (1434u16, "ms-sql-m"@)
    } else if i == 38 {
        (259u16, "esro-gen"@)
    } else if i == 39 {
        (44443u16, "coldfusion-auth"@)
    } else if i == 40 {
        (1984u16, "bigbrother"@)
    } else if i == 41 {
        (2068u16, "avocentkvm"@)
    } else if i == 42 {
        (7004u16, "afs3-kaserver"@)
    } else if i == 43 {
        (1007u16, "unknown"@)
    } else if i == 44 {
        (4343u16, "unicall"@)
    } else if i == 45 {
        (416u16, "silverplatter"@)
    } else if i == 46 {
        (2038u16, "objectmanager"@)
    } else if i == 47 {
        (6006u16, "X11:6"@)
    } else if i == 48 {
        (109u16, "pop2"@)
    } else {
        (4125u16, "rww"@)
    }
}

closed spec fn chunk_entry_18(i: int) -> (u16, Seq<char>) {
    if i == 0 {
        (1461u16, "ibm_wrless_lan"@)
    } else if i == 1 {
        (9103u16, "jetdirect"@)
    } else if i == 2 {
        (911u16, "xact-backup"@)
    } else if i == 3 {
        (726u16, "unknown"@)
    } else if i == 4 {
        (1010u16, "surf"@)
    } else if i == 5 {
        (2046u16, "sdfunc"@)
    } else if i == 6 {
        (2035u16, "imsldoc"@)
    } else if i == 7 {
        (7201u16, "dlip"@)
    } else if i == 8 {
        (687u16, "asipregistry"@)
    } else if i == 9 {
        (2013u16, "raid-am"@)
    } else if i == 10 {
        (481u16, "dvs"@)
    } else if i == 11 {
        (125u16, "locus-map"@)
    } else if i == 12 {
        (6669u16, "irc"@)
    } else if i == 13 {
        (6668u16, "irc"@)
    } else if i == 14 {
        (903u16, "iss-console-mgr"@)
    } else if i == 15 {
        (1455u16, "esl-lm"@)
    } else if i == 16 {
        (683u16, "corba-iiop"@)
    } else if i == 17 {
        (1011u16, "unknown"@)
    } else if i == 18 {
        (2043u16, "isis-bcast"@)
    } else if i == 19 {
        (2047u16, "dls"@)
    } else if i == 20 {
        (256u16, "fw1-secureremote"@)
    } else if i == 21 {
        (9929u16, "nping-echo"@)
    } else if i == 22 {
        (5998u16, "ncd-diag"@)
    } else if i == 23 {
        (406u16, "imsp"@)
    } else if i == 24 {
        (31337u16, "Elite"@)
    } else if i == 25 {
        (44442u16, "coldfusion-auth"@)
    } else if i == 26 {
        (783u16, "spamassassin"@)
    } else if i == 27 {
        (843u16, "unknown"@)
    } else if i == 28 {
        (2042u16, "isis"@)
    } else if i == 29 {
        (2045u16, "cdfunc"@)
    } else if i == 30 {
        (4040u16, "yo-main"@)
    } else if i == 31 {
        (1145u16, "x9-icue"@)
    } else if i == 32 {
        (6060u16, "x11"@)
    } else if i == 33 {
        (6051u16, "x11"@)
    } else if i == 34 {
        (3916u16, "wysdmc"@)
    } else if i == 35 {
        (9443u16, "tungsten-https"@)
    } else if i == 36 {
        (9444u16, "wso2esb-console"@)
    } else if i == 37 {
        (1875u16, "westell-stats"@)
    } else if i == 38 {
        (7272u16, "watchme-7272"@)
    } else if i == 39 {
        (4252u16, "vrml-multi-use"@)
    } else if i == 40 {
        (4200u16, "vrml-multi-use"@)
    } else if i == 41 {
        (7024u16, "vmsvc"@)
    } else if i == 42 {
        (1556u16, "veritas_pbx"@)
    } else if i == 43 {
        (13724u16, "vnetd"@)
    } else if i == 44 {
        (1141u16, "mxomss"@)
    } else if i == 45 {
        (1233u16, "univ-appserver"@)
    } else if i == 46 {
        (8765u16, "ultraseek-http"@)
    } else if i == 47 {
        (1137u16, "trim"@)
    } else if i == 48 {
        (3963u16, "thrp"@)
    } else {
        (5938u16, "teamviewer"@)
    }
}

closed spec fn chunk_entry_19(i: int) -> (u16, Seq<char>) {
    if i == 0 {
        (9191u16, "sun-as-jpda"@)
    } else if i == 1 {
        (3808u16, "sun-as-iiops-ca"@)
    } else if i == 2 {
        (8686u16, "sun-as-jmxrmi"@)
    } else if i == 3 {
        (3981u16, "starfish"@)
    } else if i == 4 {
        (2710u16, "sso-service"@)
    } else if i == 5 {
        (3852u16, "sse-app-config"@)
    } else if i == 6 {
        (3849u16, "spw-dnspreload"@)
    } else if i == 7 {
        (3944u16, "sops"@)
    } else if i == 8 {
        (3853u16, "sscan"@)
    } else if i == 9 {
        (9988u16, "nsesrvr"@)
    } else if i == 10 {
        (1163u16, "sddp"@)
    } else if i == 11 {
        (4164u16, "silverpeakcomm"@)
    } else if i == 12 {
        (3820u16, "scp"@)
    } else if i == 13 {
        (6481u16, "servicetags"@)
    } else if i == 14 {
        (3731u16, "smap"@)
    } else if i == 15 {
        (5081u16, "sdl-ets"@)
    } else if i == 16 {
        (40000u16, "safetynetp"@)
    } else if i == 17 {
        (8097u16, "sac"@)
    } else if i == 18 {
        (4555u16, "rsip"@)
    } else if i == 19 {
        (3863u16, "asap-tcp"@)
    } else if i == 20 {
        (1287u16, "routematch"@)
    } else if i == 21 {
        (4430u16, "rsqlserver"@)
    } else if i == 22 {
        (7744u16, "raqmon-pdu"@)
    } else if i == 23 {
        (1812u16, "radius"@)
    } else if i == 24 {
        (7913u16, "qo-secure"@)
    } else if i == 25 {
        (1166u16, "qsm-remote"@)
    } else if i == 26 {
        (1164u16, "qsm-proxy"@)
    } else if i == 27 {
        (1165u16, "qsm-gui"@)
    } else if i == 28 {
        (8019u16, "qbdb"@)
    } else if i == 29 {
        (10160u16, "qb-db-server"@)
    } else if i == 30 {
        (4658u16, "playsta2-app"@)
    } else if i == 31 {
        (7878u16, "owms"@)
    } else if i == 32 {
        (1259u16, "opennl-voice"@)
    } else if i == 33 {
        (1092u16, "obrpd"@)
    } else if i == 34 {
        (3304u16, "opsession-srvr"@)
    } else if i == 35 {
        (3307u16, "opsession-prxy"@)
    } else if i == 36 {
        (7278u16, "oma-dcdocbs"@)
    } else if i == 37 {
        (3872u16, "oem-agent"@)
    } else if i == 38 {
        (10008u16, "octopus"@)
    } else if i == 39 {
        (7725u16, "nitrogen"@)
    } else if i == 40 {
        (3410u16, "networklenss"@)
    } else if i == 41 {
        (1971u16, "netop-school"@)
    } else if i == 42 {
        (3697u16, "nw-license"@)
    } else if i == 43 {
        (3859u16, "nav-port"@)
    } else if i == 44 {
        (3514u16, "must-p2p"@)
    } else if i == 45 {
        (4949u16, "munin"@)
    } else if i == 46 {
        (4147u16, "vrxpservman"@)
    } else if i == 47 {
        (7900u16, "mevent"@)
    } else if i == 48 {
        (5353u16, "mdns"@)
    } else {
        (3931u16, "msr-plugin-port"@)
    }
}

closed spec fn chunk_entry_20(i: int) -> (u16, Seq<char>) {
    if i == 0 {
        (8675u16, "msi-cps-rm"@)
    } else if i == 1 {
        (1277u16, "miva-mqs"@)
    } else if i == 2 {
        (3957u16, "mqe-broker"@)
    } else if i == 3 {
        (1213u16, "mpc-lifenet"@)
    } else if i == 4 {
        (2382u16, "ms-olap3"@)
    } else if i == 5 {
        (6600u16, "mshvlm"@)
    } else if i == 6 {
        (3700u16, "lrs-paging"@)
    } else if i == 7 {
        (3007u16, "lotusmtap"@)
    } else if i == 8 {
        (4080u16, "lorica-in"@)
    } else if i == 9 {
        (1113u16, "ltp-deepspace"@)
    } else if i == 10 {
        (3969u16, "landmarks"@)
    } else if i == 11 {
        (1132u16, "kvm-via-ip"@)
    } else if i == 12 {
        (1309u16, "jtag-server"@)
    } else if i == 13 {
        (7281u16, "itactionserver2"@)
    } else if i == 14 {
        (3848u16, "item"@)
    } else if i == 15 {
        (3907u16, "imoguia-port"@)
    } else if i == 16 {
        (3972u16, "iconp"@)
    } else if i == 17 {
        (3968u16, "ianywhere-dbns"@)
    } else if i == 18 {
        (1217u16, "hpss-ndapi"@)
    } else if i == 19 {
        (1126u16, "hpvmmdata"@)
    } else if i == 20 {
        (5223u16, "hpvirtgrp"@)
    } else if i == 21 {
        (3870u16, "ovsam-d-agent"@)
    } else if i == 22 {
        (3941u16, "homeportal-web"@)
    } else if i == 23 {
        (8293u16, "hiperscan-id"@)
    } else if i == 24 {
        (1300u16, "h323hostcallsc"@)
    } else if i == 25 {
        (1719u16, "h323gatestat"@)
    } else if i == 26 {
        (2099u16, "h2250-annex-g"@)
    } else if i == 27 {
        (6068u16, "gsmp"@)
    } else if i == 28 {
        (3013u16, "gilatskysurfer"@)
    } else if i == 29 {
        (3050u16, "gds_db"@)
    } else if i == 30 {
        (1174u16, "fnet-remote-ui"@)
    } else if i == 31 {
        (3684u16, "faxstfx-port"@)
    } else if i == 32 {
        (2170u16, "eyetv"@)
    } else if i == 33 {
        (3792u16, "sitewatch"@)
    } else if i == 34 {
        (1216u16, "etebac5"@)
    } else if i == 35 {
        (5151u16, "esri_sde"@)
    } else if i == 36 {
        (7080u16, "empowerid"@)
    } else if i == 37 {
        (22222u16, "easyengine"@)
    } else if i == 38 {
        (4143u16, "oidsr"@)
    } else if i == 39 {
        (5868u16, "diameters"@)
    } else if i == 40 {
        (8889u16, "ddi-tcp-2"@)
    } else if i == 41 {
        (12006u16, "dbisamserver2"@)
    } else if i == 42 {
        (1121u16, "rmpp"@)
    } else if i == 43 {
        (3119u16, "d2000kernel"@)
    } else if i == 44 {
        (8015u16, "cfg-cloud"@)
    } else if i == 45 {
        (10023u16, "cefd-vmp"@)
    } else if i == 46 {
        (3824u16, "acp-policy"@)
    } else if i == 47 {
        (1154u16, "resacommunity"@)
    } else if i == 48 {
        (20002u16, "commtact-http"@)
    } else {
        (3888u16, "ciphire-serv"@)
    }
}

closed spec fn chunk_entry_21(i: int) -> (u16, Seq<char>) {
    if i == 0 {
        (4009u16, "chimera-hwm"@)
    } else if i == 1 {
        (5063u16, "csrpc"@)
    } else if i == 2 {
        (3376u16, "cdbroker"@)
    } else if i == 3 {
        (1185u16, "catchpole"@)
    } else if i == 4 {
        (1198u16, "cajo-discovery"@)
    } else if i == 5 {
        (1192u16, "caids-sensor"@)
    } else if i == 6 {
        (1972u16, "intersys-cache"@)
    } else if i == 7 {
        (1130u16, "casp"@)
    } else if i == 8 {
        (1149u16, "bvtsonar"@)
    } else if i == 9 {
        (4096u16, "bre"@)
    } else if i == 10 {
        (6500u16, "boks"@)
    } else if i == 11 {
        (8294u16, "blp4"@)
    } else if i == 12 {
        (3990u16, "bv-is"@)
    } else if i == 13 {
        (3993u16, "bv-agent"@)
    } else if i == 14 {
        (8016u16, "ads-s"@)
    } else if i == 15 {
        (3846u16, "an-pcp"@)
    } else if i == 16 {
        (3929u16, "smauth-port"@)
    } else if i == 17 {
        (1187u16, "alias"@)
    } else if i == 18 {
        (5074u16, "alesquery"@)
    } else if i == 19 {
        (8766u16, "amcs"@)
    } else if i == 20 {
        (1102u16, "adobeserver-1"@)
    } else if i == 21 {
        (2800u16, "acc-raid"@)
    } else if i == 22 {
        (9941u16, "unknown"@)
    } else if i == 23 {
        (9914u16, "unknown"@)
    } else if i == 24 {
        (9815u16, "unknown"@)
    } else if i == 25 {
        (9673u16, "unknown"@)
    } else if i == 26 {
        (9643u16, "unknown"@)
    } else if i == 27 {
        (9621u16, "unknown"@)
    } else if i == 28 {
        (9501u16, "unknown"@)
    } else if i == 29 {
        (9409u16, "unknown"@)
    } else if i == 30 {
        (9198u16, "unknown"@)
    } else if i == 31 {
        (9197u16, "unknown"@)
    } else if i == 32 {
        (9098u16, "unknown"@)
    } else if i == 33 {
        (8996u16, "unknown"@)
    } else if i == 34 {
        (8987u16, "unknown"@)
    } else if i == 35 {
        (8877u16, "unknown"@)
    } else if i == 36 {
        (8676u16, "unknown"@)
    } else if i == 37 {
        (8648u16, "unknown"@)
    } else if i == 38 {
        (8540u16, "unknown"@)
    } else if i == 39 {
        (8481u16, "unknown"@)
    } else if i == 40 {
        (8385u16, "unknown"@)
    } else if i == 41 {
        (8189u16, "unknown"@)
    } else if i == 42 {
        (8098u16, "unknown"@)
    } else if i == 43 {
        (8095u16, "unknown"@)
    } else if i == 44 {
        (8050u16, "unknown"@)
    } else if i == 45 {
        (7929u16, "unknown"@)
    } else if i == 46 {
        (7770u16, "unknown"@)
    } else if i == 47 {
        (7749u16, "unknown"@)
    } else if i == 48 {
        (7438u16, "unknown"@)
    } else {
        (7241u16, "unknown"@)
    }
}

closed spec fn chunk_entry_22(i: int) -> (u16, Seq<char>) {
    if i == 0 {
        (7123u16, "unknown"@)
    } else if i == 1 {
        (7051u16, "unknown"@)
    } else if i == 2 {
        (7050u16, "unknown"@)
    } else if i == 3 {
        (6896u16, "unknown"@)
    } else if i == 4 {
        (6732u16, "unknown"@)
    } else if i == 5 {
        (6711u16, "unknown"@)
    } else if i == 6 {
        (65310u16, "unknown"@)
    } else if i == 7 {
        (6520u16, "unknown"@)
    } else if i == 8 {
        (6504u16, "unknown"@)
    } else if i == 9 {
        (6247u16, "unknown"@)
    } else if i == 10 {
        (6203u16, "unknown"@)
    } else if i == 11 {
        (61613u16, "unknown"@)
    } else if i == 12 {
        (60642u16, "unknown"@)
    } else if i == 13 {
        (60146u16, "unknown"@)
    } else if i == 14 {
        (60123u16, "unknown"@)
    } else if i == 15 {
        (5981u16, "unknown"@)
    } else if i == 16 {
        (5940u16, "unknown"@)
    } else if i == 17 {
        (59202u16, "unknown"@)
    } else if i == 18 {
        (59201u16, "unknown"@)
    } else if i == 19 {
        (59200u16, "unknown"@)
    } else if i == 20 {
        (5918u16, "unknown"@)
    } else if i == 21 {
        (5914u16, "unknown"@)
    } else if i == 22 {
        (59110u16, "unknown"@)
    } else if i == 23 {
        (5909u16, "unknown"@)
    } else if i == 24 {
        (5905u16, "unknown"@)
    } else if i == 25 {
        (5899u16, "unknown"@)
    } else if i == 26 {
        (58838u16, "unknown"@)
    } else if i == 27 {
        (5869u16, "unknown"@)
    } else if i == 28 {
        (58632u16, "unknown"@)
    } else if i == 29 {
        (58630u16, "unknown"@)
    } else if i == 30 {
        (5823u16, "unknown"@)
    } else if i == 31 {
        (5818u16, "unknown"@)
    } else if i == 32 {
        (5812u16, "unknown"@)
    } else if i == 33 {
        (5807u16, "unknown"@)
    } else if i == 34 {
        (58002u16, "unknown"@)
    } else if i == 35 {
        (58001u16, "unknown"@)
    } else if i == 36 {
        (57665u16, "unknown"@)
    } else if i == 37 {
        (55576u16, "unknown"@)
    } else if i == 38 {
        (55020u16, "unknown"@)
    } else if i == 39 {
        (53535u16, "unknown"@)
    } else if i == 40 {
        (5339u16, "unknown"@)
    } else if i == 41 {
        (53314u16, "unknown"@)
    } else if i == 42 {
        (53313u16, "unknown"@)
    } else if i == 43 {
        (53211u16, "unknown"@)
    } else if i == 44 {
        (52853u16, "unknown"@)
    } else if i == 45 {
        (52851u16, "unknown"@)
    } else if i == 46 {
        (52850u16, "unknown"@)
    } else if i == 47 {
        (52849u16, "unknown"@)
    } else if i == 48 {
        (52847u16, "unknown"@)
    } else {
        (5279u16, "unknown"@)
    }
}

closed spec fn chunk_entry_23(i: int) -> (u16, Seq<char>) {
    if i == 0 {
        (52735u16, "unknown"@)
    } else if i == 1 {
        (52710u16, "unknown"@)
    } else if i == 2 {
        (52660u16, "unknown"@)
    } else if i == 3 {
        (5242u16, "unknown"@)
    } else if i == 4 {
        (5212u16, "unknown"@)
    } else if i == 5 {
        (51413u16, "unknown"@)
    } else if i == 6 {
        (51191u16, "unknown"@)
    } else if i == 7 {
        (5040u16, "unknown"@)
    } else if i == 8 {
        (50050u16, "unknown"@)
    } else if i == 9 {
        (49401u16, "unknown"@)
    } else if i == 10 {
        (49236u16, "unknown"@)
    } else if i == 11 {
        (49195u16, "unknown"@)
    } else if i == 12 {
        (49186u16, "unknown"@)
    } else if i == 13 {
        (49171u16, "unknown"@)
    } else if i == 14 {
        (49168u16, "unknown"@)
    } else if i == 15 {
        (49164u16, "unknown"@)
    } else if i == 16 {
        (4875u16, "unknown"@)
    } else if i == 17 {
        (47544u16, "unknown"@)
    } else if i == 18 {
        (46996u16, "unknown"@)
    } else if i == 19 {
        (46200u16, "unknown"@)
    } else if i == 20 {
        (44709u16, "unknown"@)
    } else if i == 21 {
        (41523u16, "unknown"@)
    } else if i == 22 {
        (41064u16, "unknown"@)
    } else if i == 23 {
        (40811u16, "unknown"@)
    } else if i == 24 {
        (3994u16, "unknown"@)
    } else if i == 25 {
        (39659u16, "unknown"@)
    } else if i == 26 {
        (39376u16, "unknown"@)
    } else if i == 27 {
        (39136u16, "unknown"@)
    } else if i == 28 {
        (38188u16, "unknown"@)
    } else if i == 29 {
        (38185u16, "unknown"@)
    } else if i == 30 {
        (37839u16, "unknown"@)
    } else if i == 31 {
        (35513u16, "unknown"@)
    } else if i == 32 {
        (33554u16, "unknown"@)
    } else if i == 33 {
        (33453u16, "unknown"@)
    } else if i == 34 {
        (32835u16, "unknown"@)
    } else if i == 35 {
        (32822u16, "unknown"@)
    } else if i == 36 {
        (32816u16, "unknown"@)
    } else if i == 37 {
        (32803u16, "unknown"@)
    } else if i == 38 {
        (32792u16, "unknown"@)
    } else if i == 39 {
        (32791u16, "unknown"@)
    } else if i == 40 {
        (30704u16, "unknown"@)
    } else if i == 41 {
        (30005u16, "unknown"@)
    } else if i == 42 {
        (29831u16, "unknown"@)
    } else if i == 43 {
        (29672u16, "unknown"@)
    } else if i == 44 {
        (28211u16, "unknown"@)
    } else if i == 45 {
        (27357u16, "unknown"@)
    } else if i == 46 {
        (26470u16, "unknown"@)
    } else if i == 47 {
        (23796u16, "unknown"@)
    } else if i == 48 {
        (23052u16, "unknown"@)
    } else {
        (2196u16, "unknown"@)
    }
}

closed spec fn chunk_entry_24(i: int) -> (u16, Seq<char>) {
    if i == 0 {
        (21792u16, "unknown"@)
    } else if i == 1 {
        (19900u16, "unknown"@)
    } else if i == 2 {
        (18264u16, "unknown"@)
    } else if i == 3 {
        (18018u16, "unknown"@)
    } else if i == 4 {
        (17595u16, "unknown"@)
    } else if i == 5 {
        (16851u16, "unknown"@)
    } else if i == 6 {
        (16800u16, "unknown"@)
    } else if i == 7 {
        (16705u16, "unknown"@)
    } else if i == 8 {
        (15402u16, "unknown"@)
    } else if i == 9 {
        (15001u16, "unknown"@)
    } else if i == 10 {
        (12452u16, "unknown"@)
    } else if i == 11 {
        (12380u16, "unknown"@)
    } else if i == 12 {
        (12262u16, "unknown"@)
    } else if i == 13 {
        (12215u16, "unknown"@)
    } else if i == 14 {
        (12059u16, "unknown"@)
    } else if i == 15 {
        (12021u16, "unknown"@)
    } else if i == 16 {
        (10873u16, "unknown"@)
    } else if i == 17 {
        (10058u16, "unknown"@)
    } else if i == 18 {
        (10034u16, "unknown"@)
    } else if i == 19 {
        (10022u16, "unknown"@)
    } else if i == 20 {
        (10011u16, "unknown"@)
    } else if i == 21 {
        (2910u16, "tdaccess"@)
    } else if i == 22 {
        (1594u16, "sixtrak"@)
    } else if i == 23 {
        (1658u16, "sixnetudr"@)
    } else if i == 24 {
        (1583u16, "simbaexpress"@)
    } else if i == 25 {
        (3162u16, "sflm"@)
    } else if i == 26 {
        (2920u16, "roboeda"@)
    } else if i == 27 {
        (26000u16, "quake"@)
    } else if i == 28 {
        (2366u16, "qip-login"@)
    } else if i == 29 {
        (4600u16, "piranha1"@)
    } else if i == 30 {
        (1688u16, "nsjtp-data"@)
    } else if i == 31 {
        (1322u16, "novation"@)
    } else if i == 32 {
        (2557u16, "nicetec-mgmt"@)
    } else if i == 33 {
        (1095u16, "nicelink"@)
    } else if i == 34 {
        (1839u16, "netopia-vo1"@)
    } else if i == 35 {
        (2288u16, "netml"@)
    } else if i == 36 {
        (1123u16, "murray"@)
    } else if i == 37 {
        (5968u16, "mppolicy-v5"@)
    } else if i == 38 {
        (9600u16, "micromuse-ncpw"@)
    } else if i == 39 {
        (1244u16, "isbconference1"@)
    } else if i == 40 {
        (1641u16, "invision"@)
    } else if i == 41 {
        (2200u16, "ici"@)
    } else if i == 42 {
        (1105u16, "ftranhc"@)
    } else if i == 43 {
        (6550u16, "fg-sysupdate"@)
    } else if i == 44 {
        (5501u16, "fcp-addr-srvr2"@)
    } else if i == 45 {
        (1328u16, "ewall"@)
    } else if i == 46 {
        (2968u16, "enpp"@)
    } else if i == 47 {
        (1805u16, "enl-name"@)
    } else if i == 48 {
        (1914u16, "elm-momentum"@)
    } else {
        (1974u16, "drp"@)
    }
}

closed spec fn chunk_entry_25(i: int) -> (u16, Seq<char>) {
    if i == 0 {
        (31727u16, "diagd"@)
    } else if i == 1 {
        (3400u16, "csms2"@)
    } else if i == 2 {
        (1301u16, "ci3-software-1"@)
    } else if i == 3 {
        (1147u16, "capioverlan"@)
    } else if i == 4 {
        (1721u16, "caicci"@)
    } else if i == 5 {
        (1236u16, "bvcontrol"@)
    } else if i == 6 {
        (2501u16, "rtsclient"@)
    } else if i == 7 {
        (2012u16, "ttyinfo"@)
    } else if i == 8 {
        (6222u16, "radmind"@)
    } else if i == 9 {
        (1220u16, "quicktime"@)
    } else if i == 10 {
        (1109u16, "kpop"@)
    } else if i == 11 {
        (1347u16, "bbn-mmc"@)
    } else if i == 12 {
        (502u16, "mbap"@)
    } else if i == 13 {
        (701u16, "lmp"@)
    } else if i == 14 {
        (2232u16, "ivs-video"@)
    } else if i == 15 {
        (2241u16, "ivsd"@)
    } else if i == 16 {
        (4559u16, "hylafax"@)
    } else if i == 17 {
        (710u16, "entrust-ash"@)
    } else if i == 18 {
        (10005u16, "stel"@)
    } else if i == 19 {
        (5680u16, "canna"@)
    } else if i == 20 {
        (623u16, "oob-ws-http"@)
    } else if i == 21 {
        (913u16, "apex-edge"@)
    } else if i == 22 {
        (1103u16, "xaudio"@)
    } else if i == 23 {
        (780u16, "wpgs"@)
    } else if i == 24 {
        (930u16, "unknown"@)
    } else if i == 25 {
        (803u16, "unknown"@)
    } else if i == 26 {
        (725u16, "unknown"@)
    } else if i == 27 {
        (639u16, "msdp"@)
    } else if i == 28 {
        (540u16, "uucp"@)
    } else if i == 29 {
        (102u16, "iso-tsap"@)
    } else if i == 30 {
        (5010u16, "telelpathstart"@)
    } else if i == 31 {
        (1222u16, "nerv"@)
    } else if i == 32 {
        (953u16, "rndc"@)
    } else if i == 33 {
        (8118u16, "privoxy"@)
    } else if i == 34 {
        (9992u16, "issc"@)
    } else if i == 35 {
        (1270u16, "ssserver"@)
    } else if i == 36 {
        (27u16, "nsw-fe"@)
    } else if i == 37 {
        (123u16, "ntp"@)
    } else if i == 38 {
        (86u16, "mfcobol"@)
    } else if i == 39 {
        (447u16, "ddm-dfm"@)
    } else if i == 40 {
        (1158u16, "lsnr"@)
    } else if i == 41 {
        (442u16, "cvc_hostd"@)
    } else if i == 42 {
        (18000u16, "biimenu"@)
    } else if i == 43 {
        (419u16, "ariel1"@)
    } else if i == 44 {
        (931u16, "unknown"@)
    } else if i == 45 {
        (874u16, "unknown"@)
    } else if i == 46 {
        (856u16, "unknown"@)
    } else if i == 47 {
        (250u16, "unknown"@)
    } else if i == 48 {
        (475u16, "tcpnethaspsrv"@)
    } else {
        (2044u16, "rimsl"@)
    }
}

closed spec fn chunk_entry_26(i: int) -> (u16, Seq<char>) {
    if i == 0 {
        (441u16, "decvms-sysmgt"@)
    } else if i == 1 {
        (210u16, "z39.50"@)
    } else if i == 2 {
        (6008u16, "X11:8"@)
    } else if i == 3 {
        (7003u16, "afs3-vlserver"@)
    } else if i == 4 {
        (5803u16, "vnc-http-3"@)
    } else if i == 5 {
        (1008u16, "ufsd"@)
    } else if i == 6 {
        (556u16, "remotefs"@)
    } else if i == 7 {
        (6103u16, "RETS-or-BackupExec"@)
    } else if i == 8 {
        (829u16, "pkix-3-ca-ra"@)
    } else if i == 9 {
        (3299u16, "saprouter"@)
    } else if i == 10 {
        (55u16, "isi-gl"@)
    } else if i == 11 {
        (713u16, "iris-xpc"@)
    } else if i == 12 {
        (1550u16, "3m-image-lm"@)
    } else if i == 13 {
        (709u16, "entrustmanager"@)
    } else if i == 14 {
        (2628u16, "dict"@)
    } else if i == 15 {
        (223u16, "cdc"@)
    } else if i == 16 {
        (3025u16, "slnp"@)
    } else if i == 17 {
        (87u16, "priv-term-l"@)
    } else if i == 18 {
        (57u16, "priv-term"@)
    } else if i == 19 {
        (10083u16, "amidxtape"@)
    } else if i == 20 {
        (5520u16, "sdlog"@)
    } else if i == 21 {
        (980u16, "unknown"@)
    } else if i == 22 {
        (251u16, "unknown"@)
    } else if i == 23 {
        (1013u16, "unknown"@)
    } else if i == 24 {
        (9152u16, "ms-sql2000"@)
    } else if i == 25 {
        (1212u16, "lupa"@)
    } else if i == 26 {
        (2433u16, "codasrv-se"@)
    } else if i == 27 {
        (1516u16, "vpad"@)
    } else if i == 28 {
        (333u16, "texar"@)
    } else if i == 29 {
        (2011u16, "raid-cc"@)
    } else if i == 30 {
        (748u16, "ris-cm"@)
    } else if i == 31 {
        (1350u16, "editbench"@)
    } else if i == 32 {
        (1526u16, "pdap-np"@)
    } else if i == 33 {
        (7010u16, "ups-onlinet"@)
    } else if i == 34 {
        (1241u16, "nessus"@)
    } else if i == 35 {
        (127u16, "locus-con"@)
    } else if i == 36 {
        (157u16, "knet-cmp"@)
    } else if i == 37 {
        (220u16, "imap3"@)
    } else if i == 38 {
        (1351u16, "equationbuilder"@)
    } else if i == 39 {
        (2067u16, "dlswpn"@)
    } else if i == 40 {
        (684u16, "corba-iiop-ssl"@)
    } else if i == 41 {
        (77u16, "priv-rje"@)
    } else if i == 42 {
        (4333u16, "msql"@)
    } else if i == 43 {
        (674u16, "acap"@)
    } else if i == 44 {
        (943u16, "unknown"@)
    } else if i == 45 {
        (904u16, "unknown"@)
    } else if i == 46 {
        (840u16, "unknown"@)
    } else if i == 47 {
        (825u16, "unknown"@)
    } else if i == 48 {
        (792u16, "unknown"@)
    } else {
        (732u16, "unknown"@)
    }
}

closed spec fn chunk_entry_27(i: int) -> (u16, Seq<char>) {
    if i == 0 {
        (1020u16, "unknown"@)
    } else if i == 1 {
        (1006u16, "unknown"@)
    } else if i == 2 {
        (657u16, "rmc"@)
    } else if i == 3 {
        (557u16, "openvms-sysipc"@)
    } else if i == 4 {
        (610u16, "npmp-local"@)
    } else if i == 5 {
        (1547u16, "laplink"@)
    } else if i == 6 {
        (523u16, "ibm-db2"@)
    } else if i == 7 {
        (996u16, "xtreelic"@)
    } else if i == 8 {
        (2025u16, "ellpack"@)
    } else if i == 9 {
        (602u16, "xmlrpc-beep"@)
    } else if i == 10 {
        (3456u16, "vat"@)
    } else if i == 11 {
        (862u16, "twamp-control"@)
    } else if i == 12 {
        (600u16, "ipcserver"@)
    } else if i == 13 {
        (2903u16, "extensisportfolio"@)
    } else if i == 14 {
        (257u16, "fw1-mc-fwmodule"@)
    } else if i == 15 {
        (1522u16, "rna-lm"@)
    } else if i == 16 {
        (1353u16, "relief"@)
    } else if i == 17 {
        (6662u16, "radmind"@)
    } else if i == 18 {
        (998u16, "busboy"@)
    } else if i == 19 {
        (660u16, "mac-srvr-admin"@)
    } else if i == 20 {
        (729u16, "netviewdm1"@)
    } else if i == 21 {
        (730u16, "netviewdm2"@)
    } else if i == 22 {
        (731u16, "netviewdm3"@)
    } else if i == 23 {
        (782u16, "hp-managed-node"@)
    } else if i == 24 {
        (1357u16, "pegboard"@)
    } else if i == 25 {
        (3632u16, "distccd"@)
    } else if i == 26 {
        (3399u16, "sapeps"@)
    } else if i == 27 {
        (6050u16, "arcserve"@)
    } else if i == 28 {
        (2201u16, "ats"@)
    } else if i == 29 {
        (971u16, "unknown"@)
    } else if i == 30 {
        (969u16, "unknown"@)
    } else if i == 31 {
        (905u16, "unknown"@)
    } else if i == 32 {
        (846u16, "unknown"@)
    } else if i == 33 {
        (839u16, "unknown"@)
    } else if i == 34 {
        (823u16, "unknown"@)
    } else if i == 35 {
        (822u16, "unknown"@)
    } else if i == 36 {
        (795u16, "unknown"@)
    } else if i == 37 {
        (790u16, "unknown"@)
    } else if i == 38 {
        (778u16, "unknown"@)
    } else if i == 39 {
        (757u16, "unknown"@)
    } else if i == 40 {
        (659u16, "unknown"@)
    } else if i == 41 {
        (225u16, "unknown"@)
    } else if i == 42 {
        (1015u16, "unknown"@)
    } else if i == 43 {
        (1014u16, "unknown"@)
    } else if i == 44 {
        (1012u16, "unknown"@)
    } else if i == 45 {
        (655u16, "tinc"@)
    } else if i == 46 {
        (786u16, "concert"@)
    } else if i == 47 {
        (6017u16, "xmail-ctrl"@)
    } else if i == 48 {
        (6670u16, "irc"@)
    } else {
        (690u16, "vatp"@)
    }
}

closed spec fn chunk_entry_28(i: int) -> (u16, Seq<char>) {
    if i == 0 {
        (388u16, "unidata-ldm"@)
    } else if i == 1 {
        (44334u16, "tinyfw"@)
    } else if i == 2 {
        (754u16, "krb_prop"@)
    } else if i == 3 {
        (5011u16, "telelpathattack"@)
    } else if i == 4 {
        (98u16, "linuxconf"@)
    } else if i == 5 {
        (411u16, "rmt"@)
    } else if i == 6 {
        (1525u16, "orasrv"@)
    } else if i == 7 {
        (3999u16, "remoteanything"@)
    } else if i == 8 {
        (740u16, "netcp"@)
    } else if i == 9 {
        (12346u16, "netbus"@)
    } else if i == 10 {
        (802u16, "mbap-s"@)
    } else if i == 11 {
        (1337u16, "waste"@)
    } else if i == 12 {
        (1127u16, "supfiledbg"@)
    } else if i == 13 {
        (2112u16, "kip"@)
    } else if i == 14 {
        (1414u16, "ibm-mqseries"@)
    } else if i == 15 {
        (2600u16, "zebrasrv"@)
    } else if i == 16 {
        (621u16, "escp-ip"@)
    } else if i == 17 {
        (606u16, "urm"@)
    } else if i == 18 {
        (59u16, "priv-file"@)
    } else if i == 19 {
        (928u16, "unknown"@)
    } else if i == 20 {
        (924u16, "unknown"@)
    } else if i == 21 {
        (922u16, "unknown"@)
    } else if i == 22 {
        (921u16, "unknown"@)
    } else if i == 23 {
        (918u16, "unknown"@)
    } else if i == 24 {
        (878u16, "unknown"@)
    } else if i == 25 {
        (864u16, "unknown"@)
    } else if i == 26 {
        (859u16, "unknown"@)
    } else if i == 27 {
        (806u16, "unknown"@)
    } else if i == 28 {
        (805u16, "unknown"@)
    } else if i == 29 {
        (728u16, "unknown"@)
    } else if i == 30 {
        (252u16, "unknown"@)
    } else if i == 31 {
        (1005u16, "unknown"@)
    } else if i == 32 {
        (1004u16, "unknown"@)
    } else if i == 33 {
        (641u16, "repcmd"@)
    } else if i == 34 {
        (758u16, "nlogin"@)
    } else if i == 35 {
        (669u16, "meregister"@)
    } else if i == 36 {
        (38037u16, "landesk-cba"@)
    } else if i == 37 {
        (715u16, "iris-lwz"@)
    } else if i == 38 {
        (1413u16, "innosys-acl"@)
    } else if i == 39 {
        (2104u16, "zephyr-hm"@)
    } else if i == 40 {
        (1229u16, "zented"@)
    } else if i == 41 {
        (3817u16, "tapeware"@)
    } else if i == 42 {
        (3220u16, "xnm-ssl"@)
    } else if i == 43 {
        (6115u16, "xic"@)
    } else if i == 44 {
        (3940u16, "xecp-node"@)
    } else if i == 45 {
        (6063u16, "x11"@)
    } else if i == 46 {
        (6062u16, "x11"@)
    } else if i == 47 {
        (6055u16, "x11"@)
    } else if i == 48 {
        (6052u16, "x11"@)
    } else {
        (6030u16, "x11"@)
    }
}

closed spec fn chunk_entry_29(i: int) -> (u16, Seq<char>) {
    if i == 0 {
        (6021u16, "x11"@)
    } else if i == 1 {
        (6015u16, "x11"@)
    } else if i == 2 {
        (6010u16, "x11"@)
    } else if i == 3 {
        (2340u16, "wrs_registry"@)
    } else if i == 4 {
        (8006u16, "wpl-analytics"@)
    } else if i == 5 {
        (4141u16, "oirtgsvc"@)
    } else if i == 6 {
        (3810u16, "wlanauth"@)
    } else if i == 7 {
        (1565u16, "winddlb"@)
    } else if i == 8 {
        (3511u16, "webmail-2"@)
    } else if i == 9 {
        (5986u16, "wsmans"@)
    } else if i == 10 {
        (5985u16, "wsman"@)
    } else if i == 11 {
        (33000u16, "wg-endpt-comms"@)
    } else if i == 12 {
        (2723u16, "watchdog-nt"@)
    } else if i == 13 {
        (9202u16, "wap-wsp-s"@)
    } else if i == 14 {
        (4036u16, "wap-push-https"@)
    } else if i == 15 {
        (4035u16, "wap-push-http"@)
    } else if i == 16 {
        (2312u16, "wanscaler"@)
    } else if i == 17 {
        (3652u16, "vxcrnbuport"@)
    } else if i == 18 {
        (3280u16, "vs-server"@)
    } else if i == 19 {
        (4243u16, "vrml-multi-use"@)
    } else if i == 20 {
        (4298u16, "vrml-multi-use"@)
    } else if i == 21 {
        (4297u16, "vrml-multi-use"@)
    } else if i == 22 {
        (4294u16, "vrml-multi-use"@)
    } else if i == 23 {
        (4262u16, "vrml-multi-use"@)
    } else if i == 24 {
        (4234u16, "vrml-multi-use"@)
    } else if i == 25 {
        (4220u16, "vrml-multi-use"@)
    } else if i == 26 {
        (4206u16, "vrml-multi-use"@)
    } else if i == 27 {
        (22555u16, "vocaltec-wconf"@)
    } else if i == 28 {
        (9300u16, "vrace"@)
    } else if i == 29 {
        (7121u16, "virprot-lm"@)
    } else if i == 30 {
        (1927u16, "videte-cipc"@)
    } else if i == 31 {
        (4433u16, "vop"@)
    } else if i == 32 {
        (5070u16, "vtsas"@)
    } else if i == 33 {
        (2148u16, "veritas-ucl"@)
    } else if i == 34 {
        (1168u16, "vchat"@)
    } else if i == 35 {
        (9979u16, "visweather"@)
    } else if i == 36 {
        (7998u16, "usicontentpush"@)
    } else if i == 37 {
        (4414u16, "updog"@)
    } else if i == 38 {
        (1823u16, "unisys-lm"@)
    } else if i == 39 {
        (3653u16, "tsp"@)
    } else if i == 40 {
        (1223u16, "tgp"@)
    } else if i == 41 {
        (8201u16, "trivnet2"@)
    } else if i == 42 {
        (4876u16, "tritium-can"@)
    } else if i == 43 {
        (3240u16, "triomotion"@)
    } else if i == 44 {
        (2644u16, "travsoft-ipx-t"@)
    } else if i == 45 {
        (4020u16, "trap"@)
    } else if i == 46 {
        (3906u16, "topovista-data"@)
    } else if i == 47 {
        (2436u16, "topx"@)
    } else if i == 48 {
        (4375u16, "tolteces"@)
    } else {
        (4024u16, "tnp1-port"@)
    }
}

closed spec fn chunk_entry_30(i: int) -> (u16, Seq<char>) {
    if i == 0 {
        (5581u16, "tmosms1"@)
    } else if i == 1 {
        (5580u16, "tmosms0"@)
    } else if i == 2 {
        (9694u16, "client-wakeup"@)
    } else if i == 3 {
        (6251u16, "tl1-raw-ssl"@)
    } else if i == 4 {
        (7345u16, "swx"@)
    } else if i == 5 {
        (7325u16, "swx"@)
    } else if i == 6 {
        (7320u16, "swx"@)
    } else if i == 7 {
        (7300u16, "swx"@)
    } else if i == 8 {
        (3121u16, "pcmk-remote"@)
    } else if i == 9 {
        (5473u16, "apsolab-tags"@)
    } else if i == 10 {
        (5475u16, "apsolab-data"@)
    } else if i == 11 {
        (3600u16, "trap-daemon"@)
    } else if i == 12 {
        (3943u16, "tig"@)
    } else if i == 13 {
        (4912u16, "lutap"@)
    } else if i == 14 {
        (2142u16, "tdmoip"@)
    } else if i == 15 {
        (1976u16, "tcoregagent"@)
    } else if i == 16 {
        (1975u16, "tcoflashagent"@)
    } else if i == 17 {
        (5202u16, "targus-getdata2"@)
    } else if i == 18 {
        (5201u16, "targus-getdata1"@)
    } else if i == 19 {
        (4016u16, "talarian-mcast2"@)
    } else if i == 20 {
        (5111u16, "taep-as-svc"@)
    } else if i == 21 {
        (9911u16, "sype-transport"@)
    } else if i == 22 {
        (10006u16, "netapp-sync"@)
    } else if i == 23 {
        (3923u16, "symb-sb-port"@)
    } else if i == 24 {
        (3930u16, "syam-webserver"@)
    } else if i == 25 {
        (1221u16, "sweetware-apps"@)
    } else if i == 26 {
        (2973u16, "svnetworks"@)
    } else if i == 27 {
        (3909u16, "surfcontrolcpa"@)
    } else if i == 28 {
        (5814u16, "spt-automation"@)
    } else if i == 29 {
        (14001u16, "sua"@)
    } else if i == 30 {
        (3080u16, "stm_pproc"@)
    } else if i == 31 {
        (4158u16, "stat-cc"@)
    } else if i == 32 {
        (3526u16, "starquiz-port"@)
    } else if i == 33 {
        (1911u16, "mtp"@)
    } else if i == 34 {
        (5066u16, "stanag-5066"@)
    } else if i == 35 {
        (2711u16, "sso-control"@)
    } else if i == 36 {
        (2187u16, "ssmc"@)
    } else if i == 37 {
        (3788u16, "isrp-port"@)
    } else if i == 38 {
        (3796u16, "spw-dialer"@)
    } else if i == 39 {
        (3922u16, "sor-update"@)
    } else if i == 40 {
        (2292u16, "mib-streaming"@)
    } else if i == 41 {
        (16161u16, "sun-sea-port"@)
    } else if i == 42 {
        (3102u16, "slslavemon"@)
    } else if i == 43 {
        (4881u16, "socp-t"@)
    } else if i == 44 {
        (3979u16, "smwan"@)
    } else if i == 45 {
        (3670u16, "smile"@)
    } else if i == 46 {
        (4174u16, "smcluster"@)
    } else if i == 47 {
        (3483u16, "slim-devices"@)
    } else if i == 48 {
        (2631u16, "sitaradir"@)
    } else {
        (1750u16, "sslp"@)
    }
}

closed spec fn chunk_entry_31(i: int) -> (u16, Seq<char>) {
    if i == 0 {
        (3897u16, "sdo-ssh"@)
    } else if i == 1 {
        (7500u16, "silhouette"@)
    } else if i == 2 {
        (5553u16, "sgi-eventmond"@)
    } else if i == 3 {
        (5554u16, "sgi-esphttp"@)
    } else if i == 4 {
        (9875u16, "sapv1"@)
    } else if i == 5 {
        (4570u16, "deploymentmap"@)
    } else if i == 6 {
        (3860u16, "sasp"@)
    } else if i == 7 {
        (3712u16, "sentinel-ent"@)
    } else if i == 8 {
        (8052u16, "senomix01"@)
    } else if i == 9 {
        (2083u16, "radsec"@)
    } else if i == 10 {
        (8883u16, "secure-mqtt"@)
    } else if i == 11 {
        (2271u16, "mmcals"@)
    } else if i == 12 {
        (4606u16, "sixid"@)
    } else if i == 13 {
        (1208u16, "seagull-ais"@)
    } else if i == 14 {
        (3319u16, "sdt-lmd"@)
    } else if i == 15 {
        (3935u16, "sdp-portmapper"@)
    } else if i == 16 {
        (3430u16, "ssdispatch"@)
    } else if i == 17 {
        (1215u16, "scanstat-1"@)
    } else if i == 18 {
        (3962u16, "sbi-agent"@)
    } else if i == 19 {
        (3368u16, "satvid-datalnk"@)
    } else if i == 20 {
        (3964u16, "sasggprs"@)
    } else if i == 21 {
        (1128u16, "saphostctrl"@)
    } else if i == 22 {
        (5557u16, "farenet"@)
    } else if i == 23 {
        (4010u16, "samsung-unidex"@)
    } else if i == 24 {
        (9400u16, "sec-t4net-srv"@)
    } else if i == 25 {
        (1605u16, "slp"@)
    } else if i == 26 {
        (3291u16, "sah-lm"@)
    } else if i == 27 {
        (7400u16, "rtps-discovery"@)
    } else if i == 28 {
        (5005u16, "avt-profile-2"@)
    } else if i == 29 {
        (1699u16, "rsvp-encap-2"@)
    } else if i == 30 {
        (1195u16, "rsf-1"@)
    } else if i == 31 {
        (5053u16, "rlm"@)
    } else if i == 32 {
        (3813u16, "rap-ip"@)
    } else if i == 33 {
        (1712u16, "registrar"@)
    } else if i == 34 {
        (3002u16, "exlm-agent"@)
    } else if i == 35 {
        (3765u16, "rtraceroute"@)
    } else if i == 36 {
        (3806u16, "wsmlb"@)
    } else if i == 37 {
        (43000u16, "recvr-rc"@)
    } else if i == 38 {
        (2371u16, "worldwire"@)
    } else if i == 39 {
        (3532u16, "raven-rmp"@)
    } else if i == 40 {
        (3799u16, "radius-dynauth"@)
    } else if i == 41 {
        (3790u16, "quickbooksrds"@)
    } else if i == 42 {
        (3599u16, "quasar-server"@)
    } else if i == 43 {
        (3850u16, "qtms-bootstrap"@)
    } else if i == 44 {
        (4355u16, "qsnet-workst"@)
    } else if i == 45 {
        (4358u16, "qsnet-nucl"@)
    } else if i == 46 {
        (4357u16, "qsnet-cond"@)
    } else if i == 47 {
        (4356u16, "qsnet-assist"@)
    } else if i == 48 {
        (5433u16, "pyrrho"@)
    } else {
        (3928u16, "netboot-pxe"@)
    }
}

closed spec fn chunk_entry_32(i: int) -> (u16, Seq<char>) {
    if i == 0 {
        (4713u16, "pulseaudio"@)
    } else if i == 1 {
        (4374u16, "psi-ptt"@)
    } else if i == 2 {
        (3961u16, "proaxess"@)
    } else if i == 3 {
        (9022u16, "paragent"@)
    } else if i == 4 {
        (3396u16, "printer_agent"@)
    } else if i == 5 {
        (3911u16, "prnstatus"@)
    } else if i == 6 {
        (7628u16, "zen-pawn"@)
    } else if i == 7 {
        (3200u16, "tick-port"@)
    } else if i == 8 {
        (1753u16, "predatar-comms"@)
    } else if i == 9 {
        (3967u16, "ppsms"@)
    } else if i == 10 {
        (2505u16, "ppcontrol"@)
    } else if i == 11 {
        (5133u16, "nbt-pc"@)
    } else if i == 12 {
        (3658u16, "ps-ams"@)
    } else if i == 13 {
        (8471u16, "pim-port"@)
    } else if i == 14 {
        (1314u16, "pdps"@)
    } else if i == 15 {
        (2558u16, "pclemultimedia"@)
    } else if i == 16 {
        (6161u16, "patrol-ism"@)
    } else if i == 17 {
        (4025u16, "partimage"@)
    } else if i == 18 {
        (3089u16, "ptk-alink"@)
    } else if i == 19 {
        (9021u16, "panagolin-ident"@)
    } else if i == 20 {
        (30001u16, "pago-services1"@)
    } else if i == 21 {
        (8472u16, "otv"@)
    } else if i == 22 {
        (5014u16, "onpsocket"@)
    } else if i == 23 {
        (9990u16, "osm-appsrvr"@)
    } else if i == 24 {
        (1159u16, "oracle-oms"@)
    } else if i == 25 {
        (1157u16, "iascontrol"@)
    } else if i == 26 {
        (1308u16, "odsi"@)
    } else if i == 27 {
        (5723u16, "omhs"@)
    } else if i == 28 {
        (3443u16, "ov-nnm-websrv"@)
    } else if i == 29 {
        (4161u16, "omscontact"@)
    } else if i == 30 {
        (1135u16, "omnivision"@)
    } else if i == 31 {
        (9211u16, "oma-mlp-s"@)
    } else if i == 32 {
        (9210u16, "oma-mlp"@)
    } else if i == 33 {
        (4090u16, "omasgport"@)
    } else if i == 34 {
        (7789u16, "office-tools"@)
    } else if i == 35 {
        (6619u16, "odette-ftps"@)
    } else if i == 36 {
        (9628u16, "odbcpathway"@)
    } else if i == 37 {
        (12121u16, "nupaper-ss"@)
    } else if i == 38 {
        (4454u16, "nssagentmgr"@)
    } else if i == 39 {
        (3680u16, "npds-tracker"@)
    } else if i == 40 {
        (3167u16, "nowcontact"@)
    } else if i == 41 {
        (3902u16, "nimaux"@)
    } else if i == 42 {
        (3901u16, "nimsh"@)
    } else if i == 43 {
        (3890u16, "ndsconnect"@)
    } else if i == 44 {
        (3842u16, "nhci"@)
    } else if i == 45 {
        (16900u16, "newbay-snc-mc"@)
    } else if i == 46 {
        (4700u16, "netxms-agent"@)
    } else if i == 47 {
        (4687u16, "nst"@)
    } else if i == 48 {
        (8980u16, "nod-provider"@)
    } else {
        (1196u16, "netmagic"@)
    }
}

closed spec fn chunk_entry_33(i: int) -> (u16, Seq<char>) {
    if i == 0 {
        (4407u16, "nacagent"@)
    } else if i == 1 {
        (3520u16, "galileolog"@)
    } else if i == 2 {
        (5012u16, "nsp"@)
    } else if i == 3 {
        (3812u16, "neto-wol-server"@)
    } else if i == 4 {
        (10115u16, "netiq-endpt"@)
    } else if i == 5 {
        (1615u16, "netbill-auth"@)
    } else if i == 6 {
        (4118u16, "netscript"@)
    } else if i == 7 {
        (2902u16, "netaspi"@)
    } else if i == 8 {
        (2706u16, "ncdmirroring"@)
    } else if i == 9 {
        (2095u16, "nbx-ser"@)
    } else if i == 10 {
        (2096u16, "nbx-dir"@)
    } else if i == 11 {
        (3363u16, "nati-vi-server"@)
    } else if i == 12 {
        (5137u16, "ctsd"@)
    } else if i == 13 {
        (3795u16, "myblast"@)
    } else if i == 14 {
        (8005u16, "mxi"@)
    } else if i == 15 {
        (10007u16, "mvs-capacity"@)
    } else if i == 16 {
        (3515u16, "must-backplane"@)
    } else if i == 17 {
        (8003u16, "mcreport"@)
    } else if i == 18 {
        (3847u16, "msfw-control"@)
    } else if i == 19 {
        (3503u16, "lsp-ping"@)
    } else if i == 20 {
        (5252u16, "movaz-ssc"@)
    } else if i == 21 {
        (27017u16, "mongod"@)
    } else if i == 22 {
        (2197u16, "mnp-exchange"@)
    } else if i == 23 {
        (4120u16, "minirem"@)
    } else if i == 24 {
        (1180u16, "mc-client"@)
    } else if i == 25 {
        (5722u16, "msdfsr"@)
    } else if i == 26 {
        (1134u16, "aplx"@)
    } else if i == 27 {
        (1883u16, "mqtt"@)
    } else if i == 28 {
        (1249u16, "mesavistaco"@)
    } else if i == 29 {
        (3311u16, "mcns-tel-ret"@)
    } else if i == 30 {
        (3837u16, "mkm-discovery"@)
    } else if i == 31 {
        (2804u16, "dvr-esm"@)
    } else if i == 32 {
        (4558u16, "mtcevrunqman"@)
    } else if i == 33 {
        (4190u16, "sieve"@)
    } else if i == 34 {
        (2463u16, "lsi-raid-mgmt"@)
    } else if i == 35 {
        (1204u16, "ssslog-mgr"@)
    } else if i == 36 {
        (4056u16, "lms"@)
    } else if i == 37 {
        (1184u16, "llsurfup-https"@)
    } else if i == 38 {
        (19333u16, "litecoin"@)
    } else if i == 39 {
        (9333u16, "litecoin"@)
    } else if i == 40 {
        (3913u16, "listcrt-port"@)
    } else if i == 41 {
        (3672u16, "lispworks-orb"@)
    } else if i == 42 {
        (4342u16, "lisp-cons"@)
    } else if i == 43 {
        (4877u16, "lmcs"@)
    } else if i == 44 {
        (3586u16, "emprise-lsc"@)
    } else if i == 45 {
        (8282u16, "libelle"@)
    } else if i == 46 {
        (1861u16, "lecroy-vicp"@)
    } else if i == 47 {
        (1752u16, "lofr-lm"@)
    } else if i == 48 {
        (9592u16, "ldgateway"@)
    } else {
        (1701u16, "l2f"@)
    }
}

closed spec fn chunk_entry_34(i: int) -> (u16, Seq<char>) {
    if i == 0 {
        (6085u16, "konspire2b"@)
    } else if i == 1 {
        (2081u16, "kme-trap-port"@)
    } else if i == 2 {
        (4058u16, "kingfisher"@)
    } else if i == 3 {
        (2115u16, "kdm"@)
    } else if i == 4 {
        (8900u16, "jmb-cds1"@)
    } else if i == 5 {
        (4328u16, "jaxer-manager"@)
    } else if i == 6 {
        (2958u16, "jmact6"@)
    } else if i == 7 {
        (2957u16, "jmact5"@)
    } else if i == 8 {
        (7071u16, "iwg1"@)
    } else if i == 9 {
        (3899u16, "itv-control"@)
    } else if i == 10 {
        (2531u16, "ito-e-gui"@)
    } else if i == 11 {
        (2691u16, "itinternet"@)
    } else if i == 12 {
        (5052u16, "ita-manager"@)
    } else if i == 13 {
        (1638u16, "ismc"@)
    } else if i == 14 {
        (3419u16, "softaudit"@)
    } else if i == 15 {
        (2551u16, "isg-uda-server"@)
    } else if i == 16 {
        (4029u16, "ip-qsig"@)
    } else if i == 17 {
        (3603u16, "int-rcv-cntrl"@)
    } else if i == 18 {
        (1336u16, "ischat"@)
    } else if i == 19 {
        (2082u16, "infowave"@)
    } else if i == 20 {
        (1143u16, "imyx"@)
    } else if i == 21 {
        (3602u16, "infiniswitchcl"@)
    } else if i == 22 {
        (1176u16, "indigo-server"@)
    } else if i == 23 {
        (4100u16, "igo-incognito"@)
    } else if i == 24 {
        (3486u16, "ifsf-hb-port"@)
    } else if i == 25 {
        (6077u16, "iconstructsrv"@)
    } else if i == 26 {
        (4800u16, "iims"@)
    } else if i == 27 {
        (2062u16, "icg-swp"@)
    } else if i == 28 {
        (1918u16, "can-nds"@)
    } else if i == 29 {
        (12001u16, "entextnetwk"@)
    } else if i == 30 {
        (12002u16, "entexthigh"@)
    } else if i == 31 {
        (9084u16, "aurora"@)
    } else if i == 32 {
        (7072u16, "iba-cfg"@)
    } else if i == 33 {
        (1156u16, "iascontrol-oms"@)
    } else if i == 34 {
        (2313u16, "iapp"@)
    } else if i == 35 {
        (3952u16, "i3-sessionmgr"@)
    } else if i == 36 {
        (4999u16, "hfcs-manager"@)
    } else if i == 37 {
        (5023u16, "htuilsrv"@)
    } else if i == 38 {
        (28017u16, "mongod"@)
    } else if i == 39 {
        (27019u16, "mongod"@)
    } else if i == 40 {
        (27018u16, "mongod"@)
    } else if i == 41 {
        (2069u16, "event-port"@)
    } else if i == 42 {
        (3439u16, "hri-port"@)
    } else if i == 43 {
        (6324u16, "hrd-ncs"@)
    } else if i == 44 {
        (1188u16, "hp-webadmin"@)
    } else if i == 45 {
        (1125u16, "hpvmmagent"@)
    } else if i == 46 {
        (3908u16, "hppronetman"@)
    } else if i == 47 {
        (7501u16, "ovbus"@)
    } else if i == 48 {
        (8232u16, "hncp-dtls-port"@)
    } else {
        (1722u16, "hks-lm"@)
    }
}

closed spec fn chunk_entry_35(i: int) -> (u16, Seq<char>) {
    if i == 0 {
        (2988u16, "hippad"@)
    } else if i == 1 {
        (10500u16, "hip-nat-t"@)
    } else if i == 2 {
        (1136u16, "hhb-gateway"@)
    } else if i == 3 {
        (1162u16, "health-trap"@)
    } else if i == 4 {
        (10020u16, "abb-hw"@)
    } else if i == 5 {
        (22128u16, "gsidcap"@)
    } else if i == 6 {
        (1211u16, "groove-dpp"@)
    } else if i == 7 {
        (3530u16, "gf"@)
    } else if i == 8 {
        (12009u16, "ghvpn"@)
    } else if i == 9 {
        (9005u16, "golem"@)
    } else if i == 10 {
        (3057u16, "goahead-fldup"@)
    } else if i == 11 {
        (3956u16, "gvcp"@)
    } else if i == 12 {
        (1191u16, "gpfs"@)
    } else if i == 13 {
        (3519u16, "nvmsgd"@)
    } else if i == 14 {
        (5235u16, "galaxy-network"@)
    } else if i == 15 {
        (1144u16, "fuscript"@)
    } else if i == 16 {
        (4745u16, "fmp"@)
    } else if i == 17 {
        (1901u16, "fjicl-tep-a"@)
    } else if i == 18 {
        (1807u16, "fhsp"@)
    } else if i == 19 {
        (2425u16, "fjitsuappmgr"@)
    } else if i == 20 {
        (5912u16, "fis"@)
    } else if i == 21 {
        (3210u16, "flamenco-proxy"@)
    } else if i == 22 {
        (32767u16, "filenet-powsrm"@)
    } else if i == 23 {
        (5015u16, "fmwp"@)
    } else if i == 24 {
        (5013u16, "fmpro-v6"@)
    } else if i == 25 {
        (3622u16, "ff-lr-port"@)
    } else if i == 26 {
        (4039u16, "fazzt-admin"@)
    } else if i == 27 {
        (10101u16, "ezmeeting-2"@)
    } else if i == 28 {
        (5233u16, "enfs"@)
    } else if i == 29 {
        (5152u16, "sde-discovery"@)
    } else if i == 30 {
        (3983u16, "eisp"@)
    } else if i == 31 {
        (3982u16, "eis"@)
    } else if i == 32 {
        (9616u16, "erunbook_agent"@)
    } else if i == 33 {
        (4369u16, "epmd"@)
    } else if i == 34 {
        (3728u16, "e-woa"@)
    } else if i == 35 {
        (3621u16, "ep-nsp"@)
    } else if i == 36 {
        (2291u16, "eapsp"@)
    } else if i == 37 {
        (5114u16, "ev-services"@)
    } else if i == 38 {
        (7101u16, "elcn"@)
    } else if i == 39 {
        (2087u16, "eli"@)
    } else if i == 40 {
        (5234u16, "eenet"@)
    } else if i == 41 {
        (1635u16, "edb-server1"@)
    } else if i == 42 {
        (3263u16, "ecolor-imager"@)
    } else if i == 43 {
        (4121u16, "e-builder"@)
    } else if i == 44 {
        (4602u16, "mtsserver"@)
    } else if i == 45 {
        (2224u16, "efi-mg"@)
    } else if i == 46 {
        (1315u16, "els"@)
    } else if i == 47 {
        (3949u16, "drip"@)
    } else if i == 48 {
        (9131u16, "dddp"@)
    } else {
        (3310u16, "dyna-access"@)
    }
}

closed spec fn chunk_entry_36(i: int) -> (u16, Seq<char>) {
    if i == 0 {
        (3937u16, "dvbservdsc"@)
    } else if i == 1 {
        (2253u16, "dtv-chan-req"@)
    } else if i == 2 {
        (3882u16, "msdts1"@)
    } else if i == 3 {
        (3831u16, "dvapps"@)
    } else if i == 4 {
        (2376u16, "docker"@)
    } else if i == 5 {
        (2375u16, "docker"@)
    } else if i == 6 {
        (3876u16, "dl_agent"@)
    } else if i == 7 {
        (3362u16, "dj-ilm"@)
    } else if i == 8 {
        (3663u16, "dtp"@)
    } else if i == 9 {
        (3334u16, "directv-web"@)
    } else if i == 10 {
        (47624u16, "directplaysrvr"@)
    } else if i == 11 {
        (1825u16, "direcpc-video"@)
    } else if i == 12 {
        (3868u16, "diameter"@)
    } else if i == 13 {
        (4302u16, "d-data-control"@)
    } else if i == 14 {
        (5721u16, "dtpt"@)
    } else if i == 15 {
        (1279u16, "dellwebadmin-2"@)
    } else if i == 16 {
        (2606u16, "netmon"@)
    } else if i == 17 {
        (1173u16, "d-cinema-rrp"@)
    } else if i == 18 {
        (22125u16, "dcap"@)
    } else if i == 19 {
        (17500u16, "db-lsp"@)
    } else if i == 20 {
        (12005u16, "dbisamserver1"@)
    } else if i == 21 {
        (6113u16, "dayliteserver"@)
    } else if i == 22 {
        (3793u16, "dcsoftware"@)
    } else if i == 23 {
        (1973u16, "dlsrap"@)
    } else if i == 24 {
        (3637u16, "scservp"@)
    } else if i == 25 {
        (8954u16, "cumulus-admin"@)
    } else if i == 26 {
        (3742u16, "cst-port"@)
    } else if i == 27 {
        (9667u16, "xmms2"@)
    } else if i == 28 {
        (41795u16, "crestron-ctp"@)
    } else if i == 29 {
        (41794u16, "crestron-cip"@)
    } else if i == 30 {
        (4300u16, "corelccam"@)
    } else if i == 31 {
        (8445u16, "copy"@)
    } else if i == 32 {
        (12865u16, "netperf"@)
    } else if i == 33 {
        (3365u16, "contentserver"@)
    } else if i == 34 {
        (4665u16, "contclientms"@)
    } else if i == 35 {
        (3190u16, "csvr-proxy"@)
    } else if i == 36 {
        (3577u16, "config-port"@)
    } else if i == 37 {
        (3823u16, "acp-conduit"@)
    } else if i == 38 {
        (2261u16, "comotionmaster"@)
    } else if i == 39 {
        (2262u16, "comotionback"@)
    } else if i == 40 {
        (2812u16, "atmtcp"@)
    } else if i == 41 {
        (1190u16, "commlinx-avl"@)
    } else if i == 42 {
        (22350u16, "CodeMeter"@)
    } else if i == 43 {
        (3374u16, "cluster-disc"@)
    } else if i == 44 {
        (4135u16, "cl-db-attach"@)
    } else if i == 45 {
        (2598u16, "citriximaclient"@)
    } else if i == 46 {
        (2567u16, "clp"@)
    } else if i == 47 {
        (1167u16, "cisco-ipsla"@)
    } else if i == 48 {
        (8470u16, "cisco-avp"@)
    } else {
        (10443u16, "cirrossp"@)
    }
}

closed spec fn chunk_entry_37(i: int) -> (u16, Seq<char>) {
    if i == 0 {
        (8116u16, "cp-cluster"@)
    } else if i == 1 {
        (3830u16, "cernsysmgmtagt"@)
    } else if i == 2 {
        (8880u16, "cddbp-alt"@)
    } else if i == 3 {
        (2734u16, "ccs-software"@)
    } else if i == 4 {
        (3505u16, "ccmcomm"@)
    } else if i == 5 {
        (3388u16, "cbserver"@)
    } else if i == 6 {
        (1871u16, "canocentral0"@)
    } else if i == 7 {
        (4325u16, "geognosisman"@)
    } else if i == 8 {
        (3669u16, "casanswmgmt"@)
    } else if i == 9 {
        (8025u16, "ca-audit-da"@)
    } else if i == 10 {
        (1958u16, "dxadmind"@)
    } else if i == 11 {
        (3681u16, "bts-x73"@)
    } else if i == 12 {
        (3014u16, "broker_service"@)
    } else if i == 13 {
        (8999u16, "bctp"@)
    } else if i == 14 {
        (4415u16, "brcd-vr-req"@)
    } else if i == 15 {
        (3414u16, "wip-port"@)
    } else if i == 16 {
        (4101u16, "brlp-0"@)
    } else if i == 17 {
        (6503u16, "boks_clntd"@)
    } else if i == 18 {
        (9700u16, "board-roar"@)
    } else if i == 19 {
        (3683u16, "bmc-ea"@)
    } else if i == 20 {
        (1150u16, "blaze"@)
    } else if i == 21 {
        (18333u16, "bitcoin"@)
    } else if i == 22 {
        (4376u16, "bip"@)
    } else if i == 23 {
        (3991u16, "bv-smcsrv"@)
    } else if i == 24 {
        (3989u16, "bv-queryengine"@)
    } else if i == 25 {
        (3992u16, "bv-ds"@)
    } else if i == 26 {
        (2302u16, "binderysupport"@)
    } else if i == 27 {
        (3415u16, "bcinameservice"@)
    } else if i == 28 {
        (3946u16, "backupedge"@)
    } else if i == 29 {
        (1179u16, "b2n"@)
    } else if i == 30 {
        (2203u16, "b2-runtime"@)
    } else if i == 31 {
        (4192u16, "azeti"@)
    } else if i == 32 {
        (4418u16, "axysbridge"@)
    } else if i == 33 {
        (2712u16, "aocp"@)
    } else if i == 34 {
        (4065u16, "avanti_cdp"@)
    } else if i == 35 {
        (3915u16, "agcat"@)
    } else if i == 36 {
        (2080u16, "autodesk-nlm"@)
    } else if i == 37 {
        (3103u16, "autocuesmi"@)
    } else if i == 38 {
        (8202u16, "aesop"@)
    } else if i == 39 {
        (2265u16, "apx500api-2"@)
    } else if i == 40 {
        (2304u16, "attachmate-uts"@)
    } else if i == 41 {
        (8060u16, "aero"@)
    } else if i == 42 {
        (4119u16, "assuria-slm"@)
    } else if i == 43 {
        (4401u16, "ds-srvr"@)
    } else if i == 44 {
        (1560u16, "asci-val"@)
    } else if i == 45 {
        (3904u16, "omnilink-port"@)
    } else if i == 46 {
        (4534u16, "armagetronad"@)
    } else if i == 47 {
        (1835u16, "ardusmul"@)
    } else if i == 48 {
        (1116u16, "ardus-cntl"@)
    } else {
        (8023u16, "arca-api"@)
    }
}

closed spec fn chunk_entry_38(i: int) -> (u16, Seq<char>) {
    if i == 0 {
        (8474u16, "noteshare"@)
    } else if i == 1 {
        (3879u16, "appss-lm"@)
    } else if i == 2 {
        (4087u16, "applusservice"@)
    } else if i == 3 {
        (4112u16, "apple-vpns-rp"@)
    } else if i == 4 {
        (6350u16, "adap"@)
    } else if i == 5 {
        (9950u16, "apc-9950"@)
    } else if i == 6 {
        (3506u16, "apc-3506"@)
    } else if i == 7 {
        (3948u16, "apdap"@)
    } else if i == 8 {
        (3825u16, "ffserver"@)
    } else if i == 9 {
        (1800u16, "ansys-lm"@)
    } else if i == 10 {
        (2325u16, "ansysli"@)
    } else if i == 11 {
        (1153u16, "c1222-acse"@)
    } else if i == 12 {
        (6379u16, "redis"@)
    } else if i == 13 {
        (3839u16, "amx-rms"@)
    } else if i == 14 {
        (5672u16, "amqp"@)
    } else if i == 15 {
        (4689u16, "altovacentral"@)
    } else if i == 16 {
        (47806u16, "ap"@)
    } else if i == 17 {
        (3980u16, "acms"@)
    } else if i == 18 {
        (3975u16, "airshot"@)
    } else if i == 19 {
        (4113u16, "aipn-reg"@)
    } else if i == 20 {
        (2847u16, "aimpp-port-req"@)
    } else if i == 21 {
        (2070u16, "ah-esp-encap"@)
    } else if i == 22 {
        (3425u16, "agps-port"@)
    } else if i == 23 {
        (6628u16, "afesc-mc"@)
    } else if i == 24 {
        (3997u16, "agentsease-db"@)
    } else if i == 25 {
        (3513u16, "arcpd"@)
    } else if i == 26 {
        (3656u16, "abatjss"@)
    } else if i == 27 {
        (2335u16, "ace-proxy"@)
    } else if i == 28 {
        (1182u16, "accelenet"@)
    } else if i == 29 {
        (1954u16, "abr-api"@)
    } else if i == 30 {
        (3996u16, "abcsoftware"@)
    } else if i == 31 {
        (4599u16, "a17-an-an"@)
    } else if i == 32 {
        (25565u16, "minecraft"@)
    } else if i == 33 {
        (2391u16, "3com-net-mgmt"@)
    } else if i == 34 {
        (3479u16, "twrpc"@)
    } else if i == 35 {
        (5021u16, "zenginkyo-2"@)
    } else if i == 36 {
        (5020u16, "zenginkyo-1"@)
    } else if i == 37 {
        (1558u16, "xingmpeg"@)
    } else if i == 38 {
        (1924u16, "xiip"@)
    } else if i == 39 {
        (4545u16, "worldscores"@)
    } else if i == 40 {
        (2991u16, "wkstn-mon"@)
    } else if i == 41 {
        (6065u16, "winpharaoh"@)
    } else if i == 42 {
        (1290u16, "winjaserver"@)
    } else if i == 43 {
        (1559u16, "web2host"@)
    } else if i == 44 {
        (1317u16, "vrts-ipcserver"@)
    } else if i == 45 {
        (5423u16, "virtualuser"@)
    } else if i == 46 {
        (1707u16, "vdmplay"@)
    } else if i == 47 {
        (5055u16, "unot"@)
    } else if i == 48 {
        (9975u16, "unknown"@)
    } else {
        (9971u16, "unknown"@)
    }
}

closed spec fn chunk_entry_39(i: int) -> (u16, Seq<char>) {
    if i == 0 {
        (9919u16, "unknown"@)
    } else if i == 1 {
        (9915u16, "unknown"@)
    } else if i == 2 {
        (9912u16, "unknown"@)
    } else if i == 3 {
        (9910u16, "unknown"@)
    } else if i == 4 {
        (9908u16, "unknown"@)
    } else if i == 5 {
        (9901u16, "unknown"@)
    } else if i == 6 {
        (9844u16, "unknown"@)
    } else if i == 7 {
        (9830u16, "unknown"@)
    } else if i == 8 {
        (9826u16, "unknown"@)
    } else if i == 9 {
        (9825u16, "unknown"@)
    } else if i == 10 {
        (9823u16, "unknown"@)
    } else if i == 11 {
        (9814u16, "unknown"@)
    } else if i == 12 {
        (9812u16, "unknown"@)
    } else if i == 13 {
        (9777u16, "unknown"@)
    } else if i == 14 {
        (9745u16, "unknown"@)
    } else if i == 15 {
        (9683u16, "unknown"@)
    } else if i == 16 {
        (9680u16, "unknown"@)
    } else if i == 17 {
        (9679u16, "unknown"@)
    } else if i == 18 {
        (9674u16, "unknown"@)
    } else if i == 19 {
        (9665u16, "unknown"@)
    } else if i == 20 {
        (9661u16, "unknown"@)
    } else if i == 21 {
        (9654u16, "unknown"@)
    } else if i == 22 {
        (9648u16, "unknown"@)
    } else if i == 23 {
        (9620u16, "unknown"@)
    } else if i == 24 {
        (9619u16, "unknown"@)
    } else if i == 25 {
        (9613u16, "unknown"@)
    } else if i == 26 {
        (9583u16, "unknown"@)
    } else if i == 27 {
        (9527u16, "unknown"@)
    } else if i == 28 {
        (9513u16, "unknown"@)
    } else if i == 29 {
        (9493u16, "unknown"@)
    } else if i == 30 {
        (9478u16, "unknown"@)
    } else if i == 31 {
        (9464u16, "unknown"@)
    } else if i == 32 {
        (9454u16, "unknown"@)
    } else if i == 33 {
        (9364u16, "unknown"@)
    } else if i == 34 {
        (9351u16, "unknown"@)
    } else if i == 35 {
        (9183u16, "unknown"@)
    } else if i == 36 {
        (9170u16, "unknown"@)
    } else if i == 37 {
        (9133u16, "unknown"@)
    } else if i == 38 {
        (9130u16, "unknown"@)
    } else if i == 39 {
        (9128u16, "unknown"@)
    } else if i == 40 {
        (9125u16, "unknown"@)
    } else if i == 41 {
        (9065u16, "unknown"@)
    } else if i == 42 {
        (9061u16, "unknown"@)
    } else if i == 43 {
        (9044u16, "unknown"@)
    } else if i == 44 {
        (9037u16, "unknown"@)
    } else if i == 45 {
        (9013u16, "unknown"@)
    } else if i == 46 {
        (9004u16, "unknown"@)
    } else if i == 47 {
        (8925u16, "unknown"@)
    } else if i == 48 {
        (8898u16, "unknown"@)
    } else {
        (8887u16, "unknown"@)
    }
}

closed spec fn chunk_entry_40(i: int) -> (u16, Seq<char>) {
    if i == 0 {
        (8882u16, "unknown"@)
    } else if i == 1 {
        (8879u16, "unknown"@)
    } else if i == 2 {
        (8878u16, "unknown"@)
    } else if i == 3 {
        (8865u16, "unknown"@)
    } else if i == 4 {
        (8843u16, "unknown"@)
    } else if i == 5 {
        (8801u16, "unknown"@)
    } else if i == 6 {
        (8798u16, "unknown"@)
    } else if i == 7 {
        (8790u16, "unknown"@)
    } else if i == 8 {
        (8772u16, "unknown"@)
    } else if i == 9 {
        (8756u16, "unknown"@)
    } else if i == 10 {
        (8752u16, "unknown"@)
    } else if i == 11 {
        (8736u16, "unknown"@)
    } else if i == 12 {
        (8680u16, "unknown"@)
    } else if i == 13 {
        (8673u16, "unknown"@)
    } else if i == 14 {
        (8658u16, "unknown"@)
    } else if i == 15 {
        (8655u16, "unknown"@)
    } else if i == 16 {
        (8644u16, "unknown"@)
    } else if i == 17 {
        (8640u16, "unknown"@)
    } else if i == 18 {
        (8621u16, "unknown"@)
    } else if i == 19 {
        (8601u16, "unknown"@)
    } else if i == 20 {
        (8562u16, "unknown"@)
    } else if i == 21 {
        (8539u16, "unknown"@)
    } else if i == 22 {
        (8531u16, "unknown"@)
    } else if i == 23 {
        (8530u16, "unknown"@)
    } else if i == 24 {
        (8515u16, "unknown"@)
    } else if i == 25 {
        (8484u16, "unknown"@)
    } else if i == 26 {
        (8479u16, "unknown"@)
    } else if i == 27 {
        (8477u16, "unknown"@)
    } else if i == 28 {
        (8455u16, "unknown"@)
    } else if i == 29 {
        (8454u16, "unknown"@)
    } else if i == 30 {
        (8453u16, "unknown"@)
    } else if i == 31 {
        (8452u16, "unknown"@)
    } else if i == 32 {
        (8451u16, "unknown"@)
    } else if i == 33 {
        (8409u16, "unknown"@)
    } else if i == 34 {
        (8339u16, "unknown"@)
    } else if i == 35 {
        (8308u16, "unknown"@)
    } else if i == 36 {
        (8295u16, "unknown"@)
    } else if i == 37 {
        (8273u16, "unknown"@)
    } else if i == 38 {
        (8268u16, "unknown"@)
    } else if i == 39 {
        (8255u16, "unknown"@)
    } else if i == 40 {
        (8248u16, "unknown"@)
    } else if i == 41 {
        (8245u16, "unknown"@)
    } else if i == 42 {
        (8144u16, "unknown"@)
    } else if i == 43 {
        (8133u16, "unknown"@)
    } else if i == 44 {
        (8110u16, "unknown"@)
    } else if i == 45 {
        (8092u16, "unknown"@)
    } else if i == 46 {
        (8064u16, "unknown"@)
    } else if i == 47 {
        (8037u16, "unknown"@)
    } else if i == 48 {
        (8029u16, "unknown"@)
    } else {
        (8018u16, "unknown"@)
    }
}

closed spec fn chunk_entry_41(i: int) -> (u16, Seq<char>) {
    if i == 0 {
        (8014u16, "unknown"@)
    } else if i == 1 {
        (7975u16, "unknown"@)
    } else if i == 2 {
        (7895u16, "unknown"@)
    } else if i == 3 {
        (7854u16, "unknown"@)
    } else if i == 4 {
        (7853u16, "unknown"@)
    } else if i == 5 {
        (7852u16, "unknown"@)
    } else if i == 6 {
        (7830u16, "unknown"@)
    } else if i == 7 {
        (7813u16, "unknown"@)
    } else if i == 8 {
        (7788u16, "unknown"@)
    } else if i == 9 {
        (7780u16, "unknown"@)
    } else if i == 10 {
        (7772u16, "unknown"@)
    } else if i == 11 {
        (7771u16, "unknown"@)
    } else if i == 12 {
        (7688u16, "unknown"@)
    } else if i == 13 {
        (7685u16, "unknown"@)
    } else if i == 14 {
        (7654u16, "unknown"@)
    } else if i == 15 {
        (7637u16, "unknown"@)
    } else if i == 16 {
        (7600u16, "unknown"@)
    } else if i == 17 {
        (7555u16, "unknown"@)
    } else if i == 18 {
        (7553u16, "unknown"@)
    } else if i == 19 {
        (7456u16, "unknown"@)
    } else if i == 20 {
        (7451u16, "unknown"@)
    } else if i == 21 {
        (7231u16, "unknown"@)
    } else if i == 22 {
        (7218u16, "unknown"@)
    } else if i == 23 {
        (7184u16, "unknown"@)
    } else if i == 24 {
        (7119u16, "unknown"@)
    } else if i == 25 {
        (7104u16, "unknown"@)
    } else if i == 26 {
        (7102u16, "unknown"@)
    } else if i == 27 {
        (7092u16, "unknown"@)
    } else if i == 28 {
        (7068u16, "unknown"@)
    } else if i == 29 {
        (7067u16, "unknown"@)
    } else if i == 30 {
        (7043u16, "unknown"@)
    } else if i == 31 {
        (7033u16, "unknown"@)
    } else if i == 32 {
        (6973u16, "unknown"@)
    } else if i == 33 {
        (6972u16, "unknown"@)
    } else if i == 34 {
        (6956u16, "unknown"@)
    } else if i == 35 {
        (6942u16, "unknown"@)
    } else if i == 36 {
        (6922u16, "unknown"@)
    } else if i == 37 {
        (6920u16, "unknown"@)
    } else if i == 38 {
        (6897u16, "unknown"@)
    } else if i == 39 {
        (6877u16, "unknown"@)
    } else if i == 40 {
        (6780u16, "unknown"@)
    } else if i == 41 {
        (6734u16, "unknown"@)
    } else if i == 42 {
        (6725u16, "unknown"@)
    } else if i == 43 {
        (6710u16, "unknown"@)
    } else if i == 44 {
        (6709u16, "unknown"@)
    } else if i == 45 {
        (6650u16, "unknown"@)
    } else if i == 46 {
        (6647u16, "unknown"@)
    } else if i == 47 {
        (6644u16, "unknown"@)
    } else if i == 48 {
        (6606u16, "unknown"@)
    } else {
        (65514u16, "unknown"@)
    }
}

closed spec fn chunk_entry_42(i: int) -> (u16, Seq<char>) {
    if i == 0 {
        (65488u16, "unknown"@)
    } else if i == 1 {
        (6535u16, "unknown"@)
    } else if i == 2 {
        (65311u16, "unknown"@)
    } else if i == 3 {
        (65048u16, "unknown"@)
    } else if i == 4 {
        (64890u16, "unknown"@)
    } else if i == 5 {
        (64727u16, "unknown"@)
    } else if i == 6 {
        (64726u16, "unknown"@)
    } else if i == 7 {
        (64551u16, "unknown"@)
    } else if i == 8 {
        (64507u16, "unknown"@)
    } else if i == 9 {
        (64438u16, "unknown"@)
    } else if i == 10 {
        (64320u16, "unknown"@)
    } else if i == 11 {
        (64127u16, "unknown"@)
    } else if i == 12 {
        (6412u16, "unknown"@)
    } else if i == 13 {
        (64080u16, "unknown"@)
    } else if i == 14 {
        (63803u16, "unknown"@)
    } else if i == 15 {
        (63675u16, "unknown"@)
    } else if i == 16 {
        (6349u16, "unknown"@)
    } else if i == 17 {
        (63423u16, "unknown"@)
    } else if i == 18 {
        (6323u16, "unknown"@)
    } else if i == 19 {
        (63156u16, "unknown"@)
    } else if i == 20 {
        (63105u16, "unknown"@)
    } else if i == 21 {
        (6310u16, "unknown"@)
    } else if i == 22 {
        (6309u16, "unknown"@)
    } else if i == 23 {
        (62866u16, "unknown"@)
    } else if i == 24 {
        (6274u16, "unknown"@)
    } else if i == 25 {
        (6273u16, "unknown"@)
    } else if i == 26 {
        (62674u16, "unknown"@)
    } else if i == 27 {
        (6259u16, "unknown"@)
    } else if i == 28 {
        (62570u16, "unknown"@)
    } else if i == 29 {
        (62519u16, "unknown"@)
    } else if i == 30 {
        (6250u16, "unknown"@)
    } else if i == 31 {
        (62312u16, "unknown"@)
    } else if i == 32 {
        (62188u16, "unknown"@)
    } else if i == 33 {
        (62080u16, "unknown"@)
    } else if i == 34 {
        (62042u16, "unknown"@)
    } else if i == 35 {
        (62006u16, "unknown"@)
    } else if i == 36 {
        (61942u16, "unknown"@)
    } else if i == 37 {
        (61851u16, "unknown"@)
    } else if i == 38 {
        (61827u16, "unknown"@)
    } else if i == 39 {
        (61734u16, "unknown"@)
    } else if i == 40 {
        (61722u16, "unknown"@)
    } else if i == 41 {
        (61669u16, "unknown"@)
    } else if i == 42 {
        (61617u16, "unknown"@)
    } else if i == 43 {
        (61616u16, "unknown"@)
    } else if i == 44 {
        (61516u16, "unknown"@)
    } else if i == 45 {
        (61473u16, "unknown"@)
    } else if i == 46 {
        (61402u16, "unknown"@)
    } else if i == 47 {
        (6126u16, "unknown"@)
    } else if i == 48 {
        (6120u16, "unknown"@)
    } else {
        (61170u16, "unknown"@)
    }
}

closed spec fn chunk_entry_43(i: int) -> (u16, Seq<char>) {
    if i == 0 {
        (61169u16, "unknown"@)
    } else if i == 1 {
        (61159u16, "unknown"@)
    } else if i == 2 {
        (60989u16, "unknown"@)
    } else if i == 3 {
        (6091u16, "unknown"@)
    } else if i == 4 {
        (6090u16, "unknown"@)
    } else if i == 5 {
        (60794u16, "unknown"@)
    } else if i == 6 {
        (60789u16, "unknown"@)
    } else if i == 7 {
        (60783u16, "unknown"@)
    } else if i == 8 {
        (60782u16, "unknown"@)
    } else if i == 9 {
        (60753u16, "unknown"@)
    } else if i == 10 {
        (60743u16, "unknown"@)
    } else if i == 11 {
        (60728u16, "unknown"@)
    } else if i == 12 {
        (60713u16, "unknown"@)
    } else if i == 13 {
        (6067u16, "unknown"@)
    } else if i == 14 {
        (60628u16, "unknown"@)
    } else if i == 15 {
        (60621u16, "unknown"@)
    } else if i == 16 {
        (60612u16, "unknown"@)
    } else if i == 17 {
        (60579u16, "unknown"@)
    } else if i == 18 {
        (60544u16, "unknown"@)
    } else if i == 19 {
        (60504u16, "unknown"@)
    } else if i == 20 {
        (60492u16, "unknown"@)
    } else if i == 21 {
        (60485u16, "unknown"@)
    } else if i == 22 {
        (60403u16, "unknown"@)
    } else if i == 23 {
        (60401u16, "unknown"@)
    } else if i == 24 {
        (60377u16, "unknown"@)
    } else if i == 25 {
        (60279u16, "unknown"@)
    } else if i == 26 {
        (60243u16, "unknown"@)
    } else if i == 27 {
        (60227u16, "unknown"@)
    } else if i == 28 {
        (60177u16, "unknown"@)
    } else if i == 29 {
        (60111u16, "unknown"@)
    } else if i == 30 {
        (60086u16, "unknown"@)
    } else if i == 31 {
        (60055u16, "unknown"@)
    } else if i == 32 {
        (60003u16, "unknown"@)
    } else if i == 33 {
        (60002u16, "unknown"@)
    } else if i == 34 {
        (60000u16, "unknown"@)
    } else if i == 35 {
        (59987u16, "unknown"@)
    } else if i == 36 {
        (59841u16, "unknown"@)
    } else if i == 37 {
        (59829u16, "unknown"@)
    } else if i == 38 {
        (59810u16, "unknown"@)
    } else if i == 39 {
        (59778u16, "unknown"@)
    } else if i == 40 {
        (5975u16, "unknown"@)
    } else if i == 41 {
        (5974u16, "unknown"@)
    } else if i == 42 {
        (5971u16, "unknown"@)
    } else if i == 43 {
        (59684u16, "unknown"@)
    } else if i == 44 {
        (5966u16, "unknown"@)
    } else if i == 45 {
        (5958u16, "unknown"@)
    } else if i == 46 {
        (59565u16, "unknown"@)
    } else if i == 47 {
        (5954u16, "unknown"@)
    } else if i == 48 {
        (5953u16, "unknown"@)
    } else {
        (59525u16, "unknown"@)
    }
}

closed spec fn chunk_entry_44(i: int) -> (u16, Seq<char>) {
    if i == 0 {
        (59510u16, "unknown"@)
    } else if i == 1 {
        (59509u16, "unknown"@)
    } else if i == 2 {
        (59504u16, "unknown"@)
    } else if i == 3 {
        (59499u16, "unknown"@)
    } else if i == 4 {
        (5949u16, "unknown"@)
    } else if i == 5 {
        (5948u16, "unknown"@)
    } else if i == 6 {
        (5945u16, "unknown"@)
    } else if i == 7 {
        (5939u16, "unknown"@)
    } else if i == 8 {
        (5936u16, "unknown"@)
    } else if i == 9 {
        (59340u16, "unknown"@)
    } else if i == 10 {
        (5934u16, "unknown"@)
    } else if i == 11 {
        (5931u16, "unknown"@)
    } else if i == 12 {
        (5927u16, "unknown"@)
    } else if i == 13 {
        (5926u16, "unknown"@)
    } else if i == 14 {
        (5924u16, "unknown"@)
    } else if i == 15 {
        (59239u16, "unknown"@)
    } else if i == 16 {
        (5923u16, "unknown"@)
    } else if i == 17 {
        (5921u16, "unknown"@)
    } else if i == 18 {
        (5920u16, "unknown"@)
    } else if i == 19 {
        (59191u16, "unknown"@)
    } else if i == 20 {
        (5917u16, "unknown"@)
    } else if i == 21 {
        (59160u16, "unknown"@)
    } else if i == 22 {
        (59149u16, "unknown"@)
    } else if i == 23 {
        (59122u16, "unknown"@)
    } else if i == 24 {
        (59107u16, "unknown"@)
    } else if i == 25 {
        (59087u16, "unknown"@)
    } else if i == 26 {
        (5908u16, "unknown"@)
    } else if i == 27 {
        (58991u16, "unknown"@)
    } else if i == 28 {
        (58970u16, "unknown"@)
    } else if i == 29 {
        (58908u16, "unknown"@)
    } else if i == 30 {
        (5888u16, "unknown"@)
    } else if i == 31 {
        (5887u16, "unknown"@)
    } else if i == 32 {
        (5881u16, "unknown"@)
    } else if i == 33 {
        (5878u16, "unknown"@)
    } else if i == 34 {
        (5875u16, "unknown"@)
    } else if i == 35 {
        (5874u16, "unknown"@)
    } else if i == 36 {
        (58721u16, "unknown"@)
    } else if i == 37 {
        (5871u16, "unknown"@)
    } else if i == 38 {
        (58699u16, "unknown"@)
    } else if i == 39 {
        (58634u16, "unknown"@)
    } else if i == 40 {
        (58622u16, "unknown"@)
    } else if i == 41 {
        (58610u16, "unknown"@)
    } else if i == 42 {
        (5860u16, "unknown"@)
    } else if i == 43 {
        (5858u16, "unknown"@)
    } else if i == 44 {
        (58570u16, "unknown"@)
    } else if i == 45 {
        (58562u16, "unknown"@)
    } else if i == 46 {
        (5854u16, "unknown"@)
    } else if i == 47 {
        (5853u16, "unknown"@)
    } else if i == 48 {
        (5852u16, "unknown"@)
    } else {
        (58498u16, "unknown"@)
    }
}

closed spec fn chunk_entry_45(i: int) -> (u16, Seq<char>) {
    if i == 0 {
        (5849u16, "unknown"@)
    } else if i == 1 {
        (5848u16, "unknown"@)
    } else if i == 2 {
        (58468u16, "unknown"@)
    } else if i == 3 {
        (58456u16, "unknown"@)
    } else if i == 4 {
        (5845u16, "unknown"@)
    } else if i == 5 {
        (58446u16, "unknown"@)
    } else if i == 6 {
        (58430u16, "unknown"@)
    } else if i == 7 {
        (5840u16, "unknown"@)
    } else if i == 8 {
        (5839u16, "unknown"@)
    } else if i == 9 {
        (5838u16, "unknown"@)
    } else if i == 10 {
        (58374u16, "unknown"@)
    } else if i == 11 {
        (5836u16, "unknown"@)
    } else if i == 12 {
        (5834u16, "unknown"@)
    } else if i == 13 {
        (58310u16, "unknown"@)
    } else if i == 14 {
        (5831u16, "unknown"@)
    } else if i == 15 {
        (58305u16, "unknown"@)
    } else if i == 16 {
        (5827u16, "unknown"@)
    } else if i == 17 {
        (5826u16, "unknown"@)
    } else if i == 18 {
        (58252u16, "unknown"@)
    } else if i == 19 {
        (5824u16, "unknown"@)
    } else if i == 20 {
        (5821u16, "unknown"@)
    } else if i == 21 {
        (5820u16, "unknown"@)
    } else if i == 22 {
        (5817u16, "unknown"@)
    } else if i == 23 {
        (58164u16, "unknown"@)
    } else if i == 24 {
        (58109u16, "unknown"@)
    } else if i == 25 {
        (58107u16, "unknown"@)
    } else if i == 26 {
        (5808u16, "unknown"@)
    } else if i == 27 {
        (58072u16, "unknown"@)
    } else if i == 28 {
        (5806u16, "unknown"@)
    } else if i == 29 {
        (5804u16, "unknown"@)
    } else if i == 30 {
        (57999u16, "unknown"@)
    } else if i == 31 {
        (57988u16, "unknown"@)
    } else if i == 32 {
        (57928u16, "unknown"@)
    } else if i == 33 {
        (57923u16, "unknown"@)
    } else if i == 34 {
        (57896u16, "unknown"@)
    } else if i == 35 {
        (57891u16, "unknown"@)
    } else if i == 36 {
        (57733u16, "unknown"@)
    } else if i == 37 {
        (57730u16, "unknown"@)
    } else if i == 38 {
        (57702u16, "unknown"@)
    } else if i == 39 {
        (57681u16, "unknown"@)
    } else if i == 40 {
        (57678u16, "unknown"@)
    } else if i == 41 {
        (57576u16, "unknown"@)
    } else if i == 42 {
        (57479u16, "unknown"@)
    } else if i == 43 {
        (57398u16, "unknown"@)
    } else if i == 44 {
        (57387u16, "unknown"@)
    } else if i == 45 {
        (5737u16, "unknown"@)
    } else if i == 46 {
        (57352u16, "unknown"@)
    } else if i == 47 {
        (57350u16, "unknown"@)
    } else if i == 48 {
        (57347u16, "unknown"@)
    } else {
        (5734u16, "unknown"@)
    }
}

closed spec fn chunk_entry_46(i: int) -> (u16, Seq<char>) {
    if i == 0 {
        (57335u16, "unknown"@)
    } else if i == 1 {
        (57325u16, "unknown"@)
    } else if i == 2 {
        (5732u16, "unknown"@)
    } else if i == 3 {
        (57123u16, "unknown"@)
    } else if i == 4 {
        (5711u16, "unknown"@)
    } else if i == 5 {
        (57103u16, "unknown"@)
    } else if i == 6 {
        (57020u16, "unknown"@)
    } else if i == 7 {
        (56975u16, "unknown"@)
    } else if i == 8 {
        (56973u16, "unknown"@)
    } else if i == 9 {
        (56827u16, "unknown"@)
    } else if i == 10 {
        (56822u16, "unknown"@)
    } else if i == 11 {
        (56810u16, "unknown"@)
    } else if i == 12 {
        (56725u16, "unknown"@)
    } else if i == 13 {
        (56723u16, "unknown"@)
    } else if i == 14 {
        (56681u16, "unknown"@)
    } else if i == 15 {
        (5667u16, "unknown"@)
    } else if i == 16 {
        (56668u16, "unknown"@)
    } else if i == 17 {
        (5665u16, "unknown"@)
    } else if i == 18 {
        (56591u16, "unknown"@)
    } else if i == 19 {
        (56535u16, "unknown"@)
    } else if i == 20 {
        (56507u16, "unknown"@)
    } else if i == 21 {
        (56293u16, "unknown"@)
    } else if i == 22 {
        (56259u16, "unknown"@)
    } else if i == 23 {
        (5622u16, "unknown"@)
    } else if i == 24 {
        (5621u16, "unknown"@)
    } else if i == 25 {
        (5620u16, "unknown"@)
    } else if i == 26 {
        (5612u16, "unknown"@)
    } else if i == 27 {
        (5611u16, "unknown"@)
    } else if i == 28 {
        (56055u16, "unknown"@)
    } else if i == 29 {
        (56016u16, "unknown"@)
    } else if i == 30 {
        (55948u16, "unknown"@)
    } else if i == 31 {
        (55910u16, "unknown"@)
    } else if i == 32 {
        (55907u16, "unknown"@)
    } else if i == 33 {
        (55901u16, "unknown"@)
    } else if i == 34 {
        (55781u16, "unknown"@)
    } else if i == 35 {
        (55773u16, "unknown"@)
    } else if i == 36 {
        (55758u16, "unknown"@)
    } else if i == 37 {
        (55721u16, "unknown"@)
    } else if i == 38 {
        (55684u16, "unknown"@)
    } else if i == 39 {
        (55652u16, "unknown"@)
    } else if i == 40 {
        (55635u16, "unknown"@)
    } else if i == 41 {
        (55579u16, "unknown"@)
    } else if i == 42 {
        (55569u16, "unknown"@)
    } else if i == 43 {
        (55568u16, "unknown"@)
    } else if i == 44 {
        (55556u16, "unknown"@)
    } else if i == 45 {
        (55527u16, "unknown"@)
    } else if i == 46 {
        (5552u16, "unknown"@)
    } else if i == 47 {
        (55479u16, "unknown"@)
    } else if i == 48 {
        (55426u16, "unknown"@)
    } else {
        (55400u16, "unknown"@)
    }
}

closed spec fn chunk_entry_47(i: int) -> (u16, Seq<char>) {
    if i == 0 {
        (55382u16, "unknown"@)
    } else if i == 1 {
        (55350u16, "unknown"@)
    } else if i == 2 {
        (55312u16, "unknown"@)
    } else if i == 3 {
        (55227u16, "unknown"@)
    } else if i == 4 {
        (55187u16, "unknown"@)
    } else if i == 5 {
        (55183u16, "unknown"@)
    } else if i == 6 {
        (55000u16, "unknown"@)
    } else if i == 7 {
        (54991u16, "unknown"@)
    } else if i == 8 {
        (54987u16, "unknown"@)
    } else if i == 9 {
        (54907u16, "unknown"@)
    } else if i == 10 {
        (54873u16, "unknown"@)
    } else if i == 11 {
        (54741u16, "unknown"@)
    } else if i == 12 {
        (54722u16, "unknown"@)
    } else if i == 13 {
        (54688u16, "unknown"@)
    } else if i == 14 {
        (54658u16, "unknown"@)
    } else if i == 15 {
        (54605u16, "unknown"@)
    } else if i == 16 {
        (5458u16, "unknown"@)
    } else if i == 17 {
        (5457u16, "unknown"@)
    } else if i == 18 {
        (54551u16, "unknown"@)
    } else if i == 19 {
        (54514u16, "unknown"@)
    } else if i == 20 {
        (5444u16, "unknown"@)
    } else if i == 21 {
        (5442u16, "unknown"@)
    } else if i == 22 {
        (5441u16, "unknown"@)
    } else if i == 23 {
        (54323u16, "unknown"@)
    } else if i == 24 {
        (54321u16, "unknown"@)
    } else if i == 25 {
        (54276u16, "unknown"@)
    } else if i == 26 {
        (54263u16, "unknown"@)
    } else if i == 27 {
        (54235u16, "unknown"@)
    } else if i == 28 {
        (54127u16, "unknown"@)
    } else if i == 29 {
        (54101u16, "unknown"@)
    } else if i == 30 {
        (54075u16, "unknown"@)
    } else if i == 31 {
        (53958u16, "unknown"@)
    } else if i == 32 {
        (53910u16, "unknown"@)
    } else if i == 33 {
        (53852u16, "unknown"@)
    } else if i == 34 {
        (53827u16, "unknown"@)
    } else if i == 35 {
        (53782u16, "unknown"@)
    } else if i == 36 {
        (5377u16, "unknown"@)
    } else if i == 37 {
        (53742u16, "unknown"@)
    } else if i == 38 {
        (5370u16, "unknown"@)
    } else if i == 39 {
        (53690u16, "unknown"@)
    } else if i == 40 {
        (53656u16, "unknown"@)
    } else if i == 41 {
        (53639u16, "unknown"@)
    } else if i == 42 {
        (53633u16, "unknown"@)
    } else if i == 43 {
        (53491u16, "unknown"@)
    } else if i == 44 {
        (5347u16, "unknown"@)
    } else if i == 45 {
        (53469u16, "unknown"@)
    } else if i == 46 {
        (53460u16, "unknown"@)
    } else if i == 47 {
        (53370u16, "unknown"@)
    } else if i == 48 {
        (53361u16, "unknown"@)
    } else {
        (53319u16, "unknown"@)
    }
}

closed spec fn chunk_entry_48(i: int) -> (u16, Seq<char>) {
    if i == 0 {
        (53240u16, "unknown"@)
    } else if i == 1 {
        (53212u16, "unknown"@)
    } else if i == 2 {
        (53189u16, "unknown"@)
    } else if i == 3 {
        (53178u16, "unknown"@)
    } else if i == 4 {
        (53085u16, "unknown"@)
    } else if i == 5 {
        (52948u16, "unknown"@)
    } else if i == 6 {
        (5291u16, "unknown"@)
    } else if i == 7 {
        (52893u16, "unknown"@)
    } else if i == 8 {
        (52675u16, "unknown"@)
    } else if i == 9 {
        (52665u16, "unknown"@)
    } else if i == 10 {
        (5261u16, "unknown"@)
    } else if i == 11 {
        (5259u16, "unknown"@)
    } else if i == 12 {
        (52573u16, "unknown"@)
    } else if i == 13 {
        (52506u16, "unknown"@)
    } else if i == 14 {
        (52477u16, "unknown"@)
    } else if i == 15 {
        (52391u16, "unknown"@)
    } else if i == 16 {
        (52262u16, "unknown"@)
    } else if i == 17 {
        (52237u16, "unknown"@)
    } else if i == 18 {
        (52230u16, "unknown"@)
    } else if i == 19 {
        (52226u16, "unknown"@)
    } else if i == 20 {
        (52225u16, "unknown"@)
    } else if i == 21 {
        (5219u16, "unknown"@)
    } else if i == 22 {
        (52173u16, "unknown"@)
    } else if i == 23 {
        (52071u16, "unknown"@)
    } else if i == 24 {
        (52046u16, "unknown"@)
    } else if i == 25 {
        (52025u16, "unknown"@)
    } else if i == 26 {
        (52003u16, "unknown"@)
    } else if i == 27 {
        (52002u16, "unknown"@)
    } else if i == 28 {
        (52001u16, "unknown"@)
    } else if i == 29 {
        (52000u16, "unknown"@)
    } else if i == 30 {
        (51965u16, "unknown"@)
    } else if i == 31 {
        (51961u16, "unknown"@)
    } else if i == 32 {
        (51909u16, "unknown"@)
    } else if i == 33 {
        (51906u16, "unknown"@)
    } else if i == 34 {
        (51809u16, "unknown"@)
    } else if i == 35 {
        (51800u16, "unknown"@)
    } else if i == 36 {
        (51772u16, "unknown"@)
    } else if i == 37 {
        (51771u16, "unknown"@)
    } else if i == 38 {
        (51658u16, "unknown"@)
    } else if i == 39 {
        (51582u16, "unknown"@)
    } else if i == 40 {
        (51515u16, "unknown"@)
    } else if i == 41 {
        (51488u16, "unknown"@)
    } else if i == 42 {
        (51485u16, "unknown"@)
    } else if i == 43 {
        (51484u16, "unknown"@)
    } else if i == 44 {
        (5147u16, "unknown"@)
    } else if i == 45 {
        (51460u16, "unknown"@)
    } else if i == 46 {
        (51423u16, "unknown"@)
    } else if i == 47 {
        (51366u16, "unknown"@)
    } else if i == 48 {
        (51351u16, "unknown"@)
    } else {
        (51343u16, "unknown"@)
    }
}

closed spec fn chunk_entry_49(i: int) -> (u16, Seq<char>) {
    if i == 0 {
        (51300u16, "unknown"@)
    } else if i == 1 {
        (5125u16, "unknown"@)
    } else if i == 2 {
        (51240u16, "unknown"@)
    } else if i == 3 {
        (51235u16, "unknown"@)
    } else if i == 4 {
        (51234u16, "unknown"@)
    } else if i == 5 {
        (51233u16, "unknown"@)
    } else if i == 6 {
        (5122u16, "unknown"@)
    } else if i == 7 {
        (5121u16, "unknown"@)
    } else if i == 8 {
        (51139u16, "unknown"@)
    } else if i == 9 {
        (51118u16, "unknown"@)
    } else if i == 10 {
        (51067u16, "unknown"@)
    } else if i == 11 {
        (51037u16, "unknown"@)
    } else if i == 12 {
        (51020u16, "unknown"@)
    } else if i == 13 {
        (51011u16, "unknown"@)
    } else if i == 14 {
        (50997u16, "unknown"@)
    } else if i == 15 {
        (5098u16, "unknown"@)
    } else if i == 16 {
        (5096u16, "unknown"@)
    } else if i == 17 {
        (5095u16, "unknown"@)
    } else if i == 18 {
        (50945u16, "unknown"@)
    } else if i == 19 {
        (50903u16, "unknown"@)
    } else if i == 20 {
        (5090u16, "unknown"@)
    } else if i == 21 {
        (50887u16, "unknown"@)
    } else if i == 22 {
        (5088u16, "unknown"@)
    } else if i == 23 {
        (50854u16, "unknown"@)
    } else if i == 24 {
        (50849u16, "unknown"@)
    } else if i == 25 {
        (50836u16, "unknown"@)
    } else if i == 26 {
        (50835u16, "unknown"@)
    } else if i == 27 {
        (50834u16, "unknown"@)
    } else if i == 28 {
        (50833u16, "unknown"@)
    } else if i == 29 {
        (50831u16, "unknown"@)
    } else if i == 30 {
        (50815u16, "unknown"@)
    } else if i == 31 {
        (50809u16, "unknown"@)
    } else if i == 32 {
        (50787u16, "unknown"@)
    } else if i == 33 {
        (50733u16, "unknown"@)
    } else if i == 34 {
        (50692u16, "unknown"@)
    } else if i == 35 {
        (50585u16, "unknown"@)
    } else if i == 36 {
        (50577u16, "unknown"@)
    } else if i == 37 {
        (50576u16, "unknown"@)
    } else if i == 38 {
        (50545u16, "unknown"@)
    } else if i == 39 {
        (50529u16, "unknown"@)
    } else if i == 40 {
        (50513u16, "unknown"@)
    } else if i == 41 {
        (50356u16, "unknown"@)
    } else if i == 42 {
        (50277u16, "unknown"@)
    } else if i == 43 {
        (50258u16, "unknown"@)
    } else if i == 44 {
        (50246u16, "unknown"@)
    } else if i == 45 {
        (50224u16, "unknown"@)
    } else if i == 46 {
        (50205u16, "unknown"@)
    } else if i == 47 {
        (50202u16, "unknown"@)
    } else if i == 48 {
        (50198u16, "unknown"@)
    } else {
        (50189u16, "unknown"@)
    }
}

closed spec fn chunk_entry_50(i: int) -> (u16, Seq<char>) {
    if i == 0 {
        (5017u16, "unknown"@)
    } else if i == 1 {
        (5016u16, "unknown"@)
    } else if i == 2 {
        (50101u16, "unknown"@)
    } else if i == 3 {
        (50040u16, "unknown"@)
    } else if i == 4 {
        (50019u16, "unknown"@)
    } else if i == 5 {
        (50016u16, "unknown"@)
    } else if i == 6 {
        (49927u16, "unknown"@)
    } else if i == 7 {
        (49803u16, "unknown"@)
    } else if i == 8 {
        (49765u16, "unknown"@)
    } else if i == 9 {
        (49762u16, "unknown"@)
    } else if i == 10 {
        (49751u16, "unknown"@)
    } else if i == 11 {
        (49678u16, "unknown"@)
    } else if i == 12 {
        (49603u16, "unknown"@)
    } else if i == 13 {
        (49597u16, "unknown"@)
    } else if i == 14 {
        (49522u16, "unknown"@)
    } else if i == 15 {
        (49521u16, "unknown"@)
    } else if i == 16 {
        (49520u16, "unknown"@)
    } else if i == 17 {
        (49519u16, "unknown"@)
    } else if i == 18 {
        (49500u16, "unknown"@)
    } else if i == 19 {
        (49498u16, "unknown"@)
    } else if i == 20 {
        (49452u16, "unknown"@)
    } else if i == 21 {
        (49398u16, "unknown"@)
    } else if i == 22 {
        (49372u16, "unknown"@)
    } else if i == 23 {
        (49352u16, "unknown"@)
    } else if i == 24 {
        (4931u16, "unknown"@)
    } else if i == 25 {
        (49302u16, "unknown"@)
    } else if i == 26 {
        (49275u16, "unknown"@)
    } else if i == 27 {
        (49241u16, "unknown"@)
    } else if i == 28 {
        (49235u16, "unknown"@)
    } else if i == 29 {
        (49232u16, "unknown"@)
    } else if i == 30 {
        (49228u16, "unknown"@)
    } else if i == 31 {
        (49216u16, "unknown"@)
    } else if i == 32 {
        (49213u16, "unknown"@)
    } else if i == 33 {
        (49211u16, "unknown"@)
    } else if i == 34 {
        (49204u16, "unknown"@)
    } else if i == 35 {
        (49203u16, "unknown"@)
    } else if i == 36 {
        (49202u16, "unknown"@)
    } else if i == 37 {
        (49201u16, "unknown"@)
    } else if i == 38 {
        (49197u16, "unknown"@)
    } else if i == 39 {
        (49196u16, "unknown"@)
    } else if i == 40 {
        (49191u16, "unknown"@)
    } else if i == 41 {
        (49190u16, "unknown"@)
    } else if i == 42 {
        (49189u16, "unknown"@)
    } else if i == 43 {
        (49179u16, "unknown"@)
    } else if i == 44 {
        (49173u16, "unknown"@)
    } else if i == 45 {
        (49172u16, "unknown"@)
    } else if i == 46 {
        (49170u16, "unknown"@)
    } else if i == 47 {
        (49169u16, "unknown"@)
    } else if i == 48 {
        (49166u16, "unknown"@)
    } else {
        (49132u16, "unknown"@)
    }
}

closed spec fn chunk_entry_51(i: int) -> (u16, Seq<char>) {
    if i == 0 {
        (49048u16, "unknown"@)
    } else if i == 1 {
        (4903u16, "unknown"@)
    } else if i == 2 {
        (49002u16, "unknown"@)
    } else if i == 3 {
        (48973u16, "unknown"@)
    } else if i == 4 {
        (48967u16, "unknown"@)
    } else if i == 5 {
        (48966u16, "unknown"@)
    } else if i == 6 {
        (48925u16, "unknown"@)
    } else if i == 7 {
        (48813u16, "unknown"@)
    } else if i == 8 {
        (48783u16, "unknown"@)
    } else if i == 9 {
        (48682u16, "unknown"@)
    } else if i == 10 {
        (48648u16, "unknown"@)
    } else if i == 11 {
        (48631u16, "unknown"@)
    } else if i == 12 {
        (4860u16, "unknown"@)
    } else if i == 13 {
        (4859u16, "unknown"@)
    } else if i == 14 {
        (48434u16, "unknown"@)
    } else if i == 15 {
        (48356u16, "unknown"@)
    } else if i == 16 {
        (4819u16, "unknown"@)
    } else if i == 17 {
        (48167u16, "unknown"@)
    } else if i == 18 {
        (48153u16, "unknown"@)
    } else if i == 19 {
        (48127u16, "unknown"@)
    } else if i == 20 {
        (48083u16, "unknown"@)
    } else if i == 21 {
        (48067u16, "unknown"@)
    } else if i == 22 {
        (48009u16, "unknown"@)
    } else if i == 23 {
        (47969u16, "unknown"@)
    } else if i == 24 {
        (47966u16, "unknown"@)
    } else if i == 25 {
        (4793u16, "unknown"@)
    } else if i == 26 {
        (47860u16, "unknown"@)
    } else if i == 27 {
        (47858u16, "unknown"@)
    } else if i == 28 {
        (47850u16, "unknown"@)
    } else if i == 29 {
        (4778u16, "unknown"@)
    } else if i == 30 {
        (47777u16, "unknown"@)
    } else if i == 31 {
        (4771u16, "unknown"@)
    } else if i == 32 {
        (47700u16, "unknown"@)
    } else if i == 33 {
        (4770u16, "unknown"@)
    } else if i == 34 {
        (4767u16, "unknown"@)
    } else if i == 35 {
        (47634u16, "unknown"@)
    } else if i == 36 {
        (4760u16, "unknown"@)
    } else if i == 37 {
        (47595u16, "unknown"@)
    } else if i == 38 {
        (47581u16, "unknown"@)
    } else if i == 39 {
        (47567u16, "unknown"@)
    } else if i == 40 {
        (47448u16, "unknown"@)
    } else if i == 41 {
        (47372u16, "unknown"@)
    } else if i == 42 {
        (47348u16, "unknown"@)
    } else if i == 43 {
        (47267u16, "unknown"@)
    } else if i == 44 {
        (47197u16, "unknown"@)
    } else if i == 45 {
        (4712u16, "unknown"@)
    } else if i == 46 {
        (47119u16, "unknown"@)
    } else if i == 47 {
        (47029u16, "unknown"@)
    } else if i == 48 {
        (47012u16, "unknown"@)
    } else {
        (46992u16, "unknown"@)
    }
}

closed spec fn chunk_entry_52(i: int) -> (u16, Seq<char>) {
    if i == 0 {
        (46813u16, "unknown"@)
    } else if i == 1 {
        (46593u16, "unknown"@)
    } else if i == 2 {
        (4649u16, "unknown"@)
    } else if i == 3 {
        (4644u16, "unknown"@)
    } else if i == 4 {
        (46436u16, "unknown"@)
    } else if i == 5 {
        (46418u16, "unknown"@)
    } else if i == 6 {
        (46372u16, "unknown"@)
    } else if i == 7 {
        (46310u16, "unknown"@)
    } else if i == 8 {
        (46182u16, "unknown"@)
    } else if i == 9 {
        (46171u16, "unknown"@)
    } else if i == 10 {
        (46115u16, "unknown"@)
    } else if i == 11 {
        (4609u16, "unknown"@)
    } else if i == 12 {
        (46069u16, "unknown"@)
    } else if i == 13 {
        (46034u16, "unknown"@)
    } else if i == 14 {
        (45960u16, "unknown"@)
    } else if i == 15 {
        (45864u16, "unknown"@)
    } else if i == 16 {
        (45777u16, "unknown"@)
    } else if i == 17 {
        (45697u16, "unknown"@)
    } else if i == 18 {
        (45624u16, "unknown"@)
    } else if i == 19 {
        (45602u16, "unknown"@)
    } else if i == 20 {
        (45463u16, "unknown"@)
    } else if i == 21 {
        (45438u16, "unknown"@)
    } else if i == 22 {
        (45413u16, "unknown"@)
    } else if i == 23 {
        (4530u16, "unknown"@)
    } else if i == 24 {
        (45226u16, "unknown"@)
    } else if i == 25 {
        (45220u16, "unknown"@)
    } else if i == 26 {
        (4517u16, "unknown"@)
    } else if i == 27 {
        (45164u16, "unknown"@)
    } else if i == 28 {
        (4516u16, "unknown"@)
    } else if i == 29 {
        (45136u16, "unknown"@)
    } else if i == 30 {
        (45050u16, "unknown"@)
    } else if i == 31 {
        (45038u16, "unknown"@)
    } else if i == 32 {
        (44981u16, "unknown"@)
    } else if i == 33 {
        (44965u16, "unknown"@)
    } else if i == 34 {
        (4476u16, "unknown"@)
    } else if i == 35 {
        (44711u16, "unknown"@)
    } else if i == 36 {
        (4471u16, "unknown"@)
    } else if i == 37 {
        (44704u16, "unknown"@)
    } else if i == 38 {
        (4464u16, "unknown"@)
    } else if i == 39 {
        (44628u16, "unknown"@)
    } else if i == 40 {
        (44616u16, "unknown"@)
    } else if i == 41 {
        (44541u16, "unknown"@)
    } else if i == 42 {
        (44505u16, "unknown"@)
    } else if i == 43 {
        (44479u16, "unknown"@)
    } else if i == 44 {
        (44431u16, "unknown"@)
    } else if i == 45 {
        (44410u16, "unknown"@)
    } else if i == 46 {
        (44380u16, "unknown"@)
    } else if i == 47 {
        (44200u16, "unknown"@)
    } else if i == 48 {
        (44119u16, "unknown"@)
    } else {
        (44101u16, "unknown"@)
    }
}

closed spec fn chunk_entry_53(i: int) -> (u16, Seq<char>) {
    if i == 0 {
        (44004u16, "unknown"@)
    } else if i == 1 {
        (4388u16, "unknown"@)
    } else if i == 2 {
        (43868u16, "unknown"@)
    } else if i == 3 {
        (4384u16, "unknown"@)
    } else if i == 4 {
        (43823u16, "unknown"@)
    } else if i == 5 {
        (43734u16, "unknown"@)
    } else if i == 6 {
        (43690u16, "unknown"@)
    } else if i == 7 {
        (43654u16, "unknown"@)
    } else if i == 8 {
        (43425u16, "unknown"@)
    } else if i == 9 {
        (43242u16, "unknown"@)
    } else if i == 10 {
        (43231u16, "unknown"@)
    } else if i == 11 {
        (43212u16, "unknown"@)
    } else if i == 12 {
        (43143u16, "unknown"@)
    } else if i == 13 {
        (43139u16, "unknown"@)
    } else if i == 14 {
        (43103u16, "unknown"@)
    } else if i == 15 {
        (43027u16, "unknown"@)
    } else if i == 16 {
        (43018u16, "unknown"@)
    } else if i == 17 {
        (43002u16, "unknown"@)
    } else if i == 18 {
        (42990u16, "unknown"@)
    } else if i == 19 {
        (42906u16, "unknown"@)
    } else if i == 20 {
        (42735u16, "unknown"@)
    } else if i == 21 {
        (42685u16, "unknown"@)
    } else if i == 22 {
        (42679u16, "unknown"@)
    } else if i == 23 {
        (42675u16, "unknown"@)
    } else if i == 24 {
        (42632u16, "unknown"@)
    } else if i == 25 {
        (42590u16, "unknown"@)
    } else if i == 26 {
        (42575u16, "unknown"@)
    } else if i == 27 {
        (42560u16, "unknown"@)
    } else if i == 28 {
        (42559u16, "unknown"@)
    } else if i == 29 {
        (42452u16, "unknown"@)
    } else if i == 30 {
        (42449u16, "unknown"@)
    } else if i == 31 {
        (42322u16, "unknown"@)
    } else if i == 32 {
        (42276u16, "unknown"@)
    } else if i == 33 {
        (42251u16, "unknown"@)
    } else if i == 34 {
        (42158u16, "unknown"@)
    } else if i == 35 {
        (42127u16, "unknown"@)
    } else if i == 36 {
        (42035u16, "unknown"@)
    } else if i == 37 {
        (42001u16, "unknown"@)
    } else if i == 38 {
        (41808u16, "unknown"@)
    } else if i == 39 {
        (41773u16, "unknown"@)
    } else if i == 40 {
        (41632u16, "unknown"@)
    } else if i == 41 {
        (41551u16, "unknown"@)
    } else if i == 42 {
        (41442u16, "unknown"@)
    } else if i == 43 {
        (41398u16, "unknown"@)
    } else if i == 44 {
        (41348u16, "unknown"@)
    } else if i == 45 {
        (41345u16, "unknown"@)
    } else if i == 46 {
        (41342u16, "unknown"@)
    } else if i == 47 {
        (41318u16, "unknown"@)
    } else if i == 48 {
        (41281u16, "unknown"@)
    } else {
        (41250u16, "unknown"@)
    }
}

closed spec fn chunk_entry_54(i: int) -> (u16, Seq<char>) {
    if i == 0 {
        (41142u16, "unknown"@)
    } else if i == 1 {
        (41123u16, "unknown"@)
    } else if i == 2 {
        (40951u16, "unknown"@)
    } else if i == 3 {
        (40834u16, "unknown"@)
    } else if i == 4 {
        (40812u16, "unknown"@)
    } else if i == 5 {
        (40754u16, "unknown"@)
    } else if i == 6 {
        (40732u16, "unknown"@)
    } else if i == 7 {
        (40712u16, "unknown"@)
    } else if i == 8 {
        (40628u16, "unknown"@)
    } else if i == 9 {
        (40614u16, "unknown"@)
    } else if i == 10 {
        (40513u16, "unknown"@)
    } else if i == 11 {
        (40489u16, "unknown"@)
    } else if i == 12 {
        (40457u16, "unknown"@)
    } else if i == 13 {
        (40400u16, "unknown"@)
    } else if i == 14 {
        (40393u16, "unknown"@)
    } else if i == 15 {
        (40306u16, "unknown"@)
    } else if i == 16 {
        (40011u16, "unknown"@)
    } else if i == 17 {
        (40005u16, "unknown"@)
    } else if i == 18 {
        (40003u16, "unknown"@)
    } else if i == 19 {
        (40002u16, "unknown"@)
    } else if i == 20 {
        (40001u16, "unknown"@)
    } else if i == 21 {
        (39917u16, "unknown"@)
    } else if i == 22 {
        (39895u16, "unknown"@)
    } else if i == 23 {
        (39883u16, "unknown"@)
    } else if i == 24 {
        (39869u16, "unknown"@)
    } else if i == 25 {
        (39795u16, "unknown"@)
    } else if i == 26 {
        (39774u16, "unknown"@)
    } else if i == 27 {
        (39763u16, "unknown"@)
    } else if i == 28 {
        (39732u16, "unknown"@)
    } else if i == 29 {
        (39630u16, "unknown"@)
    } else if i == 30 {
        (39489u16, "unknown"@)
    } else if i == 31 {
        (39482u16, "unknown"@)
    } else if i == 32 {
        (39433u16, "unknown"@)
    } else if i == 33 {
        (39380u16, "unknown"@)
    } else if i == 34 {
        (39293u16, "unknown"@)
    } else if i == 35 {
        (39265u16, "unknown"@)
    } else if i == 36 {
        (39117u16, "unknown"@)
    } else if i == 37 {
        (39067u16, "unknown"@)
    } else if i == 38 {
        (38936u16, "unknown"@)
    } else if i == 39 {
        (38805u16, "unknown"@)
    } else if i == 40 {
        (38780u16, "unknown"@)
    } else if i == 41 {
        (38764u16, "unknown"@)
    } else if i == 42 {
        (38761u16, "unknown"@)
    } else if i == 43 {
        (38570u16, "unknown"@)
    } else if i == 44 {
        (38561u16, "unknown"@)
    } else if i == 45 {
        (38546u16, "unknown"@)
    } else if i == 46 {
        (38481u16, "unknown"@)
    } else if i == 47 {
        (38446u16, "unknown"@)
    } else if i == 48 {
        (38358u16, "unknown"@)
    } else {
        (38331u16, "unknown"@)
    }
}

closed spec fn chunk_entry_55(i: int) -> (u16, Seq<char>) {
    if i == 0 {
        (38313u16, "unknown"@)
    } else if i == 1 {
        (38270u16, "unknown"@)
    } else if i == 2 {
        (38224u16, "unknown"@)
    } else if i == 3 {
        (38205u16, "unknown"@)
    } else if i == 4 {
        (38194u16, "unknown"@)
    } else if i == 5 {
        (38029u16, "unknown"@)
    } else if i == 6 {
        (37855u16, "unknown"@)
    } else if i == 7 {
        (37789u16, "unknown"@)
    } else if i == 8 {
        (37777u16, "unknown"@)
    } else if i == 9 {
        (37674u16, "unknown"@)
    } else if i == 10 {
        (37647u16, "unknown"@)
    } else if i == 11 {
        (37614u16, "unknown"@)
    } else if i == 12 {
        (37607u16, "unknown"@)
    } else if i == 13 {
        (37522u16, "unknown"@)
    } else if i == 14 {
        (37393u16, "unknown"@)
    } else if i == 15 {
        (37218u16, "unknown"@)
    } else if i == 16 {
        (37185u16, "unknown"@)
    } else if i == 17 {
        (37174u16, "unknown"@)
    } else if i == 18 {
        (37151u16, "unknown"@)
    } else if i == 19 {
        (37121u16, "unknown"@)
    } else if i == 20 {
        (36983u16, "unknown"@)
    } else if i == 21 {
        (36962u16, "unknown"@)
    } else if i == 22 {
        (36950u16, "unknown"@)
    } else if i == 23 {
        (36914u16, "unknown"@)
    } else if i == 24 {
        (36824u16, "unknown"@)
    } else if i == 25 {
        (36823u16, "unknown"@)
    } else if i == 26 {
        (36748u16, "unknown"@)
    } else if i == 27 {
        (36710u16, "unknown"@)
    } else if i == 28 {
        (36694u16, "unknown"@)
    } else if i == 29 {
        (36677u16, "unknown"@)
    } else if i == 30 {
        (36659u16, "unknown"@)
    } else if i == 31 {
        (36552u16, "unknown"@)
    } else if i == 32 {
        (36530u16, "unknown"@)
    } else if i == 33 {
        (36508u16, "unknown"@)
    } else if i == 34 {
        (36436u16, "unknown"@)
    } else if i == 35 {
        (36368u16, "unknown"@)
    } else if i == 36 {
        (36275u16, "unknown"@)
    } else if i == 37 {
        (36256u16, "unknown"@)
    } else if i == 38 {
        (36105u16, "unknown"@)
    } else if i == 39 {
        (36104u16, "unknown"@)
    } else if i == 40 {
        (36046u16, "unknown"@)
    } else if i == 41 {
        (35986u16, "unknown"@)
    } else if i == 42 {
        (35929u16, "unknown"@)
    } else if i == 43 {
        (35906u16, "unknown"@)
    } else if i == 44 {
        (35901u16, "unknown"@)
    } else if i == 45 {
        (35900u16, "unknown"@)
    } else if i == 46 {
        (35879u16, "unknown"@)
    } else if i == 47 {
        (35731u16, "unknown"@)
    } else if i == 48 {
        (35593u16, "unknown"@)
    } else {
        (35553u16, "unknown"@)
    }
}

closed spec fn chunk_entry_56(i: int) -> (u16, Seq<char>) {
    if i == 0 {
        (35506u16, "unknown"@)
    } else if i == 1 {
        (35401u16, "unknown"@)
    } else if i == 2 {
        (35393u16, "unknown"@)
    } else if i == 3 {
        (35392u16, "unknown"@)
    } else if i == 4 {
        (35349u16, "unknown"@)
    } else if i == 5 {
        (35272u16, "unknown"@)
    } else if i == 6 {
        (35217u16, "unknown"@)
    } else if i == 7 {
        (35131u16, "unknown"@)
    } else if i == 8 {
        (35116u16, "unknown"@)
    } else if i == 9 {
        (35050u16, "unknown"@)
    } else if i == 10 {
        (35033u16, "unknown"@)
    } else if i == 11 {
        (34875u16, "unknown"@)
    } else if i == 12 {
        (34833u16, "unknown"@)
    } else if i == 13 {
        (34783u16, "unknown"@)
    } else if i == 14 {
        (34765u16, "unknown"@)
    } else if i == 15 {
        (34728u16, "unknown"@)
    } else if i == 16 {
        (34683u16, "unknown"@)
    } else if i == 17 {
        (34510u16, "unknown"@)
    } else if i == 18 {
        (34507u16, "unknown"@)
    } else if i == 19 {
        (34401u16, "unknown"@)
    } else if i == 20 {
        (34381u16, "unknown"@)
    } else if i == 21 {
        (34341u16, "unknown"@)
    } else if i == 22 {
        (34317u16, "unknown"@)
    } else if i == 23 {
        (34189u16, "unknown"@)
    } else if i == 24 {
        (34096u16, "unknown"@)
    } else if i == 25 {
        (34036u16, "unknown"@)
    } else if i == 26 {
        (34021u16, "unknown"@)
    } else if i == 27 {
        (33895u16, "unknown"@)
    } else if i == 28 {
        (33889u16, "unknown"@)
    } else if i == 29 {
        (33882u16, "unknown"@)
    } else if i == 30 {
        (33879u16, "unknown"@)
    } else if i == 31 {
        (33841u16, "unknown"@)
    } else if i == 32 {
        (33605u16, "unknown"@)
    } else if i == 33 {
        (33604u16, "unknown"@)
    } else if i == 34 {
        (33550u16, "unknown"@)
    } else if i == 35 {
        (33523u16, "unknown"@)
    } else if i == 36 {
        (33522u16, "unknown"@)
    } else if i == 37 {
        (33444u16, "unknown"@)
    } else if i == 38 {
        (33395u16, "unknown"@)
    } else if i == 39 {
        (33367u16, "unknown"@)
    } else if i == 40 {
        (33337u16, "unknown"@)
    } else if i == 41 {
        (33335u16, "unknown"@)
    } else if i == 42 {
        (33327u16, "unknown"@)
    } else if i == 43 {
        (33277u16, "unknown"@)
    } else if i == 44 {
        (33203u16, "unknown"@)
    } else if i == 45 {
        (33200u16, "unknown"@)
    } else if i == 46 {
        (33192u16, "unknown"@)
    } else if i == 47 {
        (33175u16, "unknown"@)
    } else if i == 48 {
        (33124u16, "unknown"@)
    } else {
        (33087u16, "unknown"@)
    }
}

closed spec fn chunk_entry_57(i: int) -> (u16, Seq<char>) {
    if i == 0 {
        (33070u16, "unknown"@)
    } else if i == 1 {
        (33017u16, "unknown"@)
    } else if i == 2 {
        (33011u16, "unknown"@)
    } else if i == 3 {
        (32976u16, "unknown"@)
    } else if i == 4 {
        (32961u16, "unknown"@)
    } else if i == 5 {
        (32960u16, "unknown"@)
    } else if i == 6 {
        (32944u16, "unknown"@)
    } else if i == 7 {
        (32932u16, "unknown"@)
    } else if i == 8 {
        (32911u16, "unknown"@)
    } else if i == 9 {
        (32910u16, "unknown"@)
    } else if i == 10 {
        (32908u16, "unknown"@)
    } else if i == 11 {
        (32905u16, "unknown"@)
    } else if i == 12 {
        (32904u16, "unknown"@)
    } else if i == 13 {
        (32898u16, "unknown"@)
    } else if i == 14 {
        (32897u16, "unknown"@)
    } else if i == 15 {
        (32888u16, "unknown"@)
    } else if i == 16 {
        (32871u16, "unknown"@)
    } else if i == 17 {
        (32869u16, "unknown"@)
    } else if i == 18 {
        (32868u16, "unknown"@)
    } else if i == 19 {
        (32858u16, "unknown"@)
    } else if i == 20 {
        (32842u16, "unknown"@)
    } else if i == 21 {
        (32837u16, "unknown"@)
    } else if i == 22 {
        (32820u16, "unknown"@)
    } else if i == 23 {
        (32815u16, "unknown"@)
    } else if i == 24 {
        (32814u16, "unknown"@)
    } else if i == 25 {
        (32807u16, "unknown"@)
    } else if i == 26 {
        (32799u16, "unknown"@)
    } else if i == 27 {
        (32798u16, "unknown"@)
    } else if i == 28 {
        (32797u16, "unknown"@)
    } else if i == 29 {
        (32790u16, "unknown"@)
    } else if i == 30 {
        (32789u16, "unknown"@)
    } else if i == 31 {
        (32788u16, "unknown"@)
    } else if i == 32 {
        (32765u16, "unknown"@)
    } else if i == 33 {
        (32764u16, "unknown"@)
    } else if i == 34 {
        (32261u16, "unknown"@)
    } else if i == 35 {
        (32260u16, "unknown"@)
    } else if i == 36 {
        (32219u16, "unknown"@)
    } else if i == 37 {
        (32200u16, "unknown"@)
    } else if i == 38 {
        (32102u16, "unknown"@)
    } else if i == 39 {
        (32088u16, "unknown"@)
    } else if i == 40 {
        (32031u16, "unknown"@)
    } else if i == 41 {
        (32022u16, "unknown"@)
    } else if i == 42 {
        (32006u16, "unknown"@)
    } else if i == 43 {
        (31728u16, "unknown"@)
    } else if i == 44 {
        (31657u16, "unknown"@)
    } else if i == 45 {
        (31522u16, "unknown"@)
    } else if i == 46 {
        (31438u16, "unknown"@)
    } else if i == 47 {
        (31386u16, "unknown"@)
    } else if i == 48 {
        (31339u16, "unknown"@)
    } else {
        (31072u16, "unknown"@)
    }
}

closed spec fn chunk_entry_58(i: int) -> (u16, Seq<char>) {
    if i == 0 {
        (31058u16, "unknown"@)
    } else if i == 1 {
        (31033u16, "unknown"@)
    } else if i == 2 {
        (30896u16, "unknown"@)
    } else if i == 3 {
        (30705u16, "unknown"@)
    } else if i == 4 {
        (30659u16, "unknown"@)
    } else if i == 5 {
        (30644u16, "unknown"@)
    } else if i == 6 {
        (30599u16, "unknown"@)
    } else if i == 7 {
        (30519u16, "unknown"@)
    } else if i == 8 {
        (30299u16, "unknown"@)
    } else if i == 9 {
        (30195u16, "unknown"@)
    } else if i == 10 {
        (30087u16, "unknown"@)
    } else if i == 11 {
        (29810u16, "unknown"@)
    } else if i == 12 {
        (29507u16, "unknown"@)
    } else if i == 13 {
        (29243u16, "unknown"@)
    } else if i == 14 {
        (29152u16, "unknown"@)
    } else if i == 15 {
        (29045u16, "unknown"@)
    } else if i == 16 {
        (28967u16, "unknown"@)
    } else if i == 17 {
        (28924u16, "unknown"@)
    } else if i == 18 {
        (28851u16, "unknown"@)
    } else if i == 19 {
        (28850u16, "unknown"@)
    } else if i == 20 {
        (28717u16, "unknown"@)
    } else if i == 21 {
        (28567u16, "unknown"@)
    } else if i == 22 {
        (28374u16, "unknown"@)
    } else if i == 23 {
        (28142u16, "unknown"@)
    } else if i == 24 {
        (28114u16, "unknown"@)
    } else if i == 25 {
        (27770u16, "unknown"@)
    } else if i == 26 {
        (27537u16, "unknown"@)
    } else if i == 27 {
        (27521u16, "unknown"@)
    } else if i == 28 {
        (27372u16, "unknown"@)
    } else if i == 29 {
        (27351u16, "unknown"@)
    } else if i == 30 {
        (27350u16, "unknown"@)
    } else if i == 31 {
        (27316u16, "unknown"@)
    } else if i == 32 {
        (27204u16, "unknown"@)
    } else if i == 33 {
        (27087u16, "unknown"@)
    } else if i == 34 {
        (27075u16, "unknown"@)
    } else if i == 35 {
        (27074u16, "unknown"@)
    } else if i == 36 {
        (27055u16, "unknown"@)
    } else if i == 37 {
        (27016u16, "unknown"@)
    } else if i == 38 {
        (27015u16, "unknown"@)
    } else if i == 39 {
        (26972u16, "unknown"@)
    } else if i == 40 {
        (26669u16, "unknown"@)
    } else if i == 41 {
        (26417u16, "unknown"@)
    } else if i == 42 {
        (26340u16, "unknown"@)
    } else if i == 43 {
        (26007u16, "unknown"@)
    } else if i == 44 {
        (26001u16, "unknown"@)
    } else if i == 45 {
        (25847u16, "unknown"@)
    } else if i == 46 {
        (25717u16, "unknown"@)
    } else if i == 47 {
        (25703u16, "unknown"@)
    } else if i == 48 {
        (25486u16, "unknown"@)
    } else {
        (25473u16, "unknown"@)
    }
}

closed spec fn chunk_entry_59(i: int) -> (u16, Seq<char>) {
    if i == 0 {
        (25445u16, "unknown"@)
    } else if i == 1 {
        (25327u16, "unknown"@)
    } else if i == 2 {
        (25288u16, "unknown"@)
    } else if i == 3 {
        (25262u16, "unknown"@)
    } else if i == 4 {
        (25260u16, "unknown"@)
    } else if i == 5 {
        (25174u16, "unknown"@)
    } else if i == 6 {
        (24999u16, "unknown"@)
    } else if i == 7 {
        (24616u16, "unknown"@)
    } else if i == 8 {
        (24552u16, "unknown"@)
    } else if i == 9 {
        (24416u16, "unknown"@)
    } else if i == 10 {
        (24392u16, "unknown"@)
    } else if i == 11 {
        (24218u16, "unknown"@)
    } else if i == 12 {
        (23953u16, "unknown"@)
    } else if i == 13 {
        (23887u16, "unknown"@)
    } else if i == 14 {
        (23723u16, "unknown"@)
    } else if i == 15 {
        (23451u16, "unknown"@)
    } else if i == 16 {
        (23430u16, "unknown"@)
    } else if i == 17 {
        (23382u16, "unknown"@)
    } else if i == 18 {
        (23342u16, "unknown"@)
    } else if i == 19 {
        (23296u16, "unknown"@)
    } else if i == 20 {
        (23270u16, "unknown"@)
    } else if i == 21 {
        (23228u16, "unknown"@)
    } else if i == 22 {
        (23219u16, "unknown"@)
    } else if i == 23 {
        (23040u16, "unknown"@)
    } else if i == 24 {
        (23017u16, "unknown"@)
    } else if i == 25 {
        (22969u16, "unknown"@)
    } else if i == 26 {
        (22959u16, "unknown"@)
    } else if i == 27 {
        (22882u16, "unknown"@)
    } else if i == 28 {
        (22769u16, "unknown"@)
    } else if i == 29 {
        (22727u16, "unknown"@)
    } else if i == 30 {
        (22719u16, "unknown"@)
    } else if i == 31 {
        (22711u16, "unknown"@)
    } else if i == 32 {
        (22563u16, "unknown"@)
    } else if i == 33 {
        (22341u16, "unknown"@)
    } else if i == 34 {
        (22290u16, "unknown"@)
    } else if i == 35 {
        (22223u16, "unknown"@)
    } else if i == 36 {
        (22200u16, "unknown"@)
    } else if i == 37 {
        (22177u16, "unknown"@)
    } else if i == 38 {
        (22100u16, "unknown"@)
    } else if i == 39 {
        (22063u16, "unknown"@)
    } else if i == 40 {
        (22022u16, "unknown"@)
    } else if i == 41 {
        (21915u16, "unknown"@)
    } else if i == 42 {
        (21891u16, "unknown"@)
    } else if i == 43 {
        (21728u16, "unknown"@)
    } else if i == 44 {
        (21634u16, "unknown"@)
    } else if i == 45 {
        (21631u16, "unknown"@)
    } else if i == 46 {
        (21473u16, "unknown"@)
    } else if i == 47 {
        (21078u16, "unknown"@)
    } else if i == 48 {
        (21011u16, "unknown"@)
    } else {
        (20990u16, "unknown"@)
    }
}

closed spec fn chunk_entry_60(i: int) -> (u16, Seq<char>) {
    if i == 0 {
        (20940u16, "unknown"@)
    } else if i == 1 {
        (20934u16, "unknown"@)
    } else if i == 2 {
        (20883u16, "unknown"@)
    } else if i == 3 {
        (20734u16, "unknown"@)
    } else if i == 4 {
        (20473u16, "unknown"@)
    } else if i == 5 {
        (20280u16, "unknown"@)
    } else if i == 6 {
        (20228u16, "unknown"@)
    } else if i == 7 {
        (20227u16, "unknown"@)
    } else if i == 8 {
        (20226u16, "unknown"@)
    } else if i == 9 {
        (20225u16, "unknown"@)
    } else if i == 10 {
        (20224u16, "unknown"@)
    } else if i == 11 {
        (20223u16, "unknown"@)
    } else if i == 12 {
        (20180u16, "unknown"@)
    } else if i == 13 {
        (20179u16, "unknown"@)
    } else if i == 14 {
        (20147u16, "unknown"@)
    } else if i == 15 {
        (20127u16, "unknown"@)
    } else if i == 16 {
        (20125u16, "unknown"@)
    } else if i == 17 {
        (20118u16, "unknown"@)
    } else if i == 18 {
        (20111u16, "unknown"@)
    } else if i == 19 {
        (20106u16, "unknown"@)
    } else if i == 20 {
        (20102u16, "unknown"@)
    } else if i == 21 {
        (20089u16, "unknown"@)
    } else if i == 22 {
        (20085u16, "unknown"@)
    } else if i == 23 {
        (20080u16, "unknown"@)
    } else if i == 24 {
        (20076u16, "unknown"@)
    } else if i == 25 {
        (20052u16, "unknown"@)
    } else if i == 26 {
        (20039u16, "unknown"@)
    } else if i == 27 {
        (20032u16, "unknown"@)
    } else if i == 28 {
        (20021u16, "unknown"@)
    } else if i == 29 {
        (20017u16, "unknown"@)
    } else if i == 30 {
        (20011u16, "unknown"@)
    } else if i == 31 {
        (19996u16, "unknown"@)
    } else if i == 32 {
        (19995u16, "unknown"@)
    } else if i == 33 {
        (19852u16, "unknown"@)
    } else if i == 34 {
        (19715u16, "unknown"@)
    } else if i == 35 {
        (19634u16, "unknown"@)
    } else if i == 36 {
        (19612u16, "unknown"@)
    } else if i == 37 {
        (19501u16, "unknown"@)
    } else if i == 38 {
        (19464u16, "unknown"@)
    } else if i == 39 {
        (19403u16, "unknown"@)
    } else if i == 40 {
        (19353u16, "unknown"@)
    } else if i == 41 {
        (19201u16, "unknown"@)
    } else if i == 42 {
        (19200u16, "unknown"@)
    } else if i == 43 {
        (19130u16, "unknown"@)
    } else if i == 44 {
        (19010u16, "unknown"@)
    } else if i == 45 {
        (18962u16, "unknown"@)
    } else if i == 46 {
        (18910u16, "unknown"@)
    } else if i == 47 {
        (18887u16, "unknown"@)
    } else if i == 48 {
        (18874u16, "unknown"@)
    } else {
        (18669u16, "unknown"@)
    }
}

closed spec fn chunk_entry_61(i: int) -> (u16, Seq<char>) {
    if i == 0 {
        (18569u16, "unknown"@)
    } else if i == 1 {
        (18517u16, "unknown"@)
    } else if i == 2 {
        (18505u16, "unknown"@)
    } else if i == 3 {
        (18439u16, "unknown"@)
    } else if i == 4 {
        (18380u16, "unknown"@)
    } else if i == 5 {
        (18337u16, "unknown"@)
    } else if i == 6 {
        (18336u16, "unknown"@)
    } else if i == 7 {
        (18231u16, "unknown"@)
    } else if i == 8 {
        (18148u16, "unknown"@)
    } else if i == 9 {
        (18080u16, "unknown"@)
    } else if i == 10 {
        (18015u16, "unknown"@)
    } else if i == 11 {
        (18012u16, "unknown"@)
    } else if i == 12 {
        (17997u16, "unknown"@)
    } else if i == 13 {
        (17985u16, "unknown"@)
    } else if i == 14 {
        (17969u16, "unknown"@)
    } else if i == 15 {
        (17867u16, "unknown"@)
    } else if i == 16 {
        (17860u16, "unknown"@)
    } else if i == 17 {
        (17802u16, "unknown"@)
    } else if i == 18 {
        (17801u16, "unknown"@)
    } else if i == 19 {
        (17715u16, "unknown"@)
    } else if i == 20 {
        (17702u16, "unknown"@)
    } else if i == 21 {
        (17701u16, "unknown"@)
    } else if i == 22 {
        (17700u16, "unknown"@)
    } else if i == 23 {
        (17413u16, "unknown"@)
    } else if i == 24 {
        (17409u16, "unknown"@)
    } else if i == 25 {
        (17255u16, "unknown"@)
    } else if i == 26 {
        (17251u16, "unknown"@)
    } else if i == 27 {
        (17129u16, "unknown"@)
    } else if i == 28 {
        (17089u16, "unknown"@)
    } else if i == 29 {
        (17070u16, "unknown"@)
    } else if i == 30 {
        (17017u16, "unknown"@)
    } else if i == 31 {
        (17016u16, "unknown"@)
    } else if i == 32 {
        (16901u16, "unknown"@)
    } else if i == 33 {
        (16845u16, "unknown"@)
    } else if i == 34 {
        (16797u16, "unknown"@)
    } else if i == 35 {
        (16725u16, "unknown"@)
    } else if i == 36 {
        (16724u16, "unknown"@)
    } else if i == 37 {
        (16723u16, "unknown"@)
    } else if i == 38 {
        (16464u16, "unknown"@)
    } else if i == 39 {
        (16372u16, "unknown"@)
    } else if i == 40 {
        (16349u16, "unknown"@)
    } else if i == 41 {
        (16297u16, "unknown"@)
    } else if i == 42 {
        (16286u16, "unknown"@)
    } else if i == 43 {
        (16283u16, "unknown"@)
    } else if i == 44 {
        (16273u16, "unknown"@)
    } else if i == 45 {
        (16270u16, "unknown"@)
    } else if i == 46 {
        (16048u16, "unknown"@)
    } else if i == 47 {
        (15915u16, "unknown"@)
    } else if i == 48 {
        (15758u16, "unknown"@)
    } else {
        (15730u16, "unknown"@)
    }
}

closed spec fn chunk_entry_62(i: int) -> (u16, Seq<char>) {
    if i == 0 {
        (15722u16, "unknown"@)
    } else if i == 1 {
        (15677u16, "unknown"@)
    } else if i == 2 {
        (15670u16, "unknown"@)
    } else if i == 3 {
        (15646u16, "unknown"@)
    } else if i == 4 {
        (15645u16, "unknown"@)
    } else if i == 5 {
        (15631u16, "unknown"@)
    } else if i == 6 {
        (15550u16, "unknown"@)
    } else if i == 7 {
        (15448u16, "unknown"@)
    } else if i == 8 {
        (15344u16, "unknown"@)
    } else if i == 9 {
        (15317u16, "unknown"@)
    } else if i == 10 {
        (15275u16, "unknown"@)
    } else if i == 11 {
        (15191u16, "unknown"@)
    } else if i == 12 {
        (15190u16, "unknown"@)
    } else if i == 13 {
        (15145u16, "unknown"@)
    } else if i == 14 {
        (15050u16, "unknown"@)
    } else if i == 15 {
        (15005u16, "unknown"@)
    } else if i == 16 {
        (14916u16, "unknown"@)
    } else if i == 17 {
        (14891u16, "unknown"@)
    } else if i == 18 {
        (14827u16, "unknown"@)
    } else if i == 19 {
        (14733u16, "unknown"@)
    } else if i == 20 {
        (14693u16, "unknown"@)
    } else if i == 21 {
        (14545u16, "unknown"@)
    } else if i == 22 {
        (14534u16, "unknown"@)
    } else if i == 23 {
        (14444u16, "unknown"@)
    } else if i == 24 {
        (14443u16, "unknown"@)
    } else if i == 25 {
        (14418u16, "unknown"@)
    } else if i == 26 {
        (14254u16, "unknown"@)
    } else if i == 27 {
        (14237u16, "unknown"@)
    } else if i == 28 {
        (14218u16, "unknown"@)
    } else if i == 29 {
        (14147u16, "unknown"@)
    } else if i == 30 {
        (13899u16, "unknown"@)
    } else if i == 31 {
        (13846u16, "unknown"@)
    } else if i == 32 {
        (13784u16, "unknown"@)
    } else if i == 33 {
        (13766u16, "unknown"@)
    } else if i == 34 {
        (13730u16, "unknown"@)
    } else if i == 35 {
        (13723u16, "unknown"@)
    } else if i == 36 {
        (13695u16, "unknown"@)
    } else if i == 37 {
        (13580u16, "unknown"@)
    } else if i == 38 {
        (13502u16, "unknown"@)
    } else if i == 39 {
        (13359u16, "unknown"@)
    } else if i == 40 {
        (13340u16, "unknown"@)
    } else if i == 41 {
        (13318u16, "unknown"@)
    } else if i == 42 {
        (13306u16, "unknown"@)
    } else if i == 43 {
        (13265u16, "unknown"@)
    } else if i == 44 {
        (13264u16, "unknown"@)
    } else if i == 45 {
        (13261u16, "unknown"@)
    } else if i == 46 {
        (13250u16, "unknown"@)
    } else if i == 47 {
        (13229u16, "unknown"@)
    } else if i == 48 {
        (13194u16, "unknown"@)
    } else {
        (13193u16, "unknown"@)
    }
}

closed spec fn chunk_entry_63(i: int) -> (u16, Seq<char>) {
    if i == 0 {
        (13192u16, "unknown"@)
    } else if i == 1 {
        (13188u16, "unknown"@)
    } else if i == 2 {
        (13167u16, "unknown"@)
    } else if i == 3 {
        (13149u16, "unknown"@)
    } else if i == 4 {
        (13142u16, "unknown"@)
    } else if i == 5 {
        (13140u16, "unknown"@)
    } else if i == 6 {
        (13132u16, "unknown"@)
    } else if i == 7 {
        (13130u16, "unknown"@)
    } else if i == 8 {
        (13093u16, "unknown"@)
    } else if i == 9 {
        (13017u16, "unknown"@)
    } else if i == 10 {
        (12962u16, "unknown"@)
    } else if i == 11 {
        (12955u16, "unknown"@)
    } else if i == 12 {
        (12892u16, "unknown"@)
    } else if i == 13 {
        (12891u16, "unknown"@)
    } else if i == 14 {
        (12766u16, "unknown"@)
    } else if i == 15 {
        (12702u16, "unknown"@)
    } else if i == 16 {
        (12699u16, "unknown"@)
    } else if i == 17 {
        (12414u16, "unknown"@)
    } else if i == 18 {
        (12340u16, "unknown"@)
    } else if i == 19 {
        (12296u16, "unknown"@)
    } else if i == 20 {
        (12275u16, "unknown"@)
    } else if i == 21 {
        (12271u16, "unknown"@)
    } else if i == 22 {
        (12251u16, "unknown"@)
    } else if i == 23 {
        (12243u16, "unknown"@)
    } else if i == 24 {
        (12240u16, "unknown"@)
    } else if i == 25 {
        (12225u16, "unknown"@)
    } else if i == 26 {
        (12192u16, "unknown"@)
    } else if i == 27 {
        (12171u16, "unknown"@)
    } else if i == 28 {
        (12156u16, "unknown"@)
    } else if i == 29 {
        (12146u16, "unknown"@)
    } else if i == 30 {
        (12137u16, "unknown"@)
    } else if i == 31 {
        (12132u16, "unknown"@)
    } else if i == 32 {
        (12097u16, "unknown"@)
    } else if i == 33 {
        (12096u16, "unknown"@)
    } else if i == 34 {
        (12090u16, "unknown"@)
    } else if i == 35 {
        (12080u16, "unknown"@)
    } else if i == 36 {
        (12077u16, "unknown"@)
    } else if i == 37 {
        (12034u16, "unknown"@)
    } else if i == 38 {
        (12031u16, "unknown"@)
    } else if i == 39 {
        (12019u16, "unknown"@)
    } else if i == 40 {
        (11940u16, "unknown"@)
    } else if i == 41 {
        (11863u16, "unknown"@)
    } else if i == 42 {
        (11862u16, "unknown"@)
    } else if i == 43 {
        (11813u16, "unknown"@)
    } else if i == 44 {
        (11735u16, "unknown"@)
    } else if i == 45 {
        (11697u16, "unknown"@)
    } else if i == 46 {
        (11552u16, "unknown"@)
    } else if i == 47 {
        (11401u16, "unknown"@)
    } else if i == 48 {
        (11296u16, "unknown"@)
    } else {
        (11288u16, "unknown"@)
    }
}

closed spec fn chunk_entry_64(i: int) -> (u16, Seq<char>) {
    if i == 0 {
        (11250u16, "unknown"@)
    } else if i == 1 {
        (11224u16, "unknown"@)
    } else if i == 2 {
        (11200u16, "unknown"@)
    } else if i == 3 {
        (11180u16, "unknown"@)
    } else if i == 4 {
        (11100u16, "unknown"@)
    } else if i == 5 {
        (11089u16, "unknown"@)
    } else if i == 6 {
        (11033u16, "unknown"@)
    } else if i == 7 {
        (11032u16, "unknown"@)
    } else if i == 8 {
        (11031u16, "unknown"@)
    } else if i == 9 {
        (11026u16, "unknown"@)
    } else if i == 10 {
        (11019u16, "unknown"@)
    } else if i == 11 {
        (11007u16, "unknown"@)
    } else if i == 12 {
        (11003u16, "unknown"@)
    } else if i == 13 {
        (10900u16, "unknown"@)
    } else if i == 14 {
        (10878u16, "unknown"@)
    } else if i == 15 {
        (10852u16, "unknown"@)
    } else if i == 16 {
        (10842u16, "unknown"@)
    } else if i == 17 {
        (10754u16, "unknown"@)
    } else if i == 18 {
        (10699u16, "unknown"@)
    } else if i == 19 {
        (10602u16, "unknown"@)
    } else if i == 20 {
        (10601u16, "unknown"@)
    } else if i == 21 {
        (10567u16, "unknown"@)
    } else if i == 22 {
        (10565u16, "unknown"@)
    } else if i == 23 {
        (10556u16, "unknown"@)
    } else if i == 24 {
        (10555u16, "unknown"@)
    } else if i == 25 {
        (10554u16, "unknown"@)
    } else if i == 26 {
        (10553u16, "unknown"@)
    } else if i == 27 {
        (10552u16, "unknown"@)
    } else if i == 28 {
        (10551u16, "unknown"@)
    } else if i == 29 {
        (10550u16, "unknown"@)
    } else if i == 30 {
        (10535u16, "unknown"@)
    } else if i == 31 {
        (10529u16, "unknown"@)
    } else if i == 32 {
        (10509u16, "unknown"@)
    } else if i == 33 {
        (10494u16, "unknown"@)
    } else if i == 34 {
        (10414u16, "unknown"@)
    } else if i == 35 {
        (10387u16, "unknown"@)
    } else if i == 36 {
        (10357u16, "unknown"@)
    } else if i == 37 {
        (10347u16, "unknown"@)
    } else if i == 38 {
        (10338u16, "unknown"@)
    } else if i == 39 {
        (10280u16, "unknown"@)
    } else if i == 40 {
        (10255u16, "unknown"@)
    } else if i == 41 {
        (10246u16, "unknown"@)
    } else if i == 42 {
        (10245u16, "unknown"@)
    } else if i == 43 {
        (10238u16, "unknown"@)
    } else if i == 44 {
        (10093u16, "unknown"@)
    } else if i == 45 {
        (10064u16, "unknown"@)
    } else if i == 46 {
        (10045u16, "unknown"@)
    } else if i == 47 {
        (10042u16, "unknown"@)
    } else if i == 48 {
        (10035u16, "unknown"@)
    } else {
        (10019u16, "unknown"@)
    }
}

closed spec fn chunk_entry_65(i: int) -> (u16, Seq<char>) {
    if i == 0 {
        (10018u16, "unknown"@)
    } else if i == 1 {
        (1327u16, "ultrex"@)
    } else if i == 2 {
        (2330u16, "tscchat"@)
    } else if i == 3 {
        (2580u16, "tributary"@)
    } else if i == 4 {
        (2700u16, "tqdata"@)
    } else if i == 5 {
        (1584u16, "tn-tl-fd2"@)
    } else if i == 6 {
        (9020u16, "tambora"@)
    } else if i == 7 {
        (3281u16, "sysopt"@)
    } else if i == 8 {
        (2439u16, "sybasedbsynch"@)
    } else if i == 9 {
        (1250u16, "swldy-sias"@)
    } else if i == 10 {
        (1607u16, "stt"@)
    } else if i == 11 {
        (1736u16, "street-stream"@)
    } else if i == 12 {
        (1330u16, "streetperfect"@)
    } else if i == 13 {
        (2270u16, "starschool"@)
    } else if i == 14 {
        (2728u16, "sqdr"@)
    } else if i == 15 {
        (2888u16, "spcsdlobby"@)
    } else if i == 16 {
        (3803u16, "soniqsync"@)
    } else if i == 17 {
        (5250u16, "soagateway"@)
    } else if i == 18 {
        (1645u16, "sightline"@)
    } else if i == 19 {
        (1303u16, "sftsrv"@)
    } else if i == 20 {
        (3636u16, "servistaitsm"@)
    } else if i == 21 {
        (1251u16, "servergraph"@)
    } else if i == 22 {
        (1243u16, "serialgateway"@)
    } else if i == 23 {
        (1291u16, "seagulllms"@)
    } else if i == 24 {
        (1297u16, "sdproxy"@)
    } else if i == 25 {
        (1200u16, "scol"@)
    } else if i == 26 {
        (1811u16, "scientia-sdb"@)
    } else if i == 27 {
        (4442u16, "saris"@)
    } else if i == 28 {
        (1118u16, "sacred"@)
    } else if i == 29 {
        (8401u16, "sabarsd"@)
    } else if i == 30 {
        (2101u16, "rtcm-sc104"@)
    } else if i == 31 {
        (2889u16, "rsom"@)
    } else if i == 32 {
        (1694u16, "rrimwm"@)
    } else if i == 33 {
        (1730u16, "roketz"@)
    } else if i == 34 {
        (1912u16, "rhp-iibp"@)
    } else if i == 35 {
        (1745u16, "remote-winsock"@)
    } else if i == 36 {
        (2250u16, "remote-collab"@)
    } else if i == 37 {
        (1306u16, "re-conn-proto"@)
    } else if i == 38 {
        (2997u16, "rebol"@)
    } else if i == 39 {
        (2449u16, "ratl"@)
    } else if i == 40 {
        (1262u16, "qnts-orb"@)
    } else if i == 41 {
        (4007u16, "pxc-splr"@)
    } else if i == 42 {
        (1101u16, "pt2-discover"@)
    } else if i == 43 {
        (1268u16, "propel-msgsys"@)
    } else if i == 44 {
        (1735u16, "privatechat"@)
    } else if i == 45 {
        (1858u16, "privateark"@)
    } else if i == 46 {
        (1264u16, "prat"@)
    } else if i == 47 {
        (1711u16, "pptconference"@)
    } else if i == 48 {
        (3118u16, "pkagent"@)
    } else {
        (4601u16, "piranha2"@)
    }
}

closed spec fn chunk_entry_66(i: int) -> (u16, Seq<char>) {
    if i == 0 {
        (1321u16, "pip"@)
    } else if i == 1 {
        (1598u16, "picknfs"@)
    } else if i == 2 {
        (1305u16, "pe-mike"@)
    } else if i == 3 {
        (1632u16, "pammratc"@)
    } else if i == 4 {
        (9995u16, "palace-4"@)
    } else if i == 5 {
        (1307u16, "pacmand"@)
    } else if i == 6 {
        (1981u16, "p2pq"@)
    } else if i == 7 {
        (2532u16, "ovtopmd"@)
    } else if i == 8 {
        (1808u16, "oracle-vp2"@)
    } else if i == 9 {
        (2435u16, "optilogic"@)
    } else if i == 10 {
        (1194u16, "openvpn"@)
    } else if i == 11 {
        (1622u16, "ontime"@)
    } else if i == 12 {
        (1239u16, "nmsd"@)
    } else if i == 13 {
        (1799u16, "netrisk"@)
    } else if i == 14 {
        (2882u16, "ndtp"@)
    } else if i == 15 {
        (1683u16, "ncpm-hip"@)
    } else if i == 16 {
        (3063u16, "ncadg-ip-udp"@)
    } else if i == 17 {
        (3062u16, "ncacn-ip-tcp"@)
    } else if i == 18 {
        (1340u16, "naap"@)
    } else if i == 19 {
        (4447u16, "n1-rmgmt"@)
    } else if i == 20 {
        (1806u16, "musiconline"@)
    } else if i == 21 {
        (6888u16, "muse"@)
    } else if i == 22 {
        (2438u16, "msp"@)
    } else if i == 23 {
        (1261u16, "mpshrsv"@)
    } else if i == 24 {
        (5969u16, "mppolicy-mgr"@)
    } else if i == 25 {
        (9343u16, "mpidcmgr"@)
    } else if i == 26 {
        (2583u16, "mon"@)
    } else if i == 27 {
        (2031u16, "mobrien-chat"@)
    } else if i == 28 {
        (3798u16, "minilock"@)
    } else if i == 29 {
        (2269u16, "mikey"@)
    } else if i == 30 {
        (20001u16, "microsan"@)
    } else if i == 31 {
        (2622u16, "metricadbc"@)
    } else if i == 32 {
        (11001u16, "metasys"@)
    } else if i == 33 {
        (1207u16, "metasage"@)
    } else if i == 34 {
        (2850u16, "metaconsole"@)
    } else if i == 35 {
        (21201u16, "memcachedb"@)
    } else if i == 36 {
        (2908u16, "mao"@)
    } else if i == 37 {
        (3936u16, "mailprox"@)
    } else if i == 38 {
        (3023u16, "magicnotes"@)
    } else if i == 39 {
        (2280u16, "lnvpoller"@)
    } else if i == 40 {
        (2623u16, "lmdp"@)
    } else if i == 41 {
        (7099u16, "lazy-ptop"@)
    } else if i == 42 {
        (2372u16, "lanmessenger"@)
    } else if i == 43 {
        (1318u16, "krb5gatekeeper"@)
    } else if i == 44 {
        (1339u16, "kjtsiteserver"@)
    } else if i == 45 {
        (1276u16, "ivmanager"@)
    } else if i == 46 {
        (11000u16, "irisa"@)
    } else if i == 47 {
        (48619u16, "iqobject"@)
    } else if i == 48 {
        (3497u16, "ipether232port"@)
    } else {
        (1209u16, "ipcd3"@)
    }
}

closed spec fn chunk_entry_67(i: int) -> (u16, Seq<char>) {
    if i == 0 {
        (1331u16, "intersan"@)
    } else if i == 1 {
        (1240u16, "instantia"@)
    } else if i == 2 {
        (3856u16, "informer"@)
    } else if i == 3 {
        (2987u16, "identify"@)
    } else if i == 4 {
        (2326u16, "idcp"@)
    } else if i == 5 {
        (25001u16, "icl-twobase2"@)
    } else if i == 6 {
        (25000u16, "icl-twobase1"@)
    } else if i == 7 {
        (1792u16, "ibm-dt-2"@)
    } else if i == 8 {
        (3919u16, "hyperip"@)
    } else if i == 9 {
        (1299u16, "hp-sci"@)
    } else if i == 10 {
        (2984u16, "hpidsadmin"@)
    } else if i == 11 {
        (1715u16, "houdini-lm"@)
    } else if i == 12 {
        (1703u16, "hb-engine"@)
    } else if i == 13 {
        (1677u16, "groupwise"@)
    } else if i == 14 {
        (2086u16, "gnunet"@)
    } else if i == 15 {
        (1708u16, "gat-lmd"@)
    } else if i == 16 {
        (1228u16, "florence"@)
    } else if i == 17 {
        (3787u16, "fintrx"@)
    } else if i == 18 {
        (5502u16, "fcp-srvr-inst1"@)
    } else if i == 19 {
        (1620u16, "faxportwinport"@)
    } else if i == 20 {
        (1316u16, "exbit-escp"@)
    } else if i == 21 {
        (1569u16, "ets"@)
    } else if i == 22 {
        (1210u16, "eoss"@)
    } else if i == 23 {
        (1691u16, "empire-empuma"@)
    } else if i == 24 {
        (1282u16, "emperion"@)
    } else if i == 25 {
        (2124u16, "elatelink"@)
    } else if i == 26 {
        (1791u16, "ea1"@)
    } else if i == 27 {
        (2150u16, "dynamic3d"@)
    } else if i == 28 {
        (9909u16, "domaintime"@)
    } else if i == 29 {
        (4022u16, "dnox"@)
    } else if i == 30 {
        (1324u16, "delta-mcp"@)
    } else if i == 31 {
        (2584u16, "cyaserv"@)
    } else if i == 32 {
        (2300u16, "cvmmon"@)
    } else if i == 33 {
        (9287u16, "cumulus"@)
    } else if i == 34 {
        (2806u16, "cspuni"@)
    } else if i == 35 {
        (1566u16, "corelvideo"@)
    } else if i == 36 {
        (1713u16, "conferencetalk"@)
    } else if i == 37 {
        (1592u16, "commonspace"@)
    } else if i == 38 {
        (3749u16, "cimtrak"@)
    } else if i == 39 {
        (1302u16, "ci3-software-2"@)
    } else if i == 40 {
        (1709u16, "centra"@)
    } else if i == 41 {
        (3485u16, "celatalk"@)
    } else if i == 42 {
        (2418u16, "cas"@)
    } else if i == 43 {
        (2472u16, "c3"@)
    } else if i == 44 {
        (24554u16, "binkp"@)
    } else if i == 45 {
        (3146u16, "bears-02"@)
    } else if i == 46 {
        (2134u16, "avenue"@)
    } else if i == 47 {
        (2898u16, "appliance-cfg"@)
    } else if i == 48 {
        (9161u16, "apani2"@)
    } else {
        (9160u16, "apani1"@)
    }
}

closed spec fn chunk_entry_68(i: int) -> (u16, Seq<char>) {
    if i == 0 {
        (2930u16, "amx-weblinx"@)
    } else if i == 1 {
        (1319u16, "amx-icsp"@)
    } else if i == 2 {
        (3811u16, "amp"@)
    } else if i == 3 {
        (2456u16, "altav-remmgt"@)
    } else if i == 4 {
        (2901u16, "allstorcns"@)
    } else if i == 5 {
        (6579u16, "affiliate"@)
    } else if i == 6 {
        (2550u16, "ads"@)
    } else if i == 7 {
        (8403u16, "admind"@)
    } else if i == 8 {
        (31416u16, "boinc"@)
    } else if i == 9 {
        (22273u16, "wnn6"@)
    } else if i == 10 {
        (7005u16, "afs3-volser"@)
    } else if i == 11 {
        (66u16, "sqlnet"@)
    } else if i == 12 {
        (32787u16, "sometimes-rpc27"@)
    } else if i == 13 {
        (32786u16, "sometimes-rpc25"@)
    } else if i == 14 {
        (706u16, "silc"@)
    } else if i == 15 {
        (635u16, "rlzdbase"@)
    } else if i == 16 {
        (6105u16, "isdninfo"@)
    } else if i == 17 {
        (400u16, "work-sol"@)
    } else if i == 18 {
        (47u16, "ni-ftp"@)
    } else if i == 19 {
        (830u16, "netconf-ssh"@)
    } else if i == 20 {
        (4008u16, "netcheque"@)
    } else if i == 21 {
        (5977u16, "ncd-pref-tcp"@)
    } else if i == 22 {
        (1989u16, "tr-rsrb-p3"@)
    } else if i == 23 {
        (1444u16, "marcam-lm"@)
    } else if i == 24 {
        (3985u16, "mapper-mapethd"@)
    } else if i == 25 {
        (678u16, "ggf-ncp"@)
    } else if i == 26 {
        (27001u16, "flexlm1"@)
    } else if i == 27 {
        (591u16, "http-alt"@)
    } else if i == 28 {
        (642u16, "esro-emsdp"@)
    } else if i == 29 {
        (446u16, "ddm-rdb"@)
    } else if i == 30 {
        (1441u16, "cadis-1"@)
    } else if i == 31 {
        (54320u16, "bo2k"@)
    } else if i == 32 {
        (11u16, "systat"@)
    } else if i == 33 {
        (769u16, "vid"@)
    } else if i == 34 {
        (983u16, "unknown"@)
    } else if i == 35 {
        (979u16, "unknown"@)
    } else if i == 36 {
        (973u16, "unknown"@)
    } else if i == 37 {
        (967u16, "unknown"@)
    } else if i == 38 {
        (965u16, "unknown"@)
    } else if i == 39 {
        (961u16, "unknown"@)
    } else if i == 40 {
        (942u16, "unknown"@)
    } else if i == 41 {
        (935u16, "unknown"@)
    } else if i == 42 {
        (926u16, "unknown"@)
    } else if i == 43 {
        (925u16, "unknown"@)
    } else if i == 44 {
        (914u16, "unknown"@)
    } else if i == 45 {
        (863u16, "unknown"@)
    } else if i == 46 {
        (858u16, "unknown"@)
    } else if i == 47 {
        (844u16, "unknown"@)
    } else if i == 48 {
        (834u16, "unknown"@)
    } else {
        (817u16, "unknown"@)
    }
}

closed spec fn chunk_entry_69(i: int) -> (u16, Seq<char>) {
    if i == 0 {
        (815u16, "unknown"@)
    } else if i == 1 {
        (811u16, "unknown"@)
    } else if i == 2 {
        (809u16, "unknown"@)
    } else if i == 3 {
        (789u16, "unknown"@)
    } else if i == 4 {
        (779u16, "unknown"@)
    } else if i == 5 {
        (743u16, "unknown"@)
    } else if i == 6 {
        (1019u16, "unknown"@)
    } else if i == 7 {
        (1507u16, "symplex"@)
    } else if i == 8 {
        (1492u16, "stone-design-1"@)
    } else if i == 9 {
        (509u16, "snare"@)
    } else if i == 10 {
        (762u16, "quotad"@)
    } else if i == 11 {
        (5632u16, "pcanywherestat"@)
    } else if i == 12 {
        (578u16, "ipdd"@)
    } else if i == 13 {
        (1495u16, "cvc"@)
    } else if i == 14 {
        (5308u16, "cfengine"@)
    } else if i == 15 {
        (52u16, "xns-time"@)
    } else if i == 16 {
        (219u16, "uarps"@)
    } else if i == 17 {
        (525u16, "timed"@)
    } else if i == 18 {
        (1420u16, "timbuktu-srv4"@)
    } else if i == 19 {
        (665u16, "sun-dr"@)
    } else if i == 20 {
        (620u16, "sco-websrvrmgr"@)
    } else if i == 21 {
        (3064u16, "dnet-tstproxy"@)
    } else if i == 22 {
        (3045u16, "slnp"@)
    } else if i == 23 {
        (653u16, "repscmd"@)
    } else if i == 24 {
        (158u16, "pcmail-srv"@)
    } else if i == 25 {
        (716u16, "pana"@)
    } else if i == 26 {
        (861u16, "owamp-control"@)
    } else if i == 27 {
        (9991u16, "issa"@)
    } else if i == 28 {
        (3049u16, "cfs"@)
    } else if i == 29 {
        (1366u16, "netware-csp"@)
    } else if i == 30 {
        (1364u16, "ndm-server"@)
    } else if i == 31 {
        (833u16, "netconfsoapbeep"@)
    } else if i == 32 {
        (91u16, "mit-dov"@)
    } else if i == 33 {
        (1680u16, "CarbonCopy"@)
    } else if i == 34 {
        (3398u16, "sapcomm"@)
    } else if i == 35 {
        (750u16, "kerberos"@)
    } else if i == 36 {
        (615u16, "sco-inetmgr"@)
    } else if i == 37 {
        (603u16, "mnotes"@)
    } else if i == 38 {
        (6110u16, "softcm"@)
    } else if i == 39 {
        (101u16, "hostname"@)
    } else if i == 40 {
        (989u16, "ftps-data"@)
    } else if i == 41 {
        (27010u16, "flexlm10"@)
    } else if i == 42 {
        (510u16, "fcp"@)
    } else if i == 43 {
        (810u16, "fcp-udp"@)
    } else if i == 44 {
        (1139u16, "cce3x"@)
    } else if i == 45 {
        (4199u16, "eims-admin"@)
    } else if i == 46 {
        (76u16, "deos"@)
    } else if i == 47 {
        (847u16, "dhcp-failover2"@)
    } else if i == 48 {
        (649u16, "cadview-3d"@)
    } else {
        (707u16, "borland-dsj"@)
    }
}

closed spec fn chunk_entry_70(i: int) -> (u16, Seq<char>) {
    if i == 0 {
        (68u16, "dhcpc"@)
    } else if i == 1 {
        (664u16, "secure-aux-bus"@)
    } else if i == 2 {
        (449u16, "as-servermap"@)
    } else if i == 3 {
        (75u16, "priv-dial"@)
    } else if i == 4 {
        (104u16, "acr-nema"@)
    } else if i == 5 {
        (629u16, "3com-amp3"@)
    } else if i == 6 {
        (1652u16, "xnmp"@)
    } else if i == 7 {
        (682u16, "xfr"@)
    } else if i == 8 {
        (577u16, "vnas"@)
    } else if i == 9 {
        (985u16, "unknown"@)
    } else if i == 10 {
        (984u16, "unknown"@)
    } else if i == 11 {
        (974u16, "unknown"@)
    } else if i == 12 {
        (958u16, "unknown"@)
    } else if i == 13 {
        (952u16, "unknown"@)
    } else if i == 14 {
        (949u16, "unknown"@)
    } else if i == 15 {
        (946u16, "unknown"@)
    } else if i == 16 {
        (923u16, "unknown"@)
    } else if i == 17 {
        (916u16, "unknown"@)
    } else if i == 18 {
        (899u16, "unknown"@)
    } else if i == 19 {
        (897u16, "unknown"@)
    } else if i == 20 {
        (894u16, "unknown"@)
    } else if i == 21 {
        (889u16, "unknown"@)
    } else if i == 22 {
        (835u16, "unknown"@)
    } else if i == 23 {
        (824u16, "unknown"@)
    } else if i == 24 {
        (814u16, "unknown"@)
    } else if i == 25 {
        (807u16, "unknown"@)
    } else if i == 26 {
        (804u16, "unknown"@)
    } else if i == 27 {
        (798u16, "unknown"@)
    } else if i == 28 {
        (733u16, "unknown"@)
    } else if i == 29 {
        (727u16, "unknown"@)
    } else if i == 30 {
        (237u16, "unknown"@)
    } else if i == 31 {
        (12u16, "unknown"@)
    } else if i == 32 {
        (10u16, "unknown"@)
    } else if i == 33 {
        (501u16, "stmf"@)
    } else if i == 34 {
        (122u16, "smakynet"@)
    } else if i == 35 {
        (440u16, "sgcp"@)
    } else if i == 36 {
        (771u16, "rtip"@)
    } else if i == 37 {
        (1663u16, "netview-aix-3"@)
    } else if i == 38 {
        (828u16, "itm-mcell-s"@)
    } else if i == 39 {
        (860u16, "iscsi"@)
    } else if i == 40 {
        (695u16, "ieee-mms-ssl"@)
    } else if i == 41 {
        (634u16, "ginad"@)
    } else if i == 42 {
        (538u16, "gdomap"@)
    } else if i == 43 {
        (1359u16, "ftsrv"@)
    } else if i == 44 {
        (1358u16, "connlcli"@)
    } else if i == 45 {
        (1517u16, "vpac"@)
    } else if i == 46 {
        (1370u16, "us-gv"@)
    } else if i == 47 {
        (3900u16, "udt_os"@)
    } else if i == 48 {
        (492u16, "ticf-1"@)
    } else {
        (268u16, "td-replica"@)
    }
}

closed spec fn chunk_entry_71(i: int) -> (u16, Seq<char>) {
    if i == 0 {
        (27374u16, "subseven"@)
    } else if i == 1 {
        (605u16, "soap-beep"@)
    } else if i == 2 {
        (8076u16, "slnp"@)
    } else if i == 3 {
        (1651u16, "shiva_confsrvr"@)
    } else if i == 4 {
        (1178u16, "skkserv"@)
    } else if i == 5 {
        (6401u16, "crystalenterprise"@)
    } else if i == 6 {
        (761u16, "kpasswd"@)
    } else if i == 7 {
        (5145u16, "rmonitor_secure"@)
    } else if i == 8 {
        (50u16, "re-mail-ck"@)
    } else if i == 9 {
        (2018u16, "terminaldb"@)
    } else if i == 10 {
        (1349u16, "sbook"@)
    } else if i == 11 {
        (2014u16, "troff"@)
    } else if i == 12 {
        (7597u16, "qaz"@)
    } else if i == 13 {
        (2120u16, "kauth"@)
    } else if i == 14 {
        (1445u16, "proxima-lm"@)
    } else if i == 15 {
        (1402u16, "prm-sm-np"@)
    } else if i == 16 {
        (1465u16, "pipes"@)
    } else if i == 17 {
        (9104u16, "jetdirect"@)
    } else if i == 18 {
        (627u16, "passgo-tivoli"@)
    } else if i == 19 {
        (4660u16, "mosmig"@)
    } else if i == 20 {
        (7273u16, "openmanage"@)
    } else if i == 21 {
        (950u16, "oftep-rpc"@)
    } else if i == 22 {
        (1384u16, "os-licman"@)
    } else if i == 23 {
        (1388u16, "objective-dbc"@)
    } else if i == 24 {
        (760u16, "krbupdate"@)
    } else if i == 25 {
        (92u16, "npp"@)
    } else if i == 26 {
        (831u16, "netconf-beep"@)
    } else if i == 27 {
        (5978u16, "ncd-diag-tcp"@)
    } else if i == 28 {
        (4557u16, "fax"@)
    } else if i == 29 {
        (45u16, "mpm"@)
    } else if i == 30 {
        (112u16, "mcidas"@)
    } else if i == 31 {
        (456u16, "macon"@)
    } else if i == 32 {
        (1214u16, "fasttrack"@)
    } else if i == 33 {
        (3086u16, "sj3"@)
    } else if i == 34 {
        (702u16, "iris-beep"@)
    } else if i == 35 {
        (6665u16, "irc"@)
    } else if i == 36 {
        (1404u16, "igi-lm"@)
    } else if i == 37 {
        (651u16, "ieee-mms"@)
    } else if i == 38 {
        (5300u16, "hacl-hb"@)
    } else if i == 39 {
        (6347u16, "gnutella2"@)
    } else if i == 40 {
        (5400u16, "pcduo-old"@)
    } else if i == 41 {
        (1389u16, "iclpv-dm"@)
    } else if i == 42 {
        (647u16, "dhcp-failover"@)
    } else if i == 43 {
        (448u16, "ddm-ssl"@)
    } else if i == 44 {
        (1356u16, "cuillamartin"@)
    } else if i == 45 {
        (5232u16, "sgi-dgl"@)
    } else if i == 46 {
        (1484u16, "confluent"@)
    } else if i == 47 {
        (450u16, "tserver"@)
    } else if i == 48 {
        (1991u16, "stun-p2"@)
    } else {
        (1988u16, "tr-rsrb-p2"@)
    }
}

closed spec fn chunk_entry_72(i: int) -> (u16, Seq<char>) {
    if i == 0 {
        (1523u16, "cichild-lm"@)
    } else if i == 1 {
        (1400u16, "cadkey-tablet"@)
    } else if i == 2 {
        (1399u16, "cadkey-licman"@)
    } else if i == 3 {
        (221u16, "fln-spx"@)
    } else if i == 4 {
        (1385u16, "atex_elmd"@)
    } else if i == 5 {
        (5191u16, "aol-1"@)
    } else if i == 6 {
        (1346u16, "alta-ana-lm"@)
    } else if i == 7 {
        (2024u16, "xinuexpansion4"@)
    } else if i == 8 {
        (2430u16, "venus"@)
    } else if i == 9 {
        (988u16, "unknown"@)
    } else if i == 10 {
        (962u16, "unknown"@)
    } else if i == 11 {
        (948u16, "unknown"@)
    } else if i == 12 {
        (945u16, "unknown"@)
    } else if i == 13 {
        (941u16, "unknown"@)
    } else if i == 14 {
        (938u16, "unknown"@)
    } else if i == 15 {
        (936u16, "unknown"@)
    } else if i == 16 {
        (929u16, "unknown"@)
    } else if i == 17 {
        (927u16, "unknown"@)
    } else if i == 18 {
        (919u16, "unknown"@)
    } else if i == 19 {
        (906u16, "unknown"@)
    } else if i == 20 {
        (883u16, "unknown"@)
    } else if i == 21 {
        (881u16, "unknown"@)
    } else if i == 22 {
        (875u16, "unknown"@)
    } else if i == 23 {
        (872u16, "unknown"@)
    } else if i == 24 {
        (870u16, "unknown"@)
    } else if i == 25 {
        (866u16, "unknown"@)
    } else if i == 26 {
        (855u16, "unknown"@)
    } else if i == 27 {
        (851u16, "unknown"@)
    } else if i == 28 {
        (850u16, "unknown"@)
    } else if i == 29 {
        (841u16, "unknown"@)
    } else if i == 30 {
        (836u16, "unknown"@)
    } else if i == 31 {
        (826u16, "unknown"@)
    } else if i == 32 {
        (820u16, "unknown"@)
    } else if i == 33 {
        (819u16, "unknown"@)
    } else if i == 34 {
        (816u16, "unknown"@)
    } else if i == 35 {
        (813u16, "unknown"@)
    } else if i == 36 {
        (791u16, "unknown"@)
    } else if i == 37 {
        (745u16, "unknown"@)
    } else if i == 38 {
        (736u16, "unknown"@)
    } else if i == 39 {
        (735u16, "unknown"@)
    } else if i == 40 {
        (724u16, "unknown"@)
    } else if i == 41 {
        (719u16, "unknown"@)
    } else if i == 42 {
        (343u16, "unknown"@)
    } else if i == 43 {
        (334u16, "unknown"@)
    } else if i == 44 {
        (300u16, "unknown"@)
    } else if i == 45 {
        (28u16, "unknown"@)
    } else if i == 46 {
        (249u16, "unknown"@)
    } else if i == 47 {
        (230u16, "unknown"@)
    } else if i == 48 {
        (16u16, "unknown"@)
    } else {
        (1018u16, "unknown"@)
    }
}

closed spec fn chunk_entry_73(i: int) -> (u16, Seq<char>) {
    if i == 0 {
        (1016u16, "unknown"@)
    } else if i == 1 {
        (658u16, "tenfold"@)
    } else if i == 2 {
        (1474u16, "telefinder"@)
    } else if i == 3 {
        (696u16, "rushd"@)
    } else if i == 4 {
        (630u16, "rda"@)
    } else if i == 5 {
        (663u16, "purenoise"@)
    } else if i == 6 {
        (2307u16, "pehelp"@)
    } else if i == 7 {
        (1552u16, "pciarray"@)
    } else if i == 8 {
        (609u16, "npmp-trap"@)
    } else if i == 9 {
        (741u16, "netgw"@)
    } else if i == 10 {
        (353u16, "ndsauth"@)
    } else if i == 11 {
        (638u16, "mcns-sec"@)
    } else if i == 12 {
        (1551u16, "hecmtl-db"@)
    } else if i == 13 {
        (661u16, "hap"@)
    } else if i == 14 {
        (491u16, "go-login"@)
    } else if i == 15 {
        (640u16, "entrust-sps"@)
    } else if i == 16 {
        (507u16, "crs"@)
    } else if i == 17 {
        (673u16, "cimplex"@)
    } else if i == 18 {
        (632u16, "bmpp"@)
    } else if i == 19 {
        (1354u16, "rightbrain"@)
    } else if i == 20 {
        (9105u16, "jetdirect"@)
    } else if i == 21 {
        (6143u16, "watershed-lm"@)
    } else if i == 22 {
        (676u16, "vpps-via"@)
    } else if i == 23 {
        (214u16, "vmpwscs"@)
    } else if i == 24 {
        (14141u16, "bo2k"@)
    } else if i == 25 {
        (182u16, "audit"@)
    } else if i == 26 {
        (69u16, "tftp"@)
    } else if i == 27 {
        (27665u16, "Trinoo_Master"@)
    } else if i == 28 {
        (1475u16, "taligent-lm"@)
    } else if i == 29 {
        (97u16, "swift-rvf"@)
    } else if i == 30 {
        (633u16, "servstat"@)
    } else if i == 31 {
        (560u16, "rmonitor"@)
    } else if i == 32 {
        (799u16, "controlit"@)
    } else if i == 33 {
        (7009u16, "afs3-rmtsys"@)
    } else if i == 34 {
        (2015u16, "cypress"@)
    } else if i == 35 {
        (628u16, "qmqp"@)
    } else if i == 36 {
        (751u16, "kerberos_master"@)
    } else if i == 37 {
        (4480u16, "proxy-plus"@)
    } else if i == 38 {
        (1403u16, "prm-nm-np"@)
    } else if i == 39 {
        (8123u16, "polipo"@)
    } else if i == 40 {
        (1527u16, "tlisrv"@)
    } else if i == 41 {
        (723u16, "omfs"@)
    } else if i == 42 {
        (1466u16, "oceansoft-lm"@)
    } else if i == 43 {
        (1486u16, "nms_topo_serv"@)
    } else if i == 44 {
        (1650u16, "nkd"@)
    } else if i == 45 {
        (991u16, "nas"@)
    } else if i == 46 {
        (832u16, "netconfsoaphttp"@)
    } else if i == 47 {
        (137u16, "netbios-ns"@)
    } else if i == 48 {
        (1348u16, "bbn-mmx"@)
    } else {
        (685u16, "mdc-portmapper"@)
    }
}

closed spec fn chunk_entry_74(i: int) -> (u16, Seq<char>) {
    if i == 0 {
        (1762u16, "landesk-rc"@)
    } else if i == 1 {
        (6701u16, "carracho"@)
    } else if i == 2 {
        (994u16, "ircs"@)
    } else if i == 3 {
        (4500u16, "sae-urn"@)
    } else if i == 4 {
        (194u16, "irc"@)
    } else if i == 5 {
        (180u16, "ris"@)
    } else if i == 6 {
        (1539u16, "intellistor-lm"@)
    } else if i == 7 {
        (1379u16, "dbreporter"@)
    } else if i == 8 {
        (51u16, "la-maint"@)
    } else if i == 9 {
        (886u16, "iclcnet-locate"@)
    } else if i == 10 {
        (2064u16, "dnet-keyproxy"@)
    } else if i == 11 {
        (1405u16, "ibm-res"@)
    } else if i == 12 {
        (1435u16, "ibm-cics"@)
    } else if i == 13 {
        (11371u16, "pksd"@)
    } else if i == 14 {
        (1401u16, "goldleaf-licman"@)
    } else if i == 15 {
        (1369u16, "gv-us"@)
    } else if i == 16 {
        (402u16, "genie"@)
    } else if i == 17 {
        (103u16, "gppitnp"@)
    } else if i == 18 {
        (1372u16, "fc-ser"@)
    } else if i == 19 {
        (704u16, "elcsd"@)
    } else if i == 20 {
        (854u16, "dlep"@)
    } else if i == 21 {
        (8892u16, "seosload"@)
    } else if i == 22 {
        (47557u16, "dbbrowse"@)
    } else if i == 23 {
        (624u16, "cryptoadmin"@)
    } else if i == 24 {
        (1387u16, "cadsi-lm"@)
    } else if i == 25 {
        (3397u16, "saposs"@)
    } else if i == 26 {
        (1996u16, "tr-rsrb-port"@)
    } else if i == 27 {
        (1995u16, "perf-port"@)
    } else if i == 28 {
        (1997u16, "gdp-port"@)
    } else if i == 29 {
        (18182u16, "opsec-ufp"@)
    } else if i == 30 {
        (18184u16, "opsec-lea"@)
    } else if i == 31 {
        (3264u16, "ccmail"@)
    } else if i == 32 {
        (3292u16, "meetingmaker"@)
    } else if i == 33 {
        (13720u16, "netbackup"@)
    } else if i == 34 {
        (9107u16, "jetdirect"@)
    } else if i == 35 {
        (9106u16, "jetdirect"@)
    } else if i == 36 {
        (201u16, "at-rtmp"@)
    } else if i == 37 {
        (1381u16, "apple-licman"@)
    } else if i == 38 {
        (35u16, "priv-print"@)
    } else if i == 39 {
        (6588u16, "analogx"@)
    } else if i == 40 {
        (5530u16, "sdserv"@)
    } else if i == 41 {
        (3141u16, "vmodem"@)
    } else if i == 42 {
        (670u16, "vacdsm-sws"@)
    } else if i == 43 {
        (970u16, "unknown"@)
    } else if i == 44 {
        (968u16, "unknown"@)
    } else if i == 45 {
        (964u16, "unknown"@)
    } else if i == 46 {
        (963u16, "unknown"@)
    } else if i == 47 {
        (960u16, "unknown"@)
    } else if i == 48 {
        (959u16, "unknown"@)
    } else {
        (951u16, "unknown"@)
    }
}

closed spec fn chunk_entry_75(i: int) -> (u16, Seq<char>) {
    if i == 0 {
        (947u16, "unknown"@)
    } else if i == 1 {
        (944u16, "unknown"@)
    } else if i == 2 {
        (939u16, "unknown"@)
    } else if i == 3 {
        (933u16, "unknown"@)
    } else if i == 4 {
        (909u16, "unknown"@)
    } else if i == 5 {
        (895u16, "unknown"@)
    } else if i == 6 {
        (891u16, "unknown"@)
    } else if i == 7 {
        (879u16, "unknown"@)
    } else if i == 8 {
        (869u16, "unknown"@)
    } else if i == 9 {
        (868u16, "unknown"@)
    } else if i == 10 {
        (867u16, "unknown"@)
    } else if i == 11 {
        (837u16, "unknown"@)
    } else if i == 12 {
        (821u16, "unknown"@)
    } else if i == 13 {
        (812u16, "unknown"@)
    } else if i == 14 {
        (797u16, "unknown"@)
    } else if i == 15 {
        (796u16, "unknown"@)
    } else if i == 16 {
        (794u16, "unknown"@)
    } else if i == 17 {
        (788u16, "unknown"@)
    } else if i == 18 {
        (756u16, "unknown"@)
    } else if i == 19 {
        (734u16, "unknown"@)
    } else if i == 20 {
        (721u16, "unknown"@)
    } else if i == 21 {
        (718u16, "unknown"@)
    } else if i == 22 {
        (708u16, "unknown"@)
    } else if i == 23 {
        (703u16, "unknown"@)
    } else if i == 24 {
        (60u16, "unknown"@)
    } else if i == 25 {
        (40u16, "unknown"@)
    } else if i == 26 {
        (253u16, "unknown"@)
    } else if i == 27 {
        (231u16, "unknown"@)
    } else if i == 28 {
        (14u16, "unknown"@)
    } else if i == 29 {
        (1017u16, "unknown"@)
    } else if i == 30 {
        (1003u16, "unknown"@)
    } else if i == 31 {
        (656u16, "spmp"@)
    } else if i == 32 {
        (975u16, "securenetpro-sensor"@)
    } else if i == 33 {
        (2026u16, "scrabble"@)
    } else if i == 34 {
        (1497u16, "rfx-lm"@)
    } else if i == 35 {
        (553u16, "pirp"@)
    } else if i == 36 {
        (511u16, "passgo"@)
    } else if i == 37 {
        (611u16, "npmp-gui"@)
    } else if i == 38 {
        (689u16, "nmap"@)
    } else if i == 39 {
        (1668u16, "netview-aix-8"@)
    } else if i == 40 {
        (1664u16, "netview-aix-4"@)
    } else if i == 41 {
        (15u16, "netstat"@)
    } else if i == 42 {
        (561u16, "monitor"@)
    } else if i == 43 {
        (997u16, "maitrd"@)
    } else if i == 44 {
        (505u16, "mailbox-lm"@)
    } else if i == 45 {
        (1496u16, "liberty-lm"@)
    } else if i == 46 {
        (637u16, "lanserver"@)
    } else if i == 47 {
        (213u16, "ipx"@)
    } else if i == 48 {
        (1412u16, "innosys"@)
    } else {
        (1515u16, "ifor-protocol"@)
    }
}

closed spec fn chunk_entry_76(i: int) -> (u16, Seq<char>) {
    if i == 0 {
        (692u16, "hyperwave-isp"@)
    } else if i == 1 {
        (694u16, "ha-cluster"@)
    } else if i == 2 {
        (681u16, "entrust-aams"@)
    } else if i == 3 {
        (680u16, "entrust-aaas"@)
    } else if i == 4 {
        (644u16, "dwr"@)
    } else if i == 5 {
        (675u16, "dctp"@)
    } else if i == 6 {
        (1467u16, "csdmbase"@)
    } else if i == 7 {
        (454u16, "contentserver"@)
    } else if i == 8 {
        (622u16, "collaborator"@)
    } else if i == 9 {
        (1476u16, "clvm-cfg"@)
    } else if i == 10 {
        (1373u16, "chromagrafx"@)
    } else if i == 11 {
        (770u16, "cadlock"@)
    } else if i == 12 {
        (262u16, "arcisdms"@)
    } else if i == 13 {
        (654u16, "aodv"@)
    } else if i == 14 {
        (1535u16, "ampr-info"@)
    } else if i == 15 {
        (58u16, "xns-mail"@)
    } else if i == 16 {
        (177u16, "xdmcp"@)
    } else if i == 17 {
        (26208u16, "wnn6_DS"@)
    } else if i == 18 {
        (677u16, "vpp"@)
    } else if i == 19 {
        (1519u16, "vpvc"@)
    } else if i == 20 {
        (1398u16, "video-activmail"@)
    } else if i == 21 {
        (3457u16, "vat-control"@)
    } else if i == 22 {
        (401u16, "ups"@)
    } else if i == 23 {
        (412u16, "synoptics-trap"@)
    } else if i == 24 {
        (493u16, "ticf-2"@)
    } else if i == 25 {
        (13713u16, "netbackup"@)
    } else if i == 26 {
        (94u16, "objcall"@)
    } else if i == 27 {
        (1498u16, "watcom-sql"@)
    } else if i == 28 {
        (871u16, "supfilesrv"@)
    } else if i == 29 {
        (1390u16, "iclpv-sc"@)
    } else if i == 30 {
        (6145u16, "statsci2-lm"@)
    } else if i == 31 {
        (133u16, "statsrv"@)
    } else if i == 32 {
        (362u16, "srssend"@)
    } else if i == 33 {
        (118u16, "sqlserv"@)
    } else if i == 34 {
        (193u16, "srmp"@)
    } else if i == 35 {
        (115u16, "sftp"@)
    } else if i == 36 {
        (1549u16, "shivahose"@)
    } else if i == 37 {
        (7008u16, "afs3-update"@)
    } else if i == 38 {
        (608u16, "sift-uft"@)
    } else if i == 39 {
        (1436u16, "sas-2"@)
    } else if i == 40 {
        (1426u16, "sas-1"@)
    } else if i == 41 {
        (38u16, "rap"@)
    } else if i == 42 {
        (74u16, "netrjs-4"@)
    } else if i == 43 {
        (73u16, "netrjs-3"@)
    } else if i == 44 {
        (71u16, "netrjs-1"@)
    } else if i == 45 {
        (601u16, "syslog-conn"@)
    } else if i == 46 {
        (136u16, "profile"@)
    } else if i == 47 {
        (4144u16, "wincim"@)
    } else if i == 48 {
        (129u16, "pwdgen"@)
    } else {
        (16444u16, "overnet"@)
    }
}

closed spec fn chunk_entry_77(i: int) -> (u16, Seq<char>) {
    if i == 0 {
        (1446u16, "ora-lm"@)
    } else if i == 1 {
        (4132u16, "nuts_dem"@)
    } else if i == 2 {
        (308u16, "novastorbakcup"@)
    } else if i == 3 {
        (1528u16, "mciautoreg"@)
    } else if i == 4 {
        (1365u16, "adapt-sna"@)
    } else if i == 5 {
        (1393u16, "iclpv-nls"@)
    } else if i == 6 {
        (1394u16, "iclpv-nlc"@)
    } else if i == 7 {
        (1493u16, "netmap_lm"@)
    } else if i == 8 {
        (138u16, "netbios-dgm"@)
    } else if i == 9 {
        (5997u16, "ncd-pref"@)
    } else if i == 10 {
        (397u16, "mptn"@)
    } else if i == 11 {
        (29u16, "msg-icp"@)
    } else if i == 12 {
        (31u16, "msg-auth"@)
    } else if i == 13 {
        (44u16, "mpm-flags"@)
    } else if i == 14 {
        (2627u16, "webster"@)
    } else if i == 15 {
        (6147u16, "montage-lm"@)
    } else if i == 16 {
        (1510u16, "mvx-lm"@)
    } else if i == 17 {
        (568u16, "ms-shuttle"@)
    } else if i == 18 {
        (350u16, "matip-type-a"@)
    } else if i == 19 {
        (2053u16, "knetd"@)
    } else if i == 20 {
        (6146u16, "lonewolf-lm"@)
    } else if i == 21 {
        (6544u16, "mythtv"@)
    } else if i == 22 {
        (1763u16, "landesk-rc"@)
    } else if i == 23 {
        (3531u16, "peerenabler"@)
    } else if i == 24 {
        (399u16, "iso-tsap-c2"@)
    } else if i == 25 {
        (1537u16, "sdsc-lm"@)
    } else if i == 26 {
        (1992u16, "stun-p3"@)
    } else if i == 27 {
        (1355u16, "intuitive-edge"@)
    } else if i == 28 {
        (1454u16, "interhdl_elmd"@)
    } else if i == 29 {
        (261u16, "nsiiops"@)
    } else if i == 30 {
        (887u16, "iclcnet_svinfo"@)
    } else if i == 31 {
        (200u16, "src"@)
    } else if i == 32 {
        (1376u16, "ibm-pps"@)
    } else if i == 33 {
        (1424u16, "hybrid"@)
    } else if i == 34 {
        (6111u16, "spc"@)
    } else if i == 35 {
        (1410u16, "hiq"@)
    } else if i == 36 {
        (1409u16, "here-lm"@)
    } else if i == 37 {
        (686u16, "hcp-wismar"@)
    } else if i == 38 {
        (5301u16, "hacl-gs"@)
    } else if i == 39 {
        (5302u16, "hacl-cfg"@)
    } else if i == 40 {
        (1513u16, "fujitsu-dtc"@)
    } else if i == 41 {
        (747u16, "fujitsu-dev"@)
    } else if i == 42 {
        (9051u16, "tor-control"@)
    } else if i == 43 {
        (1499u16, "fhc"@)
    } else if i == 44 {
        (7006u16, "afs3-errors"@)
    } else if i == 45 {
        (1439u16, "eicon-x25"@)
    } else if i == 46 {
        (1438u16, "eicon-server"@)
    } else if i == 47 {
        (8770u16, "apple-iphoto"@)
    } else if i == 48 {
        (196u16, "dn6-smm-red"@)
    } else {
        (853u16, "domain-s"@)
    }
}

closed spec fn chunk_entry_78(i: int) -> (u16, Seq<char>) {
    if i == 0 {
        (93u16, "dcp"@)
    } else if i == 1 {
        (410u16, "decladebug"@)
    } else if i == 2 {
        (462u16, "datasurfsrvsec"@)
    } else if i == 3 {
        (619u16, "compaq-evm"@)
    } else if i == 4 {
        (1529u16, "support"@)
    } else if i == 5 {
        (1990u16, "stun-p1"@)
    } else if i == 6 {
        (1994u16, "stun-port"@)
    } else if i == 7 {
        (1986u16, "licensedaemon"@)
    } else if i == 8 {
        (1386u16, "checksum"@)
    } else if i == 9 {
        (18183u16, "opsec-sam"@)
    } else if i == 10 {
        (18181u16, "opsec-cvp"@)
    } else if i == 11 {
        (6700u16, "carracho"@)
    } else if i == 12 {
        (1442u16, "cadis-2"@)
    } else if i == 13 {
        (95u16, "supdup"@)
    } else if i == 14 {
        (6400u16, "crystalreports"@)
    } else if i == 15 {
        (1432u16, "blueberry-lm"@)
    } else if i == 16 {
        (1548u16, "axon-lm"@)
    } else if i == 17 {
        (486u16, "sstats"@)
    } else if i == 18 {
        (1422u16, "autodesk-lm"@)
    } else if i == 19 {
        (114u16, "audionews"@)
    } else if i == 20 {
        (1397u16, "audio-activmail"@)
    } else if i == 21 {
        (6142u16, "aspentec-lm"@)
    } else if i == 22 {
        (626u16, "apple-imap-admin"@)
    } else if i == 23 {
        (1827u16, "pcm"@)
    } else if i == 24 {
        (422u16, "ariel3"@)
    } else if i == 25 {
        (688u16, "realm-rusd"@)
    } else if i == 26 {
        (206u16, "at-zis"@)
    } else if i == 27 {
        (202u16, "at-nbp"@)
    } else if i == 28 {
        (204u16, "at-echo"@)
    } else if i == 29 {
        (1483u16, "afs"@)
    } else if i == 30 {
        (774u16, "rpasswd"@)
    } else if i == 31 {
        (699u16, "accessnetwork"@)
    } else if i == 32 {
        (7634u16, "hddtemp"@)
    } else if i == 33 {
        (2023u16, "xinuexpansion3"@)
    } else if i == 34 {
        (776u16, "wpages"@)
    } else if i == 35 {
        (672u16, "vpps-qua"@)
    } else if i == 36 {
        (1545u16, "vistium-share"@)
    } else if i == 37 {
        (2431u16, "venus-se"@)
    } else if i == 38 {
        (697u16, "uuidgen"@)
    } else if i == 39 {
        (982u16, "unknown"@)
    } else if i == 40 {
        (978u16, "unknown"@)
    } else if i == 41 {
        (972u16, "unknown"@)
    } else if i == 42 {
        (966u16, "unknown"@)
    } else if i == 43 {
        (957u16, "unknown"@)
    } else if i == 44 {
        (956u16, "unknown"@)
    } else if i == 45 {
        (934u16, "unknown"@)
    } else if i == 46 {
        (920u16, "unknown"@)
    } else if i == 47 {
        (915u16, "unknown"@)
    } else if i == 48 {
        (908u16, "unknown"@)
    } else {
        (907u16, "unknown"@)
    }
}

closed spec fn chunk_entry_79(i: int) -> (u16, Seq<char>) {
    if i == 0 {
        (892u16, "unknown"@)
    } else if i == 1 {
        (890u16, "unknown"@)
    } else if i == 2 {
        (885u16, "unknown"@)
    } else if i == 3 {
        (884u16, "unknown"@)
    } else if i == 4 {
        (882u16, "unknown"@)
    } else if i == 5 {
        (877u16, "unknown"@)
    } else if i == 6 {
        (876u16, "unknown"@)
    } else if i == 7 {
        (865u16, "unknown"@)
    } else if i == 8 {
        (857u16, "unknown"@)
    } else if i == 9 {
        (852u16, "unknown"@)
    } else if i == 10 {
        (849u16, "unknown"@)
    } else if i == 11 {
        (842u16, "unknown"@)
    } else if i == 12 {
        (838u16, "unknown"@)
    } else if i == 13 {
        (827u16, "unknown"@)
    } else if i == 14 {
        (818u16, "unknown"@)
    } else if i == 15 {
        (793u16, "unknown"@)
    } else if i == 16 {
        (785u16, "unknown"@)
    } else if i == 17 {
        (784u16, "unknown"@)
    } else if i == 18 {
        (755u16, "unknown"@)
    } else if i == 19 {
        (746u16, "unknown"@)
    } else if i == 20 {
        (738u16, "unknown"@)
    } else if i == 21 {
        (737u16, "unknown"@)
    } else if i == 22 {
        (717u16, "unknown"@)
    } else if i == 23 {
        (34u16, "unknown"@)
    } else if i == 24 {
        (336u16, "unknown"@)
    } else if i == 25 {
        (325u16, "unknown"@)
    } else if i == 26 {
        (303u16, "unknown"@)
    } else if i == 27 {
        (276u16, "unknown"@)
    } else if i == 28 {
        (273u16, "unknown"@)
    } else if i == 29 {
        (236u16, "unknown"@)
    } else if i == 30 {
        (235u16, "unknown"@)
    } else if i == 31 {
        (233u16, "unknown"@)
    } else if i == 32 {
        (181u16, "unify"@)
    } else if i == 33 {
        (604u16, "tunnel"@)
    } else if i == 34 {
        (1362u16, "timeflies"@)
    } else if i == 35 {
        (712u16, "tbrpf"@)
    } else if i == 36 {
        (1437u16, "tabula"@)
    } else if i == 37 {
        (2027u16, "shadowserver"@)
    } else if i == 38 {
        (1368u16, "screencast"@)
    } else if i == 39 {
        (1531u16, "rap-listen"@)
    } else if i == 40 {
        (645u16, "pssc"@)
    } else if i == 41 {
        (65301u16, "pcanywhere"@)
    } else if i == 42 {
        (260u16, "openport"@)
    } else if i == 43 {
        (536u16, "opalis-rdv"@)
    } else if i == 44 {
        (764u16, "omserv"@)
    } else if i == 45 {
        (698u16, "olsr"@)
    } else if i == 46 {
        (607u16, "nqs"@)
    } else if i == 47 {
        (1667u16, "netview-aix-7"@)
    } else if i == 48 {
        (1662u16, "netview-aix-2"@)
    } else {
        (1661u16, "netview-aix-1"@)
    }
}

closed spec fn chunk_entry_80(i: int) -> (u16, Seq<char>) {
    if i == 0 {
        (404u16, "nced"@)
    } else if i == 1 {
        (224u16, "masqdialer"@)
    } else if i == 2 {
        (418u16, "hyper-g"@)
    } else if i == 3 {
        (176u16, "genrad-mux"@)
    } else if i == 4 {
        (848u16, "gdoi"@)
    } else if i == 5 {
        (315u16, "dpsi"@)
    } else if i == 6 {
        (466u16, "digital-vrc"@)
    } else if i == 7 {
        (403u16, "decap"@)
    } else if i == 8 {
        (1456u16, "dca"@)
    } else if i == 9 {
        (1479u16, "dberegister"@)
    } else if i == 10 {
        (355u16, "datex-asn"@)
    } else if i == 11 {
        (763u16, "cycleserv"@)
    } else if i == 12 {
        (1472u16, "csdm"@)
    } else if i == 13 {
        (453u16, "creativeserver"@)
    } else if i == 14 {
        (759u16, "con"@)
    } else if i == 15 {
        (437u16, "comscm"@)
    } else if i == 16 {
        (2432u16, "codasrv"@)
    } else if i == 17 {
        (120u16, "cfdptkt"@)
    } else if i == 18 {
        (415u16, "bnet"@)
    } else if i == 19 {
        (1544u16, "aspeclmd"@)
    } else if i == 20 {
        (1511u16, "3l-l1"@)
    } else if i == 21 {
        (1538u16, "3ds-lm"@)
    } else if i == 22 {
        (346u16, "zserv"@)
    } else if i == 23 {
        (173u16, "xyplex-mux"@)
    } else if i == 24 {
        (54u16, "xns-ch"@)
    } else if i == 25 {
        (56u16, "xns-auth"@)
    } else if i == 26 {
        (265u16, "maybe-fw1"@)
    } else if i == 27 {
        (1462u16, "world-lm"@)
    } else if i == 28 {
        (13701u16, "netbackup"@)
    } else if i == 29 {
        (1518u16, "vpvd"@)
    } else if i == 30 {
        (1457u16, "valisys-lm"@)
    } else if i == 31 {
        (117u16, "uucp-path"@)
    } else if i == 32 {
        (1470u16, "uaiact"@)
    } else if i == 33 {
        (13715u16, "netbackup"@)
    } else if i == 34 {
        (13714u16, "netbackup"@)
    } else if i == 35 {
        (267u16, "td-service"@)
    } else if i == 36 {
        (1419u16, "timbuktu-srv3"@)
    } else if i == 37 {
        (1418u16, "timbuktu-srv2"@)
    } else if i == 38 {
        (1407u16, "dbsa-lm"@)
    } else if i == 39 {
        (380u16, "is99s"@)
    } else if i == 40 {
        (65u16, "tacacs-ds"@)
    } else if i == 41 {
        (391u16, "synotics-relay"@)
    } else if i == 42 {
        (392u16, "synotics-broker"@)
    } else if i == 43 {
        (413u16, "smsp"@)
    } else if i == 44 {
        (1391u16, "iclpv-sas"@)
    } else if i == 45 {
        (614u16, "sshell"@)
    } else if i == 46 {
        (1408u16, "sophia-lm"@)
    } else if i == 47 {
        (162u16, "snmptrap"@)
    } else if i == 48 {
        (108u16, "snagas"@)
    } else {
        (4987u16, "maybe-veritas"@)
    }
}

closed spec fn chunk_entry_81(i: int) -> (u16, Seq<char>) {
    if i == 0 {
        (1502u16, "shivadiscovery"@)
    } else if i == 1 {
        (598u16, "sco-websrvrmg3"@)
    } else if i == 2 {
        (582u16, "scc-security"@)
    } else if i == 3 {
        (487u16, "saft"@)
    } else if i == 4 {
        (530u16, "courier"@)
    } else if i == 5 {
        (1509u16, "robcad-lm"@)
    } else if i == 6 {
        (72u16, "netrjs-2"@)
    } else if i == 7 {
        (4672u16, "rfa"@)
    } else if i == 8 {
        (189u16, "qft"@)
    } else if i == 9 {
        (209u16, "tam"@)
    } else if i == 10 {
        (270u16, "gist"@)
    } else if i == 11 {
        (7464u16, "pythonds"@)
    } else if i == 12 {
        (408u16, "prm-sm"@)
    } else if i == 13 {
        (191u16, "prospero"@)
    } else if i == 14 {
        (1459u16, "proshare1"@)
    } else if i == 15 {
        (5714u16, "prosharevideo"@)
    } else if i == 16 {
        (5717u16, "prosharenotify"@)
    } else if i == 17 {
        (5713u16, "proshareaudio"@)
    } else if i == 18 {
        (564u16, "9pfs"@)
    } else if i == 19 {
        (767u16, "phonebook"@)
    } else if i == 20 {
        (583u16, "philips-vc"@)
    } else if i == 21 {
        (1395u16, "iclpv-wsm"@)
    } else if i == 22 {
        (192u16, "osu-nms"@)
    } else if i == 23 {
        (1448u16, "oc-lm"@)
    } else if i == 24 {
        (428u16, "ocs_cmu"@)
    } else if i == 25 {
        (4133u16, "nuts_bootp"@)
    } else if i == 26 {
        (1416u16, "novell-lu6.2"@)
    } else if i == 27 {
        (773u16, "submit"@)
    } else if i == 28 {
        (1458u16, "nrcabq-lm"@)
    } else if i == 29 {
        (526u16, "tempo"@)
    } else if i == 30 {
        (1363u16, "ndm-requester"@)
    } else if i == 31 {
        (742u16, "netrcs"@)
    } else if i == 32 {
        (1464u16, "msl_lmd"@)
    } else if i == 33 {
        (1427u16, "mloadd"@)
    } else if i == 34 {
        (1482u16, "miteksys-lm"@)
    } else if i == 35 {
        (569u16, "ms-rome"@)
    } else if i == 36 {
        (571u16, "umeter"@)
    } else if i == 37 {
        (6141u16, "meta-corp"@)
    } else if i == 38 {
        (351u16, "matip-type-b"@)
    } else if i == 39 {
        (3984u16, "mapper-nodemgr"@)
    } else if i == 40 {
        (5490u16, "connect-proxy"@)
    } else if i == 41 {
        (2u16, "compressnet"@)
    } else if i == 42 {
        (13718u16, "netbackup"@)
    } else if i == 43 {
        (373u16, "legent-1"@)
    } else if i == 44 {
        (17300u16, "kuang2"@)
    } else if i == 45 {
        (910u16, "kink"@)
    } else if i == 46 {
        (148u16, "cronus"@)
    } else if i == 47 {
        (7326u16, "icb"@)
    } else if i == 48 {
        (271u16, "pt-tls"@)
    } else {
        (423u16, "opc-job-start"@)
    }
}

closed spec fn chunk_entry_82(i: int) -> (u16, Seq<char>) {
    if i == 0 {
        (1451u16, "infoman"@)
    } else if i == 1 {
        (480u16, "loadsrv"@)
    } else if i == 2 {
        (1430u16, "tpdu"@)
    } else if i == 3 {
        (1429u16, "nms"@)
    } else if i == 4 {
        (781u16, "hp-collector"@)
    } else if i == 5 {
        (383u16, "hp-alarm-mgr"@)
    } else if i == 6 {
        (2564u16, "hp-3000-telnet"@)
    } else if i == 7 {
        (613u16, "hmmp-op"@)
    } else if i == 8 {
        (612u16, "hmmp-ind"@)
    } else if i == 9 {
        (652u16, "hello-port"@)
    } else if i == 10 {
        (5303u16, "hacl-probe"@)
    } else if i == 11 {
        (1383u16, "gwha"@)
    } else if i == 12 {
        (128u16, "gss-xlicen"@)
    } else if i == 13 {
        (19150u16, "gkrellm"@)
    } else if i == 14 {
        (1453u16, "genie-lm"@)
    } else if i == 15 {
        (190u16, "gacp"@)
    } else if i == 16 {
        (1505u16, "funkproxy"@)
    } else if i == 17 {
        (1371u16, "fc-cli"@)
    } else if i == 18 {
        (533u16, "netwall"@)
    } else if i == 19 {
        (27009u16, "flexlm9"@)
    } else if i == 20 {
        (27007u16, "flexlm7"@)
    } else if i == 21 {
        (27005u16, "flexlm5"@)
    } else if i == 22 {
        (27003u16, "flexlm3"@)
    } else if i == 23 {
        (27002u16, "flexlm2"@)
    } else if i == 24 {
        (744u16, "flexlm"@)
    } else if i == 25 {
        (1423u16, "essbase"@)
    } else if i == 26 {
        (1374u16, "molly"@)
    } else if i == 27 {
        (141u16, "emfis-cntl"@)
    } else if i == 28 {
        (1440u16, "eicon-slp"@)
    } else if i == 29 {
        (1396u16, "dvl-activemail"@)
    } else if i == 30 {
        (352u16, "dtag-ste-sb"@)
    } else if i == 31 {
        (96u16, "dixie"@)
    } else if i == 32 {
        (48u16, "auditd"@)
    } else if i == 33 {
        (552u16, "deviceshare"@)
    } else if i == 34 {
        (570u16, "meter"@)
    } else if i == 35 {
        (217u16, "dbase"@)
    } else if i == 36 {
        (528u16, "custix"@)
    } else if i == 37 {
        (452u16, "sfs-config"@)
    } else if i == 38 {
        (451u16, "sfs-smp-net"@)
    } else if i == 39 {
        (2766u16, "listen"@)
    } else if i == 40 {
        (2108u16, "rkinit"@)
    } else if i == 41 {
        (132u16, "cisco-sys"@)
    } else if i == 42 {
        (1993u16, "snmp-tcp-port"@)
    } else if i == 43 {
        (1987u16, "tr-rsrb-p1"@)
    } else if i == 44 {
        (130u16, "cisco-fna"@)
    } else if i == 45 {
        (18187u16, "opsec-ela"@)
    } else if i == 46 {
        (216u16, "atls"@)
    } else if i == 47 {
        (3421u16, "bmap"@)
    } else if i == 48 {
        (142u16, "bl-idm"@)
    } else {
        (13721u16, "netbackup"@)
    }
}

closed spec fn chunk_entry_83(i: int) -> (u16, Seq<char>) {
    if i == 0 {
        (67u16, "dhcps"@)
    } else if i == 1 {
        (15151u16, "bo2k"@)
    } else if i == 2 {
        (364u16, "aurora-cmgr"@)
    } else if i == 3 {
        (1411u16, "af"@)
    } else if i == 4 {
        (205u16, "at-5"@)
    } else if i == 5 {
        (6548u16, "powerchuteplus"@)
    } else if i == 6 {
        (124u16, "ansatrader"@)
    } else if i == 7 {
        (116u16, "ansanotify"@)
    } else if i == 8 {
        (5193u16, "aol-3"@)
    } else if i == 9 {
        (258u16, "fw1-mc-gui"@)
    } else if i == 10 {
        (485u16, "powerburst"@)
    } else if i == 11 {
        (599u16, "acp"@)
    } else if i == 12 {
        (149u16, "aed-512"@)
    } else if i == 13 {
        (1469u16, "aal-lm"@)
    } else if i == 14 {
        (775u16, "entomb"@)
    } else if i == 15 {
        (2019u16, "whosockami"@)
    } else if i == 16 {
        (518u16, "ntalk"@)
    } else if i == 17 {
        (516u16, "videotex"@)
    } else if i == 18 {
        (986u16, "unknown"@)
    } else if i == 19 {
        (977u16, "unknown"@)
    } else if i == 20 {
        (976u16, "unknown"@)
    } else if i == 21 {
        (955u16, "unknown"@)
    } else if i == 22 {
        (954u16, "unknown"@)
    } else if i == 23 {
        (937u16, "unknown"@)
    } else if i == 24 {
        (932u16, "unknown"@)
    } else if i == 25 {
        (896u16, "unknown"@)
    } else if i == 26 {
        (893u16, "unknown"@)
    } else if i == 27 {
        (845u16, "unknown"@)
    } else if i == 28 {
        (8u16, "unknown"@)
    } else if i == 29 {
        (768u16, "unknown"@)
    } else if i == 30 {
        (766u16, "unknown"@)
    } else if i == 31 {
        (739u16, "unknown"@)
    } else if i == 32 {
        (337u16, "unknown"@)
    } else if i == 33 {
        (329u16, "unknown"@)
    } else if i == 34 {
        (326u16, "unknown"@)
    } else if i == 35 {
        (305u16, "unknown"@)
    } else if i == 36 {
        (295u16, "unknown"@)
    } else if i == 37 {
        (294u16, "unknown"@)
    } else if i == 38 {
        (293u16, "unknown"@)
    } else if i == 39 {
        (289u16, "unknown"@)
    } else if i == 40 {
        (288u16, "unknown"@)
    } else if i == 41 {
        (277u16, "unknown"@)
    } else if i == 42 {
        (238u16, "unknown"@)
    } else if i == 43 {
        (234u16, "unknown"@)
    } else if i == 44 {
        (229u16, "unknown"@)
    } else if i == 45 {
        (228u16, "unknown"@)
    } else if i == 46 {
        (226u16, "unknown"@)
    } else if i == 47 {
        (522u16, "ulp"@)
    } else if i == 48 {
        (2028u16, "submitserver"@)
    } else {
        (150u16, "sql-net"@)
    }
}

closed spec fn chunk_entry_84(i: int) -> (u16, Seq<char>) {
    if i == 0 {
        (572u16, "sonar"@)
    } else if i == 1 {
        (596u16, "smsd"@)
    } else if i == 2 {
        (420u16, "smpte"@)
    } else if i == 3 {
        (460u16, "skronk"@)
    } else if i == 4 {
        (1543u16, "simba-cs"@)
    } else if i == 5 {
        (358u16, "shrinkwrap"@)
    } else if i == 6 {
        (361u16, "semantix"@)
    } else if i == 7 {
        (470u16, "scx-proxy"@)
    } else if i == 8 {
        (360u16, "scoi2odialog"@)
    } else if i == 9 {
        (457u16, "scohelp"@)
    } else if i == 10 {
        (643u16, "sanity"@)
    } else if i == 11 {
        (322u16, "rtsps"@)
    } else if i == 12 {
        (168u16, "rsvd"@)
    } else if i == 13 {
        (753u16, "rrh"@)
    } else if i == 14 {
        (369u16, "rpc2portmap"@)
    } else if i == 15 {
        (185u16, "remote-kis"@)
    } else if i == 16 {
        (43188u16, "reachout"@)
    } else if i == 17 {
        (1541u16, "rds2"@)
    } else if i == 18 {
        (1540u16, "rds"@)
    } else if i == 19 {
        (752u16, "qrh"@)
    } else if i == 20 {
        (496u16, "pim-rp-disc"@)
    } else if i == 21 {
        (662u16, "pftp"@)
    } else if i == 22 {
        (1449u16, "peport"@)
    } else if i == 23 {
        (1480u16, "pacerforum"@)
    } else if i == 24 {
        (1473u16, "openmath"@)
    } else if i == 25 {
        (184u16, "ocserver"@)
    } else if i == 26 {
        (1672u16, "netview-aix-12"@)
    } else if i == 27 {
        (1671u16, "netview-aix-11"@)
    } else if i == 28 {
        (1670u16, "netview-aix-10"@)
    } else if i == 29 {
        (435u16, "mobilip-mn"@)
    } else if i == 30 {
        (434u16, "mobileip-agent"@)
    } else if i == 31 {
        (1532u16, "miroconnect"@)
    } else if i == 32 {
        (1360u16, "mimer"@)
    } else if i == 33 {
        (174u16, "mailq"@)
    } else if i == 34 {
        (472u16, "ljk-login"@)
    } else if i == 35 {
        (1361u16, "linx"@)
    } else if i == 36 {
        (17007u16, "isode-dua"@)
    } else if i == 37 {
        (414u16, "infoseek"@)
    } else if i == 38 {
        (535u16, "iiop"@)
    } else if i == 39 {
        (432u16, "iasd"@)
    } else if i == 40 {
        (479u16, "iafserver"@)
    } else if i == 41 {
        (473u16, "hybrid-pop"@)
    } else if i == 42 {
        (151u16, "hems"@)
    } else if i == 43 {
        (1542u16, "gridgen-elmd"@)
    } else if i == 44 {
        (438u16, "dsfgw"@)
    } else if i == 45 {
        (1488u16, "docstor"@)
    } else if i == 46 {
        (1508u16, "diagmond"@)
    } else if i == 47 {
        (618u16, "dei-icda"@)
    } else if i == 48 {
        (316u16, "decauth"@)
    } else {
        (1367u16, "dcs"@)
    }
}

closed spec fn chunk_entry_85(i: int) -> (u16, Seq<char>) {
    if i == 0 {
        (439u16, "dasp"@)
    } else if i == 1 {
        (284u16, "corerjd"@)
    } else if i == 2 {
        (542u16, "commerce"@)
    } else if i == 3 {
        (370u16, "codaauth2"@)
    } else if i == 4 {
        (2016u16, "bootserver"@)
    } else if i == 5 {
        (248u16, "bhfhs"@)
    } else if i == 6 {
        (1491u16, "anynetgateway"@)
    } else if i == 7 {
        (44123u16, "z-wave-tunnel"@)
    } else if i == 8 {
        (41230u16, "z-wave-s"@)
    } else if i == 9 {
        (7173u16, "zsecure"@)
    } else if i == 10 {
        (5670u16, "filemq"@)
    } else if i == 11 {
        (3925u16, "zmp"@)
    } else if i == 12 {
        (7088u16, "zixi-transport"@)
    } else if i == 13 {
        (1425u16, "zion-lm"@)
    } else if i == 14 {
        (17755u16, "zigbee-ip"@)
    } else if i == 15 {
        (17756u16, "zigbee-ips"@)
    } else if i == 16 {
        (4072u16, "zieto-sock"@)
    } else if i == 17 {
        (5841u16, "shiprush-d-ch"@)
    } else if i == 18 {
        (2102u16, "zephyr-srv"@)
    } else if i == 19 {
        (4123u16, "z-wave"@)
    } else if i == 20 {
        (2989u16, "zarkov"@)
    } else if i == 21 {
        (10051u16, "zabbix-trapper"@)
    } else if i == 22 {
        (10050u16, "zabbix-agent"@)
    } else if i == 23 {
        (18136u16, "racf"@)
    } else if i == 24 {
        (31029u16, "yawn"@)
    } else if i == 25 {
        (3726u16, "array-manager"@)
    } else if i == 26 {
        (9978u16, "xybrid-rt"@)
    } else if i == 27 {
        (9925u16, "xybrid-cloud"@)
    } else if i == 28 {
        (36462u16, "xw-control"@)
    } else if i == 29 {
        (5793u16, "xtreamx"@)
    } else if i == 30 {
        (3423u16, "xtrm"@)
    } else if i == 31 {
        (3424u16, "xtrms"@)
    } else if i == 32 {
        (4095u16, "xtgui"@)
    } else if i == 33 {
        (3646u16, "xss-srv-port"@)
    } else if i == 34 {
        (3510u16, "xss-port"@)
    } else if i == 35 {
        (3722u16, "xserveraid"@)
    } else if i == 36 {
        (2459u16, "community"@)
    } else if i == 37 {
        (3651u16, "xrpc-registry"@)
    } else if i == 38 {
        (14500u16, "xpra"@)
    } else if i == 39 {
        (3865u16, "xpl"@)
    } else if i == 40 {
        (15345u16, "xpilot"@)
    } else if i == 41 {
        (3763u16, "xo-wave"@)
    } else if i == 42 {
        (38422u16, "xn-control"@)
    } else if i == 43 {
        (3877u16, "xmpcr-interface"@)
    } else if i == 44 {
        (9092u16, "XmlIpcRegSvc"@)
    } else if i == 45 {
        (5344u16, "xkotodrcp"@)
    } else if i == 46 {
        (2341u16, "xiostatus"@)
    } else if i == 47 {
        (6116u16, "xtlserv"@)
    } else if i == 48 {
        (2157u16, "xnds"@)
    } else {
        (165u16, "xns-courier"@)
    }
}

closed spec fn chunk_entry_86(i: int) -> (u16, Seq<char>) {
    if i == 0 {
        (6936u16, "xsmsvc"@)
    } else if i == 1 {
        (8041u16, "enguity-xccetp"@)
    } else if i == 2 {
        (4888u16, "xcap-portal"@)
    } else if i == 3 {
        (4889u16, "xcap-control"@)
    } else if i == 4 {
        (3074u16, "xbox"@)
    } else if i == 5 {
        (2165u16, "x-bone-api"@)
    } else if i == 6 {
        (4389u16, "xandros-cms"@)
    } else if i == 7 {
        (5770u16, "spramsd"@)
    } else if i == 8 {
        (5769u16, "spramsca"@)
    } else if i == 9 {
        (16619u16, "xoms"@)
    } else if i == 10 {
        (11876u16, "xoraya"@)
    } else if i == 11 {
        (11877u16, "x2e-disc"@)
    } else if i == 12 {
        (6061u16, "x11"@)
    } else if i == 13 {
        (6058u16, "x11"@)
    } else if i == 14 {
        (6057u16, "x11"@)
    } else if i == 15 {
        (6056u16, "x11"@)
    } else if i == 16 {
        (6054u16, "x11"@)
    } else if i == 17 {
        (6053u16, "x11"@)
    } else if i == 18 {
        (6049u16, "x11"@)
    } else if i == 19 {
        (6048u16, "x11"@)
    } else if i == 20 {
        (6047u16, "x11"@)
    } else if i == 21 {
        (6046u16, "x11"@)
    } else if i == 22 {
        (6045u16, "x11"@)
    } else if i == 23 {
        (6044u16, "x11"@)
    } else if i == 24 {
        (6043u16, "x11"@)
    } else if i == 25 {
        (6042u16, "x11"@)
    } else if i == 26 {
        (6041u16, "x11"@)
    } else if i == 27 {
        (6040u16, "x11"@)
    } else if i == 28 {
        (6039u16, "x11"@)
    } else if i == 29 {
        (6038u16, "x11"@)
    } else if i == 30 {
        (6037u16, "x11"@)
    } else if i == 31 {
        (6036u16, "x11"@)
    } else if i == 32 {
        (6035u16, "x11"@)
    } else if i == 33 {
        (6034u16, "x11"@)
    } else if i == 34 {
        (6033u16, "x11"@)
    } else if i == 35 {
        (6032u16, "x11"@)
    } else if i == 36 {
        (6031u16, "x11"@)
    } else if i == 37 {
        (6029u16, "x11"@)
    } else if i == 38 {
        (6028u16, "x11"@)
    } else if i == 39 {
        (6027u16, "x11"@)
    } else if i == 40 {
        (6026u16, "x11"@)
    } else if i == 41 {
        (6024u16, "x11"@)
    } else if i == 42 {
        (6023u16, "x11"@)
    } else if i == 43 {
        (6022u16, "x11"@)
    } else if i == 44 {
        (6020u16, "x11"@)
    } else if i == 45 {
        (6019u16, "x11"@)
    } else if i == 46 {
        (6018u16, "x11"@)
    } else if i == 47 {
        (6016u16, "x11"@)
    } else if i == 48 {
        (6014u16, "x11"@)
    } else {
        (6013u16, "x11"@)
    }
}

closed spec fn chunk_entry_87(i: int) -> (u16, Seq<char>) {
    if i == 0 {
        (6012u16, "x11"@)
    } else if i == 1 {
        (6011u16, "x11"@)
    } else if i == 2 {
        (3741u16, "wysdma"@)
    } else if i == 3 {
        (3633u16, "wacp"@)
    } else if i == 4 {
        (3840u16, "flirtmitmir"@)
    } else if i == 5 {
        (3717u16, "wv-csp-udp-cir"@)
    } else if i == 6 {
        (3716u16, "wv-csp-sms-cir"@)
    } else if i == 7 {
        (3590u16, "wv-csp-sms"@)
    } else if i == 8 {
        (2805u16, "wta-wsp-s"@)
    } else if i == 9 {
        (4537u16, "wssauthsvc"@)
    } else if i == 10 {
        (9762u16, "tungsten-http"@)
    } else if i == 11 {
        (5007u16, "wsm-server-ssl"@)
    } else if i == 12 {
        (5006u16, "wsm-server"@)
    } else if i == 13 {
        (4879u16, "wsdl-event"@)
    } else if i == 14 {
        (5358u16, "wsdapi-s"@)
    } else if i == 15 {
        (6114u16, "wrspice"@)
    } else if i == 16 {
        (4185u16, "wcpp"@)
    } else if i == 17 {
        (2784u16, "www-dev"@)
    } else if i == 18 {
        (3724u16, "blizwow"@)
    } else if i == 19 {
        (2596u16, "worldfusion2"@)
    } else if i == 20 {
        (2595u16, "worldfusion1"@)
    } else if i == 21 {
        (4417u16, "workflowdir"@)
    } else if i == 22 {
        (4845u16, "wcr-remlib"@)
    } else if i == 23 {
        (22321u16, "wnn6_Tw"@)
    } else if i == 24 {
        (22289u16, "wnn6_Cn"@)
    } else if i == 25 {
        (3219u16, "wms-messenger"@)
    } else if i == 26 {
        (1338u16, "wmc-log-svc"@)
    } else if i == 27 {
        (36411u16, "wlcp"@)
    } else if i == 28 {
        (3861u16, "winshadow-hd"@)
    } else if i == 29 {
        (5166u16, "winpcs"@)
    } else if i == 30 {
        (3674u16, "wininstall-ipc"@)
    } else if i == 31 {
        (534u16, "mm-admin"@)
    } else if i == 32 {
        (6602u16, "wsscomfrmwk"@)
    } else if i == 33 {
        (47001u16, "winrm"@)
    } else if i == 34 {
        (5363u16, "net-projection"@)
    } else if i == 35 {
        (8912u16, "wcbackup"@)
    } else if i == 36 {
        (1785u16, "windlm"@)
    } else if i == 37 {
        (2231u16, "wimaxasncp"@)
    } else if i == 38 {
        (5747u16, "tunatic"@)
    } else if i == 39 {
        (5748u16, "tunalyzer"@)
    } else if i == 40 {
        (11208u16, "wifree"@)
    } else if i == 41 {
        (7236u16, "display"@)
    } else if i == 42 {
        (4049u16, "wafs"@)
    } else if i == 43 {
        (4050u16, "cisco-wafs"@)
    } else if i == 44 {
        (22347u16, "WibuKey"@)
    } else if i == 45 {
        (63u16, "via-ftp"@)
    } else if i == 46 {
        (3233u16, "whisker"@)
    } else if i == 47 {
        (3359u16, "wg-netforce"@)
    } else if i == 48 {
        (8908u16, "dpp"@)
    } else {
        (4177u16, "wello"@)
    }
}

closed spec fn chunk_entry_88(i: int) -> (u16, Seq<char>) {
    if i == 0 {
        (48050u16, "weandsf"@)
    } else if i == 1 {
        (3427u16, "websphere-snmp"@)
    } else if i == 2 {
        (5321u16, "bsfsvr-zn-ssl"@)
    } else if i == 3 {
        (5320u16, "bsfserver-zn"@)
    } else if i == 4 {
        (2907u16, "webmethods-b2b"@)
    } else if i == 5 {
        (8991u16, "https-wmap"@)
    } else if i == 6 {
        (8990u16, "http-wmap"@)
    } else if i == 7 {
        (2054u16, "weblogin"@)
    } else if i == 8 {
        (9802u16, "davsrcs"@)
    } else if i == 9 {
        (9800u16, "davsrc"@)
    } else if i == 10 {
        (3111u16, "wsynch"@)
    } else if i == 11 {
        (3702u16, "ws-discovery"@)
    } else if i == 12 {
        (4847u16, "wfc"@)
    } else if i == 13 {
        (4368u16, "wxbrief"@)
    } else if i == 14 {
        (5990u16, "wbem-exp-https"@)
    } else if i == 15 {
        (3563u16, "watcomdebug"@)
    } else if i == 16 {
        (5744u16, "watchdoc"@)
    } else if i == 17 {
        (5743u16, "watchdoc-pod"@)
    } else if i == 18 {
        (12321u16, "warehouse-sss"@)
    } else if i == 19 {
        (12322u16, "warehouse"@)
    } else if i == 20 {
        (9206u16, "wap-vcard-s"@)
    } else if i == 21 {
        (9204u16, "wap-vcard"@)
    } else if i == 22 {
        (9205u16, "wap-vcal"@)
    } else if i == 23 {
        (9201u16, "wap-wsp-wtp"@)
    } else if i == 24 {
        (9203u16, "wap-wsp-wtp-s"@)
    } else if i == 25 {
        (2949u16, "wap-pushsecure"@)
    } else if i == 26 {
        (2948u16, "wap-push"@)
    } else if i == 27 {
        (6626u16, "wago-service"@)
    } else if i == 28 {
        (37472u16, "3gpp-w1ap"@)
    } else if i == 29 {
        (8199u16, "vvr-data"@)
    } else if i == 30 {
        (4145u16, "vvr-control"@)
    } else if i == 31 {
        (3482u16, "vulture"@)
    } else if i == 32 {
        (2216u16, "vtu-comms"@)
    } else if i == 33 {
        (13708u16, "netbackup"@)
    } else if i == 34 {
        (3786u16, "upstriggervsw"@)
    } else if i == 35 {
        (3375u16, "vsnm-agent"@)
    } else if i == 36 {
        (7566u16, "vsi-omega"@)
    } else if i == 37 {
        (2539u16, "vsiadmin"@)
    } else if i == 38 {
        (2387u16, "vsamredirector"@)
    } else if i == 39 {
        (3317u16, "vsaiport"@)
    } else if i == 40 {
        (2410u16, "vrts-registry"@)
    } else if i == 41 {
        (2255u16, "vrtp"@)
    } else if i == 42 {
        (4299u16, "vrml-multi-use"@)
    } else if i == 43 {
        (4296u16, "vrml-multi-use"@)
    } else if i == 44 {
        (4295u16, "vrml-multi-use"@)
    } else if i == 45 {
        (4293u16, "vrml-multi-use"@)
    } else if i == 46 {
        (4292u16, "vrml-multi-use"@)
    } else if i == 47 {
        (4291u16, "vrml-multi-use"@)
    } else if i == 48 {
        (4290u16, "vrml-multi-use"@)
    } else {
        (4289u16, "vrml-multi-use"@)
    }
}

closed spec fn chunk_entry_89(i: int) -> (u16, Seq<char>) {
    if i == 0 {
        (4288u16, "vrml-multi-use"@)
    } else if i == 1 {
        (4287u16, "vrml-multi-use"@)
    } else if i == 2 {
        (4286u16, "vrml-multi-use"@)
    } else if i == 3 {
        (4285u16, "vrml-multi-use"@)
    } else if i == 4 {
        (4284u16, "vrml-multi-use"@)
    } else if i == 5 {
        (4283u16, "vrml-multi-use"@)
    } else if i == 6 {
        (4282u16, "vrml-multi-use"@)
    } else if i == 7 {
        (4281u16, "vrml-multi-use"@)
    } else if i == 8 {
        (4280u16, "vrml-multi-use"@)
    } else if i == 9 {
        (4278u16, "vrml-multi-use"@)
    } else if i == 10 {
        (4277u16, "vrml-multi-use"@)
    } else if i == 11 {
        (4276u16, "vrml-multi-use"@)
    } else if i == 12 {
        (4275u16, "vrml-multi-use"@)
    } else if i == 13 {
        (4274u16, "vrml-multi-use"@)
    } else if i == 14 {
        (4273u16, "vrml-multi-use"@)
    } else if i == 15 {
        (4272u16, "vrml-multi-use"@)
    } else if i == 16 {
        (4271u16, "vrml-multi-use"@)
    } else if i == 17 {
        (4270u16, "vrml-multi-use"@)
    } else if i == 18 {
        (4269u16, "vrml-multi-use"@)
    } else if i == 19 {
        (4268u16, "vrml-multi-use"@)
    } else if i == 20 {
        (4267u16, "vrml-multi-use"@)
    } else if i == 21 {
        (4266u16, "vrml-multi-use"@)
    } else if i == 22 {
        (4265u16, "vrml-multi-use"@)
    } else if i == 23 {
        (4264u16, "vrml-multi-use"@)
    } else if i == 24 {
        (4263u16, "vrml-multi-use"@)
    } else if i == 25 {
        (4261u16, "vrml-multi-use"@)
    } else if i == 26 {
        (4260u16, "vrml-multi-use"@)
    } else if i == 27 {
        (4259u16, "vrml-multi-use"@)
    } else if i == 28 {
        (4258u16, "vrml-multi-use"@)
    } else if i == 29 {
        (4257u16, "vrml-multi-use"@)
    } else if i == 30 {
        (4256u16, "vrml-multi-use"@)
    } else if i == 31 {
        (4255u16, "vrml-multi-use"@)
    } else if i == 32 {
        (4254u16, "vrml-multi-use"@)
    } else if i == 33 {
        (4253u16, "vrml-multi-use"@)
    } else if i == 34 {
        (4251u16, "vrml-multi-use"@)
    } else if i == 35 {
        (4250u16, "vrml-multi-use"@)
    } else if i == 36 {
        (4249u16, "vrml-multi-use"@)
    } else if i == 37 {
        (4248u16, "vrml-multi-use"@)
    } else if i == 38 {
        (4247u16, "vrml-multi-use"@)
    } else if i == 39 {
        (4246u16, "vrml-multi-use"@)
    } else if i == 40 {
        (4245u16, "vrml-multi-use"@)
    } else if i == 41 {
        (4244u16, "vrml-multi-use"@)
    } else if i == 42 {
        (4241u16, "vrml-multi-use"@)
    } else if i == 43 {
        (4240u16, "vrml-multi-use"@)
    } else if i == 44 {
        (4239u16, "vrml-multi-use"@)
    } else if i == 45 {
        (4238u16, "vrml-multi-use"@)
    } else if i == 46 {
        (4237u16, "vrml-multi-use"@)
    } else if i == 47 {
        (4236u16, "vrml-multi-use"@)
    } else if i == 48 {
        (4235u16, "vrml-multi-use"@)
    } else {
        (4233u16, "vrml-multi-use"@)
    }
}

closed spec fn chunk_entry_90(i: int) -> (u16, Seq<char>) {
    if i == 0 {
        (4232u16, "vrml-multi-use"@)
    } else if i == 1 {
        (4231u16, "vrml-multi-use"@)
    } else if i == 2 {
        (4230u16, "vrml-multi-use"@)
    } else if i == 3 {
        (4229u16, "vrml-multi-use"@)
    } else if i == 4 {
        (4228u16, "vrml-multi-use"@)
    } else if i == 5 {
        (4227u16, "vrml-multi-use"@)
    } else if i == 6 {
        (4226u16, "vrml-multi-use"@)
    } else if i == 7 {
        (4225u16, "vrml-multi-use"@)
    } else if i == 8 {
        (4223u16, "vrml-multi-use"@)
    } else if i == 9 {
        (4222u16, "vrml-multi-use"@)
    } else if i == 10 {
        (4221u16, "vrml-multi-use"@)
    } else if i == 11 {
        (4219u16, "vrml-multi-use"@)
    } else if i == 12 {
        (4218u16, "vrml-multi-use"@)
    } else if i == 13 {
        (4217u16, "vrml-multi-use"@)
    } else if i == 14 {
        (4216u16, "vrml-multi-use"@)
    } else if i == 15 {
        (4215u16, "vrml-multi-use"@)
    } else if i == 16 {
        (4214u16, "vrml-multi-use"@)
    } else if i == 17 {
        (4213u16, "vrml-multi-use"@)
    } else if i == 18 {
        (4212u16, "vrml-multi-use"@)
    } else if i == 19 {
        (4211u16, "vrml-multi-use"@)
    } else if i == 20 {
        (4210u16, "vrml-multi-use"@)
    } else if i == 21 {
        (4209u16, "vrml-multi-use"@)
    } else if i == 22 {
        (4208u16, "vrml-multi-use"@)
    } else if i == 23 {
        (4207u16, "vrml-multi-use"@)
    } else if i == 24 {
        (4205u16, "vrml-multi-use"@)
    } else if i == 25 {
        (4204u16, "vrml-multi-use"@)
    } else if i == 26 {
        (4203u16, "vrml-multi-use"@)
    } else if i == 27 {
        (4202u16, "vrml-multi-use"@)
    } else if i == 28 {
        (4201u16, "vrml-multi-use"@)
    } else if i == 29 {
        (3883u16, "vrpn"@)
    } else if i == 30 {
        (2530u16, "vrcommerce"@)
    } else if i == 31 {
        (5164u16, "vpa"@)
    } else if i == 32 {
        (28200u16, "voxelstorm"@)
    } else if i == 33 {
        (3845u16, "v-one-spp"@)
    } else if i == 34 {
        (3541u16, "voispeed-port"@)
    } else if i == 35 {
        (4052u16, "interact"@)
    } else if i == 36 {
        (21590u16, "vofr-gateway"@)
    } else if i == 37 {
        (1796u16, "vocaltec-admin"@)
    } else if i == 38 {
        (25793u16, "vocaltec-hos"@)
    } else if i == 39 {
        (8699u16, "vnyx"@)
    } else if i == 40 {
        (8182u16, "vmware-fdm"@)
    } else if i == 41 {
        (2474u16, "vitalanalysis"@)
    } else if i == 42 {
        (4991u16, "vrt"@)
    } else if i == 43 {
        (3676u16, "va-pacbase"@)
    } else if i == 44 {
        (5780u16, "vts-rpc"@)
    } else if i == 45 {
        (24249u16, "vista-4gl"@)
    } else if i == 46 {
        (1631u16, "visitview"@)
    } else if i == 47 {
        (6672u16, "vision_server"@)
    } else if i == 48 {
        (6673u16, "vision_elmd"@)
    } else {
        (3601u16, "visinet-gui"@)
    }
}

closed spec fn chunk_entry_91(i: int) -> (u16, Seq<char>) {
    if i == 0 {
        (5046u16, "vpm-udp"@)
    } else if i == 1 {
        (7802u16, "vns-tp"@)
    } else if i == 2 {
        (3509u16, "vt-ssl"@)
    } else if i == 3 {
        (1852u16, "virtual-time"@)
    } else if i == 4 {
        (2386u16, "virtualtape"@)
    } else if i == 5 {
        (8473u16, "vp2p"@)
    } else if i == 6 {
        (4789u16, "vxlan"@)
    } else if i == 7 {
        (3555u16, "razor"@)
    } else if i == 8 {
        (12013u16, "vipera-ssl"@)
    } else if i == 9 {
        (12012u16, "vipera"@)
    } else if i == 10 {
        (3752u16, "vipremoteagent"@)
    } else if i == 11 {
        (3245u16, "vieo-fe"@)
    } else if i == 12 {
        (3231u16, "vidigo"@)
    } else if i == 13 {
        (16666u16, "vtp"@)
    } else if i == 14 {
        (6678u16, "vfbp"@)
    } else if i == 15 {
        (17184u16, "vestasdlp"@)
    } else if i == 16 {
        (9086u16, "net2display"@)
    } else if i == 17 {
        (9598u16, "vscp"@)
    } else if i == 18 {
        (3073u16, "vcrp"@)
    } else if i == 19 {
        (2074u16, "vrtl-vmf-sa"@)
    } else if i == 20 {
        (1956u16, "vrtl-vmf-ds"@)
    } else if i == 21 {
        (2610u16, "versa-tek"@)
    } else if i == 22 {
        (3738u16, "versatalk"@)
    } else if i == 23 {
        (2802u16, "veritas-tcp1"@)
    } else if i == 24 {
        (13786u16, "nomdb"@)
    } else if i == 25 {
        (2994u16, "veritas-vis2"@)
    } else if i == 26 {
        (2993u16, "veritas-vis1"@)
    } else if i == 27 {
        (1885u16, "vrtstrapserver"@)
    } else if i == 28 {
        (14149u16, "vrts-tdd"@)
    } else if i == 29 {
        (10100u16, "itap-ddtp"@)
    } else if i == 30 {
        (9284u16, "visd"@)
    } else if i == 31 {
        (14150u16, "vcscmd"@)
    } else if i == 32 {
        (10107u16, "bctp-server"@)
    } else if i == 33 {
        (4032u16, "vrts-auth-port"@)
    } else if i == 34 {
        (2821u16, "vrts-at-port"@)
    } else if i == 35 {
        (3207u16, "vx-auth-port"@)
    } else if i == 36 {
        (14154u16, "vad"@)
    } else if i == 37 {
        (24323u16, "vrmg-ip"@)
    } else if i == 38 {
        (2771u16, "vergencecm"@)
    } else if i == 39 {
        (5646u16, "vfmobile"@)
    } else if i == 40 {
        (2426u16, "vcmp"@)
    } else if i == 41 {
        (18668u16, "vdmmesh"@)
    } else if i == 42 {
        (2554u16, "vcnet-link-v10"@)
    } else if i == 43 {
        (4188u16, "vatata"@)
    } else if i == 44 {
        (3654u16, "vaprtm"@)
    } else if i == 45 {
        (5675u16, "v5ua"@)
    } else if i == 46 {
        (15118u16, "v2g-secc"@)
    } else if i == 47 {
        (4031u16, "suucp"@)
    } else if i == 48 {
        (2529u16, "utsftp"@)
    } else {
        (19194u16, "ua-secureagent"@)
    }
}

closed spec fn chunk_entry_92(i: int) -> (u16, Seq<char>) {
    if i == 0 {
        (2248u16, "ums"@)
    } else if i == 1 {
        (1142u16, "edtools"@)
    } else if i == 2 {
        (433u16, "nnsp"@)
    } else if i == 3 {
        (3534u16, "urld-port"@)
    } else if i == 4 {
        (3664u16, "ups-engine"@)
    } else if i == 5 {
        (2537u16, "upgrade"@)
    } else if i == 6 {
        (519u16, "utime"@)
    } else if i == 7 {
        (2655u16, "unglue"@)
    } else if i == 8 {
        (4184u16, "universe_suite"@)
    } else if i == 9 {
        (1506u16, "utcd"@)
    } else if i == 10 {
        (3098u16, "umm-port"@)
    } else if i == 11 {
        (7887u16, "ubroker"@)
    } else if i == 12 {
        (37654u16, "unisys-eportal"@)
    } else if i == 13 {
        (1979u16, "unisql-java"@)
    } else if i == 14 {
        (9629u16, "uniport"@)
    } else if i == 15 {
        (2357u16, "unihub-server"@)
    } else if i == 16 {
        (1889u16, "unify-adapter"@)
    } else if i == 17 {
        (3314u16, "uohost"@)
    } else if i == 18 {
        (3313u16, "uorb"@)
    } else if i == 19 {
        (4867u16, "unify-debug"@)
    } else if i == 20 {
        (2696u16, "unifyadmin"@)
    } else if i == 21 {
        (3217u16, "unite"@)
    } else if i == 22 {
        (6306u16, "ufmp"@)
    } else if i == 23 {
        (1189u16, "unet"@)
    } else if i == 24 {
        (5281u16, "undo-lm"@)
    } else if i == 25 {
        (8953u16, "ub-dns-control"@)
    } else if i == 26 {
        (1910u16, "ultrabac"@)
    } else if i == 27 {
        (13894u16, "ucontrol"@)
    } else if i == 28 {
        (372u16, "ulistserv"@)
    } else if i == 29 {
        (3720u16, "ufastro-instr"@)
    } else if i == 30 {
        (1382u16, "udt_os"@)
    } else if i == 31 {
        (2542u16, "udrawgraph"@)
    } else if i == 32 {
        (3584u16, "u-dbap"@)
    } else if i == 33 {
        (4034u16, "ubxd"@)
    } else if i == 34 {
        (145u16, "uaac"@)
    } else if i == 35 {
        (27999u16, "tw-auth-key"@)
    } else if i == 36 {
        (21800u16, "tvpm"@)
    } else if i == 37 {
        (2670u16, "tve-announce"@)
    } else if i == 38 {
        (3492u16, "tvdumtray-port"@)
    } else if i == 39 {
        (3791u16, "tvnetworkvideo"@)
    } else if i == 40 {
        (24678u16, "proactivate"@)
    } else if i == 41 {
        (34249u16, "turbonote-2"@)
    } else if i == 42 {
        (39681u16, "turbonote-1"@)
    } else if i == 43 {
        (1846u16, "tunstall-pnc"@)
    } else if i == 44 {
        (5197u16, "tunstall-lwp"@)
    } else if i == 45 {
        (5462u16, "ttl-publisher"@)
    } else if i == 46 {
        (5463u16, "ttlpriceproxy"@)
    } else if i == 47 {
        (2862u16, "ttg-protocol"@)
    } else if i == 48 {
        (2977u16, "ttc-etap-ns"@)
    } else {
        (2978u16, "ttc-etap-ds"@)
    }
}

closed spec fn chunk_entry_93(i: int) -> (u16, Seq<char>) {
    if i == 0 {
        (3468u16, "ttcmremotectrl"@)
    } else if i == 1 {
        (2675u16, "ttc-etap"@)
    } else if i == 2 {
        (3474u16, "ttntspauto"@)
    } else if i == 3 {
        (4422u16, "tsepisp"@)
    } else if i == 4 {
        (12753u16, "tsaf"@)
    } else if i == 5 {
        (13709u16, "netbackup"@)
    } else if i == 6 {
        (3012u16, "twsdss"@)
    } else if i == 7 {
        (2573u16, "trustestablish"@)
    } else if i == 8 {
        (4307u16, "visicron-vs"@)
    } else if i == 9 {
        (4725u16, "truckstar"@)
    } else if i == 10 {
        (3346u16, "trnsprntproxy"@)
    } else if i == 11 {
        (3686u16, "tnmpv2"@)
    } else if i == 12 {
        (4070u16, "tripe"@)
    } else if i == 13 {
        (9555u16, "trispen-sra"@)
    } else if i == 14 {
        (4711u16, "trinity-dist"@)
    } else if i == 15 {
        (4323u16, "trim-ice"@)
    } else if i == 16 {
        (4322u16, "trim-event"@)
    } else if i == 17 {
        (10200u16, "trisoap"@)
    } else if i == 18 {
        (7727u16, "trident-data"@)
    } else if i == 19 {
        (3608u16, "trendchip-dcp"@)
    } else if i == 20 {
        (3959u16, "treehopper"@)
    } else if i == 21 {
        (2405u16, "trc-netpoll"@)
    } else if i == 22 {
        (3858u16, "trap-port-mom"@)
    } else if i == 23 {
        (3857u16, "trap-port"@)
    } else if i == 24 {
        (24322u16, "hid"@)
    } else if i == 25 {
        (6118u16, "tipc"@)
    } else if i == 26 {
        (4176u16, "tl-ipcproxy"@)
    } else if i == 27 {
        (6442u16, "tarp"@)
    } else if i == 28 {
        (8937u16, "twds"@)
    } else if i == 29 {
        (17224u16, "trdp-pd"@)
    } else if i == 30 {
        (17225u16, "trdp-md"@)
    } else if i == 31 {
        (7234u16, "asa-gateways"@)
    } else if i == 32 {
        (33434u16, "traceroute"@)
    } else if i == 33 {
        (1906u16, "tpmd"@)
    } else if i == 34 {
        (22351u16, "codemeter-cmwan"@)
    } else if i == 35 {
        (2158u16, "touchnetplus"@)
    } else if i == 36 {
        (5153u16, "toruxserver"@)
    } else if i == 37 {
        (3885u16, "topflow-ssl"@)
    } else if i == 38 {
        (24465u16, "tonidods"@)
    } else if i == 39 {
        (3040u16, "tomato-springs"@)
    } else if i == 40 {
        (20167u16, "tolfab"@)
    } else if i == 41 {
        (8066u16, "toad-bi-appsrvr"@)
    } else if i == 42 {
        (474u16, "tn-tl-w1"@)
    } else if i == 43 {
        (3308u16, "tns-server"@)
    } else if i == 44 {
        (590u16, "tns-cml"@)
    } else if i == 45 {
        (3309u16, "tns-adv"@)
    } else if i == 46 {
        (7902u16, "tnos-dp"@)
    } else if i == 47 {
        (7901u16, "tnos-sp"@)
    } else if i == 48 {
        (7903u16, "tnos-dps"@)
    } else {
        (2739u16, "tn-timing"@)
    }
}

closed spec fn chunk_entry_94(i: int) -> (u16, Seq<char>) {
    if i == 0 {
        (20046u16, "tmophl7mts"@)
    } else if i == 1 {
        (5582u16, "fac-restore"@)
    } else if i == 2 {
        (5583u16, "tmo-icon-sync"@)
    } else if i == 3 {
        (7872u16, "mipv6tls"@)
    } else if i == 4 {
        (13716u16, "netbackup"@)
    } else if i == 5 {
        (13717u16, "netbackup"@)
    } else if i == 6 {
        (13705u16, "netbackup"@)
    } else if i == 7 {
        (6252u16, "tl1-ssh"@)
    } else if i == 8 {
        (2915u16, "tksocket"@)
    } else if i == 9 {
        (1965u16, "tivoli-npm"@)
    } else if i == 10 {
        (3459u16, "integral"@)
    } else if i == 11 {
        (3160u16, "tip-app-server"@)
    } else if i == 12 {
        (3754u16, "timestenbroker"@)
    } else if i == 13 {
        (3243u16, "timelot"@)
    } else if i == 14 {
        (10261u16, "tile-ml"@)
    } else if i == 15 {
        (7932u16, "t2-drm"@)
    } else if i == 16 {
        (7933u16, "t2-brm"@)
    } else if i == 17 {
        (5450u16, "tiepie"@)
    } else if i == 18 {
        (11971u16, "tibsd"@)
    } else if i == 19 {
        (379u16, "is99c"@)
    } else if i == 20 {
        (7548u16, "tidp"@)
    } else if i == 21 {
        (1832u16, "tht-treasure"@)
    } else if i == 22 {
        (3805u16, "tcpdataserver"@)
    } else if i == 23 {
        (16789u16, "cadsisvr"@)
    } else if i == 24 {
        (4423u16, "thingkit"@)
    } else if i == 25 {
        (8320u16, "tnp-discover"@)
    } else if i == 26 {
        (8321u16, "tnp"@)
    } else if i == 27 {
        (2296u16, "theta-lm"@)
    } else if i == 28 {
        (7359u16, "swx"@)
    } else if i == 29 {
        (7358u16, "swx"@)
    } else if i == 30 {
        (7357u16, "swx"@)
    } else if i == 31 {
        (7356u16, "swx"@)
    } else if i == 32 {
        (7355u16, "swx"@)
    } else if i == 33 {
        (7354u16, "swx"@)
    } else if i == 34 {
        (7353u16, "swx"@)
    } else if i == 35 {
        (7352u16, "swx"@)
    } else if i == 36 {
        (7351u16, "swx"@)
    } else if i == 37 {
        (7350u16, "swx"@)
    } else if i == 38 {
        (7349u16, "swx"@)
    } else if i == 39 {
        (7348u16, "swx"@)
    } else if i == 40 {
        (7347u16, "swx"@)
    } else if i == 41 {
        (7346u16, "swx"@)
    } else if i == 42 {
        (7344u16, "swx"@)
    } else if i == 43 {
        (7343u16, "swx"@)
    } else if i == 44 {
        (7342u16, "swx"@)
    } else if i == 45 {
        (7341u16, "swx"@)
    } else if i == 46 {
        (7340u16, "swx"@)
    } else if i == 47 {
        (7339u16, "swx"@)
    } else if i == 48 {
        (7338u16, "swx"@)
    } else {
        (7337u16, "swx"@)
    }
}

closed spec fn chunk_entry_95(i: int) -> (u16, Seq<char>) {
    if i == 0 {
        (7336u16, "swx"@)
    } else if i == 1 {
        (7335u16, "swx"@)
    } else if i == 2 {
        (7334u16, "swx"@)
    } else if i == 3 {
        (7333u16, "swx"@)
    } else if i == 4 {
        (7332u16, "swx"@)
    } else if i == 5 {
        (7331u16, "swx"@)
    } else if i == 6 {
        (7330u16, "swx"@)
    } else if i == 7 {
        (7329u16, "swx"@)
    } else if i == 8 {
        (7328u16, "swx"@)
    } else if i == 9 {
        (7327u16, "swx"@)
    } else if i == 10 {
        (7324u16, "swx"@)
    } else if i == 11 {
        (7323u16, "swx"@)
    } else if i == 12 {
        (7322u16, "swx"@)
    } else if i == 13 {
        (7321u16, "swx"@)
    } else if i == 14 {
        (7319u16, "swx"@)
    } else if i == 15 {
        (7318u16, "swx"@)
    } else if i == 16 {
        (7317u16, "swx"@)
    } else if i == 17 {
        (7316u16, "swx"@)
    } else if i == 18 {
        (7315u16, "swx"@)
    } else if i == 19 {
        (7314u16, "swx"@)
    } else if i == 20 {
        (7313u16, "swx"@)
    } else if i == 21 {
        (7312u16, "swx"@)
    } else if i == 22 {
        (7311u16, "swx"@)
    } else if i == 23 {
        (7310u16, "swx"@)
    } else if i == 24 {
        (7309u16, "swx"@)
    } else if i == 25 {
        (7308u16, "swx"@)
    } else if i == 26 {
        (7307u16, "swx"@)
    } else if i == 27 {
        (7306u16, "swx"@)
    } else if i == 28 {
        (7305u16, "swx"@)
    } else if i == 29 {
        (7304u16, "swx"@)
    } else if i == 30 {
        (7303u16, "swx"@)
    } else if i == 31 {
        (7302u16, "swx"@)
    } else if i == 32 {
        (7301u16, "swx"@)
    } else if i == 33 {
        (8140u16, "puppet"@)
    } else if i == 34 {
        (5196u16, "ampl-tableproxy"@)
    } else if i == 35 {
        (5195u16, "ampl-lic"@)
    } else if i == 36 {
        (6130u16, "damewaremobgtwy"@)
    } else if i == 37 {
        (5474u16, "apsolab-rpc"@)
    } else if i == 38 {
        (5471u16, "apsolab-cols"@)
    } else if i == 39 {
        (5472u16, "apsolab-tag"@)
    } else if i == 40 {
        (5470u16, "apsolab-col"@)
    } else if i == 41 {
        (4146u16, "tgcconnect"@)
    } else if i == 42 {
        (3713u16, "tftps"@)
    } else if i == 43 {
        (5048u16, "texai"@)
    } else if i == 44 {
        (31457u16, "tetrinet"@)
    } else if i == 45 {
        (7631u16, "tesla-sys-msg"@)
    } else if i == 46 {
        (3544u16, "teredo"@)
    } else if i == 47 {
        (41121u16, "tentacle"@)
    } else if i == 48 {
        (11600u16, "tempest-port"@)
    } else {
        (3696u16, "telnetcpcd"@)
    }
}

closed spec fn chunk_entry_96(i: int) -> (u16, Seq<char>) {
    if i == 0 {
        (3549u16, "tellumat-nms"@)
    } else if i == 1 {
        (1380u16, "telesis-licman"@)
    } else if i == 2 {
        (22951u16, "brf-gw"@)
    } else if i == 3 {
        (22800u16, "aws-brf"@)
    } else if i == 4 {
        (3521u16, "mc3ss"@)
    } else if i == 5 {
        (2060u16, "teleniumdaemon"@)
    } else if i == 6 {
        (6083u16, "miami-bcast"@)
    } else if i == 7 {
        (9668u16, "tec5-sdctp"@)
    } else if i == 8 {
        (3552u16, "taserver"@)
    } else if i == 9 {
        (1814u16, "tdp-suite"@)
    } else if i == 10 {
        (1977u16, "tcoaddressbook"@)
    } else if i == 11 {
        (2576u16, "tclprodebugger"@)
    } else if i == 12 {
        (2729u16, "tcim-control"@)
    } else if i == 13 {
        (24680u16, "tcc-http"@)
    } else if i == 14 {
        (13710u16, "netbackup"@)
    } else if i == 15 {
        (13712u16, "netbackup"@)
    } else if i == 16 {
        (25900u16, "tasp-net"@)
    } else if i == 17 {
        (2403u16, "taskmaster2000"@)
    } else if i == 18 {
        (2402u16, "taskmaster2000"@)
    } else if i == 19 {
        (2470u16, "taskman-port"@)
    } else if i == 20 {
        (5203u16, "targus-getdata3"@)
    } else if i == 21 {
        (3579u16, "ttat3lb"@)
    } else if i == 22 {
        (2306u16, "tappi-boxnet"@)
    } else if i == 23 {
        (1450u16, "dwf"@)
    } else if i == 24 {
        (7015u16, "talon-webserver"@)
    } else if i == 25 {
        (7012u16, "talon-engine"@)
    } else if i == 26 {
        (7011u16, "talon-disc"@)
    } else if i == 27 {
        (22763u16, "talikaserver"@)
    } else if i == 28 {
        (2493u16, "talarian-mqs"@)
    } else if i == 29 {
        (4019u16, "talarian-mcast5"@)
    } else if i == 30 {
        (4018u16, "talarian-mcast4"@)
    } else if i == 31 {
        (4017u16, "talarian-mcast3"@)
    } else if i == 32 {
        (4015u16, "talarian-mcast1"@)
    } else if i == 33 {
        (2156u16, "trp"@)
    } else if i == 34 {
        (2392u16, "tacticalauth"@)
    } else if i == 35 {
        (3175u16, "t1-e1-over-ip"@)
    } else if i == 36 {
        (32249u16, "t1distproc60"@)
    } else if i == 37 {
        (1627u16, "t128-gateway"@)
    } else if i == 38 {
        (10104u16, "swdtp"@)
    } else if i == 39 {
        (5406u16, "systemics-sox"@)
    } else if i == 40 {
        (2609u16, "system-monitor"@)
    } else if i == 41 {
        (4094u16, "sysrqd"@)
    } else if i == 42 {
        (3241u16, "sysorb"@)
    } else if i == 43 {
        (6514u16, "syslog-tls"@)
    } else if i == 44 {
        (6418u16, "syserverremote"@)
    } else if i == 45 {
        (3251u16, "sysscanner"@)
    } else if i == 46 {
        (3734u16, "synel-data"@)
    } else if i == 47 {
        (4953u16, "dbsyncarbiter"@)
    } else if i == 48 {
        (2679u16, "syncserverssl"@)
    } else {
        (5008u16, "synapsis-edge"@)
    }
}

closed spec fn chunk_entry_97(i: int) -> (u16, Seq<char>) {
    if i == 0 {
        (2880u16, "synapse"@)
    } else if i == 1 {
        (8243u16, "synapse-nhttps"@)
    } else if i == 2 {
        (8280u16, "synapse-nhttp"@)
    } else if i == 3 {
        (26133u16, "scscp"@)
    } else if i == 4 {
        (8555u16, "d-fence"@)
    } else if i == 5 {
        (5629u16, "symantec-sfdb"@)
    } else if i == 6 {
        (3547u16, "symantec-sim"@)
    } else if i == 7 {
        (5639u16, "ics"@)
    } else if i == 8 {
        (5638u16, "flcrs"@)
    } else if i == 9 {
        (5637u16, "cssc"@)
    } else if i == 10 {
        (5115u16, "autobuild"@)
    } else if i == 11 {
        (3723u16, "sychrond"@)
    } else if i == 12 {
        (4950u16, "sybasesrvmon"@)
    } else if i == 13 {
        (3895u16, "syam-smc"@)
    } else if i == 14 {
        (3894u16, "syam-agent"@)
    } else if i == 15 {
        (3491u16, "swr-port"@)
    } else if i == 16 {
        (3318u16, "ssrip"@)
    } else if i == 17 {
        (6419u16, "svdrp"@)
    } else if i == 18 {
        (3185u16, "smpppd"@)
    } else if i == 19 {
        (243u16, "sur-meas"@)
    } else if i == 20 {
        (3212u16, "surveyinst"@)
    } else if i == 21 {
        (9536u16, "laes-bf"@)
    } else if i == 22 {
        (1925u16, "discovery-port"@)
    } else if i == 23 {
        (11171u16, "snss"@)
    } else if i == 24 {
        (8404u16, "svcloud"@)
    } else if i == 25 {
        (8405u16, "svbackup"@)
    } else if i == 26 {
        (6483u16, "SunVTS-RMI"@)
    } else if i == 27 {
        (1860u16, "sunscalar-svc"@)
    } else if i == 28 {
        (1870u16, "sunscalar-dns"@)
    } else if i == 29 {
        (2084u16, "sunclustergeo"@)
    } else if i == 30 {
        (8989u16, "sunwebadmins"@)
    } else if i == 31 {
        (6787u16, "smc-admin"@)
    } else if i == 32 {
        (3867u16, "dzoglserver"@)
    } else if i == 33 {
        (3866u16, "dzdaemon"@)
    } else if i == 34 {
        (5306u16, "sun-mc-grp"@)
    } else if i == 35 {
        (3816u16, "sunlps-http"@)
    } else if i == 36 {
        (7588u16, "sun-lm"@)
    } else if i == 37 {
        (6786u16, "smc-jmx"@)
    } else if i == 38 {
        (11165u16, "suncacao-websvc"@)
    } else if i == 39 {
        (11161u16, "suncacao-snmp"@)
    } else if i == 40 {
        (11163u16, "suncacao-rmi"@)
    } else if i == 41 {
        (11162u16, "suncacao-jmxmp"@)
    } else if i == 42 {
        (11164u16, "suncacao-csa"@)
    } else if i == 43 {
        (3708u16, "sun-as-iiops"@)
    } else if i == 44 {
        (4850u16, "sun-as-nodeagt"@)
    } else if i == 45 {
        (7677u16, "sun-user-https"@)
    } else if i == 46 {
        (16959u16, "subseven"@)
    } else if i == 47 {
        (247u16, "subntbcst_tftp"@)
    } else if i == 48 {
        (5349u16, "stuns"@)
    } else {
        (3478u16, "stun"@)
    }
}

closed spec fn chunk_entry_98(i: int) -> (u16, Seq<char>) {
    if i == 0 {
        (3854u16, "stryker-com"@)
    } else if i == 1 {
        (5397u16, "stresstester"@)
    } else if i == 2 {
        (7411u16, "daqstream"@)
    } else if i == 3 {
        (9612u16, "streamcomm-ds"@)
    } else if i == 4 {
        (11173u16, "t5-straton"@)
    } else if i == 5 {
        (9293u16, "storview"@)
    } else if i == 6 {
        (5027u16, "strexec-s"@)
    } else if i == 7 {
        (5026u16, "strexec-d"@)
    } else if i == 8 {
        (5705u16, "storageos"@)
    } else if i == 9 {
        (8778u16, "uec"@)
    } else if i == 10 {
        (527u16, "stx"@)
    } else if i == 11 {
        (1312u16, "sti-envision"@)
    } else if i == 12 {
        (8808u16, "ssports-bcast"@)
    } else if i == 13 {
        (6144u16, "statsci1-lm"@)
    } else if i == 14 {
        (7471u16, "sttunnel"@)
    } else if i == 15 {
        (3249u16, "ssp"@)
    } else if i == 16 {
        (4157u16, "stat-scanner"@)
    } else if i == 17 {
        (4156u16, "stat-results"@)
    } else if i == 18 {
        (3615u16, "start-network"@)
    } else if i == 19 {
        (5777u16, "dali-port"@)
    } else if i == 20 {
        (2154u16, "stdptc"@)
    } else if i == 21 {
        (45966u16, "ssr-servermgr"@)
    } else if i == 22 {
        (17235u16, "ssh-mgmt"@)
    } else if i == 23 {
        (3018u16, "srvc_registry"@)
    } else if i == 24 {
        (38800u16, "sruth"@)
    } else if i == 25 {
        (2737u16, "srp-feedback"@)
    } else if i == 26 {
        (156u16, "sqlsrv"@)
    } else if i == 27 {
        (3807u16, "spugna"@)
    } else if i == 28 {
        (1759u16, "spss-lm"@)
    } else if i == 29 {
        (2876u16, "sps-tunnel"@)
    } else if i == 30 {
        (7981u16, "sossd-collect"@)
    } else if i == 31 {
        (3606u16, "splitlock"@)
    } else if i == 32 {
        (3647u16, "splitlock-gw"@)
    } else if i == 33 {
        (3438u16, "spiral-admin"@)
    } else if i == 34 {
        (4683u16, "spike"@)
    } else if i == 35 {
        (9306u16, "sphinxql"@)
    } else if i == 36 {
        (9312u16, "sphinxapi"@)
    } else if i == 37 {
        (7016u16, "spg"@)
    } else if i == 38 {
        (33334u16, "speedtrace"@)
    } else if i == 39 {
        (3413u16, "svnet"@)
    } else if i == 40 {
        (3835u16, "spectardb"@)
    } else if i == 41 {
        (3834u16, "spectardata"@)
    } else if i == 42 {
        (2440u16, "spearway"@)
    } else if i == 43 {
        (6121u16, "spdy"@)
    } else if i == 44 {
        (2568u16, "spamtrap"@)
    } else if i == 45 {
        (17185u16, "soundsvirtual"@)
    } else if i == 46 {
        (7982u16, "sossd-agent"@)
    } else if i == 47 {
        (2290u16, "sonus-logging"@)
    } else if i == 48 {
        (2569u16, "sonuscallsig"@)
    } else {
        (2863u16, "sonardata"@)
    }
}

closed spec fn chunk_entry_99(i: int) -> (u16, Seq<char>) {
    if i == 0 {
        (1964u16, "solid-e-engine"@)
    } else if i == 1 {
        (4738u16, "solera-lpn"@)
    } else if i == 2 {
        (2132u16, "solera-epmap"@)
    } else if i == 3 {
        (17777u16, "sw-orion"@)
    } else if i == 4 {
        (16162u16, "solaris-audit"@)
    } else if i == 5 {
        (6551u16, "sum"@)
    } else if i == 6 {
        (3230u16, "sftdst-port"@)
    } else if i == 7 {
        (4538u16, "swx-gate"@)
    } else if i == 8 {
        (3884u16, "softrack-meter"@)
    } else if i == 9 {
        (9282u16, "swtp-port2"@)
    } else if i == 10 {
        (9281u16, "swtp-port1"@)
    } else if i == 11 {
        (4882u16, "socp-c"@)
    } else if i == 12 {
        (5146u16, "social-alarm"@)
    } else if i == 13 {
        (580u16, "sntp-heartbeat"@)
    } else if i == 14 {
        (1967u16, "sns-quote"@)
    } else if i == 15 {
        (2659u16, "sns-query"@)
    } else if i == 16 {
        (2409u16, "sns-protocol"@)
    } else if i == 17 {
        (5416u16, "sns-gateway"@)
    } else if i == 18 {
        (2657u16, "sns-dispatcher"@)
    } else if i == 19 {
        (3380u16, "sns-channels"@)
    } else if i == 20 {
        (5417u16, "sns-agent"@)
    } else if i == 21 {
        (2658u16, "sns-admin"@)
    } else if i == 22 {
        (10162u16, "snmptls-trap"@)
    } else if i == 23 {
        (10161u16, "snmptls"@)
    } else if i == 24 {
        (5161u16, "snmpssh"@)
    } else if i == 25 {
        (5162u16, "snmpssh-trap"@)
    } else if i == 26 {
        (33656u16, "snip-slave"@)
    } else if i == 27 {
        (7560u16, "sncp"@)
    } else if i == 28 {
        (2599u16, "snapd"@)
    } else if i == 29 {
        (2704u16, "sms-remctrl"@)
    } else if i == 30 {
        (2703u16, "sms-chat"@)
    } else if i == 31 {
        (4170u16, "d-cinema-csp"@)
    } else if i == 32 {
        (7734u16, "smip"@)
    } else if i == 33 {
        (3158u16, "stvp"@)
    } else if i == 34 {
        (4426u16, "beacon-port-2"@)
    } else if i == 35 {
        (3516u16, "smartcard-port"@)
    } else if i == 36 {
        (4786u16, "smart-install"@)
    } else if i == 37 {
        (2721u16, "smart-diagnose"@)
    } else if i == 38 {
        (1608u16, "smart-lm"@)
    } else if i == 39 {
        (4988u16, "smar-se-port2"@)
    } else if i == 40 {
        (9522u16, "sma-spw"@)
    } else if i == 41 {
        (4408u16, "slscc"@)
    } else if i == 42 {
        (1847u16, "slp-notify"@)
    } else if i == 43 {
        (36423u16, "slmap"@)
    } else if i == 44 {
        (2826u16, "slc-systemlog"@)
    } else if i == 45 {
        (2827u16, "slc-ctrlrloops"@)
    } else if i == 46 {
        (8111u16, "skynetflow"@)
    } else if i == 47 {
        (3556u16, "sky-transport"@)
    } else if i == 48 {
        (6456u16, "skip-cert-send"@)
    } else {
        (6455u16, "skip-cert-recv"@)
    }
}

fn chunk_0() -> (t: Vec<Port>)
    ensures
        t@.len() == 50,
        forall|i: int| 0 <= i < t@.len() ==> entry_matches(#[trigger] t@[i], chunk_entry_0(i)),
        forall|i: int| 0 <= i < t@.len() ==> table_entry_ok(#[trigger] t@[i]),
{
    let mut t: Vec<Port> = Vec::new();
    t.push(Port { service: "http".to_string(), number: 80, is_open: None });
    t.push(Port { service: "telnet".to_string(), number: 23, is_open: None });
    t.push(Port { service: "https".to_string(), number: 443, is_open: None });
    t.push(Port { service: "ftp".to_string(), number: 21, is_open: None });
    t.push(Port { service: "ssh".to_string(), number: 22, is_open: None });
    t.push(Port { service: "smtp".to_string(), number: 25, is_open: None });
    t.push(Port { service: "ms-wbt-server".to_string(), number: 3389, is_open: None });
    t.push(Port { service: "pop3".to_string(), number: 110, is_open: None });
    t.push(Port { service: "microsoft-ds".to_string(), number: 445, is_open: None });
    t.push(Port { service: "netbios-ssn".to_string(), number: 139, is_open: None });
    t.push(Port { service: "imap".to_string(), number: 143, is_open: None });
    t.push(Port { service: "domain".to_string(), number: 53, is_open: None });
    t.push(Port { service: "msrpc".to_string(), number: 135, is_open: None });
    t.push(Port { service: "mysql".to_string(), number: 3306, is_open: None });
    t.push(Port { service: "http-proxy".to_string(), number: 8080, is_open: None });
    t.push(Port { service: "pptp".to_string(), number: 1723, is_open: None });
    t.push(Port { service: "rpcbind".to_string(), number: 111, is_open: None });
    t.push(Port { service: "pop3s".to_string(), number: 995, is_open: None });
    t.push(Port { service: "imaps".to_string(), number: 993, is_open: None });
    t.push(Port { service: "vnc".to_string(), number: 5900, is_open: None });
    t.push(Port { service: "NFS-or-IIS".to_string(), number: 1025, is_open: None });
    t.push(Port { service: "submission".to_string(), number: 587, is_open: None });
    t.push(Port { service: "sun-answerbook".to_string(), number: 8888, is_open: None });
    t.push(Port { service: "smux".to_string(), number: 199, is_open: None });
    t.push(Port { service: "h323q931".to_string(), number: 1720, is_open: None });
    t.push(Port { service: "smtps".to_string(), number: 465, is_open: None });
    t.push(Port { service: "afp".to_string(), number: 548, is_open: None });
    t.push(Port { service: "ident".to_string(), number: 113, is_open: None });
    t.push(Port { service: "hosts2-ns".to_string(), number: 81, is_open: None });
    t.push(Port { service: "X11:1".to_string(), number: 6001, is_open: None });
    t.push(Port { service: "snet-sensor-mgmt".to_string(), number: 10000, is_open: None });
    t.push(Port { service: "shell".to_string(), number: 514, is_open: None });
    t.push(Port { service: "sip".to_string(), number: 5060, is_open: None });
    t.push(Port { service: "bgp".to_string(), number: 179, is_open: None });
    t.push(Port { service: "LSA-or-nterm".to_string(), number: 1026, is_open: None });
    t.push(Port { service: "cisco-sccp".to_string(), number: 2000, is_open: None });
    t.push(Port { service: "https-alt".to_string(), number: 8443, is_open: None });
    t.push(Port { service: "http-alt".to_string(), number: 8000, is_open: None });
    t.push(Port { service: "filenet-tms".to_string(), number: 32768, is_open: None });
    t.push(Port { service: "rtsp".to_string(), number: 554, is_open: None });
    t.push(Port { service: "rsftp".to_string(), number: 26, is_open: None });
    t.push(Port { service: "ms-sql-s".to_string(), number: 1433, is_open: None });
    t.push(Port { service: "unknown".to_string(), number: 49152, is_open: None });
    t.push(Port { service: "dc".to_string(), number: 2001, is_open: None });
    t.push(Port { service: "printer".to_string(), number: 515, is_open: None });
    t.push(Port { service: "http".to_string(), number: 8008, is_open: None });
    t.push(Port { service: "unknown".to_string(), number: 49154, is_open: None });
    t.push(Port { service: "IIS".to_string(), number: 1027, is_open: None });
    t.push(Port { service: "nrpe".to_string(), number: 5666, is_open: None });
    t.push(Port { service: "ldp".to_string(), number: 646, is_open: None });
    t
}

fn chunk_1() -> (t: Vec<Port>)
    ensures
        t@.len() == 50,
        forall|i: int| 0 <= i < t@.len() ==> entry_matches(#[trigger] t@[i], chunk_entry_1(i)),
        forall|i: int| 0 <= i < t@.len() ==> table_entry_ok(#[trigger] t@[i]),
{
    let mut t: Vec<Port> = Vec::new();
    t.push(Port { service: "upnp".to_string(), number: 5000, is_open: None });
    t.push(Port { service: "pcanywheredata".to_string(), number: 5631, is_open: None });
    t.push(Port { service: "ipp".to_string(), number: 631, is_open: None });
    t.push(Port { service: "unknown".to_string(), number: 49153, is_open: None });
    t.push(Port { service: "blackice-icecap".to_string(), number: 8081, is_open: None });
    t.push(Port { service: "nfs".to_string(), number: 2049, is_open: None });
    t.push(Port { service: "kerberos-sec".to_string(), number: 88, is_open: None });
    t.push(Port { service: "finger".to_string(), number: 79, is_open: None });
    t.push(Port { service: "vnc-http".to_string(), number: 5800, is_open: None });
    t.push(Port { service: "pop3pw".to_string(), number: 106, is_open: None });
    t.push(Port { service: "ccproxy-ftp".to_string(), number: 2121, is_open: None });
    t.push(Port { service: "nfsd-status".to_string(), number: 1110, is_open: None });
    t.push(Port { service: "unknown".to_string(), number: 49155, is_open: None });
    t.push(Port { service: "X11".to_string(), number: 6000, is_open: None });
    t.push(Port { service: "login".to_string(), number: 513, is_open: None });
    t.push(Port { service: "ftps".to_string(), number: 990, is_open: None });
    t.push(Port { service: "wsdapi".to_string(), number: 5357, is_open: None });
    t.push(Port { service: "svrloc".to_string(), number: 427, is_open: None });
    t.push(Port { service: "unknown".to_string(), number: 49156, is_open: None });
    t.push(Port { service: "klogin".to_string(), number: 543, is_open: None });
    t.push(Port { service: "kshell".to_string(), number: 544, is_open: None });
    t.push(Port { service: "admdog".to_string(), number: 5101, is_open: None });
    t.push(Port { service: "news".to_string(), number: 144, is_open: None });
    t.push(Port { service: "echo".to_string(), number: 7, is_open: None });
    t.push(Port { service: "ldap".to_string(), number: 389, is_open: None });
    t.push(Port { service: "ajp13".to_string(), number: 8009, is_open: None });
    t.push(Port { service: "squid-http".to_string(), number: 3128, is_open: None });
    t.push(Port { service: "snpp".to_string(), number: 444, is_open: None });
    t.push(Port { service: "abyss".to_string(), number: 9999, is_open: None });
    t.push(Port { service: "airport-admin".to_string(), number: 5009, is_open: None });
    t.push(Port { service: "realserver".to_string(), number: 7070, is_open: None });
    t.push(Port { service: "aol".to_string(), number: 5190, is_open: None });
    t.push(Port { service: "ppp".to_string(), number: 3000, is_open: None });
    t.push(Port { service: "postgresql".to_string(), number: 5432, is_open: None });
    t.push(Port { service: "upnp".to_string(), number: 1900, is_open: None });
    t.push(Port { service: "mapper-ws_ethd".to_string(), number: 3986, is_open: None });
    t.push(Port { service: "daytime".to_string(), number: 13, is_open: None });
    t.push(Port { service: "ms-lsa".to_string(), number: 1029, is_open: None });
    t.push(Port { service: "discard".to_string(), number: 9, is_open: None });
    t.push(Port { service: "ida-agent".to_string(), number: 5051, is_open: None });
    t.push(Port { service: "unknown".to_string(), number: 6646, is_open: None });
    t.push(Port { service: "unknown".to_string(), number: 49157, is_open: None });
    t.push(Port { service: "unknown".to_string(), number: 1028, is_open: None });
    t.push(Port { service: "rsync".to_string(), number: 873, is_open: None });
    t.push(Port { service: "wms".to_string(), number: 1755, is_open: None });
    t.push(Port { service: "pn-requester".to_string(), number: 2717, is_open: None });
    t.push(Port { service: "radmin".to_string(), number: 4899, is_open: None });
    t.push(Port { service: "jetdirect".to_string(), number: 9100, is_open: None });
    t.push(Port { service: "nntp".to_string(), number: 119, is_open: None });
    t.push(Port { service: "time".to_string(), number: 37, is_open: None });
    t
}

fn chunk_2() -> (t: Vec<Port>)
    ensures
        t@.len() == 50,
        forall|i: int| 0 <= i < t@.len() ==> entry_matches(#[trigger] t@[i], chunk_entry_2(i)),
        forall|i: int| 0 <= i < t@.len() ==> table_entry_ok(#[trigger] t@[i]),
{
    let mut t: Vec<Port> = Vec::new();
    t.push(Port { service: "cadlock".to_string(), number: 1000, is_open: None });
    t.push(Port { service: "nessus".to_string(), number: 3001, is_open: None });
    t.push(Port { service: "commplex-link".to_string(), number: 5001, is_open: None });
    t.push(Port { service: "xfer".to_string(), number: 82, is_open: None });
    t.push(Port { service: "rxapi".to_string(), number: 10010, is_open: None });
    t.push(Port { service: "iad1".to_string(), number: 1030, is_open: None });
    t.push(Port { service: "zeus-admin".to_string(), number: 9090, is_open: None });
    t.push(Port { service: "msmq-mgmt".to_string(), number: 2107, is_open: None });
    t.push(Port { service: "kdm".to_string(), number: 1024, is_open: None });
    t.push(Port { service: "zephyr-clt".to_string(), number: 2103, is_open: None });
    t.push(Port { service: "X11:4".to_string(), number: 6004, is_open: None });
    t.push(Port { service: "msmq".to_string(), number: 1801, is_open: None });
    t.push(Port { service: "mmcc".to_string(), number: 5050, is_open: None });
    t.push(Port { service: "chargen".to_string(), number: 19, is_open: None });
    t.push(Port { service: "unknown".to_string(), number: 8031, is_open: None });
    t.push(Port { service: "danf-ak2".to_string(), number: 1041, is_open: None });
    t.push(Port { service: "unknown".to_string(), number: 255, is_open: None });
    t.push(Port { service: "td-postman".to_string(), number: 1049, is_open: None });
    t.push(Port { service: "neod2".to_string(), number: 1048, is_open: None });
    t.push(Port { service: "symantec-av".to_string(), number: 2967, is_open: None });
    t.push(Port { service: "remote-as".to_string(), number: 1053, is_open: None });
    t.push(Port { service: "adobeserver-3".to_string(), number: 3703, is_open: None });
    t.push(Port { service: "vfo".to_string(), number: 1056, is_open: None });
    t.push(Port { service: "syscomlan".to_string(), number: 1065, is_open: None });
    t.push(Port { service: "jstel".to_string(), number: 1064, is_open: None });
    t.push(Port { service: "brvread".to_string(), number: 1054, is_open: None });
    t.push(Port { service: "qotd".to_string(), number: 17, is_open: None });
    t.push(Port { service: "ccproxy-http".to_string(), number: 808, is_open: None });
    t.push(Port { service: "rendezvous".to_string(), number: 3689, is_open: None });
    t.push(Port { service: "iad2".to_string(), number: 1031, is_open: None });
    t.push(Port { service: "dcutility".to_string(), number: 1044, is_open: None });
    t.push(Port { service: "bsquare-voip".to_string(), number: 1071, is_open: None });
    t.push(Port { service: "vnc-1".to_string(), number: 5901, is_open: None });
    t.push(Port { service: "jetdirect".to_string(), number: 9102, is_open: None });
    t.push(Port { service: "newacct".to_string(), number: 100, is_open: None });
    t.push(Port { service: "xmpp".to_string(), number: 8010, is_open: None });
    t.push(Port { service: "icslap".to_string(), number: 2869, is_open: None });
    t.push(Port { service: "sbl".to_string(), number: 1039, is_open: None });
    t.push(Port { service: "barracuda-bbs".to_string(), number: 5120, is_open: None });
    t.push(Port { service: "newoak".to_string(), number: 4001, is_open: None });
    t.push(Port { service: "cslistener".to_string(), number: 9000, is_open: None });
    t.push(Port { service: "eklogin".to_string(), number: 2105, is_open: None });
    t.push(Port { service: "ldapssl".to_string(), number: 636, is_open: None });
    t.push(Port { service: "mtqp".to_string(), number: 1038, is_open: None });
    t.push(Port { service: "zebra".to_string(), number: 2601, is_open: None });
    t.push(Port { service: "tcpmux".to_string(), number: 1, is_open: None });
    t.push(Port { service: "afs3-fileserver".to_string(), number: 7000, is_open: None });
    t.push(Port { service: "fpo-fns".to_string(), number: 1066, is_open: None });
    t.push(Port { service: "cognex-insight".to_string(), number: 1069, is_open: None });
    t.push(Port { service: "apple-xsrvr-admin".to_string(), number: 625, is_open: None });
    t
}

fn chunk_3() -> (t: Vec<Port>)
    ensures
        t@.len() == 50,
        forall|i: int| 0 <= i < t@.len() ==> entry_matches(#[trigger] t@[i], chunk_entry_3(i)),
        forall|i: int| 0 <= i < t@.len() ==> table_entry_ok(#[trigger] t@[i]),
{
    let mut t: Vec<Port> = Vec::new();
    t.push(Port { service: "asip-webadmin".to_string(), number: 311, is_open: None });
    t.push(Port { service: "http-mgmt".to_string(), number: 280, is_open: None });
    t.push(Port { service: "unknown".to_string(), number: 254, is_open: None });
    t.push(Port { service: "remoteanything".to_string(), number: 4000, is_open: None });
    t.push(Port { service: "landesk-rc".to_string(), number: 1761, is_open: None });
    t.push(Port { service: "filemaker".to_string(), number: 5003, is_open: None });
    t.push(Port { service: "globe".to_string(), number: 2002, is_open: None });
    t.push(Port { service: "deslogin".to_string(), number: 2005, is_open: None });
    t.push(Port { service: "x25-svc-port".to_string(), number: 1998, is_open: None });
    t.push(Port { service: "iad3".to_string(), number: 1032, is_open: None });
    t.push(Port { service: "java-or-OTGfileshare".to_string(), number: 1050, is_open: None });
    t.push(Port { service: "dtspc".to_string(), number: 6112, is_open: None });
    t.push(Port { service: "svn".to_string(), number: 3690, is_open: None });
    t.push(Port { service: "oracle".to_string(), number: 1521, is_open: None });
    t.push(Port { service: "apc-agent".to_string(), number: 2161, is_open: None });
    t.push(Port { service: "X11:2".to_string(), number: 6002, is_open: None });
    t.push(Port { service: "socks".to_string(), number: 1080, is_open: None });
    t.push(Port { service: "cvspserver".to_string(), number: 2401, is_open: None });
    t.push(Port { service: "lockd".to_string(), number: 4045, is_open: None });
    t.push(Port { service: "iss-realsecure".to_string(), number: 902, is_open: None });
    t.push(Port { service: "nsrexecd".to_string(), number: 7937, is_open: None });
    t.push(Port { service: "qsc".to_string(), number: 787, is_open: None });
    t.push(Port { service: "nim".to_string(), number: 1058, is_open: None });
    t.push(Port { service: "ms-olap4".to_string(), number: 2383, is_open: None });
    t.push(Port { service: "sometimes-rpc5".to_string(), number: 32771, is_open: None });
    t.push(Port { service: "netinfo".to_string(), number: 1033, is_open: None });
    t.push(Port { service: "netsaint".to_string(), number: 1040, is_open: None });
    t.push(Port { service: "nimreg".to_string(), number: 1059, is_open: None });
    t.push(Port { service: "ibm-db2".to_string(), number: 50000, is_open: None });
    t.push(Port { service: "freeciv".to_string(), number: 5555, is_open: None });
    t.push(Port { service: "scp-config".to_string(), number: 10001, is_open: None });
    t.push(Port { service: "citrix-ica".to_string(), number: 1494, is_open: None });
    t.push(Port { service: "http-rpc-epmap".to_string(), number: 593, is_open: None });
    t.push(Port { service: "compaqdiag".to_string(), number: 2301, is_open: None });
    t.push(Port { service: "compressnet".to_string(), number: 3, is_open: None });
    t.push(Port { service: "globalcatLDAP".to_string(), number: 3268, is_open: None });
    t.push(Port { service: "lgtomapper".to_string(), number: 7938, is_open: None });
    t.push(Port { service: "hotline".to_string(), number: 1234, is_open: None });
    t.push(Port { service: "exp2".to_string(), number: 1022, is_open: None });
    t.push(Port { service: "warmspotMgmt".to_string(), number: 1074, is_open: None });
    t.push(Port { service: "teradataordbms".to_string(), number: 8002, is_open: None });
    t.push(Port { service: "nsstp".to_string(), number: 1036, is_open: None });
    t.push(Port { service: "multidropper".to_string(), number: 1035, is_open: None });
    t.push(Port { service: "tor-orport".to_string(), number: 9001, is_open: None });
    t.push(Port { service: "ams".to_string(), number: 1037, is_open: None });
    t.push(Port { service: "kpasswd5".to_string(), number: 464, is_open: None });
    t.push(Port { service: "retrospect".to_string(), number: 497, is_open: None });
    t.push(Port { service: "rtmp".to_string(), number: 1935, is_open: None });
    t.push(Port { service: "irc".to_string(), number: 6666, is_open: None });
    t.push(Port { service: "finger".to_string(), number: 2003, is_open: None });
    t
}

fn chunk_4() -> (t: Vec<Port>)
    ensures
        t@.len() == 50,
        forall|i: int| 0 <= i < t@.len() ==> entry_matches(#[trigger] t@[i], chunk_entry_4(i)),
        forall|i: int| 0 <= i < t@.len() ==> table_entry_ok(#[trigger] t@[i]),
{
    let mut t: Vec<Port> = Vec::new();
    t.push(Port { service: "mythtv".to_string(), number: 6543, is_open: None });
    t.push(Port { service: "lotusnotes".to_string(), number: 1352, is_open: None });
    t.push(Port { service: "priv-mail".to_string(), number: 24, is_open: None });
    t.push(Port { service: "globalcatLDAPssl".to_string(), number: 3269, is_open: None });
    t.push(Port { service: "lmsocialserver".to_string(), number: 1111, is_open: None });
    t.push(Port { service: "timbuktu".to_string(), number: 407, is_open: None });
    t.push(Port { service: "isakmp".to_string(), number: 500, is_open: None });
    t.push(Port { service: "ftp-data".to_string(), number: 20, is_open: None });
    t.push(Port { service: "invokator".to_string(), number: 2006, is_open: None });
    t.push(Port { service: "iscsi".to_string(), number: 3260, is_open: None });
    t.push(Port { service: "hydap".to_string(), number: 15000, is_open: None });
    t.push(Port { service: "aeroflight-ads".to_string(), number: 1218, is_open: None });
    t.push(Port { service: "zincite-a".to_string(), number: 1034, is_open: None });
    t.push(Port { service: "krb524".to_string(), number: 4444, is_open: None });
    t.push(Port { service: "bgmp".to_string(), number: 264, is_open: None });
    t.push(Port { service: "mailbox".to_string(), number: 2004, is_open: None });
    t.push(Port { service: "dsp".to_string(), number: 33, is_open: None });
    t.push(Port { service: "afrog".to_string(), number: 1042, is_open: None });
    t.push(Port { service: "caerpc".to_string(), number: 42510, is_open: None });
    t.push(Port { service: "garcon".to_string(), number: 999, is_open: None });
    t.push(Port { service: "powerchute".to_string(), number: 3052, is_open: None });
    t.push(Port { service: "netvenuechat".to_string(), number: 1023, is_open: None });
    t.push(Port { service: "instl_bootc".to_string(), number: 1068, is_open: None });
    t.push(Port { service: "rsh-spx".to_string(), number: 222, is_open: None });
    t.push(Port { service: "font-service".to_string(), number: 7100, is_open: None });
    t.push(Port { service: "accessbuilder".to_string(), number: 888, is_open: None });
    t.push(Port { service: "snews".to_string(), number: 563, is_open: None });
    t.push(Port { service: "fj-hdnet".to_string(), number: 1717, is_open: None });
    t.push(Port { service: "conf".to_string(), number: 2008, is_open: None });
    t.push(Port { service: "telnets".to_string(), number: 992, is_open: None });
    t.push(Port { service: "sometimes-rpc3".to_string(), number: 32770, is_open: None });
    t.push(Port { service: "sometimes-rpc7".to_string(), number: 32772, is_open: None });
    t.push(Port { service: "afs3-callback".to_string(), number: 7001, is_open: None });
    t.push(Port { service: "blackice-alerts".to_string(), number: 8082, is_open: None });
    t.push(Port { service: "dectalk".to_string(), number: 2007, is_open: None });
    t.push(Port { service: "sdadmind".to_string(), number: 5550, is_open: None });
    t.push(Port { service: "news".to_string(), number: 2009, is_open: None });
    t.push(Port { service: "vnc-http-1".to_string(), number: 5801, is_open: None });
    t.push(Port { service: "boinc".to_string(), number: 1043, is_open: None });
    t.push(Port { service: "exec".to_string(), number: 512, is_open: None });
    t.push(Port { service: "sms-rcinfo".to_string(), number: 2701, is_open: None });
    t.push(Port { service: "doceri-ctl".to_string(), number: 7019, is_open: None });
    t.push(Port { service: "unknown".to_string(), number: 50001, is_open: None });
    t.push(Port { service: "mps-raft".to_string(), number: 1700, is_open: None });
    t.push(Port { service: "edonkey".to_string(), number: 4662, is_open: None });
    t.push(Port { service: "dlsrpn".to_string(), number: 2065, is_open: None });
    t.push(Port { service: "search".to_string(), number: 2010, is_open: None });
    t.push(Port { service: "nameserver".to_string(), number: 42, is_open: None });
    t.push(Port { service: "man".to_string(), number: 9535, is_open: None });
    t.push(Port { service: "ripd".to_string(), number: 2602, is_open: None });
    t
}

fn chunk_5() -> (t: Vec<Port>)
    ensures
        t@.len() == 50,
        forall|i: int| 0 <= i < t@.len() ==> entry_matches(#[trigger] t@[i], chunk_entry_5(i)),
        forall|i: int| 0 <= i < t@.len() ==> table_entry_ok(#[trigger] t@[i]),
{
    let mut t: Vec<Port> = Vec::new();
    t.push(Port { service: "dec-notes".to_string(), number: 3333, is_open: None });
    t.push(Port { service: "snmp".to_string(), number: 161, is_open: None });
    t.push(Port { service: "admd".to_string(), number: 5100, is_open: None });
    t.push(Port { service: "rfe".to_string(), number: 5002, is_open: None });
    t.push(Port { service: "ospfd".to_string(), number: 2604, is_open: None });
    t.push(Port { service: "mlchat-proxy".to_string(), number: 4002, is_open: None });
    t.push(Port { service: "X11:59".to_string(), number: 6059, is_open: None });
    t.push(Port { service: "neod1".to_string(), number: 1047, is_open: None });
    t.push(Port { service: "sophos".to_string(), number: 8192, is_open: None });
    t.push(Port { service: "sophos".to_string(), number: 8193, is_open: None });
    t.push(Port { service: "sms-xfer".to_string(), number: 2702, is_open: None });
    t.push(Port { service: "ibm-db2-admin".to_string(), number: 6789, is_open: None });
    t.push(Port { service: "pds".to_string(), number: 9595, is_open: None });
    t.push(Port { service: "optima-vnet".to_string(), number: 1051, is_open: None });
    t.push(Port { service: "msgsys".to_string(), number: 9594, is_open: None });
    t.push(Port { service: "cba8".to_string(), number: 9593, is_open: None });
    t.push(Port { service: "amt-soap-https".to_string(), number: 16993, is_open: None });
    t.push(Port { service: "amt-soap-http".to_string(), number: 16992, is_open: None });
    t.push(Port { service: "hp-status".to_string(), number: 5226, is_open: None });
    t.push(Port { service: "hp-server".to_string(), number: 5225, is_open: None });
    t.push(Port { service: "filenet-rpc".to_string(), number: 32769, is_open: None });
    t.push(Port { service: "ddt".to_string(), number: 1052, is_open: None });
    t.push(Port { service: "sophos".to_string(), number: 8194, is_open: None });
    t.push(Port { service: "ansyslmd".to_string(), number: 1055, is_open: None });
    t.push(Port { service: "netassistant".to_string(), number: 3283, is_open: None });
    t.push(Port { service: "veracity".to_string(), number: 1062, is_open: None });
    t.push(Port { service: "unknown".to_string(), number: 9415, is_open: None });
    t.push(Port { service: "unknown".to_string(), number: 8701, is_open: None });
    t.push(Port { service: "unknown".to_string(), number: 8652, is_open: None });
    t.push(Port { service: "unknown".to_string(), number: 8651, is_open: None });
    t.push(Port { service: "unknown".to_string(), number: 8089, is_open: None });
    t.push(Port { service: "unknown".to_string(), number: 65389, is_open: None });
    t.push(Port { service: "unknown".to_string(), number: 65000, is_open: None });
    t.push(Port { service: "unknown".to_string(), number: 64680, is_open: None });
    t.push(Port { service: "unknown".to_string(), number: 64623, is_open: None });
    t.push(Port { service: "unknown".to_string(), number: 55600, is_open: None });
    t.push(Port { service: "unknown".to_string(), number: 55555, is_open: None });
    t.push(Port { service: "unknown".to_string(), number: 52869, is_open: None });
    t.push(Port { service: "unknown".to_string(), number: 35500, is_open: None });
    t.push(Port { service: "unknown".to_string(), number: 33354, is_open: None });
    t.push(Port { service: "unknown".to_string(), number: 23502, is_open: None });
    t.push(Port { service: "unknown".to_string(), number: 20828, is_open: None });
    t.push(Port { service: "rxmon".to_string(), number: 1311, is_open: None });
    t.push(Port { service: "polestar".to_string(), number: 1060, is_open: None });
    t.push(Port { service: "pharos".to_string(), number: 4443, is_open: None });
    t.push(Port { service: "instl_boots".to_string(), number: 1067, is_open: None });
    t.push(Port { service: "netbackup".to_string(), number: 13782, is_open: None });
    t.push(Port { service: "vnc-2".to_string(), number: 5902, is_open: None });
    t.push(Port { service: "odmr".to_string(), number: 366, is_open: None });
    t.push(Port { service: "tor-socks".to_string(), number: 9050, is_open: None });
    t
}

fn chunk_6() -> (t: Vec<Port>)
    ensures
        t@.len() == 50,
        forall|i: int| 0 <= i < t@.len() ==> entry_matches(#[trigger] t@[i], chunk_entry_6(i)),
        forall|i: int| 0 <= i < t@.len() ==> table_entry_ok(#[trigger] t@[i]),
{
    let mut t: Vec<Port> = Vec::new();
    t.push(Port { service: "windows-icfw".to_string(), number: 1002, is_open: None });
    t.push(Port { service: "mit-ml-dev".to_string(), number: 85, is_open: None });
    t.push(Port { service: "hotline".to_string(), number: 5500, is_open: None });
    t.push(Port { service: "park-agent".to_string(), number: 5431, is_open: None });
    t.push(Port { service: "paradym-31".to_string(), number: 1864, is_open: None });
    t.push(Port { service: "msnp".to_string(), number: 1863, is_open: None });
    t.push(Port { service: "unknown".to_string(), number: 8085, is_open: None });
    t.push(Port { service: "unknown".to_string(), number: 51103, is_open: None });
    t.push(Port { service: "unknown".to_string(), number: 49999, is_open: None });
    t.push(Port { service: "unknown".to_string(), number: 45100, is_open: None });
    t.push(Port { service: "unknown".to_string(), number: 10243, is_open: None });
    t.push(Port { service: "tacacs".to_string(), number: 49, is_open: None });
    t.push(Port { service: "irc".to_string(), number: 6667, is_open: None });
    t.push(Port { service: "dnsix".to_string(), number: 90, is_open: None });
    t.push(Port { service: "flexlm0".to_string(), number: 27000, is_open: None });
    t.push(Port { service: "imtc-mcs".to_string(), number: 1503, is_open: None });
    t.push(Port { service: "bittorrent-tracker".to_string(), number: 6881, is_open: None });
    t.push(Port { service: "vlsi-lm".to_string(), number: 1500, is_open: None });
    t.push(Port { service: "ftp-proxy".to_string(), number: 8021, is_open: None });
    t.push(Port { service: "unknown".to_string(), number: 340, is_open: None });
    t.push(Port { service: "westec-connect".to_string(), number: 5566, is_open: None });
    t.push(Port { service: "radan-http".to_string(), number: 8088, is_open: None });
    t.push(Port { service: "EtherNetIP-1".to_string(), number: 2222, is_open: None });
    t.push(Port { service: "unknown".to_string(), number: 9071, is_open: None });
    t.push(Port { service: "ospf-lite".to_string(), number: 8899, is_open: None });
    t.push(Port { service: "X11:5".to_string(), number: 6005, is_open: None });
    t.push(Port { service: "sd".to_string(), number: 9876, is_open: None });
    t.push(Port { service: "sas-3".to_string(), number: 1501, is_open: None });
    t.push(Port { service: "admeng".to_string(), number: 5102, is_open: None });
    t.push(Port { service: "sometimes-rpc11".to_string(), number: 32774, is_open: None });
    t.push(Port { service: "sometimes-rpc9".to_string(), number: 32773, is_open: None });
    t.push(Port { service: "jetdirect".to_string(), number: 9101, is_open: None });
    t.push(Port { service: "activesync".to_string(), number: 5679, is_open: None });
    t.push(Port { service: "cmip-man".to_string(), number: 163, is_open: None });
    t.push(Port { service: "rrp".to_string(), number: 648, is_open: None });
    t.push(Port { service: "iso-tp0".to_string(), number: 146, is_open: None });
    t.push(Port { service: "netview-aix-6".to_string(), number: 1666, is_open: None });
    t.push(Port { service: "samba-swat".to_string(), number: 901, is_open: None });
    t.push(Port { service: "mit-ml-dev".to_string(), number: 83, is_open: None });
    t.push(Port { service: "wap-vcal-s".to_string(), number: 9207, is_open: None });
    t.push(Port { service: "vcom-tunnel".to_string(), number: 8001, is_open: None });
    t.push(Port { service: "us-srv".to_string(), number: 8083, is_open: None });
    t.push(Port { service: "websnp".to_string(), number: 8084, is_open: None });
    t.push(Port { service: "avt-profile-1".to_string(), number: 5004, is_open: None });
    t.push(Port { service: "nppmp".to_string(), number: 3476, is_open: None });
    t.push(Port { service: "unknown".to_string(), number: 5214, is_open: None });
    t.push(Port { service: "unknown".to_string(), number: 14238, is_open: None });
    t.push(Port { service: "netbus".to_string(), number: 12345, is_open: None });
    t.push(Port { service: "apex-mesh".to_string(), number: 912, is_open: None });
    t.push(Port { service: "unknown".to_string(), number: 30, is_open: None });
    t
}

fn chunk_7() -> (t: Vec<Port>)
    ensures
        t@.len() == 50,
        forall|i: int| 0 <= i < t@.len() ==> entry_matches(#[trigger] t@[i], chunk_entry_7(i)),
        forall|i: int| 0 <= i < t@.len() ==> table_entry_ok(#[trigger] t@[i]),
{
    let mut t: Vec<Port> = Vec::new();
    t.push(Port { service: "bgpd".to_string(), number: 2605, is_open: None });
    t.push(Port { service: "device2".to_string(), number: 2030, is_open: None });
    t.push(Port { service: "unknown".to_string(), number: 6, is_open: None });
    t.push(Port { service: "uucp-rlogin".to_string(), number: 541, is_open: None });
    t.push(Port { service: "ajp12".to_string(), number: 8007, is_open: None });
    t.push(Port { service: "deslogin".to_string(), number: 3005, is_open: None });
    t.push(Port { service: "unknown".to_string(), number: 4, is_open: None });
    t.push(Port { service: "hermes".to_string(), number: 1248, is_open: None });
    t.push(Port { service: "rtsserv".to_string(), number: 2500, is_open: None });
    t.push(Port { service: "unknown".to_string(), number: 880, is_open: None });
    t.push(Port { service: "unknown".to_string(), number: 306, is_open: None });
    t.push(Port { service: "vrml-multi-use".to_string(), number: 4242, is_open: None });
    t.push(Port { service: "sunclustermgr".to_string(), number: 1097, is_open: None });
    t.push(Port { service: "pichat".to_string(), number: 9009, is_open: None });
    t.push(Port { service: "ms-v-worlds".to_string(), number: 2525, is_open: None });
    t.push(Port { service: "cplscrambler-lg".to_string(), number: 1086, is_open: None });
    t.push(Port { service: "cplscrambler-al".to_string(), number: 1088, is_open: None });
    t.push(Port { service: "unknown".to_string(), number: 8291, is_open: None });
    t.push(Port { service: "unknown".to_string(), number: 52822, is_open: None });
    t.push(Port { service: "backupexec".to_string(), number: 6101, is_open: None });
    t.push(Port { service: "omginitialrefs".to_string(), number: 900, is_open: None });
    t.push(Port { service: "fodms".to_string(), number: 7200, is_open: None });
    t.push(Port { service: "corbaloc".to_string(), number: 2809, is_open: None });
    t.push(Port { service: "mdbs_daemon".to_string(), number: 800, is_open: None });
    t.push(Port { service: "sometimes-rpc13".to_string(), number: 32775, is_open: None });
    t.push(Port { service: "cce4x".to_string(), number: 12000, is_open: None });
    t.push(Port { service: "ansoft-lm-1".to_string(), number: 1083, is_open: None });
    t.push(Port { service: "914c-g".to_string(), number: 211, is_open: None });
    t.push(Port { service: "unknown".to_string(), number: 987, is_open: None });
    t.push(Port { service: "agentx".to_string(), number: 705, is_open: None });
    t.push(Port { service: "btx".to_string(), number: 20005, is_open: None });
    t.push(Port { service: "cisco-tdp".to_string(), number: 711, is_open: None });
    t.push(Port { service: "netbackup".to_string(), number: 13783, is_open: None });
    t.push(Port { service: "acmsoda".to_string(), number: 6969, is_open: None });
    t.push(Port { service: "csd-mgmt-port".to_string(), number: 3071, is_open: None });
    t.push(Port { service: "xmpp-server".to_string(), number: 5269, is_open: None });
    t.push(Port { service: "xmpp-client".to_string(), number: 5222, is_open: None });
    t.push(Port { service: "wfremotertm".to_string(), number: 1046, is_open: None });
    t.push(Port { service: "webobjects".to_string(), number: 1085, is_open: None });
    t.push(Port { service: "wbem-rmi".to_string(), number: 5987, is_open: None });
    t.push(Port { service: "wbem-https".to_string(), number: 5989, is_open: None });
    t.push(Port { service: "wbem-http".to_string(), number: 5988, is_open: None });
    t.push(Port { service: "tivoconnect".to_string(), number: 2190, is_open: None });
    t.push(Port { service: "sysinfo-sp".to_string(), number: 11967, is_open: None });
    t.push(Port { service: "asterix".to_string(), number: 8600, is_open: None });
    t.push(Port { service: "sitewatch-s".to_string(), number: 3766, is_open: None });
    t.push(Port { service: "soap-http".to_string(), number: 7627, is_open: None });
    t.push(Port { service: "simplifymedia".to_string(), number: 8087, is_open: None });
    t.push(Port { service: "ndmps".to_string(), number: 30000, is_open: None });
    t.push(Port { service: "sdr".to_string(), number: 9010, is_open: None });
    t
}

fn chunk_8() -> (t: Vec<Port>)
    ensures
        t@.len() == 50,
        forall|i: int| 0 <= i < t@.len() ==> entry_matches(#[trigger] t@[i], chunk_entry_8(i)),
        forall|i: int| 0 <= i < t@.len() ==> table_entry_ok(#[trigger] t@[i]),
{
    let mut t: Vec<Port> = Vec::new();
    t.push(Port { service: "scriptview".to_string(), number: 7741, is_open: None });
    t.push(Port { service: "scotty-ft".to_string(), number: 14000, is_open: None });
    t.push(Port { service: "satvid-datalnk".to_string(), number: 3367, is_open: None });
    t.push(Port { service: "rmiregistry".to_string(), number: 1099, is_open: None });
    t.push(Port { service: "rmiactivation".to_string(), number: 1098, is_open: None });
    t.push(Port { service: "eppc".to_string(), number: 3031, is_open: None });
    t.push(Port { service: "pn-requester2".to_string(), number: 2718, is_open: None });
    t.push(Port { service: "parsec-master".to_string(), number: 6580, is_open: None });
    t.push(Port { service: "onep-tls".to_string(), number: 15002, is_open: None });
    t.push(Port { service: "nuauth".to_string(), number: 4129, is_open: None });
    t.push(Port { service: "jetstream".to_string(), number: 6901, is_open: None });
    t.push(Port { service: "netmpi".to_string(), number: 3827, is_open: None });
    t.push(Port { service: "nati-svrloc".to_string(), number: 3580, is_open: None });
    t.push(Port { service: "lv-ffx".to_string(), number: 2144, is_open: None });
    t.push(Port { service: "iua".to_string(), number: 9900, is_open: None });
    t.push(Port { service: "intermapper".to_string(), number: 8181, is_open: None });
    t.push(Port { service: "ibm-mgr".to_string(), number: 3801, is_open: None });
    t.push(Port { service: "h323gatedisc".to_string(), number: 1718, is_open: None });
    t.push(Port { service: "gsiftp".to_string(), number: 2811, is_open: None });
    t.push(Port { service: "glrpc".to_string(), number: 9080, is_open: None });
    t.push(Port { service: "gris".to_string(), number: 2135, is_open: None });
    t.push(Port { service: "fpitp".to_string(), number: 1045, is_open: None });
    t.push(Port { service: "fmpro-fdal".to_string(), number: 2399, is_open: None });
    t.push(Port { service: "event_listener".to_string(), number: 3017, is_open: None });
    t.push(Port { service: "documentum".to_string(), number: 10002, is_open: None });
    t.push(Port { service: "elfiq-repl".to_string(), number: 1148, is_open: None });
    t.push(Port { service: "dynamid".to_string(), number: 9002, is_open: None });
    t.push(Port { service: "dxspider".to_string(), number: 8873, is_open: None });
    t.push(Port { service: "dxmessagebase2".to_string(), number: 2875, is_open: None });
    t.push(Port { service: "d-star".to_string(), number: 9011, is_open: None });
    t.push(Port { service: "dpm".to_string(), number: 5718, is_open: None });
    t.push(Port { service: "d-s-n".to_string(), number: 8086, is_open: None });
    t.push(Port { service: "dnx".to_string(), number: 3998, is_open: None });
    t.push(Port { service: "connection".to_string(), number: 2607, is_open: None });
    t.push(Port { service: "sgi-soap".to_string(), number: 11110, is_open: None });
    t.push(Port { service: "ddrepl".to_string(), number: 4126, is_open: None });
    t.push(Port { service: "cpdlc".to_string(), number: 5911, is_open: None });
    t.push(Port { service: "cm".to_string(), number: 5910, is_open: None });
    t.push(Port { service: "condor".to_string(), number: 9618, is_open: None });
    t.push(Port { service: "compaq-https".to_string(), number: 2381, is_open: None });
    t.push(Port { service: "cnrprotocol".to_string(), number: 1096, is_open: None });
    t.push(Port { service: "ceph".to_string(), number: 3300, is_open: None });
    t.push(Port { service: "btrieve".to_string(), number: 3351, is_open: None });
    t.push(Port { service: "bridgecontrol".to_string(), number: 1073, is_open: None });
    t.push(Port { service: "bitcoin".to_string(), number: 8333, is_open: None });
    t.push(Port { service: "bfd-control".to_string(), number: 3784, is_open: None });
    t.push(Port { service: "beorl".to_string(), number: 5633, is_open: None });
    t.push(Port { service: "bex-xr".to_string(), number: 15660, is_open: None });
    t.push(Port { service: "backup-express".to_string(), number: 6123, is_open: None });
    t.push(Port { service: "avsecuremgmt".to_string(), number: 3211, is_open: None });
    t
}

fn chunk_9() -> (t: Vec<Port>)
    ensures
        t@.len() == 50,
        forall|i: int| 0 <= i < t@.len() ==> entry_matches(#[trigger] t@[i], chunk_entry_9(i)),
        forall|i: int| 0 <= i < t@.len() ==> table_entry_ok(#[trigger] t@[i]),
{
    let mut t: Vec<Port> = Vec::new();
    t.push(Port { service: "avocent-proxy".to_string(), number: 1078, is_open: None });
    t.push(Port { service: "apple-sasl".to_string(), number: 3659, is_open: None });
    t.push(Port { service: "apcupsd".to_string(), number: 3551, is_open: None });
    t.push(Port { service: "apc-2260".to_string(), number: 2260, is_open: None });
    t.push(Port { service: "apc-2160".to_string(), number: 2160, is_open: None });
    t.push(Port { service: "amiganetfs".to_string(), number: 2100, is_open: None });
    t.push(Port { service: "fmsascon".to_string(), number: 16001, is_open: None });
    t.push(Port { service: "active-net".to_string(), number: 3325, is_open: None });
    t.push(Port { service: "active-net".to_string(), number: 3323, is_open: None });
    t.push(Port { service: "xrl".to_string(), number: 1104, is_open: None });
    t.push(Port { service: "unknown".to_string(), number: 9968, is_open: None });
    t.push(Port { service: "unknown".to_string(), number: 9503, is_open: None });
    t.push(Port { service: "unknown".to_string(), number: 9502, is_open: None });
    t.push(Port { service: "unknown".to_string(), number: 9485, is_open: None });
    t.push(Port { service: "unknown".to_string(), number: 9290, is_open: None });
    t.push(Port { service: "unknown".to_string(), number: 9220, is_open: None });
    t.push(Port { service: "unknown".to_string(), number: 8994, is_open: None });
    t.push(Port { service: "unknown".to_string(), number: 8649, is_open: None });
    t.push(Port { service: "unknown".to_string(), number: 8222, is_open: None });
    t.push(Port { service: "unknown".to_string(), number: 7911, is_open: None });
    t.push(Port { service: "unknown".to_string(), number: 7625, is_open: None });
    t.push(Port { service: "unknown".to_string(), number: 7106, is_open: None });
    t.push(Port { service: "unknown".to_string(), number: 65129, is_open: None });
    t.push(Port { service: "unknown".to_string(), number: 63331, is_open: None });
    t.push(Port { service: "unknown".to_string(), number: 6156, is_open: None });
    t.push(Port { service: "unknown".to_string(), number: 6129, is_open: None });
    t.push(Port { service: "unknown".to_string(), number: 60020, is_open: None });
    t.push(Port { service: "unknown".to_string(), number: 5962, is_open: None });
    t.push(Port { service: "unknown".to_string(), number: 5961, is_open: None });
    t.push(Port { service: "unknown".to_string(), number: 5960, is_open: None });
    t.push(Port { service: "unknown".to_string(), number: 5959, is_open: None });
    t.push(Port { service: "unknown".to_string(), number: 5925, is_open: None });
    t.push(Port { service: "unknown".to_string(), number: 5877, is_open: None });
    t.push(Port { service: "unknown".to_string(), number: 5825, is_open: None });
    t.push(Port { service: "unknown".to_string(), number: 5810, is_open: None });
    t.push(Port { service: "unknown".to_string(), number: 58080, is_open: None });
    t.push(Port { service: "unknown".to_string(), number: 57294, is_open: None });
    t.push(Port { service: "unknown".to_string(), number: 50800, is_open: None });
    t.push(Port { service: "unknown".to_string(), number: 50006, is_open: None });
    t.push(Port { service: "unknown".to_string(), number: 50003, is_open: None });
    t.push(Port { service: "unknown".to_string(), number: 49160, is_open: None });
    t.push(Port { service: "unknown".to_string(), number: 49159, is_open: None });
    t.push(Port { service: "unknown".to_string(), number: 49158, is_open: None });
    t.push(Port { service: "unknown".to_string(), number: 48080, is_open: None });
    t.push(Port { service: "unknown".to_string(), number: 40193, is_open: None });
    t.push(Port { service: "unknown".to_string(), number: 34573, is_open: None });
    t.push(Port { service: "unknown".to_string(), number: 34572, is_open: None });
    t.push(Port { service: "unknown".to_string(), number: 34571, is_open: None });
    t.push(Port { service: "unknown".to_string(), number: 3404, is_open: None });
    t.push(Port { service: "unknown".to_string(), number: 33899, is_open: None });
    t
}

fn chunk_10() -> (t: Vec<Port>)
    ensures
        t@.len() == 50,
        forall|i: int| 0 <= i < t@.len() ==> entry_matches(#[trigger] t@[i], chunk_entry_10(i)),
        forall|i: int| 0 <= i < t@.len() ==> table_entry_ok(#[trigger] t@[i]),
{
    let mut t: Vec<Port> = Vec::new();
    t.push(Port { service: "unknown".to_string(), number: 3301, is_open: None });
    t.push(Port { service: "unknown".to_string(), number: 32782, is_open: None });
    t.push(Port { service: "unknown".to_string(), number: 32781, is_open: None });
    t.push(Port { service: "unknown".to_string(), number: 31038, is_open: None });
    t.push(Port { service: "unknown".to_string(), number: 30718, is_open: None });
    t.push(Port { service: "unknown".to_string(), number: 28201, is_open: None });
    t.push(Port { service: "unknown".to_string(), number: 27715, is_open: None });
    t.push(Port { service: "unknown".to_string(), number: 25734, is_open: None });
    t.push(Port { service: "unknown".to_string(), number: 24800, is_open: None });
    t.push(Port { service: "unknown".to_string(), number: 22939, is_open: None });
    t.push(Port { service: "unknown".to_string(), number: 21571, is_open: None });
    t.push(Port { service: "unknown".to_string(), number: 20221, is_open: None });
    t.push(Port { service: "unknown".to_string(), number: 20031, is_open: None });
    t.push(Port { service: "unknown".to_string(), number: 19842, is_open: None });
    t.push(Port { service: "unknown".to_string(), number: 19801, is_open: None });
    t.push(Port { service: "unknown".to_string(), number: 19101, is_open: None });
    t.push(Port { service: "unknown".to_string(), number: 17988, is_open: None });
    t.push(Port { service: "unknown".to_string(), number: 1783, is_open: None });
    t.push(Port { service: "unknown".to_string(), number: 16018, is_open: None });
    t.push(Port { service: "unknown".to_string(), number: 16016, is_open: None });
    t.push(Port { service: "unknown".to_string(), number: 15003, is_open: None });
    t.push(Port { service: "unknown".to_string(), number: 14442, is_open: None });
    t.push(Port { service: "unknown".to_string(), number: 13456, is_open: None });
    t.push(Port { service: "unknown".to_string(), number: 10629, is_open: None });
    t.push(Port { service: "unknown".to_string(), number: 10628, is_open: None });
    t.push(Port { service: "unknown".to_string(), number: 10626, is_open: None });
    t.push(Port { service: "unknown".to_string(), number: 10621, is_open: None });
    t.push(Port { service: "unknown".to_string(), number: 10617, is_open: None });
    t.push(Port { service: "unknown".to_string(), number: 10616, is_open: None });
    t.push(Port { service: "unknown".to_string(), number: 10566, is_open: None });
    t.push(Port { service: "unknown".to_string(), number: 10025, is_open: None });
    t.push(Port { service: "unknown".to_string(), number: 10024, is_open: None });
    t.push(Port { service: "unknown".to_string(), number: 10012, is_open: None });
    t.push(Port { service: "tripwire".to_string(), number: 1169, is_open: None });
    t.push(Port { service: "surfpass".to_string(), number: 5030, is_open: None });
    t.push(Port { service: "statusd".to_string(), number: 5414, is_open: None });
    t.push(Port { service: "startron".to_string(), number: 1057, is_open: None });
    t.push(Port { service: "smc-http".to_string(), number: 6788, is_open: None });
    t.push(Port { service: "sentinelsrm".to_string(), number: 1947, is_open: None });
    t.push(Port { service: "rootd".to_string(), number: 1094, is_open: None });
    t.push(Port { service: "rdrmshc".to_string(), number: 1075, is_open: None });
    t.push(Port { service: "ratio-adp".to_string(), number: 1108, is_open: None });
    t.push(Port { service: "pxc-splr-ft".to_string(), number: 4003, is_open: None });
    t.push(Port { service: "pvuniwien".to_string(), number: 1081, is_open: None });
    t.push(Port { service: "proofd".to_string(), number: 1093, is_open: None });
    t.push(Port { service: "privatewire".to_string(), number: 4449, is_open: None });
    t.push(Port { service: "nsjtp-ctrl".to_string(), number: 1687, is_open: None });
    t.push(Port { service: "netopia-vo2".to_string(), number: 1840, is_open: None });
    t.push(Port { service: "mctp".to_string(), number: 1100, is_open: None });
    t.push(Port { service: "kyoceranetdev".to_string(), number: 1063, is_open: None });
    t
}

fn chunk_11() -> (t: Vec<Port>)
    ensures
        t@.len() == 50,
        forall|i: int| 0 <= i < t@.len() ==> entry_matches(#[trigger] t@[i], chunk_entry_11(i)),
        forall|i: int| 0 <= i < t@.len() ==> table_entry_ok(#[trigger] t@[i]),
{
    let mut t: Vec<Port> = Vec::new();
    t.push(Port { service: "kiosk".to_string(), number: 1061, is_open: None });
    t.push(Port { service: "isoipsigport-2".to_string(), number: 1107, is_open: None });
    t.push(Port { service: "isoipsigport-1".to_string(), number: 1106, is_open: None });
    t.push(Port { service: "ismserver".to_string(), number: 9500, is_open: None });
    t.push(Port { service: "ipulse-ics".to_string(), number: 20222, is_open: None });
    t.push(Port { service: "interwise".to_string(), number: 7778, is_open: None });
    t.push(Port { service: "imgames".to_string(), number: 1077, is_open: None });
    t.push(Port { service: "husky".to_string(), number: 1310, is_open: None });
    t.push(Port { service: "gsigatekeeper".to_string(), number: 2119, is_open: None });
    t.push(Port { service: "groove".to_string(), number: 2492, is_open: None });
    t.push(Port { service: "gmrupdateserv".to_string(), number: 1070, is_open: None });
    t.push(Port { service: "dnp".to_string(), number: 20000, is_open: None });
    t.push(Port { service: "cvd".to_string(), number: 8400, is_open: None });
    t.push(Port { service: "cspmlockmgr".to_string(), number: 1272, is_open: None });
    t.push(Port { service: "clariion-evr01".to_string(), number: 6389, is_open: None });
    t.push(Port { service: "cbt".to_string(), number: 7777, is_open: None });
    t.push(Port { service: "cardax".to_string(), number: 1072, is_open: None });
    t.push(Port { service: "asprovatalk".to_string(), number: 1079, is_open: None });
    t.push(Port { service: "amt-esd-prot".to_string(), number: 1082, is_open: None });
    t.push(Port { service: "abarsd".to_string(), number: 8402, is_open: None });
    t.push(Port { service: "su-mit-tg".to_string(), number: 89, is_open: None });
    t.push(Port { service: "resvc".to_string(), number: 691, is_open: None });
    t.push(Port { service: "webpush".to_string(), number: 1001, is_open: None });
    t.push(Port { service: "sometimes-rpc15".to_string(), number: 32776, is_open: None });
    t.push(Port { service: "tcp-id-port".to_string(), number: 1999, is_open: None });
    t.push(Port { service: "anet".to_string(), number: 212, is_open: None });
    t.push(Port { service: "xinupageserver".to_string(), number: 2020, is_open: None });
    t.push(Port { service: "X11:3".to_string(), number: 6003, is_open: None });
    t.push(Port { service: "afs3-prserver".to_string(), number: 7002, is_open: None });
    t.push(Port { service: "iss-realsec".to_string(), number: 2998, is_open: None });
    t.push(Port { service: "iiimsf".to_string(), number: 50002, is_open: None });
    t.push(Port { service: "msdtc".to_string(), number: 3372, is_open: None });
    t.push(Port { service: "sun-manageconsole".to_string(), number: 898, is_open: None });
    t.push(Port { service: "secureidprop".to_string(), number: 5510, is_open: None });
    t.push(Port { service: "unknown".to_string(), number: 32, is_open: None });
    t.push(Port { service: "glogger".to_string(), number: 2033, is_open: None });
    t.push(Port { service: "vnc-3".to_string(), number: 5903, is_open: None });
    t.push(Port { service: "metagram".to_string(), number: 99, is_open: None });
    t.push(Port { service: "kerberos-adm".to_string(), number: 749, is_open: None });
    t.push(Port { service: "icad-el".to_string(), number: 425, is_open: None });
    t.push(Port { service: "whois".to_string(), number: 43, is_open: None });
    t.push(Port { service: "pcduo".to_string(), number: 5405, is_open: None });
    t.push(Port { service: "isdninfo".to_string(), number: 6106, is_open: None });
    t.push(Port { service: "netbackup".to_string(), number: 13722, is_open: None });
    t.push(Port { service: "netop-rc".to_string(), number: 6502, is_open: None });
    t.push(Port { service: "afs3-bos".to_string(), number: 7007, is_open: None });
    t.push(Port { service: "appleqtc".to_string(), number: 458, is_open: None });
    t.push(Port { service: "zoomcp".to_string(), number: 9666, is_open: None });
    t.push(Port { service: "xprint-server".to_string(), number: 8100, is_open: None });
    t.push(Port { service: "xpanel".to_string(), number: 3737, is_open: None });
    t
}

fn chunk_12() -> (t: Vec<Port>)
    ensures
        t@.len() == 50,
        forall|i: int| 0 <= i < t@.len() ==> entry_matches(#[trigger] t@[i], chunk_entry_12(i)),
        forall|i: int| 0 <= i < t@.len() ==> table_entry_ok(#[trigger] t@[i]),
{
    let mut t: Vec<Port> = Vec::new();
    t.push(Port { service: "presence".to_string(), number: 5298, is_open: None });
    t.push(Port { service: "winpoplanmess".to_string(), number: 1152, is_open: None });
    t.push(Port { service: "opsmessaging".to_string(), number: 8090, is_open: None });
    t.push(Port { service: "tvbus".to_string(), number: 2191, is_open: None });
    t.push(Port { service: "trusted-web".to_string(), number: 3011, is_open: None });
    t.push(Port { service: "tn-tl-r1".to_string(), number: 1580, is_open: None });
    t.push(Port { service: "x510".to_string(), number: 9877, is_open: None });
    t.push(Port { service: "targus-getdata".to_string(), number: 5200, is_open: None });
    t.push(Port { service: "spectraport".to_string(), number: 3851, is_open: None });
    t.push(Port { service: "satvid-datalnk".to_string(), number: 3371, is_open: None });
    t.push(Port { service: "satvid-datalnk".to_string(), number: 3370, is_open: None });
    t.push(Port { service: "satvid-datalnk".to_string(), number: 3369, is_open: None });
    t.push(Port { service: "rtps-dd-mt".to_string(), number: 7402, is_open: None });
    t.push(Port { service: "rlm-admin".to_string(), number: 5054, is_open: None });
    t.push(Port { service: "pktcablemmcops".to_string(), number: 3918, is_open: None });
    t.push(Port { service: "orbix-loc-ssl".to_string(), number: 3077, is_open: None });
    t.push(Port { service: "oracleas-https".to_string(), number: 7443, is_open: None });
    t.push(Port { service: "nut".to_string(), number: 3493, is_open: None });
    t.push(Port { service: "neteh".to_string(), number: 3828, is_open: None });
    t.push(Port { service: "mysql-cluster".to_string(), number: 1186, is_open: None });
    t.push(Port { service: "vmrdp".to_string(), number: 2179, is_open: None });
    t.push(Port { service: "llsurfup-http".to_string(), number: 1183, is_open: None });
    t.push(Port { service: "keyshadow".to_string(), number: 19315, is_open: None });
    t.push(Port { service: "keysrvr".to_string(), number: 19283, is_open: None });
    t.push(Port { service: "iss-mgmt-ssl".to_string(), number: 3995, is_open: None });
    t.push(Port { service: "indy".to_string(), number: 5963, is_open: None });
    t.push(Port { service: "hpvmmcontrol".to_string(), number: 1124, is_open: None });
    t.push(Port { service: "fmtp".to_string(), number: 8500, is_open: None });
    t.push(Port { service: "ff-annunc".to_string(), number: 1089, is_open: None });
    t.push(Port { service: "emcrmirccd".to_string(), number: 10004, is_open: None });
    t.push(Port { service: "dif-port".to_string(), number: 2251, is_open: None });
    t.push(Port { service: "cplscrambler-in".to_string(), number: 1087, is_open: None });
    t.push(Port { service: "xmpp-bosh".to_string(), number: 5280, is_open: None });
    t.push(Port { service: "avocent-adsap".to_string(), number: 3871, is_open: None });
    t.push(Port { service: "arepa-cas".to_string(), number: 3030, is_open: None });
    t.push(Port { service: "iphone-sync".to_string(), number: 62078, is_open: None });
    t.push(Port { service: "xmltec-xmlmail".to_string(), number: 9091, is_open: None });
    t.push(Port { service: "xgrid".to_string(), number: 4111, is_open: None });
    t.push(Port { service: "writesrv".to_string(), number: 1334, is_open: None });
    t.push(Port { service: "winshadow".to_string(), number: 3261, is_open: None });
    t.push(Port { service: "windb".to_string(), number: 2522, is_open: None });
    t.push(Port { service: "wherehoo".to_string(), number: 5859, is_open: None });
    t.push(Port { service: "visionpyramid".to_string(), number: 1247, is_open: None });
    t.push(Port { service: "unknown".to_string(), number: 9944, is_open: None });
    t.push(Port { service: "unknown".to_string(), number: 9943, is_open: None });
    t.push(Port { service: "unknown".to_string(), number: 9110, is_open: None });
    t.push(Port { service: "unknown".to_string(), number: 8654, is_open: None });
    t.push(Port { service: "unknown".to_string(), number: 8254, is_open: None });
    t.push(Port { service: "unknown".to_string(), number: 8180, is_open: None });
    t.push(Port { service: "unknown".to_string(), number: 8011, is_open: None });
    t
}

fn chunk_13() -> (t: Vec<Port>)
    ensures
        t@.len() == 50,
        forall|i: int| 0 <= i < t@.len() ==> entry_matches(#[trigger] t@[i], chunk_entry_13(i)),
        forall|i: int| 0 <= i < t@.len() ==> table_entry_ok(#[trigger] t@[i]),
{
    let mut t: Vec<Port> = Vec::new();
    t.push(Port { service: "unknown".to_string(), number: 7512, is_open: None });
    t.push(Port { service: "unknown".to_string(), number: 7435, is_open: None });
    t.push(Port { service: "unknown".to_string(), number: 7103, is_open: None });
    t.push(Port { service: "unknown".to_string(), number: 61900, is_open: None });
    t.push(Port { service: "unknown".to_string(), number: 61532, is_open: None });
    t.push(Port { service: "unknown".to_string(), number: 5922, is_open: None });
    t.push(Port { service: "unknown".to_string(), number: 5915, is_open: None });
    t.push(Port { service: "unknown".to_string(), number: 5904, is_open: None });
    t.push(Port { service: "unknown".to_string(), number: 5822, is_open: None });
    t.push(Port { service: "unknown".to_string(), number: 56738, is_open: None });
    t.push(Port { service: "unknown".to_string(), number: 55055, is_open: None });
    t.push(Port { service: "unknown".to_string(), number: 51493, is_open: None });
    t.push(Port { service: "unknown".to_string(), number: 50636, is_open: None });
    t.push(Port { service: "unknown".to_string(), number: 50389, is_open: None });
    t.push(Port { service: "unknown".to_string(), number: 49175, is_open: None });
    t.push(Port { service: "unknown".to_string(), number: 49165, is_open: None });
    t.push(Port { service: "unknown".to_string(), number: 49163, is_open: None });
    t.push(Port { service: "unknown".to_string(), number: 3546, is_open: None });
    t.push(Port { service: "unknown".to_string(), number: 32784, is_open: None });
    t.push(Port { service: "unknown".to_string(), number: 27355, is_open: None });
    t.push(Port { service: "unknown".to_string(), number: 27353, is_open: None });
    t.push(Port { service: "unknown".to_string(), number: 27352, is_open: None });
    t.push(Port { service: "unknown".to_string(), number: 24444, is_open: None });
    t.push(Port { service: "unknown".to_string(), number: 19780, is_open: None });
    t.push(Port { service: "unknown".to_string(), number: 18988, is_open: None });
    t.push(Port { service: "unknown".to_string(), number: 16012, is_open: None });
    t.push(Port { service: "unknown".to_string(), number: 15742, is_open: None });
    t.push(Port { service: "unknown".to_string(), number: 10778, is_open: None });
    t.push(Port { service: "pxc-spvr".to_string(), number: 4006, is_open: None });
    t.push(Port { service: "pktcable-cops".to_string(), number: 2126, is_open: None });
    t.push(Port { service: "n1-fwp".to_string(), number: 4446, is_open: None });
    t.push(Port { service: "igrs".to_string(), number: 3880, is_open: None });
    t.push(Port { service: "hp-hcip".to_string(), number: 1782, is_open: None });
    t.push(Port { service: "dproxy".to_string(), number: 1296, is_open: None });
    t.push(Port { service: "distinct32".to_string(), number: 9998, is_open: None });
    t.push(Port { service: "tor-trans".to_string(), number: 9040, is_open: None });
    t.push(Port { service: "sometimes-rpc21".to_string(), number: 32779, is_open: None });
    t.push(Port { service: "exp1".to_string(), number: 1021, is_open: None });
    t.push(Port { service: "sometimes-rpc17".to_string(), number: 32777, is_open: None });
    t.push(Port { service: "servexec".to_string(), number: 2021, is_open: None });
    t.push(Port { service: "sometimes-rpc19".to_string(), number: 32778, is_open: None });
    t.push(Port { service: "sco-sysmgr".to_string(), number: 616, is_open: None });
    t.push(Port { service: "doom".to_string(), number: 666, is_open: None });
    t.push(Port { service: "epp".to_string(), number: 700, is_open: None });
    t.push(Port { service: "vnc-http-2".to_string(), number: 5802, is_open: None });
    t.push(Port { service: "rwhois".to_string(), number: 4321, is_open: None });
    t.push(Port { service: "ekshell".to_string(), number: 545, is_open: None });
    t.push(Port { service: "ingreslock".to_string(), number: 1524, is_open: None });
    t.push(Port { service: "msql".to_string(), number: 1112, is_open: None });
    t.push(Port { service: "compaqdiag".to_string(), number: 49400, is_open: None });
    t
}

fn chunk_14() -> (t: Vec<Port>)
    ensures
        t@.len() == 50,
        forall|i: int| 0 <= i < t@.len() ==> entry_matches(#[trigger] t@[i], chunk_entry_14(i)),
        forall|i: int| 0 <= i < t@.len() ==> table_entry_ok(#[trigger] t@[i]),
{
    let mut t: Vec<Port> = Vec::new();
    t.push(Port { service: "ctf".to_string(), number: 84, is_open: None });
    t.push(Port { service: "landesk-cba".to_string(), number: 38292, is_open: None });
    t.push(Port { service: "lam".to_string(), number: 2040, is_open: None });
    t.push(Port { service: "sometimes-rpc23".to_string(), number: 32780, is_open: None });
    t.push(Port { service: "deslogind".to_string(), number: 3006, is_open: None });
    t.push(Port { service: "kx".to_string(), number: 2111, is_open: None });
    t.push(Port { service: "ansoft-lm-2".to_string(), number: 1084, is_open: None });
    t.push(Port { service: "issd".to_string(), number: 1600, is_open: None });
    t.push(Port { service: "dls-monitor".to_string(), number: 2048, is_open: None });
    t.push(Port { service: "sybase".to_string(), number: 2638, is_open: None });
    t.push(Port { service: "DragonIDSConsole".to_string(), number: 9111, is_open: None });
    t.push(Port { service: "napster".to_string(), number: 6699, is_open: None });
    t.push(Port { service: "osxwebadmin".to_string(), number: 16080, is_open: None });
    t.push(Port { service: "powerchuteplus".to_string(), number: 6547, is_open: None });
    t.push(Port { service: "X11:7".to_string(), number: 6007, is_open: None });
    t.push(Port { service: "virtual-places".to_string(), number: 1533, is_open: None });
    t.push(Port { service: "isqlplus".to_string(), number: 5560, is_open: None });
    t.push(Port { service: "ekshell".to_string(), number: 2106, is_open: None });
    t.push(Port { service: "ies-lm".to_string(), number: 1443, is_open: None });
    t.push(Port { service: "disclose".to_string(), number: 667, is_open: None });
    t.push(Port { service: "unknown".to_string(), number: 720, is_open: None });
    t.push(Port { service: "scoremgr".to_string(), number: 2034, is_open: None });
    t.push(Port { service: "dsf".to_string(), number: 555, is_open: None });
    t.push(Port { service: "device".to_string(), number: 801, is_open: None });
    t.push(Port { service: "xnm-clear-text".to_string(), number: 3221, is_open: None });
    t.push(Port { service: "x11".to_string(), number: 6025, is_open: None });
    t.push(Port { service: "wormux".to_string(), number: 3826, is_open: None });
    t.push(Port { service: "wap-wsp".to_string(), number: 9200, is_open: None });
    t.push(Port { service: "wag-service".to_string(), number: 2608, is_open: None });
    t.push(Port { service: "vrml-multi-use".to_string(), number: 4279, is_open: None });
    t.push(Port { service: "vmsvc-2".to_string(), number: 7025, is_open: None });
    t.push(Port { service: "vce".to_string(), number: 11111, is_open: None });
    t.push(Port { service: "beserver-msg-q".to_string(), number: 3527, is_open: None });
    t.push(Port { service: "unizensus".to_string(), number: 1151, is_open: None });
    t.push(Port { service: "trivnet1".to_string(), number: 8200, is_open: None });
    t.push(Port { service: "tmi".to_string(), number: 8300, is_open: None });
    t.push(Port { service: "tsa".to_string(), number: 6689, is_open: None });
    t.push(Port { service: "kca-service".to_string(), number: 9878, is_open: None });
    t.push(Port { service: "swdtp-sv".to_string(), number: 10009, is_open: None });
    t.push(Port { service: "sunwebadmin".to_string(), number: 8800, is_open: None });
    t.push(Port { service: "unieng".to_string(), number: 5730, is_open: None });
    t.push(Port { service: "ms-olap2".to_string(), number: 2394, is_open: None });
    t.push(Port { service: "ms-olap1".to_string(), number: 2393, is_open: None });
    t.push(Port { service: "msolap-ptp2".to_string(), number: 2725, is_open: None });
    t.push(Port { service: "sip-tls".to_string(), number: 5061, is_open: None });
    t.push(Port { service: "sane-port".to_string(), number: 6566, is_open: None });
    t.push(Port { service: "cisco-aqos".to_string(), number: 9081, is_open: None });
    t.push(Port { service: "rrac".to_string(), number: 5678, is_open: None });
    t.push(Port { service: "pwgpsi".to_string(), number: 3800, is_open: None });
    t.push(Port { service: "gds-adppiw-db".to_string(), number: 4550, is_open: None });
    t
}

fn chunk_15() -> (t: Vec<Port>)
    ensures
        t@.len() == 50,
        forall|i: int| 0 <= i < t@.len() ==> entry_matches(#[trigger] t@[i], chunk_entry_15(i)),
        forall|i: int| 0 <= i < t@.len() ==> table_entry_ok(#[trigger] t@[i]),
{
    let mut t: Vec<Port> = Vec::new();
    t.push(Port { service: "onscreen".to_string(), number: 5080, is_open: None });
    t.push(Port { service: "nucleus-sand".to_string(), number: 1201, is_open: None });
    t.push(Port { service: "poweronnud".to_string(), number: 3168, is_open: None });
    t.push(Port { service: "neto-dcs".to_string(), number: 3814, is_open: None });
    t.push(Port { service: "mysql-cm-agent".to_string(), number: 1862, is_open: None });
    t.push(Port { service: "mini-sql".to_string(), number: 1114, is_open: None });
    t.push(Port { service: "mcer-port".to_string(), number: 6510, is_open: None });
    t.push(Port { service: "mupdate".to_string(), number: 3905, is_open: None });
    t.push(Port { service: "m2mservices".to_string(), number: 8383, is_open: None });
    t.push(Port { service: "listcrt-port-2".to_string(), number: 3914, is_open: None });
    t.push(Port { service: "lanrevserver".to_string(), number: 3971, is_open: None });
    t.push(Port { service: "apocd".to_string(), number: 3809, is_open: None });
    t.push(Port { service: "jtnetd-server".to_string(), number: 5033, is_open: None });
    t.push(Port { service: "imqbrokerd".to_string(), number: 7676, is_open: None });
    t.push(Port { service: "802-11-iapp".to_string(), number: 3517, is_open: None });
    t.push(Port { service: "hfcs".to_string(), number: 4900, is_open: None });
    t.push(Port { service: "ovsam-mgmt".to_string(), number: 3869, is_open: None });
    t.push(Port { service: "git".to_string(), number: 9418, is_open: None });
    t.push(Port { service: "funk-dialout".to_string(), number: 2909, is_open: None });
    t.push(Port { service: "fotogcad".to_string(), number: 3878, is_open: None });
    t.push(Port { service: "fs-agent".to_string(), number: 8042, is_open: None });
    t.push(Port { service: "ff-sm".to_string(), number: 1091, is_open: None });
    t.push(Port { service: "ff-fms".to_string(), number: 1090, is_open: None });
    t.push(Port { service: "exasoftport1".to_string(), number: 3920, is_open: None });
    t.push(Port { service: "esp".to_string(), number: 6567, is_open: None });
    t.push(Port { service: "encrypted_admin".to_string(), number: 1138, is_open: None });
    t.push(Port { service: "emcads".to_string(), number: 3945, is_open: None });
    t.push(Port { service: "dossier".to_string(), number: 1175, is_open: None });
    t.push(Port { service: "documentum_s".to_string(), number: 10003, is_open: None });
    t.push(Port { service: "dsc".to_string(), number: 3390, is_open: None });
    t.push(Port { service: "dandv-tester".to_string(), number: 3889, is_open: None });
    t.push(Port { service: "caspssl".to_string(), number: 1131, is_open: None });
    t.push(Port { service: "blp3".to_string(), number: 8292, is_open: None });
    t.push(Port { service: "biotic".to_string(), number: 5087, is_open: None });
    t.push(Port { service: "bnetgame".to_string(), number: 1119, is_open: None });
    t.push(Port { service: "ardus-mtrns".to_string(), number: 1117, is_open: None });
    t.push(Port { service: "asr".to_string(), number: 7800, is_open: None });
    t.push(Port { service: "appserv-http".to_string(), number: 4848, is_open: None });
    t.push(Port { service: "fmsas".to_string(), number: 16000, is_open: None });
    t.push(Port { service: "active-net".to_string(), number: 3324, is_open: None });
    t.push(Port { service: "active-net".to_string(), number: 3322, is_open: None });
    t.push(Port { service: "3exmp".to_string(), number: 5221, is_open: None });
    t.push(Port { service: "upnotifyp".to_string(), number: 4445, is_open: None });
    t.push(Port { service: "unknown".to_string(), number: 9917, is_open: None });
    t.push(Port { service: "unknown".to_string(), number: 9575, is_open: None });
    t.push(Port { service: "unknown".to_string(), number: 9099, is_open: None });
    t.push(Port { service: "unknown".to_string(), number: 9003, is_open: None });
    t.push(Port { service: "unknown".to_string(), number: 8290, is_open: None });
    t.push(Port { service: "unknown".to_string(), number: 8099, is_open: None });
    t.push(Port { service: "unknown".to_string(), number: 8093, is_open: None });
    t
}

fn chunk_16() -> (t: Vec<Port>)
    ensures
        t@.len() == 50,
        forall|i: int| 0 <= i < t@.len() ==> entry_matches(#[trigger] t@[i], chunk_entry_16(i)),
        forall|i: int| 0 <= i < t@.len() ==> table_entry_ok(#[trigger] t@[i]),
{
    let mut t: Vec<Port> = Vec::new();
    t.push(Port { service: "unknown".to_string(), number: 8045, is_open: None });
    t.push(Port { service: "unknown".to_string(), number: 7921, is_open: None });
    t.push(Port { service: "unknown".to_string(), number: 7920, is_open: None });
    t.push(Port { service: "unknown".to_string(), number: 7496, is_open: None });
    t.push(Port { service: "unknown".to_string(), number: 6839, is_open: None });
    t.push(Port { service: "unknown".to_string(), number: 6792, is_open: None });
    t.push(Port { service: "unknown".to_string(), number: 6779, is_open: None });
    t.push(Port { service: "unknown".to_string(), number: 6692, is_open: None });
    t.push(Port { service: "unknown".to_string(), number: 6565, is_open: None });
    t.push(Port { service: "unknown".to_string(), number: 60443, is_open: None });
    t.push(Port { service: "unknown".to_string(), number: 5952, is_open: None });
    t.push(Port { service: "unknown".to_string(), number: 5950, is_open: None });
    t.push(Port { service: "unknown".to_string(), number: 5907, is_open: None });
    t.push(Port { service: "unknown".to_string(), number: 5906, is_open: None });
    t.push(Port { service: "unknown".to_string(), number: 5862, is_open: None });
    t.push(Port { service: "unknown".to_string(), number: 5850, is_open: None });
    t.push(Port { service: "unknown".to_string(), number: 5815, is_open: None });
    t.push(Port { service: "unknown".to_string(), number: 5811, is_open: None });
    t.push(Port { service: "unknown".to_string(), number: 57797, is_open: None });
    t.push(Port { service: "unknown".to_string(), number: 56737, is_open: None });
    t.push(Port { service: "unknown".to_string(), number: 5544, is_open: None });
    t.push(Port { service: "unknown".to_string(), number: 55056, is_open: None });
    t.push(Port { service: "unknown".to_string(), number: 5440, is_open: None });
    t.push(Port { service: "unknown".to_string(), number: 54328, is_open: None });
    t.push(Port { service: "unknown".to_string(), number: 54045, is_open: None });
    t.push(Port { service: "unknown".to_string(), number: 52848, is_open: None });
    t.push(Port { service: "unknown".to_string(), number: 52673, is_open: None });
    t.push(Port { service: "unknown".to_string(), number: 50500, is_open: None });
    t.push(Port { service: "unknown".to_string(), number: 50300, is_open: None });
    t.push(Port { service: "unknown".to_string(), number: 49176, is_open: None });
    t.push(Port { service: "unknown".to_string(), number: 49167, is_open: None });
    t.push(Port { service: "unknown".to_string(), number: 49161, is_open: None });
    t.push(Port { service: "unknown".to_string(), number: 44501, is_open: None });
    t.push(Port { service: "unknown".to_string(), number: 44176, is_open: None });
    t.push(Port { service: "unknown".to_string(), number: 41511, is_open: None });
    t.push(Port { service: "unknown".to_string(), number: 40911, is_open: None });
    t.push(Port { service: "unknown".to_string(), number: 32785, is_open: None });
    t.push(Port { service: "unknown".to_string(), number: 32783, is_open: None });
    t.push(Port { service: "unknown".to_string(), number: 30951, is_open: None });
    t.push(Port { service: "unknown".to_string(), number: 27356, is_open: None });
    t.push(Port { service: "unknown".to_string(), number: 26214, is_open: None });
    t.push(Port { service: "unknown".to_string(), number: 25735, is_open: None });
    t.push(Port { service: "unknown".to_string(), number: 19350, is_open: None });
    t.push(Port { service: "unknown".to_string(), number: 18101, is_open: None });
    t.push(Port { service: "unknown".to_string(), number: 18040, is_open: None });
    t.push(Port { service: "unknown".to_string(), number: 17877, is_open: None });
    t.push(Port { service: "unknown".to_string(), number: 16113, is_open: None });
    t.push(Port { service: "unknown".to_string(), number: 15004, is_open: None });
    t.push(Port { service: "unknown".to_string(), number: 14441, is_open: None });
    t.push(Port { service: "unknown".to_string(), number: 12265, is_open: None });
    t
}

fn chunk_17() -> (t: Vec<Port>)
    ensures
        t@.len() == 50,
        forall|i: int| 0 <= i < t@.len() ==> entry_matches(#[trigger] t@[i], chunk_entry_17(i)),
        forall|i: int| 0 <= i < t@.len() ==> table_entry_ok(#[trigger] t@[i]),
{
    let mut t: Vec<Port> = Vec::new();
    t.push(Port { service: "unknown".to_string(), number: 12174, is_open: None });
    t.push(Port { service: "unknown".to_string(), number: 10215, is_open: None });
    t.push(Port { service: "unknown".to_string(), number: 10180, is_open: None });
    t.push(Port { service: "tram".to_string(), number: 4567, is_open: None });
    t.push(Port { service: "synchronet-db".to_string(), number: 6100, is_open: None });
    t.push(Port { service: "pxc-roid".to_string(), number: 4004, is_open: None });
    t.push(Port { service: "pxc-pin".to_string(), number: 4005, is_open: None });
    t.push(Port { service: "oa-system".to_string(), number: 8022, is_open: None });
    t.push(Port { service: "monkeycom".to_string(), number: 9898, is_open: None });
    t.push(Port { service: "irdmi2".to_string(), number: 7999, is_open: None });
    t.push(Port { service: "excw".to_string(), number: 1271, is_open: None });
    t.push(Port { service: "dmidi".to_string(), number: 1199, is_open: None });
    t.push(Port { service: "cgms".to_string(), number: 3003, is_open: None });
    t.push(Port { service: "availant-mgr".to_string(), number: 1122, is_open: None });
    t.push(Port { service: "3d-nfsd".to_string(), number: 2323, is_open: None });
    t.push(Port { service: "xtell".to_string(), number: 4224, is_open: None });
    t.push(Port { service: "down".to_string(), number: 2022, is_open: None });
    t.push(Port { service: "sco-dtmgr".to_string(), number: 617, is_open: None });
    t.push(Port { service: "multiling-http".to_string(), number: 777, is_open: None });
    t.push(Port { service: "onmux".to_string(), number: 417, is_open: None });
    t.push(Port { service: "iris-xpcs".to_string(), number: 714, is_open: None });
    t.push(Port { service: "gnutella".to_string(), number: 6346, is_open: None });
    t.push(Port { service: "unknown".to_string(), number: 981, is_open: None });
    t.push(Port { service: "unknown".to_string(), number: 722, is_open: None });
    t.push(Port { service: "unknown".to_string(), number: 1009, is_open: None });
    t.push(Port { service: "maybe-veritas".to_string(), number: 4998, is_open: None });
    t.push(Port { service: "gopher".to_string(), number: 70, is_open: None });
    t.push(Port { service: "sns_credit".to_string(), number: 1076, is_open: None });
    t.push(Port { service: "ncd-conf".to_string(), number: 5999, is_open: None });
    t.push(Port { service: "amandaidx".to_string(), number: 10082, is_open: None });
    t.push(Port { service: "webster".to_string(), number: 765, is_open: None });
    t.push(Port { service: "unknown".to_string(), number: 301, is_open: None });
    t.push(Port { service: "ncp".to_string(), number: 524, is_open: None });
    t.push(Port { service: "mecomm".to_string(), number: 668, is_open: None });
    t.push(Port { service: "interbase".to_string(), number: 2041, is_open: None });
    t.push(Port { service: "X11:9".to_string(), number: 6009, is_open: None });
    t.push(Port { service: "timbuktu-srv1".to_string(), number: 1417, is_open: None });
    t.push(Port { service: "ms-sql-m".to_string(), number: 1434, is_open: None });
    t.push(Port { service: "esro-gen".to_string(), number: 259, is_open: None });
    t.push(Port { service: "coldfusion-auth".to_string(), number: 44443, is_open: None });
    t.push(Port { service: "bigbrother".to_string(), number: 1984, is_open: None });
    t.push(Port { service: "avocentkvm".to_string(), number: 2068, is_open: None });
    t.push(Port { service: "afs3-kaserver".to_string(), number: 7004, is_open: None });
    t.push(Port { service: "unknown".to_string(), number: 1007, is_open: None });
    t.push(Port { service: "unicall".to_string(), number: 4343, is_open: None });
    t.push(Port { service: "silverplatter".to_string(), number: 416, is_open: None });
    t.push(Port { service: "objectmanager".to_string(), number: 2038, is_open: None });
    t.push(Port { service: "X11:6".to_string(), number: 6006, is_open: None });
    t.push(Port { service: "pop2".to_string(), number: 109, is_open: None });
    t.push(Port { service: "rww".to_string(), number: 4125, is_open: None });
    t
}

fn chunk_18() -> (t: Vec<Port>)
    ensures
        t@.len() == 50,
        forall|i: int| 0 <= i < t@.len() ==> entry_matches(#[trigger] t@[i], chunk_entry_18(i)),
        forall|i: int| 0 <= i < t@.len() ==> table_entry_ok(#[trigger] t@[i]),
{
    let mut t: Vec<Port> = Vec::new();
    t.push(Port { service: "ibm_wrless_lan".to_string(), number: 1461, is_open: None });
    t.push(Port { service: "jetdirect".to_string(), number: 9103, is_open: None });
    t.push(Port { service: "xact-backup".to_string(), number: 911, is_open: None });
    t.push(Port { service: "unknown".to_string(), number: 726, is_open: None });
    t.push(Port { service: "surf".to_string(), number: 1010, is_open: None });
    t.push(Port { service: "sdfunc".to_string(), number: 2046, is_open: None });
    t.push(Port { service: "imsldoc".to_string(), number: 2035, is_open: None });
    t.push(Port { service: "dlip".to_string(), number: 7201, is_open: None });
    t.push(Port { service: "asipregistry".to_string(), number: 687, is_open: None });
    t.push(Port { service: "raid-am".to_string(), number: 2013, is_open: None });
    t.push(Port { service: "dvs".to_string(), number: 481, is_open: None });
    t.push(Port { service: "locus-map".to_string(), number: 125, is_open: None });
    t.push(Port { service: "irc".to_string(), number: 6669, is_open: None });
    t.push(Port { service: "irc".to_string(), number: 6668, is_open: None });
    t.push(Port { service: "iss-console-mgr".to_string(), number: 903, is_open: None });
    t.push(Port { service: "esl-lm".to_string(), number: 1455, is_open: None });
    t.push(Port { service: "corba-iiop".to_string(), number: 683, is_open: None });
    t.push(Port { service: "unknown".to_string(), number: 1011, is_open: None });
    t.push(Port { service: "isis-bcast".to_string(), number: 2043, is_open: None });
    t.push(Port { service: "dls".to_string(), number: 2047, is_open: None });
    t.push(Port { service: "fw1-secureremote".to_string(), number: 256, is_open: None });
    t.push(Port { service: "nping-echo".to_string(), number: 9929, is_open: None });
    t.push(Port { service: "ncd-diag".to_string(), number: 5998, is_open: None });
    t.push(Port { service: "imsp".to_string(), number: 406, is_open: None });
    t.push(Port { service: "Elite".to_string(), number: 31337, is_open: None });
    t.push(Port { service: "coldfusion-auth".to_string(), number: 44442, is_open: None });
    t.push(Port { service: "spamassassin".to_string(), number: 783, is_open: None });
    t.push(Port { service: "unknown".to_string(), number: 843, is_open: None });
    t.push(Port { service: "isis".to_string(), number: 2042, is_open: None });
    t.push(Port { service: "cdfunc".to_string(), number: 2045, is_open: None });
    t.push(Port { service: "yo-main".to_string(), number: 4040, is_open: None });
    t.push(Port { service: "x9-icue".to_string(), number: 1145, is_open: None });
    t.push(Port { service: "x11".to_string(), number: 6060, is_open: None });
    t.push(Port { service: "x11".to_string(), number: 6051, is_open: None });
    t.push(Port { service: "wysdmc".to_string(), number: 3916, is_open: None });
    t.push(Port { service: "tungsten-https".to_string(), number: 9443, is_open: None });
    t.push(Port { service: "wso2esb-console".to_string(), number: 9444, is_open: None });
    t.push(Port { service: "westell-stats".to_string(), number: 1875, is_open: None });
    t.push(Port { service: "watchme-7272".to_string(), number: 7272, is_open: None });
    t.push(Port { service: "vrml-multi-use".to_string(), number: 4252, is_open: None });
    t.push(Port { service: "vrml-multi-use".to_string(), number: 4200, is_open: None });
    t.push(Port { service: "vmsvc".to_string(), number: 7024, is_open: None });
    t.push(Port { service: "veritas_pbx".to_string(), number: 1556, is_open: None });
    t.push(Port { service: "vnetd".to_string(), number: 13724, is_open: None });
    t.push(Port { service: "mxomss".to_string(), number: 1141, is_open: None });
    t.push(Port { service: "univ-appserver".to_string(), number: 1233, is_open: None });
    t.push(Port { service: "ultraseek-http".to_string(), number: 8765, is_open: None });
    t.push(Port { service: "trim".to_string(), number: 1137, is_open: None });
    t.push(Port { service: "thrp".to_string(), number: 3963, is_open: None });
    t.push(Port { service: "teamviewer".to_string(), number: 5938, is_open: None });
    t
}

fn chunk_19() -> (t: Vec<Port>)
    ensures
        t@.len() == 50,
        forall|i: int| 0 <= i < t@.len() ==> entry_matches(#[trigger] t@[i], chunk_entry_19(i)),
        forall|i: int| 0 <= i < t@.len() ==> table_entry_ok(#[trigger] t@[i]),
{
    let mut t: Vec<Port> = Vec::new();
    t.push(Port { service: "sun-as-jpda".to_string(), number: 9191, is_open: None });
    t.push(Port { service: "sun-as-iiops-ca".to_string(), number: 3808, is_open: None });
    t.push(Port { service: "sun-as-jmxrmi".to_string(), number: 8686, is_open: None });
    t.push(Port { service: "starfish".to_string(), number: 3981, is_open: None });
    t.push(Port { service: "sso-service".to_string(), number: 2710, is_open: None });
    t.push(Port { service: "sse-app-config".to_string(), number: 3852, is_open: None });
    t.push(Port { service: "spw-dnspreload".to_string(), number: 3849, is_open: None });
    t.push(Port { service: "sops".to_string(), number: 3944, is_open: None });
    t.push(Port { service: "sscan".to_string(), number: 3853, is_open: None });
    t.push(Port { service: "nsesrvr".to_string(), number: 9988, is_open: None });
    t.push(Port { service: "sddp".to_string(), number: 1163, is_open: None });
    t.push(Port { service: "silverpeakcomm".to_string(), number: 4164, is_open: None });
    t.push(Port { service: "scp".to_string(), number: 3820, is_open: None });
    t.push(Port { service: "servicetags".to_string(), number: 6481, is_open: None });
    t.push(Port { service: "smap".to_string(), number: 3731, is_open: None });
    t.push(Port { service: "sdl-ets".to_string(), number: 5081, is_open: None });
    t.push(Port { service: "safetynetp".to_string(), number: 40000, is_open: None });
    t.push(Port { service: "sac".to_string(), number: 8097, is_open: None });
    t.push(Port { service: "rsip".to_string(), number: 4555, is_open: None });
    t.push(Port { service: "asap-tcp".to_string(), number: 3863, is_open: None });
    t.push(Port { service: "routematch".to_string(), number: 1287, is_open: None });
    t.push(Port { service: "rsqlserver".to_string(), number: 4430, is_open: None });
    t.push(Port { service: "raqmon-pdu".to_string(), number: 7744, is_open: None });
    t.push(Port { service: "radius".to_string(), number: 1812, is_open: None });
    t.push(Port { service: "qo-secure".to_string(), number: 7913, is_open: None });
    t.push(Port { service: "qsm-remote".to_string(), number: 1166, is_open: None });
    t.push(Port { service: "qsm-proxy".to_string(), number: 1164, is_open: None });
    t.push(Port { service: "qsm-gui".to_string(), number: 1165, is_open: None });
    t.push(Port { service: "qbdb".to_string(), number: 8019, is_open: None });
    t.push(Port { service: "qb-db-server".to_string(), number: 10160, is_open: None });
    t.push(Port { service: "playsta2-app".to_string(), number: 4658, is_open: None });
    t.push(Port { service: "owms".to_string(), number: 7878, is_open: None });
    t.push(Port { service: "opennl-voice".to_string(), number: 1259, is_open: None });
    t.push(Port { service: "obrpd".to_string(), number: 1092, is_open: None });
    t.push(Port { service: "opsession-srvr".to_string(), number: 3304, is_open: None });
    t.push(Port { service: "opsession-prxy".to_string(), number: 3307, is_open: None });
    t.push(Port { service: "oma-dcdocbs".to_string(), number: 7278, is_open: None });
    t.push(Port { service: "oem-agent".to_string(), number: 3872, is_open: None });
    t.push(Port { service: "octopus".to_string(), number: 10008, is_open: None });
    t.push(Port { service: "nitrogen".to_string(), number: 7725, is_open: None });
    t.push(Port { service: "networklenss".to_string(), number: 3410, is_open: None });
    t.push(Port { service: "netop-school".to_string(), number: 1971, is_open: None });
    t.push(Port { service: "nw-license".to_string(), number: 3697, is_open: None });
    t.push(Port { service: "nav-port".to_string(), number: 3859, is_open: None });
    t.push(Port { service: "must-p2p".to_string(), number: 3514, is_open: None });
    t.push(Port { service: "munin".to_string(), number: 4949, is_open: None });
    t.push(Port { service: "vrxpservman".to_string(), number: 4147, is_open: None });
    t.push(Port { service: "mevent".to_string(), number: 7900, is_open: None });
    t.push(Port { service: "mdns".to_string(), number: 5353, is_open: None });
    t.push(Port { service: "msr-plugin-port".to_string(), number: 3931, is_open: None });
    t
}

fn chunk_20() -> (t: Vec<Port>)
    ensures
        t@.len() == 50,
        forall|i: int| 0 <= i < t@.len() ==> entry_matches(#[trigger] t@[i], chunk_entry_20(i)),
        forall|i: int| 0 <= i < t@.len() ==> table_entry_ok(#[trigger] t@[i]),
{
    let mut t: Vec<Port> = Vec::new();
    t.push(Port { service: "msi-cps-rm".to_string(), number: 8675, is_open: None });
    t.push(Port { service: "miva-mqs".to_string(), number: 1277, is_open: None });
    t.push(Port { service: "mqe-broker".to_string(), number: 3957, is_open: None });
    t.push(Port { service: "mpc-lifenet".to_string(), number: 1213, is_open: None });
    t.push(Port { service: "ms-olap3".to_string(), number: 2382, is_open: None });
    t.push(Port { service: "mshvlm".to_string(), number: 6600, is_open: None });
    t.push(Port { service: "lrs-paging".to_string(), number: 3700, is_open: None });
    t.push(Port { service: "lotusmtap".to_string(), number: 3007, is_open: None });
    t.push(Port { service: "lorica-in".to_string(), number: 4080, is_open: None });
    t.push(Port { service: "ltp-deepspace".to_string(), number: 1113, is_open: None });
    t.push(Port { service: "landmarks".to_string(), number: 3969, is_open: None });
    t.push(Port { service: "kvm-via-ip".to_string(), number: 1132, is_open: None });
    t.push(Port { service: "jtag-server".to_string(), number: 1309, is_open: None });
    t.push(Port { service: "itactionserver2".to_string(), number: 7281, is_open: None });
    t.push(Port { service: "item".to_string(), number: 3848, is_open: None });
    t.push(Port { service: "imoguia-port".to_string(), number: 3907, is_open: None });
    t.push(Port { service: "iconp".to_string(), number: 3972, is_open: None });
    t.push(Port { service: "ianywhere-dbns".to_string(), number: 3968, is_open: None });
    t.push(Port { service: "hpss-ndapi".to_string(), number: 1217, is_open: None });
    t.push(Port { service: "hpvmmdata".to_string(), number: 1126, is_open: None });
    t.push(Port { service: "hpvirtgrp".to_string(), number: 5223, is_open: None });
    t.push(Port { service: "ovsam-d-agent".to_string(), number: 3870, is_open: None });
    t.push(Port { service: "homeportal-web".to_string(), number: 3941, is_open: None });
    t.push(Port { service: "hiperscan-id".to_string(), number: 8293, is_open: None });
    t.push(Port { service: "h323hostcallsc".to_string(), number: 1300, is_open: None });
    t.push(Port { service: "h323gatestat".to_string(), number: 1719, is_open: None });
    t.push(Port { service: "h2250-annex-g".to_string(), number: 2099, is_open: None });
    t.push(Port { service: "gsmp".to_string(), number: 6068, is_open: None });
    t.push(Port { service: "gilatskysurfer".to_string(), number: 3013, is_open: None });
    t.push(Port { service: "gds_db".to_string(), number: 3050, is_open: None });
    t.push(Port { service: "fnet-remote-ui".to_string(), number: 1174, is_open: None });
    t.push(Port { service: "faxstfx-port".to_string(), number: 3684, is_open: None });
    t.push(Port { service: "eyetv".to_string(), number: 2170, is_open: None });
    t.push(Port { service: "sitewatch".to_string(), number: 3792, is_open: None });
    t.push(Port { service: "etebac5".to_string(), number: 1216, is_open: None });
    t.push(Port { service: "esri_sde".to_string(), number: 5151, is_open: None });
    t.push(Port { service: "empowerid".to_string(), number: 7080, is_open: None });
    t.push(Port { service: "easyengine".to_string(), number: 22222, is_open: None });
    t.push(Port { service: "oidsr".to_string(), number: 4143, is_open: None });
    t.push(Port { service: "diameters".to_string(), number: 5868, is_open: None });
    t.push(Port { service: "ddi-tcp-2".to_string(), number: 8889, is_open: None });
    t.push(Port { service: "dbisamserver2".to_string(), number: 12006, is_open: None });
    t.push(Port { service: "rmpp".to_string(), number: 1121, is_open: None });
    t.push(Port { service: "d2000kernel".to_string(), number: 3119, is_open: None });
    t.push(Port { service: "cfg-cloud".to_string(), number: 8015, is_open: None });
    t.push(Port { service: "cefd-vmp".to_string(), number: 10023, is_open: None });
    t.push(Port { service: "acp-policy".to_string(), number: 3824, is_open: None });
    t.push(Port { service: "resacommunity".to_string(), number: 1154, is_open: None });
    t.push(Port { service: "commtact-http".to_string(), number: 20002, is_open: None });
    t.push(Port { service: "ciphire-serv".to_string(), number: 3888, is_open: None });
    t
}

fn chunk_21() -> (t: Vec<Port>)
    ensures
        t@.len() == 50,
        forall|i: int| 0 <= i < t@.len() ==> entry_matches(#[trigger] t@[i], chunk_entry_21(i)),
        forall|i: int| 0 <= i < t@.len() ==> table_entry_ok(#[trigger] t@[i]),
{
    let mut t: Vec<Port> = Vec::new();
    t.push(Port { service: "chimera-hwm".to_string(), number: 4009, is_open: None });
    t.push(Port { service: "csrpc".to_string(), number: 5063, is_open: None });
    t.push(Port { service: "cdbroker".to_string(), number: 3376, is_open: None });
    t.push(Port { service: "catchpole".to_string(), number: 1185, is_open: None });
    t.push(Port { service: "cajo-discovery".to_string(), number: 1198, is_open: None });
    t.push(Port { service: "caids-sensor".to_string(), number: 1192, is_open: None });
    t.push(Port { service: "intersys-cache".to_string(), number: 1972, is_open: None });
    t.push(Port { service: "casp".to_string(), number: 1130, is_open: None });
    t.push(Port { service: "bvtsonar".to_string(), number: 1149, is_open: None });
    t.push(Port { service: "bre".to_string(), number: 4096, is_open: None });
    t.push(Port { service: "boks".to_string(), number: 6500, is_open: None });
    t.push(Port { service: "blp4".to_string(), number: 8294, is_open: None });
    t.push(Port { service: "bv-is".to_string(), number: 3990, is_open: None });
    t.push(Port { service: "bv-agent".to_string(), number: 3993, is_open: None });
    t.push(Port { service: "ads-s".to_string(), number: 8016, is_open: None });
    t.push(Port { service: "an-pcp".to_string(), number: 3846, is_open: None });
    t.push(Port { service: "smauth-port".to_string(), number: 3929, is_open: None });
    t.push(Port { service: "alias".to_string(), number: 1187, is_open: None });
    t.push(Port { service: "alesquery".to_string(), number: 5074, is_open: None });
    t.push(Port { service: "amcs".to_string(), number: 8766, is_open: None });
    t.push(Port { service: "adobeserver-1".to_string(), number: 1102, is_open: None });
    t.push(Port { service: "acc-raid".to_string(), number: 2800, is_open: None });
    t.push(Port { service: "unknown".to_string(), number: 9941, is_open: None });
    t.push(Port { service: "unknown".to_string(), number: 9914, is_open: None });
    t.push(Port { service: "unknown".to_string(), number: 9815, is_open: None });
    t.push(Port { service: "unknown".to_string(), number: 9673, is_open: None });
    t.push(Port { service: "unknown".to_string(), number: 9643, is_open: None });
    t.push(Port { service: "unknown".to_string(), number: 9621, is_open: None });
    t.push(Port { service: "unknown".to_string(), number: 9501, is_open: None });
    t.push(Port { service: "unknown".to_string(), number: 9409, is_open: None });
    t.push(Port { service: "unknown".to_string(), number: 9198, is_open: None });
    t.push(Port { service: "unknown".to_string(), number: 9197, is_open: None });
    t.push(Port { service: "unknown".to_string(), number: 9098, is_open: None });
    t.push(Port { service: "unknown".to_string(), number: 8996, is_open: None });
    t.push(Port { service: "unknown".to_string(), number: 8987, is_open: None });
    t.push(Port { service: "unknown".to_string(), number: 8877, is_open: None });
    t.push(Port { service: "unknown".to_string(), number: 8676, is_open: None });
    t.push(Port { service: "unknown".to_string(), number: 8648, is_open: None });
    t.push(Port { service: "unknown".to_string(), number: 8540, is_open: None });
    t.push(Port { service: "unknown".to_string(), number: 8481, is_open: None });
    t.push(Port { service: "unknown".to_string(), number: 8385, is_open: None });
    t.push(Port { service: "unknown".to_string(), number: 8189, is_open: None });
    t.push(Port { service: "unknown".to_string(), number: 8098, is_open: None });
    t.push(Port { service: "unknown".to_string(), number: 8095, is_open: None });
    t.push(Port { service: "unknown".to_string(), number: 8050, is_open: None });
    t.push(Port { service: "unknown".to_string(), number: 7929, is_open: None });
    t.push(Port { service: "unknown".to_string(), number: 7770, is_open: None });
    t.push(Port { service: "unknown".to_string(), number: 7749, is_open: None });
    t.push(Port { service: "unknown".to_string(), number: 7438, is_open: None });
    t.push(Port { service: "unknown".to_string(), number: 7241, is_open: None });
    t
}

fn chunk_22() -> (t: Vec<Port>)
    ensures
        t@.len() == 50,
        forall|i: int| 0 <= i < t@.len() ==> entry_matches(#[trigger] t@[i], chunk_entry_22(i)),
        forall|i: int| 0 <= i < t@.len() ==> table_entry_ok(#[trigger] t@[i]),
{
    let mut t: Vec<Port> = Vec::new();
    t.push(Port { service: "unknown".to_string(), number: 7123, is_open: None });
    t.push(Port { service: "unknown".to_string(), number: 7051, is_open: None });
    t.push(Port { service: "unknown".to_string(), number: 7050, is_open: None });
    t.push(Port { service: "unknown".to_string(), number: 6896, is_open: None });
    t.push(Port { service: "unknown".to_string(), number: 6732, is_open: None });
    t.push(Port { service: "unknown".to_string(), number: 6711, is_open: None });
    t.push(Port { service: "unknown".to_string(), number: 65310, is_open: None });
    t.push(Port { service: "unknown".to_string(), number: 6520, is_open: None });
    t.push(Port { service: "unknown".to_string(), number: 6504, is_open: None });
    t.push(Port { service: "unknown".to_string(), number: 6247, is_open: None });
    t.push(Port { service: "unknown".to_string(), number: 6203, is_open: None });
    t.push(Port { service: "unknown".to_string(), number: 61613, is_open: None });
    t.push(Port { service: "unknown".to_string(), number: 60642, is_open: None });
    t.push(Port { service: "unknown".to_string(), number: 60146, is_open: None });
    t.push(Port { service: "unknown".to_string(), number: 60123, is_open: None });
    t.push(Port { service: "unknown".to_string(), number: 5981, is_open: None });
    t.push(Port { service: "unknown".to_string(), number: 5940, is_open: None });
    t.push(Port { service: "unknown".to_string(), number: 59202, is_open: None });
    t.push(Port { service: "unknown".to_string(), number: 59201, is_open: None });
    t.push(Port { service: "unknown".to_string(), number: 59200, is_open: None });
    t.push(Port { service: "unknown".to_string(), number: 5918, is_open: None });
    t.push(Port { service: "unknown".to_string(), number: 5914, is_open: None });
    t.push(Port { service: "unknown".to_string(), number: 59110, is_open: None });
    t.push(Port { service: "unknown".to_string(), number: 5909, is_open: None });
    t.push(Port { service: "unknown".to_string(), number: 5905, is_open: None });
    t.push(Port { service: "unknown".to_string(), number: 5899, is_open: None });
    t.push(Port { service: "unknown".to_string(), number: 58838, is_open: None });
    t.push(Port { service: "unknown".to_string(), number: 5869, is_open: None });
    t.push(Port { service: "unknown".to_string(), number: 58632, is_open: None });
    t.push(Port { service: "unknown".to_string(), number: 58630, is_open: None });
    t.push(Port { service: "unknown".to_string(), number: 5823, is_open: None });
    t.push(Port { service: "unknown".to_string(), number: 5818, is_open: None });
    t.push(Port { service: "unknown".to_string(), number: 5812, is_open: None });
    t.push(Port { service: "unknown".to_string(), number: 5807, is_open: None });
    t.push(Port { service: "unknown".to_string(), number: 58002, is_open: None });
    t.push(Port { service: "unknown".to_string(), number: 58001, is_open: None });
    t.push(Port { service: "unknown".to_string(), number: 57665, is_open: None });
    t.push(Port { service: "unknown".to_string(), number: 55576, is_open: None });
    t.push(Port { service: "unknown".to_string(), number: 55020, is_open: None });
    t.push(Port { service: "unknown".to_string(), number: 53535, is_open: None });
    t.push(Port { service: "unknown".to_string(), number: 5339, is_open: None });
    t.push(Port { service: "unknown".to_string(), number: 53314, is_open: None });
    t.push(Port { service: "unknown".to_string(), number: 53313, is_open: None });
    t.push(Port { service: "unknown".to_string(), number: 53211, is_open: None });
    t.push(Port { service: "unknown".to_string(), number: 52853, is_open: None });
    t.push(Port { service: "unknown".to_string(), number: 52851, is_open: None });
    t.push(Port { service: "unknown".to_string(), number: 52850, is_open: None });
    t.push(Port { service: "unknown".to_string(), number: 52849, is_open: None });
    t.push(Port { service: "unknown".to_string(), number: 52847, is_open: None });
    t.push(Port { service: "unknown".to_string(), number: 5279, is_open: None });
    t
}

fn chunk_23() -> (t: Vec<Port>)
    ensures
        t@.len() == 50,
        forall|i: int| 0 <= i < t@.len() ==> entry_matches(#[trigger] t@[i], chunk_entry_23(i)),
        forall|i: int| 0 <= i < t@.len() ==> table_entry_ok(#[trigger] t@[i]),
{
    let mut t: Vec<Port> = Vec::new();
    t.push(Port { service: "unknown".to_string(), number: 52735, is_open: None });
    t.push(Port { service: "unknown".to_string(), number: 52710, is_open: None });
    t.push(Port { service: "unknown".to_string(), number: 52660, is_open: None });
    t.push(Port { service: "unknown".to_string(), number: 5242, is_open: None });
    t.push(Port { service: "unknown".to_string(), number: 5212, is_open: None });
    t.push(Port { service: "unknown".to_string(), number: 51413, is_open: None });
    t.push(Port { service: "unknown".to_string(), number: 51191, is_open: None });
    t.push(Port { service: "unknown".to_string(), number: 5040, is_open: None });
    t.push(Port { service: "unknown".to_string(), number: 50050, is_open: None });
    t.push(Port { service: "unknown".to_string(), number: 49401, is_open: None });
    t.push(Port { service: "unknown".to_string(), number: 49236, is_open: None });
    t.push(Port { service: "unknown".to_string(), number: 49195, is_open: None });
    t.push(Port { service: "unknown".to_string(), number: 49186, is_open: None });
    t.push(Port { service: "unknown".to_string(), number: 49171, is_open: None });
    t.push(Port { service: "unknown".to_string(), number: 49168, is_open: None });
    t.push(Port { service: "unknown".to_string(), number: 49164, is_open: None });
    t.push(Port { service: "unknown".to_string(), number: 4875, is_open: None });
    t.push(Port { service: "unknown".to_string(), number: 47544, is_open: None });
    t.push(Port { service: "unknown".to_string(), number: 46996, is_open: None });
    t.push(Port { service: "unknown".to_string(), number: 46200, is_open: None });
    t.push(Port { service: "unknown".to_string(), number: 44709, is_open: None });
    t.push(Port { service: "unknown".to_string(), number: 41523, is_open: None });
    t.push(Port { service: "unknown".to_string(), number: 41064, is_open: None });
    t.push(Port { service: "unknown".to_string(), number: 40811, is_open: None });
    t.push(Port { service: "unknown".to_string(), number: 3994, is_open: None });
    t.push(Port { service: "unknown".to_string(), number: 39659, is_open: None });
    t.push(Port { service: "unknown".to_string(), number: 39376, is_open: None });
    t.push(Port { service: "unknown".to_string(), number: 39136, is_open: None });
    t.push(Port { service: "unknown".to_string(), number: 38188, is_open: None });
    t.push(Port { service: "unknown".to_string(), number: 38185, is_open: None });
    t.push(Port { service: "unknown".to_string(), number: 37839, is_open: None });
    t.push(Port { service: "unknown".to_string(), number: 35513, is_open: None });
    t.push(Port { service: "unknown".to_string(), number: 33554, is_open: None });
    t.push(Port { service: "unknown".to_string(), number: 33453, is_open: None });
    t.push(Port { service: "unknown".to_string(), number: 32835, is_open: None });
    t.push(Port { service: "unknown".to_string(), number: 32822, is_open: None });
    t.push(Port { service: "unknown".to_string(), number: 32816, is_open: None });
    t.push(Port { service: "unknown".to_string(), number: 32803, is_open: None });
    t.push(Port { service: "unknown".to_string(), number: 32792, is_open: None });
    t.push(Port { service: "unknown".to_string(), number: 32791, is_open: None });
    t.push(Port { service: "unknown".to_string(), number: 30704, is_open: None });
    t.push(Port { service: "unknown".to_string(), number: 30005, is_open: None });
    t.push(Port { service: "unknown".to_string(), number: 29831, is_open: None });
    t.push(Port { service: "unknown".to_string(), number: 29672, is_open: None });
    t.push(Port { service: "unknown".to_string(), number: 28211, is_open: None });
    t.push(Port { service: "unknown".to_string(), number: 27357, is_open: None });
    t.push(Port { service: "unknown".to_string(), number: 26470, is_open: None });
    t.push(Port { service: "unknown".to_string(), number: 23796, is_open: None });
    t.push(Port { service: "unknown".to_string(), number: 23052, is_open: None });
    t.push(Port { service: "unknown".to_string(), number: 2196, is_open: None });
    t
}

fn chunk_24() -> (t: Vec<Port>)
    ensures
        t@.len() == 50,
        forall|i: int| 0 <= i < t@.len() ==> entry_matches(#[trigger] t@[i], chunk_entry_24(i)),
        forall|i: int| 0 <= i < t@.len() ==> table_entry_ok(#[trigger] t@[i]),
{
    let mut t: Vec<Port> = Vec::new();
    t.push(Port { service: "unknown".to_string(), number: 21792, is_open: None });
    t.push(Port { service: "unknown".to_string(), number: 19900, is_open: None });
    t.push(Port { service: "unknown".to_string(), number: 18264, is_open: None });
    t.push(Port { service: "unknown".to_string(), number: 18018, is_open: None });
    t.push(Port { service: "unknown".to_string(), number: 17595, is_open: None });
    t.push(Port { service: "unknown".to_string(), number: 16851, is_open: None });
    t.push(Port { service: "unknown".to_string(), number: 16800, is_open: None });
    t.push(Port { service: "unknown".to_string(), number: 16705, is_open: None });
    t.push(Port { service: "unknown".to_string(), number: 15402, is_open: None });
    t.push(Port { service: "unknown".to_string(), number: 15001, is_open: None });
    t.push(Port { service: "unknown".to_string(), number: 12452, is_open: None });
    t.push(Port { service: "unknown".to_string(), number: 12380, is_open: None });
    t.push(Port { service: "unknown".to_string(), number: 12262, is_open: None });
    t.push(Port { service: "unknown".to_string(), number: 12215, is_open: None });
    t.push(Port { service: "unknown".to_string(), number: 12059, is_open: None });
    t.push(Port { service: "unknown".to_string(), number: 12021, is_open: None });
    t.push(Port { service: "unknown".to_string(), number: 10873, is_open: None });
    t.push(Port { service: "unknown".to_string(), number: 10058, is_open: None });
    t.push(Port { service: "unknown".to_string(), number: 10034, is_open: None });
    t.push(Port { service: "unknown".to_string(), number: 10022, is_open: None });
    t.push(Port { service: "unknown".to_string(), number: 10011, is_open: None });
    t.push(Port { service: "tdaccess".to_string(), number: 2910, is_open: None });
    t.push(Port { service: "sixtrak".to_string(), number: 1594, is_open: None });
    t.push(Port { service: "sixnetudr".to_string(), number: 1658, is_open: None });
    t.push(Port { service: "simbaexpress".to_string(), number: 1583, is_open: None });
    t.push(Port { service: "sflm".to_string(), number: 3162, is_open: None });
    t.push(Port { service: "roboeda".to_string(), number: 2920, is_open: None });
    t.push(Port { service: "quake".to_string(), number: 26000, is_open: None });
    t.push(Port { service: "qip-login".to_string(), number: 2366, is_open: None });
    t.push(Port { service: "piranha1".to_string(), number: 4600, is_open: None });
    t.push(Port { service: "nsjtp-data".to_string(), number: 1688, is_open: None });
    t.push(Port { service: "novation".to_string(), number: 1322, is_open: None });
    t.push(Port { service: "nicetec-mgmt".to_string(), number: 2557, is_open: None });
    t.push(Port { service: "nicelink".to_string(), number: 1095, is_open: None });
    t.push(Port { service: "netopia-vo1".to_string(), number: 1839, is_open: None });
    t.push(Port { service: "netml".to_string(), number: 2288, is_open: None });
    t.push(Port { service: "murray".to_string(), number: 1123, is_open: None });
    t.push(Port { service: "mppolicy-v5".to_string(), number: 5968, is_open: None });
    t.push(Port { service: "micromuse-ncpw".to_string(), number: 9600, is_open: None });
    t.push(Port { service: "isbconference1".to_string(), number: 1244, is_open: None });
    t.push(Port { service: "invision".to_string(), number: 1641, is_open: None });
    t.push(Port { service: "ici".to_string(), number: 2200, is_open: None });
    t.push(Port { service: "ftranhc".to_string(), number: 1105, is_open: None });
    t.push(Port { service: "fg-sysupdate".to_string(), number: 6550, is_open: None });
    t.push(Port { service: "fcp-addr-srvr2".to_string(), number: 5501, is_open: None });
    t.push(Port { service: "ewall".to_string(), number: 1328, is_open: None });
    t.push(Port { service: "enpp".to_string(), number: 2968, is_open: None });
    t.push(Port { service: "enl-name".to_string(), number: 1805, is_open: None });
    t.push(Port { service: "elm-momentum".to_string(), number: 1914, is_open: None });
    t.push(Port { service: "drp".to_string(), number: 1974, is_open: None });
    t
}

fn chunk_25() -> (t: Vec<Port>)
    ensures
        t@.len() == 50,
        forall|i: int| 0 <= i < t@.len() ==> entry_matches(#[trigger] t@[i], chunk_entry_25(i)),
        forall|i: int| 0 <= i < t@.len() ==> table_entry_ok(#[trigger] t@[i]),
{
    let mut t: Vec<Port> = Vec::new();
    t.push(Port { service: "diagd".to_string(), number: 31727, is_open: None });
    t.push(Port { service: "csms2".to_string(), number: 3400, is_open: None });
    t.push(Port { service: "ci3-software-1".to_string(), number: 1301, is_open: None });
    t.push(Port { service: "capioverlan".to_string(), number: 1147, is_open: None });
    t.push(Port { service: "caicci".to_string(), number: 1721, is_open: None });
    t.push(Port { service: "bvcontrol".to_string(), number: 1236, is_open: None });
    t.push(Port { service: "rtsclient".to_string(), number: 2501, is_open: None });
    t.push(Port { service: "ttyinfo".to_string(), number: 2012, is_open: None });
    t.push(Port { service: "radmind".to_string(), number: 6222, is_open: None });
    t.push(Port { service: "quicktime".to_string(), number: 1220, is_open: None });
    t.push(Port { service: "kpop".to_string(), number: 1109, is_open: None });
    t.push(Port { service: "bbn-mmc".to_string(), number: 1347, is_open: None });
    t.push(Port { service: "mbap".to_string(), number: 502, is_open: None });
    t.push(Port { service: "lmp".to_string(), number: 701, is_open: None });
    t.push(Port { service: "ivs-video".to_string(), number: 2232, is_open: None });
    t.push(Port { service: "ivsd".to_string(), number: 2241, is_open: None });
    t.push(Port { service: "hylafax".to_string(), number: 4559, is_open: None });
    t.push(Port { service: "entrust-ash".to_string(), number: 710, is_open: None });
    t.push(Port { service: "stel".to_string(), number: 10005, is_open: None });
    t.push(Port { service: "canna".to_string(), number: 5680, is_open: None });
    t.push(Port { service: "oob-ws-http".to_string(), number: 623, is_open: None });
    t.push(Port { service: "apex-edge".to_string(), number: 913, is_open: None });
    t.push(Port { service: "xaudio".to_string(), number: 1103, is_open: None });
    t.push(Port { service: "wpgs".to_string(), number: 780, is_open: None });
    t.push(Port { service: "unknown".to_string(), number: 930, is_open: None });
    t.push(Port { service: "unknown".to_string(), number: 803, is_open: None });
    t.push(Port { service: "unknown".to_string(), number: 725, is_open: None });
    t.push(Port { service: "msdp".to_string(), number: 639, is_open: None });
    t.push(Port { service: "uucp".to_string(), number: 540, is_open: None });
    t.push(Port { service: "iso-tsap".to_string(), number: 102, is_open: None });
    t.push(Port { service: "telelpathstart".to_string(), number: 5010, is_open: None });
    t.push(Port { service: "nerv".to_string(), number: 1222, is_open: None });
    t.push(Port { service: "rndc".to_string(), number: 953, is_open: None });
    t.push(Port { service: "privoxy".to_string(), number: 8118, is_open: None });
    t.push(Port { service: "issc".to_string(), number: 9992, is_open: None });
    t.push(Port { service: "ssserver".to_string(), number: 1270, is_open: None });
    t.push(Port { service: "nsw-fe".to_string(), number: 27, is_open: None });
    t.push(Port { service: "ntp".to_string(), number: 123, is_open: None });
    t.push(Port { service: "mfcobol".to_string(), number: 86, is_open: None });
    t.push(Port { service: "ddm-dfm".to_string(), number: 447, is_open: None });
    t.push(Port { service: "lsnr".to_string(), number: 1158, is_open: None });
    t.push(Port { service: "cvc_hostd".to_string(), number: 442, is_open: None });
    t.push(Port { service: "biimenu".to_string(), number: 18000, is_open: None });
    t.push(Port { service: "ariel1".to_string(), number: 419, is_open: None });
    t.push(Port { service: "unknown".to_string(), number: 931, is_open: None });
    t.push(Port { service: "unknown".to_string(), number: 874, is_open: None });
    t.push(Port { service: "unknown".to_string(), number: 856, is_open: None });
    t.push(Port { service: "unknown".to_string(), number: 250, is_open: None });
    t.push(Port { service: "tcpnethaspsrv".to_string(), number: 475, is_open: None });
    t.push(Port { service: "rimsl".to_string(), number: 2044, is_open: None });
    t
}

fn chunk_26() -> (t: Vec<Port>)
    ensures
        t@.len() == 50,
        forall|i: int| 0 <= i < t@.len() ==> entry_matches(#[trigger] t@[i], chunk_entry_26(i)),
        forall|i: int| 0 <= i < t@.len() ==> table_entry_ok(#[trigger] t@[i]),
{
    let mut t: Vec<Port> = Vec::new();
    t.push(Port { service: "decvms-sysmgt".to_string(), number: 441, is_open: None });
    t.push(Port { service: "z39.50".to_string(), number: 210, is_open: None });
    t.push(Port { service: "X11:8".to_string(), number: 6008, is_open: None });
    t.push(Port { service: "afs3-vlserver".to_string(), number: 7003, is_open: None });
    t.push(Port { service: "vnc-http-3".to_string(), number: 5803, is_open: None });
    t.push(Port { service: "ufsd".to_string(), number: 1008, is_open: None });
    t.push(Port { service: "remotefs".to_string(), number: 556, is_open: None });
    t.push(Port { service: "RETS-or-BackupExec".to_string(), number: 6103, is_open: None });
    t.push(Port { service: "pkix-3-ca-ra".to_string(), number: 829, is_open: None });
    t.push(Port { service: "saprouter".to_string(), number: 3299, is_open: None });
    t.push(Port { service: "isi-gl".to_string(), number: 55, is_open: None });
    t.push(Port { service: "iris-xpc".to_string(), number: 713, is_open: None });
    t.push(Port { service: "3m-image-lm".to_string(), number: 1550, is_open: None });
    t.push(Port { service: "entrustmanager".to_string(), number: 709, is_open: None });
    t.push(Port { service: "dict".to_string(), number: 2628, is_open: None });
    t.push(Port { service: "cdc".to_string(), number: 223, is_open: None });
    t.push(Port { service: "slnp".to_string(), number: 3025, is_open: None });
    t.push(Port { service: "priv-term-l".to_string(), number: 87, is_open: None });
    t.push(Port { service: "priv-term".to_string(), number: 57, is_open: None });
    t.push(Port { service: "amidxtape".to_string(), number: 10083, is_open: None });
    t.push(Port { service: "sdlog".to_string(), number: 5520, is_open: None });
    t.push(Port { service: "unknown".to_string(), number: 980, is_open: None });
    t.push(Port { service: "unknown".to_string(), number: 251, is_open: None });
    t.push(Port { service: "unknown".to_string(), number: 1013, is_open: None });
    t.push(Port { service: "ms-sql2000".to_string(), number: 9152, is_open: None });
    t.push(Port { service: "lupa".to_string(), number: 1212, is_open: None });
    t.push(Port { service: "codasrv-se".to_string(), number: 2433, is_open: None });
    t.push(Port { service: "vpad".to_string(), number: 1516, is_open: None });
    t.push(Port { service: "texar".to_string(), number: 333, is_open: None });
    t.push(Port { service: "raid-cc".to_string(), number: 2011, is_open: None });
    t.push(Port { service: "ris-cm".to_string(), number: 748, is_open: None });
    t.push(Port { service: "editbench".to_string(), number: 1350, is_open: None });
    t.push(Port { service: "pdap-np".to_string(), number: 1526, is_open: None });
    t.push(Port { service: "ups-onlinet".to_string(), number: 7010, is_open: None });
    t.push(Port { service: "nessus".to_string(), number: 1241, is_open: None });
    t.push(Port { service: "locus-con".to_string(), number: 127, is_open: None });
    t.push(Port { service: "knet-cmp".to_string(), number: 157, is_open: None });
    t.push(Port { service: "imap3".to_string(), number: 220, is_open: None });
    t.push(Port { service: "equationbuilder".to_string(), number: 1351, is_open: None });
    t.push(Port { service: "dlswpn".to_string(), number: 2067, is_open: None });
    t.push(Port { service: "corba-iiop-ssl".to_string(), number: 684, is_open: None });
    t.push(Port { service: "priv-rje".to_string(), number: 77, is_open: None });
    t.push(Port { service: "msql".to_string(), number: 4333, is_open: None });
    t.push(Port { service: "acap".to_string(), number: 674, is_open: None });
    t.push(Port { service: "unknown".to_string(), number: 943, is_open: None });
    t.push(Port { service: "unknown".to_string(), number: 904, is_open: None });
    t.push(Port { service: "unknown".to_string(), number: 840, is_open: None });
    t.push(Port { service: "unknown".to_string(), number: 825, is_open: None });
    t.push(Port { service: "unknown".to_string(), number: 792, is_open: None });
    t.push(Port { service: "unknown".to_string(), number: 732, is_open: None });
    t
}

fn chunk_27() -> (t: Vec<Port>)
    ensures
        t@.len() == 50,
        forall|i: int| 0 <= i < t@.len() ==> entry_matches(#[trigger] t@[i], chunk_entry_27(i)),
        forall|i: int| 0 <= i < t@.len() ==> table_entry_ok(#[trigger] t@[i]),
{
    let mut t: Vec<Port> = Vec::new();
    t.push(Port { service: "unknown".to_string(), number: 1020, is_open: None });
    t.push(Port { service: "unknown".to_string(), number: 1006, is_open: None });
    t.push(Port { service: "rmc".to_string(), number: 657, is_open: None });
    t.push(Port { service: "openvms-sysipc".to_string(), number: 557, is_open: None });
    t.push(Port { service: "npmp-local".to_string(), number: 610, is_open: None });
    t.push(Port { service: "laplink".to_string(), number: 1547, is_open: None });
    t.push(Port { service: "ibm-db2".to_string(), number: 523, is_open: None });
    t.push(Port { service: "xtreelic".to_string(), number: 996, is_open: None });
    t.push(Port { service: "ellpack".to_string(), number: 2025, is_open: None });
    t.push(Port { service: "xmlrpc-beep".to_string(), number: 602, is_open: None });
    t.push(Port { service: "vat".to_string(), number: 3456, is_open: None });
    t.push(Port { service: "twamp-control".to_string(), number: 862, is_open: None });
    t.push(Port { service: "ipcserver".to_string(), number: 600, is_open: None });
    t.push(Port { service: "extensisportfolio".to_string(), number: 2903, is_open: None });
    t.push(Port { service: "fw1-mc-fwmodule".to_string(), number: 257, is_open: None });
    t.push(Port { service: "rna-lm".to_string(), number: 1522, is_open: None });
    t.push(Port { service: "relief".to_string(), number: 1353, is_open: None });
    t.push(Port { service: "radmind".to_string(), number: 6662, is_open: None });
    t.push(Port { service: "busboy".to_string(), number: 998, is_open: None });
    t.push(Port { service: "mac-srvr-admin".to_string(), number: 660, is_open: None });
    t.push(Port { service: "netviewdm1".to_string(), number: 729, is_open: None });
    t.push(Port { service: "netviewdm2".to_string(), number: 730, is_open: None });
    t.push(Port { service: "netviewdm3".to_string(), number: 731, is_open: None });
    t.push(Port { service: "hp-managed-node".to_string(), number: 782, is_open: None });
    t.push(Port { service: "pegboard".to_string(), number: 1357, is_open: None });
    t.push(Port { service: "distccd".to_string(), number: 3632, is_open: None });
    t.push(Port { service: "sapeps".to_string(), number: 3399, is_open: None });
    t.push(Port { service: "arcserve".to_string(), number: 6050, is_open: None });
    t.push(Port { service: "ats".to_string(), number: 2201, is_open: None });
    t.push(Port { service: "unknown".to_string(), number: 971, is_open: None });
    t.push(Port { service: "unknown".to_string(), number: 969, is_open: None });
    t.push(Port { service: "unknown".to_string(), number: 905, is_open: None });
    t.push(Port { service: "unknown".to_string(), number: 846, is_open: None });
    t.push(Port { service: "unknown".to_string(), number: 839, is_open: None });
    t.push(Port { service: "unknown".to_string(), number: 823, is_open: None });
    t.push(Port { service: "unknown".to_string(), number: 822, is_open: None });
    t.push(Port { service: "unknown".to_string(), number: 795, is_open: None });
    t.push(Port { service: "unknown".to_string(), number: 790, is_open: None });
    t.push(Port { service: "unknown".to_string(), number: 778, is_open: None });
    t.push(Port { service: "unknown".to_string(), number: 757, is_open: None });
    t.push(Port { service: "unknown".to_string(), number: 659, is_open: None });
    t.push(Port { service: "unknown".to_string(), number: 225, is_open: None });
    t.push(Port { service: "unknown".to_string(), number: 1015, is_open: None });
    t.push(Port { service: "unknown".to_string(), number: 1014, is_open: None });
    t.push(Port { service: "unknown".to_string(), number: 1012, is_open: None });
    t.push(Port { service: "tinc".to_string(), number: 655, is_open: None });
    t.push(Port { service: "concert".to_string(), number: 786, is_open: None });
    t.push(Port { service: "xmail-ctrl".to_string(), number: 6017, is_open: None });
    t.push(Port { service: "irc".to_string(), number: 6670, is_open: None });
    t.push(Port { service: "vatp".to_string(), number: 690, is_open: None });
    t
}

fn chunk_28() -> (t: Vec<Port>)
    ensures
        t@.len() == 50,
        forall|i: int| 0 <= i < t@.len() ==> entry_matches(#[trigger] t@[i], chunk_entry_28(i)),
        forall|i: int| 0 <= i < t@.len() ==> table_entry_ok(#[trigger] t@[i]),
{
    let mut t: Vec<Port> = Vec::new();
    t.push(Port { service: "unidata-ldm".to_string(), number: 388, is_open: None });
    t.push(Port { service: "tinyfw".to_string(), number: 44334, is_open: None });
    t.push(Port { service: "krb_prop".to_string(), number: 754, is_open: None });
    t.push(Port { service: "telelpathattack".to_string(), number: 5011, is_open: None });
    t.push(Port { service: "linuxconf".to_string(), number: 98, is_open: None });
    t.push(Port { service: "rmt".to_string(), number: 411, is_open: None });
    t.push(Port { service: "orasrv".to_string(), number: 1525, is_open: None });
    t.push(Port { service: "remoteanything".to_string(), number: 3999, is_open: None });
    t.push(Port { service: "netcp".to_string(), number: 740, is_open: None });
    t.push(Port { service: "netbus".to_string(), number: 12346, is_open: None });
    t.push(Port { service: "mbap-s".to_string(), number: 802, is_open: None });
    t.push(Port { service: "waste".to_string(), number: 1337, is_open: None });
    t.push(Port { service: "supfiledbg".to_string(), number: 1127, is_open: None });
    t.push(Port { service: "kip".to_string(), number: 2112, is_open: None });
    t.push(Port { service: "ibm-mqseries".to_string(), number: 1414, is_open: None });
    t.push(Port { service: "zebrasrv".to_string(), number: 2600, is_open: None });
    t.push(Port { service: "escp-ip".to_string(), number: 621, is_open: None });
    t.push(Port { service: "urm".to_string(), number: 606, is_open: None });
    t.push(Port { service: "priv-file".to_string(), number: 59, is_open: None });
    t.push(Port { service: "unknown".to_string(), number: 928, is_open: None });
    t.push(Port { service: "unknown".to_string(), number: 924, is_open: None });
    t.push(Port { service: "unknown".to_string(), number: 922, is_open: None });
    t.push(Port { service: "unknown".to_string(), number: 921, is_open: None });
    t.push(Port { service: "unknown".to_string(), number: 918, is_open: None });
    t.push(Port { service: "unknown".to_string(), number: 878, is_open: None });
    t.push(Port { service: "unknown".to_string(), number: 864, is_open: None });
    t.push(Port { service: "unknown".to_string(), number: 859, is_open: None });
    t.push(Port { service: "unknown".to_string(), number: 806, is_open: None });
    t.push(Port { service: "unknown".to_string(), number: 805, is_open: None });
    t.push(Port { service: "unknown".to_string(), number: 728, is_open: None });
    t.push(Port { service: "unknown".to_string(), number: 252, is_open: None });
    t.push(Port { service: "unknown".to_string(), number: 1005, is_open: None });
    t.push(Port { service: "unknown".to_string(), number: 1004, is_open: None });
    t.push(Port { service: "repcmd".to_string(), number: 641, is_open: None });
    t.push(Port { service: "nlogin".to_string(), number: 758, is_open: None });
    t.push(Port { service: "meregister".to_string(), number: 669, is_open: None });
    t.push(Port { service: "landesk-cba".to_string(), number: 38037, is_open: None });
    t.push(Port { service: "iris-lwz".to_string(), number: 715, is_open: None });
    t.push(Port { service: "innosys-acl".to_string(), number: 1413, is_open: None });
    t.push(Port { service: "zephyr-hm".to_string(), number: 2104, is_open: None });
    t.push(Port { service: "zented".to_string(), number: 1229, is_open: None });
    t.push(Port { service: "tapeware".to_string(), number: 3817, is_open: None });
    t.push(Port { service: "xnm-ssl".to_string(), number: 3220, is_open: None });
    t.push(Port { service: "xic".to_string(), number: 6115, is_open: None });
    t.push(Port { service: "xecp-node".to_string(), number: 3940, is_open: None });
    t.push(Port { service: "x11".to_string(), number: 6063, is_open: None });
    t.push(Port { service: "x11".to_string(), number: 6062, is_open: None });
    t.push(Port { service: "x11".to_string(), number: 6055, is_open: None });
    t.push(Port { service: "x11".to_string(), number: 6052, is_open: None });
    t.push(Port { service: "x11".to_string(), number: 6030, is_open: None });
    t
}

fn chunk_29() -> (t: Vec<Port>)
    ensures
        t@.len() == 50,
        forall|i: int| 0 <= i < t@.len() ==> entry_matches(#[trigger] t@[i], chunk_entry_29(i)),
        forall|i: int| 0 <= i < t@.len() ==> table_entry_ok(#[trigger] t@[i]),
{
    let mut t: Vec<Port> = Vec::new();
    t.push(Port { service: "x11".to_string(), number: 6021, is_open: None });
    t.push(Port { service: "x11".to_string(), number: 6015, is_open: None });
    t.push(Port { service: "x11".to_string(), number: 6010, is_open: None });
    t.push(Port { service: "wrs_registry".to_string(), number: 2340, is_open: None });
    t.push(Port { service: "wpl-analytics".to_string(), number: 8006, is_open: None });
    t.push(Port { service: "oirtgsvc".to_string(), number: 4141, is_open: None });
    t.push(Port { service: "wlanauth".to_string(), number: 3810, is_open: None });
    t.push(Port { service: "winddlb".to_string(), number: 1565, is_open: None });
    t.push(Port { service: "webmail-2".to_string(), number: 3511, is_open: None });
    t.push(Port { service: "wsmans".to_string(), number: 5986, is_open: None });
    t.push(Port { service: "wsman".to_string(), number: 5985, is_open: None });
    t.push(Port { service: "wg-endpt-comms".to_string(), number: 33000, is_open: None });
    t.push(Port { service: "watchdog-nt".to_string(), number: 2723, is_open: None });
    t.push(Port { service: "wap-wsp-s".to_string(), number: 9202, is_open: None });
    t.push(Port { service: "wap-push-https".to_string(), number: 4036, is_open: None });
    t.push(Port { service: "wap-push-http".to_string(), number: 4035, is_open: None });
    t.push(Port { service: "wanscaler".to_string(), number: 2312, is_open: None });
    t.push(Port { service: "vxcrnbuport".to_string(), number: 3652, is_open: None });
    t.push(Port { service: "vs-server".to_string(), number: 3280, is_open: None });
    t.push(Port { service: "vrml-multi-use".to_string(), number: 4243, is_open: None });
    t.push(Port { service: "vrml-multi-use".to_string(), number: 4298, is_open: None });
    t.push(Port { service: "vrml-multi-use".to_string(), number: 4297, is_open: None });
    t.push(Port { service: "vrml-multi-use".to_string(), number: 4294, is_open: None });
    t.push(Port { service: "vrml-multi-use".to_string(), number: 4262, is_open: None });
    t.push(Port { service: "vrml-multi-use".to_string(), number: 4234, is_open: None });
    t.push(Port { service: "vrml-multi-use".to_string(), number: 4220, is_open: None });
    t.push(Port { service: "vrml-multi-use".to_string(), number: 4206, is_open: None });
    t.push(Port { service: "vocaltec-wconf".to_string(), number: 22555, is_open: None });
    t.push(Port { service: "vrace".to_string(), number: 9300, is_open: None });
    t.push(Port { service: "virprot-lm".to_string(), number: 7121, is_open: None });
    t.push(Port { service: "videte-cipc".to_string(), number: 1927, is_open: None });
    t.push(Port { service: "vop".to_string(), number: 4433, is_open: None });
    t.push(Port { service: "vtsas".to_string(), number: 5070, is_open: None });
    t.push(Port { service: "veritas-ucl".to_string(), number: 2148, is_open: None });
    t.push(Port { service: "vchat".to_string(), number: 1168, is_open: None });
    t.push(Port { service: "visweather".to_string(), number: 9979, is_open: None });
    t.push(Port { service: "usicontentpush".to_string(), number: 7998, is_open: None });
    t.push(Port { service: "updog".to_string(), number: 4414, is_open: None });
    t.push(Port { service: "unisys-lm".to_string(), number: 1823, is_open: None });
    t.push(Port { service: "tsp".to_string(), number: 3653, is_open: None });
    t.push(Port { service: "tgp".to_string(), number: 1223, is_open: None });
    t.push(Port { service: "trivnet2".to_string(), number: 8201, is_open: None });
    t.push(Port { service: "tritium-can".to_string(), number: 4876, is_open: None });
    t.push(Port { service: "triomotion".to_string(), number: 3240, is_open: None });
    t.push(Port { service: "travsoft-ipx-t".to_string(), number: 2644, is_open: None });
    t.push(Port { service: "trap".to_string(), number: 4020, is_open: None });
    t.push(Port { service: "topovista-data".to_string(), number: 3906, is_open: None });
    t.push(Port { service: "topx".to_string(), number: 2436, is_open: None });
    t.push(Port { service: "tolteces".to_string(), number: 4375, is_open: None });
    t.push(Port { service: "tnp1-port".to_string(), number: 4024, is_open: None });
    t
}

fn chunk_30() -> (t: Vec<Port>)
    ensures
        t@.len() == 50,
        forall|i: int| 0 <= i < t@.len() ==> entry_matches(#[trigger] t@[i], chunk_entry_30(i)),
        forall|i: int| 0 <= i < t@.len() ==> table_entry_ok(#[trigger] t@[i]),
{
    let mut t: Vec<Port> = Vec::new();
    t.push(Port { service: "tmosms1".to_string(), number: 5581, is_open: None });
    t.push(Port { service: "tmosms0".to_string(), number: 5580, is_open: None });
    t.push(Port { service: "client-wakeup".to_string(), number: 9694, is_open: None });
    t.push(Port { service: "tl1-raw-ssl".to_string(), number: 6251, is_open: None });
    t.push(Port { service: "swx".to_string(), number: 7345, is_open: None });
    t.push(Port { service: "swx".to_string(), number: 7325, is_open: None });
    t.push(Port { service: "swx".to_string(), number: 7320, is_open: None });
    t.push(Port { service: "swx".to_string(), number: 7300, is_open: None });
    t.push(Port { service: "pcmk-remote".to_string(), number: 3121, is_open: None });
    t.push(Port { service: "apsolab-tags".to_string(), number: 5473, is_open: None });
    t.push(Port { service: "apsolab-data".to_string(), number: 5475, is_open: None });
    t.push(Port { service: "trap-daemon".to_string(), number: 3600, is_open: None });
    t.push(Port { service: "tig".to_string(), number: 3943, is_open: None });
    t.push(Port { service: "lutap".to_string(), number: 4912, is_open: None });
    t.push(Port { service: "tdmoip".to_string(), number: 2142, is_open: None });
    t.push(Port { service: "tcoregagent".to_string(), number: 1976, is_open: None });
    t.push(Port { service: "tcoflashagent".to_string(), number: 1975, is_open: None });
    t.push(Port { service: "targus-getdata2".to_string(), number: 5202, is_open: None });
    t.push(Port { service: "targus-getdata1".to_string(), number: 5201, is_open: None });
    t.push(Port { service: "talarian-mcast2".to_string(), number: 4016, is_open: None });
    t.push(Port { service: "taep-as-svc".to_string(), number: 5111, is_open: None });
    t.push(Port { service: "sype-transport".to_string(), number: 9911, is_open: None });
    t.push(Port { service: "netapp-sync".to_string(), number: 10006, is_open: None });
    t.push(Port { service: "symb-sb-port".to_string(), number: 3923, is_open: None });
    t.push(Port { service: "syam-webserver".to_string(), number: 3930, is_open: None });
    t.push(Port { service: "sweetware-apps".to_string(), number: 1221, is_open: None });
    t.push(Port { service: "svnetworks".to_string(), number: 2973, is_open: None });
    t.push(Port { service: "surfcontrolcpa".to_string(), number: 3909, is_open: None });
    t.push(Port { service: "spt-automation".to_string(), number: 5814, is_open: None });
    t.push(Port { service: "sua".to_string(), number: 14001, is_open: None });
    t.push(Port { service: "stm_pproc".to_string(), number: 3080, is_open: None });
    t.push(Port { service: "stat-cc".to_string(), number: 4158, is_open: None });
    t.push(Port { service: "starquiz-port".to_string(), number: 3526, is_open: None });
    t.push(Port { service: "mtp".to_string(), number: 1911, is_open: None });
    t.push(Port { service: "stanag-5066".to_string(), number: 5066, is_open: None });
    t.push(Port { service: "sso-control".to_string(), number: 2711, is_open: None });
    t.push(Port { service: "ssmc".to_string(), number: 2187, is_open: None });
    t.push(Port { service: "isrp-port".to_string(), number: 3788, is_open: None });
    t.push(Port { service: "spw-dialer".to_string(), number: 3796, is_open: None });
    t.push(Port { service: "sor-update".to_string(), number: 3922, is_open: None });
    t.push(Port { service: "mib-streaming".to_string(), number: 2292, is_open: None });
    t.push(Port { service: "sun-sea-port".to_string(), number: 16161, is_open: None });
    t.push(Port { service: "slslavemon".to_string(), number: 3102, is_open: None });
    t.push(Port { service: "socp-t".to_string(), number: 4881, is_open: None });
    t.push(Port { service: "smwan".to_string(), number: 3979, is_open: None });
    t.push(Port { service: "smile".to_string(), number: 3670, is_open: None });
    t.push(Port { service: "smcluster".to_string(), number: 4174, is_open: None });
    t.push(Port { service: "slim-devices".to_string(), number: 3483, is_open: None });
    t.push(Port { service: "sitaradir".to_string(), number: 2631, is_open: None });
    t.push(Port { service: "sslp".to_string(), number: 1750, is_open: None });
    t
}

fn chunk_31() -> (t: Vec<Port>)
    ensures
        t@.len() == 50,
        forall|i: int| 0 <= i < t@.len() ==> entry_matches(#[trigger] t@[i], chunk_entry_31(i)),
        forall|i: int| 0 <= i < t@.len() ==> table_entry_ok(#[trigger] t@[i]),
{
    let mut t: Vec<Port> = Vec::new();
    t.push(Port { service: "sdo-ssh".to_string(), number: 3897, is_open: None });
    t.push(Port { service: "silhouette".to_string(), number: 7500, is_open: None });
    t.push(Port { service: "sgi-eventmond".to_string(), number: 5553, is_open: None });
    t.push(Port { service: "sgi-esphttp".to_string(), number: 5554, is_open: None });
    t.push(Port { service: "sapv1".to_string(), number: 9875, is_open: None });
    t.push(Port { service: "deploymentmap".to_string(), number: 4570, is_open: None });
    t.push(Port { service: "sasp".to_string(), number: 3860, is_open: None });
    t.push(Port { service: "sentinel-ent".to_string(), number: 3712, is_open: None });
    t.push(Port { service: "senomix01".to_string(), number: 8052, is_open: None });
    t.push(Port { service: "radsec".to_string(), number: 2083, is_open: None });
    t.push(Port { service: "secure-mqtt".to_string(), number: 8883, is_open: None });
    t.push(Port { service: "mmcals".to_string(), number: 2271, is_open: None });
    t.push(Port { service: "sixid".to_string(), number: 4606, is_open: None });
    t.push(Port { service: "seagull-ais".to_string(), number: 1208, is_open: None });
    t.push(Port { service: "sdt-lmd".to_string(), number: 3319, is_open: None });
    t.push(Port { service: "sdp-portmapper".to_string(), number: 3935, is_open: None });
    t.push(Port { service: "ssdispatch".to_string(), number: 3430, is_open: None });
    t.push(Port { service: "scanstat-1".to_string(), number: 1215, is_open: None });
    t.push(Port { service: "sbi-agent".to_string(), number: 3962, is_open: None });
    t.push(Port { service: "satvid-datalnk".to_string(), number: 3368, is_open: None });
    t.push(Port { service: "sasggprs".to_string(), number: 3964, is_open: None });
    t.push(Port { service: "saphostctrl".to_string(), number: 1128, is_open: None });
    t.push(Port { service: "farenet".to_string(), number: 5557, is_open: None });
    t.push(Port { service: "samsung-unidex".to_string(), number: 4010, is_open: None });
    t.push(Port { service: "sec-t4net-srv".to_string(), number: 9400, is_open: None });
    t.push(Port { service: "slp".to_string(), number: 1605, is_open: None });
    t.push(Port { service: "sah-lm".to_string(), number: 3291, is_open: None });
    t.push(Port { service: "rtps-discovery".to_string(), number: 7400, is_open: None });
    t.push(Port { service: "avt-profile-2".to_string(), number: 5005, is_open: None });
    t.push(Port { service: "rsvp-encap-2".to_string(), number: 1699, is_open: None });
    t.push(Port { service: "rsf-1".to_string(), number: 1195, is_open: None });
    t.push(Port { service: "rlm".to_string(), number: 5053, is_open: None });
    t.push(Port { service: "rap-ip".to_string(), number: 3813, is_open: None });
    t.push(Port { service: "registrar".to_string(), number: 1712, is_open: None });
    t.push(Port { service: "exlm-agent".to_string(), number: 3002, is_open: None });
    t.push(Port { service: "rtraceroute".to_string(), number: 3765, is_open: None });
    t.push(Port { service: "wsmlb".to_string(), number: 3806, is_open: None });
    t.push(Port { service: "recvr-rc".to_string(), number: 43000, is_open: None });
    t.push(Port { service: "worldwire".to_string(), number: 2371, is_open: None });
    t.push(Port { service: "raven-rmp".to_string(), number: 3532, is_open: None });
    t.push(Port { service: "radius-dynauth".to_string(), number: 3799, is_open: None });
    t.push(Port { service: "quickbooksrds".to_string(), number: 3790, is_open: None });
    t.push(Port { service: "quasar-server".to_string(), number: 3599, is_open: None });
    t.push(Port { service: "qtms-bootstrap".to_string(), number: 3850, is_open: None });
    t.push(Port { service: "qsnet-workst".to_string(), number: 4355, is_open: None });
    t.push(Port { service: "qsnet-nucl".to_string(), number: 4358, is_open: None });
    t.push(Port { service: "qsnet-cond".to_string(), number: 4357, is_open: None });
    t.push(Port { service: "qsnet-assist".to_string(), number: 4356, is_open: None });
    t.push(Port { service: "pyrrho".to_string(), number: 5433, is_open: None });
    t.push(Port { service: "netboot-pxe".to_string(), number: 3928, is_open: None });
    t
}

fn chunk_32() -> (t: Vec<Port>)
    ensures
        t@.len() == 50,
        forall|i: int| 0 <= i < t@.len() ==> entry_matches(#[trigger] t@[i], chunk_entry_32(i)),
        forall|i: int| 0 <= i < t@.len() ==> table_entry_ok(#[trigger] t@[i]),
{
    let mut t: Vec<Port> = Vec::new();
    t.push(Port { service: "pulseaudio".to_string(), number: 4713, is_open: None });
    t.push(Port { service: "psi-ptt".to_string(), number: 4374, is_open: None });
    t.push(Port { service: "proaxess".to_string(), number: 3961, is_open: None });
    t.push(Port { service: "paragent".to_string(), number: 9022, is_open: None });
    t.push(Port { service: "printer_agent".to_string(), number: 3396, is_open: None });
    t.push(Port { service: "prnstatus".to_string(), number: 3911, is_open: None });
    t.push(Port { service: "zen-pawn".to_string(), number: 7628, is_open: None });
    t.push(Port { service: "tick-port".to_string(), number: 3200, is_open: None });
    t.push(Port { service: "predatar-comms".to_string(), number: 1753, is_open: None });
    t.push(Port { service: "ppsms".to_string(), number: 3967, is_open: None });
    t.push(Port { service: "ppcontrol".to_string(), number: 2505, is_open: None });
    t.push(Port { service: "nbt-pc".to_string(), number: 5133, is_open: None });
    t.push(Port { service: "ps-ams".to_string(), number: 3658, is_open: None });
    t.push(Port { service: "pim-port".to_string(), number: 8471, is_open: None });
    t.push(Port { service: "pdps".to_string(), number: 1314, is_open: None });
    t.push(Port { service: "pclemultimedia".to_string(), number: 2558, is_open: None });
    t.push(Port { service: "patrol-ism".to_string(), number: 6161, is_open: None });
    t.push(Port { service: "partimage".to_string(), number: 4025, is_open: None });
    t.push(Port { service: "ptk-alink".to_string(), number: 3089, is_open: None });
    t.push(Port { service: "panagolin-ident".to_string(), number: 9021, is_open: None });
    t.push(Port { service: "pago-services1".to_string(), number: 30001, is_open: None });
    t.push(Port { service: "otv".to_string(), number: 8472, is_open: None });
    t.push(Port { service: "onpsocket".to_string(), number: 5014, is_open: None });
    t.push(Port { service: "osm-appsrvr".to_string(), number: 9990, is_open: None });
    t.push(Port { service: "oracle-oms".to_string(), number: 1159, is_open: None });
    t.push(Port { service: "iascontrol".to_string(), number: 1157, is_open: None });
    t.push(Port { service: "odsi".to_string(), number: 1308, is_open: None });
    t.push(Port { service: "omhs".to_string(), number: 5723, is_open: None });
    t.push(Port { service: "ov-nnm-websrv".to_string(), number: 3443, is_open: None });
    t.push(Port { service: "omscontact".to_string(), number: 4161, is_open: None });
    t.push(Port { service: "omnivision".to_string(), number: 1135, is_open: None });
    t.push(Port { service: "oma-mlp-s".to_string(), number: 9211, is_open: None });
    t.push(Port { service: "oma-mlp".to_string(), number: 9210, is_open: None });
    t.push(Port { service: "omasgport".to_string(), number: 4090, is_open: None });
    t.push(Port { service: "office-tools".to_string(), number: 7789, is_open: None });
    t.push(Port { service: "odette-ftps".to_string(), number: 6619, is_open: None });
    t.push(Port { service: "odbcpathway".to_string(), number: 9628, is_open: None });
    t.push(Port { service: "nupaper-ss".to_string(), number: 12121, is_open: None });
    t.push(Port { service: "nssagentmgr".to_string(), number: 4454, is_open: None });
    t.push(Port { service: "npds-tracker".to_string(), number: 3680, is_open: None });
    t.push(Port { service: "nowcontact".to_string(), number: 3167, is_open: None });
    t.push(Port { service: "nimaux".to_string(), number: 3902, is_open: None });
    t.push(Port { service: "nimsh".to_string(), number: 3901, is_open: None });
    t.push(Port { service: "ndsconnect".to_string(), number: 3890, is_open: None });
    t.push(Port { service: "nhci".to_string(), number: 3842, is_open: None });
    t.push(Port { service: "newbay-snc-mc".to_string(), number: 16900, is_open: None });
    t.push(Port { service: "netxms-agent".to_string(), number: 4700, is_open: None });
    t.push(Port { service: "nst".to_string(), number: 4687, is_open: None });
    t.push(Port { service: "nod-provider".to_string(), number: 8980, is_open: None });
    t.push(Port { service: "netmagic".to_string(), number: 1196, is_open: None });
    t
}

fn chunk_33() -> (t: Vec<Port>)
    ensures
        t@.len() == 50,
        forall|i: int| 0 <= i < t@.len() ==> entry_matches(#[trigger] t@[i], chunk_entry_33(i)),
        forall|i: int| 0 <= i < t@.len() ==> table_entry_ok(#[trigger] t@[i]),
{
    let mut t: Vec<Port> = Vec::new();
    t.push(Port { service: "nacagent".to_string(), number: 4407, is_open: None });
    t.push(Port { service: "galileolog".to_string(), number: 3520, is_open: None });
    t.push(Port { service: "nsp".to_string(), number: 5012, is_open: None });
    t.push(Port { service: "neto-wol-server".to_string(), number: 3812, is_open: None });
    t.push(Port { service: "netiq-endpt".to_string(), number: 10115, is_open: None });
    t.push(Port { service: "netbill-auth".to_string(), number: 1615, is_open: None });
    t.push(Port { service: "netscript".to_string(), number: 4118, is_open: None });
    t.push(Port { service: "netaspi".to_string(), number: 2902, is_open: None });
    t.push(Port { service: "ncdmirroring".to_string(), number: 2706, is_open: None });
    t.push(Port { service: "nbx-ser".to_string(), number: 2095, is_open: None });
    t.push(Port { service: "nbx-dir".to_string(), number: 2096, is_open: None });
    t.push(Port { service: "nati-vi-server".to_string(), number: 3363, is_open: None });
    t.push(Port { service: "ctsd".to_string(), number: 5137, is_open: None });
    t.push(Port { service: "myblast".to_string(), number: 3795, is_open: None });
    t.push(Port { service: "mxi".to_string(), number: 8005, is_open: None });
    t.push(Port { service: "mvs-capacity".to_string(), number: 10007, is_open: None });
    t.push(Port { service: "must-backplane".to_string(), number: 3515, is_open: None });
    t.push(Port { service: "mcreport".to_string(), number: 8003, is_open: None });
    t.push(Port { service: "msfw-control".to_string(), number: 3847, is_open: None });
    t.push(Port { service: "lsp-ping".to_string(), number: 3503, is_open: None });
    t.push(Port { service: "movaz-ssc".to_string(), number: 5252, is_open: None });
    t.push(Port { service: "mongod".to_string(), number: 27017, is_open: None });
    t.push(Port { service: "mnp-exchange".to_string(), number: 2197, is_open: None });
    t.push(Port { service: "minirem".to_string(), number: 4120, is_open: None });
    t.push(Port { service: "mc-client".to_string(), number: 1180, is_open: None });
    t.push(Port { service: "msdfsr".to_string(), number: 5722, is_open: None });
    t.push(Port { service: "aplx".to_string(), number: 1134, is_open: None });
    t.push(Port { service: "mqtt".to_string(), number: 1883, is_open: None });
    t.push(Port { service: "mesavistaco".to_string(), number: 1249, is_open: None });
    t.push(Port { service: "mcns-tel-ret".to_string(), number: 3311, is_open: None });
    t.push(Port { service: "mkm-discovery".to_string(), number: 3837, is_open: None });
    t.push(Port { service: "dvr-esm".to_string(), number: 2804, is_open: None });
    t.push(Port { service: "mtcevrunqman".to_string(), number: 4558, is_open: None });
    t.push(Port { service: "sieve".to_string(), number: 4190, is_open: None });
    t.push(Port { service: "lsi-raid-mgmt".to_string(), number: 2463, is_open: None });
    t.push(Port { service: "ssslog-mgr".to_string(), number: 1204, is_open: None });
    t.push(Port { service: "lms".to_string(), number: 4056, is_open: None });
    t.push(Port { service: "llsurfup-https".to_string(), number: 1184, is_open: None });
    t.push(Port { service: "litecoin".to_string(), number: 19333, is_open: None });
    t.push(Port { service: "litecoin".to_string(), number: 9333, is_open: None });
    t.push(Port { service: "listcrt-port".to_string(), number: 3913, is_open: None });
    t.push(Port { service: "lispworks-orb".to_string(), number: 3672, is_open: None });
    t.push(Port { service: "lisp-cons".to_string(), number: 4342, is_open: None });
    t.push(Port { service: "lmcs".to_string(), number: 4877, is_open: None });
    t.push(Port { service: "emprise-lsc".to_string(), number: 3586, is_open: None });
    t.push(Port { service: "libelle".to_string(), number: 8282, is_open: None });
    t.push(Port { service: "lecroy-vicp".to_string(), number: 1861, is_open: None });
    t.push(Port { service: "lofr-lm".to_string(), number: 1752, is_open: None });
    t.push(Port { service: "ldgateway".to_string(), number: 9592, is_open: None });
    t.push(Port { service: "l2f".to_string(), number: 1701, is_open: None });
    t
}

fn chunk_34() -> (t: Vec<Port>)
    ensures
        t@.len() == 50,
        forall|i: int| 0 <= i < t@.len() ==> entry_matches(#[trigger] t@[i], chunk_entry_34(i)),
        forall|i: int| 0 <= i < t@.len() ==> table_entry_ok(#[trigger] t@[i]),
{
    let mut t: Vec<Port> = Vec::new();
    t.push(Port { service: "konspire2b".to_string(), number: 6085, is_open: None });
    t.push(Port { service: "kme-trap-port".to_string(), number: 2081, is_open: None });
    t.push(Port { service: "kingfisher".to_string(), number: 4058, is_open: None });
    t.push(Port { service: "kdm".to_string(), number: 2115, is_open: None });
    t.push(Port { service: "jmb-cds1".to_string(), number: 8900, is_open: None });
    t.push(Port { service: "jaxer-manager".to_string(), number: 4328, is_open: None });
    t.push(Port { service: "jmact6".to_string(), number: 2958, is_open: None });
    t.push(Port { service: "jmact5".to_string(), number: 2957, is_open: None });
    t.push(Port { service: "iwg1".to_string(), number: 7071, is_open: None });
    t.push(Port { service: "itv-control".to_string(), number: 3899, is_open: None });
    t.push(Port { service: "ito-e-gui".to_string(), number: 2531, is_open: None });
    t.push(Port { service: "itinternet".to_string(), number: 2691, is_open: None });
    t.push(Port { service: "ita-manager".to_string(), number: 5052, is_open: None });
    t.push(Port { service: "ismc".to_string(), number: 1638, is_open: None });
    t.push(Port { service: "softaudit".to_string(), number: 3419, is_open: None });
    t.push(Port { service: "isg-uda-server".to_string(), number: 2551, is_open: None });
    t.push(Port { service: "ip-qsig".to_string(), number: 4029, is_open: None });
    t.push(Port { service: "int-rcv-cntrl".to_string(), number: 3603, is_open: None });
    t.push(Port { service: "ischat".to_string(), number: 1336, is_open: None });
    t.push(Port { service: "infowave".to_string(), number: 2082, is_open: None });
    t.push(Port { service: "imyx".to_string(), number: 1143, is_open: None });
    t.push(Port { service: "infiniswitchcl".to_string(), number: 3602, is_open: None });
    t.push(Port { service: "indigo-server".to_string(), number: 1176, is_open: None });
    t.push(Port { service: "igo-incognito".to_string(), number: 4100, is_open: None });
    t.push(Port { service: "ifsf-hb-port".to_string(), number: 3486, is_open: None });
    t.push(Port { service: "iconstructsrv".to_string(), number: 6077, is_open: None });
    t.push(Port { service: "iims".to_string(), number: 4800, is_open: None });
    t.push(Port { service: "icg-swp".to_string(), number: 2062, is_open: None });
    t.push(Port { service: "can-nds".to_string(), number: 1918, is_open: None });
    t.push(Port { service: "entextnetwk".to_string(), number: 12001, is_open: None });
    t.push(Port { service: "entexthigh".to_string(), number: 12002, is_open: None });
    t.push(Port { service: "aurora".to_string(), number: 9084, is_open: None });
    t.push(Port { service: "iba-cfg".to_string(), number: 7072, is_open: None });
    t.push(Port { service: "iascontrol-oms".to_string(), number: 1156, is_open: None });
    t.push(Port { service: "iapp".to_string(), number: 2313, is_open: None });
    t.push(Port { service: "i3-sessionmgr".to_string(), number: 3952, is_open: None });
    t.push(Port { service: "hfcs-manager".to_string(), number: 4999, is_open: None });
    t.push(Port { service: "htuilsrv".to_string(), number: 5023, is_open: None });
    t.push(Port { service: "mongod".to_string(), number: 28017, is_open: None });
    t.push(Port { service: "mongod".to_string(), number: 27019, is_open: None });
    t.push(Port { service: "mongod".to_string(), number: 27018, is_open: None });
    t.push(Port { service: "event-port".to_string(), number: 2069, is_open: None });
    t.push(Port { service: "hri-port".to_string(), number: 3439, is_open: None });
    t.push(Port { service: "hrd-ncs".to_string(), number: 6324, is_open: None });
    t.push(Port { service: "hp-webadmin".to_string(), number: 1188, is_open: None });
    t.push(Port { service: "hpvmmagent".to_string(), number: 1125, is_open: None });
    t.push(Port { service: "hppronetman".to_string(), number: 3908, is_open: None });
    t.push(Port { service: "ovbus".to_string(), number: 7501, is_open: None });
    t.push(Port { service: "hncp-dtls-port".to_string(), number: 8232, is_open: None });
    t.push(Port { service: "hks-lm".to_string(), number: 1722, is_open: None });
    t
}

fn chunk_35() -> (t: Vec<Port>)
    ensures
        t@.len() == 50,
        forall|i: int| 0 <= i < t@.len() ==> entry_matches(#[trigger] t@[i], chunk_entry_35(i)),
        forall|i: int| 0 <= i < t@.len() ==> table_entry_ok(#[trigger] t@[i]),
{
    let mut t: Vec<Port> = Vec::new();
    t.push(Port { service: "hippad".to_string(), number: 2988, is_open: None });
    t.push(Port { service: "hip-nat-t".to_string(), number: 10500, is_open: None });
    t.push(Port { service: "hhb-gateway".to_string(), number: 1136, is_open: None });
    t.push(Port { service: "health-trap".to_string(), number: 1162, is_open: None });
    t.push(Port { service: "abb-hw".to_string(), number: 10020, is_open: None });
    t.push(Port { service: "gsidcap".to_string(), number: 22128, is_open: None });
    t.push(Port { service: "groove-dpp".to_string(), number: 1211, is_open: None });
    t.push(Port { service: "gf".to_string(), number: 3530, is_open: None });
    t.push(Port { service: "ghvpn".to_string(), number: 12009, is_open: None });
    t.push(Port { service: "golem".to_string(), number: 9005, is_open: None });
    t.push(Port { service: "goahead-fldup".to_string(), number: 3057, is_open: None });
    t.push(Port { service: "gvcp".to_string(), number: 3956, is_open: None });
    t.push(Port { service: "gpfs".to_string(), number: 1191, is_open: None });
    t.push(Port { service: "nvmsgd".to_string(), number: 3519, is_open: None });
    t.push(Port { service: "galaxy-network".to_string(), number: 5235, is_open: None });
    t.push(Port { service: "fuscript".to_string(), number: 1144, is_open: None });
    t.push(Port { service: "fmp".to_string(), number: 4745, is_open: None });
    t.push(Port { service: "fjicl-tep-a".to_string(), number: 1901, is_open: None });
    t.push(Port { service: "fhsp".to_string(), number: 1807, is_open: None });
    t.push(Port { service: "fjitsuappmgr".to_string(), number: 2425, is_open: None });
    t.push(Port { service: "fis".to_string(), number: 5912, is_open: None });
    t.push(Port { service: "flamenco-proxy".to_string(), number: 3210, is_open: None });
    t.push(Port { service: "filenet-powsrm".to_string(), number: 32767, is_open: None });
    t.push(Port { service: "fmwp".to_string(), number: 5015, is_open: None });
    t.push(Port { service: "fmpro-v6".to_string(), number: 5013, is_open: None });
    t.push(Port { service: "ff-lr-port".to_string(), number: 3622, is_open: None });
    t.push(Port { service: "fazzt-admin".to_string(), number: 4039, is_open: None });
    t.push(Port { service: "ezmeeting-2".to_string(), number: 10101, is_open: None });
    t.push(Port { service: "enfs".to_string(), number: 5233, is_open: None });
    t.push(Port { service: "sde-discovery".to_string(), number: 5152, is_open: None });
    t.push(Port { service: "eisp".to_string(), number: 3983, is_open: None });
    t.push(Port { service: "eis".to_string(), number: 3982, is_open: None });
    t.push(Port { service: "erunbook_agent".to_string(), number: 9616, is_open: None });
    t.push(Port { service: "epmd".to_string(), number: 4369, is_open: None });
    t.push(Port { service: "e-woa".to_string(), number: 3728, is_open: None });
    t.push(Port { service: "ep-nsp".to_string(), number: 3621, is_open: None });
    t.push(Port { service: "eapsp".to_string(), number: 2291, is_open: None });
    t.push(Port { service: "ev-services".to_string(), number: 5114, is_open: None });
    t.push(Port { service: "elcn".to_string(), number: 7101, is_open: None });
    t.push(Port { service: "eli".to_string(), number: 2087, is_open: None });
    t.push(Port { service: "eenet".to_string(), number: 5234, is_open: None });
    t.push(Port { service: "edb-server1".to_string(), number: 1635, is_open: None });
    t.push(Port { service: "ecolor-imager".to_string(), number: 3263, is_open: None });
    t.push(Port { service: "e-builder".to_string(), number: 4121, is_open: None });
    t.push(Port { service: "mtsserver".to_string(), number: 4602, is_open: None });
    t.push(Port { service: "efi-mg".to_string(), number: 2224, is_open: None });
    t.push(Port { service: "els".to_string(), number: 1315, is_open: None });
    t.push(Port { service: "drip".to_string(), number: 3949, is_open: None });
    t.push(Port { service: "dddp".to_string(), number: 9131, is_open: None });
    t.push(Port { service: "dyna-access".to_string(), number: 3310, is_open: None });
    t
}

fn chunk_36() -> (t: Vec<Port>)
    ensures
        t@.len() == 50,
        forall|i: int| 0 <= i < t@.len() ==> entry_matches(#[trigger] t@[i], chunk_entry_36(i)),
        forall|i: int| 0 <= i < t@.len() ==> table_entry_ok(#[trigger] t@[i]),
{
    let mut t: Vec<Port> = Vec::new();
    t.push(Port { service: "dvbservdsc".to_string(), number: 3937, is_open: None });
    t.push(Port { service: "dtv-chan-req".to_string(), number: 2253, is_open: None });
    t.push(Port { service: "msdts1".to_string(), number: 3882, is_open: None });
    t.push(Port { service: "dvapps".to_string(), number: 3831, is_open: None });
    t.push(Port { service: "docker".to_string(), number: 2376, is_open: None });
    t.push(Port { service: "docker".to_string(), number: 2375, is_open: None });
    t.push(Port { service: "dl_agent".to_string(), number: 3876, is_open: None });
    t.push(Port { service: "dj-ilm".to_string(), number: 3362, is_open: None });
    t.push(Port { service: "dtp".to_string(), number: 3663, is_open: None });
    t.push(Port { service: "directv-web".to_string(), number: 3334, is_open: None });
    t.push(Port { service: "directplaysrvr".to_string(), number: 47624, is_open: None });
    t.push(Port { service: "direcpc-video".to_string(), number: 1825, is_open: None });
    t.push(Port { service: "diameter".to_string(), number: 3868, is_open: None });
    t.push(Port { service: "d-data-control".to_string(), number: 4302, is_open: None });
    t.push(Port { service: "dtpt".to_string(), number: 5721, is_open: None });
    t.push(Port { service: "dellwebadmin-2".to_string(), number: 1279, is_open: None });
    t.push(Port { service: "netmon".to_string(), number: 2606, is_open: None });
    t.push(Port { service: "d-cinema-rrp".to_string(), number: 1173, is_open: None });
    t.push(Port { service: "dcap".to_string(), number: 22125, is_open: None });
    t.push(Port { service: "db-lsp".to_string(), number: 17500, is_open: None });
    t.push(Port { service: "dbisamserver1".to_string(), number: 12005, is_open: None });
    t.push(Port { service: "dayliteserver".to_string(), number: 6113, is_open: None });
    t.push(Port { service: "dcsoftware".to_string(), number: 3793, is_open: None });
    t.push(Port { service: "dlsrap".to_string(), number: 1973, is_open: None });
    t.push(Port { service: "scservp".to_string(), number: 3637, is_open: None });
    t.push(Port { service: "cumulus-admin".to_string(), number: 8954, is_open: None });
    t.push(Port { service: "cst-port".to_string(), number: 3742, is_open: None });
    t.push(Port { service: "xmms2".to_string(), number: 9667, is_open: None });
    t.push(Port { service: "crestron-ctp".to_string(), number: 41795, is_open: None });
    t.push(Port { service: "crestron-cip".to_string(), number: 41794, is_open: None });
    t.push(Port { service: "corelccam".to_string(), number: 4300, is_open: None });
    t.push(Port { service: "copy".to_string(), number: 8445, is_open: None });
    t.push(Port { service: "netperf".to_string(), number: 12865, is_open: None });
    t.push(Port { service: "contentserver".to_string(), number: 3365, is_open: None });
    t.push(Port { service: "contclientms".to_string(), number: 4665, is_open: None });
    t.push(Port { service: "csvr-proxy".to_string(), number: 3190, is_open: None });
    t.push(Port { service: "config-port".to_string(), number: 3577, is_open: None });
    t.push(Port { service: "acp-conduit".to_string(), number: 3823, is_open: None });
    t.push(Port { service: "comotionmaster".to_string(), number: 2261, is_open: None });
    t.push(Port { service: "comotionback".to_string(), number: 2262, is_open: None });
    t.push(Port { service: "atmtcp".to_string(), number: 2812, is_open: None });
    t.push(Port { service: "commlinx-avl".to_string(), number: 1190, is_open: None });
    t.push(Port { service: "CodeMeter".to_string(), number: 22350, is_open: None });
    t.push(Port { service: "cluster-disc".to_string(), number: 3374, is_open: None });
    t.push(Port { service: "cl-db-attach".to_string(), number: 4135, is_open: None });
    t.push(Port { service: "citriximaclient".to_string(), number: 2598, is_open: None });
    t.push(Port { service: "clp".to_string(), number: 2567, is_open: None });
    t.push(Port { service: "cisco-ipsla".to_string(), number: 1167, is_open: None });
    t.push(Port { service: "cisco-avp".to_string(), number: 8470, is_open: None });
    t.push(Port { service: "cirrossp".to_string(), number: 10443, is_open: None });
    t
}

fn chunk_37() -> (t: Vec<Port>)
    ensures
        t@.len() == 50,
        forall|i: int| 0 <= i < t@.len() ==> entry_matches(#[trigger] t@[i], chunk_entry_37(i)),
        forall|i: int| 0 <= i < t@.len() ==> table_entry_ok(#[trigger] t@[i]),
{
    let mut t: Vec<Port> = Vec::new();
    t.push(Port { service: "cp-cluster".to_string(), number: 8116, is_open: None });
    t.push(Port { service: "cernsysmgmtagt".to_string(), number: 3830, is_open: None });
    t.push(Port { service: "cddbp-alt".to_string(), number: 8880, is_open: None });
    t.push(Port { service: "ccs-software".to_string(), number: 2734, is_open: None });
    t.push(Port { service: "ccmcomm".to_string(), number: 3505, is_open: None });
    t.push(Port { service: "cbserver".to_string(), number: 3388, is_open: None });
    t.push(Port { service: "canocentral0".to_string(), number: 1871, is_open: None });
    t.push(Port { service: "geognosisman".to_string(), number: 4325, is_open: None });
    t.push(Port { service: "casanswmgmt".to_string(), number: 3669, is_open: None });
    t.push(Port { service: "ca-audit-da".to_string(), number: 8025, is_open: None });
    t.push(Port { service: "dxadmind".to_string(), number: 1958, is_open: None });
    t.push(Port { service: "bts-x73".to_string(), number: 3681, is_open: None });
    t.push(Port { service: "broker_service".to_string(), number: 3014, is_open: None });
    t.push(Port { service: "bctp".to_string(), number: 8999, is_open: None });
    t.push(Port { service: "brcd-vr-req".to_string(), number: 4415, is_open: None });
    t.push(Port { service: "wip-port".to_string(), number: 3414, is_open: None });
    t.push(Port { service: "brlp-0".to_string(), number: 4101, is_open: None });
    t.push(Port { service: "boks_clntd".to_string(), number: 6503, is_open: None });
    t.push(Port { service: "board-roar".to_string(), number: 9700, is_open: None });
    t.push(Port { service: "bmc-ea".to_string(), number: 3683, is_open: None });
    t.push(Port { service: "blaze".to_string(), number: 1150, is_open: None });
    t.push(Port { service: "bitcoin".to_string(), number: 18333, is_open: None });
    t.push(Port { service: "bip".to_string(), number: 4376, is_open: None });
    t.push(Port { service: "bv-smcsrv".to_string(), number: 3991, is_open: None });
    t.push(Port { service: "bv-queryengine".to_string(), number: 3989, is_open: None });
    t.push(Port { service: "bv-ds".to_string(), number: 3992, is_open: None });
    t.push(Port { service: "binderysupport".to_string(), number: 2302, is_open: None });
    t.push(Port { service: "bcinameservice".to_string(), number: 3415, is_open: None });
    t.push(Port { service: "backupedge".to_string(), number: 3946, is_open: None });
    t.push(Port { service: "b2n".to_string(), number: 1179, is_open: None });
    t.push(Port { service: "b2-runtime".to_string(), number: 2203, is_open: None });
    t.push(Port { service: "azeti".to_string(), number: 4192, is_open: None });
    t.push(Port { service: "axysbridge".to_string(), number: 4418, is_open: None });
    t.push(Port { service: "aocp".to_string(), number: 2712, is_open: None });
    t.push(Port { service: "avanti_cdp".to_string(), number: 4065, is_open: None });
    t.push(Port { service: "agcat".to_string(), number: 3915, is_open: None });
    t.push(Port { service: "autodesk-nlm".to_string(), number: 2080, is_open: None });
    t.push(Port { service: "autocuesmi".to_string(), number: 3103, is_open: None });
    t.push(Port { service: "aesop".to_string(), number: 8202, is_open: None });
    t.push(Port { service: "apx500api-2".to_string(), number: 2265, is_open: None });
    t.push(Port { service: "attachmate-uts".to_string(), number: 2304, is_open: None });
    t.push(Port { service: "aero".to_string(), number: 8060, is_open: None });
    t.push(Port { service: "assuria-slm".to_string(), number: 4119, is_open: None });
    t.push(Port { service: "ds-srvr".to_string(), number: 4401, is_open: None });
    t.push(Port { service: "asci-val".to_string(), number: 1560, is_open: None });
    t.push(Port { service: "omnilink-port".to_string(), number: 3904, is_open: None });
    t.push(Port { service: "armagetronad".to_string(), number: 4534, is_open: None });
    t.push(Port { service: "ardusmul".to_string(), number: 1835, is_open: None });
    t.push(Port { service: "ardus-cntl".to_string(), number: 1116, is_open: None });
    t.push(Port { service: "arca-api".to_string(), number: 8023, is_open: None });
    t
}

fn chunk_38() -> (t: Vec<Port>)
    ensures
        t@.len() == 50,
        forall|i: int| 0 <= i < t@.len() ==> entry_matches(#[trigger] t@[i], chunk_entry_38(i)),
        forall|i: int| 0 <= i < t@.len() ==> table_entry_ok(#[trigger] t@[i]),
{
    let mut t: Vec<Port> = Vec::new();
    t.push(Port { service: "noteshare".to_string(), number: 8474, is_open: None });
    t.push(Port { service: "appss-lm".to_string(), number: 3879, is_open: None });
    t.push(Port { service: "applusservice".to_string(), number: 4087, is_open: None });
    t.push(Port { service: "apple-vpns-rp".to_string(), number: 4112, is_open: None });
    t.push(Port { service: "adap".to_string(), number: 6350, is_open: None });
    t.push(Port { service: "apc-9950".to_string(), number: 9950, is_open: None });
    t.push(Port { service: "apc-3506".to_string(), number: 3506, is_open: None });
    t.push(Port { service: "apdap".to_string(), number: 3948, is_open: None });
    t.push(Port { service: "ffserver".to_string(), number: 3825, is_open: None });
    t.push(Port { service: "ansys-lm".to_string(), number: 1800, is_open: None });
    t.push(Port { service: "ansysli".to_string(), number: 2325, is_open: None });
    t.push(Port { service: "c1222-acse".to_string(), number: 1153, is_open: None });
    t.push(Port { service: "redis".to_string(), number: 6379, is_open: None });
    t.push(Port { service: "amx-rms".to_string(), number: 3839, is_open: None });
    t.push(Port { service: "amqp".to_string(), number: 5672, is_open: None });
    t.push(Port { service: "altovacentral".to_string(), number: 4689, is_open: None });
    t.push(Port { service: "ap".to_string(), number: 47806, is_open: None });
    t.push(Port { service: "acms".to_string(), number: 3980, is_open: None });
    t.push(Port { service: "airshot".to_string(), number: 3975, is_open: None });
    t.push(Port { service: "aipn-reg".to_string(), number: 4113, is_open: None });
    t.push(Port { service: "aimpp-port-req".to_string(), number: 2847, is_open: None });
    t.push(Port { service: "ah-esp-encap".to_string(), number: 2070, is_open: None });
    t.push(Port { service: "agps-port".to_string(), number: 3425, is_open: None });
    t.push(Port { service: "afesc-mc".to_string(), number: 6628, is_open: None });
    t.push(Port { service: "agentsease-db".to_string(), number: 3997, is_open: None });
    t.push(Port { service: "arcpd".to_string(), number: 3513, is_open: None });
    t.push(Port { service: "abatjss".to_string(), number: 3656, is_open: None });
    t.push(Port { service: "ace-proxy".to_string(), number: 2335, is_open: None });
    t.push(Port { service: "accelenet".to_string(), number: 1182, is_open: None });
    t.push(Port { service: "abr-api".to_string(), number: 1954, is_open: None });
    t.push(Port { service: "abcsoftware".to_string(), number: 3996, is_open: None });
    t.push(Port { service: "a17-an-an".to_string(), number: 4599, is_open: None });
    t.push(Port { service: "minecraft".to_string(), number: 25565, is_open: None });
    t.push(Port { service: "3com-net-mgmt".to_string(), number: 2391, is_open: None });
    t.push(Port { service: "twrpc".to_string(), number: 3479, is_open: None });
    t.push(Port { service: "zenginkyo-2".to_string(), number: 5021, is_open: None });
    t.push(Port { service: "zenginkyo-1".to_string(), number: 5020, is_open: None });
    t.push(Port { service: "xingmpeg".to_string(), number: 1558, is_open: None });
    t.push(Port { service: "xiip".to_string(), number: 1924, is_open: None });
    t.push(Port { service: "worldscores".to_string(), number: 4545, is_open: None });
    t.push(Port { service: "wkstn-mon".to_string(), number: 2991, is_open: None });
    t.push(Port { service: "winpharaoh".to_string(), number: 6065, is_open: None });
    t.push(Port { service: "winjaserver".to_string(), number: 1290, is_open: None });
    t.push(Port { service: "web2host".to_string(), number: 1559, is_open: None });
    t.push(Port { service: "vrts-ipcserver".to_string(), number: 1317, is_open: None });
    t.push(Port { service: "virtualuser".to_string(), number: 5423, is_open: None });
    t.push(Port { service: "vdmplay".to_string(), number: 1707, is_open: None });
    t.push(Port { service: "unot".to_string(), number: 5055, is_open: None });
    t.push(Port { service: "unknown".to_string(), number: 9975, is_open: None });
    t.push(Port { service: "unknown".to_string(), number: 9971, is_open: None });
    t
}

fn chunk_39() -> (t: Vec<Port>)
    ensures
        t@.len() == 50,
        forall|i: int| 0 <= i < t@.len() ==> entry_matches(#[trigger] t@[i], chunk_entry_39(i)),
        forall|i: int| 0 <= i < t@.len() ==> table_entry_ok(#[trigger] t@[i]),
{
    let mut t: Vec<Port> = Vec::new();
    t.push(Port { service: "unknown".to_string(), number: 9919, is_open: None });
    t.push(Port { service: "unknown".to_string(), number: 9915, is_open: None });
    t.push(Port { service: "unknown".to_string(), number: 9912, is_open: None });
    t.push(Port { service: "unknown".to_string(), number: 9910, is_open: None });
    t.push(Port { service: "unknown".to_string(), number: 9908, is_open: None });
    t.push(Port { service: "unknown".to_string(), number: 9901, is_open: None });
    t.push(Port { service: "unknown".to_string(), number: 9844, is_open: None });
    t.push(Port { service: "unknown".to_string(), number: 9830, is_open: None });
    t.push(Port { service: "unknown".to_string(), number: 9826, is_open: None });
    t.push(Port { service: "unknown".to_string(), number: 9825, is_open: None });
    t.push(Port { service: "unknown".to_string(), number: 9823, is_open: None });
    t.push(Port { service: "unknown".to_string(), number: 9814, is_open: None });
    t.push(Port { service: "unknown".to_string(), number: 9812, is_open: None });
    t.push(Port { service: "unknown".to_string(), number: 9777, is_open: None });
    t.push(Port { service: "unknown".to_string(), number: 9745, is_open: None });
    t.push(Port { service: "unknown".to_string(), number: 9683, is_open: None });
    t.push(Port { service: "unknown".to_string(), number: 9680, is_open: None });
    t.push(Port { service: "unknown".to_string(), number: 9679, is_open: None });
    t.push(Port { service: "unknown".to_string(), number: 9674, is_open: None });
    t.push(Port { service: "unknown".to_string(), number: 9665, is_open: None });
    t.push(Port { service: "unknown".to_string(), number: 9661, is_open: None });
    t.push(Port { service: "unknown".to_string(), number: 9654, is_open: None });
    t.push(Port { service: "unknown".to_string(), number: 9648, is_open: None });
    t.push(Port { service: "unknown".to_string(), number: 9620, is_open: None });
    t.push(Port { service: "unknown".to_string(), number: 9619, is_open: None });
    t.push(Port { service: "unknown".to_string(), number: 9613, is_open: None });
    t.push(Port { service: "unknown".to_string(), number: 9583, is_open: None });
    t.push(Port { service: "unknown".to_string(), number: 9527, is_open: None });
    t.push(Port { service: "unknown".to_string(), number: 9513, is_open: None });
    t.push(Port { service: "unknown".to_string(), number: 9493, is_open: None });
    t.push(Port { service: "unknown".to_string(), number: 9478, is_open: None });
    t.push(Port { service: "unknown".to_string(), number: 9464, is_open: None });
    t.push(Port { service: "unknown".to_string(), number: 9454, is_open: None });
    t.push(Port { service: "unknown".to_string(), number: 9364, is_open: None });
    t.push(Port { service: "unknown".to_string(), number: 9351, is_open: None });
    t.push(Port { service: "unknown".to_string(), number: 9183, is_open: None });
    t.push(Port { service: "unknown".to_string(), number: 9170, is_open: None });
    t.push(Port { service: "unknown".to_string(), number: 9133, is_open: None });
    t.push(Port { service: "unknown".to_string(), number: 9130, is_open: None });
    t.push(Port { service: "unknown".to_string(), number: 9128, is_open: None });
    t.push(Port { service: "unknown".to_string(), number: 9125, is_open: None });
    t.push(Port { service: "unknown".to_string(), number: 9065, is_open: None });
    t.push(Port { service: "unknown".to_string(), number: 9061, is_open: None });
    t.push(Port { service: "unknown".to_string(), number: 9044, is_open: None });
    t.push(Port { service: "unknown".to_string(), number: 9037, is_open: None });
    t.push(Port { service: "unknown".to_string(), number: 9013, is_open: None });
    t.push(Port { service: "unknown".to_string(), number: 9004, is_open: None });
    t.push(Port { service: "unknown".to_string(), number: 8925, is_open: None });
    t.push(Port { service: "unknown".to_string(), number: 8898, is_open: None });
    t.push(Port { service: "unknown".to_string(), number: 8887, is_open: None });
    t
}

fn chunk_40() -> (t: Vec<Port>)
    ensures
        t@.len() == 50,
        forall|i: int| 0 <= i < t@.len() ==> entry_matches(#[trigger] t@[i], chunk_entry_40(i)),
        forall|i: int| 0 <= i < t@.len() ==> table_entry_ok(#[trigger] t@[i]),
{
    let mut t: Vec<Port> = Vec::new();
    t.push(Port { service: "unknown".to_string(), number: 8882, is_open: None });
    t.push(Port { service: "unknown".to_string(), number: 8879, is_open: None });
    t.push(Port { service: "unknown".to_string(), number: 8878, is_open: None });
    t.push(Port { service: "unknown".to_string(), number: 8865, is_open: None });
    t.push(Port { service: "unknown".to_string(), number: 8843, is_open: None });
    t.push(Port { service: "unknown".to_string(), number: 8801, is_open: None });
    t.push(Port { service: "unknown".to_string(), number: 8798, is_open: None });
    t.push(Port { service: "unknown".to_string(), number: 8790, is_open: None });
    t.push(Port { service: "unknown".to_string(), number: 8772, is_open: None });
    t.push(Port { service: "unknown".to_string(), number: 8756, is_open: None });
    t.push(Port { service: "unknown".to_string(), number: 8752, is_open: None });
    t.push(Port { service: "unknown".to_string(), number: 8736, is_open: None });
    t.push(Port { service: "unknown".to_string(), number: 8680, is_open: None });
    t.push(Port { service: "unknown".to_string(), number: 8673, is_open: None });
    t.push(Port { service: "unknown".to_string(), number: 8658, is_open: None });
    t.push(Port { service: "unknown".to_string(), number: 8655, is_open: None });
    t.push(Port { service: "unknown".to_string(), number: 8644, is_open: None });
    t.push(Port { service: "unknown".to_string(), number: 8640, is_open: None });
    t.push(Port { service: "unknown".to_string(), number: 8621, is_open: None });
    t.push(Port { service: "unknown".to_string(), number: 8601, is_open: None });
    t.push(Port { service: "unknown".to_string(), number: 8562, is_open: None });
    t.push(Port { service: "unknown".to_string(), number: 8539, is_open: None });
    t.push(Port { service: "unknown".to_string(), number: 8531, is_open: None });
    t.push(Port { service: "unknown".to_string(), number: 8530, is_open: None });
    t.push(Port { service: "unknown".to_string(), number: 8515, is_open: None });
    t.push(Port { service: "unknown".to_string(), number: 8484, is_open: None });
    t.push(Port { service: "unknown".to_string(), number: 8479, is_open: None });
    t.push(Port { service: "unknown".to_string(), number: 8477, is_open: None });
    t.push(Port { service: "unknown".to_string(), number: 8455, is_open: None });
    t.push(Port { service: "unknown".to_string(), number: 8454, is_open: None });
    t.push(Port { service: "unknown".to_string(), number: 8453, is_open: None });
    t.push(Port { service: "unknown".to_string(), number: 8452, is_open: None });
    t.push(Port { service: "unknown".to_string(), number: 8451, is_open: None });
    t.push(Port { service: "unknown".to_string(), number: 8409, is_open: None });
    t.push(Port { service: "unknown".to_string(), number: 8339, is_open: None });
    t.push(Port { service: "unknown".to_string(), number: 8308, is_open: None });
    t.push(Port { service: "unknown".to_string(), number: 8295, is_open: None });
    t.push(Port { service: "unknown".to_string(), number: 8273, is_open: None });
    t.push(Port { service: "unknown".to_string(), number: 8268, is_open: None });
    t.push(Port { service: "unknown".to_string(), number: 8255, is_open: None });
    t.push(Port { service: "unknown".to_string(), number: 8248, is_open: None });
    t.push(Port { service: "unknown".to_string(), number: 8245, is_open: None });
    t.push(Port { service: "unknown".to_string(), number: 8144, is_open: None });
    t.push(Port { service: "unknown".to_string(), number: 8133, is_open: None });
    t.push(Port { service: "unknown".to_string(), number: 8110, is_open: None });
    t.push(Port { service: "unknown".to_string(), number: 8092, is_open: None });
    t.push(Port { service: "unknown".to_string(), number: 8064, is_open: None });
    t.push(Port { service: "unknown".to_string(), number: 8037, is_open: None });
    t.push(Port { service: "unknown".to_string(), number: 8029, is_open: None });
    t.push(Port { service: "unknown".to_string(), number: 8018, is_open: None });
    t
}

fn chunk_41() -> (t: Vec<Port>)
    ensures
        t@.len() == 50,
        forall|i: int| 0 <= i < t@.len() ==> entry_matches(#[trigger] t@[i], chunk_entry_41(i)),
        forall|i: int| 0 <= i < t@.len() ==> table_entry_ok(#[trigger] t@[i]),
{
    let mut t: Vec<Port> = Vec::new();
    t.push(Port { service: "unknown".to_string(), number: 8014, is_open: None });
    t.push(Port { service: "unknown".to_string(), number: 7975, is_open: None });
    t.push(Port { service: "unknown".to_string(), number: 7895, is_open: None });
    t.push(Port { service: "unknown".to_string(), number: 7854, is_open: None });
    t.push(Port { service: "unknown".to_string(), number: 7853, is_open: None });
    t.push(Port { service: "unknown".to_string(), number: 7852, is_open: None });
    t.push(Port { service: "unknown".to_string(), number: 7830, is_open: None });
    t.push(Port { service: "unknown".to_string(), number: 7813, is_open: None });
    t.push(Port { service: "unknown".to_string(), number: 7788, is_open: None });
    t.push(Port { service: "unknown".to_string(), number: 7780, is_open: None });
    t.push(Port { service: "unknown".to_string(), number: 7772, is_open: None });
    t.push(Port { service: "unknown".to_string(), number: 7771, is_open: None });
    t.push(Port { service: "unknown".to_string(), number: 7688, is_open: None });
    t.push(Port { service: "unknown".to_string(), number: 7685, is_open: None });
    t.push(Port { service: "unknown".to_string(), number: 7654, is_open: None });
    t.push(Port { service: "unknown".to_string(), number: 7637, is_open: None });
    t.push(Port { service: "unknown".to_string(), number: 7600, is_open: None });
    t.push(Port { service: "unknown".to_string(), number: 7555, is_open: None });
    t.push(Port { service: "unknown".to_string(), number: 7553, is_open: None });
    t.push(Port { service: "unknown".to_string(), number: 7456, is_open: None });
    t.push(Port { service: "unknown".to_string(), number: 7451, is_open: None });
    t.push(Port { service: "unknown".to_string(), number: 7231, is_open: None });
    t.push(Port { service: "unknown".to_string(), number: 7218, is_open: None });
    t.push(Port { service: "unknown".to_string(), number: 7184, is_open: None });
    t.push(Port { service: "unknown".to_string(), number: 7119, is_open: None });
    t.push(Port { service: "unknown".to_string(), number: 7104, is_open: None });
    t.push(Port { service: "unknown".to_string(), number: 7102, is_open: None });
    t.push(Port { service: "unknown".to_string(), number: 7092, is_open: None });
    t.push(Port { service: "unknown".to_string(), number: 7068, is_open: None });
    t.push(Port { service: "unknown".to_string(), number: 7067, is_open: None });
    t.push(Port { service: "unknown".to_string(), number: 7043, is_open: None });
    t.push(Port { service: "unknown".to_string(), number: 7033, is_open: None });
    t.push(Port { service: "unknown".to_string(), number: 6973, is_open: None });
    t.push(Port { service: "unknown".to_string(), number: 6972, is_open: None });
    t.push(Port { service: "unknown".to_string(), number: 6956, is_open: None });
    t.push(Port { service: "unknown".to_string(), number: 6942, is_open: None });
    t.push(Port { service: "unknown".to_string(), number: 6922, is_open: None });
    t.push(Port { service: "unknown".to_string(), number: 6920, is_open: None });
    t.push(Port { service: "unknown".to_string(), number: 6897, is_open: None });
    t.push(Port { service: "unknown".to_string(), number: 6877, is_open: None });
    t.push(Port { service: "unknown".to_string(), number: 6780, is_open: None });
    t.push(Port { service: "unknown".to_string(), number: 6734, is_open: None });
    t.push(Port { service: "unknown".to_string(), number: 6725, is_open: None });
    t.push(Port { service: "unknown".to_string(), number: 6710, is_open: None });
    t.push(Port { service: "unknown".to_string(), number: 6709, is_open: None });
    t.push(Port { service: "unknown".to_string(), number: 6650, is_open: None });
    t.push(Port { service: "unknown".to_string(), number: 6647, is_open: None });
    t.push(Port { service: "unknown".to_string(), number: 6644, is_open: None });
    t.push(Port { service: "unknown".to_string(), number: 6606, is_open: None });
    t.push(Port { service: "unknown".to_string(), number: 65514, is_open: None });
    t
}

fn chunk_42() -> (t: Vec<Port>)
    ensures
        t@.len() == 50,
        forall|i: int| 0 <= i < t@.len() ==> entry_matches(#[trigger] t@[i], chunk_entry_42(i)),
        forall|i: int| 0 <= i < t@.len() ==> table_entry_ok(#[trigger] t@[i]),
{
    let mut t: Vec<Port> = Vec::new();
    t.push(Port { service: "unknown".to_string(), number: 65488, is_open: None });
    t.push(Port { service: "unknown".to_string(), number: 6535, is_open: None });
    t.push(Port { service: "unknown".to_string(), number: 65311, is_open: None });
    t.push(Port { service: "unknown".to_string(), number: 65048, is_open: None });
    t.push(Port { service: "unknown".to_string(), number: 64890, is_open: None });
    t.push(Port { service: "unknown".to_string(), number: 64727, is_open: None });
    t.push(Port { service: "unknown".to_string(), number: 64726, is_open: None });
    t.push(Port { service: "unknown".to_string(), number: 64551, is_open: None });
    t.push(Port { service: "unknown".to_string(), number: 64507, is_open: None });
    t.push(Port { service: "unknown".to_string(), number: 64438, is_open: None });
    t.push(Port { service: "unknown".to_string(), number: 64320, is_open: None });
    t.push(Port { service: "unknown".to_string(), number: 64127, is_open: None });
    t.push(Port { service: "unknown".to_string(), number: 6412, is_open: None });
    t.push(Port { service: "unknown".to_string(), number: 64080, is_open: None });
    t.push(Port { service: "unknown".to_string(), number: 63803, is_open: None });
    t.push(Port { service: "unknown".to_string(), number: 63675, is_open: None });
    t.push(Port { service: "unknown".to_string(), number: 6349, is_open: None });
    t.push(Port { service: "unknown".to_string(), number: 63423, is_open: None });
    t.push(Port { service: "unknown".to_string(), number: 6323, is_open: None });
    t.push(Port { service: "unknown".to_string(), number: 63156, is_open: None });
    t.push(Port { service: "unknown".to_string(), number: 63105, is_open: None });
    t.push(Port { service: "unknown".to_string(), number: 6310, is_open: None });
    t.push(Port { service: "unknown".to_string(), number: 6309, is_open: None });
    t.push(Port { service: "unknown".to_string(), number: 62866, is_open: None });
    t.push(Port { service: "unknown".to_string(), number: 6274, is_open: None });
    t.push(Port { service: "unknown".to_string(), number: 6273, is_open: None });
    t.push(Port { service: "unknown".to_string(), number: 62674, is_open: None });
    t.push(Port { service: "unknown".to_string(), number: 6259, is_open: None });
    t.push(Port { service: "unknown".to_string(), number: 62570, is_open: None });
    t.push(Port { service: "unknown".to_string(), number: 62519, is_open: None });
    t.push(Port { service: "unknown".to_string(), number: 6250, is_open: None });
    t.push(Port { service: "unknown".to_string(), number: 62312, is_open: None });
    t.push(Port { service: "unknown".to_string(), number: 62188, is_open: None });
    t.push(Port { service: "unknown".to_string(), number: 62080, is_open: None });
    t.push(Port { service: "unknown".to_string(), number: 62042, is_open: None });
    t.push(Port { service: "unknown".to_string(), number: 62006, is_open: None });
    t.push(Port { service: "unknown".to_string(), number: 61942, is_open: None });
    t.push(Port { service: "unknown".to_string(), number: 61851, is_open: None });
    t.push(Port { service: "unknown".to_string(), number: 61827, is_open: None });
    t.push(Port { service: "unknown".to_string(), number: 61734, is_open: None });
    t.push(Port { service: "unknown".to_string(), number: 61722, is_open: None });
    t.push(Port { service: "unknown".to_string(), number: 61669, is_open: None });
    t.push(Port { service: "unknown".to_string(), number: 61617, is_open: None });
    t.push(Port { service: "unknown".to_string(), number: 61616, is_open: None });
    t.push(Port { service: "unknown".to_string(), number: 61516, is_open: None });
    t.push(Port { service: "unknown".to_string(), number: 61473, is_open: None });
    t.push(Port { service: "unknown".to_string(), number: 61402, is_open: None });
    t.push(Port { service: "unknown".to_string(), number: 6126, is_open: None });
    t.push(Port { service: "unknown".to_string(), number: 6120, is_open: None });
    t.push(Port { service: "unknown".to_string(), number: 61170, is_open: None });
    t
}

fn chunk_43() -> (t: Vec<Port>)
    ensures
        t@.len() == 50,
        forall|i: int| 0 <= i < t@.len() ==> entry_matches(#[trigger] t@[i], chunk_entry_43(i)),
        forall|i: int| 0 <= i < t@.len() ==> table_entry_ok(#[trigger] t@[i]),
{
    let mut t: Vec<Port> = Vec::new();
    t.push(Port { service: "unknown".to_string(), number: 61169, is_open: None });
    t.push(Port { service: "unknown".to_string(), number: 61159, is_open: None });
    t.push(Port { service: "unknown".to_string(), number: 60989, is_open: None });
    t.push(Port { service: "unknown".to_string(), number: 6091, is_open: None });
    t.push(Port { service: "unknown".to_string(), number: 6090, is_open: None });
    t.push(Port { service: "unknown".to_string(), number: 60794, is_open: None });
    t.push(Port { service: "unknown".to_string(), number: 60789, is_open: None });
    t.push(Port { service: "unknown".to_string(), number: 60783, is_open: None });
    t.push(Port { service: "unknown".to_string(), number: 60782, is_open: None });
    t.push(Port { service: "unknown".to_string(), number: 60753, is_open: None });
    t.push(Port { service: "unknown".to_string(), number: 60743, is_open: None });
    t.push(Port { service: "unknown".to_string(), number: 60728, is_open: None });
    t.push(Port { service: "unknown".to_string(), number: 60713, is_open: None });
    t.push(Port { service: "unknown".to_string(), number: 6067, is_open: None });
    t.push(Port { service: "unknown".to_string(), number: 60628, is_open: None });
    t.push(Port { service: "unknown".to_string(), number: 60621, is_open: None });
    t.push(Port { service: "unknown".to_string(), number: 60612, is_open: None });
    t.push(Port { service: "unknown".to_string(), number: 60579, is_open: None });
    t.push(Port { service: "unknown".to_string(), number: 60544, is_open: None });
    t.push(Port { service: "unknown".to_string(), number: 60504, is_open: None });
    t.push(Port { service: "unknown".to_string(), number: 60492, is_open: None });
    t.push(Port { service: "unknown".to_string(), number: 60485, is_open: None });
    t.push(Port { service: "unknown".to_string(), number: 60403, is_open: None });
    t.push(Port { service: "unknown".to_string(), number: 60401, is_open: None });
    t.push(Port { service: "unknown".to_string(), number: 60377, is_open: None });
    t.push(Port { service: "unknown".to_string(), number: 60279, is_open: None });
    t.push(Port { service: "unknown".to_string(), number: 60243, is_open: None });
    t.push(Port { service: "unknown".to_string(), number: 60227, is_open: None });
    t.push(Port { service: "unknown".to_string(), number: 60177, is_open: None });
    t.push(Port { service: "unknown".to_string(), number: 60111, is_open: None });
    t.push(Port { service: "unknown".to_string(), number: 60086, is_open: None });
    t.push(Port { service: "unknown".to_string(), number: 60055, is_open: None });
    t.push(Port { service: "unknown".to_string(), number: 60003, is_open: None });
    t.push(Port { service: "unknown".to_string(), number: 60002, is_open: None });
    t.push(Port { service: "unknown".to_string(), number: 60000, is_open: None });
    t.push(Port { service: "unknown".to_string(), number: 59987, is_open: None });
    t.push(Port { service: "unknown".to_string(), number: 59841, is_open: None });
    t.push(Port { service: "unknown".to_string(), number: 59829, is_open: None });
    t.push(Port { service: "unknown".to_string(), number: 59810, is_open: None });
    t.push(Port { service: "unknown".to_string(), number: 59778, is_open: None });
    t.push(Port { service: "unknown".to_string(), number: 5975, is_open: None });
    t.push(Port { service: "unknown".to_string(), number: 5974, is_open: None });
    t.push(Port { service: "unknown".to_string(), number: 5971, is_open: None });
    t.push(Port { service: "unknown".to_string(), number: 59684, is_open: None });
    t.push(Port { service: "unknown".to_string(), number: 5966, is_open: None });
    t.push(Port { service: "unknown".to_string(), number: 5958, is_open: None });
    t.push(Port { service: "unknown".to_string(), number: 59565, is_open: None });
    t.push(Port { service: "unknown".to_string(), number: 5954, is_open: None });
    t.push(Port { service: "unknown".to_string(), number: 5953, is_open: None });
    t.push(Port { service: "unknown".to_string(), number: 59525, is_open: None });
    t
}

fn chunk_44() -> (t: Vec<Port>)
    ensures
        t@.len() == 50,
        forall|i: int| 0 <= i < t@.len() ==> entry_matches(#[trigger] t@[i], chunk_entry_44(i)),
        forall|i: int| 0 <= i < t@.len() ==> table_entry_ok(#[trigger] t@[i]),
{
    let mut t: Vec<Port> = Vec::new();
    t.push(Port { service: "unknown".to_string(), number: 59510, is_open: None });
    t.push(Port { service: "unknown".to_string(), number: 59509, is_open: None });
    t.push(Port { service: "unknown".to_string(), number: 59504, is_open: None });
    t.push(Port { service: "unknown".to_string(), number: 59499, is_open: None });
    t.push(Port { service: "unknown".to_string(), number: 5949, is_open: None });
    t.push(Port { service: "unknown".to_string(), number: 5948, is_open: None });
    t.push(Port { service: "unknown".to_string(), number: 5945, is_open: None });
    t.push(Port { service: "unknown".to_string(), number: 5939, is_open: None });
    t.push(Port { service: "unknown".to_string(), number: 5936, is_open: None });
    t.push(Port { service: "unknown".to_string(), number: 59340, is_open: None });
    t.push(Port { service: "unknown".to_string(), number: 5934, is_open: None });
    t.push(Port { service: "unknown".to_string(), number: 5931, is_open: None });
    t.push(Port { service: "unknown".to_string(), number: 5927, is_open: None });
    t.push(Port { service: "unknown".to_string(), number: 5926, is_open: None });
    t.push(Port { service: "unknown".to_string(), number: 5924, is_open: None });
    t.push(Port { service: "unknown".to_string(), number: 59239, is_open: None });
    t.push(Port { service: "unknown".to_string(), number: 5923, is_open: None });
    t.push(Port { service: "unknown".to_string(), number: 5921, is_open: None });
    t.push(Port { service: "unknown".to_string(), number: 5920, is_open: None });
    t.push(Port { service: "unknown".to_string(), number: 59191, is_open: None });
    t.push(Port { service: "unknown".to_string(), number: 5917, is_open: None });
    t.push(Port { service: "unknown".to_string(), number: 59160, is_open: None });
    t.push(Port { service: "unknown".to_string(), number: 59149, is_open: None });
    t.push(Port { service: "unknown".to_string(), number: 59122, is_open: None });
    t.push(Port { service: "unknown".to_string(), number: 59107, is_open: None });
    t.push(Port { service: "unknown".to_string(), number: 59087, is_open: None });
    t.push(Port { service: "unknown".to_string(), number: 5908, is_open: None });
    t.push(Port { service: "unknown".to_string(), number: 58991, is_open: None });
    t.push(Port { service: "unknown".to_string(), number: 58970, is_open: None });
    t.push(Port { service: "unknown".to_string(), number: 58908, is_open: None });
    t.push(Port { service: "unknown".to_string(), number: 5888, is_open: None });
    t.push(Port { service: "unknown".to_string(), number: 5887, is_open: None });
    t.push(Port { service: "unknown".to_string(), number: 5881, is_open: None });
    t.push(Port { service: "unknown".to_string(), number: 5878, is_open: None });
    t.push(Port { service: "unknown".to_string(), number: 5875, is_open: None });
    t.push(Port { service: "unknown".to_string(), number: 5874, is_open: None });
    t.push(Port { service: "unknown".to_string(), number: 58721, is_open: None });
    t.push(Port { service: "unknown".to_string(), number: 5871, is_open: None });
    t.push(Port { service: "unknown".to_string(), number: 58699, is_open: None });
    t.push(Port { service: "unknown".to_string(), number: 58634, is_open: None });
    t.push(Port { service: "unknown".to_string(), number: 58622, is_open: None });
    t.push(Port { service: "unknown".to_string(), number: 58610, is_open: None });
    t.push(Port { service: "unknown".to_string(), number: 5860, is_open: None });
    t.push(Port { service: "unknown".to_string(), number: 5858, is_open: None });
    t.push(Port { service: "unknown".to_string(), number: 58570, is_open: None });
    t.push(Port { service: "unknown".to_string(), number: 58562, is_open: None });
    t.push(Port { service: "unknown".to_string(), number: 5854, is_open: None });
    t.push(Port { service: "unknown".to_string(), number: 5853, is_open: None });
    t.push(Port { service: "unknown".to_string(), number: 5852, is_open: None });
    t.push(Port { service: "unknown".to_string(), number: 58498, is_open: None });
    t
}

fn chunk_45() -> (t: Vec<Port>)
    ensures
        t@.len() == 50,
        forall|i: int| 0 <= i < t@.len() ==> entry_matches(#[trigger] t@[i], chunk_entry_45(i)),
        forall|i: int| 0 <= i < t@.len() ==> table_entry_ok(#[trigger] t@[i]),
{
    let mut t: Vec<Port> = Vec::new();
    t.push(Port { service: "unknown".to_string(), number: 5849, is_open: None });
    t.push(Port { service: "unknown".to_string(), number: 5848, is_open: None });
    t.push(Port { service: "unknown".to_string(), number: 58468, is_open: None });
    t.push(Port { service: "unknown".to_string(), number: 58456, is_open: None });
    t.push(Port { service: "unknown".to_string(), number: 5845, is_open: None });
    t.push(Port { service: "unknown".to_string(), number: 58446, is_open: None });
    t.push(Port { service: "unknown".to_string(), number: 58430, is_open: None });
    t.push(Port { service: "unknown".to_string(), number: 5840, is_open: None });
    t.push(Port { service: "unknown".to_string(), number: 5839, is_open: None });
    t.push(Port { service: "unknown".to_string(), number: 5838, is_open: None });
    t.push(Port { service: "unknown".to_string(), number: 58374, is_open: None });
    t.push(Port { service: "unknown".to_string(), number: 5836, is_open: None });
    t.push(Port { service: "unknown".to_string(), number: 5834, is_open: None });
    t.push(Port { service: "unknown".to_string(), number: 58310, is_open: None });
    t.push(Port { service: "unknown".to_string(), number: 5831, is_open: None });
    t.push(Port { service: "unknown".to_string(), number: 58305, is_open: None });
    t.push(Port { service: "unknown".to_string(), number: 5827, is_open: None });
    t.push(Port { service: "unknown".to_string(), number: 5826, is_open: None });
    t.push(Port { service: "unknown".to_string(), number: 58252, is_open: None });
    t.push(Port { service: "unknown".to_string(), number: 5824, is_open: None });
    t.push(Port { service: "unknown".to_string(), number: 5821, is_open: None });
    t.push(Port { service: "unknown".to_string(), number: 5820, is_open: None });
    t.push(Port { service: "unknown".to_string(), number: 5817, is_open: None });
    t.push(Port { service: "unknown".to_string(), number: 58164, is_open: None });
    t.push(Port { service: "unknown".to_string(), number: 58109, is_open: None });
    t.push(Port { service: "unknown".to_string(), number: 58107, is_open: None });
    t.push(Port { service: "unknown".to_string(), number: 5808, is_open: None });
    t.push(Port { service: "unknown".to_string(), number: 58072, is_open: None });
    t.push(Port { service: "unknown".to_string(), number: 5806, is_open: None });
    t.push(Port { service: "unknown".to_string(), number: 5804, is_open: None });
    t.push(Port { service: "unknown".to_string(), number: 57999, is_open: None });
    t.push(Port { service: "unknown".to_string(), number: 57988, is_open: None });
    t.push(Port { service: "unknown".to_string(), number: 57928, is_open: None });
    t.push(Port { service: "unknown".to_string(), number: 57923, is_open: None });
    t.push(Port { service: "unknown".to_string(), number: 57896, is_open: None });
    t.push(Port { service: "unknown".to_string(), number: 57891, is_open: None });
    t.push(Port { service: "unknown".to_string(), number: 57733, is_open: None });
    t.push(Port { service: "unknown".to_string(), number: 57730, is_open: None });
    t.push(Port { service: "unknown".to_string(), number: 57702, is_open: None });
    t.push(Port { service: "unknown".to_string(), number: 57681, is_open: None });
    t.push(Port { service: "unknown".to_string(), number: 57678, is_open: None });
    t.push(Port { service: "unknown".to_string(), number: 57576, is_open: None });
    t.push(Port { service: "unknown".to_string(), number: 57479, is_open: None });
    t.push(Port { service: "unknown".to_string(), number: 57398, is_open: None });
    t.push(Port { service: "unknown".to_string(), number: 57387, is_open: None });
    t.push(Port { service: "unknown".to_string(), number: 5737, is_open: None });
    t.push(Port { service: "unknown".to_string(), number: 57352, is_open: None });
    t.push(Port { service: "unknown".to_string(), number: 57350, is_open: None });
    t.push(Port { service: "unknown".to_string(), number: 57347, is_open: None });
    t.push(Port { service: "unknown".to_string(), number: 5734, is_open: None });
    t
}

fn chunk_46() -> (t: Vec<Port>)
    ensures
        t@.len() == 50,
        forall|i: int| 0 <= i < t@.len() ==> entry_matches(#[trigger] t@[i], chunk_entry_46(i)),
        forall|i: int| 0 <= i < t@.len() ==> table_entry_ok(#[trigger] t@[i]),
{
    let mut t: Vec<Port> = Vec::new();
    t.push(Port { service: "unknown".to_string(), number: 57335, is_open: None });
    t.push(Port { service: "unknown".to_string(), number: 57325, is_open: None });
    t.push(Port { service: "unknown".to_string(), number: 5732, is_open: None });
    t.push(Port { service: "unknown".to_string(), number: 57123, is_open: None });
    t.push(Port { service: "unknown".to_string(), number: 5711, is_open: None });
    t.push(Port { service: "unknown".to_string(), number: 57103, is_open: None });
    t.push(Port { service: "unknown".to_string(), number: 57020, is_open: None });
    t.push(Port { service: "unknown".to_string(), number: 56975, is_open: None });
    t.push(Port { service: "unknown".to_string(), number: 56973, is_open: None });
    t.push(Port { service: "unknown".to_string(), number: 56827, is_open: None });
    t.push(Port { service: "unknown".to_string(), number: 56822, is_open: None });
    t.push(Port { service: "unknown".to_string(), number: 56810, is_open: None });
    t.push(Port { service: "unknown".to_string(), number: 56725, is_open: None });
    t.push(Port { service: "unknown".to_string(), number: 56723, is_open: None });
    t.push(Port { service: "unknown".to_string(), number: 56681, is_open: None });
    t.push(Port { service: "unknown".to_string(), number: 5667, is_open: None });
    t.push(Port { service: "unknown".to_string(), number: 56668, is_open: None });
    t.push(Port { service: "unknown".to_string(), number: 5665, is_open: None });
    t.push(Port { service: "unknown".to_string(), number: 56591, is_open: None });
    t.push(Port { service: "unknown".to_string(), number: 56535, is_open: None });
    t.push(Port { service: "unknown".to_string(), number: 56507, is_open: None });
    t.push(Port { service: "unknown".to_string(), number: 56293, is_open: None });
    t.push(Port { service: "unknown".to_string(), number: 56259, is_open: None });
    t.push(Port { service: "unknown".to_string(), number: 5622, is_open: None });
    t.push(Port { service: "unknown".to_string(), number: 5621, is_open: None });
    t.push(Port { service: "unknown".to_string(), number: 5620, is_open: None });
    t.push(Port { service: "unknown".to_string(), number: 5612, is_open: None });
    t.push(Port { service: "unknown".to_string(), number: 5611, is_open: None });
    t.push(Port { service: "unknown".to_string(), number: 56055, is_open: None });
    t.push(Port { service: "unknown".to_string(), number: 56016, is_open: None });
    t.push(Port { service: "unknown".to_string(), number: 55948, is_open: None });
    t.push(Port { service: "unknown".to_string(), number: 55910, is_open: None });
    t.push(Port { service: "unknown".to_string(), number: 55907, is_open: None });
    t.push(Port { service: "unknown".to_string(), number: 55901, is_open: None });
    t.push(Port { service: "unknown".to_string(), number: 55781, is_open: None });
    t.push(Port { service: "unknown".to_string(), number: 55773, is_open: None });
    t.push(Port { service: "unknown".to_string(), number: 55758, is_open: None });
    t.push(Port { service: "unknown".to_string(), number: 55721, is_open: None });
    t.push(Port { service: "unknown".to_string(), number: 55684, is_open: None });
    t.push(Port { service: "unknown".to_string(), number: 55652, is_open: None });
    t.push(Port { service: "unknown".to_string(), number: 55635, is_open: None });
    t.push(Port { service: "unknown".to_string(), number: 55579, is_open: None });
    t.push(Port { service: "unknown".to_string(), number: 55569, is_open: None });
    t.push(Port { service: "unknown".to_string(), number: 55568, is_open: None });
    t.push(Port { service: "unknown".to_string(), number: 55556, is_open: None });
    t.push(Port { service: "unknown".to_string(), number: 55527, is_open: None });
    t.push(Port { service: "unknown".to_string(), number: 5552, is_open: None });
    t.push(Port { service: "unknown".to_string(), number: 55479, is_open: None });
    t.push(Port { service: "unknown".to_string(), number: 55426, is_open: None });
    t.push(Port { service: "unknown".to_string(), number: 55400, is_open: None });
    t
}

fn chunk_47() -> (t: Vec<Port>)
    ensures
        t@.len() == 50,
        forall|i: int| 0 <= i < t@.len() ==> entry_matches(#[trigger] t@[i], chunk_entry_47(i)),
        forall|i: int| 0 <= i < t@.len() ==> table_entry_ok(#[trigger] t@[i]),
{
    let mut t: Vec<Port> = Vec::new();
    t.push(Port { service: "unknown".to_string(), number: 55382, is_open: None });
    t.push(Port { service: "unknown".to_string(), number: 55350, is_open: None });
    t.push(Port { service: "unknown".to_string(), number: 55312, is_open: None });
    t.push(Port { service: "unknown".to_string(), number: 55227, is_open: None });
    t.push(Port { service: "unknown".to_string(), number: 55187, is_open: None });
    t.push(Port { service: "unknown".to_string(), number: 55183, is_open: None });
    t.push(Port { service: "unknown".to_string(), number: 55000, is_open: None });
    t.push(Port { service: "unknown".to_string(), number: 54991, is_open: None });
    t.push(Port { service: "unknown".to_string(), number: 54987, is_open: None });
    t.push(Port { service: "unknown".to_string(), number: 54907, is_open: None });
    t.push(Port { service: "unknown".to_string(), number: 54873, is_open: None });
    t.push(Port { service: "unknown".to_string(), number: 54741, is_open: None });
    t.push(Port { service: "unknown".to_string(), number: 54722, is_open: None });
    t.push(Port { service: "unknown".to_string(), number: 54688, is_open: None });
    t.push(Port { service: "unknown".to_string(), number: 54658, is_open: None });
    t.push(Port { service: "unknown".to_string(), number: 54605, is_open: None });
    t.push(Port { service: "unknown".to_string(), number: 5458, is_open: None });
    t.push(Port { service: "unknown".to_string(), number: 5457, is_open: None });
    t.push(Port { service: "unknown".to_string(), number: 54551, is_open: None });
    t.push(Port { service: "unknown".to_string(), number: 54514, is_open: None });
    t.push(Port { service: "unknown".to_string(), number: 5444, is_open: None });
    t.push(Port { service: "unknown".to_string(), number: 5442, is_open: None });
    t.push(Port { service: "unknown".to_string(), number: 5441, is_open: None });
    t.push(Port { service: "unknown".to_string(), number: 54323, is_open: None });
    t.push(Port { service: "unknown".to_string(), number: 54321, is_open: None });
    t.push(Port { service: "unknown".to_string(), number: 54276, is_open: None });
    t.push(Port { service: "unknown".to_string(), number: 54263, is_open: None });
    t.push(Port { service: "unknown".to_string(), number: 54235, is_open: None });
    t.push(Port { service: "unknown".to_string(), number: 54127, is_open: None });
    t.push(Port { service: "unknown".to_string(), number: 54101, is_open: None });
    t.push(Port { service: "unknown".to_string(), number: 54075, is_open: None });
    t.push(Port { service: "unknown".to_string(), number: 53958, is_open: None });
    t.push(Port { service: "unknown".to_string(), number: 53910, is_open: None });
    t.push(Port { service: "unknown".to_string(), number: 53852, is_open: None });
    t.push(Port { service: "unknown".to_string(), number: 53827, is_open: None });
    t.push(Port { service: "unknown".to_string(), number: 53782, is_open: None });
    t.push(Port { service: "unknown".to_string(), number: 5377, is_open: None });
    t.push(Port { service: "unknown".to_string(), number: 53742, is_open: None });
    t.push(Port { service: "unknown".to_string(), number: 5370, is_open: None });
    t.push(Port { service: "unknown".to_string(), number: 53690, is_open: None });
    t.push(Port { service: "unknown".to_string(), number: 53656, is_open: None });
    t.push(Port { service: "unknown".to_string(), number: 53639, is_open: None });
    t.push(Port { service: "unknown".to_string(), number: 53633, is_open: None });
    t.push(Port { service: "unknown".to_string(), number: 53491, is_open: None });
    t.push(Port { service: "unknown".to_string(), number: 5347, is_open: None });
    t.push(Port { service: "unknown".to_string(), number: 53469, is_open: None });
    t.push(Port { service: "unknown".to_string(), number: 53460, is_open: None });
    t.push(Port { service: "unknown".to_string(), number: 53370, is_open: None });
    t.push(Port { service: "unknown".to_string(), number: 53361, is_open: None });
    t.push(Port { service: "unknown".to_string(), number: 53319, is_open: None });
    t
}

fn chunk_48() -> (t: Vec<Port>)
    ensures
        t@.len() == 50,
        forall|i: int| 0 <= i < t@.len() ==> entry_matches(#[trigger] t@[i], chunk_entry_48(i)),
        forall|i: int| 0 <= i < t@.len() ==> table_entry_ok(#[trigger] t@[i]),
{
    let mut t: Vec<Port> = Vec::new();
    t.push(Port { service: "unknown".to_string(), number: 53240, is_open: None });
    t.push(Port { service: "unknown".to_string(), number: 53212, is_open: None });
    t.push(Port { service: "unknown".to_string(), number: 53189, is_open: None });
    t.push(Port { service: "unknown".to_string(), number: 53178, is_open: None });
    t.push(Port { service: "unknown".to_string(), number: 53085, is_open: None });
    t.push(Port { service: "unknown".to_string(), number: 52948, is_open: None });
    t.push(Port { service: "unknown".to_string(), number: 5291, is_open: None });
    t.push(Port { service: "unknown".to_string(), number: 52893, is_open: None });
    t.push(Port { service: "unknown".to_string(), number: 52675, is_open: None });
    t.push(Port { service: "unknown".to_string(), number: 52665, is_open: None });
    t.push(Port { service: "unknown".to_string(), number: 5261, is_open: None });
    t.push(Port { service: "unknown".to_string(), number: 5259, is_open: None });
    t.push(Port { service: "unknown".to_string(), number: 52573, is_open: None });
    t.push(Port { service: "unknown".to_string(), number: 52506, is_open: None });
    t.push(Port { service: "unknown".to_string(), number: 52477, is_open: None });
    t.push(Port { service: "unknown".to_string(), number: 52391, is_open: None });
    t.push(Port { service: "unknown".to_string(), number: 52262, is_open: None });
    t.push(Port { service: "unknown".to_string(), number: 52237, is_open: None });
    t.push(Port { service: "unknown".to_string(), number: 52230, is_open: None });
    t.push(Port { service: "unknown".to_string(), number: 52226, is_open: None });
    t.push(Port { service: "unknown".to_string(), number: 52225, is_open: None });
    t.push(Port { service: "unknown".to_string(), number: 5219, is_open: None });
    t.push(Port { service: "unknown".to_string(), number: 52173, is_open: None });
    t.push(Port { service: "unknown".to_string(), number: 52071, is_open: None });
    t.push(Port { service: "unknown".to_string(), number: 52046, is_open: None });
    t.push(Port { service: "unknown".to_string(), number: 52025, is_open: None });
    t.push(Port { service: "unknown".to_string(), number: 52003, is_open: None });
    t.push(Port { service: "unknown".to_string(), number: 52002, is_open: None });
    t.push(Port { service: "unknown".to_string(), number: 52001, is_open: None });
    t.push(Port { service: "unknown".to_string(), number: 52000, is_open: None });
    t.push(Port { service: "unknown".to_string(), number: 51965, is_open: None });
    t.push(Port { service: "unknown".to_string(), number: 51961, is_open: None });
    t.push(Port { service: "unknown".to_string(), number: 51909, is_open: None });
    t.push(Port { service: "unknown".to_string(), number: 51906, is_open: None });
    t.push(Port { service: "unknown".to_string(), number: 51809, is_open: None });
    t.push(Port { service: "unknown".to_string(), number: 51800, is_open: None });
    t.push(Port { service: "unknown".to_string(), number: 51772, is_open: None });
    t.push(Port { service: "unknown".to_string(), number: 51771, is_open: None });
    t.push(Port { service: "unknown".to_string(), number: 51658, is_open: None });
    t.push(Port { service: "unknown".to_string(), number: 51582, is_open: None });
    t.push(Port { service: "unknown".to_string(), number: 51515, is_open: None });
    t.push(Port { service: "unknown".to_string(), number: 51488, is_open: None });
    t.push(Port { service: "unknown".to_string(), number: 51485, is_open: None });
    t.push(Port { service: "unknown".to_string(), number: 51484, is_open: None });
    t.push(Port { service: "unknown".to_string(), number: 5147, is_open: None });
    t.push(Port { service: "unknown".to_string(), number: 51460, is_open: None });
    t.push(Port { service: "unknown".to_string(), number: 51423, is_open: None });
    t.push(Port { service: "unknown".to_string(), number: 51366, is_open: None });
    t.push(Port { service: "unknown".to_string(), number: 51351, is_open: None });
    t.push(Port { service: "unknown".to_string(), number: 51343, is_open: None });
    t
}

fn chunk_49() -> (t: Vec<Port>)
    ensures
        t@.len() == 50,
        forall|i: int| 0 <= i < t@.len() ==> entry_matches(#[trigger] t@[i], chunk_entry_49(i)),
        forall|i: int| 0 <= i < t@.len() ==> table_entry_ok(#[trigger] t@[i]),
{
    let mut t: Vec<Port> = Vec::new();
    t.push(Port { service: "unknown".to_string(), number: 51300, is_open: None });
    t.push(Port { service: "unknown".to_string(), number: 5125, is_open: None });
    t.push(Port { service: "unknown".to_string(), number: 51240, is_open: None });
    t.push(Port { service: "unknown".to_string(), number: 51235, is_open: None });
    t.push(Port { service: "unknown".to_string(), number: 51234, is_open: None });
    t.push(Port { service: "unknown".to_string(), number: 51233, is_open: None });
    t.push(Port { service: "unknown".to_string(), number: 5122, is_open: None });
    t.push(Port { service: "unknown".to_string(), number: 5121, is_open: None });
    t.push(Port { service: "unknown".to_string(), number: 51139, is_open: None });
    t.push(Port { service: "unknown".to_string(), number: 51118, is_open: None });
    t.push(Port { service: "unknown".to_string(), number: 51067, is_open: None });
    t.push(Port { service: "unknown".to_string(), number: 51037, is_open: None });
    t.push(Port { service: "unknown".to_string(), number: 51020, is_open: None });
    t.push(Port { service: "unknown".to_string(), number: 51011, is_open: None });
    t.push(Port { service: "unknown".to_string(), number: 50997, is_open: None });
    t.push(Port { service: "unknown".to_string(), number: 5098, is_open: None });
    t.push(Port { service: "unknown".to_string(), number: 5096, is_open: None });
    t.push(Port { service: "unknown".to_string(), number: 5095, is_open: None });
    t.push(Port { service: "unknown".to_string(), number: 50945, is_open: None });
    t.push(Port { service: "unknown".to_string(), number: 50903, is_open: None });
    t.push(Port { service: "unknown".to_string(), number: 5090, is_open: None });
    t.push(Port { service: "unknown".to_string(), number: 50887, is_open: None });
    t.push(Port { service: "unknown".to_string(), number: 5088, is_open: None });
    t.push(Port { service: "unknown".to_string(), number: 50854, is_open: None });
    t.push(Port { service: "unknown".to_string(), number: 50849, is_open: None });
    t.push(Port { service: "unknown".to_string(), number: 50836, is_open: None });
    t.push(Port { service: "unknown".to_string(), number: 50835, is_open: None });
    t.push(Port { service: "unknown".to_string(), number: 50834, is_open: None });
    t.push(Port { service: "unknown".to_string(), number: 50833, is_open: None });
    t.push(Port { service: "unknown".to_string(), number: 50831, is_open: None });
    t.push(Port { service: "unknown".to_string(), number: 50815, is_open: None });
    t.push(Port { service: "unknown".to_string(), number: 50809, is_open: None });
    t.push(Port { service: "unknown".to_string(), number: 50787, is_open: None });
    t.push(Port { service: "unknown".to_string(), number: 50733, is_open: None });
    t.push(Port { service: "unknown".to_string(), number: 50692, is_open: None });
    t.push(Port { service: "unknown".to_string(), number: 50585, is_open: None });
    t.push(Port { service: "unknown".to_string(), number: 50577, is_open: None });
    t.push(Port { service: "unknown".to_string(), number: 50576, is_open: None });
    t.push(Port { service: "unknown".to_string(), number: 50545, is_open: None });
    t.push(Port { service: "unknown".to_string(), number: 50529, is_open: None });
    t.push(Port { service: "unknown".to_string(), number: 50513, is_open: None });
    t.push(Port { service: "unknown".to_string(), number: 50356, is_open: None });
    t.push(Port { service: "unknown".to_string(), number: 50277, is_open: None });
    t.push(Port { service: "unknown".to_string(), number: 50258, is_open: None });
    t.push(Port { service: "unknown".to_string(), number: 50246, is_open: None });
    t.push(Port { service: "unknown".to_string(), number: 50224, is_open: None });
    t.push(Port { service: "unknown".to_string(), number: 50205, is_open: None });
    t.push(Port { service: "unknown".to_string(), number: 50202, is_open: None });
    t.push(Port { service: "unknown".to_string(), number: 50198, is_open: None });
    t.push(Port { service: "unknown".to_string(), number: 50189, is_open: None });
    t
}

fn chunk_50() -> (t: Vec<Port>)
    ensures
        t@.len() == 50,
        forall|i: int| 0 <= i < t@.len() ==> entry_matches(#[trigger] t@[i], chunk_entry_50(i)),
        forall|i: int| 0 <= i < t@.len() ==> table_entry_ok(#[trigger] t@[i]),
{
    let mut t: Vec<Port> = Vec::new();
    t.push(Port { service: "unknown".to_string(), number: 5017, is_open: None });
    t.push(Port { service: "unknown".to_string(), number: 5016, is_open: None });
    t.push(Port { service: "unknown".to_string(), number: 50101, is_open: None });
    t.push(Port { service: "unknown".to_string(), number: 50040, is_open: None });
    t.push(Port { service: "unknown".to_string(), number: 50019, is_open: None });
    t.push(Port { service: "unknown".to_string(), number: 50016, is_open: None });
    t.push(Port { service: "unknown".to_string(), number: 49927, is_open: None });
    t.push(Port { service: "unknown".to_string(), number: 49803, is_open: None });
    t.push(Port { service: "unknown".to_string(), number: 49765, is_open: None });
    t.push(Port { service: "unknown".to_string(), number: 49762, is_open: None });
    t.push(Port { service: "unknown".to_string(), number: 49751, is_open: None });
    t.push(Port { service: "unknown".to_string(), number: 49678, is_open: None });
    t.push(Port { service: "unknown".to_string(), number: 49603, is_open: None });
    t.push(Port { service: "unknown".to_string(), number: 49597, is_open: None });
    t.push(Port { service: "unknown".to_string(), number: 49522, is_open: None });
    t.push(Port { service: "unknown".to_string(), number: 49521, is_open: None });
    t.push(Port { service: "unknown".to_string(), number: 49520, is_open: None });
    t.push(Port { service: "unknown".to_string(), number: 49519, is_open: None });
    t.push(Port { service: "unknown".to_string(), number: 49500, is_open: None });
    t.push(Port { service: "unknown".to_string(), number: 49498, is_open: None });
    t.push(Port { service: "unknown".to_string(), number: 49452, is_open: None });
    t.push(Port { service: "unknown".to_string(), number: 49398, is_open: None });
    t.push(Port { service: "unknown".to_string(), number: 49372, is_open: None });
    t.push(Port { service: "unknown".to_string(), number: 49352, is_open: None });
    t.push(Port { service: "unknown".to_string(), number: 4931, is_open: None });
    t.push(Port { service: "unknown".to_string(), number: 49302, is_open: None });
    t.push(Port { service: "unknown".to_string(), number: 49275, is_open: None });
    t.push(Port { service: "unknown".to_string(), number: 49241, is_open: None });
    t.push(Port { service: "unknown".to_string(), number: 49235, is_open: None });
    t.push(Port { service: "unknown".to_string(), number: 49232, is_open: None });
    t.push(Port { service: "unknown".to_string(), number: 49228, is_open: None });
    t.push(Port { service: "unknown".to_string(), number: 49216, is_open: None });
    t.push(Port { service: "unknown".to_string(), number: 49213, is_open: None });
    t.push(Port { service: "unknown".to_string(), number: 49211, is_open: None });
    t.push(Port { service: "unknown".to_string(), number: 49204, is_open: None });
    t.push(Port { service: "unknown".to_string(), number: 49203, is_open: None });
    t.push(Port { service: "unknown".to_string(), number: 49202, is_open: None });
    t.push(Port { service: "unknown".to_string(), number: 49201, is_open: None });
    t.push(Port { service: "unknown".to_string(), number: 49197, is_open: None });
    t.push(Port { service: "unknown".to_string(), number: 49196, is_open: None });
    t.push(Port { service: "unknown".to_string(), number: 49191, is_open: None });
    t.push(Port { service: "unknown".to_string(), number: 49190, is_open: None });
    t.push(Port { service: "unknown".to_string(), number: 49189, is_open: None });
    t.push(Port { service: "unknown".to_string(), number: 49179, is_open: None });
    t.push(Port { service: "unknown".to_string(), number: 49173, is_open: None });
    t.push(Port { service: "unknown".to_string(), number: 49172, is_open: None });
    t.push(Port { service: "unknown".to_string(), number: 49170, is_open: None });
    t.push(Port { service: "unknown".to_string(), number: 49169, is_open: None });
    t.push(Port { service: "unknown".to_string(), number: 49166, is_open: None });
    t.push(Port { service: "unknown".to_string(), number: 49132, is_open: None });
    t
}

fn chunk_51() -> (t: Vec<Port>)
    ensures
        t@.len() == 50,
        forall|i: int| 0 <= i < t@.len() ==> entry_matches(#[trigger] t@[i], chunk_entry_51(i)),
        forall|i: int| 0 <= i < t@.len() ==> table_entry_ok(#[trigger] t@[i]),
{
    let mut t: Vec<Port> = Vec::new();
    t.push(Port { service: "unknown".to_string(), number: 49048, is_open: None });
    t.push(Port { service: "unknown".to_string(), number: 4903, is_open: None });
    t.push(Port { service: "unknown".to_string(), number: 49002, is_open: None });
    t.push(Port { service: "unknown".to_string(), number: 48973, is_open: None });
    t.push(Port { service: "unknown".to_string(), number: 48967, is_open: None });
    t.push(Port { service: "unknown".to_string(), number: 48966, is_open: None });
    t.push(Port { service: "unknown".to_string(), number: 48925, is_open: None });
    t.push(Port { service: "unknown".to_string(), number: 48813, is_open: None });
    t.push(Port { service: "unknown".to_string(), number: 48783, is_open: None });
    t.push(Port { service: "unknown".to_string(), number: 48682, is_open: None });
    t.push(Port { service: "unknown".to_string(), number: 48648, is_open: None });
    t.push(Port { service: "unknown".to_string(), number: 48631, is_open: None });
    t.push(Port { service: "unknown".to_string(), number: 4860, is_open: None });
    t.push(Port { service: "unknown".to_string(), number: 4859, is_open: None });
    t.push(Port { service: "unknown".to_string(), number: 48434, is_open: None });
    t.push(Port { service: "unknown".to_string(), number: 48356, is_open: None });
    t.push(Port { service: "unknown".to_string(), number: 4819, is_open: None });
    t.push(Port { service: "unknown".to_string(), number: 48167, is_open: None });
    t.push(Port { service: "unknown".to_string(), number: 48153, is_open: None });
    t.push(Port { service: "unknown".to_string(), number: 48127, is_open: None });
    t.push(Port { service: "unknown".to_string(), number: 48083, is_open: None });
    t.push(Port { service: "unknown".to_string(), number: 48067, is_open: None });
    t.push(Port { service: "unknown".to_string(), number: 48009, is_open: None });
    t.push(Port { service: "unknown".to_string(), number: 47969, is_open: None });
    t.push(Port { service: "unknown".to_string(), number: 47966, is_open: None });
    t.push(Port { service: "unknown".to_string(), number: 4793, is_open: None });
    t.push(Port { service: "unknown".to_string(), number: 47860, is_open: None });
    t.push(Port { service: "unknown".to_string(), number: 47858, is_open: None });
    t.push(Port { service: "unknown".to_string(), number: 47850, is_open: None });
    t.push(Port { service: "unknown".to_string(), number: 4778, is_open: None });
    t.push(Port { service: "unknown".to_string(), number: 47777, is_open: None });
    t.push(Port { service: "unknown".to_string(), number: 4771, is_open: None });
    t.push(Port { service: "unknown".to_string(), number: 47700, is_open: None });
    t.push(Port { service: "unknown".to_string(), number: 4770, is_open: None });
    t.push(Port { service: "unknown".to_string(), number: 4767, is_open: None });
    t.push(Port { service: "unknown".to_string(), number: 47634, is_open: None });
    t.push(Port { service: "unknown".to_string(), number: 4760, is_open: None });
    t.push(Port { service: "unknown".to_string(), number: 47595, is_open: None });
    t.push(Port { service: "unknown".to_string(), number: 47581, is_open: None });
    t.push(Port { service: "unknown".to_string(), number: 47567, is_open: None });
    t.push(Port { service: "unknown".to_string(), number: 47448, is_open: None });
    t.push(Port { service: "unknown".to_string(), number: 47372, is_open: None });
    t.push(Port { service: "unknown".to_string(), number: 47348, is_open: None });
    t.push(Port { service: "unknown".to_string(), number: 47267, is_open: None });
    t.push(Port { service: "unknown".to_string(), number: 47197, is_open: None });
    t.push(Port { service: "unknown".to_string(), number: 4712, is_open: None });
    t.push(Port { service: "unknown".to_string(), number: 47119, is_open: None });
    t.push(Port { service: "unknown".to_string(), number: 47029, is_open: None });
    t.push(Port { service: "unknown".to_string(), number: 47012, is_open: None });
    t.push(Port { service: "unknown".to_string(), number: 46992, is_open: None });
    t
}

fn chunk_52() -> (t: Vec<Port>)
    ensures
        t@.len() == 50,
        forall|i: int| 0 <= i < t@.len() ==> entry_matches(#[trigger] t@[i], chunk_entry_52(i)),
        forall|i: int| 0 <= i < t@.len() ==> table_entry_ok(#[trigger] t@[i]),
{
    let mut t: Vec<Port> = Vec::new();
    t.push(Port { service: "unknown".to_string(), number: 46813, is_open: None });
    t.push(Port { service: "unknown".to_string(), number: 46593, is_open: None });
    t.push(Port { service: "unknown".to_string(), number: 4649, is_open: None });
    t.push(Port { service: "unknown".to_string(), number: 4644, is_open: None });
    t.push(Port { service: "unknown".to_string(), number: 46436, is_open: None });
    t.push(Port { service: "unknown".to_string(), number: 46418, is_open: None });
    t.push(Port { service: "unknown".to_string(), number: 46372, is_open: None });
    t.push(Port { service: "unknown".to_string(), number: 46310, is_open: None });
    t.push(Port { service: "unknown".to_string(), number: 46182, is_open: None });
    t.push(Port { service: "unknown".to_string(), number: 46171, is_open: None });
    t.push(Port { service: "unknown".to_string(), number: 46115, is_open: None });
    t.push(Port { service: "unknown".to_string(), number: 4609, is_open: None });
    t.push(Port { service: "unknown".to_string(), number: 46069, is_open: None });
    t.push(Port { service: "unknown".to_string(), number: 46034, is_open: None });
    t.push(Port { service: "unknown".to_string(), number: 45960, is_open: None });
    t.push(Port { service: "unknown".to_string(), number: 45864, is_open: None });
    t.push(Port { service: "unknown".to_string(), number: 45777, is_open: None });
    t.push(Port { service: "unknown".to_string(), number: 45697, is_open: None });
    t.push(Port { service: "unknown".to_string(), number: 45624, is_open: None });
    t.push(Port { service: "unknown".to_string(), number: 45602, is_open: None });
    t.push(Port { service: "unknown".to_string(), number: 45463, is_open: None });
    t.push(Port { service: "unknown".to_string(), number: 45438, is_open: None });
    t.push(Port { service: "unknown".to_string(), number: 45413, is_open: None });
    t.push(Port { service: "unknown".to_string(), number: 4530, is_open: None });
    t.push(Port { service: "unknown".to_string(), number: 45226, is_open: None });
    t.push(Port { service: "unknown".to_string(), number: 45220, is_open: None });
    t.push(Port { service: "unknown".to_string(), number: 4517, is_open: None });
    t.push(Port { service: "unknown".to_string(), number: 45164, is_open: None });
    t.push(Port { service: "unknown".to_string(), number: 4516, is_open: None });
    t.push(Port { service: "unknown".to_string(), number: 45136, is_open: None });
    t.push(Port { service: "unknown".to_string(), number: 45050, is_open: None });
    t.push(Port { service: "unknown".to_string(), number: 45038, is_open: None });
    t.push(Port { service: "unknown".to_string(), number: 44981, is_open: None });
    t.push(Port { service: "unknown".to_string(), number: 44965, is_open: None });
    t.push(Port { service: "unknown".to_string(), number: 4476, is_open: None });
    t.push(Port { service: "unknown".to_string(), number: 44711, is_open: None });
    t.push(Port { service: "unknown".to_string(), number: 4471, is_open: None });
    t.push(Port { service: "unknown".to_string(), number: 44704, is_open: None });
    t.push(Port { service: "unknown".to_string(), number: 4464, is_open: None });
    t.push(Port { service: "unknown".to_string(), number: 44628, is_open: None });
    t.push(Port { service: "unknown".to_string(), number: 44616, is_open: None });
    t.push(Port { service: "unknown".to_string(), number: 44541, is_open: None });
    t.push(Port { service: "unknown".to_string(), number: 44505, is_open: None });
    t.push(Port { service: "unknown".to_string(), number: 44479, is_open: None });
    t.push(Port { service: "unknown".to_string(), number: 44431, is_open: None });
    t.push(Port { service: "unknown".to_string(), number: 44410, is_open: None });
    t.push(Port { service: "unknown".to_string(), number: 44380, is_open: None });
    t.push(Port { service: "unknown".to_string(), number: 44200, is_open: None });
    t.push(Port { service: "unknown".to_string(), number: 44119, is_open: None });
    t.push(Port { service: "unknown".to_string(), number: 44101, is_open: None });
    t
}

fn chunk_53() -> (t: Vec<Port>)
    ensures
        t@.len() == 50,
        forall|i: int| 0 <= i < t@.len() ==> entry_matches(#[trigger] t@[i], chunk_entry_53(i)),
        forall|i: int| 0 <= i < t@.len() ==> table_entry_ok(#[trigger] t@[i]),
{
    let mut t: Vec<Port> = Vec::new();
    t.push(Port { service: "unknown".to_string(), number: 44004, is_open: None });
    t.push(Port { service: "unknown".to_string(), number: 4388, is_open: None });
    t.push(Port { service: "unknown".to_string(), number: 43868, is_open: None });
    t.push(Port { service: "unknown".to_string(), number: 4384, is_open: None });
    t.push(Port { service: "unknown".to_string(), number: 43823, is_open: None });
    t.push(Port { service: "unknown".to_string(), number: 43734, is_open: None });
    t.push(Port { service: "unknown".to_string(), number: 43690, is_open: None });
    t.push(Port { service: "unknown".to_string(), number: 43654, is_open: None });
    t.push(Port { service: "unknown".to_string(), number: 43425, is_open: None });
    t.push(Port { service: "unknown".to_string(), number: 43242, is_open: None });
    t.push(Port { service: "unknown".to_string(), number: 43231, is_open: None });
    t.push(Port { service: "unknown".to_string(), number: 43212, is_open: None });
    t.push(Port { service: "unknown".to_string(), number: 43143, is_open: None });
    t.push(Port { service: "unknown".to_string(), number: 43139, is_open: None });
    t.push(Port { service: "unknown".to_string(), number: 43103, is_open: None });
    t.push(Port { service: "unknown".to_string(), number: 43027, is_open: None });
    t.push(Port { service: "unknown".to_string(), number: 43018, is_open: None });
    t.push(Port { service: "unknown".to_string(), number: 43002, is_open: None });
    t.push(Port { service: "unknown".to_string(), number: 42990, is_open: None });
    t.push(Port { service: "unknown".to_string(), number: 42906, is_open: None });
    t.push(Port { service: "unknown".to_string(), number: 42735, is_open: None });
    t.push(Port { service: "unknown".to_string(), number: 42685, is_open: None });
    t.push(Port { service: "unknown".to_string(), number: 42679, is_open: None });
    t.push(Port { service: "unknown".to_string(), number: 42675, is_open: None });
    t.push(Port { service: "unknown".to_string(), number: 42632, is_open: None });
    t.push(Port { service: "unknown".to_string(), number: 42590, is_open: None });
    t.push(Port { service: "unknown".to_string(), number: 42575, is_open: None });
    t.push(Port { service: "unknown".to_string(), number: 42560, is_open: None });
    t.push(Port { service: "unknown".to_string(), number: 42559, is_open: None });
    t.push(Port { service: "unknown".to_string(), number: 42452, is_open: None });
    t.push(Port { service: "unknown".to_string(), number: 42449, is_open: None });
    t.push(Port { service: "unknown".to_string(), number: 42322, is_open: None });
    t.push(Port { service: "unknown".to_string(), number: 42276, is_open: None });
    t.push(Port { service: "unknown".to_string(), number: 42251, is_open: None });
    t.push(Port { service: "unknown".to_string(), number: 42158, is_open: None });
    t.push(Port { service: "unknown".to_string(), number: 42127, is_open: None });
    t.push(Port { service: "unknown".to_string(), number: 42035, is_open: None });
    t.push(Port { service: "unknown".to_string(), number: 42001, is_open: None });
    t.push(Port { service: "unknown".to_string(), number: 41808, is_open: None });
    t.push(Port { service: "unknown".to_string(), number: 41773, is_open: None });
    t.push(Port { service: "unknown".to_string(), number: 41632, is_open: None });
    t.push(Port { service: "unknown".to_string(), number: 41551, is_open: None });
    t.push(Port { service: "unknown".to_string(), number: 41442, is_open: None });
    t.push(Port { service: "unknown".to_string(), number: 41398, is_open: None });
    t.push(Port { service: "unknown".to_string(), number: 41348, is_open: None });
    t.push(Port { service: "unknown".to_string(), number: 41345, is_open: None });
    t.push(Port { service: "unknown".to_string(), number: 41342, is_open: None });
    t.push(Port { service: "unknown".to_string(), number: 41318, is_open: None });
    t.push(Port { service: "unknown".to_string(), number: 41281, is_open: None });
    t.push(Port { service: "unknown".to_string(), number: 41250, is_open: None });
    t
}

fn chunk_54() -> (t: Vec<Port>)
    ensures
        t@.len() == 50,
        forall|i: int| 0 <= i < t@.len() ==> entry_matches(#[trigger] t@[i], chunk_entry_54(i)),
        forall|i: int| 0 <= i < t@.len() ==> table_entry_ok(#[trigger] t@[i]),
{
    let mut t: Vec<Port> = Vec::new();
    t.push(Port { service: "unknown".to_string(), number: 41142, is_open: None });
    t.push(Port { service: "unknown".to_string(), number: 41123, is_open: None });
    t.push(Port { service: "unknown".to_string(), number: 40951, is_open: None });
    t.push(Port { service: "unknown".to_string(), number: 40834, is_open: None });
    t.push(Port { service: "unknown".to_string(), number: 40812, is_open: None });
    t.push(Port { service: "unknown".to_string(), number: 40754, is_open: None });
    t.push(Port { service: "unknown".to_string(), number: 40732, is_open: None });
    t.push(Port { service: "unknown".to_string(), number: 40712, is_open: None });
    t.push(Port { service: "unknown".to_string(), number: 40628, is_open: None });
    t.push(Port { service: "unknown".to_string(), number: 40614, is_open: None });
    t.push(Port { service: "unknown".to_string(), number: 40513, is_open: None });
    t.push(Port { service: "unknown".to_string(), number: 40489, is_open: None });
    t.push(Port { service: "unknown".to_string(), number: 40457, is_open: None });
    t.push(Port { service: "unknown".to_string(), number: 40400, is_open: None });
    t.push(Port { service: "unknown".to_string(), number: 40393, is_open: None });
    t.push(Port { service: "unknown".to_string(), number: 40306, is_open: None });
    t.push(Port { service: "unknown".to_string(), number: 40011, is_open: None });
    t.push(Port { service: "unknown".to_string(), number: 40005, is_open: None });
    t.push(Port { service: "unknown".to_string(), number: 40003, is_open: None });
    t.push(Port { service: "unknown".to_string(), number: 40002, is_open: None });
    t.push(Port { service: "unknown".to_string(), number: 40001, is_open: None });
    t.push(Port { service: "unknown".to_string(), number: 39917, is_open: None });
    t.push(Port { service: "unknown".to_string(), number: 39895, is_open: None });
    t.push(Port { service: "unknown".to_string(), number: 39883, is_open: None });
    t.push(Port { service: "unknown".to_string(), number: 39869, is_open: None });
    t.push(Port { service: "unknown".to_string(), number: 39795, is_open: None });
    t.push(Port { service: "unknown".to_string(), number: 39774, is_open: None });
    t.push(Port { service: "unknown".to_string(), number: 39763, is_open: None });
    t.push(Port { service: "unknown".to_string(), number: 39732, is_open: None });
    t.push(Port { service: "unknown".to_string(), number: 39630, is_open: None });
    t.push(Port { service: "unknown".to_string(), number: 39489, is_open: None });
    t.push(Port { service: "unknown".to_string(), number: 39482, is_open: None });
    t.push(Port { service: "unknown".to_string(), number: 39433, is_open: None });
    t.push(Port { service: "unknown".to_string(), number: 39380, is_open: None });
    t.push(Port { service: "unknown".to_string(), number: 39293, is_open: None });
    t.push(Port { service: "unknown".to_string(), number: 39265, is_open: None });
    t.push(Port { service: "unknown".to_string(), number: 39117, is_open: None });
    t.push(Port { service: "unknown".to_string(), number: 39067, is_open: None });
    t.push(Port { service: "unknown".to_string(), number: 38936, is_open: None });
    t.push(Port { service: "unknown".to_string(), number: 38805, is_open: None });
    t.push(Port { service: "unknown".to_string(), number: 38780, is_open: None });
    t.push(Port { service: "unknown".to_string(), number: 38764, is_open: None });
    t.push(Port { service: "unknown".to_string(), number: 38761, is_open: None });
    t.push(Port { service: "unknown".to_string(), number: 38570, is_open: None });
    t.push(Port { service: "unknown".to_string(), number: 38561, is_open: None });
    t.push(Port { service: "unknown".to_string(), number: 38546, is_open: None });
    t.push(Port { service: "unknown".to_string(), number: 38481, is_open: None });
    t.push(Port { service: "unknown".to_string(), number: 38446, is_open: None });
    t.push(Port { service: "unknown".to_string(), number: 38358, is_open: None });
    t.push(Port { service: "unknown".to_string(), number: 38331, is_open: None });
    t
}

fn chunk_55() -> (t: Vec<Port>)
    ensures
        t@.len() == 50,
        forall|i: int| 0 <= i < t@.len() ==> entry_matches(#[trigger] t@[i], chunk_entry_55(i)),
        forall|i: int| 0 <= i < t@.len() ==> table_entry_ok(#[trigger] t@[i]),
{
    let mut t: Vec<Port> = Vec::new();
    t.push(Port { service: "unknown".to_string(), number: 38313, is_open: None });
    t.push(Port { service: "unknown".to_string(), number: 38270, is_open: None });
    t.push(Port { service: "unknown".to_string(), number: 38224, is_open: None });
    t.push(Port { service: "unknown".to_string(), number: 38205, is_open: None });
    t.push(Port { service: "unknown".to_string(), number: 38194, is_open: None });
    t.push(Port { service: "unknown".to_string(), number: 38029, is_open: None });
    t.push(Port { service: "unknown".to_string(), number: 37855, is_open: None });
    t.push(Port { service: "unknown".to_string(), number: 37789, is_open: None });
    t.push(Port { service: "unknown".to_string(), number: 37777, is_open: None });
    t.push(Port { service: "unknown".to_string(), number: 37674, is_open: None });
    t.push(Port { service: "unknown".to_string(), number: 37647, is_open: None });
    t.push(Port { service: "unknown".to_string(), number: 37614, is_open: None });
    t.push(Port { service: "unknown".to_string(), number: 37607, is_open: None });
    t.push(Port { service: "unknown".to_string(), number: 37522, is_open: None });
    t.push(Port { service: "unknown".to_string(), number: 37393, is_open: None });
    t.push(Port { service: "unknown".to_string(), number: 37218, is_open: None });
    t.push(Port { service: "unknown".to_string(), number: 37185, is_open: None });
    t.push(Port { service: "unknown".to_string(), number: 37174, is_open: None });
    t.push(Port { service: "unknown".to_string(), number: 37151, is_open: None });
    t.push(Port { service: "unknown".to_string(), number: 37121, is_open: None });
    t.push(Port { service: "unknown".to_string(), number: 36983, is_open: None });
    t.push(Port { service: "unknown".to_string(), number: 36962, is_open: None });
    t.push(Port { service: "unknown".to_string(), number: 36950, is_open: None });
    t.push(Port { service: "unknown".to_string(), number: 36914, is_open: None });
    t.push(Port { service: "unknown".to_string(), number: 36824, is_open: None });
    t.push(Port { service: "unknown".to_string(), number: 36823, is_open: None });
    t.push(Port { service: "unknown".to_string(), number: 36748, is_open: None });
    t.push(Port { service: "unknown".to_string(), number: 36710, is_open: None });
    t.push(Port { service: "unknown".to_string(), number: 36694, is_open: None });
    t.push(Port { service: "unknown".to_string(), number: 36677, is_open: None });
    t.push(Port { service: "unknown".to_string(), number: 36659, is_open: None });
    t.push(Port { service: "unknown".to_string(), number: 36552, is_open: None });
    t.push(Port { service: "unknown".to_string(), number: 36530, is_open: None });
    t.push(Port { service: "unknown".to_string(), number: 36508, is_open: None });
    t.push(Port { service: "unknown".to_string(), number: 36436, is_open: None });
    t.push(Port { service: "unknown".to_string(), number: 36368, is_open: None });
    t.push(Port { service: "unknown".to_string(), number: 36275, is_open: None });
    t.push(Port { service: "unknown".to_string(), number: 36256, is_open: None });
    t.push(Port { service: "unknown".to_string(), number: 36105, is_open: None });
    t.push(Port { service: "unknown".to_string(), number: 36104, is_open: None });
    t.push(Port { service: "unknown".to_string(), number: 36046, is_open: None });
    t.push(Port { service: "unknown".to_string(), number: 35986, is_open: None });
    t.push(Port { service: "unknown".to_string(), number: 35929, is_open: None });
    t.push(Port { service: "unknown".to_string(), number: 35906, is_open: None });
    t.push(Port { service: "unknown".to_string(), number: 35901, is_open: None });
    t.push(Port { service: "unknown".to_string(), number: 35900, is_open: None });
    t.push(Port { service: "unknown".to_string(), number: 35879, is_open: None });
    t.push(Port { service: "unknown".to_string(), number: 35731, is_open: None });
    t.push(Port { service: "unknown".to_string(), number: 35593, is_open: None });
    t.push(Port { service: "unknown".to_string(), number: 35553, is_open: None });
    t
}

fn chunk_56() -> (t: Vec<Port>)
    ensures
        t@.len() == 50,
        forall|i: int| 0 <= i < t@.len() ==> entry_matches(#[trigger] t@[i], chunk_entry_56(i)),
        forall|i: int| 0 <= i < t@.len() ==> table_entry_ok(#[trigger] t@[i]),
{
    let mut t: Vec<Port> = Vec::new();
    t.push(Port { service: "unknown".to_string(), number: 35506, is_open: None });
    t.push(Port { service: "unknown".to_string(), number: 35401, is_open: None });
    t.push(Port { service: "unknown".to_string(), number: 35393, is_open: None });
    t.push(Port { service: "unknown".to_string(), number: 35392, is_open: None });
    t.push(Port { service: "unknown".to_string(), number: 35349, is_open: None });
    t.push(Port { service: "unknown".to_string(), number: 35272, is_open: None });
    t.push(Port { service: "unknown".to_string(), number: 35217, is_open: None });
    t.push(Port { service: "unknown".to_string(), number: 35131, is_open: None });
    t.push(Port { service: "unknown".to_string(), number: 35116, is_open: None });
    t.push(Port { service: "unknown".to_string(), number: 35050, is_open: None });
    t.push(Port { service: "unknown".to_string(), number: 35033, is_open: None });
    t.push(Port { service: "unknown".to_string(), number: 34875, is_open: None });
    t.push(Port { service: "unknown".to_string(), number: 34833, is_open: None });
    t.push(Port { service: "unknown".to_string(), number: 34783, is_open: None });
    t.push(Port { service: "unknown".to_string(), number: 34765, is_open: None });
    t.push(Port { service: "unknown".to_string(), number: 34728, is_open: None });
    t.push(Port { service: "unknown".to_string(), number: 34683, is_open: None });
    t.push(Port { service: "unknown".to_string(), number: 34510, is_open: None });
    t.push(Port { service: "unknown".to_string(), number: 34507, is_open: None });
    t.push(Port { service: "unknown".to_string(), number: 34401, is_open: None });
    t.push(Port { service: "unknown".to_string(), number: 34381, is_open: None });
    t.push(Port { service: "unknown".to_string(), number: 34341, is_open: None });
    t.push(Port { service: "unknown".to_string(), number: 34317, is_open: None });
    t.push(Port { service: "unknown".to_string(), number: 34189, is_open: None });
    t.push(Port { service: "unknown".to_string(), number: 34096, is_open: None });
    t.push(Port { service: "unknown".to_string(), number: 34036, is_open: None });
    t.push(Port { service: "unknown".to_string(), number: 34021, is_open: None });
    t.push(Port { service: "unknown".to_string(), number: 33895, is_open: None });
    t.push(Port { service: "unknown".to_string(), number: 33889, is_open: None });
    t.push(Port { service: "unknown".to_string(), number: 33882, is_open: None });
    t.push(Port { service: "unknown".to_string(), number: 33879, is_open: None });
    t.push(Port { service: "unknown".to_string(), number: 33841, is_open: None });
    t.push(Port { service: "unknown".to_string(), number: 33605, is_open: None });
    t.push(Port { service: "unknown".to_string(), number: 33604, is_open: None });
    t.push(Port { service: "unknown".to_string(), number: 33550, is_open: None });
    t.push(Port { service: "unknown".to_string(), number: 33523, is_open: None });
    t.push(Port { service: "unknown".to_string(), number: 33522, is_open: None });
    t.push(Port { service: "unknown".to_string(), number: 33444, is_open: None });
    t.push(Port { service: "unknown".to_string(), number: 33395, is_open: None });
    t.push(Port { service: "unknown".to_string(), number: 33367, is_open: None });
    t.push(Port { service: "unknown".to_string(), number: 33337, is_open: None });
    t.push(Port { service: "unknown".to_string(), number: 33335, is_open: None });
    t.push(Port { service: "unknown".to_string(), number: 33327, is_open: None });
    t.push(Port { service: "unknown".to_string(), number: 33277, is_open: None });
    t.push(Port { service: "unknown".to_string(), number: 33203, is_open: None });
    t.push(Port { service: "unknown".to_string(), number: 33200, is_open: None });
    t.push(Port { service: "unknown".to_string(), number: 33192, is_open: None });
    t.push(Port { service: "unknown".to_string(), number: 33175, is_open: None });
    t.push(Port { service: "unknown".to_string(), number: 33124, is_open: None });
    t.push(Port { service: "unknown".to_string(), number: 33087, is_open: None });
    t
}

fn chunk_57() -> (t: Vec<Port>)
    ensures
        t@.len() == 50,
        forall|i: int| 0 <= i < t@.len() ==> entry_matches(#[trigger] t@[i], chunk_entry_57(i)),
        forall|i: int| 0 <= i < t@.len() ==> table_entry_ok(#[trigger] t@[i]),
{
    let mut t: Vec<Port> = Vec::new();
    t.push(Port { service: "unknown".to_string(), number: 33070, is_open: None });
    t.push(Port { service: "unknown".to_string(), number: 33017, is_open: None });
    t.push(Port { service: "unknown".to_string(), number: 33011, is_open: None });
    t.push(Port { service: "unknown".to_string(), number: 32976, is_open: None });
    t.push(Port { service: "unknown".to_string(), number: 32961, is_open: None });
    t.push(Port { service: "unknown".to_string(), number: 32960, is_open: None });
    t.push(Port { service: "unknown".to_string(), number: 32944, is_open: None });
    t.push(Port { service: "unknown".to_string(), number: 32932, is_open: None });
    t.push(Port { service: "unknown".to_string(), number: 32911, is_open: None });
    t.push(Port { service: "unknown".to_string(), number: 32910, is_open: None });
    t.push(Port { service: "unknown".to_string(), number: 32908, is_open: None });
    t.push(Port { service: "unknown".to_string(), number: 32905, is_open: None });
    t.push(Port { service: "unknown".to_string(), number: 32904, is_open: None });
    t.push(Port { service: "unknown".to_string(), number: 32898, is_open: None });
    t.push(Port { service: "unknown".to_string(), number: 32897, is_open: None });
    t.push(Port { service: "unknown".to_string(), number: 32888, is_open: None });
    t.push(Port { service: "unknown".to_string(), number: 32871, is_open: None });
    t.push(Port { service: "unknown".to_string(), number: 32869, is_open: None });
    t.push(Port { service: "unknown".to_string(), number: 32868, is_open: None });
    t.push(Port { service: "unknown".to_string(), number: 32858, is_open: None });
    t.push(Port { service: "unknown".to_string(), number: 32842, is_open: None });
    t.push(Port { service: "unknown".to_string(), number: 32837, is_open: None });
    t.push(Port { service: "unknown".to_string(), number: 32820, is_open: None });
    t.push(Port { service: "unknown".to_string(), number: 32815, is_open: None });
    t.push(Port { service: "unknown".to_string(), number: 32814, is_open: None });
    t.push(Port { service: "unknown".to_string(), number: 32807, is_open: None });
    t.push(Port { service: "unknown".to_string(), number: 32799, is_open: None });
    t.push(Port { service: "unknown".to_string(), number: 32798, is_open: None });
    t.push(Port { service: "unknown".to_string(), number: 32797, is_open: None });
    t.push(Port { service: "unknown".to_string(), number: 32790, is_open: None });
    t.push(Port { service: "unknown".to_string(), number: 32789, is_open: None });
    t.push(Port { service: "unknown".to_string(), number: 32788, is_open: None });
    t.push(Port { service: "unknown".to_string(), number: 32765, is_open: None });
    t.push(Port { service: "unknown".to_string(), number: 32764, is_open: None });
    t.push(Port { service: "unknown".to_string(), number: 32261, is_open: None });
    t.push(Port { service: "unknown".to_string(), number: 32260, is_open: None });
    t.push(Port { service: "unknown".to_string(), number: 32219, is_open: None });
    t.push(Port { service: "unknown".to_string(), number: 32200, is_open: None });
    t.push(Port { service: "unknown".to_string(), number: 32102, is_open: None });
    t.push(Port { service: "unknown".to_string(), number: 32088, is_open: None });
    t.push(Port { service: "unknown".to_string(), number: 32031, is_open: None });
    t.push(Port { service: "unknown".to_string(), number: 32022, is_open: None });
    t.push(Port { service: "unknown".to_string(), number: 32006, is_open: None });
    t.push(Port { service: "unknown".to_string(), number: 31728, is_open: None });
    t.push(Port { service: "unknown".to_string(), number: 31657, is_open: None });
    t.push(Port { service: "unknown".to_string(), number: 31522, is_open: None });
    t.push(Port { service: "unknown".to_string(), number: 31438, is_open: None });
    t.push(Port { service: "unknown".to_string(), number: 31386, is_open: None });
    t.push(Port { service: "unknown".to_string(), number: 31339, is_open: None });
    t.push(Port { service: "unknown".to_string(), number: 31072, is_open: None });
    t
}

fn chunk_58() -> (t: Vec<Port>)
    ensures
        t@.len() == 50,
        forall|i: int| 0 <= i < t@.len() ==> entry_matches(#[trigger] t@[i], chunk_entry_58(i)),
        forall|i: int| 0 <= i < t@.len() ==> table_entry_ok(#[trigger] t@[i]),
{
    let mut t: Vec<Port> = Vec::new();
    t.push(Port { service: "unknown".to_string(), number: 31058, is_open: None });
    t.push(Port { service: "unknown".to_string(), number: 31033, is_open: None });
    t.push(Port { service: "unknown".to_string(), number: 30896, is_open: None });
    t.push(Port { service: "unknown".to_string(), number: 30705, is_open: None });
    t.push(Port { service: "unknown".to_string(), number: 30659, is_open: None });
    t.push(Port { service: "unknown".to_string(), number: 30644, is_open: None });
    t.push(Port { service: "unknown".to_string(), number: 30599, is_open: None });
    t.push(Port { service: "unknown".to_string(), number: 30519, is_open: None });
    t.push(Port { service: "unknown".to_string(), number: 30299, is_open: None });
    t.push(Port { service: "unknown".to_string(), number: 30195, is_open: None });
    t.push(Port { service: "unknown".to_string(), number: 30087, is_open: None });
    t.push(Port { service: "unknown".to_string(), number: 29810, is_open: None });
    t.push(Port { service: "unknown".to_string(), number: 29507, is_open: None });
    t.push(Port { service: "unknown".to_string(), number: 29243, is_open: None });
    t.push(Port { service: "unknown".to_string(), number: 29152, is_open: None });
    t.push(Port { service: "unknown".to_string(), number: 29045, is_open: None });
    t.push(Port { service: "unknown".to_string(), number: 28967, is_open: None });
    t.push(Port { service: "unknown".to_string(), number: 28924, is_open: None });
    t.push(Port { service: "unknown".to_string(), number: 28851, is_open: None });
    t.push(Port { service: "unknown".to_string(), number: 28850, is_open: None });
    t.push(Port { service: "unknown".to_string(), number: 28717, is_open: None });
    t.push(Port { service: "unknown".to_string(), number: 28567, is_open: None });
    t.push(Port { service: "unknown".to_string(), number: 28374, is_open: None });
    t.push(Port { service: "unknown".to_string(), number: 28142, is_open: None });
    t.push(Port { service: "unknown".to_string(), number: 28114, is_open: None });
    t.push(Port { service: "unknown".to_string(), number: 27770, is_open: None });
    t.push(Port { service: "unknown".to_string(), number: 27537, is_open: None });
    t.push(Port { service: "unknown".to_string(), number: 27521, is_open: None });
    t.push(Port { service: "unknown".to_string(), number: 27372, is_open: None });
    t.push(Port { service: "unknown".to_string(), number: 27351, is_open: None });
    t.push(Port { service: "unknown".to_string(), number: 27350, is_open: None });
    t.push(Port { service: "unknown".to_string(), number: 27316, is_open: None });
    t.push(Port { service: "unknown".to_string(), number: 27204, is_open: None });
    t.push(Port { service: "unknown".to_string(), number: 27087, is_open: None });
    t.push(Port { service: "unknown".to_string(), number: 27075, is_open: None });
    t.push(Port { service: "unknown".to_string(), number: 27074, is_open: None });
    t.push(Port { service: "unknown".to_string(), number: 27055, is_open: None });
    t.push(Port { service: "unknown".to_string(), number: 27016, is_open: None });
    t.push(Port { service: "unknown".to_string(), number: 27015, is_open: None });
    t.push(Port { service: "unknown".to_string(), number: 26972, is_open: None });
    t.push(Port { service: "unknown".to_string(), number: 26669, is_open: None });
    t.push(Port { service: "unknown".to_string(), number: 26417, is_open: None });
    t.push(Port { service: "unknown".to_string(), number: 26340, is_open: None });
    t.push(Port { service: "unknown".to_string(), number: 26007, is_open: None });
    t.push(Port { service: "unknown".to_string(), number: 26001, is_open: None });
    t.push(Port { service: "unknown".to_string(), number: 25847, is_open: None });
    t.push(Port { service: "unknown".to_string(), number: 25717, is_open: None });
    t.push(Port { service: "unknown".to_string(), number: 25703, is_open: None });
    t.push(Port { service: "unknown".to_string(), number: 25486, is_open: None });
    t.push(Port { service: "unknown".to_string(), number: 25473, is_open: None });
    t
}

fn chunk_59() -> (t: Vec<Port>)
    ensures
        t@.len() == 50,
        forall|i: int| 0 <= i < t@.len() ==> entry_matches(#[trigger] t@[i], chunk_entry_59(i)),
        forall|i: int| 0 <= i < t@.len() ==> table_entry_ok(#[trigger] t@[i]),
{
    let mut t: Vec<Port> = Vec::new();
    t.push(Port { service: "unknown".to_string(), number: 25445, is_open: None });
    t.push(Port { service: "unknown".to_string(), number: 25327, is_open: None });
    t.push(Port { service: "unknown".to_string(), number: 25288, is_open: None });
    t.push(Port { service: "unknown".to_string(), number: 25262, is_open: None });
    t.push(Port { service: "unknown".to_string(), number: 25260, is_open: None });
    t.push(Port { service: "unknown".to_string(), number: 25174, is_open: None });
    t.push(Port { service: "unknown".to_string(), number: 24999, is_open: None });
    t.push(Port { service: "unknown".to_string(), number: 24616, is_open: None });
    t.push(Port { service: "unknown".to_string(), number: 24552, is_open: None });
    t.push(Port { service: "unknown".to_string(), number: 24416, is_open: None });
    t.push(Port { service: "unknown".to_string(), number: 24392, is_open: None });
    t.push(Port { service: "unknown".to_string(), number: 24218, is_open: None });
    t.push(Port { service: "unknown".to_string(), number: 23953, is_open: None });
    t.push(Port { service: "unknown".to_string(), number: 23887, is_open: None });
    t.push(Port { service: "unknown".to_string(), number: 23723, is_open: None });
    t.push(Port { service: "unknown".to_string(), number: 23451, is_open: None });
    t.push(Port { service: "unknown".to_string(), number: 23430, is_open: None });
    t.push(Port { service: "unknown".to_string(), number: 23382, is_open: None });
    t.push(Port { service: "unknown".to_string(), number: 23342, is_open: None });
    t.push(Port { service: "unknown".to_string(), number: 23296, is_open: None });
    t.push(Port { service: "unknown".to_string(), number: 23270, is_open: None });
    t.push(Port { service: "unknown".to_string(), number: 23228, is_open: None });
    t.push(Port { service: "unknown".to_string(), number: 23219, is_open: None });
    t.push(Port { service: "unknown".to_string(), number: 23040, is_open: None });
    t.push(Port { service: "unknown".to_string(), number: 23017, is_open: None });
    t.push(Port { service: "unknown".to_string(), number: 22969, is_open: None });
    t.push(Port { service: "unknown".to_string(), number: 22959, is_open: None });
    t.push(Port { service: "unknown".to_string(), number: 22882, is_open: None });
    t.push(Port { service: "unknown".to_string(), number: 22769, is_open: None });
    t.push(Port { service: "unknown".to_string(), number: 22727, is_open: None });
    t.push(Port { service: "unknown".to_string(), number: 22719, is_open: None });
    t.push(Port { service: "unknown".to_string(), number: 22711, is_open: None });
    t.push(Port { service: "unknown".to_string(), number: 22563, is_open: None });
    t.push(Port { service: "unknown".to_string(), number: 22341, is_open: None });
    t.push(Port { service: "unknown".to_string(), number: 22290, is_open: None });
    t.push(Port { service: "unknown".to_string(), number: 22223, is_open: None });
    t.push(Port { service: "unknown".to_string(), number: 22200, is_open: None });
    t.push(Port { service: "unknown".to_string(), number: 22177, is_open: None });
    t.push(Port { service: "unknown".to_string(), number: 22100, is_open: None });
    t.push(Port { service: "unknown".to_string(), number: 22063, is_open: None });
    t.push(Port { service: "unknown".to_string(), number: 22022, is_open: None });
    t.push(Port { service: "unknown".to_string(), number: 21915, is_open: None });
    t.push(Port { service: "unknown".to_string(), number: 21891, is_open: None });
    t.push(Port { service: "unknown".to_string(), number: 21728, is_open: None });
    t.push(Port { service: "unknown".to_string(), number: 21634, is_open: None });
    t.push(Port { service: "unknown".to_string(), number: 21631, is_open: None });
    t.push(Port { service: "unknown".to_string(), number: 21473, is_open: None });
    t.push(Port { service: "unknown".to_string(), number: 21078, is_open: None });
    t.push(Port { service: "unknown".to_string(), number: 21011, is_open: None });
    t.push(Port { service: "unknown".to_string(), number: 20990, is_open: None });
    t
}

fn chunk_60() -> (t: Vec<Port>)
    ensures
        t@.len() == 50,
        forall|i: int| 0 <= i < t@.len() ==> entry_matches(#[trigger] t@[i], chunk_entry_60(i)),
        forall|i: int| 0 <= i < t@.len() ==> table_entry_ok(#[trigger] t@[i]),
{
    let mut t: Vec<Port> = Vec::new();
    t.push(Port { service: "unknown".to_string(), number: 20940, is_open: None });
    t.push(Port { service: "unknown".to_string(), number: 20934, is_open: None });
    t.push(Port { service: "unknown".to_string(), number: 20883, is_open: None });
    t.push(Port { service: "unknown".to_string(), number: 20734, is_open: None });
    t.push(Port { service: "unknown".to_string(), number: 20473, is_open: None });
    t.push(Port { service: "unknown".to_string(), number: 20280, is_open: None });
    t.push(Port { service: "unknown".to_string(), number: 20228, is_open: None });
    t.push(Port { service: "unknown".to_string(), number: 20227, is_open: None });
    t.push(Port { service: "unknown".to_string(), number: 20226, is_open: None });
    t.push(Port { service: "unknown".to_string(), number: 20225, is_open: None });
    t.push(Port { service: "unknown".to_string(), number: 20224, is_open: None });
    t.push(Port { service: "unknown".to_string(), number: 20223, is_open: None });
    t.push(Port { service: "unknown".to_string(), number: 20180, is_open: None });
    t.push(Port { service: "unknown".to_string(), number: 20179, is_open: None });
    t.push(Port { service: "unknown".to_string(), number: 20147, is_open: None });
    t.push(Port { service: "unknown".to_string(), number: 20127, is_open: None });
    t.push(Port { service: "unknown".to_string(), number: 20125, is_open: None });
    t.push(Port { service: "unknown".to_string(), number: 20118, is_open: None });
    t.push(Port { service: "unknown".to_string(), number: 20111, is_open: None });
    t.push(Port { service: "unknown".to_string(), number: 20106, is_open: None });
    t.push(Port { service: "unknown".to_string(), number: 20102, is_open: None });
    t.push(Port { service: "unknown".to_string(), number: 20089, is_open: None });
    t.push(Port { service: "unknown".to_string(), number: 20085, is_open: None });
    t.push(Port { service: "unknown".to_string(), number: 20080, is_open: None });
    t.push(Port { service: "unknown".to_string(), number: 20076, is_open: None });
    t.push(Port { service: "unknown".to_string(), number: 20052, is_open: None });
    t.push(Port { service: "unknown".to_string(), number: 20039, is_open: None });
    t.push(Port { service: "unknown".to_string(), number: 20032, is_open: None });
    t.push(Port { service: "unknown".to_string(), number: 20021, is_open: None });
    t.push(Port { service: "unknown".to_string(), number: 20017, is_open: None });
    t.push(Port { service: "unknown".to_string(), number: 20011, is_open: None });
    t.push(Port { service: "unknown".to_string(), number: 19996, is_open: None });
    t.push(Port { service: "unknown".to_string(), number: 19995, is_open: None });
    t.push(Port { service: "unknown".to_string(), number: 19852, is_open: None });
    t.push(Port { service: "unknown".to_string(), number: 19715, is_open: None });
    t.push(Port { service: "unknown".to_string(), number: 19634, is_open: None });
    t.push(Port { service: "unknown".to_string(), number: 19612, is_open: None });
    t.push(Port { service: "unknown".to_string(), number: 19501, is_open: None });
    t.push(Port { service: "unknown".to_string(), number: 19464, is_open: None });
    t.push(Port { service: "unknown".to_string(), number: 19403, is_open: None });
    t.push(Port { service: "unknown".to_string(), number: 19353, is_open: None });
    t.push(Port { service: "unknown".to_string(), number: 19201, is_open: None });
    t.push(Port { service: "unknown".to_string(), number: 19200, is_open: None });
    t.push(Port { service: "unknown".to_string(), number: 19130, is_open: None });
    t.push(Port { service: "unknown".to_string(), number: 19010, is_open: None });
    t.push(Port { service: "unknown".to_string(), number: 18962, is_open: None });
    t.push(Port { service: "unknown".to_string(), number: 18910, is_open: None });
    t.push(Port { service: "unknown".to_string(), number: 18887, is_open: None });
    t.push(Port { service: "unknown".to_string(), number: 18874, is_open: None });
    t.push(Port { service: "unknown".to_string(), number: 18669, is_open: None });
    t
}

fn chunk_61() -> (t: Vec<Port>)
    ensures
        t@.len() == 50,
        forall|i: int| 0 <= i < t@.len() ==> entry_matches(#[trigger] t@[i], chunk_entry_61(i)),
        forall|i: int| 0 <= i < t@.len() ==> table_entry_ok(#[trigger] t@[i]),
{
    let mut t: Vec<Port> = Vec::new();
    t.push(Port { service: "unknown".to_string(), number: 18569, is_open: None });
    t.push(Port { service: "unknown".to_string(), number: 18517, is_open: None });
    t.push(Port { service: "unknown".to_string(), number: 18505, is_open: None });
    t.push(Port { service: "unknown".to_string(), number: 18439, is_open: None });
    t.push(Port { service: "unknown".to_string(), number: 18380, is_open: None });
    t.push(Port { service: "unknown".to_string(), number: 18337, is_open: None });
    t.push(Port { service: "unknown".to_string(), number: 18336, is_open: None });
    t.push(Port { service: "unknown".to_string(), number: 18231, is_open: None });
    t.push(Port { service: "unknown".to_string(), number: 18148, is_open: None });
    t.push(Port { service: "unknown".to_string(), number: 18080, is_open: None });
    t.push(Port { service: "unknown".to_string(), number: 18015, is_open: None });
    t.push(Port { service: "unknown".to_string(), number: 18012, is_open: None });
    t.push(Port { service: "unknown".to_string(), number: 17997, is_open: None });
    t.push(Port { service: "unknown".to_string(), number: 17985, is_open: None });
    t.push(Port { service: "unknown".to_string(), number: 17969, is_open: None });
    t.push(Port { service: "unknown".to_string(), number: 17867, is_open: None });
    t.push(Port { service: "unknown".to_string(), number: 17860, is_open: None });
    t.push(Port { service: "unknown".to_string(), number: 17802, is_open: None });
    t.push(Port { service: "unknown".to_string(), number: 17801, is_open: None });
    t.push(Port { service: "unknown".to_string(), number: 17715, is_open: None });
    t.push(Port { service: "unknown".to_string(), number: 17702, is_open: None });
    t.push(Port { service: "unknown".to_string(), number: 17701, is_open: None });
    t.push(Port { service: "unknown".to_string(), number: 17700, is_open: None });
    t.push(Port { service: "unknown".to_string(), number: 17413, is_open: None });
    t.push(Port { service: "unknown".to_string(), number: 17409, is_open: None });
    t.push(Port { service: "unknown".to_string(), number: 17255, is_open: None });
    t.push(Port { service: "unknown".to_string(), number: 17251, is_open: None });
    t.push(Port { service: "unknown".to_string(), number: 17129, is_open: None });
    t.push(Port { service: "unknown".to_string(), number: 17089, is_open: None });
    t.push(Port { service: "unknown".to_string(), number: 17070, is_open: None });
    t.push(Port { service: "unknown".to_string(), number: 17017, is_open: None });
    t.push(Port { service: "unknown".to_string(), number: 17016, is_open: None });
    t.push(Port { service: "unknown".to_string(), number: 16901, is_open: None });
    t.push(Port { service: "unknown".to_string(), number: 16845, is_open: None });
    t.push(Port { service: "unknown".to_string(), number: 16797, is_open: None });
    t.push(Port { service: "unknown".to_string(), number: 16725, is_open: None });
    t.push(Port { service: "unknown".to_string(), number: 16724, is_open: None });
    t.push(Port { service: "unknown".to_string(), number: 16723, is_open: None });
    t.push(Port { service: "unknown".to_string(), number: 16464, is_open: None });
    t.push(Port { service: "unknown".to_string(), number: 16372, is_open: None });
    t.push(Port { service: "unknown".to_string(), number: 16349, is_open: None });
    t.push(Port { service: "unknown".to_string(), number: 16297, is_open: None });
    t.push(Port { service: "unknown".to_string(), number: 16286, is_open: None });
    t.push(Port { service: "unknown".to_string(), number: 16283, is_open: None });
    t.push(Port { service: "unknown".to_string(), number: 16273, is_open: None });
    t.push(Port { service: "unknown".to_string(), number: 16270, is_open: None });
    t.push(Port { service: "unknown".to_string(), number: 16048, is_open: None });
    t.push(Port { service: "unknown".to_string(), number: 15915, is_open: None });
    t.push(Port { service: "unknown".to_string(), number: 15758, is_open: None });
    t.push(Port { service: "unknown".to_string(), number: 15730, is_open: None });
    t
}

fn chunk_62() -> (t: Vec<Port>)
    ensures
        t@.len() == 50,
        forall|i: int| 0 <= i < t@.len() ==> entry_matches(#[trigger] t@[i], chunk_entry_62(i)),
        forall|i: int| 0 <= i < t@.len() ==> table_entry_ok(#[trigger] t@[i]),
{
    let mut t: Vec<Port> = Vec::new();
    t.push(Port { service: "unknown".to_string(), number: 15722, is_open: None });
    t.push(Port { service: "unknown".to_string(), number: 15677, is_open: None });
    t.push(Port { service: "unknown".to_string(), number: 15670, is_open: None });
    t.push(Port { service: "unknown".to_string(), number: 15646, is_open: None });
    t.push(Port { service: "unknown".to_string(), number: 15645, is_open: None });
    t.push(Port { service: "unknown".to_string(), number: 15631, is_open: None });
    t.push(Port { service: "unknown".to_string(), number: 15550, is_open: None });
    t.push(Port { service: "unknown".to_string(), number: 15448, is_open: None });
    t.push(Port { service: "unknown".to_string(), number: 15344, is_open: None });
    t.push(Port { service: "unknown".to_string(), number: 15317, is_open: None });
    t.push(Port { service: "unknown".to_string(), number: 15275, is_open: None });
    t.push(Port { service: "unknown".to_string(), number: 15191, is_open: None });
    t.push(Port { service: "unknown".to_string(), number: 15190, is_open: None });
    t.push(Port { service: "unknown".to_string(), number: 15145, is_open: None });
    t.push(Port { service: "unknown".to_string(), number: 15050, is_open: None });
    t.push(Port { service: "unknown".to_string(), number: 15005, is_open: None });
    t.push(Port { service: "unknown".to_string(), number: 14916, is_open: None });
    t.push(Port { service: "unknown".to_string(), number: 14891, is_open: None });
    t.push(Port { service: "unknown".to_string(), number: 14827, is_open: None });
    t.push(Port { service: "unknown".to_string(), number: 14733, is_open: None });
    t.push(Port { service: "unknown".to_string(), number: 14693, is_open: None });
    t.push(Port { service: "unknown".to_string(), number: 14545, is_open: None });
    t.push(Port { service: "unknown".to_string(), number: 14534, is_open: None });
    t.push(Port { service: "unknown".to_string(), number: 14444, is_open: None });
    t.push(Port { service: "unknown".to_string(), number: 14443, is_open: None });
    t.push(Port { service: "unknown".to_string(), number: 14418, is_open: None });
    t.push(Port { service: "unknown".to_string(), number: 14254, is_open: None });
    t.push(Port { service: "unknown".to_string(), number: 14237, is_open: None });
    t.push(Port { service: "unknown".to_string(), number: 14218, is_open: None });
    t.push(Port { service: "unknown".to_string(), number: 14147, is_open: None });
    t.push(Port { service: "unknown".to_string(), number: 13899, is_open: None });
    t.push(Port { service: "unknown".to_string(), number: 13846, is_open: None });
    t.push(Port { service: "unknown".to_string(), number: 13784, is_open: None });
    t.push(Port { service: "unknown".to_string(), number: 13766, is_open: None });
    t.push(Port { service: "unknown".to_string(), number: 13730, is_open: None });
    t.push(Port { service: "unknown".to_string(), number: 13723, is_open: None });
    t.push(Port { service: "unknown".to_string(), number: 13695, is_open: None });
    t.push(Port { service: "unknown".to_string(), number: 13580, is_open: None });
    t.push(Port { service: "unknown".to_string(), number: 13502, is_open: None });
    t.push(Port { service: "unknown".to_string(), number: 13359, is_open: None });
    t.push(Port { service: "unknown".to_string(), number: 13340, is_open: None });
    t.push(Port { service: "unknown".to_string(), number: 13318, is_open: None });
    t.push(Port { service: "unknown".to_string(), number: 13306, is_open: None });
    t.push(Port { service: "unknown".to_string(), number: 13265, is_open: None });
    t.push(Port { service: "unknown".to_string(), number: 13264, is_open: None });
    t.push(Port { service: "unknown".to_string(), number: 13261, is_open: None });
    t.push(Port { service: "unknown".to_string(), number: 13250, is_open: None });
    t.push(Port { service: "unknown".to_string(), number: 13229, is_open: None });
    t.push(Port { service: "unknown".to_string(), number: 13194, is_open: None });
    t.push(Port { service: "unknown".to_string(), number: 13193, is_open: None });
    t
}

fn chunk_63() -> (t: Vec<Port>)
    ensures
        t@.len() == 50,
        forall|i: int| 0 <= i < t@.len() ==> entry_matches(#[trigger] t@[i], chunk_entry_63(i)),
        forall|i: int| 0 <= i < t@.len() ==> table_entry_ok(#[trigger] t@[i]),
{
    let mut t: Vec<Port> = Vec::new();
    t.push(Port { service: "unknown".to_string(), number: 13192, is_open: None });
    t.push(Port { service: "unknown".to_string(), number: 13188, is_open: None });
    t.push(Port { service: "unknown".to_string(), number: 13167, is_open: None });
    t.push(Port { service: "unknown".to_string(), number: 13149, is_open: None });
    t.push(Port { service: "unknown".to_string(), number: 13142, is_open: None });
    t.push(Port { service: "unknown".to_string(), number: 13140, is_open: None });
    t.push(Port { service: "unknown".to_string(), number: 13132, is_open: None });
    t.push(Port { service: "unknown".to_string(), number: 13130, is_open: None });
    t.push(Port { service: "unknown".to_string(), number: 13093, is_open: None });
    t.push(Port { service: "unknown".to_string(), number: 13017, is_open: None });
    t.push(Port { service: "unknown".to_string(), number: 12962, is_open: None });
    t.push(Port { service: "unknown".to_string(), number: 12955, is_open: None });
    t.push(Port { service: "unknown".to_string(), number: 12892, is_open: None });
    t.push(Port { service: "unknown".to_string(), number: 12891, is_open: None });
    t.push(Port { service: "unknown".to_string(), number: 12766, is_open: None });
    t.push(Port { service: "unknown".to_string(), number: 12702, is_open: None });
    t.push(Port { service: "unknown".to_string(), number: 12699, is_open: None });
    t.push(Port { service: "unknown".to_string(), number: 12414, is_open: None });
    t.push(Port { service: "unknown".to_string(), number: 12340, is_open: None });
    t.push(Port { service: "unknown".to_string(), number: 12296, is_open: None });
    t.push(Port { service: "unknown".to_string(), number: 12275, is_open: None });
    t.push(Port { service: "unknown".to_string(), number: 12271, is_open: None });
    t.push(Port { service: "unknown".to_string(), number: 12251, is_open: None });
    t.push(Port { service: "unknown".to_string(), number: 12243, is_open: None });
    t.push(Port { service: "unknown".to_string(), number: 12240, is_open: None });
    t.push(Port { service: "unknown".to_string(), number: 12225, is_open: None });
    t.push(Port { service: "unknown".to_string(), number: 12192, is_open: None });
    t.push(Port { service: "unknown".to_string(), number: 12171, is_open: None });
    t.push(Port { service: "unknown".to_string(), number: 12156, is_open: None });
    t.push(Port { service: "unknown".to_string(), number: 12146, is_open: None });
    t.push(Port { service: "unknown".to_string(), number: 12137, is_open: None });
    t.push(Port { service: "unknown".to_string(), number: 12132, is_open: None });
    t.push(Port { service: "unknown".to_string(), number: 12097, is_open: None });
    t.push(Port { service: "unknown".to_string(), number: 12096, is_open: None });
    t.push(Port { service: "unknown".to_string(), number: 12090, is_open: None });
    t.push(Port { service: "unknown".to_string(), number: 12080, is_open: None });
    t.push(Port { service: "unknown".to_string(), number: 12077, is_open: None });
    t.push(Port { service: "unknown".to_string(), number: 12034, is_open: None });
    t.push(Port { service: "unknown".to_string(), number: 12031, is_open: None });
    t.push(Port { service: "unknown".to_string(), number: 12019, is_open: None });
    t.push(Port { service: "unknown".to_string(), number: 11940, is_open: None });
    t.push(Port { service: "unknown".to_string(), number: 11863, is_open: None });
    t.push(Port { service: "unknown".to_string(), number: 11862, is_open: None });
    t.push(Port { service: "unknown".to_string(), number: 11813, is_open: None });
    t.push(Port { service: "unknown".to_string(), number: 11735, is_open: None });
    t.push(Port { service: "unknown".to_string(), number: 11697, is_open: None });
    t.push(Port { service: "unknown".to_string(), number: 11552, is_open: None });
    t.push(Port { service: "unknown".to_string(), number: 11401, is_open: None });
    t.push(Port { service: "unknown".to_string(), number: 11296, is_open: None });
    t.push(Port { service: "unknown".to_string(), number: 11288, is_open: None });
    t
}

fn chunk_64() -> (t: Vec<Port>)
    ensures
        t@.len() == 50,
        forall|i: int| 0 <= i < t@.len() ==> entry_matches(#[trigger] t@[i], chunk_entry_64(i)),
        forall|i: int| 0 <= i < t@.len() ==> table_entry_ok(#[trigger] t@[i]),
{
    let mut t: Vec<Port> = Vec::new();
    t.push(Port { service: "unknown".to_string(), number: 11250, is_open: None });
    t.push(Port { service: "unknown".to_string(), number: 11224, is_open: None });
    t.push(Port { service: "unknown".to_string(), number: 11200, is_open: None });
    t.push(Port { service: "unknown".to_string(), number: 11180, is_open: None });
    t.push(Port { service: "unknown".to_string(), number: 11100, is_open: None });
    t.push(Port { service: "unknown".to_string(), number: 11089, is_open: None });
    t.push(Port { service: "unknown".to_string(), number: 11033, is_open: None });
    t.push(Port { service: "unknown".to_string(), number: 11032, is_open: None });
    t.push(Port { service: "unknown".to_string(), number: 11031, is_open: None });
    t.push(Port { service: "unknown".to_string(), number: 11026, is_open: None });
    t.push(Port { service: "unknown".to_string(), number: 11019, is_open: None });
    t.push(Port { service: "unknown".to_string(), number: 11007, is_open: None });
    t.push(Port { service: "unknown".to_string(), number: 11003, is_open: None });
    t.push(Port { service: "unknown".to_string(), number: 10900, is_open: None });
    t.push(Port { service: "unknown".to_string(), number: 10878, is_open: None });
    t.push(Port { service: "unknown".to_string(), number: 10852, is_open: None });
    t.push(Port { service: "unknown".to_string(), number: 10842, is_open: None });
    t.push(Port { service: "unknown".to_string(), number: 10754, is_open: None });
    t.push(Port { service: "unknown".to_string(), number: 10699, is_open: None });
    t.push(Port { service: "unknown".to_string(), number: 10602, is_open: None });
    t.push(Port { service: "unknown".to_string(), number: 10601, is_open: None });
    t.push(Port { service: "unknown".to_string(), number: 10567, is_open: None });
    t.push(Port { service: "unknown".to_string(), number: 10565, is_open: None });
    t.push(Port { service: "unknown".to_string(), number: 10556, is_open: None });
    t.push(Port { service: "unknown".to_string(), number: 10555, is_open: None });
    t.push(Port { service: "unknown".to_string(), number: 10554, is_open: None });
    t.push(Port { service: "unknown".to_string(), number: 10553, is_open: None });
    t.push(Port { service: "unknown".to_string(), number: 10552, is_open: None });
    t.push(Port { service: "unknown".to_string(), number: 10551, is_open: None });
    t.push(Port { service: "unknown".to_string(), number: 10550, is_open: None });
    t.push(Port { service: "unknown".to_string(), number: 10535, is_open: None });
    t.push(Port { service: "unknown".to_string(), number: 10529, is_open: None });
    t.push(Port { service: "unknown".to_string(), number: 10509, is_open: None });
    t.push(Port { service: "unknown".to_string(), number: 10494, is_open: None });
    t.push(Port { service: "unknown".to_string(), number: 10414, is_open: None });
    t.push(Port { service: "unknown".to_string(), number: 10387, is_open: None });
    t.push(Port { service: "unknown".to_string(), number: 10357, is_open: None });
    t.push(Port { service: "unknown".to_string(), number: 10347, is_open: None });
    t.push(Port { service: "unknown".to_string(), number: 10338, is_open: None });
    t.push(Port { service: "unknown".to_string(), number: 10280, is_open: None });
    t.push(Port { service: "unknown".to_string(), number: 10255, is_open: None });
    t.push(Port { service: "unknown".to_string(), number: 10246, is_open: None });
    t.push(Port { service: "unknown".to_string(), number: 10245, is_open: None });
    t.push(Port { service: "unknown".to_string(), number: 10238, is_open: None });
    t.push(Port { service: "unknown".to_string(), number: 10093, is_open: None });
    t.push(Port { service: "unknown".to_string(), number: 10064, is_open: None });
    t.push(Port { service: "unknown".to_string(), number: 10045, is_open: None });
    t.push(Port { service: "unknown".to_string(), number: 10042, is_open: None });
    t.push(Port { service: "unknown".to_string(), number: 10035, is_open: None });
    t.push(Port { service: "unknown".to_string(), number: 10019, is_open: None });
    t
}

fn chunk_65() -> (t: Vec<Port>)
    ensures
        t@.len() == 50,
        forall|i: int| 0 <= i < t@.len() ==> entry_matches(#[trigger] t@[i], chunk_entry_65(i)),
        forall|i: int| 0 <= i < t@.len() ==> table_entry_ok(#[trigger] t@[i]),
{
    let mut t: Vec<Port> = Vec::new();
    t.push(Port { service: "unknown".to_string(), number: 10018, is_open: None });
    t.push(Port { service: "ultrex".to_string(), number: 1327, is_open: None });
    t.push(Port { service: "tscchat".to_string(), number: 2330, is_open: None });
    t.push(Port { service: "tributary".to_string(), number: 2580, is_open: None });
    t.push(Port { service: "tqdata".to_string(), number: 2700, is_open: None });
    t.push(Port { service: "tn-tl-fd2".to_string(), number: 1584, is_open: None });
    t.push(Port { service: "tambora".to_string(), number: 9020, is_open: None });
    t.push(Port { service: "sysopt".to_string(), number: 3281, is_open: None });
    t.push(Port { service: "sybasedbsynch".to_string(), number: 2439, is_open: None });
    t.push(Port { service: "swldy-sias".to_string(), number: 1250, is_open: None });
    t.push(Port { service: "stt".to_string(), number: 1607, is_open: None });
    t.push(Port { service: "street-stream".to_string(), number: 1736, is_open: None });
    t.push(Port { service: "streetperfect".to_string(), number: 1330, is_open: None });
    t.push(Port { service: "starschool".to_string(), number: 2270, is_open: None });
    t.push(Port { service: "sqdr".to_string(), number: 2728, is_open: None });
    t.push(Port { service: "spcsdlobby".to_string(), number: 2888, is_open: None });
    t.push(Port { service: "soniqsync".to_string(), number: 3803, is_open: None });
    t.push(Port { service: "soagateway".to_string(), number: 5250, is_open: None });
    t.push(Port { service: "sightline".to_string(), number: 1645, is_open: None });
    t.push(Port { service: "sftsrv".to_string(), number: 1303, is_open: None });
    t.push(Port { service: "servistaitsm".to_string(), number: 3636, is_open: None });
    t.push(Port { service: "servergraph".to_string(), number: 1251, is_open: None });
    t.push(Port { service: "serialgateway".to_string(), number: 1243, is_open: None });
    t.push(Port { service: "seagulllms".to_string(), number: 1291, is_open: None });
    t.push(Port { service: "sdproxy".to_string(), number: 1297, is_open: None });
    t.push(Port { service: "scol".to_string(), number: 1200, is_open: None });
    t.push(Port { service: "scientia-sdb".to_string(), number: 1811, is_open: None });
    t.push(Port { service: "saris".to_string(), number: 4442, is_open: None });
    t.push(Port { service: "sacred".to_string(), number: 1118, is_open: None });
    t.push(Port { service: "sabarsd".to_string(), number: 8401, is_open: None });
    t.push(Port { service: "rtcm-sc104".to_string(), number: 2101, is_open: None });
    t.push(Port { service: "rsom".to_string(), number: 2889, is_open: None });
    t.push(Port { service: "rrimwm".to_string(), number: 1694, is_open: None });
    t.push(Port { service: "roketz".to_string(), number: 1730, is_open: None });
    t.push(Port { service: "rhp-iibp".to_string(), number: 1912, is_open: None });
    t.push(Port { service: "remote-winsock".to_string(), number: 1745, is_open: None });
    t.push(Port { service: "remote-collab".to_string(), number: 2250, is_open: None });
    t.push(Port { service: "re-conn-proto".to_string(), number: 1306, is_open: None });
    t.push(Port { service: "rebol".to_string(), number: 2997, is_open: None });
    t.push(Port { service: "ratl".to_string(), number: 2449, is_open: None });
    t.push(Port { service: "qnts-orb".to_string(), number: 1262, is_open: None });
    t.push(Port { service: "pxc-splr".to_string(), number: 4007, is_open: None });
    t.push(Port { service: "pt2-discover".to_string(), number: 1101, is_open: None });
    t.push(Port { service: "propel-msgsys".to_string(), number: 1268, is_open: None });
    t.push(Port { service: "privatechat".to_string(), number: 1735, is_open: None });
    t.push(Port { service: "privateark".to_string(), number: 1858, is_open: None });
    t.push(Port { service: "prat".to_string(), number: 1264, is_open: None });
    t.push(Port { service: "pptconference".to_string(), number: 1711, is_open: None });
    t.push(Port { service: "pkagent".to_string(), number: 3118, is_open: None });
    t.push(Port { service: "piranha2".to_string(), number: 4601, is_open: None });
    t
}

fn chunk_66() -> (t: Vec<Port>)
    ensures
        t@.len() == 50,
        forall|i: int| 0 <= i < t@.len() ==> entry_matches(#[trigger] t@[i], chunk_entry_66(i)),
        forall|i: int| 0 <= i < t@.len() ==> table_entry_ok(#[trigger] t@[i]),
{
    let mut t: Vec<Port> = Vec::new();
    t.push(Port { service: "pip".to_string(), number: 1321, is_open: None });
    t.push(Port { service: "picknfs".to_string(), number: 1598, is_open: None });
    t.push(Port { service: "pe-mike".to_string(), number: 1305, is_open: None });
    t.push(Port { service: "pammratc".to_string(), number: 1632, is_open: None });
    t.push(Port { service: "palace-4".to_string(), number: 9995, is_open: None });
    t.push(Port { service: "pacmand".to_string(), number: 1307, is_open: None });
    t.push(Port { service: "p2pq".to_string(), number: 1981, is_open: None });
    t.push(Port { service: "ovtopmd".to_string(), number: 2532, is_open: None });
    t.push(Port { service: "oracle-vp2".to_string(), number: 1808, is_open: None });
    t.push(Port { service: "optilogic".to_string(), number: 2435, is_open: None });
    t.push(Port { service: "openvpn".to_string(), number: 1194, is_open: None });
    t.push(Port { service: "ontime".to_string(), number: 1622, is_open: None });
    t.push(Port { service: "nmsd".to_string(), number: 1239, is_open: None });
    t.push(Port { service: "netrisk".to_string(), number: 1799, is_open: None });
    t.push(Port { service: "ndtp".to_string(), number: 2882, is_open: None });
    t.push(Port { service: "ncpm-hip".to_string(), number: 1683, is_open: None });
    t.push(Port { service: "ncadg-ip-udp".to_string(), number: 3063, is_open: None });
    t.push(Port { service: "ncacn-ip-tcp".to_string(), number: 3062, is_open: None });
    t.push(Port { service: "naap".to_string(), number: 1340, is_open: None });
    t.push(Port { service: "n1-rmgmt".to_string(), number: 4447, is_open: None });
    t.push(Port { service: "musiconline".to_string(), number: 1806, is_open: None });
    t.push(Port { service: "muse".to_string(), number: 6888, is_open: None });
    t.push(Port { service: "msp".to_string(), number: 2438, is_open: None });
    t.push(Port { service: "mpshrsv".to_string(), number: 1261, is_open: None });
    t.push(Port { service: "mppolicy-mgr".to_string(), number: 5969, is_open: None });
    t.push(Port { service: "mpidcmgr".to_string(), number: 9343, is_open: None });
    t.push(Port { service: "mon".to_string(), number: 2583, is_open: None });
    t.push(Port { service: "mobrien-chat".to_string(), number: 2031, is_open: None });
    t.push(Port { service: "minilock".to_string(), number: 3798, is_open: None });
    t.push(Port { service: "mikey".to_string(), number: 2269, is_open: None });
    t.push(Port { service: "microsan".to_string(), number: 20001, is_open: None });
    t.push(Port { service: "metricadbc".to_string(), number: 2622, is_open: None });
    t.push(Port { service: "metasys".to_string(), number: 11001, is_open: None });
    t.push(Port { service: "metasage".to_string(), number: 1207, is_open: None });
    t.push(Port { service: "metaconsole".to_string(), number: 2850, is_open: None });
    t.push(Port { service: "memcachedb".to_string(), number: 21201, is_open: None });
    t.push(Port { service: "mao".to_string(), number: 2908, is_open: None });
    t.push(Port { service: "mailprox".to_string(), number: 3936, is_open: None });
    t.push(Port { service: "magicnotes".to_string(), number: 3023, is_open: None });
    t.push(Port { service: "lnvpoller".to_string(), number: 2280, is_open: None });
    t.push(Port { service: "lmdp".to_string(), number: 2623, is_open: None });
    t.push(Port { service: "lazy-ptop".to_string(), number: 7099, is_open: None });
    t.push(Port { service: "lanmessenger".to_string(), number: 2372, is_open: None });
    t.push(Port { service: "krb5gatekeeper".to_string(), number: 1318, is_open: None });
    t.push(Port { service: "kjtsiteserver".to_string(), number: 1339, is_open: None });
    t.push(Port { service: "ivmanager".to_string(), number: 1276, is_open: None });
    t.push(Port { service: "irisa".to_string(), number: 11000, is_open: None });
    t.push(Port { service: "iqobject".to_string(), number: 48619, is_open: None });
    t.push(Port { service: "ipether232port".to_string(), number: 3497, is_open: None });
    t.push(Port { service: "ipcd3".to_string(), number: 1209, is_open: None });
    t
}

fn chunk_67() -> (t: Vec<Port>)
    ensures
        t@.len() == 50,
        forall|i: int| 0 <= i < t@.len() ==> entry_matches(#[trigger] t@[i], chunk_entry_67(i)),
        forall|i: int| 0 <= i < t@.len() ==> table_entry_ok(#[trigger] t@[i]),
{
    let mut t: Vec<Port> = Vec::new();
    t.push(Port { service: "intersan".to_string(), number: 1331, is_open: None });
    t.push(Port { service: "instantia".to_string(), number: 1240, is_open: None });
    t.push(Port { service: "informer".to_string(), number: 3856, is_open: None });
    t.push(Port { service: "identify".to_string(), number: 2987, is_open: None });
    t.push(Port { service: "idcp".to_string(), number: 2326, is_open: None });
    t.push(Port { service: "icl-twobase2".to_string(), number: 25001, is_open: None });
    t.push(Port { service: "icl-twobase1".to_string(), number: 25000, is_open: None });
    t.push(Port { service: "ibm-dt-2".to_string(), number: 1792, is_open: None });
    t.push(Port { service: "hyperip".to_string(), number: 3919, is_open: None });
    t.push(Port { service: "hp-sci".to_string(), number: 1299, is_open: None });
    t.push(Port { service: "hpidsadmin".to_string(), number: 2984, is_open: None });
    t.push(Port { service: "houdini-lm".to_string(), number: 1715, is_open: None });
    t.push(Port { service: "hb-engine".to_string(), number: 1703, is_open: None });
    t.push(Port { service: "groupwise".to_string(), number: 1677, is_open: None });
    t.push(Port { service: "gnunet".to_string(), number: 2086, is_open: None });
    t.push(Port { service: "gat-lmd".to_string(), number: 1708, is_open: None });
    t.push(Port { service: "florence".to_string(), number: 1228, is_open: None });
    t.push(Port { service: "fintrx".to_string(), number: 3787, is_open: None });
    t.push(Port { service: "fcp-srvr-inst1".to_string(), number: 5502, is_open: None });
    t.push(Port { service: "faxportwinport".to_string(), number: 1620, is_open: None });
    t.push(Port { service: "exbit-escp".to_string(), number: 1316, is_open: None });
    t.push(Port { service: "ets".to_string(), number: 1569, is_open: None });
    t.push(Port { service: "eoss".to_string(), number: 1210, is_open: None });
    t.push(Port { service: "empire-empuma".to_string(), number: 1691, is_open: None });
    t.push(Port { service: "emperion".to_string(), number: 1282, is_open: None });
    t.push(Port { service: "elatelink".to_string(), number: 2124, is_open: None });
    t.push(Port { service: "ea1".to_string(), number: 1791, is_open: None });
    t.push(Port { service: "dynamic3d".to_string(), number: 2150, is_open: None });
    t.push(Port { service: "domaintime".to_string(), number: 9909, is_open: None });
    t.push(Port { service: "dnox".to_string(), number: 4022, is_open: None });
    t.push(Port { service: "delta-mcp".to_string(), number: 1324, is_open: None });
    t.push(Port { service: "cyaserv".to_string(), number: 2584, is_open: None });
    t.push(Port { service: "cvmmon".to_string(), number: 2300, is_open: None });
    t.push(Port { service: "cumulus".to_string(), number: 9287, is_open: None });
    t.push(Port { service: "cspuni".to_string(), number: 2806, is_open: None });
    t.push(Port { service: "corelvideo".to_string(), number: 1566, is_open: None });
    t.push(Port { service: "conferencetalk".to_string(), number: 1713, is_open: None });
    t.push(Port { service: "commonspace".to_string(), number: 1592, is_open: None });
    t.push(Port { service: "cimtrak".to_string(), number: 3749, is_open: None });
    t.push(Port { service: "ci3-software-2".to_string(), number: 1302, is_open: None });
    t.push(Port { service: "centra".to_string(), number: 1709, is_open: None });
    t.push(Port { service: "celatalk".to_string(), number: 3485, is_open: None });
    t.push(Port { service: "cas".to_string(), number: 2418, is_open: None });
    t.push(Port { service: "c3".to_string(), number: 2472, is_open: None });
    t.push(Port { service: "binkp".to_string(), number: 24554, is_open: None });
    t.push(Port { service: "bears-02".to_string(), number: 3146, is_open: None });
    t.push(Port { service: "avenue".to_string(), number: 2134, is_open: None });
    t.push(Port { service: "appliance-cfg".to_string(), number: 2898, is_open: None });
    t.push(Port { service: "apani2".to_string(), number: 9161, is_open: None });
    t.push(Port { service: "apani1".to_string(), number: 9160, is_open: None });
    t
}

fn chunk_68() -> (t: Vec<Port>)
    ensures
        t@.len() == 50,
        forall|i: int| 0 <= i < t@.len() ==> entry_matches(#[trigger] t@[i], chunk_entry_68(i)),
        forall|i: int| 0 <= i < t@.len() ==> table_entry_ok(#[trigger] t@[i]),
{
    let mut t: Vec<Port> = Vec::new();
    t.push(Port { service: "amx-weblinx".to_string(), number: 2930, is_open: None });
    t.push(Port { service: "amx-icsp".to_string(), number: 1319, is_open: None });
    t.push(Port { service: "amp".to_string(), number: 3811, is_open: None });
    t.push(Port { service: "altav-remmgt".to_string(), number: 2456, is_open: None });
    t.push(Port { service: "allstorcns".to_string(), number: 2901, is_open: None });
    t.push(Port { service: "affiliate".to_string(), number: 6579, is_open: None });
    t.push(Port { service: "ads".to_string(), number: 2550, is_open: None });
    t.push(Port { service: "admind".to_string(), number: 8403, is_open: None });
    t.push(Port { service: "boinc".to_string(), number: 31416, is_open: None });
    t.push(Port { service: "wnn6".to_string(), number: 22273, is_open: None });
    t.push(Port { service: "afs3-volser".to_string(), number: 7005, is_open: None });
    t.push(Port { service: "sqlnet".to_string(), number: 66, is_open: None });
    t.push(Port { service: "sometimes-rpc27".to_string(), number: 32787, is_open: None });
    t.push(Port { service: "sometimes-rpc25".to_string(), number: 32786, is_open: None });
    t.push(Port { service: "silc".to_string(), number: 706, is_open: None });
    t.push(Port { service: "rlzdbase".to_string(), number: 635, is_open: None });
    t.push(Port { service: "isdninfo".to_string(), number: 6105, is_open: None });
    t.push(Port { service: "work-sol".to_string(), number: 400, is_open: None });
    t.push(Port { service: "ni-ftp".to_string(), number: 47, is_open: None });
    t.push(Port { service: "netconf-ssh".to_string(), number: 830, is_open: None });
    t.push(Port { service: "netcheque".to_string(), number: 4008, is_open: None });
    t.push(Port { service: "ncd-pref-tcp".to_string(), number: 5977, is_open: None });
    t.push(Port { service: "tr-rsrb-p3".to_string(), number: 1989, is_open: None });
    t.push(Port { service: "marcam-lm".to_string(), number: 1444, is_open: None });
    t.push(Port { service: "mapper-mapethd".to_string(), number: 3985, is_open: None });
    t.push(Port { service: "ggf-ncp".to_string(), number: 678, is_open: None });
    t.push(Port { service: "flexlm1".to_string(), number: 27001, is_open: None });
    t.push(Port { service: "http-alt".to_string(), number: 591, is_open: None });
    t.push(Port { service: "esro-emsdp".to_string(), number: 642, is_open: None });
    t.push(Port { service: "ddm-rdb".to_string(), number: 446, is_open: None });
    t.push(Port { service: "cadis-1".to_string(), number: 1441, is_open: None });
    t.push(Port { service: "bo2k".to_string(), number: 54320, is_open: None });
    t.push(Port { service: "systat".to_string(), number: 11, is_open: None });
    t.push(Port { service: "vid".to_string(), number: 769, is_open: None });
    t.push(Port { service: "unknown".to_string(), number: 983, is_open: None });
    t.push(Port { service: "unknown".to_string(), number: 979, is_open: None });
    t.push(Port { service: "unknown".to_string(), number: 973, is_open: None });
    t.push(Port { service: "unknown".to_string(), number: 967, is_open: None });
    t.push(Port { service: "unknown".to_string(), number: 965, is_open: None });
    t.push(Port { service: "unknown".to_string(), number: 961, is_open: None });
    t.push(Port { service: "unknown".to_string(), number: 942, is_open: None });
    t.push(Port { service: "unknown".to_string(), number: 935, is_open: None });
    t.push(Port { service: "unknown".to_string(), number: 926, is_open: None });
    t.push(Port { service: "unknown".to_string(), number: 925, is_open: None });
    t.push(Port { service: "unknown".to_string(), number: 914, is_open: None });
    t.push(Port { service: "unknown".to_string(), number: 863, is_open: None });
    t.push(Port { service: "unknown".to_string(), number: 858, is_open: None });
    t.push(Port { service: "unknown".to_string(), number: 844, is_open: None });
    t.push(Port { service: "unknown".to_string(), number: 834, is_open: None });
    t.push(Port { service: "unknown".to_string(), number: 817, is_open: None });
    t
}

fn chunk_69() -> (t: Vec<Port>)
    ensures
        t@.len() == 50,
        forall|i: int| 0 <= i < t@.len() ==> entry_matches(#[trigger] t@[i], chunk_entry_69(i)),
        forall|i: int| 0 <= i < t@.len() ==> table_entry_ok(#[trigger] t@[i]),
{
    let mut t: Vec<Port> = Vec::new();
    t.push(Port { service: "unknown".to_string(), number: 815, is_open: None });
    t.push(Port { service: "unknown".to_string(), number: 811, is_open: None });
    t.push(Port { service: "unknown".to_string(), number: 809, is_open: None });
    t.push(Port { service: "unknown".to_string(), number: 789, is_open: None });
    t.push(Port { service: "unknown".to_string(), number: 779, is_open: None });
    t.push(Port { service: "unknown".to_string(), number: 743, is_open: None });
    t.push(Port { service: "unknown".to_string(), number: 1019, is_open: None });
    t.push(Port { service: "symplex".to_string(), number: 1507, is_open: None });
    t.push(Port { service: "stone-design-1".to_string(), number: 1492, is_open: None });
    t.push(Port { service: "snare".to_string(), number: 509, is_open: None });
    t.push(Port { service: "quotad".to_string(), number: 762, is_open: None });
    t.push(Port { service: "pcanywherestat".to_string(), number: 5632, is_open: None });
    t.push(Port { service: "ipdd".to_string(), number: 578, is_open: None });
    t.push(Port { service: "cvc".to_string(), number: 1495, is_open: None });
    t.push(Port { service: "cfengine".to_string(), number: 5308, is_open: None });
    t.push(Port { service: "xns-time".to_string(), number: 52, is_open: None });
    t.push(Port { service: "uarps".to_string(), number: 219, is_open: None });
    t.push(Port { service: "timed".to_string(), number: 525, is_open: None });
    t.push(Port { service: "timbuktu-srv4".to_string(), number: 1420, is_open: None });
    t.push(Port { service: "sun-dr".to_string(), number: 665, is_open: None });
    t.push(Port { service: "sco-websrvrmgr".to_string(), number: 620, is_open: None });
    t.push(Port { service: "dnet-tstproxy".to_string(), number: 3064, is_open: None });
    t.push(Port { service: "slnp".to_string(), number: 3045, is_open: None });
    t.push(Port { service: "repscmd".to_string(), number: 653, is_open: None });
    t.push(Port { service: "pcmail-srv".to_string(), number: 158, is_open: None });
    t.push(Port { service: "pana".to_string(), number: 716, is_open: None });
    t.push(Port { service: "owamp-control".to_string(), number: 861, is_open: None });
    t.push(Port { service: "issa".to_string(), number: 9991, is_open: None });
    t.push(Port { service: "cfs".to_string(), number: 3049, is_open: None });
    t.push(Port { service: "netware-csp".to_string(), number: 1366, is_open: None });
    t.push(Port { service: "ndm-server".to_string(), number: 1364, is_open: None });
    t.push(Port { service: "netconfsoapbeep".to_string(), number: 833, is_open: None });
    t.push(Port { service: "mit-dov".to_string(), number: 91, is_open: None });
    t.push(Port { service: "CarbonCopy".to_string(), number: 1680, is_open: None });
    t.push(Port { service: "sapcomm".to_string(), number: 3398, is_open: None });
    t.push(Port { service: "kerberos".to_string(), number: 750, is_open: None });
    t.push(Port { service: "sco-inetmgr".to_string(), number: 615, is_open: None });
    t.push(Port { service: "mnotes".to_string(), number: 603, is_open: None });
    t.push(Port { service: "softcm".to_string(), number: 6110, is_open: None });
    t.push(Port { service: "hostname".to_string(), number: 101, is_open: None });
    t.push(Port { service: "ftps-data".to_string(), number: 989, is_open: None });
    t.push(Port { service: "flexlm10".to_string(), number: 27010, is_open: None });
    t.push(Port { service: "fcp".to_string(), number: 510, is_open: None });
    t.push(Port { service: "fcp-udp".to_string(), number: 810, is_open: None });
    t.push(Port { service: "cce3x".to_string(), number: 1139, is_open: None });
    t.push(Port { service: "eims-admin".to_string(), number: 4199, is_open: None });
    t.push(Port { service: "deos".to_string(), number: 76, is_open: None });
    t.push(Port { service: "dhcp-failover2".to_string(), number: 847, is_open: None });
    t.push(Port { service: "cadview-3d".to_string(), number: 649, is_open: None });
    t.push(Port { service: "borland-dsj".to_string(), number: 707, is_open: None });
    t
}

fn chunk_70() -> (t: Vec<Port>)
    ensures
        t@.len() == 50,
        forall|i: int| 0 <= i < t@.len() ==> entry_matches(#[trigger] t@[i], chunk_entry_70(i)),
        forall|i: int| 0 <= i < t@.len() ==> table_entry_ok(#[trigger] t@[i]),
{
    let mut t: Vec<Port> = Vec::new();
    t.push(Port { service: "dhcpc".to_string(), number: 68, is_open: None });
    t.push(Port { service: "secure-aux-bus".to_string(), number: 664, is_open: None });
    t.push(Port { service: "as-servermap".to_string(), number: 449, is_open: None });
    t.push(Port { service: "priv-dial".to_string(), number: 75, is_open: None });
    t.push(Port { service: "acr-nema".to_string(), number: 104, is_open: None });
    t.push(Port { service: "3com-amp3".to_string(), number: 629, is_open: None });
    t.push(Port { service: "xnmp".to_string(), number: 1652, is_open: None });
    t.push(Port { service: "xfr".to_string(), number: 682, is_open: None });
    t.push(Port { service: "vnas".to_string(), number: 577, is_open: None });
    t.push(Port { service: "unknown".to_string(), number: 985, is_open: None });
    t.push(Port { service: "unknown".to_string(), number: 984, is_open: None });
    t.push(Port { service: "unknown".to_string(), number: 974, is_open: None });
    t.push(Port { service: "unknown".to_string(), number: 958, is_open: None });
    t.push(Port { service: "unknown".to_string(), number: 952, is_open: None });
    t.push(Port { service: "unknown".to_string(), number: 949, is_open: None });
    t.push(Port { service: "unknown".to_string(), number: 946, is_open: None });
    t.push(Port { service: "unknown".to_string(), number: 923, is_open: None });
    t.push(Port { service: "unknown".to_string(), number: 916, is_open: None });
    t.push(Port { service: "unknown".to_string(), number: 899, is_open: None });
    t.push(Port { service: "unknown".to_string(), number: 897, is_open: None });
    t.push(Port { service: "unknown".to_string(), number: 894, is_open: None });
    t.push(Port { service: "unknown".to_string(), number: 889, is_open: None });
    t.push(Port { service: "unknown".to_string(), number: 835, is_open: None });
    t.push(Port { service: "unknown".to_string(), number: 824, is_open: None });
    t.push(Port { service: "unknown".to_string(), number: 814, is_open: None });
    t.push(Port { service: "unknown".to_string(), number: 807, is_open: None });
    t.push(Port { service: "unknown".to_string(), number: 804, is_open: None });
    t.push(Port { service: "unknown".to_string(), number: 798, is_open: None });
    t.push(Port { service: "unknown".to_string(), number: 733, is_open: None });
    t.push(Port { service: "unknown".to_string(), number: 727, is_open: None });
    t.push(Port { service: "unknown".to_string(), number: 237, is_open: None });
    t.push(Port { service: "unknown".to_string(), number: 12, is_open: None });
    t.push(Port { service: "unknown".to_string(), number: 10, is_open: None });
    t.push(Port { service: "stmf".to_string(), number: 501, is_open: None });
    t.push(Port { service: "smakynet".to_string(), number: 122, is_open: None });
    t.push(Port { service: "sgcp".to_string(), number: 440, is_open: None });
    t.push(Port { service: "rtip".to_string(), number: 771, is_open: None });
    t.push(Port { service: "netview-aix-3".to_string(), number: 1663, is_open: None });
    t.push(Port { service: "itm-mcell-s".to_string(), number: 828, is_open: None });
    t.push(Port { service: "iscsi".to_string(), number: 860, is_open: None });
    t.push(Port { service: "ieee-mms-ssl".to_string(), number: 695, is_open: None });
    t.push(Port { service: "ginad".to_string(), number: 634, is_open: None });
    t.push(Port { service: "gdomap".to_string(), number: 538, is_open: None });
    t.push(Port { service: "ftsrv".to_string(), number: 1359, is_open: None });
    t.push(Port { service: "connlcli".to_string(), number: 1358, is_open: None });
    t.push(Port { service: "vpac".to_string(), number: 1517, is_open: None });
    t.push(Port { service: "us-gv".to_string(), number: 1370, is_open: None });
    t.push(Port { service: "udt_os".to_string(), number: 3900, is_open: None });
    t.push(Port { service: "ticf-1".to_string(), number: 492, is_open: None });
    t.push(Port { service: "td-replica".to_string(), number: 268, is_open: None });
    t
}

fn chunk_71() -> (t: Vec<Port>)
    ensures
        t@.len() == 50,
        forall|i: int| 0 <= i < t@.len() ==> entry_matches(#[trigger] t@[i], chunk_entry_71(i)),
        forall|i: int| 0 <= i < t@.len() ==> table_entry_ok(#[trigger] t@[i]),
{
    let mut t: Vec<Port> = Vec::new();
    t.push(Port { service: "subseven".to_string(), number: 27374, is_open: None });
    t.push(Port { service: "soap-beep".to_string(), number: 605, is_open: None });
    t.push(Port { service: "slnp".to_string(), number: 8076, is_open: None });
    t.push(Port { service: "shiva_confsrvr".to_string(), number: 1651, is_open: None });
    t.push(Port { service: "skkserv".to_string(), number: 1178, is_open: None });
    t.push(Port { service: "crystalenterprise".to_string(), number: 6401, is_open: None });
    t.push(Port { service: "kpasswd".to_string(), number: 761, is_open: None });
    t.push(Port { service: "rmonitor_secure".to_string(), number: 5145, is_open: None });
    t.push(Port { service: "re-mail-ck".to_string(), number: 50, is_open: None });
    t.push(Port { service: "terminaldb".to_string(), number: 2018, is_open: None });
    t.push(Port { service: "sbook".to_string(), number: 1349, is_open: None });
    t.push(Port { service: "troff".to_string(), number: 2014, is_open: None });
    t.push(Port { service: "qaz".to_string(), number: 7597, is_open: None });
    t.push(Port { service: "kauth".to_string(), number: 2120, is_open: None });
    t.push(Port { service: "proxima-lm".to_string(), number: 1445, is_open: None });
    t.push(Port { service: "prm-sm-np".to_string(), number: 1402, is_open: None });
    t.push(Port { service: "pipes".to_string(), number: 1465, is_open: None });
    t.push(Port { service: "jetdirect".to_string(), number: 9104, is_open: None });
    t.push(Port { service: "passgo-tivoli".to_string(), number: 627, is_open: None });
    t.push(Port { service: "mosmig".to_string(), number: 4660, is_open: None });
    t.push(Port { service: "openmanage".to_string(), number: 7273, is_open: None });
    t.push(Port { service: "oftep-rpc".to_string(), number: 950, is_open: None });
    t.push(Port { service: "os-licman".to_string(), number: 1384, is_open: None });
    t.push(Port { service: "objective-dbc".to_string(), number: 1388, is_open: None });
    t.push(Port { service: "krbupdate".to_string(), number: 760, is_open: None });
    t.push(Port { service: "npp".to_string(), number: 92, is_open: None });
    t.push(Port { service: "netconf-beep".to_string(), number: 831, is_open: None });
    t.push(Port { service: "ncd-diag-tcp".to_string(), number: 5978, is_open: None });
    t.push(Port { service: "fax".to_string(), number: 4557, is_open: None });
    t.push(Port { service: "mpm".to_string(), number: 45, is_open: None });
    t.push(Port { service: "mcidas".to_string(), number: 112, is_open: None });
    t.push(Port { service: "macon".to_string(), number: 456, is_open: None });
    t.push(Port { service: "fasttrack".to_string(), number: 1214, is_open: None });
    t.push(Port { service: "sj3".to_string(), number: 3086, is_open: None });
    t.push(Port { service: "iris-beep".to_string(), number: 702, is_open: None });
    t.push(Port { service: "irc".to_string(), number: 6665, is_open: None });
    t.push(Port { service: "igi-lm".to_string(), number: 1404, is_open: None });
    t.push(Port { service: "ieee-mms".to_string(), number: 651, is_open: None });
    t.push(Port { service: "hacl-hb".to_string(), number: 5300, is_open: None });
    t.push(Port { service: "gnutella2".to_string(), number: 6347, is_open: None });
    t.push(Port { service: "pcduo-old".to_string(), number: 5400, is_open: None });
    t.push(Port { service: "iclpv-dm".to_string(), number: 1389, is_open: None });
    t.push(Port { service: "dhcp-failover".to_string(), number: 647, is_open: None });
    t.push(Port { service: "ddm-ssl".to_string(), number: 448, is_open: None });
    t.push(Port { service: "cuillamartin".to_string(), number: 1356, is_open: None });
    t.push(Port { service: "sgi-dgl".to_string(), number: 5232, is_open: None });
    t.push(Port { service: "confluent".to_string(), number: 1484, is_open: None });
    t.push(Port { service: "tserver".to_string(), number: 450, is_open: None });
    t.push(Port { service: "stun-p2".to_string(), number: 1991, is_open: None });
    t.push(Port { service: "tr-rsrb-p2".to_string(), number: 1988, is_open: None });
    t
}

fn chunk_72() -> (t: Vec<Port>)
    ensures
        t@.len() == 50,
        forall|i: int| 0 <= i < t@.len() ==> entry_matches(#[trigger] t@[i], chunk_entry_72(i)),
        forall|i: int| 0 <= i < t@.len() ==> table_entry_ok(#[trigger] t@[i]),
{
    let mut t: Vec<Port> = Vec::new();
    t.push(Port { service: "cichild-lm".to_string(), number: 1523, is_open: None });
    t.push(Port { service: "cadkey-tablet".to_string(), number: 1400, is_open: None });
    t.push(Port { service: "cadkey-licman".to_string(), number: 1399, is_open: None });
    t.push(Port { service: "fln-spx".to_string(), number: 221, is_open: None });
    t.push(Port { service: "atex_elmd".to_string(), number: 1385, is_open: None });
    t.push(Port { service: "aol-1".to_string(), number: 5191, is_open: None });
    t.push(Port { service: "alta-ana-lm".to_string(), number: 1346, is_open: None });
    t.push(Port { service: "xinuexpansion4".to_string(), number: 2024, is_open: None });
    t.push(Port { service: "venus".to_string(), number: 2430, is_open: None });
    t.push(Port { service: "unknown".to_string(), number: 988, is_open: None });
    t.push(Port { service: "unknown".to_string(), number: 962, is_open: None });
    t.push(Port { service: "unknown".to_string(), number: 948, is_open: None });
    t.push(Port { service: "unknown".to_string(), number: 945, is_open: None });
    t.push(Port { service: "unknown".to_string(), number: 941, is_open: None });
    t.push(Port { service: "unknown".to_string(), number: 938, is_open: None });
    t.push(Port { service: "unknown".to_string(), number: 936, is_open: None });
    t.push(Port { service: "unknown".to_string(), number: 929, is_open: None });
    t.push(Port { service: "unknown".to_string(), number: 927, is_open: None });
    t.push(Port { service: "unknown".to_string(), number: 919, is_open: None });
    t.push(Port { service: "unknown".to_string(), number: 906, is_open: None });
    t.push(Port { service: "unknown".to_string(), number: 883, is_open: None });
    t.push(Port { service: "unknown".to_string(), number: 881, is_open: None });
    t.push(Port { service: "unknown".to_string(), number: 875, is_open: None });
    t.push(Port { service: "unknown".to_string(), number: 872, is_open: None });
    t.push(Port { service: "unknown".to_string(), number: 870, is_open: None });
    t.push(Port { service: "unknown".to_string(), number: 866, is_open: None });
    t.push(Port { service: "unknown".to_string(), number: 855, is_open: None });
    t.push(Port { service: "unknown".to_string(), number: 851, is_open: None });
    t.push(Port { service: "unknown".to_string(), number: 850, is_open: None });
    t.push(Port { service: "unknown".to_string(), number: 841, is_open: None });
    t.push(Port { service: "unknown".to_string(), number: 836, is_open: None });
    t.push(Port { service: "unknown".to_string(), number: 826, is_open: None });
    t.push(Port { service: "unknown".to_string(), number: 820, is_open: None });
    t.push(Port { service: "unknown".to_string(), number: 819, is_open: None });
    t.push(Port { service: "unknown".to_string(), number: 816, is_open: None });
    t.push(Port { service: "unknown".to_string(), number: 813, is_open: None });
    t.push(Port { service: "unknown".to_string(), number: 791, is_open: None });
    t.push(Port { service: "unknown".to_string(), number: 745, is_open: None });
    t.push(Port { service: "unknown".to_string(), number: 736, is_open: None });
    t.push(Port { service: "unknown".to_string(), number: 735, is_open: None });
    t.push(Port { service: "unknown".to_string(), number: 724, is_open: None });
    t.push(Port { service: "unknown".to_string(), number: 719, is_open: None });
    t.push(Port { service: "unknown".to_string(), number: 343, is_open: None });
    t.push(Port { service: "unknown".to_string(), number: 334, is_open: None });
    t.push(Port { service: "unknown".to_string(), number: 300, is_open: None });
    t.push(Port { service: "unknown".to_string(), number: 28, is_open: None });
    t.push(Port { service: "unknown".to_string(), number: 249, is_open: None });
    t.push(Port { service: "unknown".to_string(), number: 230, is_open: None });
    t.push(Port { service: "unknown".to_string(), number: 16, is_open: None });
    t.push(Port { service: "unknown".to_string(), number: 1018, is_open: None });
    t
}

fn chunk_73() -> (t: Vec<Port>)
    ensures
        t@.len() == 50,
        forall|i: int| 0 <= i < t@.len() ==> entry_matches(#[trigger] t@[i], chunk_entry_73(i)),
        forall|i: int| 0 <= i < t@.len() ==> table_entry_ok(#[trigger] t@[i]),
{
    let mut t: Vec<Port> = Vec::new();
    t.push(Port { service: "unknown".to_string(), number: 1016, is_open: None });
    t.push(Port { service: "tenfold".to_string(), number: 658, is_open: None });
    t.push(Port { service: "telefinder".to_string(), number: 1474, is_open: None });
    t.push(Port { service: "rushd".to_string(), number: 696, is_open: None });
    t.push(Port { service: "rda".to_string(), number: 630, is_open: None });
    t.push(Port { service: "purenoise".to_string(), number: 663, is_open: None });
    t.push(Port { service: "pehelp".to_string(), number: 2307, is_open: None });
    t.push(Port { service: "pciarray".to_string(), number: 1552, is_open: None });
    t.push(Port { service: "npmp-trap".to_string(), number: 609, is_open: None });
    t.push(Port { service: "netgw".to_string(), number: 741, is_open: None });
    t.push(Port { service: "ndsauth".to_string(), number: 353, is_open: None });
    t.push(Port { service: "mcns-sec".to_string(), number: 638, is_open: None });
    t.push(Port { service: "hecmtl-db".to_string(), number: 1551, is_open: None });
    t.push(Port { service: "hap".to_string(), number: 661, is_open: None });
    t.push(Port { service: "go-login".to_string(), number: 491, is_open: None });
    t.push(Port { service: "entrust-sps".to_string(), number: 640, is_open: None });
    t.push(Port { service: "crs".to_string(), number: 507, is_open: None });
    t.push(Port { service: "cimplex".to_string(), number: 673, is_open: None });
    t.push(Port { service: "bmpp".to_string(), number: 632, is_open: None });
    t.push(Port { service: "rightbrain".to_string(), number: 1354, is_open: None });
    t.push(Port { service: "jetdirect".to_string(), number: 9105, is_open: None });
    t.push(Port { service: "watershed-lm".to_string(), number: 6143, is_open: None });
    t.push(Port { service: "vpps-via".to_string(), number: 676, is_open: None });
    t.push(Port { service: "vmpwscs".to_string(), number: 214, is_open: None });
    t.push(Port { service: "bo2k".to_string(), number: 14141, is_open: None });
    t.push(Port { service: "audit".to_string(), number: 182, is_open: None });
    t.push(Port { service: "tftp".to_string(), number: 69, is_open: None });
    t.push(Port { service: "Trinoo_Master".to_string(), number: 27665, is_open: None });
    t.push(Port { service: "taligent-lm".to_string(), number: 1475, is_open: None });
    t.push(Port { service: "swift-rvf".to_string(), number: 97, is_open: None });
    t.push(Port { service: "servstat".to_string(), number: 633, is_open: None });
    t.push(Port { service: "rmonitor".to_string(), number: 560, is_open: None });
    t.push(Port { service: "controlit".to_string(), number: 799, is_open: None });
    t.push(Port { service: "afs3-rmtsys".to_string(), number: 7009, is_open: None });
    t.push(Port { service: "cypress".to_string(), number: 2015, is_open: None });
    t.push(Port { service: "qmqp".to_string(), number: 628, is_open: None });
    t.push(Port { service: "kerberos_master".to_string(), number: 751, is_open: None });
    t.push(Port { service: "proxy-plus".to_string(), number: 4480, is_open: None });
    t.push(Port { service: "prm-nm-np".to_string(), number: 1403, is_open: None });
    t.push(Port { service: "polipo".to_string(), number: 8123, is_open: None });
    t.push(Port { service: "tlisrv".to_string(), number: 1527, is_open: None });
    t.push(Port { service: "omfs".to_string(), number: 723, is_open: None });
    t.push(Port { service: "oceansoft-lm".to_string(), number: 1466, is_open: None });
    t.push(Port { service: "nms_topo_serv".to_string(), number: 1486, is_open: None });
    t.push(Port { service: "nkd".to_string(), number: 1650, is_open: None });
    t.push(Port { service: "nas".to_string(), number: 991, is_open: None });
    t.push(Port { service: "netconfsoaphttp".to_string(), number: 832, is_open: None });
    t.push(Port { service: "netbios-ns".to_string(), number: 137, is_open: None });
    t.push(Port { service: "bbn-mmx".to_string(), number: 1348, is_open: None });
    t.push(Port { service: "mdc-portmapper".to_string(), number: 685, is_open: None });
    t
}

fn chunk_74() -> (t: Vec<Port>)
    ensures
        t@.len() == 50,
        forall|i: int| 0 <= i < t@.len() ==> entry_matches(#[trigger] t@[i], chunk_entry_74(i)),
        forall|i: int| 0 <= i < t@.len() ==> table_entry_ok(#[trigger] t@[i]),
{
    let mut t: Vec<Port> = Vec::new();
    t.push(Port { service: "landesk-rc".to_string(), number: 1762, is_open: None });
    t.push(Port { service: "carracho".to_string(), number: 6701, is_open: None });
    t.push(Port { service: "ircs".to_string(), number: 994, is_open: None });
    t.push(Port { service: "sae-urn".to_string(), number: 4500, is_open: None });
    t.push(Port { service: "irc".to_string(), number: 194, is_open: None });
    t.push(Port { service: "ris".to_string(), number: 180, is_open: None });
    t.push(Port { service: "intellistor-lm".to_string(), number: 1539, is_open: None });
    t.push(Port { service: "dbreporter".to_string(), number: 1379, is_open: None });
    t.push(Port { service: "la-maint".to_string(), number: 51, is_open: None });
    t.push(Port { service: "iclcnet-locate".to_string(), number: 886, is_open: None });
    t.push(Port { service: "dnet-keyproxy".to_string(), number: 2064, is_open: None });
    t.push(Port { service: "ibm-res".to_string(), number: 1405, is_open: None });
    t.push(Port { service: "ibm-cics".to_string(), number: 1435, is_open: None });
    t.push(Port { service: "pksd".to_string(), number: 11371, is_open: None });
    t.push(Port { service: "goldleaf-licman".to_string(), number: 1401, is_open: None });
    t.push(Port { service: "gv-us".to_string(), number: 1369, is_open: None });
    t.push(Port { service: "genie".to_string(), number: 402, is_open: None });
    t.push(Port { service: "gppitnp".to_string(), number: 103, is_open: None });
    t.push(Port { service: "fc-ser".to_string(), number: 1372, is_open: None });
    t.push(Port { service: "elcsd".to_string(), number: 704, is_open: None });
    t.push(Port { service: "dlep".to_string(), number: 854, is_open: None });
    t.push(Port { service: "seosload".to_string(), number: 8892, is_open: None });
    t.push(Port { service: "dbbrowse".to_string(), number: 47557, is_open: None });
    t.push(Port { service: "cryptoadmin".to_string(), number: 624, is_open: None });
    t.push(Port { service: "cadsi-lm".to_string(), number: 1387, is_open: None });
    t.push(Port { service: "saposs".to_string(), number: 3397, is_open: None });
    t.push(Port { service: "tr-rsrb-port".to_string(), number: 1996, is_open: None });
    t.push(Port { service: "perf-port".to_string(), number: 1995, is_open: None });
    t.push(Port { service: "gdp-port".to_string(), number: 1997, is_open: None });
    t.push(Port { service: "opsec-ufp".to_string(), number: 18182, is_open: None });
    t.push(Port { service: "opsec-lea".to_string(), number: 18184, is_open: None });
    t.push(Port { service: "ccmail".to_string(), number: 3264, is_open: None });
    t.push(Port { service: "meetingmaker".to_string(), number: 3292, is_open: None });
    t.push(Port { service: "netbackup".to_string(), number: 13720, is_open: None });
    t.push(Port { service: "jetdirect".to_string(), number: 9107, is_open: None });
    t.push(Port { service: "jetdirect".to_string(), number: 9106, is_open: None });
    t.push(Port { service: "at-rtmp".to_string(), number: 201, is_open: None });
    t.push(Port { service: "apple-licman".to_string(), number: 1381, is_open: None });
    t.push(Port { service: "priv-print".to_string(), number: 35, is_open: None });
    t.push(Port { service: "analogx".to_string(), number: 6588, is_open: None });
    t.push(Port { service: "sdserv".to_string(), number: 5530, is_open: None });
    t.push(Port { service: "vmodem".to_string(), number: 3141, is_open: None });
    t.push(Port { service: "vacdsm-sws".to_string(), number: 670, is_open: None });
    t.push(Port { service: "unknown".to_string(), number: 970, is_open: None });
    t.push(Port { service: "unknown".to_string(), number: 968, is_open: None });
    t.push(Port { service: "unknown".to_string(), number: 964, is_open: None });
    t.push(Port { service: "unknown".to_string(), number: 963, is_open: None });
    t.push(Port { service: "unknown".to_string(), number: 960, is_open: None });
    t.push(Port { service: "unknown".to_string(), number: 959, is_open: None });
    t.push(Port { service: "unknown".to_string(), number: 951, is_open: None });
    t
}

fn chunk_75() -> (t: Vec<Port>)
    ensures
        t@.len() == 50,
        forall|i: int| 0 <= i < t@.len() ==> entry_matches(#[trigger] t@[i], chunk_entry_75(i)),
        forall|i: int| 0 <= i < t@.len() ==> table_entry_ok(#[trigger] t@[i]),
{
    let mut t: Vec<Port> = Vec::new();
    t.push(Port { service: "unknown".to_string(), number: 947, is_open: None });
    t.push(Port { service: "unknown".to_string(), number: 944, is_open: None });
    t.push(Port { service: "unknown".to_string(), number: 939, is_open: None });
    t.push(Port { service: "unknown".to_string(), number: 933, is_open: None });
    t.push(Port { service: "unknown".to_string(), number: 909, is_open: None });
    t.push(Port { service: "unknown".to_string(), number: 895, is_open: None });
    t.push(Port { service: "unknown".to_string(), number: 891, is_open: None });
    t.push(Port { service: "unknown".to_string(), number: 879, is_open: None });
    t.push(Port { service: "unknown".to_string(), number: 869, is_open: None });
    t.push(Port { service: "unknown".to_string(), number: 868, is_open: None });
    t.push(Port { service: "unknown".to_string(), number: 867, is_open: None });
    t.push(Port { service: "unknown".to_string(), number: 837, is_open: None });
    t.push(Port { service: "unknown".to_string(), number: 821, is_open: None });
    t.push(Port { service: "unknown".to_string(), number: 812, is_open: None });
    t.push(Port { service: "unknown".to_string(), number: 797, is_open: None });
    t.push(Port { service: "unknown".to_string(), number: 796, is_open: None });
    t.push(Port { service: "unknown".to_string(), number: 794, is_open: None });
    t.push(Port { service: "unknown".to_string(), number: 788, is_open: None });
    t.push(Port { service: "unknown".to_string(), number: 756, is_open: None });
    t.push(Port { service: "unknown".to_string(), number: 734, is_open: None });
    t.push(Port { service: "unknown".to_string(), number: 721, is_open: None });
    t.push(Port { service: "unknown".to_string(), number: 718, is_open: None });
    t.push(Port { service: "unknown".to_string(), number: 708, is_open: None });
    t.push(Port { service: "unknown".to_string(), number: 703, is_open: None });
    t.push(Port { service: "unknown".to_string(), number: 60, is_open: None });
    t.push(Port { service: "unknown".to_string(), number: 40, is_open: None });
    t.push(Port { service: "unknown".to_string(), number: 253, is_open: None });
    t.push(Port { service: "unknown".to_string(), number: 231, is_open: None });
    t.push(Port { service: "unknown".to_string(), number: 14, is_open: None });
    t.push(Port { service: "unknown".to_string(), number: 1017, is_open: None });
    t.push(Port { service: "unknown".to_string(), number: 1003, is_open: None });
    t.push(Port { service: "spmp".to_string(), number: 656, is_open: None });
    t.push(Port { service: "securenetpro-sensor".to_string(), number: 975, is_open: None });
    t.push(Port { service: "scrabble".to_string(), number: 2026, is_open: None });
    t.push(Port { service: "rfx-lm".to_string(), number: 1497, is_open: None });
    t.push(Port { service: "pirp".to_string(), number: 553, is_open: None });
    t.push(Port { service: "passgo".to_string(), number: 511, is_open: None });
    t.push(Port { service: "npmp-gui".to_string(), number: 611, is_open: None });
    t.push(Port { service: "nmap".to_string(), number: 689, is_open: None });
    t.push(Port { service: "netview-aix-8".to_string(), number: 1668, is_open: None });
    t.push(Port { service: "netview-aix-4".to_string(), number: 1664, is_open: None });
    t.push(Port { service: "netstat".to_string(), number: 15, is_open: None });
    t.push(Port { service: "monitor".to_string(), number: 561, is_open: None });
    t.push(Port { service: "maitrd".to_string(), number: 997, is_open: None });
    t.push(Port { service: "mailbox-lm".to_string(), number: 505, is_open: None });
    t.push(Port { service: "liberty-lm".to_string(), number: 1496, is_open: None });
    t.push(Port { service: "lanserver".to_string(), number: 637, is_open: None });
    t.push(Port { service: "ipx".to_string(), number: 213, is_open: None });
    t.push(Port { service: "innosys".to_string(), number: 1412, is_open: None });
    t.push(Port { service: "ifor-protocol".to_string(), number: 1515, is_open: None });
    t
}

fn chunk_76() -> (t: Vec<Port>)
    ensures
        t@.len() == 50,
        forall|i: int| 0 <= i < t@.len() ==> entry_matches(#[trigger] t@[i], chunk_entry_76(i)),
        forall|i: int| 0 <= i < t@.len() ==> table_entry_ok(#[trigger] t@[i]),
{
    let mut t: Vec<Port> = Vec::new();
    t.push(Port { service: "hyperwave-isp".to_string(), number: 692, is_open: None });
    t.push(Port { service: "ha-cluster".to_string(), number: 694, is_open: None });
    t.push(Port { service: "entrust-aams".to_string(), number: 681, is_open: None });
    t.push(Port { service: "entrust-aaas".to_string(), number: 680, is_open: None });
    t.push(Port { service: "dwr".to_string(), number: 644, is_open: None });
    t.push(Port { service: "dctp".to_string(), number: 675, is_open: None });
    t.push(Port { service: "csdmbase".to_string(), number: 1467, is_open: None });
    t.push(Port { service: "contentserver".to_string(), number: 454, is_open: None });
    t.push(Port { service: "collaborator".to_string(), number: 622, is_open: None });
    t.push(Port { service: "clvm-cfg".to_string(), number: 1476, is_open: None });
    t.push(Port { service: "chromagrafx".to_string(), number: 1373, is_open: None });
    t.push(Port { service: "cadlock".to_string(), number: 770, is_open: None });
    t.push(Port { service: "arcisdms".to_string(), number: 262, is_open: None });
    t.push(Port { service: "aodv".to_string(), number: 654, is_open: None });
    t.push(Port { service: "ampr-info".to_string(), number: 1535, is_open: None });
    t.push(Port { service: "xns-mail".to_string(), number: 58, is_open: None });
    t.push(Port { service: "xdmcp".to_string(), number: 177, is_open: None });
    t.push(Port { service: "wnn6_DS".to_string(), number: 26208, is_open: None });
    t.push(Port { service: "vpp".to_string(), number: 677, is_open: None });
    t.push(Port { service: "vpvc".to_string(), number: 1519, is_open: None });
    t.push(Port { service: "video-activmail".to_string(), number: 1398, is_open: None });
    t.push(Port { service: "vat-control".to_string(), number: 3457, is_open: None });
    t.push(Port { service: "ups".to_string(), number: 401, is_open: None });
    t.push(Port { service: "synoptics-trap".to_string(), number: 412, is_open: None });
    t.push(Port { service: "ticf-2".to_string(), number: 493, is_open: None });
    t.push(Port { service: "netbackup".to_string(), number: 13713, is_open: None });
    t.push(Port { service: "objcall".to_string(), number: 94, is_open: None });
    t.push(Port { service: "watcom-sql".to_string(), number: 1498, is_open: None });
    t.push(Port { service: "supfilesrv".to_string(), number: 871, is_open: None });
    t.push(Port { service: "iclpv-sc".to_string(), number: 1390, is_open: None });
    t.push(Port { service: "statsci2-lm".to_string(), number: 6145, is_open: None });
    t.push(Port { service: "statsrv".to_string(), number: 133, is_open: None });
    t.push(Port { service: "srssend".to_string(), number: 362, is_open: None });
    t.push(Port { service: "sqlserv".to_string(), number: 118, is_open: None });
    t.push(Port { service: "srmp".to_string(), number: 193, is_open: None });
    t.push(Port { service: "sftp".to_string(), number: 115, is_open: None });
    t.push(Port { service: "shivahose".to_string(), number: 1549, is_open: None });
    t.push(Port { service: "afs3-update".to_string(), number: 7008, is_open: None });
    t.push(Port { service: "sift-uft".to_string(), number: 608, is_open: None });
    t.push(Port { service: "sas-2".to_string(), number: 1436, is_open: None });
    t.push(Port { service: "sas-1".to_string(), number: 1426, is_open: None });
    t.push(Port { service: "rap".to_string(), number: 38, is_open: None });
    t.push(Port { service: "netrjs-4".to_string(), number: 74, is_open: None });
    t.push(Port { service: "netrjs-3".to_string(), number: 73, is_open: None });
    t.push(Port { service: "netrjs-1".to_string(), number: 71, is_open: None });
    t.push(Port { service: "syslog-conn".to_string(), number: 601, is_open: None });
    t.push(Port { service: "profile".to_string(), number: 136, is_open: None });
    t.push(Port { service: "wincim".to_string(), number: 4144, is_open: None });
    t.push(Port { service: "pwdgen".to_string(), number: 129, is_open: None });
    t.push(Port { service: "overnet".to_string(), number: 16444, is_open: None });
    t
}

fn chunk_77() -> (t: Vec<Port>)
    ensures
        t@.len() == 50,
        forall|i: int| 0 <= i < t@.len() ==> entry_matches(#[trigger] t@[i], chunk_entry_77(i)),
        forall|i: int| 0 <= i < t@.len() ==> table_entry_ok(#[trigger] t@[i]),
{
    let mut t: Vec<Port> = Vec::new();
    t.push(Port { service: "ora-lm".to_string(), number: 1446, is_open: None });
    t.push(Port { service: "nuts_dem".to_string(), number: 4132, is_open: None });
    t.push(Port { service: "novastorbakcup".to_string(), number: 308, is_open: None });
    t.push(Port { service: "mciautoreg".to_string(), number: 1528, is_open: None });
    t.push(Port { service: "adapt-sna".to_string(), number: 1365, is_open: None });
    t.push(Port { service: "iclpv-nls".to_string(), number: 1393, is_open: None });
    t.push(Port { service: "iclpv-nlc".to_string(), number: 1394, is_open: None });
    t.push(Port { service: "netmap_lm".to_string(), number: 1493, is_open: None });
    t.push(Port { service: "netbios-dgm".to_string(), number: 138, is_open: None });
    t.push(Port { service: "ncd-pref".to_string(), number: 5997, is_open: None });
    t.push(Port { service: "mptn".to_string(), number: 397, is_open: None });
    t.push(Port { service: "msg-icp".to_string(), number: 29, is_open: None });
    t.push(Port { service: "msg-auth".to_string(), number: 31, is_open: None });
    t.push(Port { service: "mpm-flags".to_string(), number: 44, is_open: None });
    t.push(Port { service: "webster".to_string(), number: 2627, is_open: None });
    t.push(Port { service: "montage-lm".to_string(), number: 6147, is_open: None });
    t.push(Port { service: "mvx-lm".to_string(), number: 1510, is_open: None });
    t.push(Port { service: "ms-shuttle".to_string(), number: 568, is_open: None });
    t.push(Port { service: "matip-type-a".to_string(), number: 350, is_open: None });
    t.push(Port { service: "knetd".to_string(), number: 2053, is_open: None });
    t.push(Port { service: "lonewolf-lm".to_string(), number: 6146, is_open: None });
    t.push(Port { service: "mythtv".to_string(), number: 6544, is_open: None });
    t.push(Port { service: "landesk-rc".to_string(), number: 1763, is_open: None });
    t.push(Port { service: "peerenabler".to_string(), number: 3531, is_open: None });
    t.push(Port { service: "iso-tsap-c2".to_string(), number: 399, is_open: None });
    t.push(Port { service: "sdsc-lm".to_string(), number: 1537, is_open: None });
    t.push(Port { service: "stun-p3".to_string(), number: 1992, is_open: None });
    t.push(Port { service: "intuitive-edge".to_string(), number: 1355, is_open: None });
    t.push(Port { service: "interhdl_elmd".to_string(), number: 1454, is_open: None });
    t.push(Port { service: "nsiiops".to_string(), number: 261, is_open: None });
    t.push(Port { service: "iclcnet_svinfo".to_string(), number: 887, is_open: None });
    t.push(Port { service: "src".to_string(), number: 200, is_open: None });
    t.push(Port { service: "ibm-pps".to_string(), number: 1376, is_open: None });
    t.push(Port { service: "hybrid".to_string(), number: 1424, is_open: None });
    t.push(Port { service: "spc".to_string(), number: 6111, is_open: None });
    t.push(Port { service: "hiq".to_string(), number: 1410, is_open: None });
    t.push(Port { service: "here-lm".to_string(), number: 1409, is_open: None });
    t.push(Port { service: "hcp-wismar".to_string(), number: 686, is_open: None });
    t.push(Port { service: "hacl-gs".to_string(), number: 5301, is_open: None });
    t.push(Port { service: "hacl-cfg".to_string(), number: 5302, is_open: None });
    t.push(Port { service: "fujitsu-dtc".to_string(), number: 1513, is_open: None });
    t.push(Port { service: "fujitsu-dev".to_string(), number: 747, is_open: None });
    t.push(Port { service: "tor-control".to_string(), number: 9051, is_open: None });
    t.push(Port { service: "fhc".to_string(), number: 1499, is_open: None });
    t.push(Port { service: "afs3-errors".to_string(), number: 7006, is_open: None });
    t.push(Port { service: "eicon-x25".to_string(), number: 1439, is_open: None });
    t.push(Port { service: "eicon-server".to_string(), number: 1438, is_open: None });
    t.push(Port { service: "apple-iphoto".to_string(), number: 8770, is_open: None });
    t.push(Port { service: "dn6-smm-red".to_string(), number: 196, is_open: None });
    t.push(Port { service: "domain-s".to_string(), number: 853, is_open: None });
    t
}

fn chunk_78() -> (t: Vec<Port>)
    ensures
        t@.len() == 50,
        forall|i: int| 0 <= i < t@.len() ==> entry_matches(#[trigger] t@[i], chunk_entry_78(i)),
        forall|i: int| 0 <= i < t@.len() ==> table_entry_ok(#[trigger] t@[i]),
{
    let mut t: Vec<Port> = Vec::new();
    t.push(Port { service: "dcp".to_string(), number: 93, is_open: None });
    t.push(Port { service: "decladebug".to_string(), number: 410, is_open: None });
    t.push(Port { service: "datasurfsrvsec".to_string(), number: 462, is_open: None });
    t.push(Port { service: "compaq-evm".to_string(), number: 619, is_open: None });
    t.push(Port { service: "support".to_string(), number: 1529, is_open: None });
    t.push(Port { service: "stun-p1".to_string(), number: 1990, is_open: None });
    t.push(Port { service: "stun-port".to_string(), number: 1994, is_open: None });
    t.push(Port { service: "licensedaemon".to_string(), number: 1986, is_open: None });
    t.push(Port { service: "checksum".to_string(), number: 1386, is_open: None });
    t.push(Port { service: "opsec-sam".to_string(), number: 18183, is_open: None });
    t.push(Port { service: "opsec-cvp".to_string(), number: 18181, is_open: None });
    t.push(Port { service: "carracho".to_string(), number: 6700, is_open: None });
    t.push(Port { service: "cadis-2".to_string(), number: 1442, is_open: None });
    t.push(Port { service: "supdup".to_string(), number: 95, is_open: None });
    t.push(Port { service: "crystalreports".to_string(), number: 6400, is_open: None });
    t.push(Port { service: "blueberry-lm".to_string(), number: 1432, is_open: None });
    t.push(Port { service: "axon-lm".to_string(), number: 1548, is_open: None });
    t.push(Port { service: "sstats".to_string(), number: 486, is_open: None });
    t.push(Port { service: "autodesk-lm".to_string(), number: 1422, is_open: None });
    t.push(Port { service: "audionews".to_string(), number: 114, is_open: None });
    t.push(Port { service: "audio-activmail".to_string(), number: 1397, is_open: None });
    t.push(Port { service: "aspentec-lm".to_string(), number: 6142, is_open: None });
    t.push(Port { service: "apple-imap-admin".to_string(), number: 626, is_open: None });
    t.push(Port { service: "pcm".to_string(), number: 1827, is_open: None });
    t.push(Port { service: "ariel3".to_string(), number: 422, is_open: None });
    t.push(Port { service: "realm-rusd".to_string(), number: 688, is_open: None });
    t.push(Port { service: "at-zis".to_string(), number: 206, is_open: None });
    t.push(Port { service: "at-nbp".to_string(), number: 202, is_open: None });
    t.push(Port { service: "at-echo".to_string(), number: 204, is_open: None });
    t.push(Port { service: "afs".to_string(), number: 1483, is_open: None });
    t.push(Port { service: "rpasswd".to_string(), number: 774, is_open: None });
    t.push(Port { service: "accessnetwork".to_string(), number: 699, is_open: None });
    t.push(Port { service: "hddtemp".to_string(), number: 7634, is_open: None });
    t.push(Port { service: "xinuexpansion3".to_string(), number: 2023, is_open: None });
    t.push(Port { service: "wpages".to_string(), number: 776, is_open: None });
    t.push(Port { service: "vpps-qua".to_string(), number: 672, is_open: None });
    t.push(Port { service: "vistium-share".to_string(), number: 1545, is_open: None });
    t.push(Port { service: "venus-se".to_string(), number: 2431, is_open: None });
    t.push(Port { service: "uuidgen".to_string(), number: 697, is_open: None });
    t.push(Port { service: "unknown".to_string(), number: 982, is_open: None });
    t.push(Port { service: "unknown".to_string(), number: 978, is_open: None });
    t.push(Port { service: "unknown".to_string(), number: 972, is_open: None });
    t.push(Port { service: "unknown".to_string(), number: 966, is_open: None });
    t.push(Port { service: "unknown".to_string(), number: 957, is_open: None });
    t.push(Port { service: "unknown".to_string(), number: 956, is_open: None });
    t.push(Port { service: "unknown".to_string(), number: 934, is_open: None });
    t.push(Port { service: "unknown".to_string(), number: 920, is_open: None });
    t.push(Port { service: "unknown".to_string(), number: 915, is_open: None });
    t.push(Port { service: "unknown".to_string(), number: 908, is_open: None });
    t.push(Port { service: "unknown".to_string(), number: 907, is_open: None });
    t
}

fn chunk_79() -> (t: Vec<Port>)
    ensures
        t@.len() == 50,
        forall|i: int| 0 <= i < t@.len() ==> entry_matches(#[trigger] t@[i], chunk_entry_79(i)),
        forall|i: int| 0 <= i < t@.len() ==> table_entry_ok(#[trigger] t@[i]),
{
    let mut t: Vec<Port> = Vec::new();
    t.push(Port { service: "unknown".to_string(), number: 892, is_open: None });
    t.push(Port { service: "unknown".to_string(), number: 890, is_open: None });
    t.push(Port { service: "unknown".to_string(), number: 885, is_open: None });
    t.push(Port { service: "unknown".to_string(), number: 884, is_open: None });
    t.push(Port { service: "unknown".to_string(), number: 882, is_open: None });
    t.push(Port { service: "unknown".to_string(), number: 877, is_open: None });
    t.push(Port { service: "unknown".to_string(), number: 876, is_open: None });
    t.push(Port { service: "unknown".to_string(), number: 865, is_open: None });
    t.push(Port { service: "unknown".to_string(), number: 857, is_open: None });
    t.push(Port { service: "unknown".to_string(), number: 852, is_open: None });
    t.push(Port { service: "unknown".to_string(), number: 849, is_open: None });
    t.push(Port { service: "unknown".to_string(), number: 842, is_open: None });
    t.push(Port { service: "unknown".to_string(), number: 838, is_open: None });
    t.push(Port { service: "unknown".to_string(), number: 827, is_open: None });
    t.push(Port { service: "unknown".to_string(), number: 818, is_open: None });
    t.push(Port { service: "unknown".to_string(), number: 793, is_open: None });
    t.push(Port { service: "unknown".to_string(), number: 785, is_open: None });
    t.push(Port { service: "unknown".to_string(), number: 784, is_open: None });
    t.push(Port { service: "unknown".to_string(), number: 755, is_open: None });
    t.push(Port { service: "unknown".to_string(), number: 746, is_open: None });
    t.push(Port { service: "unknown".to_string(), number: 738, is_open: None });
    t.push(Port { service: "unknown".to_string(), number: 737, is_open: None });
    t.push(Port { service: "unknown".to_string(), number: 717, is_open: None });
    t.push(Port { service: "unknown".to_string(), number: 34, is_open: None });
    t.push(Port { service: "unknown".to_string(), number: 336, is_open: None });
    t.push(Port { service: "unknown".to_string(), number: 325, is_open: None });
    t.push(Port { service: "unknown".to_string(), number: 303, is_open: None });
    t.push(Port { service: "unknown".to_string(), number: 276, is_open: None });
    t.push(Port { service: "unknown".to_string(), number: 273, is_open: None });
    t.push(Port { service: "unknown".to_string(), number: 236, is_open: None });
    t.push(Port { service: "unknown".to_string(), number: 235, is_open: None });
    t.push(Port { service: "unknown".to_string(), number: 233, is_open: None });
    t.push(Port { service: "unify".to_string(), number: 181, is_open: None });
    t.push(Port { service: "tunnel".to_string(), number: 604, is_open: None });
    t.push(Port { service: "timeflies".to_string(), number: 1362, is_open: None });
    t.push(Port { service: "tbrpf".to_string(), number: 712, is_open: None });
    t.push(Port { service: "tabula".to_string(), number: 1437, is_open: None });
    t.push(Port { service: "shadowserver".to_string(), number: 2027, is_open: None });
    t.push(Port { service: "screencast".to_string(), number: 1368, is_open: None });
    t.push(Port { service: "rap-listen".to_string(), number: 1531, is_open: None });
    t.push(Port { service: "pssc".to_string(), number: 645, is_open: None });
    t.push(Port { service: "pcanywhere".to_string(), number: 65301, is_open: None });
    t.push(Port { service: "openport".to_string(), number: 260, is_open: None });
    t.push(Port { service: "opalis-rdv".to_string(), number: 536, is_open: None });
    t.push(Port { service: "omserv".to_string(), number: 764, is_open: None });
    t.push(Port { service: "olsr".to_string(), number: 698, is_open: None });
    t.push(Port { service: "nqs".to_string(), number: 607, is_open: None });
    t.push(Port { service: "netview-aix-7".to_string(), number: 1667, is_open: None });
    t.push(Port { service: "netview-aix-2".to_string(), number: 1662, is_open: None });
    t.push(Port { service: "netview-aix-1".to_string(), number: 1661, is_open: None });
    t
}

fn chunk_80() -> (t: Vec<Port>)
    ensures
        t@.len() == 50,
        forall|i: int| 0 <= i < t@.len() ==> entry_matches(#[trigger] t@[i], chunk_entry_80(i)),
        forall|i: int| 0 <= i < t@.len() ==> table_entry_ok(#[trigger] t@[i]),
{
    let mut t: Vec<Port> = Vec::new();
    t.push(Port { service: "nced".to_string(), number: 404, is_open: None });
    t.push(Port { service: "masqdialer".to_string(), number: 224, is_open: None });
    t.push(Port { service: "hyper-g".to_string(), number: 418, is_open: None });
    t.push(Port { service: "genrad-mux".to_string(), number: 176, is_open: None });
    t.push(Port { service: "gdoi".to_string(), number: 848, is_open: None });
    t.push(Port { service: "dpsi".to_string(), number: 315, is_open: None });
    t.push(Port { service: "digital-vrc".to_string(), number: 466, is_open: None });
    t.push(Port { service: "decap".to_string(), number: 403, is_open: None });
    t.push(Port { service: "dca".to_string(), number: 1456, is_open: None });
    t.push(Port { service: "dberegister".to_string(), number: 1479, is_open: None });
    t.push(Port { service: "datex-asn".to_string(), number: 355, is_open: None });
    t.push(Port { service: "cycleserv".to_string(), number: 763, is_open: None });
    t.push(Port { service: "csdm".to_string(), number: 1472, is_open: None });
    t.push(Port { service: "creativeserver".to_string(), number: 453, is_open: None });
    t.push(Port { service: "con".to_string(), number: 759, is_open: None });
    t.push(Port { service: "comscm".to_string(), number: 437, is_open: None });
    t.push(Port { service: "codasrv".to_string(), number: 2432, is_open: None });
    t.push(Port { service: "cfdptkt".to_string(), number: 120, is_open: None });
    t.push(Port { service: "bnet".to_string(), number: 415, is_open: None });
    t.push(Port { service: "aspeclmd".to_string(), number: 1544, is_open: None });
    t.push(Port { service: "3l-l1".to_string(), number: 1511, is_open: None });
    t.push(Port { service: "3ds-lm".to_string(), number: 1538, is_open: None });
    t.push(Port { service: "zserv".to_string(), number: 346, is_open: None });
    t.push(Port { service: "xyplex-mux".to_string(), number: 173, is_open: None });
    t.push(Port { service: "xns-ch".to_string(), number: 54, is_open: None });
    t.push(Port { service: "xns-auth".to_string(), number: 56, is_open: None });
    t.push(Port { service: "maybe-fw1".to_string(), number: 265, is_open: None });
    t.push(Port { service: "world-lm".to_string(), number: 1462, is_open: None });
    t.push(Port { service: "netbackup".to_string(), number: 13701, is_open: None });
    t.push(Port { service: "vpvd".to_string(), number: 1518, is_open: None });
    t.push(Port { service: "valisys-lm".to_string(), number: 1457, is_open: None });
    t.push(Port { service: "uucp-path".to_string(), number: 117, is_open: None });
    t.push(Port { service: "uaiact".to_string(), number: 1470, is_open: None });
    t.push(Port { service: "netbackup".to_string(), number: 13715, is_open: None });
    t.push(Port { service: "netbackup".to_string(), number: 13714, is_open: None });
    t.push(Port { service: "td-service".to_string(), number: 267, is_open: None });
    t.push(Port { service: "timbuktu-srv3".to_string(), number: 1419, is_open: None });
    t.push(Port { service: "timbuktu-srv2".to_string(), number: 1418, is_open: None });
    t.push(Port { service: "dbsa-lm".to_string(), number: 1407, is_open: None });
    t.push(Port { service: "is99s".to_string(), number: 380, is_open: None });
    t.push(Port { service: "tacacs-ds".to_string(), number: 65, is_open: None });
    t.push(Port { service: "synotics-relay".to_string(), number: 391, is_open: None });
    t.push(Port { service: "synotics-broker".to_string(), number: 392, is_open: None });
    t.push(Port { service: "smsp".to_string(), number: 413, is_open: None });
    t.push(Port { service: "iclpv-sas".to_string(), number: 1391, is_open: None });
    t.push(Port { service: "sshell".to_string(), number: 614, is_open: None });
    t.push(Port { service: "sophia-lm".to_string(), number: 1408, is_open: None });
    t.push(Port { service: "snmptrap".to_string(), number: 162, is_open: None });
    t.push(Port { service: "snagas".to_string(), number: 108, is_open: None });
    t.push(Port { service: "maybe-veritas".to_string(), number: 4987, is_open: None });
    t
}

fn chunk_81() -> (t: Vec<Port>)
    ensures
        t@.len() == 50,
        forall|i: int| 0 <= i < t@.len() ==> entry_matches(#[trigger] t@[i], chunk_entry_81(i)),
        forall|i: int| 0 <= i < t@.len() ==> table_entry_ok(#[trigger] t@[i]),
{
    let mut t: Vec<Port> = Vec::new();
    t.push(Port { service: "shivadiscovery".to_string(), number: 1502, is_open: None });
    t.push(Port { service: "sco-websrvrmg3".to_string(), number: 598, is_open: None });
    t.push(Port { service: "scc-security".to_string(), number: 582, is_open: None });
    t.push(Port { service: "saft".to_string(), number: 487, is_open: None });
    t.push(Port { service: "courier".to_string(), number: 530, is_open: None });
    t.push(Port { service: "robcad-lm".to_string(), number: 1509, is_open: None });
    t.push(Port { service: "netrjs-2".to_string(), number: 72, is_open: None });
    t.push(Port { service: "rfa".to_string(), number: 4672, is_open: None });
    t.push(Port { service: "qft".to_string(), number: 189, is_open: None });
    t.push(Port { service: "tam".to_string(), number: 209, is_open: None });
    t.push(Port { service: "gist".to_string(), number: 270, is_open: None });
    t.push(Port { service: "pythonds".to_string(), number: 7464, is_open: None });
    t.push(Port { service: "prm-sm".to_string(), number: 408, is_open: None });
    t.push(Port { service: "prospero".to_string(), number: 191, is_open: None });
    t.push(Port { service: "proshare1".to_string(), number: 1459, is_open: None });
    t.push(Port { service: "prosharevideo".to_string(), number: 5714, is_open: None });
    t.push(Port { service: "prosharenotify".to_string(), number: 5717, is_open: None });
    t.push(Port { service: "proshareaudio".to_string(), number: 5713, is_open: None });
    t.push(Port { service: "9pfs".to_string(), number: 564, is_open: None });
    t.push(Port { service: "phonebook".to_string(), number: 767, is_open: None });
    t.push(Port { service: "philips-vc".to_string(), number: 583, is_open: None });
    t.push(Port { service: "iclpv-wsm".to_string(), number: 1395, is_open: None });
    t.push(Port { service: "osu-nms".to_string(), number: 192, is_open: None });
    t.push(Port { service: "oc-lm".to_string(), number: 1448, is_open: None });
    t.push(Port { service: "ocs_cmu".to_string(), number: 428, is_open: None });
    t.push(Port { service: "nuts_bootp".to_string(), number: 4133, is_open: None });
    t.push(Port { service: "novell-lu6.2".to_string(), number: 1416, is_open: None });
    t.push(Port { service: "submit".to_string(), number: 773, is_open: None });
    t.push(Port { service: "nrcabq-lm".to_string(), number: 1458, is_open: None });
    t.push(Port { service: "tempo".to_string(), number: 526, is_open: None });
    t.push(Port { service: "ndm-requester".to_string(), number: 1363, is_open: None });
    t.push(Port { service: "netrcs".to_string(), number: 742, is_open: None });
    t.push(Port { service: "msl_lmd".to_string(), number: 1464, is_open: None });
    t.push(Port { service: "mloadd".to_string(), number: 1427, is_open: None });
    t.push(Port { service: "miteksys-lm".to_string(), number: 1482, is_open: None });
    t.push(Port { service: "ms-rome".to_string(), number: 569, is_open: None });
    t.push(Port { service: "umeter".to_string(), number: 571, is_open: None });
    t.push(Port { service: "meta-corp".to_string(), number: 6141, is_open: None });
    t.push(Port { service: "matip-type-b".to_string(), number: 351, is_open: None });
    t.push(Port { service: "mapper-nodemgr".to_string(), number: 3984, is_open: None });
    t.push(Port { service: "connect-proxy".to_string(), number: 5490, is_open: None });
    t.push(Port { service: "compressnet".to_string(), number: 2, is_open: None });
    t.push(Port { service: "netbackup".to_string(), number: 13718, is_open: None });
    t.push(Port { service: "legent-1".to_string(), number: 373, is_open: None });
    t.push(Port { service: "kuang2".to_string(), number: 17300, is_open: None });
    t.push(Port { service: "kink".to_string(), number: 910, is_open: None });
    t.push(Port { service: "cronus".to_string(), number: 148, is_open: None });
    t.push(Port { service: "icb".to_string(), number: 7326, is_open: None });
    t.push(Port { service: "pt-tls".to_string(), number: 271, is_open: None });
    t.push(Port { service: "opc-job-start".to_string(), number: 423, is_open: None });
    t
}

fn chunk_82() -> (t: Vec<Port>)
    ensures
        t@.len() == 50,
        forall|i: int| 0 <= i < t@.len() ==> entry_matches(#[trigger] t@[i], chunk_entry_82(i)),
        forall|i: int| 0 <= i < t@.len() ==> table_entry_ok(#[trigger] t@[i]),
{
    let mut t: Vec<Port> = Vec::new();
    t.push(Port { service: "infoman".to_string(), number: 1451, is_open: None });
    t.push(Port { service: "loadsrv".to_string(), number: 480, is_open: None });
    t.push(Port { service: "tpdu".to_string(), number: 1430, is_open: None });
    t.push(Port { service: "nms".to_string(), number: 1429, is_open: None });
    t.push(Port { service: "hp-collector".to_string(), number: 781, is_open: None });
    t.push(Port { service: "hp-alarm-mgr".to_string(), number: 383, is_open: None });
    t.push(Port { service: "hp-3000-telnet".to_string(), number: 2564, is_open: None });
    t.push(Port { service: "hmmp-op".to_string(), number: 613, is_open: None });
    t.push(Port { service: "hmmp-ind".to_string(), number: 612, is_open: None });
    t.push(Port { service: "hello-port".to_string(), number: 652, is_open: None });
    t.push(Port { service: "hacl-probe".to_string(), number: 5303, is_open: None });
    t.push(Port { service: "gwha".to_string(), number: 1383, is_open: None });
    t.push(Port { service: "gss-xlicen".to_string(), number: 128, is_open: None });
    t.push(Port { service: "gkrellm".to_string(), number: 19150, is_open: None });
    t.push(Port { service: "genie-lm".to_string(), number: 1453, is_open: None });
    t.push(Port { service: "gacp".to_string(), number: 190, is_open: None });
    t.push(Port { service: "funkproxy".to_string(), number: 1505, is_open: None });
    t.push(Port { service: "fc-cli".to_string(), number: 1371, is_open: None });
    t.push(Port { service: "netwall".to_string(), number: 533, is_open: None });
    t.push(Port { service: "flexlm9".to_string(), number: 27009, is_open: None });
    t.push(Port { service: "flexlm7".to_string(), number: 27007, is_open: None });
    t.push(Port { service: "flexlm5".to_string(), number: 27005, is_open: None });
    t.push(Port { service: "flexlm3".to_string(), number: 27003, is_open: None });
    t.push(Port { service: "flexlm2".to_string(), number: 27002, is_open: None });
    t.push(Port { service: "flexlm".to_string(), number: 744, is_open: None });
    t.push(Port { service: "essbase".to_string(), number: 1423, is_open: None });
    t.push(Port { service: "molly".to_string(), number: 1374, is_open: None });
    t.push(Port { service: "emfis-cntl".to_string(), number: 141, is_open: None });
    t.push(Port { service: "eicon-slp".to_string(), number: 1440, is_open: None });
    t.push(Port { service: "dvl-activemail".to_string(), number: 1396, is_open: None });
    t.push(Port { service: "dtag-ste-sb".to_string(), number: 352, is_open: None });
    t.push(Port { service: "dixie".to_string(), number: 96, is_open: None });
    t.push(Port { service: "auditd".to_string(), number: 48, is_open: None });
    t.push(Port { service: "deviceshare".to_string(), number: 552, is_open: None });
    t.push(Port { service: "meter".to_string(), number: 570, is_open: None });
    t.push(Port { service: "dbase".to_string(), number: 217, is_open: None });
    t.push(Port { service: "custix".to_string(), number: 528, is_open: None });
    t.push(Port { service: "sfs-config".to_string(), number: 452, is_open: None });
    t.push(Port { service: "sfs-smp-net".to_string(), number: 451, is_open: None });
    t.push(Port { service: "listen".to_string(), number: 2766, is_open: None });
    t.push(Port { service: "rkinit".to_string(), number: 2108, is_open: None });
    t.push(Port { service: "cisco-sys".to_string(), number: 132, is_open: None });
    t.push(Port { service: "snmp-tcp-port".to_string(), number: 1993, is_open: None });
    t.push(Port { service: "tr-rsrb-p1".to_string(), number: 1987, is_open: None });
    t.push(Port { service: "cisco-fna".to_string(), number: 130, is_open: None });
    t.push(Port { service: "opsec-ela".to_string(), number: 18187, is_open: None });
    t.push(Port { service: "atls".to_string(), number: 216, is_open: None });
    t.push(Port { service: "bmap".to_string(), number: 3421, is_open: None });
    t.push(Port { service: "bl-idm".to_string(), number: 142, is_open: None });
    t.push(Port { service: "netbackup".to_string(), number: 13721, is_open: None });
    t
}

fn chunk_83() -> (t: Vec<Port>)
    ensures
        t@.len() == 50,
        forall|i: int| 0 <= i < t@.len() ==> entry_matches(#[trigger] t@[i], chunk_entry_83(i)),
        forall|i: int| 0 <= i < t@.len() ==> table_entry_ok(#[trigger] t@[i]),
{
    let mut t: Vec<Port> = Vec::new();
    t.push(Port { service: "dhcps".to_string(), number: 67, is_open: None });
    t.push(Port { service: "bo2k".to_string(), number: 15151, is_open: None });
    t.push(Port { service: "aurora-cmgr".to_string(), number: 364, is_open: None });
    t.push(Port { service: "af".to_string(), number: 1411, is_open: None });
    t.push(Port { service: "at-5".to_string(), number: 205, is_open: None });
    t.push(Port { service: "powerchuteplus".to_string(), number: 6548, is_open: None });
    t.push(Port { service: "ansatrader".to_string(), number: 124, is_open: None });
    t.push(Port { service: "ansanotify".to_string(), number: 116, is_open: None });
    t.push(Port { service: "aol-3".to_string(), number: 5193, is_open: None });
    t.push(Port { service: "fw1-mc-gui".to_string(), number: 258, is_open: None });
    t.push(Port { service: "powerburst".to_string(), number: 485, is_open: None });
    t.push(Port { service: "acp".to_string(), number: 599, is_open: None });
    t.push(Port { service: "aed-512".to_string(), number: 149, is_open: None });
    t.push(Port { service: "aal-lm".to_string(), number: 1469, is_open: None });
    t.push(Port { service: "entomb".to_string(), number: 775, is_open: None });
    t.push(Port { service: "whosockami".to_string(), number: 2019, is_open: None });
    t.push(Port { service: "ntalk".to_string(), number: 518, is_open: None });
    t.push(Port { service: "videotex".to_string(), number: 516, is_open: None });
    t.push(Port { service: "unknown".to_string(), number: 986, is_open: None });
    t.push(Port { service: "unknown".to_string(), number: 977, is_open: None });
    t.push(Port { service: "unknown".to_string(), number: 976, is_open: None });
    t.push(Port { service: "unknown".to_string(), number: 955, is_open: None });
    t.push(Port { service: "unknown".to_string(), number: 954, is_open: None });
    t.push(Port { service: "unknown".to_string(), number: 937, is_open: None });
    t.push(Port { service: "unknown".to_string(), number: 932, is_open: None });
    t.push(Port { service: "unknown".to_string(), number: 896, is_open: None });
    t.push(Port { service: "unknown".to_string(), number: 893, is_open: None });
    t.push(Port { service: "unknown".to_string(), number: 845, is_open: None });
    t.push(Port { service: "unknown".to_string(), number: 8, is_open: None });
    t.push(Port { service: "unknown".to_string(), number: 768, is_open: None });
    t.push(Port { service: "unknown".to_string(), number: 766, is_open: None });
    t.push(Port { service: "unknown".to_string(), number: 739, is_open: None });
    t.push(Port { service: "unknown".to_string(), number: 337, is_open: None });
    t.push(Port { service: "unknown".to_string(), number: 329, is_open: None });
    t.push(Port { service: "unknown".to_string(), number: 326, is_open: None });
    t.push(Port { service: "unknown".to_string(), number: 305, is_open: None });
    t.push(Port { service: "unknown".to_string(), number: 295, is_open: None });
    t.push(Port { service: "unknown".to_string(), number: 294, is_open: None });
    t.push(Port { service: "unknown".to_string(), number: 293, is_open: None });
    t.push(Port { service: "unknown".to_string(), number: 289, is_open: None });
    t.push(Port { service: "unknown".to_string(), number: 288, is_open: None });
    t.push(Port { service: "unknown".to_string(), number: 277, is_open: None });
    t.push(Port { service: "unknown".to_string(), number: 238, is_open: None });
    t.push(Port { service: "unknown".to_string(), number: 234, is_open: None });
    t.push(Port { service: "unknown".to_string(), number: 229, is_open: None });
    t.push(Port { service: "unknown".to_string(), number: 228, is_open: None });
    t.push(Port { service: "unknown".to_string(), number: 226, is_open: None });
    t.push(Port { service: "ulp".to_string(), number: 522, is_open: None });
    t.push(Port { service: "submitserver".to_string(), number: 2028, is_open: None });
    t.push(Port { service: "sql-net".to_string(), number: 150, is_open: None });
    t
}

fn chunk_84() -> (t: Vec<Port>)
    ensures
        t@.len() == 50,
        forall|i: int| 0 <= i < t@.len() ==> entry_matches(#[trigger] t@[i], chunk_entry_84(i)),
        forall|i: int| 0 <= i < t@.len() ==> table_entry_ok(#[trigger] t@[i]),
{
    let mut t: Vec<Port> = Vec::new();
    t.push(Port { service: "sonar".to_string(), number: 572, is_open: None });
    t.push(Port { service: "smsd".to_string(), number: 596, is_open: None });
    t.push(Port { service: "smpte".to_string(), number: 420, is_open: None });
    t.push(Port { service: "skronk".to_string(), number: 460, is_open: None });
    t.push(Port { service: "simba-cs".to_string(), number: 1543, is_open: None });
    t.push(Port { service: "shrinkwrap".to_string(), number: 358, is_open: None });
    t.push(Port { service: "semantix".to_string(), number: 361, is_open: None });
    t.push(Port { service: "scx-proxy".to_string(), number: 470, is_open: None });
    t.push(Port { service: "scoi2odialog".to_string(), number: 360, is_open: None });
    t.push(Port { service: "scohelp".to_string(), number: 457, is_open: None });
    t.push(Port { service: "sanity".to_string(), number: 643, is_open: None });
    t.push(Port { service: "rtsps".to_string(), number: 322, is_open: None });
    t.push(Port { service: "rsvd".to_string(), number: 168, is_open: None });
    t.push(Port { service: "rrh".to_string(), number: 753, is_open: None });
    t.push(Port { service: "rpc2portmap".to_string(), number: 369, is_open: None });
    t.push(Port { service: "remote-kis".to_string(), number: 185, is_open: None });
    t.push(Port { service: "reachout".to_string(), number: 43188, is_open: None });
    t.push(Port { service: "rds2".to_string(), number: 1541, is_open: None });
    t.push(Port { service: "rds".to_string(), number: 1540, is_open: None });
    t.push(Port { service: "qrh".to_string(), number: 752, is_open: None });
    t.push(Port { service: "pim-rp-disc".to_string(), number: 496, is_open: None });
    t.push(Port { service: "pftp".to_string(), number: 662, is_open: None });
    t.push(Port { service: "peport".to_string(), number: 1449, is_open: None });
    t.push(Port { service: "pacerforum".to_string(), number: 1480, is_open: None });
    t.push(Port { service: "openmath".to_string(), number: 1473, is_open: None });
    t.push(Port { service: "ocserver".to_string(), number: 184, is_open: None });
    t.push(Port { service: "netview-aix-12".to_string(), number: 1672, is_open: None });
    t.push(Port { service: "netview-aix-11".to_string(), number: 1671, is_open: None });
    t.push(Port { service: "netview-aix-10".to_string(), number: 1670, is_open: None });
    t.push(Port { service: "mobilip-mn".to_string(), number: 435, is_open: None });
    t.push(Port { service: "mobileip-agent".to_string(), number: 434, is_open: None });
    t.push(Port { service: "miroconnect".to_string(), number: 1532, is_open: None });
    t.push(Port { service: "mimer".to_string(), number: 1360, is_open: None });
    t.push(Port { service: "mailq".to_string(), number: 174, is_open: None });
    t.push(Port { service: "ljk-login".to_string(), number: 472, is_open: None });
    t.push(Port { service: "linx".to_string(), number: 1361, is_open: None });
    t.push(Port { service: "isode-dua".to_string(), number: 17007, is_open: None });
    t.push(Port { service: "infoseek".to_string(), number: 414, is_open: None });
    t.push(Port { service: "iiop".to_string(), number: 535, is_open: None });
    t.push(Port { service: "iasd".to_string(), number: 432, is_open: None });
    t.push(Port { service: "iafserver".to_string(), number: 479, is_open: None });
    t.push(Port { service: "hybrid-pop".to_string(), number: 473, is_open: None });
    t.push(Port { service: "hems".to_string(), number: 151, is_open: None });
    t.push(Port { service: "gridgen-elmd".to_string(), number: 1542, is_open: None });
    t.push(Port { service: "dsfgw".to_string(), number: 438, is_open: None });
    t.push(Port { service: "docstor".to_string(), number: 1488, is_open: None });
    t.push(Port { service: "diagmond".to_string(), number: 1508, is_open: None });
    t.push(Port { service: "dei-icda".to_string(), number: 618, is_open: None });
    t.push(Port { service: "decauth".to_string(), number: 316, is_open: None });
    t.push(Port { service: "dcs".to_string(), number: 1367, is_open: None });
    t
}

fn chunk_85() -> (t: Vec<Port>)
    ensures
        t@.len() == 50,
        forall|i: int| 0 <= i < t@.len() ==> entry_matches(#[trigger] t@[i], chunk_entry_85(i)),
        forall|i: int| 0 <= i < t@.len() ==> table_entry_ok(#[trigger] t@[i]),
{
    let mut t: Vec<Port> = Vec::new();
    t.push(Port { service: "dasp".to_string(), number: 439, is_open: None });
    t.push(Port { service: "corerjd".to_string(), number: 284, is_open: None });
    t.push(Port { service: "commerce".to_string(), number: 542, is_open: None });
    t.push(Port { service: "codaauth2".to_string(), number: 370, is_open: None });
    t.push(Port { service: "bootserver".to_string(), number: 2016, is_open: None });
    t.push(Port { service: "bhfhs".to_string(), number: 248, is_open: None });
    t.push(Port { service: "anynetgateway".to_string(), number: 1491, is_open: None });
    t.push(Port { service: "z-wave-tunnel".to_string(), number: 44123, is_open: None });
    t.push(Port { service: "z-wave-s".to_string(), number: 41230, is_open: None });
    t.push(Port { service: "zsecure".to_string(), number: 7173, is_open: None });
    t.push(Port { service: "filemq".to_string(), number: 5670, is_open: None });
    t.push(Port { service: "zmp".to_string(), number: 3925, is_open: None });
    t.push(Port { service: "zixi-transport".to_string(), number: 7088, is_open: None });
    t.push(Port { service: "zion-lm".to_string(), number: 1425, is_open: None });
    t.push(Port { service: "zigbee-ip".to_string(), number: 17755, is_open: None });
    t.push(Port { service: "zigbee-ips".to_string(), number: 17756, is_open: None });
    t.push(Port { service: "zieto-sock".to_string(), number: 4072, is_open: None });
    t.push(Port { service: "shiprush-d-ch".to_string(), number: 5841, is_open: None });
    t.push(Port { service: "zephyr-srv".to_string(), number: 2102, is_open: None });
    t.push(Port { service: "z-wave".to_string(), number: 4123, is_open: None });
    t.push(Port { service: "zarkov".to_string(), number: 2989, is_open: None });
    t.push(Port { service: "zabbix-trapper".to_string(), number: 10051, is_open: None });
    t.push(Port { service: "zabbix-agent".to_string(), number: 10050, is_open: None });
    t.push(Port { service: "racf".to_string(), number: 18136, is_open: None });
    t.push(Port { service: "yawn".to_string(), number: 31029, is_open: None });
    t.push(Port { service: "array-manager".to_string(), number: 3726, is_open: None });
    t.push(Port { service: "xybrid-rt".to_string(), number: 9978, is_open: None });
    t.push(Port { service: "xybrid-cloud".to_string(), number: 9925, is_open: None });
    t.push(Port { service: "xw-control".to_string(), number: 36462, is_open: None });
    t.push(Port { service: "xtreamx".to_string(), number: 5793, is_open: None });
    t.push(Port { service: "xtrm".to_string(), number: 3423, is_open: None });
    t.push(Port { service: "xtrms".to_string(), number: 3424, is_open: None });
    t.push(Port { service: "xtgui".to_string(), number: 4095, is_open: None });
    t.push(Port { service: "xss-srv-port".to_string(), number: 3646, is_open: None });
    t.push(Port { service: "xss-port".to_string(), number: 3510, is_open: None });
    t.push(Port { service: "xserveraid".to_string(), number: 3722, is_open: None });
    t.push(Port { service: "community".to_string(), number: 2459, is_open: None });
    t.push(Port { service: "xrpc-registry".to_string(), number: 3651, is_open: None });
    t.push(Port { service: "xpra".to_string(), number: 14500, is_open: None });
    t.push(Port { service: "xpl".to_string(), number: 3865, is_open: None });
    t.push(Port { service: "xpilot".to_string(), number: 15345, is_open: None });
    t.push(Port { service: "xo-wave".to_string(), number: 3763, is_open: None });
    t.push(Port { service: "xn-control".to_string(), number: 38422, is_open: None });
    t.push(Port { service: "xmpcr-interface".to_string(), number: 3877, is_open: None });
    t.push(Port { service: "XmlIpcRegSvc".to_string(), number: 9092, is_open: None });
    t.push(Port { service: "xkotodrcp".to_string(), number: 5344, is_open: None });
    t.push(Port { service: "xiostatus".to_string(), number: 2341, is_open: None });
    t.push(Port { service: "xtlserv".to_string(), number: 6116, is_open: None });
    t.push(Port { service: "xnds".to_string(), number: 2157, is_open: None });
    t.push(Port { service: "xns-courier".to_string(), number: 165, is_open: None });
    t
}

fn chunk_86() -> (t: Vec<Port>)
    ensures
        t@.len() == 50,
        forall|i: int| 0 <= i < t@.len() ==> entry_matches(#[trigger] t@[i], chunk_entry_86(i)),
        forall|i: int| 0 <= i < t@.len() ==> table_entry_ok(#[trigger] t@[i]),
{
    let mut t: Vec<Port> = Vec::new();
    t.push(Port { service: "xsmsvc".to_string(), number: 6936, is_open: None });
    t.push(Port { service: "enguity-xccetp".to_string(), number: 8041, is_open: None });
    t.push(Port { service: "xcap-portal".to_string(), number: 4888, is_open: None });
    t.push(Port { service: "xcap-control".to_string(), number: 4889, is_open: None });
    t.push(Port { service: "xbox".to_string(), number: 3074, is_open: None });
    t.push(Port { service: "x-bone-api".to_string(), number: 2165, is_open: None });
    t.push(Port { service: "xandros-cms".to_string(), number: 4389, is_open: None });
    t.push(Port { service: "spramsd".to_string(), number: 5770, is_open: None });
    t.push(Port { service: "spramsca".to_string(), number: 5769, is_open: None });
    t.push(Port { service: "xoms".to_string(), number: 16619, is_open: None });
    t.push(Port { service: "xoraya".to_string(), number: 11876, is_open: None });
    t.push(Port { service: "x2e-disc".to_string(), number: 11877, is_open: None });
    t.push(Port { service: "x11".to_string(), number: 6061, is_open: None });
    t.push(Port { service: "x11".to_string(), number: 6058, is_open: None });
    t.push(Port { service: "x11".to_string(), number: 6057, is_open: None });
    t.push(Port { service: "x11".to_string(), number: 6056, is_open: None });
    t.push(Port { service: "x11".to_string(), number: 6054, is_open: None });
    t.push(Port { service: "x11".to_string(), number: 6053, is_open: None });
    t.push(Port { service: "x11".to_string(), number: 6049, is_open: None });
    t.push(Port { service: "x11".to_string(), number: 6048, is_open: None });
    t.push(Port { service: "x11".to_string(), number: 6047, is_open: None });
    t.push(Port { service: "x11".to_string(), number: 6046, is_open: None });
    t.push(Port { service: "x11".to_string(), number: 6045, is_open: None });
    t.push(Port { service: "x11".to_string(), number: 6044, is_open: None });
    t.push(Port { service: "x11".to_string(), number: 6043, is_open: None });
    t.push(Port { service: "x11".to_string(), number: 6042, is_open: None });
    t.push(Port { service: "x11".to_string(), number: 6041, is_open: None });
    t.push(Port { service: "x11".to_string(), number: 6040, is_open: None });
    t.push(Port { service: "x11".to_string(), number: 6039, is_open: None });
    t.push(Port { service: "x11".to_string(), number: 6038, is_open: None });
    t.push(Port { service: "x11".to_string(), number: 6037, is_open: None });
    t.push(Port { service: "x11".to_string(), number: 6036, is_open: None });
    t.push(Port { service: "x11".to_string(), number: 6035, is_open: None });
    t.push(Port { service: "x11".to_string(), number: 6034, is_open: None });
    t.push(Port { service: "x11".to_string(), number: 6033, is_open: None });
    t.push(Port { service: "x11".to_string(), number: 6032, is_open: None });
    t.push(Port { service: "x11".to_string(), number: 6031, is_open: None });
    t.push(Port { service: "x11".to_string(), number: 6029, is_open: None });
    t.push(Port { service: "x11".to_string(), number: 6028, is_open: None });
    t.push(Port { service: "x11".to_string(), number: 6027, is_open: None });
    t.push(Port { service: "x11".to_string(), number: 6026, is_open: None });
    t.push(Port { service: "x11".to_string(), number: 6024, is_open: None });
    t.push(Port { service: "x11".to_string(), number: 6023, is_open: None });
    t.push(Port { service: "x11".to_string(), number: 6022, is_open: None });
    t.push(Port { service: "x11".to_string(), number: 6020, is_open: None });
    t.push(Port { service: "x11".to_string(), number: 6019, is_open: None });
    t.push(Port { service: "x11".to_string(), number: 6018, is_open: None });
    t.push(Port { service: "x11".to_string(), number: 6016, is_open: None });
    t.push(Port { service: "x11".to_string(), number: 6014, is_open: None });
    t.push(Port { service: "x11".to_string(), number: 6013, is_open: None });
    t
}

fn chunk_87() -> (t: Vec<Port>)
    ensures
        t@.len() == 50,
        forall|i: int| 0 <= i < t@.len() ==> entry_matches(#[trigger] t@[i], chunk_entry_87(i)),
        forall|i: int| 0 <= i < t@.len() ==> table_entry_ok(#[trigger] t@[i]),
{
    let mut t: Vec<Port> = Vec::new();
    t.push(Port { service: "x11".to_string(), number: 6012, is_open: None });
    t.push(Port { service: "x11".to_string(), number: 6011, is_open: None });
    t.push(Port { service: "wysdma".to_string(), number: 3741, is_open: None });
    t.push(Port { service: "wacp".to_string(), number: 3633, is_open: None });
    t.push(Port { service: "flirtmitmir".to_string(), number: 3840, is_open: None });
    t.push(Port { service: "wv-csp-udp-cir".to_string(), number: 3717, is_open: None });
    t.push(Port { service: "wv-csp-sms-cir".to_string(), number: 3716, is_open: None });
    t.push(Port { service: "wv-csp-sms".to_string(), number: 3590, is_open: None });
    t.push(Port { service: "wta-wsp-s".to_string(), number: 2805, is_open: None });
    t.push(Port { service: "wssauthsvc".to_string(), number: 4537, is_open: None });
    t.push(Port { service: "tungsten-http".to_string(), number: 9762, is_open: None });
    t.push(Port { service: "wsm-server-ssl".to_string(), number: 5007, is_open: None });
    t.push(Port { service: "wsm-server".to_string(), number: 5006, is_open: None });
    t.push(Port { service: "wsdl-event".to_string(), number: 4879, is_open: None });
    t.push(Port { service: "wsdapi-s".to_string(), number: 5358, is_open: None });
    t.push(Port { service: "wrspice".to_string(), number: 6114, is_open: None });
    t.push(Port { service: "wcpp".to_string(), number: 4185, is_open: None });
    t.push(Port { service: "www-dev".to_string(), number: 2784, is_open: None });
    t.push(Port { service: "blizwow".to_string(), number: 3724, is_open: None });
    t.push(Port { service: "worldfusion2".to_string(), number: 2596, is_open: None });
    t.push(Port { service: "worldfusion1".to_string(), number: 2595, is_open: None });
    t.push(Port { service: "workflowdir".to_string(), number: 4417, is_open: None });
    t.push(Port { service: "wcr-remlib".to_string(), number: 4845, is_open: None });
    t.push(Port { service: "wnn6_Tw".to_string(), number: 22321, is_open: None });
    t.push(Port { service: "wnn6_Cn".to_string(), number: 22289, is_open: None });
    t.push(Port { service: "wms-messenger".to_string(), number: 3219, is_open: None });
    t.push(Port { service: "wmc-log-svc".to_string(), number: 1338, is_open: None });
    t.push(Port { service: "wlcp".to_string(), number: 36411, is_open: None });
    t.push(Port { service: "winshadow-hd".to_string(), number: 3861, is_open: None });
    t.push(Port { service: "winpcs".to_string(), number: 5166, is_open: None });
    t.push(Port { service: "wininstall-ipc".to_string(), number: 3674, is_open: None });
    t.push(Port { service: "mm-admin".to_string(), number: 534, is_open: None });
    t.push(Port { service: "wsscomfrmwk".to_string(), number: 6602, is_open: None });
    t.push(Port { service: "winrm".to_string(), number: 47001, is_open: None });
    t.push(Port { service: "net-projection".to_string(), number: 5363, is_open: None });
    t.push(Port { service: "wcbackup".to_string(), number: 8912, is_open: None });
    t.push(Port { service: "windlm".to_string(), number: 1785, is_open: None });
    t.push(Port { service: "wimaxasncp".to_string(), number: 2231, is_open: None });
    t.push(Port { service: "tunatic".to_string(), number: 5747, is_open: None });
    t.push(Port { service: "tunalyzer".to_string(), number: 5748, is_open: None });
    t.push(Port { service: "wifree".to_string(), number: 11208, is_open: None });
    t.push(Port { service: "display".to_string(), number: 7236, is_open: None });
    t.push(Port { service: "wafs".to_string(), number: 4049, is_open: None });
    t.push(Port { service: "cisco-wafs".to_string(), number: 4050, is_open: None });
    t.push(Port { service: "WibuKey".to_string(), number: 22347, is_open: None });
    t.push(Port { service: "via-ftp".to_string(), number: 63, is_open: None });
    t.push(Port { service: "whisker".to_string(), number: 3233, is_open: None });
    t.push(Port { service: "wg-netforce".to_string(), number: 3359, is_open: None });
    t.push(Port { service: "dpp".to_string(), number: 8908, is_open: None });
    t.push(Port { service: "wello".to_string(), number: 4177, is_open: None });
    t
}

fn chunk_88() -> (t: Vec<Port>)
    ensures
        t@.len() == 50,
        forall|i: int| 0 <= i < t@.len() ==> entry_matches(#[trigger] t@[i], chunk_entry_88(i)),
        forall|i: int| 0 <= i < t@.len() ==> table_entry_ok(#[trigger] t@[i]),
{
    let mut t: Vec<Port> = Vec::new();
    t.push(Port { service: "weandsf".to_string(), number: 48050, is_open: None });
    t.push(Port { service: "websphere-snmp".to_string(), number: 3427, is_open: None });
    t.push(Port { service: "bsfsvr-zn-ssl".to_string(), number: 5321, is_open: None });
    t.push(Port { service: "bsfserver-zn".to_string(), number: 5320, is_open: None });
    t.push(Port { service: "webmethods-b2b".to_string(), number: 2907, is_open: None });
    t.push(Port { service: "https-wmap".to_string(), number: 8991, is_open: None });
    t.push(Port { service: "http-wmap".to_string(), number: 8990, is_open: None });
    t.push(Port { service: "weblogin".to_string(), number: 2054, is_open: None });
    t.push(Port { service: "davsrcs".to_string(), number: 9802, is_open: None });
    t.push(Port { service: "davsrc".to_string(), number: 9800, is_open: None });
    t.push(Port { service: "wsynch".to_string(), number: 3111, is_open: None });
    t.push(Port { service: "ws-discovery".to_string(), number: 3702, is_open: None });
    t.push(Port { service: "wfc".to_string(), number: 4847, is_open: None });
    t.push(Port { service: "wxbrief".to_string(), number: 4368, is_open: None });
    t.push(Port { service: "wbem-exp-https".to_string(), number: 5990, is_open: None });
    t.push(Port { service: "watcomdebug".to_string(), number: 3563, is_open: None });
    t.push(Port { service: "watchdoc".to_string(), number: 5744, is_open: None });
    t.push(Port { service: "watchdoc-pod".to_string(), number: 5743, is_open: None });
    t.push(Port { service: "warehouse-sss".to_string(), number: 12321, is_open: None });
    t.push(Port { service: "warehouse".to_string(), number: 12322, is_open: None });
    t.push(Port { service: "wap-vcard-s".to_string(), number: 9206, is_open: None });
    t.push(Port { service: "wap-vcard".to_string(), number: 9204, is_open: None });
    t.push(Port { service: "wap-vcal".to_string(), number: 9205, is_open: None });
    t.push(Port { service: "wap-wsp-wtp".to_string(), number: 9201, is_open: None });
    t.push(Port { service: "wap-wsp-wtp-s".to_string(), number: 9203, is_open: None });
    t.push(Port { service: "wap-pushsecure".to_string(), number: 2949, is_open: None });
    t.push(Port { service: "wap-push".to_string(), number: 2948, is_open: None });
    t.push(Port { service: "wago-service".to_string(), number: 6626, is_open: None });
    t.push(Port { service: "3gpp-w1ap".to_string(), number: 37472, is_open: None });
    t.push(Port { service: "vvr-data".to_string(), number: 8199, is_open: None });
    t.push(Port { service: "vvr-control".to_string(), number: 4145, is_open: None });
    t.push(Port { service: "vulture".to_string(), number: 3482, is_open: None });
    t.push(Port { service: "vtu-comms".to_string(), number: 2216, is_open: None });
    t.push(Port { service: "netbackup".to_string(), number: 13708, is_open: None });
    t.push(Port { service: "upstriggervsw".to_string(), number: 3786, is_open: None });
    t.push(Port { service: "vsnm-agent".to_string(), number: 3375, is_open: None });
    t.push(Port { service: "vsi-omega".to_string(), number: 7566, is_open: None });
    t.push(Port { service: "vsiadmin".to_string(), number: 2539, is_open: None });
    t.push(Port { service: "vsamredirector".to_string(), number: 2387, is_open: None });
    t.push(Port { service: "vsaiport".to_string(), number: 3317, is_open: None });
    t.push(Port { service: "vrts-registry".to_string(), number: 2410, is_open: None });
    t.push(Port { service: "vrtp".to_string(), number: 2255, is_open: None });
    t.push(Port { service: "vrml-multi-use".to_string(), number: 4299, is_open: None });
    t.push(Port { service: "vrml-multi-use".to_string(), number: 4296, is_open: None });
    t.push(Port { service: "vrml-multi-use".to_string(), number: 4295, is_open: None });
    t.push(Port { service: "vrml-multi-use".to_string(), number: 4293, is_open: None });
    t.push(Port { service: "vrml-multi-use".to_string(), number: 4292, is_open: None });
    t.push(Port { service: "vrml-multi-use".to_string(), number: 4291, is_open: None });
    t.push(Port { service: "vrml-multi-use".to_string(), number: 4290, is_open: None });
    t.push(Port { service: "vrml-multi-use".to_string(), number: 4289, is_open: None });
    t
}

fn chunk_89() -> (t: Vec<Port>)
    ensures
        t@.len() == 50,
        forall|i: int| 0 <= i < t@.len() ==> entry_matches(#[trigger] t@[i], chunk_entry_89(i)),
        forall|i: int| 0 <= i < t@.len() ==> table_entry_ok(#[trigger] t@[i]),
{
    let mut t: Vec<Port> = Vec::new();
    t.push(Port { service: "vrml-multi-use".to_string(), number: 4288, is_open: None });
    t.push(Port { service: "vrml-multi-use".to_string(), number: 4287, is_open: None });
    t.push(Port { service: "vrml-multi-use".to_string(), number: 4286, is_open: None });
    t.push(Port { service: "vrml-multi-use".to_string(), number: 4285, is_open: None });
    t.push(Port { service: "vrml-multi-use".to_string(), number: 4284, is_open: None });
    t.push(Port { service: "vrml-multi-use".to_string(), number: 4283, is_open: None });
    t.push(Port { service: "vrml-multi-use".to_string(), number: 4282, is_open: None });
    t.push(Port { service: "vrml-multi-use".to_string(), number: 4281, is_open: None });
    t.push(Port { service: "vrml-multi-use".to_string(), number: 4280, is_open: None });
    t.push(Port { service: "vrml-multi-use".to_string(), number: 4278, is_open: None });
    t.push(Port { service: "vrml-multi-use".to_string(), number: 4277, is_open: None });
    t.push(Port { service: "vrml-multi-use".to_string(), number: 4276, is_open: None });
    t.push(Port { service: "vrml-multi-use".to_string(), number: 4275, is_open: None });
    t.push(Port { service: "vrml-multi-use".to_string(), number: 4274, is_open: None });
    t.push(Port { service: "vrml-multi-use".to_string(), number: 4273, is_open: None });
    t.push(Port { service: "vrml-multi-use".to_string(), number: 4272, is_open: None });
    t.push(Port { service: "vrml-multi-use".to_string(), number: 4271, is_open: None });
    t.push(Port { service: "vrml-multi-use".to_string(), number: 4270, is_open: None });
    t.push(Port { service: "vrml-multi-use".to_string(), number: 4269, is_open: None });
    t.push(Port { service: "vrml-multi-use".to_string(), number: 4268, is_open: None });
    t.push(Port { service: "vrml-multi-use".to_string(), number: 4267, is_open: None });
    t.push(Port { service: "vrml-multi-use".to_string(), number: 4266, is_open: None });
    t.push(Port { service: "vrml-multi-use".to_string(), number: 4265, is_open: None });
    t.push(Port { service: "vrml-multi-use".to_string(), number: 4264, is_open: None });
    t.push(Port { service: "vrml-multi-use".to_string(), number: 4263, is_open: None });
    t.push(Port { service: "vrml-multi-use".to_string(), number: 4261, is_open: None });
    t.push(Port { service: "vrml-multi-use".to_string(), number: 4260, is_open: None });
    t.push(Port { service: "vrml-multi-use".to_string(), number: 4259, is_open: None });
    t.push(Port { service: "vrml-multi-use".to_string(), number: 4258, is_open: None });
    t.push(Port { service: "vrml-multi-use".to_string(), number: 4257, is_open: None });
    t.push(Port { service: "vrml-multi-use".to_string(), number: 4256, is_open: None });
    t.push(Port { service: "vrml-multi-use".to_string(), number: 4255, is_open: None });
    t.push(Port { service: "vrml-multi-use".to_string(), number: 4254, is_open: None });
    t.push(Port { service: "vrml-multi-use".to_string(), number: 4253, is_open: None });
    t.push(Port { service: "vrml-multi-use".to_string(), number: 4251, is_open: None });
    t.push(Port { service: "vrml-multi-use".to_string(), number: 4250, is_open: None });
    t.push(Port { service: "vrml-multi-use".to_string(), number: 4249, is_open: None });
    t.push(Port { service: "vrml-multi-use".to_string(), number: 4248, is_open: None });
    t.push(Port { service: "vrml-multi-use".to_string(), number: 4247, is_open: None });
    t.push(Port { service: "vrml-multi-use".to_string(), number: 4246, is_open: None });
    t.push(Port { service: "vrml-multi-use".to_string(), number: 4245, is_open: None });
    t.push(Port { service: "vrml-multi-use".to_string(), number: 4244, is_open: None });
    t.push(Port { service: "vrml-multi-use".to_string(), number: 4241, is_open: None });
    t.push(Port { service: "vrml-multi-use".to_string(), number: 4240, is_open: None });
    t.push(Port { service: "vrml-multi-use".to_string(), number: 4239, is_open: None });
    t.push(Port { service: "vrml-multi-use".to_string(), number: 4238, is_open: None });
    t.push(Port { service: "vrml-multi-use".to_string(), number: 4237, is_open: None });
    t.push(Port { service: "vrml-multi-use".to_string(), number: 4236, is_open: None });
    t.push(Port { service: "vrml-multi-use".to_string(), number: 4235, is_open: None });
    t.push(Port { service: "vrml-multi-use".to_string(), number: 4233, is_open: None });
    t
}

fn chunk_90() -> (t: Vec<Port>)
    ensures
        t@.len() == 50,
        forall|i: int| 0 <= i < t@.len() ==> entry_matches(#[trigger] t@[i], chunk_entry_90(i)),
        forall|i: int| 0 <= i < t@.len() ==> table_entry_ok(#[trigger] t@[i]),
{
    let mut t: Vec<Port> = Vec::new();
    t.push(Port { service: "vrml-multi-use".to_string(), number: 4232, is_open: None });
    t.push(Port { service: "vrml-multi-use".to_string(), number: 4231, is_open: None });
    t.push(Port { service: "vrml-multi-use".to_string(), number: 4230, is_open: None });
    t.push(Port { service: "vrml-multi-use".to_string(), number: 4229, is_open: None });
    t.push(Port { service: "vrml-multi-use".to_string(), number: 4228, is_open: None });
    t.push(Port { service: "vrml-multi-use".to_string(), number: 4227, is_open: None });
    t.push(Port { service: "vrml-multi-use".to_string(), number: 4226, is_open: None });
    t.push(Port { service: "vrml-multi-use".to_string(), number: 4225, is_open: None });
    t.push(Port { service: "vrml-multi-use".to_string(), number: 4223, is_open: None });
    t.push(Port { service: "vrml-multi-use".to_string(), number: 4222, is_open: None });
    t.push(Port { service: "vrml-multi-use".to_string(), number: 4221, is_open: None });
    t.push(Port { service: "vrml-multi-use".to_string(), number: 4219, is_open: None });
    t.push(Port { service: "vrml-multi-use".to_string(), number: 4218, is_open: None });
    t.push(Port { service: "vrml-multi-use".to_string(), number: 4217, is_open: None });
    t.push(Port { service: "vrml-multi-use".to_string(), number: 4216, is_open: None });
    t.push(Port { service: "vrml-multi-use".to_string(), number: 4215, is_open: None });
    t.push(Port { service: "vrml-multi-use".to_string(), number: 4214, is_open: None });
    t.push(Port { service: "vrml-multi-use".to_string(), number: 4213, is_open: None });
    t.push(Port { service: "vrml-multi-use".to_string(), number: 4212, is_open: None });
    t.push(Port { service: "vrml-multi-use".to_string(), number: 4211, is_open: None });
    t.push(Port { service: "vrml-multi-use".to_string(), number: 4210, is_open: None });
    t.push(Port { service: "vrml-multi-use".to_string(), number: 4209, is_open: None });
    t.push(Port { service: "vrml-multi-use".to_string(), number: 4208, is_open: None });
    t.push(Port { service: "vrml-multi-use".to_string(), number: 4207, is_open: None });
    t.push(Port { service: "vrml-multi-use".to_string(), number: 4205, is_open: None });
    t.push(Port { service: "vrml-multi-use".to_string(), number: 4204, is_open: None });
    t.push(Port { service: "vrml-multi-use".to_string(), number: 4203, is_open: None });
    t.push(Port { service: "vrml-multi-use".to_string(), number: 4202, is_open: None });
    t.push(Port { service: "vrml-multi-use".to_string(), number: 4201, is_open: None });
    t.push(Port { service: "vrpn".to_string(), number: 3883, is_open: None });
    t.push(Port { service: "vrcommerce".to_string(), number: 2530, is_open: None });
    t.push(Port { service: "vpa".to_string(), number: 5164, is_open: None });
    t.push(Port { service: "voxelstorm".to_string(), number: 28200, is_open: None });
    t.push(Port { service: "v-one-spp".to_string(), number: 3845, is_open: None });
    t.push(Port { service: "voispeed-port".to_string(), number: 3541, is_open: None });
    t.push(Port { service: "interact".to_string(), number: 4052, is_open: None });
    t.push(Port { service: "vofr-gateway".to_string(), number: 21590, is_open: None });
    t.push(Port { service: "vocaltec-admin".to_string(), number: 1796, is_open: None });
    t.push(Port { service: "vocaltec-hos".to_string(), number: 25793, is_open: None });
    t.push(Port { service: "vnyx".to_string(), number: 8699, is_open: None });
    t.push(Port { service: "vmware-fdm".to_string(), number: 8182, is_open: None });
    t.push(Port { service: "vitalanalysis".to_string(), number: 2474, is_open: None });
    t.push(Port { service: "vrt".to_string(), number: 4991, is_open: None });
    t.push(Port { service: "va-pacbase".to_string(), number: 3676, is_open: None });
    t.push(Port { service: "vts-rpc".to_string(), number: 5780, is_open: None });
    t.push(Port { service: "vista-4gl".to_string(), number: 24249, is_open: None });
    t.push(Port { service: "visitview".to_string(), number: 1631, is_open: None });
    t.push(Port { service: "vision_server".to_string(), number: 6672, is_open: None });
    t.push(Port { service: "vision_elmd".to_string(), number: 6673, is_open: None });
    t.push(Port { service: "visinet-gui".to_string(), number: 3601, is_open: None });
    t
}

fn chunk_91() -> (t: Vec<Port>)
    ensures
        t@.len() == 50,
        forall|i: int| 0 <= i < t@.len() ==> entry_matches(#[trigger] t@[i], chunk_entry_91(i)),
        forall|i: int| 0 <= i < t@.len() ==> table_entry_ok(#[trigger] t@[i]),
{
    let mut t: Vec<Port> = Vec::new();
    t.push(Port { service: "vpm-udp".to_string(), number: 5046, is_open: None });
    t.push(Port { service: "vns-tp".to_string(), number: 7802, is_open: None });
    t.push(Port { service: "vt-ssl".to_string(), number: 3509, is_open: None });
    t.push(Port { service: "virtual-time".to_string(), number: 1852, is_open: None });
    t.push(Port { service: "virtualtape".to_string(), number: 2386, is_open: None });
    t.push(Port { service: "vp2p".to_string(), number: 8473, is_open: None });
    t.push(Port { service: "vxlan".to_string(), number: 4789, is_open: None });
    t.push(Port { service: "razor".to_string(), number: 3555, is_open: None });
    t.push(Port { service: "vipera-ssl".to_string(), number: 12013, is_open: None });
    t.push(Port { service: "vipera".to_string(), number: 12012, is_open: None });
    t.push(Port { service: "vipremoteagent".to_string(), number: 3752, is_open: None });
    t.push(Port { service: "vieo-fe".to_string(), number: 3245, is_open: None });
    t.push(Port { service: "vidigo".to_string(), number: 3231, is_open: None });
    t.push(Port { service: "vtp".to_string(), number: 16666, is_open: None });
    t.push(Port { service: "vfbp".to_string(), number: 6678, is_open: None });
    t.push(Port { service: "vestasdlp".to_string(), number: 17184, is_open: None });
    t.push(Port { service: "net2display".to_string(), number: 9086, is_open: None });
    t.push(Port { service: "vscp".to_string(), number: 9598, is_open: None });
    t.push(Port { service: "vcrp".to_string(), number: 3073, is_open: None });
    t.push(Port { service: "vrtl-vmf-sa".to_string(), number: 2074, is_open: None });
    t.push(Port { service: "vrtl-vmf-ds".to_string(), number: 1956, is_open: None });
    t.push(Port { service: "versa-tek".to_string(), number: 2610, is_open: None });
    t.push(Port { service: "versatalk".to_string(), number: 3738, is_open: None });
    t.push(Port { service: "veritas-tcp1".to_string(), number: 2802, is_open: None });
    t.push(Port { service: "nomdb".to_string(), number: 13786, is_open: None });
    t.push(Port { service: "veritas-vis2".to_string(), number: 2994, is_open: None });
    t.push(Port { service: "veritas-vis1".to_string(), number: 2993, is_open: None });
    t.push(Port { service: "vrtstrapserver".to_string(), number: 1885, is_open: None });
    t.push(Port { service: "vrts-tdd".to_string(), number: 14149, is_open: None });
    t.push(Port { service: "itap-ddtp".to_string(), number: 10100, is_open: None });
    t.push(Port { service: "visd".to_string(), number: 9284, is_open: None });
    t.push(Port { service: "vcscmd".to_string(), number: 14150, is_open: None });
    t.push(Port { service: "bctp-server".to_string(), number: 10107, is_open: None });
    t.push(Port { service: "vrts-auth-port".to_string(), number: 4032, is_open: None });
    t.push(Port { service: "vrts-at-port".to_string(), number: 2821, is_open: None });
    t.push(Port { service: "vx-auth-port".to_string(), number: 3207, is_open: None });
    t.push(Port { service: "vad".to_string(), number: 14154, is_open: None });
    t.push(Port { service: "vrmg-ip".to_string(), number: 24323, is_open: None });
    t.push(Port { service: "vergencecm".to_string(), number: 2771, is_open: None });
    t.push(Port { service: "vfmobile".to_string(), number: 5646, is_open: None });
    t.push(Port { service: "vcmp".to_string(), number: 2426, is_open: None });
    t.push(Port { service: "vdmmesh".to_string(), number: 18668, is_open: None });
    t.push(Port { service: "vcnet-link-v10".to_string(), number: 2554, is_open: None });
    t.push(Port { service: "vatata".to_string(), number: 4188, is_open: None });
    t.push(Port { service: "vaprtm".to_string(), number: 3654, is_open: None });
    t.push(Port { service: "v5ua".to_string(), number: 5675, is_open: None });
    t.push(Port { service: "v2g-secc".to_string(), number: 15118, is_open: None });
    t.push(Port { service: "suucp".to_string(), number: 4031, is_open: None });
    t.push(Port { service: "utsftp".to_string(), number: 2529, is_open: None });
    t.push(Port { service: "ua-secureagent".to_string(), number: 19194, is_open: None });
    t
}

fn chunk_92() -> (t: Vec<Port>)
    ensures
        t@.len() == 50,
        forall|i: int| 0 <= i < t@.len() ==> entry_matches(#[trigger] t@[i], chunk_entry_92(i)),
        forall|i: int| 0 <= i < t@.len() ==> table_entry_ok(#[trigger] t@[i]),
{
    let mut t: Vec<Port> = Vec::new();
    t.push(Port { service: "ums".to_string(), number: 2248, is_open: None });
    t.push(Port { service: "edtools".to_string(), number: 1142, is_open: None });
    t.push(Port { service: "nnsp".to_string(), number: 433, is_open: None });
    t.push(Port { service: "urld-port".to_string(), number: 3534, is_open: None });
    t.push(Port { service: "ups-engine".to_string(), number: 3664, is_open: None });
    t.push(Port { service: "upgrade".to_string(), number: 2537, is_open: None });
    t.push(Port { service: "utime".to_string(), number: 519, is_open: None });
    t.push(Port { service: "unglue".to_string(), number: 2655, is_open: None });
    t.push(Port { service: "universe_suite".to_string(), number: 4184, is_open: None });
    t.push(Port { service: "utcd".to_string(), number: 1506, is_open: None });
    t.push(Port { service: "umm-port".to_string(), number: 3098, is_open: None });
    t.push(Port { service: "ubroker".to_string(), number: 7887, is_open: None });
    t.push(Port { service: "unisys-eportal".to_string(), number: 37654, is_open: None });
    t.push(Port { service: "unisql-java".to_string(), number: 1979, is_open: None });
    t.push(Port { service: "uniport".to_string(), number: 9629, is_open: None });
    t.push(Port { service: "unihub-server".to_string(), number: 2357, is_open: None });
    t.push(Port { service: "unify-adapter".to_string(), number: 1889, is_open: None });
    t.push(Port { service: "uohost".to_string(), number: 3314, is_open: None });
    t.push(Port { service: "uorb".to_string(), number: 3313, is_open: None });
    t.push(Port { service: "unify-debug".to_string(), number: 4867, is_open: None });
    t.push(Port { service: "unifyadmin".to_string(), number: 2696, is_open: None });
    t.push(Port { service: "unite".to_string(), number: 3217, is_open: None });
    t.push(Port { service: "ufmp".to_string(), number: 6306, is_open: None });
    t.push(Port { service: "unet".to_string(), number: 1189, is_open: None });
    t.push(Port { service: "undo-lm".to_string(), number: 5281, is_open: None });
    t.push(Port { service: "ub-dns-control".to_string(), number: 8953, is_open: None });
    t.push(Port { service: "ultrabac".to_string(), number: 1910, is_open: None });
    t.push(Port { service: "ucontrol".to_string(), number: 13894, is_open: None });
    t.push(Port { service: "ulistserv".to_string(), number: 372, is_open: None });
    t.push(Port { service: "ufastro-instr".to_string(), number: 3720, is_open: None });
    t.push(Port { service: "udt_os".to_string(), number: 1382, is_open: None });
    t.push(Port { service: "udrawgraph".to_string(), number: 2542, is_open: None });
    t.push(Port { service: "u-dbap".to_string(), number: 3584, is_open: None });
    t.push(Port { service: "ubxd".to_string(), number: 4034, is_open: None });
    t.push(Port { service: "uaac".to_string(), number: 145, is_open: None });
    t.push(Port { service: "tw-auth-key".to_string(), number: 27999, is_open: None });
    t.push(Port { service: "tvpm".to_string(), number: 21800, is_open: None });
    t.push(Port { service: "tve-announce".to_string(), number: 2670, is_open: None });
    t.push(Port { service: "tvdumtray-port".to_string(), number: 3492, is_open: None });
    t.push(Port { service: "tvnetworkvideo".to_string(), number: 3791, is_open: None });
    t.push(Port { service: "proactivate".to_string(), number: 24678, is_open: None });
    t.push(Port { service: "turbonote-2".to_string(), number: 34249, is_open: None });
    t.push(Port { service: "turbonote-1".to_string(), number: 39681, is_open: None });
    t.push(Port { service: "tunstall-pnc".to_string(), number: 1846, is_open: None });
    t.push(Port { service: "tunstall-lwp".to_string(), number: 5197, is_open: None });
    t.push(Port { service: "ttl-publisher".to_string(), number: 5462, is_open: None });
    t.push(Port { service: "ttlpriceproxy".to_string(), number: 5463, is_open: None });
    t.push(Port { service: "ttg-protocol".to_string(), number: 2862, is_open: None });
    t.push(Port { service: "ttc-etap-ns".to_string(), number: 2977, is_open: None });
    t.push(Port { service: "ttc-etap-ds".to_string(), number: 2978, is_open: None });
    t
}

fn chunk_93() -> (t: Vec<Port>)
    ensures
        t@.len() == 50,
        forall|i: int| 0 <= i < t@.len() ==> entry_matches(#[trigger] t@[i], chunk_entry_93(i)),
        forall|i: int| 0 <= i < t@.len() ==> table_entry_ok(#[trigger] t@[i]),
{
    let mut t: Vec<Port> = Vec::new();
    t.push(Port { service: "ttcmremotectrl".to_string(), number: 3468, is_open: None });
    t.push(Port { service: "ttc-etap".to_string(), number: 2675, is_open: None });
    t.push(Port { service: "ttntspauto".to_string(), number: 3474, is_open: None });
    t.push(Port { service: "tsepisp".to_string(), number: 4422, is_open: None });
    t.push(Port { service: "tsaf".to_string(), number: 12753, is_open: None });
    t.push(Port { service: "netbackup".to_string(), number: 13709, is_open: None });
    t.push(Port { service: "twsdss".to_string(), number: 3012, is_open: None });
    t.push(Port { service: "trustestablish".to_string(), number: 2573, is_open: None });
    t.push(Port { service: "visicron-vs".to_string(), number: 4307, is_open: None });
    t.push(Port { service: "truckstar".to_string(), number: 4725, is_open: None });
    t.push(Port { service: "trnsprntproxy".to_string(), number: 3346, is_open: None });
    t.push(Port { service: "tnmpv2".to_string(), number: 3686, is_open: None });
    t.push(Port { service: "tripe".to_string(), number: 4070, is_open: None });
    t.push(Port { service: "trispen-sra".to_string(), number: 9555, is_open: None });
    t.push(Port { service: "trinity-dist".to_string(), number: 4711, is_open: None });
    t.push(Port { service: "trim-ice".to_string(), number: 4323, is_open: None });
    t.push(Port { service: "trim-event".to_string(), number: 4322, is_open: None });
    t.push(Port { service: "trisoap".to_string(), number: 10200, is_open: None });
    t.push(Port { service: "trident-data".to_string(), number: 7727, is_open: None });
    t.push(Port { service: "trendchip-dcp".to_string(), number: 3608, is_open: None });
    t.push(Port { service: "treehopper".to_string(), number: 3959, is_open: None });
    t.push(Port { service: "trc-netpoll".to_string(), number: 2405, is_open: None });
    t.push(Port { service: "trap-port-mom".to_string(), number: 3858, is_open: None });
    t.push(Port { service: "trap-port".to_string(), number: 3857, is_open: None });
    t.push(Port { service: "hid".to_string(), number: 24322, is_open: None });
    t.push(Port { service: "tipc".to_string(), number: 6118, is_open: None });
    t.push(Port { service: "tl-ipcproxy".to_string(), number: 4176, is_open: None });
    t.push(Port { service: "tarp".to_string(), number: 6442, is_open: None });
    t.push(Port { service: "twds".to_string(), number: 8937, is_open: None });
    t.push(Port { service: "trdp-pd".to_string(), number: 17224, is_open: None });
    t.push(Port { service: "trdp-md".to_string(), number: 17225, is_open: None });
    t.push(Port { service: "asa-gateways".to_string(), number: 7234, is_open: None });
    t.push(Port { service: "traceroute".to_string(), number: 33434, is_open: None });
    t.push(Port { service: "tpmd".to_string(), number: 1906, is_open: None });
    t.push(Port { service: "codemeter-cmwan".to_string(), number: 22351, is_open: None });
    t.push(Port { service: "touchnetplus".to_string(), number: 2158, is_open: None });
    t.push(Port { service: "toruxserver".to_string(), number: 5153, is_open: None });
    t.push(Port { service: "topflow-ssl".to_string(), number: 3885, is_open: None });
    t.push(Port { service: "tonidods".to_string(), number: 24465, is_open: None });
    t.push(Port { service: "tomato-springs".to_string(), number: 3040, is_open: None });
    t.push(Port { service: "tolfab".to_string(), number: 20167, is_open: None });
    t.push(Port { service: "toad-bi-appsrvr".to_string(), number: 8066, is_open: None });
    t.push(Port { service: "tn-tl-w1".to_string(), number: 474, is_open: None });
    t.push(Port { service: "tns-server".to_string(), number: 3308, is_open: None });
    t.push(Port { service: "tns-cml".to_string(), number: 590, is_open: None });
    t.push(Port { service: "tns-adv".to_string(), number: 3309, is_open: None });
    t.push(Port { service: "tnos-dp".to_string(), number: 7902, is_open: None });
    t.push(Port { service: "tnos-sp".to_string(), number: 7901, is_open: None });
    t.push(Port { service: "tnos-dps".to_string(), number: 7903, is_open: None });
    t.push(Port { service: "tn-timing".to_string(), number: 2739, is_open: None });
    t
}

fn chunk_94() -> (t: Vec<Port>)
    ensures
        t@.len() == 50,
        forall|i: int| 0 <= i < t@.len() ==> entry_matches(#[trigger] t@[i], chunk_entry_94(i)),
        forall|i: int| 0 <= i < t@.len() ==> table_entry_ok(#[trigger] t@[i]),
{
    let mut t: Vec<Port> = Vec::new();
    t.push(Port { service: "tmophl7mts".to_string(), number: 20046, is_open: None });
    t.push(Port { service: "fac-restore".to_string(), number: 5582, is_open: None });
    t.push(Port { service: "tmo-icon-sync".to_string(), number: 5583, is_open: None });
    t.push(Port { service: "mipv6tls".to_string(), number: 7872, is_open: None });
    t.push(Port { service: "netbackup".to_string(), number: 13716, is_open: None });
    t.push(Port { service: "netbackup".to_string(), number: 13717, is_open: None });
    t.push(Port { service: "netbackup".to_string(), number: 13705, is_open: None });
    t.push(Port { service: "tl1-ssh".to_string(), number: 6252, is_open: None });
    t.push(Port { service: "tksocket".to_string(), number: 2915, is_open: None });
    t.push(Port { service: "tivoli-npm".to_string(), number: 1965, is_open: None });
    t.push(Port { service: "integral".to_string(), number: 3459, is_open: None });
    t.push(Port { service: "tip-app-server".to_string(), number: 3160, is_open: None });
    t.push(Port { service: "timestenbroker".to_string(), number: 3754, is_open: None });
    t.push(Port { service: "timelot".to_string(), number: 3243, is_open: None });
    t.push(Port { service: "tile-ml".to_string(), number: 10261, is_open: None });
    t.push(Port { service: "t2-drm".to_string(), number: 7932, is_open: None });
    t.push(Port { service: "t2-brm".to_string(), number: 7933, is_open: None });
    t.push(Port { service: "tiepie".to_string(), number: 5450, is_open: None });
    t.push(Port { service: "tibsd".to_string(), number: 11971, is_open: None });
    t.push(Port { service: "is99c".to_string(), number: 379, is_open: None });
    t.push(Port { service: "tidp".to_string(), number: 7548, is_open: None });
    t.push(Port { service: "tht-treasure".to_string(), number: 1832, is_open: None });
    t.push(Port { service: "tcpdataserver".to_string(), number: 3805, is_open: None });
    t.push(Port { service: "cadsisvr".to_string(), number: 16789, is_open: None });
    t.push(Port { service: "thingkit".to_string(), number: 4423, is_open: None });
    t.push(Port { service: "tnp-discover".to_string(), number: 8320, is_open: None });
    t.push(Port { service: "tnp".to_string(), number: 8321, is_open: None });
    t.push(Port { service: "theta-lm".to_string(), number: 2296, is_open: None });
    t.push(Port { service: "swx".to_string(), number: 7359, is_open: None });
    t.push(Port { service: "swx".to_string(), number: 7358, is_open: None });
    t.push(Port { service: "swx".to_string(), number: 7357, is_open: None });
    t.push(Port { service: "swx".to_string(), number: 7356, is_open: None });
    t.push(Port { service: "swx".to_string(), number: 7355, is_open: None });
    t.push(Port { service: "swx".to_string(), number: 7354, is_open: None });
    t.push(Port { service: "swx".to_string(), number: 7353, is_open: None });
    t.push(Port { service: "swx".to_string(), number: 7352, is_open: None });
    t.push(Port { service: "swx".to_string(), number: 7351, is_open: None });
    t.push(Port { service: "swx".to_string(), number: 7350, is_open: None });
    t.push(Port { service: "swx".to_string(), number: 7349, is_open: None });
    t.push(Port { service: "swx".to_string(), number: 7348, is_open: None });
    t.push(Port { service: "swx".to_string(), number: 7347, is_open: None });
    t.push(Port { service: "swx".to_string(), number: 7346, is_open: None });
    t.push(Port { service: "swx".to_string(), number: 7344, is_open: None });
    t.push(Port { service: "swx".to_string(), number: 7343, is_open: None });
    t.push(Port { service: "swx".to_string(), number: 7342, is_open: None });
    t.push(Port { service: "swx".to_string(), number: 7341, is_open: None });
    t.push(Port { service: "swx".to_string(), number: 7340, is_open: None });
    t.push(Port { service: "swx".to_string(), number: 7339, is_open: None });
    t.push(Port { service: "swx".to_string(), number: 7338, is_open: None });
    t.push(Port { service: "swx".to_string(), number: 7337, is_open: None });
    t
}

fn chunk_95() -> (t: Vec<Port>)
    ensures
        t@.len() == 50,
        forall|i: int| 0 <= i < t@.len() ==> entry_matches(#[trigger] t@[i], chunk_entry_95(i)),
        forall|i: int| 0 <= i < t@.len() ==> table_entry_ok(#[trigger] t@[i]),
{
    let mut t: Vec<Port> = Vec::new();
    t.push(Port { service: "swx".to_string(), number: 7336, is_open: None });
    t.push(Port { service: "swx".to_string(), number: 7335, is_open: None });
    t.push(Port { service: "swx".to_string(), number: 7334, is_open: None });
    t.push(Port { service: "swx".to_string(), number: 7333, is_open: None });
    t.push(Port { service: "swx".to_string(), number: 7332, is_open: None });
    t.push(Port { service: "swx".to_string(), number: 7331, is_open: None });
    t.push(Port { service: "swx".to_string(), number: 7330, is_open: None });
    t.push(Port { service: "swx".to_string(), number: 7329, is_open: None });
    t.push(Port { service: "swx".to_string(), number: 7328, is_open: None });
    t.push(Port { service: "swx".to_string(), number: 7327, is_open: None });
    t.push(Port { service: "swx".to_string(), number: 7324, is_open: None });
    t.push(Port { service: "swx".to_string(), number: 7323, is_open: None });
    t.push(Port { service: "swx".to_string(), number: 7322, is_open: None });
    t.push(Port { service: "swx".to_string(), number: 7321, is_open: None });
    t.push(Port { service: "swx".to_string(), number: 7319, is_open: None });
    t.push(Port { service: "swx".to_string(), number: 7318, is_open: None });
    t.push(Port { service: "swx".to_string(), number: 7317, is_open: None });
    t.push(Port { service: "swx".to_string(), number: 7316, is_open: None });
    t.push(Port { service: "swx".to_string(), number: 7315, is_open: None });
    t.push(Port { service: "swx".to_string(), number: 7314, is_open: None });
    t.push(Port { service: "swx".to_string(), number: 7313, is_open: None });
    t.push(Port { service: "swx".to_string(), number: 7312, is_open: None });
    t.push(Port { service: "swx".to_string(), number: 7311, is_open: None });
    t.push(Port { service: "swx".to_string(), number: 7310, is_open: None });
    t.push(Port { service: "swx".to_string(), number: 7309, is_open: None });
    t.push(Port { service: "swx".to_string(), number: 7308, is_open: None });
    t.push(Port { service: "swx".to_string(), number: 7307, is_open: None });
    t.push(Port { service: "swx".to_string(), number: 7306, is_open: None });
    t.push(Port { service: "swx".to_string(), number: 7305, is_open: None });
    t.push(Port { service: "swx".to_string(), number: 7304, is_open: None });
    t.push(Port { service: "swx".to_string(), number: 7303, is_open: None });
    t.push(Port { service: "swx".to_string(), number: 7302, is_open: None });
    t.push(Port { service: "swx".to_string(), number: 7301, is_open: None });
    t.push(Port { service: "puppet".to_string(), number: 8140, is_open: None });
    t.push(Port { service: "ampl-tableproxy".to_string(), number: 5196, is_open: None });
    t.push(Port { service: "ampl-lic".to_string(), number: 5195, is_open: None });
    t.push(Port { service: "damewaremobgtwy".to_string(), number: 6130, is_open: None });
    t.push(Port { service: "apsolab-rpc".to_string(), number: 5474, is_open: None });
    t.push(Port { service: "apsolab-cols".to_string(), number: 5471, is_open: None });
    t.push(Port { service: "apsolab-tag".to_string(), number: 5472, is_open: None });
    t.push(Port { service: "apsolab-col".to_string(), number: 5470, is_open: None });
    t.push(Port { service: "tgcconnect".to_string(), number: 4146, is_open: None });
    t.push(Port { service: "tftps".to_string(), number: 3713, is_open: None });
    t.push(Port { service: "texai".to_string(), number: 5048, is_open: None });
    t.push(Port { service: "tetrinet".to_string(), number: 31457, is_open: None });
    t.push(Port { service: "tesla-sys-msg".to_string(), number: 7631, is_open: None });
    t.push(Port { service: "teredo".to_string(), number: 3544, is_open: None });
    t.push(Port { service: "tentacle".to_string(), number: 41121, is_open: None });
    t.push(Port { service: "tempest-port".to_string(), number: 11600, is_open: None });
    t.push(Port { service: "telnetcpcd".to_string(), number: 3696, is_open: None });
    t
}

fn chunk_96() -> (t: Vec<Port>)
    ensures
        t@.len() == 50,
        forall|i: int| 0 <= i < t@.len() ==> entry_matches(#[trigger] t@[i], chunk_entry_96(i)),
        forall|i: int| 0 <= i < t@.len() ==> table_entry_ok(#[trigger] t@[i]),
{
    let mut t: Vec<Port> = Vec::new();
    t.push(Port { service: "tellumat-nms".to_string(), number: 3549, is_open: None });
    t.push(Port { service: "telesis-licman".to_string(), number: 1380, is_open: None });
    t.push(Port { service: "brf-gw".to_string(), number: 22951, is_open: None });
    t.push(Port { service: "aws-brf".to_string(), number: 22800, is_open: None });
    t.push(Port { service: "mc3ss".to_string(), number: 3521, is_open: None });
    t.push(Port { service: "teleniumdaemon".to_string(), number: 2060, is_open: None });
    t.push(Port { service: "miami-bcast".to_string(), number: 6083, is_open: None });
    t.push(Port { service: "tec5-sdctp".to_string(), number: 9668, is_open: None });
    t.push(Port { service: "taserver".to_string(), number: 3552, is_open: None });
    t.push(Port { service: "tdp-suite".to_string(), number: 1814, is_open: None });
    t.push(Port { service: "tcoaddressbook".to_string(), number: 1977, is_open: None });
    t.push(Port { service: "tclprodebugger".to_string(), number: 2576, is_open: None });
    t.push(Port { service: "tcim-control".to_string(), number: 2729, is_open: None });
    t.push(Port { service: "tcc-http".to_string(), number: 24680, is_open: None });
    t.push(Port { service: "netbackup".to_string(), number: 13710, is_open: None });
    t.push(Port { service: "netbackup".to_string(), number: 13712, is_open: None });
    t.push(Port { service: "tasp-net".to_string(), number: 25900, is_open: None });
    t.push(Port { service: "taskmaster2000".to_string(), number: 2403, is_open: None });
    t.push(Port { service: "taskmaster2000".to_string(), number: 2402, is_open: None });
    t.push(Port { service: "taskman-port".to_string(), number: 2470, is_open: None });
    t.push(Port { service: "targus-getdata3".to_string(), number: 5203, is_open: None });
    t.push(Port { service: "ttat3lb".to_string(), number: 3579, is_open: None });
    t.push(Port { service: "tappi-boxnet".to_string(), number: 2306, is_open: None });
    t.push(Port { service: "dwf".to_string(), number: 1450, is_open: None });
    t.push(Port { service: "talon-webserver".to_string(), number: 7015, is_open: None });
    t.push(Port { service: "talon-engine".to_string(), number: 7012, is_open: None });
    t.push(Port { service: "talon-disc".to_string(), number: 7011, is_open: None });
    t.push(Port { service: "talikaserver".to_string(), number: 22763, is_open: None });
    t.push(Port { service: "talarian-mqs".to_string(), number: 2493, is_open: None });
    t.push(Port { service: "talarian-mcast5".to_string(), number: 4019, is_open: None });
    t.push(Port { service: "talarian-mcast4".to_string(), number: 4018, is_open: None });
    t.push(Port { service: "talarian-mcast3".to_string(), number: 4017, is_open: None });
    t.push(Port { service: "talarian-mcast1".to_string(), number: 4015, is_open: None });
    t.push(Port { service: "trp".to_string(), number: 2156, is_open: None });
    t.push(Port { service: "tacticalauth".to_string(), number: 2392, is_open: None });
    t.push(Port { service: "t1-e1-over-ip".to_string(), number: 3175, is_open: None });
    t.push(Port { service: "t1distproc60".to_string(), number: 32249, is_open: None });
    t.push(Port { service: "t128-gateway".to_string(), number: 1627, is_open: None });
    t.push(Port { service: "swdtp".to_string(), number: 10104, is_open: None });
    t.push(Port { service: "systemics-sox".to_string(), number: 5406, is_open: None });
    t.push(Port { service: "system-monitor".to_string(), number: 2609, is_open: None });
    t.push(Port { service: "sysrqd".to_string(), number: 4094, is_open: None });
    t.push(Port { service: "sysorb".to_string(), number: 3241, is_open: None });
    t.push(Port { service: "syslog-tls".to_string(), number: 6514, is_open: None });
    t.push(Port { service: "syserverremote".to_string(), number: 6418, is_open: None });
    t.push(Port { service: "sysscanner".to_string(), number: 3251, is_open: None });
    t.push(Port { service: "synel-data".to_string(), number: 3734, is_open: None });
    t.push(Port { service: "dbsyncarbiter".to_string(), number: 4953, is_open: None });
    t.push(Port { service: "syncserverssl".to_string(), number: 2679, is_open: None });
    t.push(Port { service: "synapsis-edge".to_string(), number: 5008, is_open: None });
    t
}

fn chunk_97() -> (t: Vec<Port>)
    ensures
        t@.len() == 50,
        forall|i: int| 0 <= i < t@.len() ==> entry_matches(#[trigger] t@[i], chunk_entry_97(i)),
        forall|i: int| 0 <= i < t@.len() ==> table_entry_ok(#[trigger] t@[i]),
{
    let mut t: Vec<Port> = Vec::new();
    t.push(Port { service: "synapse".to_string(), number: 2880, is_open: None });
    t.push(Port { service: "synapse-nhttps".to_string(), number: 8243, is_open: None });
    t.push(Port { service: "synapse-nhttp".to_string(), number: 8280, is_open: None });
    t.push(Port { service: "scscp".to_string(), number: 26133, is_open: None });
    t.push(Port { service: "d-fence".to_string(), number: 8555, is_open: None });
    t.push(Port { service: "symantec-sfdb".to_string(), number: 5629, is_open: None });
    t.push(Port { service: "symantec-sim".to_string(), number: 3547, is_open: None });
    t.push(Port { service: "ics".to_string(), number: 5639, is_open: None });
    t.push(Port { service: "flcrs".to_string(), number: 5638, is_open: None });
    t.push(Port { service: "cssc".to_string(), number: 5637, is_open: None });
    t.push(Port { service: "autobuild".to_string(), number: 5115, is_open: None });
    t.push(Port { service: "sychrond".to_string(), number: 3723, is_open: None });
    t.push(Port { service: "sybasesrvmon".to_string(), number: 4950, is_open: None });
    t.push(Port { service: "syam-smc".to_string(), number: 3895, is_open: None });
    t.push(Port { service: "syam-agent".to_string(), number: 3894, is_open: None });
    t.push(Port { service: "swr-port".to_string(), number: 3491, is_open: None });
    t.push(Port { service: "ssrip".to_string(), number: 3318, is_open: None });
    t.push(Port { service: "svdrp".to_string(), number: 6419, is_open: None });
    t.push(Port { service: "smpppd".to_string(), number: 3185, is_open: None });
    t.push(Port { service: "sur-meas".to_string(), number: 243, is_open: None });
    t.push(Port { service: "surveyinst".to_string(), number: 3212, is_open: None });
    t.push(Port { service: "laes-bf".to_string(), number: 9536, is_open: None });
    t.push(Port { service: "discovery-port".to_string(), number: 1925, is_open: None });
    t.push(Port { service: "snss".to_string(), number: 11171, is_open: None });
    t.push(Port { service: "svcloud".to_string(), number: 8404, is_open: None });
    t.push(Port { service: "svbackup".to_string(), number: 8405, is_open: None });
    t.push(Port { service: "SunVTS-RMI".to_string(), number: 6483, is_open: None });
    t.push(Port { service: "sunscalar-svc".to_string(), number: 1860, is_open: None });
    t.push(Port { service: "sunscalar-dns".to_string(), number: 1870, is_open: None });
    t.push(Port { service: "sunclustergeo".to_string(), number: 2084, is_open: None });
    t.push(Port { service: "sunwebadmins".to_string(), number: 8989, is_open: None });
    t.push(Port { service: "smc-admin".to_string(), number: 6787, is_open: None });
    t.push(Port { service: "dzoglserver".to_string(), number: 3867, is_open: None });
    t.push(Port { service: "dzdaemon".to_string(), number: 3866, is_open: None });
    t.push(Port { service: "sun-mc-grp".to_string(), number: 5306, is_open: None });
    t.push(Port { service: "sunlps-http".to_string(), number: 3816, is_open: None });
    t.push(Port { service: "sun-lm".to_string(), number: 7588, is_open: None });
    t.push(Port { service: "smc-jmx".to_string(), number: 6786, is_open: None });
    t.push(Port { service: "suncacao-websvc".to_string(), number: 11165, is_open: None });
    t.push(Port { service: "suncacao-snmp".to_string(), number: 11161, is_open: None });
    t.push(Port { service: "suncacao-rmi".to_string(), number: 11163, is_open: None });
    t.push(Port { service: "suncacao-jmxmp".to_string(), number: 11162, is_open: None });
    t.push(Port { service: "suncacao-csa".to_string(), number: 11164, is_open: None });
    t.push(Port { service: "sun-as-iiops".to_string(), number: 3708, is_open: None });
    t.push(Port { service: "sun-as-nodeagt".to_string(), number: 4850, is_open: None });
    t.push(Port { service: "sun-user-https".to_string(), number: 7677, is_open: None });
    t.push(Port { service: "subseven".to_string(), number: 16959, is_open: None });
    t.push(Port { service: "subntbcst_tftp".to_string(), number: 247, is_open: None });
    t.push(Port { service: "stuns".to_string(), number: 5349, is_open: None });
    t.push(Port { service: "stun".to_string(), number: 3478, is_open: None });
    t
}

fn chunk_98() -> (t: Vec<Port>)
    ensures
        t@.len() == 50,
        forall|i: int| 0 <= i < t@.len() ==> entry_matches(#[trigger] t@[i], chunk_entry_98(i)),
        forall|i: int| 0 <= i < t@.len() ==> table_entry_ok(#[trigger] t@[i]),
{
    let mut t: Vec<Port> = Vec::new();
    t.push(Port { service: "stryker-com".to_string(), number: 3854, is_open: None });
    t.push(Port { service: "stresstester".to_string(), number: 5397, is_open: None });
    t.push(Port { service: "daqstream".to_string(), number: 7411, is_open: None });
    t.push(Port { service: "streamcomm-ds".to_string(), number: 9612, is_open: None });
    t.push(Port { service: "t5-straton".to_string(), number: 11173, is_open: None });
    t.push(Port { service: "storview".to_string(), number: 9293, is_open: None });
    t.push(Port { service: "strexec-s".to_string(), number: 5027, is_open: None });
    t.push(Port { service: "strexec-d".to_string(), number: 5026, is_open: None });
    t.push(Port { service: "storageos".to_string(), number: 5705, is_open: None });
    t.push(Port { service: "uec".to_string(), number: 8778, is_open: None });
    t.push(Port { service: "stx".to_string(), number: 527, is_open: None });
    t.push(Port { service: "sti-envision".to_string(), number: 1312, is_open: None });
    t.push(Port { service: "ssports-bcast".to_string(), number: 8808, is_open: None });
    t.push(Port { service: "statsci1-lm".to_string(), number: 6144, is_open: None });
    t.push(Port { service: "sttunnel".to_string(), number: 7471, is_open: None });
    t.push(Port { service: "ssp".to_string(), number: 3249, is_open: None });
    t.push(Port { service: "stat-scanner".to_string(), number: 4157, is_open: None });
    t.push(Port { service: "stat-results".to_string(), number: 4156, is_open: None });
    t.push(Port { service: "start-network".to_string(), number: 3615, is_open: None });
    t.push(Port { service: "dali-port".to_string(), number: 5777, is_open: None });
    t.push(Port { service: "stdptc".to_string(), number: 2154, is_open: None });
    t.push(Port { service: "ssr-servermgr".to_string(), number: 45966, is_open: None });
    t.push(Port { service: "ssh-mgmt".to_string(), number: 17235, is_open: None });
    t.push(Port { service: "srvc_registry".to_string(), number: 3018, is_open: None });
    t.push(Port { service: "sruth".to_string(), number: 38800, is_open: None });
    t.push(Port { service: "srp-feedback".to_string(), number: 2737, is_open: None });
    t.push(Port { service: "sqlsrv".to_string(), number: 156, is_open: None });
    t.push(Port { service: "spugna".to_string(), number: 3807, is_open: None });
    t.push(Port { service: "spss-lm".to_string(), number: 1759, is_open: None });
    t.push(Port { service: "sps-tunnel".to_string(), number: 2876, is_open: None });
    t.push(Port { service: "sossd-collect".to_string(), number: 7981, is_open: None });
    t.push(Port { service: "splitlock".to_string(), number: 3606, is_open: None });
    t.push(Port { service: "splitlock-gw".to_string(), number: 3647, is_open: None });
    t.push(Port { service: "spiral-admin".to_string(), number: 3438, is_open: None });
    t.push(Port { service: "spike".to_string(), number: 4683, is_open: None });
    t.push(Port { service: "sphinxql".to_string(), number: 9306, is_open: None });
    t.push(Port { service: "sphinxapi".to_string(), number: 9312, is_open: None });
    t.push(Port { service: "spg".to_string(), number: 7016, is_open: None });
    t.push(Port { service: "speedtrace".to_string(), number: 33334, is_open: None });
    t.push(Port { service: "svnet".to_string(), number: 3413, is_open: None });
    t.push(Port { service: "spectardb".to_string(), number: 3835, is_open: None });
    t.push(Port { service: "spectardata".to_string(), number: 3834, is_open: None });
    t.push(Port { service: "spearway".to_string(), number: 2440, is_open: None });
    t.push(Port { service: "spdy".to_string(), number: 6121, is_open: None });
    t.push(Port { service: "spamtrap".to_string(), number: 2568, is_open: None });
    t.push(Port { service: "soundsvirtual".to_string(), number: 17185, is_open: None });
    t.push(Port { service: "sossd-agent".to_string(), number: 7982, is_open: None });
    t.push(Port { service: "sonus-logging".to_string(), number: 2290, is_open: None });
    t.push(Port { service: "sonuscallsig".to_string(), number: 2569, is_open: None });
    t.push(Port { service: "sonardata".to_string(), number: 2863, is_open: None });
    t
}

fn chunk_99() -> (t: Vec<Port>)
    ensures
        t@.len() == 50,
        forall|i: int| 0 <= i < t@.len() ==> entry_matches(#[trigger] t@[i], chunk_entry_99(i)),
        forall|i: int| 0 <= i < t@.len() ==> table_entry_ok(#[trigger] t@[i]),
{
    let mut t: Vec<Port> = Vec::new();
    t.push(Port { service: "solid-e-engine".to_string(), number: 1964, is_open: None });
    t.push(Port { service: "solera-lpn".to_string(), number: 4738, is_open: None });
    t.push(Port { service: "solera-epmap".to_string(), number: 2132, is_open: None });
    t.push(Port { service: "sw-orion".to_string(), number: 17777, is_open: None });
    t.push(Port { service: "solaris-audit".to_string(), number: 16162, is_open: None });
    t.push(Port { service: "sum".to_string(), number: 6551, is_open: None });
    t.push(Port { service: "sftdst-port".to_string(), number: 3230, is_open: None });
    t.push(Port { service: "swx-gate".to_string(), number: 4538, is_open: None });
    t.push(Port { service: "softrack-meter".to_string(), number: 3884, is_open: None });
    t.push(Port { service: "swtp-port2".to_string(), number: 9282, is_open: None });
    t.push(Port { service: "swtp-port1".to_string(), number: 9281, is_open: None });
    t.push(Port { service: "socp-c".to_string(), number: 4882, is_open: None });
    t.push(Port { service: "social-alarm".to_string(), number: 5146, is_open: None });
    t.push(Port { service: "sntp-heartbeat".to_string(), number: 580, is_open: None });
    t.push(Port { service: "sns-quote".to_string(), number: 1967, is_open: None });
    t.push(Port { service: "sns-query".to_string(), number: 2659, is_open: None });
    t.push(Port { service: "sns-protocol".to_string(), number: 2409, is_open: None });
    t.push(Port { service: "sns-gateway".to_string(), number: 5416, is_open: None });
    t.push(Port { service: "sns-dispatcher".to_string(), number: 2657, is_open: None });
    t.push(Port { service: "sns-channels".to_string(), number: 3380, is_open: None });
    t.push(Port { service: "sns-agent".to_string(), number: 5417, is_open: None });
    t.push(Port { service: "sns-admin".to_string(), number: 2658, is_open: None });
    t.push(Port { service: "snmptls-trap".to_string(), number: 10162, is_open: None });
    t.push(Port { service: "snmptls".to_string(), number: 10161, is_open: None });
    t.push(Port { service: "snmpssh".to_string(), number: 5161, is_open: None });
    t.push(Port { service: "snmpssh-trap".to_string(), number: 5162, is_open: None });
    t.push(Port { service: "snip-slave".to_string(), number: 33656, is_open: None });
    t.push(Port { service: "sncp".to_string(), number: 7560, is_open: None });
    t.push(Port { service: "snapd".to_string(), number: 2599, is_open: None });
    t.push(Port { service: "sms-remctrl".to_string(), number: 2704, is_open: None });
    t.push(Port { service: "sms-chat".to_string(), number: 2703, is_open: None });
    t.push(Port { service: "d-cinema-csp".to_string(), number: 4170, is_open: None });
    t.push(Port { service: "smip".to_string(), number: 7734, is_open: None });
    t.push(Port { service: "stvp".to_string(), number: 3158, is_open: None });
    t.push(Port { service: "beacon-port-2".to_string(), number: 4426, is_open: None });
    t.push(Port { service: "smartcard-port".to_string(), number: 3516, is_open: None });
    t.push(Port { service: "smart-install".to_string(), number: 4786, is_open: None });
    t.push(Port { service: "smart-diagnose".to_string(), number: 2721, is_open: None });
    t.push(Port { service: "smart-lm".to_string(), number: 1608, is_open: None });
    t.push(Port { service: "smar-se-port2".to_string(), number: 4988, is_open: None });
    t.push(Port { service: "sma-spw".to_string(), number: 9522, is_open: None });
    t.push(Port { service: "slscc".to_string(), number: 4408, is_open: None });
    t.push(Port { service: "slp-notify".to_string(), number: 1847, is_open: None });
    t.push(Port { service: "slmap".to_string(), number: 36423, is_open: None });
    t.push(Port { service: "slc-systemlog".to_string(), number: 2826, is_open: None });
    t.push(Port { service: "slc-ctrlrloops".to_string(), number: 2827, is_open: None });
    t.push(Port { service: "skynetflow".to_string(), number: 8111, is_open: None });
    t.push(Port { service: "sky-transport".to_string(), number: 3556, is_open: None });
    t.push(Port { service: "skip-cert-send".to_string(), number: 6456, is_open: None });
    t.push(Port { service: "skip-cert-recv".to_string(), number: 6455, is_open: None });
    t
}

fn section_0() -> (t: Vec<Port>)
    ensures
        t@.len() == 500,
        forall|i: int| 0 <= i < t@.len() ==> entry_matches(#[trigger] t@[i], table_entry(0 + i)),
        forall|i: int| 0 <= i < t@.len() ==> table_entry_ok(#[trigger] t@[i]),
{
    let mut t: Vec<Port> = Vec::new();
    let mut c0 = chunk_0();
    t.append(&mut c0);
    let mut c1 = chunk_1();
    t.append(&mut c1);
    let mut c2 = chunk_2();
    t.append(&mut c2);
    let mut c3 = chunk_3();
    t.append(&mut c3);
    let mut c4 = chunk_4();
    t.append(&mut c4);
    let mut c5 = chunk_5();
    t.append(&mut c5);
    let mut c6 = chunk_6();
    t.append(&mut c6);
    let mut c7 = chunk_7();
    t.append(&mut c7);
    let mut c8 = chunk_8();
    t.append(&mut c8);
    let mut c9 = chunk_9();
    t.append(&mut c9);
    t
}

fn section_1() -> (t: Vec<Port>)
    ensures
        t@.len() == 500,
        forall|i: int| 0 <= i < t@.len() ==> entry_matches(#[trigger] t@[i], table_entry(500 + i)),
        forall|i: int| 0 <= i < t@.len() ==> table_entry_ok(#[trigger] t@[i]),
{
    let mut t: Vec<Port> = Vec::new();
    let mut c10 = chunk_10();
    t.append(&mut c10);
    let mut c11 = chunk_11();
    t.append(&mut c11);
    let mut c12 = chunk_12();
    t.append(&mut c12);
    let mut c13 = chunk_13();
    t.append(&mut c13);
    let mut c14 = chunk_14();
    t.append(&mut c14);
    let mut c15 = chunk_15();
    t.append(&mut c15);
    let mut c16 = chunk_16();
    t.append(&mut c16);
    let mut c17 = chunk_17();
    t.append(&mut c17);
    let mut c18 = chunk_18();
    t.append(&mut c18);
    let mut c19 = chunk_19();
    t.append(&mut c19);
    t
}

fn section_2() -> (t: Vec<Port>)
    ensures
        t@.len() == 500,
        forall|i: int| 0 <= i < t@.len() ==> entry_matches(#[trigger] t@[i], table_entry(1000 + i)),
        forall|i: int| 0 <= i < t@.len() ==> table_entry_ok(#[trigger] t@[i]),
{
    let mut t: Vec<Port> = Vec::new();
    let mut c20 = chunk_20();
    t.append(&mut c20);
    let mut c21 = chunk_21();
    t.append(&mut c21);
    let mut c22 = chunk_22();
    t.append(&mut c22);
    let mut c23 = chunk_23();
    t.append(&mut c23);
    let mut c24 = chunk_24();
    t.append(&mut c24);
    let mut c25 = chunk_25();
    t.append(&mut c25);
    let mut c26 = chunk_26();
    t.append(&mut c26);
    let mut c27 = chunk_27();
    t.append(&mut c27);
    let mut c28 = chunk_28();
    t.append(&mut c28);
    let mut c29 = chunk_29();
    t.append(&mut c29);
    t
}

fn section_3() -> (t: Vec<Port>)
    ensures
        t@.len() == 500,
        forall|i: int| 0 <= i < t@.len() ==> entry_matches(#[trigger] t@[i], table_entry(1500 + i)),
        forall|i: int| 0 <= i < t@.len() ==> table_entry_ok(#[trigger] t@[i]),
{
    let mut t: Vec<Port> = Vec::new();
    let mut c30 = chunk_30();
    t.append(&mut c30);
    let mut c31 = chunk_31();
    t.append(&mut c31);
    let mut c32 = chunk_32();
    t.append(&mut c32);
    let mut c33 = chunk_33();
    t.append(&mut c33);
    let mut c34 = chunk_34();
    t.append(&mut c34);
    let mut c35 = chunk_35();
    t.append(&mut c35);
    let mut c36 = chunk_36();
    t.append(&mut c36);
    let mut c37 = chunk_37();
    t.append(&mut c37);
    let mut c38 = chunk_38();
    t.append(&mut c38);
    let mut c39 = chunk_39();
    t.append(&mut c39);
    t
}

fn section_4() -> (t: Vec<Port>)
    ensures
        t@.len() == 500,
        forall|i: int| 0 <= i < t@.len() ==> entry_matches(#[trigger] t@[i], table_entry(2000 + i)),
        forall|i: int| 0 <= i < t@.len() ==> table_entry_ok(#[trigger] t@[i]),
{
    let mut t: Vec<Port> = Vec::new();
    let mut c40 = chunk_40();
    t.append(&mut c40);
    let mut c41 = chunk_41();
    t.append(&mut c41);
    let mut c42 = chunk_42();
    t.append(&mut c42);
    let mut c43 = chunk_43();
    t.append(&mut c43);
    let mut c44 = chunk_44();
    t.append(&mut c44);
    let mut c45 = chunk_45();
    t.append(&mut c45);
    let mut c46 = chunk_46();
    t.append(&mut c46);
    let mut c47 = chunk_47();
    t.append(&mut c47);
    let mut c48 = chunk_48();
    t.append(&mut c48);
    let mut c49 = chunk_49();
    t.append(&mut c49);
    t
}

fn section_5() -> (t: Vec<Port>)
    ensures
        t@.len() == 500,
        forall|i: int| 0 <= i < t@.len() ==> entry_matches(#[trigger] t@[i], table_entry(2500 + i)),
        forall|i: int| 0 <= i < t@.len() ==> table_entry_ok(#[trigger] t@[i]),
{
    let mut t: Vec<Port> = Vec::new();
    let mut c50 = chunk_50();
    t.append(&mut c50);
    let mut c51 = chunk_51();
    t.append(&mut c51);
    let mut c52 = chunk_52();
    t.append(&mut c52);
    let mut c53 = chunk_53();
    t.append(&mut c53);
    let mut c54 = chunk_54();
    t.append(&mut c54);
    let mut c55 = chunk_55();
    t.append(&mut c55);
    let mut c56 = chunk_56();
    t.append(&mut c56);
    let mut c57 = chunk_57();
    t.append(&mut c57);
    let mut c58 = chunk_58();
    t.append(&mut c58);
    let mut c59 = chunk_59();
    t.append(&mut c59);
    t
}

fn section_6() -> (t: Vec<Port>)
    ensures
        t@.len() == 500,
        forall|i: int| 0 <= i < t@.len() ==> entry_matches(#[trigger] t@[i], table_entry(3000 + i)),
        forall|i: int| 0 <= i < t@.len() ==> table_entry_ok(#[trigger] t@[i]),
{
    let mut t: Vec<Port> = Vec::new();
    let mut c60 = chunk_60();
    t.append(&mut c60);
    let mut c61 = chunk_61();
    t.append(&mut c61);
    let mut c62 = chunk_62();
    t.append(&mut c62);
    let mut c63 = chunk_63();
    t.append(&mut c63);
    let mut c64 = chunk_64();
    t.append(&mut c64);
    let mut c65 = chunk_65();
    t.append(&mut c65);
    let mut c66 = chunk_66();
    t.append(&mut c66);
    let mut c67 = chunk_67();
    t.append(&mut c67);
    let mut c68 = chunk_68();
    t.append(&mut c68);
    let mut c69 = chunk_69();
    t.append(&mut c69);
    t
}

fn section_7() -> (t: Vec<Port>)
    ensures
        t@.len() == 500,
        forall|i: int| 0 <= i < t@.len() ==> entry_matches(#[trigger] t@[i], table_entry(3500 + i)),
        forall|i: int| 0 <= i < t@.len() ==> table_entry_ok(#[trigger] t@[i]),
{
    let mut t: Vec<Port> = Vec::new();
    let mut c70 = chunk_70();
    t.append(&mut c70);
    let mut c71 = chunk_71();
    t.append(&mut c71);
    let mut c72 = chunk_72();
    t.append(&mut c72);
    let mut c73 = chunk_73();
    t.append(&mut c73);
    let mut c74 = chunk_74();
    t.append(&mut c74);
    let mut c75 = chunk_75();
    t.append(&mut c75);
    let mut c76 = chunk_76();
    t.append(&mut c76);
    let mut c77 = chunk_77();
    t.append(&mut c77);
    let mut c78 = chunk_78();
    t.append(&mut c78);
    let mut c79 = chunk_79();
    t.append(&mut c79);
    t
}

fn section_8() -> (t: Vec<Port>)
    ensures
        t@.len() == 500,
        forall|i: int| 0 <= i < t@.len() ==> entry_matches(#[trigger] t@[i], table_entry(4000 + i)),
        forall|i: int| 0 <= i < t@.len() ==> table_entry_ok(#[trigger] t@[i]),
{
    let mut t: Vec<Port> = Vec::new();
    let mut c80 = chunk_80();
    t.append(&mut c80);
    let mut c81 = chunk_81();
    t.append(&mut c81);
    let mut c82 = chunk_82();
    t.append(&mut c82);
    let mut c83 = chunk_83();
    t.append(&mut c83);
    let mut c84 = chunk_84();
    t.append(&mut c84);
    let mut c85 = chunk_85();
    t.append(&mut c85);
    let mut c86 = chunk_86();
    t.append(&mut c86);
    let mut c87 = chunk_87();
    t.append(&mut c87);
    let mut c88 = chunk_88();
    t.append(&mut c88);
    let mut c89 = chunk_89();
    t.append(&mut c89);
    t
}

fn section_9() -> (t: Vec<Port>)
    ensures
        t@.len() == 500,
        forall|i: int| 0 <= i < t@.len() ==> entry_matches(#[trigger] t@[i], table_entry(4500 + i)),
        forall|i: int| 0 <= i < t@.len() ==> table_entry_ok(#[trigger] t@[i]),
{
    let mut t: Vec<Port> = Vec::new();
    let mut c90 = chunk_90();
    t.append(&mut c90);
    let mut c91 = chunk_91();
    t.append(&mut c91);
    let mut c92 = chunk_92();
    t.append(&mut c92);
    let mut c93 = chunk_93();
    t.append(&mut c93);
    let mut c94 = chunk_94();
    t.append(&mut c94);
    let mut c95 = chunk_95();
    t.append(&mut c95);
    let mut c96 = chunk_96();
    t.append(&mut c96);
    let mut c97 = chunk_97();
    t.append(&mut c97);
    let mut c98 = chunk_98();
    t.append(&mut c98);
    let mut c99 = chunk_99();
    t.append(&mut c99);
    t
}

/// The full table, most common port first.
fn full_table() -> (t: Vec<Port>)
    ensures
        t@.len() == 5000,
        forall|i: int| 0 <= i < t@.len() ==> entry_matches(#[trigger] t@[i], table_entry(i)),
        forall|i: int| 0 <= i < t@.len() ==> table_entry_ok(#[trigger] t@[i]),
{
    let mut t: Vec<Port> = Vec::new();
    let mut s0 = section_0();
    t.append(&mut s0);
    let mut s1 = section_1();
    t.append(&mut s1);
    let mut s2 = section_2();
    t.append(&mut s2);
    let mut s3 = section_3();
    t.append(&mut s3);
    let mut s4 = section_4();
    t.append(&mut s4);
    let mut s5 = section_5();
    t.append(&mut s5);
    let mut s6 = section_6();
    t.append(&mut s6);
    let mut s7 = section_7();
    t.append(&mut s7);
    let mut s8 = section_8();
    t.append(&mut s8);
    let mut s9 = section_9();
    t.append(&mut s9);
    t
}

/// The `n` most common ports, most common first, capped at the size of
/// the table: entry `i` of the result is exactly the table's entry `i`,
/// its status still unknown.
pub fn get_common_ports(n: usize) -> (r: Vec<Port>)
    ensures
        r@.len() == if n <= MAX_COMMON_PORTS {
            n as int
        } else {
            MAX_COMMON_PORTS as int
        },
        forall|i: int| 0 <= i < r@.len() ==> entry_matches(#[trigger] r@[i], table_entry(i)),
        forall|i: int| 0 <= i < r@.len() ==> table_entry_ok(#[trigger] r@[i]),
{
    let mut table = full_table();
    let count = if n < MAX_COMMON_PORTS {
        n
    } else {
        MAX_COMMON_PORTS
    };
    table.truncate(count);
    table
}

} // verus!
