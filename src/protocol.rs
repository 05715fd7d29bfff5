use vstd::prelude::*;

verus! {
/// IANA protocol number of TCP.
pub const TCP: u8 = 6;

/// IANA protocol number of UDP.
pub const UDP: u8 = 17;

/// Name of an IANA protocol number (the IPv4 "protocol" / IPv6 "next header" field).
pub open spec fn protocol_name(p: u8) -> Seq<char> {
    match p {
        0 => "IPv6 Hop-by-Hop Option"@,
        1 => "ICMP"@,
        2 => "IGMP"@,
        3 => "Gateway-to-Gateway"@,
        4 => "IPv4 encapsulation"@,
        5 => "Stream"@,
        6 => "TCP"@,
        7 => "CBT"@,
        8 => "Exterior Gateway Protocol"@,
        9 => "Interior Gateway Protocol (IGP)"@,
        10 => "BBN RCC Monitoring"@,
        11 => "Network Voice Protocol"@,
        12 => "PUP"@,
        13 => "ARGUS (deprecated)"@,
        14 => "EMCON"@,
        15 => "Cross Net Debugger"@,
        16 => "CHAOS"@,
        17 => "UDP"@,
        18 => "Multiplexing"@,
        19 => "DCN Measurement Subsystems"@,
        20 => "Host Monitoring"@,
        21 => "Packet Radio Measurement"@,
        22 => "XEROX NS IDP"@,
        23 => "Trunk-1"@,
        24 => "Trunk-2"@,
        25 => "Leaf-1"@,
        26 => "Leaf-2"@,
        27 => "Reliable Data Protocol"@,
        28 => "Internet Reliable Transaction"@,
        29 => "ISO Transport Protocol Class 4"@,
        30 => "Bulk Data Transfer Protocol"@,
        31 => "MFE Network Services Protocol"@,
        32 => "MERIT Internodal Protocol"@,
        33 => "Datagram Congestion Control Protocol"@,
        34 => "Third Party Connect Protocol"@,
        35 => "Inter-Domain Policy Routing Protocol"@,
        36 => "XTP"@,
        37 => "Datagram Delivery Protocol"@,
        38 => "IDPR Control Message Transport Protocol"@,
        39 => "TP++ Transport Protocol"@,
        40 => "IL Transport Protocol"@,
        41 => "IPv6 encapsulation"@,
        42 => "Source Demand Routing Protocol"@,
        43 => "Routing Header for IPv6"@,
        44 => "Fragment Header for IPv6"@,
        45 => "Inter-Domain Routing Protocol"@,
        46 => "Reservation Protocol"@,
        47 => "Generic Routing Encapsulation"@,
        48 => "Dynamic Source Routing Protocol"@,
        49 => "BNA"@,
        50 => "Encapsulating Security Payload (ESP)"@,
        51 => "Authentication Header (AH)"@,
        52 => "Integrated Net Layer Security"@,
        53 => "IP with Encryption (deprecated)"@,
        54 => "NBMA Address Resolution Protocol"@,
        55 => "Minimal IPv4 Encapsulation"@,
        56 => "Transport Layer Security Protocol"@,
        57 => "SKIP"@,
        58 => "ICMP for IPv6"@,
        59 => "No Next Header for IPv6"@,
        60 => "Destination Options for IPv6"@,
        61 => "Any host internal protocol"@,
        62 => "CFTP"@,
        63 => "Any local network"@,
        64 => "SATNET and Backroom EXPAK"@,
        65 => "Kryptolan"@,
        66 => "MIT Remote Virtual Disk Protocol"@,
        67 => "Internet Pluribus Packet Core"@,
        68 => "Any distributed file system"@,
        69 => "SATNET Monitoring"@,
        70 => "VISA Protocol"@,
        71 => "Internet Packet Core Utility"@,
        72 => "Computer Protocol Network Executive"@,
        73 => "Computer Protocol Heart Beat"@,
        74 => "Wang Span Network"@,
        75 => "Packet Video Protocol"@,
        76 => "Backroom SATNET Monitoring"@,
        77 => "SUN ND PROTOCOL-Temporary"@,
        78 => "Wideband Monitoring"@,
        79 => "Wideband EXPAK"@,
        80 => "ISO Internet Protocol"@,
        81 => "VMTP"@,
        82 => "Secure VMTP"@,
        83 => "VINES"@,
        84 => "Internet Protocol Traffic Manager"@,
        85 => "NSFNET-IGP"@,
        86 => "Dissimilar Gateway Protocol"@,
        87 => "TCF"@,
        88 => "EIGRP"@,
        89 => "OSPFIGP"@,
        90 => "Sprite RPC Protocol"@,
        91 => "Locus Address Resolution Protocol"@,
        92 => "Multicast Transport Protocol"@,
        93 => "AX.25 Frames"@,
        94 => "IP-within-IP Encapsulation Protocol"@,
        95 => "Mobile Internetworking Control Protocol (deprecated)"@,
        96 => "Semaphore Communications Sec. Protocol"@,
        97 => "Ethernet-within-IP Encapsulation"@,
        98 => "Encapsulation Header"@,
        99 => "Any private encryption scheme"@,
        100 => "GMTP"@,
        101 => "Ipsilon Flow Management Protocol"@,
        102 => "PNNI over IP"@,
        103 => "Protocol Independent Multicast"@,
        104 => "ARIS"@,
        105 => "SCPS"@,
        106 => "QNX"@,
        107 => "Active Networks"@,
        108 => "IP Payload Compression Protocol"@,
        109 => "Sitara Networks Protocol"@,
        110 => "Compaq Peer Protocol"@,
        111 => "IPX in IP"@,
        112 => "Virtual Router Redundancy Protocol"@,
        113 => "PGM Reliable Transport Protocol"@,
        114 => "Any 0-hop protocol"@,
        115 => "Layer Two Tunneling Protocol (L2TP)"@,
        116 => "D-II Data Exchange"@,
        117 => "Interactive Agent Transfer Protocol"@,
        118 => "Schedule Transfer Protocol"@,
        119 => "SpectraLink Radio Protocol"@,
        120 => "UTI"@,
        121 => "Simple Message Protocol"@,
        122 => "Simple Multicast Protocol (deprecated)"@,
        123 => "Performance Transparency Protocol"@,
        124 => "ISIS over IPv4"@,
        125 => "FIRE"@,
        126 => "Combat Radio Transport Protocol"@,
        127 => "Combat Radio User Datagram"@,
        128 => "SSCOPMCE"@,
        129 => "IPLT"@,
        130 => "Secure Packet Shield"@,
        131 => "Private IP Encapsulation within IP"@,
        132 => "Stream Control Transmission Protocol (SCTP)"@,
        133 => "Fibre Channel"@,
        134 => "RSVP-E2E-IGNORE"@,
        135 => "Mobility Header"@,
        136 => "UDP Lite"@,
        137 => "MPLS-in-IP"@,
        138 => "MANET Protocols"@,
        139 => "Host Identity Protocol"@,
        140 => "Shim6 Protocol"@,
        141 => "Wrapped Encapsulating Security Payload"@,
        142 => "Robust Header Compression"@,
        143 => "Ethernet"@,
        144 => "AGGFRAG encapsulation payload for ESP"@,
        145 => "Network Service Header"@,
        253 => "Use for experimentation and testing"@,
        254 => "Use for experimentation and testing"@,
        255 => "Reserved"@,
        _ => "Unassigned"@,
    }
}

/// Service usually reached on a TCP destination port.
pub open spec fn tcp_service_name(port: u16) -> Seq<char> {
    match port {
        0 => "Reserved"@,
        1 => "TCP Port Service Multiplexer (TCPMUX)"@,
        2 => "Management Utility"@,
        3 => "CompressNET Management Utility"@,
        5 => "Remote Job Entry (RJE)"@,
        7 => "Echo"@,
        9 => "Discard"@,
        11 => "Active Users"@,
        13 => "Daytime"@,
        15 => "Not Used"@,
        17 => "Quote of the Day (QOTD)"@,
        19 => "Chargen"@,
        20 => "FTP Data"@,
        21 => "FTP Control"@,
        22 => "SSH"@,
        23 => "Telnet"@,
        25 => "SMTP"@,
        37 => "Time"@,
        42 => "WINS"@,
        43 => "WHOIS"@,
        49 => "TACACS"@,
        53 => "DNS"@,
        67 => "DHCP Server"@,
        68 => "DHCP Client"@,
        69 => "TFTP"@,
        79 => "Finger"@,
        80 => "HTTP"@,
        110 => "POP3"@,
        119 => "NNTP"@,
        123 => "NTP"@,
        143 => "IMAP"@,
        161 => "SNMP"@,
        162 => "SNMP Trap"@,
        194 => "IRC"@,
        220 => "IMAP3"@,
        443 => "HTTPS"@,
        445 => "SMB"@,
        464 => "Kerberos Change/Set Password"@,
        514 => "Syslog"@,
        515 => "LPD"@,
        543 => "Klogin"@,
        544 => "Kshell"@,
        548 => "AFP"@,
        587 => "SMTP Secure"@,
        631 => "IPP"@,
        993 => "IMAPS"@,
        995 => "POP3S"@,
        2049 => "NFS"@,
        3306 => "MySQL"@,
        3389 => "RDP (Remote Desktop Protocol)"@,
        5432 => "PostgreSQL"@,
        5900 => "VNC"@,
        6379 => "Redis"@,
        8080 => "HTTP Alternative"@,
        8443 => "HTTPS Alternative"@,
        8888 => "HTTP Alternative"@,
        9090 => "Web Management"@,
        10000 => "Webmin"@,
        _ => if 6660 <= port <= 6669 {
            "IRC"@
        } else {
            "Reserved/Unassigned"@
        },
    }
}

/// Service usually reached on a UDP destination port.
pub open spec fn udp_service_name(port: u16) -> Seq<char> {
    match port {
        0 => "Reserved"@,
        53 => "DNS"@,
        67 => "DHCP Server"@,
        68 => "DHCP Client"@,
        69 => "TFTP"@,
        123 => "NTP"@,
        161 => "SNMP"@,
        162 => "SNMP Trap"@,
        514 => "Syslog"@,
        1883 => "MQTT"@,
        3333 => "Cassandra"@,
        3702 => "WS-Discovery"@,
        4500 => "IPsec NAT-T"@,
        5353 => "mDNS"@,
        5060 => "SIP"@,
        5061 => "SIP Secure"@,
        51413 => "BitTorrent"@,
        18787 => "AVAHI"@,
        8021 => "FTP-Proxy"@,
        4242 => "Warcraft III"@,
        28960 => "Call of Duty"@,
        5222 => "XMPP"@,
        5555 => "ADB (Android Debug Bridge)"@,
        6666 => "IRC"@,
        9119 => "Steam"@,
        2049 => "NFS"@,
        5355 => "LLMNR"@,
        6101 => "Worms Armageddon"@,
        6667 => "IRC"@,
        9000 => "Sonos"@,
        8080 => "HTTP Alternative"@,
        9001 => "Tor"@,
        1935 => "RTMP (Real-Time Messaging Protocol)"@,
        554 => "RTSP (Real-Time Streaming Protocol)"@,
        7070 => "Real-Time Streaming Protocol (RTSP)"@,
        5004 => "RTP (Real-Time Transport Protocol)"@,
        5005 => "RTCP (Real-Time Control Protocol)"@,
        55443 => "WebRTC"@,
        3434 => "MSN Messenger"@,
        _ => "Reserved/Unassigned"@,
    }
}

/// Label of a protocol number. Total over the whole byte range.
pub fn get_next_level_protocol(protocol: u8) -> (r: &'static str)
    ensures
        r@ == protocol_name(protocol),
        protocol == TCP ==> r@ == "TCP"@,
        protocol == UDP ==> r@ == "UDP"@,
        protocol == 1 ==> r@ == "ICMP"@,
        146 <= protocol <= 252 ==> r@ == "Unassigned"@,
        r@.len() > 0,
{
    proof {
        lemma_protocol_name_not_empty(protocol);
    }
    match protocol {
        0 => "IPv6 Hop-by-Hop Option",
        1 => "ICMP",
        2 => "IGMP",
        3 => "Gateway-to-Gateway",
        4 => "IPv4 encapsulation",
        5 => "Stream",
        6 => "TCP",
        7 => "CBT",
        8 => "Exterior Gateway Protocol",
        9 => "Interior Gateway Protocol (IGP)",
        10 => "BBN RCC Monitoring",
        11 => "Network Voice Protocol",
        12 => "PUP",
        13 => "ARGUS (deprecated)",
        14 => "EMCON",
        15 => "Cross Net Debugger",
        16 => "CHAOS",
        17 => "UDP",
        18 => "Multiplexing",
        19 => "DCN Measurement Subsystems",
        20 => "Host Monitoring",
        21 => "Packet Radio Measurement",
        22 => "XEROX NS IDP",
        23 => "Trunk-1",
        24 => "Trunk-2",
        25 => "Leaf-1",
        26 => "Leaf-2",
        27 => "Reliable Data Protocol",
        28 => "Internet Reliable Transaction",
        29 => "ISO Transport Protocol Class 4",
        30 => "Bulk Data Transfer Protocol",
        31 => "MFE Network Services Protocol",
        32 => "MERIT Internodal Protocol",
        33 => "Datagram Congestion Control Protocol",
        34 => "Third Party Connect Protocol",
        35 => "Inter-Domain Policy Routing Protocol",
        36 => "XTP",
        37 => "Datagram Delivery Protocol",
        38 => "IDPR Control Message Transport Protocol",
        39 => "TP++ Transport Protocol",
        40 => "IL Transport Protocol",
        41 => "IPv6 encapsulation",
        42 => "Source Demand Routing Protocol",
        43 => "Routing Header for IPv6",
        44 => "Fragment Header for IPv6",
        45 => "Inter-Domain Routing Protocol",
        46 => "Reservation Protocol",
        47 => "Generic Routing Encapsulation",
        48 => "Dynamic Source Routing Protocol",
        49 => "BNA",
        50 => "Encapsulating Security Payload (ESP)",
        51 => "Authentication Header (AH)",
        52 => "Integrated Net Layer Security",
        53 => "IP with Encryption (deprecated)",
        54 => "NBMA Address Resolution Protocol",
        55 => "Minimal IPv4 Encapsulation",
        56 => "Transport Layer Security Protocol",
        57 => "SKIP",
        58 => "ICMP for IPv6",
        59 => "No Next Header for IPv6",
        60 => "Destination Options for IPv6",
        61 => "Any host internal protocol",
        62 => "CFTP",
        63 => "Any local network",
        64 => "SATNET and Backroom EXPAK",
        65 => "Kryptolan",
        66 => "MIT Remote Virtual Disk Protocol",
        67 => "Internet Pluribus Packet Core",
        68 => "Any distributed file system",
        69 => "SATNET Monitoring",
        70 => "VISA Protocol",
        71 => "Internet Packet Core Utility",
        72 => "Computer Protocol Network Executive",
        73 => "Computer Protocol Heart Beat",
        74 => "Wang Span Network",
        75 => "Packet Video Protocol",
        76 => "Backroom SATNET Monitoring",
        77 => "SUN ND PROTOCOL-Temporary",
        78 => "Wideband Monitoring",
        79 => "Wideband EXPAK",
        80 => "ISO Internet Protocol",
        81 => "VMTP",
        82 => "Secure VMTP",
        83 => "VINES",
        84 => "Internet Protocol Traffic Manager",
        85 => "NSFNET-IGP",
        86 => "Dissimilar Gateway Protocol",
        87 => "TCF",
        88 => "EIGRP",
        89 => "OSPFIGP",
        90 => "Sprite RPC Protocol",
        91 => "Locus Address Resolution Protocol",
        92 => "Multicast Transport Protocol",
        93 => "AX.25 Frames",
        94 => "IP-within-IP Encapsulation Protocol",
        95 => "Mobile Internetworking Control Protocol (deprecated)",
        96 => "Semaphore Communications Sec. Protocol",
        97 => "Ethernet-within-IP Encapsulation",
        98 => "Encapsulation Header",
        99 => "Any private encryption scheme",
        100 => "GMTP",
        101 => "Ipsilon Flow Management Protocol",
        102 => "PNNI over IP",
        103 => "Protocol Independent Multicast",
        104 => "ARIS",
        105 => "SCPS",
        106 => "QNX",
        107 => "Active Networks",
        108 => "IP Payload Compression Protocol",
        109 => "Sitara Networks Protocol",
        110 => "Compaq Peer Protocol",
        111 => "IPX in IP",
        112 => "Virtual Router Redundancy Protocol",
        113 => "PGM Reliable Transport Protocol",
        114 => "Any 0-hop protocol",
        115 => "Layer Two Tunneling Protocol (L2TP)",
        116 => "D-II Data Exchange",
        117 => "Interactive Agent Transfer Protocol",
        118 => "Schedule Transfer Protocol",
        119 => "SpectraLink Radio Protocol",
        120 => "UTI",
        121 => "Simple Message Protocol",
        122 => "Simple Multicast Protocol (deprecated)",
        123 => "Performance Transparency Protocol",
        124 => "ISIS over IPv4",
        125 => "FIRE",
        126 => "Combat Radio Transport Protocol",
        127 => "Combat Radio User Datagram",
        128 => "SSCOPMCE",
        129 => "IPLT",
        130 => "Secure Packet Shield",
        131 => "Private IP Encapsulation within IP",
        132 => "Stream Control Transmission Protocol (SCTP)",
        133 => "Fibre Channel",
        134 => "RSVP-E2E-IGNORE",
        135 => "Mobility Header",
        136 => "UDP Lite",
        137 => "MPLS-in-IP",
        138 => "MANET Protocols",
        139 => "Host Identity Protocol",
        140 => "Shim6 Protocol",
        141 => "Wrapped Encapsulating Security Payload",
        142 => "Robust Header Compression",
        143 => "Ethernet",
        144 => "AGGFRAG encapsulation payload for ESP",
        145 => "Network Service Header",
        146..=252 => "Unassigned",
        253 => "Use for experimentation and testing",
        254 => "Use for experimentation and testing",
        255 => "Reserved",
    }
}

/// Service label of a TCP segment, decided by its destination port alone.
pub fn identify_tcp_application(src_port: u16, dst_port: u16) -> (r: Option<&'static str>)
    ensures
        r matches Some(s) && s@ == tcp_service_name(dst_port),
{
    match dst_port {
        0 => Some("Reserved"),
        1 => Some("TCP Port Service Multiplexer (TCPMUX)"),
        2 => Some("Management Utility"),
        3 => Some("CompressNET Management Utility"),
        5 => Some("Remote Job Entry (RJE)"),
        7 => Some("Echo"),
        9 => Some("Discard"),
        11 => Some("Active Users"),
        13 => Some("Daytime"),
        15 => Some("Not Used"),
        17 => Some("Quote of the Day (QOTD)"),
        19 => Some("Chargen"),
        20 => Some("FTP Data"),
        21 => Some("FTP Control"),
        22 => Some("SSH"),
        23 => Some("Telnet"),
        25 => Some("SMTP"),
        37 => Some("Time"),
        42 => Some("WINS"),
        43 => Some("WHOIS"),
        49 => Some("TACACS"),
        53 => Some("DNS"),
        67 => Some("DHCP Server"),
        68 => Some("DHCP Client"),
        69 => Some("TFTP"),
        79 => Some("Finger"),
        80 => Some("HTTP"),
        110 => Some("POP3"),
        119 => Some("NNTP"),
        123 => Some("NTP"),
        143 => Some("IMAP"),
        161 => Some("SNMP"),
        162 => Some("SNMP Trap"),
        194 => Some("IRC"),
        220 => Some("IMAP3"),
        443 => Some("HTTPS"),
        445 => Some("SMB"),
        464 => Some("Kerberos Change/Set Password"),
        514 => Some("Syslog"),
        515 => Some("LPD"),
        543 => Some("Klogin"),
        544 => Some("Kshell"),
        548 => Some("AFP"),
        587 => Some("SMTP Secure"),
        631 => Some("IPP"),
        993 => Some("IMAPS"),
        995 => Some("POP3S"),
        2049 => Some("NFS"),
        3306 => Some("MySQL"),
        3389 => Some("RDP (Remote Desktop Protocol)"),
        5432 => Some("PostgreSQL"),
        5900 => Some("VNC"),
        6379 => Some("Redis"),
        6660..=6669 => Some("IRC"),
        8080 => Some("HTTP Alternative"),
        8443 => Some("HTTPS Alternative"),
        8888 => Some("HTTP Alternative"),
        9090 => Some("Web Management"),
        10000 => Some("Webmin"),
        _ => Some("Reserved/Unassigned"),
    }
}

/// Service label of a UDP datagram, decided by its destination port alone.
pub fn identify_udp_application(src_port: u16, dst_port: u16) -> (r: Option<&'static str>)
    ensures
        r matches Some(s) && s@ == udp_service_name(dst_port),
{
    match dst_port {
        0 => Some("Reserved"),
        53 => Some("DNS"),
        67 => Some("DHCP Server"),
        68 => Some("DHCP Client"),
        69 => Some("TFTP"),
        123 => Some("NTP"),
        161 => Some("SNMP"),
        162 => Some("SNMP Trap"),
        514 => Some("Syslog"),
        1883 => Some("MQTT"),
        3333 => Some("Cassandra"),
        3702 => Some("WS-Discovery"),
        4500 => Some("IPsec NAT-T"),
        5353 => Some("mDNS"),
        5060 => Some("SIP"),
        5061 => Some("SIP Secure"),
        51413 => Some("BitTorrent"),
        18787 => Some("AVAHI"),
        8021 => Some("FTP-Proxy"),
        4242 => Some("Warcraft III"),
        28960 => Some("Call of Duty"),
        5222 => Some("XMPP"),
        5555 => Some("ADB (Android Debug Bridge)"),
        6666 => Some("IRC"),
        9119 => Some("Steam"),
        2049 => Some("NFS"),
        5355 => Some("LLMNR"),
        6101 => Some("Worms Armageddon"),
        6667 => Some("IRC"),
        9000 => Some("Sonos"),
        8080 => Some("HTTP Alternative"),
        9001 => Some("Tor"),
        1935 => Some("RTMP (Real-Time Messaging Protocol)"),
        554 => Some("RTSP (Real-Time Streaming Protocol)"),
        7070 => Some("Real-Time Streaming Protocol (RTSP)"),
        5004 => Some("RTP (Real-Time Transport Protocol)"),
        5005 => Some("RTCP (Real-Time Control Protocol)"),
        55443 => Some("WebRTC"),
        3434 => Some("MSN Messenger"),
        _ => Some("Reserved/Unassigned"),
    }
}

/// Every protocol label is a non-empty text.
pub proof fn lemma_protocol_name_not_empty(p: u8)
    ensures
        protocol_name(p).len() > 0,
{
    match p {
        0 => reveal_strlit("IPv6 Hop-by-Hop Option"),
        1 => reveal_strlit("ICMP"),
        2 => reveal_strlit("IGMP"),
        3 => reveal_strlit("Gateway-to-Gateway"),
        4 => reveal_strlit("IPv4 encapsulation"),
        5 => reveal_strlit("Stream"),
        6 => reveal_strlit("TCP"),
        7 => reveal_strlit("CBT"),
        8 => reveal_strlit("Exterior Gateway Protocol"),
        9 => reveal_strlit("Interior Gateway Protocol (IGP)"),
        10 => reveal_strlit("BBN RCC Monitoring"),
        11 => reveal_strlit("Network Voice Protocol"),
        12 => reveal_strlit("PUP"),
        13 => reveal_strlit("ARGUS (deprecated)"),
        14 => reveal_strlit("EMCON"),
        15 => reveal_strlit("Cross Net Debugger"),
        16 => reveal_strlit("CHAOS"),
        17 => reveal_strlit("UDP"),
        18 => reveal_strlit("Multiplexing"),
        19 => reveal_strlit("DCN Measurement Subsystems"),
        20 => reveal_strlit("Host Monitoring"),
        21 => reveal_strlit("Packet Radio Measurement"),
        22 => reveal_strlit("XEROX NS IDP"),
        23 => reveal_strlit("Trunk-1"),
        24 => reveal_strlit("Trunk-2"),
        25 => reveal_strlit("Leaf-1"),
        26 => reveal_strlit("Leaf-2"),
        27 => reveal_strlit("Reliable Data Protocol"),
        28 => reveal_strlit("Internet Reliable Transaction"),
        29 => reveal_strlit("ISO Transport Protocol Class 4"),
        30 => reveal_strlit("Bulk Data Transfer Protocol"),
        31 => reveal_strlit("MFE Network Services Protocol"),
        32 => reveal_strlit("MERIT Internodal Protocol"),
        33 => reveal_strlit("Datagram Congestion Control Protocol"),
        34 => reveal_strlit("Third Party Connect Protocol"),
        35 => reveal_strlit("Inter-Domain Policy Routing Protocol"),
        36 => reveal_strlit("XTP"),
        37 => reveal_strlit("Datagram Delivery Protocol"),
        38 => reveal_strlit("IDPR Control Message Transport Protocol"),
        39 => reveal_strlit("TP++ Transport Protocol"),
        40 => reveal_strlit("IL Transport Protocol"),
        41 => reveal_strlit("IPv6 encapsulation"),
        42 => reveal_strlit("Source Demand Routing Protocol"),
        43 => reveal_strlit("Routing Header for IPv6"),
        44 => reveal_strlit("Fragment Header for IPv6"),
        45 => reveal_strlit("Inter-Domain Routing Protocol"),
        46 => reveal_strlit("Reservation Protocol"),
        47 => reveal_strlit("Generic Routing Encapsulation"),
        48 => reveal_strlit("Dynamic Source Routing Protocol"),
        49 => reveal_strlit("BNA"),
        50 => reveal_strlit("Encapsulating Security Payload (ESP)"),
        51 => reveal_strlit("Authentication Header (AH)"),
        52 => reveal_strlit("Integrated Net Layer Security"),
        53 => reveal_strlit("IP with Encryption (deprecated)"),
        54 => reveal_strlit("NBMA Address Resolution Protocol"),
        55 => reveal_strlit("Minimal IPv4 Encapsulation"),
        56 => reveal_strlit("Transport Layer Security Protocol"),
        57 => reveal_strlit("SKIP"),
        58 => reveal_strlit("ICMP for IPv6"),
        59 => reveal_strlit("No Next Header for IPv6"),
        60 => reveal_strlit("Destination Options for IPv6"),
        61 => reveal_strlit("Any host internal protocol"),
        62 => reveal_strlit("CFTP"),
        63 => reveal_strlit("Any local network"),
        64 => reveal_strlit("SATNET and Backroom EXPAK"),
        65 => reveal_strlit("Kryptolan"),
        66 => reveal_strlit("MIT Remote Virtual Disk Protocol"),
        67 => reveal_strlit("Internet Pluribus Packet Core"),
        68 => reveal_strlit("Any distributed file system"),
        69 => reveal_strlit("SATNET Monitoring"),
        70 => reveal_strlit("VISA Protocol"),
        71 => reveal_strlit("Internet Packet Core Utility"),
        72 => reveal_strlit("Computer Protocol Network Executive"),
        73 => reveal_strlit("Computer Protocol Heart Beat"),
        74 => reveal_strlit("Wang Span Network"),
        75 => reveal_strlit("Packet Video Protocol"),
        76 => reveal_strlit("Backroom SATNET Monitoring"),
        77 => reveal_strlit("SUN ND PROTOCOL-Temporary"),
        78 => reveal_strlit("Wideband Monitoring"),
        79 => reveal_strlit("Wideband EXPAK"),
        80 => reveal_strlit("ISO Internet Protocol"),
        81 => reveal_strlit("VMTP"),
        82 => reveal_strlit("Secure VMTP"),
        83 => reveal_strlit("VINES"),
        84 => reveal_strlit("Internet Protocol Traffic Manager"),
        85 => reveal_strlit("NSFNET-IGP"),
        86 => reveal_strlit("Dissimilar Gateway Protocol"),
        87 => reveal_strlit("TCF"),
        88 => reveal_strlit("EIGRP"),
        89 => reveal_strlit("OSPFIGP"),
        90 => reveal_strlit("Sprite RPC Protocol"),
        91 => reveal_strlit("Locus Address Resolution Protocol"),
        92 => reveal_strlit("Multicast Transport Protocol"),
        93 => reveal_strlit("AX.25 Frames"),
        94 => reveal_strlit("IP-within-IP Encapsulation Protocol"),
        95 => reveal_strlit("Mobile Internetworking Control Protocol (deprecated)"),
        96 => reveal_strlit("Semaphore Communications Sec. Protocol"),
        97 => reveal_strlit("Ethernet-within-IP Encapsulation"),
        98 => reveal_strlit("Encapsulation Header"),
        99 => reveal_strlit("Any private encryption scheme"),
        100 => reveal_strlit("GMTP"),
        101 => reveal_strlit("Ipsilon Flow Management Protocol"),
        102 => reveal_strlit("PNNI over IP"),
        103 => reveal_strlit("Protocol Independent Multicast"),
        104 => reveal_strlit("ARIS"),
        105 => reveal_strlit("SCPS"),
        106 => reveal_strlit("QNX"),
        107 => reveal_strlit("Active Networks"),
        108 => reveal_strlit("IP Payload Compression Protocol"),
        109 => reveal_strlit("Sitara Networks Protocol"),
        110 => reveal_strlit("Compaq Peer Protocol"),
        111 => reveal_strlit("IPX in IP"),
        112 => reveal_strlit("Virtual Router Redundancy Protocol"),
        113 => reveal_strlit("PGM Reliable Transport Protocol"),
        114 => reveal_strlit("Any 0-hop protocol"),
        115 => reveal_strlit("Layer Two Tunneling Protocol (L2TP)"),
        116 => reveal_strlit("D-II Data Exchange"),
        117 => reveal_strlit("Interactive Agent Transfer Protocol"),
        118 => reveal_strlit("Schedule Transfer Protocol"),
        119 => reveal_strlit("SpectraLink Radio Protocol"),
        120 => reveal_strlit("UTI"),
        121 => reveal_strlit("Simple Message Protocol"),
        122 => reveal_strlit("Simple Multicast Protocol (deprecated)"),
        123 => reveal_strlit("Performance Transparency Protocol"),
        124 => reveal_strlit("ISIS over IPv4"),
        125 => reveal_strlit("FIRE"),
        126 => reveal_strlit("Combat Radio Transport Protocol"),
        127 => reveal_strlit("Combat Radio User Datagram"),
        128 => reveal_strlit("SSCOPMCE"),
        129 => reveal_strlit("IPLT"),
        130 => reveal_strlit("Secure Packet Shield"),
        131 => reveal_strlit("Private IP Encapsulation within IP"),
        132 => reveal_strlit("Stream Control Transmission Protocol (SCTP)"),
        133 => reveal_strlit("Fibre Channel"),
        134 => reveal_strlit("RSVP-E2E-IGNORE"),
        135 => reveal_strlit("Mobility Header"),
        136 => reveal_strlit("UDP Lite"),
        137 => reveal_strlit("MPLS-in-IP"),
        138 => reveal_strlit("MANET Protocols"),
        139 => reveal_strlit("Host Identity Protocol"),
        140 => reveal_strlit("Shim6 Protocol"),
        141 => reveal_strlit("Wrapped Encapsulating Security Payload"),
        142 => reveal_strlit("Robust Header Compression"),
        143 => reveal_strlit("Ethernet"),
        144 => reveal_strlit("AGGFRAG encapsulation payload for ESP"),
        145 => reveal_strlit("Network Service Header"),
        253 => reveal_strlit("Use for experimentation and testing"),
        254 => reveal_strlit("Use for experimentation and testing"),
        255 => reveal_strlit("Reserved"),
        _ => reveal_strlit("Unassigned"),
    }
}

} // verus!
