use stacksight::command_line::CommandLine;
use stacksight::network::{
    address_config, counter_from_text, default_gateway, interface_from_link, interface_stats,
    interface_update_commands, linux_arp_table, local_ip_from_route, merge_ip_neigh, parse_arp_output,
    parse_proc_arp, probe_commands, scan_devices, subnet_prefix, sweep_targets, vlan_interfaces, AddrFields, ArpEntry,
    CreateVlanRequest, InterfaceStatus, InterfaceType, IpVersion, LinkFields, NetworkDeviceType,
    NetworkError, UpdateInterfaceRequest, VlanTable,
};

fn s(x: &str) -> String {
    x.to_string()
}

fn arp(ip: &str, mac: &str, iface: &str) -> ArpEntry {
    ArpEntry { ip: s(ip), mac: s(mac), iface: s(iface) }
}

const ROUTE: &str = "Iface\tDestination\tGateway \tFlags\nwlan0\t0000A8C0\t00000000\t0001\nwlan0\t00000000\t0101A8C0\t0003\n";

#[test]
fn gateway_from_route_table() {
    assert_eq!(default_gateway(ROUTE), Some(s("192.168.1.1")));
    assert_eq!(default_gateway("Iface Destination Gateway\n"), None);
    assert_eq!(default_gateway(""), None);
    assert_eq!(default_gateway("h\neth0 00000000 zz\neth1 00000000 0100000A\n"), Some(s("10.0.0.1")));
}

#[test]
fn local_ip_from_ip_route() {
    assert_eq!(
        local_ip_from_route("1.1.1.1 via 192.168.1.1 dev wlan0 src 192.168.1.42 uid 1000\n    cache\n"),
        Some(s("192.168.1.42"))
    );
    assert_eq!(local_ip_from_route("unreachable"), None);
    assert_eq!(local_ip_from_route("dev x src"), None);
}

const PROC_ARP: &str = "IP address       HW type     Flags       HW address            Mask     Device\n\
192.168.1.1      0x1         0x2         aa:bb:cc:dd:ee:ff     *        wlan0\n\
192.168.1.7      0x1         0x0         00:00:00:00:00:00     *        wlan0\n\
192.168.1.9      0x1         0x2         11:22:33:44:55:66     *        wlan0\n";

#[test]
fn neighbour_tables() {
    assert_eq!(
        parse_proc_arp(PROC_ARP),
        vec![arp("192.168.1.1", "aa:bb:cc:dd:ee:ff", "wlan0"), arp("192.168.1.9", "11:22:33:44:55:66", "wlan0")]
    );
    let mut e = parse_proc_arp(PROC_ARP);
    merge_ip_neigh(
        &mut e,
        "192.168.1.9 dev wlan0 lladdr 11:22:33:44:55:66 STALE\n192.168.1.20 dev wlan0 lladdr de:ad:be:ef:00:01 REACHABLE\n192.168.1.30 dev wlan0 FAILED\n",
    );
    assert_eq!(e.len(), 3);
    assert_eq!(e[2], arp("192.168.1.20", "de:ad:be:ef:00:01", "wlan0"));
    assert_eq!(linux_arp_table(None, None), Vec::<ArpEntry>::new());
    assert_eq!(linux_arp_table(Some(PROC_ARP), None).len(), 2);
    assert_eq!(
        parse_arp_output("Interface: 192.168.1.42 --- 0x3\n  Internet Address      Physical Address      Type\n  192.168.1.1           aa-bb-cc-dd-ee-ff     dynamic\n", false),
        vec![arp("192.168.1.1", "aa-bb-cc-dd-ee-ff", "")]
    );
    assert_eq!(
        parse_arp_output("? (192.168.1.1) at aa:bb:cc:dd:ee:ff on en0 ifscope [ethernet]\n? (192.168.1.5) at (incomplete) on en0 ifscope [ethernet]\n", true),
        vec![arp("192.168.1.1", "aa:bb:cc:dd:ee:ff", "en0")]
    );
}

#[test]
fn scanning_the_subnet() {
    assert_eq!(subnet_prefix("192.168.1.1"), Some(s("192.168.1.")));
    assert_eq!(subnet_prefix("10.0.0"), None);
    let t = sweep_targets("10.0.0.");
    assert_eq!(t.len(), 254);
    assert_eq!(t[0], "10.0.0.1");
    assert_eq!(t[253], "10.0.0.254");
    let entries = vec![arp("192.168.1.1", "aa", "wlan0"), arp("192.168.1.9", "00:00:00:00:00:00", "wlan0"), arp("192.168.1.42", "", "wlan0")];
    let d = scan_devices(&entries, &Some(s("192.168.1.1")), &Some(s("192.168.1.42")));
    assert_eq!(d.len(), 3);
    assert_eq!(d[0].device_type, NetworkDeviceType::Gateway);
    assert_eq!(d[0].mac, Some(s("aa")));
    assert_eq!(d[1].device_type, NetworkDeviceType::Host);
    assert_eq!(d[1].mac, None);
    assert_eq!(d[2].device_type, NetworkDeviceType::LocalMachine);
    assert!(d.iter().all(|x| x.is_reachable && x.hostname.is_none()));
    let d = scan_devices(&vec![], &None, &Some(s("10.0.0.5")));
    assert_eq!(d.len(), 1);
    assert_eq!(d[0].ip, "10.0.0.5");
    assert_eq!(d[0].hostname, Some(s("localhost")));
    assert_eq!(d[0].device_type, NetworkDeviceType::LocalMachine);
}

#[test]
fn vlans_are_created_and_deleted() {
    let mut t = VlanTable::new();
    let v = t.create_vlan(&CreateVlanRequest { vlan_id: 10, name: s("lab"), parent_interface: s("eth0"), ip_address: None, netmask: None });
    assert_eq!(v.id, 10);
    assert!(v.enabled && v.ip_config.is_none());
    t.create_vlan(&CreateVlanRequest { vlan_id: 20, name: s("iot"), parent_interface: s("eth0"), ip_address: None, netmask: None });
    assert_eq!(t.vlans.len(), 2);
    let ifs = vlan_interfaces(&t.vlans);
    assert_eq!(ifs[0].name, "eth0.10");
    assert_eq!(ifs[0].display_name, "lab");
    assert_eq!(ifs[0].interface_type, InterfaceType::Vlan);
    assert_eq!(ifs[0].status, InterfaceStatus::Up);
    assert_eq!(ifs[0].mtu, 1500);
    assert_eq!(t.delete_vlan(10), Ok(()));
    assert_eq!(t.vlans.len(), 1);
    assert_eq!(t.vlans[0].id, 20);
    assert_eq!(t.vlans[0].name, "iot");
    assert_eq!(t.delete_vlan(10), Err(NetworkError::VlanNotFound(10)));
    assert_eq!(NetworkError::VlanNotFound(10).message(), "VLAN 10 not found");
}

#[test]
fn interfaces_from_ip_json() {
    let f = LinkFields {
        ifname: Some(s("eth0")),
        address: Some(s("aa:bb")),
        operstate: Some(s("UP")),
        mtu: Some(9000),
        link_type: Some(s("ether")),
        addr_info: Some(vec![
            AddrFields { local: Some(s("192.168.1.2")), prefixlen: Some(24) },
            AddrFields { local: Some(s("not an address")), prefixlen: None },
            AddrFields { local: Some(s("fe80::1")), prefixlen: None },
        ]),
    };
    let i = interface_from_link(&f).unwrap();
    assert_eq!(i.name, "eth0");
    assert_eq!(i.status, InterfaceStatus::Up);
    assert_eq!(i.mtu, 9000);
    assert_eq!(i.interface_type, InterfaceType::Ethernet);
    assert_eq!(i.ip_addresses.len(), 2);
    assert_eq!(i.ip_addresses[0].netmask, "/24");
    assert_eq!(i.ip_addresses[0].version, IpVersion::V4);
    assert_eq!(i.ip_addresses[1].netmask, "/24");
    assert_eq!(i.ip_addresses[1].version, IpVersion::V6);
    let lo = LinkFields { ifname: Some(s("lo")), address: None, operstate: None, mtu: None, link_type: Some(s("loopback")), addr_info: None };
    let l = interface_from_link(&lo).unwrap();
    assert_eq!(l.interface_type, InterfaceType::Loopback);
    assert_eq!(l.status, InterfaceStatus::Unknown);
    assert_eq!(l.mtu, 1500);
    let w = LinkFields { ifname: Some(s("wg0")), address: None, operstate: Some(s("DOWN")), mtu: None, link_type: Some(s("none")), addr_info: None };
    let wi = interface_from_link(&w).unwrap();
    assert_eq!(wi.interface_type, InterfaceType::Other(s("none")));
    assert_eq!(wi.status, InterfaceStatus::Down);
    let nameless = LinkFields { ifname: None, address: None, operstate: None, mtu: None, link_type: None, addr_info: None };
    assert!(interface_from_link(&nameless).is_none());
    assert!(address_config(&s("x"), Some(8), None).is_none());
    assert_eq!(address_config(&s("10.0.0.1"), Some(8), Some(IpVersion::V4)).unwrap().netmask, "/8");
}

#[test]
fn stats_and_updates() {
    assert_eq!(counter_from_text(" 1234\n"), 1234);
    assert_eq!(counter_from_text("oops"), 0);
    let st = interface_stats("eth0", "10\n", "20\n", "3\n", "4\n");
    assert_eq!((st.bytes_received, st.bytes_sent, st.packets_received, st.packets_sent), (10, 20, 3, 4));
    assert_eq!(st.interface, "eth0");
    let r = UpdateInterfaceRequest {
        interface: s("eth0"),
        ip_address: Some(s("10.0.0.2")),
        netmask: Some(s("24")),
        gateway: None,
        dns_servers: None,
        mtu: Some(1400),
    };
    assert_eq!(
        interface_update_commands(&r),
        vec![
            CommandLine { program: s("ip"), args: vec![s("addr"), s("add"), s("10.0.0.2/24"), s("dev"), s("eth0")], dir: None },
            CommandLine { program: s("ip"), args: vec![s("link"), s("set"), s("eth0"), s("mtu"), s("1400")], dir: None },
        ]
    );
    let only_ip = UpdateInterfaceRequest { netmask: None, mtu: None, ..r };
    assert!(interface_update_commands(&only_ip).is_empty());
}

#[test]
fn sweep_probes_per_platform() {
    let ip = "192.168.1.7".to_string();
    let linux = probe_commands(&ip, true, false, true);
    assert_eq!(linux.len(), 2);
    assert_eq!(linux[0].program, "ping");
    assert_eq!(linux[0].args, vec!["-c", "1", "-W", "1", "192.168.1.7"]);
    assert_eq!(linux[1].program, "arping");
    assert_eq!(linux[1].args, vec!["-c", "1", "-w", "1", "-I", "any", "192.168.1.7"]);
    let windows = probe_commands(&ip, false, true, false);
    assert_eq!(windows.len(), 1);
    assert_eq!(windows[0].args, vec!["-n", "1", "-w", "500", "192.168.1.7"]);
    let mac = probe_commands(&ip, true, false, false);
    assert_eq!(mac.len(), 1);
    assert!(probe_commands(&ip, false, false, false).is_empty());
}
