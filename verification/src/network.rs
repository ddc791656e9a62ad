//! Network interfaces, VLANs and the discovery of devices on the local
//! network: reading what the kernel and the `ip` tool report.
use vstd::prelude::*;
use crate::command_line::{cmd, CommandLine, CommandView};
use crate::text::{
    is_word, is_ws, lemma_split_ws_spaced, spaced,
    chars_eq, chars_eq_str, chars_of, contains_exec, contains_sub, dec, lines, lines_exec, lit,
    parse_unsigned, parse_unsigned_exec, push_dec, split_char, split_char_exec, split_ws,
    split_ws_exec, string_from_chars, sview, trim, trim_chars, vview,
};

verus! {

#[derive(Clone, Debug, PartialEq)]
pub enum IpVersion {
    V4,
    V6,
}

#[derive(Clone, Debug, PartialEq)]
pub enum InterfaceStatus {
    Up,
    Down,
    Unknown,
}

#[derive(Clone, Debug, PartialEq)]
pub enum InterfaceType {
    Ethernet,
    Wireless,
    Virtual,
    Loopback,
    Bridge,
    Vlan,
    Other(String),
}

/// An address of an interface: the address as text, the netmask as
/// `/prefix`, and its version.
#[derive(Clone, Debug, PartialEq)]
pub struct IpConfiguration {
    pub address: String,
    pub netmask: String,
    pub gateway: Option<String>,
    pub version: IpVersion,
}

/// DNS settings: the servers' addresses, as text, and the search domains.
#[derive(Clone, Debug, PartialEq)]
pub struct DnsConfiguration {
    pub servers: Vec<String>,
    pub search_domains: Vec<String>,
}

/// A bridge over several interfaces.
#[derive(Clone, Debug, PartialEq)]
pub struct BridgeConfig {
    pub name: String,
    pub interfaces: Vec<String>,
    pub stp_enabled: bool,
    pub ip_config: Option<IpConfiguration>,
}

#[derive(Clone, Debug, PartialEq)]
pub struct VlanConfig {
    pub id: u16,
    pub name: String,
    pub parent_interface: String,
    pub ip_config: Option<String>,
    pub enabled: bool,
}

/// A network interface; `speed` in Mbit/s.
#[derive(Clone, Debug, PartialEq)]
pub struct NetworkInterface {
    pub name: String,
    pub display_name: String,
    pub mac_address: Option<String>,
    pub ip_addresses: Vec<IpConfiguration>,
    pub status: InterfaceStatus,
    pub mtu: u32,
    pub speed: Option<u64>,
    pub interface_type: InterfaceType,
    pub vlans: Vec<VlanConfig>,
}

#[derive(Clone, Debug, PartialEq)]
pub enum Protocol {
    Tcp,
    Udp,
    Icmp,
    Any,
}

#[derive(Clone, Debug, PartialEq)]
pub struct NetworkStats {
    pub interface: String,
    pub bytes_sent: u64,
    pub bytes_received: u64,
    pub packets_sent: u64,
    pub packets_received: u64,
    pub errors_in: u64,
    pub errors_out: u64,
    pub dropped_in: u64,
    pub dropped_out: u64,
}

#[derive(Clone, Debug, PartialEq)]
pub enum NetworkDeviceType {
    Gateway,
    LocalMachine,
    Host,
    Unknown,
}

impl Default for NetworkDeviceType {
    fn default() -> (r: Self)
        ensures
            r == NetworkDeviceType::Unknown,
    {
        NetworkDeviceType::Unknown
    }
}

/// A device seen on the local network.
#[derive(Clone, Debug, PartialEq)]
pub struct NetworkDevice {
    pub ip: String,
    pub mac: Option<String>,
    pub hostname: Option<String>,
    pub interface: String,
    pub device_type: NetworkDeviceType,
    pub is_reachable: bool,
    pub vendor: Option<String>,
}

/// What a scan of the local network found.
#[derive(Clone, Debug, PartialEq)]
pub struct NetworkTopologyData {
    pub devices: Vec<NetworkDevice>,
    pub gateway: Option<String>,
    pub local_ip: Option<String>,
    pub scan_time: String,
}

#[derive(Clone, Debug, PartialEq)]
pub struct CreateVlanRequest {
    pub vlan_id: u16,
    pub name: String,
    pub parent_interface: String,
    pub ip_address: Option<String>,
    pub netmask: Option<String>,
}

#[derive(Clone, Debug, PartialEq)]
pub struct UpdateInterfaceRequest {
    pub interface: String,
    pub ip_address: Option<String>,
    pub netmask: Option<String>,
    pub gateway: Option<String>,
    pub dns_servers: Option<Vec<String>>,
    pub mtu: Option<u32>,
}

#[derive(Clone, Debug, PartialEq)]
pub struct CreateBridgeRequest {
    pub name: String,
    pub interfaces: Vec<String>,
    pub ip_config: Option<String>,
}

} // verus!

verus! {

// ---------------------------------------------------------------------------
// The default gateway, from /proc/net/route
// ---------------------------------------------------------------------------

/// An IPv4 address stored little-endian, written dotted: lowest byte first.
pub open spec fn dotted_le(g: nat) -> Seq<char> {
    dec(g % 256) + seq!['.'] + dec((g / 256) % 256) + seq!['.'] + dec((g / 65536) % 256) + seq![
        '.',
    ] + dec((g / 16777216) % 256)
}

/// The gateway of a routing-table line whose destination is `00000000`.
pub open spec fn route_line_gateway(l: Seq<char>) -> Option<Seq<char>> {
    let f = split_ws(l);
    if f.len() >= 3 && f[1] == "00000000"@ {
        match parse_unsigned(f[2], 16, 0xffff_ffff) {
            Some(g) => Some(dotted_le(g)),
            None => None,
        }
    } else {
        None
    }
}

/// A routing-table line with destination `00000000` names its gateway,
/// read as a little-endian hexadecimal address and written dotted with its
/// lowest byte first: the bytes `b0 b1 b2 b3` of the stored number give
/// `b0.b1.b2.b3`. A line with another destination names none.
pub proof fn default_route_names_the_gateway(words: Seq<Seq<char>>, b0: nat, b1: nat, b2: nat, b3: nat)
    requires
        words.len() >= 3,
        forall|i: int| 0 <= i < words.len() ==> is_word(#[trigger] words[i]),
        b0 < 256,
        b1 < 256,
        b2 < 256,
        b3 < 256,
    ensures
        words[1] != "00000000"@ ==> route_line_gateway(spaced(words)) is None,
        words[1] == "00000000"@ && parse_unsigned(words[2], 16, 0xffff_ffff) == Some(
            b0 + 256 * b1 + 65536 * b2 + 16777216 * b3,
        ) ==> route_line_gateway(spaced(words)) == Some(
            dec(b0) + seq!['.'] + dec(b1) + seq!['.'] + dec(b2) + seq!['.'] + dec(b3),
        ),
{
    lemma_split_ws_spaced(words);
    let g = b0 + 256 * b1 + 65536 * b2 + 16777216 * b3;
    assert(g % 256 == b0 && (g / 256) % 256 == b1 && (g / 65536) % 256 == b2 && (g / 16777216) % 256 == b3)
        by (nonlinear_arith)
        requires
            g == b0 + 256 * b1 + 65536 * b2 + 16777216 * b3,
            b0 < 256,
            b1 < 256,
            b2 < 256,
            b3 < 256,
    ;
}

/// The first line that names a gateway.
pub open spec fn first_gateway(ls: Seq<Seq<char>>) -> Option<Seq<char>>
    decreases ls.len(),
{
    if ls.len() == 0 {
        None
    } else {
        match route_line_gateway(ls[0]) {
            Some(g) => Some(g),
            None => first_gateway(ls.drop_first()),
        }
    }
}

/// The default gateway that the routing table (the text of
/// `/proc/net/route`, a header line first) names.
pub open spec fn default_gateway_spec(content: Seq<char>) -> Option<Seq<char>> {
    let ls = lines(content);
    if ls.len() == 0 {
        None
    } else {
        first_gateway(ls.drop_first())
    }
}

fn dotted_le_exec(g: u64) -> (r: Vec<char>)
    requires
        g <= 0xffff_ffff,
    ensures
        r@ == dotted_le(g as nat),
{
    let mut v: Vec<char> = Vec::new();
    push_dec(&mut v, g % 256);
    v.push('.');
    push_dec(&mut v, (g / 256) % 256);
    v.push('.');
    push_dec(&mut v, (g / 65536) % 256);
    v.push('.');
    push_dec(&mut v, (g / 16777216) % 256);
    assert(v@ =~= dotted_le(g as nat));
    v
}

/// The default gateway in the text of `/proc/net/route`.
pub fn default_gateway(content: &str) -> (r: Option<String>)
    ensures
        match default_gateway_spec(content@) {
            Some(g) => r matches Some(s) && s@ == g,
            None => r is None,
        },
{
    let text = chars_of(content);
    let ls = lines_exec(&text);
    let ghost all = vview(ls@);
    if ls.len() == 0 {
        return None;
    }
    let mut i: usize = 1;
    assert(all.drop_first() =~= all.subrange(1, all.len() as int));
    while i < ls.len()
        invariant
            1 <= i <= ls.len(),
            all == vview(ls@),
            all == lines(content@),
            first_gateway(all.drop_first()) == first_gateway(all.subrange(i as int, all.len() as int)),
        decreases ls.len() - i,
    {
        let ghost rest = all.subrange(i as int, all.len() as int);
        assert(rest[0] == ls@[i as int]@);
        assert(rest.drop_first() =~= all.subrange(i + 1, all.len() as int));
        let f = split_ws_exec(ls[i].as_slice());
        if f.len() >= 3 && chars_eq_str(f[1].as_slice(), "00000000") {
            if let Some(g) = parse_unsigned_exec(f[2].as_slice(), 16, 0xffff_ffff) {
                let d = dotted_le_exec(g);
                return Some(string_from_chars(&d));
            }
        }
        i = i + 1;
    }
    None
}

// ---------------------------------------------------------------------------
// The local address, from `ip route get`
// ---------------------------------------------------------------------------

/// The word after the first `src` that has one.
pub open spec fn src_after(w: Seq<Seq<char>>) -> Option<Seq<char>>
    decreases w.len(),
{
    if w.len() < 2 {
        None
    } else if w[0] == "src"@ {
        Some(w[1])
    } else {
        src_after(w.drop_first())
    }
}

/// The local address is the word right after the first `src`.
pub proof fn local_address_follows_src(w: Seq<Seq<char>>, j: int)
    requires
        0 <= j,
        j + 1 < w.len(),
        w[j] == "src"@,
        forall|i: int| 0 <= i < j ==> w[i] != "src"@,
    ensures
        src_after(w) == Some(w[j + 1]),
    decreases j,
{
    if j > 0 {
        let t = w.drop_first();
        assert forall|i: int| 0 <= i < j - 1 implies t[i] != "src"@ by {
            assert(t[i] == w[i + 1]);
        }
        assert(w[0] != "src"@);
        local_address_follows_src(t, j - 1);
    }
}

/// The preferred source address in the output of `ip route get`.
pub fn local_ip_from_route(output: &str) -> (r: Option<String>)
    ensures
        match src_after(split_ws(output@)) {
            Some(a) => r matches Some(s) && s@ == a,
            None => r is None,
        },
{
    let text = chars_of(output);
    let w = split_ws_exec(&text);
    let ghost all = vview(w@);
    let mut i: usize = 0;
    assert(all.subrange(0, all.len() as int) =~= all);
    while w.len() >= 2 && i < w.len() - 1
        invariant
            i <= w.len(),
            all == vview(w@),
            all == split_ws(output@),
            src_after(all) == src_after(all.subrange(i as int, all.len() as int)),
        decreases w.len() - i,
    {
        let ghost rest = all.subrange(i as int, all.len() as int);
        assert(rest.drop_first() =~= all.subrange(i + 1, all.len() as int));
        assert(rest[0] == w@[i as int]@);
        assert(rest[1] == w@[i + 1]@);
        if chars_eq_str(w[i].as_slice(), "src") {
            return Some(string_from_chars(w[i + 1].as_slice()));
        }
        i = i + 1;
    }
    None
}

} // verus!

verus! {

// ---------------------------------------------------------------------------
// The ARP table
// ---------------------------------------------------------------------------

/// A neighbour: its address, its hardware address and its interface.
#[derive(Clone, Debug, PartialEq)]
pub struct ArpEntry {
    pub ip: String,
    pub mac: String,
    pub iface: String,
}

pub open spec fn arp_view(e: ArpEntry) -> (Seq<char>, Seq<char>, Seq<char>) {
    (e.ip@, e.mac@, e.iface@)
}

pub open spec fn arps_view(s: Seq<ArpEntry>) -> Seq<(Seq<char>, Seq<char>, Seq<char>)> {
    s.map_values(|e: ArpEntry| arp_view(e))
}

/// A complete entry of `/proc/net/arp`: address, hardware address and
/// device, for a line of at least six fields whose hardware address is not
/// all zero and whose flags are not `0x0`.
pub open spec fn proc_arp_line(l: Seq<char>) -> Option<(Seq<char>, Seq<char>, Seq<char>)> {
    let f = split_ws(l);
    if f.len() >= 6 && f[3] != "00:00:00:00:00:00"@ && f[2] != "0x0"@ {
        Some((f[0], f[3], f[5]))
    } else {
        None
    }
}

pub open spec fn proc_arp_entries(ls: Seq<Seq<char>>) -> Seq<(Seq<char>, Seq<char>, Seq<char>)>
    decreases ls.len(),
{
    if ls.len() == 0 {
        Seq::empty()
    } else {
        let rest = proc_arp_entries(ls.drop_last());
        match proc_arp_line(ls.last()) {
            Some(e) => rest.push(e),
            None => rest,
        }
    }
}

/// The entries of the text of `/proc/net/arp` (a header line first).
pub open spec fn proc_arp_spec(content: Seq<char>) -> Seq<(Seq<char>, Seq<char>, Seq<char>)> {
    let ls = lines(content);
    if ls.len() == 0 {
        Seq::empty()
    } else {
        proc_arp_entries(ls.drop_first())
    }
}

/// A line of `/proc/net/arp` lists its first column as the address, its
/// fourth as the hardware address and its sixth as the interface, unless
/// the entry is incomplete (flags `0x0`) or its hardware address is all
/// zeros; a line with fewer than six columns lists nothing.
pub proof fn proc_arp_columns(words: Seq<Seq<char>>)
    requires
        forall|i: int| 0 <= i < words.len() ==> is_word(#[trigger] words[i]),
    ensures
        proc_arp_line(spaced(words)) == (if words.len() >= 6 && words[3] != "00:00:00:00:00:00"@
            && words[2] != "0x0"@ {
            Some((words[0], words[3], words[5]))
        } else {
            None
        }),
{
    lemma_split_ws_spaced(words);
}

fn entry_from(ip: &Vec<char>, mac: &Vec<char>, iface: &Vec<char>) -> (e: ArpEntry)
    ensures
        arp_view(e) == (ip@, mac@, iface@),
{
    ArpEntry {
        ip: string_from_chars(ip),
        mac: string_from_chars(mac),
        iface: string_from_chars(iface),
    }
}

fn push_entry(v: &mut Vec<ArpEntry>, e: ArpEntry)
    ensures
        arps_view(final(v)@) == arps_view(old(v)@).push(arp_view(e)),
{
    v.push(e);
    assert(arps_view(v@) =~= arps_view(old(v)@).push(arp_view(e)));
}

/// The complete entries of `/proc/net/arp`.
pub fn parse_proc_arp(content: &str) -> (r: Vec<ArpEntry>)
    ensures
        arps_view(r@) == proc_arp_spec(content@),
{
    let text = chars_of(content);
    let ls = lines_exec(&text);
    let mut r: Vec<ArpEntry> = Vec::new();
    if ls.len() == 0 {
        assert(arps_view(r@) =~= Seq::<(Seq<char>, Seq<char>, Seq<char>)>::empty());
        return r;
    }
    let ghost body = vview(ls@).drop_first();
    let mut i: usize = 1;
    assert(arps_view(r@) =~= proc_arp_entries(body.take(0)));
    while i < ls.len()
        invariant
            1 <= i <= ls.len(),
            body == vview(ls@).drop_first(),
            vview(ls@) == lines(content@),
            arps_view(r@) == proc_arp_entries(body.take(i - 1)),
        decreases ls.len() - i,
    {
        assert(body.take(i as int).drop_last() =~= body.take(i - 1));
        assert(body.take(i as int).last() == ls@[i as int]@);
        let f = split_ws_exec(ls[i].as_slice());
        if f.len() >= 6 && !chars_eq_str(f[3].as_slice(), "00:00:00:00:00:00") && !chars_eq_str(
            f[2].as_slice(),
            "0x0",
        ) {
            let e = entry_from(&f[0], &f[3], &f[5]);
            push_entry(&mut r, e);
        }
        i = i + 1;
    }
    assert(body.take(ls.len() - 1) =~= body);
    r
}

/// The position of the first word equal to `w`.
pub open spec fn first_pos(s: Seq<Seq<char>>, w: Seq<char>) -> Option<int>
    decreases s.len(),
{
    if s.len() == 0 {
        None
    } else if s[0] == w {
        Some(0)
    } else {
        match first_pos(s.drop_first(), w) {
            Some(k) => Some(k + 1),
            None => None,
        }
    }
}

proof fn lemma_first_pos(s: Seq<Seq<char>>, w: Seq<char>)
    ensures
        match first_pos(s, w) {
            Some(k) => 0 <= k < s.len() && s[k] == w && forall|j: int| 0 <= j < k ==> s[j] != w,
            None => forall|j: int| 0 <= j < s.len() ==> s[j] != w,
        },
    decreases s.len(),
{
    if s.len() > 0 && s[0] != w {
        lemma_first_pos(s.drop_first(), w);
        match first_pos(s.drop_first(), w) {
            Some(k) => {
                assert forall|j: int| 0 <= j < k + 1 implies s[j] != w by {
                    if j > 0 {
                        assert(s[j] == s.drop_first()[j - 1]);
                    }
                }
            },
            None => {
                assert forall|j: int| 0 <= j < s.len() implies s[j] != w by {
                    if j > 0 {
                        assert(s[j] == s.drop_first()[j - 1]);
                    }
                }
            },
        }
    }
}

fn first_pos_exec(s: &Vec<Vec<char>>, w: &str) -> (r: Option<usize>)
    ensures
        match first_pos(vview(s@), w@) {
            Some(k) => r == Some(k as usize),
            None => r is None,
        },
{
    proof {
        lemma_first_pos(vview(s@), w@);
    }
    let mut i: usize = 0;
    while i < s.len()
        invariant
            i <= s.len(),
            forall|j: int| 0 <= j < i ==> vview(s@)[j] != w@,
            match first_pos(vview(s@), w@) {
                Some(k) => 0 <= k < s@.len() && vview(s@)[k] == w@ && forall|j: int|
                    0 <= j < k ==> vview(s@)[j] != w@,
                None => forall|j: int| 0 <= j < s@.len() ==> vview(s@)[j] != w@,
            },
        decreases s.len() - i,
    {
        if chars_eq_str(s[i].as_slice(), w) {
            assert(vview(s@)[i as int] == w@);
            return Some(i);
        }
        i = i + 1;
    }
    None
}

/// A line of `ip neigh show` with a hardware address: its address, the
/// address after `lladdr`, and the interface after `dev` (empty without one).
pub open spec fn neigh_line(l: Seq<char>) -> Option<(Seq<char>, Seq<char>, Seq<char>)> {
    let p = split_ws(l);
    if p.len() >= 5 {
        match first_pos(p, "lladdr"@) {
            Some(k) => if k + 1 < p.len() {
                let iface = match first_pos(p, "dev"@) {
                    Some(d) => if d + 1 < p.len() {
                        p[d + 1]
                    } else {
                        Seq::empty()
                    },
                    None => Seq::empty(),
                };
                Some((p[0], p[k + 1], iface))
            } else {
                None
            },
            None => None,
        }
    } else {
        None
    }
}

/// Some entry has this address.
pub open spec fn has_ip(s: Seq<(Seq<char>, Seq<char>, Seq<char>)>, ip: Seq<char>) -> bool {
    exists|k: int| 0 <= k < s.len() && s[k].0 == ip
}

/// An `ip neigh show` line `ip dev iface lladdr mac state...` lists the
/// address, the hardware address after `lladdr` and the interface after
/// `dev`.
pub proof fn neighbour_line_fields(ip: Seq<char>, iface: Seq<char>, mac: Seq<char>, rest: Seq<Seq<char>>)
    requires
        is_word(ip),
        is_word(iface),
        is_word(mac),
        rest.len() > 0,
        forall|i: int| 0 <= i < rest.len() ==> is_word(#[trigger] rest[i]),
        ip != "dev"@,
        ip != "lladdr"@,
        iface != "lladdr"@,
    ensures
        neigh_line(spaced(seq![ip, "dev"@, iface, "lladdr"@, mac] + rest)) == Some((ip, mac, iface)),
{
    reveal_strlit("dev");
    reveal_strlit("lladdr");
    let w = seq![ip, "dev"@, iface, "lladdr"@, mac] + rest;
    assert(is_word("dev"@));
    assert(is_word("lladdr"@));
    assert forall|i: int| 0 <= i < w.len() implies is_word(#[trigger] w[i]) by {
        if i >= 5 {
            assert(w[i] == rest[i - 5]);
        }
    }
    lemma_split_ws_spaced(w);
    assert(w[0] == ip);
    assert(w.drop_first()[0] == "dev"@);
    assert(first_pos(w.drop_first(), "dev"@) == Some(0int));
    assert(first_pos(w, "dev"@) == Some(1int));
    assert(w.drop_first().drop_first().drop_first()[0] == "lladdr"@);
    assert(w.drop_first().drop_first()[0] == iface);
    assert(w.drop_first()[0] != "lladdr"@);
    assert(first_pos(w.drop_first().drop_first().drop_first(), "lladdr"@) == Some(0int));
    assert(first_pos(w.drop_first().drop_first(), "lladdr"@) == Some(1int));
    assert(first_pos(w.drop_first(), "lladdr"@) == Some(2int));
    assert(first_pos(w, "lladdr"@) == Some(3int));
}

/// The entries with those of `ip neigh show` added whose address is not
/// there yet.
pub open spec fn merge_neigh(
    d: Seq<(Seq<char>, Seq<char>, Seq<char>)>,
    ls: Seq<Seq<char>>,
) -> Seq<(Seq<char>, Seq<char>, Seq<char>)>
    decreases ls.len(),
{
    if ls.len() == 0 {
        d
    } else {
        let m = merge_neigh(d, ls.drop_last());
        match neigh_line(ls.last()) {
            Some(e) => if has_ip(m, e.0) {
                m
            } else {
                m.push(e)
            },
            None => m,
        }
    }
}

fn has_ip_exec(v: &Vec<ArpEntry>, ip: &Vec<char>) -> (r: bool)
    ensures
        r == has_ip(arps_view(v@), ip@),
{
    let mut i: usize = 0;
    while i < v.len()
        invariant
            i <= v.len(),
            forall|j: int| 0 <= j < i ==> v@[j].ip@ != ip@,
        decreases v.len() - i,
    {
        let c = chars_of(v[i].ip.as_str());
        if chars_eq(&c, ip) {
            assert(arps_view(v@)[i as int].0 == ip@);
            return true;
        }
        i = i + 1;
    }
    assert forall|k: int| 0 <= k < arps_view(v@).len() implies arps_view(v@)[k].0 != ip@ by {
        assert(arps_view(v@)[k].0 == v@[k].ip@);
    }
    false
}

/// Adds the neighbours that `ip neigh show` printed, skipping addresses
/// already listed.
pub fn merge_ip_neigh(entries: &mut Vec<ArpEntry>, output: &str)
    ensures
        arps_view(final(entries)@) == merge_neigh(arps_view(old(entries)@), lines(output@)),
{
    let text = chars_of(output);
    let ls = lines_exec(&text);
    let ghost d0 = arps_view(entries@);
    let mut i: usize = 0;
    while i < ls.len()
        invariant
            i <= ls.len(),
            vview(ls@) == lines(output@),
            d0 == arps_view(old(entries)@),
            arps_view(entries@) == merge_neigh(d0, vview(ls@).take(i as int)),
        decreases ls.len() - i,
    {
        let ghost v = vview(ls@);
        assert(v.take(i + 1).drop_last() =~= v.take(i as int));
        assert(v.take(i + 1).last() == ls@[i as int]@);
        let p = split_ws_exec(ls[i].as_slice());
        if p.len() >= 5 {
            if let Some(k) = first_pos_exec(&p, "lladdr") {
                proof {
                    lemma_first_pos(vview(p@), "lladdr"@);
                }
                if k + 1 < p.len() {
                    let iface: Vec<char> = match first_pos_exec(&p, "dev") {
                        Some(d) => {
                            proof {
                                lemma_first_pos(vview(p@), "dev"@);
                            }
                            if d + 1 < p.len() {
                                p[d + 1].clone()
                            } else {
                                Vec::new()
                            }
                        },
                        None => Vec::new(),
                    };
                    proof {
                        lemma_first_pos(vview(p@), "dev"@);
                    }
                    if !has_ip_exec(entries, &p[0]) {
                        let e = entry_from(&p[0], &p[k + 1], &iface);
                        push_entry(entries, e);
                    }
                }
            }
        }
        i = i + 1;
    }
    assert(vview(ls@).take(ls.len() as int) =~= vview(ls@));
}

/// The neighbours that Linux reports: the complete entries of
/// `/proc/net/arp` (when it could be read), then those of `ip neigh show`
/// (when it ran) at addresses not listed yet.
pub fn linux_arp_table(proc_arp: Option<&str>, neigh: Option<&str>) -> (r: Vec<ArpEntry>)
    ensures
        arps_view(r@) == ({
            let a = match proc_arp {
                Some(c) => proc_arp_spec(c@),
                None => Seq::empty(),
            };
            match neigh {
                Some(o) => merge_neigh(a, lines(o@)),
                None => a,
            }
        }),
{
    let mut r: Vec<ArpEntry> = match proc_arp {
        Some(c) => parse_proc_arp(c),
        None => Vec::new(),
    };
    proof {
        if proc_arp is None {
            assert(arps_view(r@) =~= Seq::<(Seq<char>, Seq<char>, Seq<char>)>::empty());
        }
    }
    if let Some(o) = neigh {
        merge_ip_neigh(&mut r, o);
    }
    r
}

} // verus!

verus! {

// ---------------------------------------------------------------------------
// Scanning the local network
// ---------------------------------------------------------------------------

/// The first three parts of a dotted address, each followed by a dot (as
/// `splitn(4, '.')` gives them): `None` when it has fewer than three dots.
pub open spec fn subnet_prefix_spec(gateway: Seq<char>) -> Option<Seq<char>> {
    let p = split_char(gateway, '.');
    if p.len() >= 4 {
        Some(p[0] + seq!['.'] + p[1] + seq!['.'] + p[2] + seq!['.'])
    } else {
        None
    }
}

pub fn subnet_prefix(gateway: &str) -> (r: Option<String>)
    ensures
        match subnet_prefix_spec(gateway@) {
            Some(p) => r matches Some(s) && s@ == p,
            None => r is None,
        },
{
    let g = chars_of(gateway);
    let p = split_char_exec(&g, '.');
    if p.len() >= 4 {
        let mut v = p[0].clone();
        v.push('.');
        v.extend_from_slice(p[1].as_slice());
        v.push('.');
        v.extend_from_slice(p[2].as_slice());
        v.push('.');
        assert(v@ =~= vview(p@)[0] + seq!['.'] + vview(p@)[1] + seq!['.'] + vview(p@)[2] + seq!['.']);
        Some(string_from_chars(&v))
    } else {
        None
    }
}

/// The addresses a sweep of the subnet pings: the prefix followed by each
/// host number from 1 to 254.
pub fn sweep_targets(prefix: &str) -> (r: Vec<String>)
    ensures
        r@.len() == 254,
        forall|i: int| 0 <= i < 254 ==> #[trigger] r@[i]@ == prefix@ + dec((i + 1) as nat),
{
    let pc = chars_of(prefix);
    let mut r: Vec<String> = Vec::new();
    let mut n: u64 = 1;
    while n <= 254
        invariant
            1 <= n <= 255,
            pc@ == prefix@,
            r@.len() == n - 1,
            forall|i: int| 0 <= i < n - 1 ==> #[trigger] r@[i]@ == prefix@ + dec((i + 1) as nat),
        decreases 255 - n,
    {
        let mut v = pc.clone();
        push_dec(&mut v, n);
        r.push(string_from_chars(&v));
        n = n + 1;
    }
    r
}

/// What is known of a discovered device.
pub struct DeviceView {
    pub ip: Seq<char>,
    pub mac: Option<Seq<char>>,
    pub hostname: Option<Seq<char>>,
    pub interface: Seq<char>,
    pub device_type: NetworkDeviceType,
    pub is_reachable: bool,
    pub vendor: Option<Seq<char>>,
}

pub open spec fn ov(s: Option<String>) -> Option<Seq<char>> {
    match s {
        Some(v) => Some(v@),
        None => None,
    }
}

impl View for NetworkDevice {
    type V = DeviceView;

    open spec fn view(&self) -> DeviceView {
        DeviceView {
            ip: self.ip@,
            mac: ov(self.mac),
            hostname: ov(self.hostname),
            interface: self.interface@,
            device_type: self.device_type,
            is_reachable: self.is_reachable,
            vendor: ov(self.vendor),
        }
    }
}

/// The kind of the device at `ip`: the gateway, this machine, or another
/// host.
pub open spec fn device_type_of(
    ip: Seq<char>,
    gateway: Option<Seq<char>>,
    local: Option<Seq<char>>,
) -> NetworkDeviceType {
    if gateway == Some(ip) {
        NetworkDeviceType::Gateway
    } else if local == Some(ip) {
        NetworkDeviceType::LocalMachine
    } else {
        NetworkDeviceType::Host
    }
}

/// The device that a neighbour entry describes.
pub open spec fn device_of(
    e: (Seq<char>, Seq<char>, Seq<char>),
    gateway: Option<Seq<char>>,
    local: Option<Seq<char>>,
) -> DeviceView {
    DeviceView {
        ip: e.0,
        mac: if e.1.len() == 0 || e.1 == "00:00:00:00:00:00"@ {
            None
        } else {
            Some(e.1)
        },
        hostname: None,
        interface: e.2,
        device_type: device_type_of(e.0, gateway, local),
        is_reachable: true,
        vendor: None,
    }
}

/// This machine, added when no neighbour entry has its address.
pub open spec fn local_device(ip: Seq<char>) -> DeviceView {
    DeviceView {
        ip,
        mac: None,
        hostname: Some("localhost"@),
        interface: Seq::empty(),
        device_type: NetworkDeviceType::LocalMachine,
        is_reachable: true,
        vendor: None,
    }
}

/// The devices of a scan: one per neighbour entry, in order, then this
/// machine when its address is known and no entry has it.
pub open spec fn scan_devices_spec(
    entries: Seq<(Seq<char>, Seq<char>, Seq<char>)>,
    gateway: Option<Seq<char>>,
    local: Option<Seq<char>>,
) -> Seq<DeviceView> {
    let ds = entries.map_values(|e: (Seq<char>, Seq<char>, Seq<char>)| device_of(e, gateway, local));
    match local {
        Some(l) => if has_ip(entries, l) {
            ds
        } else {
            ds.push(local_device(l))
        },
        None => ds,
    }
}

pub open spec fn devices_view(s: Seq<NetworkDevice>) -> Seq<DeviceView> {
    s.map_values(|d: NetworkDevice| d@)
}

fn opt_chars(s: &Option<String>) -> (r: Option<Vec<char>>)
    ensures
        match *s {
            Some(v) => r matches Some(c) && c@ == v@,
            None => r is None,
        },
{
    match s {
        Some(v) => Some(chars_of(v.as_str())),
        None => None,
    }
}

fn opt_eq(a: &Option<Vec<char>>, b: &Vec<char>) -> (r: bool)
    ensures
        r == (match *a {
            Some(x) => x@ == b@,
            None => false,
        }),
{
    match a {
        Some(x) => chars_eq(x, b),
        None => false,
    }
}

/// The devices that a scan found, from the neighbour table, the gateway and
/// this machine's address.
pub fn scan_devices(
    entries: &Vec<ArpEntry>,
    gateway: &Option<String>,
    local_ip: &Option<String>,
) -> (r: Vec<NetworkDevice>)
    ensures
        devices_view(r@) == scan_devices_spec(arps_view(entries@), ov(*gateway), ov(*local_ip)),
{
    let g = opt_chars(gateway);
    let l = opt_chars(local_ip);
    let ghost gv = ov(*gateway);
    let ghost lv = ov(*local_ip);
    let ghost es = arps_view(entries@);
    let mut r: Vec<NetworkDevice> = Vec::new();
    let mut i: usize = 0;
    while i < entries.len()
        invariant
            i <= entries.len(),
            es == arps_view(entries@),
            match g {
                Some(x) => gv == Some(x@),
                None => gv is None,
            },
            match l {
                Some(x) => lv == Some(x@),
                None => lv is None,
            },
            devices_view(r@) == es.take(i as int).map_values(
                |e: (Seq<char>, Seq<char>, Seq<char>)| device_of(e, gv, lv),
            ),
        decreases entries.len() - i,
    {
        let e = &entries[i];
        let ip = chars_of(e.ip.as_str());
        let mac = chars_of(e.mac.as_str());
        let device_type = if opt_eq(&g, &ip) {
            NetworkDeviceType::Gateway
        } else if opt_eq(&l, &ip) {
            NetworkDeviceType::LocalMachine
        } else {
            NetworkDeviceType::Host
        };
        let mac_opt = if mac.len() == 0 || chars_eq_str(&mac, "00:00:00:00:00:00") {
            None
        } else {
            Some(e.mac.clone())
        };
        let d = NetworkDevice {
            ip: e.ip.clone(),
            mac: mac_opt,
            hostname: None,
            interface: e.iface.clone(),
            device_type,
            is_reachable: true,
            vendor: None,
        };
        assert(d@ == device_of(es[i as int], gv, lv));
        let ghost r0 = r@;
        r.push(d);
        assert(devices_view(r@) =~= devices_view(r0).push(d@));
        assert(es.take(i + 1) =~= es.take(i as int).push(es[i as int]));
        i = i + 1;
    }
    assert(es.take(entries.len() as int) =~= es);
    if let Some(lip) = local_ip {
        let lc = chars_of(lip.as_str());
        let mut present = false;
        let mut j: usize = 0;
        while j < entries.len()
            invariant
                j <= entries.len(),
                es == arps_view(entries@),
                lc@ == lip@,
                present <==> exists|k: int| 0 <= k < j && es[k].0 == lip@,
            decreases entries.len() - j,
        {
            let c = chars_of(entries[j].ip.as_str());
            assert(es[j as int].0 == entries@[j as int].ip@);
            if chars_eq(&c, &lc) {
                present = true;
            }
            j = j + 1;
        }
        if !present {
            let d = NetworkDevice {
                ip: lip.clone(),
                mac: None,
                hostname: Some(lit("localhost")),
                interface: String::new(),
                device_type: NetworkDeviceType::LocalMachine,
                is_reachable: true,
                vendor: None,
            };
            let ghost r0 = r@;
            r.push(d);
            assert(devices_view(r@) =~= devices_view(r0).push(d@));
        }
    }
    r
}

/// A device is listed for every neighbour entry, this machine is always
/// listed when its address is known, and an entry at the gateway's address
/// is typed as the gateway. (A device added for this machine is typed as
/// this machine even when the gateway has its address.)
pub proof fn scan_lists_every_entry_and_this_machine(
    entries: Seq<(Seq<char>, Seq<char>, Seq<char>)>,
    gateway: Option<Seq<char>>,
    local: Option<Seq<char>>,
)
    ensures
        ({
            let ds = scan_devices_spec(entries, gateway, local);
            &&& forall|i: int| 0 <= i < entries.len() ==> #[trigger] ds[i].ip == entries[i].0
            &&& (local matches Some(l) ==> exists|k: int| 0 <= k < ds.len() && ds[k].ip == l)
            &&& (gateway matches Some(g) ==> forall|k: int|
                0 <= k < entries.len() && ds[k].ip == g ==> ds[k].device_type
                    == NetworkDeviceType::Gateway)
        }),
{
    let ds = scan_devices_spec(entries, gateway, local);
    if let Some(l) = local {
        if has_ip(entries, l) {
            let k = choose|k: int| 0 <= k < entries.len() && entries[k].0 == l;
            assert(ds[k].ip == l);
        } else {
            assert(ds[ds.len() - 1].ip == l);
        }
    }
    if let Some(g) = gateway {
        assert forall|k: int| 0 <= k < entries.len() && ds[k].ip == g implies ds[k].device_type
            == NetworkDeviceType::Gateway by {}
    }
}

/// Each neighbour entry becomes one device, in order, that keeps the
/// entry's address and interface, and its hardware address unless that is
/// empty or all zeros; it is reachable, has no host name, and is typed as
/// the gateway when it has the gateway's address, else as this machine when
/// it has this machine's address, else as a host. After them comes one
/// device for this machine only when its address is known and no entry has
/// it: named `localhost`, typed as this machine, with no hardware address or
/// interface. Nothing else is listed.
pub proof fn scan_keeps_each_entry(
    entries: Seq<(Seq<char>, Seq<char>, Seq<char>)>,
    gateway: Option<Seq<char>>,
    local: Option<Seq<char>>,
)
    ensures
        ({
            let ds = scan_devices_spec(entries, gateway, local);
            let extra = local matches Some(l) && !(exists|k: int| 0 <= k < entries.len() && entries[k].0 == l);
            &&& ds.len() == entries.len() + (if extra { 1int } else { 0int })
            &&& forall|i: int| #![trigger ds[i]] 0 <= i < entries.len() ==> {
                &&& ds[i].ip == entries[i].0
                &&& ds[i].interface == entries[i].2
                &&& (entries[i].1.len() == 0 || entries[i].1 == "00:00:00:00:00:00"@ ==> ds[i].mac is None)
                &&& (entries[i].1.len() > 0 && entries[i].1 != "00:00:00:00:00:00"@ ==> ds[i].mac == Some(entries[i].1))
                &&& ds[i].is_reachable
                &&& ds[i].hostname is None
                &&& ds[i].vendor is None
                &&& (gateway == Some(entries[i].0) ==> ds[i].device_type == NetworkDeviceType::Gateway)
                &&& (gateway != Some(entries[i].0) && local == Some(entries[i].0) ==> ds[i].device_type
                    == NetworkDeviceType::LocalMachine)
                &&& (gateway != Some(entries[i].0) && local != Some(entries[i].0) ==> ds[i].device_type
                    == NetworkDeviceType::Host)
            }
            &&& extra ==> {
                let d = ds[entries.len() as int];
                &&& Some(d.ip) == local
                &&& d.device_type == NetworkDeviceType::LocalMachine
                &&& d.hostname == Some("localhost"@)
                &&& d.mac is None
                &&& d.interface.len() == 0
                &&& d.is_reachable
            }
        }),
{
    let ds = scan_devices_spec(entries, gateway, local);
    if let Some(l) = local {
        if has_ip(entries, l) {
            let k = choose|k: int| 0 <= k < entries.len() && entries[k].0 == l;
            assert(entries[k].0 == l);
        }
    }
}

} // verus!

verus! {

// ---------------------------------------------------------------------------
// VLANs
// ---------------------------------------------------------------------------

/// The VLANs other than those with this id.
pub open spec fn without_vlan(s: Seq<VlanConfig>, id: u16) -> Seq<VlanConfig>
    decreases s.len(),
{
    if s.len() == 0 {
        s
    } else {
        let rest = without_vlan(s.drop_last(), id);
        if s.last().id != id {
            rest.push(s.last())
        } else {
            rest
        }
    }
}

/// Why a VLAN operation was refused.
#[derive(Clone, Debug, PartialEq)]
pub enum NetworkError {
    /// No VLAN has this id.
    VlanNotFound(u16),
}

pub open spec fn network_error_message(e: NetworkError) -> Seq<char> {
    match e {
        NetworkError::VlanNotFound(id) => "VLAN "@ + dec(id as nat) + " not found"@,
    }
}

impl NetworkError {
    pub fn message(&self) -> (r: String)
        ensures
            r@ == network_error_message(*self),
    {
        match self {
            NetworkError::VlanNotFound(id) => {
                let mut v = chars_of("VLAN ");
                push_dec(&mut v, *id as u64);
                let tail = chars_of(" not found");
                v.extend_from_slice(&tail);
                assert(v@ =~= "VLAN "@ + dec(*id as nat) + " not found"@);
                string_from_chars(&v)
            },
        }
    }
}

/// The VLANs the service keeps.
pub struct VlanTable {
    pub vlans: Vec<VlanConfig>,
}

impl VlanTable {
    pub fn new() -> (r: VlanTable)
        ensures
            r.vlans@.len() == 0,
    {
        VlanTable { vlans: Vec::new() }
    }

    /// Adds the VLAN a request describes (enabled, without an address) and
    /// hands back its record.
    pub fn create_vlan(&mut self, request: &CreateVlanRequest) -> (r: VlanConfig)
        ensures
            r.id == request.vlan_id,
            r.name == request.name,
            r.parent_interface == request.parent_interface,
            r.ip_config is None,
            r.enabled,
            final(self).vlans@ == old(self).vlans@.push(r),
    {
        let v = VlanConfig {
            id: request.vlan_id,
            name: request.name.clone(),
            parent_interface: request.parent_interface.clone(),
            ip_config: None,
            enabled: true,
        };
        let copy = VlanConfig {
            id: v.id,
            name: v.name.clone(),
            parent_interface: v.parent_interface.clone(),
            ip_config: None,
            enabled: true,
        };
        self.vlans.push(v);
        copy
    }

    /// Removes every VLAN with this id; refused when there is none.
    pub fn delete_vlan(&mut self, vlan_id: u16) -> (r: Result<(), NetworkError>)
        ensures
            final(self).vlans@ == without_vlan(old(self).vlans@, vlan_id),
            r is Ok <==> exists|k: int| 0 <= k < old(self).vlans@.len() && old(self).vlans@[k].id
                == vlan_id,
            r is Err ==> r == Err::<(), NetworkError>(NetworkError::VlanNotFound(vlan_id)),
    {
        let mut kept: Vec<VlanConfig> = Vec::new();
        let mut old_vlans: Vec<VlanConfig> = Vec::new();
        std::mem::swap(&mut old_vlans, &mut self.vlans);
        let ghost all = old_vlans@;
        let n = old_vlans.len();
        let mut removed = false;
        let mut i: usize = 0;
        while i < n
            invariant
                i <= n,
                n == all.len(),
                old_vlans@.len() == n - i,
                forall|k: int| 0 <= k < old_vlans@.len() ==> old_vlans@[k] == all[i + k],
                kept@ == without_vlan(all.take(i as int), vlan_id),
                removed <==> exists|k: int| 0 <= k < i && all[k].id == vlan_id,
            decreases n - i,
        {
            let v = old_vlans.remove(0);
            assert(v == all[i as int]);
            assert(all.take(i + 1).drop_last() =~= all.take(i as int));
            if v.id != vlan_id {
                kept.push(v);
            } else {
                removed = true;
            }
            i = i + 1;
        }
        assert(all.take(n as int) =~= all);
        self.vlans = kept;
        if !removed {
            return Err(NetworkError::VlanNotFound(vlan_id));
        }
        Ok(())
    }
}

/// The interface under which a VLAN is shown: `parent.id`, up, with an MTU
/// of 1500 and the VLAN as its only one.
pub open spec fn vlan_interface_ok(v: VlanConfig, i: NetworkInterface) -> bool {
    &&& i.name@ == v.parent_interface@ + seq!['.'] + dec(v.id as nat)
    &&& i.display_name == v.name
    &&& i.mac_address is None
    &&& i.ip_addresses@.len() == 0
    &&& i.status == InterfaceStatus::Up
    &&& i.mtu == 1500
    &&& i.speed is None
    &&& i.interface_type == InterfaceType::Vlan
    &&& i.vlans@ == seq![v]
}

/// The interfaces under which the VLANs are shown, one per VLAN in order.
pub fn vlan_interfaces(vlans: &Vec<VlanConfig>) -> (r: Vec<NetworkInterface>)
    ensures
        r@.len() == vlans@.len(),
        forall|i: int| 0 <= i < r@.len() ==> vlan_interface_ok(vlans@[i], #[trigger] r@[i]),
{
    let mut r: Vec<NetworkInterface> = Vec::new();
    let mut i: usize = 0;
    while i < vlans.len()
        invariant
            i <= vlans.len(),
            r@.len() == i,
            forall|j: int| 0 <= j < i ==> vlan_interface_ok(vlans@[j], #[trigger] r@[j]),
        decreases vlans.len() - i,
    {
        let v = &vlans[i];
        let mut name = chars_of(v.parent_interface.as_str());
        name.push('.');
        push_dec(&mut name, v.id as u64);
        assert(name@ =~= v.parent_interface@ + seq!['.'] + dec(v.id as nat));
        let copy = VlanConfig {
            id: v.id,
            name: v.name.clone(),
            parent_interface: v.parent_interface.clone(),
            ip_config: match &v.ip_config {
                Some(c) => Some(c.clone()),
                None => None,
            },
            enabled: v.enabled,
        };
        let one = vec![copy];
        assert(one@ =~= seq![*v]);
        let iface = NetworkInterface {
            name: string_from_chars(&name),
            display_name: v.name.clone(),
            mac_address: None,
            ip_addresses: Vec::new(),
            status: InterfaceStatus::Up,
            mtu: 1500,
            speed: None,
            interface_type: InterfaceType::Vlan,
            vlans: one,
        };
        r.push(iface);
        i = i + 1;
    }
    r
}

} // verus!

verus! {

/// No VLAN with a deleted id is left.
pub proof fn deleted_vlan_is_gone(s: Seq<VlanConfig>, id: u16)
    ensures
        forall|k: int| 0 <= k < without_vlan(s, id).len() ==> #[trigger] without_vlan(s, id)[k].id != id,
        without_vlan(s, id).len() <= s.len(),
    decreases s.len(),
{
    if s.len() > 0 {
        deleted_vlan_is_gone(s.drop_last(), id);
    }
}

/// Deleting a VLAN keeps every VLAN with another id.
pub proof fn deleting_a_vlan_keeps_the_others(s: Seq<VlanConfig>, id: u16)
    ensures
        forall|k: int| 0 <= k < s.len() && #[trigger] s[k].id != id ==> without_vlan(s, id).contains(s[k]),
    decreases s.len(),
{
    if s.len() > 0 {
        deleting_a_vlan_keeps_the_others(s.drop_last(), id);
        let rest = without_vlan(s.drop_last(), id);
        assert forall|k: int| 0 <= k < s.len() && #[trigger] s[k].id != id implies without_vlan(s, id).contains(s[k]) by {
            if k < s.len() - 1 {
                assert(s.drop_last()[k] == s[k]);
                let j = choose|j: int| 0 <= j < rest.len() && rest[j] == s[k];
                if s.last().id != id {
                    assert(rest.push(s.last())[j] == s[k]);
                }
            } else {
                assert(rest.push(s.last())[rest.len() as int] == s[k]);
            }
        }
    }
}

// ---------------------------------------------------------------------------
// Interfaces, from `ip --json addr show`
// ---------------------------------------------------------------------------

/// What `IpAddr::from_str` makes of a text: `None` when it is not an IPv4
/// or IPv6 address, else the version of the address.
pub uninterp spec fn parsed_ip_version(s: Seq<char>) -> Option<IpVersion>;

/// Parses an IP address with `core::net::IpAddr::from_str` and tells its
/// version. Trusted: the result is `parsed_ip_version` of the text, a name
/// for the standard parser's verdict; which texts it accepts is not stated.
#[verifier::external_body]
fn ip_version(s: &str) -> (r: Option<IpVersion>)
    ensures
        r == parsed_ip_version(s@),
{
    match s.parse::<core::net::IpAddr>() {
        Ok(core::net::IpAddr::V4(_)) => Some(IpVersion::V4),
        Ok(core::net::IpAddr::V6(_)) => Some(IpVersion::V6),
        Err(_) => None,
    }
}

/// The fields of one entry of `addr_info`.
#[derive(Clone, Debug, PartialEq)]
pub struct AddrFields {
    pub local: Option<String>,
    pub prefixlen: Option<u64>,
}

/// The fields of one interface that `ip --json addr show` prints (each
/// `None` when missing or not of the expected JSON type).
#[derive(Clone, Debug, PartialEq)]
pub struct LinkFields {
    pub ifname: Option<String>,
    pub address: Option<String>,
    pub operstate: Option<String>,
    pub mtu: Option<u64>,
    pub link_type: Option<String>,
    pub addr_info: Option<Vec<AddrFields>>,
}

/// The address record for `local` with this prefix length (24 when absent),
/// given what the address parser said of it.
pub open spec fn address_config_ok(
    local: String,
    prefixlen: Option<u64>,
    version: Option<IpVersion>,
    r: Option<IpConfiguration>,
) -> bool {
    match version {
        None => r is None,
        Some(v) => r matches Some(c) && c.address == local && c.netmask@ == seq!['/'] + dec(
            match prefixlen {
                Some(p) => p as nat,
                None => 24,
            },
        ) && c.gateway is None && c.version == v,
    }
}

/// The address record for an entry of `addr_info`, given the version that
/// the address parser found (`None` when it is not an address).
pub fn address_config(local: &String, prefixlen: Option<u64>, version: Option<IpVersion>) -> (r:
    Option<IpConfiguration>)
    ensures
        address_config_ok(*local, prefixlen, version, r),
{
    match version {
        None => None,
        Some(v) => {
            let p = match prefixlen {
                Some(p) => p,
                None => 24,
            };
            let mut m: Vec<char> = Vec::new();
            m.push('/');
            push_dec(&mut m, p);
            assert(m@ =~= seq!['/'] + dec(p as nat));
            Some(
                IpConfiguration {
                    address: local.clone(),
                    netmask: string_from_chars(&m),
                    gateway: None,
                    version: v,
                },
            )
        },
    }
}

pub open spec fn status_of(operstate: Option<String>) -> InterfaceStatus {
    match operstate {
        Some(s) => if s@ == "UP"@ {
            InterfaceStatus::Up
        } else if s@ == "DOWN"@ {
            InterfaceStatus::Down
        } else {
            InterfaceStatus::Unknown
        },
        None => InterfaceStatus::Unknown,
    }
}

/// The type of a link: `ether` (also when missing), `loopback`, `bridge`,
/// or another named one.
pub open spec fn link_type_ok(link_type: Option<String>, t: InterfaceType) -> bool {
    match link_type {
        None => t == InterfaceType::Ethernet,
        Some(s) => if s@ == "ether"@ {
            t == InterfaceType::Ethernet
        } else if s@ == "loopback"@ {
            t == InterfaceType::Loopback
        } else if s@ == "bridge"@ {
            t == InterfaceType::Bridge
        } else {
            t == InterfaceType::Other(s)
        },
    }
}

/// The address records of an `addr_info` list: one for each entry with a
/// `local` text that parses as an address, in order.
pub open spec fn addresses_ok(addrs: Seq<AddrFields>, r: Seq<IpConfiguration>) -> bool
    decreases addrs.len(),
{
    if addrs.len() == 0 {
        r.len() == 0
    } else {
        let a = addrs.last();
        match a.local {
            Some(l) => match parsed_ip_version(l@) {
                Some(v) => r.len() > 0 && addresses_ok(addrs.drop_last(), r.drop_last())
                    && address_config_ok(l, a.prefixlen, Some(v), Some(r.last())),
                None => addresses_ok(addrs.drop_last(), r),
            },
            None => addresses_ok(addrs.drop_last(), r),
        }
    }
}

fn addresses_of(addrs: &Vec<AddrFields>) -> (r: Vec<IpConfiguration>)
    ensures
        addresses_ok(addrs@, r@),
{
    let mut r: Vec<IpConfiguration> = Vec::new();
    let mut i: usize = 0;
    while i < addrs.len()
        invariant
            i <= addrs.len(),
            addresses_ok(addrs@.take(i as int), r@),
        decreases addrs.len() - i,
    {
        assert(addrs@.take(i + 1).drop_last() =~= addrs@.take(i as int));
        assert(addrs@.take(i + 1).last() == addrs@[i as int]);
        if let Some(l) = &addrs[i].local {
            let version = ip_version(l.as_str());
            if let Some(c) = address_config(l, addrs[i].prefixlen, version) {
                let ghost r0 = r@;
                r.push(c);
                assert(r@.drop_last() =~= r0);
            }
        }
        i = i + 1;
    }
    assert(addrs@.take(addrs.len() as int) =~= addrs@);
    r
}

/// The interface that `ip --json addr show` describes; `None` when it has
/// no name.
pub fn interface_from_link(f: &LinkFields) -> (r: Option<NetworkInterface>)
    ensures
        match f.ifname {
            None => r is None,
            Some(n) => r matches Some(i) && {
                &&& i.name == n
                &&& i.display_name == n
                &&& i.mac_address == f.address
                &&& i.status == status_of(f.operstate)
                &&& i.mtu == (match f.mtu {
                    Some(m) => m,
                    None => 1500,
                }) as u32
                &&& i.speed is None
                &&& link_type_ok(f.link_type, i.interface_type)
                &&& i.vlans@.len() == 0
                &&& match f.addr_info {
                    Some(a) => addresses_ok(a@, i.ip_addresses@),
                    None => i.ip_addresses@.len() == 0,
                }
            },
        },
{
    let name = match &f.ifname {
        Some(n) => n,
        None => {
            return None;
        },
    };
    let status = match &f.operstate {
        Some(s) => {
            let c = chars_of(s.as_str());
            if crate::text::chars_eq_str(&c, "UP") {
                InterfaceStatus::Up
            } else if crate::text::chars_eq_str(&c, "DOWN") {
                InterfaceStatus::Down
            } else {
                InterfaceStatus::Unknown
            }
        },
        None => InterfaceStatus::Unknown,
    };
    let m: u64 = match f.mtu {
        Some(m) => m,
        None => 1500,
    };
    let interface_type = match &f.link_type {
        Some(s) => {
            let c = chars_of(s.as_str());
            if crate::text::chars_eq_str(&c, "ether") {
                InterfaceType::Ethernet
            } else if crate::text::chars_eq_str(&c, "loopback") {
                InterfaceType::Loopback
            } else if crate::text::chars_eq_str(&c, "bridge") {
                InterfaceType::Bridge
            } else {
                InterfaceType::Other(s.clone())
            }
        },
        None => InterfaceType::Ethernet,
    };
    let ip_addresses = match &f.addr_info {
        Some(a) => addresses_of(a),
        None => Vec::new(),
    };
    Some(
        NetworkInterface {
            name: name.clone(),
            display_name: name.clone(),
            mac_address: match &f.address {
                Some(a) => Some(a.clone()),
                None => None,
            },
            ip_addresses,
            status,
            mtu: m as u32,
            speed: None,
            interface_type,
            vlans: Vec::new(),
        },
    )
}

// ---------------------------------------------------------------------------
// Statistics and configuration commands
// ---------------------------------------------------------------------------

/// A counter read from `/sys/class/net/<iface>/statistics`: its trimmed
/// text as a number, 0 when it is none.
pub open spec fn counter_value(text: Seq<char>) -> u64 {
    match parse_unsigned(trim(text), 10, 0xffff_ffff_ffff_ffff) {
        Some(v) => v as u64,
        None => 0,
    }
}

pub fn counter_from_text(text: &str) -> (r: u64)
    ensures
        r == counter_value(text@),
{
    let c = chars_of(text);
    let t = trim_chars(&c);
    match parse_unsigned_exec(&t, 10, 0xffff_ffff_ffff_ffff) {
        Some(v) => v,
        None => 0,
    }
}

/// The statistics of an interface from the texts of its counters.
pub fn interface_stats(
    interface: &str,
    rx_bytes: &str,
    tx_bytes: &str,
    rx_packets: &str,
    tx_packets: &str,
) -> (r: NetworkStats)
    ensures
        r.interface@ == interface@,
        r.bytes_received == counter_value(rx_bytes@),
        r.bytes_sent == counter_value(tx_bytes@),
        r.packets_received == counter_value(rx_packets@),
        r.packets_sent == counter_value(tx_packets@),
        r.errors_in == 0 && r.errors_out == 0 && r.dropped_in == 0 && r.dropped_out == 0,
{
    NetworkStats {
        interface: lit(interface),
        bytes_sent: counter_from_text(tx_bytes),
        bytes_received: counter_from_text(rx_bytes),
        packets_sent: counter_from_text(tx_packets),
        packets_received: counter_from_text(rx_packets),
        errors_in: 0,
        errors_out: 0,
        dropped_in: 0,
        dropped_out: 0,
    }
}

/// The `ip` commands that apply an interface update: an address when both
/// address and netmask are given, then the MTU when given.
pub open spec fn update_commands(r: UpdateInterfaceRequest) -> Seq<CommandView> {
    let a = match (r.ip_address, r.netmask) {
        (Some(ip), Some(mask)) => seq![
            cmd("ip"@, seq!["addr"@, "add"@, ip@ + seq!['/'] + mask@, "dev"@, r.interface@], None),
        ],
        _ => Seq::empty(),
    };
    match r.mtu {
        Some(m) => a.push(
            cmd("ip"@, seq!["link"@, "set"@, r.interface@, "mtu"@, dec(m as nat)], None),
        ),
        None => a,
    }
}

pub fn interface_update_commands(r: &UpdateInterfaceRequest) -> (v: Vec<CommandLine>)
    ensures
        v@.map_values(|c: CommandLine| c@) == update_commands(*r),
{
    let mut v: Vec<CommandLine> = Vec::new();
    if let (Some(ip), Some(mask)) = (&r.ip_address, &r.netmask) {
        let mut a = chars_of(ip.as_str());
        a.push('/');
        let m = chars_of(mask.as_str());
        a.extend_from_slice(&m);
        assert(a@ =~= ip@ + seq!['/'] + mask@);
        let args = vec![lit("addr"), lit("add"), string_from_chars(&a), lit("dev"), r.interface.clone()];
        assert(sview(args@) =~= seq!["addr"@, "add"@, ip@ + seq!['/'] + mask@, "dev"@, r.interface@]);
        v.push(CommandLine { program: lit("ip"), args, dir: None });
    }
    let ghost first = v@.map_values(|c: CommandLine| c@);
    if let Some(mtu) = r.mtu {
        let mut d: Vec<char> = Vec::new();
        push_dec(&mut d, mtu as u64);
        let args = vec![lit("link"), lit("set"), r.interface.clone(), lit("mtu"), string_from_chars(&d)];
        assert(sview(args@) =~= seq!["link"@, "set"@, r.interface@, "mtu"@, dec(mtu as nat)]);
        let c = CommandLine { program: lit("ip"), args, dir: None };
        let ghost v0 = v@;
        v.push(c);
        assert(v@.map_values(|c: CommandLine| c@) =~= v0.map_values(|c: CommandLine| c@).push(c@));
    }
    assert(v@.map_values(|c: CommandLine| c@) =~= update_commands(*r));
    v
}

/// The probes sent to one address during a sweep: an ICMP echo with a
/// one-second wait on Unix (half a second on Windows), then, on Linux, an
/// ARP request on any interface, which hosts that ignore ICMP still answer.
pub open spec fn probes(ip: Seq<char>, unix: bool, windows: bool, linux: bool) -> Seq<CommandView> {
    let ping: Seq<CommandView> = if unix {
        seq![cmd("ping"@, seq!["-c"@, "1"@, "-W"@, "1"@, ip], None)]
    } else if windows {
        seq![cmd("ping"@, seq!["-n"@, "1"@, "-w"@, "500"@, ip], None)]
    } else {
        Seq::empty()
    };
    if linux {
        ping.push(cmd("arping"@, seq!["-c"@, "1"@, "-w"@, "1"@, "-I"@, "any"@, ip], None))
    } else {
        ping
    }
}

/// The probe commands for `ip`, given whether this is a Unix, Windows or
/// Linux system.
pub fn probe_commands(ip: &String, unix: bool, windows: bool, linux: bool) -> (v: Vec<CommandLine>)
    ensures
        v@.map_values(|c: CommandLine| c@) == probes(ip@, unix, windows, linux),
{
    let mut v: Vec<CommandLine> = Vec::new();
    if unix {
        let args = vec![lit("-c"), lit("1"), lit("-W"), lit("1"), ip.clone()];
        assert(sview(args@) =~= seq!["-c"@, "1"@, "-W"@, "1"@, ip@]);
        v.push(CommandLine { program: lit("ping"), args, dir: None });
    } else if windows {
        let args = vec![lit("-n"), lit("1"), lit("-w"), lit("500"), ip.clone()];
        assert(sview(args@) =~= seq!["-n"@, "1"@, "-w"@, "500"@, ip@]);
        v.push(CommandLine { program: lit("ping"), args, dir: None });
    }
    let ghost first = v@.map_values(|c: CommandLine| c@);
    assert(first =~= probes(ip@, unix, windows, false));
    if linux {
        let args = vec![lit("-c"), lit("1"), lit("-w"), lit("1"), lit("-I"), lit("any"), ip.clone()];
        assert(sview(args@) =~= seq!["-c"@, "1"@, "-w"@, "1"@, "-I"@, "any"@, ip@]);
        let c = CommandLine { program: lit("arping"), args, dir: None };
        let ghost v0 = v@;
        v.push(c);
        assert(v@.map_values(|c: CommandLine| c@) =~= v0.map_values(|c: CommandLine| c@).push(c@));
    }
    assert(v@.map_values(|c: CommandLine| c@) =~= probes(ip@, unix, windows, linux));
    v
}

} // verus!

verus! {

// ---------------------------------------------------------------------------
// The ARP table on Windows and macOS
// ---------------------------------------------------------------------------

/// An entry of `arp -a` on Windows: a line whose first field has a dot,
/// with its second field as the hardware address and no interface.
pub open spec fn windows_arp_line(l: Seq<char>) -> Option<(Seq<char>, Seq<char>, Seq<char>)> {
    let f = split_ws(l);
    if f.len() >= 2 && f[0].contains('.') {
        Some((f[0], f[1], Seq::empty()))
    } else {
        None
    }
}

/// `s` without the parentheses at either end (`trim_matches`).
pub open spec fn trim_parens(s: Seq<char>) -> Seq<char>
    decreases s.len(),
{
    if s.len() > 0 && (s[0] == '(' || s[0] == ')') {
        trim_parens(s.drop_first())
    } else if s.len() > 0 && (s.last() == '(' || s.last() == ')') {
        trim_parens(s.drop_last())
    } else {
        s
    }
}

/// An entry of `arp -a -n` on macOS (`? (ip) at mac on iface ...`): the
/// address without its parentheses, the fourth field as hardware address,
/// the sixth (if any) as interface; incomplete entries are left out.
pub open spec fn macos_arp_line(l: Seq<char>) -> Option<(Seq<char>, Seq<char>, Seq<char>)> {
    let f = split_ws(l);
    if f.len() >= 4 && f[3] != "(incomplete)"@ {
        Some((trim_parens(f[1]), f[3], if f.len() > 5 {
            f[5]
        } else {
            Seq::empty()
        }))
    } else {
        None
    }
}

/// On macOS, `? (ip) at mac on iface ...` lists the address without its
/// parentheses, the hardware address and the interface, and an
/// `(incomplete)` entry lists nothing; on Windows, a line whose first word
/// has a dot lists that word as the address and the next as the hardware
/// address, with no interface.
pub proof fn arp_a_lines(ip: Seq<char>, mac: Seq<char>, iface: Seq<char>, rest: Seq<Seq<char>>)
    requires
        is_word(ip),
        is_word(mac),
        is_word(iface),
        forall|i: int| 0 <= i < rest.len() ==> is_word(#[trigger] rest[i]),
        !ip.contains('('),
        !ip.contains(')'),
    ensures
        macos_arp_line(spaced(seq!["?"@, seq!['('] + ip + seq![')'], "at"@, mac, "on"@, iface] + rest)) == (if mac
            == "(incomplete)"@ {
            None
        } else {
            Some((ip, mac, iface))
        }),
        ip.contains('.') ==> windows_arp_line(spaced(seq![ip, mac] + rest)) == Some((ip, mac, Seq::<char>::empty())),
{
    reveal_strlit("?");
    reveal_strlit("at");
    reveal_strlit("on");
    let pip = seq!['('] + ip + seq![')'];
    assert(is_word(pip)) by {
        assert forall|i: int| 0 <= i < pip.len() implies !is_ws(#[trigger] pip[i]) by {
            if 0 < i < pip.len() - 1 {
                assert(pip[i] == ip[i - 1]);
            }
        }
    }
    assert(is_word("?"@) && is_word("at"@) && is_word("on"@));
    let w = seq!["?"@, pip, "at"@, mac, "on"@, iface] + rest;
    assert forall|i: int| 0 <= i < w.len() implies is_word(#[trigger] w[i]) by {
        if i >= 6 {
            assert(w[i] == rest[i - 6]);
        }
    }
    lemma_split_ws_spaced(w);
    assert(pip.drop_first() =~= ip + seq![')']);
    assert((ip + seq![')']).drop_last() =~= ip);
    assert(ip[0] != '(' && ip[0] != ')');
    assert(ip.last() != '(' && ip.last() != ')') by {
        assert(ip.last() == ip[ip.len() - 1]);
    }
    assert(trim_parens(ip) == ip);
    let q = ip + seq![')'];
    assert(q[0] == ip[0]);
    assert(q.last() == ')');
    assert(q.drop_last() =~= ip);
    assert(trim_parens(q) == trim_parens(q.drop_last()));
    assert(trim_parens(ip + seq![')']) == ip);
    assert(trim_parens(pip) == ip);
    let v = seq![ip, mac] + rest;
    assert forall|i: int| 0 <= i < v.len() implies is_word(#[trigger] v[i]) by {
        if i >= 2 {
            assert(v[i] == rest[i - 2]);
        }
    }
    lemma_split_ws_spaced(v);
}

pub open spec fn arp_lines(ls: Seq<Seq<char>>, macos: bool) -> Seq<(Seq<char>, Seq<char>, Seq<char>)>
    decreases ls.len(),
{
    if ls.len() == 0 {
        Seq::empty()
    } else {
        let rest = arp_lines(ls.drop_last(), macos);
        match if macos {
            macos_arp_line(ls.last())
        } else {
            windows_arp_line(ls.last())
        } {
            Some(e) => rest.push(e),
            None => rest,
        }
    }
}

#[verifier::rlimit(30)]
fn trim_parens_exec(s: &Vec<char>) -> (r: Vec<char>)
    ensures
        r@ == trim_parens(s@),
{
    let mut a: usize = 0;
    let mut b: usize = s.len();
    assert(s@.subrange(0, s@.len() as int) =~= s@);
    while a < b && (s[a] == '(' || s[a] == ')')
        invariant
            a <= b <= s.len(),
            b == s.len(),
            trim_parens(s@) == trim_parens(s@.subrange(a as int, b as int)),
        decreases b - a,
    {
        assert(s@.subrange(a as int, b as int).drop_first() =~= s@.subrange(a + 1, b as int));
        a = a + 1;
    }
    while a < b && (s[b - 1] == '(' || s[b - 1] == ')')
        invariant
            a <= b <= s.len(),
            a == b || (s@[a as int] != '(' && s@[a as int] != ')'),
            trim_parens(s@) == trim_parens(s@.subrange(a as int, b as int)),
        decreases b - a,
    {
        let ghost t = s@.subrange(a as int, b as int);
        assert(t.drop_last() =~= s@.subrange(a as int, b - 1));
        b = b - 1;
    }
    let mut r: Vec<char> = Vec::new();
    let mut k = a;
    while k < b
        invariant
            a <= k <= b <= s.len(),
            r@ =~= s@.subrange(a as int, k as int),
        decreases b - k,
    {
        r.push(s[k]);
        k = k + 1;
    }
    r
}

/// The neighbours in the output of `arp -a` (Windows) or `arp -a -n`
/// (macOS).
pub fn parse_arp_output(output: &str, macos: bool) -> (r: Vec<ArpEntry>)
    ensures
        arps_view(r@) == arp_lines(lines(output@), macos),
{
    let ls = lines_exec(&chars_of(output));
    let ghost v = vview(ls@);
    let mut r: Vec<ArpEntry> = Vec::new();
    let mut i: usize = 0;
    while i < ls.len()
        invariant
            i <= ls.len(),
            v == vview(ls@),
            v == lines(output@),
            arps_view(r@) == arp_lines(v.take(i as int), macos),
        decreases ls.len() - i,
    {
        assert(v.take(i + 1).drop_last() =~= v.take(i as int));
        assert(v.take(i + 1).last() == ls@[i as int]@);
        let f = split_ws_exec(ls[i].as_slice());
        let ghost fv = vview(f@);
        assert(fv.len() == f@.len());
        if macos {
            if f.len() >= 4 && !chars_eq_str(f[3].as_slice(), "(incomplete)") {
                assert(fv[1] == f@[1]@ && fv[3] == f@[3]@);
                let ip = trim_parens_exec(&f[1]);
                let iface: Vec<char> = if f.len() > 5 {
                    assert(fv[5] == f@[5]@);
                    f[5].clone()
                } else {
                    Vec::new()
                };
                let e = entry_from(&ip, &f[3], &iface);
                push_entry(&mut r, e);
            }
        } else {
            if f.len() >= 2 && contains_char(&f[0], '.') {
                assert(fv[0] == f@[0]@ && fv[1] == f@[1]@);
                let e = entry_from(&f[0], &f[1], &Vec::new());
                push_entry(&mut r, e);
            }
        }
        i = i + 1;
    }
    assert(v.take(ls.len() as int) =~= v);
    r
}

fn contains_char(s: &Vec<char>, c: char) -> (r: bool)
    ensures
        r == s@.contains(c),
{
    let mut i: usize = 0;
    while i < s.len()
        invariant
            i <= s.len(),
            forall|j: int| 0 <= j < i ==> s@[j] != c,
        decreases s.len() - i,
    {
        if s[i] == c {
            assert(s@[i as int] == c);
            return true;
        }
        i = i + 1;
    }
    false
}

} // verus!
