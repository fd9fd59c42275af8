//! The DHCP server's settings and the rows that store them.

use vstd::prelude::*;

use crate::kv::{
    are_items, bool_text, bool_text_reads_back, decimal_at, flag_at, get_decimal, get_flag, get_list, get_number,
    get_option, get_option_decimal, get_option_list, get_option_number, get_text, items, items_of_join, join_fills,
    list_at, lookup, lookup_push, number_at, number_view, option_at, option_decimal_at, option_list_at,
    option_list_text, option_number_at, option_number_reads_back, option_number_text, option_text, option_u64,
    option_view, option_views, put, put_flag, put_list, put_number, put_option, put_option_list, put_option_number,
    rows, text_at, KeyValue,
};
use crate::number::{dec, empty_is_no_decimal, is_decimal, parsed, parsed_of_dec};
use crate::text::{join, views};

verus! {

/// The settings of the DHCP server that hold for all subnets.
#[derive(Clone, Debug)]
pub struct DhcpGlobalSection {
    pub enabled: bool,
    pub interfaces: Vec<String>,
    pub authoritative: bool,
    pub default_lease_time: u32,
    pub max_lease_time: u32,
    pub dns_servers: Vec<String>,
    pub domain_name: String,
    pub domain_search: Vec<String>,
    pub ntp_servers: Vec<String>,
    pub wins_servers: Vec<String>,
    pub next_server: Option<String>,
    pub boot_filename: Option<String>,
    pub log_level: String,
    pub log_format: String,
    pub api_port: u16,
    pub workers: u32,
    pub accept_relayed: bool,
    pub relay_rate_limit_burst: u32,
    /// A decimal fraction, kept as the text that writes it.
    pub relay_rate_limit_pps: String,
}

/// The value of a [`DhcpGlobalSection`].
pub struct DhcpGlobalView {
    pub enabled: bool,
    pub interfaces: Seq<Seq<char>>,
    pub authoritative: bool,
    pub default_lease_time: u32,
    pub max_lease_time: u32,
    pub dns_servers: Seq<Seq<char>>,
    pub domain_name: Seq<char>,
    pub domain_search: Seq<Seq<char>>,
    pub ntp_servers: Seq<Seq<char>>,
    pub wins_servers: Seq<Seq<char>>,
    pub next_server: Option<Seq<char>>,
    pub boot_filename: Option<Seq<char>>,
    pub log_level: Seq<char>,
    pub log_format: Seq<char>,
    pub api_port: u16,
    pub workers: u32,
    pub accept_relayed: bool,
    pub relay_rate_limit_burst: u32,
    pub relay_rate_limit_pps: Seq<char>,
}

impl View for DhcpGlobalSection {
    type V = DhcpGlobalView;

    open spec fn view(&self) -> DhcpGlobalView {
        DhcpGlobalView {
            enabled: self.enabled,
            interfaces: views(self.interfaces@),
            authoritative: self.authoritative,
            default_lease_time: self.default_lease_time,
            max_lease_time: self.max_lease_time,
            dns_servers: views(self.dns_servers@),
            domain_name: self.domain_name@,
            domain_search: views(self.domain_search@),
            ntp_servers: views(self.ntp_servers@),
            wins_servers: views(self.wins_servers@),
            next_server: option_view(self.next_server),
            boot_filename: option_view(self.boot_filename),
            log_level: self.log_level@,
            log_format: self.log_format@,
            api_port: self.api_port,
            workers: self.workers,
            accept_relayed: self.accept_relayed,
            relay_rate_limit_burst: self.relay_rate_limit_burst,
            relay_rate_limit_pps: self.relay_rate_limit_pps@,
        }
    }
}

/// The rows of the service itself and of what it hands out.
#[verifier::opaque]
pub open spec fn global_service_rows(t: Seq<(Seq<char>, Seq<char>)>, v: DhcpGlobalView) -> Seq<(Seq<char>, Seq<char>)> {
    t
        .push(("enabled"@, bool_text(v.enabled)))
        .push(("interfaces"@, join(v.interfaces, seq![','])))
        .push(("authoritative"@, bool_text(v.authoritative)))
        .push(("default_lease_time"@, dec(v.default_lease_time as nat)))
        .push(("max_lease_time"@, dec(v.max_lease_time as nat)))
        .push(("dns_servers"@, join(v.dns_servers, seq![','])))
        .push(("domain_name"@, v.domain_name))
        .push(("domain_search"@, join(v.domain_search, seq![','])))
        .push(("ntp_servers"@, join(v.ntp_servers, seq![','])))
        .push(("wins_servers"@, join(v.wins_servers, seq![','])))
}

/// The rows of booting, logging and relaying.
#[verifier::opaque]
pub open spec fn global_boot_rows(t: Seq<(Seq<char>, Seq<char>)>, v: DhcpGlobalView) -> Seq<(Seq<char>, Seq<char>)> {
    t
        .push(("next_server"@, option_text(v.next_server)))
        .push(("boot_filename"@, option_text(v.boot_filename)))
        .push(("log_level"@, v.log_level))
        .push(("log_format"@, v.log_format))
        .push(("api_port"@, dec(v.api_port as nat)))
        .push(("workers"@, dec(v.workers as nat)))
        .push(("accept_relayed"@, bool_text(v.accept_relayed)))
        .push(("relay_rate_limit_burst"@, dec(v.relay_rate_limit_burst as nat)))
        .push(("relay_rate_limit_pps"@, v.relay_rate_limit_pps))
}

/// The rows that hold the settings `v` in `dhcp_config`.
pub open spec fn global_rows(v: DhcpGlobalView) -> Seq<(Seq<char>, Seq<char>)> {
    let t1 = global_service_rows(Seq::empty(), v);
    global_boot_rows(t1, v)
}

/// The settings that the rows `t` hold; a key without a row keeps its value in `d`.
pub open spec fn global_of_rows(t: Seq<(Seq<char>, Seq<char>)>, d: DhcpGlobalView) -> DhcpGlobalView {
    DhcpGlobalView {
        enabled: flag_at(t, "enabled"@, d.enabled),
        interfaces: list_at(t, "interfaces"@, ',', d.interfaces),
        authoritative: flag_at(t, "authoritative"@, d.authoritative),
        default_lease_time: number_at(t, "default_lease_time"@, u32::MAX as nat, 3600, d.default_lease_time as nat) as u32,
        max_lease_time: number_at(t, "max_lease_time"@, u32::MAX as nat, 86400, d.max_lease_time as nat) as u32,
        dns_servers: list_at(t, "dns_servers"@, ',', d.dns_servers),
        domain_name: text_at(t, "domain_name"@, d.domain_name),
        domain_search: list_at(t, "domain_search"@, ',', d.domain_search),
        ntp_servers: list_at(t, "ntp_servers"@, ',', d.ntp_servers),
        wins_servers: list_at(t, "wins_servers"@, ',', d.wins_servers),
        next_server: option_at(t, "next_server"@, d.next_server),
        boot_filename: option_at(t, "boot_filename"@, d.boot_filename),
        log_level: text_at(t, "log_level"@, d.log_level),
        log_format: text_at(t, "log_format"@, d.log_format),
        api_port: number_at(t, "api_port"@, u16::MAX as nat, 9967, d.api_port as nat) as u16,
        workers: number_at(t, "workers"@, u32::MAX as nat, 1, d.workers as nat) as u32,
        accept_relayed: flag_at(t, "accept_relayed"@, d.accept_relayed),
        relay_rate_limit_burst: number_at(t, "relay_rate_limit_burst"@, u32::MAX as nat, 200, d.relay_rate_limit_burst as nat) as u32,
        relay_rate_limit_pps: decimal_at(t, "relay_rate_limit_pps"@, "100"@, d.relay_rate_limit_pps),
    }
}

/// Reads the global settings out of the rows of `dhcp_config`.
pub fn load_global(t: &Vec<KeyValue>, d: DhcpGlobalSection) -> (r: DhcpGlobalSection)
    ensures
        r@ == global_of_rows(rows(t@), d@),
{
    DhcpGlobalSection {
        enabled: get_flag(t, "enabled", d.enabled),
        interfaces: get_list(t, "interfaces", ',', d.interfaces),
        authoritative: get_flag(t, "authoritative", d.authoritative),
        default_lease_time: get_number(t, "default_lease_time", 4294967295, 3600, d.default_lease_time as u64) as u32,
        max_lease_time: get_number(t, "max_lease_time", 4294967295, 86400, d.max_lease_time as u64) as u32,
        dns_servers: get_list(t, "dns_servers", ',', d.dns_servers),
        domain_name: get_text(t, "domain_name", d.domain_name),
        domain_search: get_list(t, "domain_search", ',', d.domain_search),
        ntp_servers: get_list(t, "ntp_servers", ',', d.ntp_servers),
        wins_servers: get_list(t, "wins_servers", ',', d.wins_servers),
        next_server: get_option(t, "next_server", d.next_server),
        boot_filename: get_option(t, "boot_filename", d.boot_filename),
        log_level: get_text(t, "log_level", d.log_level),
        log_format: get_text(t, "log_format", d.log_format),
        api_port: get_number(t, "api_port", 65535, 9967, d.api_port as u64) as u16,
        workers: get_number(t, "workers", 4294967295, 1, d.workers as u64) as u32,
        accept_relayed: get_flag(t, "accept_relayed", d.accept_relayed),
        relay_rate_limit_burst: get_number(t, "relay_rate_limit_burst", 4294967295, 200, d.relay_rate_limit_burst as u64) as u32,
        relay_rate_limit_pps: get_decimal(t, "relay_rate_limit_pps", "100", d.relay_rate_limit_pps),
    }
}

fn put_global_service(t: &mut Vec<KeyValue>, c: &DhcpGlobalSection)
    ensures
        rows(final(t)@) == global_service_rows(rows(old(t)@), c@),
{
    proof {
        reveal(global_service_rows);
    }
    put_flag(t, "enabled", c.enabled);
    put_list(t, "interfaces", ',', &c.interfaces);
    put_flag(t, "authoritative", c.authoritative);
    put_number(t, "default_lease_time", c.default_lease_time as u64);
    put_number(t, "max_lease_time", c.max_lease_time as u64);
    put_list(t, "dns_servers", ',', &c.dns_servers);
    put(t, "domain_name", c.domain_name.as_str());
    put_list(t, "domain_search", ',', &c.domain_search);
    put_list(t, "ntp_servers", ',', &c.ntp_servers);
    put_list(t, "wins_servers", ',', &c.wins_servers);
}

fn put_global_boot(t: &mut Vec<KeyValue>, c: &DhcpGlobalSection)
    ensures
        rows(final(t)@) == global_boot_rows(rows(old(t)@), c@),
{
    proof {
        reveal(global_boot_rows);
    }
    put_option(t, "next_server", &c.next_server);
    put_option(t, "boot_filename", &c.boot_filename);
    put(t, "log_level", c.log_level.as_str());
    put(t, "log_format", c.log_format.as_str());
    put_number(t, "api_port", c.api_port as u64);
    put_number(t, "workers", c.workers as u64);
    put_flag(t, "accept_relayed", c.accept_relayed);
    put_number(t, "relay_rate_limit_burst", c.relay_rate_limit_burst as u64);
    put(t, "relay_rate_limit_pps", c.relay_rate_limit_pps.as_str());
}

/// The rows that store the global settings.
pub fn save_global(c: &DhcpGlobalSection) -> (t: Vec<KeyValue>)
    ensures
        rows(t@) == global_rows(c@),
{
    let mut t: Vec<KeyValue> = Vec::new();
    assert(rows(t@) =~= Seq::<(Seq<char>, Seq<char>)>::empty());
    put_global_service(&mut t, c);
    put_global_boot(&mut t, c);
    t
}

/// The settings that a table can hold without loss: list entries are not empty,
/// have no white space around them and do not hold their separator; an optional
/// text that is there is not empty; a fraction is written as one.
pub open spec fn is_storable_global(v: DhcpGlobalView) -> bool {
    &&& are_items(v.interfaces, ',')
    &&& are_items(v.dns_servers, ',')
    &&& are_items(v.domain_search, ',')
    &&& are_items(v.ntp_servers, ',')
    &&& are_items(v.wins_servers, ',')
    &&& v.next_server is Some ==> v.next_server->0.len() > 0
    &&& v.boot_filename is Some ==> v.boot_filename->0.len() > 0
    &&& is_decimal(v.relay_rate_limit_pps)
}

/// What tells the keys apart: their lengths and, among keys of one length, the
/// characters named here.
proof fn lemma_global_round_trip_keys()
    ensures
        "enabled"@.len() == 7,
        "interfaces"@.len() == 10,
        "authoritative"@.len() == 13,
        "default_lease_time"@.len() == 18,
        "max_lease_time"@.len() == 14,
        "dns_servers"@.len() == 11,
        "domain_name"@.len() == 11,
        "domain_search"@.len() == 13,
        "ntp_servers"@.len() == 11,
        "wins_servers"@.len() == 12,
        "next_server"@.len() == 11,
        "boot_filename"@.len() == 13,
        "log_level"@.len() == 9,
        "log_format"@.len() == 10,
        "api_port"@.len() == 8,
        "workers"@.len() == 7,
        "accept_relayed"@.len() == 14,
        "relay_rate_limit_burst"@.len() == 22,
        "relay_rate_limit_pps"@.len() == 20,
        "enabled"@[0] == 'e',
        "workers"@[0] == 'w',
        "interfaces"@[0] == 'i',
        "log_format"@[0] == 'l',
        "dns_servers"@[0] == 'd',
        "dns_servers"@[1] == 'n',
        "domain_name"@[0] == 'd',
        "domain_name"@[1] == 'o',
        "ntp_servers"@[0] == 'n',
        "ntp_servers"@[1] == 't',
        "next_server"@[0] == 'n',
        "next_server"@[1] == 'e',
        "authoritative"@[0] == 'a',
        "domain_search"@[0] == 'd',
        "boot_filename"@[0] == 'b',
        "max_lease_time"@[0] == 'm',
        "accept_relayed"@[0] == 'a',
{
    reveal_strlit("enabled");
    reveal_strlit("interfaces");
    reveal_strlit("authoritative");
    reveal_strlit("default_lease_time");
    reveal_strlit("max_lease_time");
    reveal_strlit("dns_servers");
    reveal_strlit("domain_name");
    reveal_strlit("domain_search");
    reveal_strlit("ntp_servers");
    reveal_strlit("wins_servers");
    reveal_strlit("next_server");
    reveal_strlit("boot_filename");
    reveal_strlit("log_level");
    reveal_strlit("log_format");
    reveal_strlit("api_port");
    reveal_strlit("workers");
    reveal_strlit("accept_relayed");
    reveal_strlit("relay_rate_limit_burst");
    reveal_strlit("relay_rate_limit_pps");
}

proof fn lemma_global_service_lookups(t: Seq<(Seq<char>, Seq<char>)>, v: DhcpGlobalView)
    ensures
        lookup(global_service_rows(t, v), "enabled"@) == Some(bool_text(v.enabled)),
        lookup(global_service_rows(t, v), "interfaces"@) == Some(join(v.interfaces, seq![','])),
        lookup(global_service_rows(t, v), "authoritative"@) == Some(bool_text(v.authoritative)),
        lookup(global_service_rows(t, v), "default_lease_time"@) == Some(dec(v.default_lease_time as nat)),
        lookup(global_service_rows(t, v), "max_lease_time"@) == Some(dec(v.max_lease_time as nat)),
        lookup(global_service_rows(t, v), "dns_servers"@) == Some(join(v.dns_servers, seq![','])),
        lookup(global_service_rows(t, v), "domain_name"@) == Some(v.domain_name),
        lookup(global_service_rows(t, v), "domain_search"@) == Some(join(v.domain_search, seq![','])),
        lookup(global_service_rows(t, v), "ntp_servers"@) == Some(join(v.ntp_servers, seq![','])),
        lookup(global_service_rows(t, v), "wins_servers"@) == Some(join(v.wins_servers, seq![','])),
        lookup(global_service_rows(t, v), "next_server"@) == lookup(t, "next_server"@),
        lookup(global_service_rows(t, v), "boot_filename"@) == lookup(t, "boot_filename"@),
        lookup(global_service_rows(t, v), "log_level"@) == lookup(t, "log_level"@),
        lookup(global_service_rows(t, v), "log_format"@) == lookup(t, "log_format"@),
        lookup(global_service_rows(t, v), "api_port"@) == lookup(t, "api_port"@),
        lookup(global_service_rows(t, v), "workers"@) == lookup(t, "workers"@),
        lookup(global_service_rows(t, v), "accept_relayed"@) == lookup(t, "accept_relayed"@),
        lookup(global_service_rows(t, v), "relay_rate_limit_burst"@) == lookup(t, "relay_rate_limit_burst"@),
        lookup(global_service_rows(t, v), "relay_rate_limit_pps"@) == lookup(t, "relay_rate_limit_pps"@),
{
    broadcast use lookup_push;

    reveal(global_service_rows);
    lemma_global_round_trip_keys();
}

proof fn lemma_global_boot_lookups(t: Seq<(Seq<char>, Seq<char>)>, v: DhcpGlobalView)
    ensures
        lookup(global_boot_rows(t, v), "enabled"@) == lookup(t, "enabled"@),
        lookup(global_boot_rows(t, v), "interfaces"@) == lookup(t, "interfaces"@),
        lookup(global_boot_rows(t, v), "authoritative"@) == lookup(t, "authoritative"@),
        lookup(global_boot_rows(t, v), "default_lease_time"@) == lookup(t, "default_lease_time"@),
        lookup(global_boot_rows(t, v), "max_lease_time"@) == lookup(t, "max_lease_time"@),
        lookup(global_boot_rows(t, v), "dns_servers"@) == lookup(t, "dns_servers"@),
        lookup(global_boot_rows(t, v), "domain_name"@) == lookup(t, "domain_name"@),
        lookup(global_boot_rows(t, v), "domain_search"@) == lookup(t, "domain_search"@),
        lookup(global_boot_rows(t, v), "ntp_servers"@) == lookup(t, "ntp_servers"@),
        lookup(global_boot_rows(t, v), "wins_servers"@) == lookup(t, "wins_servers"@),
        lookup(global_boot_rows(t, v), "next_server"@) == Some(option_text(v.next_server)),
        lookup(global_boot_rows(t, v), "boot_filename"@) == Some(option_text(v.boot_filename)),
        lookup(global_boot_rows(t, v), "log_level"@) == Some(v.log_level),
        lookup(global_boot_rows(t, v), "log_format"@) == Some(v.log_format),
        lookup(global_boot_rows(t, v), "api_port"@) == Some(dec(v.api_port as nat)),
        lookup(global_boot_rows(t, v), "workers"@) == Some(dec(v.workers as nat)),
        lookup(global_boot_rows(t, v), "accept_relayed"@) == Some(bool_text(v.accept_relayed)),
        lookup(global_boot_rows(t, v), "relay_rate_limit_burst"@) == Some(dec(v.relay_rate_limit_burst as nat)),
        lookup(global_boot_rows(t, v), "relay_rate_limit_pps"@) == Some(v.relay_rate_limit_pps),
{
    broadcast use lookup_push;

    reveal(global_boot_rows);
    lemma_global_round_trip_keys();
}

proof fn lemma_global_service_reads_back(t: Seq<(Seq<char>, Seq<char>)>, v: DhcpGlobalView, d: DhcpGlobalView)
    requires
        is_storable_global(v),
        lookup(t, "enabled"@) == Some(bool_text(v.enabled)),
        lookup(t, "interfaces"@) == Some(join(v.interfaces, seq![','])),
        lookup(t, "authoritative"@) == Some(bool_text(v.authoritative)),
        lookup(t, "default_lease_time"@) == Some(dec(v.default_lease_time as nat)),
        lookup(t, "max_lease_time"@) == Some(dec(v.max_lease_time as nat)),
        lookup(t, "dns_servers"@) == Some(join(v.dns_servers, seq![','])),
        lookup(t, "domain_name"@) == Some(v.domain_name),
        lookup(t, "domain_search"@) == Some(join(v.domain_search, seq![','])),
        lookup(t, "ntp_servers"@) == Some(join(v.ntp_servers, seq![','])),
        lookup(t, "wins_servers"@) == Some(join(v.wins_servers, seq![','])),
    ensures
        global_of_rows(t, d).enabled == v.enabled,
        global_of_rows(t, d).interfaces == v.interfaces,
        global_of_rows(t, d).authoritative == v.authoritative,
        global_of_rows(t, d).default_lease_time == v.default_lease_time,
        global_of_rows(t, d).max_lease_time == v.max_lease_time,
        global_of_rows(t, d).dns_servers == v.dns_servers,
        global_of_rows(t, d).domain_name == v.domain_name,
        global_of_rows(t, d).domain_search == v.domain_search,
        global_of_rows(t, d).ntp_servers == v.ntp_servers,
        global_of_rows(t, d).wins_servers == v.wins_servers,
{
    bool_text_reads_back(v.enabled);
    items_of_join(v.interfaces, ',');
    bool_text_reads_back(v.authoritative);
    parsed_of_dec(v.default_lease_time as nat, u32::MAX as nat);
    parsed_of_dec(v.max_lease_time as nat, u32::MAX as nat);
    items_of_join(v.dns_servers, ',');
    items_of_join(v.domain_search, ',');
    items_of_join(v.ntp_servers, ',');
    items_of_join(v.wins_servers, ',');
}

proof fn lemma_global_boot_reads_back(t: Seq<(Seq<char>, Seq<char>)>, v: DhcpGlobalView, d: DhcpGlobalView)
    requires
        is_storable_global(v),
        lookup(t, "next_server"@) == Some(option_text(v.next_server)),
        lookup(t, "boot_filename"@) == Some(option_text(v.boot_filename)),
        lookup(t, "log_level"@) == Some(v.log_level),
        lookup(t, "log_format"@) == Some(v.log_format),
        lookup(t, "api_port"@) == Some(dec(v.api_port as nat)),
        lookup(t, "workers"@) == Some(dec(v.workers as nat)),
        lookup(t, "accept_relayed"@) == Some(bool_text(v.accept_relayed)),
        lookup(t, "relay_rate_limit_burst"@) == Some(dec(v.relay_rate_limit_burst as nat)),
        lookup(t, "relay_rate_limit_pps"@) == Some(v.relay_rate_limit_pps),
    ensures
        global_of_rows(t, d).next_server == v.next_server,
        global_of_rows(t, d).boot_filename == v.boot_filename,
        global_of_rows(t, d).log_level == v.log_level,
        global_of_rows(t, d).log_format == v.log_format,
        global_of_rows(t, d).api_port == v.api_port,
        global_of_rows(t, d).workers == v.workers,
        global_of_rows(t, d).accept_relayed == v.accept_relayed,
        global_of_rows(t, d).relay_rate_limit_burst == v.relay_rate_limit_burst,
        global_of_rows(t, d).relay_rate_limit_pps == v.relay_rate_limit_pps,
{
    parsed_of_dec(v.api_port as nat, u16::MAX as nat);
    parsed_of_dec(v.workers as nat, u32::MAX as nat);
    bool_text_reads_back(v.accept_relayed);
    parsed_of_dec(v.relay_rate_limit_burst as nat, u32::MAX as nat);
}

/// The global settings of a backup are what was saved.
pub proof fn global_round_trip(v: DhcpGlobalView, d: DhcpGlobalView)
    requires
        is_storable_global(v),
    ensures
        global_of_rows(global_rows(v), d) == v,
{
    let t1 = global_service_rows(Seq::empty(), v);
    lemma_global_service_lookups(Seq::empty(), v);
    let t2 = global_boot_rows(t1, v);
    lemma_global_boot_lookups(t1, v);
    let t = t2;
    lemma_global_service_reads_back(t, v, d);
    lemma_global_boot_reads_back(t, v, d);
}

/// The settings of dynamic DNS updates.
#[derive(Clone, Debug)]
pub struct DhcpDdnsSection {
    pub enabled: bool,
    pub forward_zone: String,
    pub reverse_zone_v4: String,
    pub reverse_zone_v6: String,
    pub dns_server: String,
    pub tsig_key: String,
    pub tsig_algorithm: String,
    pub tsig_secret: String,
    pub ttl: u32,
}

/// The value of a [`DhcpDdnsSection`].
pub struct DhcpDdnsView {
    pub enabled: bool,
    pub forward_zone: Seq<char>,
    pub reverse_zone_v4: Seq<char>,
    pub reverse_zone_v6: Seq<char>,
    pub dns_server: Seq<char>,
    pub tsig_key: Seq<char>,
    pub tsig_algorithm: Seq<char>,
    pub tsig_secret: Seq<char>,
    pub ttl: u32,
}

impl View for DhcpDdnsSection {
    type V = DhcpDdnsView;

    open spec fn view(&self) -> DhcpDdnsView {
        DhcpDdnsView {
            enabled: self.enabled,
            forward_zone: self.forward_zone@,
            reverse_zone_v4: self.reverse_zone_v4@,
            reverse_zone_v6: self.reverse_zone_v6@,
            dns_server: self.dns_server@,
            tsig_key: self.tsig_key@,
            tsig_algorithm: self.tsig_algorithm@,
            tsig_secret: self.tsig_secret@,
            ttl: self.ttl,
        }
    }
}

/// The rows of dynamic DNS updates.
#[verifier::opaque]
pub open spec fn ddns_update_rows(t: Seq<(Seq<char>, Seq<char>)>, v: DhcpDdnsView) -> Seq<(Seq<char>, Seq<char>)> {
    t
        .push(("enabled"@, bool_text(v.enabled)))
        .push(("forward_zone"@, v.forward_zone))
        .push(("reverse_zone_v4"@, v.reverse_zone_v4))
        .push(("reverse_zone_v6"@, v.reverse_zone_v6))
        .push(("dns_server"@, v.dns_server))
        .push(("tsig_key"@, v.tsig_key))
        .push(("tsig_algorithm"@, v.tsig_algorithm))
        .push(("tsig_secret"@, v.tsig_secret))
        .push(("ttl"@, dec(v.ttl as nat)))
}

/// The rows that hold the settings `v` in `dhcp_ddns_config`.
pub open spec fn ddns_rows(v: DhcpDdnsView) -> Seq<(Seq<char>, Seq<char>)> {
    ddns_update_rows(Seq::empty(), v)
}

/// The settings that the rows `t` hold; a key without a row keeps its value in `d`.
pub open spec fn ddns_of_rows(t: Seq<(Seq<char>, Seq<char>)>, d: DhcpDdnsView) -> DhcpDdnsView {
    DhcpDdnsView {
        enabled: flag_at(t, "enabled"@, d.enabled),
        forward_zone: text_at(t, "forward_zone"@, d.forward_zone),
        reverse_zone_v4: text_at(t, "reverse_zone_v4"@, d.reverse_zone_v4),
        reverse_zone_v6: text_at(t, "reverse_zone_v6"@, d.reverse_zone_v6),
        dns_server: text_at(t, "dns_server"@, d.dns_server),
        tsig_key: text_at(t, "tsig_key"@, d.tsig_key),
        tsig_algorithm: text_at(t, "tsig_algorithm"@, d.tsig_algorithm),
        tsig_secret: text_at(t, "tsig_secret"@, d.tsig_secret),
        ttl: number_at(t, "ttl"@, u32::MAX as nat, 300, d.ttl as nat) as u32,
    }
}

/// Reads the dynamic DNS settings out of the rows of `dhcp_ddns_config`.
pub fn load_ddns(t: &Vec<KeyValue>, d: DhcpDdnsSection) -> (r: DhcpDdnsSection)
    ensures
        r@ == ddns_of_rows(rows(t@), d@),
{
    DhcpDdnsSection {
        enabled: get_flag(t, "enabled", d.enabled),
        forward_zone: get_text(t, "forward_zone", d.forward_zone),
        reverse_zone_v4: get_text(t, "reverse_zone_v4", d.reverse_zone_v4),
        reverse_zone_v6: get_text(t, "reverse_zone_v6", d.reverse_zone_v6),
        dns_server: get_text(t, "dns_server", d.dns_server),
        tsig_key: get_text(t, "tsig_key", d.tsig_key),
        tsig_algorithm: get_text(t, "tsig_algorithm", d.tsig_algorithm),
        tsig_secret: get_text(t, "tsig_secret", d.tsig_secret),
        ttl: get_number(t, "ttl", 4294967295, 300, d.ttl as u64) as u32,
    }
}

fn put_ddns_update(t: &mut Vec<KeyValue>, c: &DhcpDdnsSection)
    ensures
        rows(final(t)@) == ddns_update_rows(rows(old(t)@), c@),
{
    proof {
        reveal(ddns_update_rows);
    }
    put_flag(t, "enabled", c.enabled);
    put(t, "forward_zone", c.forward_zone.as_str());
    put(t, "reverse_zone_v4", c.reverse_zone_v4.as_str());
    put(t, "reverse_zone_v6", c.reverse_zone_v6.as_str());
    put(t, "dns_server", c.dns_server.as_str());
    put(t, "tsig_key", c.tsig_key.as_str());
    put(t, "tsig_algorithm", c.tsig_algorithm.as_str());
    put(t, "tsig_secret", c.tsig_secret.as_str());
    put_number(t, "ttl", c.ttl as u64);
}

/// The rows that store the dynamic DNS settings.
pub fn save_ddns(c: &DhcpDdnsSection) -> (t: Vec<KeyValue>)
    ensures
        rows(t@) == ddns_rows(c@),
{
    let mut t: Vec<KeyValue> = Vec::new();
    assert(rows(t@) =~= Seq::<(Seq<char>, Seq<char>)>::empty());
    put_ddns_update(&mut t, c);
    t
}

/// What tells the keys apart: their lengths and, among keys of one length, the
/// characters named here.
proof fn lemma_ddns_round_trip_keys()
    ensures
        "enabled"@.len() == 7,
        "forward_zone"@.len() == 12,
        "reverse_zone_v4"@.len() == 15,
        "reverse_zone_v6"@.len() == 15,
        "dns_server"@.len() == 10,
        "tsig_key"@.len() == 8,
        "tsig_algorithm"@.len() == 14,
        "tsig_secret"@.len() == 11,
        "ttl"@.len() == 3,
        "reverse_zone_v4"@[14] == '4',
        "reverse_zone_v6"@[14] == '6',
{
    reveal_strlit("enabled");
    reveal_strlit("forward_zone");
    reveal_strlit("reverse_zone_v4");
    reveal_strlit("reverse_zone_v6");
    reveal_strlit("dns_server");
    reveal_strlit("tsig_key");
    reveal_strlit("tsig_algorithm");
    reveal_strlit("tsig_secret");
    reveal_strlit("ttl");
}

proof fn lemma_ddns_update_lookups(t: Seq<(Seq<char>, Seq<char>)>, v: DhcpDdnsView)
    ensures
        lookup(ddns_update_rows(t, v), "enabled"@) == Some(bool_text(v.enabled)),
        lookup(ddns_update_rows(t, v), "forward_zone"@) == Some(v.forward_zone),
        lookup(ddns_update_rows(t, v), "reverse_zone_v4"@) == Some(v.reverse_zone_v4),
        lookup(ddns_update_rows(t, v), "reverse_zone_v6"@) == Some(v.reverse_zone_v6),
        lookup(ddns_update_rows(t, v), "dns_server"@) == Some(v.dns_server),
        lookup(ddns_update_rows(t, v), "tsig_key"@) == Some(v.tsig_key),
        lookup(ddns_update_rows(t, v), "tsig_algorithm"@) == Some(v.tsig_algorithm),
        lookup(ddns_update_rows(t, v), "tsig_secret"@) == Some(v.tsig_secret),
        lookup(ddns_update_rows(t, v), "ttl"@) == Some(dec(v.ttl as nat)),
{
    broadcast use lookup_push;

    reveal(ddns_update_rows);
    lemma_ddns_round_trip_keys();
}

proof fn lemma_ddns_update_reads_back(t: Seq<(Seq<char>, Seq<char>)>, v: DhcpDdnsView, d: DhcpDdnsView)
    requires
        lookup(t, "enabled"@) == Some(bool_text(v.enabled)),
        lookup(t, "forward_zone"@) == Some(v.forward_zone),
        lookup(t, "reverse_zone_v4"@) == Some(v.reverse_zone_v4),
        lookup(t, "reverse_zone_v6"@) == Some(v.reverse_zone_v6),
        lookup(t, "dns_server"@) == Some(v.dns_server),
        lookup(t, "tsig_key"@) == Some(v.tsig_key),
        lookup(t, "tsig_algorithm"@) == Some(v.tsig_algorithm),
        lookup(t, "tsig_secret"@) == Some(v.tsig_secret),
        lookup(t, "ttl"@) == Some(dec(v.ttl as nat)),
    ensures
        ddns_of_rows(t, d).enabled == v.enabled,
        ddns_of_rows(t, d).forward_zone == v.forward_zone,
        ddns_of_rows(t, d).reverse_zone_v4 == v.reverse_zone_v4,
        ddns_of_rows(t, d).reverse_zone_v6 == v.reverse_zone_v6,
        ddns_of_rows(t, d).dns_server == v.dns_server,
        ddns_of_rows(t, d).tsig_key == v.tsig_key,
        ddns_of_rows(t, d).tsig_algorithm == v.tsig_algorithm,
        ddns_of_rows(t, d).tsig_secret == v.tsig_secret,
        ddns_of_rows(t, d).ttl == v.ttl,
{
    bool_text_reads_back(v.enabled);
    parsed_of_dec(v.ttl as nat, u32::MAX as nat);
}

/// The dynamic DNS settings of a backup are what was saved.
pub proof fn ddns_round_trip(v: DhcpDdnsView, d: DhcpDdnsView)
    ensures
        ddns_of_rows(ddns_rows(v), d) == v,
{
    let t1 = ddns_update_rows(Seq::empty(), v);
    lemma_ddns_update_lookups(Seq::empty(), v);
    let t = t1;
    lemma_ddns_update_reads_back(t, v, d);
}

/// The settings of the DHCP failover pair.
#[derive(Clone, Debug)]
pub struct DhcpHaSection {
    pub mode: String,
    pub peer: Option<String>,
    pub listen: Option<String>,
    /// A decimal fraction, kept as the text that writes it.
    pub scope_split: Option<String>,
    pub mclt: Option<u64>,
    pub partner_down_delay: Option<u64>,
    pub node_id: Option<u64>,
    pub peers: Option<Vec<String>>,
    pub tls_cert: Option<String>,
    pub tls_key: Option<String>,
    pub tls_ca: Option<String>,
}

/// The value of a [`DhcpHaSection`].
pub struct DhcpHaView {
    pub mode: Seq<char>,
    pub peer: Option<Seq<char>>,
    pub listen: Option<Seq<char>>,
    pub scope_split: Option<Seq<char>>,
    pub mclt: Option<u64>,
    pub partner_down_delay: Option<u64>,
    pub node_id: Option<u64>,
    pub peers: Option<Seq<Seq<char>>>,
    pub tls_cert: Option<Seq<char>>,
    pub tls_key: Option<Seq<char>>,
    pub tls_ca: Option<Seq<char>>,
}

impl View for DhcpHaSection {
    type V = DhcpHaView;

    open spec fn view(&self) -> DhcpHaView {
        DhcpHaView {
            mode: self.mode@,
            peer: option_view(self.peer),
            listen: option_view(self.listen),
            scope_split: option_view(self.scope_split),
            mclt: self.mclt,
            partner_down_delay: self.partner_down_delay,
            node_id: self.node_id,
            peers: option_views(self.peers),
            tls_cert: option_view(self.tls_cert),
            tls_key: option_view(self.tls_key),
            tls_ca: option_view(self.tls_ca),
        }
    }
}

/// The rows of the failover pair.
#[verifier::opaque]
pub open spec fn ha_pair_rows(t: Seq<(Seq<char>, Seq<char>)>, v: DhcpHaView) -> Seq<(Seq<char>, Seq<char>)> {
    t
        .push(("mode"@, v.mode))
        .push(("peer"@, option_text(v.peer)))
        .push(("listen"@, option_text(v.listen)))
        .push(("scope_split"@, option_text(v.scope_split)))
        .push(("mclt"@, option_number_text(number_view(v.mclt))))
        .push(("partner_down_delay"@, option_number_text(number_view(v.partner_down_delay))))
        .push(("node_id"@, option_number_text(number_view(v.node_id))))
        .push(("peers"@, option_list_text(v.peers, ',')))
        .push(("tls_cert"@, option_text(v.tls_cert)))
        .push(("tls_key"@, option_text(v.tls_key)))
        .push(("tls_ca"@, option_text(v.tls_ca)))
}

/// The rows that hold the settings `v` in `dhcp_ha_config`.
pub open spec fn ha_rows(v: DhcpHaView) -> Seq<(Seq<char>, Seq<char>)> {
    ha_pair_rows(Seq::empty(), v)
}

/// The settings that the rows `t` hold; a key without a row keeps its value in `d`.
pub open spec fn ha_of_rows(t: Seq<(Seq<char>, Seq<char>)>, d: DhcpHaView) -> DhcpHaView {
    DhcpHaView {
        mode: text_at(t, "mode"@, d.mode),
        peer: option_at(t, "peer"@, d.peer),
        listen: option_at(t, "listen"@, d.listen),
        scope_split: option_decimal_at(t, "scope_split"@, d.scope_split),
        mclt: option_u64(option_number_at(t, "mclt"@, u64::MAX as nat, number_view(d.mclt))),
        partner_down_delay: option_u64(option_number_at(t, "partner_down_delay"@, u64::MAX as nat, number_view(d.partner_down_delay))),
        node_id: option_u64(option_number_at(t, "node_id"@, u64::MAX as nat, number_view(d.node_id))),
        peers: option_list_at(t, "peers"@, ',', d.peers),
        tls_cert: option_at(t, "tls_cert"@, d.tls_cert),
        tls_key: option_at(t, "tls_key"@, d.tls_key),
        tls_ca: option_at(t, "tls_ca"@, d.tls_ca),
    }
}

/// Reads the failover settings out of the rows of `dhcp_ha_config`.
pub fn load_ha(t: &Vec<KeyValue>, d: DhcpHaSection) -> (r: DhcpHaSection)
    ensures
        r@ == ha_of_rows(rows(t@), d@),
{
    DhcpHaSection {
        mode: get_text(t, "mode", d.mode),
        peer: get_option(t, "peer", d.peer),
        listen: get_option(t, "listen", d.listen),
        scope_split: get_option_decimal(t, "scope_split", d.scope_split),
        mclt: get_option_number(t, "mclt", 18446744073709551615, d.mclt),
        partner_down_delay: get_option_number(t, "partner_down_delay", 18446744073709551615, d.partner_down_delay),
        node_id: get_option_number(t, "node_id", 18446744073709551615, d.node_id),
        peers: get_option_list(t, "peers", ',', d.peers),
        tls_cert: get_option(t, "tls_cert", d.tls_cert),
        tls_key: get_option(t, "tls_key", d.tls_key),
        tls_ca: get_option(t, "tls_ca", d.tls_ca),
    }
}

fn put_ha_pair(t: &mut Vec<KeyValue>, c: &DhcpHaSection)
    ensures
        rows(final(t)@) == ha_pair_rows(rows(old(t)@), c@),
{
    proof {
        reveal(ha_pair_rows);
    }
    put(t, "mode", c.mode.as_str());
    put_option(t, "peer", &c.peer);
    put_option(t, "listen", &c.listen);
    put_option(t, "scope_split", &c.scope_split);
    put_option_number(t, "mclt", c.mclt);
    put_option_number(t, "partner_down_delay", c.partner_down_delay);
    put_option_number(t, "node_id", c.node_id);
    put_option_list(t, "peers", ',', &c.peers);
    put_option(t, "tls_cert", &c.tls_cert);
    put_option(t, "tls_key", &c.tls_key);
    put_option(t, "tls_ca", &c.tls_ca);
}

/// The rows that store the failover settings.
pub fn save_ha(c: &DhcpHaSection) -> (t: Vec<KeyValue>)
    ensures
        rows(t@) == ha_rows(c@),
{
    let mut t: Vec<KeyValue> = Vec::new();
    assert(rows(t@) =~= Seq::<(Seq<char>, Seq<char>)>::empty());
    put_ha_pair(&mut t, c);
    t
}

/// The settings that a table can hold without loss: list entries are not empty,
/// have no white space around them and do not hold their separator; an optional
/// text that is there is not empty; a fraction is written as one.
pub open spec fn is_storable_ha(v: DhcpHaView) -> bool {
    &&& v.peer is Some ==> v.peer->0.len() > 0
    &&& v.listen is Some ==> v.listen->0.len() > 0
    &&& v.scope_split is Some ==> is_decimal(v.scope_split->0)
    &&& v.peers is Some ==> v.peers->0.len() > 0 && are_items(v.peers->0, ',')
    &&& v.tls_cert is Some ==> v.tls_cert->0.len() > 0
    &&& v.tls_key is Some ==> v.tls_key->0.len() > 0
    &&& v.tls_ca is Some ==> v.tls_ca->0.len() > 0
}

/// What tells the keys apart: their lengths and, among keys of one length, the
/// characters named here.
proof fn lemma_ha_round_trip_keys()
    ensures
        "mode"@.len() == 4,
        "peer"@.len() == 4,
        "listen"@.len() == 6,
        "scope_split"@.len() == 11,
        "mclt"@.len() == 4,
        "partner_down_delay"@.len() == 18,
        "node_id"@.len() == 7,
        "peers"@.len() == 5,
        "tls_cert"@.len() == 8,
        "tls_key"@.len() == 7,
        "tls_ca"@.len() == 6,
        "mode"@[0] == 'm',
        "mode"@[1] == 'o',
        "peer"@[0] == 'p',
        "mclt"@[0] == 'm',
        "mclt"@[1] == 'c',
        "listen"@[0] == 'l',
        "tls_ca"@[0] == 't',
        "node_id"@[0] == 'n',
        "tls_key"@[0] == 't',
{
    reveal_strlit("mode");
    reveal_strlit("peer");
    reveal_strlit("listen");
    reveal_strlit("scope_split");
    reveal_strlit("mclt");
    reveal_strlit("partner_down_delay");
    reveal_strlit("node_id");
    reveal_strlit("peers");
    reveal_strlit("tls_cert");
    reveal_strlit("tls_key");
    reveal_strlit("tls_ca");
}

proof fn lemma_ha_pair_lookups(t: Seq<(Seq<char>, Seq<char>)>, v: DhcpHaView)
    ensures
        lookup(ha_pair_rows(t, v), "mode"@) == Some(v.mode),
        lookup(ha_pair_rows(t, v), "peer"@) == Some(option_text(v.peer)),
        lookup(ha_pair_rows(t, v), "listen"@) == Some(option_text(v.listen)),
        lookup(ha_pair_rows(t, v), "scope_split"@) == Some(option_text(v.scope_split)),
        lookup(ha_pair_rows(t, v), "mclt"@) == Some(option_number_text(number_view(v.mclt))),
        lookup(ha_pair_rows(t, v), "partner_down_delay"@) == Some(option_number_text(number_view(v.partner_down_delay))),
        lookup(ha_pair_rows(t, v), "node_id"@) == Some(option_number_text(number_view(v.node_id))),
        lookup(ha_pair_rows(t, v), "peers"@) == Some(option_list_text(v.peers, ',')),
        lookup(ha_pair_rows(t, v), "tls_cert"@) == Some(option_text(v.tls_cert)),
        lookup(ha_pair_rows(t, v), "tls_key"@) == Some(option_text(v.tls_key)),
        lookup(ha_pair_rows(t, v), "tls_ca"@) == Some(option_text(v.tls_ca)),
{
    broadcast use lookup_push;

    reveal(ha_pair_rows);
    lemma_ha_round_trip_keys();
}

proof fn lemma_ha_pair_reads_back(t: Seq<(Seq<char>, Seq<char>)>, v: DhcpHaView, d: DhcpHaView)
    requires
        is_storable_ha(v),
        lookup(t, "mode"@) == Some(v.mode),
        lookup(t, "peer"@) == Some(option_text(v.peer)),
        lookup(t, "listen"@) == Some(option_text(v.listen)),
        lookup(t, "scope_split"@) == Some(option_text(v.scope_split)),
        lookup(t, "mclt"@) == Some(option_number_text(number_view(v.mclt))),
        lookup(t, "partner_down_delay"@) == Some(option_number_text(number_view(v.partner_down_delay))),
        lookup(t, "node_id"@) == Some(option_number_text(number_view(v.node_id))),
        lookup(t, "peers"@) == Some(option_list_text(v.peers, ',')),
        lookup(t, "tls_cert"@) == Some(option_text(v.tls_cert)),
        lookup(t, "tls_key"@) == Some(option_text(v.tls_key)),
        lookup(t, "tls_ca"@) == Some(option_text(v.tls_ca)),
    ensures
        ha_of_rows(t, d).mode == v.mode,
        ha_of_rows(t, d).peer == v.peer,
        ha_of_rows(t, d).listen == v.listen,
        ha_of_rows(t, d).scope_split == v.scope_split,
        ha_of_rows(t, d).mclt == v.mclt,
        ha_of_rows(t, d).partner_down_delay == v.partner_down_delay,
        ha_of_rows(t, d).node_id == v.node_id,
        ha_of_rows(t, d).peers == v.peers,
        ha_of_rows(t, d).tls_cert == v.tls_cert,
        ha_of_rows(t, d).tls_key == v.tls_key,
        ha_of_rows(t, d).tls_ca == v.tls_ca,
{
    option_number_reads_back(number_view(v.mclt), u64::MAX as nat);
    option_number_reads_back(number_view(v.partner_down_delay), u64::MAX as nat);
    option_number_reads_back(number_view(v.node_id), u64::MAX as nat);
    empty_is_no_decimal();
    if v.peers is Some {
        items_of_join(v.peers->0, ',');
        join_fills(v.peers->0, ',');
    }
}

/// The failover settings of a backup are what was saved.
pub proof fn ha_round_trip(v: DhcpHaView, d: DhcpHaView)
    requires
        is_storable_ha(v),
    ensures
        ha_of_rows(ha_rows(v), d) == v,
{
    let t1 = ha_pair_rows(Seq::empty(), v);
    lemma_ha_pair_lookups(Seq::empty(), v);
    let t = t1;
    lemma_ha_pair_reads_back(t, v, d);
}

// ---------------------------------------------------------------------------
// Laws
// ---------------------------------------------------------------------------

/// The settings of the server are saved each under its own name, as text: an option that is not set as an empty
/// one.
pub proof fn global_settings_are_saved_under_their_names(v: DhcpGlobalView)
    ensures
        lookup(global_rows(v), "enabled"@) == Some((if v.enabled { "true"@ } else { "false"@ })),
        lookup(global_rows(v), "interfaces"@) == Some(join(v.interfaces, seq![','])),
        lookup(global_rows(v), "authoritative"@) == Some((if v.authoritative { "true"@ } else { "false"@ })),
        lookup(global_rows(v), "default_lease_time"@) == Some(dec(v.default_lease_time as nat)),
        lookup(global_rows(v), "max_lease_time"@) == Some(dec(v.max_lease_time as nat)),
        lookup(global_rows(v), "dns_servers"@) == Some(join(v.dns_servers, seq![','])),
        lookup(global_rows(v), "domain_name"@) == Some(v.domain_name),
        lookup(global_rows(v), "domain_search"@) == Some(join(v.domain_search, seq![','])),
        lookup(global_rows(v), "ntp_servers"@) == Some(join(v.ntp_servers, seq![','])),
        lookup(global_rows(v), "wins_servers"@) == Some(join(v.wins_servers, seq![','])),
        v.next_server matches Some(x) ==> lookup(global_rows(v), "next_server"@) == Some(x),
        v.next_server is None ==> lookup(global_rows(v), "next_server"@) == Some(Seq::<char>::empty()),
        v.boot_filename matches Some(x) ==> lookup(global_rows(v), "boot_filename"@) == Some(x),
        v.boot_filename is None ==> lookup(global_rows(v), "boot_filename"@) == Some(Seq::<char>::empty()),
        lookup(global_rows(v), "log_level"@) == Some(v.log_level),
        lookup(global_rows(v), "log_format"@) == Some(v.log_format),
        lookup(global_rows(v), "api_port"@) == Some(dec(v.api_port as nat)),
        lookup(global_rows(v), "workers"@) == Some(dec(v.workers as nat)),
        lookup(global_rows(v), "accept_relayed"@) == Some((if v.accept_relayed { "true"@ } else { "false"@ })),
        lookup(global_rows(v), "relay_rate_limit_burst"@) == Some(dec(v.relay_rate_limit_burst as nat)),
        lookup(global_rows(v), "relay_rate_limit_pps"@) == Some(v.relay_rate_limit_pps),
{
    let t0 = global_service_rows(Seq::empty(), v);
    lemma_global_service_lookups(Seq::empty(), v);
    let t1 = global_boot_rows(t0, v);
    lemma_global_boot_lookups(t0, v);
}

/// The settings of the server are loaded each from its own name. One that is not saved stays as it was, and a
/// number that cannot be read is the usual one.
pub proof fn global_settings_are_loaded_by_their_names(t: Seq<(Seq<char>, Seq<char>)>, d: DhcpGlobalView)
    ensures
        lookup(t, "enabled"@) is None ==> global_of_rows(t, d).enabled == d.enabled,
        lookup(t, "enabled"@) matches Some(x) ==> (global_of_rows(t, d).enabled <==> x == "true"@),
        lookup(t, "interfaces"@) is None ==> global_of_rows(t, d).interfaces == d.interfaces,
        lookup(t, "interfaces"@) matches Some(x) ==> global_of_rows(t, d).interfaces == items(x, ','),
        lookup(t, "authoritative"@) is None ==> global_of_rows(t, d).authoritative == d.authoritative,
        lookup(t, "authoritative"@) matches Some(x) ==> (global_of_rows(t, d).authoritative <==> x == "true"@),
        lookup(t, "default_lease_time"@) is None ==> global_of_rows(t, d).default_lease_time == d.default_lease_time,
        lookup(t, "default_lease_time"@) matches Some(x) ==> (parsed(x, u32::MAX as nat) matches Some(n)
            ==> global_of_rows(t, d).default_lease_time == n),
        lookup(t, "default_lease_time"@) matches Some(x) ==> parsed(x, u32::MAX as nat) is None
            ==> global_of_rows(t, d).default_lease_time == 3600,
        lookup(t, "max_lease_time"@) is None ==> global_of_rows(t, d).max_lease_time == d.max_lease_time,
        lookup(t, "max_lease_time"@) matches Some(x) ==> (parsed(x, u32::MAX as nat) matches Some(n)
            ==> global_of_rows(t, d).max_lease_time == n),
        lookup(t, "max_lease_time"@) matches Some(x) ==> parsed(x, u32::MAX as nat) is None
            ==> global_of_rows(t, d).max_lease_time == 86400,
        lookup(t, "dns_servers"@) is None ==> global_of_rows(t, d).dns_servers == d.dns_servers,
        lookup(t, "dns_servers"@) matches Some(x) ==> global_of_rows(t, d).dns_servers == items(x, ','),
        lookup(t, "domain_name"@) is None ==> global_of_rows(t, d).domain_name == d.domain_name,
        lookup(t, "domain_name"@) matches Some(x) ==> global_of_rows(t, d).domain_name == x,
        lookup(t, "domain_search"@) is None ==> global_of_rows(t, d).domain_search == d.domain_search,
        lookup(t, "domain_search"@) matches Some(x) ==> global_of_rows(t, d).domain_search == items(x, ','),
        lookup(t, "ntp_servers"@) is None ==> global_of_rows(t, d).ntp_servers == d.ntp_servers,
        lookup(t, "ntp_servers"@) matches Some(x) ==> global_of_rows(t, d).ntp_servers == items(x, ','),
        lookup(t, "wins_servers"@) is None ==> global_of_rows(t, d).wins_servers == d.wins_servers,
        lookup(t, "wins_servers"@) matches Some(x) ==> global_of_rows(t, d).wins_servers == items(x, ','),
        lookup(t, "next_server"@) is None ==> global_of_rows(t, d).next_server == d.next_server,
        lookup(t, "next_server"@) matches Some(x)
            ==> global_of_rows(t, d).next_server == (if x.len() > 0 { Some(x) } else { None }),
        lookup(t, "boot_filename"@) is None ==> global_of_rows(t, d).boot_filename == d.boot_filename,
        lookup(t, "boot_filename"@) matches Some(x)
            ==> global_of_rows(t, d).boot_filename == (if x.len() > 0 { Some(x) } else { None }),
        lookup(t, "log_level"@) is None ==> global_of_rows(t, d).log_level == d.log_level,
        lookup(t, "log_level"@) matches Some(x) ==> global_of_rows(t, d).log_level == x,
        lookup(t, "log_format"@) is None ==> global_of_rows(t, d).log_format == d.log_format,
        lookup(t, "log_format"@) matches Some(x) ==> global_of_rows(t, d).log_format == x,
        lookup(t, "api_port"@) is None ==> global_of_rows(t, d).api_port == d.api_port,
        lookup(t, "api_port"@) matches Some(x) ==> (parsed(x, u16::MAX as nat) matches Some(n)
            ==> global_of_rows(t, d).api_port == n),
        lookup(t, "api_port"@) matches Some(x) ==> parsed(x, u16::MAX as nat) is None
            ==> global_of_rows(t, d).api_port == 9967,
        lookup(t, "workers"@) is None ==> global_of_rows(t, d).workers == d.workers,
        lookup(t, "workers"@) matches Some(x) ==> (parsed(x, u32::MAX as nat) matches Some(n)
            ==> global_of_rows(t, d).workers == n),
        lookup(t, "workers"@) matches Some(x) ==> parsed(x, u32::MAX as nat) is None
            ==> global_of_rows(t, d).workers == 1,
        lookup(t, "accept_relayed"@) is None ==> global_of_rows(t, d).accept_relayed == d.accept_relayed,
        lookup(t, "accept_relayed"@) matches Some(x) ==> (global_of_rows(t, d).accept_relayed <==> x == "true"@),
        lookup(t, "relay_rate_limit_burst"@) is None
            ==> global_of_rows(t, d).relay_rate_limit_burst == d.relay_rate_limit_burst,
        lookup(t, "relay_rate_limit_burst"@) matches Some(x) ==> (parsed(x, u32::MAX as nat) matches Some(n)
            ==> global_of_rows(t, d).relay_rate_limit_burst == n),
        lookup(t, "relay_rate_limit_burst"@) matches Some(x) ==> parsed(x, u32::MAX as nat) is None
            ==> global_of_rows(t, d).relay_rate_limit_burst == 200,
        lookup(t, "relay_rate_limit_pps"@) is None
            ==> global_of_rows(t, d).relay_rate_limit_pps == d.relay_rate_limit_pps,
        lookup(t, "relay_rate_limit_pps"@) matches Some(x)
            ==> global_of_rows(t, d).relay_rate_limit_pps == (if is_decimal(x) { x } else { "100"@ }),
{
}

/// The settings of the server stand in the view each in its own place.
pub proof fn global_settings_are_viewed_in_place(c: DhcpGlobalSection)
    ensures
        c@.enabled == c.enabled,
        c@.interfaces == views(c.interfaces@),
        c@.authoritative == c.authoritative,
        c@.default_lease_time == c.default_lease_time,
        c@.max_lease_time == c.max_lease_time,
        c@.dns_servers == views(c.dns_servers@),
        c@.domain_name == c.domain_name@,
        c@.domain_search == views(c.domain_search@),
        c@.ntp_servers == views(c.ntp_servers@),
        c@.wins_servers == views(c.wins_servers@),
        c.next_server matches Some(x) ==> c@.next_server == Some(x@),
        c.next_server is None ==> c@.next_server is None,
        c.boot_filename matches Some(x) ==> c@.boot_filename == Some(x@),
        c.boot_filename is None ==> c@.boot_filename is None,
        c@.log_level == c.log_level@,
        c@.log_format == c.log_format@,
        c@.api_port == c.api_port,
        c@.workers == c.workers,
        c@.accept_relayed == c.accept_relayed,
        c@.relay_rate_limit_burst == c.relay_rate_limit_burst,
        c@.relay_rate_limit_pps == c.relay_rate_limit_pps@,
{
}

/// The settings of the updates are saved each under its own name, as text: an option that is not set as an empty
/// one.
pub proof fn update_settings_are_saved_under_their_names(v: DhcpDdnsView)
    ensures
        lookup(ddns_rows(v), "enabled"@) == Some((if v.enabled { "true"@ } else { "false"@ })),
        lookup(ddns_rows(v), "forward_zone"@) == Some(v.forward_zone),
        lookup(ddns_rows(v), "reverse_zone_v4"@) == Some(v.reverse_zone_v4),
        lookup(ddns_rows(v), "reverse_zone_v6"@) == Some(v.reverse_zone_v6),
        lookup(ddns_rows(v), "dns_server"@) == Some(v.dns_server),
        lookup(ddns_rows(v), "tsig_key"@) == Some(v.tsig_key),
        lookup(ddns_rows(v), "tsig_algorithm"@) == Some(v.tsig_algorithm),
        lookup(ddns_rows(v), "tsig_secret"@) == Some(v.tsig_secret),
        lookup(ddns_rows(v), "ttl"@) == Some(dec(v.ttl as nat)),
{
    let t0 = ddns_update_rows(Seq::empty(), v);
    lemma_ddns_update_lookups(Seq::empty(), v);
}

/// The settings of the updates are loaded each from its own name. One that is not saved stays as it was, and a
/// number that cannot be read is the usual one.
pub proof fn update_settings_are_loaded_by_their_names(t: Seq<(Seq<char>, Seq<char>)>, d: DhcpDdnsView)
    ensures
        lookup(t, "enabled"@) is None ==> ddns_of_rows(t, d).enabled == d.enabled,
        lookup(t, "enabled"@) matches Some(x) ==> (ddns_of_rows(t, d).enabled <==> x == "true"@),
        lookup(t, "forward_zone"@) is None ==> ddns_of_rows(t, d).forward_zone == d.forward_zone,
        lookup(t, "forward_zone"@) matches Some(x) ==> ddns_of_rows(t, d).forward_zone == x,
        lookup(t, "reverse_zone_v4"@) is None ==> ddns_of_rows(t, d).reverse_zone_v4 == d.reverse_zone_v4,
        lookup(t, "reverse_zone_v4"@) matches Some(x) ==> ddns_of_rows(t, d).reverse_zone_v4 == x,
        lookup(t, "reverse_zone_v6"@) is None ==> ddns_of_rows(t, d).reverse_zone_v6 == d.reverse_zone_v6,
        lookup(t, "reverse_zone_v6"@) matches Some(x) ==> ddns_of_rows(t, d).reverse_zone_v6 == x,
        lookup(t, "dns_server"@) is None ==> ddns_of_rows(t, d).dns_server == d.dns_server,
        lookup(t, "dns_server"@) matches Some(x) ==> ddns_of_rows(t, d).dns_server == x,
        lookup(t, "tsig_key"@) is None ==> ddns_of_rows(t, d).tsig_key == d.tsig_key,
        lookup(t, "tsig_key"@) matches Some(x) ==> ddns_of_rows(t, d).tsig_key == x,
        lookup(t, "tsig_algorithm"@) is None ==> ddns_of_rows(t, d).tsig_algorithm == d.tsig_algorithm,
        lookup(t, "tsig_algorithm"@) matches Some(x) ==> ddns_of_rows(t, d).tsig_algorithm == x,
        lookup(t, "tsig_secret"@) is None ==> ddns_of_rows(t, d).tsig_secret == d.tsig_secret,
        lookup(t, "tsig_secret"@) matches Some(x) ==> ddns_of_rows(t, d).tsig_secret == x,
        lookup(t, "ttl"@) is None ==> ddns_of_rows(t, d).ttl == d.ttl,
        lookup(t, "ttl"@) matches Some(x) ==> (parsed(x, u32::MAX as nat) matches Some(n)
            ==> ddns_of_rows(t, d).ttl == n),
        lookup(t, "ttl"@) matches Some(x) ==> parsed(x, u32::MAX as nat) is None ==> ddns_of_rows(t, d).ttl == 300,
{
}

/// The settings of the updates stand in the view each in its own place.
pub proof fn update_settings_are_viewed_in_place(c: DhcpDdnsSection)
    ensures
        c@.enabled == c.enabled,
        c@.forward_zone == c.forward_zone@,
        c@.reverse_zone_v4 == c.reverse_zone_v4@,
        c@.reverse_zone_v6 == c.reverse_zone_v6@,
        c@.dns_server == c.dns_server@,
        c@.tsig_key == c.tsig_key@,
        c@.tsig_algorithm == c.tsig_algorithm@,
        c@.tsig_secret == c.tsig_secret@,
        c@.ttl == c.ttl,
{
}

/// The settings of the pair are saved each under its own name, as text: an option that is not set as an empty
/// one.
pub proof fn pair_settings_are_saved_under_their_names(v: DhcpHaView)
    ensures
        lookup(ha_rows(v), "mode"@) == Some(v.mode),
        v.peer matches Some(x) ==> lookup(ha_rows(v), "peer"@) == Some(x),
        v.peer is None ==> lookup(ha_rows(v), "peer"@) == Some(Seq::<char>::empty()),
        v.listen matches Some(x) ==> lookup(ha_rows(v), "listen"@) == Some(x),
        v.listen is None ==> lookup(ha_rows(v), "listen"@) == Some(Seq::<char>::empty()),
        v.scope_split matches Some(x) ==> lookup(ha_rows(v), "scope_split"@) == Some(x),
        v.scope_split is None ==> lookup(ha_rows(v), "scope_split"@) == Some(Seq::<char>::empty()),
        v.mclt matches Some(x) ==> lookup(ha_rows(v), "mclt"@) == Some(dec(x as nat)),
        v.mclt is None ==> lookup(ha_rows(v), "mclt"@) == Some(Seq::<char>::empty()),
        v.partner_down_delay matches Some(x) ==> lookup(ha_rows(v), "partner_down_delay"@) == Some(dec(x as nat)),
        v.partner_down_delay is None ==> lookup(ha_rows(v), "partner_down_delay"@) == Some(Seq::<char>::empty()),
        v.node_id matches Some(x) ==> lookup(ha_rows(v), "node_id"@) == Some(dec(x as nat)),
        v.node_id is None ==> lookup(ha_rows(v), "node_id"@) == Some(Seq::<char>::empty()),
        v.peers matches Some(x) ==> lookup(ha_rows(v), "peers"@) == Some(join(x, seq![','])),
        v.peers is None ==> lookup(ha_rows(v), "peers"@) == Some(Seq::<char>::empty()),
        v.tls_cert matches Some(x) ==> lookup(ha_rows(v), "tls_cert"@) == Some(x),
        v.tls_cert is None ==> lookup(ha_rows(v), "tls_cert"@) == Some(Seq::<char>::empty()),
        v.tls_key matches Some(x) ==> lookup(ha_rows(v), "tls_key"@) == Some(x),
        v.tls_key is None ==> lookup(ha_rows(v), "tls_key"@) == Some(Seq::<char>::empty()),
        v.tls_ca matches Some(x) ==> lookup(ha_rows(v), "tls_ca"@) == Some(x),
        v.tls_ca is None ==> lookup(ha_rows(v), "tls_ca"@) == Some(Seq::<char>::empty()),
{
    let t0 = ha_pair_rows(Seq::empty(), v);
    lemma_ha_pair_lookups(Seq::empty(), v);
}

/// The settings of the pair are loaded each from its own name. One that is not saved stays as it was, and a
/// number that cannot be read is the usual one.
pub proof fn pair_settings_are_loaded_by_their_names(t: Seq<(Seq<char>, Seq<char>)>, d: DhcpHaView)
    ensures
        lookup(t, "mode"@) is None ==> ha_of_rows(t, d).mode == d.mode,
        lookup(t, "mode"@) matches Some(x) ==> ha_of_rows(t, d).mode == x,
        lookup(t, "peer"@) is None ==> ha_of_rows(t, d).peer == d.peer,
        lookup(t, "peer"@) matches Some(x) ==> ha_of_rows(t, d).peer == (if x.len() > 0 { Some(x) } else { None }),
        lookup(t, "listen"@) is None ==> ha_of_rows(t, d).listen == d.listen,
        lookup(t, "listen"@) matches Some(x) ==> ha_of_rows(t, d).listen == (if x.len() > 0 { Some(x) } else { None }),
        lookup(t, "scope_split"@) is None ==> ha_of_rows(t, d).scope_split == d.scope_split,
        lookup(t, "scope_split"@) matches Some(x)
            ==> ha_of_rows(t, d).scope_split == (if is_decimal(x) { Some(x) } else { None }),
        lookup(t, "mclt"@) is None ==> ha_of_rows(t, d).mclt == d.mclt,
        lookup(t, "mclt"@) matches Some(x) ==> (parsed(x, u64::MAX as nat) matches Some(n)
            ==> ha_of_rows(t, d).mclt is Some && ha_of_rows(t, d).mclt->0 == n),
        lookup(t, "mclt"@) matches Some(x) ==> parsed(x, u64::MAX as nat) is None ==> ha_of_rows(t, d).mclt is None,
        lookup(t, "partner_down_delay"@) is None ==> ha_of_rows(t, d).partner_down_delay == d.partner_down_delay,
        lookup(t, "partner_down_delay"@) matches Some(x) ==> (parsed(x, u64::MAX as nat) matches Some(n)
            ==> ha_of_rows(t, d).partner_down_delay is Some && ha_of_rows(t, d).partner_down_delay->0 == n),
        lookup(t, "partner_down_delay"@) matches Some(x) ==> parsed(x, u64::MAX as nat) is None
            ==> ha_of_rows(t, d).partner_down_delay is None,
        lookup(t, "node_id"@) is None ==> ha_of_rows(t, d).node_id == d.node_id,
        lookup(t, "node_id"@) matches Some(x) ==> (parsed(x, u64::MAX as nat) matches Some(n)
            ==> ha_of_rows(t, d).node_id is Some && ha_of_rows(t, d).node_id->0 == n),
        lookup(t, "node_id"@) matches Some(x) ==> parsed(x, u64::MAX as nat) is None
            ==> ha_of_rows(t, d).node_id is None,
        lookup(t, "peers"@) is None ==> ha_of_rows(t, d).peers == d.peers,
        lookup(t, "peers"@) matches Some(x)
            ==> ha_of_rows(t, d).peers == (if x.len() > 0 { Some(items(x, ',')) } else { None }),
        lookup(t, "tls_cert"@) is None ==> ha_of_rows(t, d).tls_cert == d.tls_cert,
        lookup(t, "tls_cert"@) matches Some(x)
            ==> ha_of_rows(t, d).tls_cert == (if x.len() > 0 { Some(x) } else { None }),
        lookup(t, "tls_key"@) is None ==> ha_of_rows(t, d).tls_key == d.tls_key,
        lookup(t, "tls_key"@) matches Some(x)
            ==> ha_of_rows(t, d).tls_key == (if x.len() > 0 { Some(x) } else { None }),
        lookup(t, "tls_ca"@) is None ==> ha_of_rows(t, d).tls_ca == d.tls_ca,
        lookup(t, "tls_ca"@) matches Some(x) ==> ha_of_rows(t, d).tls_ca == (if x.len() > 0 { Some(x) } else { None }),
{
}

/// The settings of the pair stand in the view each in its own place.
pub proof fn pair_settings_are_viewed_in_place(c: DhcpHaSection)
    ensures
        c@.mode == c.mode@,
        c.peer matches Some(x) ==> c@.peer == Some(x@),
        c.peer is None ==> c@.peer is None,
        c.listen matches Some(x) ==> c@.listen == Some(x@),
        c.listen is None ==> c@.listen is None,
        c.scope_split matches Some(x) ==> c@.scope_split == Some(x@),
        c.scope_split is None ==> c@.scope_split is None,
        c@.mclt == c.mclt,
        c@.partner_down_delay == c.partner_down_delay,
        c@.node_id == c.node_id,
        c@.peers == option_views(c.peers),
        c.tls_cert matches Some(x) ==> c@.tls_cert == Some(x@),
        c.tls_cert is None ==> c@.tls_cert is None,
        c.tls_key matches Some(x) ==> c@.tls_key == Some(x@),
        c.tls_key is None ==> c@.tls_key is None,
        c.tls_ca matches Some(x) ==> c@.tls_ca == Some(x@),
        c.tls_ca is None ==> c@.tls_ca is None,
{
}

} // verus!
