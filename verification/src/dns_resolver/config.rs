//! The resolver settings and the rows that store them.

use vstd::prelude::*;

use crate::kv::{
    are_items, bool_text, bool_text_reads_back, filled_text_at, flag_at, get_filled_text, get_flag, get_list,
    get_number, get_option, get_text, items, items_of_join, list_at, lookup, lookup_push, number_at, option_at,
    option_text, option_view, put, put_flag, put_list, put_number, put_option, rows, text_at, KeyValue,
};
use crate::number::{dec, parsed, parsed_of_dec};
use crate::text::{join, views};

verus! {

/// The settings of the local DNS resolver.
#[derive(Clone, Debug)]
pub struct ResolverConfig {
    /// Which resolver answers on port 53: `rdns` or `unbound`.
    pub backend: String,
    pub enabled: bool,
    pub dhcp_domain: String,
    pub listen_interfaces: Vec<String>,
    pub port: u16,
    pub dnssec: bool,
    pub dns64: bool,
    pub dns64_prefix: String,
    pub register_dhcp: bool,
    pub local_zone_type: String,
    pub outgoing_interface: Option<String>,
    pub num_threads: u32,
    pub msg_cache_size: String,
    pub rrset_cache_size: String,
    pub cache_max_ttl: u32,
    pub cache_min_ttl: u32,
    pub prefetch: bool,
    pub prefetch_key: bool,
    pub infra_host_ttl: u32,
    pub unwanted_reply_threshold: u32,
    pub log_queries: bool,
    pub log_replies: bool,
    pub log_verbosity: u8,
    pub query_timeout_ms: u32,
    pub hide_identity: bool,
    pub hide_version: bool,
    pub rebind_protection: bool,
    pub private_addresses: Vec<String>,
    pub forwarding_enabled: bool,
    pub forwarding_servers: Vec<String>,
    pub use_system_nameservers: bool,
    pub dot_enabled: bool,
    pub dot_upstream: Vec<String>,
    pub blocklists_enabled: bool,
    pub blocklist_urls: Vec<String>,
    pub whitelist: Vec<String>,
    pub blocklist_action: String,
    pub blocklist_redirect_ip: Option<String>,
    pub custom_options: String,
    pub probe_enabled: bool,
}

/// The value of a [`ResolverConfig`].
pub struct ResolverView {
    pub backend: Seq<char>,
    pub enabled: bool,
    pub dhcp_domain: Seq<char>,
    pub listen_interfaces: Seq<Seq<char>>,
    pub port: u16,
    pub dnssec: bool,
    pub dns64: bool,
    pub dns64_prefix: Seq<char>,
    pub register_dhcp: bool,
    pub local_zone_type: Seq<char>,
    pub outgoing_interface: Option<Seq<char>>,
    pub num_threads: u32,
    pub msg_cache_size: Seq<char>,
    pub rrset_cache_size: Seq<char>,
    pub cache_max_ttl: u32,
    pub cache_min_ttl: u32,
    pub prefetch: bool,
    pub prefetch_key: bool,
    pub infra_host_ttl: u32,
    pub unwanted_reply_threshold: u32,
    pub log_queries: bool,
    pub log_replies: bool,
    pub log_verbosity: u8,
    pub query_timeout_ms: u32,
    pub hide_identity: bool,
    pub hide_version: bool,
    pub rebind_protection: bool,
    pub private_addresses: Seq<Seq<char>>,
    pub forwarding_enabled: bool,
    pub forwarding_servers: Seq<Seq<char>>,
    pub use_system_nameservers: bool,
    pub dot_enabled: bool,
    pub dot_upstream: Seq<Seq<char>>,
    pub blocklists_enabled: bool,
    pub blocklist_urls: Seq<Seq<char>>,
    pub whitelist: Seq<Seq<char>>,
    pub blocklist_action: Seq<char>,
    pub blocklist_redirect_ip: Option<Seq<char>>,
    pub custom_options: Seq<char>,
    pub probe_enabled: bool,
}

impl View for ResolverConfig {
    type V = ResolverView;

    open spec fn view(&self) -> ResolverView {
        ResolverView {
            backend: self.backend@,
            enabled: self.enabled,
            dhcp_domain: self.dhcp_domain@,
            listen_interfaces: views(self.listen_interfaces@),
            port: self.port,
            dnssec: self.dnssec,
            dns64: self.dns64,
            dns64_prefix: self.dns64_prefix@,
            register_dhcp: self.register_dhcp,
            local_zone_type: self.local_zone_type@,
            outgoing_interface: option_view(self.outgoing_interface),
            num_threads: self.num_threads,
            msg_cache_size: self.msg_cache_size@,
            rrset_cache_size: self.rrset_cache_size@,
            cache_max_ttl: self.cache_max_ttl,
            cache_min_ttl: self.cache_min_ttl,
            prefetch: self.prefetch,
            prefetch_key: self.prefetch_key,
            infra_host_ttl: self.infra_host_ttl,
            unwanted_reply_threshold: self.unwanted_reply_threshold,
            log_queries: self.log_queries,
            log_replies: self.log_replies,
            log_verbosity: self.log_verbosity,
            query_timeout_ms: self.query_timeout_ms,
            hide_identity: self.hide_identity,
            hide_version: self.hide_version,
            rebind_protection: self.rebind_protection,
            private_addresses: views(self.private_addresses@),
            forwarding_enabled: self.forwarding_enabled,
            forwarding_servers: views(self.forwarding_servers@),
            use_system_nameservers: self.use_system_nameservers,
            dot_enabled: self.dot_enabled,
            dot_upstream: views(self.dot_upstream@),
            blocklists_enabled: self.blocklists_enabled,
            blocklist_urls: views(self.blocklist_urls@),
            whitelist: views(self.whitelist@),
            blocklist_action: self.blocklist_action@,
            blocklist_redirect_ip: option_view(self.blocklist_redirect_ip),
            custom_options: self.custom_options@,
            probe_enabled: self.probe_enabled,
        }
    }
}

/// The rows of what the service is and where it listens.
#[verifier::opaque]
pub open spec fn service_rows(t: Seq<(Seq<char>, Seq<char>)>, v: ResolverView) -> Seq<(Seq<char>, Seq<char>)> {
    t
        .push(("backend"@, v.backend))
        .push(("enabled"@, bool_text(v.enabled)))
        .push(("dhcp_domain"@, v.dhcp_domain))
        .push(("listen_interfaces"@, join(v.listen_interfaces, seq![','])))
        .push(("port"@, dec(v.port as nat)))
        .push(("dnssec"@, bool_text(v.dnssec)))
        .push(("dns64"@, bool_text(v.dns64)))
        .push(("dns64_prefix"@, v.dns64_prefix))
        .push(("register_dhcp"@, bool_text(v.register_dhcp)))
        .push(("local_zone_type"@, v.local_zone_type))
        .push(("outgoing_interface"@, option_text(v.outgoing_interface)))
}

/// The rows of caching and of the worker threads.
#[verifier::opaque]
pub open spec fn cache_rows(t: Seq<(Seq<char>, Seq<char>)>, v: ResolverView) -> Seq<(Seq<char>, Seq<char>)> {
    t
        .push(("num_threads"@, dec(v.num_threads as nat)))
        .push(("msg_cache_size"@, v.msg_cache_size))
        .push(("rrset_cache_size"@, v.rrset_cache_size))
        .push(("cache_max_ttl"@, dec(v.cache_max_ttl as nat)))
        .push(("cache_min_ttl"@, dec(v.cache_min_ttl as nat)))
        .push(("prefetch"@, bool_text(v.prefetch)))
        .push(("prefetch_key"@, bool_text(v.prefetch_key)))
        .push(("infra_host_ttl"@, dec(v.infra_host_ttl as nat)))
        .push(("unwanted_reply_threshold"@, dec(v.unwanted_reply_threshold as nat)))
}

/// The rows of logging and of what the resolver gives away.
#[verifier::opaque]
pub open spec fn privacy_rows(t: Seq<(Seq<char>, Seq<char>)>, v: ResolverView) -> Seq<(Seq<char>, Seq<char>)> {
    t
        .push(("log_queries"@, bool_text(v.log_queries)))
        .push(("log_replies"@, bool_text(v.log_replies)))
        .push(("log_verbosity"@, dec(v.log_verbosity as nat)))
        .push(("query_timeout_ms"@, dec(v.query_timeout_ms as nat)))
        .push(("hide_identity"@, bool_text(v.hide_identity)))
        .push(("hide_version"@, bool_text(v.hide_version)))
        .push(("rebind_protection"@, bool_text(v.rebind_protection)))
        .push(("private_addresses"@, join(v.private_addresses, seq![','])))
}

/// The rows of forwarding, blocking and probing.
#[verifier::opaque]
pub open spec fn upstream_rows(t: Seq<(Seq<char>, Seq<char>)>, v: ResolverView) -> Seq<(Seq<char>, Seq<char>)> {
    t
        .push(("forwarding_enabled"@, bool_text(v.forwarding_enabled)))
        .push(("forwarding_servers"@, join(v.forwarding_servers, seq![','])))
        .push(("use_system_nameservers"@, bool_text(v.use_system_nameservers)))
        .push(("dot_enabled"@, bool_text(v.dot_enabled)))
        .push(("dot_upstream"@, join(v.dot_upstream, seq![','])))
        .push(("blocklists_enabled"@, bool_text(v.blocklists_enabled)))
        .push(("blocklist_urls"@, join(v.blocklist_urls, seq!['\n'])))
        .push(("whitelist"@, join(v.whitelist, seq!['\n'])))
        .push(("blocklist_action"@, v.blocklist_action))
        .push(("blocklist_redirect_ip"@, option_text(v.blocklist_redirect_ip)))
        .push(("custom_options"@, v.custom_options))
        .push(("probe_enabled"@, bool_text(v.probe_enabled)))
}

/// The rows that hold the settings `v` in `dns_resolver_config`.
pub open spec fn config_rows(v: ResolverView) -> Seq<(Seq<char>, Seq<char>)> {
    let t1 = service_rows(Seq::empty(), v);
    let t2 = cache_rows(t1, v);
    let t3 = privacy_rows(t2, v);
    upstream_rows(t3, v)
}

/// The settings that the rows `t` hold; a key without a row keeps its value in `d`.
pub open spec fn config_of_rows(t: Seq<(Seq<char>, Seq<char>)>, d: ResolverView) -> ResolverView {
    ResolverView {
        backend: text_at(t, "backend"@, d.backend),
        enabled: flag_at(t, "enabled"@, d.enabled),
        dhcp_domain: text_at(t, "dhcp_domain"@, d.dhcp_domain),
        listen_interfaces: list_at(t, "listen_interfaces"@, ',', d.listen_interfaces),
        port: number_at(t, "port"@, u16::MAX as nat, 53, d.port as nat) as u16,
        dnssec: flag_at(t, "dnssec"@, d.dnssec),
        dns64: flag_at(t, "dns64"@, d.dns64),
        dns64_prefix: filled_text_at(t, "dns64_prefix"@, d.dns64_prefix),
        register_dhcp: flag_at(t, "register_dhcp"@, d.register_dhcp),
        local_zone_type: text_at(t, "local_zone_type"@, d.local_zone_type),
        outgoing_interface: option_at(t, "outgoing_interface"@, d.outgoing_interface),
        num_threads: number_at(t, "num_threads"@, u32::MAX as nat, 2, d.num_threads as nat) as u32,
        msg_cache_size: text_at(t, "msg_cache_size"@, d.msg_cache_size),
        rrset_cache_size: text_at(t, "rrset_cache_size"@, d.rrset_cache_size),
        cache_max_ttl: number_at(t, "cache_max_ttl"@, u32::MAX as nat, 86400, d.cache_max_ttl as nat) as u32,
        cache_min_ttl: number_at(t, "cache_min_ttl"@, u32::MAX as nat, 0, d.cache_min_ttl as nat) as u32,
        prefetch: flag_at(t, "prefetch"@, d.prefetch),
        prefetch_key: flag_at(t, "prefetch_key"@, d.prefetch_key),
        infra_host_ttl: number_at(t, "infra_host_ttl"@, u32::MAX as nat, 900, d.infra_host_ttl as nat) as u32,
        unwanted_reply_threshold: number_at(t, "unwanted_reply_threshold"@, u32::MAX as nat, 10000, d.unwanted_reply_threshold as nat) as u32,
        log_queries: flag_at(t, "log_queries"@, d.log_queries),
        log_replies: flag_at(t, "log_replies"@, d.log_replies),
        log_verbosity: number_at(t, "log_verbosity"@, u8::MAX as nat, 1, d.log_verbosity as nat) as u8,
        query_timeout_ms: number_at(t, "query_timeout_ms"@, u32::MAX as nat, 0, d.query_timeout_ms as nat) as u32,
        hide_identity: flag_at(t, "hide_identity"@, d.hide_identity),
        hide_version: flag_at(t, "hide_version"@, d.hide_version),
        rebind_protection: flag_at(t, "rebind_protection"@, d.rebind_protection),
        private_addresses: list_at(t, "private_addresses"@, ',', d.private_addresses),
        forwarding_enabled: flag_at(t, "forwarding_enabled"@, d.forwarding_enabled),
        forwarding_servers: list_at(t, "forwarding_servers"@, ',', d.forwarding_servers),
        use_system_nameservers: flag_at(t, "use_system_nameservers"@, d.use_system_nameservers),
        dot_enabled: flag_at(t, "dot_enabled"@, d.dot_enabled),
        dot_upstream: list_at(t, "dot_upstream"@, ',', d.dot_upstream),
        blocklists_enabled: flag_at(t, "blocklists_enabled"@, d.blocklists_enabled),
        blocklist_urls: list_at(t, "blocklist_urls"@, '\n', d.blocklist_urls),
        whitelist: list_at(t, "whitelist"@, '\n', d.whitelist),
        blocklist_action: text_at(t, "blocklist_action"@, d.blocklist_action),
        blocklist_redirect_ip: option_at(t, "blocklist_redirect_ip"@, d.blocklist_redirect_ip),
        custom_options: text_at(t, "custom_options"@, d.custom_options),
        probe_enabled: flag_at(t, "probe_enabled"@, d.probe_enabled),
    }
}

/// Reads the settings out of the rows of `dns_resolver_config`.
pub fn load_config(t: &Vec<KeyValue>, d: ResolverConfig) -> (r: ResolverConfig)
    ensures
        r@ == config_of_rows(rows(t@), d@),
{
    ResolverConfig {
        backend: get_text(t, "backend", d.backend),
        enabled: get_flag(t, "enabled", d.enabled),
        dhcp_domain: get_text(t, "dhcp_domain", d.dhcp_domain),
        listen_interfaces: get_list(t, "listen_interfaces", ',', d.listen_interfaces),
        port: get_number(t, "port", 65535, 53, d.port as u64) as u16,
        dnssec: get_flag(t, "dnssec", d.dnssec),
        dns64: get_flag(t, "dns64", d.dns64),
        dns64_prefix: get_filled_text(t, "dns64_prefix", d.dns64_prefix),
        register_dhcp: get_flag(t, "register_dhcp", d.register_dhcp),
        local_zone_type: get_text(t, "local_zone_type", d.local_zone_type),
        outgoing_interface: get_option(t, "outgoing_interface", d.outgoing_interface),
        num_threads: get_number(t, "num_threads", 4294967295, 2, d.num_threads as u64) as u32,
        msg_cache_size: get_text(t, "msg_cache_size", d.msg_cache_size),
        rrset_cache_size: get_text(t, "rrset_cache_size", d.rrset_cache_size),
        cache_max_ttl: get_number(t, "cache_max_ttl", 4294967295, 86400, d.cache_max_ttl as u64) as u32,
        cache_min_ttl: get_number(t, "cache_min_ttl", 4294967295, 0, d.cache_min_ttl as u64) as u32,
        prefetch: get_flag(t, "prefetch", d.prefetch),
        prefetch_key: get_flag(t, "prefetch_key", d.prefetch_key),
        infra_host_ttl: get_number(t, "infra_host_ttl", 4294967295, 900, d.infra_host_ttl as u64) as u32,
        unwanted_reply_threshold: get_number(t, "unwanted_reply_threshold", 4294967295, 10000, d.unwanted_reply_threshold as u64) as u32,
        log_queries: get_flag(t, "log_queries", d.log_queries),
        log_replies: get_flag(t, "log_replies", d.log_replies),
        log_verbosity: get_number(t, "log_verbosity", 255, 1, d.log_verbosity as u64) as u8,
        query_timeout_ms: get_number(t, "query_timeout_ms", 4294967295, 0, d.query_timeout_ms as u64) as u32,
        hide_identity: get_flag(t, "hide_identity", d.hide_identity),
        hide_version: get_flag(t, "hide_version", d.hide_version),
        rebind_protection: get_flag(t, "rebind_protection", d.rebind_protection),
        private_addresses: get_list(t, "private_addresses", ',', d.private_addresses),
        forwarding_enabled: get_flag(t, "forwarding_enabled", d.forwarding_enabled),
        forwarding_servers: get_list(t, "forwarding_servers", ',', d.forwarding_servers),
        use_system_nameservers: get_flag(t, "use_system_nameservers", d.use_system_nameservers),
        dot_enabled: get_flag(t, "dot_enabled", d.dot_enabled),
        dot_upstream: get_list(t, "dot_upstream", ',', d.dot_upstream),
        blocklists_enabled: get_flag(t, "blocklists_enabled", d.blocklists_enabled),
        blocklist_urls: get_list(t, "blocklist_urls", '\n', d.blocklist_urls),
        whitelist: get_list(t, "whitelist", '\n', d.whitelist),
        blocklist_action: get_text(t, "blocklist_action", d.blocklist_action),
        blocklist_redirect_ip: get_option(t, "blocklist_redirect_ip", d.blocklist_redirect_ip),
        custom_options: get_text(t, "custom_options", d.custom_options),
        probe_enabled: get_flag(t, "probe_enabled", d.probe_enabled),
    }
}

fn put_service(t: &mut Vec<KeyValue>, c: &ResolverConfig)
    ensures
        rows(final(t)@) == service_rows(rows(old(t)@), c@),
{
    proof {
        reveal(service_rows);
    }
    put(t, "backend", c.backend.as_str());
    put_flag(t, "enabled", c.enabled);
    put(t, "dhcp_domain", c.dhcp_domain.as_str());
    put_list(t, "listen_interfaces", ',', &c.listen_interfaces);
    put_number(t, "port", c.port as u64);
    put_flag(t, "dnssec", c.dnssec);
    put_flag(t, "dns64", c.dns64);
    put(t, "dns64_prefix", c.dns64_prefix.as_str());
    put_flag(t, "register_dhcp", c.register_dhcp);
    put(t, "local_zone_type", c.local_zone_type.as_str());
    put_option(t, "outgoing_interface", &c.outgoing_interface);
}

fn put_cache(t: &mut Vec<KeyValue>, c: &ResolverConfig)
    ensures
        rows(final(t)@) == cache_rows(rows(old(t)@), c@),
{
    proof {
        reveal(cache_rows);
    }
    put_number(t, "num_threads", c.num_threads as u64);
    put(t, "msg_cache_size", c.msg_cache_size.as_str());
    put(t, "rrset_cache_size", c.rrset_cache_size.as_str());
    put_number(t, "cache_max_ttl", c.cache_max_ttl as u64);
    put_number(t, "cache_min_ttl", c.cache_min_ttl as u64);
    put_flag(t, "prefetch", c.prefetch);
    put_flag(t, "prefetch_key", c.prefetch_key);
    put_number(t, "infra_host_ttl", c.infra_host_ttl as u64);
    put_number(t, "unwanted_reply_threshold", c.unwanted_reply_threshold as u64);
}

fn put_privacy(t: &mut Vec<KeyValue>, c: &ResolverConfig)
    ensures
        rows(final(t)@) == privacy_rows(rows(old(t)@), c@),
{
    proof {
        reveal(privacy_rows);
    }
    put_flag(t, "log_queries", c.log_queries);
    put_flag(t, "log_replies", c.log_replies);
    put_number(t, "log_verbosity", c.log_verbosity as u64);
    put_number(t, "query_timeout_ms", c.query_timeout_ms as u64);
    put_flag(t, "hide_identity", c.hide_identity);
    put_flag(t, "hide_version", c.hide_version);
    put_flag(t, "rebind_protection", c.rebind_protection);
    put_list(t, "private_addresses", ',', &c.private_addresses);
}

fn put_upstream(t: &mut Vec<KeyValue>, c: &ResolverConfig)
    ensures
        rows(final(t)@) == upstream_rows(rows(old(t)@), c@),
{
    proof {
        reveal(upstream_rows);
    }
    put_flag(t, "forwarding_enabled", c.forwarding_enabled);
    put_list(t, "forwarding_servers", ',', &c.forwarding_servers);
    put_flag(t, "use_system_nameservers", c.use_system_nameservers);
    put_flag(t, "dot_enabled", c.dot_enabled);
    put_list(t, "dot_upstream", ',', &c.dot_upstream);
    put_flag(t, "blocklists_enabled", c.blocklists_enabled);
    put_list(t, "blocklist_urls", '\n', &c.blocklist_urls);
    put_list(t, "whitelist", '\n', &c.whitelist);
    put(t, "blocklist_action", c.blocklist_action.as_str());
    put_option(t, "blocklist_redirect_ip", &c.blocklist_redirect_ip);
    put(t, "custom_options", c.custom_options.as_str());
    put_flag(t, "probe_enabled", c.probe_enabled);
}

/// The rows that store every field of the settings.
pub fn save_config(c: &ResolverConfig) -> (t: Vec<KeyValue>)
    ensures
        rows(t@) == config_rows(c@),
{
    let mut t: Vec<KeyValue> = Vec::new();
    assert(rows(t@) =~= Seq::<(Seq<char>, Seq<char>)>::empty());
    put_service(&mut t, c);
    put_cache(&mut t, c);
    put_privacy(&mut t, c);
    put_upstream(&mut t, c);
    t
}

/// The settings that a table can hold without loss: list entries are not empty,
/// have no white space around them and do not hold their separator; an optional
/// text that is there is not empty.
pub open spec fn is_storable(v: ResolverView) -> bool {
    &&& are_items(v.listen_interfaces, ',')
    &&& v.dns64_prefix.len() > 0
    &&& v.outgoing_interface is Some ==> v.outgoing_interface->0.len() > 0
    &&& are_items(v.private_addresses, ',')
    &&& are_items(v.forwarding_servers, ',')
    &&& are_items(v.dot_upstream, ',')
    &&& are_items(v.blocklist_urls, '\n')
    &&& are_items(v.whitelist, '\n')
    &&& v.blocklist_redirect_ip is Some ==> v.blocklist_redirect_ip->0.len() > 0
}

/// What tells the keys apart: their lengths and, among keys of one length, the
/// characters named here.
proof fn lemma_config_round_trip_keys()
    ensures
        "backend"@.len() == 7,
        "enabled"@.len() == 7,
        "dhcp_domain"@.len() == 11,
        "listen_interfaces"@.len() == 17,
        "port"@.len() == 4,
        "dnssec"@.len() == 6,
        "dns64"@.len() == 5,
        "dns64_prefix"@.len() == 12,
        "register_dhcp"@.len() == 13,
        "local_zone_type"@.len() == 15,
        "outgoing_interface"@.len() == 18,
        "num_threads"@.len() == 11,
        "msg_cache_size"@.len() == 14,
        "rrset_cache_size"@.len() == 16,
        "cache_max_ttl"@.len() == 13,
        "cache_min_ttl"@.len() == 13,
        "prefetch"@.len() == 8,
        "prefetch_key"@.len() == 12,
        "infra_host_ttl"@.len() == 14,
        "unwanted_reply_threshold"@.len() == 24,
        "log_queries"@.len() == 11,
        "log_replies"@.len() == 11,
        "log_verbosity"@.len() == 13,
        "query_timeout_ms"@.len() == 16,
        "hide_identity"@.len() == 13,
        "hide_version"@.len() == 12,
        "rebind_protection"@.len() == 17,
        "private_addresses"@.len() == 17,
        "forwarding_enabled"@.len() == 18,
        "forwarding_servers"@.len() == 18,
        "use_system_nameservers"@.len() == 22,
        "dot_enabled"@.len() == 11,
        "dot_upstream"@.len() == 12,
        "blocklists_enabled"@.len() == 18,
        "blocklist_urls"@.len() == 14,
        "whitelist"@.len() == 9,
        "blocklist_action"@.len() == 16,
        "blocklist_redirect_ip"@.len() == 21,
        "custom_options"@.len() == 14,
        "probe_enabled"@.len() == 13,
        "backend"@[0] == 'b',
        "enabled"@[0] == 'e',
        "dhcp_domain"@[0] == 'd',
        "dhcp_domain"@[1] == 'h',
        "num_threads"@[0] == 'n',
        "log_queries"@[0] == 'l',
        "log_queries"@[4] == 'q',
        "log_replies"@[0] == 'l',
        "log_replies"@[4] == 'r',
        "dot_enabled"@[0] == 'd',
        "dot_enabled"@[1] == 'o',
        "dns64_prefix"@[0] == 'd',
        "dns64_prefix"@[1] == 'n',
        "prefetch_key"@[0] == 'p',
        "hide_version"@[0] == 'h',
        "dot_upstream"@[0] == 'd',
        "dot_upstream"@[1] == 'o',
        "register_dhcp"@[0] == 'r',
        "cache_max_ttl"@[0] == 'c',
        "cache_max_ttl"@[7] == 'a',
        "cache_min_ttl"@[0] == 'c',
        "cache_min_ttl"@[7] == 'i',
        "log_verbosity"@[0] == 'l',
        "hide_identity"@[0] == 'h',
        "probe_enabled"@[0] == 'p',
        "msg_cache_size"@[0] == 'm',
        "infra_host_ttl"@[0] == 'i',
        "blocklist_urls"@[0] == 'b',
        "custom_options"@[0] == 'c',
        "rrset_cache_size"@[0] == 'r',
        "query_timeout_ms"@[0] == 'q',
        "blocklist_action"@[0] == 'b',
        "listen_interfaces"@[0] == 'l',
        "rebind_protection"@[0] == 'r',
        "private_addresses"@[0] == 'p',
        "outgoing_interface"@[0] == 'o',
        "forwarding_enabled"@[0] == 'f',
        "forwarding_enabled"@[11] == 'e',
        "forwarding_servers"@[0] == 'f',
        "forwarding_servers"@[11] == 's',
        "blocklists_enabled"@[0] == 'b',
{
    reveal_strlit("backend");
    reveal_strlit("enabled");
    reveal_strlit("dhcp_domain");
    reveal_strlit("listen_interfaces");
    reveal_strlit("port");
    reveal_strlit("dnssec");
    reveal_strlit("dns64");
    reveal_strlit("dns64_prefix");
    reveal_strlit("register_dhcp");
    reveal_strlit("local_zone_type");
    reveal_strlit("outgoing_interface");
    reveal_strlit("num_threads");
    reveal_strlit("msg_cache_size");
    reveal_strlit("rrset_cache_size");
    reveal_strlit("cache_max_ttl");
    reveal_strlit("cache_min_ttl");
    reveal_strlit("prefetch");
    reveal_strlit("prefetch_key");
    reveal_strlit("infra_host_ttl");
    reveal_strlit("unwanted_reply_threshold");
    reveal_strlit("log_queries");
    reveal_strlit("log_replies");
    reveal_strlit("log_verbosity");
    reveal_strlit("query_timeout_ms");
    reveal_strlit("hide_identity");
    reveal_strlit("hide_version");
    reveal_strlit("rebind_protection");
    reveal_strlit("private_addresses");
    reveal_strlit("forwarding_enabled");
    reveal_strlit("forwarding_servers");
    reveal_strlit("use_system_nameservers");
    reveal_strlit("dot_enabled");
    reveal_strlit("dot_upstream");
    reveal_strlit("blocklists_enabled");
    reveal_strlit("blocklist_urls");
    reveal_strlit("whitelist");
    reveal_strlit("blocklist_action");
    reveal_strlit("blocklist_redirect_ip");
    reveal_strlit("custom_options");
    reveal_strlit("probe_enabled");
}

proof fn lemma_service_lookups(t: Seq<(Seq<char>, Seq<char>)>, v: ResolverView)
    ensures
        lookup(service_rows(t, v), "backend"@) == Some(v.backend),
        lookup(service_rows(t, v), "enabled"@) == Some(bool_text(v.enabled)),
        lookup(service_rows(t, v), "dhcp_domain"@) == Some(v.dhcp_domain),
        lookup(service_rows(t, v), "listen_interfaces"@) == Some(join(v.listen_interfaces, seq![','])),
        lookup(service_rows(t, v), "port"@) == Some(dec(v.port as nat)),
        lookup(service_rows(t, v), "dnssec"@) == Some(bool_text(v.dnssec)),
        lookup(service_rows(t, v), "dns64"@) == Some(bool_text(v.dns64)),
        lookup(service_rows(t, v), "dns64_prefix"@) == Some(v.dns64_prefix),
        lookup(service_rows(t, v), "register_dhcp"@) == Some(bool_text(v.register_dhcp)),
        lookup(service_rows(t, v), "local_zone_type"@) == Some(v.local_zone_type),
        lookup(service_rows(t, v), "outgoing_interface"@) == Some(option_text(v.outgoing_interface)),
        lookup(service_rows(t, v), "num_threads"@) == lookup(t, "num_threads"@),
        lookup(service_rows(t, v), "msg_cache_size"@) == lookup(t, "msg_cache_size"@),
        lookup(service_rows(t, v), "rrset_cache_size"@) == lookup(t, "rrset_cache_size"@),
        lookup(service_rows(t, v), "cache_max_ttl"@) == lookup(t, "cache_max_ttl"@),
        lookup(service_rows(t, v), "cache_min_ttl"@) == lookup(t, "cache_min_ttl"@),
        lookup(service_rows(t, v), "prefetch"@) == lookup(t, "prefetch"@),
        lookup(service_rows(t, v), "prefetch_key"@) == lookup(t, "prefetch_key"@),
        lookup(service_rows(t, v), "infra_host_ttl"@) == lookup(t, "infra_host_ttl"@),
        lookup(service_rows(t, v), "unwanted_reply_threshold"@) == lookup(t, "unwanted_reply_threshold"@),
        lookup(service_rows(t, v), "log_queries"@) == lookup(t, "log_queries"@),
        lookup(service_rows(t, v), "log_replies"@) == lookup(t, "log_replies"@),
        lookup(service_rows(t, v), "log_verbosity"@) == lookup(t, "log_verbosity"@),
        lookup(service_rows(t, v), "query_timeout_ms"@) == lookup(t, "query_timeout_ms"@),
        lookup(service_rows(t, v), "hide_identity"@) == lookup(t, "hide_identity"@),
        lookup(service_rows(t, v), "hide_version"@) == lookup(t, "hide_version"@),
        lookup(service_rows(t, v), "rebind_protection"@) == lookup(t, "rebind_protection"@),
        lookup(service_rows(t, v), "private_addresses"@) == lookup(t, "private_addresses"@),
        lookup(service_rows(t, v), "forwarding_enabled"@) == lookup(t, "forwarding_enabled"@),
        lookup(service_rows(t, v), "forwarding_servers"@) == lookup(t, "forwarding_servers"@),
        lookup(service_rows(t, v), "use_system_nameservers"@) == lookup(t, "use_system_nameservers"@),
        lookup(service_rows(t, v), "dot_enabled"@) == lookup(t, "dot_enabled"@),
        lookup(service_rows(t, v), "dot_upstream"@) == lookup(t, "dot_upstream"@),
        lookup(service_rows(t, v), "blocklists_enabled"@) == lookup(t, "blocklists_enabled"@),
        lookup(service_rows(t, v), "blocklist_urls"@) == lookup(t, "blocklist_urls"@),
        lookup(service_rows(t, v), "whitelist"@) == lookup(t, "whitelist"@),
        lookup(service_rows(t, v), "blocklist_action"@) == lookup(t, "blocklist_action"@),
        lookup(service_rows(t, v), "blocklist_redirect_ip"@) == lookup(t, "blocklist_redirect_ip"@),
        lookup(service_rows(t, v), "custom_options"@) == lookup(t, "custom_options"@),
        lookup(service_rows(t, v), "probe_enabled"@) == lookup(t, "probe_enabled"@),
{
    broadcast use lookup_push;

    reveal(service_rows);
    lemma_config_round_trip_keys();
}

proof fn lemma_cache_lookups(t: Seq<(Seq<char>, Seq<char>)>, v: ResolverView)
    ensures
        lookup(cache_rows(t, v), "backend"@) == lookup(t, "backend"@),
        lookup(cache_rows(t, v), "enabled"@) == lookup(t, "enabled"@),
        lookup(cache_rows(t, v), "dhcp_domain"@) == lookup(t, "dhcp_domain"@),
        lookup(cache_rows(t, v), "listen_interfaces"@) == lookup(t, "listen_interfaces"@),
        lookup(cache_rows(t, v), "port"@) == lookup(t, "port"@),
        lookup(cache_rows(t, v), "dnssec"@) == lookup(t, "dnssec"@),
        lookup(cache_rows(t, v), "dns64"@) == lookup(t, "dns64"@),
        lookup(cache_rows(t, v), "dns64_prefix"@) == lookup(t, "dns64_prefix"@),
        lookup(cache_rows(t, v), "register_dhcp"@) == lookup(t, "register_dhcp"@),
        lookup(cache_rows(t, v), "local_zone_type"@) == lookup(t, "local_zone_type"@),
        lookup(cache_rows(t, v), "outgoing_interface"@) == lookup(t, "outgoing_interface"@),
        lookup(cache_rows(t, v), "num_threads"@) == Some(dec(v.num_threads as nat)),
        lookup(cache_rows(t, v), "msg_cache_size"@) == Some(v.msg_cache_size),
        lookup(cache_rows(t, v), "rrset_cache_size"@) == Some(v.rrset_cache_size),
        lookup(cache_rows(t, v), "cache_max_ttl"@) == Some(dec(v.cache_max_ttl as nat)),
        lookup(cache_rows(t, v), "cache_min_ttl"@) == Some(dec(v.cache_min_ttl as nat)),
        lookup(cache_rows(t, v), "prefetch"@) == Some(bool_text(v.prefetch)),
        lookup(cache_rows(t, v), "prefetch_key"@) == Some(bool_text(v.prefetch_key)),
        lookup(cache_rows(t, v), "infra_host_ttl"@) == Some(dec(v.infra_host_ttl as nat)),
        lookup(cache_rows(t, v), "unwanted_reply_threshold"@) == Some(dec(v.unwanted_reply_threshold as nat)),
        lookup(cache_rows(t, v), "log_queries"@) == lookup(t, "log_queries"@),
        lookup(cache_rows(t, v), "log_replies"@) == lookup(t, "log_replies"@),
        lookup(cache_rows(t, v), "log_verbosity"@) == lookup(t, "log_verbosity"@),
        lookup(cache_rows(t, v), "query_timeout_ms"@) == lookup(t, "query_timeout_ms"@),
        lookup(cache_rows(t, v), "hide_identity"@) == lookup(t, "hide_identity"@),
        lookup(cache_rows(t, v), "hide_version"@) == lookup(t, "hide_version"@),
        lookup(cache_rows(t, v), "rebind_protection"@) == lookup(t, "rebind_protection"@),
        lookup(cache_rows(t, v), "private_addresses"@) == lookup(t, "private_addresses"@),
        lookup(cache_rows(t, v), "forwarding_enabled"@) == lookup(t, "forwarding_enabled"@),
        lookup(cache_rows(t, v), "forwarding_servers"@) == lookup(t, "forwarding_servers"@),
        lookup(cache_rows(t, v), "use_system_nameservers"@) == lookup(t, "use_system_nameservers"@),
        lookup(cache_rows(t, v), "dot_enabled"@) == lookup(t, "dot_enabled"@),
        lookup(cache_rows(t, v), "dot_upstream"@) == lookup(t, "dot_upstream"@),
        lookup(cache_rows(t, v), "blocklists_enabled"@) == lookup(t, "blocklists_enabled"@),
        lookup(cache_rows(t, v), "blocklist_urls"@) == lookup(t, "blocklist_urls"@),
        lookup(cache_rows(t, v), "whitelist"@) == lookup(t, "whitelist"@),
        lookup(cache_rows(t, v), "blocklist_action"@) == lookup(t, "blocklist_action"@),
        lookup(cache_rows(t, v), "blocklist_redirect_ip"@) == lookup(t, "blocklist_redirect_ip"@),
        lookup(cache_rows(t, v), "custom_options"@) == lookup(t, "custom_options"@),
        lookup(cache_rows(t, v), "probe_enabled"@) == lookup(t, "probe_enabled"@),
{
    broadcast use lookup_push;

    reveal(cache_rows);
    lemma_config_round_trip_keys();
}

proof fn lemma_privacy_lookups(t: Seq<(Seq<char>, Seq<char>)>, v: ResolverView)
    ensures
        lookup(privacy_rows(t, v), "backend"@) == lookup(t, "backend"@),
        lookup(privacy_rows(t, v), "enabled"@) == lookup(t, "enabled"@),
        lookup(privacy_rows(t, v), "dhcp_domain"@) == lookup(t, "dhcp_domain"@),
        lookup(privacy_rows(t, v), "listen_interfaces"@) == lookup(t, "listen_interfaces"@),
        lookup(privacy_rows(t, v), "port"@) == lookup(t, "port"@),
        lookup(privacy_rows(t, v), "dnssec"@) == lookup(t, "dnssec"@),
        lookup(privacy_rows(t, v), "dns64"@) == lookup(t, "dns64"@),
        lookup(privacy_rows(t, v), "dns64_prefix"@) == lookup(t, "dns64_prefix"@),
        lookup(privacy_rows(t, v), "register_dhcp"@) == lookup(t, "register_dhcp"@),
        lookup(privacy_rows(t, v), "local_zone_type"@) == lookup(t, "local_zone_type"@),
        lookup(privacy_rows(t, v), "outgoing_interface"@) == lookup(t, "outgoing_interface"@),
        lookup(privacy_rows(t, v), "num_threads"@) == lookup(t, "num_threads"@),
        lookup(privacy_rows(t, v), "msg_cache_size"@) == lookup(t, "msg_cache_size"@),
        lookup(privacy_rows(t, v), "rrset_cache_size"@) == lookup(t, "rrset_cache_size"@),
        lookup(privacy_rows(t, v), "cache_max_ttl"@) == lookup(t, "cache_max_ttl"@),
        lookup(privacy_rows(t, v), "cache_min_ttl"@) == lookup(t, "cache_min_ttl"@),
        lookup(privacy_rows(t, v), "prefetch"@) == lookup(t, "prefetch"@),
        lookup(privacy_rows(t, v), "prefetch_key"@) == lookup(t, "prefetch_key"@),
        lookup(privacy_rows(t, v), "infra_host_ttl"@) == lookup(t, "infra_host_ttl"@),
        lookup(privacy_rows(t, v), "unwanted_reply_threshold"@) == lookup(t, "unwanted_reply_threshold"@),
        lookup(privacy_rows(t, v), "log_queries"@) == Some(bool_text(v.log_queries)),
        lookup(privacy_rows(t, v), "log_replies"@) == Some(bool_text(v.log_replies)),
        lookup(privacy_rows(t, v), "log_verbosity"@) == Some(dec(v.log_verbosity as nat)),
        lookup(privacy_rows(t, v), "query_timeout_ms"@) == Some(dec(v.query_timeout_ms as nat)),
        lookup(privacy_rows(t, v), "hide_identity"@) == Some(bool_text(v.hide_identity)),
        lookup(privacy_rows(t, v), "hide_version"@) == Some(bool_text(v.hide_version)),
        lookup(privacy_rows(t, v), "rebind_protection"@) == Some(bool_text(v.rebind_protection)),
        lookup(privacy_rows(t, v), "private_addresses"@) == Some(join(v.private_addresses, seq![','])),
        lookup(privacy_rows(t, v), "forwarding_enabled"@) == lookup(t, "forwarding_enabled"@),
        lookup(privacy_rows(t, v), "forwarding_servers"@) == lookup(t, "forwarding_servers"@),
        lookup(privacy_rows(t, v), "use_system_nameservers"@) == lookup(t, "use_system_nameservers"@),
        lookup(privacy_rows(t, v), "dot_enabled"@) == lookup(t, "dot_enabled"@),
        lookup(privacy_rows(t, v), "dot_upstream"@) == lookup(t, "dot_upstream"@),
        lookup(privacy_rows(t, v), "blocklists_enabled"@) == lookup(t, "blocklists_enabled"@),
        lookup(privacy_rows(t, v), "blocklist_urls"@) == lookup(t, "blocklist_urls"@),
        lookup(privacy_rows(t, v), "whitelist"@) == lookup(t, "whitelist"@),
        lookup(privacy_rows(t, v), "blocklist_action"@) == lookup(t, "blocklist_action"@),
        lookup(privacy_rows(t, v), "blocklist_redirect_ip"@) == lookup(t, "blocklist_redirect_ip"@),
        lookup(privacy_rows(t, v), "custom_options"@) == lookup(t, "custom_options"@),
        lookup(privacy_rows(t, v), "probe_enabled"@) == lookup(t, "probe_enabled"@),
{
    broadcast use lookup_push;

    reveal(privacy_rows);
    lemma_config_round_trip_keys();
}

proof fn lemma_upstream_lookups(t: Seq<(Seq<char>, Seq<char>)>, v: ResolverView)
    ensures
        lookup(upstream_rows(t, v), "backend"@) == lookup(t, "backend"@),
        lookup(upstream_rows(t, v), "enabled"@) == lookup(t, "enabled"@),
        lookup(upstream_rows(t, v), "dhcp_domain"@) == lookup(t, "dhcp_domain"@),
        lookup(upstream_rows(t, v), "listen_interfaces"@) == lookup(t, "listen_interfaces"@),
        lookup(upstream_rows(t, v), "port"@) == lookup(t, "port"@),
        lookup(upstream_rows(t, v), "dnssec"@) == lookup(t, "dnssec"@),
        lookup(upstream_rows(t, v), "dns64"@) == lookup(t, "dns64"@),
        lookup(upstream_rows(t, v), "dns64_prefix"@) == lookup(t, "dns64_prefix"@),
        lookup(upstream_rows(t, v), "register_dhcp"@) == lookup(t, "register_dhcp"@),
        lookup(upstream_rows(t, v), "local_zone_type"@) == lookup(t, "local_zone_type"@),
        lookup(upstream_rows(t, v), "outgoing_interface"@) == lookup(t, "outgoing_interface"@),
        lookup(upstream_rows(t, v), "num_threads"@) == lookup(t, "num_threads"@),
        lookup(upstream_rows(t, v), "msg_cache_size"@) == lookup(t, "msg_cache_size"@),
        lookup(upstream_rows(t, v), "rrset_cache_size"@) == lookup(t, "rrset_cache_size"@),
        lookup(upstream_rows(t, v), "cache_max_ttl"@) == lookup(t, "cache_max_ttl"@),
        lookup(upstream_rows(t, v), "cache_min_ttl"@) == lookup(t, "cache_min_ttl"@),
        lookup(upstream_rows(t, v), "prefetch"@) == lookup(t, "prefetch"@),
        lookup(upstream_rows(t, v), "prefetch_key"@) == lookup(t, "prefetch_key"@),
        lookup(upstream_rows(t, v), "infra_host_ttl"@) == lookup(t, "infra_host_ttl"@),
        lookup(upstream_rows(t, v), "unwanted_reply_threshold"@) == lookup(t, "unwanted_reply_threshold"@),
        lookup(upstream_rows(t, v), "log_queries"@) == lookup(t, "log_queries"@),
        lookup(upstream_rows(t, v), "log_replies"@) == lookup(t, "log_replies"@),
        lookup(upstream_rows(t, v), "log_verbosity"@) == lookup(t, "log_verbosity"@),
        lookup(upstream_rows(t, v), "query_timeout_ms"@) == lookup(t, "query_timeout_ms"@),
        lookup(upstream_rows(t, v), "hide_identity"@) == lookup(t, "hide_identity"@),
        lookup(upstream_rows(t, v), "hide_version"@) == lookup(t, "hide_version"@),
        lookup(upstream_rows(t, v), "rebind_protection"@) == lookup(t, "rebind_protection"@),
        lookup(upstream_rows(t, v), "private_addresses"@) == lookup(t, "private_addresses"@),
        lookup(upstream_rows(t, v), "forwarding_enabled"@) == Some(bool_text(v.forwarding_enabled)),
        lookup(upstream_rows(t, v), "forwarding_servers"@) == Some(join(v.forwarding_servers, seq![','])),
        lookup(upstream_rows(t, v), "use_system_nameservers"@) == Some(bool_text(v.use_system_nameservers)),
        lookup(upstream_rows(t, v), "dot_enabled"@) == Some(bool_text(v.dot_enabled)),
        lookup(upstream_rows(t, v), "dot_upstream"@) == Some(join(v.dot_upstream, seq![','])),
        lookup(upstream_rows(t, v), "blocklists_enabled"@) == Some(bool_text(v.blocklists_enabled)),
        lookup(upstream_rows(t, v), "blocklist_urls"@) == Some(join(v.blocklist_urls, seq!['\n'])),
        lookup(upstream_rows(t, v), "whitelist"@) == Some(join(v.whitelist, seq!['\n'])),
        lookup(upstream_rows(t, v), "blocklist_action"@) == Some(v.blocklist_action),
        lookup(upstream_rows(t, v), "blocklist_redirect_ip"@) == Some(option_text(v.blocklist_redirect_ip)),
        lookup(upstream_rows(t, v), "custom_options"@) == Some(v.custom_options),
        lookup(upstream_rows(t, v), "probe_enabled"@) == Some(bool_text(v.probe_enabled)),
{
    broadcast use lookup_push;

    reveal(upstream_rows);
    lemma_config_round_trip_keys();
}

proof fn lemma_service_reads_back(t: Seq<(Seq<char>, Seq<char>)>, v: ResolverView, d: ResolverView)
    requires
        is_storable(v),
        lookup(t, "backend"@) == Some(v.backend),
        lookup(t, "enabled"@) == Some(bool_text(v.enabled)),
        lookup(t, "dhcp_domain"@) == Some(v.dhcp_domain),
        lookup(t, "listen_interfaces"@) == Some(join(v.listen_interfaces, seq![','])),
        lookup(t, "port"@) == Some(dec(v.port as nat)),
        lookup(t, "dnssec"@) == Some(bool_text(v.dnssec)),
        lookup(t, "dns64"@) == Some(bool_text(v.dns64)),
        lookup(t, "dns64_prefix"@) == Some(v.dns64_prefix),
        lookup(t, "register_dhcp"@) == Some(bool_text(v.register_dhcp)),
        lookup(t, "local_zone_type"@) == Some(v.local_zone_type),
        lookup(t, "outgoing_interface"@) == Some(option_text(v.outgoing_interface)),
    ensures
        config_of_rows(t, d).backend == v.backend,
        config_of_rows(t, d).enabled == v.enabled,
        config_of_rows(t, d).dhcp_domain == v.dhcp_domain,
        config_of_rows(t, d).listen_interfaces == v.listen_interfaces,
        config_of_rows(t, d).port == v.port,
        config_of_rows(t, d).dnssec == v.dnssec,
        config_of_rows(t, d).dns64 == v.dns64,
        config_of_rows(t, d).dns64_prefix == v.dns64_prefix,
        config_of_rows(t, d).register_dhcp == v.register_dhcp,
        config_of_rows(t, d).local_zone_type == v.local_zone_type,
        config_of_rows(t, d).outgoing_interface == v.outgoing_interface,
{
    bool_text_reads_back(v.enabled);
    items_of_join(v.listen_interfaces, ',');
    parsed_of_dec(v.port as nat, u16::MAX as nat);
    bool_text_reads_back(v.dnssec);
    bool_text_reads_back(v.dns64);
    bool_text_reads_back(v.register_dhcp);
}

proof fn lemma_cache_reads_back(t: Seq<(Seq<char>, Seq<char>)>, v: ResolverView, d: ResolverView)
    requires
        is_storable(v),
        lookup(t, "num_threads"@) == Some(dec(v.num_threads as nat)),
        lookup(t, "msg_cache_size"@) == Some(v.msg_cache_size),
        lookup(t, "rrset_cache_size"@) == Some(v.rrset_cache_size),
        lookup(t, "cache_max_ttl"@) == Some(dec(v.cache_max_ttl as nat)),
        lookup(t, "cache_min_ttl"@) == Some(dec(v.cache_min_ttl as nat)),
        lookup(t, "prefetch"@) == Some(bool_text(v.prefetch)),
        lookup(t, "prefetch_key"@) == Some(bool_text(v.prefetch_key)),
        lookup(t, "infra_host_ttl"@) == Some(dec(v.infra_host_ttl as nat)),
        lookup(t, "unwanted_reply_threshold"@) == Some(dec(v.unwanted_reply_threshold as nat)),
    ensures
        config_of_rows(t, d).num_threads == v.num_threads,
        config_of_rows(t, d).msg_cache_size == v.msg_cache_size,
        config_of_rows(t, d).rrset_cache_size == v.rrset_cache_size,
        config_of_rows(t, d).cache_max_ttl == v.cache_max_ttl,
        config_of_rows(t, d).cache_min_ttl == v.cache_min_ttl,
        config_of_rows(t, d).prefetch == v.prefetch,
        config_of_rows(t, d).prefetch_key == v.prefetch_key,
        config_of_rows(t, d).infra_host_ttl == v.infra_host_ttl,
        config_of_rows(t, d).unwanted_reply_threshold == v.unwanted_reply_threshold,
{
    parsed_of_dec(v.num_threads as nat, u32::MAX as nat);
    parsed_of_dec(v.cache_max_ttl as nat, u32::MAX as nat);
    parsed_of_dec(v.cache_min_ttl as nat, u32::MAX as nat);
    bool_text_reads_back(v.prefetch);
    bool_text_reads_back(v.prefetch_key);
    parsed_of_dec(v.infra_host_ttl as nat, u32::MAX as nat);
    parsed_of_dec(v.unwanted_reply_threshold as nat, u32::MAX as nat);
}

proof fn lemma_privacy_reads_back(t: Seq<(Seq<char>, Seq<char>)>, v: ResolverView, d: ResolverView)
    requires
        is_storable(v),
        lookup(t, "log_queries"@) == Some(bool_text(v.log_queries)),
        lookup(t, "log_replies"@) == Some(bool_text(v.log_replies)),
        lookup(t, "log_verbosity"@) == Some(dec(v.log_verbosity as nat)),
        lookup(t, "query_timeout_ms"@) == Some(dec(v.query_timeout_ms as nat)),
        lookup(t, "hide_identity"@) == Some(bool_text(v.hide_identity)),
        lookup(t, "hide_version"@) == Some(bool_text(v.hide_version)),
        lookup(t, "rebind_protection"@) == Some(bool_text(v.rebind_protection)),
        lookup(t, "private_addresses"@) == Some(join(v.private_addresses, seq![','])),
    ensures
        config_of_rows(t, d).log_queries == v.log_queries,
        config_of_rows(t, d).log_replies == v.log_replies,
        config_of_rows(t, d).log_verbosity == v.log_verbosity,
        config_of_rows(t, d).query_timeout_ms == v.query_timeout_ms,
        config_of_rows(t, d).hide_identity == v.hide_identity,
        config_of_rows(t, d).hide_version == v.hide_version,
        config_of_rows(t, d).rebind_protection == v.rebind_protection,
        config_of_rows(t, d).private_addresses == v.private_addresses,
{
    bool_text_reads_back(v.log_queries);
    bool_text_reads_back(v.log_replies);
    parsed_of_dec(v.log_verbosity as nat, u8::MAX as nat);
    parsed_of_dec(v.query_timeout_ms as nat, u32::MAX as nat);
    bool_text_reads_back(v.hide_identity);
    bool_text_reads_back(v.hide_version);
    bool_text_reads_back(v.rebind_protection);
    items_of_join(v.private_addresses, ',');
}

proof fn lemma_upstream_reads_back(t: Seq<(Seq<char>, Seq<char>)>, v: ResolverView, d: ResolverView)
    requires
        is_storable(v),
        lookup(t, "forwarding_enabled"@) == Some(bool_text(v.forwarding_enabled)),
        lookup(t, "forwarding_servers"@) == Some(join(v.forwarding_servers, seq![','])),
        lookup(t, "use_system_nameservers"@) == Some(bool_text(v.use_system_nameservers)),
        lookup(t, "dot_enabled"@) == Some(bool_text(v.dot_enabled)),
        lookup(t, "dot_upstream"@) == Some(join(v.dot_upstream, seq![','])),
        lookup(t, "blocklists_enabled"@) == Some(bool_text(v.blocklists_enabled)),
        lookup(t, "blocklist_urls"@) == Some(join(v.blocklist_urls, seq!['\n'])),
        lookup(t, "whitelist"@) == Some(join(v.whitelist, seq!['\n'])),
        lookup(t, "blocklist_action"@) == Some(v.blocklist_action),
        lookup(t, "blocklist_redirect_ip"@) == Some(option_text(v.blocklist_redirect_ip)),
        lookup(t, "custom_options"@) == Some(v.custom_options),
        lookup(t, "probe_enabled"@) == Some(bool_text(v.probe_enabled)),
    ensures
        config_of_rows(t, d).forwarding_enabled == v.forwarding_enabled,
        config_of_rows(t, d).forwarding_servers == v.forwarding_servers,
        config_of_rows(t, d).use_system_nameservers == v.use_system_nameservers,
        config_of_rows(t, d).dot_enabled == v.dot_enabled,
        config_of_rows(t, d).dot_upstream == v.dot_upstream,
        config_of_rows(t, d).blocklists_enabled == v.blocklists_enabled,
        config_of_rows(t, d).blocklist_urls == v.blocklist_urls,
        config_of_rows(t, d).whitelist == v.whitelist,
        config_of_rows(t, d).blocklist_action == v.blocklist_action,
        config_of_rows(t, d).blocklist_redirect_ip == v.blocklist_redirect_ip,
        config_of_rows(t, d).custom_options == v.custom_options,
        config_of_rows(t, d).probe_enabled == v.probe_enabled,
{
    bool_text_reads_back(v.forwarding_enabled);
    items_of_join(v.forwarding_servers, ',');
    bool_text_reads_back(v.use_system_nameservers);
    bool_text_reads_back(v.dot_enabled);
    items_of_join(v.dot_upstream, ',');
    bool_text_reads_back(v.blocklists_enabled);
    items_of_join(v.blocklist_urls, '\n');
    items_of_join(v.whitelist, '\n');
    bool_text_reads_back(v.probe_enabled);
}

/// What was saved loads as it was, whatever the defaults: a backup that carries
/// the resolver settings gives them back.
pub proof fn config_round_trip(v: ResolverView, d: ResolverView)
    requires
        is_storable(v),
    ensures
        config_of_rows(config_rows(v), d) == v,
{
    let t1 = service_rows(Seq::empty(), v);
    lemma_service_lookups(Seq::empty(), v);
    let t2 = cache_rows(t1, v);
    lemma_cache_lookups(t1, v);
    let t3 = privacy_rows(t2, v);
    lemma_privacy_lookups(t2, v);
    let t4 = upstream_rows(t3, v);
    lemma_upstream_lookups(t3, v);
    let t = t4;
    lemma_service_reads_back(t, v, d);
    lemma_cache_reads_back(t, v, d);
    lemma_privacy_reads_back(t, v, d);
    lemma_upstream_reads_back(t, v, d);
}

// ---------------------------------------------------------------------------
// Laws
// ---------------------------------------------------------------------------

/// The settings of the resolver are saved each under its own name, as text: an option that is not set as an empty
/// one.
pub proof fn resolver_settings_are_saved_under_their_names(v: ResolverView)
    ensures
        lookup(config_rows(v), "backend"@) == Some(v.backend),
        lookup(config_rows(v), "enabled"@) == Some((if v.enabled { "true"@ } else { "false"@ })),
        lookup(config_rows(v), "dhcp_domain"@) == Some(v.dhcp_domain),
        lookup(config_rows(v), "listen_interfaces"@) == Some(join(v.listen_interfaces, seq![','])),
        lookup(config_rows(v), "port"@) == Some(dec(v.port as nat)),
        lookup(config_rows(v), "dnssec"@) == Some((if v.dnssec { "true"@ } else { "false"@ })),
        lookup(config_rows(v), "dns64"@) == Some((if v.dns64 { "true"@ } else { "false"@ })),
        lookup(config_rows(v), "dns64_prefix"@) == Some(v.dns64_prefix),
        lookup(config_rows(v), "register_dhcp"@) == Some((if v.register_dhcp { "true"@ } else { "false"@ })),
        lookup(config_rows(v), "local_zone_type"@) == Some(v.local_zone_type),
        v.outgoing_interface matches Some(x) ==> lookup(config_rows(v), "outgoing_interface"@) == Some(x),
        v.outgoing_interface is None ==> lookup(config_rows(v), "outgoing_interface"@) == Some(Seq::<char>::empty()),
        lookup(config_rows(v), "num_threads"@) == Some(dec(v.num_threads as nat)),
        lookup(config_rows(v), "msg_cache_size"@) == Some(v.msg_cache_size),
        lookup(config_rows(v), "rrset_cache_size"@) == Some(v.rrset_cache_size),
        lookup(config_rows(v), "cache_max_ttl"@) == Some(dec(v.cache_max_ttl as nat)),
        lookup(config_rows(v), "cache_min_ttl"@) == Some(dec(v.cache_min_ttl as nat)),
        lookup(config_rows(v), "prefetch"@) == Some((if v.prefetch { "true"@ } else { "false"@ })),
        lookup(config_rows(v), "prefetch_key"@) == Some((if v.prefetch_key { "true"@ } else { "false"@ })),
        lookup(config_rows(v), "infra_host_ttl"@) == Some(dec(v.infra_host_ttl as nat)),
        lookup(config_rows(v), "unwanted_reply_threshold"@) == Some(dec(v.unwanted_reply_threshold as nat)),
        lookup(config_rows(v), "log_queries"@) == Some((if v.log_queries { "true"@ } else { "false"@ })),
        lookup(config_rows(v), "log_replies"@) == Some((if v.log_replies { "true"@ } else { "false"@ })),
        lookup(config_rows(v), "log_verbosity"@) == Some(dec(v.log_verbosity as nat)),
        lookup(config_rows(v), "query_timeout_ms"@) == Some(dec(v.query_timeout_ms as nat)),
        lookup(config_rows(v), "hide_identity"@) == Some((if v.hide_identity { "true"@ } else { "false"@ })),
        lookup(config_rows(v), "hide_version"@) == Some((if v.hide_version { "true"@ } else { "false"@ })),
        lookup(config_rows(v), "rebind_protection"@) == Some((if v.rebind_protection { "true"@ } else { "false"@ })),
        lookup(config_rows(v), "private_addresses"@) == Some(join(v.private_addresses, seq![','])),
        lookup(config_rows(v), "forwarding_enabled"@) == Some((if v.forwarding_enabled { "true"@ } else { "false"@ })),
        lookup(config_rows(v), "forwarding_servers"@) == Some(join(v.forwarding_servers, seq![','])),
        lookup(config_rows(v), "use_system_nameservers"@)
            == Some((if v.use_system_nameservers { "true"@ } else { "false"@ })),
        lookup(config_rows(v), "dot_enabled"@) == Some((if v.dot_enabled { "true"@ } else { "false"@ })),
        lookup(config_rows(v), "dot_upstream"@) == Some(join(v.dot_upstream, seq![','])),
        lookup(config_rows(v), "blocklists_enabled"@) == Some((if v.blocklists_enabled { "true"@ } else { "false"@ })),
        lookup(config_rows(v), "blocklist_urls"@) == Some(join(v.blocklist_urls, seq!['\n'])),
        lookup(config_rows(v), "whitelist"@) == Some(join(v.whitelist, seq!['\n'])),
        lookup(config_rows(v), "blocklist_action"@) == Some(v.blocklist_action),
        v.blocklist_redirect_ip matches Some(x) ==> lookup(config_rows(v), "blocklist_redirect_ip"@) == Some(x),
        v.blocklist_redirect_ip is None ==> lookup(config_rows(v),
            "blocklist_redirect_ip"@) == Some(Seq::<char>::empty()),
        lookup(config_rows(v), "custom_options"@) == Some(v.custom_options),
        lookup(config_rows(v), "probe_enabled"@) == Some((if v.probe_enabled { "true"@ } else { "false"@ })),
{
    let t0 = service_rows(Seq::empty(), v);
    lemma_service_lookups(Seq::empty(), v);
    let t1 = cache_rows(t0, v);
    lemma_cache_lookups(t0, v);
    let t2 = privacy_rows(t1, v);
    lemma_privacy_lookups(t1, v);
    let t3 = upstream_rows(t2, v);
    lemma_upstream_lookups(t2, v);
}

/// The settings of the resolver are loaded each from its own name. One that is not saved stays as it was, and a
/// number that cannot be read is the usual one.
pub proof fn resolver_settings_are_loaded_by_their_names(t: Seq<(Seq<char>, Seq<char>)>, d: ResolverView)
    ensures
        lookup(t, "backend"@) is None ==> config_of_rows(t, d).backend == d.backend,
        lookup(t, "backend"@) matches Some(x) ==> config_of_rows(t, d).backend == x,
        lookup(t, "enabled"@) is None ==> config_of_rows(t, d).enabled == d.enabled,
        lookup(t, "enabled"@) matches Some(x) ==> (config_of_rows(t, d).enabled <==> x == "true"@),
        lookup(t, "dhcp_domain"@) is None ==> config_of_rows(t, d).dhcp_domain == d.dhcp_domain,
        lookup(t, "dhcp_domain"@) matches Some(x) ==> config_of_rows(t, d).dhcp_domain == x,
        lookup(t, "listen_interfaces"@) is None ==> config_of_rows(t, d).listen_interfaces == d.listen_interfaces,
        lookup(t, "listen_interfaces"@) matches Some(x) ==> config_of_rows(t, d).listen_interfaces == items(x, ','),
        lookup(t, "port"@) is None ==> config_of_rows(t, d).port == d.port,
        lookup(t, "port"@) matches Some(x) ==> (parsed(x, u16::MAX as nat) matches Some(n)
            ==> config_of_rows(t, d).port == n),
        lookup(t, "port"@) matches Some(x) ==> parsed(x, u16::MAX as nat) is None ==> config_of_rows(t, d).port == 53,
        lookup(t, "dnssec"@) is None ==> config_of_rows(t, d).dnssec == d.dnssec,
        lookup(t, "dnssec"@) matches Some(x) ==> (config_of_rows(t, d).dnssec <==> x == "true"@),
        lookup(t, "dns64"@) is None ==> config_of_rows(t, d).dns64 == d.dns64,
        lookup(t, "dns64"@) matches Some(x) ==> (config_of_rows(t, d).dns64 <==> x == "true"@),
        lookup(t, "dns64_prefix"@) is None ==> config_of_rows(t, d).dns64_prefix == d.dns64_prefix,
        lookup(t, "dns64_prefix"@) matches Some(x)
            ==> config_of_rows(t, d).dns64_prefix == (if x.len() > 0 { x } else { d.dns64_prefix }),
        lookup(t, "register_dhcp"@) is None ==> config_of_rows(t, d).register_dhcp == d.register_dhcp,
        lookup(t, "register_dhcp"@) matches Some(x) ==> (config_of_rows(t, d).register_dhcp <==> x == "true"@),
        lookup(t, "local_zone_type"@) is None ==> config_of_rows(t, d).local_zone_type == d.local_zone_type,
        lookup(t, "local_zone_type"@) matches Some(x) ==> config_of_rows(t, d).local_zone_type == x,
        lookup(t, "outgoing_interface"@) is None ==> config_of_rows(t, d).outgoing_interface == d.outgoing_interface,
        lookup(t, "outgoing_interface"@) matches Some(x)
            ==> config_of_rows(t, d).outgoing_interface == (if x.len() > 0 { Some(x) } else { None }),
        lookup(t, "num_threads"@) is None ==> config_of_rows(t, d).num_threads == d.num_threads,
        lookup(t, "num_threads"@) matches Some(x) ==> (parsed(x, u32::MAX as nat) matches Some(n)
            ==> config_of_rows(t, d).num_threads == n),
        lookup(t, "num_threads"@) matches Some(x) ==> parsed(x, u32::MAX as nat) is None
            ==> config_of_rows(t, d).num_threads == 2,
        lookup(t, "msg_cache_size"@) is None ==> config_of_rows(t, d).msg_cache_size == d.msg_cache_size,
        lookup(t, "msg_cache_size"@) matches Some(x) ==> config_of_rows(t, d).msg_cache_size == x,
        lookup(t, "rrset_cache_size"@) is None ==> config_of_rows(t, d).rrset_cache_size == d.rrset_cache_size,
        lookup(t, "rrset_cache_size"@) matches Some(x) ==> config_of_rows(t, d).rrset_cache_size == x,
        lookup(t, "cache_max_ttl"@) is None ==> config_of_rows(t, d).cache_max_ttl == d.cache_max_ttl,
        lookup(t, "cache_max_ttl"@) matches Some(x) ==> (parsed(x, u32::MAX as nat) matches Some(n)
            ==> config_of_rows(t, d).cache_max_ttl == n),
        lookup(t, "cache_max_ttl"@) matches Some(x) ==> parsed(x, u32::MAX as nat) is None
            ==> config_of_rows(t, d).cache_max_ttl == 86400,
        lookup(t, "cache_min_ttl"@) is None ==> config_of_rows(t, d).cache_min_ttl == d.cache_min_ttl,
        lookup(t, "cache_min_ttl"@) matches Some(x) ==> (parsed(x, u32::MAX as nat) matches Some(n)
            ==> config_of_rows(t, d).cache_min_ttl == n),
        lookup(t, "cache_min_ttl"@) matches Some(x) ==> parsed(x, u32::MAX as nat) is None
            ==> config_of_rows(t, d).cache_min_ttl == 0,
        lookup(t, "prefetch"@) is None ==> config_of_rows(t, d).prefetch == d.prefetch,
        lookup(t, "prefetch"@) matches Some(x) ==> (config_of_rows(t, d).prefetch <==> x == "true"@),
        lookup(t, "prefetch_key"@) is None ==> config_of_rows(t, d).prefetch_key == d.prefetch_key,
        lookup(t, "prefetch_key"@) matches Some(x) ==> (config_of_rows(t, d).prefetch_key <==> x == "true"@),
        lookup(t, "infra_host_ttl"@) is None ==> config_of_rows(t, d).infra_host_ttl == d.infra_host_ttl,
        lookup(t, "infra_host_ttl"@) matches Some(x) ==> (parsed(x, u32::MAX as nat) matches Some(n)
            ==> config_of_rows(t, d).infra_host_ttl == n),
        lookup(t, "infra_host_ttl"@) matches Some(x) ==> parsed(x, u32::MAX as nat) is None
            ==> config_of_rows(t, d).infra_host_ttl == 900,
        lookup(t, "unwanted_reply_threshold"@) is None
            ==> config_of_rows(t, d).unwanted_reply_threshold == d.unwanted_reply_threshold,
        lookup(t, "unwanted_reply_threshold"@) matches Some(x) ==> (parsed(x, u32::MAX as nat) matches Some(n)
            ==> config_of_rows(t, d).unwanted_reply_threshold == n),
        lookup(t, "unwanted_reply_threshold"@) matches Some(x) ==> parsed(x, u32::MAX as nat) is None
            ==> config_of_rows(t, d).unwanted_reply_threshold == 10000,
        lookup(t, "log_queries"@) is None ==> config_of_rows(t, d).log_queries == d.log_queries,
        lookup(t, "log_queries"@) matches Some(x) ==> (config_of_rows(t, d).log_queries <==> x == "true"@),
        lookup(t, "log_replies"@) is None ==> config_of_rows(t, d).log_replies == d.log_replies,
        lookup(t, "log_replies"@) matches Some(x) ==> (config_of_rows(t, d).log_replies <==> x == "true"@),
        lookup(t, "log_verbosity"@) is None ==> config_of_rows(t, d).log_verbosity == d.log_verbosity,
        lookup(t, "log_verbosity"@) matches Some(x) ==> (parsed(x, u8::MAX as nat) matches Some(n)
            ==> config_of_rows(t, d).log_verbosity == n),
        lookup(t, "log_verbosity"@) matches Some(x) ==> parsed(x, u8::MAX as nat) is None
            ==> config_of_rows(t, d).log_verbosity == 1,
        lookup(t, "query_timeout_ms"@) is None ==> config_of_rows(t, d).query_timeout_ms == d.query_timeout_ms,
        lookup(t, "query_timeout_ms"@) matches Some(x) ==> (parsed(x, u32::MAX as nat) matches Some(n)
            ==> config_of_rows(t, d).query_timeout_ms == n),
        lookup(t, "query_timeout_ms"@) matches Some(x) ==> parsed(x, u32::MAX as nat) is None
            ==> config_of_rows(t, d).query_timeout_ms == 0,
        lookup(t, "hide_identity"@) is None ==> config_of_rows(t, d).hide_identity == d.hide_identity,
        lookup(t, "hide_identity"@) matches Some(x) ==> (config_of_rows(t, d).hide_identity <==> x == "true"@),
        lookup(t, "hide_version"@) is None ==> config_of_rows(t, d).hide_version == d.hide_version,
        lookup(t, "hide_version"@) matches Some(x) ==> (config_of_rows(t, d).hide_version <==> x == "true"@),
        lookup(t, "rebind_protection"@) is None ==> config_of_rows(t, d).rebind_protection == d.rebind_protection,
        lookup(t, "rebind_protection"@) matches Some(x) ==> (config_of_rows(t, d).rebind_protection <==> x == "true"@),
        lookup(t, "private_addresses"@) is None ==> config_of_rows(t, d).private_addresses == d.private_addresses,
        lookup(t, "private_addresses"@) matches Some(x) ==> config_of_rows(t, d).private_addresses == items(x, ','),
        lookup(t, "forwarding_enabled"@) is None ==> config_of_rows(t, d).forwarding_enabled == d.forwarding_enabled,
        lookup(t, "forwarding_enabled"@) matches Some(x) ==> (config_of_rows(t, d).forwarding_enabled
            <==> x == "true"@),
        lookup(t, "forwarding_servers"@) is None ==> config_of_rows(t, d).forwarding_servers == d.forwarding_servers,
        lookup(t, "forwarding_servers"@) matches Some(x) ==> config_of_rows(t, d).forwarding_servers == items(x, ','),
        lookup(t, "use_system_nameservers"@) is None
            ==> config_of_rows(t, d).use_system_nameservers == d.use_system_nameservers,
        lookup(t, "use_system_nameservers"@) matches Some(x) ==> (config_of_rows(t, d).use_system_nameservers
            <==> x == "true"@),
        lookup(t, "dot_enabled"@) is None ==> config_of_rows(t, d).dot_enabled == d.dot_enabled,
        lookup(t, "dot_enabled"@) matches Some(x) ==> (config_of_rows(t, d).dot_enabled <==> x == "true"@),
        lookup(t, "dot_upstream"@) is None ==> config_of_rows(t, d).dot_upstream == d.dot_upstream,
        lookup(t, "dot_upstream"@) matches Some(x) ==> config_of_rows(t, d).dot_upstream == items(x, ','),
        lookup(t, "blocklists_enabled"@) is None ==> config_of_rows(t, d).blocklists_enabled == d.blocklists_enabled,
        lookup(t, "blocklists_enabled"@) matches Some(x) ==> (config_of_rows(t, d).blocklists_enabled
            <==> x == "true"@),
        lookup(t, "blocklist_urls"@) is None ==> config_of_rows(t, d).blocklist_urls == d.blocklist_urls,
        lookup(t, "blocklist_urls"@) matches Some(x) ==> config_of_rows(t, d).blocklist_urls == items(x, '\n'),
        lookup(t, "whitelist"@) is None ==> config_of_rows(t, d).whitelist == d.whitelist,
        lookup(t, "whitelist"@) matches Some(x) ==> config_of_rows(t, d).whitelist == items(x, '\n'),
        lookup(t, "blocklist_action"@) is None ==> config_of_rows(t, d).blocklist_action == d.blocklist_action,
        lookup(t, "blocklist_action"@) matches Some(x) ==> config_of_rows(t, d).blocklist_action == x,
        lookup(t, "blocklist_redirect_ip"@) is None
            ==> config_of_rows(t, d).blocklist_redirect_ip == d.blocklist_redirect_ip,
        lookup(t, "blocklist_redirect_ip"@) matches Some(x)
            ==> config_of_rows(t, d).blocklist_redirect_ip == (if x.len() > 0 { Some(x) } else { None }),
        lookup(t, "custom_options"@) is None ==> config_of_rows(t, d).custom_options == d.custom_options,
        lookup(t, "custom_options"@) matches Some(x) ==> config_of_rows(t, d).custom_options == x,
        lookup(t, "probe_enabled"@) is None ==> config_of_rows(t, d).probe_enabled == d.probe_enabled,
        lookup(t, "probe_enabled"@) matches Some(x) ==> (config_of_rows(t, d).probe_enabled <==> x == "true"@),
{
}

/// The settings of the resolver stand in the view each in its own place.
pub proof fn resolver_settings_are_viewed_in_place(c: ResolverConfig)
    ensures
        c@.backend == c.backend@,
        c@.enabled == c.enabled,
        c@.dhcp_domain == c.dhcp_domain@,
        c@.listen_interfaces == views(c.listen_interfaces@),
        c@.port == c.port,
        c@.dnssec == c.dnssec,
        c@.dns64 == c.dns64,
        c@.dns64_prefix == c.dns64_prefix@,
        c@.register_dhcp == c.register_dhcp,
        c@.local_zone_type == c.local_zone_type@,
        c.outgoing_interface matches Some(x) ==> c@.outgoing_interface == Some(x@),
        c.outgoing_interface is None ==> c@.outgoing_interface is None,
        c@.num_threads == c.num_threads,
        c@.msg_cache_size == c.msg_cache_size@,
        c@.rrset_cache_size == c.rrset_cache_size@,
        c@.cache_max_ttl == c.cache_max_ttl,
        c@.cache_min_ttl == c.cache_min_ttl,
        c@.prefetch == c.prefetch,
        c@.prefetch_key == c.prefetch_key,
        c@.infra_host_ttl == c.infra_host_ttl,
        c@.unwanted_reply_threshold == c.unwanted_reply_threshold,
        c@.log_queries == c.log_queries,
        c@.log_replies == c.log_replies,
        c@.log_verbosity == c.log_verbosity,
        c@.query_timeout_ms == c.query_timeout_ms,
        c@.hide_identity == c.hide_identity,
        c@.hide_version == c.hide_version,
        c@.rebind_protection == c.rebind_protection,
        c@.private_addresses == views(c.private_addresses@),
        c@.forwarding_enabled == c.forwarding_enabled,
        c@.forwarding_servers == views(c.forwarding_servers@),
        c@.use_system_nameservers == c.use_system_nameservers,
        c@.dot_enabled == c.dot_enabled,
        c@.dot_upstream == views(c.dot_upstream@),
        c@.blocklists_enabled == c.blocklists_enabled,
        c@.blocklist_urls == views(c.blocklist_urls@),
        c@.whitelist == views(c.whitelist@),
        c@.blocklist_action == c.blocklist_action@,
        c.blocklist_redirect_ip matches Some(x) ==> c@.blocklist_redirect_ip == Some(x@),
        c.blocklist_redirect_ip is None ==> c@.blocklist_redirect_ip is None,
        c@.custom_options == c.custom_options@,
        c@.probe_enabled == c.probe_enabled,
{
}

} // verus!
