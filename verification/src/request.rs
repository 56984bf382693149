use vstd::prelude::*;

use crate::routing::Config;
use crate::routing::Host;
use crate::routing::dest_or_fallback;
use crate::routing::dest_table;
use crate::routing::fallback_destination;
use crate::routing::fallback_destination_spec;
use crate::routing::lemma_duplicate_host_last_wins;

verus! {

/// The hostname a request carries, if any: the view of its `Host` header.
pub open spec fn host_view(host: Option<String>) -> Option<Seq<char>> {
    match host {
        Option::Some(h) => Option::Some(h@),
        Option::None => Option::None,
    }
}

/// The destination a request resolves to: the configured one for its
/// hostname, the fallback destination when the hostname is absent or not
/// configured.
pub open spec fn resolve(table: Map<Seq<char>, Seq<char>>, host: Option<Seq<char>>) -> Seq<char> {
    match host {
        Option::Some(h) => dest_or_fallback(table, h),
        Option::None => fallback_destination_spec(),
    }
}

/// The rewritten target of a request: its resolved destination followed by
/// the original path and query, unchanged.
pub open spec fn rewritten_target(
    table: Map<Seq<char>, Seq<char>>,
    host: Option<Seq<char>>,
    path_and_query: Seq<char>,
) -> Seq<char> {
    resolve(table, host) + path_and_query
}

/// Everything one inbound request needs while it is being routed: the `Host`
/// header as received (compared case-sensitively, no normalization), the
/// original path and query, the resolved destination, and the rewritten
/// target the request is forwarded to. Created per request, discarded after
/// the response.
pub struct RequestContext {
    pub host: Option<String>,
    pub path_and_query: String,
    pub destination: String,
    pub target: String,
}

/// Routes one request: resolves the `Host` header against the table and
/// rewrites the target so the request addresses the resolved destination. A
/// missing hostname is a normal case and resolves to the fallback
/// destination, never an error.
pub fn route(config: &Config, host: Option<String>, path_and_query: String) -> (r: RequestContext)
    ensures
        r.host == host,
        r.path_and_query == path_and_query,
        r.destination@ == resolve(config.dest_view(), host_view(host)),
        r.target@ == rewritten_target(config.dest_view(), host_view(host), path_and_query@),
{
    let destination = match &host {
        Option::Some(h) => config.lookup(h),
        Option::None => fallback_destination(),
    };
    let target = destination.clone().concat(path_and_query.as_str());
    RequestContext { host, path_and_query, destination, target }
}

// ---------------------------------------------------------------------------
// Routing laws.
// ---------------------------------------------------------------------------

/// Law: a request whose hostname is configured is forwarded to the configured
/// destination, with the original path and query unchanged behind it.
pub proof fn lemma_configured_host_forwarded(
    table: Map<Seq<char>, Seq<char>>,
    hostname: Seq<char>,
    path_and_query: Seq<char>,
)
    requires
        table.contains_key(hostname),
    ensures
        resolve(table, Option::Some(hostname)) == table[hostname],
        rewritten_target(table, Option::Some(hostname), path_and_query) == table[hostname]
            + path_and_query,
{
}

/// Law: the routing table does what the configuration says. For every
/// configured entry that is the last one carrying its hostname, a request
/// with that hostname, routed against the table the configuration builds, is
/// forwarded to that entry's destination with the path and query unchanged.
pub proof fn lemma_config_entry_routes_requests(hosts: Seq<Host>, j: int, path_and_query: Seq<char>)
    requires
        0 <= j < hosts.len(),
        forall|k: int| j < k < hosts.len() ==> (#[trigger] hosts[k]).host@ != hosts[j].host@,
    ensures
        resolve(dest_table(hosts), Option::Some(hosts[j].host@)) == hosts[j].destination@,
        rewritten_target(dest_table(hosts), Option::Some(hosts[j].host@), path_and_query)
            == hosts[j].destination@ + path_and_query,
{
    lemma_duplicate_host_last_wins(hosts, j, j);
}

/// Law: a request whose hostname is absent or not configured resolves to the
/// fallback destination, with the original path and query unchanged behind
/// it.
pub proof fn lemma_unmatched_host_falls_back(
    table: Map<Seq<char>, Seq<char>>,
    host: Option<Seq<char>>,
    path_and_query: Seq<char>,
)
    requires
        host is Some ==> !table.contains_key(host->0),
    ensures
        resolve(table, host) == fallback_destination_spec(),
        rewritten_target(table, host, path_and_query) == fallback_destination_spec()
            + path_and_query,
{
}

/// Law: routing is a pure lookup. Two resolutions of the same hostname
/// against the same table give the same destination, however often and in
/// whatever order they run; the table itself never changes.
pub proof fn lemma_lookup_repeatable(
    table: Map<Seq<char>, Seq<char>>,
    host: Option<Seq<char>>,
    first: Seq<char>,
    second: Seq<char>,
)
    requires
        first == resolve(table, host),
        second == resolve(table, host),
    ensures
        first == second,
{
}

} // verus!
