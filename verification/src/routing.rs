use vstd::prelude::*;

verus! {

// ---------------------------------------------------------------------------
// Association sequences as maps.
//
// The routing table keeps its entries in configuration order; the map it
// denotes is the one where, of several entries sharing a key, the last wins.
// ---------------------------------------------------------------------------

/// The map denoted by a sequence of key/value entries, later entries
/// overwriting earlier ones.
pub open spec fn assoc_map<V>(entries: Seq<(Seq<char>, V)>) -> Map<Seq<char>, V>
    decreases entries.len(),
{
    if entries.len() == 0 {
        Map::empty()
    } else {
        assoc_map(entries.drop_last()).insert(entries.last().0, entries.last().1)
    }
}

/// A key that no entry carries is absent from the denoted map.
pub proof fn lemma_assoc_map_absent<V>(entries: Seq<(Seq<char>, V)>, key: Seq<char>)
    requires
        forall|j: int| 0 <= j < entries.len() ==> (#[trigger] entries[j]).0 != key,
    ensures
        !assoc_map(entries).contains_key(key),
    decreases entries.len(),
{
    if entries.len() > 0 {
        lemma_assoc_map_absent(entries.drop_last(), key);
    }
}

/// The denoted map carries, for each present key, the value of the last entry
/// with that key.
pub proof fn lemma_assoc_map_last_match<V>(entries: Seq<(Seq<char>, V)>, i: int, key: Seq<char>)
    requires
        0 <= i < entries.len(),
        entries[i].0 == key,
        forall|j: int| i < j < entries.len() ==> (#[trigger] entries[j]).0 != key,
    ensures
        assoc_map(entries).contains_key(key),
        assoc_map(entries)[key] == entries[i].1,
    decreases entries.len(),
{
    if i < entries.len() - 1 {
        lemma_assoc_map_last_match(entries.drop_last(), i, key);
    }
}

// ---------------------------------------------------------------------------
// Configuration records.
// ---------------------------------------------------------------------------

/// TLS key-material paths configured for one host. Present in the
/// configuration but not wired into termination: one shared certificate
/// serves every connection.
pub struct Tls {
    pub public: String,
    pub private: String,
}

/// One configured route: a hostname, the destination it forwards to
/// (scheme and authority, no trailing path), and optional TLS material.
pub struct Host {
    pub host: String,
    pub destination: String,
    pub tls: Option<Tls>,
}

/// The routing table: hostname to destination, plus the per-host TLS
/// material, both read-only once built. Entries stay in configuration
/// order; of two entries with the same hostname, the later one wins.
pub struct Config {
    pub dest_map: Vec<(String, String)>,
    pub tls_map: Vec<(String, Option<Tls>)>,
}

/// The hostname-to-destination map denoted by a sequence of configured hosts,
/// later entries overwriting earlier ones.
pub open spec fn dest_table(hosts: Seq<Host>) -> Map<Seq<char>, Seq<char>> {
    assoc_map(hosts.map_values(|h: Host| (h.host@, h.destination@)))
}

/// The hostname-to-TLS-material map denoted by a sequence of configured
/// hosts, later entries overwriting earlier ones.
pub open spec fn tls_table(hosts: Seq<Host>) -> Map<Seq<char>, Option<Tls>> {
    assoc_map(hosts.map_values(|h: Host| (h.host@, h.tls)))
}

/// The fixed destination used whenever a hostname has no configured route:
/// the fallback service's loopback address.
pub open spec fn fallback_destination_spec() -> Seq<char> {
    "http://127.0.0.1:41050"@
}

/// The destination a hostname resolves to: its configured one if present,
/// the fallback destination otherwise. Absence is a normal case, never an
/// error.
pub open spec fn dest_or_fallback(table: Map<Seq<char>, Seq<char>>, hostname: Seq<char>) -> Seq<
    char,
> {
    if table.contains_key(hostname) {
        table[hostname]
    } else {
        fallback_destination_spec()
    }
}

/// The fixed fallback destination as a value.
pub fn fallback_destination() -> (r: String)
    ensures
        r@ == fallback_destination_spec(),
{
    "http://127.0.0.1:41050".to_owned()
}

fn clone_tls_entry(t: &Option<Tls>) -> (r: Option<Tls>)
    ensures
        r == *t,
{
    match t {
        Option::None => Option::None,
        Option::Some(tl) => Option::Some(
            Tls { public: tl.public.clone(), private: tl.private.clone() },
        ),
    }
}

impl Config {
    /// The stored destination entries, as mathematical key/value pairs.
    pub open spec fn dest_entries(&self) -> Seq<(Seq<char>, Seq<char>)> {
        self.dest_map@.map_values(|p: (String, String)| (p.0@, p.1@))
    }

    /// The hostname-to-destination map this table denotes.
    pub open spec fn dest_view(&self) -> Map<Seq<char>, Seq<char>> {
        assoc_map(self.dest_entries())
    }

    /// The stored TLS-material entries, as mathematical key/value pairs.
    pub open spec fn tls_entries(&self) -> Seq<(Seq<char>, Option<Tls>)> {
        self.tls_map@.map_values(|p: (String, Option<Tls>)| (p.0@, p.1))
    }

    /// The hostname-to-TLS-material map this table denotes.
    pub open spec fn tls_view(&self) -> Map<Seq<char>, Option<Tls>> {
        assoc_map(self.tls_entries())
    }

    /// Builds the routing table from the configured hosts. Of duplicate
    /// hostnames, the last entry wins.
    pub fn to_map(hosts: Vec<Host>) -> (r: Config)
        ensures
            r.dest_view() == dest_table(hosts@),
            r.tls_view() == tls_table(hosts@),
    {
        let mut dest_map: Vec<(String, String)> = Vec::new();
        let mut tls_map: Vec<(String, Option<Tls>)> = Vec::new();
        let mut i: usize = 0;
        while i < hosts.len()
            invariant
                i <= hosts.len(),
                dest_map@.len() == i,
                tls_map@.len() == i,
                forall|j: int|
                    0 <= j < i ==> #[trigger] dest_map@[j] == (
                    hosts@[j].host,
                    hosts@[j].destination,
                ),
                forall|j: int|
                    0 <= j < i ==> #[trigger] tls_map@[j] == (hosts@[j].host, hosts@[j].tls),
            decreases hosts.len() - i,
        {
            let h = &hosts[i];
            dest_map.push((h.host.clone(), h.destination.clone()));
            tls_map.push((h.host.clone(), clone_tls_entry(&h.tls)));
            i = i + 1;
        }
        let r = Config { dest_map, tls_map };
        proof {
            assert(r.dest_entries() =~= hosts@.map_values(|h: Host| (h.host@, h.destination@)));
            assert(r.tls_entries() =~= hosts@.map_values(|h: Host| (h.host@, h.tls)));
        }
        r
    }

    /// The destination configured for `hostname`, or the fallback destination
    /// if there is none. Never fails; reads the table without changing it.
    pub fn lookup(&self, hostname: &String) -> (r: String)
        ensures
            r@ == dest_or_fallback(self.dest_view(), hostname@),
    {
        let mut i: usize = self.dest_map.len();
        while i > 0
            invariant
                i <= self.dest_map@.len(),
                forall|j: int|
                    i <= j < self.dest_map@.len() ==> (#[trigger] self.dest_entries()[j]).0
                        != hostname@,
            decreases i,
        {
            i = i - 1;
            let entry = &self.dest_map[i];
            if entry.0 == *hostname {
                proof {
                    lemma_assoc_map_last_match(self.dest_entries(), i as int, hostname@);
                }
                return entry.1.clone();
            }
        }
        proof {
            lemma_assoc_map_absent(self.dest_entries(), hostname@);
        }
        fallback_destination()
    }

    /// A single example route, used to bootstrap a configuration when none
    /// exists yet.
    pub fn default_host() -> (r: Host)
        ensures
            r.host@ == "emby.citrusfire.co.uk"@,
            r.destination@ == "192.168.68.100:8096"@,
            r.tls is Some,
            (r.tls->0).public@ == "./public.pem"@,
            (r.tls->0).private@ == "./private.pem"@,
    {
        Host {
            host: "emby.citrusfire.co.uk".to_owned(),
            destination: "192.168.68.100:8096".to_owned(),
            tls: Option::Some(
                Tls { public: "./public.pem".to_owned(), private: "./private.pem".to_owned() },
            ),
        }
    }

    /// A routing table holding only the example route. Persisting that route
    /// to the configuration source is the caller's business: a failure to
    /// write it is reported there and does not invalidate this table.
    pub fn create() -> (r: Config)
        ensures
            r.dest_view() == Map::<Seq<char>, Seq<char>>::empty().insert(
                "emby.citrusfire.co.uk"@,
                "192.168.68.100:8096"@,
            ),
            r.tls_view().contains_key("emby.citrusfire.co.uk"@),
            r.tls_view()["emby.citrusfire.co.uk"@] is Some,
            (r.tls_view()["emby.citrusfire.co.uk"@]->0).public@ == "./public.pem"@,
            (r.tls_view()["emby.citrusfire.co.uk"@]->0).private@ == "./private.pem"@,
    {
        let h = Self::default_host();
        let hosts = vec![h];
        let r = Self::to_map(hosts);
        proof {
            let entries = hosts@.map_values(|h: Host| (h.host@, h.destination@));
            assert(entries.drop_last() =~= Seq::<(Seq<char>, Seq<char>)>::empty());
            assert(assoc_map(entries.drop_last()) == Map::<Seq<char>, Seq<char>>::empty());
            let tls_entries = hosts@.map_values(|h: Host| (h.host@, h.tls));
            assert(tls_entries.drop_last() =~= Seq::<(Seq<char>, Option<Tls>)>::empty());
            assert(assoc_map(tls_entries.drop_last()) == Map::<Seq<char>, Option<Tls>>::empty());
        }
        r
    }
}

/// Law: duplicate hostnames in the configuration are resolved
/// deterministically, the last entry winning. When entry `j` is the last one
/// carrying its hostname, the table built from the sequence maps that
/// hostname to entry `j`'s destination — whatever any earlier entry, such as
/// `i`, configured for it.
pub proof fn lemma_duplicate_host_last_wins(hosts: Seq<Host>, i: int, j: int)
    requires
        0 <= i <= j < hosts.len(),
        hosts[i].host@ == hosts[j].host@,
        forall|k: int| j < k < hosts.len() ==> (#[trigger] hosts[k]).host@ != hosts[j].host@,
    ensures
        dest_table(hosts).contains_key(hosts[j].host@),
        dest_table(hosts)[hosts[j].host@] == hosts[j].destination@,
{
    let entries = hosts.map_values(|h: Host| (h.host@, h.destination@));
    lemma_assoc_map_last_match(entries, j, hosts[j].host@);
}

} // verus!
