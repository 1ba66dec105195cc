//! The registry of WHOIS servers: which server answers for a top-level
//! domain, and what that server wants written before the target.

use vstd::prelude::*;

verus! {

/// One line of the registry.
#[derive(Clone, Debug, PartialEq, Eq)]
pub struct ServerEntry {
    /// The top-level domain, in lower case and without a dot.
    pub tld: String,
    /// The host name of the WHOIS server for it.
    pub host: String,
    /// What this server wants before the target in a query line.
    pub query_prefix: String,
}

/// A [`ServerEntry`] as character sequences.
pub struct ServerEntryView {
    pub tld: Seq<char>,
    pub host: Seq<char>,
    pub query_prefix: Seq<char>,
}

impl View for ServerEntry {
    type V = ServerEntryView;

    open spec fn view(&self) -> ServerEntryView {
        ServerEntryView { tld: self.tld@, host: self.host@, query_prefix: self.query_prefix@ }
    }
}

/// The views of a sequence of entries, one for one.
pub open spec fn entry_views(entries: Seq<ServerEntry>) -> Seq<ServerEntryView> {
    entries.map_values(|e: ServerEntry| e@)
}

/// The entry that the three texts make.
pub open spec fn entry_of(tld: &str, host: &str, query_prefix: &str) -> ServerEntryView {
    ServerEntryView { tld: tld@, host: host@, query_prefix: query_prefix@ }
}

/// The servers that the library knows, in the order in which they are
/// searched.
pub open spec fn builtin_entries() -> Seq<ServerEntryView> {
    seq![
        entry_of("com", "whois.verisign-grs.com", "domain "),
        entry_of("net", "whois.verisign-grs.com", "domain "),
        entry_of("org", "whois.pir.org", ""),
        entry_of("edu", "whois.educause.edu", ""),
        entry_of("it", "whois.nic.it", ""),
        entry_of("uk", "whois.nic.uk", ""),
        entry_of("ru", "whois.tcinet.ru", ""),
        entry_of("de", "whois.denic.de", "-T dn "),
        entry_of("nl", "whois.domain-registry.nl", ""),
    ]
}

/// No two entries are for the same top-level domain.
pub open spec fn has_unique_tlds(entries: Seq<ServerEntryView>) -> bool {
    forall|i: int, j: int|
        0 <= i < j < entries.len() ==> (#[trigger] entries[i]).tld != (#[trigger] entries[j]).tld
}

/// Whether the entry at `j` names a top-level domain that an earlier entry
/// names already.
pub open spec fn repeats_earlier(entries: Seq<ServerEntryView>, j: int) -> bool {
    exists|i: int| 0 <= i < j && (#[trigger] entries[i]).tld == entries[j].tld
}

/// The first entry for `tld`, by exact match.
pub open spec fn lookup_entry(entries: Seq<ServerEntryView>, tld: Seq<char>) -> Option<
    ServerEntryView,
>
    decreases entries.len(),
{
    if entries.len() == 0 {
        None
    } else if entries.first().tld == tld {
        Some(entries.first())
    } else {
        lookup_entry(entries.drop_first(), tld)
    }
}

fn make_entry(tld: &str, host: &str, query_prefix: &str) -> (e: ServerEntry)
    ensures
        e@ == entry_of(tld, host, query_prefix),
{
    ServerEntry { tld: tld.to_owned(), host: host.to_owned(), query_prefix: query_prefix.to_owned() }
}

/// The built-in table of servers.
pub fn create_whois_servers() -> (servers: Vec<ServerEntry>)
    ensures
        entry_views(servers@) == builtin_entries(),
{
    let mut servers: Vec<ServerEntry> = Vec::new();
    servers.push(make_entry("com", "whois.verisign-grs.com", "domain "));
    servers.push(make_entry("net", "whois.verisign-grs.com", "domain "));
    servers.push(make_entry("org", "whois.pir.org", ""));
    servers.push(make_entry("edu", "whois.educause.edu", ""));
    servers.push(make_entry("it", "whois.nic.it", ""));
    servers.push(make_entry("uk", "whois.nic.uk", ""));
    servers.push(make_entry("ru", "whois.tcinet.ru", ""));
    servers.push(make_entry("de", "whois.denic.de", "-T dn "));
    servers.push(make_entry("nl", "whois.domain-registry.nl", ""));
    servers
}

/// The built-in table names each top-level domain once.
pub proof fn lemma_builtin_unique()
    ensures
        has_unique_tlds(builtin_entries()),
{
    reveal_strlit("com");
    reveal_strlit("net");
    reveal_strlit("org");
    reveal_strlit("edu");
    reveal_strlit("it");
    reveal_strlit("uk");
    reveal_strlit("ru");
    reveal_strlit("de");
    reveal_strlit("nl");
    let e = builtin_entries();
    assert(e[0].tld[0] == 'c' && e[0].tld.len() == 3);
    assert(e[1].tld[0] == 'n' && e[1].tld.len() == 3);
    assert(e[2].tld[0] == 'o' && e[2].tld.len() == 3);
    assert(e[3].tld[0] == 'e' && e[3].tld.len() == 3);
    assert(e[4].tld[0] == 'i' && e[4].tld.len() == 2);
    assert(e[5].tld[0] == 'u' && e[5].tld.len() == 2);
    assert(e[6].tld[0] == 'r' && e[6].tld.len() == 2);
    assert(e[7].tld[0] == 'd' && e[7].tld.len() == 2);
    assert(e[8].tld[0] == 'n' && e[8].tld.len() == 2);
}

/// Why a table of servers is refused.
#[derive(Debug)]
pub enum RegistryError {
    /// The entry at `index` names a top-level domain that an earlier entry
    /// names already; it is the first entry that does.
    DuplicateTld { index: usize },
}

/// A table of servers in which each top-level domain stands once.
pub struct Registry {
    entries: Vec<ServerEntry>,
}

impl View for Registry {
    type V = Seq<ServerEntryView>;

    closed spec fn view(&self) -> Seq<ServerEntryView> {
        entry_views(self.entries@)
    }
}

impl Registry {
    #[verifier::type_invariant]
    spec fn unique(&self) -> bool {
        has_unique_tlds(entry_views(self.entries@))
    }

    /// The registry of the built-in table.
    pub fn builtin() -> (registry: Registry)
        ensures
            registry@ == builtin_entries(),
    {
        let entries = create_whois_servers();
        proof {
            lemma_builtin_unique();
        }
        Registry { entries }
    }

    /// A registry of `entries`, in their order, unless two of them name the
    /// same top-level domain.
    pub fn from_entries(entries: Vec<ServerEntry>) -> (made: Result<Registry, RegistryError>)
        ensures
            match made {
                Ok(registry) => has_unique_tlds(entry_views(entries@)) && registry@ == entry_views(
                    entries@,
                ),
                Err(RegistryError::DuplicateTld { index }) => {
                    &&& index < entries@.len()
                    &&& repeats_earlier(entry_views(entries@), index as int)
                    &&& has_unique_tlds(entry_views(entries@).take(index as int))
                },
            },
    {
        let ghost views = entry_views(entries@);
        let mut j: usize = 0;
        while j < entries.len()
            invariant
                j <= entries.len(),
                views == entry_views(entries@),
                has_unique_tlds(views.take(j as int)),
            decreases entries.len() - j,
        {
            let mut i: usize = 0;
            while i < j
                invariant
                    i <= j < entries.len(),
                    views == entry_views(entries@),
                    has_unique_tlds(views.take(j as int)),
                    forall|k: int| 0 <= k < i ==> (#[trigger] views[k]).tld != views[j as int].tld,
                decreases j - i,
            {
                if entries[i].tld == entries[j].tld {
                    proof {
                        assert(views[i as int].tld == views[j as int].tld);
                    }
                    return Err(RegistryError::DuplicateTld { index: j });
                }
                i += 1;
            }
            j += 1;
        }
        proof {
            assert(views.take(j as int) =~= views);
        }
        Ok(Registry { entries })
    }

    /// The entries, in the order in which they are searched.
    pub fn entries(&self) -> (entries: &Vec<ServerEntry>)
        ensures
            entry_views(entries@) == self@,
            has_unique_tlds(self@),
    {
        proof {
            use_type_invariant(self);
        }
        &self.entries
    }

    /// The entry for `tld`, by exact match; `None` where the registry has
    /// none, which is an ordinary answer.
    pub fn lookup(&self, tld: &str) -> (found: Option<&ServerEntry>)
        ensures
            match found {
                Some(entry) => lookup_entry(self@, tld@) == Some(entry@),
                None => lookup_entry(self@, tld@) is None,
            },
    {
        let key = tld.to_owned();
        let ghost views = self@;
        let mut i: usize = 0;
        proof {
            assert(views.skip(0) =~= views);
        }
        while i < self.entries.len()
            invariant
                i <= self.entries.len(),
                key@ == tld@,
                views == entry_views(self.entries@),
                lookup_entry(views, tld@) == lookup_entry(views.skip(i as int), tld@),
            decreases self.entries.len() - i,
        {
            proof {
                assert(views.skip(i as int).drop_first() =~= views.skip(i + 1));
            }
            if self.entries[i].tld == key {
                return Some(&self.entries[i]);
            }
            i += 1;
        }
        None
    }
}

/// What a lookup finds is an entry of the table for the top-level domain
/// asked for, and no entry before it is for that domain.
pub proof fn lemma_lookup_finds_first(entries: Seq<ServerEntryView>, tld: Seq<char>)
    ensures
        match lookup_entry(entries, tld) {
            Some(entry) => exists|i: int|
                {
                    &&& 0 <= i < entries.len()
                    &&& #[trigger] entries[i] == entry
                    &&& entry.tld == tld
                    &&& forall|k: int| 0 <= k < i ==> (#[trigger] entries[k]).tld != tld
                },
            None => forall|k: int| 0 <= k < entries.len() ==> (#[trigger] entries[k]).tld != tld,
        },
    decreases entries.len(),
{
    if entries.len() > 0 && entries.first().tld != tld {
        let rest = entries.drop_first();
        lemma_lookup_finds_first(rest, tld);
        match lookup_entry(rest, tld) {
            Some(entry) => {
                let i = choose|i: int|
                    {
                        &&& 0 <= i < rest.len()
                        &&& #[trigger] rest[i] == entry
                        &&& entry.tld == tld
                        &&& forall|k: int| 0 <= k < i ==> (#[trigger] rest[k]).tld != tld
                    };
                assert forall|k: int| 0 <= k < i + 1 implies (#[trigger] entries[k]).tld
                    != tld by {
                    if k > 0 {
                        assert(entries[k] == rest[k - 1]);
                    }
                }
            },
            None => {
                assert forall|k: int| 0 <= k < entries.len() implies (#[trigger] entries[k]).tld
                    != tld by {
                    if k > 0 {
                        assert(entries[k] == rest[k - 1]);
                    }
                }
            },
        }
    }
}

/// In a table that names each top-level domain once, a lookup finds the
/// one entry for the domain asked for: every entry for it is the one found.
pub proof fn lemma_lookup_unique(entries: Seq<ServerEntryView>, tld: Seq<char>, k: int)
    requires
        has_unique_tlds(entries),
        0 <= k < entries.len(),
        entries[k].tld == tld,
    ensures
        lookup_entry(entries, tld) == Some(entries[k]),
{
    lemma_lookup_finds_first(entries, tld);
}

} // verus!
