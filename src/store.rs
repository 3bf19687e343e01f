//! The credential table: for each virtual host, the one user name and
//! password that it accepts.
//!
//! The table is built once from configuration and only read afterwards. Where
//! configuration names a host twice, the entry loaded last wins.

use vstd::prelude::*;

verus! {

/// One record of configuration, with the fields it may lack.
#[derive(Debug, Clone)]
pub struct ConfigEntry {
    pub host: Option<String>,
    pub username: Option<String>,
    pub password: Option<String>,
}

/// A configuration record with a missing field: `entry` is its position.
#[derive(Debug, Clone, Copy, PartialEq, Eq, Structural)]
pub struct ConfigError {
    pub entry: usize,
}

/// A host with the user name and password that it accepts.
#[derive(Debug, Clone)]
pub struct CredentialEntry {
    pub host: String,
    pub username: String,
    pub password: String,
}

/// The credential table.
#[derive(Debug, Clone)]
pub struct CredentialStore {
    entries: Vec<CredentialEntry>,
}

pub open spec fn is_complete(entry: ConfigEntry) -> bool {
    entry.host is Some && entry.username is Some && entry.password is Some
}

/// A complete configuration record as host, user name and password.
pub open spec fn config_triple(entry: ConfigEntry) -> (Seq<char>, Seq<char>, Seq<char>) {
    (entry.host->0@, entry.username->0@, entry.password->0@)
}

pub open spec fn entry_triple(entry: CredentialEntry) -> (Seq<char>, Seq<char>, Seq<char>) {
    (entry.host@, entry.username@, entry.password@)
}

/// The table that records give when loaded in order: each host maps to the user
/// name and password of its last record.
pub open spec fn credential_map(records: Seq<(Seq<char>, Seq<char>, Seq<char>)>) -> Map<
    Seq<char>,
    (Seq<char>, Seq<char>),
>
    decreases records.len(),
{
    if records.len() == 0 {
        Map::empty()
    } else {
        let last = records.last();
        credential_map(records.drop_last()).insert(last.0, (last.1, last.2))
    }
}

/// A host is in the table as its last record states it, or absent where no
/// record names it.
pub proof fn lemma_credential_map_lookup(
    records: Seq<(Seq<char>, Seq<char>, Seq<char>)>,
    host: Seq<char>,
    i: int,
)
    requires
        -1 <= i < records.len(),
        i >= 0 ==> records[i].0 == host,
        forall|j: int| i < j < records.len() ==> #[trigger] records[j].0 != host,
    ensures
        i >= 0 ==> credential_map(records).contains_key(host) && credential_map(records)[host] == (
        records[i].1, records[i].2),
        i < 0 ==> !credential_map(records).contains_key(host),
    decreases records.len(),
{
    if records.len() > 0 {
        let init = records.drop_last();
        if i == records.len() - 1 {
        } else {
            assert(records[records.len() - 1].0 != host);
            assert forall|j: int| i < j < init.len() implies #[trigger] init[j].0 != host by {
                assert(init[j] == records[j]);
            }
            lemma_credential_map_lookup(init, host, i);
        }
    }
}

impl View for CredentialStore {
    type V = Map<Seq<char>, (Seq<char>, Seq<char>)>;

    closed spec fn view(&self) -> Map<Seq<char>, (Seq<char>, Seq<char>)> {
        credential_map(self.entries@.map_values(|e: CredentialEntry| entry_triple(e)))
    }
}

impl CredentialStore {
    /// Builds the table from configuration records, in order. Fails on the
    /// first record that lacks its host, user name or password.
    pub fn load(records: &Vec<ConfigEntry>) -> (r: Result<CredentialStore, ConfigError>)
        ensures
            r is Err <==> exists|i: int|
                0 <= i < records@.len() && !is_complete(#[trigger] records@[i]),
            r matches Err(e) ==> e.entry < records@.len() && !is_complete(records@[e.entry as int])
                && forall|j: int| 0 <= j < e.entry ==> is_complete(#[trigger] records@[j]),
            r matches Ok(store) ==> store@ == credential_map(
                records@.map_values(|e: ConfigEntry| config_triple(e)),
            ),
    {
        let mut entries: Vec<CredentialEntry> = Vec::new();
        let mut i: usize = 0;
        while i < records.len()
            invariant
                i <= records@.len(),
                entries@.len() == i,
                forall|j: int| 0 <= j < i ==> is_complete(#[trigger] records@[j]),
                forall|j: int|
                    0 <= j < i ==> entry_triple(#[trigger] entries@[j]) == config_triple(
                        records@[j],
                    ),
            decreases records@.len() - i,
        {
            let record = &records[i];
            match (&record.host, &record.username, &record.password) {
                (Some(host), Some(username), Some(password)) => {
                    entries.push(
                        CredentialEntry {
                            host: host.clone(),
                            username: username.clone(),
                            password: password.clone(),
                        },
                    );
                },
                _ => {
                    return Err(ConfigError { entry: i });
                },
            }
            i = i + 1;
        }
        let store = CredentialStore { entries };
        proof {
            assert(store.entries@.map_values(|e: CredentialEntry| entry_triple(e))
                =~= records@.map_values(|e: ConfigEntry| config_triple(e)));
        }
        Ok(store)
    }

    /// The user name and password that `host` accepts, matched exactly and
    /// case-sensitively.
    pub fn lookup(&self, host: &str) -> (r: Option<(String, String)>)
        ensures
            r is Some <==> self@.contains_key(host@),
            r matches Some(creds) ==> self@[host@] == (creds.0@, creds.1@),
    {
        let ghost records = self.entries@.map_values(|e: CredentialEntry| entry_triple(e));
        let key = host.to_owned();
        let mut i: usize = self.entries.len();
        while i > 0
            invariant
                i <= self.entries@.len(),
                records == self.entries@.map_values(|e: CredentialEntry| entry_triple(e)),
                key@ == host@,
                forall|j: int| i <= j < records.len() ==> #[trigger] records[j].0 != host@,
            decreases i,
        {
            i = i - 1;
            let entry = &self.entries[i];
            if entry.host == key {
                proof {
                    lemma_credential_map_lookup(records, host@, i as int);
                }
                return Some((entry.username.clone(), entry.password.clone()));
            }
        }
        proof {
            lemma_credential_map_lookup(records, host@, -1);
        }
        None
    }
}

} // verus!
