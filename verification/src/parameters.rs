//! Parameters of the engine's server and data stores: a set of string
//! settings, each value stored under a key.

use vstd::prelude::*;

use crate::error::Error;
use crate::graph::{has_nul, lemma_nul_free, nul_free};
use crate::text::{str_eq, string_of_str};

verus! {

/// Which facts a query sees: the asserted ones, the inferred ones, or all.
#[derive(Debug, Clone, Copy, PartialEq, Eq, Structural)]
pub enum FactDomain {
    ASSERTED,
    INFERRED,
    ALL,
}

/// How the engine persists data stores and roles.
#[derive(Debug, Clone, Copy, PartialEq, Eq, Structural)]
pub enum PersistenceMode {
    File,
    FileSequence,
    Off,
}

/// The setting value for a persistence mode.
pub open spec fn persistence_mode_text(mode: PersistenceMode) -> Seq<char> {
    match mode {
        PersistenceMode::File => "file"@,
        PersistenceMode::FileSequence => "file-sequence"@,
        PersistenceMode::Off => "off"@,
    }
}

/// The setting value for a fact domain.
pub open spec fn fact_domain_text(fact_domain: FactDomain) -> Seq<char> {
    match fact_domain {
        FactDomain::ASSERTED => "explicit"@,
        FactDomain::INFERRED => "derived"@,
        FactDomain::ALL => "all"@,
    }
}

impl PersistenceMode {
    /// The setting value for the mode: `file`, `file-sequence` or `off`.
    pub fn to_string(&self) -> (r: &'static str)
        ensures
            r@ == persistence_mode_text(*self),
            !has_nul(r@),
    {
        proof {
            assert(nul_free("file"@)) by {
                reveal_strlit("file");
                reveal_with_fuel(nul_free, 5);
            }
            lemma_nul_free("file"@);
            assert(nul_free("file-sequence"@)) by {
                reveal_strlit("file-sequence");
                reveal_with_fuel(nul_free, 14);
            }
            lemma_nul_free("file-sequence"@);
            assert(nul_free("off"@)) by {
                reveal_strlit("off");
                reveal_with_fuel(nul_free, 4);
            }
            lemma_nul_free("off"@);
        }
        match self {
            PersistenceMode::File => "file",
            PersistenceMode::FileSequence => "file-sequence",
            PersistenceMode::Off => "off",
        }
    }
}

/// The settings that a list of key and value pairs holds, a later pair
/// for a key taking the place of an earlier one.
pub open spec fn settings_of(entries: Seq<(String, String)>) -> Map<Seq<char>, Seq<char>>
    decreases entries.len(),
{
    if entries.len() == 0 {
        Map::empty()
    } else {
        settings_of(entries.drop_last()).insert(entries.last().0@, entries.last().1@)
    }
}

/// Whether no key occurs twice in a list of key and value pairs.
pub open spec fn keys_unique(entries: Seq<(String, String)>) -> bool {
    forall|i: int, j: int|
        0 <= i < entries.len() && 0 <= j < entries.len() && i != j ==> entries[i].0@ != entries[j].0@
}

/// Parameters: string values stored under string keys.
#[derive(Debug)]
pub struct Parameters {
    entries: Vec<(String, String)>,
}

impl View for Parameters {
    type V = Map<Seq<char>, Seq<char>>;

    closed spec fn view(&self) -> Map<Seq<char>, Seq<char>> {
        settings_of(self.entries@)
    }
}

proof fn lemma_settings_domain(entries: Seq<(String, String)>)
    ensures
        forall|k: Seq<char>| #[trigger] settings_of(entries).dom().contains(k) <==> exists|i: int|
            0 <= i < entries.len() && entries[i].0@ == k,
    decreases entries.len(),
{
    if entries.len() > 0 {
        let prefix = entries.drop_last();
        lemma_settings_domain(prefix);
        assert forall|k: Seq<char>| #[trigger] settings_of(entries).dom().contains(k) <==> exists|i: int|
            0 <= i < entries.len() && entries[i].0@ == k by {
            if settings_of(entries).dom().contains(k) {
                if k == entries.last().0@ {
                    assert(entries[entries.len() - 1].0@ == k);
                } else {
                    assert(settings_of(prefix).dom().contains(k));
                    let i = choose|i: int| 0 <= i < prefix.len() && prefix[i].0@ == k;
                    assert(entries[i].0@ == k);
                }
            }
            if exists|i: int| 0 <= i < entries.len() && entries[i].0@ == k {
                let i = choose|i: int| 0 <= i < entries.len() && entries[i].0@ == k;
                if i < entries.len() - 1 {
                    assert(prefix[i].0@ == k);
                    assert(settings_of(prefix).dom().contains(k));
                }
            }
        }
    }
}

proof fn lemma_settings_lookup(entries: Seq<(String, String)>, i: int)
    requires
        keys_unique(entries),
        0 <= i < entries.len(),
    ensures
        settings_of(entries).dom().contains(entries[i].0@),
        settings_of(entries)[entries[i].0@] == entries[i].1@,
    decreases entries.len(),
{
    if i < entries.len() - 1 {
        assert(keys_unique(entries.drop_last()));
        lemma_settings_lookup(entries.drop_last(), i);
        assert(entries.drop_last()[i] == entries[i]);
        assert(entries.last().0@ != entries[i].0@);
    }
}

proof fn lemma_settings_update(entries: Seq<(String, String)>, i: int, key: String, value: String)
    requires
        keys_unique(entries),
        0 <= i < entries.len(),
        entries[i].0@ == key@,
    ensures
        settings_of(entries.update(i, (key, value))) == settings_of(entries).insert(key@, value@),
        keys_unique(entries.update(i, (key, value))),
    decreases entries.len(),
{
    let updated = entries.update(i, (key, value));
    if i == entries.len() - 1 {
        assert(updated.drop_last() =~= entries.drop_last());
        lemma_settings_domain(entries.drop_last());
        assert(settings_of(entries.drop_last()).insert(key@, value@) =~= settings_of(entries).insert(
            key@,
            value@,
        ));
    } else {
        assert(keys_unique(entries.drop_last()));
        lemma_settings_update(entries.drop_last(), i, key, value);
        assert(updated.drop_last() =~= entries.drop_last().update(i, (key, value)));
        assert(entries.last().0@ != key@);
        assert(settings_of(updated) =~= settings_of(entries).insert(key@, value@));
    }
}

impl Clone for Parameters {
    fn clone(&self) -> (r: Self)
        ensures
            r@ == self@,
            r.listed() == self.listed(),
    {
        proof {
            use_type_invariant(self);
        }
        let mut entries: Vec<(String, String)> = Vec::new();
        let mut i: usize = 0;
        while i < self.entries.len()
            invariant
                i <= self.entries@.len(),
                keys_unique(self.entries@),
                entries@ == self.entries@.subrange(0, i as int),
            decreases self.entries@.len() - i,
        {
            let key = self.entries[i].0.clone();
            let value = self.entries[i].1.clone();
            entries.push((key, value));
            i = i + 1;
            assert(entries@ =~= self.entries@.subrange(0, i as int));
        }
        assert(self.entries@.subrange(0, self.entries@.len() as int) =~= self.entries@);
        Parameters { entries }
    }
}

impl Parameters {
    /// The settings as key and value pairs, in the order in which their
    /// keys were first set.
    pub closed spec fn listed(&self) -> Seq<(String, String)> {
        self.entries@
    }

    #[verifier::type_invariant]
    closed spec fn keys_are_unique(self) -> bool {
        keys_unique(self.entries@)
    }

    /// Parameters with no settings.
    pub fn empty() -> (r: Result<Parameters, Error>)
        ensures
            r matches Ok(p) && p@ == Map::<Seq<char>, Seq<char>>::empty(),
    {
        Ok(Parameters { entries: Vec::new() })
    }

    /// The position of the pair whose key is `key`, if there is one.
    fn position_of(&self, key: &str) -> (r: Option<usize>)
        ensures
            match r {
                Some(i) => i < self.entries@.len() && self.entries@[i as int].0@ == key@,
                None => forall|j: int| 0 <= j < self.entries@.len() ==> self.entries@[j].0@ != key@,
            },
    {
        let mut i: usize = 0;
        while i < self.entries.len()
            invariant
                i <= self.entries@.len(),
                forall|j: int| 0 <= j < i ==> self.entries@[j].0@ != key@,
            decreases self.entries@.len() - i,
        {
            if str_eq(self.entries[i].0.as_str(), key) {
                return Some(i);
            }
            i = i + 1;
        }
        None
    }

    /// Stores `value` under `key`, in place of any value stored there. The
    /// engine takes neither with a nul character in it.
    pub fn set_string(&mut self, key: &str, value: &str) -> (r: Result<(), Error>)
        requires
            !has_nul(key@),
            !has_nul(value@),
        ensures
            r is Ok,
            final(self)@ == old(self)@.insert(key@, value@),
            !old(self)@.dom().contains(key@) ==> {
                let after = final(self).listed();
                &&& after.len() == old(self).listed().len() + 1
                &&& after.drop_last() == old(self).listed()
                &&& after.last().0@ == key@
                &&& after.last().1@ == value@
            },
            old(self)@.dom().contains(key@) ==> {
                let before = old(self).listed();
                let after = final(self).listed();
                &&& after.len() == before.len()
                &&& exists|i: int|
                    0 <= i < before.len() && before[i].0@ == key@ && after[i].0@ == key@
                        && after[i].1@ == value@ && forall|j: int|
                        0 <= j < before.len() && j != i ==> #[trigger] after[j] == before[j]
            },
    {
        proof {
            use_type_invariant(&*self);
            lemma_settings_domain(self.entries@);
        }
        let ghost before = self.entries@;
        let k = string_of_str(key);
        let v = string_of_str(value);
        let position = self.position_of(key);
        let mut entries: Vec<(String, String)> = Vec::new();
        std::mem::swap(&mut entries, &mut self.entries);
        match position {
            Some(i) => {
                proof {
                    lemma_settings_update(before, i as int, k, v);
                }
                entries.set(i, (k, v));
                assert(entries@ == before.update(i as int, (k, v)));
            },
            None => {
                entries.push((k, v));
                proof {
                    assert(entries@.drop_last() =~= before);
                }
            },
        }
        self.entries = entries;
        proof {
            if let Some(i) = position {
                let ii = i as int;
                assert(self.entries@ == before.update(ii, (k, v)));
                assert(forall|j: int|
                    0 <= j < before.len() && j != ii ==> #[trigger] self.entries@[j] == before[j]);
                assert(before == old(self).listed());
                assert(0 <= ii < old(self).listed().len() && old(self).listed()[ii].0@ == key@
                    && self.listed()[ii].0@ == key@ && self.listed()[ii].1@ == value@ && forall|j: int|
                    0 <= j < old(self).listed().len() && j != ii ==> #[trigger] self.listed()[j]
                        == old(self).listed()[j]);
            } else {
                assert(!old(self)@.dom().contains(key@));
            }
        }
        Ok(())
    }

    /// The value stored under `key`, or `default` where none is. The
    /// engine takes neither with a nul character in it.
    pub fn get_string(&self, key: &str, default: &str) -> (r: Result<String, Error>)
        requires
            !has_nul(key@),
            !has_nul(default@),
        ensures
            self@.dom().contains(key@) ==> (r matches Ok(s) && s@ == self@[key@]),
            !self@.dom().contains(key@) ==> (r matches Ok(s) && s@ == default@),
    {
        proof {
            use_type_invariant(self);
            lemma_settings_domain(self.entries@);
        }
        match self.position_of(key) {
            Some(i) => {
                proof {
                    lemma_settings_lookup(self.entries@, i as int);
                }
                Ok(self.entries[i].1.clone())
            },
            None => Ok(string_of_str(default)),
        }
    }

    /// Sets `fact-domain`: `explicit`, `derived` or `all`.
    pub fn fact_domain(self, fact_domain: FactDomain) -> (r: Result<Parameters, Error>)
        ensures
            r matches Ok(p) && p@ == self@.insert("fact-domain"@, fact_domain_text(fact_domain)),
    {
        proof {
            assert(nul_free("fact-domain"@)) by {
                reveal_strlit("fact-domain");
                reveal_with_fuel(nul_free, 12);
            }
            lemma_nul_free("fact-domain"@);
            assert(nul_free("explicit"@)) by {
                reveal_strlit("explicit");
                reveal_with_fuel(nul_free, 9);
            }
            lemma_nul_free("explicit"@);
            assert(nul_free("derived"@)) by {
                reveal_strlit("derived");
                reveal_with_fuel(nul_free, 8);
            }
            lemma_nul_free("derived"@);
            assert(nul_free("all"@)) by {
                reveal_strlit("all");
                reveal_with_fuel(nul_free, 4);
            }
            lemma_nul_free("all"@);
        }
        let mut p = self;
        match fact_domain {
            FactDomain::ASSERTED => p.set_string("fact-domain", "explicit")?,
            FactDomain::INFERRED => p.set_string("fact-domain", "derived")?,
            FactDomain::ALL => p.set_string("fact-domain", "all")?,
        };
        Ok(p)
    }

    /// Sets `sandbox-directory` to the empty text, which lets the engine
    /// read and write files anywhere.
    pub fn switch_off_file_access_sandboxing(self) -> (r: Result<Parameters, Error>)
        ensures
            r matches Ok(p) && p@ == self@.insert("sandbox-directory"@, ""@),
    {
        proof {
            assert(nul_free("sandbox-directory"@)) by {
                reveal_strlit("sandbox-directory");
                reveal_with_fuel(nul_free, 18);
            }
            lemma_nul_free("sandbox-directory"@);
            assert(nul_free(""@)) by {
                reveal_strlit("");
                reveal_with_fuel(nul_free, 1);
            }
            lemma_nul_free(""@);
        }
        let mut p = self;
        p.set_string("sandbox-directory", "")?;
        Ok(p)
    }

    /// Sets `persist-ds` to the mode.
    pub fn persist_datastore(self, mode: PersistenceMode) -> (r: Result<Parameters, Error>)
        ensures
            r matches Ok(p) && p@ == self@.insert("persist-ds"@, persistence_mode_text(mode)),
    {
        proof {
            assert(nul_free("persist-ds"@)) by {
                reveal_strlit("persist-ds");
                reveal_with_fuel(nul_free, 11);
            }
            lemma_nul_free("persist-ds"@);
        }
        let mut p = self;
        p.set_string("persist-ds", mode.to_string())?;
        Ok(p)
    }

    /// Sets `persist-roles` to the mode.
    pub fn persist_roles(self, mode: PersistenceMode) -> (r: Result<Parameters, Error>)
        ensures
            r matches Ok(p) && p@ == self@.insert("persist-roles"@, persistence_mode_text(mode)),
    {
        proof {
            assert(nul_free("persist-roles"@)) by {
                reveal_strlit("persist-roles");
                reveal_with_fuel(nul_free, 14);
            }
            lemma_nul_free("persist-roles"@);
        }
        let mut p = self;
        p.set_string("persist-roles", mode.to_string())?;
        Ok(p)
    }

    /// Sets `server-directory` to `dir`, which is to name a directory
    /// (`dir_is_directory`).
    pub fn server_directory(self, dir: &str, dir_is_directory: bool) -> (r: Result<Parameters, Error>)
        requires
            dir_is_directory,
            !has_nul(dir@),
        ensures
            r matches Ok(p) && p@ == self@.insert("server-directory"@, dir@),
    {
        proof {
            assert(nul_free("server-directory"@)) by {
                reveal_strlit("server-directory");
                reveal_with_fuel(nul_free, 17);
            }
            lemma_nul_free("server-directory"@);
        }
        let mut p = self;
        p.set_string("server-directory", dir)?;
        Ok(p)
    }

    /// Sets `license-file` to `file`, which is to name a file that exists
    /// (`file_exists`).
    pub fn license_file(self, file: &str, file_exists: bool) -> (r: Result<Parameters, Error>)
        requires
            file_exists,
            !has_nul(file@),
        ensures
            r matches Ok(p) && p@ == self@.insert("license-file"@, file@),
    {
        proof {
            assert(nul_free("license-file"@)) by {
                reveal_strlit("license-file");
                reveal_with_fuel(nul_free, 13);
            }
            lemma_nul_free("license-file"@);
        }
        let mut p = self;
        p.set_string("license-file", file)?;
        Ok(p)
    }

    /// Sets `import.rename-user-blank-nodes` to `true` or `false`.
    pub fn import_rename_user_blank_nodes(self, setting: bool) -> (r: Result<Parameters, Error>)
        ensures
            r matches Ok(p) && p@ == self@.insert(
                "import.rename-user-blank-nodes"@,
                if setting { "true"@ } else { "false"@ },
            ),
    {
        proof {
            assert(nul_free("import.rename-user-blank-nodes"@)) by {
                reveal_strlit("import.rename-user-blank-nodes");
                reveal_with_fuel(nul_free, 31);
            }
            lemma_nul_free("import.rename-user-blank-nodes"@);
            assert(nul_free("true"@)) by {
                reveal_strlit("true");
                reveal_with_fuel(nul_free, 5);
            }
            lemma_nul_free("true"@);
            assert(nul_free("false"@)) by {
                reveal_strlit("false");
                reveal_with_fuel(nul_free, 6);
            }
            lemma_nul_free("false"@);
        }
        let mut p = self;
        if setting {
            p.set_string("import.rename-user-blank-nodes", "true")?;
        } else {
            p.set_string("import.rename-user-blank-nodes", "false")?;
        }
        Ok(p)
    }

    /// Sets `api-log` to `on` or `off`: whether every call of the API is
    /// recorded in a script that the shell can replay.
    pub fn api_log(self, on: bool) -> (r: Result<Parameters, Error>)
        ensures
            r matches Ok(p) && p@ == self@.insert("api-log"@, if on { "on"@ } else { "off"@ }),
    {
        proof {
            assert(nul_free("api-log"@)) by {
                reveal_strlit("api-log");
                reveal_with_fuel(nul_free, 8);
            }
            lemma_nul_free("api-log"@);
            assert(nul_free("on"@)) by {
                reveal_strlit("on");
                reveal_with_fuel(nul_free, 3);
            }
            lemma_nul_free("on"@);
            assert(nul_free("off"@)) by {
                reveal_strlit("off");
                reveal_with_fuel(nul_free, 4);
            }
            lemma_nul_free("off"@);
        }
        let mut p = self;
        if on {
            p.set_string("api-log", "on")?;
        } else {
            p.set_string("api-log", "off")?;
        }
        Ok(p)
    }

    /// Where `dir_exists` (the directory `dir` exists), switches the API log
    /// on and sets `api-log.directory` to `dir`; otherwise leaves the
    /// parameters as they are.
    pub fn api_log_directory(self, dir: &str, dir_exists: bool) -> (r: Result<Parameters, Error>)
        requires
            dir_exists ==> !has_nul(dir@),
        ensures
            dir_exists ==> (r matches Ok(p) && p@ == self@.insert("api-log"@, "on"@).insert(
                "api-log.directory"@,
                dir@,
            )),
            !dir_exists ==> (r matches Ok(p) && p@ == self@),
    {
        proof {
            assert(nul_free("api-log.directory"@)) by {
                reveal_strlit("api-log.directory");
                reveal_with_fuel(nul_free, 18);
            }
            lemma_nul_free("api-log.directory"@);
        }
        if dir_exists {
            let mut x = self.api_log(true)?;
            x.set_string("api-log.directory", dir)?;
            Ok(x)
        } else {
            Ok(self)
        }
    }

    /// The settings as key and value pairs, in the order in which their keys
    /// were first set.
    pub fn entries(&self) -> (r: Vec<(String, String)>)
        ensures
            r@ == self.listed(),
            settings_of(r@) == self@,
            keys_unique(r@),
    {
        proof {
            use_type_invariant(self);
        }
        let p = self.clone();
        proof {
            use_type_invariant(&p);
        }
        p.entries
    }
}

/// A value stored under a key is what reading that key gives back, and
/// storing it touches no other key.
pub proof fn law_read_back_setting(
    settings: Map<Seq<char>, Seq<char>>,
    key: Seq<char>,
    value: Seq<char>,
    other: Seq<char>,
)
    requires
        other != key,
    ensures
        settings.insert(key, value).dom().contains(key),
        settings.insert(key, value)[key] == value,
        settings.insert(key, value).dom().contains(other) == settings.dom().contains(other),
        settings.dom().contains(other) ==> settings.insert(key, value)[other] == settings[other],
{
}

/// Storing two values under one key leaves the later one.
pub proof fn law_later_setting_wins(
    settings: Map<Seq<char>, Seq<char>>,
    key: Seq<char>,
    first: Seq<char>,
    second: Seq<char>,
)
    ensures
        settings.insert(key, first).insert(key, second) == settings.insert(key, second),
{
    assert(settings.insert(key, first).insert(key, second) =~= settings.insert(key, second));
}

} // verus!
