//! The settings of the tool: a small table of named values, with the
//! process environment as a fallback.

use crate::table::{find_in, lemma_lookup_none, lemma_lookup_push, lookup};
use crate::text::{same_text, trim, trimmed};
use vstd::prelude::*;
use vstd::string::*;

verus! {

/// A setting.
#[derive(Debug, Clone, Copy, PartialEq, Eq, Structural)]
pub enum ConfigOpt {
    Language,
    Year,
    Editor,
    Session,
    TemplateDir,
}

impl ConfigOpt {
    /// The key under which the setting is stored.
    pub open spec fn key_text(self) -> Seq<char> {
        match self {
            ConfigOpt::Language => "language"@,
            ConfigOpt::Year => "year"@,
            ConfigOpt::Editor => "editor"@,
            ConfigOpt::Session => "session"@,
            ConfigOpt::TemplateDir => "template_dir"@,
        }
    }

    /// The environment variable that stands in for a missing setting.
    pub open spec fn env_text(self) -> Seq<char> {
        match self {
            ConfigOpt::Session => "AOC_SESSION"@,
            ConfigOpt::Language => "AOC_LANGUAGE"@,
            ConfigOpt::Year => "AOC_YEAR"@,
            ConfigOpt::Editor => "EDITOR"@,
            ConfigOpt::TemplateDir => "AOC_TEMPLATE_DIR"@,
        }
    }

    /// The key under which the setting is stored.
    pub fn to_string(&self) -> (s: String)
        ensures
            s@ == self.key_text(),
    {
        match self {
            ConfigOpt::Language => String::from_str("language"),
            ConfigOpt::Year => String::from_str("year"),
            ConfigOpt::Editor => String::from_str("editor"),
            ConfigOpt::Session => String::from_str("session"),
            ConfigOpt::TemplateDir => String::from_str("template_dir"),
        }
    }

    /// The environment variable that stands in for a missing setting.
    pub fn env_var(&self) -> (s: &'static str)
        ensures
            s@ == self.env_text(),
    {
        match self {
            ConfigOpt::Session => "AOC_SESSION",
            ConfigOpt::Language => "AOC_LANGUAGE",
            ConfigOpt::Year => "AOC_YEAR",
            ConfigOpt::Editor => "EDITOR",
            ConfigOpt::TemplateDir => "AOC_TEMPLATE_DIR",
        }
    }
}

/// What can go wrong with the settings.
#[derive(Debug, Clone, PartialEq, Eq)]
pub enum AocConfigError {
    /// The stored table could not be read; the text says why.
    Parse(String),
    /// The setting is neither stored nor in the environment.
    Get { key: ConfigOpt },
    /// The environment variable could not be read; the text says why.
    GetEnv(String),
}

/// The settings: a table of named values.
#[derive(Debug, Clone, PartialEq, Eq)]
pub struct AocConfig {
    data: Vec<(String, String)>,
}

impl AocConfig {
    /// The stored value of a key, if there is one.
    pub closed spec fn stored(&self, key: Seq<char>) -> Option<Seq<char>> {
        lookup(self.data@, key)
    }

    /// The value of a setting: the stored one, else the one that the
    /// environment gave.
    pub open spec fn value(&self, key: ConfigOpt, env_value: Option<String>) -> Option<Seq<char>> {
        match self.stored(key.key_text()) {
            Some(v) => Some(v),
            None => match env_value {
                Some(v) => Some(v@),
                None => None,
            },
        }
    }

    /// A table without entries.
    pub fn new() -> (config: AocConfig)
        ensures
            forall|key: Seq<char>| config.stored(key) is None,
    {
        AocConfig { data: Vec::new() }
    }

    /// The table with these entries, a later entry replacing an earlier
    /// one of the same key.
    pub fn from_entries(entries: Vec<(String, String)>) -> (config: AocConfig)
        ensures
            forall|key: Seq<char>| config.stored(key) == lookup(entries@, key),
    {
        AocConfig { data: entries }
    }

    /// The entries of the table, each key once.
    pub fn entries(&self) -> (entries: Vec<(String, String)>)
        ensures
            forall|key: Seq<char>| lookup(entries@, key) == self.stored(key),
            forall|i: int, j: int|
                0 <= i < j < entries@.len() ==> entries@[i].0@ != entries@[j].0@,
    {
        let mut out: Vec<(String, String)> = Vec::new();
        let mut i: usize = self.data.len();
        assert(self.data@.take(i as int) =~= self.data@);
        while i > 0
            invariant
                i <= self.data.len(),
                forall|a: int, b: int| 0 <= a < b < out@.len() ==> out@[a].0@ != out@[b].0@,
                forall|key: Seq<char>| #[trigger]
                    lookup(self.data@, key) == match lookup(out@, key) {
                        Some(v) => Some(v),
                        None => lookup(self.data@.take(i as int), key),
                    },
            decreases i,
        {
            let ghost prefix = self.data@.take(i as int);
            let ghost before = out@;
            assert(prefix.drop_last() =~= self.data@.take(i - 1));
            assert(prefix.last() == self.data@[i - 1]);
            let seen = find_in(&out, self.data[i - 1].0.as_str());
            if seen.is_none() {
                let entry = (self.data[i - 1].0.clone(), self.data[i - 1].1.clone());
                out.push(entry);
                proof {
                    lemma_lookup_none(before, entry.0@);
                    assert forall|k: Seq<char>| #[trigger]
                        lookup(self.data@, k) == match lookup(out@, k) {
                            Some(v) => Some(v),
                            None => lookup(self.data@.take(i - 1), k),
                        } by {
                        lemma_lookup_push(before, entry, k);
                        assert(lookup(self.data@, k) == match lookup(before, k) {
                            Some(v) => Some(v),
                            None => lookup(prefix, k),
                        });
                    }
                }
            } else {
                proof {
                    assert forall|k: Seq<char>| #[trigger]
                        lookup(self.data@, k) == match lookup(out@, k) {
                            Some(v) => Some(v),
                            None => lookup(self.data@.take(i - 1), k),
                        } by {
                        assert(lookup(self.data@, k) == match lookup(before, k) {
                            Some(v) => Some(v),
                            None => lookup(prefix, k),
                        });
                    }
                }
            }
            i = i - 1;
        }
        assert forall|key: Seq<char>| lookup(out@, key) == self.stored(key) by {
            assert(lookup(self.data@, key) == match lookup(out@, key) {
                Some(v) => Some(v),
                None => lookup(self.data@.take(0), key),
            });
        }
        out
    }

    /// The value of a setting: the stored one, else the one that the
    /// environment gave under the setting's variable.
    pub fn get(&self, key: ConfigOpt, env_value: Option<String>) -> (r: Option<String>)
        ensures
            match r {
                Some(v) => self.value(key, env_value) == Some(v@),
                None => self.value(key, env_value) is None,
            },
    {
        let name = key.to_string();
        match find_in(&self.data, name.as_str()) {
            Some(i) => Some(self.data[i].1.clone()),
            None => env_value,
        }
    }

    /// The value of a setting, or the error that names the setting.
    pub fn get_ok(&self, key: ConfigOpt, env_value: Option<String>) -> (r: Result<
        String,
        AocConfigError,
    >)
        ensures
            match r {
                Ok(v) => self.value(key, env_value) == Some(v@),
                Err(e) => self.value(key, env_value) is None && e == (AocConfigError::Get { key }),
            },
    {
        match self.get(key, env_value) {
            Some(val) => Ok(val),
            None => Err(AocConfigError::Get { key }),
        }
    }

    /// The stored value of a setting, or `default` where none is stored.
    /// The environment is not asked.
    pub fn get_or_default(&self, key: ConfigOpt, default: String) -> (r: String)
        ensures
            r@ == match self.stored(key.key_text()) {
                Some(v) => v,
                None => default@,
            },
    {
        let name = key.to_string();
        match find_in(&self.data, name.as_str()) {
            Some(i) => self.data[i].1.clone(),
            None => default,
        }
    }

    /// The question that asks the user for a setting, with the current
    /// value in brackets where there is one.
    pub fn prompt(key: ConfigOpt, current: Option<&str>) -> (s: String)
        ensures
            s@ == match current {
                Some(v) => "Enter value for "@ + key.key_text() + " ["@ + v@ + "]: "@,
                None => "Enter value for "@ + key.key_text() + ": "@,
            },
    {
        let mut s = String::from_str("Enter value for ");
        let name = key.to_string();
        s.append(name.as_str());
        match current {
            Some(v) => {
                s.append(" [");
                s.append(v);
                s.append("]: ");
            },
            None => {
                s.append(": ");
            },
        }
        s
    }

    /// Stores what the user typed for a setting: the text without the
    /// white space around it, or nothing if that leaves nothing, in which
    /// case the setting is dropped. Other settings stay as they are.
    pub fn set(&mut self, key: ConfigOpt, input: &str)
        ensures
            forall|k: Seq<char>| #[trigger]
                final(self).stored(k) == if k == key.key_text() {
                    if trimmed(input@).len() == 0 {
                        None
                    } else {
                        Some(trimmed(input@))
                    }
                } else {
                    old(self).stored(k)
                },
    {
        let trimmed_input = trim(input);
        let name = key.to_string();
        let mut kept: Vec<(String, String)> = Vec::new();
        let mut i: usize = 0;
        assert(self.data@.take(0) =~= Seq::empty());
        while i < self.data.len()
            invariant
                i <= self.data.len(),
                name@ == key.key_text(),
                forall|k: Seq<char>| #[trigger]
                    lookup(kept@, k) == if k == name@ {
                        None
                    } else {
                        lookup(self.data@.take(i as int), k)
                    },
            decreases self.data.len() - i,
        {
            let ghost before = kept@;
            let ghost next = self.data@.take(i + 1);
            assert(next.drop_last() =~= self.data@.take(i as int));
            assert(next.last() == self.data@[i as int]);
            if !same_text(self.data[i].0.as_str(), name.as_str()) {
                let entry = (self.data[i].0.clone(), self.data[i].1.clone());
                kept.push(entry);
                assert forall|k: Seq<char>| #[trigger]
                    lookup(kept@, k) == if k == name@ {
                        None
                    } else {
                        lookup(next, k)
                    } by {
                    lemma_lookup_push(before, entry, k);
                }
            }
            i = i + 1;
        }
        assert(self.data@.take(i as int) =~= self.data@);
        if trimmed_input.as_str().unicode_len() != 0 {
            let ghost before = kept@;
            let entry = (name, trimmed_input);
            kept.push(entry);
            assert forall|k: Seq<char>| #[trigger]
                lookup(kept@, k) == if k == key.key_text() {
                    Some(trimmed(input@))
                } else {
                    lookup(old(self).data@, k)
                } by {
                lemma_lookup_push(before, entry, k);
            }
        }
        self.data = kept;
    }
}

} // verus!
