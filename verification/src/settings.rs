//! The raw settings view: an already-parsed INI-style mapping of section
//! name to key name to optional string value. Lookup is case-sensitive
//! exact matching; when a name occurs twice the first occurrence wins.
use vstd::prelude::*;
use vstd::string::*;
use crate::strutil::str_eq;

verus! {

/// One key of a section, with its optional value.
#[derive(Debug)]
pub struct SettingEntry {
    pub key: String,
    pub value: Option<String>,
}

/// One named section of the settings file.
#[derive(Debug)]
pub struct IniSection {
    pub name: String,
    pub entries: Vec<SettingEntry>,
}

/// The whole parsed settings file.
#[derive(Debug)]
pub struct RawSettings {
    pub sections: Vec<IniSection>,
}

/// The value of the first entry named `key`: `None` when the key is
/// absent, `Some(v)` when present with optional value `v`.
pub open spec fn find_entry(es: Seq<SettingEntry>, key: Seq<char>) -> Option<Option<Seq<char>>>
    decreases es.len(),
{
    if es.len() == 0 {
        None
    } else if es[0].key@ == key {
        Some(
            match es[0].value {
                Some(v) => Some(v@),
                None => None,
            },
        )
    } else {
        find_entry(es.subrange(1, es.len() as int), key)
    }
}

/// The first section named `name`, when one exists.
pub open spec fn find_section(ss: Seq<IniSection>, name: Seq<char>) -> Option<IniSection>
    decreases ss.len(),
{
    if ss.len() == 0 {
        None
    } else if ss[0].name@ == name {
        Some(ss[0])
    } else {
        find_section(ss.subrange(1, ss.len() as int), name)
    }
}

proof fn lemma_find_section_at(ss: Seq<IniSection>, name: Seq<char>, i: int)
    requires
        0 <= i < ss.len(),
        ss[i].name@ == name,
        forall|j: int| 0 <= j < i ==> ss[j].name@ != name,
    ensures
        find_section(ss, name) == Some(ss[i]),
    decreases i,
{
    if i > 0 {
        lemma_find_section_at(ss.subrange(1, ss.len() as int), name, i - 1);
    }
}

proof fn lemma_find_section_none(ss: Seq<IniSection>, name: Seq<char>)
    requires
        forall|j: int| 0 <= j < ss.len() ==> ss[j].name@ != name,
    ensures
        find_section(ss, name) is None,
    decreases ss.len(),
{
    if ss.len() > 0 {
        lemma_find_section_none(ss.subrange(1, ss.len() as int), name);
    }
}

proof fn lemma_find_entry_at(es: Seq<SettingEntry>, key: Seq<char>, i: int)
    requires
        0 <= i < es.len(),
        es[i].key@ == key,
        forall|j: int| 0 <= j < i ==> es[j].key@ != key,
    ensures
        find_entry(es, key) == Some(
            match es[i].value {
                Some(v) => Some(v@),
                None => None::<Seq<char>>,
            },
        ),
    decreases i,
{
    if i > 0 {
        lemma_find_entry_at(es.subrange(1, es.len() as int), key, i - 1);
    }
}

proof fn lemma_find_entry_none(es: Seq<SettingEntry>, key: Seq<char>)
    requires
        forall|j: int| 0 <= j < es.len() ==> es[j].key@ != key,
    ensures
        find_entry(es, key) is None,
    decreases es.len(),
{
    if es.len() > 0 {
        lemma_find_entry_none(es.subrange(1, es.len() as int), key);
    }
}

impl IniSection {
    /// Whether the section holds an entry named `key`.
    pub fn has(&self, key: &str) -> (r: bool)
        ensures
            r == (find_entry(self.entries@, key@) is Some),
    {
        let mut i: usize = 0;
        let n = self.entries.len();
        while i < n
            invariant
                i <= n,
                n == self.entries@.len(),
                forall|j: int| 0 <= j < i ==> self.entries@[j].key@ != key@,
            decreases n - i,
        {
            if str_eq(self.entries[i].key.as_str(), key) {
                proof {
                    lemma_find_entry_at(self.entries@, key@, i as int);
                }
                return true;
            }
            i = i + 1;
        }
        proof {
            lemma_find_entry_none(self.entries@, key@);
        }
        false
    }

    /// The optional value under `key`: the outer option says whether the
    /// key is present, the inner whether it carries a value.
    pub fn get(&self, key: &str) -> (r: Option<Option<String>>)
        ensures
            match r {
                Some(Some(v)) => find_entry(self.entries@, key@) == Some(Some(v@)),
                Some(None) => find_entry(self.entries@, key@) == Some(None::<Seq<char>>),
                None => find_entry(self.entries@, key@) is None,
            },
    {
        let mut i: usize = 0;
        let n = self.entries.len();
        while i < n
            invariant
                i <= n,
                n == self.entries@.len(),
                forall|j: int| 0 <= j < i ==> self.entries@[j].key@ != key@,
            decreases n - i,
        {
            if str_eq(self.entries[i].key.as_str(), key) {
                proof {
                    lemma_find_entry_at(self.entries@, key@, i as int);
                }
                return match &self.entries[i].value {
                    Some(v) => Some(Some(v.clone())),
                    None => Some(None),
                };
            }
            i = i + 1;
        }
        proof {
            lemma_find_entry_none(self.entries@, key@);
        }
        None
    }
}

impl RawSettings {
    /// The first section named `name`, when one exists.
    pub fn section<'a>(&'a self, name: &str) -> (r: Option<&'a IniSection>)
        ensures
            match r {
                Some(sec) => find_section(self.sections@, name@) == Some(*sec),
                None => find_section(self.sections@, name@) is None,
            },
    {
        let mut i: usize = 0;
        let n = self.sections.len();
        while i < n
            invariant
                i <= n,
                n == self.sections@.len(),
                forall|j: int| 0 <= j < i ==> self.sections@[j].name@ != name@,
            decreases n - i,
        {
            if str_eq(self.sections[i].name.as_str(), name) {
                proof {
                    lemma_find_section_at(self.sections@, name@, i as int);
                }
                return Some(&self.sections[i]);
            }
            i = i + 1;
        }
        proof {
            lemma_find_section_none(self.sections@, name@);
        }
        None
    }
}

} // verus!
