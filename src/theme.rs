//! Themes: the seed colors of each appearance mode, and the choice of mode.
use vstd::prelude::*;
use crate::error::ThemeError;

verus! {

/// The position of the first `key` in `keys` from `i` on, or `-1`.
pub open spec fn key_index(keys: Seq<Seq<char>>, key: Seq<char>, i: int) -> int
    decreases keys.len() - i,
{
    if i < 0 || i >= keys.len() {
        -1
    } else if keys[i] == key {
        i
    } else {
        key_index(keys, key, i + 1)
    }
}

proof fn lemma_key_index_range(keys: Seq<Seq<char>>, key: Seq<char>, i: int)
    requires
        0 <= i,
    ensures
        key_index(keys, key, i) == -1 || (i <= key_index(keys, key, i) < keys.len() && keys[key_index(keys, key, i)] == key),
    decreases keys.len() - i,
{
    if i < keys.len() && keys[i] != key {
        lemma_key_index_range(keys, key, i + 1);
    }
}

/// The seed colors of one mode: named string values, such as
/// `primary -> #ff5722`. The first entry of a name is the one that counts.
#[derive(Debug, Clone)]
pub struct ThemeSeeds {
    pub entries: Vec<(String, String)>,
}

impl ThemeSeeds {
    pub open spec fn keys(&self) -> Seq<Seq<char>> {
        Seq::new(self.entries@.len(), |i: int| self.entries@[i].0@)
    }

    /// The value under `key`, if any.
    pub open spec fn seed(&self, key: Seq<char>) -> Option<Seq<char>> {
        let i = key_index(self.keys(), key, 0);
        if i < 0 {
            None
        } else {
            Some(self.entries@[i].1@)
        }
    }

    /// No seed colors.
    pub fn new() -> (r: ThemeSeeds)
        ensures
            r.entries@.len() == 0,
    {
        ThemeSeeds { entries: Vec::new() }
    }

    /// Adds a named value after the others.
    pub fn insert(&mut self, key: String, value: String)
        ensures
            final(self).entries@ == old(self).entries@.push((key, value)),
    {
        self.entries.push((key, value));
    }

    /// The value under `key`, if any.
    pub fn get(&self, key: &str) -> (r: Option<&String>)
        ensures
            r is None <==> self.seed(key@) is None,
            r is Some ==> self.seed(key@) == Some(r->0@),
    {
        let k = String::from_str(key);
        let mut i: usize = 0;
        while i < self.entries.len()
            invariant
                0 <= i <= self.entries@.len(),
                k@ == key@,
                key_index(self.keys(), key@, 0) == key_index(self.keys(), key@, i as int),
            decreases self.entries@.len() - i,
        {
            if self.entries[i].0 == k {
                return Some(&self.entries[i].1);
            }
            i = i + 1;
        }
        None
    }
}

/// A theme: the seed colors of each mode, by mode name (`dark`, `light`).
#[derive(Debug, Clone)]
pub struct Theme {
    pub modes: Vec<(String, ThemeSeeds)>,
}

impl Theme {
    pub open spec fn names(&self) -> Seq<Seq<char>> {
        Seq::new(self.modes@.len(), |i: int| self.modes@[i].0@)
    }

    /// Where the seeds of mode `name` stand, or `-1`.
    pub open spec fn mode_index(&self, name: Seq<char>) -> int {
        key_index(self.names(), name, 0)
    }

    /// A theme with no modes.
    pub fn new() -> (r: Theme)
        ensures
            r.modes@.len() == 0,
    {
        Theme { modes: Vec::new() }
    }

    /// Adds the seeds of a mode after the others.
    pub fn insert(&mut self, name: String, seeds: ThemeSeeds)
        ensures
            final(self).modes@ == old(self).modes@.push((name, seeds)),
    {
        self.modes.push((name, seeds));
    }

    /// The seeds of mode `name`, if the theme has it.
    pub fn get(&self, name: &str) -> (r: Option<&ThemeSeeds>)
        ensures
            r is None <==> self.mode_index(name@) < 0,
            r is Some ==> 0 <= self.mode_index(name@) < self.modes@.len() && *r->0
                == self.modes@[self.mode_index(name@)].1,
    {
        proof {
            lemma_key_index_range(self.names(), name@, 0);
        }
        let k = String::from_str(name);
        let mut i: usize = 0;
        while i < self.modes.len()
            invariant
                0 <= i <= self.modes@.len(),
                k@ == name@,
                key_index(self.names(), name@, 0) == key_index(self.names(), name@, i as int),
            decreases self.modes@.len() - i,
        {
            if self.modes[i].0 == k {
                return Some(&self.modes[i].1);
            }
            i = i + 1;
        }
        None
    }
}

/// The mode that is used for `mode`: itself if the theme has it, else
/// `dark` if the theme has that, else none.
pub open spec fn effective_mode(theme: &Theme, mode: Seq<char>) -> Option<Seq<char>> {
    if theme.mode_index(mode) >= 0 {
        Some(mode)
    } else if theme.mode_index("dark"@) >= 0 {
        Some("dark"@)
    } else {
        None
    }
}

/// The seeds of the requested mode with its name; when the theme lacks it,
/// those of `dark` with the name `dark` (the caller tells the fallback by
/// the name). Fails when the theme has neither.
pub fn select_theme_mode<'a>(theme_all: &'a Theme, mode: &str) -> (res: Result<
    (&'a ThemeSeeds, String),
    ThemeError,
>)
    ensures
        res is Err <==> effective_mode(theme_all, mode@) is None,
        res is Err ==> res->Err_0 == ThemeError::ModeUnavailable,
        res is Ok ==> {
            let name = effective_mode(theme_all, mode@)->0;
            &&& res->Ok_0.1@ == name
            &&& *res->Ok_0.0 == theme_all.modes@[theme_all.mode_index(name)].1
        },
{
    match theme_all.get(mode) {
        Some(seeds) => Ok((seeds, String::from_str(mode))),
        None => match theme_all.get("dark") {
            Some(seeds) => Ok((seeds, String::from_str("dark"))),
            None => Err(ThemeError::ModeUnavailable),
        },
    }
}

} // verus!
