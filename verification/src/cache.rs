//! The cache of pilot ids: which numeric id the site gave to which
//! username. It is kept on disk as a YAML mapping, `<username>: <id>`.

use std::collections::BTreeMap;
use vstd::prelude::*;

verus! {

/// Why the cache could not be read or written.
#[derive(Clone, Debug, PartialEq, Eq)]
pub enum CacheError {
    /// The text is no mapping from usernames to ids; the parser's message
    /// is kept.
    Malformed(String),
    /// The mapping could not be written; the writer's message is kept.
    Unwritable(String),
}

/// A `CacheError` with its message as a character sequence.
pub enum CacheErrorView {
    Malformed(Seq<char>),
    Unwritable(Seq<char>),
}

impl View for CacheError {
    type V = CacheErrorView;

    open spec fn view(&self) -> CacheErrorView {
        match *self {
            CacheError::Malformed(message) => CacheErrorView::Malformed(message@),
            CacheError::Unwritable(message) => CacheErrorView::Unwritable(message@),
        }
    }
}

/// Entries of a cache: usernames with their ids.
pub type Entries = Seq<(Seq<char>, u64)>;

/// Whether no username occurs twice.
pub open spec fn names_distinct(entries: Entries) -> bool {
    forall|i: int, j: int|
        0 <= i < j < entries.len() ==> (#[trigger] entries[i]).0 != (#[trigger] entries[j]).0
}

/// Whether a username has an entry.
pub open spec fn has_name(entries: Entries, name: Seq<char>) -> bool {
    exists|i: int| 0 <= i < entries.len() && (#[trigger] entries[i]).0 == name
}

/// The position of a username's first entry; the number of entries where
/// it has none.
pub open spec fn position_of(entries: Entries, name: Seq<char>) -> int
    decreases entries.len(),
{
    if entries.len() == 0 {
        0
    } else if entries[0].0 == name {
        0
    } else {
        1 + position_of(entries.drop_first(), name)
    }
}

/// The id that a username has.
pub open spec fn id_of(entries: Entries, name: Seq<char>) -> Option<u64> {
    if has_name(entries, name) {
        Some(entries[position_of(entries, name)].1)
    } else {
        None
    }
}

/// The entries after a username was given an id: a new entry at the end,
/// or the new id in the place of the username's old one.
pub open spec fn with_entry(entries: Entries, name: Seq<char>, id: u64) -> Entries {
    if has_name(entries, name) {
        entries.update(position_of(entries, name), (name, id))
    } else {
        entries.push((name, id))
    }
}

/// The entries that come of giving each username of a list its id, one
/// after the other.
pub open spec fn collected(pairs: Entries) -> Entries
    decreases pairs.len(),
{
    if pairs.len() == 0 {
        Seq::empty()
    } else {
        with_entry(collected(pairs.drop_last()), pairs.last().0, pairs.last().1)
    }
}

/// The mapping that a list of entries stands for.
pub open spec fn as_map(entries: Entries) -> Map<Seq<char>, u64> {
    Map::new(
        |name: Seq<char>| has_name(entries, name),
        |name: Seq<char>| id_of(entries, name)->Some_0,
    )
}

/// Where a username's first entry stands.
pub proof fn position_of_is_first(entries: Entries, name: Seq<char>)
    ensures
        0 <= position_of(entries, name) <= entries.len(),
        forall|i: int| 0 <= i < position_of(entries, name) ==> (#[trigger] entries[i]).0 != name,
        has_name(entries, name) <==> position_of(entries, name) < entries.len(),
        has_name(entries, name) ==> entries[position_of(entries, name)].0 == name,
    decreases entries.len(),
{
    if entries.len() > 0 && entries[0].0 != name {
        let rest = entries.drop_first();
        position_of_is_first(rest, name);
        assert forall|i: int| 0 <= i < 1 + position_of(rest, name) implies (
        #[trigger] entries[i]).0 != name by {
            if i > 0 {
                assert(entries[i] == rest[i - 1]);
            }
        }
    }
}

/// Giving a username an id keeps the usernames distinct, and changes the
/// mapping at that username only.
pub proof fn with_entry_keeps_names_distinct(entries: Entries, name: Seq<char>, id: u64)
    requires
        names_distinct(entries),
    ensures
        names_distinct(with_entry(entries, name, id)),
        as_map(with_entry(entries, name, id)) == as_map(entries).insert(name, id),
{
    position_of_is_first(entries, name);
    let after = with_entry(entries, name, id);
    let p = position_of(entries, name);
    assert forall|other: Seq<char>| has_name(after, other) <==> (other == name || has_name(
        entries,
        other,
    )) by {
        if has_name(entries, other) && other != name {
            let i = choose|i: int| 0 <= i < entries.len() && (#[trigger] entries[i]).0 == other;
            assert(after[i].0 == other);
        }
        if other == name {
            // The new entry stands where the old one stood, or at the end.
            assert(after[if has_name(entries, name) { p } else { entries.len() as int }].0 == name);
        }
    }
    assert forall|other: Seq<char>| has_name(after, other) implies id_of(after, other) == (if other
        == name {
        Some(id)
    } else {
        id_of(entries, other)
    }) by {
        position_of_is_first(after, other);
        position_of_is_first(entries, other);
    }
}

/// What `serde_yaml::from_str` reads out of a text as a mapping from
/// strings to unsigned 64-bit numbers, listed by username in the order of
/// `BTreeMap`; or the message of the error it reports.
pub uninterp spec fn yaml_mapping(text: Seq<char>) -> Result<Entries, Seq<char>>;

/// What `serde_yaml::to_string` writes for the mapping that a list of
/// entries makes when collected into a `BTreeMap`; or the message of the
/// error it reports.
pub uninterp spec fn yaml_text(entries: Entries) -> Result<Seq<char>, Seq<char>>;

/// The views of a list of entries, in order.
pub open spec fn entry_views(entries: Seq<(String, u64)>) -> Entries {
    Seq::new(entries.len(), |i: int| (entries[i].0@, entries[i].1))
}

/// Calls `serde_yaml::from_str::<BTreeMap<String, u64>>` and lists the
/// mapping's entries. The contract claims that the outcome depends on the
/// text alone; an error is handed on as its message.
#[verifier::external_body]
fn decode_mapping(text: &str) -> (r: Result<Vec<(String, u64)>, String>)
    ensures
        match r {
            Ok(entries) => yaml_mapping(text@) == Ok::<Entries, Seq<char>>(entry_views(entries@)),
            Err(message) => yaml_mapping(text@) == Err::<Entries, Seq<char>>(message@),
        },
{
    match serde_yaml::from_str::<BTreeMap<String, u64>>(text) {
        Ok(mapping) => Ok(mapping.into_iter().collect()),
        Err(error) => Err(error.to_string()),
    }
}

/// Collects the entries into a `BTreeMap<String, u64>` and calls
/// `serde_yaml::to_string` on it. The contract claims that the outcome
/// depends on the entries alone; an error is handed on as its message.
#[verifier::external_body]
fn encode_mapping(entries: &Vec<(String, u64)>) -> (r: Result<String, String>)
    ensures
        match r {
            Ok(text) => yaml_text(entry_views(entries@)) == Ok::<Seq<char>, Seq<char>>(text@),
            Err(message) => yaml_text(entry_views(entries@)) == Err::<Seq<char>, Seq<char>>(
                message@,
            ),
        },
{
    let mapping: BTreeMap<String, u64> = entries.iter().cloned().collect();
    serde_yaml::to_string(&mapping).map_err(|error| error.to_string())
}

/// The pilot ids known so far, by username. Usernames are compared
/// character by character; none occurs twice.
#[derive(Clone, Debug)]
pub struct PilotIdCache {
    entries: Vec<(String, u64)>,
}

impl View for PilotIdCache {
    type V = Map<Seq<char>, u64>;

    open spec fn view(&self) -> Map<Seq<char>, u64> {
        as_map(self.entries())
    }
}

impl PilotIdCache {
    /// The entries, oldest first.
    pub closed spec fn entries(&self) -> Entries {
        entry_views(self.entries@)
    }

    /// Whether this is a cache as the functions below make and keep it: no
    /// username occurs twice.
    pub open spec fn well_formed(&self) -> bool {
        names_distinct(self.entries())
    }

    /// The entries can be counted in a `usize`.
    pub proof fn entries_fit(&self)
        ensures
            self.entries().len() <= usize::MAX,
    {
        assert(self.entries.len() == self.entries@.len());
    }

    /// The empty cache.
    pub fn new() -> (cache: PilotIdCache)
        ensures
            cache.well_formed(),
            cache.entries() == Seq::<(Seq<char>, u64)>::empty(),
    {
        PilotIdCache { entries: Vec::new() }
    }

    /// The number of entries.
    pub fn len(&self) -> (n: usize)
        ensures
            n == self.entries().len(),
    {
        self.entries.len()
    }

    /// The entry at a position, counted from the oldest.
    pub fn entry(&self, index: usize) -> (entry: (&str, u64))
        requires
            index < self.entries().len(),
        ensures
            (entry.0@, entry.1) == self.entries()[index as int],
    {
        (self.entries[index].0.as_str(), self.entries[index].1)
    }

    /// The id of a username, if the cache holds one.
    pub fn get(&self, username: &str) -> (id: Option<u64>)
        ensures
            id == id_of(self.entries(), username@),
            id == if self@.contains_key(username@) {
                Some(self@[username@])
            } else {
                None
            },
    {
        let wanted = String::from_str(username);
        let mut i: usize = 0;
        proof {
            position_of_is_first(self.entries(), username@);
        }
        while i < self.entries.len()
            invariant
                i <= self.entries@.len(),
                wanted@ == username@,
                forall|k: int| 0 <= k < i ==> (#[trigger] self.entries()[k]).0 != username@,
            decreases self.entries@.len() - i,
        {
            if self.entries[i].0 == wanted {
                proof {
                    position_of_is_first(self.entries(), username@);
                    assert(self.entries()[i as int].0 == username@);
                }
                return Some(self.entries[i].1);
            }
            i += 1;
        }
        None
    }

    /// Whether the cache holds an id for a username.
    pub fn contains(&self, username: &str) -> (held: bool)
        ensures
            held == has_name(self.entries(), username@),
            held == self@.contains_key(username@),
    {
        self.get(username).is_some()
    }

    /// Gives a username an id, and returns the id it had before.
    pub fn insert(&mut self, username: String, id: u64) -> (previous: Option<u64>)
        requires
            old(self).well_formed(),
        ensures
            final(self).well_formed(),
            final(self).entries() == with_entry(old(self).entries(), username@, id),
            final(self)@ == old(self)@.insert(username@, id),
            previous == id_of(old(self).entries(), username@),
    {
        proof {
            position_of_is_first(self.entries(), username@);
            with_entry_keeps_names_distinct(self.entries(), username@, id);
        }
        let ghost name = username@;
        let ghost before = self.entries();
        let mut i: usize = 0;
        while i < self.entries.len()
            invariant
                i <= self.entries@.len(),
                name == username@,
                self.entries() == before,
                before == old(self).entries(),
                names_distinct(before),
                forall|k: int| 0 <= k < i ==> (#[trigger] before[k]).0 != name,
            decreases self.entries@.len() - i,
        {
            if self.entries[i].0 == username {
                let previous = self.entries[i].1;
                proof {
                    position_of_is_first(before, name);
                    with_entry_keeps_names_distinct(before, name, id);
                    assert(before[i as int].0 == name);
                }
                self.entries.set(i, (username, id));
                assert(self.entries() =~= with_entry(before, name, id));
                return Some(previous);
            }
            i += 1;
        }
        self.entries.push((username, id));
        assert(self.entries() =~= with_entry(before, name, id));
        None
    }

    /// Whether `outcome` is what reading a cache out of `text` gives: the
    /// entries of the mapping, or the parser's complaint about a text that
    /// is no such mapping.
    pub open spec fn read_from(text: Seq<char>, outcome: Result<PilotIdCache, CacheError>) -> bool {
        match outcome {
            Ok(cache) => cache.well_formed() && match yaml_mapping(text) {
                Ok(pairs) => cache.entries() == collected(pairs),
                Err(_) => false,
            },
            Err(error) => match yaml_mapping(text) {
                Ok(_) => false,
                Err(message) => error@ == CacheErrorView::Malformed(message),
            },
        }
    }

    /// Reads the cache as its file was found: the text of the file, or the
    /// empty cache where there is no file.
    pub fn load(contents: Option<&str>) -> (r: Result<PilotIdCache, CacheError>)
        ensures
            match contents {
                Some(text) => Self::read_from(text@, r),
                None => r matches Ok(cache) && cache.well_formed() && cache.entries()
                    == Seq::<(Seq<char>, u64)>::empty(),
            },
    {
        match contents {
            Some(text) => PilotIdCache::from_yaml(text),
            None => Ok(PilotIdCache::new()),
        }
    }

    /// Reads a cache out of its YAML text.
    pub fn from_yaml(text: &str) -> (r: Result<PilotIdCache, CacheError>)
        ensures
            Self::read_from(text@, r),
    {
        let pairs = match decode_mapping(text) {
            Ok(pairs) => pairs,
            Err(message) => { return Err(CacheError::Malformed(message)); },
        };
        let ghost listed = entry_views(pairs@);
        let mut cache = PilotIdCache::new();
        let mut i: usize = 0;
        let n = pairs.len();
        while i < n
            invariant
                i <= n,
                n == pairs@.len(),
                listed == entry_views(pairs@),
                cache.well_formed(),
                cache.entries() == collected(listed.subrange(0, i as int)),
            decreases n - i,
        {
            let name = pairs[i].0.clone();
            let id = pairs[i].1;
            assert(listed.subrange(0, i + 1).drop_last() =~= listed.subrange(0, i as int));
            cache.insert(name, id);
            i += 1;
        }
        assert(listed.subrange(0, n as int) =~= listed);
        Ok(cache)
    }

    /// Writes the cache as YAML text.
    pub fn to_yaml(&self) -> (r: Result<String, CacheError>)
        ensures
            match r {
                Ok(text) => yaml_text(self.entries()) == Ok::<Seq<char>, Seq<char>>(text@),
                Err(error) => match yaml_text(self.entries()) {
                    Ok(_) => false,
                    Err(message) => error@ == CacheErrorView::Unwritable(message),
                },
            },
    {
        match encode_mapping(&self.entries) {
            Ok(text) => Ok(text),
            Err(message) => Err(CacheError::Unwritable(message)),
        }
    }
}

} // verus!
