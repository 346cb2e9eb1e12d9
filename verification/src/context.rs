//! Collaborators the surrounding generator hands in: the field being
//! validated, the rename lookup, and the message-format selector.

use vstd::prelude::*;

verus! {

/// A handle to the structure field a constraint is attached to. Owned by
/// the surrounding generation context; this crate borrows it and never
/// mutates it.
#[derive(Debug)]
pub struct FieldRef {
    /// The field's declared name.
    pub name: String,
    /// The identifier under which the field's runtime value is reached.
    pub ident: String,
    /// The serialized key used when no rename applies.
    pub key: String,
    /// The identifier of the error collection the generated check appends
    /// to.
    pub errors_variable: String,
}

/// An opaque token, chosen by the caller, that selects how a validation
/// failure is rendered. This crate forwards it unmodified into the emitted
/// fragment.
#[derive(Clone, Debug, PartialEq, Eq)]
pub struct MessageFormat {
    pub tokens: String,
}

/// Keys of the entry sequence, pairwise distinct.
spec fn unique_keys(entries: Seq<(String, String)>) -> bool {
    forall|i: int, j: int|
        0 <= i < j < entries.len() ==> entries[i].0@ != entries[j].0@
}

/// The mathematical map an entry sequence stands for.
spec fn map_of(entries: Seq<(String, String)>) -> Map<Seq<char>, Seq<char>>
    decreases entries.len(),
{
    if entries.len() == 0 {
        Map::empty()
    } else {
        map_of(entries.drop_last()).insert(entries.last().0@, entries.last().1@)
    }
}

proof fn lemma_map_of_contains(entries: Seq<(String, String)>, k: Seq<char>)
    ensures
        map_of(entries).contains_key(k) <==> exists|i: int|
            0 <= i < entries.len() && #[trigger] entries[i].0@ == k,
    decreases entries.len(),
{
    if entries.len() > 0 {
        lemma_map_of_contains(entries.drop_last(), k);
        if entries.last().0@ == k {
            assert(entries[entries.len() - 1].0@ == k);
        } else {
            if map_of(entries).contains_key(k) {
                let i = choose|i: int|
                    0 <= i < entries.drop_last().len() && #[trigger] entries.drop_last()[i].0@ == k;
                assert(entries[i].0@ == k);
            }
            if exists|i: int| 0 <= i < entries.len() && #[trigger] entries[i].0@ == k {
                let i = choose|i: int| 0 <= i < entries.len() && #[trigger] entries[i].0@ == k;
                assert(entries.drop_last()[i].0@ == k);
            }
        }
    }
}

proof fn lemma_map_of_value(entries: Seq<(String, String)>, i: int, k: Seq<char>)
    requires
        unique_keys(entries),
        0 <= i < entries.len(),
        entries[i].0@ == k,
    ensures
        map_of(entries).contains_key(k),
        map_of(entries)[k] == entries[i].1@,
    decreases entries.len(),
{
    if i == entries.len() - 1 {
    } else {
        assert(entries.drop_last()[i] == entries[i]);
        lemma_map_of_value(entries.drop_last(), i, k);
        assert(entries.last().0@ != k);
    }
}

/// The lookup from a field's declared name to the name it is serialized
/// under. Keys are unique; this crate only ever reads it.
#[derive(Debug)]
pub struct RenameMap {
    entries: Vec<(String, String)>,
}

impl View for RenameMap {
    type V = Map<Seq<char>, Seq<char>>;

    closed spec fn view(&self) -> Map<Seq<char>, Seq<char>> {
        map_of(self.entries@)
    }
}

impl RenameMap {
    /// Each declared name appears at most once.
    pub closed spec fn wf(&self) -> bool {
        unique_keys(self.entries@)
    }

    /// An empty rename lookup.
    pub fn new() -> (m: RenameMap)
        ensures
            m.wf(),
            m@ == Map::<Seq<char>, Seq<char>>::empty(),
    {
        RenameMap { entries: Vec::new() }
    }

    /// Record that the field declared `name` is serialized under `key`.
    pub fn insert(&mut self, name: String, key: String)
        requires
            old(self).wf(),
            !old(self)@.contains_key(name@),
        ensures
            final(self).wf(),
            final(self)@ == old(self)@.insert(name@, key@),
    {
        proof {
            lemma_map_of_contains(self.entries@, name@);
        }
        let ghost before = self.entries@;
        self.entries.push((name, key));
        proof {
            assert(self.entries@.drop_last() =~= before);
            assert(self.entries@.last() == (name, key));
        }
    }

    /// Whether a serialized name is recorded for `name`.
    pub fn contains(&self, name: &String) -> (b: bool)
        requires
            self.wf(),
        ensures
            b == self@.contains_key(name@),
    {
        self.get(name).is_some()
    }

    /// The serialized name recorded for `name`, if any.
    pub fn get(&self, name: &String) -> (r: Option<String>)
        requires
            self.wf(),
        ensures
            match r {
                Some(k) => self@.contains_key(name@) && k@ == self@[name@],
                None => !self@.contains_key(name@),
            },
    {
        let n = self.entries.len();
        let mut i: usize = 0;
        while i < n
            invariant
                n == self.entries@.len(),
                0 <= i <= n,
                self.wf(),
                forall|j: int| 0 <= j < i ==> self.entries@[j].0@ != name@,
            decreases n - i,
        {
            if self.entries[i].0 == *name {
                proof {
                    lemma_map_of_value(self.entries@, i as int, name@);
                }
                return Some(self.entries[i].1.clone());
            }
            i += 1;
        }
        proof {
            lemma_map_of_contains(self.entries@, name@);
        }
        None
    }
}

} // verus!
