use vstd::prelude::*;

use crate::error::Error;
use crate::source::{Source, SourceV};
use crate::text::str_eq;

verus! {

struct Entry {
    name: String,
    source: Source,
}

/// Whether the mapping holds an entry under `name`.
pub open spec fn spec_contains_name(m: Seq<(Seq<char>, SourceV)>, name: Seq<char>) -> bool {
    exists|i: int| 0 <= i < m.len() && m[i].0 == name
}

/// The registry: a mapping from user-chosen unique names to sources, in
/// insertion order.
///
/// Name uniqueness is enforced at creation time: inserting an existing name
/// is an error, never an overwrite, and a failed operation leaves the
/// registry untouched.
pub struct Registry {
    entries: Vec<Entry>,
}

impl Registry {
    /// The mathematical value of the registry: the name/source pairs in
    /// order.
    pub closed spec fn view(self) -> Seq<(Seq<char>, SourceV)> {
        self.entries@.map(|i: int, e: Entry| (e.name@, e.source@))
    }

    /// Well-formedness: no name is registered twice.  Constructors establish
    /// it and every operation preserves it.
    pub closed spec fn wf(self) -> bool {
        forall|i: int, j: int|
            0 <= i < j < self.entries@.len() ==> self.entries@[i].name@ != self.entries@[j].name@
    }

    /// An empty registry.
    pub fn new() -> (r: Registry)
        ensures
            r@ =~= Seq::<(Seq<char>, SourceV)>::empty(),
            r.wf(),
    {
        Registry { entries: Vec::new() }
    }

    /// How many sources are registered.
    pub fn len(&self) -> (r: usize)
        ensures
            r == self@.len(),
    {
        self.entries.len()
    }

    /// Index of the entry under `name`, if any.
    fn index_of(&self, name: &str) -> (r: Option<usize>)
        ensures
            match r {
                Some(i) => i < self@.len() && self@[i as int].0 == name@,
                None => !spec_contains_name(self@, name@),
            },
    {
        let n = self.entries.len();
        for i in 0..n
            invariant
                n == self@.len(),
                forall|j: int| 0 <= j < i ==> self@[j].0 != name@,
        {
            if str_eq(self.entries[i].name.as_str(), name) {
                return Some(i);
            }
        }
        None
    }

    /// Whether a source is registered under `name`.
    pub fn contains(&self, name: &str) -> (r: bool)
        ensures
            r == spec_contains_name(self@, name@),
    {
        self.index_of(name).is_some()
    }

    /// The source registered under `name`, if any.
    pub fn get(&self, name: &str) -> (r: Option<&Source>)
        ensures
            match r {
                Some(s) => exists|i: int| 0 <= i < self@.len() && self@[i] == (name@, s@),
                None => !spec_contains_name(self@, name@),
            },
    {
        match self.index_of(name) {
            Some(i) => Some(&self.entries[i].source),
            None => None,
        }
    }

    /// The registered names, in registry order.
    pub fn names(&self) -> (r: Vec<String>)
        ensures
            r@.len() == self@.len(),
            forall|i: int| 0 <= i < r@.len() ==> #[trigger] r@[i]@ == self@[i].0,
    {
        let n = self.entries.len();
        let mut out: Vec<String> = Vec::new();
        for i in 0..n
            invariant
                n == self@.len(),
                out@.len() == i,
                forall|j: int| 0 <= j < i ==> #[trigger] out@[j]@ == self@[j].0,
        {
            out.push(self.entries[i].name.clone());
        }
        out
    }

    /// Register a source under a new name; a duplicate name is an error and
    /// the registry stays as it was.
    pub fn add(&mut self, name: String, source: Source) -> (r: Result<(), Error>)
        requires
            old(self).wf(),
        ensures
            final(self).wf(),
            spec_contains_name(old(self)@, name@) ==> (r matches Err(e) && (
            e matches Error::DuplicateName(n) && n@ == name@) && final(self)@ == old(self)@),
            !spec_contains_name(old(self)@, name@) ==> r is Ok && final(self)@ == old(self)@.push(
                (name@, source@),
            ),
    {
        match self.index_of(name.as_str()) {
            Some(_) => Err(Error::DuplicateName(name)),
            None => {
                self.entries.push(Entry { name, source });
                proof {
                    assert(final(self)@ =~= old(self)@.push((name@, source@)));
                    assert forall|i: int, j: int|
                        0 <= i < j < self.entries@.len() implies self.entries@[i].name@
                        != self.entries@[j].name@ by {
                        if j == self.entries@.len() - 1 {
                            assert(old(self)@[i].0 == self.entries@[i].name@);
                            assert(old(self)@[i].0 != name@);
                        }
                    }
                }
                Ok(())
            },
        }
    }

    /// Replace the source under an existing name; an unknown name is an
    /// error and the registry stays as it was.
    pub fn set(&mut self, name: &str, source: Source) -> (r: Result<(), Error>)
        requires
            old(self).wf(),
        ensures
            final(self).wf(),
            !spec_contains_name(old(self)@, name@) ==> (r matches Err(e) && (
            e matches Error::UnknownName(n) && n@ == name@) && final(self)@ == old(self)@),
            spec_contains_name(old(self)@, name@) ==> r is Ok && exists|i: int|
                0 <= i < old(self)@.len() && old(self)@[i].0 == name@ && final(self)@ == old(
                    self,
                )@.update(i, (name@, source@)),
    {
        match self.index_of(name) {
            Some(i) => {
                self.entries.remove(i);
                self.entries.insert(i, Entry { name: name.to_owned(), source });
                proof {
                    assert(final(self)@ =~= old(self)@.update(i as int, (name@, source@)));
                }
                Ok(())
            },
            None => Err(Error::UnknownName(name.to_owned())),
        }
    }

    /// Delete the source under an existing name; an unknown name is an error
    /// and the registry stays as it was.
    pub fn remove(&mut self, name: &str) -> (r: Result<(), Error>)
        requires
            old(self).wf(),
        ensures
            final(self).wf(),
            !spec_contains_name(old(self)@, name@) ==> (r matches Err(e) && (
            e matches Error::UnknownName(n) && n@ == name@) && final(self)@ == old(self)@),
            spec_contains_name(old(self)@, name@) ==> r is Ok && exists|i: int|
                0 <= i < old(self)@.len() && old(self)@[i].0 == name@ && final(self)@ == old(
                    self,
                )@.remove(i),
    {
        match self.index_of(name) {
            Some(i) => {
                self.entries.remove(i);
                proof {
                    assert(final(self)@ =~= old(self)@.remove(i as int));
                }
                Ok(())
            },
            None => Err(Error::UnknownName(name.to_owned())),
        }
    }
}

} // verus!
