use vstd::prelude::*;
use crate::attribute::{Attribute, AttributeValue};
use crate::error::Error;
use crate::text::{is_valid_name, spec_is_valid_name, str_equal};

verus! {

/// The abstract content of a registry: its entries as (name, value) pairs,
/// in insertion order.
pub type Entries = Seq<(Seq<char>, AttributeValue)>;

/// No two entries share a name.
pub open spec fn names_unique(s: Entries) -> bool {
    forall|i: int, j: int| 0 <= i < s.len() && 0 <= j < s.len() && i != j ==> s[i].0 != s[j].0
}

/// Every entry's name is a valid attribute name.
pub open spec fn names_valid(s: Entries) -> bool {
    forall|i: int| 0 <= i < s.len() ==> spec_is_valid_name(#[trigger] s[i].0)
}

/// Some entry has the name.
pub open spec fn has_name(s: Entries, name: Seq<char>) -> bool {
    exists|i: int| 0 <= i < s.len() && s[i].0 == name
}

/// Position of the entry with the name, or -1 when there is none.
pub open spec fn index_of(s: Entries, name: Seq<char>) -> int {
    if has_name(s, name) {
        choose|i: int| 0 <= i < s.len() && s[i].0 == name
    } else {
        -1
    }
}

/// The value stored under the name, if any.
pub open spec fn lookup(s: Entries, name: Seq<char>) -> Option<AttributeValue> {
    if has_name(s, name) {
        Some(s[index_of(s, name)].1)
    } else {
        None
    }
}

/// The entries after inserting `value` under `name`, or the error that the
/// insertion fails with.
pub open spec fn spec_insert(s: Entries, name: Seq<char>, value: AttributeValue) -> Result<Entries, Error> {
    if !spec_is_valid_name(name) {
        Err(Error::InvalidName)
    } else if has_name(s, name) {
        if s[index_of(s, name)].1.spec_same_type(value) {
            Ok(s.update(index_of(s, name), (name, value)))
        } else {
            Err(Error::TypeMismatch)
        }
    } else {
        Ok(s.push((name, value)))
    }
}

/// The entries after removing the entry named `name`, if there is one.
pub open spec fn spec_erase(s: Entries, name: Seq<char>) -> Entries {
    if has_name(s, name) {
        s.remove(index_of(s, name))
    } else {
        s
    }
}

/// What building a registry from a list of entries gives: the entries
/// themselves when their names are valid and unique.
pub open spec fn spec_from_entries(s: Entries) -> Result<Entries, Error> {
    if !names_valid(s) {
        Err(Error::InvalidName)
    } else if !names_unique(s) {
        Err(Error::InvalidArgument)
    } else {
        Ok(s)
    }
}

/// Erasing a name that is absent leaves the entries exactly as they were.
pub proof fn lemma_erase_absent(s: Entries, name: Seq<char>)
    requires
        !has_name(s, name),
    ensures
        spec_erase(s, name) == s,
{
}

/// In entries with unique names, the entry that has the name is the one
/// `index_of` picks.
pub proof fn lemma_index_of_unique(s: Entries, name: Seq<char>, k: int)
    requires
        names_unique(s),
        0 <= k < s.len(),
        s[k].0 == name,
    ensures
        has_name(s, name),
        index_of(s, name) == k,
        lookup(s, name) == Some(s[k].1),
{
}

/// An ordered set of named, typed attributes.
#[derive(Clone, Debug)]
pub struct AttributeRegistry {
    entries: Vec<Attribute>,
}

impl AttributeRegistry {
    pub closed spec fn view(&self) -> Entries {
        self.entries@.map_values(|a: Attribute| a@)
    }

    /// Names are valid and unique.
    pub open spec fn wf(&self) -> bool {
        names_unique(self@) && names_valid(self@)
    }

    pub fn new() -> (r: AttributeRegistry)
        ensures
            r.wf(),
            r@ == Seq::<(Seq<char>, AttributeValue)>::empty(),
    {
        let r = AttributeRegistry { entries: Vec::new() };
        assert(r@ =~= Seq::<(Seq<char>, AttributeValue)>::empty());
        r
    }

    pub fn len(&self) -> (r: usize)
        ensures
            r == self@.len(),
    {
        self.entries.len()
    }

    /// The entry at position `i`, in insertion order.
    pub fn get(&self, i: usize) -> (r: &Attribute)
        requires
            i < self@.len(),
        ensures
            r@ == self@[i as int],
    {
        &self.entries[i]
    }

    /// The value of the entry at position `i`, for mutation in place; the
    /// entry keeps its name and position.
    pub fn value_mut(&mut self, i: usize) -> (r: &mut AttributeValue)
        requires
            i < old(self)@.len(),
        ensures
            *r == old(self)@[i as int].1,
            final(self)@ == old(self)@.update(i as int, (old(self)@[i as int].0, *final(r))),
    {
        &mut self.entries[i].value
    }

    /// Position of the entry named `name`, if there is one.
    pub fn find_index(&self, name: &str) -> (r: Option<usize>)
        requires
            self.wf(),
        ensures
            r is Some <==> has_name(self@, name@),
            r matches Some(i) ==> i == index_of(self@, name@) && i < self@.len(),
    {
        let n = self.entries.len();
        let mut i: usize = 0;
        while i < n
            invariant
                n == self@.len(),
                self.wf(),
                i <= n,
                forall|k: int| 0 <= k < i ==> self@[k].0 != name@,
            decreases n - i,
        {
            assert(self@[i as int] == self.entries@[i as int]@);
            if str_equal(self.entries[i].name.as_str(), name) {
                proof { lemma_index_of_unique(self@, name@, i as int); }
                return Some(i);
            }
            i = i + 1;
        }
        None
    }

    /// The value stored under `name`, if any.
    pub fn find(&self, name: &str) -> (r: Option<&AttributeValue>)
        requires
            self.wf(),
        ensures
            r is Some <==> has_name(self@, name@),
            r matches Some(v) ==> lookup(self@, name@) == Some(*v),
    {
        match self.find_index(name) {
            Some(i) => {
                assert(self@[i as int] == self.entries@[i as int]@);
                Some(&self.entries[i].value)
            },
            None => None,
        }
    }

    /// Stores `value` under `name`. An existing entry keeps its position and
    /// must have the same type; a new one goes at the end.
    pub fn insert(&mut self, name: &str, value: AttributeValue) -> (r: Result<(), Error>)
        requires
            old(self).wf(),
        ensures
            final(self).wf(),
            match spec_insert(old(self)@, name@, value) {
                Ok(s) => r is Ok && final(self)@ == s,
                Err(e) => r == Err::<(), Error>(e) && final(self)@ == old(self)@,
            },
    {
        if !is_valid_name(name) {
            return Err(Error::InvalidName);
        }
        match self.find_index(name) {
            Some(i) => {
                assert(self@[i as int] == self.entries@[i as int]@);
                if !self.entries[i].value.same_type(&value) {
                    return Err(Error::TypeMismatch);
                }
                let ghost before = self@;
                self.entries.set(i, Attribute { name: name.to_owned(), value });
                assert(self@ =~= before.update(i as int, (name@, value)));
                Ok(())
            },
            None => {
                let ghost before = self@;
                self.entries.push(Attribute { name: name.to_owned(), value });
                assert(self@ =~= before.push((name@, value)));
                Ok(())
            },
        }
    }

    /// Removes the entry named `name`; a name that is absent is no error.
    pub fn erase(&mut self, name: &str) -> (r: Result<(), Error>)
        requires
            old(self).wf(),
        ensures
            final(self).wf(),
            !spec_is_valid_name(name@) ==> r == Err::<(), Error>(Error::InvalidName) && final(self)@
                == old(self)@,
            spec_is_valid_name(name@) ==> r is Ok && final(self)@ == spec_erase(old(self)@, name@),
    {
        if !is_valid_name(name) {
            return Err(Error::InvalidName);
        }
        match self.find_index(name) {
            Some(i) => {
                let ghost before = self@;
                let _removed = self.entries.remove(i);
                assert(self@ =~= before.remove(i as int));
                Ok(())
            },
            None => Ok(()),
        }
    }

    /// A registry holding `entries` in their order, if their names are valid
    /// and unique.
    pub fn from_entries(entries: Vec<Attribute>) -> (r: Result<AttributeRegistry, Error>)
        ensures
            match spec_from_entries(entries@.map_values(|a: Attribute| a@)) {
                Ok(s) => r matches Ok(reg) && reg@ == s && reg.wf(),
                Err(e) => r matches Err(x) && x == e,
            },
    {
        let ghost s = entries@.map_values(|a: Attribute| a@);
        let n = entries.len();
        let mut i: usize = 0;
        while i < n
            invariant
                n == s.len(),
                s == entries@.map_values(|a: Attribute| a@),
                i <= n,
                forall|k: int| 0 <= k < i ==> spec_is_valid_name(#[trigger] s[k].0),
            decreases n - i,
        {
            assert(s[i as int] == entries@[i as int]@);
            if !is_valid_name(entries[i].name.as_str()) {
                assert(!spec_is_valid_name(s[i as int].0));
                return Err(Error::InvalidName);
            }
            i = i + 1;
        }
        let mut i: usize = 0;
        while i < n
            invariant
                n == s.len(),
                s == entries@.map_values(|a: Attribute| a@),
                names_valid(s),
                i <= n,
                forall|a: int, b: int| 0 <= a < i && 0 <= b < n && a != b ==> s[a].0 != s[b].0,
            decreases n - i,
        {
            let mut j: usize = 0;
            while j < n
                invariant
                    n == s.len(),
                    s == entries@.map_values(|a: Attribute| a@),
                    names_valid(s),
                    i < n,
                    j <= n,
                    forall|a: int, b: int| 0 <= a < i && 0 <= b < n && a != b ==> s[a].0 != s[b].0,
                    forall|b: int| 0 <= b < j && b != i ==> s[i as int].0 != s[b].0,
                decreases n - j,
            {
                assert(s[i as int] == entries@[i as int]@);
                assert(s[j as int] == entries@[j as int]@);
                if j != i && entries[i].name == entries[j].name {
                    assert(s[i as int].0 == s[j as int].0);
                    assert(!names_unique(s));
                    return Err(Error::InvalidArgument);
                }
                j = j + 1;
            }
            i = i + 1;
        }
        Ok(AttributeRegistry { entries })
    }

    /// Takes the entries out, in insertion order.
    pub fn into_entries(self) -> (r: Vec<Attribute>)
        ensures
            r@.map_values(|a: Attribute| a@) == self@,
    {
        self.entries
    }
}

} // verus!
