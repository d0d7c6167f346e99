//! A snapshot of the configuration store: the string values that were read, by
//! scope, key path and value name.

use vstd::prelude::*;
use vstd::string::*;

verus! {

/// A partition of the configuration store.
#[derive(Clone, Copy, Debug, PartialEq, Eq, Structural)]
pub enum Scope {
    /// The values of the current user.
    User,
    /// The values of the whole machine.
    Machine,
}

/// The address of one value: where a search looks.
#[derive(Clone, Debug)]
pub struct SearchTuple {
    pub scope: Scope,
    pub key_path: String,
    pub value_name: String,
}

/// A `SearchTuple` as a mathematical value.
pub ghost struct TupleModel {
    pub scope: Scope,
    pub key_path: Seq<char>,
    pub value_name: Seq<char>,
}

impl View for SearchTuple {
    type V = TupleModel;

    open spec fn view(&self) -> TupleModel {
        TupleModel { scope: self.scope, key_path: self.key_path@, value_name: self.value_name@ }
    }
}

impl SearchTuple {
    /// The tuple of `scope`, `key_path` and `value_name`.
    pub fn new(scope: Scope, key_path: &str, value_name: &str) -> (r: SearchTuple)
        ensures
            r@ == (TupleModel { scope, key_path: key_path@, value_name: value_name@ }),
    {
        SearchTuple { scope, key_path: key_path.to_owned(), value_name: value_name.to_owned() }
    }

    /// Whether both tuples address the same value.
    pub fn same_as(&self, other: &SearchTuple) -> (r: bool)
        ensures
            r == (self@ == other@),
    {
        self.scope == other.scope && self.key_path == other.key_path && self.value_name
            == other.value_name
    }
}

/// One string value of the store with its address.
#[derive(Clone, Debug)]
pub struct StoredValue {
    pub at: SearchTuple,
    pub data: String,
}

/// The map that a sequence of stored values stands for: of two values at one
/// address the later one counts.
pub open spec fn values_of(entries: Seq<StoredValue>) -> Map<TupleModel, Seq<char>>
    decreases entries.len(),
{
    if entries.len() == 0 {
        Map::empty()
    } else {
        values_of(entries.drop_last()).insert(entries.last().at@, entries.last().data@)
    }
}

/// What a map holds at a key, if anything.
pub open spec fn value_at(values: Map<TupleModel, Seq<char>>, at: TupleModel) -> Option<
    Seq<char>,
> {
    if values.dom().contains(at) {
        Some(values[at])
    } else {
        None
    }
}

/// The string values that were read from the configuration store. A key that
/// could not be opened, a value that is missing and a value of another type
/// than string are all absent from it.
#[derive(Clone, Debug)]
pub struct ConfigStore {
    pub entries: Vec<StoredValue>,
}

impl View for ConfigStore {
    type V = Map<TupleModel, Seq<char>>;

    open spec fn view(&self) -> Map<TupleModel, Seq<char>> {
        values_of(self.entries@)
    }
}

impl ConfigStore {
    /// A store without values.
    pub fn new() -> (r: ConfigStore)
        ensures
            r@ == Map::<TupleModel, Seq<char>>::empty(),
    {
        ConfigStore { entries: Vec::new() }
    }

    /// Sets the value at `scope`, `key_path` and `value_name` to `data`.
    pub fn record(&mut self, scope: Scope, key_path: &str, value_name: &str, data: &str)
        ensures
            final(self)@ == old(self)@.insert(
                TupleModel { scope, key_path: key_path@, value_name: value_name@ },
                data@,
            ),
    {
        let at = SearchTuple::new(scope, key_path, value_name);
        let entry = StoredValue { at, data: data.to_owned() };
        let ghost before = self.entries@;
        self.entries.push(entry);
        proof {
            assert(self.entries@.drop_last() =~= before);
        }
    }

    /// The value at `at`, if the store holds one.
    pub fn read(&self, at: &SearchTuple) -> (r: Option<String>)
        ensures
            match r {
                Some(data) => value_at(self@, at@) == Some(data@),
                None => value_at(self@, at@) is None,
            },
    {
        let mut i: usize = self.entries.len();
        proof {
            assert(self.entries@.take(i as int) =~= self.entries@);
        }
        while i > 0
            invariant
                i <= self.entries@.len(),
                value_at(values_of(self.entries@.take(i as int)), at@) == value_at(self@, at@),
            decreases i,
        {
            let entry = &self.entries[i - 1];
            proof {
                assert(self.entries@.take(i as int).drop_last() =~= self.entries@.take(i - 1));
            }
            if entry.at.same_as(at) {
                return Some(entry.data.clone());
            }
            i = i - 1;
        }
        None
    }
}

} // verus!
