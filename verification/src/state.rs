//! The global environment.
//!
//! A single mapping from variable name to value, owned by the evaluator
//! for the whole life of a program.  Assignment overwrites any existing
//! binding; lookup of an unbound name is left to the caller to turn
//! into a fault.  Its mathematical content is a `Map<Seq<char>,
//! ValModel>`.

use vstd::hash_map::StringHashMap;
use vstd::prelude::*;

use crate::value::{val_model, ValModel, ValueType};

verus! {

/// The mathematical content of an environment mapping.
pub open spec fn env_model(m: Map<Seq<char>, ValueType>) -> Map<Seq<char>, ValModel> {
    m.map_values(|v: ValueType| val_model(v))
}

/// The evaluator's mutable state: the one global environment.
pub struct State {
    pub globals: StringHashMap<ValueType>,
}

impl State {
    /// The name-to-value mapping this environment holds.
    pub open spec fn model(self) -> Map<Seq<char>, ValModel> {
        env_model(self.globals@)
    }

    /// An empty environment.
    pub fn new() -> (s: State)
        ensures
            s.model() == Map::<Seq<char>, ValModel>::empty(),
    {
        let s = State { globals: StringHashMap::new() };
        proof {
            assert(s.model() =~= Map::<Seq<char>, ValModel>::empty());
        }
        s
    }

    /// Binds `name` to `v`, overwriting any prior binding of that name.
    pub fn bind(&mut self, name: String, v: ValueType)
        ensures
            final(self).model() == old(self).model().insert(name@, val_model(v)),
    {
        let ghost n = name@;
        let ghost vm = val_model(v);
        self.globals.insert(name, v);
        proof {
            assert(self.model() =~= old(self).model().insert(n, vm));
        }
    }

    /// Looks the name up; `None` when it is unbound.
    pub fn lookup(&self, name: &str) -> (r: Option<ValueType>)
        ensures
            match r {
                Some(v) => self.model().contains_key(name@) && val_model(v) == self.model().index(
                    name@,
                ),
                None => !self.model().contains_key(name@),
            },
    {
        match self.globals.get(name) {
            Some(v) => {
                proof {
                    assert(self.model().contains_key(name@));
                    assert(self.model()[name@] == val_model(self.globals@[name@]));
                }
                Some(v.duplicate())
            },
            None => {
                proof {
                    assert(!self.model().contains_key(name@));
                }
                None
            },
        }
    }
}

} // verus!
