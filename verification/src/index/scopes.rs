//! A map from pairs of names, a unit's and a variable's, to values, in which
//! every unit has a scope of its own.

use vstd::prelude::*;
use vstd::hash_map::StringHashMap;

verus! {

/// `scopes` with `value` under `name` in the scope of `unit`, which is new
/// if the unit had none.
pub open spec fn scoped_insert<V>(
    scopes: Map<Seq<char>, Map<Seq<char>, V>>,
    unit: Seq<char>,
    name: Seq<char>,
    value: V,
) -> Map<Seq<char>, Map<Seq<char>, V>> {
    let scope = if scopes.contains_key(unit) {
        scopes[unit]
    } else {
        Map::empty()
    };
    scopes.insert(unit, scope.insert(name, value))
}

/// What `scopes` holds under `name` in the scope of `unit`, if anything.
pub open spec fn scoped_get<V>(
    scopes: Map<Seq<char>, Map<Seq<char>, V>>,
    unit: Seq<char>,
    name: Seq<char>,
) -> Option<V> {
    if scopes.contains_key(unit) && scopes[unit].contains_key(name) {
        Some(scopes[unit][name])
    } else {
        None
    }
}

/// The scopes of all units. Each unit has a slot, and the slot holds the
/// unit's scope: a map from names to values.
#[verifier::reject_recursive_types(V)]
pub struct ScopedMap<V> {
    slots: StringHashMap<usize>,
    scopes: Vec<StringHashMap<V>>,
}

impl<V> View for ScopedMap<V> {
    type V = Map<Seq<char>, Map<Seq<char>, V>>;

    closed spec fn view(&self) -> Map<Seq<char>, Map<Seq<char>, V>> {
        Map::new(
            |unit: Seq<char>| self.slots@.contains_key(unit),
            |unit: Seq<char>| self.scopes[self.slots@[unit] as int]@,
        )
    }
}

impl<V> ScopedMap<V> {
    /// Every unit's slot exists, and no two units share one.
    #[verifier::type_invariant]
    spec fn well_formed(self) -> bool {
        &&& forall|unit: Seq<char>| #[trigger]
            self.slots@.contains_key(unit) ==> self.slots@[unit] < self.scopes.len()
        &&& forall|one: Seq<char>, other: Seq<char>|
            #![trigger self.slots@[one], self.slots@[other]]
            self.slots@.contains_key(one) && self.slots@.contains_key(other) && self.slots@[one]
                == self.slots@[other] ==> one == other
    }

    /// A map without any scope.
    pub fn new() -> (scopes: Self)
        ensures
            scopes@ == Map::<Seq<char>, Map<Seq<char>, V>>::empty(),
    {
        let scopes = ScopedMap { slots: StringHashMap::new(), scopes: Vec::new() };
        assert(scopes@ =~= Map::<Seq<char>, Map<Seq<char>, V>>::empty());
        scopes
    }

    /// The value under `name` in the scope of `unit`.
    pub fn get(&self, unit: &str, name: &str) -> (value: Option<&V>)
        ensures
            match value {
                Some(value) => scoped_get(self@, unit@, name@) == Some(*value),
                None => scoped_get(self@, unit@, name@) is None,
            },
    {
        proof {
            use_type_invariant(self);
        }
        match self.slots.get(unit) {
            Some(slot) => self.scopes[*slot].get(name),
            None => None,
        }
    }

    /// Puts `value` under `name` in the scope of `unit`, in place of what
    /// was there. The scopes of other units stay as they are.
    pub fn insert(&mut self, unit: String, name: String, value: V)
        ensures
            final(self)@ == scoped_insert(old(self)@, unit@, name@, value),
    {
        proof {
            use_type_invariant(&*self);
        }
        // The invariant has to hold whenever `self` is touched, so both
        // fields are taken out, changed, and put back.
        let mut slots = StringHashMap::new();
        let mut scopes = Vec::new();
        std::mem::swap(&mut slots, &mut self.slots);
        std::mem::swap(&mut scopes, &mut self.scopes);
        let found = match slots.get(unit.as_str()) {
            Some(slot) => Some(*slot),
            None => None,
        };
        match found {
            Some(slot) => {
                scopes[slot].insert(name, value);
            },
            None => {
                let mut scope = StringHashMap::new();
                scope.insert(name, value);
                let slot: usize = scopes.len();
                scopes.push(scope);
                slots.insert(unit, slot);
            },
        }
        self.scopes = scopes;
        self.slots = slots;
        assert(self@ =~= scoped_insert(old(self)@, unit@, name@, value));
    }
}

} // verus!
