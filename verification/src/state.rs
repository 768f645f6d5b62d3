//! The state of the analysis at one point of a function: what each local
//! holds.

use crate::file_format::{FunctionView, LocalIndex};
use crate::value::AbstractValue;
use std::collections::BTreeMap;
use vstd::prelude::*;

verus! {

/// Whether a join changed the state that it joined into.
#[derive(Clone, Copy, Debug, PartialEq, Eq, Structural)]
pub enum JoinResult {
    Unchanged,
    Changed,
}

/// What each local of the function holds. A local that is not in the map
/// holds no value; where two states are joined it counts as `NonID`.
#[derive(Debug, PartialEq, Eq)]
pub struct AbstractState {
    locals: BTreeMap<LocalIndex, AbstractValue>,
}

/// The value of `local` in `locals`, `NonID` where it has none.
pub open spec fn value_at(locals: Map<LocalIndex, AbstractValue>, local: LocalIndex) -> AbstractValue {
    if locals.contains_key(local) {
        locals[local]
    } else {
        AbstractValue::NonID
    }
}

/// Whether `other` has the same locals as `locals`, and an id wherever
/// `locals` has one.
pub open spec fn locals_le(
    locals: Map<LocalIndex, AbstractValue>,
    other: Map<LocalIndex, AbstractValue>,
) -> bool {
    &&& locals.dom() == other.dom()
    &&& forall|local: LocalIndex|
        locals.contains_key(local) ==> locals[local].le(other[local])
}

/// The number of locals below `bound` that hold an id in `locals`.
pub open spec fn ids_below(locals: Map<LocalIndex, AbstractValue>, bound: nat) -> nat
    decreases bound,
{
    if bound == 0 {
        0
    } else {
        ids_below(locals, (bound - 1) as nat) + (if bound <= 256 && value_at(
            locals,
            (bound - 1) as LocalIndex,
        ) == AbstractValue::ID {
            1nat
        } else {
            0nat
        })
    }
}

/// The number of locals that hold an id in `locals`.
pub open spec fn id_count(locals: Map<LocalIndex, AbstractValue>) -> nat {
    ids_below(locals, 256)
}

/// The locals at the entry of a function with `parameters` parameters: the
/// parameters, each `NonID`.
pub open spec fn initial_locals(parameters: nat) -> Map<LocalIndex, AbstractValue> {
    Map::new(|local: LocalIndex| (local as nat) < parameters, |local: LocalIndex| AbstractValue::NonID)
}

/// The join of `incoming` into `target`, local by local. A local of
/// `incoming` gets the join of both values; any other local of `target`
/// stays as it is.
pub open spec fn join_locals(
    target: Map<LocalIndex, AbstractValue>,
    incoming: Map<LocalIndex, AbstractValue>,
) -> Map<LocalIndex, AbstractValue> {
    Map::new(
        |local: LocalIndex| target.contains_key(local) || incoming.contains_key(local),
        |local: LocalIndex|
            if incoming.contains_key(local) {
                incoming[local].spec_join(value_at(target, local))
            } else {
                target[local]
            },
    )
}

/// Whether the join of `incoming` into `target` changes the state: some
/// local holds an id behind the join that held none before it.
pub open spec fn join_changes(
    target: Map<LocalIndex, AbstractValue>,
    incoming: Map<LocalIndex, AbstractValue>,
) -> bool {
    exists|local: LocalIndex| rises_at(target, incoming, local)
}

/// Whether the join of `incoming` into `target` changes what `local` holds.
/// A join takes no id away, so the change is from no id to an id.
pub open spec fn rises_at(
    target: Map<LocalIndex, AbstractValue>,
    incoming: Map<LocalIndex, AbstractValue>,
    local: LocalIndex,
) -> bool {
    value_at(join_locals(target, incoming), local) != value_at(target, local)
}

/// The locals of the first `end` entries of `entries`.
spec fn keys_before(entries: Seq<(&LocalIndex, &AbstractValue)>, end: int) -> Set<LocalIndex> {
    Set::new(
        |local: LocalIndex|
            exists|i: int|
                0 <= i < end && i < entries.len() && *(#[trigger] entries[i]).0 == local,
    )
}

impl View for AbstractState {
    type V = Map<LocalIndex, AbstractValue>;

    closed spec fn view(&self) -> Map<LocalIndex, AbstractValue> {
        self.locals@
    }
}

impl Clone for AbstractState {
    /// A state in which each local holds what it holds in `self`.
    fn clone(&self) -> (copy: AbstractState)
        ensures
            copy@ == self@,
    {
        AbstractState { locals: self.locals.clone() }
    }
}

impl AbstractState {
    /// The state at the entry of the function: its parameters, none of
    /// which holds an id.
    pub fn new(function_view: &FunctionView) -> (state: AbstractState)
        ensures
            state@ == initial_locals(function_view.parameters.len as nat),
    {
        let mut state = AbstractState { locals: BTreeMap::new() };
        let parameters = function_view.parameters.len;
        let mut param_idx: usize = 0;
        while param_idx < parameters && param_idx < 256
            invariant
                param_idx <= 256,
                param_idx <= parameters,
                state.locals@ == initial_locals(param_idx as nat),
            decreases 256 - param_idx,
        {
            state.locals.insert(param_idx as LocalIndex, AbstractValue::NonID);
            param_idx += 1;
            assert(state.locals@ =~= initial_locals(param_idx as nat));
        }
        assert(state.locals@ =~= initial_locals(parameters as nat));
        state
    }

    /// The value of `local`, if it holds one.
    pub fn get(&self, local: LocalIndex) -> (value: Option<AbstractValue>)
        ensures
            value == (if self@.contains_key(local) {
                Some(self@[local])
            } else {
                None
            }),
    {
        match self.locals.get(&local) {
            Some(value) => Some(*value),
            None => None,
        }
    }

    /// Gives `local` the value `value`.
    pub fn insert(&mut self, local: LocalIndex, value: AbstractValue)
        ensures
            final(self)@ == old(self)@.insert(local, value),
    {
        self.locals.insert(local, value);
    }

    /// Takes the value out of `local`, if it holds one.
    pub fn remove(&mut self, local: LocalIndex) -> (value: Option<AbstractValue>)
        ensures
            final(self)@ == old(self)@.remove(local),
            value == (if old(self)@.contains_key(local) {
                Some(old(self)@[local])
            } else {
                None
            }),
    {
        self.locals.remove(&local)
    }

    /// Joins `state` into `self` and says whether that changed `self`.
    pub fn join(&mut self, state: &AbstractState) -> (result: JoinResult)
        ensures
            final(self)@ == join_locals(old(self)@, state@),
            result == (if join_changes(old(self)@, state@) {
                JoinResult::Changed
            } else {
                JoinResult::Unchanged
            }),
    {
        let ghost target = self.locals@;
        let ghost incoming = state.locals@;
        let ghost mut seen: Set<LocalIndex> = Set::empty();
        let mut changed = false;
        for entry in entries: state.locals.iter()
            invariant
                incoming == state.locals@,
                forall|local: LocalIndex|
                    incoming.contains_key(local) ==> exists|i: int|
                        0 <= i < entries.seq().len() && *(#[trigger] entries.seq()[i]).0 == local,
                forall|i: int|
                    0 <= i < entries.seq().len() ==> incoming.contains_key(
                        *(#[trigger] entries.seq()[i]).0,
                    ) && incoming[*entries.seq()[i].0] == *entries.seq()[i].1,
                seen == keys_before(entries.seq(), entries.index()),
                entries.index() == entries.seq().len() ==> seen == incoming.dom(),
                self.locals@ == join_locals(target, incoming.restrict(seen)),
                changed <==> exists|local: LocalIndex|
                    seen.contains(local) && rises_at(target, incoming, local),
        {
            let (local, value) = entry;
            let old_value = match self.locals.get(local) {
                Some(old_value) => *old_value,
                None => AbstractValue::NonID,
            };
            let joined = value.join(&old_value);
            if joined != old_value {
                changed = true;
            }
            self.locals.insert(*local, joined);
            proof {
                let ghost before = seen;
                seen = seen.insert(*local);
                // An entry met before has been joined in already; joining it
                // in again changes nothing.
                assert(old_value == if before.contains(*local) {
                    incoming[*local].spec_join(value_at(target, *local))
                } else {
                    value_at(target, *local)
                });
                if rises_at(target, incoming, *local) {
                    assert(seen.contains(*local));
                }
                if changed {
                    let witness = choose|l: LocalIndex|
                        (before.contains(l) || l == *local) && rises_at(target, incoming, l);
                    assert(seen.contains(witness) && rises_at(target, incoming, witness));
                }
            }
            assert(seen =~= keys_before(entries.seq(), entries.index() + 1));
            assert(entries.index() + 1 == entries.seq().len() ==> seen =~= incoming.dom());
        }
        assert(incoming.restrict(seen) =~= incoming);
        if changed {
            JoinResult::Changed
        } else {
            JoinResult::Unchanged
        }
    }
}

} // verus!
