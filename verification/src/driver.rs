//! The analysis of a whole module, function by function.
//!
//! The walk over the blocks of one function, to a fixed point, is the work
//! of an engine that the caller brings. It is handed the transfer function
//! and the state at the entry of the function, and answers whether the
//! function was accepted.

use crate::analysis::IDLeakAnalysis;
use crate::error::VerifierError;
use crate::file_format::{lookup, CompiledModule, FunctionView};
use crate::laws::{lemma_no_source_no_leak, lemma_reached_frames_id_free};
use crate::semantics::Frame;
use crate::state::{initial_locals, AbstractState};
use crate::value::AbstractValue;
use vstd::prelude::*;

verus! {

/// Whether `analysis` and `state` are what the engine is handed for the
/// function definition `index` of `module`: the transfer function for that
/// function, with an empty stack, and the state at its entry.
pub open spec fn is_job<'a>(
    module: &'a CompiledModule,
    index: int,
    analysis: IDLeakAnalysis<'a>,
    state: AbstractState,
) -> bool {
    &&& module.has_body(index)
    &&& module.spec_function_view(index) matches Some(function_view)
    &&& analysis.spec_binary_view() == *module
    &&& analysis.spec_function_view() == function_view
    &&& analysis@ == Seq::<AbstractValue>::empty()
    &&& state@ == initial_locals(function_view.parameters.len as nat)
}

/// Whether the engine `analyze` can be called with each function of
/// `module` that it is handed.
pub open spec fn can_analyze<'a, F>(
    module: &'a CompiledModule,
    analyze: F,
) -> bool
    where
        F: Fn(usize, IDLeakAnalysis<'a>, AbstractState) -> Result<(), VerifierError>,
{
    forall|index: usize, analysis: IDLeakAnalysis<'a>, state: AbstractState|
        #[trigger] is_job(module, index as int, analysis, state) ==> call_requires(
            analyze,
            (index, analysis, state),
        )
}

/// Whether the function definition `index` of `module` can come out as
/// `outcome`. A function without a body is passed over. One whose handle
/// does not resolve breaks an invariant. For any other, the engine
/// `analyze` decides.
pub open spec fn may_yield<'a, F>(
    module: &'a CompiledModule,
    analyze: F,
    index: int,
    outcome: Result<(), VerifierError>,
) -> bool
    where
        F: Fn(usize, IDLeakAnalysis<'a>, AbstractState) -> Result<(), VerifierError>,
{
    if !module.has_body(index) {
        outcome is Ok
    } else if module.spec_function_view(index) is None {
        outcome == Err::<(), VerifierError>(VerifierError::InvariantViolation)
    } else {
        exists|analysis: IDLeakAnalysis<'a>, state: AbstractState|
            #[trigger] is_job(module, index, analysis, state) && call_ensures(
                analyze,
                (index as usize, analysis, state),
                outcome,
            )
    }
}

/// Whether every function definition of `module` before `end` can come out
/// accepted.
pub open spec fn accepts_until<'a, F>(
    module: &'a CompiledModule,
    analyze: F,
    end: int,
) -> bool
    where
        F: Fn(usize, IDLeakAnalysis<'a>, AbstractState) -> Result<(), VerifierError>,
{
    forall|index: int| 0 <= index < end ==> #[trigger] may_yield(module, analyze, index, Ok(()))
}

/// Whether `module` can come out accepted: each of its functions can.
pub open spec fn accepts<'a, F>(
    module: &'a CompiledModule,
    analyze: F,
) -> bool
    where
        F: Fn(usize, IDLeakAnalysis<'a>, AbstractState) -> Result<(), VerifierError>,
{
    accepts_until(module, analyze, module.function_defs@.len() as int)
}

/// Whether `module` can come out rejected with `error`: one of its
/// functions can, and those before it can come out accepted.
pub open spec fn rejects<'a, F>(
    module: &'a CompiledModule,
    analyze: F,
    error: VerifierError,
) -> bool
    where
        F: Fn(usize, IDLeakAnalysis<'a>, AbstractState) -> Result<(), VerifierError>,
{
    exists|index: int|
        0 <= index < module.function_defs@.len() && #[trigger] may_yield(
            module,
            analyze,
            index,
            Err(error),
        ) && accepts_until(module, analyze, index)
}

/// Analyses every function of `module` that has a body, in the order of
/// their definitions, and stops at the first that is not accepted.
fn verify_id_leak<'a, F>(
    module: &'a CompiledModule,
    analyze: F,
) -> (res: Result<(), VerifierError>)
    where
        F: Fn(usize, IDLeakAnalysis<'a>, AbstractState) -> Result<(), VerifierError>,
    requires
        can_analyze(module, analyze),
    ensures
        match res {
            Ok(()) => accepts(module, analyze),
            Err(error) => rejects(module, analyze, error),
        },
{
    let mut index: usize = 0;
    while index < module.function_defs.len()
        invariant
            index <= module.function_defs@.len(),
            accepts_until(module, analyze, index as int),
            can_analyze(module, analyze),
        decreases module.function_defs@.len() - index,
    {
        let func_def = &module.function_defs[index];
        if func_def.code.is_some() {
            let func_view = match lookup(&module.function_handles, func_def.function) {
                Some(handle) => FunctionView::function(module, handle),
                None => None,
            };
            let func_view = match func_view {
                Some(func_view) => func_view,
                None => {
                    assert(may_yield(
                        module,
                        analyze,
                        index as int,
                        Err(VerifierError::InvariantViolation),
                    ));
                    return Err(VerifierError::InvariantViolation);
                },
            };
            let initial_state = AbstractState::new(&func_view);
            let verifier = IDLeakAnalysis::new(module, &func_view);
            assert(is_job(module, index as int, verifier, initial_state));
            let outcome = analyze(index, verifier, initial_state);
            assert(may_yield(module, analyze, index as int, outcome));
            match outcome {
                Ok(()) => {
                    assert(outcome->Ok_0 == ());
                },
                Err(error) => {
                    return Err(error);
                },
            }
        }
        assert(may_yield(module, analyze, index as int, Ok(())));
        index += 1;
    }
    Ok(())
}

/// Verifies that no function of `module` lets the id of an object escape.
///
/// `analyze` is the engine that brings one function to its fixed point. It
/// is called for each function definition with a body, with the index of
/// the definition, the transfer function and the state at the entry of the
/// function. The first function that is not accepted ends the run.
pub fn verify_module<'a, F>(
    module: &'a CompiledModule,
    analyze: F,
) -> (res: Result<(), VerifierError>)
    where
        F: Fn(usize, IDLeakAnalysis<'a>, AbstractState) -> Result<(), VerifierError>,
    requires
        can_analyze(module, analyze),
    ensures
        match res {
            Ok(()) => accepts(module, analyze),
            Err(error) => rejects(module, analyze, error),
        },
{
    verify_id_leak(module, analyze)
}

/// The order of the function definitions does not decide whether a module
/// can come out accepted, and a rejection is that of one of its functions
/// in any order: which one is met first is all that the order decides.
///
/// `place` says where each definition of `module` stands in `reordered`,
/// and `back` is its inverse. The engine is taken to treat a function alike
/// wherever its definition stands.
pub proof fn lemma_order_of_definitions<'a, F>(
    module: &'a CompiledModule,
    reordered: &'a CompiledModule,
    analyze: F,
    place: spec_fn(int) -> int,
    back: spec_fn(int) -> int,
)
    where
        F: Fn(usize, IDLeakAnalysis<'a>, AbstractState) -> Result<(), VerifierError>,
    requires
        module.function_defs@.len() == reordered.function_defs@.len(),
        forall|index: int|
            0 <= index < module.function_defs@.len() ==> 0 <= #[trigger] place(index)
                < module.function_defs@.len() && back(place(index)) == index,
        forall|index: int|
            0 <= index < module.function_defs@.len() ==> 0 <= #[trigger] back(index)
                < module.function_defs@.len() && place(back(index)) == index,
        forall|index: int, outcome: Result<(), VerifierError>|
            0 <= index < module.function_defs@.len() ==> (#[trigger] may_yield(
                module,
                analyze,
                index,
                outcome,
            ) <==> may_yield(reordered, analyze, place(index), outcome)),
    ensures
        accepts(module, analyze) <==> accepts(reordered, analyze),
        forall|error: VerifierError| #[trigger]
            rejects(module, analyze, error) ==> exists|index: int|
                0 <= index < reordered.function_defs@.len() && #[trigger] may_yield(
                    reordered,
                    analyze,
                    index,
                    Err(error),
                ),
{
    let len = module.function_defs@.len() as int;
    if accepts(module, analyze) {
        assert forall|index: int| 0 <= index < len implies #[trigger] may_yield(
            reordered,
            analyze,
            index,
            Ok(()),
        ) by {
            assert(place(back(index)) == index);
            assert(may_yield(module, analyze, back(index), Ok(())));
        }
    }
    if accepts(reordered, analyze) {
        assert forall|index: int| 0 <= index < len implies #[trigger] may_yield(
            module,
            analyze,
            index,
            Ok(()),
        ) by {
            assert(may_yield(reordered, analyze, place(index), Ok(())));
        }
    }
    assert forall|error: VerifierError| #[trigger] rejects(module, analyze, error) implies exists|
        index: int,
    |
        0 <= index < reordered.function_defs@.len() && #[trigger] may_yield(
            reordered,
            analyze,
            index,
            Err(error),
        ) by {
        let index = choose|index: int|
            0 <= index < module.function_defs@.len() && #[trigger] may_yield(
                module,
                analyze,
                index,
                Err(error),
            ) && accepts_until(module, analyze, index);
        assert(may_yield(reordered, analyze, place(index), Err(error)));
    }
}

/// A module comes out one way only, with an engine that brings each
/// function to one outcome: analysed again, it is accepted again, or
/// rejected again with the same error.
pub proof fn lemma_one_outcome<'a, F>(
    module: &'a CompiledModule,
    analyze: F,
)
    where
        F: Fn(usize, IDLeakAnalysis<'a>, AbstractState) -> Result<(), VerifierError>,
    requires
        forall|index: int, outcome: Result<(), VerifierError>, other: Result<(), VerifierError>|
            0 <= index < module.function_defs@.len() && #[trigger] may_yield(
                module,
                analyze,
                index,
                outcome,
            ) && #[trigger] may_yield(module, analyze, index, other) ==> outcome == other,
    ensures
        forall|error: VerifierError|
            !(accepts(module, analyze) && #[trigger] rejects(module, analyze, error)),
        forall|error: VerifierError, other: VerifierError|
            #[trigger] rejects(module, analyze, error) && #[trigger] rejects(
                module,
                analyze,
                other,
            ) ==> error == other,
{
    assert forall|error: VerifierError|
        !(accepts(module, analyze) && #[trigger] rejects(module, analyze, error)) by {
        if accepts(module, analyze) && rejects(module, analyze, error) {
            let index = choose|index: int|
                0 <= index < module.function_defs@.len() && #[trigger] may_yield(
                    module,
                    analyze,
                    index,
                    Err(error),
                ) && accepts_until(module, analyze, index);
            assert(may_yield(module, analyze, index, Ok(())));
        }
    }
    assert forall|error: VerifierError, other: VerifierError|
        #[trigger] rejects(module, analyze, error) && #[trigger] rejects(
            module,
            analyze,
            other,
        ) implies error == other by {
        let first = choose|index: int|
            0 <= index < module.function_defs@.len() && #[trigger] may_yield(
                module,
                analyze,
                index,
                Err(error),
            ) && accepts_until(module, analyze, index);
        let second = choose|index: int|
            0 <= index < module.function_defs@.len() && #[trigger] may_yield(
                module,
                analyze,
                index,
                Err(other),
            ) && accepts_until(module, analyze, index);
        if first < second {
            assert(may_yield(module, analyze, first, Ok(())));
        } else if second < first {
            assert(may_yield(module, analyze, second, Ok(())));
        }
    }
}

/// A module whose functions all lack a body is accepted, whatever the
/// engine: no function is handed to it.
pub proof fn lemma_native_module_accepted<'a, F>(module: &'a CompiledModule, analyze: F)
    where
        F: Fn(usize, IDLeakAnalysis<'a>, AbstractState) -> Result<(), VerifierError>,
    requires
        forall|index: int| !module.has_body(index),
    ensures
        accepts(module, analyze),
        forall|error: VerifierError| !#[trigger] rejects(module, analyze, error),
{
    assert forall|index: int| 0 <= index < module.function_defs@.len() implies #[trigger] may_yield(
        module,
        analyze,
        index,
        Ok(()),
    ) by {
        assert(!module.has_body(index));
    }
    assert forall|error: VerifierError| !#[trigger] rejects(module, analyze, error) by {
        if rejects(module, analyze, error) {
            let index = choose|index: int|
                0 <= index < module.function_defs@.len() && #[trigger] may_yield(
                    module,
                    analyze,
                    index,
                    Err(error),
                ) && accepts_until(module, analyze, index);
            assert(!module.has_body(index));
        }
    }
}

/// Function definitions without a body change nothing: a module with more
/// of them than another, and the same functions otherwise in the same
/// order, can come out accepted where the other can, and rejected with an
/// error where the other can.
///
/// `place` says where each definition of `module` stands in `extended`, and
/// `back` where a definition of `extended` with a body stands in `module`.
/// The engine is taken to treat a function alike wherever its definition
/// stands.
pub proof fn lemma_native_definitions_change_nothing<'a, F>(
    module: &'a CompiledModule,
    extended: &'a CompiledModule,
    analyze: F,
    place: spec_fn(int) -> int,
    back: spec_fn(int) -> int,
)
    where
        F: Fn(usize, IDLeakAnalysis<'a>, AbstractState) -> Result<(), VerifierError>,
    requires
        forall|index: int|
            0 <= index < module.function_defs@.len() ==> 0 <= #[trigger] place(index)
                < extended.function_defs@.len(),
        forall|index: int, other: int|
            0 <= index < other < module.function_defs@.len() ==> #[trigger] place(index)
                < #[trigger] place(other),
        forall|index: int| #[trigger]
            extended.has_body(index) ==> 0 <= back(index) < module.function_defs@.len() && place(
                back(index),
            ) == index,
        forall|index: int, outcome: Result<(), VerifierError>|
            0 <= index < module.function_defs@.len() ==> (#[trigger] may_yield(
                module,
                analyze,
                index,
                outcome,
            ) <==> may_yield(extended, analyze, place(index), outcome)),
    ensures
        accepts(module, analyze) <==> accepts(extended, analyze),
        forall|error: VerifierError| #[trigger]
            rejects(module, analyze, error) <==> rejects(extended, analyze, error),
{
    let len = module.function_defs@.len() as int;
    // What stands before a function in one module stands before it in the
    // other, or has no body.
    assert forall|index: int|
        0 <= index < len && #[trigger] accepts_until(
            module,
            analyze,
            index,
        ) implies accepts_until(extended, analyze, place(index)) by {
        assert forall|at: int| 0 <= at < place(index) implies #[trigger] may_yield(
            extended,
            analyze,
            at,
            Ok(()),
        ) by {
            if extended.has_body(at) {
                let from = back(at);
                assert(place(from) == at);
                if from > index {
                    assert(place(index) < place(from));
                }
                assert(from < index);
                assert(may_yield(module, analyze, from, Ok(())));
            }
        }
    }
    assert forall|index: int|
        0 <= index < len && accepts_until(
            extended,
            analyze,
            place(index),
        ) implies #[trigger] accepts_until(module, analyze, index) by {
        assert forall|at: int| 0 <= at < index implies #[trigger] may_yield(
            module,
            analyze,
            at,
            Ok(()),
        ) by {
            assert(place(at) < place(index));
            assert(may_yield(extended, analyze, place(at), Ok(())));
        }
    }
    if accepts(module, analyze) {
        assert forall|at: int| 0 <= at < extended.function_defs@.len() implies #[trigger] may_yield(
            extended,
            analyze,
            at,
            Ok(()),
        ) by {
            if extended.has_body(at) {
                assert(place(back(at)) == at);
                assert(may_yield(module, analyze, back(at), Ok(())));
            }
        }
    }
    if accepts(extended, analyze) {
        assert forall|at: int| 0 <= at < len implies #[trigger] may_yield(
            module,
            analyze,
            at,
            Ok(()),
        ) by {
            assert(may_yield(extended, analyze, place(at), Ok(())));
        }
    }
    assert forall|error: VerifierError| #[trigger]
        rejects(module, analyze, error) <==> rejects(extended, analyze, error) by {
        if rejects(module, analyze, error) {
            let index = choose|index: int|
                0 <= index < module.function_defs@.len() && #[trigger] may_yield(
                    module,
                    analyze,
                    index,
                    Err(error),
                ) && accepts_until(module, analyze, index);
            assert(accepts_until(extended, analyze, place(index)));
            assert(may_yield(extended, analyze, place(index), Err(error)));
        }
        if rejects(extended, analyze, error) {
            let at = choose|index: int|
                0 <= index < extended.function_defs@.len() && #[trigger] may_yield(
                    extended,
                    analyze,
                    index,
                    Err(error),
                ) && accepts_until(extended, analyze, index);
            assert(extended.has_body(at));
            let index = back(at);
            assert(place(index) == at);
            assert(accepts_until(module, analyze, index));
            assert(may_yield(module, analyze, index, Err(error)));
        }
    }
}

/// Whether the engine `analyze` rejects a function of `module` for a leak
/// only where the transfer function does: the leak is that of an
/// instruction of the body, met with a frame that the analysis of the
/// function comes to from its entry.
pub open spec fn reports_leaks_of_transfer<'a, F>(module: &'a CompiledModule, analyze: F) -> bool
    where
        F: Fn(usize, IDLeakAnalysis<'a>, AbstractState) -> Result<(), VerifierError>,
{
    forall|index: int, analysis: IDLeakAnalysis<'a>, state: AbstractState, error: VerifierError|
        #[trigger] is_job(module, index, analysis, state) && error is IdLeak
            && #[trigger] call_ensures(
            analyze,
            (index as usize, analysis, state),
            Err::<(), VerifierError>(error),
        ) ==> exists|steps: nat, frame: Frame, offset: int|
            0 <= offset < module.spec_code(index).len() && #[trigger] module.reaches(
                analysis.spec_function_view(),
                module.spec_code(index),
                steps,
                frame,
            ) && #[trigger] rejected_at(module, analysis.spec_function_view(), index, offset, frame)
                == Some(error)
}

/// The error with which the instruction at `offset` of the function
/// definition `index` is rejected when met with `frame`, if it is.
pub open spec fn rejected_at(
    module: &CompiledModule,
    function_view: FunctionView,
    index: int,
    offset: int,
    frame: Frame,
) -> Option<VerifierError> {
    match module.transfer(function_view, module.spec_code(index)[offset]).apply(frame) {
        Ok(_) => None,
        Err(error) => Some(error),
    }
}

/// A module none of whose functions unpacks an object is not rejected for
/// a leak: with no source of ids, no instruction that hands values on
/// meets one. What is left to reject it for is a broken invariant.
///
/// The engine is taken to reject a function for a leak only where the
/// transfer function does.
pub proof fn lemma_module_without_source_has_no_leak<'a, F>(
    module: &'a CompiledModule,
    analyze: F,
)
    where
        F: Fn(usize, IDLeakAnalysis<'a>, AbstractState) -> Result<(), VerifierError>,
    requires
        !module.has_source(),
        reports_leaks_of_transfer(module, analyze),
    ensures
        forall|error: VerifierError| #[trigger]
            rejects(module, analyze, error) ==> error == VerifierError::InvariantViolation,
{
    assert forall|error: VerifierError| #[trigger]
        rejects(module, analyze, error) implies error == VerifierError::InvariantViolation by {
        let index = choose|index: int|
            0 <= index < module.function_defs@.len() && #[trigger] may_yield(
                module,
                analyze,
                index,
                Err(error),
            ) && accepts_until(module, analyze, index);
        if module.has_body(index) && module.spec_function_view(index) is Some && error is IdLeak {
            let (analysis, state) = choose|analysis: IDLeakAnalysis<'a>, state: AbstractState|
                #[trigger] is_job(module, index, analysis, state) && call_ensures(
                    analyze,
                    (index as usize, analysis, state),
                    Err::<(), VerifierError>(error),
                );
            let function_view = analysis.spec_function_view();
            let code = module.spec_code(index);
            let (steps, frame, offset) = choose|steps: nat, frame: Frame, offset: int|
                0 <= offset < code.len() && #[trigger] module.reaches(
                    function_view,
                    code,
                    steps,
                    frame,
                ) && #[trigger] rejected_at(module, function_view, index, offset, frame) == Some(
                    error,
                );
            assert forall|i: int| 0 <= i < code.len() implies !module.is_source(code[i]) by {
                if module.is_source(code[i]) {
                    assert(module.is_source(module.spec_code(index)[i]));
                    assert(module.has_source());
                }
            }
            lemma_reached_frames_id_free(*module, function_view, code, steps, frame);
            lemma_no_source_no_leak(*module, function_view, code[offset], frame);
        }
    }
}

} // verus!
