//! What holds of the transfer function and of the join, whatever the
//! module.

use crate::error::{Leak, VerifierError};
use crate::file_format::{entry, Bytecode, CompiledModule, FunctionView, LocalIndex};
use crate::semantics::{
    entry_frame, is_sink, joins_to, operand, outcome_le, Frame, Transfer,
};
use crate::state::{
    id_count, ids_below, initial_locals, join_changes, join_locals, locals_le, rises_at,
    value_at,
};
use crate::value::AbstractValue;
use vstd::prelude::*;

verus! {

/// An instruction that hands values on is rejected where one of them is an
/// id, and the rejection names the way of the leak. The values handed on
/// are the operands it takes, but for two: the reference that `WriteRef`
/// writes through and the reference to the vector that `VecPushBack`
/// pushes onto. A call is exempt where the callee deletes the object.
pub proof fn lemma_sink_rejects_id(
    module: CompiledModule,
    function_view: FunctionView,
    bytecode: Bytecode,
    frame: Frame,
    depth: int,
)
    requires
        is_sink(bytecode),
        0 <= depth < frame.stack.len(),
        operand(frame.stack, depth) == AbstractValue::ID,
        module.transfer(function_view, bytecode) matches Transfer::Stack(effect) ==> depth
            < effect.pops,
        bytecode is WriteRef ==> depth == 1,
        bytecode is VecPushBack ==> depth == 0,
        module.spec_callee(bytecode) matches Some(callee) ==> module.spec_is_call_safe_to_leak(
            callee,
        ) != Some(true),
    ensures
        module.transfer(function_view, bytecode).apply(frame) is Err,
        module.transfer(function_view, bytecode) matches Transfer::Stack(effect) ==> {
            &&& effect.guard is Some
            &&& module.transfer(function_view, bytecode).apply(frame) == Err::<
                Frame,
                VerifierError,
            >(VerifierError::IdLeak(effect.guard->0.leak))
        },
{
    match module.transfer(function_view, bytecode) {
        Transfer::Stack(effect) => {
            assert(effect.guard is Some);
            assert(effect.guard->0.covers(depth));
            assert(effect.guard->0.holds_id(frame.stack));
        },
        _ => {},
    }
}

/// A call with an id among its arguments is rejected for a leak through a
/// function call, unless the callee deletes the object: whatever lies below
/// the arguments, and whether or not the results of the callee resolve.
pub proof fn lemma_call_rejects_id(
    module: CompiledModule,
    function_view: FunctionView,
    bytecode: Bytecode,
    frame: Frame,
    depth: int,
)
    requires
        ({
            &&& module.spec_callee(bytecode) matches Some(callee)
            &&& module.spec_is_call_safe_to_leak(callee) == Some(false)
            &&& entry(module.signatures@, callee.parameters) matches Some(parameters)
            &&& depth < parameters.len
        }),
        0 <= depth < frame.stack.len(),
        operand(frame.stack, depth) == AbstractValue::ID,
    ensures
        module.transfer(function_view, bytecode).apply(frame) == Err::<Frame, VerifierError>(
            VerifierError::IdLeak(Leak::FunctionCall),
        ),
{
    let callee = module.spec_callee(bytecode)->0;
    let effect = module.spec_call(callee)->0;
    assert(effect.guard->0.covers(depth));
    assert(effect.guard->0.holds_id(frame.stack));
}

/// Where no local and no operand is an id, an instruction other than the
/// unpacking of an object is not rejected for a leak, and leaves no id
/// behind.
pub proof fn lemma_no_source_no_leak(
    module: CompiledModule,
    function_view: FunctionView,
    bytecode: Bytecode,
    frame: Frame,
)
    requires
        frame.id_free(),
        !module.is_source(bytecode),
    ensures
        match module.transfer(function_view, bytecode).apply(frame) {
            Ok(next) => next.id_free(),
            Err(error) => error == VerifierError::InvariantViolation,
        },
{
    match module.transfer(function_view, bytecode) {
        Transfer::Stack(effect) => {
            assert(effect.pushes matches Some(pushes) ==> forall|i: int|
                0 <= i < pushes.len() ==> pushes[i] == AbstractValue::NonID);
            if frame.stack.len() >= effect.pops {
                assert(effect.leak(frame.stack) is None) by {
                    assert forall|d: int| 0 <= d < frame.stack.len() implies operand(
                        frame.stack,
                        d,
                    ) != AbstractValue::ID by {}
                }
            }
        },
        _ => {},
    }
}

/// A run of instructions from a frame without ids, none of which unpacks
/// an object, is not rejected for a leak, and leaves no id behind.
pub proof fn lemma_run_without_source(
    module: CompiledModule,
    function_view: FunctionView,
    frame: Frame,
    code: Seq<Bytecode>,
)
    requires
        frame.id_free(),
        forall|i: int| 0 <= i < code.len() ==> !module.is_source(code[i]),
    ensures
        match module.run(function_view, frame, code) {
            Ok(last) => last.id_free(),
            Err(error) => error == VerifierError::InvariantViolation,
        },
    decreases code.len(),
{
    if code.len() > 0 {
        lemma_no_source_no_leak(module, function_view, code[0], frame);
        match module.transfer(function_view, code[0]).apply(frame) {
            Ok(next) => {
                assert forall|i: int| 0 <= i < code.drop_first().len() implies !module.is_source(
                    code.drop_first()[i],
                ) by {
                    assert(code.drop_first()[i] == code[i + 1]);
                }
                lemma_run_without_source(module, function_view, next, code.drop_first());
            },
            Err(_) => {},
        }
    }
}

/// Whatever the analysis of a function comes to, from its entry, by
/// transfers and joins: it holds no id, where no instruction of the body
/// unpacks an object.
pub proof fn lemma_reached_frames_id_free(
    module: CompiledModule,
    function_view: FunctionView,
    code: Seq<Bytecode>,
    steps: nat,
    frame: Frame,
)
    requires
        forall|i: int| 0 <= i < code.len() ==> !module.is_source(code[i]),
        module.reaches(function_view, code, steps, frame),
    ensures
        frame.id_free(),
    decreases steps,
{
    if steps == 0 {
        lemma_initial_state_id_free(function_view.parameters.len as nat);
    } else {
        let earlier = (steps - 1) as nat;
        if module.reaches(function_view, code, earlier, frame) {
            lemma_reached_frames_id_free(module, function_view, code, earlier, frame);
        } else if exists|before: Frame, offset: int|
            module.reaches(function_view, code, earlier, before) && #[trigger] module.steps_to(
                function_view,
                code,
                before,
                offset,
                frame,
            ) {
            let (before, offset) = choose|before: Frame, offset: int|
                module.reaches(function_view, code, earlier, before) && #[trigger] module.steps_to(
                    function_view,
                    code,
                    before,
                    offset,
                    frame,
                );
            lemma_reached_frames_id_free(module, function_view, code, earlier, before);
            lemma_no_source_no_leak(module, function_view, code[offset], before);
        } else {
            let (target, incoming) = choose|target: Frame, incoming: Frame|
                module.reaches(function_view, code, earlier, target) && module.reaches(
                    function_view,
                    code,
                    earlier,
                    incoming,
                ) && #[trigger] joins_to(target, incoming, frame);
            lemma_reached_frames_id_free(module, function_view, code, earlier, target);
            lemma_reached_frames_id_free(module, function_view, code, earlier, incoming);
        }
    }
}

/// A function without instructions is accepted as it is entered: the run
/// of its body ends at the entry, with an empty stack.
pub proof fn lemma_empty_body_accepted(module: CompiledModule, function_view: FunctionView)
    ensures
        module.run(function_view, entry_frame(function_view), Seq::empty()) == Ok::<
            Frame,
            VerifierError,
        >(entry_frame(function_view)),
        entry_frame(function_view).stack.len() == 0,
{
}

/// A function starts without ids: its parameters hold none.
pub proof fn lemma_initial_state_id_free(parameters: nat)
    ensures
        (Frame { locals: initial_locals(parameters), stack: Seq::empty() }).id_free(),
{
}

/// The join of two states without ids has none.
pub proof fn lemma_join_id_free(
    target: Map<LocalIndex, AbstractValue>,
    incoming: Map<LocalIndex, AbstractValue>,
    stack: Seq<AbstractValue>,
)
    requires
        (Frame { locals: target, stack }).id_free(),
        (Frame { locals: incoming, stack }).id_free(),
    ensures
        (Frame { locals: join_locals(target, incoming), stack }).id_free(),
{
}

/// An instruction is monotone: from a frame with more ids it is rejected,
/// or it leaves a frame with more ids.
pub proof fn lemma_transfer_monotone(
    module: CompiledModule,
    function_view: FunctionView,
    bytecode: Bytecode,
    frame: Frame,
    other: Frame,
)
    requires
        frame.le(other),
    ensures
        outcome_le(
            module.transfer(function_view, bytecode).apply(frame),
            module.transfer(function_view, bytecode).apply(other),
        ),
{
    match module.transfer(function_view, bytecode) {
        Transfer::Stack(effect) => {
            if frame.stack.len() >= effect.pops {
                if let Some(guard) = effect.guard {
                    if guard.holds_id(frame.stack) {
                        let depth = choose|depth: int|
                            guard.covers(depth) && depth < frame.stack.len() && #[trigger] operand(
                                frame.stack,
                                depth,
                            ) == AbstractValue::ID;
                        assert(operand(other.stack, depth) == AbstractValue::ID);
                    }
                }
            }
        },
        _ => {},
    }
}

/// A run of instructions is monotone: from a frame with more ids it is
/// rejected, or it leaves a frame with more ids.
pub proof fn lemma_run_monotone(
    module: CompiledModule,
    function_view: FunctionView,
    code: Seq<Bytecode>,
    frame: Frame,
    other: Frame,
)
    requires
        frame.le(other),
    ensures
        outcome_le(
            module.run(function_view, frame, code),
            module.run(function_view, other, code),
        ),
    decreases code.len(),
{
    if code.len() > 0 {
        lemma_transfer_monotone(module, function_view, code[0], frame, other);
        let transfer = module.transfer(function_view, code[0]);
        match (transfer.apply(frame), transfer.apply(other)) {
            (Ok(next), Ok(other_next)) => {
                lemma_run_monotone(module, function_view, code.drop_first(), next, other_next);
            },
            _ => {},
        }
    }
}

/// The join is monotone in the state that is joined in.
pub proof fn lemma_join_monotone(
    target: Map<LocalIndex, AbstractValue>,
    incoming: Map<LocalIndex, AbstractValue>,
    other: Map<LocalIndex, AbstractValue>,
)
    requires
        locals_le(incoming, other),
    ensures
        locals_le(join_locals(target, incoming), join_locals(target, other)),
{
    assert(join_locals(target, incoming).dom() =~= join_locals(target, other).dom());
}

/// The transfer of a block, followed by the join into the entry of a
/// successor, is monotone in the entry state of the block: from an entry
/// state with more ids the block is rejected, or the successor is entered
/// with more ids.
pub proof fn lemma_block_then_join_monotone(
    module: CompiledModule,
    function_view: FunctionView,
    block: Seq<Bytecode>,
    entry: Map<LocalIndex, AbstractValue>,
    other: Map<LocalIndex, AbstractValue>,
    successor: Map<LocalIndex, AbstractValue>,
)
    requires
        locals_le(entry, other),
    ensures
        match (
            module.run(function_view, Frame { locals: entry, stack: Seq::empty() }, block),
            module.run(function_view, Frame { locals: other, stack: Seq::empty() }, block),
        ) {
            (_, Err(_)) => true,
            (Ok(exit), Ok(other_exit)) => locals_le(
                join_locals(successor, exit.locals),
                join_locals(successor, other_exit.locals),
            ),
            (Err(_), Ok(_)) => false,
        },
{
    let frame = Frame { locals: entry, stack: Seq::empty() };
    let other_frame = Frame { locals: other, stack: Seq::empty() };
    lemma_run_monotone(module, function_view, block, frame, other_frame);
    match (module.run(function_view, frame, block), module.run(function_view, other_frame, block)) {
        (Ok(exit), Ok(other_exit)) => {
            lemma_join_monotone(successor, exit.locals, other_exit.locals);
        },
        _ => {},
    }
}

/// Where every local holds an id in `other` that holds one in `locals`,
/// `other` counts at least as many ids; and more, where a local below
/// `bound` holds an id in `other` alone.
proof fn lemma_ids_below_monotone(
    locals: Map<LocalIndex, AbstractValue>,
    other: Map<LocalIndex, AbstractValue>,
    bound: nat,
)
    requires
        bound <= 256,
        forall|local: LocalIndex| value_at(locals, local).le(value_at(other, local)),
    ensures
        ids_below(locals, bound) <= ids_below(other, bound) <= bound,
        (exists|local: LocalIndex| local < bound && value_at(locals, local) != value_at(other, local))
            ==> ids_below(locals, bound) < ids_below(other, bound),
    decreases bound,
{
    if bound > 0 {
        lemma_ids_below_monotone(locals, other, (bound - 1) as nat);
        let last = (bound - 1) as LocalIndex;
        assert(value_at(locals, last).le(value_at(other, last)));
        if exists|local: LocalIndex|
            local < bound && value_at(locals, local) != value_at(other, local) {
            let local = choose|local: LocalIndex|
                local < bound && value_at(locals, local) != value_at(other, local);
            if local != last {
                assert(local < bound - 1);
            }
        }
    }
}

/// A join never takes an id away, and the ids of a state are at most its
/// 256 locals. So a state can change under joins 256 times at most: each
/// join that changes it adds an id.
pub proof fn lemma_join_adds_ids(
    target: Map<LocalIndex, AbstractValue>,
    incoming: Map<LocalIndex, AbstractValue>,
)
    ensures
        forall|local: LocalIndex|
            value_at(target, local).le(value_at(join_locals(target, incoming), local)),
        id_count(target) <= id_count(join_locals(target, incoming)) <= 256,
        (exists|local: LocalIndex|
            value_at(target, local) != value_at(join_locals(target, incoming), local))
            ==> id_count(target) < id_count(join_locals(target, incoming)),
{
    lemma_ids_below_monotone(target, join_locals(target, incoming), 256);
}

/// A join that reports a change adds an id to the state. A state has 256
/// locals at most, so a join into it reports a change 256 times at most,
/// whatever is joined in.
pub proof fn lemma_reported_change_adds_id(
    target: Map<LocalIndex, AbstractValue>,
    incoming: Map<LocalIndex, AbstractValue>,
)
    requires
        join_changes(target, incoming),
    ensures
        id_count(target) < id_count(join_locals(target, incoming)) <= 256,
{
    let local = choose|local: LocalIndex| rises_at(target, incoming, local);
    assert(value_at(target, local) != value_at(join_locals(target, incoming), local));
    lemma_join_adds_ids(target, incoming);
}

/// A join that reports no change leaves every local with what it held: a
/// local that the join adds holds no id.
pub proof fn lemma_unchanged_join_keeps_values(
    target: Map<LocalIndex, AbstractValue>,
    incoming: Map<LocalIndex, AbstractValue>,
)
    requires
        !join_changes(target, incoming),
    ensures
        forall|local: LocalIndex|
            value_at(join_locals(target, incoming), local) == value_at(target, local),
{
    assert forall|local: LocalIndex|
        value_at(join_locals(target, incoming), local) == value_at(target, local) by {
        assert(!rises_at(target, incoming, local));
    }
}

} // verus!
