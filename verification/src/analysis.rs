//! The transfer function: one instruction at a time, on the operand stack
//! and the locals.

use crate::error::{Leak, VerifierError};
use crate::file_format::{
    lookup, Bytecode, CodeOffset, CompiledModule, FunctionHandle, FunctionView,
    StructDefinition, StructFieldInformation,
};
use crate::semantics::{
    is_framework_address, non_ids, operand, plain, sink, spec_num_fields, unpacked_fields,
    Frame, Guard, Transfer,
};
use crate::state::AbstractState;
use crate::value::AbstractValue;
use vstd::prelude::*;

verus! {

/// The analysis of one function: the module it belongs to, its signature,
/// and the operand stack within the block at hand.
pub struct IDLeakAnalysis<'a> {
    binary_view: &'a CompiledModule,
    function_view: FunctionView,
    stack: Vec<AbstractValue>,
}

impl<'a> View for IDLeakAnalysis<'a> {
    type V = Seq<AbstractValue>;

    /// The operand stack, the top last.
    closed spec fn view(&self) -> Seq<AbstractValue> {
        self.stack@
    }
}

/// `Ok` with what was found, or a broken invariant where nothing was: the
/// verifiers that run before this one leave no index that points nowhere.
pub fn expect_ok<T>(res: Option<T>) -> (found: Result<T, VerifierError>)
    ensures
        found == match res {
            Some(item) => Ok::<T, VerifierError>(item),
            None => Err(VerifierError::InvariantViolation),
        },
{
    match res {
        Some(item) => Ok(item),
        None => Err(VerifierError::InvariantViolation),
    }
}

/// Whether `address` is the address of the framework.
pub fn is_framework(address: &Vec<u8>) -> (framework: bool)
    ensures
        framework == is_framework_address(address@),
{
    let len = address.len();
    if len == 0 || address[len - 1] != 2 {
        return false;
    }
    let mut i: usize = 0;
    while i < len - 1
        invariant
            len == address.len(),
            len > 0,
            i <= len - 1,
            forall|j: int| 0 <= j < i ==> address[j] == 0,
        decreases len - i,
    {
        if address[i] != 0 {
            return false;
        }
        i += 1;
    }
    true
}

/// The number of fields that `struct_def` declares.
pub fn num_fields(struct_def: &StructDefinition) -> (fields: usize)
    ensures
        fields == spec_num_fields(*struct_def),
{
    match &struct_def.field_information {
        StructFieldInformation::Native => 0,
        StructFieldInformation::Declared(fields) => *fields,
    }
}

/// Whether `name` reads `literal`.
fn reads(name: &String, literal: &str) -> (same: bool)
    ensures
        same == (name@ == literal@),
{
    *name == literal.to_owned()
}

impl<'a> IDLeakAnalysis<'a> {
    /// The module that the function belongs to.
    pub closed spec fn spec_binary_view(&self) -> CompiledModule {
        *self.binary_view
    }

    /// The signature of the function.
    pub closed spec fn spec_function_view(&self) -> FunctionView {
        self.function_view
    }

    /// The frame made of `locals` and the operand stack.
    pub open spec fn frame(&self, locals: Map<u8, AbstractValue>) -> Frame {
        Frame { locals, stack: self@ }
    }

    /// What `bytecode` does in the function under analysis.
    pub open spec fn transfer(&self, bytecode: Bytecode) -> Transfer {
        self.spec_binary_view().transfer(self.spec_function_view(), bytecode)
    }

    /// Whether `other` analyses the same function of the same module.
    pub open spec fn same_function(&self, other: &Self) -> bool {
        &&& self.spec_binary_view() == other.spec_binary_view()
        &&& self.spec_function_view() == other.spec_function_view()
    }

    /// The analysis of a function of `binary_view` with the signature
    /// `function_view`, at the start of a block.
    pub fn new(binary_view: &'a CompiledModule, function_view: &FunctionView) -> (analysis: Self)
        ensures
            analysis.spec_binary_view() == *binary_view,
            analysis.spec_function_view() == *function_view,
            analysis@ == Seq::<AbstractValue>::empty(),
    {
        Self { binary_view, function_view: *function_view, stack: vec![] }
    }

    /// The module that the function belongs to.
    pub fn binary_view(&self) -> (binary_view: &'a CompiledModule)
        ensures
            *binary_view == self.spec_binary_view(),
    {
        self.binary_view
    }

    /// The signature of the function.
    pub fn function_view(&self) -> (function_view: &FunctionView)
        ensures
            *function_view == self.spec_function_view(),
    {
        &self.function_view
    }

    /// The operand stack, the top last.
    pub fn stack(&self) -> (stack: &Vec<AbstractValue>)
        ensures
            stack@ == self@,
    {
        &self.stack
    }

    /// Takes `pops` operands from the stack, unless there are fewer.
    fn take(&mut self, pops: usize) -> (res: Result<(), VerifierError>)
        ensures
            final(self).same_function(old(self)),
            plain(pops as nat, 0).accounts_for(old(self)@, res, final(self)@),
    {
        let len = self.stack.len();
        if len < pops {
            return Err(VerifierError::InvariantViolation);
        }
        self.stack.truncate(len - pops);
        assert(self.stack@ =~= old(self).stack@.take(len - pops) + non_ids(0));
        Ok(())
    }

    /// Rejects the stack where one of the `count` operands below the `skip`
    /// topmost is an id. Operands that are not there are not looked at.
    fn guard(&self, skip: usize, count: usize, leak: Leak) -> (res: Result<(), VerifierError>)
        ensures
            res == (if (Guard { skip: skip as nat, count: count as nat, leak }).holds_id(self@) {
                Err::<(), VerifierError>(VerifierError::IdLeak(leak))
            } else {
                Ok(())
            }),
    {
        let len = self.stack.len();
        let ghost guard = Guard { skip: skip as nat, count: count as nat, leak };
        let mut depth = skip;
        while depth < len && depth - skip < count
            invariant
                skip <= depth,
                len == self.stack@.len(),
                guard == (Guard { skip: skip as nat, count: count as nat, leak }),
                forall|d: int| skip <= d < depth ==> operand(self.stack@, d) != AbstractValue::ID,
            decreases len - depth,
        {
            if self.stack[len - 1 - depth] == AbstractValue::ID {
                assert(guard.covers(depth as int) && operand(self.stack@, depth as int)
                    == AbstractValue::ID);
                return Err(VerifierError::IdLeak(leak));
            }
            depth += 1;
        }
        assert(!guard.holds_id(self.stack@));
        Ok(())
    }

    /// Takes `pops` operands from the stack, unless one of the `count`
    /// operands below the `skip` topmost is an id, or there are fewer.
    fn hand_on(&mut self, pops: usize, skip: usize, count: usize, leak: Leak) -> (res: Result<
        (),
        VerifierError,
    >)
        ensures
            final(self).same_function(old(self)),
            sink(pops as nat, skip as nat, count as nat, leak, 0).accounts_for(
                old(self)@,
                res,
                final(self)@,
            ),
    {
        self.guard(skip, count, leak)?;
        self.take(pops)
    }

    /// Puts `count` values that are not ids on the stack.
    fn produce(&mut self, count: u64)
        ensures
            final(self).same_function(old(self)),
            final(self)@ == old(self)@ + non_ids(count as nat),
    {
        let mut pushed: u64 = 0;
        while pushed < count
            invariant
                pushed <= count,
                self.same_function(old(self)),
                self.stack@ == old(self).stack@ + non_ids(pushed as nat),
            decreases count - pushed,
        {
            self.stack.push(AbstractValue::NonID);
            pushed += 1;
            assert(self.stack@ =~= old(self).stack@ + non_ids(pushed as nat));
        }
    }
}

/// Whether a call of `function_handle` may take ids by value: the two
/// functions of the framework that delete an object may.
pub fn is_call_safe_to_leak(verifier: &IDLeakAnalysis, function_handle: &FunctionHandle) -> (res:
    Result<bool, VerifierError>)
    ensures
        res == match verifier.spec_binary_view().spec_is_call_safe_to_leak(*function_handle) {
            Some(safe) => Ok::<bool, VerifierError>(safe),
            None => Err(VerifierError::InvariantViolation),
        },
{
    let binary_view = verifier.binary_view;
    let m = expect_ok(lookup(&binary_view.module_handles, function_handle.module))?;
    let address = expect_ok(lookup(&binary_view.address_identifiers, m.address))?;
    if !is_framework(address) {
        return Ok(false);
    }
    let module_name = expect_ok(lookup(&binary_view.identifiers, m.name))?;
    let object = reads(module_name, "object");
    let transfer = reads(module_name, "transfer");
    if !object && !transfer {
        return Ok(false);
    }
    let function_name = expect_ok(lookup(&binary_view.identifiers, function_handle.name))?;
    // sui::object::delete
    Ok(
        (object && reads(function_name, "delete"))
        // sui::transfer::delete_child_object
         || (transfer && reads(function_name, "delete_child_object")),
    )
}

/// The effect of a call of `function_handle`: the arguments leave the
/// stack, the results come onto it, and no argument is an id unless the
/// callee deletes the object.
pub fn call(verifier: &mut IDLeakAnalysis, function_handle: &FunctionHandle) -> (res: Result<
    (),
    VerifierError,
>)
    ensures
        final(verifier).same_function(old(verifier)),
        match old(verifier).spec_binary_view().spec_call(*function_handle) {
            Some(effect) => effect.accounts_for(old(verifier)@, res, final(verifier)@),
            None => {
                &&& res == Err::<(), VerifierError>(VerifierError::InvariantViolation)
                &&& final(verifier)@ == old(verifier)@
            },
        },
{
    let guaranteed_safe = is_call_safe_to_leak(verifier, function_handle);
    let parameters = lookup(&verifier.binary_view.signatures, function_handle.parameters);
    match (guaranteed_safe, parameters) {
        (Ok(guaranteed_safe), Some(parameters)) => {
            if !guaranteed_safe {
                verifier.guard(0, parameters.len, Leak::FunctionCall)?;
            }
            if verifier.stack.len() < parameters.len {
                return Err(VerifierError::InvariantViolation);
            }
            let return_ = expect_ok(
                lookup(&verifier.binary_view.signatures, function_handle.return_),
            )?;
            verifier.take(parameters.len)?;
            verifier.produce(return_.len as u64);
            Ok(())
        },
        _ => Err(VerifierError::InvariantViolation),
    }
}

/// The effect of packing a value of `struct_def`: the fields leave the
/// stack, none of them an id, and the struct comes onto it.
pub fn pack(verifier: &mut IDLeakAnalysis, struct_def: &StructDefinition) -> (res: Result<
    (),
    VerifierError,
>)
    ensures
        final(verifier).same_function(old(verifier)),
        old(verifier).spec_binary_view().spec_pack(*struct_def).accounts_for(
            old(verifier)@,
            res,
            final(verifier)@,
        ),
{
    let fields = num_fields(struct_def);
    match verifier.hand_on(fields, 0, fields, Leak::Struct) {
        Ok(()) => {
            verifier.produce(1);
            Ok(())
        },
        Err(error) => Err(error),
    }
}

/// The effect of unpacking a value of `struct_def`: the struct leaves the
/// stack and its fields come onto it in their order. The first field of an
/// object is its id; this is where ids come from.
pub fn unpack(verifier: &mut IDLeakAnalysis, struct_def: &StructDefinition) -> (res: Result<
    (),
    VerifierError,
>)
    ensures
        final(verifier).same_function(old(verifier)),
        match old(verifier).spec_binary_view().spec_unpack(*struct_def) {
            Some(effect) => effect.accounts_for(old(verifier)@, res, final(verifier)@),
            None => {
                &&& res == Err::<(), VerifierError>(VerifierError::InvariantViolation)
                &&& final(verifier)@ == old(verifier)@
            },
        },
{
    let handle = match lookup(&verifier.binary_view.struct_handles, struct_def.struct_handle) {
        Some(handle) => handle,
        None => return Err(VerifierError::InvariantViolation),
    };
    let fields = num_fields(struct_def);
    match verifier.take(1) {
        Ok(()) => {
            if fields > 0 {
                verifier.stack.push(
                    if handle.has_key {
                        AbstractValue::ID
                    } else {
                        AbstractValue::NonID
                    },
                );
                verifier.produce((fields - 1) as u64);
            }
            assert(verifier@ =~= old(verifier)@.take(old(verifier)@.len() - 1) + unpacked_fields(
                fields as nat,
                handle.has_key,
            ));
            Ok(())
        },
        Err(error) => Err(error),
    }
}

/// The effect of `bytecode` on the operand stack of `verifier` and on the
/// locals in `state`. Where the instruction is not accepted, both are left
/// as they were.
pub fn execute_inner(
    verifier: &mut IDLeakAnalysis,
    state: &mut AbstractState,
    bytecode: &Bytecode,
    _index: CodeOffset,
) -> (res: Result<(), VerifierError>)
    ensures
        final(verifier).same_function(old(verifier)),
        match old(verifier).transfer(*bytecode).apply(old(verifier).frame(old(state)@)) {
            Ok(next) => res is Ok && final(state)@ == next.locals && final(verifier)@
                == next.stack,
            Err(error) => res == Err::<(), VerifierError>(error) && final(state)@ == old(state)@
                && final(verifier)@ == old(verifier)@,
        },
{
    match bytecode {
        Bytecode::Pop => {
            verifier.take(1)?;
        },
        Bytecode::CopyLoc(local) => {
            let value = expect_ok(state.get(*local))?;
            verifier.stack.push(value);
        },
        Bytecode::MoveLoc(local) => {
            let value = expect_ok(state.remove(*local))?;
            verifier.stack.push(value);
        },
        Bytecode::StLoc(local) => {
            let value = expect_ok(verifier.stack.pop())?;
            state.insert(*local, value);
        },
        // Reference won't be ID.
        Bytecode::FreezeRef
        // ID doesn't have copy ability, hence ReadRef won't produce an ID.
        | Bytecode::ReadRef
        // Following are unary operators that don't apply to ID.
        | Bytecode::CastU8
        | Bytecode::CastU16
        | Bytecode::CastU32
        | Bytecode::CastU64
        | Bytecode::CastU128
        | Bytecode::CastU256
        | Bytecode::Not
        | Bytecode::VecLen(_)
        | Bytecode::VecPopBack(_) => {
            verifier.take(1)?;
            verifier.produce(1);
        },
        // These bytecodes don't operate on any value.
        Bytecode::Branch(_) | Bytecode::Nop => {
            assert(verifier@ =~= verifier@.take(verifier@.len() as int) + non_ids(0));
        },
        // These binary operators cannot produce ID as result.
        Bytecode::Eq
        | Bytecode::Neq
        | Bytecode::Add
        | Bytecode::Sub
        | Bytecode::Mul
        | Bytecode::Mod
        | Bytecode::Div
        | Bytecode::BitOr
        | Bytecode::BitAnd
        | Bytecode::Xor
        | Bytecode::Shl
        | Bytecode::Shr
        | Bytecode::Or
        | Bytecode::And
        | Bytecode::Lt
        | Bytecode::Gt
        | Bytecode::Le
        | Bytecode::Ge
        | Bytecode::VecImmBorrow(_)
        | Bytecode::VecMutBorrow(_) => {
            verifier.take(2)?;
            verifier.produce(1);
        },
        Bytecode::WriteRef => {
            // Top of stack is the reference, and the second element is the value.
            verifier.hand_on(2, 1, 1, Leak::Reference)?;
        },
        // These bytecodes produce references, and hence cannot be ID.
        Bytecode::MutBorrowLoc(_) | Bytecode::ImmBorrowLoc(_) => {
            verifier.take(0)?;
            verifier.produce(1);
        },
        Bytecode::MutBorrowField(_)
        | Bytecode::MutBorrowFieldGeneric(_)
        | Bytecode::ImmBorrowField(_)
        | Bytecode::ImmBorrowFieldGeneric(_) => {
            verifier.take(1)?;
            verifier.produce(1);
        },
        // These bytecodes are not allowed, and will be
        // flagged as error in a different verifier.
        Bytecode::MoveFrom(_)
        | Bytecode::MoveFromGeneric(_)
        | Bytecode::MoveTo(_)
        | Bytecode::MoveToGeneric(_)
        | Bytecode::ImmBorrowGlobal(_)
        | Bytecode::MutBorrowGlobal(_)
        | Bytecode::ImmBorrowGlobalGeneric(_)
        | Bytecode::MutBorrowGlobalGeneric(_)
        | Bytecode::Exists(_)
        | Bytecode::ExistsGeneric(_) => {
            return Err(VerifierError::InvariantViolation);
        },
        Bytecode::Call(idx) => {
            let function_handle = expect_ok(lookup(&verifier.binary_view.function_handles, *idx))?;
            call(verifier, function_handle)?;
        },
        Bytecode::CallGeneric(idx) => {
            let func_inst = expect_ok(
                lookup(&verifier.binary_view.function_instantiations, *idx),
            )?;
            let function_handle = expect_ok(
                lookup(&verifier.binary_view.function_handles, func_inst.handle),
            )?;
            call(verifier, function_handle)?;
        },
        Bytecode::Ret => {
            let results = verifier.function_view.return_.len;
            verifier.hand_on(results, 0, results, Leak::FunctionReturn)?;
        },
        Bytecode::BrTrue(_) | Bytecode::BrFalse(_) | Bytecode::Abort => {
            verifier.take(1)?;
        },
        // These bytecodes produce constants, and hence cannot be ID.
        Bytecode::LdTrue
        | Bytecode::LdFalse
        | Bytecode::LdU8(_)
        | Bytecode::LdU16(_)
        | Bytecode::LdU32(_)
        | Bytecode::LdU64(_)
        | Bytecode::LdU128(_)
        | Bytecode::LdU256(_)
        | Bytecode::LdConst(_) => {
            verifier.take(0)?;
            verifier.produce(1);
        },
        Bytecode::Pack(idx) => {
            let struct_def = expect_ok(lookup(&verifier.binary_view.struct_defs, *idx))?;
            pack(verifier, struct_def)?;
        },
        Bytecode::PackGeneric(idx) => {
            let struct_inst = expect_ok(
                lookup(&verifier.binary_view.struct_def_instantiations, *idx),
            )?;
            let struct_def = expect_ok(
                lookup(&verifier.binary_view.struct_defs, struct_inst.def),
            )?;
            pack(verifier, struct_def)?;
        },
        Bytecode::Unpack(idx) => {
            let struct_def = expect_ok(lookup(&verifier.binary_view.struct_defs, *idx))?;
            unpack(verifier, struct_def)?;
        },
        Bytecode::UnpackGeneric(idx) => {
            let struct_inst = expect_ok(
                lookup(&verifier.binary_view.struct_def_instantiations, *idx),
            )?;
            let struct_def = expect_ok(
                lookup(&verifier.binary_view.struct_defs, struct_inst.def),
            )?;
            unpack(verifier, struct_def)?;
        },
        Bytecode::VecPack(_, num) => {
            let len = verifier.stack.len();
            if *num > len as u64 {
                // Too few operands: an id among those that are there comes
                // first.
                assert((Guard { skip: 0, count: *num as nat, leak: Leak::Vector }).holds_id(
                    verifier@,
                ) == (Guard { skip: 0, count: len as nat, leak: Leak::Vector }).holds_id(
                    verifier@,
                )) by {
                    assert forall|d: int| 0 <= d < len implies ((Guard {
                        skip: 0,
                        count: *num as nat,
                        leak: Leak::Vector,
                    }).covers(d) <==> (Guard {
                        skip: 0,
                        count: len as nat,
                        leak: Leak::Vector,
                    }).covers(d)) by {}
                }
                verifier.guard(0, len, Leak::Vector)?;
                return Err(VerifierError::InvariantViolation);
            }
            verifier.hand_on(*num as usize, 0, *num as usize, Leak::Vector)?;
            verifier.produce(1);
        },
        Bytecode::VecPushBack(_) => {
            verifier.hand_on(2, 0, 1, Leak::Vector)?;
        },
        Bytecode::VecUnpack(_, num) => {
            verifier.take(1)?;
            verifier.produce(*num);
        },
        Bytecode::VecSwap(_) => {
            verifier.take(3)?;
        },
    };
    Ok(())
}

impl<'a> IDLeakAnalysis<'a> {
    /// The effect of `bytecode`, the instruction at `index`, on the operand
    /// stack and on the locals in `state`. `last_index` is the offset of the
    /// last instruction of the block: behind that one the stack has to be
    /// empty.
    pub fn execute(
        &mut self,
        state: &mut AbstractState,
        bytecode: &Bytecode,
        index: CodeOffset,
        last_index: CodeOffset,
    ) -> (res: Result<(), VerifierError>)
        ensures
            final(self).same_function(old(self)),
            match old(self).transfer(*bytecode).apply(old(self).frame(old(state)@)) {
                Ok(next) => {
                    &&& final(state)@ == next.locals
                    &&& final(self)@ == next.stack
                    &&& res == (if index == last_index && next.stack.len() > 0 {
                        Err::<(), VerifierError>(VerifierError::InvariantViolation)
                    } else {
                        Ok(())
                    })
                },
                Err(error) => {
                    &&& final(state)@ == old(state)@
                    &&& final(self)@ == old(self)@
                    &&& res == Err::<(), VerifierError>(error)
                },
            },
            res is Ok && index == last_index ==> final(self)@.len() == 0,
    {
        execute_inner(self, state, bytecode, index)?;
        // invariant: the stack should be empty at the end of the block
        // If it is not, something is wrong with the implementation, so throw an invariant
        // violation
        if index == last_index && !self.stack.is_empty() {
            return Err(VerifierError::InvariantViolation);
        }
        Ok(())
    }
}

} // verus!
