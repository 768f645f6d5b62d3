//! What each instruction does to the operand stack and the locals, as the
//! analysis sees them.

use crate::error::{Leak, VerifierError};
use crate::file_format::{
    entry, Bytecode, CompiledModule, FunctionHandle, FunctionView, LocalIndex,
    StructDefinition, StructFieldInformation, TableIndex,
};
use crate::state::{initial_locals, join_locals, locals_le};
use crate::value::AbstractValue;
use vstd::prelude::*;

verus! {

/// The operand stack and the locals at one point of a function. The top of
/// the stack is the last element.
pub struct Frame {
    pub locals: Map<LocalIndex, AbstractValue>,
    pub stack: Seq<AbstractValue>,
}

/// The operands that an instruction hands on to where the function cannot
/// follow them. None of them may be an id.
pub struct Guard {
    /// The number of operands, from the top, that lie above the guarded
    /// ones.
    pub skip: nat,
    /// The number of guarded operands.
    pub count: nat,
    /// The way by which a guarded operand would leave the function.
    pub leak: Leak,
}

/// What an instruction takes from the stack and what it leaves there.
pub struct StackEffect {
    /// The number of operands taken, from the top down.
    pub pops: nat,
    /// The operands among them that are handed on, if any.
    pub guard: Option<Guard>,
    /// The values left on the stack, the last one on top: `None` where the
    /// module does not say which, because an index points nowhere.
    pub pushes: Option<Seq<AbstractValue>>,
}

/// What an instruction does.
pub enum Transfer {
    /// It works on the stack alone.
    Stack(StackEffect),
    /// It pushes a copy of a local.
    CopyLoc(LocalIndex),
    /// It pushes a local and leaves the local without a value.
    MoveLoc(LocalIndex),
    /// It pops the top of the stack into a local.
    StLoc(LocalIndex),
    /// It has no place in a module that passed the earlier verifiers.
    Invalid,
}

/// `count` values, none of them an id.
pub open spec fn non_ids(count: nat) -> Seq<AbstractValue> {
    Seq::new(count, |i: int| AbstractValue::NonID)
}

/// The fields of an unpacked struct, the first one lowest on the stack. The
/// first field of an object is its id.
pub open spec fn unpacked_fields(fields: nat, has_key: bool) -> Seq<AbstractValue> {
    Seq::new(
        fields,
        |i: int|
            if i == 0 && has_key {
                AbstractValue::ID
            } else {
                AbstractValue::NonID
            },
    )
}

/// The effect of taking `pops` operands, whatever they are, and leaving
/// `pushes` values that are not ids.
pub open spec fn plain(pops: nat, pushes: nat) -> StackEffect {
    StackEffect { pops, guard: None, pushes: Some(non_ids(pushes)) }
}

/// The effect of taking `pops` operands, handing on `count` of them, those
/// below the `skip` topmost, and leaving `pushes` values that are not ids.
pub open spec fn sink(pops: nat, skip: nat, count: nat, leak: Leak, pushes: nat) -> StackEffect {
    StackEffect { pops, guard: Some(Guard { skip, count, leak }), pushes: Some(non_ids(pushes)) }
}

/// Whether `address` is the address of the framework: the number two.
pub open spec fn is_framework_address(address: Seq<u8>) -> bool {
    &&& address.len() > 0
    &&& address.last() == 2
    &&& forall|i: int| 0 <= i < address.len() - 1 ==> address[i] == 0
}

/// Whether `module` is the name of a module of the framework that holds a
/// function which deletes objects.
pub open spec fn names_deleting_module(module: Seq<char>) -> bool {
    module == "object"@ || module == "transfer"@
}

/// Whether the function `function` of the module `module` at `address` may
/// take an id by value: it is one of the two functions of the framework
/// that delete the object the id belongs to.
pub open spec fn deletes_object(address: Seq<u8>, module: Seq<char>, function: Seq<char>) -> bool {
    &&& is_framework_address(address)
    &&& (module == "object"@ && function == "delete"@) || (module == "transfer"@ && function
        == "delete_child_object"@)
}

/// The number of fields that a struct declares; a native struct declares
/// none.
pub open spec fn spec_num_fields(struct_def: StructDefinition) -> nat {
    match struct_def.field_information {
        StructFieldInformation::Native => 0,
        StructFieldInformation::Declared(fields) => fields as nat,
    }
}

impl CompiledModule {
    /// Whether a call of `handle` may take ids: `None` where an index that
    /// the answer hangs on points nowhere. The address of the callee's
    /// module comes first, then the name of the module, then that of the
    /// function; a name is not looked at once the answer is no.
    pub open spec fn spec_is_call_safe_to_leak(&self, handle: FunctionHandle) -> Option<bool> {
        match entry(self.module_handles@, handle.module) {
            Some(module) => match entry(self.address_identifiers@, module.address) {
                Some(address) => if !is_framework_address(address@) {
                    Some(false)
                } else {
                    match entry(self.identifiers@, module.name) {
                        Some(module_name) => if !names_deleting_module(module_name@) {
                            Some(false)
                        } else {
                            match entry(self.identifiers@, handle.name) {
                                Some(function_name) => Some(
                                    deletes_object(address@, module_name@, function_name@),
                                ),
                                None => None,
                            }
                        },
                        None => None,
                    }
                },
                None => None,
            },
            None => None,
        }
    }

    /// What a call of `handle` does to the stack: `None` where an index on
    /// the way to the callee's names, address or parameters points nowhere.
    /// The results are looked at behind the arguments: where their index
    /// points nowhere, the effect leaves nothing.
    pub open spec fn spec_call(&self, handle: FunctionHandle) -> Option<StackEffect> {
        match (self.spec_is_call_safe_to_leak(handle), entry(self.signatures@, handle.parameters)) {
            (Some(safe), Some(parameters)) => Some(
                StackEffect {
                    pops: parameters.len as nat,
                    guard: if safe {
                        None
                    } else {
                        Some(
                            Guard {
                                skip: 0,
                                count: parameters.len as nat,
                                leak: Leak::FunctionCall,
                            },
                        )
                    },
                    pushes: match entry(self.signatures@, handle.return_) {
                        Some(return_) => Some(non_ids(return_.len as nat)),
                        None => None,
                    },
                },
            ),
            _ => None,
        }
    }

    /// What packing a value of `struct_def` does to the stack.
    pub open spec fn spec_pack(&self, struct_def: StructDefinition) -> StackEffect {
        sink(spec_num_fields(struct_def), 0, spec_num_fields(struct_def), Leak::Struct, 1)
    }

    /// What unpacking a value of `struct_def` does to the stack: `None`
    /// where the type of the struct is not in the module.
    pub open spec fn spec_unpack(&self, struct_def: StructDefinition) -> Option<StackEffect> {
        match entry(self.struct_handles@, struct_def.struct_handle) {
            Some(handle) => Some(
                StackEffect {
                    pops: 1,
                    guard: None,
                    pushes: Some(unpacked_fields(spec_num_fields(struct_def), handle.has_key)),
                },
            ),
            None => None,
        }
    }

    /// The struct that the instantiation `index` is an instance of.
    pub open spec fn spec_instantiated_struct(&self, index: TableIndex) -> Option<StructDefinition> {
        match entry(self.struct_def_instantiations@, index) {
            Some(instantiation) => entry(self.struct_defs@, instantiation.def),
            None => None,
        }
    }

    /// The function that the instantiation `index` is an instance of.
    pub open spec fn spec_instantiated_function(&self, index: TableIndex) -> Option<FunctionHandle> {
        match entry(self.function_instantiations@, index) {
            Some(instantiation) => entry(self.function_handles@, instantiation.handle),
            None => None,
        }
    }

    /// What `bytecode` does in a function with the results of
    /// `function_view`.
    pub open spec fn transfer(&self, function_view: FunctionView, bytecode: Bytecode) -> Transfer {
        match bytecode {
            Bytecode::CopyLoc(local) => Transfer::CopyLoc(local),
            Bytecode::MoveLoc(local) => Transfer::MoveLoc(local),
            Bytecode::StLoc(local) => Transfer::StLoc(local),
            _ => match self.stack_effect(function_view, bytecode) {
                Some(effect) => Transfer::Stack(effect),
                None => Transfer::Invalid,
            },
        }
    }

    /// What `bytecode` does to the stack, in a function with the results of
    /// `function_view`: `None` for an instruction that works on the locals,
    /// for one that refers to what is not in the module, and for one on
    /// global storage.
    pub open spec fn stack_effect(&self, function_view: FunctionView, bytecode: Bytecode) -> Option<
        StackEffect,
    > {
        match bytecode {
            Bytecode::CopyLoc(_) | Bytecode::MoveLoc(_) | Bytecode::StLoc(_) => None,
            Bytecode::Pop | Bytecode::BrTrue(_) | Bytecode::BrFalse(_) | Bytecode::Abort => Some(
                plain(1, 0),
            ),
            Bytecode::FreezeRef
            | Bytecode::ReadRef
            | Bytecode::CastU8
            | Bytecode::CastU16
            | Bytecode::CastU32
            | Bytecode::CastU64
            | Bytecode::CastU128
            | Bytecode::CastU256
            | Bytecode::Not
            | Bytecode::VecLen(_)
            | Bytecode::VecPopBack(_)
            | Bytecode::MutBorrowField(_)
            | Bytecode::MutBorrowFieldGeneric(_)
            | Bytecode::ImmBorrowField(_)
            | Bytecode::ImmBorrowFieldGeneric(_) => Some(plain(1, 1)),
            Bytecode::Branch(_) | Bytecode::Nop => Some(plain(0, 0)),
            Bytecode::Eq
            | Bytecode::Neq
            | Bytecode::Add
            | Bytecode::Sub
            | Bytecode::Mul
            | Bytecode::Mod
            | Bytecode::Div
            | Bytecode::BitOr
            | Bytecode::BitAnd
            | Bytecode::Xor
            | Bytecode::Shl
            | Bytecode::Shr
            | Bytecode::Or
            | Bytecode::And
            | Bytecode::Lt
            | Bytecode::Gt
            | Bytecode::Le
            | Bytecode::Ge
            | Bytecode::VecImmBorrow(_)
            | Bytecode::VecMutBorrow(_) => Some(plain(2, 1)),
            Bytecode::WriteRef => Some(sink(2, 1, 1, Leak::Reference, 0)),
            Bytecode::MutBorrowLoc(_)
            | Bytecode::ImmBorrowLoc(_)
            | Bytecode::LdTrue
            | Bytecode::LdFalse
            | Bytecode::LdU8(_)
            | Bytecode::LdU16(_)
            | Bytecode::LdU32(_)
            | Bytecode::LdU64(_)
            | Bytecode::LdU128(_)
            | Bytecode::LdU256(_)
            | Bytecode::LdConst(_) => Some(plain(0, 1)),
            Bytecode::MoveFrom(_)
            | Bytecode::MoveFromGeneric(_)
            | Bytecode::MoveTo(_)
            | Bytecode::MoveToGeneric(_)
            | Bytecode::ImmBorrowGlobal(_)
            | Bytecode::MutBorrowGlobal(_)
            | Bytecode::ImmBorrowGlobalGeneric(_)
            | Bytecode::MutBorrowGlobalGeneric(_)
            | Bytecode::Exists(_)
            | Bytecode::ExistsGeneric(_) => None,
            Bytecode::Call(_) | Bytecode::CallGeneric(_) => match self.spec_callee(bytecode) {
                Some(handle) => self.spec_call(handle),
                None => None,
            },
            Bytecode::Ret => Some(
                sink(
                    function_view.return_.len as nat,
                    0,
                    function_view.return_.len as nat,
                    Leak::FunctionReturn,
                    0,
                ),
            ),
            Bytecode::Pack(index) => match entry(self.struct_defs@, index) {
                Some(struct_def) => Some(self.spec_pack(struct_def)),
                None => None,
            },
            Bytecode::PackGeneric(index) => match self.spec_instantiated_struct(index) {
                Some(struct_def) => Some(self.spec_pack(struct_def)),
                None => None,
            },
            Bytecode::Unpack(_) | Bytecode::UnpackGeneric(_) => match self.spec_unpacked(bytecode) {
                Some(struct_def) => self.spec_unpack(struct_def),
                None => None,
            },
            Bytecode::VecPack(_, num) => Some(sink(num as nat, 0, num as nat, Leak::Vector, 1)),
            Bytecode::VecPushBack(_) => Some(sink(2, 0, 1, Leak::Vector, 0)),
            Bytecode::VecUnpack(_, num) => Some(plain(1, num as nat)),
            Bytecode::VecSwap(_) => Some(plain(3, 0)),
        }
    }
}

/// Whether `bytecode` hands values on to where the function cannot follow
/// them.
pub open spec fn is_sink(bytecode: Bytecode) -> bool {
    match bytecode {
        Bytecode::Ret
        | Bytecode::WriteRef
        | Bytecode::VecPushBack(_)
        | Bytecode::VecPack(_, _)
        | Bytecode::Pack(_)
        | Bytecode::PackGeneric(_)
        | Bytecode::Call(_)
        | Bytecode::CallGeneric(_) => true,
        _ => false,
    }
}

impl CompiledModule {
    /// The function that `bytecode` calls, where it is a call that
    /// resolves.
    pub open spec fn spec_callee(&self, bytecode: Bytecode) -> Option<FunctionHandle> {
        match bytecode {
            Bytecode::Call(index) => entry(self.function_handles@, index),
            Bytecode::CallGeneric(index) => self.spec_instantiated_function(index),
            _ => None,
        }
    }

    /// The struct that `bytecode` unpacks, where it is an unpack that
    /// resolves.
    pub open spec fn spec_unpacked(&self, bytecode: Bytecode) -> Option<StructDefinition> {
        match bytecode {
            Bytecode::Unpack(index) => entry(self.struct_defs@, index),
            Bytecode::UnpackGeneric(index) => self.spec_instantiated_struct(index),
            _ => None,
        }
    }

    /// Whether `bytecode` yields an id: it unpacks an object.
    pub open spec fn is_source(&self, bytecode: Bytecode) -> bool {
        match self.spec_unpacked(bytecode) {
            Some(struct_def) => match entry(self.struct_handles@, struct_def.struct_handle) {
                Some(handle) => handle.has_key,
                None => false,
            },
            None => false,
        }
    }
}

/// The operand of `stack` that lies `depth` places below the top.
pub open spec fn operand(stack: Seq<AbstractValue>, depth: int) -> AbstractValue {
    stack[stack.len() - 1 - depth]
}

impl Guard {
    /// Whether `depth` is the place of a guarded operand, counted from the
    /// top of the stack.
    pub open spec fn covers(self, depth: int) -> bool {
        self.skip <= depth < self.skip + self.count
    }

    /// Whether one of the guarded operands on `stack` is an id.
    pub open spec fn holds_id(self, stack: Seq<AbstractValue>) -> bool {
        exists|depth: int|
            self.covers(depth) && depth < stack.len() && #[trigger] operand(stack, depth)
                == AbstractValue::ID
    }
}

impl StackEffect {
    /// The way by which an id among the operands on `stack` would leave
    /// the function, if one would.
    pub open spec fn leak(self, stack: Seq<AbstractValue>) -> Option<Leak> {
        match self.guard {
            Some(guard) => if guard.holds_id(stack) {
                Some(guard.leak)
            } else {
                None
            },
            None => None,
        }
    }

    /// The stack after the instruction, or the reason why the function is
    /// not accepted. An id among the guarded operands that are there is
    /// the first reason, missing operands the second, and that the module
    /// does not say what the instruction leaves the third.
    pub open spec fn apply(self, stack: Seq<AbstractValue>) -> Result<
        Seq<AbstractValue>,
        VerifierError,
    > {
        match self.leak(stack) {
            Some(leak) => Err(VerifierError::IdLeak(leak)),
            None => if stack.len() < self.pops {
                Err(VerifierError::InvariantViolation)
            } else {
                match self.pushes {
                    Some(pushes) => Ok(stack.take(stack.len() - self.pops) + pushes),
                    None => Err(VerifierError::InvariantViolation),
                }
            },
        }
    }
}

impl StackEffect {
    /// Whether an instruction with this effect, met with the operands
    /// `before`, ends in `outcome` with the stack `after`: a rejected
    /// instruction leaves the stack as it was.
    pub open spec fn accounts_for(
        self,
        before: Seq<AbstractValue>,
        outcome: Result<(), VerifierError>,
        after: Seq<AbstractValue>,
    ) -> bool {
        match self.apply(before) {
            Ok(stack) => outcome is Ok && after == stack,
            Err(error) => outcome == Err::<(), VerifierError>(error) && after == before,
        }
    }
}

impl Transfer {
    /// The frame after the instruction, or the reason why the function is
    /// not accepted.
    pub open spec fn apply(self, frame: Frame) -> Result<Frame, VerifierError> {
        match self {
            Transfer::Stack(effect) => match effect.apply(frame.stack) {
                Ok(stack) => Ok(Frame { locals: frame.locals, stack }),
                Err(error) => Err(error),
            },
            Transfer::CopyLoc(local) => if frame.locals.contains_key(local) {
                Ok(Frame { locals: frame.locals, stack: frame.stack.push(frame.locals[local]) })
            } else {
                Err(VerifierError::InvariantViolation)
            },
            Transfer::MoveLoc(local) => if frame.locals.contains_key(local) {
                Ok(
                    Frame {
                        locals: frame.locals.remove(local),
                        stack: frame.stack.push(frame.locals[local]),
                    },
                )
            } else {
                Err(VerifierError::InvariantViolation)
            },
            Transfer::StLoc(local) => if frame.stack.len() > 0 {
                Ok(
                    Frame {
                        locals: frame.locals.insert(local, frame.stack.last()),
                        stack: frame.stack.drop_last(),
                    },
                )
            } else {
                Err(VerifierError::InvariantViolation)
            },
            Transfer::Invalid => Err(VerifierError::InvariantViolation),
        }
    }
}

impl Frame {
    /// Whether no local and no operand is an id.
    pub open spec fn id_free(self) -> bool {
        &&& forall|local: LocalIndex|
            self.locals.contains_key(local) ==> self.locals[local] == AbstractValue::NonID
        &&& forall|i: int| 0 <= i < self.stack.len() ==> self.stack[i] == AbstractValue::NonID
    }

    /// Whether `other` has the same locals and as many operands, and an id
    /// wherever `self` has one.
    pub open spec fn le(self, other: Frame) -> bool {
        &&& locals_le(self.locals, other.locals)
        &&& self.stack.len() == other.stack.len()
        &&& forall|i: int| 0 <= i < self.stack.len() ==> self.stack[i].le(other.stack[i])
    }
}

/// Whether the outcome `other` of an instruction is at least `outcome`: a
/// rejection is above everything, and an accepted frame is above the
/// frames below it.
pub open spec fn outcome_le(
    outcome: Result<Frame, VerifierError>,
    other: Result<Frame, VerifierError>,
) -> bool {
    match (outcome, other) {
        (_, Err(_)) => true,
        (Ok(frame), Ok(other_frame)) => frame.le(other_frame),
        (Err(_), Ok(_)) => false,
    }
}

impl CompiledModule {
    /// The frame after the instructions `code`, one after the other from
    /// `frame`, or the first rejection.
    pub open spec fn run(&self, function_view: FunctionView, frame: Frame, code: Seq<Bytecode>) -> Result<
        Frame,
        VerifierError,
    >
        decreases code.len(),
    {
        if code.len() == 0 {
            Ok(frame)
        } else {
            match self.transfer(function_view, code[0]).apply(frame) {
                Ok(next) => self.run(function_view, next, code.drop_first()),
                Err(error) => Err(error),
            }
        }
    }
}

/// The frame at the entry of a function with the parameters of
/// `function_view`: the parameters, none of them an id, and no operands.
pub open spec fn entry_frame(function_view: FunctionView) -> Frame {
    Frame { locals: initial_locals(function_view.parameters.len as nat), stack: Seq::empty() }
}

/// Whether `frame` is what a block is entered with where `target` and
/// `incoming` meet: their join, and an empty stack.
pub open spec fn joins_to(target: Frame, incoming: Frame, frame: Frame) -> bool {
    frame == (Frame { locals: join_locals(target.locals, incoming.locals), stack: Seq::empty() })
}

impl CompiledModule {
    /// Whether the instruction of `code` at `offset` leads from `before` to
    /// `frame`.
    pub open spec fn steps_to(
        &self,
        function_view: FunctionView,
        code: Seq<Bytecode>,
        before: Frame,
        offset: int,
        frame: Frame,
    ) -> bool {
        0 <= offset < code.len() && self.transfer(function_view, code[offset]).apply(before)
            == Ok::<Frame, VerifierError>(frame)
    }

    /// Whether the analysis of a function with the body `code` can come to
    /// `frame` within `steps` steps from the entry of the function. A step
    /// is the transfer of an instruction of the body, or the join of two
    /// states at the entry of a block, where the stack is empty.
    pub open spec fn reaches(
        &self,
        function_view: FunctionView,
        code: Seq<Bytecode>,
        steps: nat,
        frame: Frame,
    ) -> bool
        decreases steps,
    {
        if steps == 0 {
            frame == entry_frame(function_view)
        } else {
            ||| self.reaches(function_view, code, (steps - 1) as nat, frame)
            ||| exists|before: Frame, offset: int|
                self.reaches(function_view, code, (steps - 1) as nat, before)
                    && #[trigger] self.steps_to(function_view, code, before, offset, frame)
            ||| exists|target: Frame, incoming: Frame|
                self.reaches(function_view, code, (steps - 1) as nat, target) && self.reaches(
                    function_view,
                    code,
                    (steps - 1) as nat,
                    incoming,
                ) && #[trigger] joins_to(target, incoming, frame)
        }
    }

    /// The instructions of the function definition `index`; none where it
    /// has no body.
    pub open spec fn spec_code(&self, index: int) -> Seq<Bytecode> {
        match self.function_defs@[index].code {
            Some(unit) => unit.code@,
            None => Seq::empty(),
        }
    }

    /// Whether some function of the module unpacks an object.
    pub open spec fn has_source(&self) -> bool {
        exists|index: int, offset: int|
            self.has_body(index) && 0 <= offset < self.spec_code(index).len() && self.is_source(
                #[trigger] self.spec_code(index)[offset],
            )
    }
}

} // verus!
