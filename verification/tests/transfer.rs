//! Single instructions, through `execute`.

use id_leak::analysis::{
    call, execute_inner, expect_ok, is_call_safe_to_leak, is_framework, num_fields, pack, unpack,
    IDLeakAnalysis,
};
use id_leak::error::{Leak, VerifierError};
use id_leak::file_format::{
    lookup, Bytecode, CompiledModule, FunctionHandle, FunctionInstantiation, FunctionView,
    ModuleHandle, Signature, StructDefInstantiation, StructDefinition, StructFieldInformation,
    StructHandle,
};
use id_leak::state::AbstractState;
use id_leak::value::AbstractValue;
use id_leak::value::AbstractValue::{NonID, ID};

const OBJECT_DELETE: u16 = 0;
const TRANSFER_DELETE_CHILD: u16 = 1;
const USER: u16 = 2;
const OTHER_OBJECT_DELETE: u16 = 3;
const OBJECT_REMOVE: u16 = 4;
const TRANSFER_DELETE: u16 = 5;
const OBJECT_DELETE_UPPER: u16 = 6;
const TWO_IN_THREE_OUT: u16 = 7;
const NO_MODULE: u16 = 8;
const NO_NAME: u16 = 9;
const NO_PARAMETERS: u16 = 10;
const NO_RESULTS: u16 = 11;
const NO_ADDRESS: u16 = 12;
const NO_MODULE_NAME: u16 = 13;
const OTHER_TRANSFER_DELETE_CHILD: u16 = 14;
const ELSEWHERE_NO_NAME: u16 = 15;
const ELSEWHERE_NO_MODULE_NAME: u16 = 16;
const FRAMEWORK_OTHER_MODULE_NO_NAME: u16 = 17;

const KEYED: u16 = 0;
const PLAIN: u16 = 1;
const KEYED_THREE: u16 = 2;
const NATIVE: u16 = 3;
const EMPTY_KEYED: u16 = 4;
const NO_HANDLE: u16 = 5;

fn handle(module: u16, name: u16, parameters: u16, return_: u16) -> FunctionHandle {
    FunctionHandle { module, name, parameters, return_ }
}

fn fixture() -> CompiledModule {
    let mut framework = vec![0u8; 32];
    framework[31] = 2;
    CompiledModule {
        module_handles: vec![
            ModuleHandle { address: 0, name: 0 },  // 0x2::object
            ModuleHandle { address: 0, name: 2 },  // 0x2::transfer
            ModuleHandle { address: 1, name: 4 },  // 0x7..::m
            ModuleHandle { address: 1, name: 0 },  // 0x7..::object
            ModuleHandle { address: 9, name: 0 },  // no such address
            ModuleHandle { address: 0, name: 99 }, // no such name
            ModuleHandle { address: 1, name: 2 },  // 0x7..::transfer
            ModuleHandle { address: 1, name: 99 }, // 0x7.., no such name
            ModuleHandle { address: 0, name: 4 },  // 0x2::m
        ],
        struct_handles: vec![
            StructHandle { has_key: true },
            StructHandle { has_key: false },
        ],
        function_handles: vec![
            handle(0, 1, 1, 0),  // 0x2::object::delete
            handle(1, 3, 1, 0),  // 0x2::transfer::delete_child_object
            handle(2, 5, 1, 0),  // user function
            handle(3, 1, 1, 0),  // object::delete elsewhere
            handle(0, 6, 1, 0),  // 0x2::object::remove
            handle(1, 1, 1, 0),  // 0x2::transfer::delete
            handle(0, 7, 1, 0),  // 0x2::object::Delete
            handle(2, 5, 2, 3),  // two in, three out
            handle(99, 5, 1, 0), // no such module
            handle(0, 99, 1, 0), // no such name
            handle(2, 5, 99, 0), // no such parameters
            handle(2, 5, 1, 99), // no such results
            handle(4, 1, 1, 0),  // module without address
            handle(5, 1, 1, 0),  // module without name
            handle(6, 3, 1, 0),  // transfer::delete_child_object elsewhere
            handle(2, 99, 1, 0), // function elsewhere, no such name
            handle(7, 1, 1, 0),  // module elsewhere, no such name
            handle(8, 99, 1, 0), // 0x2::m, no such name
        ],
        function_instantiations: vec![
            FunctionInstantiation { handle: USER },
            FunctionInstantiation { handle: OBJECT_DELETE },
            FunctionInstantiation { handle: 99 },
        ],
        signatures: vec![
            Signature { len: 0 },
            Signature { len: 1 },
            Signature { len: 2 },
            Signature { len: 3 },
        ],
        identifiers: vec![
            "object".to_string(),
            "delete".to_string(),
            "transfer".to_string(),
            "delete_child_object".to_string(),
            "m".to_string(),
            "user_fn".to_string(),
            "remove".to_string(),
            "Delete".to_string(),
        ],
        address_identifiers: vec![framework, vec![7u8; 32]],
        struct_defs: vec![
            StructDefinition { struct_handle: 0, field_information: StructFieldInformation::Declared(1) },
            StructDefinition { struct_handle: 1, field_information: StructFieldInformation::Declared(2) },
            StructDefinition { struct_handle: 0, field_information: StructFieldInformation::Declared(3) },
            StructDefinition { struct_handle: 1, field_information: StructFieldInformation::Native },
            StructDefinition { struct_handle: 0, field_information: StructFieldInformation::Declared(0) },
            StructDefinition { struct_handle: 99, field_information: StructFieldInformation::Declared(1) },
        ],
        struct_def_instantiations: vec![
            StructDefInstantiation { def: KEYED_THREE },
            StructDefInstantiation { def: 99 },
        ],
        function_defs: vec![],
    }
}

fn view(parameters: usize, results: usize) -> FunctionView {
    FunctionView { parameters: Signature { len: parameters }, return_: Signature { len: results } }
}

/// An analysis with `stack` on its operand stack, the top last. It gets
/// there by instructions: a constant for each value that is not an id, the
/// unpacking of an object from local 0 for each id.
fn with_stack<'a>(
    module: &'a CompiledModule,
    results: usize,
    stack: &[AbstractValue],
) -> (IDLeakAnalysis<'a>, AbstractState) {
    let function_view = view(1, results);
    let mut analysis = IDLeakAnalysis::new(module, &function_view);
    let mut state = AbstractState::new(&function_view);
    for value in stack {
        match value {
            NonID => analysis.execute(&mut state, &Bytecode::LdTrue, 0, 1).unwrap(),
            ID => {
                analysis.execute(&mut state, &Bytecode::CopyLoc(0), 0, 1).unwrap();
                analysis.execute(&mut state, &Bytecode::Unpack(KEYED), 0, 1).unwrap();
            }
        }
    }
    assert_eq!(analysis.stack().as_slice(), stack);
    (analysis, state)
}

/// The outcome of `bytecode` on `stack`, in the middle of a block, and the
/// stack behind it.
fn run(
    results: usize,
    stack: &[AbstractValue],
    bytecode: Bytecode,
) -> (Result<(), VerifierError>, Vec<AbstractValue>) {
    let module = fixture();
    let (mut analysis, mut state) = with_stack(&module, results, stack);
    let before = state.clone();
    let outcome = analysis.execute(&mut state, &bytecode, 0, 1);
    assert_eq!(state, before);
    if outcome.is_err() {
        assert_eq!(analysis.stack().as_slice(), stack);
    }
    (outcome, analysis.stack().clone())
}

fn leak(leak: Leak) -> Result<(), VerifierError> {
    Err(VerifierError::IdLeak(leak))
}

const BROKEN: Result<(), VerifierError> = Err(VerifierError::InvariantViolation);

#[test]
fn drop_takes_one_operand() {
    for bytecode in [Bytecode::Pop, Bytecode::BrTrue(3), Bytecode::BrFalse(3), Bytecode::Abort] {
        assert_eq!(run(0, &[NonID, ID], bytecode), (Ok(()), vec![NonID]));
        assert_eq!(run(0, &[ID, NonID], bytecode), (Ok(()), vec![ID]));
        assert_eq!(run(0, &[], bytecode), (BROKEN, vec![]));
    }
}

#[test]
fn unary_operation_yields_no_id() {
    for bytecode in [
        Bytecode::FreezeRef,
        Bytecode::ReadRef,
        Bytecode::CastU8,
        Bytecode::CastU16,
        Bytecode::CastU32,
        Bytecode::CastU64,
        Bytecode::CastU128,
        Bytecode::CastU256,
        Bytecode::Not,
        Bytecode::VecLen(0),
        Bytecode::VecPopBack(0),
        Bytecode::MutBorrowField(0),
        Bytecode::MutBorrowFieldGeneric(0),
        Bytecode::ImmBorrowField(0),
        Bytecode::ImmBorrowFieldGeneric(0),
    ] {
        assert_eq!(run(0, &[ID, ID], bytecode), (Ok(()), vec![ID, NonID]));
        assert_eq!(run(0, &[NonID], bytecode), (Ok(()), vec![NonID]));
        assert_eq!(run(0, &[], bytecode), (BROKEN, vec![]));
    }
}

#[test]
fn binary_operation_yields_no_id() {
    for bytecode in [
        Bytecode::Eq,
        Bytecode::Neq,
        Bytecode::Add,
        Bytecode::Sub,
        Bytecode::Mul,
        Bytecode::Mod,
        Bytecode::Div,
        Bytecode::BitOr,
        Bytecode::BitAnd,
        Bytecode::Xor,
        Bytecode::Shl,
        Bytecode::Shr,
        Bytecode::Or,
        Bytecode::And,
        Bytecode::Lt,
        Bytecode::Gt,
        Bytecode::Le,
        Bytecode::Ge,
        Bytecode::VecImmBorrow(0),
        Bytecode::VecMutBorrow(0),
    ] {
        assert_eq!(run(0, &[ID, ID, NonID], bytecode), (Ok(()), vec![ID, NonID]));
        assert_eq!(run(0, &[ID, ID], bytecode), (Ok(()), vec![NonID]));
        assert_eq!(run(0, &[ID], bytecode), (BROKEN, vec![ID]));
        assert_eq!(run(0, &[], bytecode), (BROKEN, vec![]));
    }
}

#[test]
fn constant_and_borrow_of_local_push_no_id() {
    for bytecode in [
        Bytecode::LdTrue,
        Bytecode::LdFalse,
        Bytecode::LdU8(1),
        Bytecode::LdU16(1),
        Bytecode::LdU32(1),
        Bytecode::LdU64(1),
        Bytecode::LdU128(1),
        Bytecode::LdU256([1; 32]),
        Bytecode::LdConst(0),
        Bytecode::MutBorrowLoc(0),
        Bytecode::ImmBorrowLoc(0),
    ] {
        assert_eq!(run(0, &[], bytecode), (Ok(()), vec![NonID]));
        assert_eq!(run(0, &[ID], bytecode), (Ok(()), vec![ID, NonID]));
    }
}

#[test]
fn branch_and_nop_leave_the_stack() {
    for bytecode in [Bytecode::Branch(0), Bytecode::Nop] {
        assert_eq!(run(0, &[], bytecode), (Ok(()), vec![]));
        assert_eq!(run(0, &[ID, NonID], bytecode), (Ok(()), vec![ID, NonID]));
    }
}

#[test]
fn vector_swap_takes_three_operands() {
    assert_eq!(run(0, &[ID, NonID, ID, ID], Bytecode::VecSwap(0)), (Ok(()), vec![ID]));
    assert_eq!(run(0, &[NonID, NonID], Bytecode::VecSwap(0)), (BROKEN, vec![NonID, NonID]));
}

#[test]
fn vector_unpack_pushes_its_elements() {
    assert_eq!(run(0, &[NonID], Bytecode::VecUnpack(0, 3)), (Ok(()), vec![NonID; 3]));
    assert_eq!(run(0, &[ID, ID], Bytecode::VecUnpack(0, 0)), (Ok(()), vec![ID]));
    assert_eq!(run(0, &[], Bytecode::VecUnpack(0, 2)), (BROKEN, vec![]));
}

#[test]
fn instruction_on_global_storage_breaks_an_invariant() {
    for bytecode in [
        Bytecode::MoveFrom(0),
        Bytecode::MoveFromGeneric(0),
        Bytecode::MoveTo(0),
        Bytecode::MoveToGeneric(0),
        Bytecode::ImmBorrowGlobal(0),
        Bytecode::MutBorrowGlobal(0),
        Bytecode::ImmBorrowGlobalGeneric(0),
        Bytecode::MutBorrowGlobalGeneric(0),
        Bytecode::Exists(0),
        Bytecode::ExistsGeneric(0),
    ] {
        assert_eq!(run(0, &[NonID, NonID], bytecode), (BROKEN, vec![NonID, NonID]));
        assert_eq!(run(0, &[], bytecode), (BROKEN, vec![]));
    }
}

#[test]
fn return_rejects_an_id_among_the_results() {
    assert_eq!(run(2, &[NonID, NonID], Bytecode::Ret), (Ok(()), vec![]));
    assert_eq!(run(2, &[ID, NonID, NonID], Bytecode::Ret), (Ok(()), vec![ID]));
    assert_eq!(run(2, &[ID, NonID], Bytecode::Ret), (leak(Leak::FunctionReturn), vec![ID, NonID]));
    assert_eq!(run(2, &[NonID, ID], Bytecode::Ret), (leak(Leak::FunctionReturn), vec![NonID, ID]));
    assert_eq!(run(0, &[ID], Bytecode::Ret), (Ok(()), vec![ID]));
    assert_eq!(run(2, &[NonID], Bytecode::Ret), (BROKEN, vec![NonID]));
}

#[test]
fn leak_comes_before_missing_operands() {
    assert_eq!(run(2, &[ID], Bytecode::Ret), (leak(Leak::FunctionReturn), vec![ID]));
    assert_eq!(run(0, &[ID], Bytecode::VecPushBack(0)), (leak(Leak::Vector), vec![ID]));
    assert_eq!(run(0, &[ID], Bytecode::VecPack(0, 2)), (leak(Leak::Vector), vec![ID]));
    assert_eq!(run(0, &[ID], Bytecode::VecPack(0, u64::MAX)), (leak(Leak::Vector), vec![ID]));
    assert_eq!(run(0, &[ID], Bytecode::Pack(PLAIN)), (leak(Leak::Struct), vec![ID]));
    assert_eq!(
        run(0, &[ID], Bytecode::Call(TWO_IN_THREE_OUT)),
        (leak(Leak::FunctionCall), vec![ID])
    );
    // The value that `WriteRef` would write is not there.
    assert_eq!(run(0, &[ID], Bytecode::WriteRef), (BROKEN, vec![ID]));
}

#[test]
fn names_are_not_looked_at_once_the_callee_is_not_safe() {
    for callee in [ELSEWHERE_NO_NAME, ELSEWHERE_NO_MODULE_NAME, FRAMEWORK_OTHER_MODULE_NO_NAME] {
        assert_eq!(run(0, &[ID], Bytecode::Call(callee)), (leak(Leak::FunctionCall), vec![ID]));
        assert_eq!(run(0, &[NonID], Bytecode::Call(callee)), (Ok(()), vec![]));
    }
}

#[test]
fn leak_comes_before_results_that_do_not_resolve() {
    assert_eq!(run(0, &[ID], Bytecode::Call(NO_RESULTS)), (leak(Leak::FunctionCall), vec![ID]));
    assert_eq!(run(0, &[NonID], Bytecode::Call(NO_RESULTS)), (BROKEN, vec![NonID]));
    assert_eq!(run(0, &[], Bytecode::Call(NO_RESULTS)), (BROKEN, vec![]));
}

#[test]
fn write_rejects_an_id_as_the_value() {
    assert_eq!(run(0, &[NonID, NonID], Bytecode::WriteRef), (Ok(()), vec![]));
    assert_eq!(run(0, &[ID, NonID], Bytecode::WriteRef), (leak(Leak::Reference), vec![ID, NonID]));
    assert_eq!(run(0, &[ID, NonID, NonID], Bytecode::WriteRef), (Ok(()), vec![ID]));
    assert_eq!(run(0, &[NonID], Bytecode::WriteRef), (BROKEN, vec![NonID]));
}

#[test]
fn write_does_not_look_at_the_reference() {
    assert_eq!(run(0, &[NonID, ID], Bytecode::WriteRef), (Ok(()), vec![]));
}

#[test]
fn push_back_rejects_an_id_as_the_element() {
    assert_eq!(run(0, &[NonID, NonID], Bytecode::VecPushBack(0)), (Ok(()), vec![]));
    assert_eq!(
        run(0, &[NonID, ID], Bytecode::VecPushBack(0)),
        (leak(Leak::Vector), vec![NonID, ID])
    );
    assert_eq!(run(0, &[NonID], Bytecode::VecPushBack(0)), (BROKEN, vec![NonID]));
}

#[test]
fn push_back_does_not_look_at_the_vector() {
    assert_eq!(run(0, &[ID, NonID], Bytecode::VecPushBack(0)), (Ok(()), vec![]));
}

#[test]
fn vector_pack_rejects_an_id_among_the_elements() {
    assert_eq!(run(0, &[ID, NonID, NonID], Bytecode::VecPack(0, 2)), (Ok(()), vec![ID, NonID]));
    assert_eq!(run(0, &[ID], Bytecode::VecPack(0, 0)), (Ok(()), vec![ID, NonID]));
    assert_eq!(
        run(0, &[ID, NonID], Bytecode::VecPack(0, 2)),
        (leak(Leak::Vector), vec![ID, NonID])
    );
    assert_eq!(run(0, &[ID], Bytecode::VecPack(0, 1)), (leak(Leak::Vector), vec![ID]));
    assert_eq!(run(0, &[NonID], Bytecode::VecPack(0, 2)), (BROKEN, vec![NonID]));
    assert_eq!(run(0, &[NonID], Bytecode::VecPack(0, u64::MAX)), (BROKEN, vec![NonID]));
    assert_eq!(run(0, &[], Bytecode::VecPack(0, 1)), (BROKEN, vec![]));
}

#[test]
fn pack_rejects_an_id_among_the_fields() {
    assert_eq!(run(0, &[ID, NonID, NonID], Bytecode::Pack(PLAIN)), (Ok(()), vec![ID, NonID]));
    assert_eq!(
        run(0, &[NonID, ID, NonID], Bytecode::Pack(PLAIN)),
        (leak(Leak::Struct), vec![NonID, ID, NonID])
    );
    assert_eq!(run(0, &[ID], Bytecode::Pack(KEYED)), (leak(Leak::Struct), vec![ID]));
    assert_eq!(run(0, &[NonID], Bytecode::Pack(PLAIN)), (BROKEN, vec![NonID]));
    assert_eq!(run(0, &[ID], Bytecode::Pack(NATIVE)), (Ok(()), vec![ID, NonID]));
    assert_eq!(run(0, &[NonID], Bytecode::Pack(99)), (BROKEN, vec![NonID]));
}

#[test]
fn pack_generic_goes_by_the_struct_behind_it() {
    assert_eq!(
        run(0, &[ID, NonID, NonID, NonID], Bytecode::PackGeneric(0)),
        (Ok(()), vec![ID, NonID])
    );
    assert_eq!(
        run(0, &[ID, NonID, NonID], Bytecode::PackGeneric(0)),
        (leak(Leak::Struct), vec![ID, NonID, NonID])
    );
    assert_eq!(run(0, &[NonID], Bytecode::PackGeneric(1)), (BROKEN, vec![NonID]));
    assert_eq!(run(0, &[NonID], Bytecode::PackGeneric(99)), (BROKEN, vec![NonID]));
}

#[test]
fn unpack_of_an_object_yields_its_id_first() {
    assert_eq!(run(0, &[NonID], Bytecode::Unpack(KEYED)), (Ok(()), vec![ID]));
    assert_eq!(
        run(0, &[NonID, NonID], Bytecode::Unpack(KEYED_THREE)),
        (Ok(()), vec![NonID, ID, NonID, NonID])
    );
    assert_eq!(
        run(0, &[NonID], Bytecode::UnpackGeneric(0)),
        (Ok(()), vec![ID, NonID, NonID])
    );
}

#[test]
fn unpack_of_a_plain_struct_yields_no_id() {
    assert_eq!(run(0, &[ID], Bytecode::Unpack(PLAIN)), (Ok(()), vec![NonID, NonID]));
}

#[test]
fn unpack_pushes_as_many_values_as_the_struct_has_fields() {
    assert_eq!(run(0, &[NonID, NonID], Bytecode::Unpack(NATIVE)), (Ok(()), vec![NonID]));
    assert_eq!(run(0, &[NonID, NonID], Bytecode::Unpack(EMPTY_KEYED)), (Ok(()), vec![NonID]));
}

#[test]
fn unpack_that_does_not_resolve_breaks_an_invariant() {
    assert_eq!(run(0, &[], Bytecode::Unpack(KEYED)), (BROKEN, vec![]));
    assert_eq!(run(0, &[NonID], Bytecode::Unpack(99)), (BROKEN, vec![NonID]));
    assert_eq!(run(0, &[NonID], Bytecode::Unpack(NO_HANDLE)), (BROKEN, vec![NonID]));
    assert_eq!(run(0, &[NonID], Bytecode::UnpackGeneric(1)), (BROKEN, vec![NonID]));
    assert_eq!(run(0, &[NonID], Bytecode::UnpackGeneric(99)), (BROKEN, vec![NonID]));
}

#[test]
fn call_takes_the_arguments_and_pushes_the_results() {
    assert_eq!(
        run(0, &[ID, NonID, NonID], Bytecode::Call(TWO_IN_THREE_OUT)),
        (Ok(()), vec![ID, NonID, NonID, NonID])
    );
    assert_eq!(run(0, &[NonID], Bytecode::Call(USER)), (Ok(()), vec![]));
    assert_eq!(run(0, &[NonID], Bytecode::CallGeneric(0)), (Ok(()), vec![]));
    assert_eq!(run(0, &[NonID], Bytecode::Call(TWO_IN_THREE_OUT)), (BROKEN, vec![NonID]));
}

#[test]
fn call_rejects_an_id_among_the_arguments() {
    assert_eq!(run(0, &[ID], Bytecode::Call(USER)), (leak(Leak::FunctionCall), vec![ID]));
    assert_eq!(run(0, &[ID], Bytecode::CallGeneric(0)), (leak(Leak::FunctionCall), vec![ID]));
    assert_eq!(
        run(0, &[ID, NonID], Bytecode::Call(TWO_IN_THREE_OUT)),
        (leak(Leak::FunctionCall), vec![ID, NonID])
    );
    assert_eq!(
        run(0, &[NonID, ID], Bytecode::Call(TWO_IN_THREE_OUT)),
        (leak(Leak::FunctionCall), vec![NonID, ID])
    );
}

#[test]
fn the_two_deleting_functions_take_an_id() {
    assert_eq!(run(0, &[ID], Bytecode::Call(OBJECT_DELETE)), (Ok(()), vec![]));
    assert_eq!(run(0, &[ID], Bytecode::Call(TRANSFER_DELETE_CHILD)), (Ok(()), vec![]));
    assert_eq!(run(0, &[ID], Bytecode::CallGeneric(1)), (Ok(()), vec![]));
    assert_eq!(run(0, &[NonID], Bytecode::Call(OBJECT_DELETE)), (Ok(()), vec![]));
}

#[test]
fn no_other_function_takes_an_id() {
    for callee in [
        OTHER_OBJECT_DELETE,
        OTHER_TRANSFER_DELETE_CHILD,
        OBJECT_REMOVE,
        TRANSFER_DELETE,
        OBJECT_DELETE_UPPER,
    ] {
        assert_eq!(
            run(0, &[ID], Bytecode::Call(callee)),
            (leak(Leak::FunctionCall), vec![ID])
        );
    }
}

#[test]
fn call_that_does_not_resolve_breaks_an_invariant() {
    for callee in [NO_MODULE, NO_NAME, NO_PARAMETERS, NO_ADDRESS, NO_MODULE_NAME, 99] {
        assert_eq!(run(0, &[NonID], Bytecode::Call(callee)), (BROKEN, vec![NonID]));
        assert_eq!(run(0, &[ID], Bytecode::Call(callee)), (BROKEN, vec![ID]));
    }
    assert_eq!(run(0, &[NonID], Bytecode::CallGeneric(2)), (BROKEN, vec![NonID]));
    assert_eq!(run(0, &[NonID], Bytecode::CallGeneric(99)), (BROKEN, vec![NonID]));
}

#[test]
fn safe_callees_are_told_by_address_and_names() {
    let module = fixture();
    let function_view = view(0, 0);
    let analysis = IDLeakAnalysis::new(&module, &function_view);
    let handles = &module.function_handles;
    let safe = |callee: u16| is_call_safe_to_leak(&analysis, &handles[callee as usize]);
    assert_eq!(safe(OBJECT_DELETE), Ok(true));
    assert_eq!(safe(TRANSFER_DELETE_CHILD), Ok(true));
    assert_eq!(safe(USER), Ok(false));
    assert_eq!(safe(OTHER_OBJECT_DELETE), Ok(false));
    assert_eq!(safe(OTHER_TRANSFER_DELETE_CHILD), Ok(false));
    assert_eq!(safe(OBJECT_REMOVE), Ok(false));
    assert_eq!(safe(TRANSFER_DELETE), Ok(false));
    assert_eq!(safe(OBJECT_DELETE_UPPER), Ok(false));
    assert_eq!(safe(NO_MODULE), Err(VerifierError::InvariantViolation));
    assert_eq!(safe(NO_NAME), Err(VerifierError::InvariantViolation));
    assert_eq!(safe(NO_ADDRESS), Err(VerifierError::InvariantViolation));
    assert_eq!(safe(NO_MODULE_NAME), Err(VerifierError::InvariantViolation));
    assert_eq!(safe(NO_PARAMETERS), Ok(false));
    assert_eq!(safe(ELSEWHERE_NO_NAME), Ok(false));
    assert_eq!(safe(ELSEWHERE_NO_MODULE_NAME), Ok(false));
    assert_eq!(safe(FRAMEWORK_OTHER_MODULE_NO_NAME), Ok(false));
}

#[test]
fn framework_address_is_the_number_two() {
    assert!(is_framework(&vec![2]));
    assert!(is_framework(&vec![0, 0, 0, 2]));
    let mut twenty = vec![0u8; 20];
    twenty[19] = 2;
    assert!(is_framework(&twenty));
    assert!(!is_framework(&vec![]));
    assert!(!is_framework(&vec![0, 0, 0, 1]));
    assert!(!is_framework(&vec![0, 0, 0, 0]));
    assert!(!is_framework(&vec![2, 0, 0, 0]));
    assert!(!is_framework(&vec![0, 1, 0, 2]));
    assert!(!is_framework(&vec![1, 0, 0, 2]));
    assert!(!is_framework(&vec![0, 0, 2, 2]));
}

#[test]
fn copy_of_a_local_keeps_it() {
    let module = fixture();
    let (mut analysis, mut state) = with_stack(&module, 0, &[ID]);
    assert_eq!(analysis.execute(&mut state, &Bytecode::StLoc(4), 0, 9), Ok(()));
    assert_eq!(analysis.execute(&mut state, &Bytecode::CopyLoc(4), 1, 9), Ok(()));
    assert_eq!(analysis.execute(&mut state, &Bytecode::CopyLoc(0), 2, 9), Ok(()));
    assert_eq!(analysis.stack(), &vec![ID, NonID]);
    assert_eq!(state.get(4), Some(ID));
    assert_eq!(state.get(0), Some(NonID));
}

#[test]
fn move_of_a_local_empties_it() {
    let module = fixture();
    let (mut analysis, mut state) = with_stack(&module, 0, &[ID]);
    assert_eq!(analysis.execute(&mut state, &Bytecode::StLoc(4), 0, 9), Ok(()));
    assert_eq!(analysis.execute(&mut state, &Bytecode::MoveLoc(4), 1, 9), Ok(()));
    assert_eq!(analysis.stack(), &vec![ID]);
    assert_eq!(state.get(4), None);
    assert_eq!(state.get(0), Some(NonID));
}

#[test]
fn store_overwrites_a_local() {
    let module = fixture();
    let (mut analysis, mut state) = with_stack(&module, 0, &[NonID, ID]);
    assert_eq!(analysis.execute(&mut state, &Bytecode::StLoc(0), 0, 9), Ok(()));
    assert_eq!(state.get(0), Some(ID));
    assert_eq!(analysis.execute(&mut state, &Bytecode::StLoc(0), 1, 9), Ok(()));
    assert_eq!(state.get(0), Some(NonID));
    assert!(analysis.stack().is_empty());
}

#[test]
fn local_without_a_value_breaks_an_invariant() {
    let module = fixture();
    let (mut analysis, mut state) = with_stack(&module, 0, &[NonID]);
    let before = state.clone();
    assert_eq!(analysis.execute(&mut state, &Bytecode::CopyLoc(1), 0, 9), BROKEN);
    assert_eq!(analysis.execute(&mut state, &Bytecode::MoveLoc(1), 0, 9), BROKEN);
    assert_eq!(analysis.stack(), &vec![NonID]);
    assert_eq!(state, before);
}

#[test]
fn store_from_an_empty_stack_breaks_an_invariant() {
    let module = fixture();
    let (mut analysis, mut state) = with_stack(&module, 0, &[]);
    let before = state.clone();
    assert_eq!(analysis.execute(&mut state, &Bytecode::StLoc(0), 0, 9), BROKEN);
    assert_eq!(state, before);
}

#[test]
fn stack_is_empty_behind_the_last_instruction_of_a_block() {
    let module = fixture();
    let (mut analysis, mut state) = with_stack(&module, 0, &[NonID, NonID]);
    assert_eq!(analysis.execute(&mut state, &Bytecode::Pop, 7, 7), BROKEN);
    assert_eq!(analysis.stack(), &vec![NonID]);
    assert_eq!(analysis.execute(&mut state, &Bytecode::Pop, 7, 7), Ok(()));
    assert!(analysis.stack().is_empty());
    assert_eq!(analysis.execute(&mut state, &Bytecode::LdTrue, 6, 7), Ok(()));
    assert_eq!(analysis.execute(&mut state, &Bytecode::Nop, 7, 7), BROKEN);
}

#[test]
fn rejection_comes_before_the_end_of_the_block() {
    let module = fixture();
    let (mut analysis, mut state) = with_stack(&module, 1, &[NonID, ID]);
    assert_eq!(analysis.execute(&mut state, &Bytecode::Ret, 3, 3), leak(Leak::FunctionReturn));
    assert_eq!(analysis.stack(), &vec![NonID, ID]);
}

#[test]
fn inner_transfer_does_not_look_at_the_end_of_the_block() {
    let module = fixture();
    let (mut analysis, mut state) = with_stack(&module, 0, &[NonID, NonID]);
    assert_eq!(execute_inner(&mut analysis, &mut state, &Bytecode::Pop, 7), Ok(()));
    assert_eq!(analysis.stack(), &vec![NonID]);
}

#[test]
fn call_pack_and_unpack_work_on_the_stack() {
    let module = fixture();
    let (mut analysis, _) = with_stack(&module, 0, &[NonID, NonID]);
    assert_eq!(unpack(&mut analysis, &module.struct_defs[KEYED_THREE as usize]), Ok(()));
    assert_eq!(analysis.stack(), &vec![NonID, ID, NonID, NonID]);
    assert_eq!(pack(&mut analysis, &module.struct_defs[PLAIN as usize]), Ok(()));
    assert_eq!(analysis.stack(), &vec![NonID, ID, NonID]);
    assert_eq!(
        pack(&mut analysis, &module.struct_defs[PLAIN as usize]),
        leak(Leak::Struct)
    );
    assert_eq!(
        call(&mut analysis, &module.function_handles[TWO_IN_THREE_OUT as usize]),
        leak(Leak::FunctionCall)
    );
    assert_eq!(call(&mut analysis, &module.function_handles[USER as usize]), Ok(()));
    assert_eq!(
        call(&mut analysis, &module.function_handles[OBJECT_DELETE as usize]),
        Ok(())
    );
    assert_eq!(analysis.stack(), &vec![NonID]);
    assert_eq!(unpack(&mut analysis, &module.struct_defs[NO_HANDLE as usize]), BROKEN);
    assert_eq!(analysis.stack(), &vec![NonID]);
}

#[test]
fn fields_are_counted_as_declared() {
    let module = fixture();
    assert_eq!(num_fields(&module.struct_defs[KEYED as usize]), 1);
    assert_eq!(num_fields(&module.struct_defs[KEYED_THREE as usize]), 3);
    assert_eq!(num_fields(&module.struct_defs[NATIVE as usize]), 0);
    assert_eq!(num_fields(&module.struct_defs[EMPTY_KEYED as usize]), 0);
}

#[test]
fn lookup_finds_what_is_in_the_table() {
    let table = vec![10u8, 11, 12];
    assert_eq!(lookup(&table, 0), Some(&10));
    assert_eq!(lookup(&table, 2), Some(&12));
    assert_eq!(lookup(&table, 3), None);
    assert_eq!(lookup(&table, u16::MAX), None);
    assert_eq!(lookup(&Vec::<u8>::new(), 0), None);
}

#[test]
fn function_view_holds_both_signatures() {
    let module = fixture();
    assert_eq!(
        FunctionView::function(&module, &module.function_handles[TWO_IN_THREE_OUT as usize]),
        Some(view(2, 3))
    );
    assert_eq!(
        FunctionView::function(&module, &module.function_handles[NO_PARAMETERS as usize]),
        None
    );
    assert_eq!(
        FunctionView::function(&module, &module.function_handles[NO_RESULTS as usize]),
        None
    );
}

#[test]
fn nothing_found_is_a_broken_invariant() {
    assert_eq!(expect_ok(Some(3)), Ok(3));
    assert_eq!(expect_ok(None::<u8>), Err(VerifierError::InvariantViolation));
}

#[test]
fn transfer_is_monotone_on_a_block() {
    let module = fixture();
    let block = [
        Bytecode::CopyLoc(1),
        Bytecode::StLoc(2),
        Bytecode::MoveLoc(1),
        Bytecode::Call(OBJECT_DELETE),
        Bytecode::LdU8(0),
        Bytecode::Pop,
    ];
    let function_view = view(1, 0);
    let mut exits = Vec::new();
    for value in [NonID, ID] {
        let mut analysis = IDLeakAnalysis::new(&module, &function_view);
        let mut state = AbstractState::new(&function_view);
        state.insert(1, value);
        for (offset, bytecode) in block.iter().enumerate() {
            assert_eq!(analysis.execute(&mut state, bytecode, offset as u16, 5), Ok(()));
        }
        exits.push(state);
    }
    assert_eq!(exits[0].get(2), Some(NonID));
    assert_eq!(exits[1].get(2), Some(ID));
    for local in [0, 1, 3] {
        assert_eq!(exits[0].get(local), exits[1].get(local));
    }
}
