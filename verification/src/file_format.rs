//! The parts of a compiled module that the analysis reads.
//!
//! A module is a set of tables that refer to each other by index. The types
//! here carry, of each table entry, the fields that the analysis follows, as
//! plain values. An index that points past the end of its table resolves to
//! nothing; the analysis then reports a broken invariant.

use vstd::prelude::*;

verus! {

/// Index into the locals of a function.
pub type LocalIndex = u8;

/// Index into one of the tables of a module.
pub type TableIndex = u16;

/// Index into the instructions of a function.
pub type CodeOffset = u16;

/// A module as another module or this one refers to it.
#[derive(Clone, Copy, Debug, PartialEq, Eq)]
pub struct ModuleHandle {
    /// The address the module is published at, in `address_identifiers`.
    pub address: TableIndex,
    /// The name of the module, in `identifiers`.
    pub name: TableIndex,
}

/// A struct type as the instructions refer to it.
#[derive(Clone, Copy, Debug, PartialEq, Eq)]
pub struct StructHandle {
    /// Whether the type has the `key` ability, which makes its values
    /// objects.
    pub has_key: bool,
}

/// A function as the instructions refer to it.
#[derive(Clone, Copy, Debug, PartialEq, Eq)]
pub struct FunctionHandle {
    /// The module that defines the function, in `module_handles`.
    pub module: TableIndex,
    /// The name of the function, in `identifiers`.
    pub name: TableIndex,
    /// The types of the parameters, in `signatures`.
    pub parameters: TableIndex,
    /// The types of the results, in `signatures`.
    pub return_: TableIndex,
}

/// A generic function together with its type arguments.
#[derive(Clone, Copy, Debug, PartialEq, Eq)]
pub struct FunctionInstantiation {
    /// The function, in `function_handles`.
    pub handle: TableIndex,
}

/// A list of types, of which the analysis reads the length only.
#[derive(Clone, Copy, Debug, PartialEq, Eq)]
pub struct Signature {
    /// The number of types in the list.
    pub len: usize,
}

/// The fields of a struct.
#[derive(Clone, Copy, Debug, PartialEq, Eq)]
pub enum StructFieldInformation {
    /// The struct is native: its fields are not declared.
    Native,
    /// The struct declares this many fields.
    Declared(usize),
}

/// The definition of a struct.
#[derive(Clone, Copy, Debug, PartialEq, Eq)]
pub struct StructDefinition {
    /// The type that is defined, in `struct_handles`.
    pub struct_handle: TableIndex,
    /// The fields of the struct.
    pub field_information: StructFieldInformation,
}

/// A generic struct together with its type arguments.
#[derive(Clone, Copy, Debug, PartialEq, Eq)]
pub struct StructDefInstantiation {
    /// The struct, in `struct_defs`.
    pub def: TableIndex,
}

/// One instruction of the stack machine. Each holds the operand that the
/// binary format gives it.
#[derive(Clone, Copy, Debug, PartialEq, Eq)]
pub enum Bytecode {
    Pop,
    Ret,
    BrTrue(CodeOffset),
    BrFalse(CodeOffset),
    Branch(CodeOffset),
    LdU8(u8),
    LdU64(u64),
    LdU128(u128),
    CastU8,
    CastU64,
    CastU128,
    LdConst(TableIndex),
    LdTrue,
    LdFalse,
    CopyLoc(LocalIndex),
    MoveLoc(LocalIndex),
    StLoc(LocalIndex),
    Call(TableIndex),
    CallGeneric(TableIndex),
    Pack(TableIndex),
    PackGeneric(TableIndex),
    Unpack(TableIndex),
    UnpackGeneric(TableIndex),
    ReadRef,
    WriteRef,
    FreezeRef,
    MutBorrowLoc(LocalIndex),
    ImmBorrowLoc(LocalIndex),
    MutBorrowField(TableIndex),
    MutBorrowFieldGeneric(TableIndex),
    ImmBorrowField(TableIndex),
    ImmBorrowFieldGeneric(TableIndex),
    MutBorrowGlobal(TableIndex),
    MutBorrowGlobalGeneric(TableIndex),
    ImmBorrowGlobal(TableIndex),
    ImmBorrowGlobalGeneric(TableIndex),
    Add,
    Sub,
    Mul,
    Mod,
    Div,
    BitOr,
    BitAnd,
    Xor,
    Or,
    And,
    Not,
    Eq,
    Neq,
    Lt,
    Gt,
    Le,
    Ge,
    Abort,
    Nop,
    Exists(TableIndex),
    ExistsGeneric(TableIndex),
    MoveFrom(TableIndex),
    MoveFromGeneric(TableIndex),
    MoveTo(TableIndex),
    MoveToGeneric(TableIndex),
    Shl,
    Shr,
    VecPack(TableIndex, u64),
    VecLen(TableIndex),
    VecImmBorrow(TableIndex),
    VecMutBorrow(TableIndex),
    VecPushBack(TableIndex),
    VecPopBack(TableIndex),
    VecUnpack(TableIndex, u64),
    VecSwap(TableIndex),
    LdU16(u16),
    LdU32(u32),
    LdU256([u8; 32]),
    CastU16,
    CastU32,
    CastU256,
}

/// The body of a function.
#[derive(Clone, Debug, PartialEq, Eq)]
pub struct CodeUnit {
    /// The instructions, in the order of their offsets.
    pub code: Vec<Bytecode>,
}

/// The definition of a function.
#[derive(Clone, Debug, PartialEq, Eq)]
pub struct FunctionDefinition {
    /// The function that is defined, in `function_handles`.
    pub function: TableIndex,
    /// The body. A native function has none.
    pub code: Option<CodeUnit>,
}

/// The tables of a module.
#[derive(Clone, Debug, PartialEq, Eq)]
pub struct CompiledModule {
    pub module_handles: Vec<ModuleHandle>,
    pub struct_handles: Vec<StructHandle>,
    pub function_handles: Vec<FunctionHandle>,
    pub function_instantiations: Vec<FunctionInstantiation>,
    pub signatures: Vec<Signature>,
    /// The names that the module uses.
    pub identifiers: Vec<String>,
    /// The addresses that the module uses, each as its bytes from the most
    /// significant to the least.
    pub address_identifiers: Vec<Vec<u8>>,
    pub struct_defs: Vec<StructDefinition>,
    pub struct_def_instantiations: Vec<StructDefInstantiation>,
    pub function_defs: Vec<FunctionDefinition>,
}

/// What the analysis reads of the function it works on: the number of its
/// parameters and of its results.
#[derive(Clone, Copy, Debug, PartialEq, Eq)]
pub struct FunctionView {
    pub parameters: Signature,
    pub return_: Signature,
}

/// The entry of `table` at `index`, if there is one.
pub open spec fn entry<T>(table: Seq<T>, index: TableIndex) -> Option<T> {
    if index < table.len() {
        Some(table[index as int])
    } else {
        None
    }
}

/// Looks `index` up in `table`.
pub fn lookup<T>(table: &Vec<T>, index: TableIndex) -> (found: Option<&T>)
    ensures
        match found {
            Some(item) => entry(table@, index) == Some(*item),
            None => entry(table@, index) is None,
        },
{
    if (index as usize) < table.len() {
        Some(&table[index as usize])
    } else {
        None
    }
}

impl FunctionView {
    /// The view of the function that `handle` refers to: `None` where one of
    /// its signatures is not in the module.
    pub open spec fn spec_function(module: CompiledModule, handle: FunctionHandle) -> Option<
        FunctionView,
    > {
        match (entry(module.signatures@, handle.parameters), entry(module.signatures@, handle.return_)) {
            (Some(parameters), Some(return_)) => Some(FunctionView { parameters, return_ }),
            _ => None,
        }
    }

    /// The view of the function of `module` that `handle` refers to.
    pub fn function(module: &CompiledModule, handle: &FunctionHandle) -> (view: Option<
        FunctionView,
    >)
        ensures
            view == Self::spec_function(*module, *handle),
    {
        match (lookup(&module.signatures, handle.parameters), lookup(&module.signatures, handle.return_)) {
            (Some(parameters), Some(return_)) => Some(
                FunctionView { parameters: *parameters, return_: *return_ },
            ),
            _ => None,
        }
    }
}

impl CompiledModule {
    /// Whether `index` is a function definition with a body.
    pub open spec fn has_body(&self, index: int) -> bool {
        0 <= index < self.function_defs@.len() && self.function_defs@[index].code is Some
    }

    /// The view of the function that the definition `index` defines:
    /// `None` where its handle or one of its signatures is not in the
    /// module.
    pub open spec fn spec_function_view(&self, index: int) -> Option<FunctionView> {
        match entry(self.function_handles@, self.function_defs@[index].function) {
            Some(handle) => FunctionView::spec_function(*self, handle),
            None => None,
        }
    }
}

} // verus!
