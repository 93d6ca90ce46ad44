//! The data of a module under construction: instructions, basic blocks,
//! functions and the module's sections.
use vstd::prelude::*;

verus! {

/// A SPIR-V identifier or literal word.
pub type Word = u32;

/// Numeric values of SPIR-V enumerants, as the grammar assigns them.
pub type Capability = u32;
pub type AddressingModel = u32;
pub type MemoryModel = u32;
pub type ExecutionModel = u32;
pub type ExecutionMode = u32;
pub type Decoration = u32;
pub type FunctionControl = u32;
pub type StorageClass = u32;

/// The operation of an instruction.
#[derive(Clone, Copy, Debug, PartialEq, Eq, Structural)]
pub enum Op {
    Capability,
    Extension,
    ExtInstImport,
    MemoryModel,
    EntryPoint,
    ExecutionMode,
    Decorate,
    MemberDecorate,
    DecorationGroup,
    GroupDecorate,
    GroupMemberDecorate,
    TypeVoid,
    TypeBool,
    TypeInt,
    TypeFloat,
    TypeVector,
    TypeMatrix,
    TypeArray,
    TypeRuntimeArray,
    TypeStruct,
    TypePointer,
    TypeFunction,
    ConstantTrue,
    ConstantFalse,
    Constant,
    ConstantComposite,
    ConstantNull,
    Function,
    FunctionEnd,
    Label,
    Branch,
    BranchConditional,
    Switch,
    Kill,
    Return,
    ReturnValue,
    Unreachable,
}

/// One operand of an instruction.
#[derive(Clone, Debug, PartialEq, Eq)]
pub enum Operand {
    IdRef(Word),
    LiteralInt32(u32),
    LiteralInt64(u64),
    LiteralString(String),
    Capability(Capability),
    AddressingModel(AddressingModel),
    MemoryModel(MemoryModel),
    ExecutionModel(ExecutionModel),
    ExecutionMode(ExecutionMode),
    Decoration(Decoration),
    FunctionControl(FunctionControl),
    StorageClass(StorageClass),
}

/// An instruction: its operation, the type of its result, its result
/// identifier and its operands.
#[derive(Debug)]
pub struct Instruction {
    pub class: Op,
    pub result_type: Option<Word>,
    pub result_id: Option<Word>,
    pub operands: Vec<Operand>,
}

impl Instruction {
    pub fn new(
        class: Op,
        result_type: Option<Word>,
        result_id: Option<Word>,
        operands: Vec<Operand>,
    ) -> (r: Instruction)
        ensures
            r.class == class,
            r.result_type == result_type,
            r.result_id == result_id,
            r.operands == operands,
    {
        Instruction { class, result_type, result_id, operands }
    }

    /// Whether this instruction has the given operation, result type,
    /// result identifier and operands.
    pub open spec fn is(
        self,
        class: Op,
        result_type: Option<Word>,
        result_id: Option<Word>,
        operands: Seq<Operand>,
    ) -> bool {
        &&& self.class == class
        &&& self.result_type == result_type
        &&& self.result_id == result_id
        &&& self.operands@ == operands
    }
}

/// A basic block: its label, then its instructions, the last of which is
/// its terminator once the block is finished.
#[derive(Debug)]
pub struct BasicBlock {
    pub label: Option<Instruction>,
    pub instructions: Vec<Instruction>,
}

impl BasicBlock {
    pub fn new() -> (r: BasicBlock)
        ensures
            r.label.is_none(),
            r.instructions@.len() == 0,
    {
        BasicBlock { label: None, instructions: Vec::new() }
    }
}

/// A function: its defining instruction, its basic blocks in the order they
/// were finished, and its end instruction.
#[derive(Debug)]
pub struct Function {
    pub def: Option<Instruction>,
    pub basic_blocks: Vec<BasicBlock>,
    pub end: Option<Instruction>,
}

impl Function {
    pub fn new() -> (r: Function)
        ensures
            r.def.is_none(),
            r.basic_blocks@.len() == 0,
            r.end.is_none(),
    {
        Function { def: None, basic_blocks: Vec::new(), end: None }
    }
}

/// A module: its sections in the order an encoder writes them.
#[derive(Debug)]
pub struct Module {
    pub capabilities: Vec<Instruction>,
    pub extensions: Vec<Instruction>,
    pub ext_inst_imports: Vec<Instruction>,
    pub memory_model: Option<Instruction>,
    pub entry_points: Vec<Instruction>,
    pub execution_modes: Vec<Instruction>,
    pub annotations: Vec<Instruction>,
    pub types_global_values: Vec<Instruction>,
    pub functions: Vec<Function>,
}

impl Module {
    pub open spec fn is_empty(self) -> bool {
        &&& self.capabilities@.len() == 0
        &&& self.extensions@.len() == 0
        &&& self.ext_inst_imports@.len() == 0
        &&& self.memory_model.is_none()
        &&& self.entry_points@.len() == 0
        &&& self.execution_modes@.len() == 0
        &&& self.annotations@.len() == 0
        &&& self.types_global_values@.len() == 0
        &&& self.functions@.len() == 0
    }

    pub fn new() -> (r: Module)
        ensures
            r.is_empty(),
    {
        Module {
            capabilities: Vec::new(),
            extensions: Vec::new(),
            ext_inst_imports: Vec::new(),
            memory_model: None,
            entry_points: Vec::new(),
            execution_modes: Vec::new(),
            annotations: Vec::new(),
            types_global_values: Vec::new(),
            functions: Vec::new(),
        }
    }
}

/// The ways a builder can be driven out of order.
#[derive(Clone, Copy, Debug, PartialEq, Eq, Structural)]
pub enum Error {
    NestedFunction,
    MismatchedFunctionEnd,
    DetachedBasicBlock,
    NestedBasicBlock,
    MismatchedTerminator,
}

} // verus!

verus! {

impl Instruction {
    /// The result identifier, if any, lies below `n`.
    pub open spec fn id_below(self, n: int) -> bool {
        match self.result_id {
            Some(x) => x < n,
            None => true,
        }
    }
}

/// Every result identifier in `s` lies below `n`.
pub open spec fn all_below(s: Seq<Instruction>, n: int) -> bool {
    forall|i: int| 0 <= i < s.len() ==> #[trigger] s[i].id_below(n)
}

/// The instruction, if present, has its result identifier below `n`.
pub open spec fn opt_below(o: Option<Instruction>, n: int) -> bool {
    match o {
        Some(inst) => inst.id_below(n),
        None => true,
    }
}

impl BasicBlock {
    /// Every identifier the block defines lies below `n`.
    pub open spec fn ids_below(self, n: int) -> bool {
        opt_below(self.label, n) && all_below(self.instructions@, n)
    }
}

impl Function {
    /// Every identifier the function defines lies below `n`.
    pub open spec fn ids_below(self, n: int) -> bool {
        &&& opt_below(self.def, n)
        &&& forall|i: int| 0 <= i < self.basic_blocks@.len() ==> #[trigger] self.basic_blocks@[i].ids_below(n)
        &&& opt_below(self.end, n)
    }

    pub proof fn lemma_ids_below_mono(self, n: int, m: int)
        requires
            self.ids_below(n),
            n <= m,
        ensures
            self.ids_below(m),
    {
        assert forall|i: int| 0 <= i < self.basic_blocks@.len() implies #[trigger] self.basic_blocks@[i].ids_below(m) by {
            let b = self.basic_blocks@[i];
            assert(b.ids_below(n));
            assert forall|k: int| 0 <= k < b.instructions@.len() implies #[trigger] b.instructions@[k].id_below(m) by {
                assert(b.instructions@[k].id_below(n));
            }
        }
    }
}

impl Module {
    /// Every identifier the module defines lies below `n`.
    pub open spec fn ids_below(self, n: int) -> bool {
        &&& all_below(self.capabilities@, n)
        &&& all_below(self.extensions@, n)
        &&& all_below(self.ext_inst_imports@, n)
        &&& opt_below(self.memory_model, n)
        &&& all_below(self.entry_points@, n)
        &&& all_below(self.execution_modes@, n)
        &&& all_below(self.annotations@, n)
        &&& all_below(self.types_global_values@, n)
        &&& forall|i: int| 0 <= i < self.functions@.len() ==> #[trigger] self.functions@[i].ids_below(n)
    }

    pub proof fn lemma_ids_below_mono(self, n: int, m: int)
        requires
            self.ids_below(n),
            n <= m,
        ensures
            self.ids_below(m),
    {
        assert forall|i: int| 0 <= i < self.functions@.len() implies #[trigger] self.functions@[i].ids_below(m) by {
            self.functions@[i].lemma_ids_below_mono(n, m);
        }
        lemma_all_below_mono(self.capabilities@, n, m);
        lemma_all_below_mono(self.extensions@, n, m);
        lemma_all_below_mono(self.ext_inst_imports@, n, m);
        lemma_all_below_mono(self.entry_points@, n, m);
        lemma_all_below_mono(self.execution_modes@, n, m);
        lemma_all_below_mono(self.annotations@, n, m);
        lemma_all_below_mono(self.types_global_values@, n, m);
    }
}

pub proof fn lemma_all_below_mono(s: Seq<Instruction>, n: int, m: int)
    requires
        all_below(s, n),
        n <= m,
    ensures
        all_below(s, m),
{
    assert forall|i: int| 0 <= i < s.len() implies #[trigger] s[i].id_below(m) by {
        assert(s[i].id_below(n));
    }
}

} // verus!

verus! {

impl Op {
    /// Whether the operation ends a basic block.
    pub open spec fn is_terminator(self) -> bool {
        match self {
            Op::Branch | Op::BranchConditional | Op::Switch | Op::Kill | Op::Return
            | Op::ReturnValue | Op::Unreachable => true,
            _ => false,
        }
    }
}

impl BasicBlock {
    /// The block has its label and ends with a terminator.
    pub open spec fn is_finished(self) -> bool {
        &&& self.label is Some
        &&& self.instructions@.len() > 0
        &&& self.instructions@.last().class.is_terminator()
    }
}

impl Function {
    /// Every basic block of the function is finished.
    pub open spec fn blocks_finished(self) -> bool {
        forall|i: int| 0 <= i < self.basic_blocks@.len() ==> (#[trigger] self.basic_blocks@[i]).is_finished()
    }
}

impl Module {
    /// Every basic block of every function of the module is finished.
    pub open spec fn blocks_finished(self) -> bool {
        forall|i: int| 0 <= i < self.functions@.len() ==> (#[trigger] self.functions@[i]).blocks_finished()
    }
}

} // verus!
