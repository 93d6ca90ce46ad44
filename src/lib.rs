//! An in-memory builder for SPIR-V modules, with identifier allocation,
//! function and basic block nesting, and structural interning of types and
//! constants, all proved against their contracts.
pub mod builder;
pub mod desc;
pub mod lemmas;
pub mod model;

pub use builder::{Assembly, Builder, BuilderModel};
pub use desc::{DescModel, TypeDesc};
pub use model::{
    AddressingModel, BasicBlock, Capability, Decoration, Error, ExecutionMode, ExecutionModel,
    Function, FunctionControl, Instruction, MemoryModel, Module, Op, Operand, StorageClass, Word,
};
