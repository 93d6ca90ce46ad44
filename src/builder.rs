//! The builder: it allocates identifiers, tracks the function and basic
//! block under construction, interns types and constants, and appends each
//! instruction to its section of the module.
use vstd::prelude::*;
use crate::desc::{id_refs, push_id_refs, DescModel, TypeDesc};
use crate::model::{
    all_below, lemma_all_below_mono, BasicBlock, Error, Function, FunctionControl, Instruction, Module, Op,
    Operand, StorageClass, Word, AddressingModel, Capability, Decoration, ExecutionMode,
    ExecutionModel, MemoryModel,
};

verus! {

/// Where a builder stands in building functions and basic blocks.
pub enum Assembly {
    Idle,
    InFunction,
    InFunctionAndBlock,
}

/// What a builder holds, as contracts see it.
pub struct BuilderModel {
    pub module: Module,
    pub next_id: Word,
    pub function: Option<Function>,
    pub basic_block: Option<BasicBlock>,
    /// The interned descriptions, in the order they were first requested,
    /// each with its identifier.
    pub interned: Seq<(DescModel, Word)>,
}

impl BuilderModel {
    pub open spec fn assembly(self) -> Assembly {
        if self.function.is_none() {
            Assembly::Idle
        } else if self.basic_block.is_none() {
            Assembly::InFunction
        } else {
            Assembly::InFunctionAndBlock
        }
    }

    /// The identifier under which `d` is interned, if it is.
    pub open spec fn lookup(self, d: DescModel) -> Option<Word> {
        if exists|i: int| 0 <= i < self.interned.len() && (#[trigger] self.interned[i]).0 == d {
            let i = choose|i: int| 0 <= i < self.interned.len() && (#[trigger] self.interned[i]).0 == d;
            Some(self.interned[i].1)
        } else {
            None
        }
    }

    /// The state is one a builder can be in.
    pub open spec fn wf(self) -> bool {
        let n = self.next_id as int;
        let types = self.module.types_global_values@;
        &&& 1 <= n
        &&& (self.basic_block.is_some() ==> self.function.is_some())
        &&& self.module.ids_below(n)
        &&& match self.function {
            Some(f) => f.ids_below(n),
            None => true,
        }
        &&& match self.basic_block {
            Some(b) => b.ids_below(n) && b.label is Some,
            None => true,
        }
        &&& self.module.blocks_finished()
        &&& match self.function {
            Some(f) => f.blocks_finished(),
            None => true,
        }
        &&& self.interned.len() == types.len()
        &&& forall|i: int|
            0 <= i < types.len() ==> (#[trigger] self.interned[i]).0.declared_by(types[i], self.interned[i].1)
        &&& forall|i: int| 0 <= i < types.len() ==> (#[trigger] self.interned[i]).1 < n
        &&& forall|i: int, j: int|
            0 <= i < j < types.len() ==> (#[trigger] self.interned[i]).0 != (#[trigger] self.interned[j]).0
        &&& forall|i: int, j: int|
            0 <= i < j < types.len() ==> (#[trigger] self.interned[i]).1 != (#[trigger] self.interned[j]).1
    }

    /// `id` was freshly allocated between `self` and `after`.
    pub open spec fn allocated(self, after: BuilderModel, id: Word) -> bool {
        id == self.next_id && after.next_id == self.next_id + 1
    }

    /// Between `self` and `after` only the module changed.
    pub open spec fn module_only(self, after: BuilderModel) -> bool {
        &&& after.function == self.function
        &&& after.basic_block == self.basic_block
        &&& after.interned == self.interned
    }

    /// Between `self` and `after` only the function and basic block under
    /// construction changed, and the identifier counter.
    pub open spec fn assembly_only(self, after: BuilderModel) -> bool {
        &&& after.module == self.module
        &&& after.interned == self.interned
    }
}

/// `after` is `before` with one instruction appended, which has the given
/// operation, result type, result identifier and operands.
pub open spec fn appended(
    before: Seq<Instruction>,
    after: Seq<Instruction>,
    class: Op,
    result_type: Option<Word>,
    result_id: Option<Word>,
    operands: Seq<Operand>,
) -> bool {
    &&& after == before.push(after.last())
    &&& after.last().is(class, result_type, result_id, operands)
}

/// Each word as a 32-bit literal.
pub open spec fn literals(ws: Seq<u32>) -> Seq<Operand> {
    ws.map_values(|w: u32| Operand::LiteralInt32(w))
}

/// Each (structure, member) pair as a reference and a literal.
pub open spec fn member_refs(ts: Seq<(Word, u32)>) -> Seq<Operand>
    decreases ts.len(),
{
    if ts.len() == 0 {
        seq![]
    } else {
        member_refs(ts.drop_last()) + seq![
            Operand::IdRef(ts.last().0),
            Operand::LiteralInt32(ts.last().1),
        ]
    }
}

/// Each (literal, label) case of a switch as a literal and a reference.
pub open spec fn case_refs(ts: Seq<(u32, Word)>) -> Seq<Operand>
    decreases ts.len(),
{
    if ts.len() == 0 {
        seq![]
    } else {
        case_refs(ts.drop_last()) + seq![
            Operand::LiteralInt32(ts.last().0),
            Operand::IdRef(ts.last().1),
        ]
    }
}

fn push_literals(ops: &mut Vec<Operand>, ws: &[u32])
    ensures
        final(ops)@ == old(ops)@ + literals(ws@),
{
    let ghost start = ops@;
    let mut i: usize = 0;
    while i < ws.len()
        invariant
            i <= ws@.len(),
            ops@ == start + literals(ws@.subrange(0, i as int)),
        decreases ws@.len() - i,
    {
        ops.push(Operand::LiteralInt32(ws[i]));
        i = i + 1;
        assert(literals(ws@.subrange(0, i as int)) =~= literals(ws@.subrange(0, i - 1)).push(
            Operand::LiteralInt32(ws@[i - 1]),
        ));
    }
    assert(ws@.subrange(0, ws@.len() as int) =~= ws@);
}

fn push_member_refs(ops: &mut Vec<Operand>, ts: &Vec<(Word, u32)>)
    ensures
        final(ops)@ == old(ops)@ + member_refs(ts@),
{
    let ghost start = ops@;
    let mut i: usize = 0;
    while i < ts.len()
        invariant
            i <= ts@.len(),
            ops@ == start + member_refs(ts@.subrange(0, i as int)),
        decreases ts@.len() - i,
    {
        let (target, member) = ts[i];
        ops.push(Operand::IdRef(target));
        ops.push(Operand::LiteralInt32(member));
        i = i + 1;
        assert(ts@.subrange(0, i as int).drop_last() =~= ts@.subrange(0, i - 1));
        assert(ops@ =~= start + member_refs(ts@.subrange(0, i as int)));
    }
    assert(ts@.subrange(0, ts@.len() as int) =~= ts@);
}

fn push_case_refs(ops: &mut Vec<Operand>, ts: &[(u32, Word)])
    ensures
        final(ops)@ == old(ops)@ + case_refs(ts@),
{
    let ghost start = ops@;
    let mut i: usize = 0;
    while i < ts.len()
        invariant
            i <= ts@.len(),
            ops@ == start + case_refs(ts@.subrange(0, i as int)),
        decreases ts@.len() - i,
    {
        let (literal, label) = ts[i];
        ops.push(Operand::LiteralInt32(literal));
        ops.push(Operand::IdRef(label));
        i = i + 1;
        assert(ts@.subrange(0, i as int).drop_last() =~= ts@.subrange(0, i - 1));
        assert(ops@ =~= start + case_refs(ts@.subrange(0, i as int)));
    }
    assert(ts@.subrange(0, ts@.len() as int) =~= ts@);
}

/// The builder of one module.
pub struct Builder {
    module: Module,
    next_id: Word,
    function: Option<Function>,
    basic_block: Option<BasicBlock>,
    interned: Vec<(TypeDesc, Word)>,
}

impl View for Builder {
    type V = BuilderModel;

    closed spec fn view(&self) -> BuilderModel {
        BuilderModel {
            module: self.module,
            next_id: self.next_id,
            function: self.function,
            basic_block: self.basic_block,
            interned: self.interned@.map_values(|e: (TypeDesc, Word)| (e.0@, e.1)),
        }
    }
}

impl Builder {
    pub open spec fn wf(&self) -> bool {
        self@.wf()
    }

    /// Creates a builder of an empty module.
    pub fn new() -> (r: Builder)
        ensures
            r.wf(),
            r@.module.is_empty(),
            r@.next_id == 1,
            r@.function.is_none(),
            r@.basic_block.is_none(),
            r@.interned.len() == 0,
    {
        let r = Builder {
            module: Module::new(),
            next_id: 1,
            function: None,
            basic_block: None,
            interned: Vec::new(),
        };
        assert(r@.interned =~= Seq::empty());
        r
    }

    /// Hands over the module built so far.
    pub fn module(self) -> (r: Module)
        ensures
            r == self@.module,
    {
        self.module
    }

    fn id(&mut self) -> (r: Word)
        requires
            old(self).wf(),
            old(self)@.next_id < u32::MAX,
        ensures
            final(self).wf(),
            old(self)@.allocated(final(self)@, r),
            final(self)@.module == old(self)@.module,
            final(self)@.function == old(self)@.function,
            final(self)@.basic_block == old(self)@.basic_block,
            final(self)@.interned == old(self)@.interned,
    {
        let id = self.next_id;
        proof {
            let n = id as int;
            self.module.lemma_ids_below_mono(n, n + 1);
            if self.function.is_some() {
                self.function->Some_0.lemma_ids_below_mono(n, n + 1);
            }
            if self.basic_block.is_some() {
                lemma_all_below_mono(self.basic_block->Some_0.instructions@, n, n + 1);
            }
        }
        self.next_id = self.next_id + 1;
        id
    }

    /// Begins a function whose definition has the given result type,
    /// function control and function type.
    pub fn begin_function(
        &mut self,
        return_type: Word,
        control: FunctionControl,
        function_type: Word,
    ) -> (r: Result<Word, Error>)
        requires
            old(self).wf(),
            old(self)@.next_id < u32::MAX,
        ensures
            final(self).wf(),
            old(self)@.function.is_some() ==> r == Err::<Word, Error>(Error::NestedFunction)
                && final(self)@ == old(self)@,
            old(self)@.function.is_none() ==> {
                &&& r == Ok::<Word, Error>(old(self)@.next_id)
                &&& old(self)@.allocated(final(self)@, r->Ok_0)
                &&& old(self)@.assembly_only(final(self)@)
                &&& final(self)@.basic_block.is_none()
                &&& final(self)@.function matches Some(f) && f.def matches Some(def) && def.is(
                    Op::Function,
                    Some(return_type),
                    Some(r->Ok_0),
                    seq![Operand::FunctionControl(control), Operand::IdRef(function_type)],
                ) && f.basic_blocks@.len() == 0 && f.end.is_none()
            },
    {
        if self.function.is_some() {
            return Err(Error::NestedFunction);
        }
        let id = self.id();
        let mut f = Function::new();
        f.def = Some(
            Instruction::new(
                Op::Function,
                Some(return_type),
                Some(id),
                vec![Operand::FunctionControl(control), Operand::IdRef(function_type)],
            ),
        );
        self.function = Some(f);
        Ok(id)
    }

    /// Ends the function under construction, which must have no basic
    /// block open, and appends it to the module.
    pub fn end_function(&mut self) -> (r: Result<(), Error>)
        requires
            old(self).wf(),
        ensures
            final(self).wf(),
            old(self)@.assembly() != Assembly::InFunction ==> r == Err::<(), Error>(
                Error::MismatchedFunctionEnd,
            ) && final(self)@ == old(self)@,
            old(self)@.assembly() == Assembly::InFunction ==> {
                let f = old(self)@.function->Some_0;
                let functions = final(self)@.module.functions@;
                let g = functions.last();
                &&& r is Ok
                &&& final(self)@.next_id == old(self)@.next_id
                &&& final(self)@.function.is_none()
                &&& final(self)@.basic_block.is_none()
                &&& final(self)@.interned == old(self)@.interned
                &&& final(self)@.module == (Module {
                    functions: final(self)@.module.functions,
                    ..old(self)@.module
                })
                &&& functions == old(self)@.module.functions@.push(g)
                &&& g.def == f.def
                &&& g.basic_blocks == f.basic_blocks
                &&& g.end matches Some(end) && end.is(Op::FunctionEnd, None, None, seq![])
            },
    {
        if self.function.is_none() || self.basic_block.is_some() {
            return Err(Error::MismatchedFunctionEnd);
        }
        let mut f = self.function.take().unwrap();
        f.end = Some(Instruction::new(Op::FunctionEnd, None, None, Vec::new()));
        self.module.functions.push(f);
        Ok(())
    }

    /// Begins a basic block in the function under construction and returns
    /// the identifier of its label.
    pub fn begin_basic_block(&mut self) -> (r: Result<Word, Error>)
        requires
            old(self).wf(),
            old(self)@.next_id < u32::MAX,
        ensures
            final(self).wf(),
            old(self)@.assembly() == Assembly::Idle ==> r == Err::<Word, Error>(
                Error::DetachedBasicBlock,
            ) && final(self)@ == old(self)@,
            old(self)@.assembly() == Assembly::InFunctionAndBlock ==> r == Err::<Word, Error>(
                Error::NestedBasicBlock,
            ) && final(self)@ == old(self)@,
            old(self)@.assembly() == Assembly::InFunction ==> {
                &&& r == Ok::<Word, Error>(old(self)@.next_id)
                &&& old(self)@.allocated(final(self)@, r->Ok_0)
                &&& old(self)@.assembly_only(final(self)@)
                &&& final(self)@.function == old(self)@.function
                &&& final(self)@.basic_block matches Some(b) && b.label matches Some(label)
                    && label.is(Op::Label, None, Some(r->Ok_0), seq![]) && b.instructions@.len() == 0
            },
    {
        if self.function.is_none() {
            return Err(Error::DetachedBasicBlock);
        }
        if self.basic_block.is_some() {
            return Err(Error::NestedBasicBlock);
        }
        let id = self.id();
        let mut bb = BasicBlock::new();
        bb.label = Some(Instruction::new(Op::Label, None, Some(id), Vec::new()));
        self.basic_block = Some(bb);
        Ok(id)
    }

    /// `after` is `before` with the open basic block ended by `inst` and
    /// moved into the function under construction.
    pub open spec fn terminated(before: BuilderModel, after: BuilderModel, inst: Instruction) -> bool {
        let f = before.function->Some_0;
        let b = before.basic_block->Some_0;
        &&& after.next_id == before.next_id
        &&& before.assembly_only(after)
        &&& after.basic_block.is_none()
        &&& after.function matches Some(g) && {
            let blocks = g.basic_blocks@;
            let c = blocks.last();
            &&& g.def == f.def
            &&& g.end == f.end
            &&& blocks == f.basic_blocks@.push(c)
            &&& c.label == b.label
            &&& c.instructions@ == b.instructions@.push(inst)
        }
    }

    /// What a terminator emitter owes: the error, with nothing changed,
    /// when no block is open; else the open block ended by an instruction
    /// with operation `class` and operands `operands`, and moved into the
    /// function under construction.
    pub open spec fn ends_block(
        before: BuilderModel,
        after: BuilderModel,
        r: Result<(), Error>,
        class: Op,
        operands: Seq<Operand>,
    ) -> bool {
        let t = after.function->Some_0.basic_blocks@.last().instructions@.last();
        &&& before.basic_block.is_none() ==> r == Err::<(), Error>(Error::MismatchedTerminator)
            && after == before
        &&& before.basic_block.is_some() ==> {
            &&& r is Ok
            &&& Self::terminated(before, after, t)
            &&& t.is(class, None, None, operands)
        }
    }

    fn end_basic_block(&mut self, inst: Instruction) -> (r: Result<(), Error>)
        requires
            old(self).wf(),
            inst.result_id.is_none(),
            inst.class.is_terminator(),
        ensures
            final(self).wf(),
            old(self)@.basic_block.is_none() ==> r == Err::<(), Error>(Error::MismatchedTerminator)
                && final(self)@ == old(self)@,
            old(self)@.basic_block.is_some() ==> r is Ok && Self::terminated(
                old(self)@,
                final(self)@,
                inst,
            ),
    {
        if self.basic_block.is_none() {
            return Err(Error::MismatchedTerminator);
        }
        let ghost n = self.next_id as int;
        let mut bb = self.basic_block.take().unwrap();
        bb.instructions.push(inst);
        let mut f = self.function.take().unwrap();
        f.basic_blocks.push(bb);
        proof {
            assert(f.basic_blocks@.last().ids_below(n));
            assert(f.ids_below(n));
        }
        self.function = Some(f);
        Ok(())
    }

    /// What interning `d` owes: the identifier it already has, with nothing
    /// changed; else a fresh identifier, with its declaration appended to
    /// the types section and `d` recorded under it.
    pub open spec fn interned_as(before: BuilderModel, after: BuilderModel, d: DescModel, id: Word) -> bool {
        match before.lookup(d) {
            Some(existing) => id == existing && after == before,
            None => {
                let types = after.module.types_global_values@;
                &&& before.allocated(after, id)
                &&& after.function == before.function
                &&& after.basic_block == before.basic_block
                &&& after.interned == before.interned.push((d, id))
                &&& after.module == (Module {
                    types_global_values: after.module.types_global_values,
                    ..before.module
                })
                &&& types == before.module.types_global_values@.push(types.last())
                &&& d.declared_by(types.last(), id)
            },
        }
    }

    fn find(&self, desc: &TypeDesc) -> (r: Option<usize>)
        ensures
            match r {
                Some(i) => i < self@.interned.len() && self@.interned[i as int].0 == desc@,
                None => forall|k: int| 0 <= k < self@.interned.len() ==> (#[trigger] self@.interned[k]).0 != desc@,
            },
    {
        let mut i: usize = 0;
        while i < self.interned.len()
            invariant
                i <= self.interned@.len(),
                forall|k: int| 0 <= k < i ==> (#[trigger] self@.interned[k]).0 != desc@,
            decreases self.interned@.len() - i,
        {
            if self.interned[i].0.same(desc) {
                return Some(i);
            }
            i = i + 1;
        }
        None
    }

    /// Returns the identifier of the type or constant `desc`, declaring it
    /// first if no structurally equal one has been declared.
    pub fn intern(&mut self, desc: TypeDesc) -> (r: Word)
        requires
            old(self).wf(),
            old(self)@.next_id < u32::MAX,
        ensures
            final(self).wf(),
            Self::interned_as(old(self)@, final(self)@, desc@, r),
            final(self)@.lookup(desc@) == Some(r),
    {
        match self.find(&desc) {
            Some(i) => {
                let id = self.interned[i].1;
                proof {
                    assert(self@.interned[i as int].0 == desc@);
                }
                id
            },
            None => {
                let ghost before = self@;
                let id = self.id();
                let inst = desc.declaration(id);
                self.module.types_global_values.push(inst);
                let ghost d = desc@;
                let ghost old_interned = self.interned@;
                self.interned.push((desc, id));
                proof {
                    assert(self@.interned =~= before.interned.push((d, id)));
                    let n = self.next_id as int;
                    let types = self.module.types_global_values@;
                    assert(types.last().id_below(n));
                    assert(all_below(types, n));
                    assert(self@.interned[before.interned.len() as int].0 == d);
                }
                id
            },
        }
    }

    /// Declares the void type, once.
    pub fn type_void(&mut self) -> (r: Word)
        requires
            old(self).wf(),
            old(self)@.next_id < u32::MAX,
        ensures
            final(self).wf(),
            Self::interned_as(old(self)@, final(self)@, (DescModel::Void), r),
            final(self)@.lookup((DescModel::Void)) == Some(r),
    {
        self.intern(TypeDesc::Void)
    }

    /// Declares the boolean type, once.
    pub fn type_bool(&mut self) -> (r: Word)
        requires
            old(self).wf(),
            old(self)@.next_id < u32::MAX,
        ensures
            final(self).wf(),
            Self::interned_as(old(self)@, final(self)@, (DescModel::Bool), r),
            final(self)@.lookup((DescModel::Bool)) == Some(r),
    {
        self.intern(TypeDesc::Bool)
    }

    /// Declares the integer type of the given width and signedness, once.
    pub fn type_int(&mut self, width: u32, signed: bool) -> (r: Word)
        requires
            old(self).wf(),
            old(self)@.next_id < u32::MAX,
        ensures
            final(self).wf(),
            Self::interned_as(old(self)@, final(self)@, (DescModel::Int { width, signed }), r),
            final(self)@.lookup((DescModel::Int { width, signed })) == Some(r),
    {
        self.intern(TypeDesc::Int { width, signed })
    }

    /// Declares the floating-point type of the given width, once.
    pub fn type_float(&mut self, width: u32) -> (r: Word)
        requires
            old(self).wf(),
            old(self)@.next_id < u32::MAX,
        ensures
            final(self).wf(),
            Self::interned_as(old(self)@, final(self)@, (DescModel::Float { width }), r),
            final(self)@.lookup((DescModel::Float { width })) == Some(r),
    {
        self.intern(TypeDesc::Float { width })
    }

    /// Declares the vector type of `count` components of type `component`, once.
    pub fn type_vector(&mut self, component: Word, count: u32) -> (r: Word)
        requires
            old(self).wf(),
            old(self)@.next_id < u32::MAX,
        ensures
            final(self).wf(),
            Self::interned_as(old(self)@, final(self)@, (DescModel::Vector { component, count }), r),
            final(self)@.lookup((DescModel::Vector { component, count })) == Some(r),
    {
        self.intern(TypeDesc::Vector { component, count })
    }

    /// Declares the matrix type of `count` columns of type `column`, once.
    pub fn type_matrix(&mut self, column: Word, count: u32) -> (r: Word)
        requires
            old(self).wf(),
            old(self)@.next_id < u32::MAX,
        ensures
            final(self).wf(),
            Self::interned_as(old(self)@, final(self)@, (DescModel::Matrix { column, count }), r),
            final(self)@.lookup((DescModel::Matrix { column, count })) == Some(r),
    {
        self.intern(TypeDesc::Matrix { column, count })
    }

    /// Declares the array type of `element` whose length is the constant `length`, once.
    pub fn type_array(&mut self, element: Word, length: Word) -> (r: Word)
        requires
            old(self).wf(),
            old(self)@.next_id < u32::MAX,
        ensures
            final(self).wf(),
            Self::interned_as(old(self)@, final(self)@, (DescModel::Array { element, length }), r),
            final(self)@.lookup((DescModel::Array { element, length })) == Some(r),
    {
        self.intern(TypeDesc::Array { element, length })
    }

    /// Declares the runtime-sized array type of `element`, once.
    pub fn type_runtime_array(&mut self, element: Word) -> (r: Word)
        requires
            old(self).wf(),
            old(self)@.next_id < u32::MAX,
        ensures
            final(self).wf(),
            Self::interned_as(old(self)@, final(self)@, (DescModel::RuntimeArray { element }), r),
            final(self)@.lookup((DescModel::RuntimeArray { element })) == Some(r),
    {
        self.intern(TypeDesc::RuntimeArray { element })
    }

    /// Declares the structure type with the given member types, once.
    pub fn type_struct(&mut self, members: Vec<Word>) -> (r: Word)
        requires
            old(self).wf(),
            old(self)@.next_id < u32::MAX,
        ensures
            final(self).wf(),
            Self::interned_as(
                old(self)@,
                final(self)@,
                (DescModel::Struct { members: members@ }),
                r,
            ),
            final(self)@.lookup((DescModel::Struct { members: members@ })) == Some(r),
    {
        self.intern(TypeDesc::Struct { members })
    }

    /// Declares the pointer type to `pointee` in storage class `storage`, once.
    pub fn type_pointer(&mut self, storage: StorageClass, pointee: Word) -> (r: Word)
        requires
            old(self).wf(),
            old(self)@.next_id < u32::MAX,
        ensures
            final(self).wf(),
            Self::interned_as(
                old(self)@,
                final(self)@,
                (DescModel::Pointer { storage, pointee }),
                r,
            ),
            final(self)@.lookup((DescModel::Pointer { storage, pointee })) == Some(r),
    {
        self.intern(TypeDesc::Pointer { storage, pointee })
    }

    /// Declares the function type with the given return and parameter types, once.
    pub fn type_function(&mut self, return_type: Word, parameters: Vec<Word>) -> (r: Word)
        requires
            old(self).wf(),
            old(self)@.next_id < u32::MAX,
        ensures
            final(self).wf(),
            Self::interned_as(
                old(self)@,
                final(self)@,
                (DescModel::Function { return_type, parameters: parameters@ }),
                r,
            ),
            final(self)@.lookup((DescModel::Function { return_type, parameters: parameters@ })) == Some(r),
    {
        self.intern(TypeDesc::Function { return_type, parameters })
    }

    /// Declares the true constant of boolean type `ty`, once.
    pub fn constant_true(&mut self, ty: Word) -> (r: Word)
        requires
            old(self).wf(),
            old(self)@.next_id < u32::MAX,
        ensures
            final(self).wf(),
            Self::interned_as(old(self)@, final(self)@, (DescModel::ConstantTrue { ty }), r),
            final(self)@.lookup((DescModel::ConstantTrue { ty })) == Some(r),
    {
        self.intern(TypeDesc::ConstantTrue { ty })
    }

    /// Declares the false constant of boolean type `ty`, once.
    pub fn constant_false(&mut self, ty: Word) -> (r: Word)
        requires
            old(self).wf(),
            old(self)@.next_id < u32::MAX,
        ensures
            final(self).wf(),
            Self::interned_as(old(self)@, final(self)@, (DescModel::ConstantFalse { ty }), r),
            final(self)@.lookup((DescModel::ConstantFalse { ty })) == Some(r),
    {
        self.intern(TypeDesc::ConstantFalse { ty })
    }

    /// Declares the scalar constant `value` of the 32-bit type `ty`, once.
    pub fn constant_u32(&mut self, ty: Word, value: u32) -> (r: Word)
        requires
            old(self).wf(),
            old(self)@.next_id < u32::MAX,
        ensures
            final(self).wf(),
            Self::interned_as(old(self)@, final(self)@, (DescModel::Constant32 { ty, value }), r),
            final(self)@.lookup((DescModel::Constant32 { ty, value })) == Some(r),
    {
        self.intern(TypeDesc::Constant32 { ty, value })
    }

    /// Declares the scalar constant `value` of the 64-bit type `ty`, once.
    pub fn constant_u64(&mut self, ty: Word, value: u64) -> (r: Word)
        requires
            old(self).wf(),
            old(self)@.next_id < u32::MAX,
        ensures
            final(self).wf(),
            Self::interned_as(old(self)@, final(self)@, (DescModel::Constant64 { ty, value }), r),
            final(self)@.lookup((DescModel::Constant64 { ty, value })) == Some(r),
    {
        self.intern(TypeDesc::Constant64 { ty, value })
    }

    /// Declares the composite constant of type `ty` built from `constituents`, once.
    pub fn constant_composite(&mut self, ty: Word, constituents: Vec<Word>) -> (r: Word)
        requires
            old(self).wf(),
            old(self)@.next_id < u32::MAX,
        ensures
            final(self).wf(),
            Self::interned_as(
                old(self)@,
                final(self)@,
                (DescModel::ConstantComposite { ty, constituents: constituents@ }),
                r,
            ),
            final(self)@.lookup((DescModel::ConstantComposite { ty, constituents: constituents@ })) == Some(r),
    {
        self.intern(TypeDesc::ConstantComposite { ty, constituents })
    }

    /// Declares the null constant of type `ty`, once.
    pub fn constant_null(&mut self, ty: Word) -> (r: Word)
        requires
            old(self).wf(),
            old(self)@.next_id < u32::MAX,
        ensures
            final(self).wf(),
            Self::interned_as(old(self)@, final(self)@, (DescModel::ConstantNull { ty }), r),
            final(self)@.lookup((DescModel::ConstantNull { ty })) == Some(r),
    {
        self.intern(TypeDesc::ConstantNull { ty })
    }

    /// Declares a capability the module uses.
    pub fn capability(&mut self, capability: Capability)
        requires
            old(self).wf(),
        ensures
            final(self).wf(),
            final(self)@.next_id == old(self)@.next_id,
            old(self)@.module_only(final(self)@),
            final(self)@.module == (Module {
                capabilities: final(self)@.module.capabilities,
                ..old(self)@.module
            }),
            appended(
                old(self)@.module.capabilities@,
                final(self)@.module.capabilities@,
                Op::Capability,
                None,
                None,
                seq![Operand::Capability(capability)],
            ),
    {
        let inst = Instruction::new(
            Op::Capability,
            None,
            None,
            vec![Operand::Capability(capability)],
        );
        assert(inst.operands@ =~= seq![Operand::Capability(capability)]);
        self.module.capabilities.push(inst);
    }

    /// Declares an extension the module uses.
    pub fn extension(&mut self, extension: String)
        requires
            old(self).wf(),
        ensures
            final(self).wf(),
            final(self)@.next_id == old(self)@.next_id,
            old(self)@.module_only(final(self)@),
            final(self)@.module == (Module {
                extensions: final(self)@.module.extensions,
                ..old(self)@.module
            }),
            appended(
                old(self)@.module.extensions@,
                final(self)@.module.extensions@,
                Op::Extension,
                None,
                None,
                seq![Operand::LiteralString(extension)],
            ),
    {
        let inst = Instruction::new(
            Op::Extension,
            None,
            None,
            vec![Operand::LiteralString(extension)],
        );
        assert(inst.operands@ =~= seq![Operand::LiteralString(extension)]);
        self.module.extensions.push(inst);
    }

    /// Imports an extended instruction set and returns its identifier.
    pub fn ext_inst_import(&mut self, extended_inst_set: String) -> (r: Word)
        requires
            old(self).wf(),
            old(self)@.next_id < u32::MAX,
        ensures
            final(self).wf(),
            old(self)@.allocated(final(self)@, r),
            old(self)@.module_only(final(self)@),
            final(self)@.module == (Module {
                ext_inst_imports: final(self)@.module.ext_inst_imports,
                ..old(self)@.module
            }),
            appended(
                old(self)@.module.ext_inst_imports@,
                final(self)@.module.ext_inst_imports@,
                Op::ExtInstImport,
                None,
                Some(r),
                seq![Operand::LiteralString(extended_inst_set)],
            ),
    {
        let id = self.id();
        let inst = Instruction::new(
            Op::ExtInstImport,
            None,
            Some(id),
            vec![Operand::LiteralString(extended_inst_set)],
        );
        assert(inst.operands@ =~= seq![Operand::LiteralString(extended_inst_set)]);
        self.module.ext_inst_imports.push(inst);
        proof {
            assert(all_below(self.module.ext_inst_imports@, self.next_id as int));
        }
        id
    }

    /// Sets the addressing and memory model, replacing any set before.
    pub fn memory_model(&mut self, addressing_model: AddressingModel, memory_model: MemoryModel)
        requires
            old(self).wf(),
        ensures
            final(self).wf(),
            final(self)@.next_id == old(self)@.next_id,
            old(self)@.module_only(final(self)@),
            final(self)@.module == (Module {
                memory_model: final(self)@.module.memory_model,
                ..old(self)@.module
            }),
            final(self)@.module.memory_model matches Some(inst) && inst.is(
                Op::MemoryModel,
                None,
                None,
                seq![
                    Operand::AddressingModel(addressing_model),
                    Operand::MemoryModel(memory_model),
                ],
            ),
    {
        let inst = Instruction::new(
            Op::MemoryModel,
            None,
            None,
            vec![Operand::AddressingModel(addressing_model), Operand::MemoryModel(memory_model)],
        );
        self.module.memory_model = Some(inst);
    }

    /// Declares `entry_point` an entry point of the given execution model,
    /// named `name`, with the given interface variables.
    pub fn entry_point(
        &mut self,
        execution_model: ExecutionModel,
        entry_point: Word,
        name: String,
        interface: &[Word],
    )
        requires
            old(self).wf(),
        ensures
            final(self).wf(),
            final(self)@.next_id == old(self)@.next_id,
            old(self)@.module_only(final(self)@),
            final(self)@.module == (Module {
                entry_points: final(self)@.module.entry_points,
                ..old(self)@.module
            }),
            appended(
                old(self)@.module.entry_points@,
                final(self)@.module.entry_points@,
                Op::EntryPoint,
                None,
                None,
                seq![
                    Operand::ExecutionModel(execution_model),
                    Operand::IdRef(entry_point),
                    Operand::LiteralString(name),
                ] + id_refs(interface@),
            ),
    {
        let mut operands = vec![
            Operand::ExecutionModel(execution_model),
            Operand::IdRef(entry_point),
            Operand::LiteralString(name),
        ];
        push_id_refs(&mut operands, interface);
        let inst = Instruction::new(Op::EntryPoint, None, None, operands);
        self.module.entry_points.push(inst);
    }

    /// Declares an execution mode of `entry_point`, with its literal
    /// parameters.
    pub fn execution_mode(
        &mut self,
        entry_point: Word,
        execution_mode: ExecutionMode,
        params: &[u32],
    )
        requires
            old(self).wf(),
        ensures
            final(self).wf(),
            final(self)@.next_id == old(self)@.next_id,
            old(self)@.module_only(final(self)@),
            final(self)@.module == (Module {
                execution_modes: final(self)@.module.execution_modes,
                ..old(self)@.module
            }),
            appended(
                old(self)@.module.execution_modes@,
                final(self)@.module.execution_modes@,
                Op::ExecutionMode,
                None,
                None,
                seq![
                    Operand::IdRef(entry_point),
                    Operand::ExecutionMode(execution_mode),
                ] + literals(params@),
            ),
    {
        let mut operands = vec![
            Operand::IdRef(entry_point),
            Operand::ExecutionMode(execution_mode),
        ];
        push_literals(&mut operands, params);
        let inst = Instruction::new(Op::ExecutionMode, None, None, operands);
        self.module.execution_modes.push(inst);
    }

    /// Decorates `target` and returns the decoration's identifier.
    pub fn decorate(
        &mut self,
        target: Word,
        decoration: Decoration,
        params: Vec<Operand>,
    ) -> (r: Word)
        requires
            old(self).wf(),
            old(self)@.next_id < u32::MAX,
        ensures
            final(self).wf(),
            old(self)@.allocated(final(self)@, r),
            old(self)@.module_only(final(self)@),
            final(self)@.module == (Module {
                annotations: final(self)@.module.annotations,
                ..old(self)@.module
            }),
            appended(
                old(self)@.module.annotations@,
                final(self)@.module.annotations@,
                Op::Decorate,
                None,
                Some(r),
                seq![Operand::IdRef(target), Operand::Decoration(decoration)] + params@,
            ),
    {
        let mut params = params;
        let id = self.id();
        let mut operands = vec![Operand::IdRef(target), Operand::Decoration(decoration)];
        operands.append(&mut params);
        self.module.annotations.push(Instruction::new(Op::Decorate, None, Some(id), operands));
        proof {
            assert(all_below(self.module.annotations@, self.next_id as int));
        }
        id
    }

    /// Decorates member `member` of `structure` and returns the
    /// decoration's identifier.
    pub fn member_decorate(
        &mut self,
        structure: Word,
        member: Word,
        decoration: Decoration,
        params: Vec<Operand>,
    ) -> (r: Word)
        requires
            old(self).wf(),
            old(self)@.next_id < u32::MAX,
        ensures
            final(self).wf(),
            old(self)@.allocated(final(self)@, r),
            old(self)@.module_only(final(self)@),
            final(self)@.module == (Module {
                annotations: final(self)@.module.annotations,
                ..old(self)@.module
            }),
            appended(
                old(self)@.module.annotations@,
                final(self)@.module.annotations@,
                Op::MemberDecorate,
                None,
                Some(r),
                seq![
                    Operand::IdRef(structure),
                    Operand::IdRef(member),
                    Operand::Decoration(decoration),
                ] + params@,
            ),
    {
        let mut params = params;
        let id = self.id();
        let mut operands = vec![
            Operand::IdRef(structure),
            Operand::IdRef(member),
            Operand::Decoration(decoration),
        ];
        operands.append(&mut params);
        self.module.annotations.push(
            Instruction::new(Op::MemberDecorate, None, Some(id), operands),
        );
        proof {
            assert(all_below(self.module.annotations@, self.next_id as int));
        }
        id
    }

    /// Declares a decoration group and returns its identifier.
    pub fn decoration_group(&mut self) -> (r: Word)
        requires
            old(self).wf(),
            old(self)@.next_id < u32::MAX,
        ensures
            final(self).wf(),
            old(self)@.allocated(final(self)@, r),
            old(self)@.module_only(final(self)@),
            final(self)@.module == (Module {
                annotations: final(self)@.module.annotations,
                ..old(self)@.module
            }),
            appended(
                old(self)@.module.annotations@,
                final(self)@.module.annotations@,
                Op::DecorationGroup,
                None,
                Some(r),
                seq![],
            ),
    {
        let id = self.id();
        self.module.annotations.push(
            Instruction::new(Op::DecorationGroup, None, Some(id), Vec::new()),
        );
        proof {
            assert(all_below(self.module.annotations@, self.next_id as int));
        }
        id
    }

    /// Applies decoration group `group` to `targets` and returns the
    /// instruction's identifier.
    pub fn group_decorate(&mut self, group: Word, targets: Vec<Word>) -> (r: Word)
        requires
            old(self).wf(),
            old(self)@.next_id < u32::MAX,
        ensures
            final(self).wf(),
            old(self)@.allocated(final(self)@, r),
            old(self)@.module_only(final(self)@),
            final(self)@.module == (Module {
                annotations: final(self)@.module.annotations,
                ..old(self)@.module
            }),
            appended(
                old(self)@.module.annotations@,
                final(self)@.module.annotations@,
                Op::GroupDecorate,
                None,
                Some(r),
                seq![Operand::IdRef(group)] + id_refs(targets@),
            ),
    {
        let id = self.id();
        let mut operands = vec![Operand::IdRef(group)];
        assert(operands@ =~= seq![Operand::IdRef(group)]);
        push_id_refs(&mut operands, targets.as_slice());
        self.module.annotations.push(Instruction::new(Op::GroupDecorate, None, Some(id), operands));
        proof {
            assert(all_below(self.module.annotations@, self.next_id as int));
        }
        id
    }

    /// Applies decoration group `group` to the given members of the given
    /// structures and returns the instruction's identifier.
    pub fn group_member_decorate(&mut self, group: Word, targets: Vec<(Word, u32)>) -> (r: Word)
        requires
            old(self).wf(),
            old(self)@.next_id < u32::MAX,
        ensures
            final(self).wf(),
            old(self)@.allocated(final(self)@, r),
            old(self)@.module_only(final(self)@),
            final(self)@.module == (Module {
                annotations: final(self)@.module.annotations,
                ..old(self)@.module
            }),
            appended(
                old(self)@.module.annotations@,
                final(self)@.module.annotations@,
                Op::GroupMemberDecorate,
                None,
                Some(r),
                seq![Operand::IdRef(group)] + member_refs(targets@),
            ),
    {
        let id = self.id();
        let mut operands = vec![Operand::IdRef(group)];
        assert(operands@ =~= seq![Operand::IdRef(group)]);
        push_member_refs(&mut operands, &targets);
        self.module.annotations.push(
            Instruction::new(Op::GroupMemberDecorate, None, Some(id), operands),
        );
        proof {
            assert(all_below(self.module.annotations@, self.next_id as int));
        }
        id
    }

    /// Ends the open block with an unconditional branch to `target_label`.
    pub fn branch(&mut self, target_label: Word) -> (r: Result<(), Error>)
        requires
            old(self).wf(),
        ensures
            final(self).wf(),
            Self::ends_block(
                old(self)@,
                final(self)@,
                r,
                Op::Branch,
                seq![Operand::IdRef(target_label)],
            ),
    {
        let operands = vec![Operand::IdRef(target_label)];
        assert(operands@ =~= seq![Operand::IdRef(target_label)]);
        self.end_basic_block(Instruction::new(Op::Branch, None, None, operands))
    }

    /// Ends the open block with a branch on `condition`, with optional branch weights.
    pub fn branch_conditional(
        &mut self,
        condition: Word,
        true_label: Word,
        false_label: Word,
        weights: &[u32],
    ) -> (r: Result<(), Error>)
        requires
            old(self).wf(),
        ensures
            final(self).wf(),
            Self::ends_block(
                old(self)@,
                final(self)@,
                r,
                Op::BranchConditional,
                seq![
                    Operand::IdRef(condition),
                    Operand::IdRef(true_label),
                    Operand::IdRef(false_label),
                ] + literals(weights@),
            ),
    {
        let mut operands = vec![
            Operand::IdRef(condition),
            Operand::IdRef(true_label),
            Operand::IdRef(false_label),
        ];
        push_literals(&mut operands, weights);
        self.end_basic_block(Instruction::new(Op::BranchConditional, None, None, operands))
    }

    /// Ends the open block with a multi-way branch on `selector`: to the
    /// label of the case whose literal it equals, else to `default`.
    pub fn switch(
        &mut self,
        selector: Word,
        default: Word,
        targets: &[(u32, Word)],
    ) -> (r: Result<(), Error>)
        requires
            old(self).wf(),
        ensures
            final(self).wf(),
            Self::ends_block(
                old(self)@,
                final(self)@,
                r,
                Op::Switch,
                seq![Operand::IdRef(selector), Operand::IdRef(default)] + case_refs(targets@),
            ),
    {
        let mut operands = vec![Operand::IdRef(selector), Operand::IdRef(default)];
        push_case_refs(&mut operands, targets);
        self.end_basic_block(Instruction::new(Op::Switch, None, None, operands))
    }

    /// Ends the open block by discarding the fragment.
    pub fn kill(&mut self) -> (r: Result<(), Error>)
        requires
            old(self).wf(),
        ensures
            final(self).wf(),
            Self::ends_block(old(self)@, final(self)@, r, Op::Kill, seq![]),
    {
        let operands = Vec::new();
        self.end_basic_block(Instruction::new(Op::Kill, None, None, operands))
    }

    /// Ends the open block by returning from a function with no result.
    pub fn ret(&mut self) -> (r: Result<(), Error>)
        requires
            old(self).wf(),
        ensures
            final(self).wf(),
            Self::ends_block(old(self)@, final(self)@, r, Op::Return, seq![]),
    {
        let operands = Vec::new();
        self.end_basic_block(Instruction::new(Op::Return, None, None, operands))
    }

    /// Ends the open block by returning `value`.
    pub fn ret_value(&mut self, value: Word) -> (r: Result<(), Error>)
        requires
            old(self).wf(),
        ensures
            final(self).wf(),
            Self::ends_block(
                old(self)@,
                final(self)@,
                r,
                Op::ReturnValue,
                seq![Operand::IdRef(value)],
            ),
    {
        let operands = vec![Operand::IdRef(value)];
        assert(operands@ =~= seq![Operand::IdRef(value)]);
        self.end_basic_block(Instruction::new(Op::ReturnValue, None, None, operands))
    }

    /// Ends the open block with an instruction that is never reached.
    pub fn unreachable(&mut self) -> (r: Result<(), Error>)
        requires
            old(self).wf(),
        ensures
            final(self).wf(),
            Self::ends_block(old(self)@, final(self)@, r, Op::Unreachable, seq![]),
    {
        let operands = Vec::new();
        self.end_basic_block(Instruction::new(Op::Unreachable, None, None, operands))
    }
}

} // verus!
