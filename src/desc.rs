//! Structural descriptions of types and constants, the keys under which a
//! builder interns their declarations.
use vstd::prelude::*;
use crate::model::{Instruction, Op, Operand, StorageClass, Word};

verus! {

/// A type or constant, described by its kind and the values and
/// identifiers it is built from.
#[derive(Clone, Debug)]
pub enum TypeDesc {
    Void,
    Bool,
    Int { width: u32, signed: bool },
    Float { width: u32 },
    Vector { component: Word, count: u32 },
    Matrix { column: Word, count: u32 },
    Array { element: Word, length: Word },
    RuntimeArray { element: Word },
    Struct { members: Vec<Word> },
    Pointer { storage: StorageClass, pointee: Word },
    Function { return_type: Word, parameters: Vec<Word> },
    ConstantTrue { ty: Word },
    ConstantFalse { ty: Word },
    Constant32 { ty: Word, value: u32 },
    Constant64 { ty: Word, value: u64 },
    ConstantComposite { ty: Word, constituents: Vec<Word> },
    ConstantNull { ty: Word },
}

/// The mathematical value of a description: two descriptions are the same
/// type or constant exactly when their models are equal.
pub enum DescModel {
    Void,
    Bool,
    Int { width: u32, signed: bool },
    Float { width: u32 },
    Vector { component: Word, count: u32 },
    Matrix { column: Word, count: u32 },
    Array { element: Word, length: Word },
    RuntimeArray { element: Word },
    Struct { members: Seq<Word> },
    Pointer { storage: StorageClass, pointee: Word },
    Function { return_type: Word, parameters: Seq<Word> },
    ConstantTrue { ty: Word },
    ConstantFalse { ty: Word },
    Constant32 { ty: Word, value: u32 },
    Constant64 { ty: Word, value: u64 },
    ConstantComposite { ty: Word, constituents: Seq<Word> },
    ConstantNull { ty: Word },
}

impl View for TypeDesc {
    type V = DescModel;

    open spec fn view(&self) -> DescModel {
        match self {
            TypeDesc::Void => DescModel::Void,
            TypeDesc::Bool => DescModel::Bool,
            TypeDesc::Int { width, signed } => DescModel::Int { width: *width, signed: *signed },
            TypeDesc::Float { width } => DescModel::Float { width: *width },
            TypeDesc::Vector { component, count } => DescModel::Vector {
                component: *component,
                count: *count,
            },
            TypeDesc::Matrix { column, count } => DescModel::Matrix {
                column: *column,
                count: *count,
            },
            TypeDesc::Array { element, length } => DescModel::Array {
                element: *element,
                length: *length,
            },
            TypeDesc::RuntimeArray { element } => DescModel::RuntimeArray { element: *element },
            TypeDesc::Struct { members } => DescModel::Struct { members: members@ },
            TypeDesc::Pointer { storage, pointee } => DescModel::Pointer {
                storage: *storage,
                pointee: *pointee,
            },
            TypeDesc::Function { return_type, parameters } => DescModel::Function {
                return_type: *return_type,
                parameters: parameters@,
            },
            TypeDesc::ConstantTrue { ty } => DescModel::ConstantTrue { ty: *ty },
            TypeDesc::ConstantFalse { ty } => DescModel::ConstantFalse { ty: *ty },
            TypeDesc::Constant32 { ty, value } => DescModel::Constant32 { ty: *ty, value: *value },
            TypeDesc::Constant64 { ty, value } => DescModel::Constant64 { ty: *ty, value: *value },
            TypeDesc::ConstantComposite { ty, constituents } => DescModel::ConstantComposite {
                ty: *ty,
                constituents: constituents@,
            },
            TypeDesc::ConstantNull { ty } => DescModel::ConstantNull { ty: *ty },
        }
    }
}

/// Each word as an identifier reference.
pub open spec fn id_refs(ws: Seq<Word>) -> Seq<Operand> {
    ws.map_values(|w: Word| Operand::IdRef(w))
}

impl DescModel {
    /// The operation of the instruction that declares this type or constant.
    pub open spec fn class(self) -> Op {
        match self {
            DescModel::Void => Op::TypeVoid,
            DescModel::Bool => Op::TypeBool,
            DescModel::Int { .. } => Op::TypeInt,
            DescModel::Float { .. } => Op::TypeFloat,
            DescModel::Vector { .. } => Op::TypeVector,
            DescModel::Matrix { .. } => Op::TypeMatrix,
            DescModel::Array { .. } => Op::TypeArray,
            DescModel::RuntimeArray { .. } => Op::TypeRuntimeArray,
            DescModel::Struct { .. } => Op::TypeStruct,
            DescModel::Pointer { .. } => Op::TypePointer,
            DescModel::Function { .. } => Op::TypeFunction,
            DescModel::ConstantTrue { .. } => Op::ConstantTrue,
            DescModel::ConstantFalse { .. } => Op::ConstantFalse,
            DescModel::Constant32 { .. } => Op::Constant,
            DescModel::Constant64 { .. } => Op::Constant,
            DescModel::ConstantComposite { .. } => Op::ConstantComposite,
            DescModel::ConstantNull { .. } => Op::ConstantNull,
        }
    }

    /// The result type of the declaring instruction: the type of a
    /// constant, none for a type.
    pub open spec fn result_type(self) -> Option<Word> {
        match self {
            DescModel::ConstantTrue { ty } => Some(ty),
            DescModel::ConstantFalse { ty } => Some(ty),
            DescModel::Constant32 { ty, .. } => Some(ty),
            DescModel::Constant64 { ty, .. } => Some(ty),
            DescModel::ConstantComposite { ty, .. } => Some(ty),
            DescModel::ConstantNull { ty } => Some(ty),
            _ => None,
        }
    }

    /// The operands of the declaring instruction, in the grammar's order.
    pub open spec fn operands(self) -> Seq<Operand> {
        match self {
            DescModel::Int { width, signed } => seq![
                Operand::LiteralInt32(width),
                Operand::LiteralInt32(if signed { 1 } else { 0 }),
            ],
            DescModel::Float { width } => seq![Operand::LiteralInt32(width)],
            DescModel::Vector { component, count } => seq![
                Operand::IdRef(component),
                Operand::LiteralInt32(count),
            ],
            DescModel::Matrix { column, count } => seq![
                Operand::IdRef(column),
                Operand::LiteralInt32(count),
            ],
            DescModel::Array { element, length } => seq![
                Operand::IdRef(element),
                Operand::IdRef(length),
            ],
            DescModel::RuntimeArray { element } => seq![Operand::IdRef(element)],
            DescModel::Struct { members } => id_refs(members),
            DescModel::Pointer { storage, pointee } => seq![
                Operand::StorageClass(storage),
                Operand::IdRef(pointee),
            ],
            DescModel::Function { return_type, parameters } => seq![Operand::IdRef(return_type)]
                + id_refs(parameters),
            DescModel::Constant32 { value, .. } => seq![Operand::LiteralInt32(value)],
            DescModel::Constant64 { value, .. } => seq![Operand::LiteralInt64(value)],
            DescModel::ConstantComposite { constituents, .. } => id_refs(constituents),
            _ => seq![],
        }
    }

    /// Whether `inst` declares this type or constant with result `id`.
    pub open spec fn declared_by(self, inst: Instruction, id: Word) -> bool {
        inst.is(self.class(), self.result_type(), Some(id), self.operands())
    }

    /// Whether `inst` declares this type or constant under any identifier.
    pub open spec fn declares(self, inst: Instruction) -> bool {
        inst.result_id is Some && self.declared_by(inst, inst.result_id->Some_0)
    }
}

proof fn lemma_id_refs_injective(a: Seq<Word>, b: Seq<Word>)
    requires
        id_refs(a) == id_refs(b),
    ensures
        a == b,
{
    assert(a.len() == id_refs(a).len());
    assert forall|k: int| 0 <= k < a.len() implies a[k] == b[k] by {
        assert(id_refs(a)[k] == Operand::IdRef(a[k]));
        assert(id_refs(b)[k] == Operand::IdRef(b[k]));
    }
    assert(a =~= b);
}

/// Different types or constants are never declared by the same
/// instruction: a declaration determines what it declares.
pub proof fn lemma_declaration_determines(
    d1: DescModel,
    d2: DescModel,
    inst: Instruction,
    id1: Word,
    id2: Word,
)
    requires
        d1.declared_by(inst, id1),
        d2.declared_by(inst, id2),
    ensures
        d1 == d2,
        id1 == id2,
{
    let ops = inst.operands@;
    assert(d1.operands() == d2.operands());
    match (d1, d2) {
        (DescModel::Struct { members: m1 }, DescModel::Struct { members: m2 }) => {
            lemma_id_refs_injective(m1, m2);
        },
        (DescModel::ConstantComposite { constituents: c1, .. }, DescModel::ConstantComposite { constituents: c2, .. }) => {
            lemma_id_refs_injective(c1, c2);
        },
        (DescModel::Function { return_type: r1, parameters: p1 }, DescModel::Function { return_type: r2, parameters: p2 }) => {
            assert(ops[0] == Operand::IdRef(r1));
            assert(ops[0] == Operand::IdRef(r2));
            assert(id_refs(p1) =~= ops.subrange(1, ops.len() as int));
            assert(id_refs(p2) =~= ops.subrange(1, ops.len() as int));
            lemma_id_refs_injective(p1, p2);
        },
        _ => {
            if ops.len() > 0 {
                assert(ops[0] == d1.operands()[0]);
            }
            if ops.len() > 1 {
                assert(ops[1] == d1.operands()[1]);
            }
        },
    }
}

/// Whether two word lists hold the same words in the same order.
fn same_words(a: &Vec<Word>, b: &Vec<Word>) -> (r: bool)
    ensures
        r == (a@ == b@),
{
    if a.len() != b.len() {
        return false;
    }
    let mut i: usize = 0;
    while i < a.len()
        invariant
            a@.len() == b@.len(),
            i <= a@.len(),
            forall|k: int| 0 <= k < i ==> a@[k] == b@[k],
        decreases a@.len() - i,
    {
        if a[i] != b[i] {
            return false;
        }
        i = i + 1;
    }
    assert(a@ =~= b@);
    true
}

/// Appends a reference to each of `ws`, in order, to `ops`.
pub(crate) fn push_id_refs(ops: &mut Vec<Operand>, ws: &[Word])
    ensures
        final(ops)@ == old(ops)@ + id_refs(ws@),
{
    let ghost start = ops@;
    let mut i: usize = 0;
    while i < ws.len()
        invariant
            i <= ws@.len(),
            ops@ == start + id_refs(ws@.subrange(0, i as int)),
        decreases ws@.len() - i,
    {
        ops.push(Operand::IdRef(ws[i]));
        i = i + 1;
        assert(ws@.subrange(0, i as int) =~= ws@.subrange(0, i - 1).push(ws@[i - 1]));
        assert(id_refs(ws@.subrange(0, i as int)) =~= id_refs(ws@.subrange(0, i - 1)).push(
            Operand::IdRef(ws@[i - 1]),
        ));
    }
    assert(ws@.subrange(0, ws@.len() as int) =~= ws@);
}

impl TypeDesc {
    /// Whether the two descriptions name the same type or constant.
    pub fn same(&self, other: &TypeDesc) -> (r: bool)
        ensures
            r == (self@ == other@),
    {
        match (self, other) {
            (TypeDesc::Void, TypeDesc::Void) => true,
            (TypeDesc::Bool, TypeDesc::Bool) => true,
            (TypeDesc::Int { width: w1, signed: s1 }, TypeDesc::Int { width: w2, signed: s2 }) =>
                *w1 == *w2 && *s1 == *s2,
            (TypeDesc::Float { width: w1 }, TypeDesc::Float { width: w2 }) => *w1 == *w2,
            (
                TypeDesc::Vector { component: c1, count: n1 },
                TypeDesc::Vector { component: c2, count: n2 },
            ) => *c1 == *c2 && *n1 == *n2,
            (
                TypeDesc::Matrix { column: c1, count: n1 },
                TypeDesc::Matrix { column: c2, count: n2 },
            ) => *c1 == *c2 && *n1 == *n2,
            (
                TypeDesc::Array { element: e1, length: l1 },
                TypeDesc::Array { element: e2, length: l2 },
            ) => *e1 == *e2 && *l1 == *l2,
            (TypeDesc::RuntimeArray { element: e1 }, TypeDesc::RuntimeArray { element: e2 }) =>
                *e1 == *e2,
            (TypeDesc::Struct { members: m1 }, TypeDesc::Struct { members: m2 }) => same_words(
                m1,
                m2,
            ),
            (
                TypeDesc::Pointer { storage: s1, pointee: p1 },
                TypeDesc::Pointer { storage: s2, pointee: p2 },
            ) => *s1 == *s2 && *p1 == *p2,
            (
                TypeDesc::Function { return_type: r1, parameters: p1 },
                TypeDesc::Function { return_type: r2, parameters: p2 },
            ) => *r1 == *r2 && same_words(p1, p2),
            (TypeDesc::ConstantTrue { ty: t1 }, TypeDesc::ConstantTrue { ty: t2 }) => *t1 == *t2,
            (TypeDesc::ConstantFalse { ty: t1 }, TypeDesc::ConstantFalse { ty: t2 }) => *t1 == *t2,
            (
                TypeDesc::Constant32 { ty: t1, value: v1 },
                TypeDesc::Constant32 { ty: t2, value: v2 },
            ) => *t1 == *t2 && *v1 == *v2,
            (
                TypeDesc::Constant64 { ty: t1, value: v1 },
                TypeDesc::Constant64 { ty: t2, value: v2 },
            ) => *t1 == *t2 && *v1 == *v2,
            (
                TypeDesc::ConstantComposite { ty: t1, constituents: c1 },
                TypeDesc::ConstantComposite { ty: t2, constituents: c2 },
            ) => *t1 == *t2 && same_words(c1, c2),
            (TypeDesc::ConstantNull { ty: t1 }, TypeDesc::ConstantNull { ty: t2 }) => *t1 == *t2,
            _ => false,
        }
    }

    /// The instruction that declares this type or constant as `id`.
    pub fn declaration(&self, id: Word) -> (r: Instruction)
        ensures
            self@.declared_by(r, id),
    {
        let mut ops: Vec<Operand> = Vec::new();
        let mut result_type: Option<Word> = None;
        let class = match self {
            TypeDesc::Void => Op::TypeVoid,
            TypeDesc::Bool => Op::TypeBool,
            TypeDesc::Int { width, signed } => {
                ops.push(Operand::LiteralInt32(*width));
                ops.push(Operand::LiteralInt32(if *signed { 1 } else { 0 }));
                Op::TypeInt
            },
            TypeDesc::Float { width } => {
                ops.push(Operand::LiteralInt32(*width));
                Op::TypeFloat
            },
            TypeDesc::Vector { component, count } => {
                ops.push(Operand::IdRef(*component));
                ops.push(Operand::LiteralInt32(*count));
                Op::TypeVector
            },
            TypeDesc::Matrix { column, count } => {
                ops.push(Operand::IdRef(*column));
                ops.push(Operand::LiteralInt32(*count));
                Op::TypeMatrix
            },
            TypeDesc::Array { element, length } => {
                ops.push(Operand::IdRef(*element));
                ops.push(Operand::IdRef(*length));
                Op::TypeArray
            },
            TypeDesc::RuntimeArray { element } => {
                ops.push(Operand::IdRef(*element));
                Op::TypeRuntimeArray
            },
            TypeDesc::Struct { members } => {
                push_id_refs(&mut ops, members.as_slice());
                Op::TypeStruct
            },
            TypeDesc::Pointer { storage, pointee } => {
                ops.push(Operand::StorageClass(*storage));
                ops.push(Operand::IdRef(*pointee));
                Op::TypePointer
            },
            TypeDesc::Function { return_type, parameters } => {
                ops.push(Operand::IdRef(*return_type));
                push_id_refs(&mut ops, parameters.as_slice());
                Op::TypeFunction
            },
            TypeDesc::ConstantTrue { ty } => {
                result_type = Some(*ty);
                Op::ConstantTrue
            },
            TypeDesc::ConstantFalse { ty } => {
                result_type = Some(*ty);
                Op::ConstantFalse
            },
            TypeDesc::Constant32 { ty, value } => {
                result_type = Some(*ty);
                ops.push(Operand::LiteralInt32(*value));
                Op::Constant
            },
            TypeDesc::Constant64 { ty, value } => {
                result_type = Some(*ty);
                ops.push(Operand::LiteralInt64(*value));
                Op::Constant
            },
            TypeDesc::ConstantComposite { ty, constituents } => {
                result_type = Some(*ty);
                push_id_refs(&mut ops, constituents.as_slice());
                Op::ConstantComposite
            },
            TypeDesc::ConstantNull { ty } => {
                result_type = Some(*ty);
                Op::ConstantNull
            },
        };
        proof {
            assert(ops@ =~= self@.operands());
        }
        Instruction::new(class, result_type, Some(id), ops)
    }
}

} // verus!
