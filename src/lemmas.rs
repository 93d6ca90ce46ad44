//! Laws of the builder that relate several of its operations.
use vstd::prelude::*;
use crate::builder::{Builder, BuilderModel};
use crate::desc::{lemma_declaration_determines, DescModel};
use crate::model::Word;

verus! {

impl BuilderModel {
    /// Exactly one instruction of the types section declares `d`, and it
    /// declares it as `id`.
    pub open spec fn declared_once(self, d: DescModel, id: Word) -> bool {
        let types = self.module.types_global_values@;
        exists|i: int|
            0 <= i < types.len() && d.declared_by(#[trigger] types[i], id) && forall|j: int|
                0 <= j < types.len() && d.declares(#[trigger] types[j]) ==> j == i
    }
}

/// Every interned description is declared exactly once in the types
/// section, under the identifier it is interned as.
pub proof fn lemma_declared_once(s: BuilderModel, d: DescModel)
    requires
        s.wf(),
        s.lookup(d) is Some,
    ensures
        s.declared_once(d, s.lookup(d)->Some_0),
{
    let types = s.module.types_global_values@;
    let i = choose|i: int| 0 <= i < s.interned.len() && (#[trigger] s.interned[i]).0 == d;
    let id = s.interned[i].1;
    assert(d.declared_by(types[i], id));
    assert forall|j: int| 0 <= j < types.len() && d.declares(#[trigger] types[j]) implies j == i by {
        let e = s.interned[j];
        assert(e.0.declared_by(types[j], e.1));
        lemma_declaration_determines(d, e.0, types[j], types[j].result_id->Some_0, e.1);
        if j != i {
            if i < j {
                assert(s.interned[i].0 != s.interned[j].0);
            } else {
                assert(s.interned[j].0 != s.interned[i].0);
            }
        }
    }
}

/// After interning `d` as `id`, looking `d` up gives `id`.
pub proof fn lemma_interned_found(s0: BuilderModel, s1: BuilderModel, d: DescModel, id: Word)
    requires
        s0.wf(),
        Builder::interned_as(s0, s1, d, id),
    ensures
        s1.lookup(d) == Some(id),
{
    if s0.lookup(d) is None {
        let n = s0.interned.len() as int;
        assert(s1.interned[n] == (d, id));
        let j = choose|j: int| 0 <= j < s1.interned.len() && (#[trigger] s1.interned[j]).0 == d;
        if j < n {
            assert(s0.interned[j] == s1.interned[j]);
        }
    }
}

/// Interning leaves the identifier of every other interned description
/// as it was.
pub proof fn lemma_lookup_kept(
    s0: BuilderModel,
    s1: BuilderModel,
    d: DescModel,
    id: Word,
    e: DescModel,
)
    requires
        s0.wf(),
        Builder::interned_as(s0, s1, d, id),
        s0.lookup(e) is Some,
    ensures
        s1.lookup(e) == s0.lookup(e),
{
    if s0.lookup(d) is None {
        let n = s0.interned.len() as int;
        let i = choose|i: int| 0 <= i < s0.interned.len() && (#[trigger] s0.interned[i]).0 == e;
        assert(s1.interned[i] == s0.interned[i]);
        assert(e != d);
        let j = choose|j: int| 0 <= j < s1.interned.len() && (#[trigger] s1.interned[j]).0 == e;
        assert(j < n);
        assert(s1.interned[j] == s0.interned[j]);
        if i != j {
            if i < j {
                assert(s0.interned[i].0 != s0.interned[j].0);
            } else {
                assert(s0.interned[j].0 != s0.interned[i].0);
            }
        }
    }
}

/// Descriptions that differ are interned under identifiers that differ.
pub proof fn lemma_lookup_distinct(s: BuilderModel, d1: DescModel, d2: DescModel)
    requires
        s.wf(),
        s.lookup(d1) is Some,
        s.lookup(d2) is Some,
        d1 != d2,
    ensures
        s.lookup(d1) != s.lookup(d2),
{
    let i = choose|i: int| 0 <= i < s.interned.len() && (#[trigger] s.interned[i]).0 == d1;
    let j = choose|j: int| 0 <= j < s.interned.len() && (#[trigger] s.interned[j]).0 == d2;
    if i < j {
        assert(s.interned[i].1 != s.interned[j].1);
    } else {
        assert(s.interned[j].1 != s.interned[i].1);
    }
}

/// Interning one description any number of times gives the same
/// identifier every time, changes nothing after the first request, and
/// leaves exactly one declaration of it in the types section.
///
/// `states[k]` is the builder before the `k`-th request, which returned
/// `ids[k]`.
pub proof fn lemma_intern_repeated(states: Seq<BuilderModel>, ids: Seq<Word>, d: DescModel)
    requires
        ids.len() >= 1,
        states.len() == ids.len() + 1,
        forall|k: int| 0 <= k < states.len() ==> (#[trigger] states[k]).wf(),
        forall|k: int|
            0 <= k < ids.len() ==> Builder::interned_as(#[trigger] states[k], states[k + 1], d, ids[k]),
    ensures
        forall|k: int| 0 <= k < ids.len() ==> #[trigger] ids[k] == ids[0],
        states.last() == states[1],
        states.last().declared_once(d, ids[0]),
    decreases ids.len(),
{
    let n = ids.len() as int;
    if n == 1 {
        lemma_interned_found(states[0], states[1], d, ids[0]);
    } else {
        let ps = states.drop_last();
        let pi = ids.drop_last();
        assert forall|k: int| 0 <= k < ps.len() implies (#[trigger] ps[k]).wf() by {
            assert(ps[k] == states[k]);
        }
        assert forall|k: int| 0 <= k < pi.len() implies Builder::interned_as(
            #[trigger] ps[k],
            ps[k + 1],
            d,
            pi[k],
        ) by {
            assert(ps[k] == states[k] && ps[k + 1] == states[k + 1] && pi[k] == ids[k]);
            assert(Builder::interned_as(states[k], states[k + 1], d, ids[k]));
        }
        lemma_intern_repeated(ps, pi, d);
        lemma_interned_found(states[0], states[1], d, ids[0]);
        assert(states[n - 1] == ps.last());
        assert(Builder::interned_as(states[n - 1], states[n], d, ids[n - 1]));
        assert forall|k: int| 0 <= k < ids.len() implies #[trigger] ids[k] == ids[0] by {
            if k < n - 1 {
                assert(pi[k] == ids[k]);
            }
        }
    }
    lemma_interned_found(states[0], states[1], d, ids[0]);
    lemma_declared_once(states.last(), d);
}

/// Interning pairwise-different descriptions gives pairwise-different
/// identifiers, and leaves exactly one declaration of each in the types
/// section.
///
/// `states[k]` is the builder before the `k`-th request, which asked for
/// `descs[k]` and returned `ids[k]`.
pub proof fn lemma_intern_distinct(states: Seq<BuilderModel>, descs: Seq<DescModel>, ids: Seq<Word>)
    requires
        states.len() == ids.len() + 1,
        descs.len() == ids.len(),
        forall|i: int, j: int| 0 <= i < j < descs.len() ==> descs[i] != descs[j],
        forall|k: int| 0 <= k < states.len() ==> (#[trigger] states[k]).wf(),
        forall|k: int|
            0 <= k < ids.len() ==> Builder::interned_as(
                #[trigger] states[k],
                states[k + 1],
                descs[k],
                ids[k],
            ),
    ensures
        forall|i: int, j: int| 0 <= i < j < ids.len() ==> ids[i] != ids[j],
        forall|k: int| 0 <= k < ids.len() ==> states.last().declared_once(descs[k], #[trigger] ids[k]),
{
    lemma_intern_found_all(states, descs, ids);
    let last = states.last();
    assert forall|i: int, j: int| 0 <= i < j < ids.len() implies ids[i] != ids[j] by {
        assert(last.lookup(descs[i]) == Some(ids[i]));
        assert(last.lookup(descs[j]) == Some(ids[j]));
        lemma_lookup_distinct(last, descs[i], descs[j]);
    }
    assert forall|k: int| 0 <= k < ids.len() implies last.declared_once(descs[k], #[trigger] ids[k]) by {
        assert(last.lookup(descs[k]) == Some(ids[k]));
        lemma_declared_once(last, descs[k]);
    }
}

/// After a run of interning requests, each description asked for is
/// interned as the identifier its request returned.
proof fn lemma_intern_found_all(states: Seq<BuilderModel>, descs: Seq<DescModel>, ids: Seq<Word>)
    requires
        states.len() == ids.len() + 1,
        descs.len() == ids.len(),
        forall|k: int| 0 <= k < states.len() ==> (#[trigger] states[k]).wf(),
        forall|k: int|
            0 <= k < ids.len() ==> Builder::interned_as(
                #[trigger] states[k],
                states[k + 1],
                descs[k],
                ids[k],
            ),
    ensures
        forall|k: int| 0 <= k < ids.len() ==> states.last().lookup(#[trigger] descs[k]) == Some(ids[k]),
    decreases ids.len(),
{
    let n = ids.len() as int;
    if n > 0 {
        let ps = states.drop_last();
        let pd = descs.drop_last();
        let pi = ids.drop_last();
        assert forall|k: int| 0 <= k < ps.len() implies (#[trigger] ps[k]).wf() by {
            assert(ps[k] == states[k]);
        }
        assert forall|k: int| 0 <= k < pi.len() implies Builder::interned_as(
            #[trigger] ps[k],
            ps[k + 1],
            pd[k],
            pi[k],
        ) by {
            assert(ps[k] == states[k] && ps[k + 1] == states[k + 1] && pi[k] == ids[k] && pd[k] == descs[k]);
            assert(Builder::interned_as(states[k], states[k + 1], descs[k], ids[k]));
        }
        lemma_intern_found_all(ps, pd, pi);
        let s0 = states[n - 1];
        assert(s0 == ps.last());
        assert(Builder::interned_as(s0, states[n], descs[n - 1], ids[n - 1]));
        lemma_interned_found(s0, states[n], descs[n - 1], ids[n - 1]);
        assert forall|k: int| 0 <= k < ids.len() implies states.last().lookup(#[trigger] descs[k]) == Some(ids[k]) by {
            if k < n - 1 {
                assert(pd[k] == descs[k] && pi[k] == ids[k]);
                assert(s0.lookup(descs[k]) == Some(ids[k]));
                lemma_lookup_kept(s0, states[n], descs[n - 1], ids[n - 1], descs[k]);
            }
        }
    }
}

/// Identifiers are handed out in strictly increasing order: `b`, allocated
/// from a state `t0` reached no earlier than the state `s1` that followed
/// the allocation of `a`, is larger than `a`.
pub proof fn lemma_ids_increase(
    s0: BuilderModel,
    s1: BuilderModel,
    a: Word,
    t0: BuilderModel,
    t1: BuilderModel,
    b: Word,
)
    requires
        s0.allocated(s1, a),
        t0.allocated(t1, b),
        s1.next_id <= t0.next_id,
    ensures
        a < b,
{
}

/// The next identifier a builder hands out is used nowhere yet: every
/// identifier the module, the open function, the open block and the
/// interning cache hold lies below it.
pub proof fn lemma_next_id_unused(s: BuilderModel)
    requires
        s.wf(),
    ensures
        s.module.ids_below(s.next_id as int),
        s.function matches Some(f) ==> f.ids_below(s.next_id as int),
        s.basic_block matches Some(b) ==> b.ids_below(s.next_id as int),
        forall|i: int| 0 <= i < s.interned.len() ==> (#[trigger] s.interned[i]).1 < s.next_id,
{
}

} // verus!
