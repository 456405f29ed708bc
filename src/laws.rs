use vstd::prelude::*;

use crate::schema::StructInfo;
use crate::state::{accepts, advance, initial_state, slot_accepts, state_of};
use crate::typestate::{
    build_bindings, build_pattern, guard_pattern, mutator_pattern, names_contain, setter_input,
    setter_output, Binding,
};

verus! {

/// The state after calling the setters of `order`, one after another, on a
/// new builder.
pub open spec fn run_setters(info: StructInfo, order: Seq<int>) -> Seq<bool>
    decreases order.len(),
{
    if order.len() == 0 {
        initial_state(info)
    } else {
        advance(setter_output(info, order.last()), run_setters(info, order.drop_last()))
    }
}

/// A setter applies exactly to the states in which its field is unset, and
/// then sets that field and leaves every other one as it was. The overload
/// that flags a repeated set applies exactly where the field is already set,
/// and hands the builder back in the same state.
pub proof fn lemma_setter_sets_once(info: StructInfo, k: int, s: Seq<bool>)
    requires
        info.wf(),
        0 <= k < info.fields@.len(),
        info.field(k).has_setter(),
        state_of(info, s),
    ensures
        accepts(setter_input(info, k), s) == !s[k],
        accepts(setter_input(info, k), s) ==> advance(setter_output(info, k), s) == s.update(k, true),
        accepts(setter_input(info, k), s) ==> state_of(info, advance(setter_output(info, k), s)),
        accepts(setter_output(info, k), s) == s[k],
        accepts(setter_output(info, k), s) ==> advance(setter_output(info, k), s) == s,
{
    if s[k] {
        assert(!slot_accepts(setter_input(info, k)[k], s[k]));
        assert(advance(setter_output(info, k), s) =~= s);
    } else {
        assert(!slot_accepts(setter_output(info, k)[k], s[k]));
        assert(advance(setter_output(info, k), s) =~= s.update(k, true));
    }
}

/// A new builder starts with exactly its mutator-only fields set.
pub proof fn lemma_initial_state(info: StructInfo)
    requires
        info.wf(),
    ensures
        state_of(info, initial_state(info)),
        forall|i: int| 0 <= i < info.fields@.len() ==> #[trigger] initial_state(info)[i] == (info.field(i).included()
            && info.field(i).builder_attr.via_mutators),
{
}

proof fn lemma_run_setters_state(info: StructInfo, order: Seq<int>)
    requires
        forall|j: int| 0 <= j < order.len() ==> 0 <= #[trigger] order[j] < info.fields@.len()
            && info.field(order[j]).has_setter(),
    ensures
        run_setters(info, order).len() == info.fields@.len(),
        forall|i: int| 0 <= i < info.fields@.len() ==> #[trigger] run_setters(info, order)[i] == (
        initial_state(info)[i] || order.contains(i)),
    decreases order.len(),
{
    if order.len() > 0 {
        let prev = order.drop_last();
        lemma_run_setters_state(info, prev);
        assert forall|i: int| 0 <= i < info.fields@.len() implies #[trigger] run_setters(info, order)[i] == (
        initial_state(info)[i] || order.contains(i)) by {
            if prev.contains(i) {
                let j = choose|j: int| 0 <= j < prev.len() && prev[j] == i;
                assert(order[j] == i);
            }
            if order.contains(i) && i != order.last() {
                let j = choose|j: int| 0 <= j < order.len() && order[j] == i;
                assert(prev[j] == i);
            }
            if i == order.last() {
                assert(order[order.len() - 1] == i);
            }
        }
    }
}

/// Calling each setter exactly once, in any order, is accepted at every
/// step and ends with every field of the builder's state set. The build
/// method then applies, no guard that reports a missing field does, and
/// every field without a default is built from the value that was set.
pub proof fn lemma_all_setters_once(info: StructInfo, order: Seq<int>)
    requires
        info.wf(),
        order.no_duplicates(),
        forall|j: int| 0 <= j < order.len() ==> 0 <= #[trigger] order[j] < info.fields@.len()
            && info.field(order[j]).has_setter(),
        forall|i: int| 0 <= i < info.fields@.len() && (#[trigger] info.field(i)).has_setter() ==> order.contains(i),
    ensures
        forall|j: int| 0 <= j < order.len() ==> accepts(setter_input(info, #[trigger] order[j]), run_setters(info, order.take(j))),
        forall|i: int| 0 <= i < info.fields@.len() ==> #[trigger] run_setters(info, order)[i] == info.field(i).included(),
        accepts(build_pattern(info), run_setters(info, order)),
        forall|k: int| 0 <= k < info.fields@.len() && (#[trigger] info.field(k)).required() ==> !accepts(
            guard_pattern(info, k), run_setters(info, order)),
        forall|i: int| 0 <= i < info.fields@.len() && !(#[trigger] info.field(i)).builder_attr.has_default
            ==> build_bindings(info)[i] == Binding::Unwrap,
{
    let n = info.fields@.len();
    assert forall|j: int| 0 <= j < order.len() implies accepts(setter_input(info, #[trigger] order[j]), run_setters(info, order.take(j))) by {
        let pre = order.take(j);
        assert forall|l: int| 0 <= l < pre.len() implies 0 <= #[trigger] pre[l] < n && info.field(pre[l]).has_setter() by {
            assert(pre[l] == order[l]);
        }
        lemma_run_setters_state(info, pre);
        let k = order[j];
        let s = run_setters(info, pre);
        if pre.contains(k) {
            let l = choose|l: int| 0 <= l < pre.len() && pre[l] == k;
            assert(order[l] == order[j]);
        }
        assert(!s[k]);
        assert forall|i: int| 0 <= i < n implies slot_accepts(#[trigger] setter_input(info, k)[i], s[i]) by {}
    }
    lemma_run_setters_state(info, order);
    let s = run_setters(info, order);
    assert forall|i: int| 0 <= i < n implies #[trigger] s[i] == info.field(i).included() by {
        if info.field(i).has_setter() {
            assert(order.contains(i));
        }
        if order.contains(i) {
            let j = choose|j: int| 0 <= j < order.len() && order[j] == i;
            assert(info.field(order[j]).has_setter());
        }
    }
    assert forall|i: int| 0 <= i < n implies slot_accepts(#[trigger] build_pattern(info)[i], s[i]) by {
        assert(s[i] == info.field(i).included());
    }
    assert forall|k: int| 0 <= k < n && (#[trigger] info.field(k)).required() implies !accepts(guard_pattern(info, k), s) by {
        assert(s[k] == info.field(k).included());
        assert(!slot_accepts(guard_pattern(info, k)[k], s[k]));
    }
}

/// The build method applies exactly where every required field is set.
pub proof fn lemma_build_needs_required(info: StructInfo, s: Seq<bool>)
    requires
        info.wf(),
        state_of(info, s),
    ensures
        accepts(build_pattern(info), s) <==> forall|i: int| 0 <= i < s.len() && (#[trigger] info.field(i)).required() ==> s[i],
{
    if forall|i: int| 0 <= i < s.len() && (#[trigger] info.field(i)).required() ==> s[i] {
        assert forall|i: int| 0 <= i < s.len() implies slot_accepts(#[trigger] build_pattern(info)[i], s[i]) by {
            assert(info.field(i).required() ==> s[i]);
        }
    }
    if accepts(build_pattern(info), s) {
        assert forall|i: int| 0 <= i < s.len() && (#[trigger] info.field(i)).required() implies s[i] by {
            assert(slot_accepts(build_pattern(info)[i], s[i]));
        }
    }
}

/// Where a required field is unset, the build method does not apply; the
/// guard of the first unset required field, in field order, applies, and no
/// other guard does.
pub proof fn lemma_first_missing_reported(info: StructInfo, s: Seq<bool>, k: int)
    requires
        info.wf(),
        state_of(info, s),
        0 <= k < info.fields@.len(),
        info.field(k).required(),
        !s[k],
        forall|j: int| 0 <= j < k && (#[trigger] info.field(j)).required() ==> s[j],
    ensures
        !accepts(build_pattern(info), s),
        accepts(guard_pattern(info, k), s),
        forall|k2: int| 0 <= k2 < info.fields@.len() && k2 != k && (#[trigger] info.field(k2)).required()
            ==> !accepts(guard_pattern(info, k2), s),
{
    assert(!slot_accepts(build_pattern(info)[k], s[k]));
    assert forall|i: int| 0 <= i < s.len() implies slot_accepts(#[trigger] guard_pattern(info, k)[i], s[i]) by {
        if i < k {
            assert(info.field(i).required() ==> s[i]);
        }
    }
    assert forall|k2: int| 0 <= k2 < info.fields@.len() && k2 != k && (#[trigger] info.field(k2)).required()
        implies !accepts(guard_pattern(info, k2), s) by {
        if k2 < k {
            assert(s[k2]);
            assert(!slot_accepts(guard_pattern(info, k2)[k2], s[k2]));
        } else {
            assert(!slot_accepts(guard_pattern(info, k2)[k], s[k]));
        }
    }
}

/// Whether a field with a default is set makes no difference to whether the
/// build method applies. Its value is then the one that was set or else its
/// default, resolved only in that case; a skipped field always takes its
/// default.
pub proof fn lemma_default_optional(info: StructInfo, k: int, s: Seq<bool>)
    requires
        info.wf(),
        state_of(info, s),
        0 <= k < info.fields@.len(),
        info.field(k).builder_attr.has_default,
    ensures
        accepts(build_pattern(info), s) == accepts(build_pattern(info), s.update(k, !s[k])),
        build_bindings(info)[k] == (if info.field(k).builder_attr.skip {
            Binding::EvaluateDefault
        } else {
            Binding::ResolveDefault
        }),
{
    let t = s.update(k, !s[k]);
    if accepts(build_pattern(info), s) {
        assert forall|i: int| 0 <= i < t.len() implies slot_accepts(#[trigger] build_pattern(info)[i], t[i]) by {
            assert(slot_accepts(build_pattern(info)[i], s[i]));
        }
    }
    if accepts(build_pattern(info), t) {
        assert forall|i: int| 0 <= i < s.len() implies slot_accepts(#[trigger] build_pattern(info)[i], s[i]) by {
            assert(slot_accepts(build_pattern(info)[i], t[i]));
        }
    }
}

/// A mutator applies exactly where every one of its required fields that is
/// part of the builder's state is set, and hands the builder back with every
/// field set or unset as before.
pub proof fn lemma_mutator_keeps_state(info: StructInfo, required: Seq<String>, s: Seq<bool>)
    requires
        info.wf(),
        state_of(info, s),
    ensures
        accepts(mutator_pattern(info, required), s) <==> forall|i: int| 0 <= i < s.len() && (#[trigger] info.field(i)).included()
            && names_contain(required, info.field(i).name@) ==> s[i],
        accepts(mutator_pattern(info, required), s) ==> advance(mutator_pattern(info, required), s) == s,
{
    let p = mutator_pattern(info, required);
    if forall|i: int| 0 <= i < s.len() && (#[trigger] info.field(i)).included() && names_contain(required, info.field(i).name@) ==> s[i] {
        assert forall|i: int| 0 <= i < s.len() implies slot_accepts(#[trigger] p[i], s[i]) by {
            assert(info.field(i).included() && names_contain(required, info.field(i).name@) ==> s[i]);
        }
    }
    if accepts(p, s) {
        assert forall|i: int| 0 <= i < s.len() && (#[trigger] info.field(i)).included() && names_contain(required, info.field(i).name@) implies s[i] by {
            assert(slot_accepts(p[i], s[i]));
        }
        assert forall|i: int| 0 <= i < s.len() implies #[trigger] advance(p, s)[i] == s[i] by {
            assert(slot_accepts(p[i], s[i]));
        }
        assert(advance(p, s) =~= s);
    }
}

} // verus!
