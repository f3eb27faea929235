//! Laws that relate the generator's functions and the builders it plans.
use vstd::prelude::*;
use crate::attr::field_directive;
use crate::plan::{field_fault, generation_succeeds, FieldDescriptor};
use crate::staging::{
    appended, build_result, complete, first_missing, fresh_slots, is_first_missing, missing,
    FieldOut, Item, ValueView,
};
use crate::syntax::RecordDecl;

verus! {

/// The record field that a directly written value gives.
pub open spec fn direct_field(f: FieldDescriptor, v: ValueView) -> FieldOut {
    if f.is_optional {
        FieldOut::Optional(Some(v))
    } else {
        FieldOut::Required(v)
    }
}

/// The slots of a fresh builder after the whole-value setters of its first
/// `k` fields were called, in order, with `vals`.
pub open spec fn set_in_order(vals: Seq<ValueView>, k: nat) -> Seq<Option<ValueView>>
    decreases k,
{
    if k == 0 {
        fresh_slots(vals.len())
    } else {
        set_in_order(vals, (k - 1) as nat).update(k - 1, Some(vals[k - 1]))
    }
}

proof fn lemma_set_in_order_slots(vals: Seq<ValueView>, k: nat)
    requires
        k <= vals.len(),
    ensures
        set_in_order(vals, k).len() == vals.len(),
        forall|i: int|
            0 <= i < vals.len() ==> #[trigger] set_in_order(vals, k)[i] == if i < k {
                Some(vals[i])
            } else {
                None
            },
    decreases k,
{
    if k > 0 {
        lemma_set_in_order_slots(vals, (k - 1) as nat);
    }
}

/// When every field is required, building before any setter was called
/// fails, and names the first declared field.
pub proof fn lemma_fresh_build_names_first_field(fields: Seq<FieldDescriptor>)
    requires
        fields.len() > 0,
        forall|i: int| 0 <= i < fields.len() ==> !(#[trigger] fields[i]).is_optional,
    ensures
        build_result(fields, fresh_slots(fields.len())) == Err::<Seq<FieldOut>, Seq<char>>(
            fields[0].ident@,
        ),
{
    let slots = fresh_slots(fields.len());
    assert(missing(fields, slots, 0));
    assert(is_first_missing(fields, slots, 0));
    let c = first_missing(fields, slots);
    assert(is_first_missing(fields, slots, c));
    if c > 0 {
        assert(!missing(fields, slots, 0));
    }
    assert(!complete(fields, slots));
}

/// Calling every field's whole-value setter, then building, succeeds and
/// gives the record written directly with those values.
pub proof fn lemma_all_set_builds_direct(fields: Seq<FieldDescriptor>, vals: Seq<ValueView>)
    requires
        vals.len() == fields.len(),
    ensures
        build_result(fields, set_in_order(vals, vals.len())) == Ok::<Seq<FieldOut>, Seq<char>>(
            Seq::new(fields.len(), |i: int| direct_field(fields[i], vals[i])),
        ),
{
    lemma_set_in_order_slots(vals, vals.len());
    let slots = set_in_order(vals, vals.len());
    assert forall|i: int| 0 <= i < fields.len() implies !#[trigger] missing(fields, slots, i) by {
        assert(slots[i] == Some(vals[i]));
    }
    let got = Seq::new(fields.len(), |i: int| crate::staging::field_out(fields[i], slots[i]));
    let want = Seq::new(fields.len(), |i: int| direct_field(fields[i], vals[i]));
    assert forall|i: int| 0 <= i < fields.len() implies got[i] == want[i] by {
        assert(slots[i] == Some(vals[i]));
    }
    assert(got =~= want);
}

/// An optional field whose setter was never called does not stop the build,
/// and the built record holds nothing for it.
pub proof fn lemma_unset_optional_is_absent(
    fields: Seq<FieldDescriptor>,
    slots: Seq<Option<ValueView>>,
    j: int,
)
    requires
        slots.len() == fields.len(),
        0 <= j < fields.len(),
        fields[j].is_optional,
        slots[j] is None,
        forall|i: int|
            0 <= i < fields.len() && !(#[trigger] fields[i]).is_optional ==> slots[i] is Some,
    ensures
        build_result(fields, slots) is Ok,
        build_result(fields, slots)->Ok_0[j] == FieldOut::Optional(None),
{
    assert forall|i: int| 0 <= i < fields.len() implies !#[trigger] missing(fields, slots, i) by {
        if !fields[i].is_optional {
            assert(slots[i] is Some);
        }
    }
}

/// Three calls of an appending setter on an absent member leave the three
/// elements in call order.
pub proof fn lemma_accumulate_in_call_order(a: Item, b: Item, c: Item)
    ensures
        appended(appended(appended(None, a), b), c) == Some(ValueView::List(seq![a, b, c])),
{
    assert(seq![a].push(b).push(c) =~= seq![a, b, c]);
}

/// A malformed directive on any one field stops the generation of the
/// whole builder.
pub proof fn lemma_malformed_directive_aborts(decl: RecordDecl, k: int)
    requires
        decl.body is Named,
        0 <= k < decl.body->Named_0@.len(),
        field_directive(decl.body->Named_0@[k].annotations@) is Err,
    ensures
        !generation_succeeds(decl),
{
    assert(field_fault(decl.body->Named_0@, k) is Some);
}

} // verus!
