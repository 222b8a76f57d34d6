//! The laws the library states of itself, each proved from the spec
//! functions that the public contracts use.

use crate::ast::FieldDescriptorView;
use crate::classify::{CategoryView, ClassifiedFieldView, classify_spec};
use crate::dynamic::{
    BuiltFieldView, BuiltValueView, SlotStateView, built_fields_of, init_slots, missing_of,
};
use crate::schema::{SetterFragmentView, SetterKind, all_setters, classified_of, diags_of, setters_of};
use vstd::prelude::*;

verus! {

/// A required field never given a value makes `build` fail, and the failure
/// names that field.
pub proof fn lemma_required_unset_build_fails(
    cs: Seq<ClassifiedFieldView>,
    ss: Seq<SlotStateView>,
    i: int,
)
    requires
        cs.len() == ss.len(),
        0 <= i < cs.len(),
        cs[i].category is Required,
        ss[i] is Unset,
    ensures
        missing_of(cs, ss).len() > 0,
        missing_of(cs, ss).contains(cs[i].name),
    decreases cs.len(),
{
    let rest = missing_of(cs.drop_last(), ss.drop_last());
    if i == cs.len() - 1 {
        assert(missing_of(cs, ss) == rest.push(cs[i].name));
        assert(missing_of(cs, ss)[rest.len() as int] == cs[i].name);
    } else {
        lemma_required_unset_build_fails(cs.drop_last(), ss.drop_last(), i);
        let k = choose|k: int| 0 <= k < rest.len() && rest[k] == cs[i].name;
        assert(missing_of(cs, ss)[k] == cs[i].name);
    }
}

/// After a required field receives a value, the built record's field holds
/// exactly that value.
pub proof fn lemma_required_set_value(
    cs: Seq<ClassifiedFieldView>,
    ss: Seq<SlotStateView>,
    i: int,
    v: Seq<char>,
)
    requires
        cs.len() == ss.len(),
        0 <= i < cs.len(),
    ensures
        built_fields_of(cs, ss.update(i, SlotStateView::Value(v)))[i] == (BuiltFieldView {
            name: cs[i].name,
            value: BuiltValueView::Single(v),
        }),
{
}

/// An optional field never set builds to absent; set to a value, it builds
/// to that value present — wrapped exactly once, never raw and never
/// doubly wrapped.
pub proof fn lemma_optional_round_trip(
    cs: Seq<ClassifiedFieldView>,
    ss: Seq<SlotStateView>,
    i: int,
    v: Seq<char>,
)
    requires
        cs.len() == ss.len(),
        0 <= i < cs.len(),
        cs[i].category is Optional,
    ensures
        ss[i] is Unset ==> built_fields_of(cs, ss)[i].value == BuiltValueView::Absent,
        built_fields_of(cs, ss.update(i, SlotStateView::OptPresent(v)))[i].value
            == BuiltValueView::Present(v),
{
}

/// `build` succeeds exactly when every required field's slot has been set;
/// optional and collection fields never make it fail.
pub proof fn lemma_build_succeeds_iff(cs: Seq<ClassifiedFieldView>, ss: Seq<SlotStateView>)
    requires
        cs.len() == ss.len(),
    ensures
        missing_of(cs, ss).len() == 0 <==> (forall|i: int|
            0 <= i < cs.len() ==> !((#[trigger] cs[i].category is Required) && ss[i] is Unset)),
    decreases cs.len(),
{
    if cs.len() > 0 {
        let csd = cs.drop_last();
        let ssd = ss.drop_last();
        lemma_build_succeeds_iff(csd, ssd);
        assert(forall|i: int| 0 <= i < csd.len() ==> #[trigger] csd[i] == cs[i]);
        assert(forall|i: int| 0 <= i < ssd.len() ==> #[trigger] ssd[i] == ss[i]);
        let rest = missing_of(csd, ssd);
        let last_bad = cs.last().category is Required && ss[cs.len() - 1] is Unset;
        if missing_of(cs, ss).len() == 0 {
            assert(!last_bad);
            assert(rest.len() == 0);
            assert forall|i: int|
                0 <= i < cs.len() implies !((#[trigger] cs[i].category is Required) && ss[i]
                is Unset) by {
                if i < cs.len() - 1 {
                    assert(csd[i] == cs[i] && ssd[i] == ss[i]);
                    assert(!((csd[i].category is Required) && ssd[i] is Unset));
                }
            }
        } else {
            if last_bad {
                assert((cs[cs.len() - 1].category is Required) && ss[cs.len() - 1] is Unset);
            } else {
                assert(rest.len() > 0);
                let w = choose|i: int|
                    0 <= i < csd.len() && (#[trigger] csd[i].category is Required) && ssd[i]
                        is Unset;
                assert((cs[w].category is Required) && ss[w] is Unset);
            }
        }
    }
}

/// Appending one element at a time, in order, grows a collection slot's
/// contents by exactly those elements in that order; starting from the
/// initial empty contents, the built collection is exactly the appended
/// sequence.
pub open spec fn push_all(items: Seq<Seq<char>>, vs: Seq<Seq<char>>) -> Seq<Seq<char>>
    decreases vs.len(),
{
    if vs.len() == 0 {
        items
    } else {
        push_all(items, vs.drop_last()).push(vs.last())
    }
}

/// The law behind the element setter: `push_all` is concatenation.
pub proof fn lemma_appends_in_order(items: Seq<Seq<char>>, vs: Seq<Seq<char>>)
    ensures
        push_all(items, vs) == items + vs,
    decreases vs.len(),
{
    if vs.len() == 0 {
        assert(push_all(items, vs) =~= items + vs);
    } else {
        lemma_appends_in_order(items, vs.drop_last());
        assert(push_all(items, vs) =~= items + vs);
    }
}

/// A collection field never appended to still builds, to an empty
/// collection: its slot starts as an empty sequence.
pub proof fn lemma_collection_empty_build(cs: Seq<ClassifiedFieldView>, i: int)
    requires
        0 <= i < cs.len(),
        cs[i].category is Collection,
    ensures
        init_slots(cs)[i] == SlotStateView::Items(Seq::<Seq<char>>::empty()),
        built_fields_of(cs, init_slots(cs))[i].value == BuiltValueView::Many(
            Seq::<Seq<char>>::empty(),
        ),
{
}

/// When a collection field's element-setter name equals the field's own
/// name, only the element setter is generated — no duplicate bulk setter
/// under the same name.
pub proof fn lemma_no_duplicate_bulk_setter(c: ClassifiedFieldView, inner: Seq<char>)
    requires
        c.category == (CategoryView::Collection { inner: inner, each: c.name }),
    ensures
        setters_of(c) =~= seq![
            SetterFragmentView {
                method: c.name,
                field: c.name,
                param_type: inner,
                kind: SetterKind::Append,
            },
        ],
{
}

/// When the element-setter name differs from the field's own name, the
/// element setter comes first and a bulk setter under the field's own name
/// follows it.
pub proof fn lemma_distinct_names_two_setters(
    c: ClassifiedFieldView,
    inner: Seq<char>,
    each: Seq<char>,
)
    requires
        c.category == (CategoryView::Collection { inner: inner, each: each }),
        each != c.name,
    ensures
        setters_of(c).len() == 2,
        setters_of(c)[0].method == each,
        setters_of(c)[0].kind == SetterKind::Append,
        setters_of(c)[1].method == c.name,
        setters_of(c)[1].kind == SetterKind::Replace,
{
}

/// No field is dropped: every descriptor yields either one classified field
/// or one diagnostic, so a bad attribute on one field never silences the
/// generation for any other.
pub proof fn lemma_no_field_dropped(fs: Seq<FieldDescriptorView>)
    ensures
        classified_of(fs).len() + diags_of(fs).len() == fs.len(),
    decreases fs.len(),
{
    if fs.len() > 0 {
        lemma_no_field_dropped(fs.drop_last());
    }
}

/// Classification is deterministic: equal descriptors receive equal
/// outcomes. The category and inner type are a pure function of the
/// descriptor, so classifying the same descriptor twice yields the same
/// category.
pub proof fn lemma_classify_deterministic(f1: FieldDescriptorView, f2: FieldDescriptorView)
    requires
        f1 == f2,
    ensures
        classify_spec(f1) == classify_spec(f2),
{
}

} // verus!
