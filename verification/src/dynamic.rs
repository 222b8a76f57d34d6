//! The synthesized builder's runtime semantics, as a dynamic model:
//! a builder instance holds one slot per classified field, the setters act
//! on the slots exactly as the synthesized setters would, and `build`
//! validates required fields and assembles the built record. Field values
//! are carried as opaque strings.

use crate::ast::clone_strings;
use crate::classify::{Category, CategoryView, ClassifiedField, ClassifiedFieldView};
use crate::schema::{BuilderSchema, SetterKind, setters_of};
use vstd::prelude::*;

verus! {

/// The state of one builder slot. An optional field's has-been-set tracking
/// is explicit: unset, set to absent, or set to a present value — never a
/// nested wrapping.
pub enum SlotState {
    /// A required or optional slot that has not been set.
    Unset,
    /// A required slot holding its value.
    Value(String),
    /// An optional slot explicitly set to absent.
    OptAbsent,
    /// An optional slot set to a present value.
    OptPresent(String),
    /// A collection slot: the elements appended so far, in order.
    Items(Vec<String>),
}

/// Mathematical image of a [`SlotState`].
pub ghost enum SlotStateView {
    Unset,
    Value(Seq<char>),
    OptAbsent,
    OptPresent(Seq<char>),
    Items(Seq<Seq<char>>),
}

impl View for SlotState {
    type V = SlotStateView;

    open spec fn view(&self) -> SlotStateView {
        match self {
            SlotState::Unset => SlotStateView::Unset,
            SlotState::Value(v) => SlotStateView::Value(v@),
            SlotState::OptAbsent => SlotStateView::OptAbsent,
            SlotState::OptPresent(v) => SlotStateView::OptPresent(v@),
            SlotState::Items(vs) => SlotStateView::Items(vs.deep_view()),
        }
    }
}

impl DeepView for SlotState {
    type V = SlotStateView;

    open spec fn deep_view(&self) -> SlotStateView {
        self@
    }
}

/// Which slot states a category admits.
pub open spec fn state_matches(cat: CategoryView, s: SlotStateView) -> bool {
    match cat {
        CategoryView::Required => s is Unset || s is Value,
        CategoryView::Optional { .. } => s is Unset || s is OptAbsent || s is OptPresent,
        CategoryView::Collection { .. } => s is Items,
    }
}

/// How a category's slot starts: a collection slot pre-populated with an
/// empty sequence, every other slot unset.
pub open spec fn init_slot_of(cat: CategoryView) -> SlotStateView {
    match cat {
        CategoryView::Collection { .. } => SlotStateView::Items(Seq::empty()),
        _ => SlotStateView::Unset,
    }
}

/// The initial slots of a classified field list.
pub open spec fn init_slots(cs: Seq<ClassifiedFieldView>) -> Seq<SlotStateView> {
    Seq::new(cs.len(), |i: int| init_slot_of(cs[i].category))
}

/// The setter of one field that a method name selects: the element setter
/// first, then the bulk setter where one exists.
pub open spec fn setter_match(c: ClassifiedFieldView, method: Seq<char>) -> Option<
    crate::schema::SetterFragmentView,
> {
    let ss = setters_of(c);
    if ss.len() >= 1 && ss[0].method == method {
        Some(ss[0])
    } else if ss.len() >= 2 && ss[1].method == method {
        Some(ss[1])
    } else {
        None
    }
}

/// The first field at or after position `i` owning a setter with the given
/// method name, with that setter.
pub open spec fn find_from(
    cs: Seq<ClassifiedFieldView>,
    method: Seq<char>,
    i: int,
) -> Option<(int, crate::schema::SetterFragmentView)>
    decreases cs.len() - i
    when 0 <= i <= cs.len()
{
    if i >= cs.len() {
        None
    } else {
        match setter_match(cs[i], method) {
            Some(s) => Some((i, s)),
            None => find_from(cs, method, i + 1),
        }
    }
}

/// The first field, in declaration order, owning a setter with the given
/// method name.
pub open spec fn find_setter_spec(cs: Seq<ClassifiedFieldView>, method: Seq<char>) -> Option<
    (int, crate::schema::SetterFragmentView),
> {
    find_from(cs, method, 0)
}

/// One argument handed to a setter: a single value, or a whole sequence for
/// a collection's bulk setter.
pub enum SetterArg {
    One(String),
    Many(Vec<String>),
}

/// Mathematical image of a [`SetterArg`].
pub ghost enum SetterArgView {
    One(Seq<char>),
    Many(Seq<Seq<char>>),
}

impl View for SetterArg {
    type V = SetterArgView;

    open spec fn view(&self) -> SetterArgView {
        match self {
            SetterArg::One(v) => SetterArgView::One(v@),
            SetterArg::Many(vs) => SetterArgView::Many(vs.deep_view()),
        }
    }
}

/// What a setter does to its field's slot: a bulk setter replaces the slot
/// with the full value, an optional setter stores the inner value as
/// present, the element setter appends one value. `None` when the
/// argument's shape does not fit the setter — the typed, synthesized code
/// admits no such call, and the model leaves the slot unchanged.
pub open spec fn apply_setter_spec(
    kind: SetterKind,
    cat: CategoryView,
    slot: SlotStateView,
    arg: SetterArgView,
) -> Option<SlotStateView> {
    match (kind, arg) {
        (SetterKind::Replace, SetterArgView::One(v)) => if cat is Required {
            Some(SlotStateView::Value(v))
        } else {
            None
        },
        (SetterKind::Replace, SetterArgView::Many(vs)) => if cat is Collection {
            Some(SlotStateView::Items(vs))
        } else {
            None
        },
        (SetterKind::SetPresent, SetterArgView::One(v)) => if cat is Optional {
            Some(SlotStateView::OptPresent(v))
        } else {
            None
        },
        (SetterKind::Append, SetterArgView::One(v)) => match slot {
            SlotStateView::Items(vs) => Some(SlotStateView::Items(vs.push(v))),
            _ => None,
        },
        _ => None,
    }
}

/// The names of the required fields whose slots are still unset, in order.
pub open spec fn missing_of(cs: Seq<ClassifiedFieldView>, ss: Seq<SlotStateView>) -> Seq<Seq<char>>
    decreases cs.len(),
{
    if cs.len() == 0 {
        Seq::empty()
    } else {
        let rest = missing_of(cs.drop_last(), ss.drop_last());
        if cs.last().category is Required && ss[cs.len() - 1] is Unset {
            rest.push(cs.last().name)
        } else {
            rest
        }
    }
}

/// The value a slot contributes to the built record: a required slot its
/// value, an optional slot its present value or absence — wrapped exactly
/// once — and a collection slot its elements.
pub open spec fn built_value_of(s: SlotStateView) -> BuiltValueView {
    match s {
        SlotStateView::Unset => BuiltValueView::Absent,
        SlotStateView::Value(v) => BuiltValueView::Single(v),
        SlotStateView::OptAbsent => BuiltValueView::Absent,
        SlotStateView::OptPresent(v) => BuiltValueView::Present(v),
        SlotStateView::Items(vs) => BuiltValueView::Many(vs),
    }
}

/// The built record's fields, one per classified field, in order.
pub open spec fn built_fields_of(cs: Seq<ClassifiedFieldView>, ss: Seq<SlotStateView>) -> Seq<
    BuiltFieldView,
> {
    Seq::new(cs.len(), |i: int| BuiltFieldView { name: cs[i].name, value: built_value_of(ss[i]) })
}

/// One field of a built record.
#[derive(Debug, PartialEq, Eq)]
pub enum BuiltValue {
    /// A required field's value.
    Single(String),
    /// An optional field that was never given a value.
    Absent,
    /// An optional field's value, present.
    Present(String),
    /// A collection field's elements, in insertion order.
    Many(Vec<String>),
}

/// Mathematical image of a [`BuiltValue`].
pub ghost enum BuiltValueView {
    Single(Seq<char>),
    Absent,
    Present(Seq<char>),
    Many(Seq<Seq<char>>),
}

impl View for BuiltValue {
    type V = BuiltValueView;

    open spec fn view(&self) -> BuiltValueView {
        match self {
            BuiltValue::Single(v) => BuiltValueView::Single(v@),
            BuiltValue::Absent => BuiltValueView::Absent,
            BuiltValue::Present(v) => BuiltValueView::Present(v@),
            BuiltValue::Many(vs) => BuiltValueView::Many(vs.deep_view()),
        }
    }
}

/// A built record's field: its name and built value.
pub struct BuiltField {
    pub name: String,
    pub value: BuiltValue,
}

/// Mathematical image of a [`BuiltField`].
pub ghost struct BuiltFieldView {
    pub name: Seq<char>,
    pub value: BuiltValueView,
}

impl View for BuiltField {
    type V = BuiltFieldView;

    open spec fn view(&self) -> BuiltFieldView {
        BuiltFieldView { name: self.name@, value: self.value@ }
    }
}

impl DeepView for BuiltField {
    type V = BuiltFieldView;

    open spec fn deep_view(&self) -> BuiltFieldView {
        self@
    }
}

/// A fully built record: the target type's name and its fields in order.
pub struct BuiltRecord {
    pub name: String,
    pub fields: Vec<BuiltField>,
}

/// The recoverable outcome of building too early: the names of every
/// required field still unset, in declaration order, never empty.
#[derive(Debug)]
pub struct BuildError {
    pub missing: Vec<String>,
}

/// A builder instance: the classified schema and one slot per field.
pub struct DynBuilder {
    pub schema: BuilderSchema,
    pub slots: Vec<SlotState>,
}

impl DynBuilder {
    /// The builder's invariant: one slot per field, each in a state its
    /// field's category admits.
    pub open spec fn wf(&self) -> bool {
        &&& self.schema.wf()
        &&& self.slots.deep_view().len() == self.schema.fields.deep_view().len()
        &&& forall|i: int|
            0 <= i < self.slots.deep_view().len() ==> state_matches(
                self.schema.fields.deep_view()[i].category,
                #[trigger] self.slots.deep_view()[i],
            )
    }

    /// Constructs the builder in its initial state: required and optional
    /// slots unset, collection slots holding an empty sequence.
    pub fn new(schema: BuilderSchema) -> (r: DynBuilder)
        requires
            schema.wf(),
        ensures
            r.wf(),
            r.schema == schema,
            r.slots.deep_view() == init_slots(schema.fields.deep_view()),
    {
        let ghost cs: Seq<ClassifiedFieldView> = schema.fields.deep_view();
        let mut slots: Vec<SlotState> = Vec::new();
        let mut i: usize = 0;
        while i < schema.fields.len()
            invariant
                i <= schema.fields.len(),
                cs == schema.fields.deep_view(),
                slots.deep_view().len() == i,
                forall|j: int| 0 <= j < i ==> #[trigger] slots.deep_view()[j] == init_slot_of(cs[j].category),
            decreases schema.fields.len() - i,
        {
            proof {
                assert(schema.fields[i as int].deep_view() == cs[i as int]);
            }
            let slot = match &schema.fields[i].category {
                Category::Collection { .. } => {
                    let items: Vec<String> = Vec::new();
                    proof {
                        assert(items.deep_view() =~= Seq::<Seq<char>>::empty());
                    }
                    SlotState::Items(items)
                },
                _ => SlotState::Unset,
            };
            proof {
                assert(slot.deep_view() == init_slot_of(cs[i as int].category));
            }
            let ghost sv: SlotStateView = slot.deep_view();
            let ghost pre: Seq<SlotStateView> = slots.deep_view();
            slots.push(slot);
            proof {
                assert(slots.deep_view() =~= pre.push(sv));
            }
            i = i + 1;
        }
        proof {
            assert(slots.deep_view() =~= init_slots(cs));
            let r_slots = slots.deep_view();
            assert forall|j: int| 0 <= j < r_slots.len() implies state_matches(
                cs[j].category,
                #[trigger] r_slots[j],
            ) by {
                assert(r_slots[j] == init_slot_of(cs[j].category));
            }
        }
        DynBuilder { schema, slots }
    }

    /// Dispatches a method name to the first matching setter, as the
    /// synthesized builder's method resolution would.
    fn find_setter(&self, method: &String) -> (r: Option<(usize, SetterKind)>)
        ensures
            match find_setter_spec(self.schema.fields.deep_view(), method@) {
                Option::None => r is None,
                Option::Some(p) => r is Some && r->Some_0.0 as int == p.0 && r->Some_0.1 == p.1.kind,
            },
    {
        let ghost cs: Seq<ClassifiedFieldView> = self.schema.fields.deep_view();
        let mut i: usize = 0;
        while i < self.schema.fields.len()
            invariant
                i <= self.schema.fields.len(),
                cs == self.schema.fields.deep_view(),
                find_setter_spec(cs, method@) == find_from(cs, method@, i as int),
            decreases self.schema.fields.len() - i,
        {
            let c = &self.schema.fields[i];
            proof {
                assert(c.deep_view() == cs[i as int]);
            }
            match setter_kind_match(c, method) {
                Option::Some(kind) => {
                    return Option::Some((i, kind));
                },
                Option::None => {},
            }
            i = i + 1;
        }
        Option::None
    }

    /// Calls the setter the method name selects, handing it `arg`. Returns
    /// whether a setter accepted the argument; on `false` nothing changes.
    /// The slot change is exactly what [`apply_setter_spec`] gives for the
    /// selected setter.
    pub fn call_setter(&mut self, method: &String, arg: SetterArg) -> (r: bool)
        requires
            old(self).wf(),
        ensures
            final(self).wf(),
            final(self).schema == old(self).schema,
            match find_setter_spec(old(self).schema.fields.deep_view(), method@) {
                Option::None => r == false && final(self).slots.deep_view() == old(
                    self,
                ).slots.deep_view(),
                Option::Some(p) => {
                    match apply_setter_spec(
                        p.1.kind,
                        old(self).schema.fields.deep_view()[p.0].category,
                        old(self).slots.deep_view()[p.0],
                        arg@,
                    ) {
                        Option::Some(ns) => r == true && final(self).slots.deep_view() == old(
                            self,
                        ).slots.deep_view().update(p.0, ns),
                        Option::None => r == false && final(self).slots.deep_view() == old(
                            self,
                        ).slots.deep_view(),
                    }
                },
            },
    {
        let ghost cs: Seq<ClassifiedFieldView> = self.schema.fields.deep_view();
        let found = self.find_setter(method);
        match found {
            Option::None => false,
            Option::Some((i, kind)) => {
                proof {
                    lemma_find_in_range(cs, method@, 0);
                    assert(self.schema.fields[i as int].deep_view() == cs[i as int]);
                    assert(self.slots[i as int].deep_view() == self.slots.deep_view()[i as int]);
                }
                let ghost old_slots: Seq<SlotStateView> = self.slots.deep_view();
                let applied = match (kind, arg) {
                    (SetterKind::Replace, SetterArg::One(v)) => {
                        match &self.schema.fields[i].category {
                            Category::Required => {
                                let ghost ns = SlotStateView::Value(v@);
                                self.slots[i] = SlotState::Value(v);
                                proof {
                                    assert(self.slots.deep_view() =~= old_slots.update(
                                        i as int,
                                        ns,
                                    ));
                                    lemma_slot_update(
                                        cs,
                                        old_slots,
                                        self.slots.deep_view(),
                                        i as int,
                                        ns,
                                    );
                                }
                                true
                            },
                            _ => false,
                        }
                    },
                    (SetterKind::Replace, SetterArg::Many(vs)) => {
                        match &self.schema.fields[i].category {
                            Category::Collection { .. } => {
                                let ghost ns = SlotStateView::Items(vs.deep_view());
                                self.slots[i] = SlotState::Items(vs);
                                proof {
                                    assert(self.slots.deep_view() =~= old_slots.update(
                                        i as int,
                                        ns,
                                    ));
                                    lemma_slot_update(
                                        cs,
                                        old_slots,
                                        self.slots.deep_view(),
                                        i as int,
                                        ns,
                                    );
                                }
                                true
                            },
                            _ => false,
                        }
                    },
                    (SetterKind::SetPresent, SetterArg::One(v)) => {
                        match &self.schema.fields[i].category {
                            Category::Optional { .. } => {
                                let ghost ns = SlotStateView::OptPresent(v@);
                                self.slots[i] = SlotState::OptPresent(v);
                                proof {
                                    assert(self.slots.deep_view() =~= old_slots.update(
                                        i as int,
                                        ns,
                                    ));
                                    lemma_slot_update(
                                        cs,
                                        old_slots,
                                        self.slots.deep_view(),
                                        i as int,
                                        ns,
                                    );
                                }
                                true
                            },
                            _ => false,
                        }
                    },
                    (SetterKind::Append, SetterArg::One(v)) => {
                        match &self.slots[i] {
                            SlotState::Items(vs0) => {
                                let ghost items: Seq<Seq<char>> = vs0.deep_view();
                                let mut vs = clone_strings(vs0);
                                vs.push(v);
                                proof {
                                    assert(vs.deep_view() =~= items.push(v@));
                                }
                                let ghost ns = SlotStateView::Items(items.push(v@));
                                self.slots[i] = SlotState::Items(vs);
                                proof {
                                    assert(self.slots.deep_view() =~= old_slots.update(
                                        i as int,
                                        ns,
                                    ));
                                    lemma_slot_update(
                                        cs,
                                        old_slots,
                                        self.slots.deep_view(),
                                        i as int,
                                        ns,
                                    );
                                }
                                true
                            },
                            _ => false,
                        }
                    },
                    _ => false,
                };
                applied
            },
        }
    }

    /// Validates and assembles the built record. Succeeds if and only if no
    /// required field is still unset; otherwise reports every missing field
    /// by name, in order, as a value the caller can branch on.
    pub fn build(&self) -> (r: Result<BuiltRecord, BuildError>)
        requires
            self.wf(),
        ensures
            ({
                let cs = self.schema.fields.deep_view();
                let ss = self.slots.deep_view();
                let missing = missing_of(cs, ss);
                if missing.len() == 0 {
                    r is Ok && r->Ok_0.name@ == self.schema.target_name@
                        && r->Ok_0.fields.deep_view() == built_fields_of(cs, ss)
                } else {
                    r is Err && r->Err_0.missing.deep_view() == missing
                }
            }),
    {
        let ghost cs: Seq<ClassifiedFieldView> = self.schema.fields.deep_view();
        let ghost ss: Seq<SlotStateView> = self.slots.deep_view();
        let mut missing: Vec<String> = Vec::new();
        let mut i: usize = 0;
        proof {
            lemma_missing_take_zero(cs, ss);
        }
        while i < self.schema.fields.len()
            invariant
                i <= self.schema.fields.len(),
                cs == self.schema.fields.deep_view(),
                ss == self.slots.deep_view(),
                cs.len() == ss.len(),
                missing.deep_view() == missing_of(cs.take(i as int), ss.take(i as int)),
            decreases self.schema.fields.len() - i,
        {
            proof {
                assert(cs.take(i as int + 1).drop_last() =~= cs.take(i as int));
                assert(ss.take(i as int + 1).drop_last() =~= ss.take(i as int));
                assert(self.schema.fields[i as int].deep_view() == cs[i as int]);
                assert(self.slots[i as int].deep_view() == ss[i as int]);
            }
            let required = matches!(&self.schema.fields[i].category, Category::Required);
            let unset = matches!(&self.slots[i], SlotState::Unset);
            if required && unset {
                missing.push(self.schema.fields[i].name.clone());
            }
            proof {
                assert(missing.deep_view() =~= missing_of(
                    cs.take(i as int + 1),
                    ss.take(i as int + 1),
                ));
            }
            i = i + 1;
        }
        proof {
            assert(cs.take(cs.len() as int) =~= cs);
            assert(ss.take(ss.len() as int) =~= ss);
        }
        if missing.len() > 0 {
            return Err(BuildError { missing });
        }
        let mut fields: Vec<BuiltField> = Vec::new();
        let mut i: usize = 0;
        while i < self.schema.fields.len()
            invariant
                i <= self.schema.fields.len(),
                cs == self.schema.fields.deep_view(),
                ss == self.slots.deep_view(),
                cs.len() == ss.len(),
                fields.deep_view().len() == i,
                forall|j: int|
                    0 <= j < i ==> #[trigger] fields.deep_view()[j] == (BuiltFieldView {
                        name: cs[j].name,
                        value: built_value_of(ss[j]),
                    }),
            decreases self.schema.fields.len() - i,
        {
            proof {
                assert(self.schema.fields[i as int].deep_view() == cs[i as int]);
                assert(self.slots[i as int].deep_view() == ss[i as int]);
            }
            let name = self.schema.fields[i].name.clone();
            let value = match &self.slots[i] {
                SlotState::Unset => BuiltValue::Absent,
                SlotState::Value(v) => BuiltValue::Single(v.clone()),
                SlotState::OptAbsent => BuiltValue::Absent,
                SlotState::OptPresent(v) => BuiltValue::Present(v.clone()),
                SlotState::Items(vs) => BuiltValue::Many(clone_strings(vs)),
            };
            let bf = BuiltField { name, value };
            proof {
                assert(bf.deep_view() == (BuiltFieldView {
                    name: cs[i as int].name,
                    value: built_value_of(ss[i as int]),
                }));
            }
            let ghost bfv: BuiltFieldView = bf.deep_view();
            let ghost pre: Seq<BuiltFieldView> = fields.deep_view();
            fields.push(bf);
            proof {
                assert(fields.deep_view() =~= pre.push(bfv));
            }
            i = i + 1;
        }
        proof {
            assert(fields.deep_view() =~= built_fields_of(cs, ss));
        }
        Ok(BuiltRecord { name: self.schema.target_name.clone(), fields })
    }
}

/// The setter of one field that a method name selects, by kind.
fn setter_kind_match(c: &ClassifiedField, method: &String) -> (r: Option<SetterKind>)
    ensures
        match setter_match(c@, method@) {
            Option::None => r is None,
            Option::Some(s) => r == Some(s.kind),
        },
{
    match &c.category {
        Category::Required => {
            if method.eq(&c.name) {
                Option::Some(SetterKind::Replace)
            } else {
                Option::None
            }
        },
        Category::Optional { .. } => {
            if method.eq(&c.name) {
                Option::Some(SetterKind::SetPresent)
            } else {
                Option::None
            }
        },
        Category::Collection { inner: _, each } => {
            if method.eq(each) {
                Option::Some(SetterKind::Append)
            } else if !each.eq(&c.name) && method.eq(&c.name) {
                Option::Some(SetterKind::Replace)
            } else {
                Option::None
            }
        },
    }
}

/// A found setter's field index lies in range.
proof fn lemma_find_in_range(cs: Seq<ClassifiedFieldView>, method: Seq<char>, i: int)
    requires
        0 <= i <= cs.len(),
        find_from(cs, method, i) is Some,
    ensures
        i <= find_from(cs, method, i)->Some_0.0 < cs.len(),
        setter_match(cs[find_from(cs, method, i)->Some_0.0], method) == Some(
            find_from(cs, method, i)->Some_0.1,
        ),
    decreases cs.len() - i,
{
    if i < cs.len() && setter_match(cs[i], method) is None {
        lemma_find_in_range(cs, method, i + 1);
    }
}

/// Updating one slot with a state its category admits keeps every slot
/// admissible.
proof fn lemma_slot_update(
    cs: Seq<ClassifiedFieldView>,
    old_slots: Seq<SlotStateView>,
    new_slots: Seq<SlotStateView>,
    i: int,
    ns: SlotStateView,
)
    requires
        0 <= i < old_slots.len(),
        old_slots.len() == cs.len(),
        new_slots =~= old_slots.update(i, ns),
        forall|j: int|
            0 <= j < cs.len() ==> state_matches(cs[j].category, #[trigger] old_slots[j]),
        state_matches(cs[i].category, ns),
    ensures
        new_slots == old_slots.update(i, ns),
        forall|j: int|
            0 <= j < cs.len() ==> state_matches(cs[j].category, #[trigger] new_slots[j]),
{
    assert forall|j: int|
        0 <= j < cs.len() implies state_matches(cs[j].category, #[trigger] new_slots[j]) by {
        if j != i {
            assert(new_slots[j] == old_slots[j]);
        }
    }
}

proof fn lemma_missing_take_zero(cs: Seq<ClassifiedFieldView>, ss: Seq<SlotStateView>)
    ensures
        missing_of(cs.take(0), ss.take(0)).len() == 0,
{
    assert(cs.take(0) =~= Seq::<ClassifiedFieldView>::empty());
}

} // verus!
