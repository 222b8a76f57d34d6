//! The builder schema synthesizer and emission: classifies a whole record,
//! derives each field's four fragments (storage, initializer, setters,
//! build-time read), and assembles them into the builder's output groupings
//! alongside the accumulated diagnostics.

use crate::ast::{FieldDescriptorView, RecordDescriptor};
use crate::classify::{
    Category, CategoryView, ClassifiedField, ClassifiedFieldView, Diagnostic, DiagnosticView,
    classify, classify_spec, classified_view_of,
};
use vstd::prelude::*;
use vstd::string::StringExecFns;

verus! {

/// One slot of the builder's storage: every slot is an optional; this
/// fragment gives the field's name and the type stored inside the slot —
/// the declared type for required and collection fields, the inner type
/// for optional fields, whose slot tracks has-the-user-set-this.
pub struct StorageFragment {
    pub name: String,
    pub stored_type: String,
}

/// Mathematical image of a [`StorageFragment`].
pub ghost struct StorageFragmentView {
    pub name: Seq<char>,
    pub stored_type: Seq<char>,
}

impl View for StorageFragment {
    type V = StorageFragmentView;

    open spec fn view(&self) -> StorageFragmentView {
        StorageFragmentView { name: self.name@, stored_type: self.stored_type@ }
    }
}

impl DeepView for StorageFragment {
    type V = StorageFragmentView;

    open spec fn deep_view(&self) -> StorageFragmentView {
        self@
    }
}

/// How one slot starts when the builder is constructed.
#[derive(Clone, Copy, PartialEq, Eq, Structural, Debug)]
pub enum InitKind {
    /// The slot starts unset.
    Empty,
    /// The slot starts holding an empty growable sequence, so `build`
    /// succeeds even if the element setter is never called.
    EmptyCollection,
}

/// One line of the builder's constructor.
pub struct InitFragment {
    pub name: String,
    pub kind: InitKind,
}

/// Mathematical image of an [`InitFragment`].
pub ghost struct InitFragmentView {
    pub name: Seq<char>,
    pub kind: InitKind,
}

impl View for InitFragment {
    type V = InitFragmentView;

    open spec fn view(&self) -> InitFragmentView {
        InitFragmentView { name: self.name@, kind: self.kind }
    }
}

impl DeepView for InitFragment {
    type V = InitFragmentView;

    open spec fn deep_view(&self) -> InitFragmentView {
        self@
    }
}

/// What a setter does to its slot.
#[derive(Clone, Copy, PartialEq, Eq, Structural, Debug)]
pub enum SetterKind {
    /// Takes the full declared value and replaces the slot.
    Replace,
    /// Takes the inner value of an optional field and stores it as present.
    SetPresent,
    /// Appends one element to a collection slot.
    Append,
}

/// One setter of the builder: its method name, the field it serves, the
/// type of its one parameter (as source text), and what it does.
pub struct SetterFragment {
    pub method: String,
    pub field: String,
    pub param_type: String,
    pub kind: SetterKind,
}

/// Mathematical image of a [`SetterFragment`].
pub ghost struct SetterFragmentView {
    pub method: Seq<char>,
    pub field: Seq<char>,
    pub param_type: Seq<char>,
    pub kind: SetterKind,
}

impl View for SetterFragment {
    type V = SetterFragmentView;

    open spec fn view(&self) -> SetterFragmentView {
        SetterFragmentView {
            method: self.method@,
            field: self.field@,
            param_type: self.param_type@,
            kind: self.kind,
        }
    }
}

impl DeepView for SetterFragment {
    type V = SetterFragmentView;

    open spec fn deep_view(&self) -> SetterFragmentView {
        self@
    }
}

/// How `build` reads one slot.
#[derive(Clone, Copy, PartialEq, Eq, Structural, Debug)]
pub enum ReadKind {
    /// The slot must be set; an unset slot is a missing required field.
    RequireSet,
    /// A set slot unwraps to the inner value; an unset one resolves to
    /// no value, never to an error.
    UnwrapOrAbsent,
}

/// One read of the build expression.
pub struct ReadFragment {
    pub name: String,
    pub kind: ReadKind,
}

/// Mathematical image of a [`ReadFragment`].
pub ghost struct ReadFragmentView {
    pub name: Seq<char>,
    pub kind: ReadKind,
}

impl View for ReadFragment {
    type V = ReadFragmentView;

    open spec fn view(&self) -> ReadFragmentView {
        ReadFragmentView { name: self.name@, kind: self.kind }
    }
}

impl DeepView for ReadFragment {
    type V = ReadFragmentView;

    open spec fn deep_view(&self) -> ReadFragmentView {
        self@
    }
}

/// The storage fragment a classified field gets.
pub open spec fn storage_of(c: ClassifiedFieldView) -> StorageFragmentView {
    match c.category {
        CategoryView::Optional { inner } => StorageFragmentView {
            name: c.name,
            stored_type: inner,
        },
        _ => StorageFragmentView { name: c.name, stored_type: c.ty.text },
    }
}

/// The initializer a classified field gets: collection slots start as an
/// empty sequence, every other slot starts unset.
pub open spec fn init_of(c: ClassifiedFieldView) -> InitFragmentView {
    match c.category {
        CategoryView::Collection { .. } => InitFragmentView {
            name: c.name,
            kind: InitKind::EmptyCollection,
        },
        _ => InitFragmentView { name: c.name, kind: InitKind::Empty },
    }
}

/// The setters a classified field gets. A required field gets one bulk
/// setter under its own name; an optional field one setter taking the inner
/// type; a collection field the named element setter, and a bulk setter
/// under the field's own name only when the two names differ.
pub open spec fn setters_of(c: ClassifiedFieldView) -> Seq<SetterFragmentView> {
    match c.category {
        CategoryView::Required => seq![
            SetterFragmentView {
                method: c.name,
                field: c.name,
                param_type: c.ty.text,
                kind: SetterKind::Replace,
            },
        ],
        CategoryView::Optional { inner } => seq![
            SetterFragmentView {
                method: c.name,
                field: c.name,
                param_type: inner,
                kind: SetterKind::SetPresent,
            },
        ],
        CategoryView::Collection { inner, each } => {
            let element = SetterFragmentView {
                method: each,
                field: c.name,
                param_type: inner,
                kind: SetterKind::Append,
            };
            if each == c.name {
                seq![element]
            } else {
                seq![
                    element,
                    SetterFragmentView {
                        method: c.name,
                        field: c.name,
                        param_type: c.ty.text,
                        kind: SetterKind::Replace,
                    },
                ]
            }
        },
    }
}

/// The build-time read a classified field gets.
pub open spec fn read_of(c: ClassifiedFieldView) -> ReadFragmentView {
    match c.category {
        CategoryView::Optional { .. } => ReadFragmentView {
            name: c.name,
            kind: ReadKind::UnwrapOrAbsent,
        },
        _ => ReadFragmentView { name: c.name, kind: ReadKind::RequireSet },
    }
}

/// The classified fields of a descriptor list, in order, keeping exactly
/// those the classification rule accepts.
pub open spec fn classified_of(fs: Seq<FieldDescriptorView>) -> Seq<ClassifiedFieldView>
    decreases fs.len(),
{
    if fs.len() == 0 {
        Seq::empty()
    } else {
        let rest = classified_of(fs.drop_last());
        match classify_spec(fs.last()) {
            Ok(c) => rest.push(classified_view_of(fs.last(), c)),
            Err(_) => rest,
        }
    }
}

/// The diagnostics of a descriptor list, in order, one for each field the
/// classification rule rejects; a rejected field silences no other field.
pub open spec fn diags_of(fs: Seq<FieldDescriptorView>) -> Seq<DiagnosticView>
    decreases fs.len(),
{
    if fs.len() == 0 {
        Seq::empty()
    } else {
        let rest = diags_of(fs.drop_last());
        match classify_spec(fs.last()) {
            Ok(_) => rest,
            Err(k) => rest.push(DiagnosticView { kind: k, field: fs.last().name }),
        }
    }
}

/// The storage fragments of a classified list, in order.
pub open spec fn storages_of(cs: Seq<ClassifiedFieldView>) -> Seq<StorageFragmentView>
    decreases cs.len(),
{
    if cs.len() == 0 {
        Seq::empty()
    } else {
        storages_of(cs.drop_last()).push(storage_of(cs.last()))
    }
}

/// The initializer fragments of a classified list, in order.
pub open spec fn inits_of(cs: Seq<ClassifiedFieldView>) -> Seq<InitFragmentView>
    decreases cs.len(),
{
    if cs.len() == 0 {
        Seq::empty()
    } else {
        inits_of(cs.drop_last()).push(init_of(cs.last()))
    }
}

/// The setters of a classified list: each field's setters, concatenated in
/// field order.
pub open spec fn all_setters(cs: Seq<ClassifiedFieldView>) -> Seq<SetterFragmentView>
    decreases cs.len(),
{
    if cs.len() == 0 {
        Seq::empty()
    } else {
        all_setters(cs.drop_last()) + setters_of(cs.last())
    }
}

/// The build-time reads of a classified list, in order.
pub open spec fn reads_of(cs: Seq<ClassifiedFieldView>) -> Seq<ReadFragmentView>
    decreases cs.len(),
{
    if cs.len() == 0 {
        Seq::empty()
    } else {
        reads_of(cs.drop_last()).push(read_of(cs.last()))
    }
}

/// The builder type's name: the target type's name with `Builder` appended.
pub open spec fn builder_name_of(target: Seq<char>) -> Seq<char> {
    target + "Builder"@
}

/// The classified shape of one record: the target type's name, the derived
/// builder type's name, and the classified fields in order.
pub struct BuilderSchema {
    pub target_name: String,
    pub builder_name: String,
    pub fields: Vec<ClassifiedField>,
}

impl BuilderSchema {
    /// The builder's name follows the naming convention.
    pub open spec fn wf(&self) -> bool {
        self.builder_name@ == builder_name_of(self.target_name@)
    }
}

/// Classifies every field of the record, in order. The schema holds exactly
/// the accepted fields; the diagnostics hold one entry for each rejected
/// field, so a bad attribute on one field never aborts the others.
pub fn classify_record(rec: &RecordDescriptor) -> (r: (BuilderSchema, Vec<Diagnostic>))
    ensures
        r.0.wf(),
        r.0.target_name@ == rec@.name,
        r.0.fields.deep_view() == classified_of(rec@.fields),
        r.1.deep_view() == diags_of(rec@.fields),
{
    let target_name = rec.name.clone();
    let mut builder_name = rec.name.clone();
    builder_name.append("Builder");
    let mut fields: Vec<ClassifiedField> = Vec::new();
    let mut diags: Vec<Diagnostic> = Vec::new();
    let ghost fdv: Seq<FieldDescriptorView> = rec@.fields;
    let mut i: usize = 0;
    proof {
        assert(fdv.take(0) =~= Seq::<FieldDescriptorView>::empty());
    }
    while i < rec.fields.len()
        invariant
            i <= rec.fields.len(),
            fdv == rec@.fields,
            rec.fields.deep_view() == fdv,
            fields.deep_view() == classified_of(fdv.take(i as int)),
            diags.deep_view() == diags_of(fdv.take(i as int)),
        decreases rec.fields.len() - i,
    {
        proof {
            assert(fdv.take(i as int + 1).drop_last() =~= fdv.take(i as int));
            assert(fdv.take(i as int + 1).last() == fdv[i as int]);
            assert(rec.fields[i as int].deep_view() == fdv[i as int]);
        }
        match classify(&rec.fields[i]) {
            Ok(c) => {
                fields.push(c);
            },
            Err(d) => {
                diags.push(d);
            },
        }
        proof {
            assert(fields.deep_view() =~= classified_of(fdv.take(i as int + 1)));
            assert(diags.deep_view() =~= diags_of(fdv.take(i as int + 1)));
        }
        i = i + 1;
    }
    proof {
        assert(fdv.take(rec.fields.len() as int) =~= fdv);
    }
    (BuilderSchema { target_name, builder_name, fields }, diags)
}

/// The storage fragment of one classified field.
pub fn storage_fragment(c: &ClassifiedField) -> (r: StorageFragment)
    ensures
        r@ == storage_of(c@),
{
    match &c.category {
        Category::Optional { inner } => StorageFragment {
            name: c.name.clone(),
            stored_type: inner.clone(),
        },
        _ => StorageFragment { name: c.name.clone(), stored_type: c.ty.text.clone() },
    }
}

/// The initializer fragment of one classified field.
pub fn init_fragment(c: &ClassifiedField) -> (r: InitFragment)
    ensures
        r@ == init_of(c@),
{
    match &c.category {
        Category::Collection { .. } => InitFragment {
            name: c.name.clone(),
            kind: InitKind::EmptyCollection,
        },
        _ => InitFragment { name: c.name.clone(), kind: InitKind::Empty },
    }
}

/// The setter fragments of one classified field, in order.
pub fn setter_fragments(c: &ClassifiedField) -> (r: Vec<SetterFragment>)
    ensures
        r.deep_view() == setters_of(c@),
{
    let mut r: Vec<SetterFragment> = Vec::new();
    match &c.category {
        Category::Required => {
            r.push(SetterFragment {
                method: c.name.clone(),
                field: c.name.clone(),
                param_type: c.ty.text.clone(),
                kind: SetterKind::Replace,
            });
        },
        Category::Optional { inner } => {
            r.push(SetterFragment {
                method: c.name.clone(),
                field: c.name.clone(),
                param_type: inner.clone(),
                kind: SetterKind::SetPresent,
            });
        },
        Category::Collection { inner, each } => {
            r.push(SetterFragment {
                method: each.clone(),
                field: c.name.clone(),
                param_type: inner.clone(),
                kind: SetterKind::Append,
            });
            if !each.eq(&c.name) {
                r.push(SetterFragment {
                    method: c.name.clone(),
                    field: c.name.clone(),
                    param_type: c.ty.text.clone(),
                    kind: SetterKind::Replace,
                });
            }
        },
    }
    proof {
        assert(r.deep_view() =~= setters_of(c@));
    }
    r
}

/// The build-time read fragment of one classified field.
pub fn read_fragment(c: &ClassifiedField) -> (r: ReadFragment)
    ensures
        r@ == read_of(c@),
{
    match &c.category {
        Category::Optional { .. } => ReadFragment {
            name: c.name.clone(),
            kind: ReadKind::UnwrapOrAbsent,
        },
        _ => ReadFragment { name: c.name.clone(), kind: ReadKind::RequireSet },
    }
}

/// No two synthesized setters share a method name: an element-setter name
/// colliding with another field's setter identifier would make the spliced
/// code define one method twice.
pub open spec fn methods_distinct(ss: Seq<SetterFragmentView>) -> bool {
    forall|j: int, k: int|
        0 <= j < k < ss.len() ==> (#[trigger] ss[j].method) != (#[trigger] ss[k].method)
}

/// Checks that the synthesized setters carry pairwise distinct method
/// names. The behavior under a collision is left open by the builder's
/// conventions, so a caller rejects such an input rather than splicing it.
pub fn distinct_setter_methods(setters: &Vec<SetterFragment>) -> (r: bool)
    ensures
        r == methods_distinct(setters.deep_view()),
{
    let ghost sv: Seq<SetterFragmentView> = setters.deep_view();
    let mut j: usize = 0;
    while j < setters.len()
        invariant
            j <= setters.len(),
            sv == setters.deep_view(),
            forall|a: int, b: int|
                0 <= a < b < sv.len() && a < j ==> (#[trigger] sv[a].method) != (
                #[trigger] sv[b].method),
        decreases setters.len() - j,
    {
        let mut k: usize = j + 1;
        while k < setters.len()
            invariant
                j < setters.len(),
                j < k <= setters.len(),
                sv == setters.deep_view(),
                forall|b: int| j < b < k ==> sv[j as int].method != (#[trigger] sv[b].method),
            decreases setters.len() - k,
        {
            if setters[j].method.eq(&setters[k].method) {
                proof {
                    assert(sv[j as int].method == sv[k as int].method);
                    assert(!methods_distinct(sv));
                }
                return false;
            }
            k = k + 1;
        }
        j = j + 1;
    }
    true
}

/// Everything one transformation returns: the classified schema, the four
/// output groupings — the builder type's storage, the constructor's
/// initializers, the setter collection, and the build function's reads —
/// and the diagnostics channel.
pub struct BuilderOutput {
    pub schema: BuilderSchema,
    pub storage: Vec<StorageFragment>,
    pub inits: Vec<InitFragment>,
    pub setters: Vec<SetterFragment>,
    pub reads: Vec<ReadFragment>,
    pub diagnostics: Vec<Diagnostic>,
}

/// One whole transformation: classifies the record's fields and assembles
/// the four output groupings and the diagnostics. Deterministic and
/// single-pass: everything returned is a function of the input's view.
pub fn derive(input: &RecordDescriptor) -> (r: BuilderOutput)
    ensures
        r.schema.wf(),
        r.schema.target_name@ == input@.name,
        r.schema.fields.deep_view() == classified_of(input@.fields),
        r.storage.deep_view() == storages_of(classified_of(input@.fields)),
        r.inits.deep_view() == inits_of(classified_of(input@.fields)),
        r.setters.deep_view() == all_setters(classified_of(input@.fields)),
        r.reads.deep_view() == reads_of(classified_of(input@.fields)),
        r.diagnostics.deep_view() == diags_of(input@.fields),
{
    let (schema, diagnostics) = classify_record(input);
    let ghost cs: Seq<ClassifiedFieldView> = classified_of(input@.fields);
    let mut storage: Vec<StorageFragment> = Vec::new();
    let mut inits: Vec<InitFragment> = Vec::new();
    let mut setters: Vec<SetterFragment> = Vec::new();
    let mut reads: Vec<ReadFragment> = Vec::new();
    proof {
        assert(cs.take(0) =~= Seq::<ClassifiedFieldView>::empty());
    }
    let mut i: usize = 0;
    while i < schema.fields.len()
        invariant
            i <= schema.fields.len(),
            schema.fields.deep_view() == cs,
            storage.deep_view() == storages_of(cs.take(i as int)),
            inits.deep_view() == inits_of(cs.take(i as int)),
            setters.deep_view() == all_setters(cs.take(i as int)),
            reads.deep_view() == reads_of(cs.take(i as int)),
        decreases schema.fields.len() - i,
    {
        proof {
            assert(cs.take(i as int + 1).drop_last() =~= cs.take(i as int));
            assert(cs.take(i as int + 1).last() == cs[i as int]);
            assert(schema.fields[i as int].deep_view() == cs[i as int]);
        }
        let c = &schema.fields[i];
        storage.push(storage_fragment(c));
        inits.push(init_fragment(c));
        let mut more = setter_fragments(c);
        setters.append(&mut more);
        reads.push(read_fragment(c));
        proof {
            assert(storage.deep_view() =~= storages_of(cs.take(i as int + 1)));
            assert(inits.deep_view() =~= inits_of(cs.take(i as int + 1)));
            assert(setters.deep_view() =~= all_setters(cs.take(i as int + 1)));
            assert(reads.deep_view() =~= reads_of(cs.take(i as int + 1)));
        }
        i = i + 1;
    }
    proof {
        assert(cs.take(schema.fields.len() as int) =~= cs);
    }
    BuilderOutput { schema, storage, inits, setters, reads, diagnostics }
}

} // verus!
