//! The field classifier: from a field's declared type shape and the
//! attribute parser's outcome to its construction category, or a
//! diagnostic where the attributes or the type shape are wrong.

use crate::ast::{FieldDescriptor, FieldDescriptorView, TypeExpr, TypeExprView, str_eq};
use crate::attr::{AttrParse, AttrParseView, parse_each, parse_each_spec};
use vstd::prelude::*;

verus! {

/// A field's construction category.
#[derive(Debug, PartialEq, Eq)]
pub enum Category {
    /// The builder must receive a value before `build` succeeds.
    Required,
    /// Declared `Option<inner>`: the built field may be absent.
    Optional { inner: String },
    /// Declared `Vec<inner>` with an element setter named `each`:
    /// grown one element at a time, empty by default.
    Collection { inner: String, each: String },
}

/// Mathematical image of a [`Category`].
pub ghost enum CategoryView {
    Required,
    Optional { inner: Seq<char> },
    Collection { inner: Seq<char>, each: Seq<char> },
}

impl View for Category {
    type V = CategoryView;

    open spec fn view(&self) -> CategoryView {
        match self {
            Category::Required => CategoryView::Required,
            Category::Optional { inner } => CategoryView::Optional { inner: inner@ },
            Category::Collection { inner, each } => CategoryView::Collection {
                inner: inner@,
                each: each@,
            },
        }
    }
}

/// Which rule a diagnostic comes from.
#[derive(Clone, Copy, PartialEq, Eq, Structural, Debug)]
pub enum DiagKind {
    /// A `builder(...)` attribute with an unrecognized key.
    AttributeSyntax,
    /// An element-setter attribute on a field whose declared type is not a
    /// single-argument `Vec`.
    TypeShape,
}

/// One diagnostic fragment: a fixed message (determined by the kind) and a
/// source anchor, the name of the offending field.
#[derive(Debug, PartialEq, Eq)]
pub struct Diagnostic {
    pub kind: DiagKind,
    pub field: String,
}

/// Mathematical image of a [`Diagnostic`].
pub ghost struct DiagnosticView {
    pub kind: DiagKind,
    pub field: Seq<char>,
}

impl View for Diagnostic {
    type V = DiagnosticView;

    open spec fn view(&self) -> DiagnosticView {
        DiagnosticView { kind: self.kind, field: self.field@ }
    }
}

impl DeepView for Diagnostic {
    type V = DiagnosticView;

    open spec fn deep_view(&self) -> DiagnosticView {
        self@
    }
}

/// The fixed human-readable text of each diagnostic kind.
pub open spec fn message_of(kind: DiagKind) -> Seq<char> {
    match kind {
        DiagKind::AttributeSyntax => "expected `builder(each = \"...\")`"@,
        DiagKind::TypeShape => "expected a `Vec<...>` type under `builder(each = \"...\")`"@,
    }
}

impl Diagnostic {
    /// The diagnostic's message, exactly the fixed text of its kind.
    pub fn message(&self) -> (r: String)
        ensures
            r@ == message_of(self.kind),
    {
        match self.kind {
            DiagKind::AttributeSyntax => "expected `builder(each = \"...\")`".to_owned(),
            DiagKind::TypeShape => "expected a `Vec<...>` type under `builder(each = \"...\")`".to_owned(),
        }
    }
}

/// The declared type is syntactically a single outer identifier `Option`
/// with exactly one angle-bracket argument.
pub open spec fn is_option_shape(t: TypeExprView) -> bool {
    t.segments.len() == 1 && t.segments[0] == "Option"@ && t.args.len() == 1
}

/// The declared type is syntactically a single outer identifier `Vec`
/// with exactly one angle-bracket argument.
pub open spec fn is_vec_shape(t: TypeExprView) -> bool {
    t.segments.len() == 1 && t.segments[0] == "Vec"@ && t.args.len() == 1
}

/// The classification rule. The attribute parser's outcome is consulted
/// first for an unrecognized key; then an `Option`-shaped type is Optional,
/// an element-setter name demands a `Vec`-shaped type and yields Collection,
/// and everything else is Required. Matching is on the outermost identifier
/// only: an alias of `Option` under another name classifies as Required.
pub open spec fn classify_spec(f: FieldDescriptorView) -> Result<CategoryView, DiagKind> {
    let parsed = parse_each_spec(f.attrs);
    if parsed is BadKey {
        Err(DiagKind::AttributeSyntax)
    } else if is_option_shape(f.ty) {
        Ok(CategoryView::Optional { inner: f.ty.args[0] })
    } else if parsed is Each {
        if is_vec_shape(f.ty) {
            Ok(CategoryView::Collection { inner: f.ty.args[0], each: parsed->Each_0 })
        } else {
            Err(DiagKind::TypeShape)
        }
    } else {
        Ok(CategoryView::Required)
    }
}

/// One classified field: the descriptor's name and declared type, and the
/// category the rule assigns. The category is a pure function of the
/// declared type shape and the attribute-parse outcome.
pub struct ClassifiedField {
    pub name: String,
    pub ty: TypeExpr,
    pub category: Category,
}

/// Mathematical image of a [`ClassifiedField`].
pub ghost struct ClassifiedFieldView {
    pub name: Seq<char>,
    pub ty: TypeExprView,
    pub category: CategoryView,
}

impl View for ClassifiedField {
    type V = ClassifiedFieldView;

    open spec fn view(&self) -> ClassifiedFieldView {
        ClassifiedFieldView { name: self.name@, ty: self.ty@, category: self.category@ }
    }
}

impl DeepView for ClassifiedField {
    type V = ClassifiedFieldView;

    open spec fn deep_view(&self) -> ClassifiedFieldView {
        self@
    }
}

/// The classification a field descriptor view receives when the rule
/// accepts it.
pub open spec fn classified_view_of(f: FieldDescriptorView, c: CategoryView) -> ClassifiedFieldView {
    ClassifiedFieldView { name: f.name, ty: f.ty, category: c }
}

fn is_option_shape_exec(t: &TypeExpr) -> (r: bool)
    ensures
        r == is_option_shape(t@),
{
    t.segments.len() == 1 && str_eq(&t.segments[0], "Option") && t.args.len() == 1
}

fn is_vec_shape_exec(t: &TypeExpr) -> (r: bool)
    ensures
        r == is_vec_shape(t@),
{
    t.segments.len() == 1 && str_eq(&t.segments[0], "Vec") && t.args.len() == 1
}

/// Classifies one field descriptor, exactly as [`classify_spec`] describes:
/// `Ok` carries the classified field, `Err` the diagnostic, anchored at the
/// field, if and only if the rule rejects the descriptor.
pub fn classify(f: &FieldDescriptor) -> (r: Result<ClassifiedField, Diagnostic>)
    ensures
        match classify_spec(f@) {
            Ok(c) => r is Ok && r->Ok_0@ == classified_view_of(f@, c),
            Err(k) => r is Err && r->Err_0@ == (DiagnosticView { kind: k, field: f@.name }),
        },
{
    let parsed = parse_each(&f.attrs);
    if matches!(parsed, AttrParse::BadKey) {
        return Err(Diagnostic { kind: DiagKind::AttributeSyntax, field: f.name.clone() });
    }
    if is_option_shape_exec(&f.ty) {
        return Ok(ClassifiedField {
            name: f.name.clone(),
            ty: f.ty.clone(),
            category: Category::Optional { inner: f.ty.args[0].clone() },
        });
    }
    match parsed {
        AttrParse::Each(each) => {
            if is_vec_shape_exec(&f.ty) {
                Ok(ClassifiedField {
                    name: f.name.clone(),
                    ty: f.ty.clone(),
                    category: Category::Collection { inner: f.ty.args[0].clone(), each },
                })
            } else {
                Err(Diagnostic { kind: DiagKind::TypeShape, field: f.name.clone() })
            }
        },
        _ => Ok(ClassifiedField {
            name: f.name.clone(),
            ty: f.ty.clone(),
            category: Category::Required,
        }),
    }
}

} // verus!
