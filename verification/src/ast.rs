//! The structural description of one record type, as a syntax front end
//! hands it over: type expressions, per-field attributes, field descriptors,
//! and the record descriptor itself, together with their mathematical views.

use vstd::prelude::*;

verus! {

/// A declared type expression, reduced to what classification reads: the
/// full source text, the path segments of the outermost path (empty when
/// the expression is not a plain, unqualified path), and the source text of
/// each angle-bracket type argument of the last segment.
///
/// Matching is purely syntactic on the outermost identifier; an alias of a
/// prelude type is not resolved. That limitation is deliberate: the input
/// is syntax, not resolved types.
pub struct TypeExpr {
    /// Source text of the whole type expression.
    pub text: String,
    /// Path segments of the outermost path, e.g. `["Option"]`.
    pub segments: Vec<String>,
    /// Source text of each angle-bracket argument of the last segment.
    pub args: Vec<String>,
}

/// Mathematical image of a [`TypeExpr`].
pub ghost struct TypeExprView {
    pub text: Seq<char>,
    pub segments: Seq<Seq<char>>,
    pub args: Seq<Seq<char>>,
}

impl View for TypeExpr {
    type V = TypeExprView;

    open spec fn view(&self) -> TypeExprView {
        TypeExprView {
            text: self.text@,
            segments: self.segments.deep_view(),
            args: self.args.deep_view(),
        }
    }
}

impl DeepView for TypeExpr {
    type V = TypeExprView;

    open spec fn deep_view(&self) -> TypeExprView {
        self@
    }
}

/// The value bound to an attribute key: a string literal, or anything else.
/// A non-literal value is carried as such; the parser skips it rather than
/// guessing at its meaning.
pub enum AttrValue {
    StrLit(String),
    NotStr,
}

/// Mathematical image of an [`AttrValue`].
pub ghost enum AttrValueView {
    StrLit(Seq<char>),
    NotStr,
}

impl View for AttrValue {
    type V = AttrValueView;

    open spec fn view(&self) -> AttrValueView {
        match self {
            AttrValue::StrLit(s) => AttrValueView::StrLit(s@),
            AttrValue::NotStr => AttrValueView::NotStr,
        }
    }
}

impl DeepView for AttrValue {
    type V = AttrValueView;

    open spec fn deep_view(&self) -> AttrValueView {
        self@
    }
}

/// One attribute of the form `#[path(key = value)]` on a field.
/// `key` is `None` when the inner name is not a single identifier.
pub struct Attribute {
    /// The attribute's outer name, e.g. `builder`.
    pub path: String,
    /// The single identifier on the left of `=`, if there is one.
    pub key: Option<String>,
    /// The value on the right of `=`.
    pub value: AttrValue,
}

/// Mathematical image of an [`Attribute`].
pub ghost struct AttributeView {
    pub path: Seq<char>,
    pub key: Option<Seq<char>>,
    pub value: AttrValueView,
}

impl View for Attribute {
    type V = AttributeView;

    open spec fn view(&self) -> AttributeView {
        AttributeView { path: self.path@, key: self.key.deep_view(), value: self.value@ }
    }
}

impl DeepView for Attribute {
    type V = AttributeView;

    open spec fn deep_view(&self) -> AttributeView {
        self@
    }
}

/// One field of the described record: its name, declared type expression,
/// and attribute list, in source order. Immutable input.
pub struct FieldDescriptor {
    pub name: String,
    pub ty: TypeExpr,
    pub attrs: Vec<Attribute>,
}

/// Mathematical image of a [`FieldDescriptor`].
pub ghost struct FieldDescriptorView {
    pub name: Seq<char>,
    pub ty: TypeExprView,
    pub attrs: Seq<AttributeView>,
}

impl View for FieldDescriptor {
    type V = FieldDescriptorView;

    open spec fn view(&self) -> FieldDescriptorView {
        FieldDescriptorView { name: self.name@, ty: self.ty@, attrs: self.attrs.deep_view() }
    }
}

impl DeepView for FieldDescriptor {
    type V = FieldDescriptorView;

    open spec fn deep_view(&self) -> FieldDescriptorView {
        self@
    }
}

/// The whole input: the record type's name and its named fields, in order.
pub struct RecordDescriptor {
    pub name: String,
    pub fields: Vec<FieldDescriptor>,
}

/// Mathematical image of a [`RecordDescriptor`].
pub ghost struct RecordDescriptorView {
    pub name: Seq<char>,
    pub fields: Seq<FieldDescriptorView>,
}

impl View for RecordDescriptor {
    type V = RecordDescriptorView;

    open spec fn view(&self) -> RecordDescriptorView {
        RecordDescriptorView { name: self.name@, fields: self.fields.deep_view() }
    }
}

/// Equality of a `String` against a literal, stated over the views.
pub fn str_eq(a: &String, b: &str) -> (r: bool)
    ensures
        r == (a@ == b@),
{
    let owned: String = b.to_owned();
    a.eq(&owned)
}

/// A verified deep copy of a vector of strings.
pub fn clone_strings(v: &Vec<String>) -> (r: Vec<String>)
    ensures
        r.deep_view() == v.deep_view(),
{
    let mut r: Vec<String> = Vec::new();
    let mut i: usize = 0;
    while i < v.len()
        invariant
            i <= v.len(),
            r.len() == i,
            forall|j: int| 0 <= j < i ==> r@[j]@ == #[trigger] v@[j]@,
        decreases v.len() - i,
    {
        r.push(v[i].clone());
        i = i + 1;
    }
    proof {
        assert(r.deep_view() =~= v.deep_view());
    }
    r
}

impl Clone for TypeExpr {
    /// Cloning preserves the view.
    fn clone(&self) -> (res: Self)
        ensures
            res@ == self@,
    {
        TypeExpr {
            text: self.text.clone(),
            segments: clone_strings(&self.segments),
            args: clone_strings(&self.args),
        }
    }
}

} // verus!
