//! The attribute parser: scans one field's attribute list for the
//! element-setter declaration `#[builder(each = "name")]`.

use crate::ast::{AttrValue, AttrValueView, Attribute, AttributeView, str_eq};
use vstd::prelude::*;

verus! {

/// Outcome of scanning one field's attribute list.
pub enum AttrParse {
    /// No element-setter attribute: the field proceeds as non-collection.
    NoCollection,
    /// `builder(each = "name")` was found: the declared element-setter name.
    Each(String),
    /// A `builder(...)` attribute carries an unrecognized key.
    BadKey,
}

/// Mathematical image of an [`AttrParse`].
pub ghost enum AttrParseView {
    NoCollection,
    Each(Seq<char>),
    BadKey,
}

impl View for AttrParse {
    type V = AttrParseView;

    open spec fn view(&self) -> AttrParseView {
        match self {
            AttrParse::NoCollection => AttrParseView::NoCollection,
            AttrParse::Each(s) => AttrParseView::Each(s@),
            AttrParse::BadKey => AttrParseView::BadKey,
        }
    }
}

/// What scanning an attribute list yields. The first `builder` attribute
/// whose key is a single identifier decides: `each` bound to a string
/// literal names the element setter, any other key is an attribute error.
/// An `each` bound to a non-literal value, a key that is not one
/// identifier, and any attribute outside the `builder` namespace are passed
/// over; only the first match is honored.
pub open spec fn parse_each_spec(attrs: Seq<AttributeView>) -> AttrParseView
    decreases attrs.len(),
{
    if attrs.len() == 0 {
        AttrParseView::NoCollection
    } else {
        let a = attrs[0];
        if a.path == "builder"@ && a.key is Some {
            if a.key->0 == "each"@ {
                match a.value {
                    AttrValueView::StrLit(s) => AttrParseView::Each(s),
                    AttrValueView::NotStr => parse_each_spec(attrs.drop_first()),
                }
            } else {
                AttrParseView::BadKey
            }
        } else {
            parse_each_spec(attrs.drop_first())
        }
    }
}

/// Scans the attribute list and returns the element-setter outcome,
/// exactly as [`parse_each_spec`] describes it.
pub fn parse_each(attrs: &Vec<Attribute>) -> (r: AttrParse)
    ensures
        r@ == parse_each_spec(attrs.deep_view()),
{
    let ghost full: Seq<AttributeView> = attrs.deep_view();
    proof {
        assert(full.skip(0) =~= full);
    }
    let mut i: usize = 0;
    while i < attrs.len()
        invariant
            i <= attrs.len(),
            full == attrs.deep_view(),
            parse_each_spec(full) == parse_each_spec(full.skip(i as int)),
        decreases attrs.len() - i,
    {
        let a = &attrs[i];
        proof {
            assert(full.skip(i as int)[0] == full[i as int]);
            assert(full[i as int] == a@);
            assert(full.skip(i as int).drop_first() =~= full.skip(i as int + 1));
        }
        if str_eq(&a.path, "builder") {
            match &a.key {
                Option::Some(key) => {
                    if str_eq(key, "each") {
                        match &a.value {
                            AttrValue::StrLit(s) => {
                                return AttrParse::Each(s.clone());
                            },
                            AttrValue::NotStr => {},
                        }
                    } else {
                        return AttrParse::BadKey;
                    }
                },
                Option::None => {},
            }
        }
        i = i + 1;
    }
    proof {
        assert(full.skip(i as int) =~= Seq::<AttributeView>::empty());
    }
    AttrParse::NoCollection
}

} // verus!
