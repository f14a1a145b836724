//! The shadow type: the struct that the argument parser fills, with every
//! required field's type wrapped in `Option` so that it may be left out.

use crate::classify::{class_of, classify, FieldClass};
use crate::decl::{is_clap_attr, parser_attrs, Attr, Field, TypeExpr};
use vstd::prelude::*;
use vstd::string::*;

verus! {

/// The type of a shadow field.
#[derive(Debug)]
pub enum ShadowTy {
    /// `Option<T>` around the declared type `T` of a required field.
    Wrapped(TypeExpr),
    /// The declared type of an optional field, unchanged.
    Verbatim(TypeExpr),
}

/// One field of the shadow type.
#[derive(Debug)]
pub struct ShadowField {
    pub name: String,
    /// The field's argument-parser attributes, in their order.
    pub attrs: Vec<Attr>,
    pub ty: ShadowTy,
}

/// The shadow type.
#[derive(Debug)]
pub struct ShadowStruct {
    pub name: String,
    /// The struct's argument-parser attributes, in their order.
    pub attrs: Vec<Attr>,
    pub fields: Vec<ShadowField>,
}

/// The suffix that turns the struct's name into the shadow type's name.
pub open spec fn shadow_suffix() -> Seq<char> {
    "Optionals"@
}

/// The shadow type of a field with declared type `ty`.
pub open spec fn shadow_ty_of(ty: TypeExpr) -> ShadowTy {
    if class_of(ty) == FieldClass::Required {
        ShadowTy::Wrapped(ty)
    } else {
        ShadowTy::Verbatim(ty)
    }
}

/// `sf` is the shadow of field `f`.
pub open spec fn shadows(sf: ShadowField, f: Field) -> bool {
    &&& sf.name == f.name
    &&& sf.attrs@ == parser_attrs(f.attrs@)
    &&& sf.ty == shadow_ty_of(f.ty)
}

/// `fs` shadows `orig` field by field, in the same order.
pub open spec fn shadows_all(fs: Seq<ShadowField>, orig: Seq<Field>) -> bool {
    &&& fs.len() == orig.len()
    &&& forall|i: int| 0 <= i < fs.len() ==> shadows(#[trigger] fs[i], orig[i])
}

/// The name of the shadow type of struct `name`: `name` followed by
/// `Optionals`.
pub fn shadow_struct_name(name: &String) -> (r: String)
    ensures
        r@ == name@ + shadow_suffix(),
{
    let mut r = name.clone();
    r.append("Optionals");
    r
}

/// The argument-parser attributes among `attrs`, in their order; all others
/// (a `prompt` among them) are dropped.
pub fn keep_clap_attrs(attrs: Vec<Attr>) -> (r: Vec<Attr>)
    ensures
        r@ == parser_attrs(attrs@),
{
    let ghost orig = attrs@;
    let n = attrs.len();
    let mut rest = attrs;
    let mut out: Vec<Attr> = Vec::new();
    let mut k: usize = 0;
    assert(orig.subrange(0, 0) =~= Seq::<Attr>::empty());
    assert(orig.subrange(0, n as int) =~= orig);
    while k < n
        invariant
            n == orig.len(),
            k <= n,
            rest@ == orig.subrange(k as int, n as int),
            out@ == parser_attrs(orig.subrange(0, k as int)),
        decreases n - k,
    {
        let a = rest.remove(0);
        assert(orig.subrange(0, k + 1).drop_last() =~= orig.subrange(0, k as int));
        assert(rest@ =~= orig.subrange(k + 1, n as int));
        if is_clap_attr(&a) {
            out.push(a);
        }
        k = k + 1;
    }
    out
}

/// The shadow of one field: its parser attributes, and its type wrapped in
/// `Option` when the field is required.
pub fn shadow_field(f: Field) -> (r: ShadowField)
    ensures
        shadows(r, f),
{
    let class = classify(&f.ty);
    let Field { name, ty, attrs } = f;
    let attrs = keep_clap_attrs(attrs);
    let ty = match class {
        FieldClass::Required => ShadowTy::Wrapped(ty),
        FieldClass::Optional => ShadowTy::Verbatim(ty),
    };
    ShadowField { name, attrs, ty }
}

/// The shadow type of the struct `name` with attributes `attrs` and fields
/// `fields`: same fields in the same order, each shadowed.
pub fn synthesize_shadow(name: &String, attrs: Vec<Attr>, fields: Vec<Field>) -> (r:
    ShadowStruct)
    ensures
        r.name@ == name@ + shadow_suffix(),
        r.attrs@ == parser_attrs(attrs@),
        shadows_all(r.fields@, fields@),
{
    let ghost orig = fields@;
    let n = fields.len();
    let mut rest = fields;
    let mut out: Vec<ShadowField> = Vec::new();
    let mut k: usize = 0;
    while k < n
        invariant
            n == orig.len(),
            k <= n,
            rest@ == orig.subrange(k as int, n as int),
            shadows_all(out@, orig.subrange(0, k as int)),
        decreases n - k,
    {
        let f = rest.remove(0);
        assert(rest@ =~= orig.subrange(k + 1, n as int));
        let sf = shadow_field(f);
        out.push(sf);
        k = k + 1;
    }
    assert(orig.subrange(0, n as int) =~= orig);
    ShadowStruct { name: shadow_struct_name(name), attrs: keep_clap_attrs(attrs), fields: out }
}

} // verus!
