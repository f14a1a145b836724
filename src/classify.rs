//! Field classification: a field is asked for interactively unless its
//! declared type is `Option<..>` or `bool`.

use crate::decl::{text_is, GenericArgs, TypeExpr};
use vstd::prelude::*;

verus! {

/// Whether a field must have a value once construction is done.
#[derive(Debug, Clone, Copy, PartialEq, Eq, Structural)]
pub enum FieldClass {
    /// Must end up with a value; asked for when the arguments leave it out.
    Required,
    /// Its absence is a final value; never asked for.
    Optional,
}

/// The type's last path segment is `Option` with one angle-bracketed argument.
pub open spec fn option_shaped(ty: TypeExpr) -> bool {
    match ty {
        TypeExpr::Path { segments, .. } => {
            let s = segments@;
            s.len() > 0 && s.last().ident@ == "Option"@ && s.last().args
                == GenericArgs::AngleBracketed(1)
        },
        TypeExpr::Other { .. } => false,
    }
}

/// The type is the plain path `bool`: no qualified self type, one segment.
pub open spec fn bool_shaped(ty: TypeExpr) -> bool {
    match ty {
        TypeExpr::Path { qself, segments, .. } => !qself && segments@.len() == 1
            && segments@[0].ident@ == "bool"@,
        TypeExpr::Other { .. } => false,
    }
}

/// The class of a field with declared type `ty`.
pub open spec fn class_of(ty: TypeExpr) -> FieldClass {
    if option_shaped(ty) || bool_shaped(ty) {
        FieldClass::Optional
    } else {
        FieldClass::Required
    }
}

/// Whether `ty` is `Option<T>`, judged by the name and the single
/// angle-bracketed argument of its last path segment.
pub fn is_option_type(ty: &TypeExpr) -> (r: bool)
    ensures
        r == option_shaped(*ty),
{
    match ty {
        TypeExpr::Path { segments, .. } => {
            let n = segments.len();
            if n == 0 {
                return false;
            }
            let last = &segments[n - 1];
            text_is(&last.ident, "Option") && last.args == GenericArgs::AngleBracketed(1)
        },
        TypeExpr::Other { .. } => false,
    }
}

/// Whether `ty` is exactly the unqualified one-segment path `bool`.
pub fn is_bool_type(ty: &TypeExpr) -> (r: bool)
    ensures
        r == bool_shaped(*ty),
{
    match ty {
        TypeExpr::Path { qself, segments, .. } => {
            if !*qself && segments.len() == 1 {
                text_is(&segments[0].ident, "bool")
            } else {
                false
            }
        },
        TypeExpr::Other { .. } => false,
    }
}

/// The class of a field with declared type `ty`: optional for `Option<T>`
/// and `bool`, required for every other type.
pub fn classify(ty: &TypeExpr) -> (r: FieldClass)
    ensures
        r == class_of(*ty),
        r == FieldClass::Optional <==> (option_shaped(*ty) || bool_shaped(*ty)),
{
    if is_option_type(ty) || is_bool_type(ty) {
        FieldClass::Optional
    } else {
        FieldClass::Required
    }
}

/// Classification is a function of the declared type alone: the same type
/// always gets the same class, so classifying again changes nothing.
pub proof fn law_classify_deterministic(a: TypeExpr, b: TypeExpr)
    requires
        a == b,
    ensures
        class_of(a) == class_of(b),
{
}

} // verus!
