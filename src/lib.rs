//! A model of the `DialoguerParser` derive: from a struct declaration it
//! decides which fields must be asked for interactively, synthesizes the
//! companion "optionals" type that the argument parser fills, and plans and
//! performs the reconciliation of parsed values with interactive answers.

pub mod classify;
pub mod decl;
pub mod laws;
pub mod reconcile;
pub mod shadow;

use crate::decl::{parser_attrs, Decl, DeclKind, Fields};
use crate::reconcile::{plan_constructor, plans_all, Constructor};
use crate::shadow::{shadow_suffix, shadows_all, synthesize_shadow, ShadowStruct};
use vstd::prelude::*;

verus! {

/// What the derive generates for one struct.
#[derive(Debug)]
pub struct Derived {
    /// The type that the arguments are parsed into.
    pub shadow: ShadowStruct,
    /// The constructor added to the annotated struct.
    pub constructor: Constructor,
}

/// Why the derive refuses a declaration.
#[derive(Debug, Clone, Copy, PartialEq, Eq, Structural)]
pub enum DeriveError {
    /// The declaration is an enum or a union.
    NotAStruct,
    /// The struct is a tuple struct or a unit struct.
    NotNamedFields,
}

impl DeriveError {
    /// The diagnostic that stops compilation.
    pub fn message(&self) -> (r: &'static str)
        ensures
            *self == DeriveError::NotAStruct ==> r@ == "DialoguerParser only supports structs"@,
            *self == DeriveError::NotNamedFields ==> r@
                == "DialoguerParser only supports structs with named fields"@,
    {
        match self {
            DeriveError::NotAStruct => "DialoguerParser only supports structs",
            DeriveError::NotNamedFields => "DialoguerParser only supports structs with named fields",
        }
    }
}

/// The code generated for `input`: the shadow type, named after the struct
/// with `Optionals` appended, carrying the struct's parser attributes and one
/// shadow per field in declaration order; and the constructor, with one plan
/// per field in declaration order. Fails on anything but a struct with named
/// fields.
pub fn dialoguer_parser_derive(input: Decl) -> (r: Result<Derived, DeriveError>)
    ensures
        match input.kind {
            DeclKind::Struct(Fields::Named(fields)) => match r {
                Ok(d) => {
                    &&& d.shadow.name@ == input.name@ + shadow_suffix()
                    &&& d.shadow.attrs@ == parser_attrs(input.attrs@)
                    &&& shadows_all(d.shadow.fields@, fields@)
                    &&& d.constructor.struct_name == input.name
                    &&& d.constructor.shadow_name@ == d.shadow.name@
                    &&& plans_all(d.constructor.fields@, fields@)
                },
                Err(_) => false,
            },
            DeclKind::Struct(_) => r == Err::<Derived, DeriveError>(DeriveError::NotNamedFields),
            _ => r == Err::<Derived, DeriveError>(DeriveError::NotAStruct),
        },
{
    let Decl { name, attrs, kind } = input;
    match kind {
        DeclKind::Struct(Fields::Named(fields)) => {
            let constructor = plan_constructor(&name, &fields);
            let shadow = synthesize_shadow(&name, attrs, fields);
            Ok(Derived { shadow, constructor })
        },
        DeclKind::Struct(_) => Err(DeriveError::NotNamedFields),
        _ => Err(DeriveError::NotAStruct),
    }
}

} // verus!
