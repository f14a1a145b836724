//! The declaration that the derive inspects: a struct, its attributes and its
//! fields, held as plain values.

use vstd::prelude::*;
use vstd::string::*;

verus! {

/// The generic arguments written after one segment of a type path.
#[derive(Debug, PartialEq, Eq, Structural)]
pub enum GenericArgs {
    /// No arguments: `String`.
    Absent,
    /// Angle-bracketed arguments, with how many there are: `Option<u32>`.
    AngleBracketed(usize),
    /// Parenthesized arguments: `Fn(u8) -> u8`.
    Parenthesized,
}

/// One segment of a type path.
#[derive(Debug)]
pub struct Segment {
    pub ident: String,
    pub args: GenericArgs,
}

/// The declared type of a field, as far as classification looks into it.
#[derive(Debug)]
pub enum TypeExpr {
    /// A path type; `qself` tells whether it has a qualified self type
    /// (`<T as Trait>::Assoc`); `text` is the type as written.
    Path { qself: bool, segments: Vec<Segment>, text: String },
    /// Any other type (a reference, a tuple, an array ...), as written.
    Other { text: String },
}

/// How an attribute's contents are written.
#[derive(Debug)]
pub enum AttrMeta {
    /// A bare path: `#[test]`.
    Word,
    /// A list: `#[arg(short, long)]`.
    List,
    /// A name-value pair whose value is a string literal: `#[prompt = "Name?"]`;
    /// holds the literal's value.
    NameValueStr(String),
    /// A name-value pair whose value is anything else: `#[prompt = 3]`.
    NameValueOther,
}

/// An attribute on the struct or on a field.
#[derive(Debug)]
pub struct Attr {
    /// The attribute's path when it is one plain identifier, else `None`.
    pub ident: Option<String>,
    pub meta: AttrMeta,
    /// The attribute as written, `#[...]` included.
    pub text: String,
}

/// A named field of the struct.
#[derive(Debug)]
pub struct Field {
    pub name: String,
    pub ty: TypeExpr,
    pub attrs: Vec<Attr>,
}

/// The fields of a struct.
#[derive(Debug)]
pub enum Fields {
    Named(Vec<Field>),
    Unnamed,
    Unit,
}

/// What the declaration is.
#[derive(Debug)]
pub enum DeclKind {
    Struct(Fields),
    Enum,
    Union,
}

/// The item that the derive is attached to.
#[derive(Debug)]
pub struct Decl {
    pub name: String,
    pub attrs: Vec<Attr>,
    pub kind: DeclKind,
}

/// The tags of the argument parser's own attribute vocabulary.
pub open spec fn parser_tag(s: Seq<char>) -> bool {
    s == "arg"@ || s == "clap"@ || s == "command"@ || s == "doc"@
}

/// An attribute that belongs to the argument parser and is passed through.
pub open spec fn parser_attr(a: Attr) -> bool {
    a.ident is Some && parser_tag(a.ident->Some_0@)
}

/// The parser attributes of `s`, in their order.
pub open spec fn parser_attrs(s: Seq<Attr>) -> Seq<Attr>
    decreases s.len(),
{
    if s.len() == 0 {
        seq![]
    } else {
        let rest = parser_attrs(s.drop_last());
        if parser_attr(s.last()) {
            rest.push(s.last())
        } else {
            rest
        }
    }
}

/// An attribute of the form `#[prompt = "..."]`.
pub open spec fn prompt_form(a: Attr) -> bool {
    a.ident is Some && a.ident->Some_0@ == "prompt"@ && a.meta is NameValueStr
}

/// The value of the first `#[prompt = "..."]` attribute of `s`, if any.
pub open spec fn prompt_attr(s: Seq<Attr>) -> Option<Seq<char>>
    decreases s.len(),
{
    if s.len() == 0 {
        None
    } else if prompt_form(s[0]) {
        Some(s[0].meta->NameValueStr_0@)
    } else {
        prompt_attr(s.drop_first())
    }
}

/// The text of the prompt that asks for field `f`.
pub open spec fn prompt_text(f: Field) -> Seq<char> {
    match prompt_attr(f.attrs@) {
        Some(p) => p,
        None => "Enter "@ + f.name@,
    }
}

/// Whether `s` holds exactly the characters of `lit`.
pub fn text_is(s: &String, lit: &str) -> (r: bool)
    ensures
        r == (s@ == lit@),
{
    let t = String::from_str(lit);
    *s == t
}

/// Whether the attribute belongs to the argument parser: its path is one of
/// the identifiers `arg`, `clap`, `command` or `doc`.
pub fn is_clap_attr(attr: &Attr) -> (r: bool)
    ensures
        r == parser_attr(*attr),
{
    match &attr.ident {
        Some(id) => text_is(id, "arg") || text_is(id, "clap") || text_is(id, "command")
            || text_is(id, "doc"),
        None => false,
    }
}

/// The value of the first `#[prompt = "..."]` attribute, if there is one;
/// a `prompt` attribute of another form is passed over.
pub fn get_prompt(attrs: &Vec<Attr>) -> (r: Option<String>)
    ensures
        r matches Some(p) ==> prompt_attr(attrs@) == Some(p@),
        r is None ==> prompt_attr(attrs@) is None,
{
    let n = attrs.len();
    let mut i: usize = 0;
    assert(attrs@.subrange(0, n as int) =~= attrs@);
    while i < n
        invariant
            n == attrs@.len(),
            i <= n,
            prompt_attr(attrs@) == prompt_attr(attrs@.subrange(i as int, n as int)),
        decreases n - i,
    {
        let a = &attrs[i];
        assert(attrs@.subrange(i as int, n as int).drop_first() =~= attrs@.subrange(
            i + 1,
            n as int,
        ));
        if let Some(id) = &a.ident {
            if text_is(id, "prompt") {
                if let AttrMeta::NameValueStr(s) = &a.meta {
                    return Some(s.clone());
                }
            }
        }
        i = i + 1;
    }
    None
}

/// The prompt text of a field: its `#[prompt = "..."]` value, else
/// `Enter <name>`.
pub fn resolve_prompt(field: &Field) -> (r: String)
    ensures
        r@ == prompt_text(*field),
{
    match get_prompt(&field.attrs) {
        Some(p) => p,
        None => {
            let mut t = String::from_str("Enter ");
            t.append(field.name.as_str());
            t
        },
    }
}

} // verus!
