//! The constructor: which fields it takes from the parsed shadow value, which
//! it asks for, with what prompt, and how it assembles the final values.

use crate::classify::{class_of, classify, FieldClass};
use crate::decl::{prompt_text, resolve_prompt, Field};
use crate::shadow::{shadow_struct_name, shadow_suffix};
use vstd::prelude::*;

verus! {

/// What the constructor does for one field.
#[derive(Debug)]
pub struct FieldPlan {
    pub name: String,
    pub class: FieldClass,
    /// The text shown when the field is asked for.
    pub prompt: String,
}

/// The constructor generated on the annotated struct.
#[derive(Debug)]
pub struct Constructor {
    pub struct_name: String,
    /// The shadow type that the arguments are parsed into.
    pub shadow_name: String,
    /// One plan per field, in declaration order.
    pub fields: Vec<FieldPlan>,
}

/// A field's value in the parsed shadow instance.
#[derive(Debug, PartialEq, Eq)]
pub enum ShadowValue {
    /// A `bool` field.
    Flag(bool),
    /// An `Option` field: a required field's wrapped value, or an optional
    /// field's own value.
    Maybe(Option<String>),
}

/// A field's value in the constructed instance.
#[derive(Debug, PartialEq, Eq)]
pub enum FieldValue {
    /// An optional `bool` field.
    Flag(bool),
    /// An optional `Option` field.
    Maybe(Option<String>),
    /// A required field's value.
    Given(String),
}

/// Why the parsed values and the answers do not fit the constructor.
#[derive(Debug, Clone, Copy, PartialEq, Eq, Structural)]
pub enum ReconcileError {
    /// There is not one parsed value per field.
    LengthMismatch,
    /// A required field's parsed value is not an `Option`.
    ShapeMismatch,
    /// There is not one answer per prompt.
    AnswerCount,
}

/// `p` is the plan of field `f`.
pub open spec fn plans(p: FieldPlan, f: Field) -> bool {
    &&& p.name == f.name
    &&& p.class == class_of(f.ty)
    &&& p.prompt@ == prompt_text(f)
}

/// `ps` plans the fields `fs`, one by one, in the same order.
pub open spec fn plans_all(ps: Seq<FieldPlan>, fs: Seq<Field>) -> bool {
    &&& ps.len() == fs.len()
    &&& forall|i: int| 0 <= i < ps.len() ==> plans(#[trigger] ps[i], fs[i])
}

/// The parsed value `s` can stand for a field of class `c`.
pub open spec fn fits(c: FieldClass, s: ShadowValue) -> bool {
    c == FieldClass::Optional || s is Maybe
}

/// The parsed values fit the plans: one each, of the right shape.
pub open spec fn well_shaped(plan: Seq<FieldPlan>, shadow: Seq<ShadowValue>) -> bool {
    &&& plan.len() == shadow.len()
    &&& forall|i: int| 0 <= i < plan.len() ==> fits(#[trigger] plan[i].class, shadow[i])
}

/// The field is asked for: it is required and the arguments left it out.
pub open spec fn asks(p: FieldPlan, s: ShadowValue) -> bool {
    p.class == FieldClass::Required && s == ShadowValue::Maybe(None)
}

/// The prompts issued for the first `k` fields, in order.
pub open spec fn prompts_upto(plan: Seq<FieldPlan>, shadow: Seq<ShadowValue>, k: int) -> Seq<
    Seq<char>,
>
    decreases k,
{
    if k <= 0 {
        seq![]
    } else {
        let before = prompts_upto(plan, shadow, k - 1);
        if asks(plan[k - 1], shadow[k - 1]) {
            before.push(plan[k - 1].prompt@)
        } else {
            before
        }
    }
}

/// The prompts issued for all the fields, in order.
pub open spec fn prompts_of(plan: Seq<FieldPlan>, shadow: Seq<ShadowValue>) -> Seq<Seq<char>> {
    prompts_upto(plan, shadow, plan.len() as int)
}

/// The final value of a field with plan `p` and parsed value `s`, where
/// `answers[j]` is the answer to its prompt if it has one.
pub open spec fn value_of(p: FieldPlan, s: ShadowValue, answers: Seq<String>, j: int) -> FieldValue {
    if p.class == FieldClass::Optional {
        match s {
            ShadowValue::Flag(b) => FieldValue::Flag(b),
            ShadowValue::Maybe(o) => FieldValue::Maybe(o),
        }
    } else {
        match s {
            ShadowValue::Maybe(Some(v)) => FieldValue::Given(v),
            _ => FieldValue::Given(answers[j]),
        }
    }
}

/// The final value of field `i`: the answers are taken in prompt order.
pub open spec fn final_value(
    plan: Seq<FieldPlan>,
    shadow: Seq<ShadowValue>,
    answers: Seq<String>,
    i: int,
) -> FieldValue {
    value_of(plan[i], shadow[i], answers, prompts_upto(plan, shadow, i).len() as int)
}

/// The plan of one field: its name, its class and its prompt text.
pub fn plan_field(f: &Field) -> (r: FieldPlan)
    ensures
        plans(r, *f),
{
    FieldPlan { name: f.name.clone(), class: classify(&f.ty), prompt: resolve_prompt(f) }
}

/// The constructor of struct `name` with fields `fields`.
pub fn plan_constructor(name: &String, fields: &Vec<Field>) -> (r: Constructor)
    ensures
        r.struct_name == *name,
        r.shadow_name@ == name@ + shadow_suffix(),
        plans_all(r.fields@, fields@),
{
    let mut out: Vec<FieldPlan> = Vec::new();
    let mut i: usize = 0;
    while i < fields.len()
        invariant
            i <= fields@.len(),
            plans_all(out@, fields@.subrange(0, i as int)),
        decreases fields@.len() - i,
    {
        out.push(plan_field(&fields[i]));
        i = i + 1;
    }
    assert(fields@.subrange(0, fields@.len() as int) =~= fields@);
    Constructor { struct_name: name.clone(), shadow_name: shadow_struct_name(name), fields: out }
}

/// The characters of each string.
pub open spec fn texts(v: Seq<String>) -> Seq<Seq<char>> {
    v.map_values(|s: String| s@)
}

/// No more prompts are issued for a prefix than for a longer one.
pub proof fn lemma_prompts_grow(plan: Seq<FieldPlan>, shadow: Seq<ShadowValue>, k: int, n: int)
    requires
        k <= n,
    ensures
        prompts_upto(plan, shadow, k).len() <= prompts_upto(plan, shadow, n).len(),
    decreases n - k,
{
    if k < n {
        lemma_prompts_grow(plan, shadow, k, n - 1);
    }
}

/// Whether the field is asked for, given its plan and its parsed value.
fn is_asked(p: &FieldPlan, s: &ShadowValue) -> (r: bool)
    ensures
        r == asks(*p, *s),
{
    match s {
        ShadowValue::Maybe(None) => p.class == FieldClass::Required,
        _ => false,
    }
}

/// The prompts to issue, in declaration order: one for each required field
/// that the arguments left out, and none for any other field.
pub fn prompts_needed(plan: &Constructor, shadow: &Vec<ShadowValue>) -> (r: Result<
    Vec<String>,
    ReconcileError,
>)
    ensures
        r is Ok <==> plan.fields@.len() == shadow@.len(),
        r matches Ok(v) ==> texts(v@) == prompts_of(plan.fields@, shadow@),
        r matches Err(e) ==> e == ReconcileError::LengthMismatch,
{
    let n = plan.fields.len();
    if n != shadow.len() {
        return Err(ReconcileError::LengthMismatch);
    }
    let mut out: Vec<String> = Vec::new();
    let mut i: usize = 0;
    while i < n
        invariant
            n == plan.fields@.len(),
            n == shadow@.len(),
            i <= n,
            texts(out@) == prompts_upto(plan.fields@, shadow@, i as int),
        decreases n - i,
    {
        let p = &plan.fields[i];
        if is_asked(p, &shadow[i]) {
            let ghost before = out@;
            out.push(p.prompt.clone());
            assert(texts(out@) =~= texts(before).push(p.prompt@));
        }
        i = i + 1;
    }
    Ok(out)
}

/// Whether a parsed value can stand for a field of class `c`.
fn fits_class(c: FieldClass, s: &ShadowValue) -> (r: bool)
    ensures
        r == fits(c, *s),
{
    match s {
        ShadowValue::Maybe(_) => true,
        ShadowValue::Flag(_) => c == FieldClass::Optional,
    }
}

/// The final value of one field; `answers[j]` is the answer to its prompt.
fn settle(p: &FieldPlan, s: &ShadowValue, answers: &Vec<String>, j: usize) -> (r: FieldValue)
    requires
        fits(p.class, *s),
        asks(*p, *s) ==> j < answers@.len(),
    ensures
        r == value_of(*p, *s, answers@, j as int),
{
    match s {
        ShadowValue::Flag(b) => FieldValue::Flag(*b),
        ShadowValue::Maybe(o) => {
            let o2 = match o {
                Some(v) => Some(v.clone()),
                None => None,
            };
            if p.class == FieldClass::Optional {
                FieldValue::Maybe(o2)
            } else {
                match o2 {
                    Some(v) => FieldValue::Given(v),
                    None => FieldValue::Given(answers[j].clone()),
                }
            }
        },
    }
}

/// The constructed values, in declaration order: an optional field keeps its
/// parsed value; a required field takes its parsed value when there is one,
/// else the next answer, the answers being given in the order of
/// `prompts_needed`.
pub fn reconcile(plan: &Constructor, shadow: &Vec<ShadowValue>, answers: &Vec<String>) -> (r:
    Result<Vec<FieldValue>, ReconcileError>)
    ensures
        r is Ok <==> well_shaped(plan.fields@, shadow@) && answers@.len() == prompts_of(
            plan.fields@,
            shadow@,
        ).len(),
        r == Err::<Vec<FieldValue>, ReconcileError>(ReconcileError::LengthMismatch) <==> plan.fields@.len()
            != shadow@.len(),
        r == Err::<Vec<FieldValue>, ReconcileError>(ReconcileError::ShapeMismatch) <==> plan.fields@.len()
            == shadow@.len() && !well_shaped(plan.fields@, shadow@),
        r == Err::<Vec<FieldValue>, ReconcileError>(ReconcileError::AnswerCount) <==> well_shaped(
            plan.fields@,
            shadow@,
        ) && answers@.len() != prompts_of(plan.fields@, shadow@).len(),
        r matches Ok(v) ==> v@.len() == plan.fields@.len() && forall|i: int|
            0 <= i < v@.len() ==> v@[i] == final_value(plan.fields@, shadow@, answers@, i),
{
    let n = plan.fields.len();
    if n != shadow.len() {
        return Err(ReconcileError::LengthMismatch);
    }
    let mut i: usize = 0;
    while i < n
        invariant
            n == plan.fields@.len(),
            n == shadow@.len(),
            i <= n,
            forall|k: int| 0 <= k < i ==> fits(#[trigger] plan.fields@[k].class, shadow@[k]),
        decreases n - i,
    {
        if !fits_class(plan.fields[i].class, &shadow[i]) {
            return Err(ReconcileError::ShapeMismatch);
        }
        i = i + 1;
    }
    let count = match prompts_needed(plan, shadow) {
        Ok(v) => v.len(),
        Err(e) => return Err(e),
    };
    let na = answers.len();
    if na != count {
        return Err(ReconcileError::AnswerCount);
    }
    let mut out: Vec<FieldValue> = Vec::new();
    let mut j: usize = 0;
    i = 0;
    while i < n
        invariant
            n == plan.fields@.len(),
            n == shadow@.len(),
            i <= n,
            well_shaped(plan.fields@, shadow@),
            answers@.len() == prompts_of(plan.fields@, shadow@).len(),
            na == answers@.len(),
            j == prompts_upto(plan.fields@, shadow@, i as int).len(),
            out@.len() == i,
            forall|k: int|
                0 <= k < i ==> out@[k] == final_value(plan.fields@, shadow@, answers@, k),
        decreases n - i,
    {
        proof {
            lemma_prompts_grow(plan.fields@, shadow@, i + 1, n as int);
        }
        let v = settle(&plan.fields[i], &shadow[i], answers, j);
        out.push(v);
        if is_asked(&plan.fields[i], &shadow[i]) {
            assert(prompts_upto(plan.fields@, shadow@, i + 1).len() == j + 1);
            j = j + 1;
        }
        i = i + 1;
    }
    Ok(out)
}

} // verus!
