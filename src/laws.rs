//! Properties of the generated code, over the models that the functions'
//! contracts use.

use crate::classify::{bool_shaped, option_shaped, FieldClass};
use crate::decl::{parser_attr, parser_attrs, prompt_form, Attr, Field};
use crate::reconcile::{
    asks, final_value, plans_all, prompts_of, prompts_upto, FieldPlan, FieldValue, ShadowValue,
};
use crate::shadow::{shadows_all, ShadowField};
use vstd::prelude::*;

verus! {

/// No field before `k` is asked for, so no prompt is issued for them.
proof fn lemma_no_prompts_before(plan: Seq<FieldPlan>, shadow: Seq<ShadowValue>, k: int)
    requires
        forall|i: int| 0 <= i < k ==> !asks(#[trigger] plan[i], shadow[i]),
    ensures
        prompts_upto(plan, shadow, k) == Seq::<Seq<char>>::empty(),
    decreases k,
{
    if k > 0 {
        lemma_no_prompts_before(plan, shadow, k - 1);
    }
}

/// Only field `m` is asked for: from `m + 1` on, its prompt is the one issued.
proof fn lemma_only_prompt(plan: Seq<FieldPlan>, shadow: Seq<ShadowValue>, m: int, k: int)
    requires
        0 <= m < k,
        asks(plan[m], shadow[m]),
        forall|i: int| 0 <= i < k && i != m ==> !asks(#[trigger] plan[i], shadow[i]),
    ensures
        prompts_upto(plan, shadow, k) == seq![plan[m].prompt@],
    decreases k,
{
    if k == m + 1 {
        lemma_no_prompts_before(plan, shadow, m);
        assert(prompts_upto(plan, shadow, k) =~= seq![plan[m].prompt@]);
    } else {
        lemma_only_prompt(plan, shadow, m, k - 1);
    }
}

/// When every field is required and every one is given in the arguments, no
/// prompt is issued and each field's value is the given one.
pub proof fn law_all_supplied(plan: Seq<FieldPlan>, shadow: Seq<ShadowValue>, answers: Seq<String>)
    requires
        plan.len() == shadow.len(),
        forall|i: int| 0 <= i < plan.len() ==> #[trigger] plan[i].class == FieldClass::Required,
        forall|i: int| 0 <= i < shadow.len() ==> #[trigger] shadow[i] matches ShadowValue::Maybe(Some(_)),
    ensures
        prompts_of(plan, shadow) == Seq::<Seq<char>>::empty(),
        forall|i: int|
            0 <= i < plan.len() ==> final_value(plan, shadow, answers, i) == FieldValue::Given(
                #[trigger] shadow[i]->Maybe_0->Some_0,
            ),
{
    lemma_no_prompts_before(plan, shadow, plan.len() as int);
}

/// When every field is required and exactly field `m` is left out of the
/// arguments, exactly one prompt is issued, with field `m`'s prompt text;
/// field `m` takes the answer and every other field its given value.
pub proof fn law_one_omitted(
    plan: Seq<FieldPlan>,
    shadow: Seq<ShadowValue>,
    answers: Seq<String>,
    m: int,
)
    requires
        plan.len() == shadow.len(),
        0 <= m < plan.len(),
        forall|i: int| 0 <= i < plan.len() ==> #[trigger] plan[i].class == FieldClass::Required,
        shadow[m] == ShadowValue::Maybe(None),
        forall|i: int|
            0 <= i < shadow.len() && i != m ==> #[trigger] shadow[i] matches ShadowValue::Maybe(
                Some(_),
            ),
    ensures
        prompts_of(plan, shadow) == seq![plan[m].prompt@],
        final_value(plan, shadow, answers, m) == FieldValue::Given(answers[0]),
        forall|i: int|
            0 <= i < plan.len() && i != m ==> final_value(plan, shadow, answers, i)
                == FieldValue::Given(#[trigger] shadow[i]->Maybe_0->Some_0),
{
    lemma_only_prompt(plan, shadow, m, plan.len() as int);
    lemma_no_prompts_before(plan, shadow, m);
}

/// A field declared `Option<T>` or `bool` is never asked for: it adds no
/// prompt, and when the arguments leave it out its value is `None`, or
/// `false`.
pub proof fn law_optional_never_asked(
    fields: Seq<Field>,
    plan: Seq<FieldPlan>,
    shadow: Seq<ShadowValue>,
    answers: Seq<String>,
    i: int,
)
    requires
        plans_all(plan, fields),
        0 <= i < plan.len(),
        option_shaped(fields[i].ty) || bool_shaped(fields[i].ty),
    ensures
        !asks(plan[i], shadow[i]),
        prompts_upto(plan, shadow, i + 1) == prompts_upto(plan, shadow, i),
        shadow[i] == ShadowValue::Maybe(None) ==> final_value(plan, shadow, answers, i)
            == FieldValue::Maybe(None),
        shadow[i] == ShadowValue::Flag(false) ==> final_value(plan, shadow, answers, i)
            == FieldValue::Flag(false),
{
    assert(plan[i].class == FieldClass::Optional);
}

/// The shadow type's fields carry the declaration's field names in the
/// declaration's order.
pub proof fn law_field_order(shadow_fields: Seq<ShadowField>, fields: Seq<Field>)
    requires
        shadows_all(shadow_fields, fields),
    ensures
        shadow_fields.map_values(|f: ShadowField| f.name) == fields.map_values(|f: Field| f.name),
{
    assert(shadow_fields.map_values(|f: ShadowField| f.name) =~= fields.map_values(
        |f: Field| f.name,
    ));
}

/// The attributes passed to the shadow type are the argument parser's own,
/// taken unchanged from the annotated struct: every one of them is passed, and a
/// `prompt` attribute never is.
pub proof fn law_parser_attrs_passed(attrs: Seq<Attr>)
    ensures
        forall|a: Attr| #[trigger] parser_attrs(attrs).contains(a) ==> attrs.contains(a)
            && parser_attr(a) && !prompt_form(a),
        forall|i: int|
            0 <= i < attrs.len() && parser_attr(#[trigger] attrs[i]) ==> parser_attrs(
                attrs,
            ).contains(attrs[i]),
    decreases attrs.len(),
{
    reveal_strlit("prompt");
    reveal_strlit("arg");
    reveal_strlit("clap");
    reveal_strlit("command");
    reveal_strlit("doc");
    assert("prompt"@.len() != "arg"@.len() && "prompt"@.len() != "clap"@.len());
    assert("prompt"@.len() != "doc"@.len() && "prompt"@[1] != "command"@[1]);
    if attrs.len() > 0 {
        let init = attrs.drop_last();
        law_parser_attrs_passed(init);
        assert forall|a: Attr| #[trigger] parser_attrs(attrs).contains(a) implies attrs.contains(a)
            && parser_attr(a) && !prompt_form(a) by {
            if parser_attrs(init).contains(a) {
                let j = choose|j: int| 0 <= j < init.len() && init[j] == a;
                assert(attrs[j] == a);
            } else {
                assert(a == attrs.last());
                assert(attrs[attrs.len() - 1] == a);
            }
        }
        assert forall|i: int|
            0 <= i < attrs.len() && parser_attr(#[trigger] attrs[i]) implies parser_attrs(
                attrs,
            ).contains(attrs[i]) by {
            if i < attrs.len() - 1 {
                assert(init[i] == attrs[i]);
                let j = choose|j: int| 0 <= j < parser_attrs(init).len() && parser_attrs(init)[j]
                    == init[i];
                if parser_attr(attrs.last()) {
                    assert(parser_attrs(attrs)[j] == attrs[i]);
                }
            } else {
                let r = parser_attrs(attrs);
                assert(r[r.len() - 1] == attrs[i]);
            }
        }
    }
}

} // verus!
