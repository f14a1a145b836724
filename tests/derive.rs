use dialoguer_parser::classify::{classify, is_bool_type, is_option_type, FieldClass};
use dialoguer_parser::decl::{
    get_prompt, is_clap_attr, resolve_prompt, Attr, AttrMeta, Decl, DeclKind, Field, Fields,
    GenericArgs, Segment, TypeExpr,
};
use dialoguer_parser::reconcile::{
    prompts_needed, reconcile, Constructor, FieldValue, ReconcileError, ShadowValue,
};
use dialoguer_parser::shadow::ShadowTy;
use dialoguer_parser::{dialoguer_parser_derive, DeriveError};

fn path_ty(segs: &[(&str, GenericArgs)], text: &str) -> TypeExpr {
    let mut segments = Vec::new();
    for (ident, args) in segs {
        let args = match args {
            GenericArgs::Absent => GenericArgs::Absent,
            GenericArgs::AngleBracketed(n) => GenericArgs::AngleBracketed(*n),
            GenericArgs::Parenthesized => GenericArgs::Parenthesized,
        };
        segments.push(Segment { ident: ident.to_string(), args });
    }
    TypeExpr::Path { qself: false, segments, text: text.to_string() }
}

fn plain(name: &str) -> TypeExpr {
    path_ty(&[(name, GenericArgs::Absent)], name)
}

fn option_of(inner: &str) -> TypeExpr {
    path_ty(&[("Option", GenericArgs::AngleBracketed(1))], &format!("Option<{}>", inner))
}

fn list_attr(ident: &str, text: &str) -> Attr {
    Attr { ident: Some(ident.to_string()), meta: AttrMeta::List, text: text.to_string() }
}

fn prompt_attr(value: &str) -> Attr {
    Attr {
        ident: Some("prompt".to_string()),
        meta: AttrMeta::NameValueStr(value.to_string()),
        text: format!("#[prompt = {:?}]", value),
    }
}

fn field(name: &str, ty: TypeExpr, prompt: Option<&str>) -> Field {
    let mut attrs = vec![list_attr("arg", "#[arg(short, long)]")];
    if let Some(p) = prompt {
        attrs.push(prompt_attr(p));
    }
    Field { name: name.to_string(), ty, attrs }
}

fn cli(fields: Vec<Field>) -> Decl {
    Decl {
        name: "Cli".to_string(),
        attrs: vec![list_attr("command", "#[command(name = \"myapp\", version = \"1.0\")]")],
        kind: DeclKind::Struct(Fields::Named(fields)),
    }
}

fn constructor_of(decl: Decl) -> Constructor {
    dialoguer_parser_derive(decl).unwrap().constructor
}

fn given(s: &str) -> FieldValue {
    FieldValue::Given(s.to_string())
}

fn some(s: &str) -> ShadowValue {
    ShadowValue::Maybe(Some(s.to_string()))
}

#[test]
fn name_and_age_prompts_only_for_age() {
    let c = constructor_of(cli(vec![
        field("name", plain("String"), Some("What is your name?")),
        field("age", plain("u32"), Some("How old are you?")),
    ]));
    let shadow = vec![some("Alice"), ShadowValue::Maybe(None)];
    assert_eq!(prompts_needed(&c, &shadow), Ok(vec!["How old are you?".to_string()]));
    let values = reconcile(&c, &shadow, &vec!["42".to_string()]).unwrap();
    assert_eq!(values, vec![given("Alice"), given("42")]);
}

#[test]
fn name_and_flag_without_arguments() {
    let c = constructor_of(cli(vec![
        field("name", plain("String"), Some("What is your name?")),
        field("stderr", plain("bool"), None),
    ]));
    let shadow = vec![ShadowValue::Maybe(None), ShadowValue::Flag(false)];
    assert_eq!(prompts_needed(&c, &shadow), Ok(vec!["What is your name?".to_string()]));
    let values = reconcile(&c, &shadow, &vec!["Bob".to_string()]).unwrap();
    assert_eq!(values, vec![given("Bob"), FieldValue::Flag(false)]);
}

#[test]
fn both_arguments_given_no_prompt() {
    let c = constructor_of(cli(vec![
        field("arg1", plain("String"), Some("What is arg1 ?")),
        field("arg2", plain("bool"), None),
    ]));
    let shadow = vec![some("hello"), ShadowValue::Flag(true)];
    assert_eq!(prompts_needed(&c, &shadow), Ok(vec![]));
    let values = reconcile(&c, &shadow, &vec![]).unwrap();
    assert_eq!(values, vec![given("hello"), FieldValue::Flag(true)]);
}

#[test]
fn all_required_all_supplied() {
    let c = constructor_of(cli(vec![
        field("a", plain("String"), None),
        field("b", plain("u32"), None),
        field("c", plain("u64"), Some("C?")),
    ]));
    let shadow = vec![some("x"), some("7"), some("9")];
    assert_eq!(prompts_needed(&c, &shadow), Ok(vec![]));
    assert_eq!(
        reconcile(&c, &shadow, &vec![]).unwrap(),
        vec![given("x"), given("7"), given("9")]
    );
}

#[test]
fn all_required_one_omitted() {
    let c = constructor_of(cli(vec![
        field("a", plain("String"), None),
        field("b", plain("u32"), None),
        field("c", plain("u64"), Some("C?")),
    ]));
    let shadow = vec![some("x"), ShadowValue::Maybe(None), some("9")];
    assert_eq!(prompts_needed(&c, &shadow), Ok(vec!["Enter b".to_string()]));
    assert_eq!(
        reconcile(&c, &shadow, &vec!["5".to_string()]).unwrap(),
        vec![given("x"), given("5"), given("9")]
    );
}

#[test]
fn several_omitted_answers_taken_in_order() {
    let c = constructor_of(cli(vec![
        field("a", plain("String"), Some("A?")),
        field("b", plain("bool"), None),
        field("c", plain("u8"), None),
    ]));
    let shadow = vec![ShadowValue::Maybe(None), ShadowValue::Flag(false), ShadowValue::Maybe(None)];
    assert_eq!(
        prompts_needed(&c, &shadow),
        Ok(vec!["A?".to_string(), "Enter c".to_string()])
    );
    assert_eq!(
        reconcile(&c, &shadow, &vec!["first".to_string(), "second".to_string()]).unwrap(),
        vec![given("first"), FieldValue::Flag(false), given("second")]
    );
}

#[test]
fn omitted_optional_fields_stay_absent() {
    let c = constructor_of(cli(vec![
        field("out", option_of("String"), Some("never shown")),
        field("verbose", plain("bool"), None),
    ]));
    let shadow = vec![ShadowValue::Maybe(None), ShadowValue::Flag(false)];
    assert_eq!(prompts_needed(&c, &shadow), Ok(vec![]));
    assert_eq!(
        reconcile(&c, &shadow, &vec![]).unwrap(),
        vec![FieldValue::Maybe(None), FieldValue::Flag(false)]
    );
}

#[test]
fn supplied_optional_field_is_kept() {
    let c = constructor_of(cli(vec![field("out", option_of("String"), None)]));
    let shadow = vec![some("file.txt")];
    assert_eq!(
        reconcile(&c, &shadow, &vec![]).unwrap(),
        vec![FieldValue::Maybe(Some("file.txt".to_string()))]
    );
}

#[test]
fn reconcile_errors() {
    let c = constructor_of(cli(vec![
        field("name", plain("String"), None),
        field("flag", plain("bool"), None),
    ]));
    assert_eq!(reconcile(&c, &vec![some("x")], &vec![]), Err(ReconcileError::LengthMismatch));
    assert_eq!(prompts_needed(&c, &vec![some("x")]), Err(ReconcileError::LengthMismatch));
    assert_eq!(
        reconcile(&c, &vec![ShadowValue::Flag(true), ShadowValue::Flag(true)], &vec![]),
        Err(ReconcileError::ShapeMismatch)
    );
    assert_eq!(
        reconcile(&c, &vec![ShadowValue::Maybe(None), ShadowValue::Flag(true)], &vec![]),
        Err(ReconcileError::AnswerCount)
    );
    assert_eq!(
        reconcile(&c, &vec![some("x"), ShadowValue::Flag(true)], &vec!["extra".to_string()]),
        Err(ReconcileError::AnswerCount)
    );
}

#[test]
fn classify_required_and_optional_types() {
    assert_eq!(classify(&plain("String")), FieldClass::Required);
    assert_eq!(classify(&plain("u32")), FieldClass::Required);
    assert_eq!(classify(&option_of("u32")), FieldClass::Optional);
    assert_eq!(classify(&plain("bool")), FieldClass::Optional);
    let qualified = path_ty(
        &[("std", GenericArgs::Absent), ("option", GenericArgs::Absent), ("Option", GenericArgs::AngleBracketed(1))],
        "std::option::Option<u8>",
    );
    assert_eq!(classify(&qualified), FieldClass::Optional);
    let bare_option = plain("Option");
    assert!(!is_option_type(&bare_option));
    assert_eq!(classify(&bare_option), FieldClass::Required);
    let two_args = path_ty(&[("Option", GenericArgs::AngleBracketed(2))], "Option<A, B>");
    assert_eq!(classify(&two_args), FieldClass::Required);
    let paren = path_ty(&[("Option", GenericArgs::Parenthesized)], "Option(u8)");
    assert_eq!(classify(&paren), FieldClass::Required);
    let std_bool = path_ty(
        &[("std", GenericArgs::Absent), ("primitive", GenericArgs::Absent), ("bool", GenericArgs::Absent)],
        "std::primitive::bool",
    );
    assert!(!is_bool_type(&std_bool));
    assert_eq!(classify(&std_bool), FieldClass::Required);
    let mut qself_bool = plain("bool");
    if let TypeExpr::Path { qself, .. } = &mut qself_bool {
        *qself = true;
    }
    assert!(!is_bool_type(&qself_bool));
    let reference = TypeExpr::Other { text: "&'static str".to_string() };
    assert_eq!(classify(&reference), FieldClass::Required);
    assert!(is_bool_type(&plain("bool")));
    assert!(is_option_type(&option_of("String")));
}

#[test]
fn classify_twice_agrees() {
    for ty in [plain("String"), option_of("u8"), plain("bool"), plain("Vec")] {
        assert_eq!(classify(&ty), classify(&ty));
    }
}

#[test]
fn prompt_text_resolution() {
    assert_eq!(resolve_prompt(&field("name", plain("String"), Some("X"))), "X");
    assert_eq!(resolve_prompt(&field("age", plain("u32"), None)), "Enter age");
    let mut twice = field("city", plain("String"), Some("first"));
    twice.attrs.push(prompt_attr("second"));
    assert_eq!(resolve_prompt(&twice), "first");
    let mut odd = field("zip", plain("u32"), None);
    odd.attrs.insert(
        0,
        Attr { ident: Some("prompt".to_string()), meta: AttrMeta::NameValueOther, text: "#[prompt = 3]".to_string() },
    );
    assert_eq!(get_prompt(&odd.attrs), None);
    odd.attrs.push(prompt_attr("Zip code?"));
    assert_eq!(get_prompt(&odd.attrs), Some("Zip code?".to_string()));
}

#[test]
fn parser_attributes_are_recognized() {
    for tag in ["arg", "clap", "command", "doc"] {
        assert!(is_clap_attr(&list_attr(tag, "#[x]")));
    }
    assert!(!is_clap_attr(&prompt_attr("X")));
    assert!(!is_clap_attr(&list_attr("derive", "#[derive(Debug)]")));
    assert!(!is_clap_attr(&Attr { ident: None, meta: AttrMeta::List, text: "#[clap::arg]".to_string() }));
}

#[test]
fn shadow_type_of_cli() {
    let mut decl = cli(vec![
        field("name", plain("String"), Some("What is your name?")),
        field("stderr", plain("bool"), None),
        field("out", option_of("String"), None),
    ]);
    decl.attrs.push(list_attr("derive", "#[derive(Debug)]"));
    decl.attrs.push(Attr { ident: Some("doc".to_string()), meta: AttrMeta::NameValueStr("About".to_string()), text: "/// About".to_string() });
    let d = dialoguer_parser_derive(decl).unwrap();
    assert_eq!(d.shadow.name, "CliOptionals");
    assert_eq!(d.constructor.shadow_name, "CliOptionals");
    assert_eq!(d.constructor.struct_name, "Cli");
    let kept: Vec<&str> = d.shadow.attrs.iter().map(|a| a.text.as_str()).collect();
    assert_eq!(kept, vec!["#[command(name = \"myapp\", version = \"1.0\")]", "/// About"]);
    let f = &d.shadow.fields;
    assert_eq!(f.len(), 3);
    assert!(matches!(&f[0].ty, ShadowTy::Wrapped(TypeExpr::Path { text, .. }) if text == "String"));
    assert!(matches!(&f[1].ty, ShadowTy::Verbatim(TypeExpr::Path { text, .. }) if text == "bool"));
    assert!(matches!(&f[2].ty, ShadowTy::Verbatim(TypeExpr::Path { text, .. }) if text == "Option<String>"));
    for sf in f {
        let texts: Vec<&str> = sf.attrs.iter().map(|a| a.text.as_str()).collect();
        assert_eq!(texts, vec!["#[arg(short, long)]"]);
    }
    let plans: Vec<(&str, FieldClass, &str)> = d
        .constructor
        .fields
        .iter()
        .map(|p| (p.name.as_str(), p.class, p.prompt.as_str()))
        .collect();
    assert_eq!(
        plans,
        vec![
            ("name", FieldClass::Required, "What is your name?"),
            ("stderr", FieldClass::Optional, "Enter stderr"),
            ("out", FieldClass::Optional, "Enter out"),
        ]
    );
}

fn shadow_names(fields: Vec<Field>) -> Vec<String> {
    let d = dialoguer_parser_derive(cli(fields)).unwrap();
    d.shadow.fields.iter().map(|f| f.name.clone()).collect()
}

#[test]
fn shadow_field_order_follows_declaration() {
    assert_eq!(shadow_names(vec![field("only", plain("u8"), None)]), vec!["only"]);
    assert_eq!(
        shadow_names(vec![field("z", plain("bool"), None), field("a", plain("String"), None)]),
        vec!["z", "a"]
    );
    let five = vec![
        field("e", option_of("u8"), None),
        field("d", plain("String"), Some("D?")),
        field("c", plain("bool"), None),
        field("b", plain("u64"), None),
        field("a", option_of("String"), None),
        field("f", plain("i32"), None),
    ];
    assert_eq!(shadow_names(five), vec!["e", "d", "c", "b", "a", "f"]);
}

#[test]
fn derive_refuses_other_declarations() {
    let with_kind = |kind| Decl { name: "X".to_string(), attrs: vec![], kind };
    let e = dialoguer_parser_derive(with_kind(DeclKind::Enum)).unwrap_err();
    assert_eq!(e, DeriveError::NotAStruct);
    assert_eq!(e.message(), "DialoguerParser only supports structs");
    assert_eq!(dialoguer_parser_derive(with_kind(DeclKind::Union)).unwrap_err(), DeriveError::NotAStruct);
    let e = dialoguer_parser_derive(with_kind(DeclKind::Struct(Fields::Unnamed))).unwrap_err();
    assert_eq!(e, DeriveError::NotNamedFields);
    assert_eq!(e.message(), "DialoguerParser only supports structs with named fields");
    assert_eq!(
        dialoguer_parser_derive(with_kind(DeclKind::Struct(Fields::Unit))).unwrap_err(),
        DeriveError::NotNamedFields
    );
}

#[test]
fn empty_struct_derives() {
    let d = dialoguer_parser_derive(cli(vec![])).unwrap();
    assert!(d.shadow.fields.is_empty());
    assert_eq!(reconcile(&d.constructor, &vec![], &vec![]), Ok(vec![]));
}
