use builder::{
    AttrToken, Attribute, BuilderContext, DeclData, FieldDecl, GenError, Strategy, TypeArg,
    TypeDeclaration, TypeExpr, builder_of, classify, each_literal, expand, get_inner_type, validate,
};

fn path_type(text: &str, segments: &[&str], args: Option<Vec<TypeArg>>) -> TypeExpr {
    TypeExpr {
        text: text.to_string(),
        segments: segments.iter().map(|s| s.to_string()).collect(),
        args,
    }
}

fn plain(name: &str) -> TypeExpr {
    path_type(name, &[name], None)
}

fn wrapped(outer: &str, inner: &str) -> TypeExpr {
    path_type(
        &format!("{}<{}>", outer, inner),
        &[outer],
        Some(vec![TypeArg::Type(plain(inner))]),
    )
}

fn each_attr(value: &str) -> Attribute {
    Attribute {
        path: vec!["builder".to_string()],
        body: Some(vec![
            AttrToken::Ident("each".to_string()),
            AttrToken::Punct('='),
            AttrToken::Str(value.to_string()),
        ]),
    }
}

fn field(name: &str, ty: TypeExpr, attrs: Vec<Attribute>) -> FieldDecl {
    FieldDecl { name: name.to_string(), ty, attrs }
}

fn record(name: &str, fields: Vec<FieldDecl>) -> TypeDeclaration {
    TypeDeclaration { name: name.to_string(), data: DeclData::Named(fields) }
}

#[test]
fn inner_type_of_option() {
    let ty = wrapped("Option", "String");
    let inner = get_inner_type(&ty, &"Option".to_string());
    assert_eq!(inner.map(|t| t.text.clone()), Some("String".to_string()));
}

#[test]
fn inner_type_other_wrapper_is_none() {
    let ty = wrapped("Vec", "String");
    assert!(get_inner_type(&ty, &"Option".to_string()).is_none());
    assert!(get_inner_type(&ty, &"RepeatableCollection".to_string()).is_none());
    assert_eq!(
        get_inner_type(&ty, &"Vec".to_string()).map(|t| t.text.clone()),
        Some("String".to_string())
    );
}

#[test]
fn inner_type_rejects_other_shapes() {
    let name = "Option".to_string();
    assert!(get_inner_type(&plain("Option"), &name).is_none());
    let qualified = path_type(
        "std::option::Option<String>",
        &["std", "option", "Option"],
        Some(vec![TypeArg::Type(plain("String"))]),
    );
    assert!(get_inner_type(&qualified, &name).is_none());
    let two = path_type(
        "Option<A, B>",
        &["Option"],
        Some(vec![TypeArg::Type(plain("A")), TypeArg::Type(plain("B"))]),
    );
    assert!(get_inner_type(&two, &name).is_none());
    let none = path_type("Option<>", &["Option"], Some(vec![]));
    assert!(get_inner_type(&none, &name).is_none());
    let lifetime = path_type("Option<'a>", &["Option"], Some(vec![TypeArg::Other("'a".to_string())]));
    assert!(get_inner_type(&lifetime, &name).is_none());
    let reference = path_type("&str", &[], None);
    assert!(get_inner_type(&reference, &name).is_none());
}

#[test]
fn directive_each_is_read() {
    let f = field("args", wrapped("Vec", "String"), vec![each_attr("arg")]);
    let d = validate(&f).ok().unwrap();
    assert_eq!(d.each, Some("arg".to_string()));
}

#[test]
fn directive_absent_is_empty() {
    let doc = Attribute { path: vec!["doc".to_string()], body: None };
    let f = field("executable", plain("String"), vec![doc]);
    assert!(builder_of(&f).is_none());
    assert_eq!(validate(&f).ok().unwrap().each, None);
}

#[test]
fn directive_literal_is_trimmed_identifier() {
    let f = field("args", wrapped("Vec", "String"), vec![each_attr(" arg ")]);
    assert_eq!(validate(&f).ok().unwrap().each, Some("arg".to_string()));
}

#[test]
fn directive_rejects_unknown_key() {
    let attr = Attribute {
        path: vec!["builder".to_string()],
        body: Some(vec![
            AttrToken::Ident("eac".to_string()),
            AttrToken::Punct('='),
            AttrToken::Str("arg".to_string()),
        ]),
    };
    let f = field("args", wrapped("Vec", "String"), vec![attr]);
    assert!(validate(&f).is_err());
}

#[test]
fn directive_rejects_missing_value() {
    let attr = Attribute {
        path: vec!["builder".to_string()],
        body: Some(vec![AttrToken::Ident("each".to_string())]),
    };
    let f = field("args", wrapped("Vec", "String"), vec![attr]);
    assert!(validate(&f).is_err());
    let bare = Attribute { path: vec!["builder".to_string()], body: None };
    let g = field("args", wrapped("Vec", "String"), vec![bare]);
    assert!(validate(&g).is_err());
}

#[test]
fn directive_rejects_non_string_and_non_identifier() {
    let attr = Attribute {
        path: vec!["builder".to_string()],
        body: Some(vec![
            AttrToken::Ident("each".to_string()),
            AttrToken::Punct('='),
            AttrToken::Other("5".to_string()),
        ]),
    };
    assert!(each_literal(attr.body.as_ref().unwrap()).is_none());
    let f = field("args", wrapped("Vec", "String"), vec![attr]);
    assert!(validate(&f).is_err());
    for bad in ["fn", "two words", "", "_", "1x"] {
        let g = field("args", wrapped("Vec", "String"), vec![each_attr(bad)]);
        assert!(validate(&g).is_err(), "{:?}", bad);
    }
}

#[test]
fn directive_accepts_trailing_comma() {
    let mut attr = each_attr("arg");
    attr.body.as_mut().unwrap().push(AttrToken::Punct(','));
    let f = field("args", wrapped("Vec", "String"), vec![attr]);
    assert_eq!(validate(&f).ok().unwrap().each, Some("arg".to_string()));
    let mut twice = each_attr("arg");
    twice.body.as_mut().unwrap().push(AttrToken::Punct(','));
    twice.body.as_mut().unwrap().push(AttrToken::Punct(','));
    let g = field("args", wrapped("Vec", "String"), vec![twice]);
    assert!(validate(&g).is_err());
}

#[test]
fn directive_accepts_non_ascii_name() {
    let f = field("args", wrapped("Vec", "String"), vec![each_attr("\u{e9}l\u{e9}ment")]);
    assert_eq!(validate(&f).ok().unwrap().each, Some("\u{e9}l\u{e9}ment".to_string()));
    let d = record("Command", vec![field("args", wrapped("Vec", "String"), vec![each_attr("\u{e9}")])]);
    let text = expand(d).ok().unwrap();
    assert!(text.contains("pub fn \u{e9}(&mut self"));
}

#[test]
fn bad_directive_names_its_attribute() {
    let doc = Attribute { path: vec!["doc".to_string()], body: None };
    let bad = Attribute {
        path: vec!["builder".to_string()],
        body: Some(vec![AttrToken::Ident("nope".to_string())]),
    };
    let d = record("Command", vec![field("args", wrapped("Vec", "String"), vec![doc, bad])]);
    assert_eq!(
        BuilderContext::new(d).err(),
        Some(GenError::BadDirective { field: 0, attr: 1 })
    );
}

#[test]
fn classify_strategies() {
    let each = validate(&field("a", plain("A"), vec![each_attr("item")])).ok().unwrap();
    let none = validate(&field("a", plain("A"), vec![])).ok().unwrap();
    let opt = classify(&field("o", wrapped("Option", "u8"), vec![]), none.clone());
    assert_eq!(opt.strategy, Strategy::Optional { inner: "u8".to_string() });
    let rep = classify(&field("v", wrapped("Vec", "u8"), vec![]), each.clone());
    assert_eq!(
        rep.strategy,
        Strategy::Repeatable { elem: "u8".to_string(), each: "item".to_string() }
    );
    let vec_plain = classify(&field("v", wrapped("Vec", "u8"), vec![]), none.clone());
    assert_eq!(vec_plain.strategy, Strategy::Required);
    let opt_each = classify(&field("o", wrapped("Option", "u8"), vec![]), each);
    assert_eq!(opt_each.strategy, Strategy::Optional { inner: "u8".to_string() });
    let req = classify(&field("s", plain("String"), vec![]), none);
    assert_eq!(req.strategy, Strategy::Required);
    assert_eq!(req.ty, "String".to_string());
}

#[test]
fn unsupported_shape_is_rejected() {
    for data in [DeclData::Tuple, DeclData::Unit, DeclData::Enum, DeclData::Union] {
        let d = TypeDeclaration { name: "Command".to_string(), data };
        assert_eq!(BuilderContext::new(d).err(), Some(GenError::UnsupportedShape));
    }
    assert_eq!(
        GenError::UnsupportedShape.message(),
        "expected a struct with named fields".to_string()
    );
}

#[test]
fn first_bad_directive_is_reported() {
    let bad = || Attribute {
        path: vec!["builder".to_string()],
        body: Some(vec![AttrToken::Ident("nope".to_string())]),
    };
    let d = record(
        "Command",
        vec![
            field("executable", plain("String"), vec![]),
            field("args", wrapped("Vec", "String"), vec![bad()]),
            field("env", wrapped("Vec", "String"), vec![bad()]),
        ],
    );
    let e = BuilderContext::new(d).err().unwrap();
    assert_eq!(e, GenError::BadDirective { field: 1, attr: 0 });
    assert_eq!(e.message(), "expected \"each = \\\"...\\\"\"".to_string());
}

#[test]
fn repeatable_field_gets_each_setter() {
    let d = record("Command", vec![field("args", wrapped("Vec", "String"), vec![each_attr("arg")])]);
    let text = expand(d).ok().unwrap();
    assert!(text.contains("pub fn arg(&mut self, v: impl ::std::convert::Into<String>) -> &mut Self"));
    assert!(!text.contains("pub fn args("));
    assert!(text.contains("args: ::std::option::Option<Vec<String>>,"));
    assert!(text.contains("args: self.args.take().unwrap_or_default(),"));
}

#[test]
fn required_field_text_names_field() {
    let d = record("Command", vec![field("executable", plain("String"), vec![])]);
    let text = expand(d).ok().unwrap();
    assert!(text.contains("executable: self.executable.take().ok_or(\"executable needs to be set!\")?,"));
}

#[test]
fn generated_text_exact() {
    let d = record(
        "Cmd",
        vec![
            field("exe", plain("String"), vec![]),
            field("cwd", wrapped("Option", "String"), vec![]),
        ],
    );
    let text = expand(d).ok().unwrap();
    let expected = "#[derive(Debug, Default)]\n\
pub struct CmdBuilder {\n\
\x20   exe: ::std::option::Option<String>,\n\
\x20   cwd: Option<String>,\n\
}\n\
\n\
impl CmdBuilder {\n\
\x20   pub fn exe(&mut self, v: impl ::std::convert::Into<String>) -> &mut Self {\n\
\x20       self.exe = ::std::option::Option::Some(v.into());\n\
\x20       self\n\
\x20   }\n\
\x20   pub fn cwd(&mut self, v: impl ::std::convert::Into<String>) -> &mut Self {\n\
\x20       self.cwd = ::std::option::Option::Some(v.into());\n\
\x20       self\n\
\x20   }\n\
\n\
\x20   pub fn build(&mut self) -> ::std::result::Result<Cmd, &'static str> {\n\
\x20       ::std::result::Result::Ok(Cmd {\n\
\x20           exe: self.exe.take().ok_or(\"exe needs to be set!\")?,\n\
\x20           cwd: self.cwd.take(),\n\
\x20       })\n\
\x20   }\n\
}\n\
\n\
impl Cmd {\n\
\x20   pub fn builder() -> CmdBuilder {\n\
\x20       ::std::default::Default::default()\n\
\x20   }\n\
}\n";
    assert_eq!(text, expected);
}

#[test]
fn generation_is_deterministic() {
    let make = || {
        record(
            "Command",
            vec![
                field("executable", plain("String"), vec![]),
                field("args", wrapped("Vec", "String"), vec![each_attr("arg")]),
                field("current_dir", wrapped("Option", "String"), vec![]),
            ],
        )
    };
    let a = BuilderContext::new(make()).ok().unwrap();
    let b = BuilderContext::new(make()).ok().unwrap();
    assert_eq!(a.generate(), b.generate());
    assert_eq!(a.generate(), a.generate());
    assert_eq!(expand(make()).ok().unwrap(), a.generate());
}

#[test]
fn empty_record_generates_builder() {
    let text = expand(record("Empty", vec![])).ok().unwrap();
    assert!(text.contains("pub struct EmptyBuilder {\n}"));
    assert!(text.contains("::std::result::Result::Ok(Empty {\n        })"));
}
