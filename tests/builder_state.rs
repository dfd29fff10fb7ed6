use builder::{
    AttrToken, Attribute, BuilderContext, BuilderState, DeclData, FieldDecl, FieldValue, SlotKind,
    TypeArg, TypeDeclaration, TypeExpr,
};

fn plain(name: &str) -> TypeExpr {
    TypeExpr { text: name.to_string(), segments: vec![name.to_string()], args: None }
}

fn wrapped(outer: &str, inner: &str) -> TypeExpr {
    TypeExpr {
        text: format!("{}<{}>", outer, inner),
        segments: vec![outer.to_string()],
        args: Some(vec![TypeArg::Type(plain(inner))]),
    }
}

fn state_for(fields: Vec<FieldDecl>) -> BuilderState<String> {
    let d = TypeDeclaration { name: "Command".to_string(), data: DeclData::Named(fields) };
    let c = BuilderContext::new(d).ok().unwrap();
    BuilderState::new(c.slot_kinds())
}

fn field(name: &str, ty: TypeExpr, attrs: Vec<Attribute>) -> FieldDecl {
    FieldDecl { name: name.to_string(), ty, attrs }
}

fn each_attr(value: &str) -> Attribute {
    Attribute {
        path: vec!["builder".to_string()],
        body: Some(vec![
            AttrToken::Ident("each".to_string()),
            AttrToken::Punct('='),
            AttrToken::Str(value.to_string()),
        ]),
    }
}

#[test]
fn each_setter_collects_in_order() {
    let mut s = state_for(vec![field("args", wrapped("Vec", "String"), vec![each_attr("arg")])]);
    assert_eq!(s.kind(0), SlotKind::Repeatable);
    s.push(0, "ls".to_string());
    s.push(0, "-l".to_string());
    let vals = s.build().ok().unwrap();
    assert_eq!(vals, vec![FieldValue::Items(vec!["ls".to_string(), "-l".to_string()])]);
}

#[test]
fn untouched_repeatable_is_empty() {
    let mut s = state_for(vec![field("args", wrapped("Vec", "String"), vec![each_attr("arg")])]);
    assert_eq!(s.build().ok().unwrap(), vec![FieldValue::Items(vec![])]);
}

#[test]
fn unset_required_names_field() {
    let mut s = state_for(vec![field("executable", plain("String"), vec![])]);
    assert_eq!(s.kind(0), SlotKind::Required);
    assert_eq!(s.build().err(), Some(0));
}

#[test]
fn first_unset_required_wins() {
    let mut s = state_for(vec![
        field("current_dir", wrapped("Option", "String"), vec![]),
        field("executable", plain("String"), vec![]),
        field("env", plain("String"), vec![]),
    ]);
    assert_eq!(s.len(), 3);
    assert_eq!(s.build().err(), Some(1));
    let mut t = state_for(vec![
        field("executable", plain("String"), vec![]),
        field("env", plain("String"), vec![]),
    ]);
    t.set(0, "ls".to_string());
    assert_eq!(t.build().err(), Some(1));
}

#[test]
fn unset_optional_is_none() {
    let mut s = state_for(vec![field("current_dir", wrapped("Option", "String"), vec![])]);
    assert_eq!(s.build().ok().unwrap(), vec![FieldValue::Optional(None)]);
}

#[test]
fn required_round_trip() {
    let mut s = state_for(vec![
        field("executable", plain("String"), vec![]),
        field("current_dir", wrapped("Option", "String"), vec![]),
    ]);
    s.set(0, "cargo".to_string());
    s.set(0, "ls".to_string());
    s.set(1, "/tmp".to_string());
    let vals = s.build().ok().unwrap();
    assert_eq!(
        vals,
        vec![FieldValue::Value("ls".to_string()), FieldValue::Optional(Some("/tmp".to_string()))]
    );
}

#[test]
fn build_takes_the_slots() {
    let mut s = state_for(vec![
        field("executable", plain("String"), vec![]),
        field("args", wrapped("Vec", "String"), vec![each_attr("arg")]),
    ]);
    s.set(0, "ls".to_string());
    s.push(1, "-l".to_string());
    assert!(s.build().is_ok());
    assert_eq!(s.build().err(), Some(0));
    s.set(0, "ls".to_string());
    assert_eq!(
        s.build().ok().unwrap(),
        vec![FieldValue::Value("ls".to_string()), FieldValue::Items(vec![])]
    );
}

#[test]
fn vec_without_each_is_required() {
    let mut s = state_for(vec![field("args", wrapped("Vec", "String"), vec![])]);
    assert_eq!(s.kind(0), SlotKind::Required);
    assert_eq!(s.build().err(), Some(0));
}
