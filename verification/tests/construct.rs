use envconfgen::instance::resolve_value;
use envconfgen::{
    ConfigurationInstance, DeclKind, Declaration, Directive, Environment, FieldDecl, FieldSpec,
    RecordSpec, UnsupportedShape,
};

fn directive(name: &str, arguments: &str) -> Directive {
    Directive { name: Some(name.to_string()), arguments: Some(arguments.to_string()) }
}

fn field(name: &str, directives: Vec<Directive>) -> FieldDecl {
    FieldDecl { name: Some(name.to_string()), directives }
}

fn record(name: &str, fields: Vec<FieldDecl>) -> Declaration {
    Declaration { name: name.to_string(), kind: DeclKind::Struct, fields }
}

fn environment(pairs: &[(&str, &str)]) -> Environment {
    let mut env = Environment::new();
    for (name, value) in pairs {
        env.set(name.to_string(), value.to_string());
    }
    env
}

fn sample() -> Declaration {
    record(
        "Config",
        vec![
            field("test_var", vec![directive("var", "\"MY_TEST_VAR\"")]),
            field("database_url", vec![directive("default", "\"nothing\"")]),
        ],
    )
}

#[test]
fn sample_record_resolves_with_variable_set() {
    let schema = RecordSpec::parse(&sample()).unwrap();
    let env = environment(&[("MY_TEST_VAR", "hello")]);
    let config = ConfigurationInstance::construct(&schema, &env).unwrap();
    assert_eq!(config.get("test_var"), Some("hello"));
    assert_eq!(config.get("database_url"), Some("nothing"));
}

#[test]
fn sample_record_aborts_with_variable_unset() {
    let schema = RecordSpec::parse(&sample()).unwrap();
    let env = environment(&[("DATABASE_URL", "postgres://db")]);
    let failure = ConfigurationInstance::construct(&schema, &env).err().unwrap();
    assert_eq!(failure.variable, "MY_TEST_VAR");
    assert_eq!(failure.message(), "\x1B[0;31mMY_TEST_VAR not found in the environment.\x1B[0m");
}

#[test]
fn plain_fields_read_their_uppercased_names() {
    let decl = record("Plain", vec![field("host", vec![]), field("port", vec![]), field("user_name", vec![])]);
    let schema = RecordSpec::parse(&decl).unwrap();
    let env = environment(&[("PORT", "8080"), ("USER_NAME", " spaced \t"), ("HOST", "localhost"), ("host", "lower")]);
    let config = ConfigurationInstance::construct(&schema, &env).unwrap();
    assert_eq!(config.len(), 3);
    assert_eq!(config.value(0), "localhost");
    assert_eq!(config.value(1), "8080");
    assert_eq!(config.value(2), " spaced \t");
}

#[test]
fn var_directive_ignores_the_field_name() {
    let decl = record("R", vec![field("home", vec![directive("var", "\"X\"")])]);
    let schema = RecordSpec::parse(&decl).unwrap();
    let named_like_field = environment(&[("HOME", "/root"), ("home", "/lower")]);
    assert_eq!(ConfigurationInstance::construct(&schema, &named_like_field).err().unwrap().variable, "X");
    let both = environment(&[("HOME", "/root"), ("X", "from-x")]);
    assert_eq!(ConfigurationInstance::construct(&schema, &both).unwrap().value(0), "from-x");
}

#[test]
fn default_fills_an_unset_variable_only() {
    let decl = record("R", vec![field("level", vec![directive("default", "\"D\"")])]);
    let schema = RecordSpec::parse(&decl).unwrap();
    assert_eq!(ConfigurationInstance::construct(&schema, &Environment::new()).unwrap().value(0), "D");
    let set = environment(&[("LEVEL", "debug")]);
    assert_eq!(ConfigurationInstance::construct(&schema, &set).unwrap().value(0), "debug");
    let empty_value = environment(&[("LEVEL", "")]);
    assert_eq!(ConfigurationInstance::construct(&schema, &empty_value).unwrap().value(0), "");
}

#[test]
fn required_field_without_value_aborts() {
    let decl = record("R", vec![field("first", vec![]), field("token", vec![]), field("other", vec![])]);
    let schema = RecordSpec::parse(&decl).unwrap();
    let env = environment(&[("FIRST", "1")]);
    let failure = ConfigurationInstance::construct(&schema, &env).err().unwrap();
    assert_eq!(failure.variable, "TOKEN");
}

#[test]
fn construction_is_repeatable() {
    let schema = RecordSpec::parse(&sample()).unwrap();
    let env = environment(&[("MY_TEST_VAR", "hello"), ("DATABASE_URL", "db")]);
    let one = ConfigurationInstance::construct(&schema, &env).unwrap();
    let two = ConfigurationInstance::construct(&schema, &env).unwrap();
    assert_eq!(one.len(), two.len());
    for i in 0..one.len() {
        assert_eq!(one.name(i), two.name(i));
        assert_eq!(one.value(i), two.value(i));
    }
    let unrelated = environment(&[("OTHER", "x"), ("DATABASE_URL", "db"), ("MY_TEST_VAR", "hello")]);
    let three = ConfigurationInstance::construct(&schema, &unrelated).unwrap();
    assert_eq!(three.value(0), one.value(0));
    assert_eq!(three.value(1), one.value(1));
}

#[test]
fn instance_fields_match_the_declaration() {
    let decl = record(
        "R",
        vec![field("zeta", vec![directive("default", "\"z\"")]), field("alpha", vec![directive("default", "\"a\"")]), field("mid", vec![directive("default", "\"m\"")])],
    );
    let schema = RecordSpec::parse(&decl).unwrap();
    assert_eq!(schema.name(), "R");
    assert_eq!(schema.len(), 3);
    assert_eq!(schema.field(0).name(), "zeta");
    assert_eq!(schema.field(1).name(), "alpha");
    assert_eq!(schema.field(2).name(), "mid");
    let config = ConfigurationInstance::construct(&schema, &Environment::new()).unwrap();
    assert_eq!(config.len(), 3);
    assert_eq!(config.name(0), "zeta");
    assert_eq!(config.name(1), "alpha");
    assert_eq!(config.name(2), "mid");
    assert_eq!(config.get("alpha"), Some("a"));
    assert_eq!(config.get("missing"), None);
    assert_eq!(config.get("ALPHA"), None);
}

#[test]
fn record_without_fields_builds_an_empty_instance() {
    let schema = RecordSpec::parse(&record("Empty", vec![])).unwrap();
    assert_eq!(schema.len(), 0);
    let config = ConfigurationInstance::construct(&schema, &Environment::new()).unwrap();
    assert_eq!(config.len(), 0);
    assert_eq!(config.get("anything"), None);
}

#[test]
fn enum_and_union_are_unsupported() {
    for kind in [DeclKind::Enum, DeclKind::Union] {
        let decl = Declaration { name: "E".to_string(), kind, fields: vec![] };
        assert_eq!(RecordSpec::parse(&decl).err(), Some(UnsupportedShape));
    }
}

#[test]
fn unnamed_field_is_unsupported() {
    let decl = record("Pair", vec![field("ok", vec![]), FieldDecl { name: None, directives: vec![] }]);
    assert_eq!(RecordSpec::parse(&decl).err(), Some(UnsupportedShape));
}

#[test]
fn unsupported_shape_message() {
    assert_eq!(
        UnsupportedShape.message(),
        "\x1B[0;31mEnvConfig only supports structs with named fields.\x1B[0m"
    );
}

#[test]
fn resolve_value_prefers_the_environment() {
    let spec = FieldSpec::new("f".to_string(), "V".to_string(), Some("d".to_string()));
    assert_eq!(resolve_value(&spec, &environment(&[("V", "e")])).unwrap(), "e");
    assert_eq!(resolve_value(&spec, &environment(&[("f", "e")])).unwrap(), "d");
    let required = FieldSpec::new("f".to_string(), "V".to_string(), None);
    assert_eq!(resolve_value(&required, &Environment::new()).err().unwrap().variable, "V");
}

#[test]
fn schema_built_by_hand() {
    let schema = RecordSpec::new(
        "Manual".to_string(),
        vec![FieldSpec::new("a".to_string(), "A_VAR".to_string(), None)],
    );
    let config = ConfigurationInstance::construct(&schema, &environment(&[("A_VAR", "1")])).unwrap();
    assert_eq!(config.get("a"), Some("1"));
}

#[test]
fn environment_set_replaces_earlier_value() {
    let mut env = Environment::new();
    assert_eq!(env.get("A"), None);
    env.set("A".to_string(), "1".to_string());
    env.set("B".to_string(), "2".to_string());
    env.set("A".to_string(), "3".to_string());
    assert_eq!(env.get("A"), Some("3"));
    assert_eq!(env.get("B"), Some("2"));
    assert_eq!(env.get("a"), None);
    assert_eq!(env.get(""), None);
}

#[test]
fn duplicate_field_names_read_the_first() {
    let schema = RecordSpec::new(
        "Twice".to_string(),
        vec![
            FieldSpec::new("a".to_string(), "ONE".to_string(), None),
            FieldSpec::new("a".to_string(), "TWO".to_string(), None),
        ],
    );
    let config = ConfigurationInstance::construct(&schema, &environment(&[("ONE", "1"), ("TWO", "2")])).unwrap();
    assert_eq!(config.get("a"), Some("1"));
    assert_eq!(config.value(1), "2");
}
