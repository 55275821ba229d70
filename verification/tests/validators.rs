use swagger_validator::common::{Attribute, IntegerType, ObjectType, StringType, TypeDefinition};
use swagger_validator::definition::Definitions;
use swagger_validator::document::{contains_key, Node};
use swagger_validator::validator::array::ArrayValidator;
use swagger_validator::validator::boolean::BooleanValidator;
use swagger_validator::validator::common::{to_validator, NodeValidator};
use swagger_validator::validator::format::{
    Format, FormatValidator, Formats, Registry, NO_FORMAT, UNKNOWN_FORMAT,
};
use swagger_validator::validator::integer;
use swagger_validator::validator::integer::IntegerValidator;
use swagger_validator::validator::object::ObjectValidator;
use swagger_validator::validator::reference::{
    Context, Location, ReferenceValidator, ValidatorQuerier,
};
use swagger_validator::validator::string;
use swagger_validator::validator::string::{
    check_ipv4, set_formats, string_formats, IPv4Format, StringValidator,
};
use swagger_validator::validator::{UnknownValidator, Validator};
use yaml_rust::{Yaml, YamlLoader};

fn node(yaml: &Yaml) -> Node {
    match yaml {
        Yaml::Real(text) => Node::Real(text.clone()),
        Yaml::Integer(value) => Node::Integer(*value),
        Yaml::String(text) => Node::String(text.clone()),
        Yaml::Boolean(value) => Node::Boolean(*value),
        Yaml::Array(items) => Node::Array(items.iter().map(node).collect()),
        Yaml::Hash(entries) => {
            Node::Hash(entries.iter().map(|(key, value)| (node(key), node(value))).collect())
        }
        Yaml::Alias(id) => Node::Alias(*id),
        Yaml::Null => Node::Null,
        Yaml::BadValue => Node::BadValue,
    }
}

fn load(text: &str) -> Node {
    let docs = YamlLoader::load_from_str(text).unwrap();
    node(&docs[0])
}

fn field(text: &str, name: &str) -> Node {
    let docs = YamlLoader::load_from_str(text).unwrap();
    node(&docs[0][name])
}

fn some_str(text: &str) -> Option<String> {
    Some(text.to_string())
}

fn typed(definition: TypeDefinition) -> Attribute {
    Attribute { definition: Some(definition), reference: None, description: None }
}

fn referring(uri: &str) -> Attribute {
    Attribute { definition: None, reference: Some(uri.to_string()), description: None }
}

fn integer_type() -> TypeDefinition {
    TypeDefinition::Integer(IntegerType { format: None, minimum: None, maximum: None })
}

fn string_type() -> TypeDefinition {
    TypeDefinition::String(StringType { format: None, choices: None })
}

fn registry() -> Registry {
    Registry { integer: Formats::new(), string: string_formats() }
}

fn test_object_type() -> ObjectType {
    ObjectType {
        properties: vec![
            ("id".to_string(), typed(integer_type())),
            ("name".to_string(), typed(string_type())),
            ("valid".to_string(), typed(TypeDefinition::Boolean)),
        ],
        required: Some(vec!["id".to_string(), "name".to_string()]),
    }
}

struct NoneQuerier;

impl ValidatorQuerier for NoneQuerier {
    fn get(&self, _: &Location) -> Option<&ObjectType> {
        None
    }
}

struct EvenFormat;

impl FormatValidator<i64> for EvenFormat {
    fn validate(&self, value: i64) -> bool {
        value % 2 == 0
    }

    fn display(&self) -> String {
        "even".to_string()
    }
}

struct UpperFormat;

impl FormatValidator<String> for UpperFormat {
    fn validate(&self, value: String) -> bool {
        value.chars().all(|c| c.is_ascii_uppercase())
    }

    fn display(&self) -> String {
        "upper".to_string()
    }
}

#[test]
fn test_array() {
    let schema = typed(integer_type());
    let formats = registry();
    let querier = NoneQuerier {};
    let context = Context { querier: &querier, formats: &formats };

    let v = ArrayValidator::new(&schema, &context);

    assert_eq!(v.validate(&field("a: [1, 2]", "a")), None);
    assert_eq!(v.validate(&field("a: [1, b]", "a")), some_str("field is not integer"));
    assert_eq!(v.validate(&field("a: 1", "a")), some_str("field is not array"));
}

#[test]
fn test_boolean() {
    let s = "
        a: true
        b: 1
        c: test
        ";
    let v = BooleanValidator {};
    assert_eq!(v.validate(&field(s, "a")), None);
    assert_eq!(v.validate(&field(s, "b")), some_str("field is not boolean"));
    assert_eq!(v.validate(&field(s, "c")), some_str("field is not boolean"));
}

#[test]
fn test_integer() {
    let s = "
        a: 1
        b: 10
        c: c
        ";
    let v = IntegerValidator::default();
    assert_eq!(v.validate(&field(s, "a")), None);
    let v = IntegerValidator { minimum: 2, ..Default::default() };
    assert_eq!(v.validate(&field(s, "a")), some_str("field is too small"));
    let v = IntegerValidator { maximum: 2, ..Default::default() };
    assert_eq!(v.validate(&field(s, "b")), some_str("field is too large"));
    assert_eq!(v.validate(&field(s, "c")), some_str("field is not integer"));
}

#[test]
fn test_basic_object() {
    let object_type = test_object_type();
    let formats = registry();
    let querier = NoneQuerier {};
    let context = Context { querier: &querier, formats: &formats };
    let v = ObjectValidator::new(&object_type, &context);

    assert_eq!(v.validate(&load("id: 1")), some_str("Field name is required"));

    let s = "
        id: 1
        name: test
        whatever: true
        ";
    assert_eq!(v.validate(&load(s)), some_str("Unknown field whatever"));

    let s = "
        id: 1
        name: test
        valid: true
        ";
    assert_eq!(v.validate(&load(s)), None);
}

#[test]
fn test_reference() {
    let attributes: Definitions =
        vec![("Test".to_string(), typed(TypeDefinition::Object(test_object_type())))];
    let formats = registry();

    let v = ReferenceValidator {
        location: Location::from("#/definitions/Test".to_string()),
        context: Context { querier: &attributes, formats: &formats },
    };

    let s = "
        id: 1
        name: test
        valid: true
        ";
    assert_eq!(v.validate(&load(s)), None);
}

#[test]
fn test_ipv4_format() {
    let format: &dyn FormatValidator<String> = &IPv4Format {};
    assert_eq!(format.validate("1.1.1.1".to_string()), true);
}

#[test]
fn test_string_validator() {
    let formats = string_formats();
    let mut current = string::Formats::new();
    set_formats(&mut current, &formats);
    let s = "
        a: CAT
        b: 2
        c: 1.1.1.1
        ";
    let a = field(s, "a");
    let v = StringValidator::default();
    assert_eq!(v.validate(&a), None);
    assert_eq!(v.validate(&field(s, "b")), some_str("field is not string"));

    let v = StringValidator {
        format: Format { check: &NO_FORMAT },
        choices: vec!["DOG".into(), "CAT".into()],
    };
    assert_eq!(v.validate(&a), None);
    let v = StringValidator {
        format: Format { check: &NO_FORMAT },
        choices: vec!["DOG".into(), "FISH".into()],
    };
    let expected = Some(format!("field is not one of {}", v.format_choices()));
    assert_eq!(v.validate(&a), expected);

    let v = StringValidator { format: current.get(&"ipv4".to_string()).unwrap(), choices: vec![] };
    assert_eq!(v.validate(&a), some_str("field is not format of IPv4"));
    assert_eq!(v.validate(&field(s, "c")), None);
}

#[test]
fn integer_bounds_are_inclusive() {
    let v = IntegerValidator { minimum: -3, maximum: 7, ..Default::default() };
    assert_eq!(v.validate(&-4i64), some_str("field is too small"));
    assert_eq!(v.validate(&-3i64), None);
    assert_eq!(v.validate(&7i64), None);
    assert_eq!(v.validate(&8i64), some_str("field is too large"));
    assert_eq!(v.validate(&Node::Integer(7)), None);
    assert_eq!(v.validate(&Node::Integer(8)), some_str("field is too large"));
    assert_eq!(v.validate(&Node::Real("7.0".to_string())), some_str("field is not integer"));
}

#[test]
fn integer_without_bounds_takes_the_whole_range() {
    let formats = integer::Formats::new();
    let declared = IntegerType { format: None, minimum: None, maximum: None };
    let v = IntegerValidator::from((&declared, &formats));
    assert_eq!(v.minimum, i64::MIN);
    assert_eq!(v.maximum, i64::MAX);
    assert_eq!(v.validate(&i64::MIN), None);
    assert_eq!(v.validate(&i64::MAX), None);
}

#[test]
fn integer_bound_is_checked_before_format() {
    let mut formats = integer::Formats::new();
    formats.insert("even".to_string(), Format { check: &EvenFormat });
    let declared =
        IntegerType { format: Some("even".to_string()), minimum: Some(10), maximum: Some(20) };
    let v = IntegerValidator::from((&declared, &formats));
    assert_eq!(v.validate(&9i64), some_str("field is too small"));
    assert_eq!(v.validate(&21i64), some_str("field is too large"));
    assert_eq!(v.validate(&11i64), some_str("field is not format of even"));
    assert_eq!(v.validate(&12i64), None);
}

#[test]
fn unregistered_integer_format_rejects_every_value() {
    let formats = integer::Formats::new();
    let declared = IntegerType { format: Some("int32".to_string()), minimum: None, maximum: None };
    let v = IntegerValidator::from((&declared, &formats));
    assert_eq!(v.validate(&0i64), some_str("field is not format of unknown"));
    assert_eq!(v.validate(&Node::Integer(5)), some_str("field is not format of unknown"));
}

#[test]
fn unregistered_string_format_rejects_every_value() {
    let formats = string_formats();
    let declared = StringType {
        format: Some("date".to_string()),
        choices: Some(vec!["CAT".to_string()]),
    };
    let v = StringValidator::from((&declared, &formats));
    assert_eq!(v.validate("CAT"), some_str("field is not format of unknown"));
    assert_eq!(v.validate(""), some_str("field is not format of unknown"));
}

#[test]
fn set_formats_replaces_the_whole_table() {
    let mut current = integer::Formats::new();
    current.insert("old".to_string(), Format { check: &EvenFormat });
    let mut replacement = integer::Formats::new();
    replacement.insert("even".to_string(), Format { check: &EvenFormat });
    integer::set_formats(&mut current, &replacement);
    assert!(current.get(&"old".to_string()).is_none());
    let found = current.get(&"even".to_string()).unwrap();
    assert_eq!(found.check.validate(4), true);
    assert_eq!(found.check.validate(5), false);
    assert_eq!(current.entries.len(), 1);

    let mut strings = string::Formats::new();
    let mut upper = string::Formats::new();
    upper.insert("upper".to_string(), Format { check: &UpperFormat });
    set_formats(&mut strings, &upper);
    assert!(strings.get(&"ipv4".to_string()).is_none());
    assert_eq!(strings.get(&"upper".to_string()).unwrap().check.display(), "upper");
}

#[test]
fn insert_replaces_the_entry_of_a_name() {
    let mut formats = integer::Formats::new();
    formats.insert("n".to_string(), Format { check: &UNKNOWN_FORMAT });
    formats.insert("m".to_string(), Format { check: &UNKNOWN_FORMAT });
    formats.insert("n".to_string(), Format { check: &EvenFormat });
    assert_eq!(formats.entries.len(), 2);
    assert_eq!(formats.get(&"n".to_string()).unwrap().check.validate(2), true);
    assert_eq!(formats.get(&"m".to_string()).unwrap().check.validate(2), false);
    assert_eq!(formats.resolve(&None).check.validate(3), true);
    assert_eq!(formats.resolve(&Some("x".to_string())).check.validate(2), false);
    assert_eq!(formats.resolve(&Some("n".to_string())).check.display(), "even");
}

#[test]
fn built_in_formats_display() {
    let none: &dyn FormatValidator<i64> = &NO_FORMAT;
    let unknown: &dyn FormatValidator<String> = &UNKNOWN_FORMAT;
    assert_eq!(none.display(), "text");
    assert_eq!(unknown.display(), "unknown");
    assert_eq!(IPv4Format.display(), "IPv4");
    assert_eq!(none.validate(1), true);
    assert_eq!(unknown.validate("x".to_string()), false);
}

#[test]
fn ipv4_accepts_dotted_quads_only() {
    assert!(check_ipv4("0.0.0.0"));
    assert!(check_ipv4("255.255.255.255"));
    assert!(check_ipv4("192.168.10.1"));
    assert!(!check_ipv4(""));
    assert!(!check_ipv4("1.1.1"));
    assert!(!check_ipv4("1.1.1.1.1"));
    assert!(!check_ipv4("256.1.1.1"));
    assert!(!check_ipv4("1.1.1.256"));
    assert!(!check_ipv4("01.1.1.1"));
    assert!(!check_ipv4("1.1.1.00"));
    assert!(!check_ipv4("1..1.1"));
    assert!(!check_ipv4("1.1.1."));
    assert!(!check_ipv4(".1.1.1"));
    assert!(!check_ipv4("a.b.c.d"));
    assert!(!check_ipv4("1.1.1.1 "));
    assert!(!check_ipv4("1111.1.1.1"));
    assert!(!check_ipv4("-1.1.1.1"));
    assert!(!check_ipv4("１.1.1.1"));
}

#[test]
fn ipv4_format_is_registered_by_name() {
    let formats = string_formats();
    let ipv4 = formats.get(&"ipv4".to_string()).unwrap();
    assert_eq!(ipv4.check.validate("127.0.0.1".to_string()), true);
    assert_eq!(ipv4.check.validate("025.1.1.1".to_string()), false);
    assert_eq!(ipv4.check.validate("1,1,1,1".to_string()), false);
    assert_eq!(ipv4.check.validate("1.1.1.1\n".to_string()), false);
    assert!(formats.get(&"IPv4".to_string()).is_none());
    assert_eq!(formats.entries.len(), 1);
}

#[test]
fn choices_are_listed_in_order() {
    let v = StringValidator {
        format: Format { check: &NO_FORMAT },
        choices: vec!["DOG".into(), "FISH".into(), "CAT".into()],
    };
    assert_eq!(v.format_choices(), "[DOG, FISH, CAT]");
    assert_eq!(v.validate("COW"), some_str("field is not one of [DOG, FISH, CAT]"));
    assert_eq!(v.validate("FISH"), None);
    let one = StringValidator { format: Format { check: &NO_FORMAT }, choices: vec!["A".into()] };
    assert_eq!(one.format_choices(), "[A]");
    assert_eq!(StringValidator::default().format_choices(), "[]");
    assert_eq!(StringValidator::default().validate("anything"), None);
}

#[test]
fn string_format_is_checked_before_choices() {
    let formats = string_formats();
    let declared = StringType {
        format: Some("ipv4".to_string()),
        choices: Some(vec!["1.1.1.1".to_string(), "x".to_string()]),
    };
    let v = StringValidator::from((&declared, &formats));
    assert_eq!(v.validate("x"), some_str("field is not format of IPv4"));
    assert_eq!(v.validate("2.2.2.2"), some_str("field is not one of [1.1.1.1, x]"));
    assert_eq!(v.validate("1.1.1.1"), None);
    assert_eq!(v.validate(&Node::Integer(1)), some_str("field is not string"));
}

#[test]
fn required_is_reported_before_unknown_fields() {
    let object_type = test_object_type();
    let formats = registry();
    let querier = NoneQuerier {};
    let context = Context { querier: &querier, formats: &formats };
    let v = ObjectValidator::new(&object_type, &context);

    assert_eq!(v.validate(&load("{whatever: 1, name: x}")), some_str("Field id is required"));
    assert_eq!(v.validate(&load("{whatever: 1}")), some_str("Field id is required"));
    assert_eq!(v.validate(&load("{id: x, whatever: 1}")), some_str("Field name is required"));
    assert_eq!(v.validate(&load("{}")), some_str("Field id is required"));
}

#[test]
fn object_reports_the_first_entry_out_of_place() {
    let object_type = test_object_type();
    let formats = registry();
    let querier = NoneQuerier {};
    let context = Context { querier: &querier, formats: &formats };
    let v = ObjectValidator::new(&object_type, &context);

    assert_eq!(
        v.validate(&load("{id: 1, name: test, extra: 1, valid: 3}")),
        some_str("Unknown field extra")
    );
    assert_eq!(
        v.validate(&load("{id: 1, name: test, valid: 3, extra: 1}")),
        some_str("field is not boolean")
    );
    assert_eq!(v.validate(&load("{id: a, name: 2}")), some_str("field is not integer"));
    assert_eq!(v.validate(&load("{name: 2, id: a}")), some_str("field is not string"));
    assert_eq!(
        v.validate(&load("{id: 1, name: test, 3: true}")),
        some_str("unexpected field type")
    );
    assert_eq!(v.validate(&load("[1, 2]")), some_str("field is not object"));
    assert_eq!(v.validate(&Node::Null), some_str("field is not object"));
}

#[test]
fn object_without_required_list() {
    let object_type = ObjectType {
        properties: vec![("id".to_string(), typed(integer_type()))],
        required: None,
    };
    let formats = registry();
    let querier = NoneQuerier {};
    let context = Context { querier: &querier, formats: &formats };
    let v = ObjectValidator::new(&object_type, &context);
    assert_eq!(v.validate(&load("{}")), None);
    assert_eq!(v.validate(&load("{id: 4}")), None);
    assert_eq!(v.validate_attributes(&vec![]), None);
    assert_eq!(
        v.validate_attributes(&vec![(Node::String("x".to_string()), Node::Null)]),
        some_str("Unknown field x")
    );
}

#[test]
fn empty_array_passes_whatever_the_items() {
    let formats = registry();
    let querier = NoneQuerier {};
    let context = Context { querier: &querier, formats: &formats };
    let empty = Node::Array(vec![]);
    let v = ArrayValidator::new(&typed(TypeDefinition::File), &context);
    assert_eq!(v.validate(&empty), None);
    assert_eq!(v.validate(&Node::Array(vec![Node::Null])), some_str("unknown type"));
    let v = ArrayValidator::new(&referring("#/definitions/Missing"), &context);
    assert_eq!(v.validate(&empty), None);
    assert_eq!(v.validate(&Node::String("x".to_string())), some_str("field is not array"));
    assert_eq!(v.validate(&Node::Hash(vec![])), some_str("field is not array"));
}

#[test]
fn array_reports_the_first_failing_element() {
    let formats = registry();
    let querier = NoneQuerier {};
    let context = Context { querier: &querier, formats: &formats };
    let items = typed(TypeDefinition::Integer(IntegerType {
        format: None,
        minimum: Some(0),
        maximum: Some(9),
    }));
    let v = ArrayValidator::new(&items, &context);
    assert_eq!(v.validate(&load("[1, 10, -1]")), some_str("field is too large"));
    assert_eq!(v.validate(&load("[1, -1, 10]")), some_str("field is too small"));
    assert_eq!(v.validate(&load("[0, 9]")), None);
}

#[test]
fn compiler_dispatches_on_the_declared_type() {
    let formats = registry();
    let querier = NoneQuerier {};
    let context = Context { querier: &querier, formats: &formats };

    assert!(matches!(
        to_validator(&typed(TypeDefinition::Boolean), &context),
        NodeValidator::Boolean(_)
    ));
    assert!(matches!(to_validator(&typed(integer_type()), &context), NodeValidator::Integer(_)));
    assert!(matches!(to_validator(&typed(string_type()), &context), NodeValidator::String(_)));
    let array = typed(TypeDefinition::Array { items: Box::new(typed(integer_type())) });
    assert!(matches!(to_validator(&array, &context), NodeValidator::Array(_)));
    let object = typed(TypeDefinition::Object(test_object_type()));
    assert!(matches!(to_validator(&object, &context), NodeValidator::Object(_)));
    assert!(matches!(
        to_validator(&referring("#/definitions/Test"), &context),
        NodeValidator::Reference(_)
    ));

    let file = to_validator(&typed(TypeDefinition::File), &context);
    assert_eq!(file.validate(&Node::Null), some_str("unknown type"));
    let undefined = to_validator(&typed(TypeDefinition::Undefined), &context);
    assert_eq!(undefined.validate(&Node::Boolean(true)), some_str("unknown type"));
    let absent = Attribute { definition: None, reference: None, description: None };
    assert_eq!(to_validator(&absent, &context).validate(&Node::Null), some_str("unknown type"));
    assert_eq!(UnknownValidator.validate(&3u8), some_str("unknown type"));
}

#[test]
fn reference_takes_precedence_over_a_declared_type() {
    let formats = registry();
    let querier = NoneQuerier {};
    let context = Context { querier: &querier, formats: &formats };
    let both = Attribute {
        definition: Some(TypeDefinition::Boolean),
        reference: Some("#/definitions/Missing".to_string()),
        description: Some("both".to_string()),
    };
    let v = to_validator(&both, &context);
    assert_eq!(v.validate(&Node::Boolean(true)), some_str("No such reference"));
}

#[test]
fn nested_schema_validates_depth_first() {
    let formats = registry();
    let querier = NoneQuerier {};
    let context = Context { querier: &querier, formats: &formats };
    let inner = ObjectType {
        properties: vec![(
            "tags".to_string(),
            typed(TypeDefinition::Array { items: Box::new(typed(string_type())) }),
        )],
        required: Some(vec!["tags".to_string()]),
    };
    let outer = typed(TypeDefinition::Object(ObjectType {
        properties: vec![
            ("id".to_string(), typed(integer_type())),
            ("pet".to_string(), typed(TypeDefinition::Object(inner))),
        ],
        required: None,
    }));
    let v = to_validator(&outer, &context);
    assert_eq!(v.validate(&load("{id: 1, pet: {tags: [a, b]}}")), None);
    assert_eq!(v.validate(&load("{id: 1, pet: {tags: [a, 2]}}")), some_str("field is not string"));
    assert_eq!(v.validate(&load("{pet: {}, id: x}")), some_str("Field tags is required"));
    assert_eq!(v.validate(&load("{pet: 3}")), some_str("field is not object"));
}

#[test]
fn reference_resolves_at_validation_time() {
    let definitions: Definitions = vec![
        ("Test".to_string(), typed(TypeDefinition::Object(test_object_type()))),
        ("Count".to_string(), typed(integer_type())),
        ("Test".to_string(), typed(TypeDefinition::Boolean)),
    ];
    let formats = registry();
    let context = Context { querier: &definitions, formats: &formats };
    let document = load("{id: 1, name: test, valid: true}");

    let v = to_validator(&referring("#/definitions/Test"), &context);
    assert_eq!(v.validate(&document), None);
    assert_eq!(v.validate(&load("{id: 1}")), some_str("Field name is required"));

    let missing = to_validator(&referring("#/definitions/Missing"), &context);
    assert_eq!(missing.validate(&document), some_str("No such reference"));
    let not_object = to_validator(&referring("#/definitions/Count"), &context);
    assert_eq!(not_object.validate(&Node::Integer(1)), some_str("No such reference"));
    let elsewhere = to_validator(&referring("other.yaml#/definitions/Test"), &context);
    assert_eq!(elsewhere.validate(&document), some_str("No such reference"));
    let bare = to_validator(&referring("Test"), &context);
    assert_eq!(bare.validate(&document), some_str("No such reference"));
}

#[test]
fn definitions_resolve_object_schemas_only() {
    let definitions: Definitions = vec![
        ("Test".to_string(), typed(TypeDefinition::Object(test_object_type()))),
        ("Count".to_string(), typed(integer_type())),
        ("Alias".to_string(), referring("#/definitions/Test")),
    ];
    assert!(definitions.get(&Location::Local("Test".to_string())).is_some());
    assert!(definitions.get(&Location::Local("Count".to_string())).is_none());
    assert!(definitions.get(&Location::Local("Alias".to_string())).is_none());
    assert!(definitions.get(&Location::Local("test".to_string())).is_none());
    assert!(definitions.get(&Location::Unknown).is_none());
    let found = ValidatorQuerier::get(&definitions, &Location::Local("Test".to_string())).unwrap();
    assert_eq!(found.properties.len(), 3);
}

#[test]
fn self_referring_definition_follows_the_document() {
    let tree = ObjectType {
        properties: vec![
            ("value".to_string(), typed(integer_type())),
            ("next".to_string(), referring("#/definitions/Tree")),
            (
                "children".to_string(),
                typed(TypeDefinition::Array { items: Box::new(referring("#/definitions/Tree")) }),
            ),
        ],
        required: Some(vec!["value".to_string()]),
    };
    let definitions: Definitions = vec![("Tree".to_string(), typed(TypeDefinition::Object(tree)))];
    let formats = registry();
    let context = Context { querier: &definitions, formats: &formats };
    let v = to_validator(&referring("#/definitions/Tree"), &context);

    assert_eq!(v.validate(&load("{value: 1, next: {value: 2, next: {value: 3}}}")), None);
    assert_eq!(
        v.validate(&load("{value: 1, next: {value: 2, next: {}}}")),
        some_str("Field value is required")
    );
    assert_eq!(
        v.validate(&load("{value: 1, children: [{value: 2}, {value: x}]}")),
        some_str("field is not integer")
    );
}

#[test]
fn location_is_local_only_under_definitions() {
    let name = |uri: &str| match Location::from(uri.to_string()) {
        Location::Local(name) => Some(name),
        Location::Unknown => None,
    };
    assert_eq!(name("#/definitions/Test"), Some("Test".to_string()));
    assert_eq!(name("#/definitions/"), Some("".to_string()));
    assert_eq!(name("#/definitions/a/definitions/b"), Some("a/definitions/b".to_string()));
    assert_eq!(name("#/definitions/Ünïcode"), Some("Ünïcode".to_string()));
    assert_eq!(name(""), None);
    assert_eq!(name("#"), None);
    assert_eq!(name("#/definitions"), None);
    assert_eq!(name("/definitions/Test"), None);
    assert_eq!(name("file.yaml#/definitions/Test"), None);
    assert_eq!(name("#x/definitions/Test"), None);
    assert_eq!(name("#/parameters/Test"), None);
}

#[test]
fn compiling_twice_gives_the_same_verdicts() {
    let definitions: Definitions =
        vec![("Test".to_string(), typed(TypeDefinition::Object(test_object_type())))];
    let formats = registry();
    let context = Context { querier: &definitions, formats: &formats };
    let schema = typed(TypeDefinition::Array { items: Box::new(referring("#/definitions/Test")) });
    let first = to_validator(&schema, &context);
    let second = to_validator(&schema, &context);
    let documents = [
        "[{id: 1, name: a}]",
        "[{id: 1, name: a}, {id: 2}]",
        "[{id: 1, name: a, other: 1}]",
        "[]",
        "{id: 1}",
        "[{id: x, name: a}]",
    ];
    for text in documents.iter() {
        let document = load(text);
        assert_eq!(first.validate(&document), second.validate(&document));
    }
    assert_eq!(first.validate(&load("[{id: 1, name: a}, {id: 2}]")), some_str("Field name is required"));
}

#[test]
fn mapping_keys_are_found_by_their_text() {
    let entries = vec![
        (Node::Integer(1), Node::Null),
        (Node::String("name".to_string()), Node::Boolean(true)),
    ];
    assert!(contains_key(&entries, &"name".to_string()));
    assert!(!contains_key(&entries, &"1".to_string()));
    assert!(!contains_key(&entries, &"Name".to_string()));
    assert!(!contains_key(&vec![], &"name".to_string()));
}

#[test]
fn clones_hold_the_same_values() {
    let v = StringValidator {
        format: Format { check: &IPv4Format },
        choices: vec!["1.1.1.1".into(), "2.2.2.2".into()],
    };
    let copy = v.clone();
    assert_eq!(copy.choices, v.choices);
    assert_eq!(copy.validate("3.3.3.3"), v.validate("3.3.3.3"));
    assert_eq!(copy.validate("x"), some_str("field is not format of IPv4"));

    let location = Location::from("#/definitions/Pet".to_string());
    assert_eq!(location.clone(), Location::Local("Pet".to_string()));
    assert_eq!(Location::Unknown.clone(), Location::Unknown);

    let bounds = IntegerValidator { minimum: 1, maximum: 2, ..Default::default() };
    let copy = bounds;
    assert_eq!(copy.validate(&3i64), bounds.validate(&3i64));
}
