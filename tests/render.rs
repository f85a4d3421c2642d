use error_stack_derive::{
    Case, DescriptorError, ErrorDescriptor, FieldValue, Kind, Message, MessageSource, Segment,
    Shape, VariantSet,
};

fn field(name: &str, display: &str, debug: &str) -> FieldValue {
    FieldValue { name: name.to_string(), display: display.to_string(), debug: debug.to_string() }
}

fn text(s: &str) -> Segment {
    Segment::Text(s.to_string())
}

fn fixed(s: &str) -> Message {
    Message::Fixed(s.to_string())
}

fn case(name: &str, shape: Shape, message: Option<Message>) -> Case {
    Case { name: name.to_string(), shape, message }
}

/// The set of the crate's documentation: a unit case with a fixed message, a
/// tuple case and a record case with computed messages, and a unit case
/// without a message.
fn foo_errors(default: Option<Message>) -> VariantSet {
    VariantSet {
        name: "FooErrors".to_string(),
        default,
        cases: vec![
            case("BarError", Shape::Unit, Some(fixed("An exception in bar"))),
            case(
                "BazError",
                Shape::Tuple,
                Some(Message::Computed(vec![text("Error in baz ("), Segment::Field(0), text(")")])),
            ),
            case(
                "QuxError",
                Shape::Record,
                Some(Message::Computed(vec![
                    text("Error in qux ("),
                    Segment::Field(0),
                    text(", "),
                    Segment::Field(1),
                    text(")"),
                ])),
            ),
            case("QuuxError", Shape::Unit, None),
        ],
    }
}

fn baz_fallback_set(default: Option<Message>) -> VariantSet {
    VariantSet {
        name: "FooErrors".to_string(),
        default,
        cases: vec![
            case("BarError", Shape::Unit, Some(fixed("An exception in bar"))),
            case("BazError", Shape::Tuple, None),
        ],
    }
}

#[test]
fn record_with_computed_message() {
    let msg = Message::Computed(vec![
        text("Error occured with foo ("),
        Segment::Field(0),
        text(", "),
        Segment::Field(1),
        text(")"),
    ]);
    let fields = vec![field("bar", "0", "0"), field("baz", "1", "1")];
    let d = ErrorDescriptor::record(msg, fields).unwrap();
    assert_eq!(d.render(), "Error occured with foo (0, 1)");
}

#[test]
fn record_with_fixed_message() {
    let d = ErrorDescriptor::record(fixed("An exception occured in foo"), vec![]).unwrap();
    assert_eq!(d.render(), "An exception occured in foo");
}

#[test]
fn record_message_naming_missing_field_is_rejected() {
    let msg = Message::Computed(vec![text("x = "), Segment::Field(2)]);
    let fields = vec![field("a", "1", "1"), field("b", "2", "2")];
    assert!(matches!(ErrorDescriptor::record(msg, fields), Err(DescriptorError::MissingField)));
}

#[test]
fn fallback_without_default_names_set_and_value() {
    let d = ErrorDescriptor::variant(baz_fallback_set(None), 1, vec![field("unnamed0", "x", "\"x\"")])
        .unwrap();
    let r = d.render();
    assert!(r.contains("FooErrors"));
    assert!(r.contains("BazError(\"x\")"));
    assert_eq!(r, "[FooErrors] An error occured; BazError(\"x\")");
}

#[test]
fn fallback_uses_set_default() {
    let d = ErrorDescriptor::variant(
        baz_fallback_set(Some(fixed("Default error message"))),
        1,
        vec![field("unnamed0", "x", "\"x\"")],
    )
    .unwrap();
    assert_eq!(d.render(), "Default error message");
}

#[test]
fn dedicated_message_wins_over_default() {
    let d = ErrorDescriptor::variant(foo_errors(Some(fixed("Default error message"))), 0, vec![])
        .unwrap();
    assert_eq!(d.render(), "An exception in bar");
}

#[test]
fn fixed_message_ignores_field_values() {
    let set = || VariantSet {
        name: "MainError".to_string(),
        default: None,
        cases: vec![case("DeserializeError", Shape::Tuple, Some(fixed("Couldn't deserialize data")))],
    };
    let a = ErrorDescriptor::variant(set(), 0, vec![field("unnamed0", "1", "1")]).unwrap();
    let b = ErrorDescriptor::variant(set(), 0, vec![field("unnamed0", "other", "\"other\"")]).unwrap();
    assert_eq!(a.render(), "Couldn't deserialize data");
    assert_eq!(b.render(), "Couldn't deserialize data");
}

#[test]
fn computed_message_renders_the_same_twice() {
    let d = ErrorDescriptor::variant(foo_errors(None), 2, vec![field("start", "3", "3"), field("end", "9", "9")])
        .unwrap();
    let first = d.render();
    let second = d.render();
    assert_eq!(first, "Error in qux (3, 9)");
    assert_eq!(first, second);
}

#[test]
fn tuple_case_with_computed_message() {
    let d = ErrorDescriptor::variant(foo_errors(None), 1, vec![field("unnamed0", "oops", "\"oops\"")])
        .unwrap();
    assert_eq!(d.render(), "Error in baz (oops)");
}

#[test]
fn unit_case_generic_message() {
    let d = ErrorDescriptor::variant(foo_errors(None), 3, vec![]).unwrap();
    assert_eq!(d.render(), "[FooErrors] An error occured; QuuxError");
}

#[test]
fn record_case_generic_message() {
    let set = VariantSet {
        name: "MainError".to_string(),
        default: None,
        cases: vec![case("FooError", Shape::Record, None)],
    };
    let d = ErrorDescriptor::variant(set, 0, vec![field("start", "1", "1"), field("end", "2", "2")])
        .unwrap();
    assert_eq!(d.render(), "[MainError] An error occured; FooError { start: 1, end: 2 }");
}

#[test]
fn tuple_case_generic_message_with_two_fields() {
    let set = VariantSet {
        name: "E".to_string(),
        default: None,
        cases: vec![case("Pair", Shape::Tuple, None)],
    };
    let d = ErrorDescriptor::variant(set, 0, vec![field("unnamed0", "a", "'a'"), field("unnamed1", "7", "7")])
        .unwrap();
    assert_eq!(d.render(), "[E] An error occured; Pair('a', 7)");
}

#[test]
fn message_that_is_a_field() {
    let set = VariantSet {
        name: "MainError".to_string(),
        default: None,
        cases: vec![case("FooError", Shape::Record, Some(Message::Computed(vec![Segment::Field(0)])))],
    };
    let d = ErrorDescriptor::variant(set, 0, vec![field("inner", "hello", "\"hello\"")]).unwrap();
    assert_eq!(d.render(), "hello");
}

#[test]
fn empty_computed_message_renders_empty() {
    let d = ErrorDescriptor::record(Message::Computed(vec![]), vec![]).unwrap();
    assert_eq!(d.render(), "");
}

#[test]
fn unknown_case_is_rejected() {
    assert!(matches!(
        ErrorDescriptor::variant(foo_errors(None), 4, vec![]),
        Err(DescriptorError::UnknownCase)
    ));
}

#[test]
fn fields_on_unit_case_are_rejected() {
    assert!(matches!(
        ErrorDescriptor::variant(foo_errors(None), 0, vec![field("unnamed0", "1", "1")]),
        Err(DescriptorError::FieldsOnUnitCase)
    ));
}

#[test]
fn case_message_naming_missing_field_is_rejected() {
    assert!(matches!(
        ErrorDescriptor::variant(foo_errors(None), 2, vec![field("start", "1", "1")]),
        Err(DescriptorError::MissingField)
    ));
}

#[test]
fn default_message_naming_missing_field_is_rejected() {
    let default = Message::Computed(vec![Segment::Field(0)]);
    assert!(matches!(
        ErrorDescriptor::variant(foo_errors(Some(default)), 3, vec![]),
        Err(DescriptorError::MissingField)
    ));
}

#[test]
fn variant_keeps_its_parts() {
    let d = ErrorDescriptor::variant(foo_errors(None), 1, vec![field("unnamed0", "x", "\"x\"")]).unwrap();
    match &d.kind {
        Kind::Variant { set, active } => {
            assert_eq!(*active, 1);
            assert_eq!(set.name, "FooErrors");
        }
        Kind::Record { .. } => panic!("expected a variant"),
    }
    assert_eq!(d.fields.len(), 1);
}

#[test]
fn sources_of_cases() {
    let none = foo_errors(None);
    assert_eq!(none.source_of(0), MessageSource::Dedicated);
    assert_eq!(none.source_of(3), MessageSource::Generic);
    let with_default = foo_errors(Some(fixed("d")));
    assert_eq!(with_default.source_of(2), MessageSource::Dedicated);
    assert_eq!(with_default.source_of(3), MessageSource::SetDefault);
}

#[test]
fn refs_within_checks_every_segment() {
    let m = Message::Computed(vec![Segment::Field(0), text("-"), Segment::Field(1)]);
    assert!(m.refs_within(2));
    assert!(!m.refs_within(1));
    assert!(fixed("a").refs_within(0));
}
