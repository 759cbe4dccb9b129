use sayable::icu::{convert_message_to_icu, generate_icu_message_format};
use sayable::message::{
    ArgumentMessage, ChoiceMessage, ChoiceMessageBranch, CompositeMessage, ElementMessage,
    LiteralMessage, Message,
};
use sayable::syntax::Expr;

fn dummy() -> Expr {
    Expr::Opaque(0)
}

fn literal(text: &str) -> Message {
    Message::Literal(LiteralMessage { text: text.to_string() })
}

#[test]
fn generate_literal_message() {
    let message = LiteralMessage::new("Hello, world!".into());
    assert_eq!(convert_message_to_icu(&Message::from(message)), "Hello, world!");
}

#[test]
fn generate_argument_message() {
    let message = ArgumentMessage::new("name".into(), dummy());
    assert_eq!(convert_message_to_icu(&Message::from(message)), "{name}");
}

#[test]
fn generate_element_message() {
    let message = ElementMessage::new(
        "0".into(),
        vec![LiteralMessage::new("Hello, world!".into()).into()],
        dummy(),
    );
    assert_eq!(convert_message_to_icu(&Message::from(message)), "<0>Hello, world!</0>");
}

#[test]
fn generate_choice_message() {
    let message = ChoiceMessage::new(
        "plural".into(),
        "count".into(),
        vec![
            ChoiceMessageBranch {
                key: "1".into(),
                value: LiteralMessage::new("item".into()).into(),
            },
            ChoiceMessageBranch {
                key: "other".into(),
                value: LiteralMessage::new("items".into()).into(),
            },
        ],
        dummy(),
    );
    assert_eq!(
        convert_message_to_icu(&Message::from(message)),
        "{count, plural,\n  =1 {item}\n  other {items}\n}"
    );
}

#[test]
fn generate_composite_message() {
    let message = CompositeMessage::new(
        None,
        vec![],
        vec![],
        vec![
            LiteralMessage::new("Hello, ".into()).into(),
            ArgumentMessage::new("name".into(), dummy()).into(),
            LiteralMessage::new("!".into()).into(),
        ],
        dummy(),
    );
    assert_eq!(convert_message_to_icu(&Message::from(message)), "Hello, {name}!");
}

#[test]
fn generate_literal_messages() {
    let msg = LiteralMessage { text: "Hello".to_string() };
    assert_eq!(generate_icu_message_format(&Message::Literal(msg)), "Hello");
}

#[test]
fn generate_composite_messages() {
    let msg = CompositeMessage {
        accessor: dummy(),
        children: vec![literal("Hello"), literal(" world")],
        context: None,
        comments: vec![],
        references: vec![],
    };
    assert_eq!(generate_icu_message_format(&Message::Composite(msg)), "Hello world");
}

#[test]
fn generate_argument_messages() {
    let msg = ArgumentMessage { identifier: "name".to_string(), expression: dummy() };
    assert_eq!(generate_icu_message_format(&Message::Argument(msg)), "{name}");
}

#[test]
fn generate_element_messages() {
    let msg = ElementMessage {
        identifier: "0".to_string(),
        expression: dummy(),
        children: vec![literal("bold")],
    };
    assert_eq!(generate_icu_message_format(&Message::Element(msg)), "<0>bold</0>");
}

#[test]
fn generate_choice_messages_with_numeric_keys_as_equals() {
    let msg = ChoiceMessage {
        kind: "plural".to_string(),
        identifier: "count".to_string(),
        expression: dummy(),
        branches: vec![
            ChoiceMessageBranch { key: "0".to_string(), value: literal("none") },
            ChoiceMessageBranch { key: "one".to_string(), value: literal("one") },
            ChoiceMessageBranch { key: "other".to_string(), value: literal("many") },
        ],
    };
    assert_eq!(
        generate_icu_message_format(&Message::Choice(msg)),
        "{count, plural,\n  =0 {none}\n  one {one}\n  other {many}\n}"
    );
}

#[test]
fn generate_choice_messages_with_ordinal_kind() {
    let msg = ChoiceMessage {
        kind: "ordinal".to_string(),
        identifier: "place".to_string(),
        expression: dummy(),
        branches: vec![
            ChoiceMessageBranch { key: "one".to_string(), value: literal("first") },
            ChoiceMessageBranch { key: "two".to_string(), value: literal("second") },
            ChoiceMessageBranch { key: "other".to_string(), value: literal("other") },
        ],
    };
    assert_eq!(
        generate_icu_message_format(&Message::Choice(msg)),
        "{place, selectordinal,\n  one {first}\n  two {second}\n  other {other}\n}"
    );
}

#[test]
fn normalise_jsx_related_whitespace() {
    let msg = CompositeMessage {
        accessor: dummy(),
        children: vec![
            literal("\n  Hello, "),
            Message::Argument(ArgumentMessage {
                identifier: "name".to_string(),
                expression: dummy(),
            }),
            literal("!\n"),
        ],
        context: None,
        comments: vec![],
        references: vec![],
    };
    assert_eq!(generate_icu_message_format(&Message::Composite(msg)), "Hello, {name}!");
}

#[test]
fn element_without_children_closes_itself() {
    let msg = ElementMessage { identifier: "0".to_string(), expression: dummy(), children: vec![] };
    assert_eq!(convert_message_to_icu(&Message::Element(msg)), "<0/>");
}

#[test]
fn element_with_an_empty_child_keeps_both_tags() {
    let msg = ElementMessage {
        identifier: "1".to_string(),
        expression: dummy(),
        children: vec![literal("")],
    };
    assert_eq!(convert_message_to_icu(&Message::Element(msg)), "<1></1>");
}

#[test]
fn branch_keys_that_spell_an_integer_get_an_equals_sign() {
    let keys = [
        ("1", "=1"),
        ("other", "other"),
        ("+5", "=5"),
        ("-3", "=-3"),
        ("007", "=7"),
        ("-0", "=0"),
        ("2147483647", "=2147483647"),
        ("2147483648", "=2147483648"),
        ("-2147483648", "=-2147483648"),
        ("-2147483649", "=-2147483649"),
        ("123456789012345678901234567890", "=123456789012345678901234567890"),
        ("-00000000000000000000000000000000000000001", "=-1"),
        ("000", "=0"),
        ("-000", "=0"),
        ("+0", "=0"),
        ("+0012", "=12"),
        ("-", "-"),
        ("--1", "--1"),
        ("+-1", "+-1"),
        ("1-", "1-"),
        ("12a", "12a"),
        ("\u{663}", "\u{663}"),
        ("1.5", "1.5"),
        ("", ""),
        ("+", "+"),
        (" 1", " 1"),
    ];
    for (key, written) in keys {
        let msg = ChoiceMessage {
            kind: "select".to_string(),
            identifier: "x".to_string(),
            expression: dummy(),
            branches: vec![ChoiceMessageBranch { key: key.to_string(), value: literal("t") }],
        };
        assert_eq!(
            convert_message_to_icu(&Message::Choice(msg)),
            format!("{{x, select,\n  {written} {{t}}\n}}")
        );
    }
}

#[test]
fn kinds_other_than_ordinal_stay_as_they_are() {
    for kind in ["select", "plural", "Ordinal", "anything"] {
        let msg = ChoiceMessage {
            kind: kind.to_string(),
            identifier: "x".to_string(),
            expression: dummy(),
            branches: vec![],
        };
        assert_eq!(
            convert_message_to_icu(&Message::Choice(msg)),
            format!("{{x, {kind},\n}}")
        );
    }
}

#[test]
fn children_keep_their_order() {
    let msg = CompositeMessage {
        accessor: dummy(),
        children: vec![
            Message::Argument(ArgumentMessage { identifier: "z".to_string(), expression: dummy() }),
            literal(" then "),
            Message::Argument(ArgumentMessage { identifier: "a".to_string(), expression: dummy() }),
        ],
        context: None,
        comments: vec![],
        references: vec![],
    };
    assert_eq!(convert_message_to_icu(&Message::Composite(msg)), "{z} then {a}");
}

#[test]
fn white_space_goes_at_the_ends_only() {
    assert_eq!(convert_message_to_icu(&literal(" \t a  b \u{a0}\u{3000}\n")), "a  b");
    assert_eq!(convert_message_to_icu(&literal(" \n ")), "");
    assert_eq!(convert_message_to_icu(&literal("\u{200b}a")), "\u{200b}a");
}

#[test]
fn nested_messages_are_written_in_place() {
    let inner = ChoiceMessage {
        kind: "plural".to_string(),
        identifier: "count".to_string(),
        expression: dummy(),
        branches: vec![
            ChoiceMessageBranch {
                key: "one".to_string(),
                value: Message::Element(ElementMessage {
                    identifier: "0".to_string(),
                    expression: dummy(),
                    children: vec![literal("item")],
                }),
            },
            ChoiceMessageBranch { key: "other".to_string(), value: literal("items") },
        ],
    };
    let msg = CompositeMessage {
        accessor: dummy(),
        children: vec![literal("You have "), Message::Choice(inner), literal(".")],
        context: None,
        comments: vec![],
        references: vec![],
    };
    assert_eq!(
        Message::Composite(msg).to_icu_string(),
        "You have {count, plural,\n  one {<0>item</0>}\n  other {items}\n}."
    );
}
