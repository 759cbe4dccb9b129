use sayable::generator::{
    generate_child_expressions, generate_message_id, generate_say_call_expression,
    generate_say_jsx_element,
};
use sayable::hash::generate_hash;
use sayable::message::{
    ArgumentMessage, ChoiceMessage, ChoiceMessageBranch, CompositeMessage, ElementMessage,
    LiteralMessage, Message,
};
use sayable::syntax::{
    CallExpr, Expr, ExprOrSpread, JsxAttr, JsxAttrName, JsxAttrValue, JsxChild, JsxElement,
    JsxElementName, MemberProp, Prop, PropName,
};

fn ident(name: &str) -> Expr {
    Expr::Ident(name.to_string())
}

fn literal(value: &str) -> Message {
    Message::Literal(LiteralMessage { text: value.to_string() })
}

fn argument(identifier: &str, expression: Expr) -> Message {
    Message::Argument(ArgumentMessage { identifier: identifier.to_string(), expression })
}

fn composite(accessor: Expr, context: Option<&str>, children: Vec<Message>) -> CompositeMessage {
    CompositeMessage {
        context: context.map(|c| c.to_string()),
        comments: vec![],
        references: vec![],
        children,
        accessor,
    }
}

fn key_value(key: &str, value: Expr) -> Prop {
    Prop::KeyValue(PropName::Ident(key.to_string()), value)
}

fn held(name: &str, value: Expr) -> JsxAttr {
    JsxAttr::Named(JsxAttrName::Ident(name.to_string()), Some(JsxAttrValue::Container(value)))
}

fn nested() -> Vec<Message> {
    let span = JsxElement {
        name: JsxElementName::Ident("span".to_string()),
        attrs: vec![held("class", Expr::Str("x".to_string()))],
        self_closing: false,
        children: vec![JsxChild::Text("inner".to_string())],
    };
    vec![
        literal("a"),
        argument("z", Expr::Opaque(1)),
        Message::Element(ElementMessage {
            identifier: "0".to_string(),
            children: vec![argument("y", Expr::Opaque(2)), literal("b")],
            expression: Expr::JsxElement(Box::new(span)),
        }),
        Message::Choice(ChoiceMessage {
            kind: "select".to_string(),
            identifier: "kind".to_string(),
            branches: vec![
                ChoiceMessageBranch { key: "b".to_string(), value: argument("x", Expr::Opaque(3)) },
                ChoiceMessageBranch { key: "a".to_string(), value: literal("c") },
                ChoiceMessageBranch {
                    key: "other".to_string(),
                    value: Message::Composite(composite(
                        ident("say"),
                        None,
                        vec![argument("1.5", Expr::Opaque(4))],
                    )),
                },
            ],
            expression: ident("kind"),
        }),
        argument("z", Expr::Opaque(5)),
    ]
}

#[test]
fn hello_name_becomes_a_call_with_id_and_name() {
    let message = composite(
        ident("say"),
        None,
        vec![literal("Hello, "), argument("name", ident("name")), literal("!")],
    );
    let id = generate_hash("Hello, {name}!", None);
    assert_eq!(
        generate_say_call_expression(&message),
        CallExpr {
            callee: Box::new(Expr::Member(
                Box::new(ident("say")),
                MemberProp::Ident("call".to_string())
            )),
            args: vec![ExprOrSpread {
                spread: false,
                expr: Expr::Object(vec![
                    key_value("id", Expr::Str(id)),
                    key_value("name", ident("name")),
                ]),
            }],
            pos: 0,
        }
    );
}

#[test]
fn message_id_is_the_hash_of_text_and_context() {
    let children = || vec![literal("  my "), literal("message ")];
    let message = composite(ident("say"), None, children());
    assert_eq!(generate_message_id(&message), "vQhkQx");
    let message = composite(ident("say"), Some("some context"), children());
    assert_eq!(generate_message_id(&message), "NHsKx2");
    assert_eq!(Message::Composite(message).to_hash_string(), "NHsKx2");
    assert_eq!(literal("my message").to_hash_string(), "vQhkQx");
}

#[test]
fn entries_follow_a_walk_from_the_top() {
    let entries = generate_child_expressions(&nested());
    let names: Vec<&str> = entries.iter().map(|(name, _)| name.as_str()).collect();
    assert_eq!(names, vec!["z", "0", "y", "kind", "x", "1.5", "z"]);
    assert_eq!(entries[0].1, Expr::Opaque(1));
    assert_eq!(entries[2].1, Expr::Opaque(2));
    assert_eq!(entries[3].1, ident("kind"));
    assert_eq!(entries[5].1, Expr::Opaque(4));
    assert_eq!(entries[6].1, Expr::Opaque(5));
    assert_eq!(generate_child_expressions(&vec![literal("only text")]), vec![]);
}

#[test]
fn call_keeps_every_entry_under_its_identifier() {
    let message = composite(
        Expr::Member(Box::new(ident("intl")), MemberProp::Ident("say".to_string())),
        Some("ctx"),
        nested(),
    );
    let call = generate_say_call_expression(&message);
    let Expr::Object(props) = &call.args[0].expr else {
        panic!("the argument is an object");
    };
    let keys: Vec<String> = props
        .iter()
        .map(|prop| match prop {
            Prop::KeyValue(PropName::Ident(name), _) => name.clone(),
            _ => panic!("every property has an identifier as its key"),
        })
        .collect();
    assert_eq!(keys, vec!["id", "z", "0", "y", "kind", "x", "1.5", "z"]);
    assert_eq!(props[0], key_value("id", Expr::Str(generate_message_id(&message))));
    assert_eq!(
        *call.callee,
        Expr::Member(Box::new(message.accessor.clone()), MemberProp::Ident("call".to_string()))
    );
}

#[test]
fn jsx_form_escapes_numbers_and_strips_children() {
    let message = composite(ident("Say"), None, nested());
    let element = generate_say_jsx_element(&message);
    assert_eq!(element.name, JsxElementName::Ident("Say".to_string()));
    assert!(element.self_closing);
    assert!(element.children.is_empty());
    let names: Vec<String> = element
        .attrs
        .iter()
        .map(|attr| match attr {
            JsxAttr::Named(JsxAttrName::Ident(name), Some(JsxAttrValue::Container(_))) => {
                name.clone()
            }
            _ => panic!("every attribute holds an expression"),
        })
        .collect();
    assert_eq!(names, vec!["id", "z", "_0", "y", "kind", "x", "_1.5", "z"]);
    assert_eq!(element.attrs[0], held("id", Expr::Str(generate_message_id(&message))));
    let stripped = JsxElement {
        name: JsxElementName::Ident("span".to_string()),
        attrs: vec![held("class", Expr::Str("x".to_string()))],
        self_closing: false,
        children: vec![],
    };
    assert_eq!(element.attrs[2], held("_0", Expr::JsxElement(Box::new(stripped))));
}

#[test]
fn keys_written_as_numbers_are_escaped() {
    let keys = [
        ("0", "_0"),
        ("12", "_12"),
        ("1.5", "_1.5"),
        ("5.", "_5."),
        (".5", "_.5"),
        ("1e5", "_1e5"),
        ("1E-5", "_1E-5"),
        ("+3", "_+3"),
        ("-3.25e+10", "_-3.25e+10"),
        ("inf", "_inf"),
        ("-Infinity", "_-Infinity"),
        ("NaN", "_NaN"),
        ("name", "name"),
        ("_0", "_0"),
        ("", ""),
        (".", "."),
        ("e5", "e5"),
        ("1e", "1e"),
        ("1e+", "1e+"),
        ("1.5.2", "1.5.2"),
        ("0x10", "0x10"),
        ("1 ", "1 "),
        ("infinit", "infinit"),
        ("nano", "nano"),
        ("+", "+"),
        ("1_000", "1_000"),
        ("\u{663}", "\u{663}"),
    ];
    for (key, written) in keys {
        assert_eq!(key.parse::<f64>().is_ok(), key != written, "{key}");
        let message = composite(ident("Say"), None, vec![argument(key, Expr::Opaque(0))]);
        let element = generate_say_jsx_element(&message);
        assert_eq!(element.attrs[1], held(written, Expr::Opaque(0)), "{key}");
    }
}

#[test]
fn call_as_an_expression_is_the_same_call() {
    let message = composite(ident("say"), Some("ctx"), nested());
    assert_eq!(
        sayable::generator::generate_say_expression(&message),
        Expr::Call(generate_say_call_expression(&message))
    );
}
