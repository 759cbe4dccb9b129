use sayable::context::Context;
use sayable::js::parse_tagged_template;
use sayable::jsx::{
    parse_jsx_container_element, parse_jsx_element, parse_jsx_self_closing_element,
};
use sayable::message::{
    ArgumentMessage, ChoiceMessage, ChoiceMessageBranch, CompositeMessage, ElementMessage,
    LiteralMessage, Message,
};
use sayable::syntax::{
    Expr, JsxAttr, JsxAttrName, JsxAttrValue, JsxChild, JsxElement, JsxElementName, TaggedTpl,
};

fn ident(name: &str) -> Expr {
    Expr::Ident(name.to_string())
}

fn text(value: &str) -> JsxChild {
    JsxChild::Text(value.to_string())
}

fn element(name: &str, attrs: Vec<JsxAttr>, children: Vec<JsxChild>) -> JsxElement {
    JsxElement {
        name: JsxElementName::Ident(name.to_string()),
        attrs,
        self_closing: false,
        children,
    }
}

fn closed(name: JsxElementName, attrs: Vec<JsxAttr>) -> JsxElement {
    JsxElement { name, attrs, self_closing: true, children: vec![] }
}

fn say(property: &str) -> JsxElementName {
    JsxElementName::Member("Say".to_string(), property.to_string())
}

fn attr(name: &str, value: JsxAttrValue) -> JsxAttr {
    JsxAttr::Named(JsxAttrName::Ident(name.to_string()), Some(value))
}

fn string(value: &str) -> JsxAttrValue {
    JsxAttrValue::Str(value.to_string())
}

fn literal(value: &str) -> Message {
    Message::Literal(LiteralMessage { text: value.to_string() })
}

fn argument(identifier: &str, expression: Expr) -> Message {
    Message::Argument(ArgumentMessage { identifier: identifier.to_string(), expression })
}

fn branch(key: &str, value: Message) -> ChoiceMessageBranch {
    ChoiceMessageBranch { key: key.to_string(), value }
}

fn composite(children: Vec<Message>) -> CompositeMessage {
    CompositeMessage {
        context: None,
        comments: vec![],
        references: vec![],
        children,
        accessor: ident("Say"),
    }
}

fn fresh() -> Context {
    Context::new(None, vec![])
}

#[test]
fn say_element_becomes_literals_and_arguments() {
    let mut ctx = fresh();
    let node = element(
        "Say",
        vec![],
        vec![text("Hello, "), JsxChild::Container(ident("name")), text("!")],
    );
    let message = parse_jsx_container_element(&mut ctx, &node).unwrap();
    assert_eq!(
        message,
        composite(vec![literal("Hello, "), argument("name", ident("name")), literal("!")])
    );
    assert_eq!(Message::Composite(message).to_icu_string(), "Hello, {name}!");
}

#[test]
fn say_element_and_tagged_template_give_the_same_children() {
    let mut ctx = fresh();
    let node = element(
        "Say",
        vec![],
        vec![text("Hello, "), JsxChild::Container(ident("name")), text("!")],
    );
    let from_jsx = parse_jsx_container_element(&mut ctx, &node).unwrap();
    let mut ctx = fresh();
    let tpl = TaggedTpl {
        tag: Box::new(ident("say")),
        quasis: vec!["Hello, ".to_string(), "!".to_string()],
        exprs: vec![ident("name")],
        pos: 0,
    };
    let from_template = parse_tagged_template(&mut ctx, &tpl).unwrap();
    assert_eq!(from_jsx.children, from_template.children);
    assert_eq!(from_jsx.context, from_template.context);
    assert_eq!(
        Message::Composite(from_jsx).to_hash_string(),
        Message::Composite(from_template).to_hash_string()
    );
}

#[test]
fn text_has_its_white_space_collapsed() {
    let mut ctx = fresh();
    let node = element(
        "Say",
        vec![],
        vec![text("\n    Hello,\t\tdear  \u{a0}\u{2003} "), JsxChild::Container(ident("name"))],
    );
    let message = parse_jsx_container_element(&mut ctx, &node).unwrap();
    assert_eq!(message.children[0], literal(" Hello, dear "));
    let node = element("Say", vec![], vec![text("a\u{200b}b"), text(""), text("   "), text("x")]);
    let message = parse_jsx_container_element(&mut ctx, &node).unwrap();
    assert_eq!(
        message.children,
        vec![literal("a\u{200b}b"), literal(""), literal(" "), literal("x")]
    );
}

#[test]
fn other_elements_wrap_the_messages_of_their_children() {
    let mut ctx = fresh();
    let bold = element("b", vec![], vec![text("very "), JsxChild::Container(Expr::Opaque(3))]);
    let line_break = closed(JsxElementName::Ident("br".to_string()), vec![]);
    let node = element(
        "Say",
        vec![],
        vec![
            JsxChild::Container(Expr::Opaque(1)),
            JsxChild::Element(Box::new(bold.clone())),
            JsxChild::Element(Box::new(line_break.clone())),
            JsxChild::Fragment(8),
            JsxChild::Opaque(9),
            JsxChild::Container(Expr::Opaque(2)),
        ],
    );
    let message = parse_jsx_container_element(&mut ctx, &node).unwrap();
    assert_eq!(
        message.children,
        vec![
            argument("0", Expr::Opaque(1)),
            Message::Element(ElementMessage {
                identifier: "1".to_string(),
                children: vec![literal("very "), argument("2", Expr::Opaque(3))],
                expression: Expr::JsxElement(Box::new(bold)),
            }),
            Message::Element(ElementMessage {
                identifier: "3".to_string(),
                children: vec![],
                expression: Expr::JsxElement(Box::new(line_break)),
            }),
            Message::Element(ElementMessage {
                identifier: "4".to_string(),
                children: vec![],
                expression: Expr::JsxFragment(8),
            }),
            argument("5", Expr::Opaque(2)),
        ]
    );
    assert_eq!(
        Message::Composite(message).to_icu_string(),
        "{0}<1>very {2}</1><3/><4/>{5}"
    );
    assert_eq!(ctx.identifier_store.next(), "6");
}

#[test]
fn nested_say_elements_become_nested_composites() {
    let mut ctx = fresh();
    let plural = closed(
        say("Plural"),
        vec![
            attr("_", JsxAttrValue::Container(ident("count"))),
            attr("one", string("item")),
            attr("other", string("items")),
        ],
    );
    let inner = element("Say", vec![], vec![text("inner")]);
    let node = element(
        "Say",
        vec![],
        vec![
            text("You have "),
            JsxChild::Element(Box::new(plural)),
            JsxChild::Element(Box::new(inner)),
        ],
    );
    let message = parse_jsx_container_element(&mut ctx, &node).unwrap();
    assert_eq!(
        message.children,
        vec![
            literal("You have "),
            Message::Composite(composite(vec![Message::Choice(ChoiceMessage {
                kind: "plural".to_string(),
                identifier: "count".to_string(),
                branches: vec![branch("one", literal("item")), branch("other", literal("items"))],
                expression: ident("count"),
            })])),
            Message::Composite(composite(vec![literal("inner")])),
        ]
    );
}

#[test]
fn elements_that_are_no_message_are_left_alone() {
    let mut ctx = fresh();
    let div = element("div", vec![], vec![JsxChild::Container(Expr::Opaque(1))]);
    assert_eq!(parse_jsx_container_element(&mut ctx, &div), None);
    let closed_say = closed(JsxElementName::Ident("Say".to_string()), vec![]);
    assert_eq!(parse_jsx_container_element(&mut ctx, &closed_say), None);
    assert_eq!(parse_jsx_self_closing_element(&mut ctx, &closed_say), None);
    let mut open_select = closed(say("Select"), vec![attr("_", string("x"))]);
    open_select.self_closing = false;
    assert_eq!(parse_jsx_container_element(&mut ctx, &open_select), None);
    assert_eq!(parse_jsx_self_closing_element(&mut ctx, &open_select), None);
    let other_kind = closed(say("Choose"), vec![attr("_", JsxAttrValue::Container(ident("x")))]);
    assert_eq!(parse_jsx_self_closing_element(&mut ctx, &other_kind), None);
    let lower_case = closed(say("select"), vec![attr("_", JsxAttrValue::Container(ident("x")))]);
    assert_eq!(parse_jsx_self_closing_element(&mut ctx, &lower_case), None);
    let other_object = closed(
        JsxElementName::Member("Tell".to_string(), "Select".to_string()),
        vec![attr("_", JsxAttrValue::Container(ident("x")))],
    );
    assert_eq!(parse_jsx_self_closing_element(&mut ctx, &other_object), None);
    assert_eq!(parse_jsx_element(&mut ctx, &div, false), None);
    assert_eq!(ctx.identifier_store.next(), "0");
}

#[test]
fn choice_without_a_value_is_left_alone_and_hands_out_nothing() {
    let mut ctx = fresh();
    let attrs = vec![attr("one", JsxAttrValue::Container(Expr::Opaque(1)))];
    assert_eq!(parse_jsx_self_closing_element(&mut ctx, &closed(say("Plural"), attrs)), None);
    let attrs = vec![
        attr("one", JsxAttrValue::Container(Expr::Opaque(1))),
        JsxAttr::Named(JsxAttrName::Ident("_".to_string()), None),
    ];
    assert_eq!(parse_jsx_self_closing_element(&mut ctx, &closed(say("Plural"), attrs)), None);
    let attrs = vec![
        attr("_", JsxAttrValue::Empty),
        attr("one", JsxAttrValue::Container(Expr::Opaque(1))),
    ];
    assert_eq!(parse_jsx_self_closing_element(&mut ctx, &closed(say("Plural"), attrs)), None);
    assert_eq!(ctx.identifier_store.next(), "0");
}

#[test]
fn self_closing_choice_takes_a_branch_from_each_attribute() {
    let mut ctx = fresh();
    let strong = element("strong", vec![], vec![text("many")]);
    let node = closed(
        say("Ordinal"),
        vec![
            attr("_0", string("none")),
            attr("context", string("ranking")),
            attr("_1", JsxAttrValue::Container(Expr::Opaque(1))),
            JsxAttr::Spread(7),
            attr("_", JsxAttrValue::Container(Expr::Opaque(2))),
            attr("_x1", string("kept")),
            JsxAttr::Named(JsxAttrName::Ident("bare".to_string()), None),
            attr("skipped", JsxAttrValue::Empty),
            attr("fragment", JsxAttrValue::Fragment(4)),
            attr("inline", JsxAttrValue::Container(Expr::JsxFragment(5))),
            JsxAttr::Named(
                JsxAttrName::Namespaced("xml".to_string(), "two".to_string()),
                Some(JsxAttrValue::Container(ident("two"))),
            ),
            attr("other", JsxAttrValue::Container(Expr::JsxElement(Box::new(strong.clone())))),
            attr("__", string("underscores")),
            attr("_12a", string("no number")),
        ],
    );
    let message = parse_jsx_self_closing_element(&mut ctx, &node).unwrap();
    assert_eq!(message.context, Some("ranking".to_string()));
    assert_eq!(message.accessor, ident("Say"));
    assert_eq!(
        message.children,
        vec![Message::Choice(ChoiceMessage {
            kind: "ordinal".to_string(),
            identifier: "3".to_string(),
            branches: vec![
                branch("0", literal("none")),
                branch("1", argument("0", Expr::Opaque(1))),
                branch("_x1", literal("kept")),
                branch(
                    "inline",
                    Message::Element(ElementMessage {
                        identifier: "1".to_string(),
                        children: vec![],
                        expression: Expr::JsxFragment(5),
                    })
                ),
                branch("two", argument("two", ident("two"))),
                branch(
                    "other",
                    Message::Element(ElementMessage {
                        identifier: "2".to_string(),
                        children: vec![literal("many")],
                        expression: Expr::JsxElement(Box::new(strong)),
                    })
                ),
                branch("__", literal("underscores")),
                branch("_12a", literal("no number")),
            ],
            expression: Expr::Opaque(2),
        })]
    );
    assert_eq!(ctx.identifier_store.next(), "4");
}

#[test]
fn context_attribute_sets_the_context_of_a_say_element() {
    let mut ctx = fresh();
    let node = element("Say", vec![attr("context", string("direction"))], vec![text("Right")]);
    let message = parse_jsx_container_element(&mut ctx, &node).unwrap();
    assert_eq!(message.context, Some("direction".to_string()));
    let held = JsxAttrValue::Container(Expr::Str("direction".to_string()));
    let node = element("Say", vec![attr("context", held)], vec![text("Right")]);
    let message = parse_jsx_container_element(&mut ctx, &node).unwrap();
    assert_eq!(message.context, Some("direction".to_string()));
    let node = element(
        "Say",
        vec![attr("context", JsxAttrValue::Container(ident("direction")))],
        vec![text("Right")],
    );
    let message = parse_jsx_container_element(&mut ctx, &node).unwrap();
    assert_eq!(message.context, None);
}

#[test]
fn fallback_turns_any_element_into_a_message() {
    let mut ctx = fresh();
    let span = element("span", vec![], vec![text("a  b")]);
    assert_eq!(
        parse_jsx_element(&mut ctx, &span, true),
        Some(Message::Element(ElementMessage {
            identifier: "0".to_string(),
            children: vec![literal("a b")],
            expression: Expr::JsxElement(Box::new(span.clone())),
        }))
    );
    let say_element = element("Say", vec![], vec![text("x")]);
    assert_eq!(
        parse_jsx_element(&mut ctx, &say_element, true),
        Some(Message::Composite(composite(vec![literal("x")])))
    );
    assert_eq!(
        parse_jsx_element(&mut ctx, &say_element, false),
        Some(Message::Composite(composite(vec![literal("x")])))
    );
    assert_eq!(ctx.identifier_store.next(), "1");
}
