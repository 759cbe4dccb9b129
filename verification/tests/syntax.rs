use sayable::message::{ArgumentMessage, LiteralMessage, Message};
use sayable::syntax::{
    CallExpr, Expr, ExprOrSpread, JsxAttr, JsxAttrName, JsxAttrValue, JsxChild, JsxElement,
    JsxElementName, MemberProp, Prop, PropName,
};

fn ident(name: &str) -> Expr {
    Expr::Ident(name.to_string())
}

fn sample_call() -> CallExpr {
    CallExpr {
        callee: Box::new(Expr::Member(
            Box::new(ident("say")),
            MemberProp::Ident("plural".to_string()),
        )),
        args: vec![
            ExprOrSpread { spread: false, expr: ident("count") },
            ExprOrSpread {
                spread: true,
                expr: Expr::Object(vec![
                    Prop::KeyValue(PropName::Ident("one".to_string()), Expr::Str("x".to_string())),
                    Prop::Opaque(1),
                ]),
            },
        ],
        pos: 3,
    }
}

fn sample_element() -> JsxElement {
    JsxElement {
        name: JsxElementName::Ident("Say".to_string()),
        attrs: vec![
            JsxAttr::Named(
                JsxAttrName::Ident("a".to_string()),
                Some(JsxAttrValue::Container(ident("a"))),
            ),
            JsxAttr::Spread(2),
            JsxAttr::Named(JsxAttrName::Ident("b".to_string()), None),
        ],
        self_closing: false,
        children: vec![
            JsxChild::Text("t".to_string()),
            JsxChild::Container(Expr::Call(sample_call())),
            JsxChild::Element(Box::new(JsxElement {
                name: JsxElementName::Ident("br".to_string()),
                attrs: vec![],
                self_closing: true,
                children: vec![],
            })),
        ],
    }
}

#[test]
fn copies_are_equal_to_what_they_copy() {
    let expr = Expr::JsxElement(Box::new(sample_element()));
    assert_eq!(expr.clone(), expr);
    let call = sample_call();
    assert_eq!(call.clone(), call);
    let message = Message::Argument(ArgumentMessage {
        identifier: "x".to_string(),
        expression: Expr::Call(sample_call()),
    });
    assert_eq!(message.clone(), message);
}

#[test]
fn each_kind_of_message_makes_a_message() {
    let literal = LiteralMessage::new("text".to_string());
    assert_eq!(
        Message::from(literal),
        Message::Literal(LiteralMessage { text: "text".to_string() })
    );
    let argument = ArgumentMessage::new("x".to_string(), ident("x"));
    assert_eq!(
        Message::from(argument),
        Message::Argument(ArgumentMessage { identifier: "x".to_string(), expression: ident("x") })
    );
}
