//! Recognition of messages written as JSX elements.

use vstd::prelude::*;
use vstd::string::StrSliceExecFns;
use vstd::string::StringExecFns;
use crate::context::{Context, SourceView};
use crate::js::{
    argument_for, argument_of, expression_key, found, interpolation, resolve, stepped,
    tagged_template, template_parts, use_expression_key,
};
use crate::message::{
    branches_view, messages_view, option_view, ChoiceMessage, ChoiceMessageBranch,
    CompositeMessage, CompositeView, ElementMessage, LiteralMessage, Message, MessageView,
};
use crate::syntax::{
    jsx_attrs_view, jsx_children_view, Expr, ExprView, JsxAttr, JsxAttrName, JsxAttrNameView,
    JsxAttrValue, JsxAttrValueView, JsxAttrView, JsxChild, JsxChildView, JsxElement,
    JsxElementName, JsxElementNameView, JsxElementView, TaggedTplView,
};
use crate::text::{all_digits, collapse_white_space, collapsed, decimal, is_digit, text_eq};

verus! {

/// The kind of choice that a tag name stands for: `select`, `plural` or
/// `ordinal` for `Say.Select`, `Say.Plural` and `Say.Ordinal`.
pub open spec fn say_kind(name: JsxElementNameView) -> Option<Seq<char>> {
    match name {
        JsxElementNameView::Member(object, property) => if object != "Say"@ {
            None
        } else if property == "Select"@ {
            Some("select"@)
        } else if property == "Plural"@ {
            Some("plural"@)
        } else if property == "Ordinal"@ {
            Some("ordinal"@)
        } else {
            None
        },
        _ => None,
    }
}

/// The name of an attribute, without its namespace.
pub open spec fn attribute_name(name: JsxAttrNameView) -> Seq<char> {
    match name {
        JsxAttrNameView::Ident(text) => text,
        JsxAttrNameView::Namespaced(_, text) => text,
    }
}

/// The value of the first attribute, from the one at `i` on, whose name
/// is the identifier given. The value is `None` for a bare attribute.
pub open spec fn find_attribute(attrs: Seq<JsxAttrView>, key: Seq<char>, i: int) -> Option<
    Option<JsxAttrValueView>,
>
    decreases attrs.len() - i,
{
    if i < 0 || i >= attrs.len() {
        None
    } else {
        match attrs[i] {
            JsxAttrView::Named(JsxAttrNameView::Ident(name), value) => if name == key {
                Some(value)
            } else {
                find_attribute(attrs, key, i + 1)
            },
            _ => find_attribute(attrs, key, i + 1),
        }
    }
}

/// The expression that an attribute value holds, if it holds one.
pub open spec fn attribute_expr(value: Option<JsxAttrValueView>) -> Option<ExprView> {
    match value {
        Some(JsxAttrValueView::Str(text)) => Some(ExprView::Str(text)),
        Some(JsxAttrValueView::Container(expr)) => Some(expr),
        Some(JsxAttrValueView::Element(element)) => Some(ExprView::JsxElement(element)),
        Some(JsxAttrValueView::Fragment(handle)) => Some(ExprView::JsxFragment(handle)),
        Some(JsxAttrValueView::Empty) => None,
        None => None,
    }
}

/// The context that the attributes set: the value of the first attribute
/// named `context`, where that is a string literal.
pub open spec fn attribute_context(attrs: Seq<JsxAttrView>) -> Option<Seq<char>> {
    match find_attribute(attrs, "context"@, 0) {
        Some(value) => match attribute_expr(value) {
            Some(ExprView::Str(text)) => Some(text),
            _ => None,
        },
        None => None,
    }
}

/// The value that a choice goes by: the expression held by the first
/// attribute named `_`.
pub open spec fn discriminant(attrs: Seq<JsxAttrView>) -> Option<ExprView> {
    match find_attribute(attrs, "_"@, 0) {
        Some(value) => attribute_expr(value),
        None => None,
    }
}

/// Whether a name is an underscore followed by digits only: the way a
/// numeric branch key is written as an attribute.
pub open spec fn is_escaped_number(name: Seq<char>) -> bool {
    name.len() >= 2 && name[0] == '_' && all_digits(name.skip(1))
}

/// The branch key that an attribute name stands for.
pub open spec fn branch_key(name: Seq<char>) -> Seq<char> {
    if is_escaped_number(name) {
        name.skip(1)
    } else {
        name
    }
}

/// The element that stands for a part with no further structure.
pub open spec fn bare_element(expression: ExprView, n: nat) -> (MessageView, nat) {
    (
        MessageView::Element { identifier: decimal(n), children: Seq::empty(), expression },
        n + 1,
    )
}

/// The message of an element inside a message: the message it is
/// recognised as, else an element that wraps the messages of its
/// children. With the counter after it.
pub open spec fn jsx_nested(element: JsxElementView, n: nat) -> (MessageView, nat)
    decreases element, 2nat,
{
    match jsx_element(element, n).0 {
        Some(composite) => (MessageView::Composite(composite), jsx_element(element, n).1),
        None => if element.self_closing {
            bare_element(ExprView::JsxElement(Box::new(element)), n)
        } else {
            let inner = jsx_children(element.children, 0, Seq::empty(), n + 1);
            (
                MessageView::Element {
                    identifier: decimal(n),
                    children: inner.0,
                    expression: ExprView::JsxElement(Box::new(element)),
                },
                inner.1,
            )
        },
    }
}

/// The message of a JSX element: of `<Say.Select ../>` and its like where
/// it closes itself, of `<Say>..</Say>` where it does not. With the
/// counter after it, which is left alone where nothing is recognised.
pub open spec fn jsx_element(element: JsxElementView, n: nat) -> (Option<CompositeView>, nat)
    decreases element, 1nat,
{
    if element.self_closing {
        jsx_self_closing(element, n)
    } else {
        jsx_container(element, n)
    }
}

/// The message of `<Say>..</Say>`: the messages of its children.
pub open spec fn jsx_container(element: JsxElementView, n: nat) -> (Option<CompositeView>, nat)
    decreases element, 0nat,
{
    if element.name == JsxElementNameView::Ident("Say"@) && !element.self_closing {
        let inner = jsx_children(element.children, 0, Seq::empty(), n);
        (
            Some(
                CompositeView {
                    context: attribute_context(element.attrs),
                    comments: Seq::empty(),
                    references: Seq::empty(),
                    children: inner.0,
                    accessor: ExprView::Ident("Say"@),
                },
            ),
            inner.1,
        )
    } else {
        (None, n)
    }
}

/// The messages of the children from the one at `i` on, after `done`:
/// text with its white space collapsed, an expression as an argument, an
/// element as [`jsx_nested`] says, a fragment as a bare element.
pub open spec fn jsx_children(children: Seq<JsxChildView>, i: int, done: Seq<MessageView>, n: nat)
    -> (Seq<MessageView>, nat)
    decreases children, children.len() - i,
{
    if i < 0 || i >= children.len() {
        (done, n)
    } else {
        match children[i] {
            JsxChildView::Text(text) => jsx_children(
                children,
                i + 1,
                done.push(MessageView::Literal { text: collapsed(text) }),
                n,
            ),
            JsxChildView::Container(expr) => jsx_children(
                children,
                i + 1,
                done.push(argument_of(expr, n).0),
                argument_of(expr, n).1,
            ),
            JsxChildView::Element(element) => jsx_children(
                children,
                i + 1,
                done.push(jsx_nested(*element, n).0),
                jsx_nested(*element, n).1,
            ),
            JsxChildView::Fragment(handle) => jsx_children(
                children,
                i + 1,
                done.push(bare_element(ExprView::JsxFragment(handle), n).0),
                n + 1,
            ),
            JsxChildView::Opaque(_) => jsx_children(children, i + 1, done, n),
        }
    }
}

/// The message of an attribute value as a branch: a string is text, an
/// expression is an element where it is one and an argument otherwise.
/// `None` for any other value: such a branch is left out.
pub open spec fn attribute_message(value: JsxAttrValueView, n: nat) -> Option<(MessageView, nat)>
    decreases value, 0nat,
{
    match value {
        JsxAttrValueView::Str(text) => Some((MessageView::Literal { text }, n)),
        JsxAttrValueView::Container(expr) => Some(
            match expr {
                ExprView::JsxElement(element) => jsx_nested(*element, n),
                ExprView::JsxFragment(_) => bare_element(expr, n),
                _ => argument_of(expr, n),
            },
        ),
        _ => None,
    }
}

/// The branches of a choice from the attribute at `i` on, after `done`:
/// one for each attribute with a value, but those named `_` and
/// `context`, in the order written.
pub open spec fn attribute_branches(
    attrs: Seq<JsxAttrView>,
    i: int,
    done: Seq<(Seq<char>, MessageView)>,
    n: nat,
) -> (Seq<(Seq<char>, MessageView)>, nat)
    decreases attrs, attrs.len() - i,
{
    if i < 0 || i >= attrs.len() {
        (done, n)
    } else {
        match attrs[i] {
            JsxAttrView::Named(name, Some(value)) => if attribute_name(name) == "_"@
                || attribute_name(name) == "context"@ {
                attribute_branches(attrs, i + 1, done, n)
            } else {
                match attribute_message(value, n) {
                    Some(message) => attribute_branches(
                        attrs,
                        i + 1,
                        done.push((branch_key(attribute_name(name)), message.0)),
                        message.1,
                    ),
                    None => attribute_branches(attrs, i + 1, done, n),
                }
            },
            _ => attribute_branches(attrs, i + 1, done, n),
        }
    }
}

/// The message of `<Say.Select _={value} .. />`, `<Say.Plural .. />` or
/// `<Say.Ordinal .. />`: one choice by the value of the attribute `_`.
pub open spec fn jsx_self_closing(element: JsxElementView, n: nat) -> (Option<CompositeView>, nat)
    decreases element, 0nat,
{
    if element.self_closing && say_kind(element.name) is Some && discriminant(element.attrs)
        is Some {
        let branches = attribute_branches(element.attrs, 0, Seq::empty(), n);
        let value = discriminant(element.attrs)->0;
        let key = expression_key(value, branches.1);
        (
            Some(
                CompositeView {
                    context: attribute_context(element.attrs),
                    comments: Seq::empty(),
                    references: Seq::empty(),
                    children: seq![
                        MessageView::Choice {
                            kind: say_kind(element.name)->0,
                            identifier: key.0,
                            branches: branches.0,
                            expression: value,
                        },
                    ],
                    accessor: ExprView::Ident("Say"@),
                },
            ),
            key.1,
        )
    } else {
        (None, n)
    }
}

/// What an optional attribute value is, as a mathematical value.
pub open spec fn value_view(value: Option<JsxAttrValue>) -> Option<JsxAttrValueView> {
    match value {
        Some(v) => Some(v@),
        None => None,
    }
}

/// What an optional expression is, as a mathematical value.
pub open spec fn expr_option_view(e: Option<Expr>) -> Option<ExprView> {
    match e {
        Some(expr) => Some(expr@),
        None => None,
    }
}

/// What an optional message is, as a mathematical value.
pub open spec fn message_option_view(m: Option<Message>) -> Option<MessageView> {
    match m {
        Some(message) => Some(message@),
        None => None,
    }
}

fn say_kind_of(name: &JsxElementName) -> (r: Option<String>)
    ensures
        option_view(r) == say_kind(name@),
{
    match name {
        JsxElementName::Member(object, property) => {
            if !text_eq(object.as_str(), "Say") {
                None
            } else if text_eq(property.as_str(), "Select") {
                Some(String::from_str("select"))
            } else if text_eq(property.as_str(), "Plural") {
                Some(String::from_str("plural"))
            } else if text_eq(property.as_str(), "Ordinal") {
                Some(String::from_str("ordinal"))
            } else {
                None
            }
        },
        _ => None,
    }
}

fn use_attribute_name<'a>(name: &'a JsxAttrName) -> (r: &'a String)
    ensures
        r@ == attribute_name(name@),
{
    match name {
        JsxAttrName::Ident(text) => text,
        JsxAttrName::Namespaced(_, text) => text,
    }
}

fn find_attribute_value<'a>(attrs: &'a Vec<JsxAttr>, key: &str) -> (r: Option<
    &'a Option<JsxAttrValue>,
>)
    ensures
        match r {
            Some(value) => find_attribute(jsx_attrs_view(attrs@), key@, 0) == Some(
                value_view(*value),
            ),
            None => find_attribute(jsx_attrs_view(attrs@), key@, 0) is None,
        },
{
    let ghost all = jsx_attrs_view(attrs@);
    let mut i: usize = 0;
    while i < attrs.len()
        invariant
            i <= attrs.len(),
            all == jsx_attrs_view(attrs@),
            find_attribute(all, key@, i as int) == find_attribute(all, key@, 0),
        decreases attrs.len() - i,
    {
        assert(all[i as int] == attrs[i as int]@);
        match &attrs[i] {
            JsxAttr::Named(JsxAttrName::Ident(name), value) => {
                if text_eq(name.as_str(), key) {
                    return Some(value);
                }
            },
            _ => {},
        }
        i = i + 1;
    }
    None
}

fn use_attribute_value(value: &Option<JsxAttrValue>) -> (r: Option<Expr>)
    ensures
        expr_option_view(r) == attribute_expr(value_view(*value)),
{
    match value {
        Some(JsxAttrValue::Str(text)) => Some(Expr::Str(text.clone())),
        Some(JsxAttrValue::Container(expr)) => Some(expr.clone()),
        Some(JsxAttrValue::Element(element)) => {
            let copy: JsxElement = (**element).clone();
            Some(Expr::JsxElement(Box::new(copy)))
        },
        Some(JsxAttrValue::Fragment(handle)) => Some(Expr::JsxFragment(*handle)),
        Some(JsxAttrValue::Empty) => None,
        None => None,
    }
}

fn context_of_attributes(attrs: &Vec<JsxAttr>) -> (r: Option<String>)
    ensures
        option_view(r) == attribute_context(jsx_attrs_view(attrs@)),
{
    match find_attribute_value(attrs, "context") {
        Some(Some(JsxAttrValue::Str(text))) => Some(text.clone()),
        Some(Some(JsxAttrValue::Container(Expr::Str(text)))) => Some(text.clone()),
        _ => None,
    }
}

fn use_branch_key(name: &str) -> (r: String)
    ensures
        r@ == branch_key(name@),
{
    let n = name.unicode_len();
    if n < 2 || name.get_char(0) != '_' {
        return String::from_str(name);
    }
    let mut i: usize = 1;
    while i < n
        invariant
            1 <= i <= n,
            n == name@.len(),
            n >= 2,
            name@[0] == '_',
            forall|j: int| 1 <= j < i ==> is_digit(#[trigger] name@[j]),
        decreases n - i,
    {
        let c = name.get_char(i);
        if !('0' <= c && c <= '9') {
            assert(name@.skip(1)[i - 1] == name@[i as int]);
            assert(!all_digits(name@.skip(1)));
            return String::from_str(name);
        }
        i = i + 1;
    }
    assert forall|j: int| 0 <= j < name@.skip(1).len() implies is_digit(
        #[trigger] name@.skip(1)[j],
    ) by {
        assert(name@.skip(1)[j] == name@[j + 1]);
    }
    let rest = name.substring_char(1, n);
    assert(rest@ =~= name@.skip(1));
    String::from_str(rest)
}

fn bare_element_for(ctx: &mut Context, expression: Expr) -> (r: Message)
    ensures
        r@ == bare_element(expression@, old(ctx).count()).0,
        stepped(old(ctx), final(ctx), old(ctx).count() + 1),
{
    let identifier = ctx.identifier_store.next();
    let children: Vec<Message> = Vec::new();
    assert(messages_view(children@) =~= Seq::<MessageView>::empty());
    Message::Element(ElementMessage::new(identifier, children, expression))
}

fn parse_jsx_nested(ctx: &mut Context, element: &JsxElement) -> (r: Message)
    ensures
        r@ == jsx_nested(element@, old(ctx).count()).0,
        stepped(
            old(ctx),
            final(ctx),
            jsx_nested(element@, old(ctx).count()).1,
        ),
    decreases element, 2nat,
{
    let recognised = if element.self_closing {
        parse_jsx_self_closing_element(ctx, element)
    } else {
        parse_jsx_container_element(ctx, element)
    };
    match recognised {
        Some(composite) => Message::Composite(composite),
        None => {
            let expression = Expr::JsxElement(Box::new(element.clone()));
            if element.self_closing {
                bare_element_for(ctx, expression)
            } else {
                let identifier = ctx.identifier_store.next();
                let children = parse_jsx_children(ctx, &element.children);
                Message::Element(ElementMessage::new(identifier, children, expression))
            }
        },
    }
}

/// Recognises a JSX element as a message: `<Say>..</Say>`, or
/// `<Say.Select ../>` and its like. With `fallback`, any other element
/// becomes an element message that wraps the messages of its children;
/// without, it is left alone, and so is the store.
pub fn parse_jsx_element(ctx: &mut Context, element: &JsxElement, fallback: bool) -> (r: Option<
    Message,
>)
    ensures
        message_option_view(r) == if fallback {
            Some(jsx_nested(element@, old(ctx).count()).0)
        } else {
            match jsx_element(element@, old(ctx).count()).0 {
                Some(composite) => Some(MessageView::Composite(composite)),
                None => None,
            }
        },
        stepped(
            old(ctx),
            final(ctx),
            if fallback {
                jsx_nested(element@, old(ctx).count()).1
            } else {
                jsx_element(element@, old(ctx).count()).1
            },
        ),
{
    if fallback {
        Some(parse_jsx_nested(ctx, element))
    } else {
        let recognised = if element.self_closing {
            parse_jsx_self_closing_element(ctx, element)
        } else {
            parse_jsx_container_element(ctx, element)
        };
        match recognised {
            Some(composite) => Some(Message::Composite(composite)),
            None => None,
        }
    }
}

fn parse_jsx_children(ctx: &mut Context, children: &Vec<JsxChild>) -> (r: Vec<Message>)
    ensures
        messages_view(r@) == jsx_children(
            jsx_children_view(children@),
            0,
            Seq::empty(),
            old(ctx).count(),
        ).0,
        stepped(
            old(ctx),
            final(ctx),
            jsx_children(jsx_children_view(children@), 0, Seq::empty(), old(ctx).count()).1,
        ),
    decreases children, 0nat,
{
    let ghost start = ctx.count();
    let ghost all = jsx_children_view(children@);
    let mut out: Vec<Message> = Vec::new();
    let mut i: usize = 0;
    assert(messages_view(out@) =~= Seq::<MessageView>::empty());
    while i < children.len()
        invariant
            i <= children.len(),
            all == jsx_children_view(children@),
            start == old(ctx).count(),
            ctx.same_but_store(old(ctx)),
            jsx_children(all, i as int, messages_view(out@), ctx.count()) == jsx_children(
                all,
                0,
                Seq::empty(),
                start,
            ),
        decreases children.len() - i,
    {
        assert(all[i as int] == children[i as int]@);
        let ghost done = messages_view(out@);
        match &children[i] {
            JsxChild::Text(text) => {
                let literal = Message::Literal(
                    LiteralMessage::new(collapse_white_space(text.as_str())),
                );
                out.push(literal);
                assert(messages_view(out@) =~= done.push(literal@));
            },
            JsxChild::Container(expr) => {
                let argument = argument_for(ctx, expr);
                out.push(argument);
                assert(messages_view(out@) =~= done.push(argument@));
            },
            JsxChild::Element(element) => {
                let nested = parse_jsx_nested(ctx, element);
                out.push(nested);
                assert(messages_view(out@) =~= done.push(nested@));
            },
            JsxChild::Fragment(handle) => {
                let bare = bare_element_for(ctx, Expr::JsxFragment(*handle));
                out.push(bare);
                assert(messages_view(out@) =~= done.push(bare@));
            },
            JsxChild::Opaque(_) => {},
        }
        i = i + 1;
    }
    out
}

/// Recognises `<Say>..</Say>`: text children with their white space
/// collapsed, expressions as arguments, elements as nested messages.
/// Anything else is left alone, and so is the store.
pub fn parse_jsx_container_element(ctx: &mut Context, element: &JsxElement) -> (r: Option<
    CompositeMessage,
>)
    ensures
        found(r) == jsx_container(element@, old(ctx).count()).0,
        stepped(
            old(ctx),
            final(ctx),
            jsx_container(element@, old(ctx).count()).1,
        ),
    decreases element, 0nat,
{
    if element.self_closing {
        return None;
    }
    match &element.name {
        JsxElementName::Ident(name) => {
            if !text_eq(name.as_str(), "Say") {
                return None;
            }
            let children = parse_jsx_children(ctx, &element.children);
            let context = context_of_attributes(&element.attrs);
            let comments: Vec<String> = Vec::new();
            let references: Vec<String> = Vec::new();
            assert(crate::syntax::strings_view(comments@) =~= Seq::<Seq<char>>::empty());
            assert(crate::syntax::strings_view(references@) =~= Seq::<Seq<char>>::empty());
            Some(
                CompositeMessage::new(
                    context,
                    comments,
                    references,
                    children,
                    Expr::Ident(name.clone()),
                ),
            )
        },
        _ => None,
    }
}

fn parse_attribute_message(ctx: &mut Context, value: &JsxAttrValue) -> (r: Option<Message>)
    ensures
        match r {
            Some(message) => attribute_message(value@, old(ctx).count()) == Some(
                (message@, final(ctx).count()),
            ),
            None => attribute_message(value@, old(ctx).count()) is None && final(ctx).count()
                == old(ctx).count(),
        },
        final(ctx).same_but_store(old(ctx)),
    decreases value, 0nat,
{
    match value {
        JsxAttrValue::Str(text) => Some(Message::Literal(LiteralMessage::new(text.clone()))),
        JsxAttrValue::Container(expr) => Some(
            match expr {
                Expr::JsxElement(element) => parse_jsx_nested(ctx, element),
                Expr::JsxFragment(_) => bare_element_for(ctx, expr.clone()),
                _ => argument_for(ctx, expr),
            },
        ),
        _ => None,
    }
}

fn parse_attribute_branches(ctx: &mut Context, attrs: &Vec<JsxAttr>) -> (r: Vec<
    ChoiceMessageBranch,
>)
    ensures
        branches_view(r@) == attribute_branches(
            jsx_attrs_view(attrs@),
            0,
            Seq::empty(),
            old(ctx).count(),
        ).0,
        stepped(
            old(ctx),
            final(ctx),
            attribute_branches(jsx_attrs_view(attrs@), 0, Seq::empty(), old(ctx).count()).1,
        ),
    decreases attrs, 0nat,
{
    let ghost start = ctx.count();
    let ghost all = jsx_attrs_view(attrs@);
    let mut branches: Vec<ChoiceMessageBranch> = Vec::new();
    let mut i: usize = 0;
    assert(branches_view(branches@) =~= Seq::<(Seq<char>, MessageView)>::empty());
    while i < attrs.len()
        invariant
            i <= attrs.len(),
            all == jsx_attrs_view(attrs@),
            start == old(ctx).count(),
            ctx.same_but_store(old(ctx)),
            attribute_branches(all, i as int, branches_view(branches@), ctx.count())
                == attribute_branches(all, 0, Seq::empty(), start),
        decreases attrs.len() - i,
    {
        assert(all[i as int] == attrs[i as int]@);
        match &attrs[i] {
            JsxAttr::Named(name, Some(value)) => {
                let key = use_attribute_name(name);
                if !text_eq(key.as_str(), "_") && !text_eq(key.as_str(), "context") {
                    let ghost done = branches_view(branches@);
                    match parse_attribute_message(ctx, value) {
                        Some(message) => {
                            let branch = ChoiceMessageBranch {
                                key: use_branch_key(key.as_str()),
                                value: message,
                            };
                            branches.push(branch);
                            assert(branches_view(branches@) =~= done.push(
                                (branch_key(key@), message@),
                            ));
                        },
                        None => {},
                    }
                }
            },
            _ => {},
        }
        i = i + 1;
    }
    branches
}

/// Recognises `<Say.Select _={value} .. />`, `<Say.Plural .. />` and
/// `<Say.Ordinal .. />`: one choice by the value of the attribute `_`,
/// with a branch for every other attribute but `context`. Anything else,
/// and an element without a value in `_`, is left alone, and so is the
/// store.
pub fn parse_jsx_self_closing_element(ctx: &mut Context, element: &JsxElement) -> (r: Option<
    CompositeMessage,
>)
    ensures
        found(r) == jsx_self_closing(element@, old(ctx).count()).0,
        stepped(
            old(ctx),
            final(ctx),
            jsx_self_closing(element@, old(ctx).count()).1,
        ),
    decreases element, 0nat,
{
    if !element.self_closing {
        return None;
    }
    let kind = match say_kind_of(&element.name) {
        Some(kind) => kind,
        None => {
            return None;
        },
    };
    let value = match find_attribute_value(&element.attrs, "_") {
        Some(initializer) => match use_attribute_value(initializer) {
            Some(value) => value,
            None => {
                return None;
            },
        },
        None => {
            return None;
        },
    };
    let branches = parse_attribute_branches(ctx, &element.attrs);
    let identifier = use_expression_key(ctx, &value);
    let accessor = Expr::Ident(String::from_str("Say"));
    let choice = ChoiceMessage::new(kind, identifier, branches, value);
    let context = context_of_attributes(&element.attrs);
    let comments: Vec<String> = Vec::new();
    let references: Vec<String> = Vec::new();
    assert(crate::syntax::strings_view(comments@) =~= Seq::<Seq<char>>::empty());
    assert(crate::syntax::strings_view(references@) =~= Seq::<Seq<char>>::empty());
    let mut children: Vec<Message> = Vec::new();
    children.push(Message::Choice(choice));
    assert(messages_view(children@) =~= seq![choice@]);
    Some(CompositeMessage::new(context, comments, references, children, accessor))
}

/// The children of `<Say>` that say what a template says: each literal
/// piece as text, each interpolation in braces behind its piece.
pub open spec fn template_children(quasis: Seq<Seq<char>>, exprs: Seq<ExprView>) -> Seq<
    JsxChildView,
> {
    Seq::new(
        quasis.len() + exprs.len(),
        |k: int|
            if k % 2 == 0 {
                JsxChildView::Text(quasis[k / 2])
            } else {
                JsxChildView::Container(exprs[k / 2])
            },
    )
}

proof fn lemma_front_ends_agree_from(
    src: SourceView,
    quasis: Seq<Seq<char>>,
    exprs: Seq<ExprView>,
    i: int,
    done: Seq<MessageView>,
    n: nat,
)
    requires
        quasis.len() == exprs.len() + 1,
        0 <= i <= quasis.len(),
        forall|k: int| 0 <= k < quasis.len() ==> collapsed(#[trigger] quasis[k]) == quasis[k],
        forall|k: int, m: nat|
            0 <= k < exprs.len() ==> #[trigger] interpolation(src, exprs[k], m) == argument_of(
                exprs[k],
                m,
            ),
    ensures
        jsx_children(template_children(quasis, exprs), 2 * i, done, n) == template_parts(
            src,
            quasis,
            exprs,
            i,
            done,
            n,
        ),
    decreases quasis.len() - i,
{
    let kids = template_children(quasis, exprs);
    if i < quasis.len() {
        let with_text = done.push(MessageView::Literal { text: quasis[i] });
        assert(kids[2 * i] == JsxChildView::Text(quasis[i]));
        assert(jsx_children(kids, 2 * i, done, n) == jsx_children(kids, 2 * i + 1, with_text, n));
        if i < exprs.len() {
            let part = argument_of(exprs[i], n);
            assert(interpolation(src, exprs[i], n) == part);
            assert(kids[2 * i + 1] == JsxChildView::Container(exprs[i]));
            assert(jsx_children(kids, 2 * i + 1, with_text, n) == jsx_children(
                kids,
                2 * i + 2,
                with_text.push(part.0),
                part.1,
            ));
            lemma_front_ends_agree_from(src, quasis, exprs, i + 1, with_text.push(part.0), part.1);
        } else {
            assert(jsx_children(kids, 2 * i + 1, with_text, n) == (with_text, n));
            lemma_front_ends_agree_from(src, quasis, exprs, i + 1, with_text, n);
        }
    }
}

/// A template and a `<Say>` element that say the same give the same
/// children, identifiers included: for a template whose pieces hold no
/// white space that collapsing would change, and whose interpolations
/// are no messages themselves.
pub proof fn lemma_front_ends_agree(
    src: SourceView,
    quasis: Seq<Seq<char>>,
    exprs: Seq<ExprView>,
    n: nat,
)
    requires
        quasis.len() == exprs.len() + 1,
        forall|k: int| 0 <= k < quasis.len() ==> collapsed(#[trigger] quasis[k]) == quasis[k],
        forall|k: int, m: nat|
            0 <= k < exprs.len() ==> #[trigger] interpolation(src, exprs[k], m) == argument_of(
                exprs[k],
                m,
            ),
    ensures
        jsx_children(template_children(quasis, exprs), 0, Seq::empty(), n) == template_parts(
            src,
            quasis,
            exprs,
            0,
            Seq::empty(),
            n,
        ),
{
    lemma_front_ends_agree_from(src, quasis, exprs, 0, Seq::empty(), n);
}

/// A tagged template and the `<Say>` element that says the same are
/// recognised as messages with the same children, and leave the counter
/// at the same number.
pub proof fn lemma_say_element_matches_template(
    src: SourceView,
    tpl: TaggedTplView,
    element: JsxElementView,
    n: nat,
)
    requires
        resolve(*tpl.tag) is Some,
        element.name == JsxElementNameView::Ident("Say"@),
        !element.self_closing,
        element.children == template_children(tpl.quasis, tpl.exprs),
        tpl.quasis.len() == tpl.exprs.len() + 1,
        forall|k: int|
            0 <= k < tpl.quasis.len() ==> collapsed(#[trigger] tpl.quasis[k]) == tpl.quasis[k],
        forall|k: int, m: nat|
            0 <= k < tpl.exprs.len() ==> #[trigger] interpolation(src, tpl.exprs[k], m)
                == argument_of(tpl.exprs[k], m),
    ensures
        jsx_container(element, n).0 is Some,
        tagged_template(src, tpl, n).0 is Some,
        jsx_container(element, n).0->0.children == tagged_template(src, tpl, n).0->0.children,
        jsx_container(element, n).1 == tagged_template(src, tpl, n).1,
{
    lemma_front_ends_agree(src, tpl.quasis, tpl.exprs, n);
}

} // verus!
