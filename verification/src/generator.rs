//! The code that replaces a recognised message: a call of the accessor's
//! `call` method, or a JSX element named after the accessor, with the
//! identifier of the message and the values it interpolates.

use vstd::prelude::*;
use vstd::string::StringExecFns;
use crate::hash::{generate_hash, hash_text};
use crate::icu::{convert_message_to_icu, icu_text};
use crate::message::{
    branches_view, messages_view, ChoiceMessageBranch, CompositeMessage, CompositeView, Message,
    MessageView,
};
use crate::syntax::{
    CallExpr, CallExprView, Expr, ExprOrSpread, ExprOrSpreadView, ExprView, JsxAttr, JsxAttrName,
    JsxAttrNameView, JsxAttrValue, JsxAttrValueView, JsxAttrView, JsxChild, JsxChildView,
    JsxElement, JsxElementName, JsxElementNameView, JsxElementView, MemberProp, MemberPropView,
    Prop, PropName, PropNameView, PropView,
};
use crate::text::{is_numeric, is_numeric_text};

verus! {

/// What a message contributes to the values handed over at run time:
/// an argument, an element and a choice their identifier and expression,
/// an element and a choice then what their children and branches
/// contribute; a composite what its children contribute; text nothing.
pub open spec fn message_entries(m: MessageView) -> Seq<(Seq<char>, ExprView)>
    decreases m,
{
    match m {
        MessageView::Literal { .. } => Seq::empty(),
        MessageView::Argument { identifier, expression } => seq![(identifier, expression)],
        MessageView::Element { identifier, children, expression } => seq![
            (identifier, expression),
        ] + entries(children),
        MessageView::Choice { identifier, branches, expression, .. } => seq![
            (identifier, expression),
        ] + branch_entries(branches),
        MessageView::Composite(composite) => entries(composite.children),
    }
}

/// What the messages contribute, one after the other in the order given.
pub open spec fn entries(messages: Seq<MessageView>) -> Seq<(Seq<char>, ExprView)>
    decreases messages,
{
    if messages.len() == 0 {
        Seq::empty()
    } else {
        entries(messages.drop_last()) + message_entries(messages.last())
    }
}

/// What the branches contribute, one after the other in the order given.
pub open spec fn branch_entries(branches: Seq<(Seq<char>, MessageView)>) -> Seq<
    (Seq<char>, ExprView),
>
    decreases branches,
{
    if branches.len() == 0 {
        Seq::empty()
    } else {
        branch_entries(branches.drop_last()) + message_entries(branches.last().1)
    }
}

/// What a list of named expressions is, as a mathematical value.
pub open spec fn entries_view(v: Seq<(String, Expr)>) -> Seq<(Seq<char>, ExprView)> {
    Seq::new(v.len(), |i: int| (v[i].0@, v[i].1@))
}

/// The identifier of a message: the hash of its ICU text and its context.
pub open spec fn message_id(m: CompositeView) -> Seq<char> {
    hash_text(icu_text(MessageView::Composite(m)), m.context)
}

/// The properties of the object handed to `call`: `id`, then one for
/// each entry of the message.
pub open spec fn call_properties(id: Seq<char>, values: Seq<(Seq<char>, ExprView)>) -> Seq<
    PropView,
> {
    Seq::new(
        values.len() + 1,
        |i: int|
            if i == 0 {
                PropView::KeyValue(PropNameView::Ident("id"@), ExprView::Str(id))
            } else {
                PropView::KeyValue(PropNameView::Ident(values[i - 1].0), values[i - 1].1)
            },
    )
}

/// The call `accessor.call({ id: "..", .. })` that stands for a message
/// at run time.
pub open spec fn say_call(m: CompositeView) -> CallExprView {
    CallExprView {
        callee: Box::new(
            ExprView::Member(Box::new(m.accessor), MemberPropView::Ident("call"@)),
        ),
        args: seq![
            ExprOrSpreadView {
                spread: false,
                expr: ExprView::Object(call_properties(message_id(m), entries(m.children))),
            },
        ],
        pos: 0,
    }
}

/// The name of the attribute that carries the value of a key: a key that
/// is written as a number gets an underscore in front, since no attribute
/// name begins with a digit.
pub open spec fn attribute_key(key: Seq<char>) -> Seq<char> {
    if is_numeric(key) {
        seq!['_'] + key
    } else {
        key
    }
}

/// The value of an attribute: the expression, a JSX element without its
/// children.
pub open spec fn attribute_value(e: ExprView) -> ExprView {
    match e {
        ExprView::JsxElement(element) => ExprView::JsxElement(
            Box::new(
                JsxElementView {
                    name: element.name,
                    attrs: element.attrs,
                    self_closing: element.self_closing,
                    children: Seq::empty(),
                },
            ),
        ),
        _ => e,
    }
}

/// The attributes of the element that stands for a message: `id`, then
/// one for each entry of the message.
pub open spec fn jsx_properties(id: Seq<char>, values: Seq<(Seq<char>, ExprView)>) -> Seq<
    JsxAttrView,
> {
    Seq::new(
        values.len() + 1,
        |i: int|
            if i == 0 {
                JsxAttrView::Named(
                    JsxAttrNameView::Ident("id"@),
                    Some(JsxAttrValueView::Container(ExprView::Str(id))),
                )
            } else {
                JsxAttrView::Named(
                    JsxAttrNameView::Ident(attribute_key(values[i - 1].0)),
                    Some(JsxAttrValueView::Container(attribute_value(values[i - 1].1))),
                )
            },
    )
}

/// The element `<Accessor id={".."} .. />` that stands for a message at
/// run time.
pub open spec fn say_jsx(m: CompositeView) -> JsxElementView
    recommends
        m.accessor is Ident,
{
    JsxElementView {
        name: JsxElementNameView::Ident(m.accessor->Ident_0),
        attrs: jsx_properties(message_id(m), entries(m.children)),
        self_closing: true,
        children: Seq::empty(),
    }
}

fn collect_message(message: &Message, out: &mut Vec<(String, Expr)>)
    ensures
        entries_view(final(out)@) == entries_view(old(out)@) + message_entries(message@),
    decreases message,
{
    let ghost before = entries_view(out@);
    match message {
        Message::Literal(_) => {
            assert(before =~= before + Seq::<(Seq<char>, ExprView)>::empty());
        },
        Message::Argument(argument) => {
            out.push((argument.identifier.clone(), argument.expression.clone()));
            assert(entries_view(out@) =~= before + message_entries(message@));
        },
        Message::Element(element) => {
            out.push((element.identifier.clone(), element.expression.clone()));
            assert(entries_view(out@) =~= before + seq![
                (element.identifier@, element.expression@),
            ]);
            collect_all(&element.children, out);
            assert(entries_view(out@) =~= before + message_entries(message@));
        },
        Message::Choice(choice) => {
            out.push((choice.identifier.clone(), choice.expression.clone()));
            assert(entries_view(out@) =~= before + seq![(choice.identifier@, choice.expression@)]);
            collect_branches(&choice.branches, out);
            assert(entries_view(out@) =~= before + message_entries(message@));
        },
        Message::Composite(composite) => {
            collect_all(&composite.children, out);
        },
    }
}

fn collect_all(messages: &Vec<Message>, out: &mut Vec<(String, Expr)>)
    ensures
        entries_view(final(out)@) == entries_view(old(out)@) + entries(messages_view(messages@)),
    decreases messages,
{
    let ghost before = entries_view(out@);
    let ghost all = messages_view(messages@);
    let mut i: usize = 0;
    assert(before =~= before + entries(all.take(0)));
    while i < messages.len()
        invariant
            i <= messages.len(),
            all == messages_view(messages@),
            entries_view(out@) == before + entries(all.take(i as int)),
        decreases messages.len() - i,
    {
        collect_message(&messages[i], out);
        proof {
            let next = all.take(i + 1);
            assert(next.drop_last() =~= all.take(i as int));
            assert(next.last() == messages[i as int]@);
            assert(entries_view(out@) =~= before + entries(next));
        }
        i = i + 1;
    }
    assert(all.take(i as int) =~= all);
}

fn collect_branches(branches: &Vec<ChoiceMessageBranch>, out: &mut Vec<(String, Expr)>)
    ensures
        entries_view(final(out)@) == entries_view(old(out)@) + branch_entries(
            branches_view(branches@),
        ),
    decreases branches,
{
    let ghost before = entries_view(out@);
    let ghost all = branches_view(branches@);
    let mut i: usize = 0;
    assert(before =~= before + branch_entries(all.take(0)));
    while i < branches.len()
        invariant
            i <= branches.len(),
            all == branches_view(branches@),
            entries_view(out@) == before + branch_entries(all.take(i as int)),
        decreases branches.len() - i,
    {
        collect_message(&branches[i].value, out);
        proof {
            let next = all.take(i + 1);
            assert(next.drop_last() =~= all.take(i as int));
            assert(next.last() == branches[i as int]@);
            assert(entries_view(out@) =~= before + branch_entries(next));
        }
        i = i + 1;
    }
    assert(all.take(i as int) =~= all);
}

/// The values that the messages interpolate, each with its identifier, in
/// the order in which a walk from the top meets them.
pub fn generate_child_expressions(messages: &Vec<Message>) -> (r: Vec<(String, Expr)>)
    ensures
        entries_view(r@) == entries(messages_view(messages@)),
{
    let mut out: Vec<(String, Expr)> = Vec::new();
    assert(entries_view(out@) =~= Seq::<(Seq<char>, ExprView)>::empty());
    collect_all(messages, &mut out);
    assert(entries_view(out@) =~= entries(messages_view(messages@)));
    out
}

/// The identifier of a message: the hash of its ICU text and its context.
pub fn generate_message_id(message: &CompositeMessage) -> (r: String)
    ensures
        r@ == message_id(message@),
{
    let icu = convert_message_to_icu(&Message::Composite(message.clone()));
    match &message.context {
        Some(context) => generate_hash(icu.as_str(), Some(context.as_str())),
        None => generate_hash(icu.as_str(), None),
    }
}

/// The call `accessor.call({ id: "..", .. })` that stands for the message
/// at run time: `id` is the hash of the message, and each value that the
/// message interpolates follows under its identifier.
pub fn generate_say_call_expression(message: &CompositeMessage) -> (r: CallExpr)
    ensures
        r@ == say_call(message@),
{
    let id = generate_message_id(message);
    let values = generate_child_expressions(&message.children);
    let ghost wanted = call_properties(id@, entries_view(values@));
    let mut props: Vec<Prop> = Vec::new();
    props.push(Prop::KeyValue(PropName::Ident(String::from_str("id")), Expr::Str(id)));
    let mut i: usize = 0;
    while i < values.len()
        invariant
            i <= values.len(),
            props@.len() == i + 1,
            wanted == call_properties(id@, entries_view(values@)),
            forall|j: int| 0 <= j < props@.len() ==> (#[trigger] props@[j])@ == wanted[j],
        decreases values.len() - i,
    {
        let name = values[i].0.clone();
        let value = values[i].1.clone();
        props.push(Prop::KeyValue(PropName::Ident(name), value));
        i = i + 1;
    }
    assert(crate::syntax::props_view(props@) =~= wanted);
    let mut args: Vec<ExprOrSpread> = Vec::new();
    args.push(ExprOrSpread { spread: false, expr: Expr::Object(props) });
    assert(crate::syntax::args_view(args@) =~= say_call(message@).args);
    CallExpr {
        callee: Box::new(
            Expr::Member(
                Box::new(message.accessor.clone()),
                MemberProp::Ident(String::from_str("call")),
            ),
        ),
        args,
        pos: 0,
    }
}

/// The call that stands for the message at run time, as an expression.
pub fn generate_say_expression(message: &CompositeMessage) -> (r: Expr)
    ensures
        r@ == ExprView::Call(say_call(message@)),
{
    Expr::Call(generate_say_call_expression(message))
}

fn attribute_key_of(key: &String) -> (r: String)
    ensures
        r@ == attribute_key(key@),
{
    if is_numeric_text(key.as_str()) {
        let mut out = String::from_str("_");
        out.append(key.as_str());
        proof {
            reveal_strlit("_");
            assert("_"@ =~= seq!['_']);
        }
        out
    } else {
        key.clone()
    }
}

fn attribute_value_of(e: &Expr) -> (r: Expr)
    ensures
        r@ == attribute_value(e@),
{
    match e {
        Expr::JsxElement(element) => {
            let copy: JsxElement = (**element).clone();
            let children: Vec<JsxChild> = Vec::new();
            assert(crate::syntax::jsx_children_view(children@) =~= Seq::<JsxChildView>::empty());
            let bare = JsxElement {
                name: copy.name,
                attrs: copy.attrs,
                self_closing: copy.self_closing,
                children,
            };
            assert(copy@ == element@);
            assert(bare@.name == element@.name);
            assert(bare@.attrs == element@.attrs);
            Expr::JsxElement(Box::new(bare))
        },
        _ => e.clone(),
    }
}

/// The element `<Accessor id={".."} .. />` that stands for the message
/// at run time, for a message whose accessor is an identifier: `id` is
/// the hash of the message, and each value that the message interpolates
/// follows under its identifier, an element among them without its
/// children.
pub fn generate_say_jsx_element(message: &CompositeMessage) -> (r: JsxElement)
    requires
        message@.accessor is Ident,
    ensures
        r@ == say_jsx(message@),
{
    let id = generate_message_id(message);
    let values = generate_child_expressions(&message.children);
    let ghost wanted = jsx_properties(id@, entries_view(values@));
    let mut attrs: Vec<JsxAttr> = Vec::new();
    attrs.push(
        JsxAttr::Named(
            JsxAttrName::Ident(String::from_str("id")),
            Some(JsxAttrValue::Container(Expr::Str(id))),
        ),
    );
    let mut i: usize = 0;
    while i < values.len()
        invariant
            i <= values.len(),
            attrs@.len() == i + 1,
            wanted == jsx_properties(id@, entries_view(values@)),
            forall|j: int| 0 <= j < attrs@.len() ==> (#[trigger] attrs@[j])@ == wanted[j],
        decreases values.len() - i,
    {
        let name = attribute_key_of(&values[i].0);
        let value = attribute_value_of(&values[i].1);
        attrs.push(JsxAttr::Named(JsxAttrName::Ident(name), Some(JsxAttrValue::Container(value))));
        i = i + 1;
    }
    assert(crate::syntax::jsx_attrs_view(attrs@) =~= wanted);
    let children: Vec<JsxChild> = Vec::new();
    assert(crate::syntax::jsx_children_view(children@) =~= Seq::<JsxChildView>::empty());
    let name = match &message.accessor {
        Expr::Ident(name) => name.clone(),
        _ => String::new(),
    };
    JsxElement { name: JsxElementName::Ident(name), attrs, self_closing: true, children }
}

impl Message {
    /// The ICU MessageFormat text of the message.
    pub fn to_icu_string(&self) -> (r: String)
        ensures
            r@ == icu_text(self@),
    {
        convert_message_to_icu(self)
    }

    /// The identifier of the message: the hash of its ICU text, and of
    /// its context where it is a composite.
    pub fn to_hash_string(&self) -> (r: String)
        ensures
            r@ == hash_text(
                icu_text(self@),
                match self@ {
                    MessageView::Composite(composite) => composite.context,
                    _ => None,
                },
            ),
    {
        let icu = convert_message_to_icu(self);
        match self {
            Message::Composite(composite) => match &composite.context {
                Some(context) => generate_hash(icu.as_str(), Some(context.as_str())),
                None => generate_hash(icu.as_str(), None),
            },
            _ => generate_hash(icu.as_str(), None),
        }
    }
}

} // verus!
