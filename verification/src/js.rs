//! Recognition of messages written as tagged templates and calls.

use vstd::prelude::*;
use crate::context::{
    get_position_comments, get_position_reference, position_comments, position_references, Context,
    SourceView,
};
use crate::message::{
    branches_view, messages_view, option_view, ArgumentMessage, ChoiceMessage,
    ChoiceMessageBranch, CompositeMessage, CompositeView, LiteralMessage, Message, MessageView,
};
use crate::syntax::{
    props_view, strings_view, CallExpr, CallExprView, Expr, ExprView, MemberProp, MemberPropView,
    Prop, PropName, PropNameView, PropView, TaggedTpl, TaggedTplView,
};
use crate::text::{decimal, text_eq};

verus! {

/// What the tag of a template or the callee of a call stands for.
pub struct Resolved {
    /// The expression that reaches `say`.
    pub accessor: ExprView,
    /// The members of the object literal that `say` was invoked with.
    pub descriptor: Option<Seq<PropView>>,
    /// The property read last, after `say` was reached.
    pub kind: Option<Seq<char>>,
}

/// Follows member accesses and calls down to `say`: the identifier `say`
/// itself, a property `.say` of anything, either of them invoked with one
/// object literal, or a property of any of these.
pub open spec fn resolve(e: ExprView) -> Option<Resolved>
    decreases e,
{
    match e {
        ExprView::Ident(name) => if name == "say"@ {
            Some(Resolved { accessor: e, descriptor: None, kind: None })
        } else {
            None
        },
        ExprView::Call(call) => match resolve(*call.callee) {
            Some(inner) => if call.args.len() == 1 && call.args[0].expr is Object {
                Some(
                    Resolved {
                        accessor: inner.accessor,
                        descriptor: Some(call.args[0].expr->Object_0),
                        kind: None,
                    },
                )
            } else {
                None
            },
            None => None,
        },
        ExprView::Member(obj, prop) => match resolve(*obj) {
            Some(inner) => Some(
                Resolved {
                    accessor: inner.accessor,
                    descriptor: inner.descriptor,
                    kind: match prop {
                        MemberPropView::Ident(name) => Some(name),
                        MemberPropView::Opaque(_) => None,
                    },
                },
            ),
            None => if prop == MemberPropView::Ident("say"@) {
                Some(Resolved { accessor: e, descriptor: None, kind: None })
            } else {
                None
            },
        },
        _ => None,
    }
}

/// The value of the first property `key: value`, from member `i` on, whose
/// key is the identifier given.
pub open spec fn find_property(props: Seq<PropView>, key: Seq<char>, i: int) -> Option<ExprView>
    decreases props.len() - i,
{
    if i < 0 || i >= props.len() {
        None
    } else {
        match props[i] {
            PropView::KeyValue(PropNameView::Ident(name), value) => if name == key {
                Some(value)
            } else {
                find_property(props, key, i + 1)
            },
            _ => find_property(props, key, i + 1),
        }
    }
}

/// The context that a descriptor sets: the value of its first property
/// named `context`, where that is a string literal.
pub open spec fn descriptor_context(descriptor: Option<Seq<PropView>>) -> Option<Seq<char>> {
    match descriptor {
        Some(props) => match find_property(props, "context"@, 0) {
            Some(ExprView::Str(value)) => Some(value),
            _ => None,
        },
        None => None,
    }
}

/// The identifier of an expression and the counter after it: the name of
/// an identifier, else the counter in decimal, which then moves one up.
pub open spec fn expression_key(e: ExprView, n: nat) -> (Seq<char>, nat) {
    match e {
        ExprView::Ident(name) => (name, n),
        _ => (decimal(n), n + 1),
    }
}

/// The key of a branch and the counter after it: the key as written, or
/// for a computed key the counter in decimal, which then moves one up.
pub open spec fn property_key(name: PropNameView, n: nat) -> (Seq<char>, nat) {
    match name {
        PropNameView::Ident(text) => (text, n),
        PropNameView::Str(text) => (text, n),
        PropNameView::Num(text) => (text, n),
        PropNameView::Opaque(_) => (decimal(n), n + 1),
    }
}

/// Whether a property name is one of the three kinds of choice.
pub open spec fn is_choice_kind(kind: Seq<char>) -> bool {
    kind == "select"@ || kind == "ordinal"@ || kind == "plural"@
}

/// The argument that stands for an expression that is no message.
pub open spec fn argument_of(e: ExprView, n: nat) -> (MessageView, nat) {
    (
        MessageView::Argument { identifier: expression_key(e, n).0, expression: e },
        expression_key(e, n).1,
    )
}

/// The message of an expression where one is needed: the message it is
/// recognised as, else an argument. With the counter after it.
pub open spec fn interpolation(src: SourceView, e: ExprView, n: nat) -> (MessageView, nat)
    decreases e, 0nat,
{
    match e {
        ExprView::TaggedTpl(tpl) => match tagged_template(src, tpl, n).0 {
            Some(composite) => (MessageView::Composite(composite), tagged_template(src, tpl, n).1),
            None => argument_of(e, n),
        },
        ExprView::Call(call) => match call_expression(src, call, n).0 {
            Some(composite) => (MessageView::Composite(composite), call_expression(src, call, n).1),
            None => argument_of(e, n),
        },
        _ => argument_of(e, n),
    }
}

/// The message of a tagged template whose tag resolves to `say`: the
/// literal pieces and the interpolations in the order written. With the
/// counter after it, which is left alone where nothing is recognised.
pub open spec fn tagged_template(src: SourceView, tpl: TaggedTplView, n: nat) -> (
    Option<CompositeView>,
    nat,
)
    decreases tpl, 0nat,
{
    match resolve(*tpl.tag) {
        Some(tag) => {
            let parts = template_parts(src, tpl.quasis, tpl.exprs, 0, Seq::empty(), n);
            (
                Some(
                    CompositeView {
                        context: descriptor_context(tag.descriptor),
                        comments: position_comments(src.comments, tpl.pos),
                        references: position_references(src.file, tpl.pos),
                        children: parts.0,
                        accessor: tag.accessor,
                    },
                ),
                parts.1,
            )
        },
        None => (None, n),
    }
}

/// The children of a template from piece `i` on, after `done`: each piece
/// as a literal, followed by the message of the interpolation behind it.
pub open spec fn template_parts(
    src: SourceView,
    quasis: Seq<Seq<char>>,
    exprs: Seq<ExprView>,
    i: int,
    done: Seq<MessageView>,
    n: nat,
) -> (Seq<MessageView>, nat)
    decreases exprs, quasis.len() - i,
{
    if i < 0 || i >= quasis.len() {
        (done, n)
    } else {
        let with_text = done.push(MessageView::Literal { text: quasis[i] });
        if i < exprs.len() {
            let part = interpolation(src, exprs[i], n);
            template_parts(src, quasis, exprs, i + 1, with_text.push(part.0), part.1)
        } else {
            template_parts(src, quasis, exprs, i + 1, with_text, n)
        }
    }
}

/// The message of one branch of a choice written as a call: a string or
/// number literal is text, anything else is taken as an interpolation.
pub open spec fn branch_value(src: SourceView, e: ExprView, n: nat) -> (MessageView, nat)
    decreases e, 1nat,
{
    match e {
        ExprView::Str(value) => (MessageView::Literal { text: value }, n),
        ExprView::Num(text) => (MessageView::Literal { text }, n),
        _ => interpolation(src, e, n),
    }
}

/// The branches of a choice from member `i` of the object literal on,
/// after `done`: one for each `key: value`, in the order written.
pub open spec fn object_branches(
    src: SourceView,
    props: Seq<PropView>,
    i: int,
    done: Seq<(Seq<char>, MessageView)>,
    n: nat,
) -> (Seq<(Seq<char>, MessageView)>, nat)
    decreases props, props.len() - i,
{
    if i < 0 || i >= props.len() {
        (done, n)
    } else {
        match props[i] {
            PropView::KeyValue(name, value) => {
                let key = property_key(name, n);
                let message = branch_value(src, value, key.1);
                object_branches(src, props, i + 1, done.push((key.0, message.0)), message.1)
            },
            PropView::Opaque(_) => object_branches(src, props, i + 1, done, n),
        }
    }
}

/// The message of a call `say.kind(value, { branches })` with kind
/// `select`, `plural` or `ordinal`: one choice. With the counter after it,
/// which is left alone where nothing is recognised.
pub open spec fn call_expression(src: SourceView, call: CallExprView, n: nat) -> (
    Option<CompositeView>,
    nat,
)
    decreases call, 0nat,
{
    match resolve(*call.callee) {
        Some(callee) => if callee.kind is Some && is_choice_kind(callee.kind->0)
            && call.args.len() == 2 && call.args[1].expr is Object {
            let branches = object_branches(
                src,
                call.args[1].expr->Object_0,
                0,
                Seq::empty(),
                n,
            );
            let value = call.args[0].expr;
            let key = expression_key(value, branches.1);
            (
                Some(
                    CompositeView {
                        context: descriptor_context(callee.descriptor),
                        comments: position_comments(src.comments, call.pos),
                        references: position_references(src.file, call.pos),
                        children: seq![
                            MessageView::Choice {
                                kind: callee.kind->0,
                                identifier: key.0,
                                branches: branches.0,
                                expression: value,
                            },
                        ],
                        accessor: callee.accessor,
                    },
                ),
                key.1,
            )
        } else {
            (None, n)
        },
        None => (None, n),
    }
}

/// What a recognised message is, as a mathematical value.
pub open spec fn found(r: Option<CompositeMessage>) -> Option<CompositeView> {
    match r {
        Some(message) => Some(message@),
        None => None,
    }
}

/// Whether `after` is `before` with the counter moved to `n`.
pub open spec fn stepped(before: &Context, after: &Context, n: nat) -> bool {
    &&& after.same_but_store(before)
    &&& after.count() == n
}

fn process_expression<'a>(expr: &'a Expr) -> (r: Option<
    (&'a Expr, Option<&'a Vec<Prop>>, Option<&'a String>),
>)
    ensures
        match r {
            Some((accessor, descriptor, kind)) => resolve(expr@) == Some(
                Resolved {
                    accessor: accessor@,
                    descriptor: match descriptor {
                        Some(props) => Some(props_view(props@)),
                        None => None,
                    },
                    kind: match kind {
                        Some(name) => Some(name@),
                        None => None,
                    },
                },
            ),
            None => resolve(expr@) is None,
        },
    decreases expr,
{
    match expr {
        Expr::Ident(name) => if text_eq(name.as_str(), "say") {
            Some((expr, None, None))
        } else {
            None
        },
        Expr::Call(call) => match process_expression(&call.callee) {
            Some((accessor, _, _)) => {
                if call.args.len() == 1 {
                    assert(call@.args[0] == call.args[0]@);
                    match &call.args[0].expr {
                        Expr::Object(props) => Some((accessor, Some(props), None)),
                        _ => None,
                    }
                } else {
                    None
                }
            },
            None => None,
        },
        Expr::Member(obj, prop) => match process_expression(obj) {
            Some((accessor, descriptor, _)) => match prop {
                MemberProp::Ident(name) => Some((accessor, descriptor, Some(name))),
                MemberProp::Opaque(_) => Some((accessor, descriptor, None)),
            },
            None => match prop {
                MemberProp::Ident(name) => if text_eq(name.as_str(), "say") {
                    Some((expr, None, None))
                } else {
                    None
                },
                MemberProp::Opaque(_) => None,
            },
        },
        _ => None,
    }
}

fn find_property_value<'a>(props: &'a Vec<Prop>, key: &str) -> (r: Option<&'a Expr>)
    ensures
        match r {
            Some(value) => find_property(props_view(props@), key@, 0) == Some(value@),
            None => find_property(props_view(props@), key@, 0) is None,
        },
{
    let ghost all = props_view(props@);
    let mut i: usize = 0;
    while i < props.len()
        invariant
            i <= props.len(),
            all == props_view(props@),
            find_property(all, key@, i as int) == find_property(all, key@, 0),
        decreases props.len() - i,
    {
        assert(all[i as int] == props[i as int]@);
        match &props[i] {
            Prop::KeyValue(PropName::Ident(name), value) => {
                if text_eq(name.as_str(), key) {
                    return Some(value);
                }
            },
            _ => {},
        }
        i = i + 1;
    }
    None
}

fn context_of(descriptor: Option<&Vec<Prop>>) -> (r: Option<String>)
    ensures
        option_view(r) == descriptor_context(
            match descriptor {
                Some(props) => Some(props_view(props@)),
                None => None,
            },
        ),
{
    match descriptor {
        Some(props) => match find_property_value(props, "context") {
            Some(Expr::Str(value)) => Some(value.clone()),
            _ => None,
        },
        None => None,
    }
}

fn references_at(ctx: &Context, pos: u32) -> (r: Vec<String>)
    ensures
        strings_view(r@) == position_references(ctx.source().file, pos),
{
    let mut out: Vec<String> = Vec::new();
    match get_position_reference(ctx, pos) {
        Some(reference) => {
            out.push(reference);
            assert(strings_view(out@) =~= seq![reference@]);
        },
        None => {
            assert(strings_view(out@) =~= Seq::<Seq<char>>::empty());
        },
    }
    out
}

/// The identifier of an expression: the name of an identifier, else the
/// next identifier of the store.
pub fn use_expression_key(ctx: &mut Context, expr: &Expr) -> (r: String)
    ensures
        r@ == expression_key(expr@, old(ctx).count()).0,
        stepped(old(ctx), final(ctx), expression_key(expr@, old(ctx).count()).1),
{
    match expr {
        Expr::Ident(name) => name.clone(),
        _ => ctx.identifier_store.next(),
    }
}

fn use_property_name(ctx: &mut Context, name: &PropName) -> (r: String)
    ensures
        r@ == property_key(name@, old(ctx).count()).0,
        stepped(old(ctx), final(ctx), property_key(name@, old(ctx).count()).1),
{
    match name {
        PropName::Ident(text) => text.clone(),
        PropName::Str(text) => text.clone(),
        PropName::Num(text) => text.clone(),
        PropName::Opaque(_) => ctx.identifier_store.next(),
    }
}

pub(crate) fn argument_for(ctx: &mut Context, expr: &Expr) -> (r: Message)
    ensures
        r@ == argument_of(expr@, old(ctx).count()).0,
        stepped(old(ctx), final(ctx), argument_of(expr@, old(ctx).count()).1),
{
    let identifier = use_expression_key(ctx, expr);
    Message::Argument(ArgumentMessage::new(identifier, expr.clone()))
}

fn parse_expression(ctx: &mut Context, expr: &Expr) -> (r: Message)
    ensures
        r@ == interpolation(old(ctx).source(), expr@, old(ctx).count()).0,
        stepped(
            old(ctx),
            final(ctx),
            interpolation(old(ctx).source(), expr@, old(ctx).count()).1,
        ),
    decreases expr, 0nat,
{
    match expr {
        Expr::TaggedTpl(tpl) => match parse_tagged_template(ctx, tpl) {
            Some(composite) => Message::Composite(composite),
            None => argument_for(ctx, expr),
        },
        Expr::Call(call) => match parse_call_expression(ctx, call) {
            Some(composite) => Message::Composite(composite),
            None => argument_for(ctx, expr),
        },
        _ => argument_for(ctx, expr),
    }
}

/// Recognises a tagged template whose tag resolves to `say`, such as
/// `` say`Hello ${name}` ``: the literal pieces and the interpolations
/// become the children, in the order written. Anything else is left alone,
/// and so is the store.
pub fn parse_tagged_template(ctx: &mut Context, tagged_tpl: &TaggedTpl) -> (r: Option<
    CompositeMessage,
>)
    ensures
        found(r) == tagged_template(old(ctx).source(), tagged_tpl@, old(ctx).count()).0,
        stepped(
            old(ctx),
            final(ctx),
            tagged_template(old(ctx).source(), tagged_tpl@, old(ctx).count()).1,
        ),
    decreases tagged_tpl, 0nat,
{
    match process_expression(&tagged_tpl.tag) {
        Some((accessor, descriptor, _)) => {
            let ghost src = ctx.source();
            let ghost start = ctx.count();
            let ghost quasis = tagged_tpl@.quasis;
            let ghost exprs = tagged_tpl@.exprs;
            let mut children: Vec<Message> = Vec::new();
            let mut i: usize = 0;
            assert(messages_view(children@) =~= Seq::<MessageView>::empty());
            while i < tagged_tpl.quasis.len()
                invariant
                    i <= tagged_tpl.quasis.len(),
                    quasis == tagged_tpl@.quasis,
                    exprs == tagged_tpl@.exprs,
                    src == old(ctx).source(),
                    start == old(ctx).count(),
                    ctx.same_but_store(old(ctx)),
                    template_parts(src, quasis, exprs, i as int, messages_view(children@), ctx.count())
                        == template_parts(src, quasis, exprs, 0, Seq::empty(), start),
                decreases tagged_tpl.quasis.len() - i,
            {
                let ghost done = messages_view(children@);
                let text = tagged_tpl.quasis[i].clone();
                children.push(Message::Literal(LiteralMessage::new(text)));
                let ghost with_text = messages_view(children@);
                assert(with_text =~= done.push(MessageView::Literal { text: quasis[i as int] }));
                if i < tagged_tpl.exprs.len() {
                    assert(exprs[i as int] == tagged_tpl.exprs[i as int]@);
                    let part = parse_expression(ctx, &tagged_tpl.exprs[i]);
                    children.push(part);
                    assert(messages_view(children@) =~= with_text.push(part@));
                }
                i = i + 1;
            }
            let context = context_of(descriptor);
            let comments = get_position_comments(ctx, tagged_tpl.pos);
            let references = references_at(ctx, tagged_tpl.pos);
            Some(CompositeMessage::new(context, comments, references, children, accessor.clone()))
        },
        None => None,
    }
}

fn parse_branch_value(ctx: &mut Context, value: &Expr) -> (r: Message)
    ensures
        r@ == branch_value(old(ctx).source(), value@, old(ctx).count()).0,
        stepped(
            old(ctx),
            final(ctx),
            branch_value(old(ctx).source(), value@, old(ctx).count()).1,
        ),
    decreases value, 1nat,
{
    match value {
        Expr::Str(text) => Message::Literal(LiteralMessage::new(text.clone())),
        Expr::Num(text) => Message::Literal(LiteralMessage::new(text.clone())),
        _ => parse_expression(ctx, value),
    }
}

fn parse_object_branches(ctx: &mut Context, props: &Vec<Prop>) -> (r: Vec<ChoiceMessageBranch>)
    ensures
        branches_view(r@) == object_branches(
            old(ctx).source(),
            props_view(props@),
            0,
            Seq::empty(),
            old(ctx).count(),
        ).0,
        stepped(
            old(ctx),
            final(ctx),
            object_branches(
                old(ctx).source(),
                props_view(props@),
                0,
                Seq::empty(),
                old(ctx).count(),
            ).1,
        ),
    decreases props, 0nat,
{
    let ghost src = ctx.source();
    let ghost start = ctx.count();
    let ghost all = props_view(props@);
    let mut branches: Vec<ChoiceMessageBranch> = Vec::new();
    let mut i: usize = 0;
    assert(branches_view(branches@) =~= Seq::<(Seq<char>, MessageView)>::empty());
    while i < props.len()
        invariant
            i <= props.len(),
            all == props_view(props@),
            src == old(ctx).source(),
            start == old(ctx).count(),
            ctx.same_but_store(old(ctx)),
            object_branches(src, all, i as int, branches_view(branches@), ctx.count())
                == object_branches(src, all, 0, Seq::empty(), start),
        decreases props.len() - i,
    {
        assert(all[i as int] == props[i as int]@);
        match &props[i] {
            Prop::KeyValue(name, value) => {
                let ghost done = branches_view(branches@);
                let key = use_property_name(ctx, name);
                let message = parse_branch_value(ctx, value);
                branches.push(ChoiceMessageBranch { key, value: message });
                assert(branches_view(branches@) =~= done.push((key@, message@)));
            },
            Prop::Opaque(_) => {},
        }
        i = i + 1;
    }
    branches
}

fn is_choice_name(name: &str) -> (r: bool)
    ensures
        r == is_choice_kind(name@),
{
    text_eq(name, "select") || text_eq(name, "ordinal") || text_eq(name, "plural")
}

/// Recognises a call `say.select(value, { .. })`, `say.plural(..)` or
/// `say.ordinal(..)` with exactly two arguments, the second an object
/// literal: one choice with a branch for each `key: value`. Anything else
/// is left alone, and so is the store.
pub fn parse_call_expression(ctx: &mut Context, call: &CallExpr) -> (r: Option<CompositeMessage>)
    ensures
        found(r) == call_expression(old(ctx).source(), call@, old(ctx).count()).0,
        stepped(
            old(ctx),
            final(ctx),
            call_expression(old(ctx).source(), call@, old(ctx).count()).1,
        ),
    decreases call, 0nat,
{
    match process_expression(&call.callee) {
        Some((accessor, descriptor, Some(kind))) => {
            if !is_choice_name(kind.as_str()) || call.args.len() != 2 {
                return None;
            }
            assert(call@.args[0] == call.args[0]@);
            assert(call@.args[1] == call.args[1]@);
            match &call.args[1].expr {
                Expr::Object(props) => {
                    assert(call@.args[1].expr == ExprView::Object(props_view(props@)));
                    let branches = parse_object_branches(ctx, props);
                    let value = &call.args[0].expr;
                    let identifier = use_expression_key(ctx, value);
                    let choice = ChoiceMessage::new(
                        kind.clone(),
                        identifier,
                        branches,
                        value.clone(),
                    );
                    let context = context_of(descriptor);
                    let comments = get_position_comments(ctx, call.pos);
                    let references = references_at(ctx, call.pos);
                    let mut children: Vec<Message> = Vec::new();
                    children.push(Message::Choice(choice));
                    assert(messages_view(children@) =~= seq![choice@]);
                    Some(
                        CompositeMessage::new(
                            context,
                            comments,
                            references,
                            children,
                            accessor.clone(),
                        ),
                    )
                },
                _ => None,
            }
        },
        _ => None,
    }
}

} // verus!
