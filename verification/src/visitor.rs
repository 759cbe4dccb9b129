//! What happens at each node of a pass over a syntax tree: the node is
//! replaced where it is a message, and left for the walk to descend into
//! where it is not.

use vstd::prelude::*;
use crate::context::{Context, SourceView};
use crate::generator::{
    generate_say_call_expression, generate_say_jsx_element, say_call, say_jsx,
};
use crate::js::{
    call_expression, found, parse_call_expression, parse_tagged_template, tagged_template,
};
use crate::jsx::{jsx_element, parse_jsx_container_element, parse_jsx_self_closing_element};
use crate::message::{CompositeMessage, CompositeView};
use crate::syntax::{CallExpr, Expr, ExprView, JsxElement};

verus! {

/// The message that an expression is at the top of, if any: that of a
/// tagged template or of a call. With the counter after it.
pub open spec fn recognise_expression(src: SourceView, e: ExprView, n: nat) -> (
    Option<CompositeView>,
    nat,
) {
    match e {
        ExprView::TaggedTpl(tpl) => tagged_template(src, tpl, n),
        ExprView::Call(call) => call_expression(src, call, n),
        _ => (None, n),
    }
}

/// What the messages found are, as mathematical values.
pub open spec fn found_view(v: Seq<CompositeMessage>) -> Seq<CompositeView> {
    Seq::new(v.len(), |i: int| v[i]@)
}

/// One pass over a source file.
pub struct Visitor {
    pub context: Context,
}

impl Visitor {
    pub fn new(context: Context) -> (visitor: Self)
        ensures
            visitor.context == context,
    {
        Visitor { context }
    }

    /// The messages found so far.
    pub open spec fn found(&self) -> Seq<CompositeView> {
        found_view(self.context.found_messages@)
    }

    fn record(&mut self, message: &CompositeMessage)
        ensures
            final(self).found() == old(self).found().push(message@),
            final(self).context.source() == old(self).context.source(),
            final(self).context.count() == 0,
    {
        let ghost before = self.found();
        self.context.found_messages.push(message.clone());
        self.context.identifier_store.reset();
        assert(self.found() =~= before.push(message@));
    }

    /// Visits an expression. Where it is a message, identifiers being
    /// counted from zero, the message is added to those found and the call
    /// that replaces the expression is returned. Where it is none, nothing
    /// is added and nothing returned: the walk descends into the
    /// expression. Either way the store starts from zero afterwards.
    pub fn fold_expr(&mut self, expr: &Expr) -> (r: Option<CallExpr>)
        ensures
            final(self).context.source() == old(self).context.source(),
            final(self).context.count() == 0,
            match recognise_expression(old(self).context.source(), expr@, 0).0 {
                Some(message) => {
                    &&& r is Some
                    &&& r->0@ == say_call(message)
                    &&& final(self).found() == old(self).found().push(message)
                },
                None => r is None && final(self).found() == old(self).found(),
            },
    {
        self.context.identifier_store.reset();
        let message = match expr {
            Expr::TaggedTpl(tpl) => parse_tagged_template(&mut self.context, tpl),
            Expr::Call(call) => parse_call_expression(&mut self.context, call),
            _ => None,
        };
        match message {
            Some(message) => {
                self.record(&message);
                Some(generate_say_call_expression(&message))
            },
            None => None,
        }
    }

    /// Visits a JSX element, as [`Visitor::fold_expr`] visits an
    /// expression; the replacement is an element.
    pub fn fold_jsx_element(&mut self, element: &JsxElement) -> (r: Option<JsxElement>)
        ensures
            final(self).context.source() == old(self).context.source(),
            final(self).context.count() == 0,
            match jsx_element(element@, 0).0 {
                Some(message) => {
                    &&& r is Some
                    &&& r->0@ == say_jsx(message)
                    &&& final(self).found() == old(self).found().push(message)
                },
                None => r is None && final(self).found() == old(self).found(),
            },
    {
        self.context.identifier_store.reset();
        let message = if element.self_closing {
            parse_jsx_self_closing_element(&mut self.context, element)
        } else {
            parse_jsx_container_element(&mut self.context, element)
        };
        match message {
            Some(message) => {
                self.record(&message);
                Some(generate_say_jsx_element(&message))
            },
            None => None,
        }
    }
}

/// The call that replaces a message is itself no message: a second pass
/// leaves it as it is, whatever the message.
pub proof fn lemma_generated_call_is_left_alone(src: SourceView, message: CompositeView, n: nat)
    ensures
        recognise_expression(src, ExprView::Call(say_call(message)), n) == (
            None::<CompositeView>,
            n,
        ),
{
    reveal_strlit("call");
    reveal_strlit("say");
    reveal_strlit("select");
    reveal_strlit("ordinal");
    reveal_strlit("plural");
    let call = say_call(message);
    let callee = *call.callee;
    assert(callee == ExprView::Member(
        Box::new(message.accessor),
        crate::syntax::MemberPropView::Ident("call"@),
    ));
    assert("call"@.len() == 4);
    assert("call"@ != "say"@);
    assert(!crate::js::is_choice_kind("call"@));
    match crate::js::resolve(message.accessor) {
        Some(inner) => {
            assert(crate::js::resolve(callee)->0.kind == Some("call"@));
        },
        None => {
            assert(crate::js::resolve(callee) is None);
        },
    }
}

/// The element that replaces a message is itself no message: a second
/// pass leaves it as it is, whatever the message.
pub proof fn lemma_generated_element_is_left_alone(message: CompositeView, n: nat)
    requires
        message.accessor is Ident,
    ensures
        jsx_element(say_jsx(message), n) == (None::<CompositeView>, n),
{
}

} // verus!
