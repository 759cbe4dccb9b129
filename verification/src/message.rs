//! The message tree: what one recognised message says, apart from the syntax
//! it was written in.

use vstd::prelude::*;
use vstd::std_specs::convert::FromSpecImpl;
use crate::syntax::{copy_strings, strings_view, Expr, ExprView};

verus! {

/// Fixed text.
#[derive(Debug, PartialEq, Eq)]
pub struct LiteralMessage {
    pub text: String,
}

/// A placeholder: `{identifier}`.
#[derive(Debug, PartialEq, Eq)]
pub struct ArgumentMessage {
    pub identifier: String,
    /// The expression that yields the value at run time.
    pub expression: Expr,
}

/// Part of a message wrapped in a tag: `<identifier>children</identifier>`.
#[derive(Debug, PartialEq, Eq)]
pub struct ElementMessage {
    pub identifier: String,
    pub children: Vec<Message>,
    /// The expression that yields the wrapping construct at run time.
    pub expression: Expr,
}

/// One branch of a choice.
#[derive(Debug, PartialEq, Eq)]
pub struct ChoiceMessageBranch {
    pub key: String,
    pub value: Message,
}

/// A choice among branches by a run-time value:
/// `{identifier, kind, branches}` with kind `select`, `plural` or `ordinal`.
#[derive(Debug, PartialEq, Eq)]
pub struct ChoiceMessage {
    pub kind: String,
    pub identifier: String,
    pub branches: Vec<ChoiceMessageBranch>,
    /// The expression that yields the value chosen by.
    pub expression: Expr,
}

/// A sequence of messages: the root of one recognised message.
#[derive(Debug, PartialEq, Eq)]
pub struct CompositeMessage {
    pub context: Option<String>,
    /// Notes left for translators.
    pub comments: Vec<String>,
    /// Where the message was found, as `file:line`.
    pub references: Vec<String>,
    pub children: Vec<Message>,
    /// The expression whose `call` method is invoked at run time.
    pub accessor: Expr,
}

/// A node of the message tree.
#[derive(Debug, PartialEq, Eq)]
pub enum Message {
    Literal(LiteralMessage),
    Argument(ArgumentMessage),
    Element(ElementMessage),
    Choice(ChoiceMessage),
    Composite(CompositeMessage),
}

/// What a [`Message`] is, as a mathematical value.
pub enum MessageView {
    Literal { text: Seq<char> },
    Argument { identifier: Seq<char>, expression: ExprView },
    Element { identifier: Seq<char>, children: Seq<MessageView>, expression: ExprView },
    Choice {
        kind: Seq<char>,
        identifier: Seq<char>,
        branches: Seq<(Seq<char>, MessageView)>,
        expression: ExprView,
    },
    Composite(CompositeView),
}

/// What a [`CompositeMessage`] is, as a mathematical value.
pub struct CompositeView {
    pub context: Option<Seq<char>>,
    pub comments: Seq<Seq<char>>,
    pub references: Seq<Seq<char>>,
    pub children: Seq<MessageView>,
    pub accessor: ExprView,
}

/// The text of an optional string.
pub open spec fn option_view(s: Option<String>) -> Option<Seq<char>> {
    match s {
        Some(text) => Some(text@),
        None => None,
    }
}

pub open spec fn message_view(m: Message) -> MessageView
    decreases m,
{
    match m {
        Message::Literal(literal) => MessageView::Literal { text: literal.text@ },
        Message::Argument(argument) => MessageView::Argument {
            identifier: argument.identifier@,
            expression: argument.expression@,
        },
        Message::Element(element) => MessageView::Element {
            identifier: element.identifier@,
            children: messages_view(element.children@),
            expression: element.expression@,
        },
        Message::Choice(choice) => MessageView::Choice {
            kind: choice.kind@,
            identifier: choice.identifier@,
            branches: branches_view(choice.branches@),
            expression: choice.expression@,
        },
        Message::Composite(composite) => MessageView::Composite(composite_view(composite)),
    }
}

pub open spec fn messages_view(v: Seq<Message>) -> Seq<MessageView>
    decreases v,
{
    Seq::new(
        v.len(),
        |i: int|
            if 0 <= i < v.len() {
                message_view(v[i])
            } else {
                MessageView::Literal { text: Seq::empty() }
            },
    )
}

pub open spec fn branch_view(branch: ChoiceMessageBranch) -> (Seq<char>, MessageView)
    decreases branch,
{
    (branch.key@, message_view(branch.value))
}

pub open spec fn branches_view(v: Seq<ChoiceMessageBranch>) -> Seq<(Seq<char>, MessageView)>
    decreases v,
{
    Seq::new(
        v.len(),
        |i: int|
            if 0 <= i < v.len() {
                branch_view(v[i])
            } else {
                (Seq::empty(), MessageView::Literal { text: Seq::empty() })
            },
    )
}

pub open spec fn composite_view(composite: CompositeMessage) -> CompositeView
    decreases composite,
{
    CompositeView {
        context: option_view(composite.context),
        comments: strings_view(composite.comments@),
        references: strings_view(composite.references@),
        children: messages_view(composite.children@),
        accessor: composite.accessor@,
    }
}

impl View for Message {
    type V = MessageView;

    open spec fn view(&self) -> MessageView {
        message_view(*self)
    }
}

impl View for CompositeMessage {
    type V = CompositeView;

    open spec fn view(&self) -> CompositeView {
        composite_view(*self)
    }
}

impl View for LiteralMessage {
    type V = MessageView;

    open spec fn view(&self) -> MessageView {
        MessageView::Literal { text: self.text@ }
    }
}

impl View for ArgumentMessage {
    type V = MessageView;

    open spec fn view(&self) -> MessageView {
        message_view(Message::Argument(*self))
    }
}

impl View for ElementMessage {
    type V = MessageView;

    open spec fn view(&self) -> MessageView {
        message_view(Message::Element(*self))
    }
}

impl View for ChoiceMessage {
    type V = MessageView;

    open spec fn view(&self) -> MessageView {
        message_view(Message::Choice(*self))
    }
}

impl View for ChoiceMessageBranch {
    type V = (Seq<char>, MessageView);

    open spec fn view(&self) -> (Seq<char>, MessageView) {
        branch_view(*self)
    }
}

impl LiteralMessage {
    pub fn new(text: String) -> (message: Self)
        ensures
            message.text == text,
    {
        LiteralMessage { text }
    }
}

impl ArgumentMessage {
    pub fn new(identifier: String, expression: Expr) -> (message: Self)
        ensures
            message.identifier == identifier,
            message.expression == expression,
    {
        ArgumentMessage { identifier, expression }
    }
}

impl ElementMessage {
    pub fn new(identifier: String, children: Vec<Message>, expression: Expr) -> (message: Self)
        ensures
            message.identifier == identifier,
            message.children == children,
            message.expression == expression,
    {
        ElementMessage { identifier, children, expression }
    }
}

impl ChoiceMessage {
    pub fn new(
        kind: String,
        identifier: String,
        branches: Vec<ChoiceMessageBranch>,
        expression: Expr,
    ) -> (message: Self)
        ensures
            message.kind == kind,
            message.identifier == identifier,
            message.branches == branches,
            message.expression == expression,
    {
        ChoiceMessage { kind, identifier, branches, expression }
    }
}

impl CompositeMessage {
    pub fn new(
        context: Option<String>,
        comments: Vec<String>,
        references: Vec<String>,
        children: Vec<Message>,
        accessor: Expr,
    ) -> (message: Self)
        ensures
            message.context == context,
            message.comments == comments,
            message.references == references,
            message.children == children,
            message.accessor == accessor,
    {
        CompositeMessage { context, comments, references, children, accessor }
    }
}

fn copy_message(m: &Message) -> (r: Message)
    ensures
        r@ == m@,
    decreases m,
{
    match m {
        Message::Literal(literal) => Message::Literal(LiteralMessage { text: literal.text.clone() }),
        Message::Argument(argument) => Message::Argument(
            ArgumentMessage {
                identifier: argument.identifier.clone(),
                expression: argument.expression.clone(),
            },
        ),
        Message::Element(element) => Message::Element(
            ElementMessage {
                identifier: element.identifier.clone(),
                children: copy_messages(&element.children),
                expression: element.expression.clone(),
            },
        ),
        Message::Choice(choice) => Message::Choice(
            ChoiceMessage {
                kind: choice.kind.clone(),
                identifier: choice.identifier.clone(),
                branches: copy_branches(&choice.branches),
                expression: choice.expression.clone(),
            },
        ),
        Message::Composite(composite) => Message::Composite(copy_composite(composite)),
    }
}

fn copy_branches(v: &Vec<ChoiceMessageBranch>) -> (r: Vec<ChoiceMessageBranch>)
    ensures
        branches_view(r@) == branches_view(v@),
    decreases v,
{
    let mut out: Vec<ChoiceMessageBranch> = Vec::new();
    let mut i: usize = 0;
    while i < v.len()
        invariant
            i <= v.len(),
            out@.len() == i,
            forall|j: int| 0 <= j < i ==> branch_view(out@[j]) == branch_view(v@[j]),
        decreases v.len() - i,
    {
        let branch = &v[i];
        out.push(
            ChoiceMessageBranch { key: branch.key.clone(), value: copy_message(&branch.value) },
        );
        i = i + 1;
    }
    assert(branches_view(out@) =~= branches_view(v@));
    out
}

fn copy_messages(v: &Vec<Message>) -> (r: Vec<Message>)
    ensures
        messages_view(r@) == messages_view(v@),
    decreases v,
{
    let mut out: Vec<Message> = Vec::new();
    let mut i: usize = 0;
    while i < v.len()
        invariant
            i <= v.len(),
            out@.len() == i,
            forall|j: int| 0 <= j < i ==> message_view(out@[j]) == message_view(v@[j]),
        decreases v.len() - i,
    {
        out.push(copy_message(&v[i]));
        i = i + 1;
    }
    assert(messages_view(out@) =~= messages_view(v@));
    out
}

fn copy_composite(composite: &CompositeMessage) -> (r: CompositeMessage)
    ensures
        r@ == composite@,
    decreases composite,
{
    let context = match &composite.context {
        Some(text) => Some(text.clone()),
        None => None,
    };
    CompositeMessage {
        context,
        comments: copy_strings(&composite.comments),
        references: copy_strings(&composite.references),
        children: copy_messages(&composite.children),
        accessor: composite.accessor.clone(),
    }
}

impl Clone for Message {
    fn clone(&self) -> (r: Self)
        ensures
            r@ == self@,
    {
        copy_message(self)
    }
}

impl Clone for CompositeMessage {
    fn clone(&self) -> (r: Self)
        ensures
            r@ == self@,
    {
        copy_composite(self)
    }
}

impl From<LiteralMessage> for Message {
    fn from(value: LiteralMessage) -> (message: Message) {
        Message::Literal(value)
    }
}

impl FromSpecImpl<LiteralMessage> for Message {
    open spec fn obeys_from_spec() -> bool {
        true
    }

    open spec fn from_spec(value: LiteralMessage) -> Message {
        Message::Literal(value)
    }
}

impl From<ArgumentMessage> for Message {
    fn from(value: ArgumentMessage) -> (message: Message) {
        Message::Argument(value)
    }
}

impl FromSpecImpl<ArgumentMessage> for Message {
    open spec fn obeys_from_spec() -> bool {
        true
    }

    open spec fn from_spec(value: ArgumentMessage) -> Message {
        Message::Argument(value)
    }
}

impl From<ElementMessage> for Message {
    fn from(value: ElementMessage) -> (message: Message) {
        Message::Element(value)
    }
}

impl FromSpecImpl<ElementMessage> for Message {
    open spec fn obeys_from_spec() -> bool {
        true
    }

    open spec fn from_spec(value: ElementMessage) -> Message {
        Message::Element(value)
    }
}

impl From<ChoiceMessage> for Message {
    fn from(value: ChoiceMessage) -> (message: Message) {
        Message::Choice(value)
    }
}

impl FromSpecImpl<ChoiceMessage> for Message {
    open spec fn obeys_from_spec() -> bool {
        true
    }

    open spec fn from_spec(value: ChoiceMessage) -> Message {
        Message::Choice(value)
    }
}

impl From<CompositeMessage> for Message {
    fn from(value: CompositeMessage) -> (message: Message) {
        Message::Composite(value)
    }
}

impl FromSpecImpl<CompositeMessage> for Message {
    open spec fn obeys_from_spec() -> bool {
        true
    }

    open spec fn from_spec(value: CompositeMessage) -> Message {
        Message::Composite(value)
    }
}

} // verus!
