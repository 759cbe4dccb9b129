//! The ICU MessageFormat text of a message.

use vstd::prelude::*;
use vstd::string::StringExecFns;
use crate::message::{
    branches_view, messages_view, ChoiceMessageBranch, Message, MessageView,
};
use crate::text::{integer_text, parse_integer, signed_decimal, trim, trimmed};

verus! {

/// The format word of a choice: `selectordinal` for the kind `ordinal`, the
/// kind itself otherwise.
pub open spec fn choice_format(kind: Seq<char>) -> Seq<char> {
    if kind == "ordinal"@ {
        "selectordinal"@
    } else {
        kind
    }
}

/// A branch key as written in the text: `=N` for a key that spells the
/// integer `N`, however large, and the key itself otherwise.
pub open spec fn branch_selector(key: Seq<char>) -> Seq<char> {
    match parse_integer(key) {
        Some(n) => seq!['='] + signed_decimal(n),
        None => key,
    }
}

/// The text of a message before the white space at its ends is removed.
pub open spec fn icu_raw(m: MessageView) -> Seq<char>
    decreases m,
{
    match m {
        MessageView::Literal { text } => text,
        MessageView::Argument { identifier, .. } => seq!['{'] + identifier + seq!['}'],
        MessageView::Element { identifier, children, .. } => if children.len() == 0 {
            seq!['<'] + identifier + seq!['/', '>']
        } else {
            seq!['<'] + identifier + seq!['>'] + icu_concat(children) + seq!['<', '/'] + identifier
                + seq!['>']
        },
        MessageView::Choice { kind, identifier, branches, .. } => seq!['{'] + identifier + seq![
            ',',
            ' ',
        ] + choice_format(kind) + seq![',', '\n'] + icu_branches(branches) + seq!['}'],
        MessageView::Composite(composite) => icu_concat(composite.children),
    }
}

/// The texts of the messages, one after the other in the order given.
pub open spec fn icu_concat(messages: Seq<MessageView>) -> Seq<char>
    decreases messages,
{
    if messages.len() == 0 {
        Seq::empty()
    } else {
        icu_concat(messages.drop_last()) + icu_raw(messages.last())
    }
}

/// One line per branch, in the order given: two spaces, the key, a space,
/// and the branch's text in braces.
pub open spec fn icu_branches(branches: Seq<(Seq<char>, MessageView)>) -> Seq<char>
    decreases branches,
{
    if branches.len() == 0 {
        Seq::empty()
    } else {
        icu_branches(branches.drop_last()) + seq![' ', ' '] + branch_selector(branches.last().0)
            + seq![' ', '{'] + icu_raw(branches.last().1) + seq!['}', '\n']
    }
}

/// The ICU MessageFormat text of a message.
pub open spec fn icu_text(m: MessageView) -> Seq<char> {
    trimmed(icu_raw(m))
}

fn branch_selector_text(key: &String) -> (r: String)
    ensures
        r@ == branch_selector(key@),
{
    match integer_text(key.as_str()) {
        Some(written) => {
            let mut out = String::from_str("=");
            out.append(written.as_str());
            proof {
                reveal_strlit("=");
                assert("="@ =~= seq!['=']);
            }
            out
        },
        None => key.clone(),
    }
}

fn raw_text(message: &Message) -> (r: String)
    ensures
        r@ == icu_raw(message@),
    decreases message,
{
    proof {
        reveal_strlit("{");
        reveal_strlit("}");
        reveal_strlit("<");
        reveal_strlit(">");
        reveal_strlit("/>");
        reveal_strlit("</");
        reveal_strlit(", ");
        reveal_strlit(",\n");
    }
    match message {
        Message::Literal(literal) => literal.text.clone(),
        Message::Argument(argument) => {
            let mut out = String::from_str("{");
            out.append(argument.identifier.as_str());
            out.append("}");
            assert(out@ =~= icu_raw(message@));
            out
        },
        Message::Element(element) => {
            let mut out = String::from_str("<");
            out.append(element.identifier.as_str());
            if element.children.len() == 0 {
                out.append("/>");
            } else {
                let inner = concat_text(&element.children);
                out.append(">");
                out.append(inner.as_str());
                out.append("</");
                out.append(element.identifier.as_str());
                out.append(">");
            }
            assert(out@ =~= icu_raw(message@));
            out
        },
        Message::Choice(choice) => {
            let mut out = String::from_str("{");
            out.append(choice.identifier.as_str());
            out.append(", ");
            if choice.kind == String::from_str("ordinal") {
                out.append("selectordinal");
            } else {
                out.append(choice.kind.as_str());
            }
            out.append(",\n");
            let lines = branches_text(&choice.branches);
            out.append(lines.as_str());
            out.append("}");
            assert(out@ =~= icu_raw(message@));
            out
        },
        Message::Composite(composite) => concat_text(&composite.children),
    }
}

fn concat_text(messages: &Vec<Message>) -> (r: String)
    ensures
        r@ == icu_concat(messages_view(messages@)),
    decreases messages,
{
    let ghost all = messages_view(messages@);
    let mut out = String::new();
    let mut i: usize = 0;
    while i < messages.len()
        invariant
            i <= messages.len(),
            all == messages_view(messages@),
            out@ == icu_concat(all.take(i as int)),
        decreases messages.len() - i,
    {
        let part = raw_text(&messages[i]);
        out.append(part.as_str());
        proof {
            let next = all.take(i + 1);
            assert(next.drop_last() =~= all.take(i as int));
            assert(next.last() == messages[i as int]@);
        }
        i = i + 1;
    }
    assert(all.take(i as int) =~= all);
    out
}

fn branches_text(branches: &Vec<ChoiceMessageBranch>) -> (r: String)
    ensures
        r@ == icu_branches(branches_view(branches@)),
    decreases branches,
{
    proof {
        reveal_strlit("  ");
        reveal_strlit(" {");
        reveal_strlit("}\n");
    }
    let ghost all = branches_view(branches@);
    let mut out = String::new();
    let mut i: usize = 0;
    while i < branches.len()
        invariant
            i <= branches.len(),
            all == branches_view(branches@),
            out@ == icu_branches(all.take(i as int)),
            "  "@ =~= seq![' ', ' '],
            " {"@ =~= seq![' ', '{'],
            "}\n"@ =~= seq!['}', '\n'],
        decreases branches.len() - i,
    {
        let branch = &branches[i];
        let selector = branch_selector_text(&branch.key);
        let part = raw_text(&branch.value);
        out.append("  ");
        out.append(selector.as_str());
        out.append(" {");
        out.append(part.as_str());
        out.append("}\n");
        proof {
            let next = all.take(i + 1);
            assert(next.drop_last() =~= all.take(i as int));
            assert(next.last() == branches[i as int]@);
        }
        i = i + 1;
    }
    assert(all.take(i as int) =~= all);
    out
}

/// The ICU MessageFormat text of a message: children and branches in the
/// order in which they are stored, white space at both ends removed.
pub fn convert_message_to_icu(message: &Message) -> (r: String)
    ensures
        r@ == icu_text(message@),
{
    let raw = raw_text(message);
    trim(raw.as_str())
}

/// The ICU MessageFormat text of a message.
pub fn generate_icu_message_format(message: &Message) -> (r: String)
    ensures
        r@ == icu_text(message@),
{
    convert_message_to_icu(message)
}

/// The text of a literal is the literal: as it stands before the white
/// space at the ends is removed, and in the end wherever the literal
/// neither starts nor ends with white space.
pub proof fn lemma_literal_text(text: Seq<char>)
    ensures
        icu_raw(MessageView::Literal { text }) == text,
        icu_text(MessageView::Literal { text }) == trimmed(text),
        trimmed(text) == text ==> icu_text(MessageView::Literal { text }) == text,
{
}

/// The text of an argument is its identifier in braces, whatever the
/// identifier and the expression.
pub proof fn lemma_argument_text(identifier: Seq<char>, expression: crate::syntax::ExprView)
    ensures
        icu_text(MessageView::Argument { identifier, expression }) == seq!['{'] + identifier
            + seq!['}'],
{
    let text = seq!['{'] + identifier + seq!['}'];
    assert(icu_raw(MessageView::Argument { identifier, expression }) == text);
    assert(text[0] == '{');
    assert(text.last() == '}');
    assert(crate::text::trim_start(text) == text);
    assert(crate::text::trim_end(text) == text);
}

/// A branch key is written as `=N` where it spells the integer `N`, of
/// any size, and as it stands where it spells none; the kind `ordinal` is
/// written `selectordinal`, and every other kind as it stands.
pub proof fn lemma_key_and_kind(key: Seq<char>, kind: Seq<char>)
    ensures
        parse_integer(key) is Some ==> branch_selector(key) == seq!['='] + signed_decimal(
            parse_integer(key)->0,
        ),
        parse_integer(key) is None ==> branch_selector(key) == key,
        kind == "ordinal"@ ==> choice_format(kind) == "selectordinal"@,
        kind != "ordinal"@ ==> choice_format(kind) == kind,
{
}

} // verus!
