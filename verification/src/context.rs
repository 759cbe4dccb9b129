//! What recognition knows of the source around a message: the file and its
//! lines, the comments, the messages found so far, and the identifiers
//! handed out for the message at hand.

use vstd::prelude::*;
use vstd::string::StrSliceExecFns;
use vstd::string::StringExecFns;
use crate::message::CompositeMessage;
use crate::store::IdentifierStore;
use crate::text::{decimal, natural_string, trim, trimmed};

verus! {

/// A source file: its name and the byte position at which each line starts.
#[derive(Debug, PartialEq, Eq)]
pub struct SourceFile {
    pub name: String,
    pub lines: Vec<u32>,
}

/// A comment and the byte position of the token that it leads.
#[derive(Debug, PartialEq, Eq)]
pub struct Comment {
    pub pos: u32,
    pub text: String,
}

/// The state of one pass over a source file.
pub struct Context {
    pub source_file: Option<SourceFile>,
    pub comments: Vec<Comment>,
    /// The messages recognised so far, in the order in which they were found.
    pub found_messages: Vec<CompositeMessage>,
    pub identifier_store: IdentifierStore,
}

/// What a [`SourceFile`] is, as a mathematical value.
pub struct SourceFileView {
    pub name: Seq<char>,
    pub lines: Seq<u32>,
}

/// The part of a [`Context`] that recognition reads and never changes.
pub struct SourceView {
    pub file: Option<SourceFileView>,
    /// Each comment as the position it leads and its text.
    pub comments: Seq<(u32, Seq<char>)>,
}

impl View for SourceFile {
    type V = SourceFileView;

    open spec fn view(&self) -> SourceFileView {
        SourceFileView { name: self.name@, lines: self.lines@ }
    }
}

impl Context {
    /// The file and the comments.
    pub open spec fn source(&self) -> SourceView {
        SourceView {
            file: match self.source_file {
                Some(file) => Some(file@),
                None => None,
            },
            comments: Seq::new(
                self.comments@.len(),
                |i: int| (self.comments@[i].pos, self.comments@[i].text@),
            ),
        }
    }

    /// The number that the next allocated identifier will spell.
    pub open spec fn count(&self) -> nat {
        self.identifier_store.count()
    }

    /// Whether `self` differs from `other` in the identifier store at most.
    pub open spec fn same_but_store(&self, other: &Context) -> bool {
        &&& self.source_file == other.source_file
        &&& self.comments == other.comments
        &&& self.found_messages == other.found_messages
    }

    /// A context with no message found and no identifier handed out.
    pub fn new(source_file: Option<SourceFile>, comments: Vec<Comment>) -> (ctx: Context)
        ensures
            ctx.source_file == source_file,
            ctx.comments == comments,
            ctx.found_messages@.len() == 0,
            ctx.count() == 0,
    {
        Context {
            source_file,
            comments,
            found_messages: Vec::new(),
            identifier_store: IdentifierStore::new(),
        }
    }
}

/// The word that marks a comment as a note for translators.
pub open spec fn note_marker() -> Seq<char> {
    "translators:"@
}

/// Whether `c` is the marker character `m` or its capital letter.
pub open spec fn is_marker_char(c: char, m: char) -> bool {
    c == m || ('a' <= m <= 'z' && c as int + 32 == m as int)
}

/// Whether `text` begins with the marker, in small or capital letters.
pub open spec fn has_note_marker(text: Seq<char>) -> bool {
    &&& text.len() >= note_marker().len()
    &&& forall|i: int|
        0 <= i < note_marker().len() ==> is_marker_char(#[trigger] text[i], note_marker()[i])
}

/// The note for translators in a comment: what follows the marker, without
/// white space around it. `None` where the comment does not begin with the
/// marker, white space aside.
pub open spec fn translator_note(text: Seq<char>) -> Option<Seq<char>> {
    let body = trimmed(text);
    if has_note_marker(body) {
        Some(trimmed(body.skip(note_marker().len() as int)))
    } else {
        None
    }
}

/// The notes for translators among the comments that lead the position, in
/// the order of the comments.
pub open spec fn position_comments(comments: Seq<(u32, Seq<char>)>, pos: u32) -> Seq<Seq<char>>
    decreases comments.len(),
{
    if comments.len() == 0 {
        Seq::empty()
    } else {
        let before = position_comments(comments.drop_last(), pos);
        let last = comments.last();
        if last.0 == pos && translator_note(last.1) is Some {
            before.push(translator_note(last.1)->0)
        } else {
            before
        }
    }
}

/// The number of lines that start at or before the position: the number,
/// counted from one, of the line that holds it.
pub open spec fn line_number(lines: Seq<u32>, pos: u32) -> nat
    decreases lines.len(),
{
    if lines.len() == 0 {
        0
    } else {
        line_number(lines.drop_last(), pos) + if lines.last() <= pos {
            1nat
        } else {
            0nat
        }
    }
}

/// Where a position lies, as `file:line`. `None` without a file, and for a
/// position before the first line.
pub open spec fn position_reference(file: Option<SourceFileView>, pos: u32) -> Option<Seq<char>> {
    match file {
        Some(f) => if line_number(f.lines, pos) > 0 {
            Some(f.name + seq![':'] + decimal(line_number(f.lines, pos)))
        } else {
            None
        },
        None => None,
    }
}

/// The references of a message found at a position: the one place, or none.
pub open spec fn position_references(file: Option<SourceFileView>, pos: u32) -> Seq<Seq<char>> {
    match position_reference(file, pos) {
        Some(reference) => seq![reference],
        None => Seq::empty(),
    }
}

fn note_of(text: &str) -> (r: Option<String>)
    ensures
        match r {
            Some(note) => translator_note(text@) == Some(note@),
            None => translator_note(text@) is None,
        },
{
    let body = trim(text);
    let marker = "translators:";
    proof {
        reveal_strlit("translators:");
    }
    let n = body.as_str().unicode_len();
    if n < 12 {
        return None;
    }
    let mut i: usize = 0;
    while i < 12
        invariant
            i <= 12,
            n == body@.len(),
            n >= 12,
            body@ == trimmed(text@),
            marker@ == note_marker(),
            marker@.len() == 12,
            forall|j: int| 0 <= j < i ==> is_marker_char(#[trigger] body@[j], note_marker()[j]),
        decreases 12 - i,
    {
        let c = body.as_str().get_char(i);
        let m = marker.get_char(i);
        let same = c == m || ('a' <= m && m <= 'z' && c as u32 + 32 == m as u32);
        if !same {
            assert(!is_marker_char(body@[i as int], note_marker()[i as int]));
            return None;
        }
        i = i + 1;
    }
    let rest = body.as_str().substring_char(12, n);
    assert(rest@ =~= body@.skip(12));
    Some(trim(rest))
}

/// The notes for translators among the comments that lead the position:
/// each comment that begins with `translators:`, in small or capital
/// letters, without that marker.
pub fn get_position_comments(ctx: &Context, pos: u32) -> (r: Vec<String>)
    ensures
        crate::syntax::strings_view(r@) == position_comments(ctx.source().comments, pos),
{
    let ghost all = ctx.source().comments;
    let mut out: Vec<String> = Vec::new();
    let mut i: usize = 0;
    while i < ctx.comments.len()
        invariant
            i <= ctx.comments.len(),
            all == ctx.source().comments,
            crate::syntax::strings_view(out@) == position_comments(all.take(i as int), pos),
        decreases ctx.comments.len() - i,
    {
        let comment = &ctx.comments[i];
        let ghost before = crate::syntax::strings_view(out@);
        proof {
            let next = all.take(i + 1);
            assert(next.drop_last() =~= all.take(i as int));
            assert(next.last() == (comment.pos, comment.text@));
        }
        if comment.pos == pos {
            match note_of(comment.text.as_str()) {
                Some(note) => {
                    out.push(note);
                    assert(crate::syntax::strings_view(out@) =~= before.push(note@));
                },
                None => {},
            }
        }
        i = i + 1;
    }
    assert(all.take(i as int) =~= all);
    out
}

fn count_lines(lines: &Vec<u32>, pos: u32) -> (r: usize)
    ensures
        r == line_number(lines@, pos),
{
    let mut total: usize = 0;
    let mut i: usize = 0;
    while i < lines.len()
        invariant
            i <= lines.len(),
            total <= i,
            total == line_number(lines@.take(i as int), pos),
        decreases lines.len() - i,
    {
        proof {
            let next = lines@.take(i + 1);
            assert(next.drop_last() =~= lines@.take(i as int));
        }
        if lines[i] <= pos {
            total = total + 1;
        }
        i = i + 1;
    }
    assert(lines@.take(i as int) =~= lines@);
    total
}

/// Where a position lies, as `file:line` with lines counted from one.
pub fn get_position_reference(ctx: &Context, pos: u32) -> (r: Option<String>)
    ensures
        crate::message::option_view(r) == position_reference(ctx.source().file, pos),
{
    match &ctx.source_file {
        Some(file) => {
            let line = count_lines(&file.lines, pos);
            if line > 0 {
                let mut out = file.name.clone();
                out.append(":");
                let number = natural_string(line as u64);
                out.append(number.as_str());
                proof {
                    reveal_strlit(":");
                    assert(":"@ =~= seq![':']);
                }
                Some(out)
            } else {
                None
            }
        },
        None => None,
    }
}

} // verus!
