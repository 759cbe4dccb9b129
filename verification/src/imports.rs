//! Imports of the message macros, which become imports of the runtime.

use vstd::prelude::*;
use vstd::string::StrSliceExecFns;
use vstd::string::StringExecFns;
use crate::message::option_view;
use crate::text::text_eq;

verus! {

/// Whether `word` stands in `s` at position `i`.
pub open spec fn occurs_at(s: Seq<char>, word: Seq<char>, i: int) -> bool {
    0 <= i && i + word.len() <= s.len() && s.subrange(i, i + word.len()) == word
}

/// Whether `word` stands somewhere in `s`.
pub open spec fn contains(s: Seq<char>, word: Seq<char>) -> bool {
    exists|i: int| occurs_at(s, word, i)
}

/// The module that an import of `source` is rewritten to: the runtime of
/// `sayable` and of `@sayable/react`, and any other module with `sayable`
/// in its name as it stands. `None` for a module without: such an import
/// is not touched.
pub open spec fn runtime_source(source: Seq<char>) -> Option<Seq<char>> {
    if !contains(source, "sayable"@) {
        None
    } else if source == "sayable"@ {
        Some("sayable/runtime"@)
    } else if source == "@sayable/react"@ {
        Some("@sayable/react/runtime"@)
    } else {
        Some(source)
    }
}

fn contains_text(text: &str, word: &str) -> (r: bool)
    ensures
        r == contains(text@, word@),
{
    let n = text.unicode_len();
    let m = word.unicode_len();
    if m > n {
        assert forall|i: int| !occurs_at(text@, word@, i) by {}
        return false;
    }
    if m == 0 {
        assert(text@.subrange(0, 0) =~= word@);
        assert(occurs_at(text@, word@, 0));
        return true;
    }
    let mut i: usize = 0;
    while i <= n - m
        invariant
            n == text@.len(),
            m == word@.len(),
            1 <= m <= n,
            i <= n - m + 1,
            forall|j: int| 0 <= j < i ==> !occurs_at(text@, word@, j),
        decreases n - m + 1 - i,
    {
        if text_eq(text.substring_char(i, i + m), word) {
            assert(occurs_at(text@, word@, i as int));
            return true;
        }
        i = i + 1;
    }
    assert forall|j: int| !occurs_at(text@, word@, j) by {}
    false
}

/// The module that replaces `source` in an import declaration, if the
/// declaration imports the message macros.
pub fn transform_import_declaration(source: &str) -> (r: Option<String>)
    ensures
        option_view(r) == runtime_source(source@),
{
    if !contains_text(source, "sayable") {
        None
    } else if text_eq(source, "sayable") {
        Some(String::from_str("sayable/runtime"))
    } else if text_eq(source, "@sayable/react") {
        Some(String::from_str("@sayable/react/runtime"))
    } else {
        Some(String::from_str(source))
    }
}

} // verus!
