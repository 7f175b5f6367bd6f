//! The text of a variable as it is read from its file.

use vstd::prelude::*;
use vstd::string::*;

verus! {

/// The line feed that may end a file.
pub open spec fn line_end() -> char {
    '\n'
}

/// A file's content without the one line feed that may end it. Nothing else
/// is taken away: an earlier line feed, a carriage return or a blank stays.
pub open spec fn strip_line_end(content: Seq<char>) -> Seq<char> {
    if content.len() > 0 && content.last() == line_end() {
        content.drop_last()
    } else {
        content
    }
}

/// The value that a variable takes from a file with this content.
pub fn hydrated_text(content: &str) -> (text: String)
    ensures
        text@ == strip_line_end(content@),
{
    let length: usize = content.unicode_len();
    if length > 0 && content.get_char(length - 1) == '\n' {
        let kept = content.substring_char(0, length - 1);
        assert(kept@ =~= content@.drop_last());
        kept.to_owned()
    } else {
        content.to_owned()
    }
}

/// Stripping gives the content back whole, or all of it but a final line feed.
pub proof fn lemma_strip_removes_one_line_end(content: Seq<char>)
    ensures
        content.len() > 0 && content.last() == line_end() ==> strip_line_end(content).push(
            line_end(),
        ) == content,
        !(content.len() > 0 && content.last() == line_end()) ==> strip_line_end(content)
            == content,
        strip_line_end(content).len() + 1 >= content.len(),
{
    if content.len() > 0 && content.last() == line_end() {
        assert(content.drop_last().push(content.last()) =~= content);
    }
}

} // verus!
