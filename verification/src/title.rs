//! Session titles derived from the text of a fragment.

use vstd::prelude::*;

verus! {

/// Longest text, counted in characters, that becomes a title unshortened.
pub const TITLE_CHARS: usize = 50;

/// The marker that closes a shortened title.
pub open spec fn ellipsis() -> Seq<char> {
    seq!['.', '.', '.']
}

/// The first `n` characters of `text`, or all of it where it is shorter.
pub open spec fn head_of(text: Seq<char>, n: nat) -> Seq<char> {
    if text.len() > n {
        text.take(n as int)
    } else {
        text
    }
}

/// The title of a text: the text itself up to fifty characters, else its
/// first fifty characters followed by the ellipsis marker.
pub open spec fn title_of(text: Seq<char>) -> Seq<char> {
    if text.len() > TITLE_CHARS {
        text.take(TITLE_CHARS as int) + ellipsis()
    } else {
        text
    }
}

/// Copies the first `n` characters of `text`. Characters are Unicode scalar
/// values, so a multi-byte character is never cut.
pub fn head(text: &str, n: usize) -> (out: String)
    ensures
        out@ == head_of(text@, n as nat),
{
    if text.unicode_len() > n {
        String::from_str(text.substring_char(0, n))
    } else {
        String::from_str(text)
    }
}

/// Derives the title under which a text is filed.
pub fn derive_title(text: &str) -> (title: String)
    ensures
        title@ == title_of(text@),
{
    let kept = head(text, TITLE_CHARS);
    if text.unicode_len() > TITLE_CHARS {
        proof {
            reveal_strlit("...");
        }
        kept.concat("...")
    } else {
        kept
    }
}

/// A title never outgrows fifty characters and the marker, keeps the text's
/// first characters, and ends in the marker whenever the text was cut.
pub proof fn lemma_title_shape(text: Seq<char>)
    ensures
        title_of(text).len() == if text.len() > 50 { 53 } else { text.len() },
        forall|i: int| 0 <= i < text.len() && i < 50 ==> title_of(text)[i] == text[i],
        text.len() > 50 ==> title_of(text).subrange(50, 53) == ellipsis(),
        text.len() <= 50 ==> title_of(text) == text,
{
}

} // verus!
