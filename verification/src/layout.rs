//! The text of a preview, as a function of the texts of its elements.

use crate::decimal::{decimal_string, decimal_text};
use vstd::prelude::*;

verus! {

/// How many elements of a sequence of length `len` a preview bounded by
/// `max_len` shows: all of them, or the first `max_len`.
pub open spec fn visible_count(len: nat, max_len: nat) -> nat {
    if len <= max_len {
        len
    } else {
        max_len
    }
}

/// How many elements of a sequence of length `len` a preview bounded by
/// `max_len` leaves out.
pub open spec fn omitted_count(len: nat, max_len: nat) -> nat {
    (len - visible_count(len, max_len)) as nat
}

/// Whether a preview bounded by `max_len` leaves out any element of a
/// sequence of length `len`.
pub open spec fn is_truncated(len: nat, max_len: nat) -> bool {
    len > max_len
}

/// The texts in order, with `", "` between neighbours.
pub open spec fn joined(texts: Seq<Seq<char>>) -> Seq<char>
    decreases texts.len(),
{
    if texts.len() == 0 {
        Seq::empty()
    } else if texts.len() == 1 {
        texts[0]
    } else {
        joined(texts.drop_last()) + ", "@ + texts.last()
    }
}

/// What stands for `omitted` elements that are left out: nothing when
/// there are none, else `", ...(R more)"` with `R` the count in decimal.
pub open spec fn omission_note(omitted: nat) -> Seq<char> {
    if omitted == 0 {
        Seq::empty()
    } else {
        ", ...("@ + decimal_text(omitted) + " more)"@
    }
}

/// The bracketed text that shows `shown` and reports `omitted` further
/// elements.
pub open spec fn framed(shown: Seq<Seq<char>>, omitted: nat) -> Seq<char> {
    "["@ + joined(shown) + omission_note(omitted) + "]"@
}

/// The preview, bounded by `max_len`, of a sequence whose elements have
/// the texts `texts`.
pub open spec fn preview_text(texts: Seq<Seq<char>>, max_len: nat) -> Seq<char> {
    framed(
        texts.take(visible_count(texts.len(), max_len) as int),
        omitted_count(texts.len(), max_len),
    )
}

/// The texts that the strings of a slice hold.
pub open spec fn texts_of(strings: Seq<String>) -> Seq<Seq<char>> {
    strings.map_values(|s: String| s@)
}

/// `joined` grows by a separator and the new text when a text is added to
/// a sequence that is not empty.
pub proof fn lemma_joined_push(texts: Seq<Seq<char>>, text: Seq<char>)
    ensures
        joined(texts.push(text)) == if texts.len() == 0 {
            text
        } else {
            joined(texts) + ", "@ + text
        },
{
    assert(texts.push(text).drop_last() =~= texts);
}

/// Writes the bracketed text that shows `shown`, in order, and reports
/// `omitted` further elements when that count is not zero.
pub fn render_visible(shown: &[String], omitted: usize) -> (out: String)
    ensures
        out@ == framed(texts_of(shown@), omitted as nat),
{
    let ghost texts = texts_of(shown@);
    let mut out = String::from_str("[");
    let mut i: usize = 0;
    while i < shown.len()
        invariant
            i <= shown.len(),
            texts == texts_of(shown@),
            out@ == "["@ + joined(texts.take(i as int)),
        decreases shown.len() - i,
    {
        proof {
            lemma_joined_push(texts.take(i as int), texts[i as int]);
            assert(texts.take(i as int).push(texts[i as int]) =~= texts.take(i + 1));
        }
        if i > 0 {
            out.append(", ");
        }
        out.append(shown[i].as_str());
        i = i + 1;
    }
    assert(texts.take(i as int) =~= texts);
    if omitted > 0 {
        let count = decimal_string(omitted);
        out.append(", ...(");
        out.append(count.as_str());
        out.append(" more)");
    }
    out.append("]");
    out
}

/// Writes the preview, bounded by `max_len`, of a sequence whose elements
/// have the texts `texts`: the first `max_len` of them, and a count of the
/// rest if there are more.
pub fn render_texts(texts: &[String], max_len: usize) -> (out: String)
    ensures
        out@ == preview_text(texts_of(texts@), max_len as nat),
{
    let len = texts.len();
    let shown_len = if len <= max_len { len } else { max_len };
    let shown = &texts[0..shown_len];
    assert(texts_of(shown@) =~= texts_of(texts@).take(shown_len as int));
    render_visible(shown, len - shown_len)
}

} // verus!
