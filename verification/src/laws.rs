//! What holds of every preview, whatever the elements and the bound.

use crate::decimal::decimal_text;
use crate::layout::{
    framed, is_truncated, joined, omission_note, omitted_count, preview_text, visible_count,
};
use vstd::prelude::*;

verus! {

/// A bound that is not below the length changes nothing: the preview is
/// the one of the whole sequence, all texts joined between the brackets
/// and no note of omitted elements.
pub proof fn law_large_bound_shows_all(texts: Seq<Seq<char>>, max_len: nat)
    requires
        max_len >= texts.len(),
    ensures
        preview_text(texts, max_len) == "["@ + joined(texts) + "]"@,
        preview_text(texts, max_len) == preview_text(texts, texts.len()),
{
    assert(texts.take(texts.len() as int) =~= texts);
    assert("["@ + joined(texts) + Seq::<char>::empty() + "]"@ =~= "["@ + joined(texts) + "]"@);
}

/// A bound below the length shows the first `max_len` texts, joined, and
/// then `", ...(R more)"`, where `R` is the number of the remaining
/// elements in decimal.
pub proof fn law_small_bound_truncates(texts: Seq<Seq<char>>, max_len: nat)
    requires
        max_len < texts.len(),
    ensures
        preview_text(texts, max_len) == "["@ + joined(texts.take(max_len as int)) + ", ...("@
            + decimal_text((texts.len() - max_len) as nat) + " more)"@ + "]"@,
{
    let shown = joined(texts.take(max_len as int));
    let count = decimal_text((texts.len() - max_len) as nat);
    assert("["@ + shown + (", ...("@ + count + " more)"@) + "]"@ =~= "["@ + shown + ", ...("@
        + count + " more)"@ + "]"@);
}

/// A bound of zero shows no element: between the brackets stands only
/// the note, separator first, with the length of the sequence as its
/// count.
pub proof fn law_zero_bound_shows_only_the_count(texts: Seq<Seq<char>>)
    requires
        texts.len() > 0,
    ensures
        preview_text(texts, 0) == "["@ + ", ...("@ + decimal_text(texts.len()) + " more)"@ + "]"@,
{
    law_small_bound_truncates(texts, 0);
    assert(joined(texts.take(0)) =~= Seq::<char>::empty());
    assert("["@ + Seq::<char>::empty() =~= "["@);
}

/// A bound equal to the length shows every element and adds no note of
/// omitted elements.
pub proof fn law_exact_bound_has_no_note(texts: Seq<Seq<char>>)
    ensures
        omitted_count(texts.len(), texts.len()) == 0,
        omission_note(omitted_count(texts.len(), texts.len())) == Seq::<char>::empty(),
        preview_text(texts, texts.len()) == "["@ + joined(texts) + "]"@,
{
    law_large_bound_shows_all(texts, texts.len());
}

/// The preview is a function of the texts and the bound alone: two
/// renderings of the same texts under the same bound are the same text.
pub proof fn law_rendering_is_repeatable(
    texts: Seq<Seq<char>>,
    max_len: nat,
    first: Seq<char>,
    second: Seq<char>,
)
    requires
        first == preview_text(texts, max_len),
        second == preview_text(texts, max_len),
    ensures
        first == second,
{
}

/// The preview draws on the visible elements and on the length alone:
/// sequences of one length whose visible texts agree have one preview.
pub proof fn law_hidden_texts_do_not_matter(
    texts: Seq<Seq<char>>,
    others: Seq<Seq<char>>,
    max_len: nat,
)
    requires
        texts.len() == others.len(),
        forall|i: int| 0 <= i < visible_count(texts.len(), max_len) ==> texts[i] == others[i],
    ensures
        preview_text(texts, max_len) == preview_text(others, max_len),
{
    let shown = visible_count(texts.len(), max_len) as int;
    assert(texts.take(shown) =~= others.take(shown));
}

/// A larger bound never shows fewer elements, and no bound shows more
/// elements than there are.
pub proof fn law_visible_count_is_monotonic(len: nat, smaller: nat, larger: nat)
    requires
        smaller <= larger,
    ensures
        visible_count(len, smaller) <= visible_count(len, larger),
        visible_count(len, larger) <= len,
{
}

/// Elements are left out exactly when the sequence is longer than the
/// bound; the preview then shows `max_len` of them and leaves out the
/// rest, and the note of omitted elements is not empty.
pub proof fn law_truncation_is_exact(len: nat, max_len: nat)
    ensures
        is_truncated(len, max_len) <==> omitted_count(len, max_len) > 0,
        is_truncated(len, max_len) <==> omission_note(omitted_count(len, max_len)).len() > 0,
        is_truncated(len, max_len) ==> visible_count(len, max_len) == max_len && omitted_count(
            len,
            max_len,
        ) == len - max_len,
        visible_count(len, max_len) + omitted_count(len, max_len) == len,
{
    reveal_strlit(", ...(");
}

/// Every preview opens with `[` and closes with `]`.
pub proof fn law_preview_is_bracketed(shown: Seq<Seq<char>>, omitted: nat)
    ensures
        framed(shown, omitted).len() >= 2,
        framed(shown, omitted).first() == '[',
        framed(shown, omitted).last() == ']',
{
    reveal_strlit("[");
    reveal_strlit("]");
}

/// The preview of an empty sequence is `[]` under every bound.
pub proof fn law_empty_preview(max_len: nat)
    ensures
        preview_text(Seq::empty(), max_len) == "[]"@,
{
    reveal_strlit("[");
    reveal_strlit("]");
    reveal_strlit("[]");
    let none = Seq::<Seq<char>>::empty();
    assert(none.take(0) =~= none);
    assert(preview_text(none, max_len) =~= "[]"@);
}

} // verus!
