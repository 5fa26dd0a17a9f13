//! A slice together with a bound on how much of it is shown.

use crate::layout::{preview_text, render_visible, texts_of, visible_count};
use std::fmt::{Debug, Write};
use vstd::prelude::*;

verus! {

/// `std::fmt::Error`, the error that a `fmt` method returns. It carries
/// nothing, and nothing is claimed of it.
#[verifier::external_type_specification]
#[verifier::external_body]
pub struct ExFmtError(std::fmt::Error);

/// A borrowed slice and the number of its elements that a preview shows
/// at most.
pub struct TruncatedSlice<'a, T> {
    max_len: usize,
    inner: &'a [T],
}

/// The debug text of `item`: what `Debug::fmt` of its type writes into a
/// fresh `String`, or the error that `fmt` returned. Nothing is claimed
/// of the outcome: the text, and whether there is one, are up to the
/// implementation for `T`.
#[verifier::external_body]
fn debug_text<T: Debug>(item: &T) -> (text: Result<String, std::fmt::Error>) {
    let mut text = String::new();
    match write!(text, "{:?}", item) {
        Ok(()) => Ok(text),
        Err(e) => Err(e),
    }
}

impl<'a, T> TruncatedSlice<'a, T> {
    /// The elements of the slice behind the preview.
    pub closed spec fn source(&self) -> Seq<T> {
        self.inner@
    }

    /// The bound on the number of elements shown.
    pub closed spec fn max_len(&self) -> nat {
        self.max_len as nat
    }

    /// A preview of `wrapped` that shows at most `max_len` elements.
    pub fn new(wrapped: &'a [T], max_len: usize) -> (preview: Self)
        ensures
            preview.source() == wrapped@,
            preview.max_len() == max_len,
    {
        Self { max_len, inner: wrapped }
    }

    /// The number of elements that the preview shows.
    pub fn visible_count(&self) -> (count: usize)
        ensures
            count == visible_count(self.source().len(), self.max_len()),
    {
        if self.inner.len() <= self.max_len {
            self.inner.len()
        } else {
            self.max_len
        }
    }
}

impl<'a, T: Debug> TruncatedSlice<'a, T> {
    /// Writes the preview: `[`, the debug texts of the visible elements
    /// in order with `", "` between them, `", ...(R more)"` if `R > 0`
    /// elements are left out, and `]`.
    ///
    /// Only the visible elements are formatted. The first error that an
    /// element's `fmt` returns ends the rendering and is handed on as it
    /// is, so a preview that shows no element cannot fail. The texts are
    /// the elements' own and unknown here; the result is the preview of
    /// some texts, one for each element of the slice.
    pub fn render(&self) -> (out: Result<String, std::fmt::Error>)
        ensures
            match out {
                Ok(text) => exists|texts: Seq<Seq<char>>|
                    texts.len() == self.source().len()
                    && text@ == #[trigger] preview_text(texts, self.max_len()),
                Err(_) => visible_count(self.source().len(), self.max_len()) > 0,
            },
    {
        let shown_len = self.visible_count();
        let mut shown: Vec<String> = Vec::new();
        let mut i: usize = 0;
        while i < shown_len
            invariant
                i <= shown_len <= self.inner@.len(),
                shown_len == visible_count(self.source().len(), self.max_len()),
                shown@.len() == i,
            decreases shown_len - i,
        {
            match debug_text(&self.inner[i]) {
                Ok(text) => shown.push(text),
                Err(e) => return Err(e),
            }
            i = i + 1;
        }
        let text = render_visible(shown.as_slice(), self.inner.len() - shown_len);
        proof {
            let shown_texts = texts_of(shown@);
            let len = self.inner@.len();
            let texts = Seq::new(
                len,
                |k: int| if k < shown_len { shown_texts[k] } else { Seq::<char>::empty() },
            );
            assert(texts.take(shown_len as int) =~= shown_texts);
            assert(text@ == preview_text(texts, self.max_len()));
        }
        Ok(text)
    }
}

/// What a preview can be taken of.
pub trait TruncateSliceDebug<'a, T> where T: Debug {
    /// The elements that a preview of `self` draws on.
    spec fn elements(&self) -> Seq<T>;

    /// A preview of `self` that shows at most `max_len` elements.
    fn truncate_debug(&self, max_len: usize) -> (preview: TruncatedSlice<'a, T>)
        ensures
            preview.source() == self.elements(),
            preview.max_len() == max_len,
    ;
}

impl<'a, T> TruncateSliceDebug<'a, T> for &'a [T] where T: Debug {
    open spec fn elements(&self) -> Seq<T> {
        (*self)@
    }

    fn truncate_debug(&self, max_len: usize) -> (preview: TruncatedSlice<'a, T>) {
        TruncatedSlice::new(*self, max_len)
    }
}

} // verus!
