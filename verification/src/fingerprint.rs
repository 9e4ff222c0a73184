//! Fingerprints of bytes and texts, computed with the Fx hasher.
//!
//! A fingerprint names a directory. It is stable on one machine; machines of
//! another word size give other fingerprints, so nothing here says what the
//! value of one is.

use vstd::prelude::*;

use rustc_hash::FxHasher;

verus! {

/// The hasher of the `rustc_hash` crate, carried through as it is.
#[verifier::external_type_specification]
#[verifier::external_body]
pub struct ExFxHasher(FxHasher);

/// Calls `FxHasher::default`, which makes a hasher that has seen nothing.
#[verifier::external_body]
pub(crate) fn new_hasher() -> FxHasher {
    FxHasher::default()
}

/// Calls the hasher's `write` with the bytes.
#[verifier::external_body]
pub(crate) fn feed_bytes(hasher: &mut FxHasher, bytes: &[u8]) {
    std::hash::Hasher::write(hasher, bytes)
}

/// Feeds a text to the hasher the way the standard library hashes a `str`,
/// which ends in calls of the hasher's `write` and `write_u8`.
#[verifier::external_body]
pub(crate) fn feed_text(hasher: &mut FxHasher, text: &str) {
    std::hash::Hash::hash(text, hasher)
}

/// Calls the hasher's `write_u64` with the number.
#[verifier::external_body]
pub(crate) fn feed_u64(hasher: &mut FxHasher, value: u64) {
    std::hash::Hasher::write_u64(hasher, value)
}

/// Calls the hasher's `write_usize` with the number, which is how the
/// standard library announces the length of a list.
#[verifier::external_body]
pub(crate) fn feed_length(hasher: &mut FxHasher, value: usize) {
    std::hash::Hasher::write_usize(hasher, value)
}

/// Calls the hasher's `write_isize` with the number, which is how the
/// standard library announces the variant of a value with several.
#[verifier::external_body]
pub(crate) fn feed_variant(hasher: &mut FxHasher, value: isize) {
    std::hash::Hasher::write_isize(hasher, value)
}

/// Calls the hasher's `finish`, which gives the hash of all it has seen.
#[verifier::external_body]
pub(crate) fn finish(hasher: &FxHasher) -> u64 {
    std::hash::Hasher::finish(hasher)
}

/// One thing that is handed to a hasher.
#[derive(Clone, Copy, Debug, PartialEq, Eq)]
pub enum Feed<'a> {
    /// A text, handed over as the standard library hashes texts.
    Text(&'a str),
    /// A number.
    Number(u64),
    /// The length of a list that follows.
    Length(usize),
    /// The number of the variant of a value that has several.
    Variant(isize),
}

/// What [`Feed`] looks like to contracts: the same value with every text as a
/// sequence of characters.
pub enum FeedView {
    Text(Seq<char>),
    Number(u64),
    Length(usize),
    Variant(isize),
}

impl<'a> View for Feed<'a> {
    type V = FeedView;

    open spec fn view(&self) -> FeedView {
        match self {
            Feed::Text(text) => FeedView::Text(text@),
            Feed::Number(value) => FeedView::Number(*value),
            Feed::Length(value) => FeedView::Length(*value),
            Feed::Variant(value) => FeedView::Variant(*value),
        }
    }
}

impl<'a> DeepView for Feed<'a> {
    type V = FeedView;

    open spec fn deep_view(&self) -> FeedView {
        self@
    }
}

/// Hands the feeds to the hasher, first to last, each by the hasher's way of
/// taking its kind. What the hasher makes of them is its own affair.
pub(crate) fn feed_all(hasher: &mut FxHasher, feeds: &Vec<Feed>) {
    let mut i: usize = 0;
    while i < feeds.len()
        invariant
            i <= feeds.len(),
        decreases feeds.len() - i,
    {
        match feeds[i] {
            Feed::Text(text) => feed_text(hasher, text),
            Feed::Number(value) => feed_u64(hasher, value),
            Feed::Length(value) => feed_length(hasher, value),
            Feed::Variant(value) => feed_variant(hasher, value),
        }
        i = i + 1;
    }
}

/// The fingerprint of a run of bytes.
pub(crate) fn of_bytes(bytes: &[u8]) -> u64 {
    let mut hasher = new_hasher();
    feed_bytes(&mut hasher, bytes);
    finish(&hasher)
}

/// The fingerprint of a text.
pub(crate) fn of_text(text: &str) -> u64 {
    let mut hasher = new_hasher();
    feed_text(&mut hasher, text);
    finish(&hasher)
}

} // verus!
