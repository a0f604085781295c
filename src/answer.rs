//! Turning a TXT answer into the text of a rule.
//!
//! An answer is a list of records, each a list of byte chunks. Only the
//! first record counts. Its chunks are joined with a single space between
//! neighbours, and the bytes must be valid UTF-8.
use vstd::prelude::*;
use vstd::utf8::{decode_utf8, valid_utf8};

use crate::text::join_with;

verus! {

/// The rule text that an answer holds, if any.
pub open spec fn record_text(answer: Seq<Seq<Seq<u8>>>) -> Option<Seq<char>> {
    if answer.len() == 0 {
        None
    } else {
        let bytes = join_with(answer[0], 0x20u8);
        if valid_utf8(bytes) {
            Some(decode_utf8(bytes))
        } else {
            None
        }
    }
}

/// Relies on `String::from_utf8`: it succeeds exactly on valid UTF-8 and
/// then holds the decoded characters.
#[verifier::external_body]
fn utf8_to_string(bytes: Vec<u8>) -> (r: Option<String>)
    ensures
        r is Some <==> valid_utf8(bytes@),
        r matches Some(s) ==> s@ == decode_utf8(bytes@),
{
    String::from_utf8(bytes).ok()
}

/// Appends all of `src` to `dst`.
fn append_bytes(dst: &mut Vec<u8>, src: &Vec<u8>)
    ensures
        final(dst)@ == old(dst)@ + src@,
{
    let mut i: usize = 0;
    while i < src.len()
        invariant
            i <= src@.len(),
            dst@ == old(dst)@ + src@.subrange(0, i as int),
        decreases src@.len() - i,
    {
        dst.push(src[i]);
        assert(src@.subrange(0, i + 1) =~= src@.subrange(0, i as int).push(src@[i as int]));
        i = i + 1;
    }
    assert(src@.subrange(0, src@.len() as int) =~= src@);
}

/// Joins the chunks of one record with single spaces.
pub fn join_chunks(chunks: &Vec<Vec<u8>>) -> (r: Vec<u8>)
    ensures
        r@ == join_with(chunks.deep_view(), 0x20u8),
{
    let n = chunks.len();
    let mut r: Vec<u8> = Vec::new();
    let mut i: usize = 0;
    while i < n
        invariant
            n == chunks@.len(),
            i <= n,
            r@ == join_with(chunks.deep_view().subrange(0, i as int), 0x20u8),
        decreases n - i,
    {
        if i > 0 {
            r.push(0x20u8);
        }
        append_bytes(&mut r, &chunks[i]);
        assert(chunks.deep_view().subrange(0, i + 1).drop_last() =~= chunks.deep_view().subrange(
            0,
            i as int,
        ));
        i = i + 1;
    }
    assert(chunks.deep_view().subrange(0, n as int) =~= chunks.deep_view());
    r
}

/// The rule text of an answer: none for an empty answer or for a first
/// record that is not valid UTF-8.
pub fn extract(answer: &Vec<Vec<Vec<u8>>>) -> (r: Option<String>)
    ensures
        r is None <==> record_text(answer.deep_view()) is None,
        r matches Some(s) ==> record_text(answer.deep_view()) == Some(s@),
{
    if answer.len() == 0 {
        return None;
    }
    let bytes = join_chunks(&answer[0]);
    utf8_to_string(bytes)
}

} // verus!
