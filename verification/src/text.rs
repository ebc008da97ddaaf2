//! Turning one inbound read into the text of a `Message` event.
//!
//! A read hands back a chunk of raw bytes, padded with trailing NUL bytes
//! when the chunk came from a fixed-size buffer larger than the data. The
//! payload of the event is the chunk decoded as UTF-8 with lossy
//! replacement, with trailing NUL characters stripped: only the padding at
//! the end is removed, anything before it is delivered as received. NUL is
//! never a valid content byte on this wire, so the trim only removes
//! padding; a payload that needed a literal trailing NUL could not be
//! represented.

use vstd::prelude::*;
use vstd::string::*;
use vstd::utf8::{
    decode_utf8, length_of_first_scalar, pop_first_scalar, valid_first_scalar, valid_utf8,
    valid_utf8_concat,
};

verus! {

/// `s` without its trailing NUL characters.
pub open spec fn trim_trailing_nuls(s: Seq<char>) -> Seq<char>
    decreases s.len(),
{
    if s.len() > 0 && s[s.len() - 1] == '\0' {
        trim_trailing_nuls(s.subrange(0, s.len() - 1))
    } else {
        s
    }
}

/// `s` without any NUL character, wherever it stands.
pub open spec fn remove_nuls(s: Seq<char>) -> Seq<char> {
    s.filter(|c: char| c != '\0')
}

/// What `String::from_utf8_lossy` returns for the given bytes.
pub uninterp spec fn lossy_of(bytes: Seq<u8>) -> Seq<char>;

/// The text of the `Message` event for one chunk of received bytes.
pub open spec fn payload_of(bytes: Seq<u8>) -> Seq<char> {
    trim_trailing_nuls(lossy_of(bytes))
}

/// The same payload written over the UTF-8 decoding itself; equals
/// `payload_of` whenever the chunk is valid UTF-8.
pub open spec fn clean_payload(bytes: Seq<u8>) -> Seq<char> {
    trim_trailing_nuls(decode_utf8(bytes))
}

/// Relies on `String::from_utf8_lossy`: the result depends on the bytes
/// alone, and on valid UTF-8 input it is exactly the decoded string.
#[verifier::external_body]
fn utf8_lossy(bytes: &[u8]) -> (r: String)
    ensures
        r@ == lossy_of(bytes@),
        valid_utf8(bytes@) ==> r@ == decode_utf8(bytes@),
{
    String::from_utf8_lossy(bytes).into_owned()
}

/// When everything from `j` on is NUL and `j - 1` is not (or `j` is the
/// start), the trailing trim is exactly the prefix up to `j`.
proof fn lemma_trim_trailing_range(s: Seq<char>, j: int)
    requires
        0 <= j <= s.len(),
        forall|k: int| j <= k < s.len() ==> s[k] == '\0',
        j > 0 ==> s[j - 1] != '\0',
    ensures
        trim_trailing_nuls(s) =~= s.subrange(0, j),
    decreases s.len(),
{
    if s.len() == j {
        assert(s.subrange(0, j) =~= s);
    } else {
        let head = s.subrange(0, s.len() - 1);
        lemma_trim_trailing_range(head, j);
        assert(head.subrange(0, j) =~= s.subrange(0, j));
    }
}

/// `s` with its trailing NUL characters stripped.
fn trim_trailing_nul_chars(s: &str) -> (r: String)
    ensures
        r@ == trim_trailing_nuls(s@),
{
    let n = s.unicode_len();
    let mut j: usize = n;
    while j > 0 && s.get_char(j - 1) == '\0'
        invariant
            0 <= j <= n,
            n == s@.len(),
            forall|k: int| j <= k < n ==> s@[k] == '\0',
        decreases j,
    {
        j = j - 1;
    }
    proof {
        lemma_trim_trailing_range(s@, j as int);
    }
    s.substring_char(0, j).to_owned()
}

/// Decode one received chunk into the text of its `Message` event: the
/// UTF-8-lossy decoding of the bytes, trimmed of trailing NUL padding.
pub fn decode_chunk(bytes: &[u8]) -> (r: String)
    ensures
        r@ == payload_of(bytes@),
        valid_utf8(bytes@) ==> r@ == clean_payload(bytes@),
{
    let s = utf8_lossy(bytes);
    trim_trailing_nul_chars(s.as_str())
}

/// A single NUL character is removed entirely.
proof fn lemma_remove_nuls_singleton_nul(c: char)
    requires
        c == '\0',
    ensures
        remove_nuls(seq![c]) =~= Seq::<char>::empty(),
{
    reveal_with_fuel(Seq::filter, 2);
}

/// The trailing trim removes nothing but NUL characters: after removing
/// every NUL, a trimmed sequence and the untrimmed one are the same.
pub proof fn lemma_remove_nuls_trim(s: Seq<char>)
    ensures
        remove_nuls(trim_trailing_nuls(s)) =~= remove_nuls(s),
    decreases s.len(),
{
    if s.len() > 0 && s[s.len() - 1] == '\0' {
        let head = s.subrange(0, s.len() - 1);
        lemma_remove_nuls_trim(head);
        assert(s =~= head + seq![s[s.len() - 1]]);
        Seq::filter_distributes_over_add(head, seq![s[s.len() - 1]], |c: char| c != '\0');
        lemma_remove_nuls_singleton_nul(s[s.len() - 1]);
        assert(remove_nuls(s) =~= remove_nuls(head));
    }
}

/// Decoding distributes over concatenation of two valid UTF-8 sequences.
proof fn lemma_decode_utf8_concat(b1: Seq<u8>, b2: Seq<u8>)
    requires
        valid_utf8(b1),
        valid_utf8(b2),
    ensures
        valid_utf8(b1 + b2),
        decode_utf8(b1 + b2) =~= decode_utf8(b1) + decode_utf8(b2),
    decreases b1.len(),
{
    valid_utf8_concat(b1, b2);
    if b1.len() == 0 {
        assert(b1 + b2 =~= b2);
    } else {
        assert(valid_first_scalar(b1));
        assert(1 <= length_of_first_scalar(b1) <= b1.len());
        let rest = pop_first_scalar(b1);
        assert(pop_first_scalar(b1 + b2) =~= rest + b2);
        lemma_decode_utf8_concat(rest, b2);
    }
}

/// Flattening a sequence of valid UTF-8 chunks is valid UTF-8, and decodes
/// to the concatenation of the chunks' decodings.
proof fn lemma_decode_utf8_flatten(chunks: Seq<Seq<u8>>)
    requires
        forall|i: int| 0 <= i < chunks.len() ==> valid_utf8(#[trigger] chunks[i]),
    ensures
        valid_utf8(chunks.flatten()),
        decode_utf8(chunks.flatten()) =~= chunks.map_values(
            |c: Seq<u8>| decode_utf8(c),
        ).flatten(),
    decreases chunks.len(),
{
    if chunks.len() == 0 {
    } else {
        let rest = chunks.drop_first();
        assert(forall|i: int| 0 <= i < rest.len() ==> valid_utf8(#[trigger] rest[i]));
        lemma_decode_utf8_flatten(rest);
        lemma_decode_utf8_concat(chunks.first(), rest.flatten());
        let dec = |c: Seq<u8>| decode_utf8(c);
        assert(chunks.map_values(dec).drop_first() =~= rest.map_values(dec));
    }
}

/// Law: however the peer's bytes were split into reads, as long as every
/// chunk is valid UTF-8 on its own, the `Message` payloads concatenated and
/// with every NUL character removed equal the decoding of all bytes
/// received with every NUL character removed: per-chunk trimming loses
/// nothing but NULs, and the chunking loses nothing at all.
pub proof fn lemma_payloads_reassemble(chunks: Seq<Seq<u8>>)
    requires
        forall|i: int| 0 <= i < chunks.len() ==> valid_utf8(#[trigger] chunks[i]),
    ensures
        valid_utf8(chunks.flatten()),
        remove_nuls(chunks.map_values(|c: Seq<u8>| clean_payload(c)).flatten()) =~= remove_nuls(
            decode_utf8(chunks.flatten()),
        ),
    decreases chunks.len(),
{
    lemma_decode_utf8_flatten(chunks);
    let pay = |c: Seq<u8>| clean_payload(c);
    let dec = |c: Seq<u8>| decode_utf8(c);
    if chunks.len() == 0 {
    } else {
        let rest = chunks.drop_first();
        assert(forall|i: int| 0 <= i < rest.len() ==> valid_utf8(#[trigger] rest[i]));
        lemma_payloads_reassemble(rest);
        lemma_decode_utf8_flatten(rest);
        assert(chunks.map_values(pay).drop_first() =~= rest.map_values(pay));
        assert(chunks.map_values(pay).flatten() =~= pay(chunks.first()) + rest.map_values(
            pay,
        ).flatten());
        Seq::filter_distributes_over_add(
            pay(chunks.first()),
            rest.map_values(pay).flatten(),
            |c: char| c != '\0',
        );
        lemma_remove_nuls_trim(decode_utf8(chunks.first()));
        lemma_decode_utf8_concat(chunks.first(), rest.flatten());
        Seq::filter_distributes_over_add(
            decode_utf8(chunks.first()),
            decode_utf8(rest.flatten()),
            |c: char| c != '\0',
        );
        assert(remove_nuls(chunks.map_values(pay).flatten()) =~= remove_nuls(
            decode_utf8(chunks.first()),
        ) + remove_nuls(decode_utf8(rest.flatten())));
    }
}

} // verus!
