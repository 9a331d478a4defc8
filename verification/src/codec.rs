//! The codec itself: how a 32-bit address is cut into three dictionary
//! indices, the inverse recombination, and the word-level encode and decode
//! built on the dictionary.

use vstd::prelude::*;
use crate::error::Ip3Error;
use crate::words::Wordlist;
use crate::words::contains_word;
use crate::words::lemma_position_of_entry;
use crate::words::word_position;
use crate::words::word_to_bytes;
use crate::words::wordlist_wf;

verus! {

/// A three-word name for an address: first, second and third word in order.
#[derive(Debug, Clone, PartialEq, Eq)]
pub struct Ip3(pub String, pub String, pub String);

/// Index of the first word: the least-significant 11 bits of the address.
pub open spec fn seg1(a: u32) -> u32 {
    a & 0x7FF
}

/// Index of the second word: the next 11 bits of the address.
pub open spec fn seg2(a: u32) -> u32 {
    (a >> 11) & 0x7FF
}

/// Index of the third word: the most-significant 10 bits of the address.
pub open spec fn seg3(a: u32) -> u32 {
    (a >> 22) & 0x3FF
}

/// The address built from three dictionary indices, first index in the
/// least-significant bits. Only the low 10 bits of the third index count:
/// 11 + 11 + 10 = 32.
pub open spec fn combine(i1: u32, i2: u32, i3: u32) -> u32 {
    (i1 & 0x7FF) | ((i2 & 0x7FF) << 11) | ((i3 & 0x3FF) << 22)
}

/// The three dictionary entries that name an address.
pub open spec fn spec_encode(wl: Seq<Seq<char>>, a: u32) -> (Seq<char>, Seq<char>, Seq<char>) {
    (wl[seg1(a) as int], wl[seg2(a) as int], wl[seg3(a) as int])
}

/// The address named by a triple of words, or `None` when a word is not in
/// the dictionary.
pub open spec fn spec_decode(wl: Seq<Seq<char>>, t: (Seq<char>, Seq<char>, Seq<char>)) -> Option<
    u32,
> {
    if contains_word(wl, t.0) && contains_word(wl, t.1) && contains_word(wl, t.2) {
        Some(
            combine(
                word_position(wl, t.0) as u32,
                word_position(wl, t.1) as u32,
                word_position(wl, t.2) as u32,
            ),
        )
    } else {
        None
    }
}

/// Each segment is a valid dictionary index, the third one below 1024.
pub proof fn lemma_seg_bounds(a: u32)
    by (bit_vector)
    ensures
        seg1(a) < 2048,
        seg2(a) < 2048,
        seg3(a) < 1024,
{
}

/// Splitting an address and recombining the segments gives the address back.
pub proof fn lemma_combine_seg(a: u32)
    by (bit_vector)
    ensures
        combine(seg1(a), seg2(a), seg3(a)) == a,
{
}

/// Recombined segments of in-range indices are the indices themselves.
pub proof fn lemma_seg_combine(i1: u32, i2: u32, i3: u32)
    by (bit_vector)
    requires
        i1 < 2048,
        i2 < 2048,
        i3 < 1024,
    ensures
        seg1(combine(i1, i2, i3)) == i1,
        seg2(combine(i1, i2, i3)) == i2,
        seg3(combine(i1, i2, i3)) == i3,
{
}

/// Encode: the three words at the address's three segment indices. Every
/// 32-bit address has an encoding; there is no failure path.
pub fn ipv4_to_ip3(wl: &Wordlist, ip: u32) -> (r: Ip3)
    requires
        wl.wf(),
    ensures
        (r.0@, r.1@, r.2@) == spec_encode(wl@, ip),
{
    proof {
        lemma_seg_bounds(ip);
    }
    let i1: usize = (ip & 0x7FF) as usize;
    let i2: usize = ((ip >> 11) & 0x7FF) as usize;
    let i3: usize = ((ip >> 22) & 0x3FF) as usize;
    Ip3(wl.word_at(i1).clone(), wl.word_at(i2).clone(), wl.word_at(i3).clone())
}

/// Decode: look up the three words' codes and recombine them. Fails with
/// `WordNotFound`, carrying the first offending word, exactly when a word
/// is absent; words are checked in order.
pub fn ip3_to_ipv4(wl: &Wordlist, words: &Ip3) -> (r: Result<u32, Ip3Error>)
    requires
        wl.wf(),
    ensures
        r is Ok <==> spec_decode(wl@, (words.0@, words.1@, words.2@)) is Some,
        r matches Ok(a) ==> spec_decode(wl@, (words.0@, words.1@, words.2@)) == Some(a),
        !contains_word(wl@, words.0@) ==> (r matches Err(e) && e matches Ip3Error::WordNotFound(w)
            && w@ == words.0@),
        contains_word(wl@, words.0@) && !contains_word(wl@, words.1@) ==> (r matches Err(e)
            && e matches Ip3Error::WordNotFound(w) && w@ == words.1@),
        contains_word(wl@, words.0@) && contains_word(wl@, words.1@) && !contains_word(
            wl@,
            words.2@,
        ) ==> (r matches Err(e) && e matches Ip3Error::WordNotFound(w) && w@ == words.2@),
{
    let i1 = match word_to_bytes(wl, words.0.as_str()) {
        Ok(i) => i,
        Err(e) => {
            return Err(e);
        },
    };
    let i2 = match word_to_bytes(wl, words.1.as_str()) {
        Ok(i) => i,
        Err(e) => {
            return Err(e);
        },
    };
    let i3 = match word_to_bytes(wl, words.2.as_str()) {
        Ok(i) => i,
        Err(e) => {
            return Err(e);
        },
    };
    let a: u32 = ((i1 as u32) & 0x7FF) | (((i2 as u32) & 0x7FF) << 11) | (((i3 as u32) & 0x3FF)
        << 22);
    Ok(a)
}

/// Law: decoding the triple that encodes an address gives the address back,
/// for every 32-bit address.
pub proof fn lemma_decode_encode(wl: Seq<Seq<char>>, a: u32)
    requires
        wordlist_wf(wl),
    ensures
        spec_decode(wl, spec_encode(wl, a)) == Some(a),
{
    lemma_seg_bounds(a);
    lemma_position_of_entry(wl, seg1(a) as int);
    lemma_position_of_entry(wl, seg2(a) as int);
    lemma_position_of_entry(wl, seg3(a) as int);
    lemma_combine_seg(a);
}

/// Law: the boundary vectors. In any well-formed dictionary with these
/// entries at these positions — as the English dictionary's contract
/// states — the three fixed addresses encode to exactly these triples and
/// the triples decode back, and "abandon" and "zoo" sit at the
/// dictionary's two ends.
pub proof fn lemma_boundary_vectors(wl: Seq<Seq<char>>)
    requires
        wordlist_wf(wl),
        wl[0] == "abandon"@,
        wl[1] == "ability"@,
        wl[4] == "above"@,
        wl[32] == "advice"@,
        wl[257] == "cage"@,
        wl[508] == "display"@,
        wl[2047] == "zoo"@,
    ensures
        spec_encode(wl, 0u32) == ("abandon"@, "abandon"@, "abandon"@),
        spec_decode(wl, ("abandon"@, "abandon"@, "abandon"@)) == Some(0u32),
        spec_encode(wl, 0x7F000001u32) == ("ability"@, "abandon"@, "display"@),
        spec_decode(wl, ("ability"@, "abandon"@, "display"@)) == Some(0x7F000001u32),
        spec_encode(wl, 0x01010101u32) == ("cage"@, "advice"@, "above"@),
        spec_decode(wl, ("cage"@, "advice"@, "above"@)) == Some(0x01010101u32),
        word_position(wl, "abandon"@) == 0,
        word_position(wl, "zoo"@) == 2047,
{
    assert(seg1(0u32) == 0 && seg2(0u32) == 0 && seg3(0u32) == 0) by (bit_vector);
    assert(seg1(0x7F000001u32) == 1 && seg2(0x7F000001u32) == 0 && seg3(0x7F000001u32) == 508)
        by (bit_vector);
    assert(seg1(0x01010101u32) == 257 && seg2(0x01010101u32) == 32 && seg3(0x01010101u32) == 4)
        by (bit_vector);
    lemma_position_of_entry(wl, 0);
    lemma_position_of_entry(wl, 1);
    lemma_position_of_entry(wl, 4);
    lemma_position_of_entry(wl, 32);
    lemma_position_of_entry(wl, 257);
    lemma_position_of_entry(wl, 508);
    lemma_position_of_entry(wl, 2047);
    assert(combine(0u32, 0u32, 0u32) == 0) by (bit_vector);
    assert(combine(1u32, 0u32, 508u32) == 0x7F000001) by (bit_vector);
    assert(combine(257u32, 32u32, 4u32) == 0x01010101) by (bit_vector);
}

/// Law: encoding the address decoded from a triple of dictionary members
/// gives the triple back, provided the third word's position is below 1024
/// (positions 1024..2047 never appear third in an encoding).
pub proof fn lemma_encode_decode(wl: Seq<Seq<char>>, t: (Seq<char>, Seq<char>, Seq<char>))
    requires
        wordlist_wf(wl),
        contains_word(wl, t.0),
        contains_word(wl, t.1),
        contains_word(wl, t.2),
        word_position(wl, t.2) < 1024,
    ensures
        spec_decode(wl, t) matches Some(a) && spec_encode(wl, a) == t,
{
    let i1 = word_position(wl, t.0);
    let i2 = word_position(wl, t.1);
    let i3 = word_position(wl, t.2);
    assert(0 <= i1 < wl.len() && wl[i1] == t.0);
    assert(0 <= i2 < wl.len() && wl[i2] == t.1);
    assert(0 <= i3 < wl.len() && wl[i3] == t.2);
    lemma_seg_combine(i1 as u32, i2 as u32, i3 as u32);
}

} // verus!
