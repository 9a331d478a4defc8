//! Boundary text: the dotted-quad form of an address and the dotted
//! three-word form of a triple, each with a parser and a formatter.

use vstd::prelude::*;
use vstd::std_specs::iter::IteratorSpec;
use crate::codec::Ip3;
use crate::error::Ip3Error;

verus! {

broadcast use vstd::string::axiom_spec_iter, vstd::string::next_postcondition;

/// Relies on `String::push`: appends the given character to the end.
pub assume_specification[ String::push ](s: &mut String, c: char)
    ensures
        final(s)@ == old(s)@.push(c),
;

/// The characters of a string, as a vector.
fn chars_of(s: &str) -> (v: Vec<char>)
    ensures
        v@ == s@,
{
    let mut it = s.chars();
    let mut v: Vec<char> = Vec::new();
    loop
        invariant
            v@ + it.remaining() == s@,
            it.decrease() is Some,
        ensures
            v@ == s@,
        decreases it.decrease()->0,
    {
        match it.next() {
            Some(c) => {
                v.push(c);
                assert(v@ + it.remaining() =~= s@);
            },
            None => {
                assert(v@ =~= s@);
                break ;
            },
        }
    }
    v
}

/// Position of the first period in `s`, or `s.len()` when there is none.
pub open spec fn first_dot(s: Seq<char>) -> int
    decreases s.len(),
{
    if s.len() == 0 {
        0
    } else if s[0] == '.' {
        0
    } else {
        1 + first_dot(s.drop_first())
    }
}

/// `first_dot` is the position after the longest period-free prefix.
proof fn lemma_first_dot(s: Seq<char>, k: int)
    requires
        0 <= k <= s.len(),
        forall|i: int| 0 <= i < k ==> s[i] != '.',
        k < s.len() ==> s[k] == '.',
    ensures
        first_dot(s) == k,
    decreases k,
{
    if k == 0 {
    } else {
        assert(s[0] != '.');
        lemma_first_dot(s.drop_first(), k - 1);
    }
}

/// Scan for the next period at or after `from`.
fn find_dot(v: &Vec<char>, from: usize) -> (d: usize)
    requires
        from <= v@.len(),
    ensures
        from <= d <= v@.len(),
        forall|i: int| from <= i < d ==> v@[i] != '.',
        d < v@.len() ==> v@[d as int] == '.',
        d - from == first_dot(v@.skip(from as int)),
{
    let n = v.len();
    let mut d: usize = from;
    while d < n
        invariant
            from <= d <= n == v@.len(),
            forall|i: int| from <= i < d ==> v@[i] != '.',
        decreases n - d,
    {
        if v[d] == '.' {
            proof {
                lemma_first_dot(v@.skip(from as int), d - from);
            }
            return d;
        }
        d += 1;
    }
    proof {
        lemma_first_dot(v@.skip(from as int), d - from);
    }
    d
}

/// The word between positions `from` and `to`, as a `String`.
fn string_of_range(v: &Vec<char>, from: usize, to: usize) -> (r: String)
    requires
        from <= to <= v@.len(),
    ensures
        r@ == v@.subrange(from as int, to as int),
{
    let mut r = String::new();
    let mut i: usize = from;
    while i < to
        invariant
            from <= i <= to <= v@.len(),
            r@ == v@.subrange(from as int, i as int),
        decreases to - i,
    {
        r.push(v[i]);
        assert(r@ =~= v@.subrange(from as int, i + 1 as int));
        i += 1;
    }
    r
}

/// The three words of a dotted triple `w1.w2.w3`, split at its two periods,
/// or `None` unless there are exactly two periods.
pub open spec fn spec_parse_ip3(s: Seq<char>) -> Option<(Seq<char>, Seq<char>, Seq<char>)> {
    let d1 = first_dot(s);
    if d1 == s.len() {
        None
    } else {
        let r1 = s.skip(d1 + 1);
        let d2 = first_dot(r1);
        if d2 == r1.len() {
            None
        } else {
            let r2 = r1.skip(d2 + 1);
            if first_dot(r2) != r2.len() {
                None
            } else {
                Some((s.take(d1), r1.take(d2), r2))
            }
        }
    }
}

/// Splits `w1.w2.w3` into its three words on the two periods; anything
/// without exactly two periods is `MalformedInput`. The words themselves
/// are not validated here: membership is decode's concern.
pub fn parse_ip3(s: &str) -> (r: Result<Ip3, Ip3Error>)
    ensures
        r is Ok <==> spec_parse_ip3(s@) is Some,
        r matches Ok(t) ==> spec_parse_ip3(s@) == Some((t.0@, t.1@, t.2@)),
        r matches Err(e) ==> e == Ip3Error::MalformedInput,
{
    let v = chars_of(s);
    let n = v.len();
    let d1 = find_dot(&v, 0);
    proof {
        assert(v@.skip(0) =~= v@);
    }
    if d1 == n {
        return Err(Ip3Error::MalformedInput);
    }
    let d2 = find_dot(&v, d1 + 1);
    if d2 == n {
        return Err(Ip3Error::MalformedInput);
    }
    proof {
        assert(v@.skip(d1 + 1).skip(d2 - (d1 + 1) + 1) =~= v@.skip(d2 + 1));
    }
    let d3 = find_dot(&v, d2 + 1);
    if d3 != n {
        return Err(Ip3Error::MalformedInput);
    }
    let w1 = string_of_range(&v, 0, d1);
    let w2 = string_of_range(&v, d1 + 1, d2);
    let w3 = string_of_range(&v, d2 + 1, n);
    proof {
        assert(v@.take(d1 as int) =~= v@.subrange(0, d1 as int));
        assert(v@.skip(d1 + 1).take(d2 - (d1 + 1)) =~= v@.subrange(d1 + 1, d2 as int));
        assert(v@.skip(d2 + 1) =~= v@.subrange(d2 + 1, n as int));
    }
    Ok(Ip3(w1, w2, w3))
}

/// A decimal digit character.
pub open spec fn is_digit(c: char) -> bool {
    '0' as u32 <= c as u32 && c as u32 <= '9' as u32
}

/// The value of a digit character.
pub open spec fn digit_val(c: char) -> int {
    c as u32 - '0' as u32
}

/// The character of a digit value.
pub open spec fn digit_char(d: int) -> char {
    (('0' as u32 + d) as u8) as char
}

/// The value of one to three digit characters.
pub open spec fn octet_val(s: Seq<char>) -> int {
    if s.len() <= 1 {
        digit_val(s[0])
    } else if s.len() == 2 {
        10 * digit_val(s[0]) + digit_val(s[1])
    } else {
        100 * digit_val(s[0]) + 10 * digit_val(s[1]) + digit_val(s[2])
    }
}

/// Valid octet text: one to three digits whose value is at most 255.
pub open spec fn is_octet_text(s: Seq<char>) -> bool {
    &&& 1 <= s.len() <= 3
    &&& forall|i: int| 0 <= i < s.len() ==> is_digit(s[i])
    &&& octet_val(s) <= 255
}

/// The address written as `o1.o2.o3.o4`, split at its three periods, most
/// significant octet first; `None` unless there are exactly three periods
/// and every segment is valid octet text.
pub open spec fn spec_parse_ipv4(s: Seq<char>) -> Option<u32> {
    let d1 = first_dot(s);
    if d1 == s.len() {
        None
    } else {
        let p1 = s.take(d1);
        let r1 = s.skip(d1 + 1);
        let d2 = first_dot(r1);
        if d2 == r1.len() {
            None
        } else {
            let p2 = r1.take(d2);
            let r2 = r1.skip(d2 + 1);
            let d3 = first_dot(r2);
            if d3 == r2.len() {
                None
            } else {
                let p3 = r2.take(d3);
                let p4 = r2.skip(d3 + 1);
                if first_dot(p4) != p4.len() {
                    None
                } else if is_octet_text(p1) && is_octet_text(p2) && is_octet_text(p3)
                    && is_octet_text(p4) {
                    Some(
                        (octet_val(p1) * 0x1000000 + octet_val(p2) * 0x10000 + octet_val(p3)
                            * 0x100 + octet_val(p4)) as u32,
                    )
                } else {
                    None
                }
            }
        }
    }
}

/// The digit's value, or `None` for any other character.
fn digit_of(c: char) -> (r: Option<u8>)
    ensures
        r is Some <==> is_digit(c),
        r matches Some(d) ==> d as int == digit_val(c),
{
    let cv = c as u32;
    if '0' as u32 <= cv && cv <= '9' as u32 {
        Some((cv - '0' as u32) as u8)
    } else {
        None
    }
}

/// Reads the octet written between positions `from` and `to`.
fn parse_octet_range(v: &Vec<char>, from: usize, to: usize) -> (r: Option<u8>)
    requires
        from <= to <= v@.len(),
    ensures
        r is Some <==> is_octet_text(v@.subrange(from as int, to as int)),
        r matches Some(b) ==> b as int == octet_val(v@.subrange(from as int, to as int)),
{
    let ghost seg = v@.subrange(from as int, to as int);
    let len = to - from;
    if len < 1 || len > 3 {
        return None;
    }
    let d0 = match digit_of(v[from]) {
        Some(d) => d,
        None => {
            assert(!is_digit(seg[0]));
            return None;
        },
    };
    if len == 1 {
        assert(forall|i: int| 0 <= i < seg.len() ==> is_digit(seg[i]));
        return Some(d0);
    }
    let d1 = match digit_of(v[from + 1]) {
        Some(d) => d,
        None => {
            assert(!is_digit(seg[1]));
            return None;
        },
    };
    if len == 2 {
        assert(forall|i: int| 0 <= i < seg.len() ==> is_digit(seg[i]));
        return Some(10 * d0 + d1);
    }
    let d2 = match digit_of(v[from + 2]) {
        Some(d) => d,
        None => {
            assert(!is_digit(seg[2]));
            return None;
        },
    };
    assert(forall|i: int| 0 <= i < seg.len() ==> is_digit(seg[i]));
    let val: u32 = 100 * (d0 as u32) + 10 * (d1 as u32) + (d2 as u32);
    if val > 255 {
        return None;
    }
    Some(val as u8)
}

/// Parses dotted-quad text to the 32-bit address it writes; anything else
/// is `MalformedInput`.
pub fn parse_ipv4(s: &str) -> (r: Result<u32, Ip3Error>)
    ensures
        r is Ok <==> spec_parse_ipv4(s@) is Some,
        r matches Ok(a) ==> spec_parse_ipv4(s@) == Some(a),
        r matches Err(e) ==> e == Ip3Error::MalformedInput,
{
    let v = chars_of(s);
    let n = v.len();
    let d1 = find_dot(&v, 0);
    proof {
        assert(v@.skip(0) =~= v@);
    }
    if d1 == n {
        return Err(Ip3Error::MalformedInput);
    }
    let d2 = find_dot(&v, d1 + 1);
    if d2 == n {
        return Err(Ip3Error::MalformedInput);
    }
    proof {
        assert(v@.skip(d1 + 1).skip(d2 - (d1 + 1) + 1) =~= v@.skip(d2 + 1));
    }
    let d3 = find_dot(&v, d2 + 1);
    if d3 == n {
        return Err(Ip3Error::MalformedInput);
    }
    proof {
        assert(v@.skip(d2 + 1).skip(d3 - (d2 + 1) + 1) =~= v@.skip(d3 + 1));
    }
    let d4 = find_dot(&v, d3 + 1);
    if d4 != n {
        return Err(Ip3Error::MalformedInput);
    }
    let o1 = parse_octet_range(&v, 0, d1);
    let o2 = parse_octet_range(&v, d1 + 1, d2);
    let o3 = parse_octet_range(&v, d2 + 1, d3);
    let o4 = parse_octet_range(&v, d3 + 1, n);
    proof {
        assert(v@.take(d1 as int) =~= v@.subrange(0, d1 as int));
        assert(v@.skip(d1 + 1).take(d2 - (d1 + 1)) =~= v@.subrange(d1 + 1, d2 as int));
        assert(v@.skip(d2 + 1).take(d3 - (d2 + 1)) =~= v@.subrange(d2 + 1, d3 as int));
        assert(v@.skip(d3 + 1) =~= v@.subrange(d3 + 1, n as int));
    }
    match (o1, o2, o3, o4) {
        (Some(b1), Some(b2), Some(b3), Some(b4)) => {
            let a: u32 = (b1 as u32) * 0x1000000 + (b2 as u32) * 0x10000 + (b3 as u32) * 0x100 + (
            b4 as u32);
            Ok(a)
        },
        _ => Err(Ip3Error::MalformedInput),
    }
}

/// The canonical decimal text of a byte value.
pub open spec fn octet_text(b: int) -> Seq<char> {
    if b < 10 {
        seq![digit_char(b)]
    } else if b < 100 {
        seq![digit_char(b / 10), digit_char(b % 10)]
    } else {
        seq![digit_char(b / 100), digit_char((b / 10) % 10), digit_char(b % 10)]
    }
}

/// The dotted-quad text of an address, most significant octet first.
pub open spec fn spec_format_ipv4(a: u32) -> Seq<char> {
    octet_text((a >> 24) as int) + seq!['.'] + octet_text(((a >> 16) & 0xFF) as int) + seq!['.']
        + octet_text(((a >> 8) & 0xFF) as int) + seq!['.'] + octet_text((a & 0xFF) as int)
}

/// Each byte of an address is below 256.
proof fn lemma_octet_bounds(a: u32)
    by (bit_vector)
    ensures
        a >> 24 < 256,
        (a >> 16) & 0xFF < 256,
        (a >> 8) & 0xFF < 256,
        a & 0xFF < 256,
{
}

/// The character of a digit value.
fn digit_char_of(d: u8) -> (c: char)
    requires
        d < 10,
    ensures
        c == digit_char(d as int),
{
    (('0' as u32 + d as u32) as u8) as char
}

/// Appends the canonical decimal text of a byte.
fn push_octet(s: &mut String, b: u8)
    ensures
        final(s)@ == old(s)@ + octet_text(b as int),
{
    if b >= 100 {
        s.push(digit_char_of(b / 100));
        s.push(digit_char_of((b / 10) % 10));
        s.push(digit_char_of(b % 10));
        assert(s@ =~= old(s)@ + octet_text(b as int));
    } else if b >= 10 {
        s.push(digit_char_of(b / 10));
        s.push(digit_char_of(b % 10));
        assert(s@ =~= old(s)@ + octet_text(b as int));
    } else {
        s.push(digit_char_of(b));
        assert(s@ =~= old(s)@ + octet_text(b as int));
    }
}

/// Writes an address as dotted-quad text.
pub fn format_ipv4(a: u32) -> (r: String)
    ensures
        r@ == spec_format_ipv4(a),
{
    proof {
        lemma_octet_bounds(a);
    }
    let mut r = String::new();
    push_octet(&mut r, (a >> 24) as u8);
    r.push('.');
    push_octet(&mut r, ((a >> 16) & 0xFF) as u8);
    r.push('.');
    push_octet(&mut r, ((a >> 8) & 0xFF) as u8);
    r.push('.');
    push_octet(&mut r, (a & 0xFF) as u8);
    assert(r@ =~= spec_format_ipv4(a));
    r
}

/// `first_dot` of a period-free prefix followed by a period is the length
/// of that prefix.
proof fn lemma_first_dot_of_concat(x: Seq<char>, y: Seq<char>)
    requires
        forall|i: int| 0 <= i < x.len() ==> x[i] != '.',
    ensures
        first_dot(x + seq!['.'] + y) == x.len(),
{
    let s = x + seq!['.'] + y;
    assert(forall|i: int| 0 <= i < x.len() ==> s[i] == x[i]);
    assert(s[x.len() as int] == '.');
    lemma_first_dot(s, x.len() as int);
}

/// `first_dot` of period-free text is its length.
proof fn lemma_first_dot_none(x: Seq<char>)
    requires
        forall|i: int| 0 <= i < x.len() ==> x[i] != '.',
    ensures
        first_dot(x) == x.len(),
{
    lemma_first_dot(x, x.len() as int);
}

/// Law: joining three period-free words with periods and splitting again
/// gives the words back; the dotted triple form is lossless.
pub proof fn lemma_ip3_text_round_trip(w1: Seq<char>, w2: Seq<char>, w3: Seq<char>)
    requires
        forall|i: int| 0 <= i < w1.len() ==> w1[i] != '.',
        forall|i: int| 0 <= i < w2.len() ==> w2[i] != '.',
        forall|i: int| 0 <= i < w3.len() ==> w3[i] != '.',
    ensures
        spec_parse_ip3(w1 + seq!['.'] + w2 + seq!['.'] + w3) == Some((w1, w2, w3)),
{
    let s = w1 + seq!['.'] + w2 + seq!['.'] + w3;
    let tail = w2 + seq!['.'] + w3;
    assert(s =~= w1 + seq!['.'] + tail);
    lemma_first_dot_of_concat(w1, tail);
    let d1 = first_dot(s);
    assert(s.take(d1) =~= w1);
    assert(s.skip(d1 + 1) =~= tail);
    lemma_first_dot_of_concat(w2, w3);
    let d2 = first_dot(tail);
    assert(tail.take(d2) =~= w2);
    assert(tail.skip(d2 + 1) =~= w3);
    lemma_first_dot_none(w3);
}

/// A digit's character carries the digit's value.
proof fn lemma_digit_char_val(d: int)
    requires
        0 <= d < 10,
    ensures
        is_digit(digit_char(d)),
        digit_val(digit_char(d)) == d,
        digit_char(d) != '.',
{
}

/// The canonical text of a byte is valid octet text and reads back as the
/// byte.
proof fn lemma_octet_text_val(b: int)
    requires
        0 <= b < 256,
    ensures
        is_octet_text(octet_text(b)),
        octet_val(octet_text(b)) == b,
        forall|i: int| 0 <= i < octet_text(b).len() ==> octet_text(b)[i] != '.',
{
    let t = octet_text(b);
    if b < 10 {
        lemma_digit_char_val(b);
    } else if b < 100 {
        assert(10 * (b / 10) + b % 10 == b && 0 <= b % 10 < 10 && 1 <= b / 10 < 10)
            by (nonlinear_arith)
            requires
                10 <= b < 100,
        ;
        lemma_digit_char_val(b / 10);
        lemma_digit_char_val(b % 10);
    } else {
        assert(100 * (b / 100) + 10 * ((b / 10) % 10) + b % 10 == b && 0 <= b % 10 < 10 && 0 <= (b
            / 10) % 10 < 10 && 1 <= b / 100 < 10) by (nonlinear_arith)
            requires
                100 <= b < 1000,
        ;
        lemma_digit_char_val(b / 100);
        lemma_digit_char_val((b / 10) % 10);
        lemma_digit_char_val(b % 10);
    }
}

/// The four bytes of an address, weighted and summed, give the address.
proof fn lemma_octet_recombine(a: u32)
    by (bit_vector)
    ensures
        (a >> 24) * 0x1000000 + ((a >> 16) & 0xFF) * 0x10000 + ((a >> 8) & 0xFF) * 0x100 + (a
            & 0xFF) == a,
{
}

/// Law: writing an address as dotted-quad text and parsing it again gives
/// the address back; the dotted-quad form is lossless.
#[verifier::rlimit(60)]
pub proof fn lemma_ipv4_text_round_trip(a: u32)
    ensures
        spec_parse_ipv4(spec_format_ipv4(a)) == Some(a),
{
    lemma_octet_bounds(a);
    let t1 = octet_text((a >> 24) as int);
    let t2 = octet_text(((a >> 16) & 0xFF) as int);
    let t3 = octet_text(((a >> 8) & 0xFF) as int);
    let t4 = octet_text((a & 0xFF) as int);
    lemma_octet_text_val((a >> 24) as int);
    lemma_octet_text_val(((a >> 16) & 0xFF) as int);
    lemma_octet_text_val(((a >> 8) & 0xFF) as int);
    lemma_octet_text_val((a & 0xFF) as int);
    let s = spec_format_ipv4(a);
    let tail1 = t2 + seq!['.'] + t3 + seq!['.'] + t4;
    let tail2 = t3 + seq!['.'] + t4;
    assert(s =~= t1 + seq!['.'] + tail1);
    lemma_first_dot_of_concat(t1, tail1);
    let d1 = first_dot(s);
    assert(s.take(d1) =~= t1);
    assert(s.skip(d1 + 1) =~= tail1);
    assert(tail1 =~= t2 + seq!['.'] + tail2);
    lemma_first_dot_of_concat(t2, tail2);
    let d2 = first_dot(tail1);
    assert(tail1.take(d2) =~= t2);
    assert(tail1.skip(d2 + 1) =~= tail2);
    lemma_first_dot_of_concat(t3, t4);
    let d3 = first_dot(tail2);
    assert(tail2.take(d3) =~= t3);
    assert(tail2.skip(d3 + 1) =~= t4);
    lemma_first_dot_none(t4);
    lemma_octet_recombine(a);
}

/// The dotted text of a triple: the three words joined by periods.
pub fn format_ip3(t: &Ip3) -> (r: String)
    ensures
        r@ == t.0@ + seq!['.'] + t.1@ + seq!['.'] + t.2@,
{
    let mut r = String::new();
    r.append(t.0.as_str());
    r.push('.');
    r.append(t.1.as_str());
    r.push('.');
    r.append(t.2.as_str());
    assert(r@ =~= t.0@ + seq!['.'] + t.1@ + seq!['.'] + t.2@);
    r
}

} // verus!
