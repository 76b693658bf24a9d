//! Incremental UTF-8: which byte strings are valid text so far, and how much of them is complete.
use vstd::prelude::*;
use vstd::string::*;
use vstd::utf8::*;

verus! {

/// Trusted: the error of `std::str::from_utf8`, which is only ever discarded.
#[verifier::external_type_specification]
#[verifier::external_body]
pub struct ExUtf8Error(core::str::Utf8Error);

/// Trusted: `std::str::from_utf8` succeeds exactly on valid UTF-8, and the text it returns has
/// the given bytes as its encoding.
pub assume_specification[ core::str::from_utf8 ](v: &[u8]) -> (r: Result<
    &str,
    core::str::Utf8Error,
>)
    ensures
        r is Ok <==> valid_utf8(v@),
        r matches Ok(s) ==> s.spec_bytes() == v@,
;

/// The text whose encoding is `bytes`.
pub fn decode(bytes: &[u8]) -> (text: String)
    requires
        valid_utf8(bytes@),
    ensures
        text@ == decode_utf8(bytes@),
        encode_utf8(text@) == bytes@,
{
    match core::str::from_utf8(bytes) {
        Ok(s) => {
            proof {
                encode_utf8_decode_utf8(s@);
            }
            s.to_owned()
        },
        Err(_) => String::new(),
    }
}

/// Whether some continuation makes `bytes` valid UTF-8.
pub open spec fn utf8_prefix(bytes: Seq<u8>) -> bool {
    exists|more: Seq<u8>| valid_utf8(#[trigger] (bytes + more))
}

/// The number of leading bytes of `bytes` that hold complete characters.
pub open spec fn valid_len(bytes: Seq<u8>) -> int
    decreases bytes.len(),
{
    if bytes.len() > 0 && valid_first_scalar(bytes) {
        length_of_first_scalar(bytes) + valid_len(pop_first_scalar(bytes))
    } else {
        0
    }
}

/// Whether `second` may follow the leading byte `lead` of a character of three or four bytes.
pub open spec fn second_fits(lead: u8, second: u8) -> bool {
    &&& is_continuation_byte(second)
    &&& (lead == 0xe0 ==> second >= 0xa0)
    &&& (lead == 0xed ==> second <= 0x9f)
    &&& (lead == 0xf0 ==> second >= 0x90)
    &&& (lead == 0xf4 ==> second <= 0x8f)
}

/// Whether `bytes` is a proper prefix of the encoding of one character.
pub open spec fn is_partial_scalar(bytes: Seq<u8>) -> bool {
    ||| bytes.len() == 0
    ||| bytes.len() == 1 && 0xc2 <= bytes[0] <= 0xf4
    ||| bytes.len() == 2 && 0xe0 <= bytes[0] <= 0xf4 && second_fits(bytes[0], bytes[1])
    ||| bytes.len() == 3 && 0xf0 <= bytes[0] <= 0xf4 && second_fits(bytes[0], bytes[1])
        && is_continuation_byte(bytes[2])
}

// ---------------------------------------------------------------------------
// Byte ranges of well-formed characters
// ---------------------------------------------------------------------------

proof fn lemma_width_1(b1: u8)
    by (bit_vector)
    requires
        is_leading_byte_width_1(b1),
    ensures
        codepoint_width_1(b1) <= 0x7f,
{
}

proof fn lemma_width_2(b1: u8, b2: u8)
    by (bit_vector)
    requires
        is_leading_byte_width_2(b1),
        is_continuation_byte(b2),
    ensures
        codepoint_width_2(b1, b2) <= 0x7ff,
        codepoint_width_2(b1, b2) >= 0x80 <==> b1 >= 0xc2,
{
}

proof fn lemma_width_3(b1: u8, b2: u8, b3: u8)
    by (bit_vector)
    requires
        is_leading_byte_width_3(b1),
        is_continuation_byte(b2),
        is_continuation_byte(b3),
    ensures
        codepoint_width_3(b1, b2, b3) >= 0x800 <==> (b1 == 0xe0 ==> b2 >= 0xa0),
        (0xd800 <= codepoint_width_3(b1, b2, b3) && codepoint_width_3(b1, b2, b3) <= 0xdfff) <==> (
        b1 == 0xed && b2 > 0x9f),
{
}

proof fn lemma_width_4(b1: u8, b2: u8, b3: u8, b4: u8)
    by (bit_vector)
    requires
        is_leading_byte_width_4(b1),
        is_continuation_byte(b2),
        is_continuation_byte(b3),
        is_continuation_byte(b4),
    ensures
        codepoint_width_4(b1, b2, b3, b4) >= 0x10000 <==> (b1 == 0xf0 ==> b2 >= 0x90),
        codepoint_width_4(b1, b2, b3, b4) <= 0x10ffff <==> (b1 <= 0xf4 && (b1 == 0xf4 ==> b2
            <= 0x8f)),
{
}

/// A character of `n` bytes stands at the front of `bytes`, read off the byte ranges.
pub open spec fn scalar_of_width(bytes: Seq<u8>, n: int) -> bool {
    ||| n == 1 && bytes.len() >= 1 && bytes[0] <= 0x7f
    ||| n == 2 && bytes.len() >= 2 && 0xc2 <= bytes[0] <= 0xdf && is_continuation_byte(bytes[1])
    ||| n == 3 && bytes.len() >= 3 && 0xe0 <= bytes[0] <= 0xef && second_fits(bytes[0], bytes[1])
        && is_continuation_byte(bytes[2])
    ||| n == 4 && bytes.len() >= 4 && 0xf0 <= bytes[0] <= 0xf4 && second_fits(bytes[0], bytes[1])
        && is_continuation_byte(bytes[2]) && is_continuation_byte(bytes[3])
}

/// The byte ranges describe exactly the well-formed characters.
pub proof fn lemma_scalar_ranges(bytes: Seq<u8>)
    ensures
        valid_first_scalar(bytes) <==> exists|n: int| scalar_of_width(bytes, n),
        forall|n: int| scalar_of_width(bytes, n) ==> length_of_first_scalar(bytes) == n,
        valid_first_scalar(bytes) ==> scalar_of_width(bytes, length_of_first_scalar(bytes)),
{
    if valid_leading_and_continuation_bytes_first_codepoint(bytes) {
        if is_leading_byte_width_1(bytes[0]) {
            lemma_width_1(bytes[0]);
            assert(scalar_of_width(bytes, 1));
        } else if is_leading_byte_width_2(bytes[0]) {
            lemma_width_2(bytes[0], bytes[1]);
            if bytes[0] >= 0xc2 {
                assert(scalar_of_width(bytes, 2));
            }
        } else if is_leading_byte_width_3(bytes[0]) {
            lemma_width_3(bytes[0], bytes[1], bytes[2]);
            if second_fits(bytes[0], bytes[1]) {
                assert(scalar_of_width(bytes, 3));
            }
        } else {
            lemma_width_4(bytes[0], bytes[1], bytes[2], bytes[3]);
            if second_fits(bytes[0], bytes[1]) && bytes[0] <= 0xf4 {
                assert(scalar_of_width(bytes, 4));
            }
        }
    }
}

/// A partial character can be completed.
proof fn lemma_partial_completes(bytes: Seq<u8>)
    requires
        is_partial_scalar(bytes),
    ensures
        utf8_prefix(bytes),
{
    reveal_with_fuel(valid_utf8, 2);
    if bytes.len() == 0 {
        assert(valid_utf8(bytes + Seq::<u8>::empty()));
    } else {
        let lead = bytes[0];
        let second: u8 = if bytes.len() > 1 {
            bytes[1]
        } else if lead == 0xf0 {
            0x90
        } else if lead == 0xe0 {
            0xa0
        } else {
            0x80
        };
        let whole: Seq<u8> = if lead <= 0xdf {
            seq![lead, second]
        } else if lead <= 0xef {
            seq![lead, second, 0x80]
        } else if bytes.len() == 3 {
            seq![lead, second, bytes[2], 0x80]
        } else {
            seq![lead, second, 0x80, 0x80]
        };
        let more = whole.skip(bytes.len() as int);
        assert(bytes + more =~= whole);
        assert(scalar_of_width(whole, whole.len() as int));
        lemma_scalar_ranges(whole);
        assert(pop_first_scalar(whole).len() == 0);
        assert(valid_utf8(bytes + more));
    }
}

/// Without a complete character in front, only a partial character can be continued to text.
proof fn lemma_prefix_is_partial(bytes: Seq<u8>)
    requires
        utf8_prefix(bytes),
        bytes.len() > 0,
        !valid_first_scalar(bytes),
    ensures
        is_partial_scalar(bytes),
{
    let more = choose|more: Seq<u8>| valid_utf8(#[trigger] (bytes + more));
    let all = bytes + more;
    lemma_scalar_ranges(all);
    lemma_scalar_ranges(bytes);
    let n = length_of_first_scalar(all);
    assert(scalar_of_width(all, n));
    assert(all[0] == bytes[0]);
    if bytes.len() > 1 {
        assert(all[1] == bytes[1]);
    }
    if bytes.len() > 2 {
        assert(all[2] == bytes[2]);
    }
    if bytes.len() > 3 {
        assert(all[3] == bytes[3]);
    }
    if n <= bytes.len() {
        assert(scalar_of_width(bytes, n));
    }
}

// ---------------------------------------------------------------------------
// Complete characters in front
// ---------------------------------------------------------------------------

/// The first character of `a` is also the first character of `a + b`.
proof fn lemma_first_scalar_extends(a: Seq<u8>, b: Seq<u8>)
    requires
        valid_first_scalar(a),
    ensures
        valid_first_scalar(a + b),
        length_of_first_scalar(a + b) == length_of_first_scalar(a),
        pop_first_scalar(a + b) == pop_first_scalar(a) + b,
{
    assert(pop_first_scalar(a + b) =~= pop_first_scalar(a) + b);
}

/// Whether text can be continued does not depend on the complete text in front.
pub proof fn lemma_prefix_skips(a: Seq<u8>, b: Seq<u8>)
    requires
        valid_utf8(a),
    ensures
        utf8_prefix(a + b) == utf8_prefix(b),
    decreases a.len(),
{
    if a.len() == 0 {
        assert(a + b =~= b);
    } else {
        let rest = pop_first_scalar(a);
        lemma_prefix_skips(rest, b);
        lemma_first_scalar_extends(a, b);
        if utf8_prefix(a + b) {
            let more = choose|more: Seq<u8>| valid_utf8(#[trigger] ((a + b) + more));
            lemma_first_scalar_extends(a + b, more);
            assert(valid_utf8((rest + b) + more));
        }
        if utf8_prefix(rest + b) {
            let more = choose|more: Seq<u8>| valid_utf8(#[trigger] ((rest + b) + more));
            lemma_first_scalar_extends(a + b, more);
            assert(valid_utf8((a + b) + more));
        }
    }
}

/// Shortening keeps the possibility to continue.
pub proof fn lemma_prefix_shortens(a: Seq<u8>, b: Seq<u8>)
    requires
        utf8_prefix(a + b),
    ensures
        utf8_prefix(a),
{
    let more = choose|more: Seq<u8>| valid_utf8(#[trigger] ((a + b) + more));
    assert((a + b) + more =~= a + (b + more));
}

/// Valid text can be continued, by nothing.
pub proof fn lemma_valid_is_prefix(bytes: Seq<u8>)
    requires
        valid_utf8(bytes),
    ensures
        utf8_prefix(bytes),
{
    assert(bytes + Seq::<u8>::empty() =~= bytes);
}

/// The counted bytes are valid text, and what follows them holds no complete character.
pub proof fn lemma_valid_len_splits(bytes: Seq<u8>)
    ensures
        0 <= valid_len(bytes) <= bytes.len(),
        valid_utf8(bytes.take(valid_len(bytes))),
        valid_len(bytes) == bytes.len() || !valid_first_scalar(bytes.skip(valid_len(bytes))),
    decreases bytes.len(),
{
    if bytes.len() > 0 && valid_first_scalar(bytes) {
        let n = length_of_first_scalar(bytes);
        let rest = pop_first_scalar(bytes);
        lemma_valid_len_splits(rest);
        let k = valid_len(rest);
        let front = bytes.take(n + k);
        assert(pop_first_scalar(front) =~= rest.take(k));
        assert(bytes.skip(n + k) =~= rest.skip(k));
    } else {
        assert(bytes.skip(0) =~= bytes);
    }
}

/// What text can be continued is complete characters and then a partial one.
pub proof fn lemma_prefix_shape(bytes: Seq<u8>)
    ensures
        utf8_prefix(bytes) == is_partial_scalar(bytes.skip(valid_len(bytes))),
{
    lemma_valid_len_splits(bytes);
    let front = bytes.take(valid_len(bytes));
    let rest = bytes.skip(valid_len(bytes));
    assert(front + rest =~= bytes);
    lemma_prefix_skips(front, rest);
    lemma_scalar_ranges(rest);
    if is_partial_scalar(rest) {
        lemma_partial_completes(rest);
    } else if utf8_prefix(rest) {
        lemma_prefix_is_partial(rest);
    }
}

// ---------------------------------------------------------------------------
// Scanning
// ---------------------------------------------------------------------------

/// What a scan of bytes finds.
pub struct Scan {
    /// The number of leading bytes that hold complete characters.
    pub complete: usize,
    /// Whether what follows them can still become a character.
    pub continuable: bool,
}

fn second_ok(lead: u8, second: u8) -> (ok: bool)
    ensures
        ok == second_fits(lead, second),
{
    0x80 <= second && second <= 0xbf && (lead != 0xe0 || second >= 0xa0) && (lead != 0xed || second
        <= 0x9f) && (lead != 0xf0 || second >= 0x90) && (lead != 0xf4 || second <= 0x8f)
}

fn continues(b: u8) -> (ok: bool)
    ensures
        ok == is_continuation_byte(b),
{
    0x80 <= b && b <= 0xbf
}

/// The width of the character that stands complete at `at`, or 0 if none does.
fn scalar_width(bytes: &[u8], at: usize) -> (width: usize)
    requires
        at < bytes.len(),
    ensures
        width == 0 ==> !valid_first_scalar(bytes@.skip(at as int)),
        width > 0 ==> valid_first_scalar(bytes@.skip(at as int)) && length_of_first_scalar(
            bytes@.skip(at as int),
        ) == width && at + width <= bytes.len(),
{
    let ghost rest = bytes@.skip(at as int);
    proof {
        lemma_scalar_ranges(rest);
    }
    let left: usize = bytes.len() - at;
    let lead: u8 = bytes[at];
    if lead <= 0x7f {
        assert(scalar_of_width(rest, 1));
        1
    } else if 0xc2 <= lead && lead <= 0xdf {
        if left >= 2 && continues(bytes[at + 1]) {
            assert(scalar_of_width(rest, 2));
            2
        } else {
            0
        }
    } else if 0xe0 <= lead && lead <= 0xef {
        if left >= 3 && second_ok(lead, bytes[at + 1]) && continues(bytes[at + 2]) {
            assert(scalar_of_width(rest, 3));
            3
        } else {
            0
        }
    } else if 0xf0 <= lead && lead <= 0xf4 {
        if left >= 4 && second_ok(lead, bytes[at + 1]) && continues(bytes[at + 2]) && continues(
            bytes[at + 3],
        ) {
            assert(scalar_of_width(rest, 4));
            4
        } else {
            0
        }
    } else {
        0
    }
}

fn partial_scalar(bytes: &[u8], at: usize) -> (partial: bool)
    requires
        at <= bytes.len(),
    ensures
        partial == is_partial_scalar(bytes@.skip(at as int)),
{
    let left: usize = bytes.len() - at;
    if left == 0 {
        true
    } else if left == 1 {
        0xc2 <= bytes[at] && bytes[at] <= 0xf4
    } else if left == 2 {
        0xe0 <= bytes[at] && bytes[at] <= 0xf4 && second_ok(bytes[at], bytes[at + 1])
    } else if left == 3 {
        0xf0 <= bytes[at] && bytes[at] <= 0xf4 && second_ok(bytes[at], bytes[at + 1]) && continues(
            bytes[at + 2],
        )
    } else {
        false
    }
}

/// Scans `bytes` from the front.
pub fn scan(bytes: &[u8]) -> (found: Scan)
    ensures
        found.complete == valid_len(bytes@),
        found.continuable == utf8_prefix(bytes@),
{
    let mut at: usize = 0;
    assert(bytes@.skip(0) =~= bytes@);
    while at < bytes.len()
        invariant
            at <= bytes.len(),
            valid_len(bytes@) == at + valid_len(bytes@.skip(at as int)),
        decreases bytes.len() - at,
    {
        let width = scalar_width(bytes, at);
        if width == 0 {
            proof {
                lemma_prefix_shape(bytes@);
            }
            let continuable = partial_scalar(bytes, at);
            return Scan { complete: at, continuable };
        }
        assert(pop_first_scalar(bytes@.skip(at as int)) =~= bytes@.skip(at + width));
        at += width;
    }
    proof {
        lemma_prefix_shape(bytes@);
        assert(bytes@.skip(at as int).len() == 0);
    }
    Scan { complete: at, continuable: true }
}

} // verus!
