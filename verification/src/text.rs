//! Text building blocks, stated over sequences of characters.
use vstd::prelude::*;
use vstd::string::*;

verus! {

/// Trusted: `String::push` appends the given character at the end of the string.
pub assume_specification[ String::push ](s: &mut String, c: char)
    ensures
        final(s)@ == old(s)@.push(c),
;

/// The texts held by a sequence of strings.
pub open spec fn texts(items: Seq<String>) -> Seq<Seq<char>> {
    items.map_values(|s: String| s@)
}

/// The key and value texts held by a sequence of string pairs.
pub open spec fn text_pairs(items: Seq<(String, String)>) -> Seq<(Seq<char>, Seq<char>)> {
    items.map_values(|p: (String, String)| (p.0@, p.1@))
}

/// The text an optional string holds.
pub open spec fn text_option(item: Option<String>) -> Option<Seq<char>> {
    match item {
        Some(s) => Some(s@),
        None => None,
    }
}

/// The characters of `s`, in order.
pub fn chars_of(s: &str) -> (out: Vec<char>)
    ensures
        out@ == s@,
{
    let mut out: Vec<char> = Vec::new();
    for c in it: s.chars()
        invariant
            it.seq() == s@,
            out@ == s@.take(it.index()),
    {
        out.push(c);
    }
    assert(s@.take(s@.len() as int) =~= s@);
    out
}

/// The string that holds exactly `chars`.
pub fn string_of(chars: &[char]) -> (out: String)
    ensures
        out@ == chars@,
{
    let mut out = String::new();
    let mut i: usize = 0;
    while i < chars.len()
        invariant
            i <= chars.len(),
            out@ == chars@.take(i as int),
        decreases chars.len() - i,
    {
        out.push(chars[i]);
        i += 1;
    }
    assert(chars@.take(chars@.len() as int) =~= chars@);
    out
}

/// A label with what it labels.
pub fn labelled(label: &str, value: &str) -> (out: String)
    ensures
        out@ == label@ + value@,
{
    let mut out = label.to_owned();
    out.append(value);
    out
}

/// Whether two texts hold the same characters.
pub fn same_text(a: &str, b: &str) -> (same: bool)
    ensures
        same == (a@ == b@),
{
    let left = chars_of(a);
    let right = chars_of(b);
    if left.len() != right.len() {
        return false;
    }
    let mut i: usize = 0;
    while i < left.len()
        invariant
            i <= left.len(),
            left@ == a@,
            right@ == b@,
            left.len() == right.len(),
            forall|j: int| 0 <= j < i ==> left@[j] == right@[j],
        decreases left.len() - i,
    {
        if left[i] != right[i] {
            return false;
        }
        i += 1;
    }
    assert(a@ =~= b@);
    true
}

// ---------------------------------------------------------------------------
// Decimal numerals
// ---------------------------------------------------------------------------

/// The character of a decimal digit.
pub open spec fn digit_char(d: nat) -> char {
    (48 + d) as char
}

/// The decimal numeral of `n`, without leading zeros.
pub open spec fn decimal(n: nat) -> Seq<char>
    decreases n,
{
    if n < 10 {
        seq![digit_char(n)]
    } else {
        decimal(n / 10).push(digit_char(n % 10))
    }
}

fn digit(d: u64) -> (c: char)
    requires
        d < 10,
    ensures
        c == digit_char(d as nat),
{
    let b: u8 = 48u8 + d as u8;
    b as char
}

/// The decimal numeral of `n`.
pub fn decimal_of(n: u64) -> (out: String)
    ensures
        out@ == decimal(n as nat),
    decreases n,
{
    if n < 10 {
        let mut out = String::new();
        out.push(digit(n));
        assert(out@ =~= seq![digit_char(n as nat)]);
        out
    } else {
        let mut out = decimal_of(n / 10);
        out.push(digit(n % 10));
        out
    }
}

// ---------------------------------------------------------------------------
// ASCII case
// ---------------------------------------------------------------------------

/// The ASCII lower-case form of a character; other characters are unchanged.
pub open spec fn lower_char(c: char) -> char {
    if 'A' <= c <= 'Z' {
        (c as u32 + 32) as char
    } else {
        c
    }
}

/// A text with every ASCII capital replaced by its lower-case form.
pub open spec fn lower(text: Seq<char>) -> Seq<char> {
    text.map_values(|c: char| lower_char(c))
}

fn lower_char_of(c: char) -> (out: char)
    ensures
        out == lower_char(c),
{
    if 'A' <= c && c <= 'Z' {
        let b: u8 = c as u8 + 32u8;
        b as char
    } else {
        c
    }
}

/// The characters of `s` with every ASCII capital replaced by its lower-case form.
pub fn lower_chars(s: &[char]) -> (out: Vec<char>)
    ensures
        out@ == lower(s@),
{
    let mut out: Vec<char> = Vec::new();
    let mut i: usize = 0;
    while i < s.len()
        invariant
            i <= s.len(),
            out@ =~= lower(s@).take(i as int),
        decreases s.len() - i,
    {
        out.push(lower_char_of(s[i]));
        i += 1;
    }
    assert(lower(s@).take(s@.len() as int) =~= lower(s@));
    out
}

// ---------------------------------------------------------------------------
// White space
// ---------------------------------------------------------------------------

/// The characters with the Unicode property White_Space.
pub open spec fn is_white(c: char) -> bool {
    ||| '\u{9}' <= c <= '\u{d}'
    ||| c == '\u{20}'
    ||| c == '\u{85}'
    ||| c == '\u{a0}'
    ||| c == '\u{1680}'
    ||| '\u{2000}' <= c <= '\u{200a}'
    ||| c == '\u{2028}'
    ||| c == '\u{2029}'
    ||| c == '\u{202f}'
    ||| c == '\u{205f}'
    ||| c == '\u{3000}'
}

/// Whether `c` is white space.
pub fn is_white_space(c: char) -> (white: bool)
    ensures
        white == is_white(c),
{
    ('\u{9}' <= c && c <= '\u{d}') || c == '\u{20}' || c == '\u{85}' || c == '\u{a0}' || c
        == '\u{1680}' || ('\u{2000}' <= c && c <= '\u{200a}') || c == '\u{2028}' || c
        == '\u{2029}' || c == '\u{202f}' || c == '\u{205f}' || c == '\u{3000}'
}

/// A text without its leading white space.
pub open spec fn trim_start(text: Seq<char>) -> Seq<char>
    decreases text.len(),
{
    if text.len() > 0 && is_white(text.first()) {
        trim_start(text.drop_first())
    } else {
        text
    }
}

/// A text without its trailing white space.
pub open spec fn trim_end(text: Seq<char>) -> Seq<char>
    decreases text.len(),
{
    if text.len() > 0 && is_white(text.last()) {
        trim_end(text.drop_last())
    } else {
        text
    }
}

/// A text without white space at either end.
pub open spec fn trim(text: Seq<char>) -> Seq<char> {
    trim_end(trim_start(text))
}

/// The characters of `s` without white space at either end.
pub fn trim_chars(s: &[char]) -> (out: Vec<char>)
    ensures
        out@ == trim(s@),
{
    let mut start: usize = 0;
    assert(s@.skip(0) =~= s@);
    while start < s.len() && is_white_space(s[start])
        invariant
            start <= s.len(),
            trim_start(s@) == trim_start(s@.skip(start as int)),
        decreases s.len() - start,
    {
        assert(s@.skip(start as int).drop_first() =~= s@.skip(start + 1));
        start += 1;
    }
    let ghost rest = s@.skip(start as int);
    assert(trim_start(s@) == rest);
    let mut end: usize = s.len();
    assert(s@.subrange(start as int, end as int) =~= rest);
    while start < end && is_white_space(s[end - 1])
        invariant
            start <= end <= s.len(),
            trim_end(rest) == trim_end(s@.subrange(start as int, end as int)),
        decreases end - start,
    {
        assert(s@.subrange(start as int, end as int).drop_last() =~= s@.subrange(
            start as int,
            end - 1,
        ));
        end -= 1;
    }
    let mut out: Vec<char> = Vec::new();
    let mut i: usize = start;
    while i < end
        invariant
            start <= i <= end <= s.len(),
            out@ =~= s@.subrange(start as int, i as int),
        decreases end - i,
    {
        out.push(s[i]);
        i += 1;
    }
    out
}

proof fn lemma_lower_keeps_white(c: char)
    ensures
        is_white(lower_char(c)) == is_white(c),
{
}

/// Trimming and lowering do not depend on their order.
pub proof fn lemma_lower_trims(text: Seq<char>)
    ensures
        lower(trim(text)) == trim(lower(text)),
{
    lemma_lower_trims_start(text);
    lemma_lower_trims_end(trim_start(text));
}

proof fn lemma_lower_trims_start(text: Seq<char>)
    ensures
        lower(trim_start(text)) == trim_start(lower(text)),
    decreases text.len(),
{
    if text.len() > 0 {
        lemma_lower_keeps_white(text.first());
        lemma_lower_trims_start(text.drop_first());
        assert(lower(text).drop_first() =~= lower(text.drop_first()));
    }
}

proof fn lemma_lower_trims_end(text: Seq<char>)
    ensures
        lower(trim_end(text)) == trim_end(lower(text)),
    decreases text.len(),
{
    if text.len() > 0 {
        lemma_lower_keeps_white(text.last());
        lemma_lower_trims_end(text.drop_last());
        assert(lower(text).drop_last() =~= lower(text.drop_last()));
    }
}

/// Whether a text is white space throughout.
pub open spec fn is_blank(text: Seq<char>) -> bool {
    forall|i: int| 0 <= i < text.len() ==> is_white(#[trigger] text[i])
}

/// White space around a text does not change what trimming leaves.
pub proof fn lemma_trim_ignores_padding(before: Seq<char>, text: Seq<char>, after: Seq<char>)
    requires
        is_blank(before),
        is_blank(after),
    ensures
        trim(before + text + after) == trim(text),
    decreases before.len() + text.len(),
{
    let padded = before + text + after;
    if before.len() > 0 {
        assert(padded.drop_first() =~= before.drop_first() + text + after);
        assert(is_white(before[0]));
        lemma_trim_ignores_padding(before.drop_first(), text, after);
    } else if text.len() > 0 && is_white(text.first()) {
        assert(padded.drop_first() =~= before + text.drop_first() + after);
        lemma_trim_ignores_padding(before, text.drop_first(), after);
    } else {
        assert(padded =~= text + after);
        if text.len() > 0 {
            lemma_trim_end_ignores_padding(text, after);
        } else {
            lemma_trim_start_of_blank(after);
            assert(padded =~= after);
        }
    }
}

proof fn lemma_trim_end_ignores_padding(text: Seq<char>, after: Seq<char>)
    requires
        is_blank(after),
    ensures
        trim_end(text + after) == trim_end(text),
    decreases after.len(),
{
    if after.len() > 0 {
        assert(is_white(after[after.len() - 1]));
        assert((text + after).drop_last() =~= text + after.drop_last());
        lemma_trim_end_ignores_padding(text, after.drop_last());
    } else {
        assert(text + after =~= text);
    }
}

proof fn lemma_trim_start_of_blank(text: Seq<char>)
    requires
        is_blank(text),
    ensures
        trim_start(text) == Seq::<char>::empty(),
    decreases text.len(),
{
    if text.len() > 0 {
        assert(is_white(text[0]));
        lemma_trim_start_of_blank(text.drop_first());
    } else {
        assert(text =~= Seq::<char>::empty());
    }
}

/// What trimming leaves occurs in the text.
pub proof fn lemma_trim_occurs(text: Seq<char>)
    ensures
        occurs_in(text, trim(text)),
{
    let start = trim_start(text);
    lemma_trim_start_is_suffix(text);
    lemma_trim_end_is_prefix(start);
    let skipped = text.len() - start.len();
    assert(text.subrange(skipped, skipped + trim(text).len()) =~= trim(text)) by {
        assert(text.skip(skipped) == start);
        assert(start.take(trim(text).len() as int) == trim(text));
    }
    assert(occurs_at(text, trim(text), skipped));
}

proof fn lemma_trim_start_is_suffix(text: Seq<char>)
    ensures
        trim_start(text).len() <= text.len(),
        text.skip(text.len() - trim_start(text).len()) == trim_start(text),
    decreases text.len(),
{
    if text.len() > 0 && is_white(text.first()) {
        lemma_trim_start_is_suffix(text.drop_first());
        let rest = text.drop_first();
        assert(text.skip(text.len() - trim_start(text).len()) =~= rest.skip(
            rest.len() - trim_start(rest).len(),
        ));
    } else {
        assert(text.skip(0) =~= text);
    }
}

proof fn lemma_trim_end_is_prefix(text: Seq<char>)
    ensures
        trim_end(text).len() <= text.len(),
        text.take(trim_end(text).len() as int) == trim_end(text),
    decreases text.len(),
{
    if text.len() > 0 && is_white(text.last()) {
        lemma_trim_end_is_prefix(text.drop_last());
        let rest = text.drop_last();
        assert(text.take(trim_end(text).len() as int) =~= rest.take(trim_end(rest).len() as int));
    } else {
        assert(text.take(text.len() as int) =~= text);
    }
}

/// Lowering both texts keeps an occurrence.
pub proof fn lemma_lower_keeps_occurrence(text: Seq<char>, needle: Seq<char>)
    requires
        occurs_in(text, needle),
    ensures
        occurs_in(lower(text), lower(needle)),
{
    let i = choose|i: int| occurs_at(text, needle, i);
    assert(lower(text).subrange(i, i + needle.len()) =~= lower(text.subrange(i, i + needle.len())));
    assert(occurs_at(lower(text), lower(needle), i));
}

// ---------------------------------------------------------------------------
// Searching
// ---------------------------------------------------------------------------

/// Whether `needle` occurs in `text` at position `i`.
pub open spec fn occurs_at(text: Seq<char>, needle: Seq<char>, i: int) -> bool {
    0 <= i && i + needle.len() <= text.len() && text.subrange(i, i + needle.len()) == needle
}

/// Whether `needle` occurs somewhere in `text`.
pub open spec fn occurs_in(text: Seq<char>, needle: Seq<char>) -> bool {
    exists|i: int| occurs_at(text, needle, i)
}

fn matches_at(text: &[char], needle: &[char], at: usize) -> (found: bool)
    requires
        at + needle.len() <= text.len(),
    ensures
        found == occurs_at(text@, needle@, at as int),
{
    let mut k: usize = 0;
    while k < needle.len()
        invariant
            k <= needle.len(),
            at + needle.len() <= text.len(),
            forall|j: int| 0 <= j < k ==> text@[at + j] == needle@[j],
        decreases needle.len() - k,
    {
        if text[at + k] != needle[k] {
            assert(text@.subrange(at as int, at + needle.len())[k as int] != needle@[k as int]);
            return false;
        }
        k += 1;
    }
    assert(text@.subrange(at as int, at + needle.len()) =~= needle@);
    true
}

/// Whether `needle` occurs somewhere in `text`.
pub fn contains_chars(text: &[char], needle: &[char]) -> (found: bool)
    ensures
        found == occurs_in(text@, needle@),
{
    if needle.len() > text.len() {
        return false;
    }
    let last: usize = text.len() - needle.len();
    let mut i: usize = 0;
    while i <= last
        invariant
            i <= last + 1,
            last + needle.len() == text.len(),
            forall|j: int| 0 <= j < i ==> !occurs_at(text@, needle@, j),
        decreases last + 1 - i,
    {
        if matches_at(text, needle, i) {
            return true;
        }
        if i == last {
            return false;
        }
        i += 1;
    }
    false
}

// ---------------------------------------------------------------------------
// Order
// ---------------------------------------------------------------------------

/// How two texts compare in the order of their code points.
pub enum TextOrder {
    /// The first text comes first.
    Before,
    /// The texts are equal.
    Same,
    /// The first text comes second.
    After,
}

/// Whether `a` comes strictly before `b`: at the first position where they differ `a` has the
/// smaller character, or `a` is a proper prefix of `b`.
pub open spec fn text_before(a: Seq<char>, b: Seq<char>) -> bool {
    exists|k: int| differs_below(a, b, k)
}

/// Whether `a` and `b` agree up to `k`, and `a` ends there or has the smaller character there.
pub open spec fn differs_below(a: Seq<char>, b: Seq<char>, k: int) -> bool {
    &&& 0 <= k <= a.len()
    &&& k < b.len()
    &&& a.take(k) == b.take(k)
    &&& (k == a.len() || a[k] < b[k])
}

/// No text comes before itself.
pub proof fn text_before_irreflexive(a: Seq<char>)
    ensures
        !text_before(a, a),
{
}

/// The order of texts is transitive.
pub proof fn text_before_transitive(a: Seq<char>, b: Seq<char>, c: Seq<char>)
    requires
        text_before(a, b),
        text_before(b, c),
    ensures
        text_before(a, c),
{
    let i = choose|k: int| differs_below(a, b, k);
    let j = choose|k: int| differs_below(b, c, k);
    let k = if i < j {
        i
    } else {
        j
    };
    assert(a.take(k) =~= c.take(k)) by {
        assert(a.take(i).take(k) =~= a.take(k));
        assert(b.take(i).take(k) =~= b.take(k));
        assert(b.take(j).take(k) =~= b.take(k));
        assert(c.take(j).take(k) =~= c.take(k));
    }
    if i < j {
        assert(b.take(j)[i] == c.take(j)[i]);
    } else if j < i {
        assert(a.take(i)[j] == b.take(i)[j]);
    }
    assert(differs_below(a, c, k));
}

/// Two texts cannot each come before the other.
pub proof fn text_before_asymmetric(a: Seq<char>, b: Seq<char>)
    requires
        text_before(a, b),
    ensures
        !text_before(b, a),
{
    if text_before(b, a) {
        text_before_transitive(a, b, a);
        text_before_irreflexive(a);
    }
}

/// How `a` and `b` compare.
pub fn compare_chars(a: &[char], b: &[char]) -> (order: TextOrder)
    ensures
        match order {
            TextOrder::Before => text_before(a@, b@),
            TextOrder::Same => a@ == b@,
            TextOrder::After => text_before(b@, a@),
        },
{
    let mut k: usize = 0;
    while k < a.len() && k < b.len()
        invariant
            k <= a.len(),
            k <= b.len(),
            a@.take(k as int) =~= b@.take(k as int),
        decreases a.len() - k,
    {
        if a[k] < b[k] {
            assert(differs_below(a@, b@, k as int));
            return TextOrder::Before;
        }
        if b[k] < a[k] {
            assert(differs_below(b@, a@, k as int));
            return TextOrder::After;
        }
        k += 1;
    }
    if a.len() == b.len() {
        assert(a@.take(k as int) =~= a@);
        assert(b@.take(k as int) =~= b@);
        TextOrder::Same
    } else if a.len() < b.len() {
        assert(differs_below(a@, b@, k as int));
        TextOrder::Before
    } else {
        assert(differs_below(b@, a@, k as int));
        TextOrder::After
    }
}

// ---------------------------------------------------------------------------
// Laws
// ---------------------------------------------------------------------------

/// The texts of strings are those of each of them, in order, and none is left out.
pub proof fn texts_hold_every_string(items: Seq<String>, pairs: Seq<(String, String)>)
    ensures
        texts(items).len() == items.len(),
        forall|i: int| 0 <= i < items.len() ==> #[trigger] texts(items)[i] == items[i]@,
        text_pairs(pairs).len() == pairs.len(),
        forall|i: int|
            0 <= i < pairs.len() ==> #[trigger] text_pairs(pairs)[i] == (pairs[i].0@, pairs[i].1@),
        forall|s: String| #[trigger] text_option(Some(s)) == Some(s@),
        text_option(None) == None::<Seq<char>>,
{
}

/// The decimal numeral of a number below ten is one digit, and one more digit at the end makes the
/// numeral of ten times the number and that digit.
pub proof fn numerals_grow_digit_by_digit(n: nat, d: nat)
    requires
        d < 10,
    ensures
        decimal(d) == seq![(d + '0' as nat) as char],
        n > 0 ==> decimal(10 * n + d) == decimal(n).push((d + '0' as nat) as char),
{
    assert((10 * n + d) / 10 == n && (10 * n + d) % 10 == d);
}

/// Lowering a text changes its ASCII capitals and nothing else.
pub proof fn lower_changes_capitals_only(text: Seq<char>)
    ensures
        lower(text).len() == text.len(),
        forall|i: int|
            0 <= i < text.len() && 'A' <= text[i] <= 'Z' ==> #[trigger] lower(text)[i] as int
                == text[i] as int + 32,
        forall|i: int|
            0 <= i < text.len() && !('A' <= text[i] <= 'Z') ==> #[trigger] lower(text)[i]
                == text[i],
{
}

/// Trimming takes white space off both ends of a text and nothing else: what is left is a part of
/// the text with nothing but white space before and behind it, and does not begin or end with white
/// space itself.
pub proof fn trim_takes_off_white_space_only(text: Seq<char>) -> (bounds: (int, int))
    ensures
        0 <= bounds.0 <= bounds.1 <= text.len(),
        trim(text) == text.subrange(bounds.0, bounds.1),
        forall|i: int| 0 <= i < bounds.0 ==> is_white(#[trigger] text[i]),
        forall|i: int| bounds.1 <= i < text.len() ==> is_white(#[trigger] text[i]),
        bounds.0 < bounds.1 ==> !is_white(text[bounds.0]) && !is_white(text[bounds.1 - 1]),
{
    let start = trim_start(text);
    lemma_trim_start_is_suffix(text);
    lemma_trim_end_is_prefix(start);
    lemma_trim_start_bounds(text);
    lemma_trim_end_bounds(start);
    let from = text.len() - start.len();
    let to = from + trim(text).len();
    assert(text.skip(from) == start);
    assert(start.take(trim(text).len() as int) == trim(text));
    assert(trim(text) =~= text.subrange(from, to));
    assert forall|i: int| to <= i < text.len() implies is_white(#[trigger] text[i]) by {
        assert(start[i - from] == text[i]);
    }
    if from < to {
        assert(text[from] == start[0]);
        assert(text[to - 1] == trim(text).last());
    }
    (from, to)
}

proof fn lemma_trim_start_bounds(text: Seq<char>)
    ensures
        trim_start(text).len() <= text.len(),
        forall|i: int|
            0 <= i < text.len() - trim_start(text).len() ==> is_white(#[trigger] text[i]),
        trim_start(text).len() > 0 ==> !is_white(trim_start(text)[0]),
    decreases text.len(),
{
    if text.len() > 0 && is_white(text.first()) {
        let rest = text.drop_first();
        lemma_trim_start_bounds(rest);
        assert forall|i: int| 0 <= i < text.len() - trim_start(text).len() implies is_white(
            #[trigger] text[i],
        ) by {
            if i > 0 {
                assert(rest[i - 1] == text[i]);
            }
        }
    }
}

proof fn lemma_trim_end_bounds(text: Seq<char>)
    ensures
        trim_end(text).len() <= text.len(),
        forall|i: int| trim_end(text).len() <= i < text.len() ==> is_white(#[trigger] text[i]),
        trim_end(text).len() > 0 ==> !is_white(trim_end(text).last()),
    decreases text.len(),
{
    if text.len() > 0 && is_white(text.last()) {
        let rest = text.drop_last();
        lemma_trim_end_bounds(rest);
        assert forall|i: int| trim_end(text).len() <= i < text.len() implies is_white(
            #[trigger] text[i],
        ) by {
            if i < rest.len() {
                assert(rest[i] == text[i]);
            }
        }
    }
}

/// A text without white space at its ends is left alone by trimming.
pub proof fn trimmed_texts_stay(text: Seq<char>)
    requires
        text.len() > 0 ==> !is_white(text[0]) && !is_white(text[text.len() - 1]),
    ensures
        trim(text) == text,
{
}

/// A text occurs in another exactly if the other can be put together from something before it, the
/// text, and something behind it.
pub proof fn occurrences_are_parts(text: Seq<char>, needle: Seq<char>)
    ensures
        occurs_in(text, needle) <==> exists|before: Seq<char>, behind: Seq<char>|
            text == #[trigger] (before + needle + behind),
{
    if occurs_in(text, needle) {
        let i = choose|i: int| occurs_at(text, needle, i);
        let before = text.take(i);
        let behind = text.skip(i + needle.len());
        assert(text =~= before + needle + behind);
    }
    if exists|before: Seq<char>, behind: Seq<char>| text == #[trigger] (before + needle + behind) {
        let (before, behind) = choose|before: Seq<char>, behind: Seq<char>|
            text == #[trigger] (before + needle + behind);
        lemma_part_occurs(before, needle, behind);
    }
}

/// What stands between two texts occurs in the whole.
pub proof fn lemma_part_occurs(before: Seq<char>, needle: Seq<char>, behind: Seq<char>)
    ensures
        occurs_in(before + needle + behind, needle),
{
    let text = before + needle + behind;
    let i = before.len() as int;
    assert(text.subrange(i, i + needle.len()) =~= needle);
    assert(occurs_at(text, needle, i));
}

/// What stands at the end of a text occurs in it.
pub proof fn lemma_ending_occurs(before: Seq<char>, needle: Seq<char>)
    ensures
        occurs_in(before + needle, needle),
{
    lemma_part_occurs(before, needle, Seq::empty());
    assert(before + needle + Seq::empty() =~= before + needle);
}

/// What occurs in a part of a text occurs in the text.
pub proof fn lemma_occurs_further(
    before: Seq<char>,
    text: Seq<char>,
    behind: Seq<char>,
    needle: Seq<char>,
)
    requires
        occurs_in(text, needle),
    ensures
        occurs_in(before + text + behind, needle),
        occurs_in(before + text, needle),
        occurs_in(text + behind, needle),
{
    let i = choose|i: int| occurs_at(text, needle, i);
    let at = before.len() + i;
    let part = text.subrange(i, i + needle.len());
    assert((before + text + behind).subrange(at, at + needle.len()) =~= part);
    assert(occurs_at(before + text + behind, needle, at));
    assert((before + text).subrange(at, at + needle.len()) =~= part);
    assert(occurs_at(before + text, needle, at));
    assert((text + behind).subrange(i, i + needle.len()) =~= part);
    assert(occurs_at(text + behind, needle, i));
}

/// Of two texts that are not equal, one comes before the other. The one that comes first has the
/// smaller character in the first place where they differ, or ends there; `k` is that place.
pub proof fn texts_are_ordered_by_their_first_difference(a: Seq<char>, b: Seq<char>) -> (k: int)
    ensures
        a == b || text_before(a, b) || text_before(b, a),
        text_before(a, b) ==> {
            &&& 0 <= k <= a.len()
            &&& k < b.len()
            &&& forall|j: int| 0 <= j < k ==> a[j] == b[j]
            &&& k < a.len() ==> (a[k] as int) < (b[k] as int)
        },
{
    assert(a.take(0) =~= b.take(0));
    lemma_texts_compare(a, b, 0);
    let k = choose|k: int| differs_below(a, b, k);
    if text_before(a, b) {
        assert forall|j: int| 0 <= j < k implies a[j] == b[j] by {
            assert(a.take(k)[j] == b.take(k)[j]);
        }
    }
    k
}

/// A text that has the smaller character in the first place where it differs from another, or ends
/// there, comes before the other.
pub proof fn smaller_characters_come_first(a: Seq<char>, b: Seq<char>, k: int)
    requires
        0 <= k <= a.len(),
        k < b.len(),
        forall|j: int| 0 <= j < k ==> a[j] == b[j],
        k < a.len() ==> (a[k] as int) < (b[k] as int),
    ensures
        text_before(a, b),
{
    assert(a.take(k) =~= b.take(k));
    assert(differs_below(a, b, k));
}

proof fn lemma_texts_compare(a: Seq<char>, b: Seq<char>, k: int)
    requires
        0 <= k <= a.len(),
        k <= b.len(),
        a.take(k) == b.take(k),
    ensures
        a == b || text_before(a, b) || text_before(b, a),
    decreases a.len() - k,
{
    if k == a.len() && k == b.len() {
        assert(a.take(k) =~= a && b.take(k) =~= b);
    } else if k == a.len() {
        assert(differs_below(a, b, k));
    } else if k == b.len() {
        assert(differs_below(b, a, k));
    } else if a[k] < b[k] {
        assert(differs_below(a, b, k));
    } else if b[k] < a[k] {
        assert(differs_below(b, a, k));
    } else {
        assert(a.take(k + 1) =~= b.take(k + 1)) by {
            assert(a.take(k + 1) =~= a.take(k).push(a[k]));
            assert(b.take(k + 1) =~= b.take(k).push(b[k]));
        }
        lemma_texts_compare(a, b, k + 1);
    }
}

} // verus!
