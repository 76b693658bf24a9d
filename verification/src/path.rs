//! File paths, written as the operating system writes them.
//!
//! A path is a sequence of bytes, since not every path is UTF-8. The bytes that matter here, such
//! as separators, are ASCII, and no part of a longer character.
use vstd::prelude::*;
use vstd::string::*;
use vstd::utf8::*;

use crate::bytes::{append_bytes, copy_bytes};
use crate::text::same_text;

verus! {

/// A text of the operating system, such as a path or the name of a program: the bytes of its UTF-8
/// encoding where it is Unicode.
pub type OsText = Vec<u8>;

/// The bytes that an optional text of the operating system holds.
pub open spec fn os_option(text: Option<OsText>) -> Option<Seq<u8>> {
    match text {
        Some(bytes) => Some(bytes@),
        None => None,
    }
}

/// The text `text` as the operating system has it.
pub fn os_text(text: &str) -> (bytes: OsText)
    ensures
        bytes@ == encode_utf8(text@),
{
    copy_bytes(text.as_bytes())
}

/// The text that `String::from_utf8_lossy` makes of bytes.
pub uninterp spec fn lossy_text(bytes: Seq<u8>) -> Seq<char>;

/// Trusted: `String::from_utf8_lossy`. The text depends on the bytes alone, and is their own text
/// where they are UTF-8. Which parts of other bytes it replaces by U+FFFD is left unsaid.
#[verifier::external_body]
pub(crate) fn text_of_bytes(bytes: &[u8]) -> (out: String)
    ensures
        out@ == lossy_text(bytes@),
        valid_utf8(bytes@) ==> out@ == decode_utf8(bytes@),
{
    String::from_utf8_lossy(bytes).into_owned()
}

/// Whether `text` is how a text of the operating system is shown to people: as it is where it is
/// UTF-8.
pub open spec fn is_shown(bytes: Seq<u8>, text: Seq<char>) -> bool {
    &&& text == lossy_text(bytes)
    &&& valid_utf8(bytes) ==> text == decode_utf8(bytes)
}

/// How a text of the operating system is shown to people.
pub fn shown(bytes: &[u8]) -> (text: String)
    ensures
        is_shown(bytes@, text@),
{
    text_of_bytes(bytes)
}

/// A text that is UTF-8 is shown as it is.
pub proof fn texts_are_shown_as_they_are(text: Seq<char>, shown: Seq<char>)
    requires
        is_shown(encode_utf8(text), shown),
    ensures
        shown == text,
{
    encode_utf8_valid_utf8(text);
    encode_utf8_decode_utf8(text);
}

// ---------------------------------------------------------------------------
// Separators
// ---------------------------------------------------------------------------

/// `.`
pub const DOT: u8 = 0x2e;

/// `/`
pub const SLASH: u8 = 0x2f;

/// `:`
pub const COLON: u8 = 0x3a;

/// `?`
pub const QUESTION_MARK: u8 = 0x3f;

/// `A`
pub const UPPER_A: u8 = 0x41;

/// `C`
pub const UPPER_C: u8 = 0x43;

/// `N`
pub const UPPER_N: u8 = 0x4e;

/// `U`
pub const UPPER_U: u8 = 0x55;

/// `Z`
pub const UPPER_Z: u8 = 0x5a;

/// `\`
pub const BACKSLASH: u8 = 0x5c;

/// `a`
pub const LOWER_A: u8 = 0x61;

/// `z`
pub const LOWER_Z: u8 = 0x7a;

/// How an operating system writes paths.
#[derive(Debug, Clone, Copy, PartialEq, Eq, Structural)]
pub enum PathStyle {
    /// `/` stands between the segments, and at the root.
    Unix,
    /// `\` stands between the segments, and `/` is read like it. A path may begin with a drive, as
    /// in `C:`, with a network share, as in `\\server\share`, or with a device, as in `\\.\COM1`.
    /// A path that begins with `\\?\` is verbatim: in it only `\` is a separator, and `.` is a
    /// segment like any other.
    Windows,
}

/// How the operating system `os` writes paths.
pub open spec fn style_of(os: Seq<char>) -> PathStyle {
    if os == "windows"@ {
        PathStyle::Windows
    } else {
        PathStyle::Unix
    }
}

impl PathStyle {
    /// How the operating system `os` writes paths.
    pub fn of(os: &str) -> (style: PathStyle)
        ensures
            style == style_of(os@),
    {
        if same_text(os, "windows") {
            PathStyle::Windows
        } else {
            PathStyle::Unix
        }
    }

    /// What is written between segments.
    pub open spec fn separator(self) -> u8 {
        match self {
            PathStyle::Unix => SLASH,
            PathStyle::Windows => BACKSLASH,
        }
    }

    /// How a path that is not verbatim is read.
    pub open spec fn usual(self) -> Reading {
        match self {
            PathStyle::Unix => Reading::Slash,
            PathStyle::Windows => Reading::Either,
        }
    }

    /// Whether a byte is read as a separator, in a path that is not verbatim.
    pub open spec fn separates(self, b: u8) -> bool {
        self.usual().separates(b)
    }

    fn reading(self) -> (reading: Reading)
        ensures
            reading == self.usual(),
    {
        match self {
            PathStyle::Unix => Reading::Slash,
            PathStyle::Windows => Reading::Either,
        }
    }

    fn is_separator(self, b: u8) -> (is: bool)
        ensures
            is == self.separates(b),
    {
        self.reading().is_separator(b)
    }
}

/// Which bytes of a path are read as separators.
#[derive(Debug, Clone, Copy, PartialEq, Eq, Structural)]
pub enum Reading {
    /// `/` alone.
    Slash,
    /// `/` and `\`.
    Either,
    /// `\` alone, as in a verbatim path.
    Backslash,
}

impl Reading {
    /// Whether a byte is read as a separator.
    pub open spec fn separates(self, b: u8) -> bool {
        match self {
            Reading::Slash => b == SLASH,
            Reading::Either => b == SLASH || b == BACKSLASH,
            Reading::Backslash => b == BACKSLASH,
        }
    }

    fn is_separator(self, b: u8) -> (is: bool)
        ensures
            is == self.separates(b),
    {
        match self {
            Reading::Slash => b == SLASH,
            Reading::Either => b == SLASH || b == BACKSLASH,
            Reading::Backslash => b == BACKSLASH,
        }
    }
}

/// Where the segment that begins at `from` ends.
pub open spec fn segment_end(reading: Reading, path: Seq<u8>, from: int) -> int
    decreases path.len() - from,
{
    if from >= path.len() || reading.separates(path[from]) {
        from
    } else {
        segment_end(reading, path, from + 1)
    }
}

proof fn lemma_segment_end(reading: Reading, path: Seq<u8>, from: int, end: int)
    requires
        0 <= from <= end <= path.len(),
        forall|i: int| from <= i < end ==> !reading.separates(#[trigger] path[i]),
    ensures
        segment_end(reading, path, from) == segment_end(reading, path, end),
    decreases end - from,
{
    if from < end {
        lemma_segment_end(reading, path, from + 1, end);
    }
}

fn find_segment_end(reading: Reading, path: &[u8], from: usize) -> (end: usize)
    requires
        from <= path.len(),
    ensures
        from <= end <= path.len(),
        end == segment_end(reading, path@, from as int),
        end < path.len() ==> reading.separates(path@[end as int]),
{
    let mut end: usize = from;
    while end < path.len() && !reading.is_separator(path[end])
        invariant
            from <= end <= path.len(),
            forall|i: int| from <= i < end ==> !reading.separates(#[trigger] path@[i]),
        decreases path.len() - end,
    {
        end += 1;
    }
    proof {
        lemma_segment_end(reading, path@, from as int, end as int);
    }
    end
}

/// The bytes of `path` from `start` to `end`.
fn part_of(path: &[u8], start: usize, end: usize) -> (part: Vec<u8>)
    requires
        start <= end <= path.len(),
    ensures
        part@ == path@.subrange(start as int, end as int),
{
    let mut part: Vec<u8> = Vec::new();
    let mut i: usize = start;
    while i < end
        invariant
            start <= i <= end <= path.len(),
            part@ =~= path@.subrange(start as int, i as int),
        decreases end - i,
    {
        part.push(path[i]);
        i += 1;
    }
    part
}

// ---------------------------------------------------------------------------
// What a path begins with
// ---------------------------------------------------------------------------

/// Whether a drive stands at `at`.
pub open spec fn drive_at(path: Seq<u8>, at: int) -> bool {
    &&& path.len() >= at + 2
    &&& LOWER_A <= path[at] <= LOWER_Z || UPPER_A <= path[at] <= UPPER_Z
    &&& path[at + 1] == COLON
}

/// Whether a path begins with a drive.
pub open spec fn has_drive(style: PathStyle, path: Seq<u8>) -> bool {
    style == PathStyle::Windows && drive_at(path, 0)
}

/// Whether a path is verbatim.
pub open spec fn is_verbatim(style: PathStyle, path: Seq<u8>) -> bool {
    &&& style == PathStyle::Windows
    &&& path.len() >= 4
    &&& path[0] == BACKSLASH
    &&& path[1] == BACKSLASH
    &&& path[2] == QUESTION_MARK
    &&& path[3] == BACKSLASH
}

/// How a path is read.
pub open spec fn reading_of(style: PathStyle, path: Seq<u8>) -> Reading {
    if is_verbatim(style, path) {
        Reading::Backslash
    } else {
        style.usual()
    }
}

/// The end of the server and the share that begin at `from`: that of the server if there is no
/// share.
pub open spec fn share_end(reading: Reading, path: Seq<u8>, from: int) -> int {
    let server = segment_end(reading, path, from);
    let share = segment_end(reading, path, server + 1);
    if server < path.len() && share > server + 1 {
        share
    } else {
        server
    }
}

/// The length of what a verbatim path begins with: a share, a drive or one segment.
pub open spec fn verbatim_prefix_len(path: Seq<u8>) -> int {
    if path.len() >= 8 && path[4] == UPPER_U && path[5] == UPPER_N && path[6] == UPPER_C
        && Reading::Either.separates(path[7]) {
        share_end(Reading::Backslash, path, 8)
    } else if drive_at(path, 4) && (path.len() == 6 || Reading::Either.separates(path[6])) {
        6
    } else {
        segment_end(Reading::Backslash, path, 4)
    }
}

/// The length of the drive, network share or device that a path begins with; none has length
/// zero.
pub open spec fn prefix_len(style: PathStyle, path: Seq<u8>) -> int {
    if is_verbatim(style, path) {
        verbatim_prefix_len(path)
    } else if style == PathStyle::Windows && path.len() >= 2 && style.separates(path[0])
        && style.separates(path[1]) {
        if path.len() >= 4 && path[2] == DOT && style.separates(path[3]) {
            segment_end(Reading::Either, path, 4)
        } else {
            let server = segment_end(Reading::Either, path, 2);
            let end = share_end(Reading::Either, path, 2);
            if server > 2 && end > server {
                end
            } else {
                0
            }
        }
    } else if has_drive(style, path) {
        2
    } else {
        0
    }
}

/// Whether a separator follows what a path begins with.
pub open spec fn has_root(style: PathStyle, path: Seq<u8>) -> bool {
    let prefix = prefix_len(style, path);
    prefix < path.len() && style.separates(path[prefix])
}

/// Whether a path does not depend on the directory it is seen from alone: it begins with a drive,
/// a network share or a device, or at the root.
pub open spec fn is_anchored(style: PathStyle, path: Seq<u8>) -> bool {
    prefix_len(style, path) > 0 || has_root(style, path)
}

/// What follows the beginning of a path and its root.
pub open spec fn body(style: PathStyle, path: Seq<u8>) -> Seq<u8> {
    let prefix = prefix_len(style, path);
    if has_root(style, path) {
        path.skip(prefix + 1)
    } else {
        path.skip(prefix)
    }
}

fn drive_begins(path: &[u8], at: usize) -> (begins: bool)
    requires
        at <= 4,
    ensures
        begins == drive_at(path@, at as int),
{
    path.len() >= at + 2 && ((LOWER_A <= path[at] && path[at] <= LOWER_Z) || (UPPER_A <= path[at]
        && path[at] <= UPPER_Z)) && path[at + 1] == COLON
}

fn verbatim_begins(style: PathStyle, path: &[u8]) -> (verbatim: bool)
    ensures
        verbatim == is_verbatim(style, path@),
{
    match style {
        PathStyle::Unix => false,
        PathStyle::Windows => path.len() >= 4 && path[0] == BACKSLASH && path[1] == BACKSLASH
            && path[2] == QUESTION_MARK && path[3] == BACKSLASH,
    }
}

fn find_share_end(reading: Reading, path: &[u8], from: usize) -> (end: usize)
    requires
        from <= path.len(),
    ensures
        end == share_end(reading, path@, from as int),
        from <= end <= path.len(),
{
    let server: usize = find_segment_end(reading, path, from);
    if server == path.len() {
        return server;
    }
    let share: usize = find_segment_end(reading, path, server + 1);
    if share > server + 1 {
        share
    } else {
        server
    }
}

fn find_prefix(style: PathStyle, path: &[u8]) -> (len: usize)
    ensures
        len == prefix_len(style, path@),
        len <= path.len(),
{
    if verbatim_begins(style, path) {
        if path.len() >= 8 && path[4] == UPPER_U && path[5] == UPPER_N && path[6] == UPPER_C
            && Reading::Either.is_separator(path[7]) {
            return find_share_end(Reading::Backslash, path, 8);
        }
        if drive_begins(path, 4) && (path.len() == 6 || Reading::Either.is_separator(path[6])) {
            return 6;
        }
        return find_segment_end(Reading::Backslash, path, 4);
    }
    match style {
        PathStyle::Unix => 0,
        PathStyle::Windows => {
            if path.len() >= 2 && style.is_separator(path[0]) && style.is_separator(path[1]) {
                if path.len() >= 4 && path[2] == DOT && style.is_separator(path[3]) {
                    return find_segment_end(Reading::Either, path, 4);
                }
                let server: usize = find_segment_end(Reading::Either, path, 2);
                let end: usize = find_share_end(Reading::Either, path, 2);
                if server > 2 && end > server {
                    end
                } else {
                    0
                }
            } else if drive_begins(path, 0) {
                2
            } else {
                0
            }
        },
    }
}

fn find_body(style: PathStyle, path: &[u8]) -> (rest: Vec<u8>)
    ensures
        rest@ == body(style, path@),
{
    let prefix: usize = find_prefix(style, path);
    if prefix < path.len() && style.is_separator(path[prefix]) {
        let rest = part_of(path, prefix + 1, path.len());
        assert(rest@ =~= path@.skip(prefix + 1));
        rest
    } else {
        let rest = part_of(path, prefix, path.len());
        assert(rest@ =~= path@.skip(prefix as int));
        rest
    }
}

// ---------------------------------------------------------------------------
// Segments
// ---------------------------------------------------------------------------

/// The segments of what follows the beginning of a path, empty ones included.
pub open spec fn segments(reading: Reading, rest: Seq<u8>) -> Seq<Seq<u8>>
    decreases rest.len(),
{
    let end = segment_end(reading, rest, 0);
    if end < 0 || end >= rest.len() {
        seq![rest]
    } else {
        seq![rest.take(end)] + segments(reading, rest.skip(end + 1))
    }
}

/// Whether a segment leads to a directory itself.
pub open spec fn is_here(segment: Seq<u8>) -> bool {
    segment == seq![DOT]
}

/// Whether a segment leads to the directory above.
pub open spec fn is_above(segment: Seq<u8>) -> bool {
    segment == seq![DOT, DOT]
}

/// Whether a text can be one segment of a path: it is not empty, holds no separator, and leads
/// neither to the directory itself nor to the one above.
pub open spec fn is_segment(reading: Reading, name: Seq<u8>) -> bool {
    &&& name.len() > 0
    &&& forall|i: int| 0 <= i < name.len() ==> !reading.separates(#[trigger] name[i])
    &&& !is_here(name)
    &&& !is_above(name)
}

fn here(segment: &[u8]) -> (is: bool)
    ensures
        is == is_here(segment@),
{
    let is = segment.len() == 1 && segment[0] == DOT;
    assert(is ==> segment@ =~= seq![DOT]);
    is
}

fn above(segment: &[u8]) -> (is: bool)
    ensures
        is == is_above(segment@),
{
    let is = segment.len() == 2 && segment[0] == DOT && segment[1] == DOT;
    assert(is ==> segment@ =~= seq![DOT, DOT]);
    is
}

/// The bytes of each of the given segments.
pub open spec fn each(items: Seq<Vec<u8>>) -> Seq<Seq<u8>> {
    items.map_values(|item: Vec<u8>| item@)
}

proof fn lemma_segments(reading: Reading, rest: Seq<u8>, start: int, end: int)
    requires
        0 <= start <= end <= rest.len(),
        end == segment_end(reading, rest, start),
    ensures
        segments(reading, rest.skip(start)) == if end == rest.len() {
            seq![rest.skip(start)]
        } else {
            seq![rest.subrange(start, end)] + segments(reading, rest.skip(end + 1))
        },
{
    lemma_segment_end_skips(reading, rest, start, start);
    assert(rest.skip(start).take(end - start) =~= rest.subrange(start, end));
    if end < rest.len() {
        assert(rest.skip(start).skip(end - start + 1) =~= rest.skip(end + 1));
    }
}

proof fn lemma_segment_end_skips(reading: Reading, rest: Seq<u8>, start: int, from: int)
    requires
        0 <= start <= from <= rest.len(),
    ensures
        segment_end(reading, rest.skip(start), from - start) == segment_end(reading, rest, from)
            - start,
    decreases rest.len() - from,
{
    if from < rest.len() && !reading.separates(rest[from]) {
        lemma_segment_end_skips(reading, rest, start, from + 1);
    }
}

fn split(reading: Reading, rest: &[u8]) -> (parts: Vec<Vec<u8>>)
    ensures
        each(parts@) == segments(reading, rest@),
{
    let mut parts: Vec<Vec<u8>> = Vec::new();
    let mut start: usize = 0;
    assert(rest@.skip(0) =~= rest@);
    assert(each(parts@) + segments(reading, rest@) =~= segments(reading, rest@));
    loop
        invariant
            start <= rest.len(),
            each(parts@) + segments(reading, rest@.skip(start as int)) == segments(reading, rest@),
        decreases rest.len() - start,
    {
        let end: usize = find_segment_end(reading, rest, start);
        let part = part_of(rest, start, end);
        let ghost before = each(parts@);
        let ghost tail = segments(reading, rest@.skip(start as int));
        proof {
            lemma_segments(reading, rest@, start as int, end as int);
        }
        parts.push(part);
        assert(each(parts@) =~= before.push(part@));
        if end == rest.len() {
            assert(rest@.skip(start as int) =~= rest@.subrange(start as int, end as int));
            assert(each(parts@) =~= before + tail);
            return parts;
        }
        start = end + 1;
        assert(each(parts@) + segments(reading, rest@.skip(start as int)) =~= before + tail);
    }
}

// ---------------------------------------------------------------------------
// Joining
// ---------------------------------------------------------------------------

/// The segments of a verbatim path once one more segment of another path was followed from it.
pub open spec fn followed(stack: Seq<Seq<u8>>, segment: Seq<u8>) -> Seq<Seq<u8>> {
    if segment.len() == 0 || is_here(segment) {
        stack
    } else if is_above(segment) {
        if stack.len() > 0 && !is_here(stack.last()) && !is_above(stack.last()) {
            stack.drop_last()
        } else {
            stack
        }
    } else {
        stack.push(segment)
    }
}

/// The segments of a verbatim path once those of another path were followed from it.
pub open spec fn all_followed(stack: Seq<Seq<u8>>, more: Seq<Seq<u8>>) -> Seq<Seq<u8>>
    decreases more.len(),
{
    if more.len() == 0 {
        stack
    } else {
        all_followed(followed(stack, more[0]), more.skip(1))
    }
}

/// The segments that are not empty.
pub open spec fn filled(parts: Seq<Seq<u8>>) -> Seq<Seq<u8>> {
    parts.filter(|part: Seq<u8>| part.len() > 0)
}

/// A path of the given segments, each after a `\`.
pub open spec fn written(start: Seq<u8>, stack: Seq<Seq<u8>>) -> Seq<u8>
    decreases stack.len(),
{
    if stack.len() == 0 {
        start
    } else {
        written(start, stack.drop_last()).push(BACKSLASH) + stack.last()
    }
}

/// The path `rest`, which has no drive, share or device of its own, as seen from the verbatim
/// directory `base`: `.` and `..` are followed, and `\` stands between all segments.
pub open spec fn verbatim_joined(base: Seq<u8>, rest: Seq<u8>) -> Seq<u8> {
    let style = PathStyle::Windows;
    let start = base.take(prefix_len(style, base));
    let held = if has_root(style, rest) {
        Seq::empty()
    } else {
        filled(segments(Reading::Backslash, body(style, base)))
    };
    let stack = all_followed(held, segments(Reading::Either, body(style, rest)));
    if stack.len() == 0 && (has_root(style, base) || has_root(style, rest)) {
        start.push(BACKSLASH)
    } else {
        written(start, stack)
    }
}

/// The path `rest` as seen from the directory `base`: a `rest` with a drive, network share or
/// device stands for itself, one that begins at the root keeps only what `base` begins with, and
/// any other follows `base` after one separator. A mere drive takes none. A verbatim `base` follows
/// `rest` segment by segment.
pub open spec fn joined(style: PathStyle, base: Seq<u8>, rest: Seq<u8>) -> Seq<u8> {
    if prefix_len(style, rest) > 0 {
        rest
    } else if is_verbatim(style, base) && rest.len() > 0 {
        verbatim_joined(base, rest)
    } else if has_root(style, rest) {
        base.take(prefix_len(style, base)) + rest
    } else if base.len() == 0 || style.separates(base.last()) || (has_drive(style, base)
        && base.len() == 2) {
        base + rest
    } else {
        base.push(style.separator()) + rest
    }
}

fn follow(stack: &mut Vec<Vec<u8>>, segment: Vec<u8>)
    ensures
        each(final(stack)@) == followed(each(old(stack)@), segment@),
{
    let ghost before = stack@;
    if segment.len() == 0 || here(segment.as_slice()) {
        return;
    }
    if above(segment.as_slice()) {
        if stack.len() > 0 {
            let last: usize = stack.len() - 1;
            assert(each(before).last() == before[last as int]@);
            if !here(stack[last].as_slice()) && !above(stack[last].as_slice()) {
                let _ = stack.pop();
                assert(each(stack@) =~= each(before).drop_last());
            }
        }
    } else {
        stack.push(segment);
        assert(each(stack@) =~= each(before).push(segment@));
    }
}

fn join_verbatim(base: &[u8], rest: &[u8]) -> (path: Vec<u8>)
    requires
        prefix_len(PathStyle::Windows, rest@) == 0,
    ensures
        path@ == verbatim_joined(base@, rest@),
{
    let style = PathStyle::Windows;
    let prefix: usize = find_prefix(style, base);
    let base_rooted = prefix < base.len() && style.is_separator(base[prefix]);
    let rest_rooted = rest.len() > 0 && style.is_separator(rest[0]);
    let mut path = part_of(base, 0, prefix);
    assert(path@ =~= base@.take(prefix as int));
    let ghost start = path@;
    let mut stack: Vec<Vec<u8>> = Vec::new();
    assert(each(stack@) =~= Seq::<Seq<u8>>::empty());
    if !rest_rooted {
        let parts = split(Reading::Backslash, find_body(style, base).as_slice());
        let ghost all = each(parts@);
        let ghost keep = |part: Seq<u8>| part.len() > 0;
        let mut i: usize = 0;
        proof {
            reveal(Seq::filter);
            assert(all.take(0).filter(keep) =~= Seq::<Seq<u8>>::empty());
        }
        while i < parts.len()
            invariant
                i <= parts.len(),
                all == each(parts@),
                keep == (|part: Seq<u8>| part.len() > 0),
                each(stack@) == all.take(i as int).filter(keep),
            decreases parts.len() - i,
        {
            let ghost before = each(stack@);
            proof {
                reveal(Seq::filter);
                assert(all.take(i + 1).drop_last() =~= all.take(i as int));
                assert(all.take(i + 1).last() == parts@[i as int]@);
            }
            if parts[i].len() > 0 {
                let part = copy_bytes(parts[i].as_slice());
                stack.push(part);
                assert(each(stack@) =~= before.push(part@));
            }
            i += 1;
        }
        assert(all.take(all.len() as int) =~= all);
    }
    let ghost held = each(stack@);
    let more = split(Reading::Either, find_body(style, rest).as_slice());
    let ghost coming = each(more@);
    let mut k: usize = 0;
    assert(coming.skip(0) =~= coming);
    while k < more.len()
        invariant
            k <= more.len(),
            coming == each(more@),
            all_followed(held, coming) == all_followed(each(stack@), coming.skip(k as int)),
        decreases more.len() - k,
    {
        assert(coming.skip(k as int)[0] == more@[k as int]@);
        assert(coming.skip(k as int).skip(1) =~= coming.skip(k + 1));
        follow(&mut stack, copy_bytes(more[k].as_slice()));
        k += 1;
    }
    let ghost done = each(stack@);
    assert(done == all_followed(held, coming));
    if stack.len() == 0 {
        if base_rooted || rest_rooted {
            path.push(BACKSLASH);
        }
        return path;
    }
    let mut j: usize = 0;
    assert(written(start, done.take(0)) =~= start);
    while j < stack.len()
        invariant
            j <= stack.len(),
            done == each(stack@),
            path@ == written(start, done.take(j as int)),
        decreases stack.len() - j,
    {
        assert(done.take(j + 1).drop_last() =~= done.take(j as int));
        assert(done.take(j + 1).last() == stack@[j as int]@);
        path.push(BACKSLASH);
        append_bytes(&mut path, stack[j].as_slice());
        j += 1;
    }
    assert(done.take(done.len() as int) =~= done);
    path
}

/// The path `rest` as seen from the directory `base`.
pub fn join(style: PathStyle, base: &[u8], rest: &[u8]) -> (path: OsText)
    ensures
        path@ == joined(style, base@, rest@),
{
    if find_prefix(style, rest) > 0 {
        return copy_bytes(rest);
    }
    if rest.len() > 0 && verbatim_begins(style, base) {
        return join_verbatim(base, rest);
    }
    if rest.len() > 0 && style.is_separator(rest[0]) {
        let mut path = part_of(base, 0, find_prefix(style, base));
        assert(path@ =~= base@.take(prefix_len(style, base@)));
        append_bytes(&mut path, rest);
        return path;
    }
    let mut path = copy_bytes(base);
    let bare_drive = match style {
        PathStyle::Unix => false,
        PathStyle::Windows => base.len() == 2 && drive_begins(base, 0),
    };
    if base.len() > 0 && !style.is_separator(base[base.len() - 1]) && !bare_drive {
        path.push(
            match style {
                PathStyle::Unix => SLASH,
                PathStyle::Windows => BACKSLASH,
            },
        );
    }
    append_bytes(&mut path, rest);
    path
}

/// The path `rest`, a text, as seen from the directory `base`.
pub fn join_text(style: PathStyle, base: &[u8], rest: &str) -> (path: OsText)
    ensures
        path@ == joined(style, base@, encode_utf8(rest@)),
{
    join(style, base, os_text(rest).as_slice())
}

// ---------------------------------------------------------------------------
// File names
// ---------------------------------------------------------------------------

/// The file name among segments: the last of them, not counting empty ones and, where the path is
/// not verbatim, `.`. There is none if that segment is `.` or `..`, or if nothing is left.
pub open spec fn last_name(verbatim: bool, parts: Seq<Seq<u8>>) -> Option<Seq<u8>>
    decreases parts.len(),
{
    if parts.len() == 0 {
        None
    } else if parts.last().len() == 0 || (!verbatim && is_here(parts.last())) {
        last_name(verbatim, parts.drop_last())
    } else if is_here(parts.last()) || is_above(parts.last()) {
        None
    } else {
        Some(parts.last())
    }
}

/// The name of the file that a path leads to, if it has one. What the path begins with is no part
/// of it.
pub open spec fn name_in(style: PathStyle, path: Seq<u8>) -> Option<Seq<u8>> {
    last_name(
        is_verbatim(style, path),
        segments(reading_of(style, path), body(style, path)),
    )
}

/// The name of the file that `path` leads to, if it has one.
pub fn file_name(style: PathStyle, path: &[u8]) -> (name: Option<OsText>)
    ensures
        os_option(name) == name_in(style, path@),
{
    let verbatim = verbatim_begins(style, path);
    let reading = if verbatim {
        Reading::Backslash
    } else {
        style.reading()
    };
    let parts = split(reading, find_body(style, path).as_slice());
    let ghost all = each(parts@);
    let mut end: usize = parts.len();
    assert(all.take(end as int) =~= all);
    while end > 0
        invariant
            end <= parts.len(),
            all == each(parts@),
            name_in(style, path@) == last_name(verbatim, all.take(end as int)),
        decreases end,
    {
        let last: usize = end - 1;
        let ghost kept = all.take(end as int);
        assert(kept.last() == parts@[last as int]@);
        assert(kept.drop_last() =~= all.take(last as int));
        let current = here(parts[last].as_slice());
        if parts[last].len() > 0 && (verbatim || !current) {
            if current || above(parts[last].as_slice()) {
                return None;
            }
            return Some(copy_bytes(parts[last].as_slice()));
        }
        end = last;
    }
    None
}

// ---------------------------------------------------------------------------
// Laws
// ---------------------------------------------------------------------------

proof fn lemma_segment_end_is_first(reading: Reading, rest: Seq<u8>, from: int)
    requires
        0 <= from <= rest.len(),
    ensures
        from <= segment_end(reading, rest, from) <= rest.len(),
        forall|i: int|
            from <= i < segment_end(reading, rest, from) ==> !reading.separates(#[trigger] rest[i]),
    decreases rest.len() - from,
{
    if from < rest.len() && !reading.separates(rest[from]) {
        lemma_segment_end_is_first(reading, rest, from + 1);
    }
}

proof fn lemma_segments_hold_no_separator(reading: Reading, rest: Seq<u8>)
    ensures
        forall|k: int, i: int|
            0 <= k < segments(reading, rest).len() && 0 <= i < segments(reading, rest)[k].len()
                ==> !reading.separates(#[trigger] segments(reading, rest)[k][i]),
    decreases rest.len(),
{
    lemma_segment_end_is_first(reading, rest, 0);
    let end = segment_end(reading, rest, 0);
    if end < rest.len() {
        let tail = segments(reading, rest.skip(end + 1));
        lemma_segments_hold_no_separator(reading, rest.skip(end + 1));
        assert forall|k: int, i: int|
            0 <= k < segments(reading, rest).len() && 0 <= i < segments(reading, rest)[k].len()
                implies !reading.separates(#[trigger] segments(reading, rest)[k][i]) by {
            if k == 0 {
                assert(segments(reading, rest)[k] == rest.take(end));
                assert(rest.take(end)[i] == rest[i]);
            } else {
                assert(segments(reading, rest)[k] == tail[k - 1]);
                assert(!reading.separates(tail[k - 1][i]));
            }
        }
    }
}

proof fn lemma_last_name_is_a_part(verbatim: bool, parts: Seq<Seq<u8>>)
    ensures
        last_name(verbatim, parts) matches Some(name) ==> name.len() > 0 && !is_here(name)
            && !is_above(name) && exists|k: int|
            0 <= k < parts.len() && #[trigger] parts[k] == name,
    decreases parts.len(),
{
    if parts.len() > 0 {
        let shorter = parts.drop_last();
        lemma_last_name_is_a_part(verbatim, shorter);
        match last_name(verbatim, parts) {
            Some(name) => {
                if parts.last() == name {
                    assert(parts[parts.len() - 1] == name);
                } else {
                    let k = choose|k: int| 0 <= k < shorter.len() && #[trigger] shorter[k] == name;
                    assert(parts[k] == name);
                }
            },
            None => {},
        }
    }
}

/// The path of an entry of the directory `base`: the name follows `base` after one separator. From
/// a verbatim `base` it follows the segments that `base` has.
pub open spec fn entry(style: PathStyle, base: Seq<u8>, name: Seq<u8>) -> Seq<u8> {
    if is_verbatim(style, base) {
        written(
            base.take(prefix_len(style, base)),
            filled(segments(Reading::Backslash, body(style, base))).push(name),
        )
    } else {
        base.push(style.separator()) + name
    }
}

/// One segment without a drive, joined to a directory, leads to an entry of that directory. Left
/// out are directories that are empty, end in a separator or are a mere drive, which take no
/// separator, unless they are verbatim.
pub proof fn joined_segment_is_an_entry(style: PathStyle, base: Seq<u8>, name: Seq<u8>)
    requires
        is_segment(style.usual(), name),
        !has_drive(style, name),
        !is_verbatim(style, base) ==> base.len() > 0 && !style.separates(base.last()) && !(
        has_drive(style, base) && base.len() == 2),
    ensures
        joined(style, base, name) == entry(style, base, name),
{
    assert(!style.separates(name[0]));
    if is_verbatim(style, base) {
        let held = filled(segments(Reading::Backslash, body(style, base)));
        assert(body(style, name) =~= name);
        lemma_segment_end(Reading::Either, name, 0, name.len() as int);
        assert(segments(Reading::Either, name) =~= seq![name]);
        reveal_with_fuel(all_followed, 2);
        assert(seq![name].skip(1) =~= Seq::<Seq<u8>>::empty());
        assert(all_followed(held, seq![name]) == held.push(name));
    }
}

proof fn lemma_written_begins(start: Seq<u8>, stack: Seq<Seq<u8>>)
    ensures
        start.len() <= written(start, stack).len(),
        written(start, stack).take(start.len() as int) == start,
    decreases stack.len(),
{
    if stack.len() > 0 {
        let shorter = written(start, stack.drop_last());
        lemma_written_begins(start, stack.drop_last());
        assert(written(start, stack).take(start.len() as int) =~= shorter.take(start.len() as int));
    } else {
        assert(start.take(start.len() as int) =~= start);
    }
}

/// A path that is seen from a verbatim directory, and has no drive, share or device of its own, is
/// verbatim.
pub proof fn verbatim_stays_verbatim(style: PathStyle, base: Seq<u8>, rest: Seq<u8>)
    requires
        is_verbatim(style, base),
        prefix_len(style, rest) == 0,
    ensures
        is_verbatim(style, joined(style, base, rest)),
{
    let start = base.take(prefix_len(style, base));
    lemma_segment_end_is_first(Reading::Backslash, base, 4);
    if base.len() >= 8 {
        lemma_segment_end_is_first(Reading::Backslash, base, 8);
        let server = segment_end(Reading::Backslash, base, 8);
        if server < base.len() {
            lemma_segment_end_is_first(Reading::Backslash, base, server + 1);
        }
    }
    assert(4 <= start.len());
    assert(is_verbatim(style, start));
    if rest.len() == 0 {
        assert(joined(style, base, rest).take(4) =~= base.take(4));
        assert(base.take(4)[0] == base[0] && base.take(4)[1] == base[1]);
        assert(base.take(4)[2] == base[2] && base.take(4)[3] == base[3]);
    } else {
        let held = if has_root(style, rest) {
            Seq::empty()
        } else {
            filled(segments(Reading::Backslash, body(style, base)))
        };
        let stack = all_followed(held, segments(Reading::Either, body(style, rest)));
        lemma_written_begins(start, stack);
        let path = written(start, stack);
        assert(path.take(start.len() as int)[0] == path[0]);
        assert(path.take(start.len() as int)[1] == path[1]);
        assert(path.take(start.len() as int)[2] == path[2]);
        assert(path.take(start.len() as int)[3] == path[3]);
    }
}

/// The name of a file is one segment.
pub proof fn file_name_is_one_segment(style: PathStyle, path: Seq<u8>)
    ensures
        name_in(style, path) matches Some(name) ==> is_segment(reading_of(style, path), name),
{
    let reading = reading_of(style, path);
    let parts = segments(reading, body(style, path));
    lemma_segments_hold_no_separator(reading, body(style, path));
    lemma_last_name_is_a_part(is_verbatim(style, path), parts);
    match name_in(style, path) {
        Some(name) => {
            let k = choose|k: int| 0 <= k < parts.len() && #[trigger] parts[k] == name;
            assert forall|i: int| 0 <= i < name.len() implies !reading.separates(
                #[trigger] name[i],
            ) by {
                assert(!reading.separates(parts[k][i]));
            }
        },
        None => {},
    }
}

/// A path without a drive, share, device or root of its own follows the directory that it is seen
/// from: after a separator, unless the directory is empty, ends in one or is a mere drive. A
/// verbatim directory is left out.
pub proof fn relative_paths_follow_their_directory(style: PathStyle, base: Seq<u8>, rest: Seq<u8>)
    requires
        rest.len() > 0,
        rest[0] != SLASH,
        rest[0] != BACKSLASH || style == PathStyle::Unix,
        style == PathStyle::Windows && rest.len() >= 2 ==> rest[1] != COLON,
        !is_verbatim(style, base),
    ensures
        base.len() == 0 ==> joined(style, base, rest) == rest,
        base.len() > 0 && base.last() != SLASH && (base.last() != BACKSLASH || style
            == PathStyle::Unix) && !(style == PathStyle::Windows && base.len() == 2 && base[1]
            == COLON) ==> joined(style, base, rest) == base + seq![
            if style == PathStyle::Windows {
                BACKSLASH
            } else {
                SLASH
            },
        ] + rest,
        base.len() > 0 && base.last() == SLASH ==> joined(style, base, rest) == base + rest,
{
    assert(prefix_len(style, rest) == 0);
    assert(!has_root(style, rest));
    if base.len() == 0 {
        assert(base + rest =~= rest);
    } else {
        assert(base.push(style.separator()) =~= base + seq![style.separator()]);
    }
}

/// A path that begins at the root stands for itself on a Unix system, whatever directory it is seen
/// from.
pub proof fn rooted_paths_stand_for_themselves(base: Seq<u8>, rest: Seq<u8>)
    requires
        rest.len() > 0,
        rest[0] == SLASH,
    ensures
        joined(PathStyle::Unix, base, rest) == rest,
{
    assert(base.take(0) + rest =~= rest);
}

/// A path with a drive of its own stands for itself on Windows, whatever directory it is seen from.
pub proof fn paths_with_a_drive_stand_for_themselves(base: Seq<u8>, rest: Seq<u8>)
    requires
        rest.len() >= 2,
        LOWER_A <= rest[0] <= LOWER_Z || UPPER_A <= rest[0] <= UPPER_Z,
        rest[1] == COLON,
    ensures
        joined(PathStyle::Windows, base, rest) == rest,
{
}

/// On a Unix system the file name of a path that ends in one segment is that segment, whatever
/// stands before it.
pub proof fn last_segment_is_the_file_name(style: PathStyle, base: Seq<u8>, name: Seq<u8>)
    requires
        style == PathStyle::Unix,
        is_segment(style.usual(), name),
    ensures
        name_in(style, base.push(SLASH) + name) == Some(name),
        name_in(style, name) == Some(name),
{
    let path = base.push(SLASH) + name;
    let reading = style.usual();
    assert(name.skip(0) =~= name);
    lemma_last_segment(reading, name, name);
    assert(body(style, name) =~= name);
    let rest = body(style, path);
    if base.len() == 0 {
        assert(path[0] == SLASH);
        assert(rest =~= name);
    } else {
        let front = if path[0] == SLASH {
            base.skip(1)
        } else {
            base
        };
        assert(path[0] == base[0]);
        assert(rest =~= front.push(SLASH) + name);
        assert(rest.skip(rest.len() - name.len()) =~= name);
        lemma_last_segment(reading, rest, name);
    }
}

/// Where a segment ends a path, it is the last of the path's segments.
proof fn lemma_last_segment(reading: Reading, rest: Seq<u8>, name: Seq<u8>)
    requires
        name.len() > 0,
        name.len() <= rest.len(),
        rest.skip(rest.len() - name.len()) == name,
        forall|i: int| 0 <= i < name.len() ==> !reading.separates(#[trigger] name[i]),
        name.len() < rest.len() ==> reading.separates(rest[rest.len() - name.len() - 1]),
    ensures
        segments(reading, rest).len() > 0,
        segments(reading, rest).last() == name,
    decreases rest.len(),
{
    lemma_segment_end_is_first(reading, rest, 0);
    let end = segment_end(reading, rest, 0);
    let at = rest.len() - name.len();
    if end >= rest.len() {
        if at > 0 {
            assert(reading.separates(rest[at - 1]));
        }
        assert(rest.skip(0) =~= rest);
    } else {
        lemma_segment_end_separates(reading, rest, 0);
        if end >= at {
            assert(name[end - at] == rest[end]);
        }
        let tail = rest.skip(end + 1);
        assert(tail.skip(tail.len() - name.len()) =~= name);
        if name.len() < tail.len() {
            assert(tail[tail.len() - name.len() - 1] == rest[at - 1]);
        }
        lemma_last_segment(reading, tail, name);
        assert((seq![rest.take(end)] + segments(reading, tail)).last() == segments(
            reading,
            tail,
        ).last());
    }
}

proof fn lemma_segment_end_separates(reading: Reading, rest: Seq<u8>, from: int)
    requires
        0 <= from <= rest.len(),
        segment_end(reading, rest, from) < rest.len(),
    ensures
        reading.separates(rest[segment_end(reading, rest, from)]),
    decreases rest.len() - from,
{
    if !reading.separates(rest[from]) {
        lemma_segment_end_separates(reading, rest, from + 1);
    }
}

/// An optional text of the operating system is all of its bytes, or none.
pub proof fn optional_texts_are_whole(text: OsText)
    ensures
        os_option(Some(text)) == Some(text@),
        os_option(None) == None::<Seq<u8>>,
{
}

/// Windows writes paths in its own way, and every other operating system as Unix does.
pub proof fn windows_has_its_own_paths(os: Seq<char>)
    ensures
        style_of(os) == PathStyle::Windows <==> os == "windows"@,
        PathStyle::Unix.separator() == SLASH,
        PathStyle::Windows.separator() == BACKSLASH,
        forall|b: u8| #[trigger] PathStyle::Unix.separates(b) <==> b == SLASH,
        forall|b: u8| #[trigger] PathStyle::Windows.separates(b) <==> b == SLASH || b == BACKSLASH,
{
}

/// The bytes that paths are read by are those of the characters that they stand for.
pub proof fn bytes_of_paths_are_their_characters()
    ensures
        DOT == '.' as u8,
        SLASH == '/' as u8,
        COLON == ':' as u8,
        QUESTION_MARK == '?' as u8,
        BACKSLASH == '\\' as u8,
        UPPER_A == 'A' as u8,
        UPPER_C == 'C' as u8,
        UPPER_N == 'N' as u8,
        UPPER_U == 'U' as u8,
        UPPER_Z == 'Z' as u8,
        LOWER_A == 'a' as u8,
        LOWER_Z == 'z' as u8,
{
}

/// On Windows the file name of a path on a drive is its last segment, whatever stands before it and
/// whichever separator does.
pub proof fn last_segment_on_a_drive_is_the_file_name(
    letter: u8,
    root: u8,
    front: Seq<u8>,
    separator: u8,
    name: Seq<u8>,
)
    requires
        LOWER_A <= letter <= LOWER_Z || UPPER_A <= letter <= UPPER_Z,
        root == SLASH || root == BACKSLASH,
        separator == SLASH || separator == BACKSLASH,
        is_segment(PathStyle::Windows.usual(), name),
    ensures
        name_in(
            PathStyle::Windows,
            seq![letter, COLON, root] + front + seq![separator] + name,
        ) == Some(name),
        name_in(PathStyle::Windows, seq![letter, COLON, root] + name) == Some(name),
{
    let style = PathStyle::Windows;
    let reading = style.usual();
    let long = seq![letter, COLON, root] + front + seq![separator] + name;
    assert(long[0] == letter && long[1] == COLON && long[2] == root);
    let rest = body(style, long);
    assert(rest =~= front + seq![separator] + name);
    assert(rest.skip(rest.len() - name.len()) =~= name);
    lemma_last_segment(reading, rest, name);
    let short = seq![letter, COLON, root] + name;
    assert(short[0] == letter && short[1] == COLON && short[2] == root);
    assert(body(style, short) =~= name);
    assert(name.skip(0) =~= name);
    lemma_last_segment(reading, name, name);
}

/// From a verbatim directory on a drive, a segment leads to the entry of that name, after one `\`.
/// `rest` is what follows the drive and its root; directories with empty segments are left out.
pub proof fn entries_of_verbatim_directories(letter: u8, rest: Seq<u8>, name: Seq<u8>)
    requires
        LOWER_A <= letter <= LOWER_Z || UPPER_A <= letter <= UPPER_Z,
        rest.len() > 0,
        rest[0] != BACKSLASH,
        rest[rest.len() - 1] != BACKSLASH,
        forall|i: int|
            0 <= i < rest.len() - 1 ==> !(#[trigger] rest[i] == BACKSLASH && rest[i + 1]
                == BACKSLASH),
        is_segment(Reading::Either, name),
        !has_drive(PathStyle::Windows, name),
    ensures
        ({
            let base = seq![BACKSLASH, BACKSLASH, QUESTION_MARK, BACKSLASH, letter, COLON, BACKSLASH]
                + rest;
            joined(PathStyle::Windows, base, name) == base + seq![BACKSLASH] + name
        }),
{
    let start = seq![BACKSLASH, BACKSLASH, QUESTION_MARK, BACKSLASH, letter, COLON];
    let base = seq![BACKSLASH, BACKSLASH, QUESTION_MARK, BACKSLASH, letter, COLON, BACKSLASH]
        + rest;
    lemma_verbatim_drive(letter, rest);
    assert(base =~= start.push(BACKSLASH) + rest);
    lemma_clean_entry(base, start, rest, name);
}

proof fn lemma_clean_entry(base: Seq<u8>, start: Seq<u8>, rest: Seq<u8>, name: Seq<u8>)
    requires
        is_verbatim(PathStyle::Windows, base),
        base.take(prefix_len(PathStyle::Windows, base)) == start,
        body(PathStyle::Windows, base) == rest,
        base == start.push(BACKSLASH) + rest,
        rest.len() > 0,
        rest[0] != BACKSLASH,
        rest[rest.len() - 1] != BACKSLASH,
        forall|i: int|
            0 <= i < rest.len() - 1 ==> !(#[trigger] rest[i] == BACKSLASH && rest[i + 1]
                == BACKSLASH),
        is_segment(Reading::Either, name),
        !has_drive(PathStyle::Windows, name),
    ensures
        joined(PathStyle::Windows, base, name) == base + seq![BACKSLASH] + name,
{
    let parts = segments(Reading::Backslash, rest);
    lemma_clean_segments(start, rest);
    lemma_filled_keeps(parts);
    joined_segment_is_an_entry(PathStyle::Windows, base, name);
    let stack = parts.push(name);
    assert(stack.drop_last() =~= parts);
    assert(written(start, stack) == written(start, stack.drop_last()).push(BACKSLASH)
        + stack.last());
    assert(base.push(BACKSLASH) + name =~= base + seq![BACKSLASH] + name);
}

/// What a verbatim path on a drive begins with.
proof fn lemma_verbatim_drive(letter: u8, rest: Seq<u8>)
    requires
        LOWER_A <= letter <= LOWER_Z || UPPER_A <= letter <= UPPER_Z,
    ensures
        ({
            let start = seq![BACKSLASH, BACKSLASH, QUESTION_MARK, BACKSLASH, letter, COLON];
            let base = seq![BACKSLASH, BACKSLASH, QUESTION_MARK, BACKSLASH, letter, COLON, BACKSLASH]
                + rest;
            &&& is_verbatim(PathStyle::Windows, base)
            &&& base.take(prefix_len(PathStyle::Windows, base)) == start
            &&& body(PathStyle::Windows, base) == rest
        }),
{
    let start = seq![BACKSLASH, BACKSLASH, QUESTION_MARK, BACKSLASH, letter, COLON];
    let base = seq![BACKSLASH, BACKSLASH, QUESTION_MARK, BACKSLASH, letter, COLON, BACKSLASH]
        + rest;
    assert(base[0] == BACKSLASH && base[1] == BACKSLASH && base[2] == QUESTION_MARK && base[3]
        == BACKSLASH && base[4] == letter && base[5] == COLON && base[6] == BACKSLASH);
    assert(base.take(6) =~= start);
    assert(base.skip(7) =~= rest);
}

proof fn lemma_filled_keeps(parts: Seq<Seq<u8>>)
    requires
        forall|k: int| 0 <= k < parts.len() ==> (#[trigger] parts[k]).len() > 0,
    ensures
        filled(parts) == parts,
    decreases parts.len(),
{
    reveal(Seq::filter);
    if parts.len() > 0 {
        let front = parts.drop_last();
        assert forall|k: int| 0 <= k < front.len() implies (#[trigger] front[k]).len() > 0 by {
            assert(parts[k].len() > 0);
        }
        lemma_filled_keeps(front);
        assert(parts[parts.len() - 1].len() > 0);
        assert(front.push(parts.last()) =~= parts);
    } else {
        assert(filled(parts) =~= parts);
    }
}

proof fn lemma_written_first(start: Seq<u8>, first: Seq<u8>, stack: Seq<Seq<u8>>)
    ensures
        written(start, seq![first] + stack) == written(start.push(BACKSLASH) + first, stack),
    decreases stack.len(),
{
    let all = seq![first] + stack;
    if stack.len() == 0 {
        assert(all.drop_last() =~= Seq::<Seq<u8>>::empty());
        assert(all.last() == first);
        assert(written(start, all.drop_last()) == start);
        assert(written(start, all) == start.push(BACKSLASH) + first);
    } else {
        assert(all.drop_last() =~= seq![first] + stack.drop_last());
        assert(all.last() == stack.last());
        lemma_written_first(start, first, stack.drop_last());
        assert(written(start, all) == written(start, all.drop_last()).push(BACKSLASH) + all.last());
    }
}

/// The segments of a path without empty ones, written behind the path's beginning, are the path.
proof fn lemma_clean_segments(start: Seq<u8>, rest: Seq<u8>)
    requires
        rest.len() > 0,
        rest[0] != BACKSLASH,
        rest[rest.len() - 1] != BACKSLASH,
        forall|i: int|
            0 <= i < rest.len() - 1 ==> !(#[trigger] rest[i] == BACKSLASH && rest[i + 1]
                == BACKSLASH),
    ensures
        written(start, segments(Reading::Backslash, rest)) == start.push(BACKSLASH) + rest,
        forall|k: int|
            0 <= k < segments(Reading::Backslash, rest).len() ==> (#[trigger] segments(
                Reading::Backslash,
                rest,
            )[k]).len() > 0,
    decreases rest.len(),
{
    let reading = Reading::Backslash;
    let parts = segments(reading, rest);
    lemma_segment_end_is_first(reading, rest, 0);
    let end = segment_end(reading, rest, 0);
    if end >= rest.len() {
        assert(parts =~= seq![rest]);
        assert(parts.drop_last() =~= Seq::<Seq<u8>>::empty());
        assert(written(start, parts.drop_last()) == start);
    } else {
        lemma_segment_end_separates(reading, rest, 0);
        assert(end > 0);
        assert(end < rest.len() - 1);
        let first = rest.take(end);
        let tail = rest.skip(end + 1);
        assert(rest[end] == BACKSLASH);
        assert(tail[0] == rest[end + 1]);
        assert forall|i: int| 0 <= i < tail.len() - 1 implies !(#[trigger] tail[i] == BACKSLASH
            && tail[i + 1] == BACKSLASH) by {
            assert(!(rest[end + 1 + i] == BACKSLASH && rest[end + 1 + i + 1] == BACKSLASH));
        }
        lemma_clean_segments(start.push(BACKSLASH) + first, tail);
        let others = segments(reading, tail);
        assert(parts == seq![first] + others);
        lemma_written_first(start, first, others);
        assert((start.push(BACKSLASH) + first).push(BACKSLASH) + tail =~= start.push(BACKSLASH)
            + rest);
        assert forall|k: int| 0 <= k < parts.len() implies (#[trigger] parts[k]).len() > 0 by {
            if k > 0 {
                assert(parts[k] == others[k - 1]);
            }
        }
    }
}

} // verus!
