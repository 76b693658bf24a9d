//! Newline-delimited JSON framing: one line of the agent's output is one message.
use vstd::prelude::*;
use vstd::utf8::*;

use crate::bytes::{append_bytes, copy_bytes};
use crate::text;
use crate::utf8;

verus! {

/// The byte that ends a line.
pub const NEWLINE: u8 = 10;

/// The lines of `bytes` that are ended by a newline, without it.
pub open spec fn complete_lines(bytes: Seq<u8>) -> Seq<Seq<u8>>
    decreases bytes.len(),
{
    if bytes.len() == 0 {
        Seq::empty()
    } else if bytes.last() == NEWLINE {
        complete_lines(bytes.drop_last()).push(open_line(bytes.drop_last()))
    } else {
        complete_lines(bytes.drop_last())
    }
}

/// What follows the last newline of `bytes`.
pub open spec fn open_line(bytes: Seq<u8>) -> Seq<u8>
    decreases bytes.len(),
{
    if bytes.len() == 0 || bytes.last() == NEWLINE {
        Seq::empty()
    } else {
        open_line(bytes.drop_last()).push(bytes.last())
    }
}

/// The messages in `bytes`: the text of every complete line that is not empty.
pub open spec fn messages(bytes: Seq<u8>) -> Seq<Seq<char>> {
    line_messages(complete_lines(bytes))
}

/// The texts of the lines that are not empty.
pub open spec fn line_messages(lines: Seq<Seq<u8>>) -> Seq<Seq<char>> {
    lines.filter(|line: Seq<u8>| line.len() > 0).map_values(|line: Seq<u8>| decode_utf8(line))
}

/// Whether `bytes` holds no newline.
pub open spec fn one_line(bytes: Seq<u8>) -> bool {
    forall|i: int| 0 <= i < bytes.len() ==> bytes[i] != NEWLINE
}

// ---------------------------------------------------------------------------
// How lines compose
// ---------------------------------------------------------------------------

/// Bytes without a newline are one open line.
pub proof fn lemma_one_line(bytes: Seq<u8>)
    requires
        one_line(bytes),
    ensures
        complete_lines(bytes) == Seq::<Seq<u8>>::empty(),
        open_line(bytes) == bytes,
    decreases bytes.len(),
{
    if bytes.len() > 0 {
        lemma_one_line(bytes.drop_last());
        assert(bytes.drop_last().push(bytes.last()) =~= bytes);
    }
}

/// The open line holds no newline.
pub proof fn lemma_open_line_is_one_line(bytes: Seq<u8>)
    ensures
        one_line(open_line(bytes)),
    decreases bytes.len(),
{
    if bytes.len() > 0 {
        lemma_open_line_is_one_line(bytes.drop_last());
    }
}

/// Appending bytes only continues the open line.
pub proof fn lemma_lines_append(a: Seq<u8>, b: Seq<u8>)
    ensures
        complete_lines(a + b) == complete_lines(a) + complete_lines(open_line(a) + b),
        open_line(a + b) == open_line(open_line(a) + b),
    decreases b.len(),
{
    if b.len() == 0 {
        assert(a + b =~= a);
        assert(open_line(a) + b =~= open_line(a));
        lemma_open_line_is_one_line(a);
        lemma_one_line(open_line(a));
    } else {
        lemma_lines_append(a, b.drop_last());
        assert((a + b).drop_last() =~= a + b.drop_last());
        assert((open_line(a) + b).drop_last() =~= open_line(a) + b.drop_last());
        assert(complete_lines(a + b) =~= complete_lines(a) + complete_lines(open_line(a) + b));
    }
}

/// The messages of lines in two groups are the messages of the one and then of the other.
pub proof fn lemma_line_messages_append(a: Seq<Seq<u8>>, b: Seq<Seq<u8>>)
    ensures
        line_messages(a + b) == line_messages(a) + line_messages(b),
{
    let keep = |line: Seq<u8>| line.len() > 0;
    Seq::filter_distributes_over_add(a, b, keep);
    assert(line_messages(a + b) =~= line_messages(a) + line_messages(b));
}

/// The message of one more line comes last, unless the line is empty.
proof fn lemma_line_messages_push(lines: Seq<Seq<u8>>, line: Seq<u8>)
    ensures
        line_messages(lines.push(line)) == if line.len() > 0 {
            line_messages(lines).push(decode_utf8(line))
        } else {
            line_messages(lines)
        },
{
    reveal(Seq::filter);
    assert(lines.push(line).drop_last() =~= lines);
    if line.len() > 0 {
        assert(line_messages(lines.push(line)) =~= line_messages(lines).push(decode_utf8(line)));
    }
}

// ---------------------------------------------------------------------------
// The splitter
// ---------------------------------------------------------------------------

/// Why the agent's output cannot be split into messages.
#[derive(Debug, Clone, Copy, PartialEq, Eq, Structural)]
pub enum SplitError {
    /// The output is not UTF-8.
    InvalidUtf8,
    /// The output ended within a line.
    UnterminatedLine,
}

/// Splits the agent's output into messages as it arrives.
///
/// The view is what was received since the last newline.
pub struct LineSplitter {
    /// The text since the last newline, encoded.
    line_buf: Vec<u8>,
    /// The bytes of a character that is not complete yet.
    byte_buf: Vec<u8>,
}

impl View for LineSplitter {
    type V = Seq<u8>;

    closed spec fn view(&self) -> Seq<u8> {
        self.line_buf@ + self.byte_buf@
    }
}

impl LineSplitter {
    #[verifier::type_invariant]
    spec fn inv(self) -> bool {
        &&& valid_utf8(self.line_buf@)
        &&& one_line(self.line_buf@)
        &&& utf8::is_partial_scalar(self.byte_buf@)
    }

    /// A splitter that has received nothing.
    pub fn new() -> (splitter: Self)
        ensures
            splitter@ == Seq::<u8>::empty(),
    {
        LineSplitter { line_buf: Vec::new(), byte_buf: Vec::new() }
    }

    /// Takes the next bytes and returns the messages they complete.
    pub fn push(&mut self, chunk: &[u8]) -> (received: Result<Vec<String>, SplitError>)
        ensures
            match received {
                Ok(frames) => {
                    &&& utf8::utf8_prefix(old(self)@ + chunk@)
                    &&& text::texts(frames@) == messages(old(self)@ + chunk@)
                    &&& final(self)@ == open_line(old(self)@ + chunk@)
                },
                Err(error) => {
                    &&& !utf8::utf8_prefix(old(self)@ + chunk@)
                    &&& error == SplitError::InvalidUtf8
                    &&& final(self)@ == old(self)@
                },
            },
    {
        proof {
            use_type_invariant(&*self);
        }
        let ghost all = self@ + chunk@;
        let ghost line0 = self.line_buf@;
        let mut joined: Vec<u8> = copy_bytes(&self.byte_buf);
        append_bytes(&mut joined, chunk);
        assert(all =~= line0 + joined@);
        proof {
            utf8::lemma_prefix_skips(line0, joined@);
            utf8::lemma_prefix_shape(joined@);
            utf8::lemma_valid_len_splits(joined@);
        }
        let found = utf8::scan(&joined);
        if !found.continuable {
            return Err(SplitError::InvalidUtf8);
        }
        let complete: usize = found.complete;
        let mut line: Vec<u8> = copy_bytes(&self.line_buf);
        let mut frames: Vec<String> = Vec::new();
        let mut i: usize = 0;
        proof {
            assert(line0 + joined@.take(0) =~= line0);
            lemma_one_line(line0);
            assert(messages(line0) =~= text::texts(frames@));
            let whole = joined@.subrange(0, complete as int);
            assert(whole =~= joined@.take(complete as int));
            valid_utf8_concat(line0, whole);
        }
        while i < complete
            invariant
                i <= complete <= joined.len(),
                valid_utf8(line@ + joined@.subrange(i as int, complete as int)),
                line@ == open_line(line0 + joined@.take(i as int)),
                text::texts(frames@) == messages(line0 + joined@.take(i as int)),
            decreases complete - i,
        {
            let b: u8 = joined[i];
            let ghost seen = line0 + joined@.take(i as int);
            let ghost ahead = joined@.subrange(i as int, complete as int);
            let ghost rest = joined@.subrange(i + 1, complete as int);
            assert(line0 + joined@.take(i + 1) =~= seen.push(b));
            assert(seen.push(b).drop_last() =~= seen);
            if b == NEWLINE {
                proof {
                    let t = line@ + ahead;
                    assert(t[line@.len() as int] == NEWLINE);
                    is_char_boundary_iff_not_is_continuation_byte(t, line@.len() as int);
                    valid_utf8_split(t, line@.len() as int);
                    assert(t.subrange(0, line@.len() as int) =~= line@);
                    let after = t.subrange(line@.len() as int, t.len() as int);
                    assert(pop_first_scalar(after) =~= rest);
                    assert(Seq::<u8>::empty() + rest =~= rest);
                    lemma_line_messages_push(complete_lines(seen), line@);
                }
                if line.len() > 0 {
                    let ghost before = frames@;
                    frames.push(utf8::decode(&line));
                    assert(text::texts(frames@) =~= text::texts(before).push(decode_utf8(line@)));
                }
                line = Vec::new();
            } else {
                assert(line@ + ahead =~= line@.push(b) + rest);
                line.push(b);
            }
            i += 1;
        }
        let mut pending: Vec<u8> = Vec::new();
        let mut k: usize = complete;
        while k < joined.len()
            invariant
                complete <= k <= joined.len(),
                pending@ =~= joined@.subrange(complete as int, k as int),
            decreases joined.len() - k,
        {
            pending.push(joined[k]);
            k += 1;
        }
        proof {
            let x = line0 + joined@.take(complete as int);
            assert(pending@ =~= joined@.skip(complete as int));
            assert(all =~= x + pending@);
            assert(line@ + joined@.subrange(complete as int, complete as int) =~= line@);
            lemma_lines_append(x, pending@);
            lemma_open_line_is_one_line(x);
            assert(one_line(line@ + pending@));
            lemma_one_line(line@ + pending@);
            assert(complete_lines(all) =~= complete_lines(x));
        }
        *self = LineSplitter { line_buf: line, byte_buf: pending };
        Ok(frames)
    }

    /// Whether the output may end here: nothing stands on the open line, not even a part of a
    /// character.
    pub fn finish(&self) -> (ended: Result<(), SplitError>)
        ensures
            ended is Ok <==> self@.len() == 0,
            ended matches Err(error) ==> error == SplitError::UnterminatedLine,
    {
        if self.line_buf.len() > 0 || self.byte_buf.len() > 0 {
            Err(SplitError::UnterminatedLine)
        } else {
            Ok(())
        }
    }
}

// ---------------------------------------------------------------------------
// Laws
// ---------------------------------------------------------------------------

/// The encoding of a message on a line of its own.
pub open spec fn message_line(message: Seq<char>) -> Seq<u8> {
    encode_utf8(message).push(NEWLINE)
}

/// The encoding of messages, each on a line of its own.
pub open spec fn message_lines(sent: Seq<Seq<char>>) -> Seq<u8>
    decreases sent.len(),
{
    if sent.len() == 0 {
        Seq::empty()
    } else {
        message_lines(sent.drop_last()) + message_line(sent.last())
    }
}

/// Whether a text can be a message: it is not empty and holds no newline.
pub open spec fn is_message(text: Seq<char>) -> bool {
    text.len() > 0 && !text.contains('\n')
}

/// What stands before the open line of text is complete text.
proof fn lemma_closed_lines_are_text(bytes: Seq<u8>)
    requires
        utf8::utf8_prefix(bytes),
    ensures
        open_line(bytes).len() <= bytes.len(),
        valid_utf8(bytes.take(bytes.len() - open_line(bytes).len())),
        bytes.skip(bytes.len() - open_line(bytes).len()) == open_line(bytes),
    decreases bytes.len(),
{
    let n = bytes.len() as int;
    if n == 0 {
        assert(bytes.skip(0) =~= open_line(bytes));
    } else if bytes.last() == NEWLINE {
        let more = choose|more: Seq<u8>| valid_utf8(#[trigger] (bytes + more));
        let t = bytes + more;
        assert(t[n - 1] == NEWLINE);
        is_char_boundary_iff_not_is_continuation_byte(t, n - 1);
        valid_utf8_split(t, n - 1);
        let front = t.subrange(0, n - 1);
        let end: Seq<u8> = seq![NEWLINE];
        assert(valid_utf8(end)) by {
            reveal_with_fuel(valid_utf8, 2);
        }
        valid_utf8_concat(front, end);
        assert(front + end =~= bytes.take(n));
        assert(bytes.skip(n) =~= Seq::<u8>::empty());
    } else {
        let shorter = bytes.drop_last();
        assert(shorter + seq![bytes.last()] =~= bytes);
        utf8::lemma_prefix_shortens(shorter, seq![bytes.last()]);
        lemma_closed_lines_are_text(shorter);
        let k = shorter.len() - open_line(shorter).len();
        assert(bytes.take(k) =~= shorter.take(k));
        assert(bytes.skip(k) =~= shorter.skip(k).push(bytes.last()));
    }
}

/// Every complete line of text is text.
proof fn lemma_lines_are_text(bytes: Seq<u8>)
    requires
        utf8::utf8_prefix(bytes),
    ensures
        forall|i: int|
            #![trigger complete_lines(bytes)[i]]
            0 <= i < complete_lines(bytes).len() ==> valid_utf8(complete_lines(bytes)[i])
                && one_line(complete_lines(bytes)[i]),
    decreases bytes.len(),
{
    if bytes.len() > 0 {
        let shorter = bytes.drop_last();
        assert(shorter + seq![bytes.last()] =~= bytes);
        utf8::lemma_prefix_shortens(shorter, seq![bytes.last()]);
        lemma_lines_are_text(shorter);
        if bytes.last() == NEWLINE {
            let line = open_line(shorter);
            lemma_open_line_is_one_line(shorter);
            lemma_closed_lines_are_text(shorter);
            lemma_closed_lines_are_text(bytes);
            let k = shorter.len() - line.len();
            assert(bytes.take(bytes.len() as int) =~= bytes);
            assert(bytes.subrange(0, k) =~= shorter.take(k));
            let tail = bytes.subrange(k, bytes.len() as int);
            assert(tail =~= line.push(NEWLINE));
            if !valid_utf8(tail) {
                partial_valid_partial_invalid_utf8(bytes, k);
            }
            is_char_boundary_iff_not_is_continuation_byte(tail, line.len() as int);
            valid_utf8_split(tail, line.len() as int);
            assert(tail.subrange(0, line.len() as int) =~= line);
            assert forall|i: int|
                #![trigger complete_lines(bytes)[i]]
                0 <= i < complete_lines(bytes).len() implies valid_utf8(complete_lines(bytes)[i])
                && one_line(complete_lines(bytes)[i]) by {
                if i < complete_lines(shorter).len() {
                    assert(complete_lines(bytes)[i] == complete_lines(shorter)[i]);
                } else {
                    assert(complete_lines(bytes)[i] == line);
                }
            }
        } else {
            assert(complete_lines(bytes) == complete_lines(shorter));
        }
    }
}

proof fn lemma_multibyte_is_no_newline(c: u32)
    by (bit_vector)
    requires
        c <= 0x10ffff,
    ensures
        c < 0x80 ==> leading_byte_width_1(c) == c,
        leading_byte_width_2(c) >= 0x80,
        leading_byte_width_3(c) >= 0x80,
        leading_byte_width_4(c) >= 0x80,
        last_continuation_byte(c) >= 0x80,
        second_last_continuation_byte(c) >= 0x80,
        third_last_continuation_byte(c) >= 0x80,
{
}

proof fn lemma_newline_code(c: char)
    requires
        c != '\n',
    ensures
        c as u32 != NEWLINE,
        c as u32 <= 0x10ffff,
{
}

/// The encoding of a text holds a newline byte exactly where the text holds a newline.
pub proof fn lemma_newline_encodes(text: Seq<char>)
    ensures
        one_line(encode_utf8(text)) <==> !text.contains('\n'),
    decreases text.len(),
{
    if text.len() > 0 {
        let c = text[0] as u32;
        let rest = text.drop_first();
        lemma_newline_encodes(rest);
        char_is_scalar(text[0]);
        lemma_multibyte_is_no_newline(c);
        let head = encode_scalar(c);
        let tail = encode_utf8(rest);
        assert(text =~= seq![text[0]] + rest);
        assert(encode_utf8(text) == head + tail);
        if text[0] == '\n' {
            assert(encode_utf8(text)[0] == NEWLINE);
            assert(text.contains('\n'));
        } else {
            lemma_newline_code(text[0]);
            assert(one_line(head));
            if one_line(tail) {
                assert(one_line(head + tail));
                if text.contains('\n') {
                    let i = choose|i: int| 0 <= i < text.len() && text[i] == '\n';
                    assert(rest[i - 1] == '\n');
                }
            } else {
                let j = choose|j: int| 0 <= j < tail.len() && tail[j] == NEWLINE;
                assert((head + tail)[head.len() + j] == NEWLINE);
                let i = choose|i: int| 0 <= i < rest.len() && rest[i] == '\n';
                assert(text[i + 1] == '\n');
            }
        }
    }
}

/// Where the output is cut into pieces does not matter: taking `a` and then `b` succeeds exactly
/// when taking both at once does, and yields the same messages and the same open line.
pub proof fn splitting_ignores_piece_boundaries(pending: Seq<u8>, a: Seq<u8>, b: Seq<u8>)
    ensures
        utf8::utf8_prefix(pending + (a + b)) <==> utf8::utf8_prefix(pending + a) && utf8::utf8_prefix(
            open_line(pending + a) + b,
        ),
        messages(pending + (a + b)) == messages(pending + a) + messages(
            open_line(pending + a) + b,
        ),
        open_line(pending + (a + b)) == open_line(open_line(pending + a) + b),
{
    let x = pending + a;
    assert(pending + (a + b) =~= x + b);
    lemma_lines_append(x, b);
    lemma_line_messages_append(complete_lines(x), complete_lines(open_line(x) + b));
    if utf8::utf8_prefix(x + b) {
        utf8::lemma_prefix_shortens(x, b);
    }
    if utf8::utf8_prefix(x) {
        lemma_closed_lines_are_text(x);
        let head = x.take(x.len() - open_line(x).len());
        assert(x + b =~= head + (open_line(x) + b));
        utf8::lemma_prefix_skips(head, open_line(x) + b);
    }
}

/// Output may end exactly where it is empty or its last line is terminated: whatever follows the
/// last newline, be it a part of a character, is left open.
pub proof fn output_ends_after_a_newline(bytes: Seq<u8>)
    ensures
        open_line(bytes).len() == 0 <==> bytes.len() == 0 || bytes.last() == NEWLINE,
{
}

/// What comes of taking the given pieces one after the other when `pending` is the open line: the
/// messages and the open line that is left, or `None` if a piece is refused.
pub open spec fn received(pending: Seq<u8>, pieces: Seq<Seq<u8>>) -> Option<
    (Seq<Seq<char>>, Seq<u8>),
>
    decreases pieces.len(),
{
    if pieces.len() == 0 {
        Some((Seq::empty(), pending))
    } else if utf8::utf8_prefix(pending + pieces[0]) {
        match received(open_line(pending + pieces[0]), pieces.drop_first()) {
            Some((later, left)) => Some((messages(pending + pieces[0]) + later, left)),
            None => None,
        }
    } else {
        None
    }
}

/// Taking any number of pieces one after the other is like taking them all at once.
pub proof fn pieces_are_split_like_their_whole(pending: Seq<u8>, pieces: Seq<Seq<u8>>)
    requires
        one_line(pending),
        utf8::utf8_prefix(pending),
    ensures
        received(pending, pieces) == if utf8::utf8_prefix(pending + pieces.flatten()) {
            Some((messages(pending + pieces.flatten()), open_line(pending + pieces.flatten())))
        } else {
            None
        },
    decreases pieces.len(),
{
    if pieces.len() == 0 {
        assert(pending + pieces.flatten() =~= pending);
        lemma_one_line(pending);
        assert(messages(pending) =~= Seq::<Seq<char>>::empty());
    } else {
        let first = pieces[0];
        let rest = pieces.drop_first();
        assert(pieces.flatten() == first + rest.flatten());
        splitting_ignores_piece_boundaries(pending, first, rest.flatten());
        let x = pending + first;
        if utf8::utf8_prefix(x) {
            lemma_closed_lines_are_text(x);
            lemma_open_line_is_one_line(x);
            let head = x.take(x.len() - open_line(x).len());
            assert(head + open_line(x) =~= x);
            utf8::lemma_prefix_skips(head, open_line(x));
            pieces_are_split_like_their_whole(open_line(x), rest);
        }
    }
}

/// Every message that the output yields is a non-empty text without a newline.
pub proof fn split_messages_are_messages(bytes: Seq<u8>)
    requires
        utf8::utf8_prefix(bytes),
    ensures
        forall|i: int| 0 <= i < messages(bytes).len() ==> is_message(#[trigger] messages(bytes)[i]),
{
    let lines = complete_lines(bytes);
    let keep = |line: Seq<u8>| line.len() > 0;
    let kept = lines.filter(keep);
    lemma_lines_are_text(bytes);
    assert forall|i: int| 0 <= i < messages(bytes).len() implies is_message(
        #[trigger] messages(bytes)[i],
    ) by {
        let line = kept[i];
        lines.lemma_filter_pred(keep, i);
        lemma_filter_keeps(lines, keep, i);
        let j = choose|j: int| 0 <= j < lines.len() && lines[j] == line;
        assert(valid_utf8(lines[j]));
        decode_utf8_encode_utf8(line);
        lemma_newline_encodes(decode_utf8(line));
    }
}

/// A filtered sequence only holds elements of the sequence it was taken from.
proof fn lemma_filter_keeps<A>(items: Seq<A>, keep: spec_fn(A) -> bool, i: int)
    requires
        0 <= i < items.filter(keep).len(),
    ensures
        exists|j: int| 0 <= j < items.len() && items[j] == items.filter(keep)[i],
    decreases items.len(),
{
    reveal(Seq::filter);
    if items.len() > 0 {
        let shorter = items.drop_last();
        if i < shorter.filter(keep).len() {
            lemma_filter_keeps(shorter, keep, i);
            let j = choose|j: int| 0 <= j < shorter.len() && shorter[j] == shorter.filter(keep)[i];
            assert(items[j] == items.filter(keep)[i]);
        } else {
            assert(items[items.len() - 1] == items.filter(keep)[i]);
        }
    }
}

/// A message on a line of its own is one complete line, and text.
proof fn lemma_message_line(message: Seq<char>)
    requires
        is_message(message),
    ensures
        valid_utf8(message_line(message)),
        encode_utf8(message).len() > 0,
        complete_lines(message_line(message)) == seq![encode_utf8(message)],
        open_line(message_line(message)) == Seq::<u8>::empty(),
{
    let line = encode_utf8(message);
    lemma_newline_encodes(message);
    lemma_one_line(line);
    encode_utf8_valid_utf8(message);
    assert(line.len() > 0) by {
        encode_utf8_first_scalar(message);
    }
    let end: Seq<u8> = seq![NEWLINE];
    assert(valid_utf8(end)) by {
        reveal_with_fuel(valid_utf8, 2);
    }
    valid_utf8_concat(line, end);
    assert(line + end =~= message_line(message));
    assert(message_line(message).drop_last() =~= line);
    assert(complete_lines(message_line(message)) =~= seq![line]);
}

/// A message on a line of its own is received after the messages of the lines before it.
proof fn lemma_one_more_message(front: Seq<u8>, message: Seq<char>)
    requires
        is_message(message),
        open_line(front) == Seq::<u8>::empty(),
    ensures
        messages(front + message_line(message)) == messages(front).push(message),
        open_line(front + message_line(message)) == Seq::<u8>::empty(),
{
    let line = encode_utf8(message);
    lemma_message_line(message);
    lemma_lines_append(front, message_line(message));
    assert(open_line(front) + message_line(message) =~= message_line(message));
    assert(complete_lines(front + message_line(message)) =~= complete_lines(front).push(line));
    lemma_line_messages_push(complete_lines(front), line);
    encode_utf8_decode_utf8(message);
}

/// Messages that are sent each on a line of its own are received as they were sent, and nothing
/// is left over.
pub proof fn messages_come_back(sent: Seq<Seq<char>>)
    requires
        forall|i: int| 0 <= i < sent.len() ==> is_message(#[trigger] sent[i]),
    ensures
        valid_utf8(message_lines(sent)),
        messages(message_lines(sent)) == sent,
        open_line(message_lines(sent)) == Seq::<u8>::empty(),
    decreases sent.len(),
{
    if sent.len() == 0 {
        assert(messages(message_lines(sent)) =~= sent);
    } else {
        let before = sent.drop_last();
        assert(is_message(sent[sent.len() - 1]));
        messages_come_back(before);
        lemma_message_line(sent.last());
        valid_utf8_concat(message_lines(before), message_line(sent.last()));
        lemma_one_more_message(message_lines(before), sent.last());
        assert(before.push(sent.last()) =~= sent);
    }
}

/// Bytes are their lines and what is left open: the lines, each with its newline behind it, and
/// then the open line are the bytes again, and neither a line nor the open line holds a newline.
pub proof fn bytes_are_their_lines(bytes: Seq<u8>)
    ensures
        bytes == complete_lines(bytes).map_values(|line: Seq<u8>| line.push(10u8)).flatten()
            + open_line(bytes),
        forall|k: int, i: int|
            0 <= k < complete_lines(bytes).len() && 0 <= i < complete_lines(bytes)[k].len()
                ==> #[trigger] complete_lines(bytes)[k][i] != 10,
        forall|i: int| 0 <= i < open_line(bytes).len() ==> #[trigger] open_line(bytes)[i] != 10,
    decreases bytes.len(),
{
    let end = |line: Seq<u8>| line.push(10u8);
    let lines = complete_lines(bytes);
    lemma_open_line_is_one_line(bytes);
    if bytes.len() == 0 {
        assert(lines.map_values(end).flatten() =~= Seq::<u8>::empty());
    } else {
        let front = bytes.drop_last();
        let earlier = complete_lines(front);
        bytes_are_their_lines(front);
        assert(front.push(bytes.last()) =~= bytes);
        if bytes.last() == NEWLINE {
            let line = open_line(front);
            assert(lines.map_values(end) =~= earlier.map_values(end).push(line.push(10u8)));
            earlier.map_values(end).lemma_flatten_push(line.push(10u8));
            assert(bytes =~= lines.map_values(end).flatten() + open_line(bytes));
            assert forall|k: int, i: int|
                0 <= k < lines.len() && 0 <= i < lines[k].len() implies #[trigger] lines[k][i]
                != 10 by {
                if k < earlier.len() {
                    assert(lines[k] == earlier[k]);
                    assert(earlier[k][i] != 10);
                } else {
                    assert(line[i] != 10);
                }
            }
        } else {
            assert(bytes =~= lines.map_values(end).flatten() + open_line(bytes));
        }
    }
}

/// Each line of text in the agent's output is one message, as it is: nothing is taken off it but
/// the newline. An empty line is none, and a line without its newline is none yet.
pub proof fn each_line_is_one_message(front: Seq<u8>, line: Seq<char>, open: Seq<u8>)
    requires
        front.len() == 0 || front.last() == 10,
        forall|i: int| 0 <= i < line.len() ==> #[trigger] line[i] != '\n',
        forall|i: int| 0 <= i < open.len() ==> #[trigger] open[i] != 10,
    ensures
        line.len() > 0 ==> messages(front + encode_utf8(line).push(10u8)) == messages(front).push(
            line,
        ),
        messages(front.push(10u8)) == messages(front),
        messages(front + open) == messages(front),
        messages(Seq::empty()) == Seq::<Seq<char>>::empty(),
{
    assert(open_line(front) =~= Seq::<u8>::empty());
    if line.len() > 0 {
        assert(is_message(line));
        lemma_one_more_message(front, line);
    }
    let none = Seq::<u8>::empty();
    assert(front.push(10u8).drop_last() =~= front);
    lemma_line_messages_push(complete_lines(front), none);
    lemma_lines_append(front, open);
    assert(none + open =~= open);
    assert(open_line(front) + open =~= open);
    lemma_one_line(open);
    assert(complete_lines(front + open) =~= complete_lines(front));
    assert(messages(none) =~= Seq::<Seq<char>>::empty());
}

/// Messages that are written one behind the other, each with a newline behind it, are the messages
/// that are read, and nothing is left over. `sent` are texts that are not empty and hold no
/// newline.
pub proof fn written_messages_are_read_back(sent: Seq<Seq<char>>)
    requires
        forall|i: int| 0 <= i < sent.len() ==> (#[trigger] sent[i]).len() > 0,
        forall|i: int, k: int|
            0 <= i < sent.len() && 0 <= k < sent[i].len() ==> #[trigger] sent[i][k] != '\n',
    ensures
        messages(
            sent.map_values(|message: Seq<char>| encode_utf8(message).push(10u8)).flatten(),
        ) == sent,
        open_line(
            sent.map_values(|message: Seq<char>| encode_utf8(message).push(10u8)).flatten(),
        ).len() == 0,
    decreases sent.len(),
{
    let on_line = |message: Seq<char>| encode_utf8(message).push(10u8);
    let lines = sent.map_values(on_line);
    if sent.len() == 0 {
        assert(lines.flatten() =~= Seq::<u8>::empty());
        assert(messages(lines.flatten()) =~= sent);
    } else {
        let earlier = sent.drop_last();
        assert forall|i: int, k: int|
            0 <= i < earlier.len() && 0 <= k < earlier[i].len() implies #[trigger] earlier[i][k]
            != '\n' by {
            assert(sent[i][k] != '\n');
        }
        assert forall|i: int| 0 <= i < earlier.len() implies (#[trigger] earlier[i]).len() > 0 by {
            assert(sent[i].len() > 0);
        }
        written_messages_are_read_back(earlier);
        let front = earlier.map_values(on_line);
        let last = sent.last();
        assert(sent[sent.len() - 1].len() > 0);
        assert(is_message(last)) by {
            if last.contains('\n') {
                let k = choose|k: int| 0 <= k < last.len() && last[k] == '\n';
                assert(sent[sent.len() - 1][k] != '\n');
            }
        }
        assert(lines =~= front.push(on_line(last)));
        front.lemma_flatten_push(on_line(last));
        assert(open_line(front.flatten()) =~= Seq::<u8>::empty());
        lemma_one_more_message(front.flatten(), last);
        assert(earlier.push(last) =~= sent);
    }
}

} // verus!
