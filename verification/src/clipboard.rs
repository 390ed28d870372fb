//! Clipboard synchronisation.
//!
//! The local clipboard is polled, and what has changed is shared. What was set from
//! outside is recognised when it is read, so that it is not sent back.
use crate::events::ClipboardData;
use crate::text::{characters, matches_at};
use std::collections::hash_map::DefaultHasher;
use std::hash::Hasher;
use vstd::prelude::*;
use vstd::std_specs::hash::DefaultHasherAdditionalSpecFns;
use vstd::string::StrSliceExecFns;

verus! {

/// The most bytes of a clipboard that are shared.
pub const MAX_CLIPBOARD_SIZE: usize = 1_048_576;

/// How long to wait between two polls of the clipboard.
pub const POLL_MILLIS: u64 = 500;

/// How much longer to wait after the clipboard was set from outside.
pub const SETTLE_MILLIS: u64 = 200;

/// The end of the first line of a text: the position of its first newline, or the
/// end of the text.
pub open spec fn line_end(text: Seq<char>) -> int
    decreases text.len(),
{
    if text.len() == 0 || text[0] == '\n' {
        0
    } else {
        1 + line_end(text.skip(1))
    }
}

/// A line without the carriage return before its newline.
pub open spec fn without_return(line: Seq<char>) -> Seq<char> {
    if line.len() > 0 && line.last() == '\r' {
        line.drop_last()
    } else {
        line
    }
}

/// The lines of a text. Each ends with a newline, or with a carriage return and a
/// newline, which do not belong to it; the last one may go without.
pub open spec fn lines_of(text: Seq<char>) -> Seq<Seq<char>>
    decreases text.len(),
    via lines_of_decreases
{
    let end = line_end(text);
    if text.len() == 0 {
        seq![]
    } else if end >= text.len() {
        seq![text]
    } else {
        seq![without_return(text.take(end))] + lines_of(text.skip(end + 1))
    }
}

#[via_fn]
proof fn lines_of_decreases(text: Seq<char>) {
    lemma_line_end(text);
}

proof fn lemma_line_end(text: Seq<char>)
    ensures
        0 <= line_end(text) <= text.len(),
        forall|i: int| 0 <= i < line_end(text) ==> #[trigger] text[i] != '\n',
        line_end(text) < text.len() ==> text[line_end(text)] == '\n',
    decreases text.len(),
{
    if text.len() > 0 && text[0] != '\n' {
        let rest = text.skip(1);
        lemma_line_end(rest);
        assert forall|i: int| 0 <= i < line_end(text) implies #[trigger] text[i] != '\n' by {
            if i > 0 {
                assert(rest[i - 1] == text[i]);
            }
        }
        if line_end(rest) < rest.len() {
            assert(rest[line_end(rest)] == text[line_end(text)]);
        }
    }
}

proof fn lemma_line_end_is(text: Seq<char>, end: int)
    requires
        0 <= end <= text.len(),
        forall|i: int| 0 <= i < end ==> #[trigger] text[i] != '\n',
        end < text.len() ==> text[end] == '\n',
    ensures
        line_end(text) == end,
{
    lemma_line_end(text);
    let found = line_end(text);
    if found < end {
        assert(text[found] != '\n');
    } else if end < found {
        assert(text[end] != '\n');
    }
}

/// The parts of a text that its lines are.
pub open spec fn parts(text: Seq<char>, ranges: Seq<(usize, usize)>) -> Seq<Seq<char>> {
    ranges.map_values(|range: (usize, usize)| text.subrange(range.0 as int, range.1 as int))
}

/// Finds the lines of a text.
fn line_ranges(text: &Vec<char>) -> (r: Vec<(usize, usize)>)
    ensures
        forall|i: int| 0 <= i < r@.len() ==> (#[trigger] r@[i]).0 <= r@[i].1 <= text@.len(),
        parts(text@, r@) == lines_of(text@),
{
    let mut ranges: Vec<(usize, usize)> = Vec::new();
    let mut start: usize = 0;
    assert(text@.skip(0) =~= text@);
    assert(parts(text@, ranges@) + lines_of(text@) =~= lines_of(text@));
    while start < text.len()
        invariant
            start <= text@.len(),
            forall|i: int|
                0 <= i < ranges@.len() ==> (#[trigger] ranges@[i]).0 <= ranges@[i].1
                    <= text@.len(),
            parts(text@, ranges@) + lines_of(text@.skip(start as int)) == lines_of(text@),
        decreases text@.len() - start,
    {
        let ghost rest = text@.skip(start as int);
        let ghost before = ranges@;
        let mut end: usize = start;
        while end < text.len() && text[end] != '\n'
            invariant
                start <= end <= text@.len(),
                rest == text@.skip(start as int),
                forall|i: int| 0 <= i < end - start ==> #[trigger] rest[i] != '\n',
            decreases text@.len() - end,
        {
            end += 1;
        }
        proof {
            lemma_line_end_is(rest, end - start);
        }
        if end < text.len() {
            let last: usize = if end > start && text[end - 1] == '\r' {
                end - 1
            } else {
                end
            };
            ranges.push((start, last));
            proof {
                let line = text@.subrange(start as int, last as int);
                assert(without_return(rest.take(end - start)) =~= line);
                assert(parts(text@, ranges@) =~= parts(text@, before).push(line));
                assert(rest.skip(end - start + 1) =~= text@.skip(end + 1));
                assert(parts(text@, ranges@) + lines_of(text@.skip(end + 1)) =~= parts(
                    text@,
                    before,
                ) + lines_of(rest));
            }
            start = end + 1;
        } else {
            ranges.push((start, end));
            proof {
                let line = text@.subrange(start as int, end as int);
                assert(rest =~= line);
                assert(parts(text@, ranges@) =~= parts(text@, before).push(line));
                assert(text@.skip(end as int) =~= Seq::<char>::empty());
                assert(parts(text@, ranges@) + lines_of(text@.skip(end as int)) =~= parts(
                    text@,
                    before,
                ) + lines_of(rest));
            }
            start = end;
        }
    }
    assert(text@.skip(start as int) =~= Seq::<char>::empty());
    assert(parts(text@, ranges@) + lines_of(text@.skip(start as int)) =~= parts(text@, ranges@));
    ranges
}

/// The types of content that are shared.
pub open spec fn is_shared_type(mime_type: Seq<char>) -> bool {
    ||| "text/"@.is_prefix_of(mime_type)
    ||| "image/"@.is_prefix_of(mime_type)
    ||| mime_type == "UTF8_STRING"@
    ||| mime_type == "STRING"@
}

/// The first type that is shared.
pub open spec fn first_shared(types: Seq<Seq<char>>) -> Option<Seq<char>>
    decreases types.len(),
{
    if types.len() == 0 {
        None
    } else if is_shared_type(types[0]) {
        Some(types[0])
    } else {
        first_shared(types.skip(1))
    }
}

/// The type to read a clipboard as that offers these types: plain text if it is
/// offered, else the first type that is shared, else plain text after all.
pub open spec fn preferred(types: Seq<Seq<char>>) -> Seq<char> {
    if types.contains("text/plain"@) {
        "text/plain"@
    } else {
        match first_shared(types) {
            Some(mime_type) => mime_type,
            None => "text/plain"@,
        }
    }
}

/// Whether a part of a text is a word.
fn equals_at(text: &Vec<char>, from: usize, to: usize, word: &str) -> (r: bool)
    requires
        from <= to <= text@.len(),
    ensures
        r == (text@.subrange(from as int, to as int) == word@),
{
    let letters = characters(word);
    let r = to - from == letters.len() && matches_at(text, from, to, &letters);
    proof {
        let part = text@.subrange(from as int, to as int);
        if r {
            assert(part.subrange(0, letters@.len() as int) =~= part);
        } else if part == word@ {
            assert(part.subrange(0, letters@.len() as int) =~= part);
        }
    }
    r
}

/// Whether a part of a text is a type that is shared.
fn shared_at(text: &Vec<char>, from: usize, to: usize) -> (r: bool)
    requires
        from <= to <= text@.len(),
    ensures
        r == is_shared_type(text@.subrange(from as int, to as int)),
{
    matches_at(text, from, to, &characters("text/")) || matches_at(
        text,
        from,
        to,
        &characters("image/"),
    ) || equals_at(text, from, to, "UTF8_STRING") || equals_at(text, from, to, "STRING")
}

/// Chooses the type to read the clipboard as from a list of the types that it
/// offers, one to a line.
pub fn choose_type_of(listing: &str) -> (r: String)
    ensures
        r@ == preferred(lines_of(listing@)),
{
    let text = characters(listing);
    let ranges = line_ranges(&text);
    let ghost types = lines_of(listing@);
    let mut first: Option<(usize, usize)> = None;
    let mut i: usize = 0;
    assert(types.skip(0) =~= types);
    while i < ranges.len()
        invariant
            i <= ranges@.len(),
            text@ == listing@,
            types == lines_of(listing@),
            types == parts(text@, ranges@),
            forall|k: int|
                0 <= k < ranges@.len() ==> (#[trigger] ranges@[k]).0 <= ranges@[k].1
                    <= text@.len(),
            first matches Some(range) ==> range.0 <= range.1 <= text@.len(),
            forall|k: int| 0 <= k < i ==> #[trigger] types[k] != "text/plain"@,
            first_shared(types) == (match first {
                Some(range) => Some(listing@.subrange(range.0 as int, range.1 as int)),
                None => first_shared(types.skip(i as int)),
            }),
        decreases ranges@.len() - i,
    {
        let (from, to) = ranges[i];
        assert(types[i as int] == text@.subrange(from as int, to as int));
        if equals_at(&text, from, to, "text/plain") {
            assert(types[i as int] == "text/plain"@);
            assert(types.contains("text/plain"@));
            return "text/plain".to_owned();
        }
        assert(types.skip(i as int)[0] == types[i as int]);
        assert(types.skip(i as int).skip(1) =~= types.skip(i + 1));
        if first.is_none() && shared_at(&text, from, to) {
            first = Some((from, to));
        }
        i += 1;
    }
    assert(!types.contains("text/plain"@));
    assert(types.skip(i as int) =~= seq![]);
    match first {
        Some((from, to)) => listing.substring_char(from, to).to_owned(),
        None => "text/plain".to_owned(),
    }
}

/// The text that bytes are taken to be, with replacements for what is no UTF-8.
pub uninterp spec fn lossy_text(bytes: Seq<u8>) -> Seq<char>;

/// Calls `String::from_utf8_lossy`. The text depends on the bytes alone, and is the
/// text that they encode where they are valid UTF-8.
#[verifier::external_body]
pub(crate) fn utf8_lossy(bytes: &[u8]) -> (r: String)
    ensures
        r@ == lossy_text(bytes@),
        vstd::utf8::valid_utf8(bytes@) ==> r@ == vstd::utf8::decode_utf8(bytes@),
{
    String::from_utf8_lossy(bytes).into_owned()
}

/// Chooses the type to read the clipboard as, from what the command that lists its
/// types has printed. There is none if that command failed.
pub fn choose_type(listed: bool, output: &[u8]) -> (r: Option<String>)
    ensures
        r is Some <==> listed,
        r matches Some(mime_type) ==> mime_type@ == preferred(lines_of(lossy_text(output@))),
        r matches Some(mime_type) ==> vstd::utf8::valid_utf8(output@) ==> mime_type@ == preferred(
            lines_of(vstd::utf8::decode_utf8(output@)),
        ),
{
    if !listed {
        return None;
    }
    let listing = utf8_lossy(output);
    Some(choose_type_of(listing.as_str()))
}

/// Whether what was read of a clipboard is shared: it is not empty, and not too
/// large.
pub open spec fn is_shared_size(len: nat) -> bool {
    0 < len <= MAX_CLIPBOARD_SIZE
}

/// The contents of the clipboard, from what the command that reads it has printed.
pub fn read_clipboard(mime_type: String, read: bool, output: Vec<u8>) -> (r: Option<ClipboardData>)
    ensures
        r == (if read && is_shared_size(output@.len()) {
            Some(ClipboardData { mime_type, data: output })
        } else {
            None
        }),
        r is Some <==> read && 0 < output@.len() <= 1_048_576,
        r matches Some(data) ==> data.mime_type == mime_type && data.data == output,
{
    if !read || output.is_empty() {
        return None;
    }
    if output.len() > MAX_CLIPBOARD_SIZE {
        return None;
    }
    Some(ClipboardData { mime_type, data: output })
}

/// The eight bytes of a number, the lowest first.
pub open spec fn length_bytes(n: nat) -> Seq<u8> {
    seq![
        (n % 0x100) as u8,
        (n / 0x100 % 0x100) as u8,
        (n / 0x1_0000 % 0x100) as u8,
        (n / 0x100_0000 % 0x100) as u8,
        (n / 0x1_0000_0000 % 0x100) as u8,
        (n / 0x100_0000_0000 % 0x100) as u8,
        (n / 0x1_0000_0000_0000 % 0x100) as u8,
        (n / 0x100_0000_0000_0000 % 0x100) as u8,
    ]
}

/// The hash by which changes of a clipboard are noticed: that of its length and of
/// its bytes.
pub open spec fn content_hash(data: Seq<u8>) -> u64 {
    DefaultHasher::spec_finish(seq![length_bytes(data.len()), data])
}

/// The number that eight bytes stand for, the lowest first.
pub open spec fn little_endian(bytes: Seq<u8>) -> int
    recommends
        bytes.len() == 8,
{
    bytes[0] + 0x100 * (bytes[1] + 0x100 * (bytes[2] + 0x100 * (bytes[3] + 0x100 * (bytes[4] + 0x100
        * (bytes[5] + 0x100 * (bytes[6] + 0x100 * bytes[7]))))))
}

/// The byte of a number above its lower digits.
proof fn lemma_byte_above(n: int, unit: int, low: int, byte: int, high: int)
    requires
        unit > 0,
        0 <= low < unit,
        0 <= byte < 0x100,
        n == low + unit * (byte + 0x100 * high),
    ensures
        n / unit % 0x100 == byte,
{
    let quotient = byte + 0x100 * high;
    assert(n == quotient * unit + low) by (nonlinear_arith)
        requires
            n == low + unit * quotient,
    ;
    vstd::arithmetic::div_mod::lemma_fundamental_div_mod_converse(n, unit, quotient, low);
}

proof fn lemma_length_bytes(n: nat, bytes: Seq<u8>)
    requires
        bytes.len() == 8,
        little_endian(bytes) == n,
    ensures
        length_bytes(n) == bytes,
{
    let b = |i: int| bytes[i] as int;
    let high6 = b(6) + 0x100 * b(7);
    let high5 = b(5) + 0x100 * high6;
    let high4 = b(4) + 0x100 * high5;
    let high3 = b(3) + 0x100 * high4;
    let high2 = b(2) + 0x100 * high3;
    let high1 = b(1) + 0x100 * high2;
    let low1 = b(0);
    let low2 = low1 + 0x100 * b(1);
    let low3 = low2 + 0x1_0000 * b(2);
    let low4 = low3 + 0x100_0000 * b(3);
    let low5 = low4 + 0x1_0000_0000 * b(4);
    let low6 = low5 + 0x100_0000_0000 * b(5);
    let low7 = low6 + 0x1_0000_0000_0000 * b(6);
    lemma_byte_above(n as int, 1, 0, b(0), high1);
    lemma_byte_above(n as int, 0x100, low1, b(1), high2);
    lemma_byte_above(n as int, 0x1_0000, low2, b(2), high3);
    lemma_byte_above(n as int, 0x100_0000, low3, b(3), high4);
    lemma_byte_above(n as int, 0x1_0000_0000, low4, b(4), high5);
    lemma_byte_above(n as int, 0x100_0000_0000, low5, b(5), high6);
    lemma_byte_above(n as int, 0x1_0000_0000_0000, low6, b(6), b(7));
    lemma_byte_above(n as int, 0x100_0000_0000_0000, low7, b(7), 0);
    assert(length_bytes(n) =~= bytes);
}

/// The hash is that of the whole contents: it is what the hasher gives for their length, as
/// eight bytes with the lowest first, and for all of their bytes.
pub proof fn law_hash_is_of_the_whole(data: Seq<u8>, length: Seq<u8>)
    requires
        length.len() == 8,
        little_endian(length) == data.len(),
    ensures
        content_hash(data) == DefaultHasher::spec_finish(seq![length, data]),
{
    lemma_length_bytes(data.len(), length);
}

/// No change escapes the hasher: contents that differ, in a byte anywhere or in their
/// length, are written to it differently, and the hash of each is what it gives for what
/// was written.
pub proof fn law_hasher_sees_every_change(
    first: Seq<u8>,
    first_length: Seq<u8>,
    second: Seq<u8>,
    second_length: Seq<u8>,
)
    requires
        first_length.len() == 8,
        second_length.len() == 8,
        little_endian(first_length) == first.len(),
        little_endian(second_length) == second.len(),
        first != second,
    ensures
        seq![first_length, first] != seq![second_length, second],
        content_hash(first) == DefaultHasher::spec_finish(seq![first_length, first]),
        content_hash(second) == DefaultHasher::spec_finish(seq![second_length, second]),
{
    law_hash_is_of_the_whole(first, first_length);
    law_hash_is_of_the_whole(second, second_length);
    assert(seq![first_length, first][1] == first);
    assert(seq![second_length, second][1] == second);
}

/// A simple hash for change detection.
pub fn hash_data(data: &[u8]) -> (r: u64)
    ensures
        r == content_hash(data@),
        r == DefaultHasher::spec_finish(
            seq![
                seq![
                    (data@.len() % 0x100) as u8,
                    (data@.len() / 0x100 % 0x100) as u8,
                    (data@.len() / 0x1_0000 % 0x100) as u8,
                    (data@.len() / 0x100_0000 % 0x100) as u8,
                    (data@.len() / 0x1_0000_0000 % 0x100) as u8,
                    (data@.len() / 0x100_0000_0000 % 0x100) as u8,
                    (data@.len() / 0x1_0000_0000_0000 % 0x100) as u8,
                    (data@.len() / 0x100_0000_0000_0000 % 0x100) as u8,
                ],
                data@,
            ],
        ),
{
    let n: u64 = data.len() as u64;
    let length: [u8; 8] = [
        (n % 0x100) as u8,
        (n / 0x100 % 0x100) as u8,
        (n / 0x1_0000 % 0x100) as u8,
        (n / 0x100_0000 % 0x100) as u8,
        (n / 0x1_0000_0000 % 0x100) as u8,
        (n / 0x100_0000_0000 % 0x100) as u8,
        (n / 0x1_0000_0000_0000 % 0x100) as u8,
        (n / 0x100_0000_0000_0000 % 0x100) as u8,
    ];
    assert(length@ =~= length_bytes(data@.len()));
    let mut hasher = DefaultHasher::new();
    hasher.write(&length);
    hasher.write(data);
    assert(hasher@ =~= seq![length_bytes(data@.len()), data@]);
    hasher.finish()
}

/// What the tasks that set and that watch the local clipboard share.
#[derive(Debug, Clone, Copy, PartialEq, Eq, Structural)]
pub struct ClipboardManager {
    /// Whether the next poll of the clipboard is left out, because the clipboard is set
    /// from outside.
    pub suppress_next: bool,
    /// The hash of what the clipboard is being set to.
    pub setting: Option<u64>,
    /// The hash of what the clipboard was set to, until a poll has read it or something
    /// else after it.
    pub set: Option<u64>,
    /// Whether the clipboard was set before the last poll began.
    pub landed: bool,
}

/// The manager when the local clipboard is to be set to `data`. Where that is empty the
/// clipboard is not set, and everything stays as it was.
pub open spec fn manager_after_set(before: ClipboardManager, data: Seq<u8>) -> ClipboardManager {
    if data.len() > 0 {
        ClipboardManager { suppress_next: true, setting: Some(content_hash(data)), ..before }
    } else {
        before
    }
}

/// The manager when the clipboard has been set, or could not be. In that case it holds what
/// it held before.
pub open spec fn manager_after_outcome(
    before: ClipboardManager,
    success: bool,
) -> ClipboardManager {
    if success && before.setting is Some {
        ClipboardManager { setting: None, set: before.setting, landed: false, ..before }
    } else {
        ClipboardManager { setting: None, ..before }
    }
}

/// The manager when a poll has begun.
pub open spec fn manager_after_poll(before: ClipboardManager) -> ClipboardManager {
    ClipboardManager { suppress_next: false, landed: before.set is Some, ..before }
}

/// Whether contents of the clipboard are what it was set to from outside.
pub open spec fn is_from_outside(
    manager: ClipboardManager,
    contents: Option<ClipboardData>,
) -> bool {
    contents matches Some(data) && {
        ||| manager.set == Some(content_hash(data.data@))
        ||| manager.setting == Some(content_hash(data.data@))
    }
}

/// The manager when contents of the clipboard have been read. What was set from outside is
/// forgotten once it was read, and once something else was read by a poll that began after
/// it was set.
pub open spec fn manager_after_read(
    before: ClipboardManager,
    contents: Option<ClipboardData>,
) -> ClipboardManager {
    let read = contents matches Some(data) && before.set == Some(content_hash(data.data@));
    let replaced = before.landed && !is_from_outside(before, contents);
    ClipboardManager {
        set: if read || replaced {
            None
        } else {
            before.set
        },
        ..before
    }
}

impl ClipboardManager {
    /// Starts with a clipboard that was not set.
    pub fn new() -> (r: Self)
        ensures
            r == (ClipboardManager {
                suppress_next: false,
                setting: None,
                set: None,
                landed: false,
            }),
    {
        ClipboardManager { suppress_next: false, setting: None, set: None, landed: false }
    }

    /// Decides whether to set the local clipboard to data from outside: yes, unless
    /// there is none. The next poll is then left out. What comes of it is told to
    /// `finish_set` before the clipboard is set again.
    pub fn set_clipboard(&mut self, data: &ClipboardData) -> (r: bool)
        ensures
            r == (data.data@.len() > 0),
            *final(self) == manager_after_set(*old(self), data.data@),
    {
        if data.data.is_empty() {
            return false;
        }
        self.suppress_next = true;
        self.setting = Some(hash_data(data.data.as_slice()));
        true
    }

    /// Takes in whether the clipboard that was to be set has been set.
    pub fn finish_set(&mut self, success: bool)
        ensures
            *final(self) == manager_after_outcome(*old(self), success),
    {
        if success && self.setting.is_some() {
            self.set = self.setting;
            self.landed = false;
        }
        self.setting = None;
    }

    /// Begins a poll, and tells whether it is left out. The next one is not, unless the
    /// clipboard is set again.
    pub fn take_suppression(&mut self) -> (r: bool)
        ensures
            r == old(self).suppress_next,
            *final(self) == manager_after_poll(*old(self)),
    {
        let r = self.suppress_next;
        self.suppress_next = false;
        self.landed = self.set.is_some();
        r
    }

    /// Tells whether the contents that a poll has read are what the clipboard was set to
    /// from outside.
    pub fn recognise(&mut self, contents: &Option<ClipboardData>) -> (r: bool)
        ensures
            r == is_from_outside(*old(self), *contents),
            *final(self) == manager_after_read(*old(self), *contents),
    {
        if let Some(data) = contents {
            let hash: u64 = hash_data(data.data.as_slice());
            let being_set = match self.setting {
                Some(known) => known == hash,
                None => false,
            };
            let was_set = match self.set {
                Some(known) => known == hash,
                None => false,
            };
            if was_set {
                self.set = None;
            }
            if was_set || being_set {
                return true;
            }
        }
        if self.landed {
            self.set = None;
        }
        false
    }
}

/// How far the watching of the clipboard has come.
#[derive(Debug, Clone, Copy, PartialEq, Eq, Structural)]
pub enum WatchPhase {
    Resting,
    Checking,
    Settling,
    Reading,
    Delivering,
    Stopped,
}

/// What came of the last action.
#[derive(Debug)]
pub enum WatchEvent {
    /// The time is up.
    Rested,
    /// Whether this poll is left out.
    Suppressed(bool),
    /// What the clipboard holds, if it can be shared, and whether the clipboard manager
    /// recognises it as what was set from outside.
    Read(Option<ClipboardData>, bool),
    /// The clipboard could not be read.
    ReadFailed,
    /// The change was passed on.
    Delivered,
    /// No one is there any more to pass changes on to.
    Closed,
}

/// What is to be done next.
#[derive(Debug)]
pub enum WatchAction {
    /// Wait for so many milliseconds.
    Rest(u64),
    /// Take the suppression from the clipboard manager.
    TakeSuppression,
    /// Read the clipboard, and let the clipboard manager recognise what was read.
    Read,
    /// Pass a change on.
    Deliver(ClipboardData),
    /// Nothing more.
    Stop,
}

/// The watching of the clipboard.
#[derive(Debug, Clone, Copy, PartialEq, Eq, Structural)]
pub struct ClipboardWatcher {
    /// The hash of what was read last, or 0 if there was nothing to share.
    pub last_hash: u64,
    pub phase: WatchPhase,
}

/// How the watching goes on, and what is to be done next. What is read is delivered if it
/// hashes otherwise than what was read last, unless it was set from outside. An event that
/// does not answer the pending action changes nothing, so that the action is asked for
/// again; after a delivery the clipboard is polled again unless it was the last.
pub open spec fn watched(before: ClipboardWatcher, event: WatchEvent) -> (
    ClipboardWatcher,
    WatchAction,
) {
    let rested = (
        ClipboardWatcher { phase: WatchPhase::Resting, ..before },
        WatchAction::Rest(POLL_MILLIS),
    );
    match before.phase {
        WatchPhase::Resting => if event is Rested {
            (
                ClipboardWatcher { phase: WatchPhase::Checking, ..before },
                WatchAction::TakeSuppression,
            )
        } else {
            rested
        },
        WatchPhase::Checking => match event {
            WatchEvent::Suppressed(true) => (
                ClipboardWatcher { phase: WatchPhase::Settling, ..before },
                WatchAction::Rest(SETTLE_MILLIS),
            ),
            WatchEvent::Suppressed(false) => (
                ClipboardWatcher { phase: WatchPhase::Reading, ..before },
                WatchAction::Read,
            ),
            _ => (before, WatchAction::TakeSuppression),
        },
        WatchPhase::Settling => if event is Rested {
            rested
        } else {
            (before, WatchAction::Rest(SETTLE_MILLIS))
        },
        WatchPhase::Reading => match event {
            WatchEvent::Read(Some(data), from_outside) => {
                let last_hash = content_hash(data.data@);
                if last_hash != before.last_hash && !from_outside {
                    (
                        ClipboardWatcher { phase: WatchPhase::Delivering, last_hash },
                        WatchAction::Deliver(data),
                    )
                } else {
                    (
                        ClipboardWatcher { phase: WatchPhase::Resting, last_hash },
                        WatchAction::Rest(POLL_MILLIS),
                    )
                }
            },
            WatchEvent::Read(None, _) => (
                ClipboardWatcher { phase: WatchPhase::Resting, last_hash: 0 },
                WatchAction::Rest(POLL_MILLIS),
            ),
            WatchEvent::ReadFailed => rested,
            _ => (before, WatchAction::Read),
        },
        WatchPhase::Delivering => if event is Closed {
            (ClipboardWatcher { phase: WatchPhase::Stopped, ..before }, WatchAction::Stop)
        } else {
            rested
        },
        WatchPhase::Stopped => (before, WatchAction::Stop),
    }
}

impl ClipboardWatcher {
    /// Begins to watch. The first action is to wait for `POLL_MILLIS`.
    pub fn new() -> (r: Self)
        ensures
            r == (ClipboardWatcher { last_hash: 0, phase: WatchPhase::Resting }),
    {
        ClipboardWatcher { last_hash: 0, phase: WatchPhase::Resting }
    }

    fn rest(&mut self) -> (r: WatchAction)
        ensures
            *final(self) == (ClipboardWatcher { phase: WatchPhase::Resting, ..*old(self) }),
            r == WatchAction::Rest(POLL_MILLIS),
    {
        self.phase = WatchPhase::Resting;
        WatchAction::Rest(POLL_MILLIS)
    }

    /// Takes in what came of the pending action, and says what is to be done next.
    pub fn advance(&mut self, event: WatchEvent) -> (r: WatchAction)
        ensures
            (*final(self), r) == watched(*old(self), event),
    {
        match self.phase {
            WatchPhase::Resting => match event {
                WatchEvent::Rested => {
                    self.phase = WatchPhase::Checking;
                    WatchAction::TakeSuppression
                },
                _ => self.rest(),
            },
            WatchPhase::Checking => match event {
                WatchEvent::Suppressed(true) => {
                    self.phase = WatchPhase::Settling;
                    WatchAction::Rest(SETTLE_MILLIS)
                },
                WatchEvent::Suppressed(false) => {
                    self.phase = WatchPhase::Reading;
                    WatchAction::Read
                },
                _ => WatchAction::TakeSuppression,
            },
            WatchPhase::Settling => match event {
                WatchEvent::Rested => self.rest(),
                _ => WatchAction::Rest(SETTLE_MILLIS),
            },
            WatchPhase::Reading => match event {
                WatchEvent::Read(contents, from_outside) => match contents {
                    Some(data) => {
                        let hash: u64 = hash_data(data.data.as_slice());
                        let changed = hash != self.last_hash;
                        self.last_hash = hash;
                        if changed && !from_outside {
                            self.phase = WatchPhase::Delivering;
                            WatchAction::Deliver(data)
                        } else {
                            self.rest()
                        }
                    },
                    None => {
                        self.last_hash = 0;
                        self.rest()
                    },
                },
                WatchEvent::ReadFailed => self.rest(),
                _ => WatchAction::Read,
            },
            WatchPhase::Delivering => match event {
                WatchEvent::Closed => {
                    self.phase = WatchPhase::Stopped;
                    WatchAction::Stop
                },
                _ => self.rest(),
            },
            WatchPhase::Stopped => WatchAction::Stop,
        }
    }
}

/// What did not change is not shared again: once data was delivered, a clipboard
/// that holds the same bytes at the next poll brings no delivery.
pub proof fn law_unchanged_is_not_shared_again(
    reading: ClipboardWatcher,
    data: ClipboardData,
    same: ClipboardData,
    from_outside: bool,
)
    requires
        reading.phase == WatchPhase::Reading,
        content_hash(data.data@) != reading.last_hash,
        same.data@ == data.data@,
    ensures
        ({
            let (delivering, delivery) = watched(reading, WatchEvent::Read(Some(data), false));
            let (resting, rest) = watched(delivering, WatchEvent::Delivered);
            let (checking, check) = watched(resting, WatchEvent::Rested);
            let (reading_again, read) = watched(checking, WatchEvent::Suppressed(false));
            let (_, action) = watched(reading_again, WatchEvent::Read(Some(same), from_outside));
            &&& delivery == WatchAction::Deliver(data)
            &&& rest == WatchAction::Rest(POLL_MILLIS)
            &&& check == WatchAction::TakeSuppression
            &&& read == WatchAction::Read
            &&& action == WatchAction::Rest(POLL_MILLIS)
        }),
{
}

/// A change is shared: a clipboard whose contents hash otherwise than what was read
/// last, and which were not set from outside, is delivered as it was read.
pub proof fn law_change_is_shared(reading: ClipboardWatcher, data: ClipboardData)
    requires
        reading.phase == WatchPhase::Reading,
        content_hash(data.data@) != reading.last_hash,
    ensures
        watched(reading, WatchEvent::Read(Some(data), false)).1 == WatchAction::Deliver(data),
        watched(reading, WatchEvent::Read(Some(data), false)).0.last_hash == content_hash(
            data.data@,
        ),
{
}

/// A poll that is suppressed reads nothing: the clipboard is left alone for the
/// settling time and for one more interval, and what was read last stays known.
pub proof fn law_suppressed_poll_reads_nothing(checking: ClipboardWatcher)
    requires
        checking.phase == WatchPhase::Checking,
    ensures
        ({
            let (settling, first) = watched(checking, WatchEvent::Suppressed(true));
            let (resting, second) = watched(settling, WatchEvent::Rested);
            &&& first == WatchAction::Rest(SETTLE_MILLIS)
            &&& second == WatchAction::Rest(POLL_MILLIS)
            &&& resting == (ClipboardWatcher { phase: WatchPhase::Resting, ..checking })
        }),
{
}

/// What happens to the local clipboard.
pub enum ClipboardEvent {
    /// Something happens to the watcher.
    Watched(WatchEvent),
    /// The clipboard has been set from outside.
    Landed,
}

/// The watcher and the manager, after events that follow one another.
pub open spec fn watched_all(
    manager: ClipboardManager,
    watcher: ClipboardWatcher,
    events: Seq<ClipboardEvent>,
) -> (ClipboardManager, ClipboardWatcher)
    decreases events.len(),
{
    if events.len() == 0 {
        (manager, watcher)
    } else {
        let (before, watching) = watched_all(manager, watcher, events.drop_last());
        match events.last() {
            ClipboardEvent::Landed => (manager_after_outcome(before, true), watching),
            ClipboardEvent::Watched(event) => (
                match event {
                    WatchEvent::Suppressed(_) => manager_after_poll(before),
                    WatchEvent::Read(contents, _) => manager_after_read(before, contents),
                    _ => before,
                },
                watched(watching, event).0,
            ),
        }
    }
}

/// What is delivered by the last of the events, if anything is.
pub open spec fn last_delivery(
    manager: ClipboardManager,
    watcher: ClipboardWatcher,
    events: Seq<ClipboardEvent>,
) -> Option<ClipboardData> {
    if events.len() == 0 {
        None
    } else {
        match events.last() {
            ClipboardEvent::Watched(event) => match watched(
                watched_all(manager, watcher, events.drop_last()).1,
                event,
            ).1 {
                WatchAction::Deliver(data) => Some(data),
                _ => None,
            },
            ClipboardEvent::Landed => None,
        }
    }
}

/// Whether an event can happen. The manager is asked when the watcher wants it to be. While
/// `contents` are on their way, a poll may still read what was there before them; once
/// they have arrived every read gives them, or nothing if they are not of a size to be
/// shared.
pub open spec fn can_happen(
    manager: ClipboardManager,
    watcher: ClipboardWatcher,
    event: ClipboardEvent,
    contents: Seq<u8>,
    arrived: bool,
) -> bool {
    match event {
        ClipboardEvent::Landed => true,
        ClipboardEvent::Watched(WatchEvent::Suppressed(taken)) => watcher.phase is Checking
            && taken == manager.suppress_next,
        ClipboardEvent::Watched(WatchEvent::Read(read, from_outside)) => {
            &&& watcher.phase is Reading
            &&& from_outside == is_from_outside(manager, read)
            &&& if arrived {
                match read {
                    Some(data) => is_shared_size(contents.len()) && data.data@ == contents,
                    None => !is_shared_size(contents.len()),
                }
            } else {
                &&& manager.setting is Some || !manager.landed
                &&& read matches Some(data) ==> content_hash(data.data@) != content_hash(contents)
            }
        },
        ClipboardEvent::Watched(_) => true,
    }
}

/// Whether the events can happen one after the other, while no other contents are set.
pub open spec fn can_happen_all(
    manager: ClipboardManager,
    watcher: ClipboardWatcher,
    events: Seq<ClipboardEvent>,
    contents: Seq<u8>,
    arrived: bool,
) -> bool
    decreases events.len(),
{
    events.len() > 0 ==> {
        let before = events.drop_last();
        let (now, watching) = watched_all(manager, watcher, before);
        &&& can_happen_all(manager, watcher, before, contents, arrived)
        &&& can_happen(now, watching, events.last(), contents, arrived)
    }
}

/// The manager knows what the clipboard is set to.
spec fn is_expected(manager: ClipboardManager, contents: Seq<u8>) -> bool {
    let hash = Some(content_hash(contents));
    manager.setting == hash || (manager.setting is None && manager.set == hash)
}

proof fn lemma_stays_expected(
    manager: ClipboardManager,
    watcher: ClipboardWatcher,
    events: Seq<ClipboardEvent>,
    contents: Seq<u8>,
)
    requires
        is_expected(manager, contents),
        can_happen_all(manager, watcher, events, contents, false),
    ensures
        is_expected(watched_all(manager, watcher, events).0, contents),
    decreases events.len(),
{
    if events.len() > 0 {
        lemma_stays_expected(manager, watcher, events.drop_last(), contents);
    }
}

proof fn lemma_no_delivery(
    manager: ClipboardManager,
    watcher: ClipboardWatcher,
    events: Seq<ClipboardEvent>,
    contents: Seq<u8>,
)
    requires
        is_expected(manager, contents),
        can_happen_all(manager, watcher, events, contents, true),
    ensures
        ({
            let (now, watching) = watched_all(manager, watcher, events);
            is_shared_size(contents.len()) ==> is_expected(now, contents) || watching.last_hash
                == content_hash(contents)
        }),
        forall|n: int|
            0 <= n <= events.len() ==> last_delivery(
                manager,
                watcher,
                #[trigger] events.take(n),
            ) is None,
    decreases events.len(),
{
    assert(events.take(events.len() as int) =~= events);
    if events.len() > 0 {
        let before = events.drop_last();
        lemma_no_delivery(manager, watcher, before, contents);
        assert forall|n: int| 0 <= n <= events.len() implies last_delivery(
            manager,
            watcher,
            #[trigger] events.take(n),
        ) is None by {
            if n < events.len() {
                assert(before.take(n) =~= events.take(n));
            }
        }
    }
}

/// What was set from outside is not sent back: once the clipboard is to be set, between two
/// polls or during one, polls may still share what it held before; but from when it holds
/// the bytes that it was set to, nothing is delivered, however often it is polled, for as
/// long as it holds them.
pub proof fn law_set_is_not_echoed(
    manager: ClipboardManager,
    data: ClipboardData,
    watcher: ClipboardWatcher,
    before: Seq<ClipboardEvent>,
    after: Seq<ClipboardEvent>,
)
    requires
        data.data@.len() > 0,
        ({
            let set = manager_after_set(manager, data.data@);
            let (now, watching) = watched_all(set, watcher, before);
            &&& can_happen_all(set, watcher, before, data.data@, false)
            &&& can_happen_all(now, watching, after, data.data@, true)
        }),
    ensures
        ({
            let set = manager_after_set(manager, data.data@);
            let (now, watching) = watched_all(set, watcher, before);
            forall|n: int|
                0 <= n <= after.len() ==> last_delivery(
                    now,
                    watching,
                    #[trigger] after.take(n),
                ) is None
        }),
{
    let set = manager_after_set(manager, data.data@);
    let (now, watching) = watched_all(set, watcher, before);
    lemma_stays_expected(set, watcher, before, data.data@);
    lemma_no_delivery(now, watching, after, data.data@);
}

/// A clipboard that could not be set is as it was: the next poll is left out, and nothing
/// else has changed, so that what the clipboard held before is not shared again.
pub proof fn law_failed_set_changes_nothing(
    manager: ClipboardManager,
    data: ClipboardData,
    checking: ClipboardWatcher,
    held: ClipboardData,
)
    requires
        data.data@.len() > 0,
        manager.setting is None,
        checking.phase == WatchPhase::Checking,
        content_hash(held.data@) == checking.last_hash,
    ensures
        ({
            let failed = manager_after_outcome(manager_after_set(manager, data.data@), false);
            let polled = manager_after_poll(failed);
            let (settling, settle) = watched(
                checking,
                WatchEvent::Suppressed(failed.suppress_next),
            );
            let (resting, rest) = watched(settling, WatchEvent::Rested);
            let (checking_again, _) = watched(resting, WatchEvent::Rested);
            let (reading, read) = watched(
                checking_again,
                WatchEvent::Suppressed(polled.suppress_next),
            );
            let (end, action) = watched(
                reading,
                WatchEvent::Read(Some(held), is_from_outside(polled, Some(held))),
            );
            &&& failed == (ClipboardManager { suppress_next: true, ..manager })
            &&& settle == WatchAction::Rest(SETTLE_MILLIS)
            &&& rest == WatchAction::Rest(POLL_MILLIS)
            &&& read == WatchAction::Read
            &&& reading.last_hash == checking.last_hash
            &&& action == WatchAction::Rest(POLL_MILLIS)
            &&& end.last_hash == checking.last_hash
        }),
{
}

/// Setting the clipboard hides no change: the poll after it is left out, and the one
/// after that delivers what was copied in the meantime, if it is neither what the clipboard
/// was set to nor what was read last. What was set is then forgotten, and is shared like
/// anything else if it is copied again.
pub proof fn law_change_after_set_is_shared(
    manager: ClipboardManager,
    data: ClipboardData,
    checking: ClipboardWatcher,
    copied: ClipboardData,
)
    requires
        data.data@.len() > 0,
        checking.phase == WatchPhase::Checking,
        content_hash(copied.data@) != content_hash(data.data@),
        content_hash(copied.data@) != checking.last_hash,
    ensures
        ({
            let set = manager_after_outcome(manager_after_set(manager, data.data@), true);
            let polled = manager_after_poll(set);
            let (settling, settle) = watched(
                checking,
                WatchEvent::Suppressed(set.suppress_next),
            );
            let (resting, rest) = watched(settling, WatchEvent::Rested);
            let (checking_again, check) = watched(resting, WatchEvent::Rested);
            let (reading, read) = watched(
                checking_again,
                WatchEvent::Suppressed(polled.suppress_next),
            );
            let again = manager_after_poll(polled);
            let (_, delivery) = watched(
                reading,
                WatchEvent::Read(Some(copied), is_from_outside(again, Some(copied))),
            );
            let end = manager_after_read(again, Some(copied));
            &&& settle == WatchAction::Rest(SETTLE_MILLIS)
            &&& rest == WatchAction::Rest(POLL_MILLIS)
            &&& check == WatchAction::TakeSuppression
            &&& read == WatchAction::Read
            &&& delivery == WatchAction::Deliver(copied)
            &&& !is_from_outside(end, Some(data))
        }),
{
}

/// Only what the clipboard held is delivered: whatever happens, a delivery holds the
/// data that was just read, and never what was set from outside.
pub proof fn law_only_what_was_read_is_delivered(before: ClipboardWatcher, event: WatchEvent)
    requires
        watched(before, event).1 is Deliver,
    ensures
        event == WatchEvent::Read(Some(watched(before, event).1->Deliver_0), false),
        before.phase == WatchPhase::Reading,
{
}

proof fn lemma_first_shared(types: Seq<Seq<char>>)
    ensures
        first_shared(types) matches Some(t) ==> types.contains(t) && is_shared_type(t),
        first_shared(types) is None ==> forall|i: int|
            0 <= i < types.len() ==> !is_shared_type(#[trigger] types[i]),
    decreases types.len(),
{
    if types.len() > 0 && !is_shared_type(types[0]) {
        let rest = types.skip(1);
        lemma_first_shared(rest);
        if let Some(t) = first_shared(rest) {
            let i = choose|i: int| 0 <= i < rest.len() && rest[i] == t;
            assert(types[i + 1] == t);
        } else {
            assert forall|i: int| 0 <= i < types.len() implies !is_shared_type(
                #[trigger] types[i],
            ) by {
                if i > 0 {
                    assert(rest[i - 1] == types[i]);
                }
            }
        }
    } else if types.len() > 0 {
        assert(types[0] == first_shared(types)->0);
    }
}

/// A clipboard is read only as a type that is shared, and as one that it offers
/// whenever it offers one. Plain text comes first.
pub proof fn law_preferred_type(types: Seq<Seq<char>>)
    ensures
        is_shared_type(preferred(types)),
        types.contains("text/plain"@) ==> preferred(types) == "text/plain"@,
        (exists|i: int| 0 <= i < types.len() && is_shared_type(#[trigger] types[i]))
            ==> types.contains(preferred(types)),
{
    lemma_first_shared(types);
    reveal_strlit("text/plain");
    reveal_strlit("text/");
    assert("text/plain"@.subrange(0, "text/"@.len() as int) =~= "text/"@);
}

/// Contents are shared exactly if there are any and they are no larger than a mebibyte.
pub proof fn law_shared_sizes(len: nat)
    ensures
        is_shared_size(len) <==> 1 <= len <= 1024 * 1024,
        POLL_MILLIS == 500,
        SETTLE_MILLIS == 200,
{
}

/// A listing is read line by line: a line that ends with a newline, or with a carriage return
/// and a newline, stands without them before the lines of the rest; a last line without a
/// newline stands as it is; and an empty listing has no lines.
pub proof fn law_lines_one_by_one(line: Seq<char>, rest: Seq<char>)
    requires
        forall|i: int| 0 <= i < line.len() ==> #[trigger] line[i] != '\n',
    ensures
        lines_of(Seq::<char>::empty()) == Seq::<Seq<char>>::empty(),
        line.len() > 0 ==> lines_of(line) == seq![line],
        line.len() == 0 || line.last() != '\r' ==> lines_of(line + seq!['\n'] + rest) == seq![line]
            + lines_of(rest),
        lines_of(line + seq!['\r', '\n'] + rest) == seq![line] + lines_of(rest),
{
    lemma_line_end_is(line, line.len() as int);
    let ended = line + seq!['\n'] + rest;
    assert(ended[line.len() as int] == '\n');
    assert forall|i: int| 0 <= i < line.len() implies #[trigger] ended[i] != '\n' by {
        assert(ended[i] == line[i]);
    }
    lemma_line_end_is(ended, line.len() as int);
    assert(ended.take(line.len() as int) =~= line);
    assert(ended.skip(line.len() as int + 1) =~= rest);

    let returned = line + seq!['\r', '\n'] + rest;
    let end = line.len() as int + 1;
    assert(returned[end - 1] == '\r' && returned[end] == '\n');
    assert forall|i: int| 0 <= i < end implies #[trigger] returned[i] != '\n' by {
        if i < line.len() {
            assert(returned[i] == line[i]);
        }
    }
    lemma_line_end_is(returned, end);
    assert(returned.take(end).drop_last() =~= line);
    assert(returned.take(end).last() == '\r');
    assert(returned.skip(end + 1) =~= rest);
}

/// Text and images of every kind are shared, and the two names that old programs have for
/// text; and nothing else.
pub proof fn law_shared_types(rest: Seq<char>, mime_type: Seq<char>)
    ensures
        is_shared_type("text/"@ + rest),
        is_shared_type("image/"@ + rest),
        is_shared_type("UTF8_STRING"@),
        is_shared_type("STRING"@),
        is_shared_type(mime_type) ==> {
            ||| mime_type.len() >= 5 && mime_type.take(5) == "text/"@
            ||| mime_type.len() >= 6 && mime_type.take(6) == "image/"@
            ||| mime_type == "UTF8_STRING"@
            ||| mime_type == "STRING"@
        },
{
    reveal_strlit("text/");
    reveal_strlit("image/");
    let text = "text/"@ + rest;
    let image = "image/"@ + rest;
    assert(text.subrange(0, 5) =~= "text/"@);
    assert(image.subrange(0, 6) =~= "image/"@);
    if mime_type.len() >= 5 {
        assert(mime_type.take(5) =~= mime_type.subrange(0, 5));
    }
    if mime_type.len() >= 6 {
        assert(mime_type.take(6) =~= mime_type.subrange(0, 6));
    }
}

/// The first type that can be shared is taken, unless plain text is offered: types that cannot
/// be shared do not matter where they stand, nor do types after the first that can.
pub proof fn law_first_type_is_preferred(types: Seq<Seq<char>>, i: int)
    requires
        0 <= i < types.len(),
        is_shared_type(types[i]),
        forall|k: int| 0 <= k < i ==> !is_shared_type(#[trigger] types[k]),
        forall|k: int| 0 <= k < types.len() ==> #[trigger] types[k] != "text/plain"@,
    ensures
        preferred(types) == types[i],
{
    lemma_first_shared_is(types, i);
    assert(!types.contains("text/plain"@));
}

proof fn lemma_first_shared_is(types: Seq<Seq<char>>, i: int)
    requires
        0 <= i < types.len(),
        is_shared_type(types[i]),
        forall|k: int| 0 <= k < i ==> !is_shared_type(#[trigger] types[k]),
    ensures
        first_shared(types) == Some(types[i]),
    decreases i,
{
    if i > 0 {
        let rest = types.skip(1);
        assert(!is_shared_type(types[0]));
        assert(rest[i - 1] == types[i]);
        assert forall|k: int| 0 <= k < i - 1 implies !is_shared_type(#[trigger] rest[k]) by {
            assert(rest[k] == types[k + 1]);
        }
        lemma_first_shared_is(rest, i - 1);
    }
}

/// Where nothing that is offered can be shared, plain text is asked for after all; and wherever
/// plain text is offered, it is what is asked for.
pub proof fn law_plain_text_otherwise(types: Seq<Seq<char>>, i: int)
    ensures
        (forall|k: int| 0 <= k < types.len() ==> !is_shared_type(#[trigger] types[k])) ==> preferred(
            types,
        ) == "text/plain"@,
        0 <= i < types.len() && types[i] == "text/plain"@ ==> preferred(types) == "text/plain"@,
{
    lemma_first_shared(types);
    if forall|k: int| 0 <= k < types.len() ==> !is_shared_type(#[trigger] types[k]) {
        if first_shared(types) is Some {
            let t = first_shared(types)->0;
            let k = choose|k: int| 0 <= k < types.len() && types[k] == t;
            assert(!is_shared_type(types[k]));
        }
    }
}

/// Each event of a poll leads on as it should: a rest is followed by a look at the suppression,
/// that by a reading or by a longer rest, a failed reading by a rest that forgets nothing, a
/// reading of nothing by a rest that forgets what was known, and a delivery by a rest; only the
/// loss of the receiver ends the watching, for good.
pub proof fn law_poll_by_poll(w: ClipboardWatcher, any: WatchEvent)
    ensures
        w.phase is Resting ==> watched(w, WatchEvent::Rested).1 is TakeSuppression,
        w.phase is Checking ==> {
            &&& watched(w, WatchEvent::Suppressed(true)).1 == WatchAction::Rest(200)
            &&& watched(w, WatchEvent::Suppressed(false)).1 is Read
        },
        w.phase is Settling ==> watched(w, WatchEvent::Rested).1 == WatchAction::Rest(500),
        w.phase is Reading ==> {
            &&& watched(w, WatchEvent::ReadFailed).1 == WatchAction::Rest(500)
            &&& forall|outside: bool|
                (#[trigger] watched(w, WatchEvent::Read(None, outside))).1 == WatchAction::Rest(500)
                    && watched(w, WatchEvent::Read(None, outside)).0.last_hash == 0
        },
        w.phase is Delivering ==> {
            &&& watched(w, WatchEvent::Delivered).1 == WatchAction::Rest(500)
            &&& watched(w, WatchEvent::Closed).1 is Stop
            &&& watched(watched(w, WatchEvent::Closed).0, any).1 is Stop
        },
        w.phase is Stopped ==> watched(w, any) == (w, WatchAction::Stop),
        !(w.phase is Reading && any is Read) ==> watched(w, any).0.last_hash == w.last_hash,
        watched(w, any).1 is Stop ==> w.phase is Stopped || (w.phase is Delivering && any is Closed),
{
}

/// What was read decides: contents that were set from outside are never delivered, others
/// exactly if they hash otherwise than what was read last; either way they are then what was
/// read last.
pub proof fn law_what_was_read_decides(
    reading: ClipboardWatcher,
    data: ClipboardData,
    from_outside: bool,
)
    requires
        reading.phase is Reading,
    ensures
        ({
            let (after, action) = watched(reading, WatchEvent::Read(Some(data), from_outside));
            &&& after.last_hash == content_hash(data.data@)
            &&& from_outside || content_hash(data.data@) == reading.last_hash ==> action
                == WatchAction::Rest(500)
            &&& !from_outside && content_hash(data.data@) != reading.last_hash ==> action
                == WatchAction::Deliver(data)
        }),
{
}

/// The manager knows what is set from outside from when that begins until it was read, or was
/// replaced; a set that fails leaves what was set before; and each set leaves out one poll.
pub proof fn law_manager_keeps_track(
    manager: ClipboardManager,
    data: ClipboardData,
    other: ClipboardData,
)
    requires
        data.data@.len() > 0,
        manager.setting is None,
    ensures
        ({
            let setting = manager_after_set(manager, data.data@);
            let set = manager_after_outcome(setting, true);
            let failed = manager_after_outcome(setting, false);
            let polled = manager_after_poll(set);
            &&& setting.suppress_next && set.suppress_next && failed.suppress_next
            &&& !polled.suppress_next
            &&& is_from_outside(setting, Some(data))
            &&& is_from_outside(set, Some(data))
            &&& is_from_outside(polled, Some(data))
            &&& !is_from_outside(manager_after_read(set, Some(data)), Some(data))
            &&& is_from_outside(failed, Some(data)) == is_from_outside(manager, Some(data))
            &&& is_from_outside(failed, Some(other)) == is_from_outside(manager, Some(other))
            &&& content_hash(other.data@) != content_hash(data.data@) ==> {
                &&& !is_from_outside(set, Some(other))
                &&& is_from_outside(manager_after_read(set, Some(other)), Some(data))
                &&& !is_from_outside(manager_after_read(polled, Some(other)), Some(data))
                &&& is_from_outside(setting, Some(other)) == is_from_outside(manager, Some(other))
            }
        }),
        !is_from_outside(manager, None),
        manager_after_set(manager, Seq::empty()) == manager,
{
}

} // verus!
