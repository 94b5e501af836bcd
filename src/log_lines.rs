//! Folding log text into the entries of a log window: the text is split
//! into lines, long lines into pieces of bounded byte length, and a piece
//! equal to the last entry only counts that entry once more.

use vstd::prelude::*;
use vstd::slice::slice_to_vec;
use vstd::string::*;
use vstd::utf8::{decode_utf8, valid_utf8};

verus! {

/// Severity of a log message.
#[derive(Debug, Clone, Copy, PartialEq, Eq, Structural)]
pub enum LogLevel {
    Unset,
    Diagnostic,
    Inform,
    Warning,
    Error,
}

/// One line of the log window, shown with the number of times it came in a row.
#[derive(Debug)]
pub struct LogEntry {
    pub level: LogLevel,
    pub text: String,
    pub count: i32,
}

pub struct EntryView {
    pub level: LogLevel,
    pub text: Seq<char>,
    pub count: i32,
}

impl View for LogEntry {
    type V = EntryView;

    open spec fn view(&self) -> EntryView {
        EntryView { level: self.level, text: self.text@, count: self.count }
    }
}

pub open spec fn entries_view(v: Seq<LogEntry>) -> Seq<EntryView> {
    v.map_values(|e: LogEntry| e@)
}

/// Longest piece of a line, in bytes, that makes one entry.
pub const PIECE_BYTES: usize = 130;

/// Marks an entry that continues the line of the entry before it.
pub open spec fn continuation_mark() -> Seq<char> {
    "\u{2023}\u{2023}\u{2023}\u{2023}"@
}

/// Start of the line that byte `i` of `b` belongs to.
pub open spec fn line_start(b: Seq<u8>, i: int) -> int
    decreases i,
{
    if i <= 0 {
        0
    } else if b[i - 1] == 10u8 {
        i
    } else {
        line_start(b, i - 1)
    }
}

/// `l` without a carriage return at its end.
pub open spec fn trim_cr(l: Seq<u8>) -> Seq<u8> {
    if l.len() > 0 && l.last() == 13u8 {
        l.drop_last()
    } else {
        l
    }
}

/// The lines of `b` ended by one of its first `i` bytes, without their line ending.
pub open spec fn closed_lines(b: Seq<u8>, i: int) -> Seq<Seq<u8>>
    decreases i,
{
    if i <= 0 {
        seq![]
    } else if b[i - 1] == 10u8 {
        closed_lines(b, i - 1).push(trim_cr(b.subrange(line_start(b, i - 1), i - 1)))
    } else {
        closed_lines(b, i - 1)
    }
}

/// The lines of `b`: split after each line feed, with a carriage return
/// before the line feed dropped; a last line without line feed counts when
/// it is not empty.
pub open spec fn lines_of(b: Seq<u8>) -> Seq<Seq<u8>> {
    let s = line_start(b, b.len() as int);
    if s < b.len() {
        closed_lines(b, b.len() as int).push(b.subrange(s, b.len() as int))
    } else {
        closed_lines(b, b.len() as int)
    }
}

/// Number of pieces a line of `len` bytes is cut into.
pub open spec fn piece_count(len: int) -> int {
    (len + 129) / 130
}

/// Piece `k` of `line`.
pub open spec fn piece(line: Seq<u8>, k: int) -> Seq<u8> {
    let end = if k * 130 + 130 < line.len() {
        k * 130 + 130
    } else {
        line.len() as int
    };
    line.subrange(k * 130, end)
}

/// The entry text of piece `k` of `line`, if that piece is valid UTF-8;
/// pieces after the first carry the continuation mark.
pub open spec fn piece_text(line: Seq<u8>, k: int) -> Option<Seq<char>> {
    if valid_utf8(piece(line, k)) {
        Some(
            if k > 0 {
                continuation_mark() + decode_utf8(piece(line, k))
            } else {
                decode_utf8(piece(line, k))
            },
        )
    } else {
        None
    }
}

/// Entry texts of the first `k` pieces of `line`.
pub open spec fn piece_texts(line: Seq<u8>, k: int) -> Seq<Seq<char>>
    decreases k,
{
    if k <= 0 {
        seq![]
    } else {
        match piece_text(line, k - 1) {
            Some(t) => piece_texts(line, k - 1).push(t),
            None => piece_texts(line, k - 1),
        }
    }
}

pub open spec fn line_texts(line: Seq<u8>) -> Seq<Seq<char>> {
    piece_texts(line, piece_count(line.len() as int))
}

pub open spec fn texts_of_lines(ls: Seq<Seq<u8>>) -> Seq<Seq<char>>
    decreases ls.len(),
{
    if ls.len() == 0 {
        seq![]
    } else {
        texts_of_lines(ls.drop_last()) + line_texts(ls.last())
    }
}

/// The entry texts that log text encoded as `b` yields, in order.
pub open spec fn log_texts(b: Seq<u8>) -> Seq<Seq<char>> {
    texts_of_lines(lines_of(b))
}

/// `c + 1`, held at the largest `i32`.
pub open spec fn bumped(c: i32) -> i32 {
    if c < i32::MAX {
        (c + 1) as i32
    } else {
        c
    }
}

/// `items` after text `t` came in at `level`: a repeat of the last entry's
/// text counts that entry once more, any other text is a new entry.
pub open spec fn merge(items: Seq<EntryView>, level: LogLevel, t: Seq<char>) -> Seq<EntryView> {
    if items.len() > 0 && items.last().text == t {
        items.update(
            items.len() - 1,
            EntryView { count: bumped(items.last().count), ..items.last() },
        )
    } else {
        items.push(EntryView { level, text: t, count: 1 })
    }
}

/// `items` after the texts `ts` came in, in order, at `level`.
pub open spec fn absorb(items: Seq<EntryView>, level: LogLevel, ts: Seq<Seq<char>>) -> Seq<EntryView>
    decreases ts.len(),
{
    if ts.len() == 0 {
        items
    } else {
        merge(absorb(items, level, ts.drop_last()), level, ts.last())
    }
}

/// Relies on std's `String::from_utf8`: it accepts exactly the valid UTF-8
/// byte strings and returns the characters they encode.
#[verifier::external_body]
fn string_from_utf8(bytes: Vec<u8>) -> (r: Option<String>)
    ensures
        r is Some <==> valid_utf8(bytes@),
        r matches Some(s) ==> s@ == decode_utf8(bytes@),
{
    String::from_utf8(bytes).ok()
}

/// Adds text `t` at `level` to the entries.
pub fn merge_entry(items: &mut Vec<LogEntry>, level: LogLevel, t: String)
    ensures
        entries_view(final(items)@) == merge(entries_view(old(items)@), level, t@),
{
    let ghost before = entries_view(items@);
    let n = items.len();
    if n > 0 && items[n - 1].text == t {
        let mut last = items.pop().unwrap();
        last.count = if last.count < i32::MAX {
            last.count + 1
        } else {
            last.count
        };
        items.push(last);
        assert(entries_view(items@) =~= merge(before, level, t@));
    } else {
        items.push(LogEntry { level, text: t, count: 1 });
        assert(entries_view(items@) =~= merge(before, level, t@));
    }
}

proof fn lemma_absorb_append(
    items: Seq<EntryView>,
    level: LogLevel,
    a: Seq<Seq<char>>,
    b: Seq<Seq<char>>,
)
    ensures
        absorb(items, level, a + b) == absorb(absorb(items, level, a), level, b),
    decreases b.len(),
{
    if b.len() == 0 {
        assert(a + b =~= a);
    } else {
        lemma_absorb_append(items, level, a, b.drop_last());
        assert((a + b).drop_last() =~= a + b.drop_last());
    }
}

proof fn lemma_absorb_len(items: Seq<EntryView>, level: LogLevel, ts: Seq<Seq<char>>)
    ensures
        absorb(items, level, ts).len() >= items.len(),
    decreases ts.len(),
{
    if ts.len() > 0 {
        lemma_absorb_len(items, level, ts.drop_last());
    }
}

/// Folding texts into a non-empty list of entries changes at most its last
/// entry: the entries before it are kept as they are, and what follows them
/// is what folding the texts into the last entry alone gives.
pub proof fn lemma_absorb_keeps_earlier_entries(
    items: Seq<EntryView>,
    level: LogLevel,
    ts: Seq<Seq<char>>,
)
    requires
        items.len() > 0,
    ensures
        absorb(items, level, ts) == items.drop_last() + absorb(
            items.subrange(items.len() - 1, items.len() as int),
            level,
            ts,
        ),
    decreases ts.len(),
{
    let tail = items.subrange(items.len() - 1, items.len() as int);
    if ts.len() == 0 {
        assert(items =~= items.drop_last() + tail);
    } else {
        let rest = ts.drop_last();
        lemma_absorb_keeps_earlier_entries(items, level, rest);
        lemma_absorb_len(tail, level, rest);
        let front = items.drop_last();
        let a = absorb(tail, level, rest);
        let t = ts.last();
        assert((front + a).last() == a.last());
        if a.last().text == t {
            let e = EntryView { count: bumped(a.last().count), ..a.last() };
            assert((front + a).update(front.len() + a.len() - 1, e) =~= front + a.update(
                a.len() - 1,
                e,
            ));
        } else {
            assert((front + a).push(EntryView { level, text: t, count: 1 }) =~= front + a.push(
                EntryView { level, text: t, count: 1 },
            ));
        }
    }
}

/// Adds the pieces of the line `bytes[start..end]` to the entries.
fn record_line(items: &mut Vec<LogEntry>, level: LogLevel, bytes: &[u8], start: usize, end: usize)
    requires
        start <= end <= bytes@.len(),
    ensures
        entries_view(final(items)@) == absorb(
            entries_view(old(items)@),
            level,
            line_texts(bytes@.subrange(start as int, end as int)),
        ),
{
    let ghost line = bytes@.subrange(start as int, end as int);
    let ghost base = entries_view(items@);
    let mut k: usize = 0;
    let mut from: usize = start;
    while from < end
        invariant
            start <= from <= end <= bytes@.len(),
            line == bytes@.subrange(start as int, end as int),
            from as int == (if start + k * 130 < end {
                start + k * 130
            } else {
                end as int
            }),
            k == 0 || (k - 1) * 130 < end - start,
            k <= from - start,
            entries_view(items@) == absorb(base, level, piece_texts(line, k as int)),
        decreases end - from,
    {
        let to = if end - from > PIECE_BYTES {
            from + PIECE_BYTES
        } else {
            end
        };
        let chunk = slice_to_vec(&bytes[from..to]);
        assert(chunk@ =~= piece(line, k as int));
        let ghost prev = piece_texts(line, k as int);
        match string_from_utf8(chunk) {
            Some(s) => {
                let text = if k > 0 {
                    String::from_str("\u{2023}\u{2023}\u{2023}\u{2023}").concat(s.as_str())
                } else {
                    s
                };
                merge_entry(items, level, text);
                assert(piece_texts(line, k + 1) == prev.push(text@));
                assert(prev.push(text@).drop_last() =~= prev);
            },
            None => {
                assert(piece_texts(line, k + 1) == prev);
            },
        }
        k = k + 1;
        from = to;
    }
    assert(k == piece_count(end - start));
}

/// Adds log text `text` at `level` to the entries of a log window: each
/// line is cut into pieces of at most `PIECE_BYTES` bytes, pieces after the
/// first of a line carry the continuation mark, a piece that is not valid
/// UTF-8 is dropped, and a piece equal to the last entry's text counts that
/// entry once more instead of adding one.
pub fn record(items: &mut Vec<LogEntry>, level: LogLevel, text: &str)
    ensures
        entries_view(final(items)@) == absorb(
            entries_view(old(items)@),
            level,
            log_texts(text.spec_bytes()),
        ),
{
    let bytes = text.as_bytes();
    let ghost b = bytes@;
    let ghost base = entries_view(items@);
    let n = bytes.len();
    let mut start: usize = 0;
    let mut i: usize = 0;
    while i < n
        invariant
            n == b.len(),
            bytes@ == b,
            b == text.spec_bytes(),
            start <= i <= n,
            start as int == line_start(b, i as int),
            entries_view(items@) == absorb(base, level, texts_of_lines(closed_lines(b, i as int))),
        decreases n - i,
    {
        if bytes[i] == 10u8 {
            let end = if i > start && bytes[i - 1] == 13u8 {
                i - 1
            } else {
                i
            };
            let ghost line = b.subrange(start as int, end as int);
            let ghost done = closed_lines(b, i as int);
            assert(trim_cr(b.subrange(start as int, i as int)) =~= line);
            record_line(items, level, bytes, start, end);
            proof {
                lemma_absorb_append(base, level, texts_of_lines(done), line_texts(line));
                assert(closed_lines(b, i + 1) == done.push(line));
                assert(done.push(line).drop_last() =~= done);
            }
            start = i + 1;
        }
        i = i + 1;
    }
    if start < n {
        let ghost line = b.subrange(start as int, n as int);
        let ghost done = closed_lines(b, n as int);
        record_line(items, level, bytes, start, n);
        proof {
            lemma_absorb_append(base, level, texts_of_lines(done), line_texts(line));
            assert(done.push(line).drop_last() =~= done);
        }
    }
}

} // verus!
