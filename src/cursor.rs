//! The read cursor of a tailed file and the delta read that moves it.
use vstd::prelude::*;
use crate::lines::{decoded_lines, utf8_decoded, trim_cr, complete_len, decode_all, lemma_pending_len, log_lines, pending, split_lines, texts, LINE_FEED};

verus! {

/// A delta whose complete lines are not all valid UTF-8. The delta is dropped
/// and the cursor moves past it.
#[derive(Debug, Clone, Copy, PartialEq, Eq)]
pub struct DecodeError {
    /// The number of bytes skipped.
    pub skipped: u64,
}

/// The bytes of a file snapshot `f` from position `p` to its end.
pub open spec fn unread(f: Seq<u8>, p: nat) -> Seq<u8> {
    f.subrange(p as int, f.len() as int)
}

/// Where the cursor stands after a delta `d` is read from position `p`: past
/// the last complete line, or past the whole delta where it is not UTF-8.
pub open spec fn next_position(p: nat, d: Seq<u8>) -> nat {
    if decoded_lines(d) is Some {
        p + complete_len(d)
    } else {
        p + d.len()
    }
}

/// The lines delivered when a delta `d` is read: none where one fails to decode.
pub open spec fn delivered(d: Seq<u8>) -> Seq<Seq<char>> {
    match decoded_lines(d) {
        Some(ls) => ls,
        None => seq![],
    }
}

/// The byte offset into the watched file up to which content was consumed.
#[derive(Debug, Clone, Copy, PartialEq, Eq)]
pub struct TailCursor {
    position: u64,
}

impl TailCursor {
    /// The cursor's offset.
    pub closed spec fn pos(&self) -> nat {
        self.position as nat
    }

    /// A cursor at the end of a file of `file_len` bytes, so that what the
    /// file already holds is never delivered.
    pub fn at_end(file_len: u64) -> (r: TailCursor)
        ensures
            r.pos() == file_len,
    {
        TailCursor { position: file_len }
    }

    pub fn position(&self) -> (r: u64)
        ensures
            r == self.pos(),
    {
        self.position
    }

    /// Takes in `delta`, the bytes from the cursor to the current end of the
    /// file: returns its complete lines in file order and moves the cursor past
    /// them, leaving an unterminated tail to be read again. Where the delta is
    /// not UTF-8 it is dropped and the cursor moves past it all.
    pub fn read_delta(&mut self, delta: &Vec<u8>) -> (r: Result<Vec<String>, DecodeError>)
        requires
            old(self).pos() + delta@.len() <= u64::MAX,
        ensures
            final(self).pos() == next_position(old(self).pos(), delta@),
            match decoded_lines(delta@) {
                Some(ls) => r matches Ok(v) && texts(v@) == ls,
                None => r == Err::<Vec<String>, DecodeError>((DecodeError { skipped: delta@.len() as u64 })),
            },
            delta@.len() == 0 ==> (r matches Ok(v) && v@.len() == 0),
            delta@.len() == 0 ==> final(self).pos() == old(self).pos(),
    {
        proof {
            lemma_pending_len(delta@);
        }
        match split_lines(delta) {
            Ok((lines, n)) => {
                assert(decoded_lines(delta@) is Some);
                assert(n == complete_len(delta@));
                assert(texts(lines@).len() == lines@.len());
                self.position = self.position + n as u64;
                Ok(lines)
            },
            Err(n) => {
                assert(decoded_lines(delta@) is None);
                assert(n == delta@.len());
                self.position = self.position + n as u64;
                Err(DecodeError { skipped: n as u64 })
            },
        }
    }
}

/// The cursor after the first `n` reads, the i-th of them made against the
/// file snapshot `snaps[i]`, starting from position `p0`.
pub open spec fn cursor_after(p0: nat, snaps: Seq<Seq<u8>>, n: nat) -> nat
    decreases n,
{
    if n == 0 {
        p0
    } else {
        let p = cursor_after(p0, snaps, (n - 1) as nat);
        next_position(p, unread(snaps[n - 1], p))
    }
}

/// Each snapshot of an append-only file extends the one before it.
pub open spec fn appends_only(snaps: Seq<Seq<u8>>) -> bool {
    forall|i: int| 0 <= i < snaps.len() - 1 ==> #[trigger] snaps[i].is_prefix_of(snaps[i + 1])
}

/// A read moves the cursor forward, never beyond the bytes it was given.
pub proof fn lemma_step_bounds(p: nat, d: Seq<u8>)
    ensures
        p <= next_position(p, d) <= p + d.len(),
{
    lemma_pending_len(d);
}

proof fn lemma_cursor_bounded(p0: nat, snaps: Seq<Seq<u8>>, n: nat)
    requires
        n < snaps.len(),
        p0 <= snaps[0].len(),
        appends_only(snaps),
    ensures
        cursor_after(p0, snaps, n) <= snaps[n as int].len(),
    decreases n,
{
    if n > 0 {
        let p = cursor_after(p0, snaps, (n - 1) as nat);
        lemma_cursor_bounded(p0, snaps, (n - 1) as nat);
        let i = n - 1;
        assert(snaps[i].is_prefix_of(snaps[i + 1]));
        lemma_step_bounds(p, unread(snaps[n - 1], p));
    }
}

proof fn lemma_cursor_from_start(p0: nat, snaps: Seq<Seq<u8>>, n: nat)
    ensures
        p0 <= cursor_after(p0, snaps, n),
    decreases n,
{
    if n > 0 {
        lemma_cursor_from_start(p0, snaps, (n - 1) as nat);
        let p = cursor_after(p0, snaps, (n - 1) as nat);
        lemma_step_bounds(p, unread(snaps[n - 1], p));
    }
}

/// Over any run of reads against a growing file the cursor never moves back,
/// so never before where it started, and never passes the end of the file; once the file ends with a complete
/// line, the cursor after the last read stands at the file's length.
pub proof fn law_cursor_follows_appends(p0: nat, snaps: Seq<Seq<u8>>)
    requires
        snaps.len() > 0,
        p0 <= snaps[0].len(),
        appends_only(snaps),
    ensures
        forall|n: nat|
            n < snaps.len() ==> cursor_after(p0, snaps, n) <= #[trigger] cursor_after(p0, snaps, n + 1)
                <= snaps[n as int].len(),
        forall|n: nat| n <= snaps.len() ==> p0 <= #[trigger] cursor_after(p0, snaps, n),
        snaps.last().len() == 0 || snaps.last().last() == LINE_FEED ==> cursor_after(
            p0,
            snaps,
            snaps.len(),
        ) == snaps.last().len(),
{
    assert forall|n: nat| n < snaps.len() implies cursor_after(p0, snaps, n) <= #[trigger] cursor_after(
        p0,
        snaps,
        n + 1,
    ) <= snaps[n as int].len() by {
        lemma_cursor_bounded(p0, snaps, n);
        let p = cursor_after(p0, snaps, n);
        lemma_step_bounds(p, unread(snaps[n as int], p));
    }
    assert forall|n: nat| n <= snaps.len() implies p0 <= #[trigger] cursor_after(p0, snaps, n) by {
        lemma_cursor_from_start(p0, snaps, n);
    }
    let n = (snaps.len() - 1) as nat;
    let f = snaps.last();
    if f.len() == 0 || f.last() == LINE_FEED {
        lemma_cursor_bounded(p0, snaps, n);
        let p = cursor_after(p0, snaps, n);
        let d = unread(f, p);
        assert(cursor_after(p0, snaps, n + 1) == next_position(p, d));
        if d.len() > 0 {
            assert(d.last() == f.last());
            assert(pending(d) == Seq::<u8>::empty());
        }
    }
}

/// A line-feed-free stretch is all pending and holds no line.
proof fn lemma_no_terminator(s: Seq<u8>)
    requires
        !s.contains(LINE_FEED),
    ensures
        pending(s) == s,
        log_lines(s) == Seq::<Seq<u8>>::empty(),
    decreases s.len(),
{
    if s.len() > 0 {
        let t = s.drop_last();
        assert(!t.contains(LINE_FEED)) by {
            if t.contains(LINE_FEED) {
                let k = choose|k: int| 0 <= k < t.len() && t[k] == LINE_FEED;
                assert(s[k] == LINE_FEED);
            }
        }
        assert(s[s.len() - 1] != LINE_FEED);
        lemma_no_terminator(t);
        assert(t.push(s.last()) =~= s);
    } else {
        assert(s =~= Seq::<u8>::empty());
    }
}

/// A cursor set at the end of a file delivers nothing of what the file held:
/// reading at once yields no line and keeps the cursor, and a later read sees
/// exactly the bytes appended since.
pub proof fn law_no_replay(f: Seq<u8>, appended: Seq<u8>)
    ensures
        unread(f, f.len()) == Seq::<u8>::empty(),
        delivered(unread(f, f.len())) == Seq::<Seq<char>>::empty(),
        next_position(f.len(), unread(f, f.len())) == f.len(),
        unread(f + appended, f.len()) == appended,
{
    assert(unread(f, f.len()) =~= Seq::<u8>::empty());
    assert(unread(f + appended, f.len()) =~= appended);
    reveal_with_fuel(decode_all, 1);
}

/// A line written without its terminator is held back, and the cursor stays
/// before it; once an append ends it, the next read yields that one line with
/// the text of both appends.
pub proof fn law_partial_line_waits(f: Seq<u8>, head: Seq<u8>, tail: Seq<u8>)
    requires
        utf8_decoded(head) is Some,
        !head.contains(LINE_FEED),
        !tail.contains(LINE_FEED),
    ensures
        log_lines(unread(f + head, f.len())) == Seq::<Seq<u8>>::empty(),
        delivered(unread(f + head, f.len())) == Seq::<Seq<char>>::empty(),
        next_position(f.len(), unread(f + head, f.len())) == f.len(),
        log_lines(unread(f + head + tail + seq![LINE_FEED], f.len())) == seq![trim_cr(head + tail)],
        utf8_decoded(head + tail + seq![LINE_FEED]) is Some ==> delivered(
            unread(f + head + tail + seq![LINE_FEED], f.len()),
        ) == match utf8_decoded(trim_cr(head + tail)) {
            Some(t) => seq![t],
            None => Seq::<Seq<char>>::empty(),
        },
{
    assert(unread(f + head, f.len()) =~= head);
    lemma_no_terminator(head);
    reveal_with_fuel(decode_all, 2);
    let ht = head + tail;
    assert(!ht.contains(LINE_FEED)) by {
        if ht.contains(LINE_FEED) {
            let k = choose|k: int| 0 <= k < ht.len() && ht[k] == LINE_FEED;
            if k < head.len() {
                assert(head[k] == LINE_FEED);
            } else {
                assert(tail[k - head.len()] == LINE_FEED);
            }
        }
    }
    lemma_no_terminator(ht);
    let d = unread(f + head + tail + seq![LINE_FEED], f.len());
    assert(d =~= ht.push(LINE_FEED));
    assert(head + tail + seq![LINE_FEED] =~= d);
    assert(d.drop_last() =~= ht);
    let ls = log_lines(d);
    assert(ls =~= seq![trim_cr(ht)]);
    assert(ls.drop_last() =~= Seq::<Seq<u8>>::empty());
}

} // verus!
