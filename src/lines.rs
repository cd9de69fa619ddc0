//! Splitting a delta read into complete lines and decoding them.
use vstd::prelude::*;

verus! {

/// The byte that ends a line.
pub const LINE_FEED: u8 = 10;

/// A carriage return, dropped when it stands right before a line feed.
pub const CARRIAGE_RETURN: u8 = 13;

/// What `String::from_utf8` yields for the given bytes: the decoded text, or
/// `None` where the bytes are not valid UTF-8.
pub uninterp spec fn utf8_decoded(b: Seq<u8>) -> Option<Seq<char>>;

/// The bytes after the last line feed of `d`: the line still being written.
pub open spec fn pending(d: Seq<u8>) -> Seq<u8>
    decreases d.len(),
{
    if d.len() == 0 {
        seq![]
    } else if d.last() == LINE_FEED {
        seq![]
    } else {
        pending(d.drop_last()).push(d.last())
    }
}

/// A line's text without the carriage return of a `\r\n` terminator.
pub open spec fn trim_cr(l: Seq<u8>) -> Seq<u8> {
    if l.len() > 0 && l.last() == CARRIAGE_RETURN {
        l.drop_last()
    } else {
        l
    }
}

/// The complete lines of `d`, in order: each line feed closes the text pending
/// before it. An unterminated tail is not a line.
pub open spec fn log_lines(d: Seq<u8>) -> Seq<Seq<u8>>
    decreases d.len(),
{
    if d.len() == 0 {
        seq![]
    } else if d.last() == LINE_FEED {
        log_lines(d.drop_last()).push(trim_cr(pending(d.drop_last())))
    } else {
        log_lines(d.drop_last())
    }
}

/// The number of bytes of `d` up to and including its last line feed.
pub open spec fn complete_len(d: Seq<u8>) -> nat {
    (d.len() - pending(d).len()) as nat
}

/// The decoded text of every line of `ls`, or `None` where one of them is not
/// valid UTF-8.
pub open spec fn decode_all(ls: Seq<Seq<u8>>) -> Option<Seq<Seq<char>>>
    decreases ls.len(),
{
    if ls.len() == 0 {
        Some(seq![])
    } else {
        match (decode_all(ls.drop_last()), utf8_decoded(ls.last())) {
            (Some(done), Some(l)) => Some(done.push(l)),
            _ => None,
        }
    }
}

/// The decoded complete lines of a delta, or `None` where the delta is not
/// valid UTF-8 as a whole or one of its complete lines is not.
pub open spec fn decoded_lines(d: Seq<u8>) -> Option<Seq<Seq<char>>> {
    if d.len() == 0 {
        Some(seq![])
    } else if utf8_decoded(d) is None {
        None
    } else {
        decode_all(log_lines(d))
    }
}

/// The texts of a vector of strings.
pub open spec fn texts(v: Seq<String>) -> Seq<Seq<char>> {
    v.map_values(|s: String| s@)
}

/// The pending tail is part of the delta.
pub proof fn lemma_pending_len(d: Seq<u8>)
    ensures
        pending(d).len() <= d.len(),
    decreases d.len(),
{
    if d.len() > 0 {
        lemma_pending_len(d.drop_last());
    }
}

/// The text held by an optional string.
pub open spec fn text_of(r: Option<String>) -> Option<Seq<char>> {
    match r {
        Some(s) => Some(s@),
        None => None,
    }
}

/// Relies on `String::from_utf8`: it succeeds exactly on valid UTF-8, and the
/// empty byte string decodes to the empty text.
#[verifier::external_body]
fn decode_utf8(b: &[u8]) -> (r: Option<String>)
    ensures
        text_of(r) == utf8_decoded(b@),
        b@.len() == 0 ==> text_of(r) == Some(Seq::<char>::empty()),
{
    String::from_utf8(b.to_vec()).ok()
}

/// The complete lines of a delta read, decoded, and the number of bytes they
/// span; `Err` with the delta's length where the delta is not UTF-8.
pub fn split_lines(d: &Vec<u8>) -> (r: Result<(Vec<String>, usize), usize>)
    ensures
        match decoded_lines(d@) {
            Some(ls) => r matches Ok((v, n)) && texts(v@) == ls && n == complete_len(d@),
            None => r matches Err(n) && n == d@.len(),
        },
{
    if d.len() > 0 && decode_utf8(d.as_slice()).is_none() {
        return Err(d.len());
    }
    let mut lines: Vec<String> = Vec::new();
    let mut cur: Vec<u8> = Vec::new();
    let mut bad: bool = false;
    let mut i: usize = 0;
    while i < d.len()
        invariant
            i <= d@.len(),
            cur@ == pending(d@.take(i as int)),
            cur@.len() <= i,
            bad <==> decode_all(log_lines(d@.take(i as int))) is None,
            !bad ==> decode_all(log_lines(d@.take(i as int))) == Some(texts(lines@)),
        decreases d@.len() - i,
    {
        let b = d[i];
        let ghost t0 = d@.take(i as int);
        let ghost t1 = d@.take(i + 1);
        proof {
            assert(t1.drop_last() =~= t0);
            assert(t1.last() == b);
        }
        if b == LINE_FEED {
            let mut line = cur;
            cur = Vec::new();
            if line.len() > 0 && line[line.len() - 1] == CARRIAGE_RETURN {
                line.pop();
            }
            let ghost ls = log_lines(t1);
            proof {
                assert(line@ =~= trim_cr(pending(t0)));
                assert(ls == log_lines(t0).push(line@));
                assert(ls.drop_last() =~= log_lines(t0));
                assert(ls.last() == line@);
            }
            if !bad {
                let ghost before = lines@;
                match decode_utf8(line.as_slice()) {
                    Some(s) => {
                        lines.push(s);
                        proof {
                            assert(texts(lines@) =~= texts(before).push(s@));
                        }
                    },
                    None => {
                        bad = true;
                    },
                }
            }
        } else {
            cur.push(b);
            proof {
                assert(cur@ =~= pending(t1));
                assert(log_lines(t1) == log_lines(t0));
            }
        }
        i = i + 1;
    }
    proof {
        assert(d@.take(d@.len() as int) =~= d@);
    }
    if bad {
        Err(d.len())
    } else {
        Ok((lines, d.len() - cur.len()))
    }
}

} // verus!
