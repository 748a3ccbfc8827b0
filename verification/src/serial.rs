//! The keys of an interactive serial console: Ctrl-A sends the next key as it is,
//! Ctrl-C (not after Ctrl-A) ends the session.
use vstd::prelude::*;

verus! {

/// What is left of a chunk of input after the console's keys are handled.
pub struct SerialChunk {
    /// The bytes to send to the instance.
    pub out: Vec<u8>,
    /// The next byte is to be sent as it is (a Ctrl-A ended the chunk).
    pub next_raw: bool,
    /// The session ends after `out` is sent.
    pub exit: bool,
}

/// The bytes to send for the input `s` when `raw` says whether the first byte is
/// escaped, whether the byte after `s` is escaped, and whether a Ctrl-C ended the
/// session (the bytes after it are dropped).
pub open spec fn serial_filter(raw: bool, s: Seq<u8>) -> (Seq<u8>, bool, bool)
    decreases s.len(),
{
    if s.len() == 0 {
        (Seq::empty(), raw, false)
    } else {
        let (out, r, exit) = serial_filter(raw, s.drop_last());
        let c = s.last();
        if exit {
            (out, r, true)
        } else if c == 1 {
            if r {
                (out.push(c), false, false)
            } else {
                (out, true, false)
            }
        } else if c == 3 {
            if !r {
                (out, r, true)
            } else {
                (out.push(c), false, false)
            }
        } else {
            (out.push(c), false, false)
        }
    }
}

/// Once the session ends, the bytes that follow change nothing.
proof fn lemma_exit_stays(raw: bool, s: Seq<u8>, i: int)
    requires
        0 <= i <= s.len(),
        serial_filter(raw, s.take(i)).2,
    ensures
        serial_filter(raw, s) == serial_filter(raw, s.take(i)),
    decreases s.len() - i,
{
    if i < s.len() {
        assert(s.take(i + 1).drop_last() =~= s.take(i));
        lemma_exit_stays(raw, s, i + 1);
    } else {
        assert(s.take(i) =~= s);
    }
}

/// Handles a chunk of input read from the terminal; `next_raw` carries a Ctrl-A
/// from the previous chunk.
pub fn filter_serial_input(next_raw: bool, input: &Vec<u8>) -> (r: SerialChunk)
    ensures
        (r.out@, r.next_raw, r.exit) == serial_filter(next_raw, input@),
{
    let mut out: Vec<u8> = Vec::new();
    let mut raw = next_raw;
    let mut exit = false;
    let mut i: usize = 0;
    assert(input@.take(0) =~= Seq::<u8>::empty());
    while i < input.len()
        invariant
            i <= input@.len(),
            !exit,
            (out@, raw, exit) == serial_filter(next_raw, input@.take(i as int)),
        decreases input@.len() - i,
    {
        let c = input[i];
        assert(input@.take(i + 1).drop_last() =~= input@.take(i as int));
        if c == 1u8 {
            if raw {
                out.push(c);
                raw = false;
            } else {
                raw = true;
            }
        } else if c == 3u8 {
            if !raw {
                proof {
                    lemma_exit_stays(next_raw, input@, i + 1);
                }
                return SerialChunk { out, next_raw: raw, exit: true };
            } else {
                out.push(c);
                raw = false;
            }
        } else {
            out.push(c);
            raw = false;
        }
        i = i + 1;
    }
    assert(input@.take(input@.len() as int) =~= input@);
    SerialChunk { out, next_raw: raw, exit }
}

} // verus!
