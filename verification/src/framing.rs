//! Wire framing of the control channel: bytes arrive one at a time and
//! a command line is complete when the two-byte terminator appears. The
//! terminator is stripped, and so is a single leading space before the
//! verb, before the line is handed to the parser.

use vstd::prelude::*;

verus! {

/// Whether `s` ends in the line terminator.
pub open spec fn ends_crlf(s: Seq<u8>) -> bool {
    s.len() >= 2 && s[s.len() - 2] == '\r' as u8 && s[s.len() - 1] == '\n' as u8
}

/// `s` with one leading space removed, when it has one.
pub open spec fn strip_one_space(s: Seq<u8>) -> Seq<u8> {
    if s.len() > 0 && s[0] == ' ' as u8 {
        s.skip(1)
    } else {
        s
    }
}

/// Accumulates the bytes of one command line.
pub struct LineReader {
    pub buf: Vec<u8>,
}

impl LineReader {
    /// An empty accumulator.
    pub fn new() -> (r: LineReader)
        ensures
            r.buf@ == Seq::<u8>::empty(),
    {
        LineReader { buf: Vec::new() }
    }

    /// Take in one byte. When it completes the terminator, the stripped
    /// line comes back and the accumulator is empty again; otherwise
    /// the byte is kept.
    pub fn push_byte(&mut self, b: u8) -> (r: Option<Vec<u8>>)
        ensures
            ({
                let grown = old(self).buf@.push(b);
                if ends_crlf(grown) {
                    &&& r matches Some(line) && line@ == strip_one_space(
                        grown.take(grown.len() - 2),
                    )
                    &&& final(self).buf@ == Seq::<u8>::empty()
                } else {
                    &&& r is None
                    &&& final(self).buf@ == grown
                }
            }),
    {
        self.buf.push(b);
        let n = self.buf.len();
        if n >= 2 && self.buf[n - 2] == '\r' as u8 && self.buf[n - 1] == '\n' as u8 {
            let ghost grown = self.buf@;
            let start: usize = if self.buf.len() > 2 && self.buf[0] == ' ' as u8 {
                1
            } else {
                0
            };
            let mut line: Vec<u8> = Vec::new();
            let mut i: usize = start;
            while i < n - 2
                invariant
                    start <= i <= n - 2,
                    n == grown.len(),
                    self.buf@ == grown,
                    line@ == grown.subrange(start as int, i as int),
                decreases n - 2 - i,
            {
                line.push(self.buf[i]);
                proof {
                    assert(line@ =~= grown.subrange(start as int, i + 1));
                }
                i = i + 1;
            }
            self.buf.clear();
            proof {
                assert(line@ =~= strip_one_space(grown.take(grown.len() - 2)));
            }
            Some(line)
        } else {
            None
        }
    }
}

} // verus!
