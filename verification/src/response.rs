//! Replies on the control channel and their wire rendering.

use vstd::prelude::*;
use vstd::string::StringSliceAdditionalSpecFns;
use crate::codes::ResultCode;

verus! {

/// One status reply: a numeric code and a human-readable message.
#[derive(Debug)]
pub struct Reply {
    pub code: ResultCode,
    pub text: Vec<u8>,
}

/// The mathematical shape of a reply: its code and message bytes.
#[verifier::ext_equal]
pub ghost struct ReplyModel {
    pub code: ResultCode,
    pub text: Seq<u8>,
}

impl Reply {
    /// The reply as a value over byte sequences.
    pub open spec fn model(&self) -> ReplyModel {
        ReplyModel { code: self.code, text: self.text@ }
    }
}

/// The decimal digits of `n`, most significant first.
pub open spec fn dec_digits(n: nat) -> Seq<u8>
    decreases n,
{
    if n < 10 {
        seq![(48 + n) as u8]
    } else {
        dec_digits(n / 10).push((48 + n % 10) as u8)
    }
}

/// The bytes that a reply puts on the wire: `"<code> <text>\r\n"`, or the
/// bare command-not-implemented code when the message is empty.
pub open spec fn rendered(code: ResultCode, text: Seq<u8>) -> Seq<u8> {
    if text.len() == 0 {
        dec_digits(ResultCode::CommandNotImplemented.spec_value() as nat) + "\r\n".spec_bytes()
    } else {
        dec_digits(code.spec_value() as nat) + " ".spec_bytes() + text + "\r\n".spec_bytes()
    }
}

/// Append the bytes of a string constant to `out`.
pub fn push_str_bytes(out: &mut Vec<u8>, s: &str)
    ensures
        final(out)@ == old(out)@ + s.spec_bytes(),
{
    out.extend_from_slice(s.as_bytes());
    proof {
        assert forall|i: int| 0 <= i < out@.len() implies out@[i] == (old(out)@
            + s.spec_bytes())[i] by {
            if i >= old(out)@.len() {
                assert(cloned::<u8>(s.spec_bytes()[i - old(out)@.len()], out@[i]));
            }
        }
        assert(out@ =~= old(out)@ + s.spec_bytes());
    }
}

/// Append a copy of `src` to `out`.
pub fn push_bytes(out: &mut Vec<u8>, src: &Vec<u8>)
    ensures
        final(out)@ == old(out)@ + src@,
{
    out.extend_from_slice(src.as_slice());
    proof {
        assert forall|i: int| 0 <= i < out@.len() implies out@[i] == (old(out)@ + src@)[i] by {
            if i >= old(out)@.len() {
                assert(cloned::<u8>(src@[i - old(out)@.len()], out@[i]));
            }
        }
        assert(out@ =~= old(out)@ + src@);
    }
}

/// The decimal rendering of `n`.
pub fn u64_to_dec(n: u64) -> (r: Vec<u8>)
    ensures
        r@ == dec_digits(n as nat),
    decreases n,
{
    if n < 10 {
        let mut v: Vec<u8> = Vec::new();
        v.push(48 + (n as u8));
        proof {
            assert(v@ =~= dec_digits(n as nat));
        }
        v
    } else {
        let mut v = u64_to_dec(n / 10);
        v.push(48 + ((n % 10) as u8));
        v
    }
}

/// Turn a reply into the line sent on the control channel.
pub fn render_reply(r: &Reply) -> (out: Vec<u8>)
    ensures
        out@ == rendered(r.code, r.text@),
{
    let mut out: Vec<u8> = Vec::new();
    if r.text.len() == 0 {
        let mut d = u64_to_dec(502);
        out.append(&mut d);
        push_str_bytes(&mut out, "\r\n");
        proof {
            assert(out@ =~= rendered(r.code, r.text@));
        }
    } else {
        let mut d = u64_to_dec(r.code.value() as u64);
        out.append(&mut d);
        push_str_bytes(&mut out, " ");
        push_bytes(&mut out, &r.text);
        push_str_bytes(&mut out, "\r\n");
        proof {
            assert(out@ =~= rendered(r.code, r.text@));
        }
    }
    out
}

} // verus!
