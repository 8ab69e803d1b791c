//! Byte-string helpers: the protocol's literal tokens, comparison, and
//! decimal rendering of counters, each with an exact specification.

use vstd::prelude::*;
use vstd::utf8::valid_utf8;
use vstd::utf8::valid_utf8_concat;

verus! {

/// The delimiter token `<IDS|MSG>` that separates routing frames from the
/// signed message body.
pub open spec fn spec_delimiter() -> Seq<u8> {
    seq![60u8, 73u8, 68u8, 83u8, 124u8, 77u8, 83u8, 71u8, 62u8]
}

/// The fixed username `vinayak` placed in every outbound header.
pub open spec fn spec_username() -> Seq<u8> {
    seq![118u8, 105u8, 110u8, 97u8, 121u8, 97u8, 107u8]
}

/// The message type `execute_request`.
pub open spec fn spec_execute_request() -> Seq<u8> {
    seq![101u8, 120u8, 101u8, 99u8, 117u8, 116u8, 101u8, 95u8, 114u8, 101u8, 113u8, 117u8, 101u8, 115u8, 116u8]
}

/// The message type `status`.
pub open spec fn spec_status() -> Seq<u8> {
    seq![115u8, 116u8, 97u8, 116u8, 117u8, 115u8]
}

/// The message type `stream`.
pub open spec fn spec_stream() -> Seq<u8> {
    seq![115u8, 116u8, 114u8, 101u8, 97u8, 109u8]
}

/// The message type `execute_input`.
pub open spec fn spec_execute_input() -> Seq<u8> {
    seq![101u8, 120u8, 101u8, 99u8, 117u8, 116u8, 101u8, 95u8, 105u8, 110u8, 112u8, 117u8, 116u8]
}

/// The message type `error`.
pub open spec fn spec_error() -> Seq<u8> {
    seq![101u8, 114u8, 114u8, 111u8, 114u8]
}

/// The execution state `starting`.
pub open spec fn spec_starting() -> Seq<u8> {
    seq![115u8, 116u8, 97u8, 114u8, 116u8, 105u8, 110u8, 103u8]
}

/// The execution state `idle`.
pub open spec fn spec_idle() -> Seq<u8> {
    seq![105u8, 100u8, 108u8, 101u8]
}

/// The execution state `busy`.
pub open spec fn spec_busy() -> Seq<u8> {
    seq![98u8, 117u8, 115u8, 121u8]
}

/// The stream name `stdout`.
pub open spec fn spec_stdout() -> Seq<u8> {
    seq![115u8, 116u8, 100u8, 111u8, 117u8, 116u8]
}

/// The stream name `stderr`.
pub open spec fn spec_stderr() -> Seq<u8> {
    seq![115u8, 116u8, 100u8, 101u8, 114u8, 114u8]
}

/// The delimiter token as a byte vector.
pub fn delimiter() -> (r: Vec<u8>)
    ensures
        r@ == spec_delimiter(),
{
    let r: Vec<u8> = vec![60u8, 73u8, 68u8, 83u8, 124u8, 77u8, 83u8, 71u8, 62u8];
    proof {
        assert(r@ =~= spec_delimiter());
    }
    r
}

/// The fixed username as a byte vector.
pub fn username() -> (r: Vec<u8>)
    ensures
        r@ == spec_username(),
{
    let r: Vec<u8> = vec![118u8, 105u8, 110u8, 97u8, 121u8, 97u8, 107u8];
    proof {
        assert(r@ =~= spec_username());
    }
    r
}

/// The message type `execute_request` as a byte vector.
pub fn execute_request() -> (r: Vec<u8>)
    ensures
        r@ == spec_execute_request(),
{
    let r: Vec<u8> = vec![101u8, 120u8, 101u8, 99u8, 117u8, 116u8, 101u8, 95u8, 114u8, 101u8, 113u8, 117u8, 101u8, 115u8, 116u8];
    proof {
        assert(r@ =~= spec_execute_request());
    }
    r
}

/// Byte-for-byte equality of two byte vectors.
pub fn bytes_eq(a: &Vec<u8>, b: &Vec<u8>) -> (r: bool)
    ensures
        r == (a@ == b@),
{
    if a.len() != b.len() {
        return false;
    }
    let mut i: usize = 0;
    while i < a.len()
        invariant
            i <= a@.len(),
            a@.len() == b@.len(),
            forall|j: int| 0 <= j < i ==> a@[j] == b@[j],
        decreases a@.len() - i,
    {
        if a[i] != b[i] {
            proof {
                assert(a@[i as int] != b@[i as int]);
            }
            return false;
        }
        i += 1;
    }
    proof {
        assert(a@ =~= b@);
    }
    true
}

/// True when the bytes are valid UTF-8. Relies on `core::str::from_utf8`,
/// which succeeds exactly on valid UTF-8 input.
#[verifier::external_body]
pub(crate) fn check_utf8(b: &Vec<u8>) -> (r: bool)
    ensures
        r == valid_utf8(b@),
{
    core::str::from_utf8(b.as_slice()).is_ok()
}

/// A fresh copy of a byte vector.
pub fn copy_bytes(v: &Vec<u8>) -> (r: Vec<u8>)
    ensures
        r@ == v@,
{
    let mut r: Vec<u8> = Vec::new();
    let mut i: usize = 0;
    while i < v.len()
        invariant
            i <= v@.len(),
            r@ == v@.take(i as int),
        decreases v@.len() - i,
    {
        r.push(v[i]);
        proof {
            assert(r@ =~= v@.take(i as int + 1));
        }
        i += 1;
    }
    proof {
        assert(v@.take(v@.len() as int) =~= v@);
    }
    r
}

/// Appends a copy of `src` to `dst`.
pub fn append_bytes(dst: &mut Vec<u8>, src: &Vec<u8>)
    ensures
        final(dst)@ == old(dst)@ + src@,
{
    let mut i: usize = 0;
    while i < src.len()
        invariant
            i <= src@.len(),
            dst@ == old(dst)@ + src@.take(i as int),
        decreases src@.len() - i,
    {
        dst.push(src[i]);
        proof {
            assert(old(dst)@ + src@.take(i as int + 1) =~= (old(dst)@ + src@.take(i as int)).push(
                src@[i as int],
            ));
        }
        i += 1;
    }
    proof {
        assert(src@.take(src@.len() as int) =~= src@);
        assert(dst@ =~= old(dst)@ + src@);
    }
}

/// A byte vector's deep view is its view.
pub proof fn lemma_bytes_deep_view(v: Vec<u8>)
    ensures
        v.deep_view() == v@,
{
    assert(v.deep_view() =~= v@);
}

/// Each element of a frame list's deep view is that frame's view.
pub proof fn lemma_frames_deep_view(v: Vec<Vec<u8>>)
    ensures
        v.deep_view().len() == v@.len(),
        forall|i: int| 0 <= i < v@.len() ==> #[trigger] v.deep_view()[i] == v@[i]@,
{
    assert forall|i: int| 0 <= i < v@.len() implies #[trigger] v.deep_view()[i] == v@[i]@ by {
        assert(v.deep_view()[i] =~= v@[i]@);
    }
}

/// The decimal digits of `n`, most significant first.
pub open spec fn spec_dec(n: nat) -> Seq<u8>
    decreases n,
{
    if n < 10 {
        seq![(48 + n) as u8]
    } else {
        spec_dec(n / 10).push((48 + n % 10) as u8)
    }
}

/// Renders a counter as its decimal digits.
pub fn u64_to_dec(n: u64) -> (r: Vec<u8>)
    ensures
        r@ == spec_dec(n as nat),
    decreases n,
{
    if n < 10 {
        let mut v: Vec<u8> = Vec::new();
        v.push(48 + (n as u8));
        proof {
            assert(v@ =~= spec_dec(n as nat));
        }
        v
    } else {
        let mut v = u64_to_dec(n / 10);
        v.push(48 + ((n % 10) as u8));
        proof {
            assert(v@ =~= spec_dec(n as nat));
        }
        v
    }
}

/// Every byte of a decimal rendering is an ASCII digit.
pub proof fn lemma_dec_is_ascii(n: nat)
    ensures
        forall|i: int| 0 <= i < spec_dec(n).len() ==> 48 <= #[trigger] spec_dec(n)[i] <= 57,
    decreases n,
{
    if n < 10 {
        assert(spec_dec(n) =~= seq![(48 + n) as u8]);
    } else {
        lemma_dec_is_ascii(n / 10);
        assert(spec_dec(n) =~= spec_dec(n / 10).push((48 + n % 10) as u8));
        assert forall|i: int| 0 <= i < spec_dec(n).len() implies 48 <= #[trigger] spec_dec(n)[i]
            <= 57 by {
            if i < spec_dec(n / 10).len() {
                assert(spec_dec(n)[i] == spec_dec(n / 10)[i]);
            } else {
                assert(spec_dec(n)[i] == (48 + n % 10) as u8);
            }
        }
    }
}

/// A sequence of ASCII bytes is valid UTF-8.
pub proof fn lemma_ascii_valid_utf8(s: Seq<u8>)
    requires
        forall|i: int| 0 <= i < s.len() ==> #[trigger] s[i] < 128,
    ensures
        valid_utf8(s),
    decreases s.len(),
{
    if s.len() > 0 {
        let head = s.subrange(0, 1);
        let tail = s.subrange(1, s.len() as int);
        assert(head[0] == s[0] && head[0] < 128);
        assert(valid_utf8(head)) by {
            let b = head[0];
            assert(b & 0x7f < 0x80) by (bit_vector);
            assert(vstd::utf8::is_leading_byte_width_1(b));
            assert(vstd::utf8::valid_first_scalar(head));
            assert(vstd::utf8::length_of_first_scalar(head) == 1);
            assert(vstd::utf8::pop_first_scalar(head) =~= Seq::<u8>::empty());
            assert(valid_utf8(Seq::<u8>::empty()));
        }
        lemma_ascii_valid_utf8(tail);
        valid_utf8_concat(head, tail);
        assert(head + tail =~= s);
    }
}

} // verus!
