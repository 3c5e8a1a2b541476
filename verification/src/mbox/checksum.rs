//! The checksum of mailbox messages. A message starts with a 32-bit
//! little-endian checksum; with the bytes of the command code (zero for a
//! response) and of the rest of the message, it sums to zero modulo 2^32.
use crate::flash_image::{byte_sum, calculate_checksum, checksum};
use crate::mbox::request::{spec_cmd_code, McuMailboxReqKind};
use crate::wire::{append_bytes, le4, push_u32};
use vstd::prelude::*;
use vstd::slice::slice_subrange;

verus! {

/// The checksum of a message body sent with a command code: the checksum of
/// the code's little-endian bytes followed by the body.
pub open spec fn mbox_checksum(cmd: u32, body: Seq<u8>) -> u32 {
    checksum(le4(cmd) + body)
}

/// The message with its first four bytes replaced by the checksum of the
/// rest under the command code.
pub open spec fn with_checksum(cmd: u32, message: Seq<u8>) -> Seq<u8> {
    le4(mbox_checksum(cmd, message.skip(4))) + message.skip(4)
}

/// The checksum of `data` under the command code `cmd`.
pub fn calc_checksum(cmd: u32, data: &[u8]) -> (r: u32)
    ensures
        r == mbox_checksum(cmd, data@),
{
    let mut all: Vec<u8> = Vec::new();
    push_u32(&mut all, cmd);
    append_bytes(&mut all, data);
    assert(all@ =~= le4(cmd) + data@);
    calculate_checksum(all.as_slice())
}

/// Whether `chksum` is the checksum of `data` under `cmd`.
pub fn verify_checksum(chksum: u32, cmd: u32, data: &[u8]) -> (r: bool)
    ensures
        r == (chksum == mbox_checksum(cmd, data@)),
{
    calc_checksum(cmd, data) == chksum
}

/// Writes into the first four bytes of a message the checksum of the rest of
/// it under `cmd`.
pub fn populate_checksum(cmd: u32, message: &mut [u8])
    requires
        old(message)@.len() >= 4,
    ensures
        final(message)@ == with_checksum(cmd, old(message)@),
{
    let chk = {
        let len = message.len();
        let body = slice_subrange(message, 4, len);
        assert(body@ =~= message@.skip(4));
        calc_checksum(cmd, body)
    };
    let mut head: Vec<u8> = Vec::new();
    push_u32(&mut head, chk);
    let ghost body = message@.skip(4);
    let mut i: usize = 0;
    while i < 4
        invariant
            i <= 4,
            head@ == le4(chk),
            message@.len() >= 4,
            message@.skip(4) == body,
            forall|k: int| 0 <= k < i ==> message@[k] == head@[k],
        decreases 4 - i,
    {
        message[i] = head[i];
        assert(message@.skip(4) =~= body);
        i = i + 1;
    }
    assert(message@ =~= le4(chk) + body);
}

impl McuMailboxReqKind {
    /// Writes into the first four bytes of the request's wire bytes the
    /// checksum of the rest under the request's command code.
    pub fn populate_chksum(&self, message: &mut [u8])
        requires
            old(message)@.len() >= 4,
        ensures
            final(message)@ == with_checksum(spec_cmd_code(*self).0, old(message)@),
    {
        let code = self.cmd_code();
        populate_checksum(code.0, message);
    }
}

/// Writes into the first four bytes of a response the checksum of the rest
/// of it (a response is summed with command code zero).
pub fn populate_response_chksum(message: &mut [u8])
    requires
        old(message)@.len() >= 4,
    ensures
        final(message)@ == with_checksum(0, old(message)@),
{
    populate_checksum(0, message);
}

/// The checksum and the bytes it covers sum to zero modulo 2^32.
pub proof fn lemma_checksum_cancels(s: Seq<u8>)
    ensures
        (checksum(s) as nat + byte_sum(s)) % 0x1_0000_0000 == 0,
{
    let m: int = 0x1_0000_0000;
    let t: int = byte_sum(s) as int;
    let c: int = checksum(s) as int;
    assert(c == (m - t % m) % m);
    assert((c + t) % m == 0) by (nonlinear_arith)
        requires
            m == 0x1_0000_0000,
            t >= 0,
            c == (m - t % m) % m,
    {
        assert(t == m * (t / m) + t % m);
        assert(0 <= t % m < m);
        if t % m == 0 {
            assert(c == 0);
            assert(c + t == m * (t / m));
        } else {
            assert(c == m - t % m);
            assert(c + t == m * (t / m + 1));
        }
    }
}

/// A message whose checksum was populated passes the check: the checksum
/// it carries is that of the rest of it, and with the command code's bytes
/// and the rest it sums to zero modulo 2^32; the rest is unchanged.
pub proof fn lemma_populated_message_verifies(cmd: u32, message: Seq<u8>)
    requires
        message.len() >= 4,
    ensures
        with_checksum(cmd, message).len() == message.len(),
        with_checksum(cmd, message).take(4) == le4(mbox_checksum(cmd, message.skip(4))),
        with_checksum(cmd, message).skip(4) == message.skip(4),
        (mbox_checksum(cmd, message.skip(4)) as nat + byte_sum(le4(cmd) + with_checksum(cmd, message).skip(4)))
            % 0x1_0000_0000 == 0,
{
    let w = with_checksum(cmd, message);
    assert(w.take(4) =~= le4(mbox_checksum(cmd, message.skip(4))));
    assert(w.skip(4) =~= message.skip(4));
    lemma_checksum_cancels(le4(cmd) + message.skip(4));
}

} // verus!
