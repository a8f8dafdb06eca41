//! Contract signatures: the `isValidSignature(bytes32,bytes)` call and its
//! answer.
//!
//! A contract account accepts a signature by answering the call with the
//! call's own four-byte selector. The call data is the selector followed by
//! the ABI encoding of the two arguments: the hash, the offset of the byte
//! string (always 64), its length, and its bytes padded with zeros to a
//! multiple of 32.

use vstd::prelude::*;

verus! {

/// Selector of `isValidSignature(bytes32,bytes)`, which is also the answer
/// of a contract that accepts the signature.
pub const ERC1271_MAGIC_VALUE: [u8; 4] = [0x16, 0x26, 0xba, 0x7e];

/// The selector as a sequence.
pub open spec fn spec_magic() -> Seq<u8> {
    seq![0x16u8, 0x26u8, 0xbau8, 0x7eu8]
}

/// Whether a contract's answer accepts the signature: it starts with the
/// four bytes of the selector.
pub open spec fn spec_is_magic(answer: Seq<u8>) -> bool {
    answer.len() >= 4 && answer.subrange(0, 4) == spec_magic()
}

/// Whether a contract's answer accepts the signature.
pub fn is_erc1271_magic(answer: &[u8]) -> (res: bool)
    ensures
        res == spec_is_magic(answer@),
{
    if answer.len() < 4 {
        return false;
    }
    let res = answer[0] == 0x16 && answer[1] == 0x26 && answer[2] == 0xba && answer[3] == 0x7e;
    proof {
        let head = answer@.subrange(0, 4);
        assert(head.len() == 4);
        assert(head[0] == answer@[0] && head[1] == answer@[1] && head[2] == answer@[2] && head[3]
            == answer@[3]);
        if res {
            assert(head =~= spec_magic());
        } else {
            assert(spec_magic()[0] == 0x16u8 && spec_magic()[1] == 0x26u8 && spec_magic()[2]
                == 0xbau8 && spec_magic()[3] == 0x7eu8);
        }
    }
    res
}

/// The big-endian digits of `n` in base 256, `width` of them; higher digits
/// are cut off.
pub open spec fn spec_be_bytes(n: nat, width: nat) -> Seq<u8>
    decreases width,
{
    if width == 0 {
        Seq::empty()
    } else {
        spec_be_bytes(n / 256, (width - 1) as nat).push((n % 256) as u8)
    }
}

/// `count` zero bytes.
pub open spec fn spec_zeros(count: nat) -> Seq<u8> {
    Seq::new(count, |i: int| 0u8)
}

/// Number of zero bytes that pad `len` bytes to a multiple of 32.
pub open spec fn spec_padding(len: nat) -> nat {
    ((32 - len % 32) % 32) as nat
}

/// The call data of `isValidSignature(hash, signature)`.
pub open spec fn spec_call_data(hash: Seq<u8>, signature: Seq<u8>) -> Seq<u8> {
    spec_magic() + hash + spec_be_bytes(64, 32) + spec_be_bytes(signature.len(), 32) + signature
        + spec_zeros(spec_padding(signature.len()))
}

/// Appends `n` as a 32-byte big-endian word.
fn push_word(out: &mut Vec<u8>, n: usize)
    ensures
        final(out)@ == old(out)@ + spec_be_bytes(n as nat, 32),
{
    let mut word: [u8; 32] = [0u8; 32];
    let mut rest: usize = n;
    let mut filled: usize = 0;
    assert(word@.subrange(32, 32) =~= Seq::<u8>::empty());
    while filled < 32
        invariant
            filled <= 32,
            spec_be_bytes(n as nat, 32) == spec_be_bytes(rest as nat, (32 - filled) as nat)
                + word@.subrange(32 - filled, 32),
        decreases 32 - filled,
    {
        let at: usize = 31 - filled;
        let digit: u8 = (rest % 256) as u8;
        let ghost before = word@;
        word[at] = digit;
        proof {
            let tail_before = before.subrange(32 - filled, 32);
            let tail_after = word@.subrange(31 - filled, 32);
            assert(tail_after =~= seq![digit] + tail_before);
            let head = spec_be_bytes((rest / 256) as nat, (31 - filled) as nat);
            assert(spec_be_bytes(rest as nat, (32 - filled) as nat) == head.push(digit));
            assert(head.push(digit) + tail_before =~= head + (seq![digit] + tail_before));
        }
        rest = rest / 256;
        filled += 1;
    }
    assert(spec_be_bytes(rest as nat, 0) =~= Seq::<u8>::empty());
    assert(word@.subrange(0, 32) =~= word@);
    let ghost start = out@;
    let mut i: usize = 0;
    while i < 32
        invariant
            i <= 32,
            out@ == start + word@.take(i as int),
        decreases 32 - i,
    {
        out.push(word[i]);
        assert(out@ =~= start + word@.take(i as int + 1));
        i += 1;
    }
    assert(word@.take(32) =~= word@);
    assert(Seq::<u8>::empty() + word@ =~= word@);
}

/// Appends the bytes of `bytes`.
fn push_bytes(out: &mut Vec<u8>, bytes: &[u8])
    ensures
        final(out)@ == old(out)@ + bytes@,
{
    let ghost start = out@;
    let mut i: usize = 0;
    while i < bytes.len()
        invariant
            i <= bytes.len(),
            out@ == start + bytes@.take(i as int),
        decreases bytes.len() - i,
    {
        out.push(bytes[i]);
        assert(out@ =~= start + bytes@.take(i as int + 1));
        i += 1;
    }
    assert(bytes@.take(bytes.len() as int) =~= bytes@);
}

/// The call data of `isValidSignature(hash, signature)`.
pub fn erc1271_call_data(hash: &[u8; 32], signature: &[u8]) -> (res: Vec<u8>)
    ensures
        res@ == spec_call_data(hash@, signature@),
{
    let mut out: Vec<u8> = Vec::new();
    push_bytes(&mut out, ERC1271_MAGIC_VALUE.as_slice());
    assert(out@ =~= spec_magic());
    push_bytes(&mut out, hash.as_slice());
    push_word(&mut out, 64);
    push_word(&mut out, signature.len());
    push_bytes(&mut out, signature);
    let padding: usize = (32 - signature.len() % 32) % 32;
    let ghost start = out@;
    let mut i: usize = 0;
    while i < padding
        invariant
            i <= padding,
            out@ == start + spec_zeros(i as nat),
        decreases padding - i,
    {
        out.push(0u8);
        assert(out@ =~= start + spec_zeros((i + 1) as nat));
        i += 1;
    }
    assert(start + spec_zeros(0) =~= start);
    out
}

} // verus!
