//! The transform on byte buffers.

use vstd::prelude::*;

use crate::error::Error;

verus! {

/// Position by position XOR of two byte sequences, as long as the first.
pub open spec fn xor_bytes(a: Seq<u8>, b: Seq<u8>) -> Seq<u8>
    recommends
        a.len() == b.len(),
{
    Seq::new(a.len(), |i: int| a[i] ^ b[i])
}

/// Decrypts data using the one-time pad.
///
/// `buf_in1` and `buf_in2` must have the same size, and `buf_out` must not
/// be smaller. The first `buf_in1.len()` bytes of `buf_out` become the XOR of
/// the two inputs; the rest of `buf_out` is left as it was.
pub fn decrypt(buf_in1: &[u8], buf_in2: &[u8], buf_out: &mut [u8]) -> (res: Result<(), Error>)
    requires
        buf_in1@.len() == buf_in2@.len(),
        old(buf_out)@.len() >= buf_in1@.len(),
    ensures
        res is Ok,
        final(buf_out)@.len() == old(buf_out)@.len(),
        final(buf_out)@.take(buf_in1@.len() as int) == xor_bytes(buf_in1@, buf_in2@),
        final(buf_out)@.skip(buf_in1@.len() as int) == old(buf_out)@.skip(buf_in1@.len() as int),
{
    let n: usize = buf_in1.len();
    let mut i: usize = 0;
    while i < n
        invariant
            n == buf_in1@.len(),
            n == buf_in2@.len(),
            i <= n,
            buf_out@.len() == old(buf_out)@.len(),
            buf_out@.len() >= n,
            forall|j: int| 0 <= j < i ==> buf_out@[j] == buf_in1@[j] ^ buf_in2@[j],
            forall|j: int| i <= j < buf_out@.len() ==> buf_out@[j] == old(buf_out)@[j],
        decreases n - i,
    {
        buf_out[i] = buf_in1[i] ^ buf_in2[i];
        i = i + 1;
    }
    Ok(())
}

/// `rand::rngs::ThreadRng`, carried through as an opaque value.
#[verifier::external_type_specification]
#[verifier::external_body]
pub struct ExThreadRng(rand::rngs::ThreadRng);

/// Calls `rand::thread_rng`, which hands out the calling thread's generator:
/// a cryptographically strong generator that the operating system seeds. It
/// takes no argument; it panics only where the operating system cannot seed
/// the generator. Nothing is claimed of the handle.
#[verifier::external_body]
fn pad_source() -> rand::rngs::ThreadRng {
    rand::thread_rng()
}

/// Calls `rand::Rng::gen_range` with the range `0..=255`, which is not empty.
/// The byte is random: nothing is claimed of it beyond its type.
#[verifier::external_body]
fn pad_byte(rng: &mut rand::rngs::ThreadRng) -> u8 {
    rand::Rng::gen_range(rng, 0..=255)
}

/// Encrypts data using the one-time pad.
///
/// Neither `buf_out1` nor `buf_out2` may be smaller than `buf_in`. The first
/// `buf_in.len()` bytes of `buf_out1` become a freshly drawn pad, each byte
/// drawn from the whole range of a byte, and the first `buf_in.len()` bytes
/// of `buf_out2` the input under that pad. The rest of both buffers is left
/// as it was.
pub fn encrypt(buf_in: &[u8], buf_out1: &mut [u8], buf_out2: &mut [u8]) -> (res: Result<(), Error>)
    requires
        old(buf_out1)@.len() >= buf_in@.len(),
        old(buf_out2)@.len() >= buf_in@.len(),
    ensures
        res is Ok,
        final(buf_out1)@.len() == old(buf_out1)@.len(),
        final(buf_out2)@.len() == old(buf_out2)@.len(),
        final(buf_out2)@.take(buf_in@.len() as int) == xor_bytes(
            buf_in@,
            final(buf_out1)@.take(buf_in@.len() as int),
        ),
        final(buf_out1)@.skip(buf_in@.len() as int) == old(buf_out1)@.skip(buf_in@.len() as int),
        final(buf_out2)@.skip(buf_in@.len() as int) == old(buf_out2)@.skip(buf_in@.len() as int),
{
    let n: usize = buf_in.len();
    let mut rng = pad_source();
    let mut i: usize = 0;
    while i < n
        invariant
            n == buf_in@.len(),
            i <= n,
            buf_out1@.len() == old(buf_out1)@.len(),
            buf_out2@.len() == old(buf_out2)@.len(),
            buf_out1@.len() >= n,
            buf_out2@.len() >= n,
            forall|j: int| 0 <= j < i ==> buf_out2@[j] == buf_in@[j] ^ buf_out1@[j],
            forall|j: int| i <= j < buf_out1@.len() ==> buf_out1@[j] == old(buf_out1)@[j],
            forall|j: int| i <= j < buf_out2@.len() ==> buf_out2@[j] == old(buf_out2)@[j],
        decreases n - i,
    {
        let pad: u8 = pad_byte(&mut rng);
        buf_out1[i] = pad;
        buf_out2[i] = buf_in[i] ^ pad;
        i = i + 1;
    }
    Ok(())
}

/// Round trip: what encryption makes of a plaintext decrypts to that
/// plaintext, whichever of the two companions is given first. `pad` stands
/// for the pad that was drawn, of the plaintext's length.
pub proof fn lemma_round_trip(plain: Seq<u8>, pad: Seq<u8>)
    requires
        pad.len() == plain.len(),
    ensures
        xor_bytes(pad, xor_bytes(plain, pad)) == plain,
        xor_bytes(xor_bytes(plain, pad), pad) == plain,
{
    assert forall|i: int| 0 <= i < plain.len() implies pad[i] ^ (plain[i] ^ pad[i]) == plain[i]
        && (plain[i] ^ pad[i]) ^ pad[i] == plain[i] by {
        let p: u8 = plain[i];
        let k: u8 = pad[i];
        assert(k ^ (p ^ k) == p && (p ^ k) ^ k == p) by (bit_vector);
    }
    assert(xor_bytes(pad, xor_bytes(plain, pad)) =~= plain);
    assert(xor_bytes(xor_bytes(plain, pad), pad) =~= plain);
}

/// The order of the two inputs of a decryption does not matter.
pub proof fn lemma_xor_commutes(a: Seq<u8>, b: Seq<u8>)
    requires
        a.len() == b.len(),
    ensures
        xor_bytes(a, b) == xor_bytes(b, a),
{
    assert forall|i: int| 0 <= i < a.len() implies a[i] ^ b[i] == b[i] ^ a[i] by {
        let x: u8 = a[i];
        let y: u8 = b[i];
        assert(x ^ y == y ^ x) by (bit_vector);
    }
    assert(xor_bytes(a, b) =~= xor_bytes(b, a));
}

/// Chunk boundaries do not matter: transforming two streams chunk by chunk
/// gives what transforming them whole gives, wherever the boundary lies.
pub proof fn lemma_xor_chunks(a1: Seq<u8>, a2: Seq<u8>, b1: Seq<u8>, b2: Seq<u8>)
    requires
        a1.len() == b1.len(),
        a2.len() == b2.len(),
    ensures
        xor_bytes(a1 + a2, b1 + b2) == xor_bytes(a1, b1) + xor_bytes(a2, b2),
{
    assert(xor_bytes(a1 + a2, b1 + b2) =~= xor_bytes(a1, b1) + xor_bytes(a2, b2));
}

} // verus!
