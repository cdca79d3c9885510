//! Whole runs of the pipeline, and what holds of them.
//!
//! A run is modelled on files held as byte sequences. Every request is
//! carried out, and a read gives as many bytes as the buffer holds, or all
//! that the file has left. The phases follow one another as
//! [`EncryptPhase::after`] and [`DecryptPhase::after`] say, and the buffers
//! hold what [`encrypt_file`](crate::encrypt_file) and
//! [`decrypt_file`](crate::decrypt_file) leave in them.

use vstd::prelude::*;

use crate::config::Slot;
use crate::otp::{lemma_round_trip, xor_bytes};
use crate::pipeline::{Action, DecryptPhase, EncryptPhase};

verus! {

/// The count of bytes that a read gives when the file has `remaining` bytes
/// left and the buffer holds `buffer`.
pub open spec fn read_len(buffer: usize, remaining: nat) -> usize {
    if remaining < buffer {
        remaining as usize
    } else {
        buffer
    }
}

/// The files and buffers in the course of an encryption.
pub struct EncryptRun {
    /// What the subject file holds beyond what was read.
    pub plain: Seq<u8>,
    /// The pad bytes that will be drawn, in the order of drawing.
    pub pad: Seq<u8>,
    /// The chunk at the front of the first companion's buffer.
    pub buf_first: Seq<u8>,
    /// The chunk at the front of the second companion's buffer.
    pub buf_second: Seq<u8>,
    /// What was written to the first companion file.
    pub first: Seq<u8>,
    /// What was written to the second companion file.
    pub second: Seq<u8>,
    /// Whether the subject file was deleted.
    pub removed: bool,
}

impl EncryptRun {
    /// The state before the first request: the subject file holds `plain`,
    /// nothing was written, and `pad` is what will be drawn.
    pub open spec fn begin(plain: Seq<u8>, pad: Seq<u8>) -> EncryptRun {
        EncryptRun {
            plain,
            pad,
            buf_first: Seq::empty(),
            buf_second: Seq::empty(),
            first: Seq::empty(),
            second: Seq::empty(),
            removed: false,
        }
    }

    /// The state once `action` was carried out, with `n` bytes read where it
    /// is a read.
    pub open spec fn perform(self, action: Action, n: usize) -> EncryptRun {
        match action {
            Action::Read(_) => EncryptRun {
                plain: self.plain.skip(n as int),
                pad: self.pad.skip(n as int),
                buf_first: self.pad.take(n as int),
                buf_second: xor_bytes(self.plain.take(n as int), self.pad.take(n as int)),
                ..self
            },
            Action::Write(Slot::First, len) => EncryptRun {
                first: self.first + self.buf_first.take(len as int),
                ..self
            },
            Action::Write(Slot::Second, len) => EncryptRun {
                second: self.second + self.buf_second.take(len as int),
                ..self
            },
            Action::Remove(_) => EncryptRun { removed: true, ..self },
            _ => self,
        }
    }
}

/// How far a phase of an encryption is from the next read, for termination.
pub open spec fn encrypt_rank(phase: EncryptPhase) -> nat {
    match phase {
        EncryptPhase::OpenSubject => 6,
        EncryptPhase::CreateFirst => 5,
        EncryptPhase::CreateSecond => 4,
        EncryptPhase::WriteFirst(_) => 3,
        EncryptPhase::WriteSecond(_) => 2,
        EncryptPhase::ReadSubject => 1,
        EncryptPhase::RemoveSubject => 0,
    }
}

/// The state in which an encryption ends that stands in `phase` at `at`.
pub open spec fn encrypt_run(rm: bool, buffer: usize, phase: EncryptPhase, at: EncryptRun) -> EncryptRun
    decreases at.plain.len(), encrypt_rank(phase),
{
    let n = read_len(buffer, at.plain.len());
    let then = at.perform(phase.spec_request(), n);
    match phase.after(rm, n) {
        Some(next) => encrypt_run(rm, buffer, next, then),
        None => then,
    }
}

/// From a read on, an encryption appends the pad that is left to the first
/// companion file and the rest of the subject file under that pad to the
/// second, and deletes the subject file if that was asked for.
proof fn lemma_encrypt_loop(rm: bool, buffer: usize, at: EncryptRun)
    requires
        buffer >= 1,
        at.pad.len() == at.plain.len(),
    ensures
        ({
            let end = encrypt_run(rm, buffer, EncryptPhase::ReadSubject, at);
            &&& end.first == at.first + at.pad
            &&& end.second == at.second + xor_bytes(at.plain, at.pad)
            &&& end.removed == (at.removed || rm)
        }),
    decreases at.plain.len(),
{
    reveal_with_fuel(encrypt_run, 4);
    let n = read_len(buffer, at.plain.len());
    if n > 0 {
        let read = at.perform(Action::Read(Slot::Subject), n);
        let wrote1 = read.perform(Action::Write(Slot::First, n), n);
        let wrote2 = wrote1.perform(Action::Write(Slot::Second, n), n);
        lemma_encrypt_loop(rm, buffer, wrote2);
        let end = encrypt_run(rm, buffer, EncryptPhase::ReadSubject, at);
        assert(end == encrypt_run(rm, buffer, EncryptPhase::ReadSubject, wrote2));
        assert(at.pad.take(n as int).take(n as int) =~= at.pad.take(n as int));
        assert(at.pad.take(n as int) + at.pad.skip(n as int) =~= at.pad);
        assert(end.first =~= at.first + at.pad);
        let chunk = xor_bytes(at.plain.take(n as int), at.pad.take(n as int));
        assert(chunk.take(n as int) =~= chunk);
        assert(chunk + xor_bytes(at.plain.skip(n as int), at.pad.skip(n as int)) =~= xor_bytes(
            at.plain,
            at.pad,
        ));
        assert(end.second =~= at.second + xor_bytes(at.plain, at.pad));
    } else {
        assert(at.pad =~= Seq::<u8>::empty());
        assert(xor_bytes(at.plain, at.pad) =~= Seq::<u8>::empty());
        let end = encrypt_run(rm, buffer, EncryptPhase::ReadSubject, at);
        assert(end.first =~= at.first + at.pad);
        assert(end.second =~= at.second + xor_bytes(at.plain, at.pad));
    }
}

/// A complete encryption, whatever the chunk size: the first companion file
/// holds the pad, the second the subject file's bytes under that pad, both
/// as long as the subject file, and the subject file is deleted if and only
/// if that was asked for.
pub proof fn lemma_encrypt_run(rm: bool, buffer: usize, plain: Seq<u8>, pad: Seq<u8>)
    requires
        buffer >= 1,
        pad.len() == plain.len(),
    ensures
        ({
            let end = encrypt_run(
                rm,
                buffer,
                EncryptPhase::OpenSubject,
                EncryptRun::begin(plain, pad),
            );
            &&& end.first == pad
            &&& end.second == xor_bytes(plain, pad)
            &&& end.first.len() == plain.len()
            &&& end.second.len() == plain.len()
            &&& end.removed == rm
        }),
{
    reveal_with_fuel(encrypt_run, 4);
    let begin = EncryptRun::begin(plain, pad);
    lemma_encrypt_loop(rm, buffer, begin);
    assert(begin.first + pad =~= pad);
    assert(begin.second + xor_bytes(plain, pad) =~= xor_bytes(plain, pad));
}

/// The files and buffers in the course of a decryption.
pub struct DecryptRun {
    /// What the first companion file holds beyond what was read.
    pub first: Seq<u8>,
    /// What the second companion file holds beyond what was read.
    pub second: Seq<u8>,
    /// The chunk at the front of the first companion's buffer.
    pub buf_first: Seq<u8>,
    /// The chunk at the front of the subject's buffer.
    pub buf_subject: Seq<u8>,
    /// What was written to the subject file.
    pub subject: Seq<u8>,
    /// Whether the first companion file was deleted.
    pub removed_first: bool,
    /// Whether the second companion file was deleted.
    pub removed_second: bool,
    /// Whether the run ended because the companion files differ in length.
    pub mismatch: bool,
}

impl DecryptRun {
    /// The state before the first request: the companion files hold `first`
    /// and `second`, and nothing was written.
    pub open spec fn begin(first: Seq<u8>, second: Seq<u8>) -> DecryptRun {
        DecryptRun {
            first,
            second,
            buf_first: Seq::empty(),
            buf_subject: Seq::empty(),
            subject: Seq::empty(),
            removed_first: false,
            removed_second: false,
            mismatch: false,
        }
    }

    /// The count of bytes that `action` reads: what [`read_len`] gives for
    /// the file that it reads from, and 0 where it is no read.
    pub open spec fn read(self, buffer: usize, action: Action) -> usize {
        match action {
            Action::Read(Slot::First) => read_len(buffer, self.first.len()),
            Action::Read(Slot::Second) => read_len(buffer, self.second.len()),
            _ => 0,
        }
    }

    /// The state once `action` was carried out, with `n` bytes read where it
    /// is a read. The read that completes a chunk leaves the decrypted chunk
    /// at the front of the subject's buffer.
    pub open spec fn perform(self, action: Action, n: usize) -> DecryptRun {
        match action {
            Action::Read(Slot::First) => DecryptRun {
                first: self.first.skip(n as int),
                buf_first: self.first.take(n as int),
                ..self
            },
            Action::Read(Slot::Second) => DecryptRun {
                second: self.second.skip(n as int),
                buf_subject: xor_bytes(self.buf_first.take(n as int), self.second.take(n as int)),
                ..self
            },
            Action::Write(_, len) => DecryptRun {
                subject: self.subject + self.buf_subject.take(len as int),
                ..self
            },
            Action::Remove(Slot::First) => DecryptRun { removed_first: true, ..self },
            Action::Remove(Slot::Second) => DecryptRun { removed_second: true, ..self },
            _ => self,
        }
    }
}

/// How far a phase of a decryption is from the next read of the first
/// companion file, for termination.
pub open spec fn decrypt_rank(phase: DecryptPhase) -> nat {
    match phase {
        DecryptPhase::OpenFirst => 7,
        DecryptPhase::OpenSecond => 6,
        DecryptPhase::CreateSubject => 5,
        DecryptPhase::WriteSubject(_) => 4,
        DecryptPhase::ReadFirst => 3,
        DecryptPhase::ReadSecond(_) => 2,
        DecryptPhase::RemoveFirst => 1,
        DecryptPhase::RemoveSecond => 0,
    }
}

/// The state in which a decryption ends that stands in `phase` at `at`.
pub open spec fn decrypt_run(rm: bool, buffer: usize, phase: DecryptPhase, at: DecryptRun) -> DecryptRun
    decreases at.first.len() + at.second.len(), decrypt_rank(phase),
{
    let n = at.read(buffer, phase.spec_request());
    let then = at.perform(phase.spec_request(), n);
    if phase.mismatch(n) {
        DecryptRun { mismatch: true, ..then }
    } else {
        match phase.after(rm, n) {
            Some(next) => decrypt_run(rm, buffer, next, then),
            None => then,
        }
    }
}

/// The lesser of two lengths.
pub open spec fn shorter(a: nat, b: nat) -> nat {
    if a <= b {
        a
    } else {
        b
    }
}

/// From a read of the first companion file on, a decryption of two files of
/// one length appends their XOR to the subject file and deletes them if that
/// was asked for; a decryption of two files of different lengths appends the
/// XOR of a common prefix, deletes nothing and ends on the mismatch.
proof fn lemma_decrypt_loop(rm: bool, buffer: usize, at: DecryptRun)
    requires
        buffer >= 1,
    ensures
        ({
            let end = decrypt_run(rm, buffer, DecryptPhase::ReadFirst, at);
            let k = end.subject.len() - at.subject.len();
            &&& at.first.len() == at.second.len() ==> {
                &&& end.subject == at.subject + xor_bytes(at.first, at.second)
                &&& end.mismatch == at.mismatch
                &&& end.removed_first == (at.removed_first || rm)
                &&& end.removed_second == (at.removed_second || rm)
            }
            &&& at.first.len() != at.second.len() ==> {
                &&& end.mismatch
                &&& end.removed_first == at.removed_first
                &&& end.removed_second == at.removed_second
                &&& 0 <= k <= shorter(at.first.len(), at.second.len())
                &&& end.subject == at.subject + xor_bytes(at.first.take(k), at.second.take(k))
            }
        }),
    decreases at.first.len() + at.second.len(),
{
    reveal_with_fuel(decrypt_run, 4);
    let n1 = read_len(buffer, at.first.len());
    let n2 = read_len(buffer, at.second.len());
    let end = decrypt_run(rm, buffer, DecryptPhase::ReadFirst, at);
    let read1 = at.perform(Action::Read(Slot::First), n1);
    let read2 = read1.perform(Action::Read(Slot::Second), n2);
    if n1 != n2 {
        assert(end == DecryptRun { mismatch: true, ..read2 });
        assert(at.first.take(0) =~= Seq::<u8>::empty());
        assert(xor_bytes(at.first.take(0), at.second.take(0)) =~= Seq::<u8>::empty());
        assert(end.subject =~= at.subject + xor_bytes(at.first.take(0), at.second.take(0)));
    } else if n1 == 0 {
        assert(at.first =~= Seq::<u8>::empty());
        assert(xor_bytes(at.first, at.second) =~= Seq::<u8>::empty());
        assert(end.subject =~= at.subject + xor_bytes(at.first, at.second));
    } else {
        let n = n1;
        let wrote = read2.perform(Action::Write(Slot::Subject, n), n);
        lemma_decrypt_loop(rm, buffer, wrote);
        assert(end == decrypt_run(rm, buffer, DecryptPhase::ReadFirst, wrote));
        let chunk = xor_bytes(at.first.take(n as int), at.second.take(n as int));
        assert(at.first.take(n as int).take(n as int) =~= at.first.take(n as int));
        assert(read2.buf_subject == chunk);
        assert(chunk.take(n as int) =~= chunk);
        assert(wrote.subject == at.subject + chunk);
        let rest1 = at.first.skip(n as int);
        let rest2 = at.second.skip(n as int);
        if at.first.len() == at.second.len() {
            assert(chunk + xor_bytes(rest1, rest2) =~= xor_bytes(at.first, at.second));
            assert(end.subject =~= at.subject + xor_bytes(at.first, at.second));
        } else {
            let k0 = end.subject.len() - wrote.subject.len();
            let k = end.subject.len() - at.subject.len();
            assert(k == n + k0);
            assert(chunk + xor_bytes(rest1.take(k0), rest2.take(k0)) =~= xor_bytes(
                at.first.take(k),
                at.second.take(k),
            ));
            assert(end.subject =~= at.subject + xor_bytes(at.first.take(k), at.second.take(k)));
        }
    }
}

/// A complete decryption of two companion files of one length, whatever the
/// chunk size: the subject file holds their XOR, and both companion files
/// are deleted if and only if that was asked for.
pub proof fn lemma_decrypt_run(rm: bool, buffer: usize, first: Seq<u8>, second: Seq<u8>)
    requires
        buffer >= 1,
        first.len() == second.len(),
    ensures
        ({
            let end = decrypt_run(
                rm,
                buffer,
                DecryptPhase::OpenFirst,
                DecryptRun::begin(first, second),
            );
            &&& !end.mismatch
            &&& end.subject == xor_bytes(first, second)
            &&& end.removed_first == rm
            &&& end.removed_second == rm
        }),
{
    reveal_with_fuel(decrypt_run, 4);
    let begin = DecryptRun::begin(first, second);
    lemma_decrypt_loop(rm, buffer, begin);
    assert(begin.subject + xor_bytes(first, second) =~= xor_bytes(first, second));
}

/// Length mismatch detection: a decryption of two companion files of
/// different lengths ends on the mismatch, whatever the chunk size. What it
/// has written by then is the XOR of a common prefix of the two files, and
/// it deletes neither of them.
pub proof fn lemma_decrypt_run_mismatch(rm: bool, buffer: usize, first: Seq<u8>, second: Seq<u8>)
    requires
        buffer >= 1,
        first.len() != second.len(),
    ensures
        ({
            let end = decrypt_run(
                rm,
                buffer,
                DecryptPhase::OpenFirst,
                DecryptRun::begin(first, second),
            );
            let k = end.subject.len() as int;
            &&& end.mismatch
            &&& k <= shorter(first.len(), second.len())
            &&& end.subject == xor_bytes(first.take(k), second.take(k))
            &&& !end.removed_first
            &&& !end.removed_second
        }),
{
    reveal_with_fuel(decrypt_run, 4);
    let begin = DecryptRun::begin(first, second);
    lemma_decrypt_loop(rm, buffer, begin);
    let end = decrypt_run(rm, buffer, DecryptPhase::OpenFirst, begin);
    let k = end.subject.len() as int;
    assert(begin.subject + xor_bytes(first.take(k), second.take(k)) =~= xor_bytes(
        first.take(k),
        second.take(k),
    ));
}

/// Round trip of whole runs: decrypting the two companion files that an
/// encryption of `plain` wrote gives `plain` back, for every chunk size of
/// the encryption and every chunk size of the decryption, and whichever of
/// the two companion files is given first.
pub proof fn lemma_run_round_trip(
    rm: bool,
    encrypt_buffer: usize,
    decrypt_buffer: usize,
    plain: Seq<u8>,
    pad: Seq<u8>,
)
    requires
        encrypt_buffer >= 1,
        decrypt_buffer >= 1,
        pad.len() == plain.len(),
    ensures
        ({
            let written = encrypt_run(
                rm,
                encrypt_buffer,
                EncryptPhase::OpenSubject,
                EncryptRun::begin(plain, pad),
            );
            let straight = decrypt_run(
                rm,
                decrypt_buffer,
                DecryptPhase::OpenFirst,
                DecryptRun::begin(written.first, written.second),
            );
            let swapped = decrypt_run(
                rm,
                decrypt_buffer,
                DecryptPhase::OpenFirst,
                DecryptRun::begin(written.second, written.first),
            );
            &&& !straight.mismatch
            &&& straight.subject == plain
            &&& !swapped.mismatch
            &&& swapped.subject == plain
        }),
{
    lemma_encrypt_run(rm, encrypt_buffer, plain, pad);
    let cipher = xor_bytes(plain, pad);
    lemma_decrypt_run(rm, decrypt_buffer, pad, cipher);
    lemma_decrypt_run(rm, decrypt_buffer, cipher, pad);
    lemma_round_trip(plain, pad);
}

} // verus!
