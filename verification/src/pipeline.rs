//! The streaming pipeline: which request comes next.
//!
//! Encrypting or decrypting a file alternates file operations with
//! decisions. The functions here take the decisions and leave the file
//! operations to the caller. At any moment one request is outstanding; the
//! caller carries it out and reports the [`Outcome`]; [`encrypt_file`] or
//! [`decrypt_file`] answers with the next request, or with the final result.
//!
//! The caller owns one buffer per [`Slot`], each as long as the
//! configuration's chunk size, and keeps them for the whole run. A
//! [`Action::Read`] fills the front of the slot's buffer, an [`Action::Write`]
//! writes the front of it out.

use vstd::prelude::*;
use vstd::slice::slice_subrange;

use crate::config::{Config, Slot};
use crate::error::{Error, IoError};
use crate::files::Mode;
use crate::otp::{decrypt, encrypt, xor_bytes};

verus! {

/// A buffer for one slot: as many zero bytes as the configuration's chunk
/// size.
pub fn chunk_buffer(c: &Config) -> (buf: Vec<u8>)
    ensures
        buf@.len() == c.buffer,
        forall|i: int| 0 <= i < buf@.len() ==> buf@[i] == 0u8,
{
    vec![0u8; c.buffer as usize]
}

/// A file operation that the caller is asked to carry out.
#[derive(Clone, Copy, Debug, PartialEq, Eq)]
pub enum Action {
    /// Open the slot's file in the given mode.
    Open(Slot, Mode),
    /// Read from the slot's file into the slot's buffer, at most as many
    /// bytes as the buffer holds, and report how many were read. No bytes
    /// means that the file has ended.
    Read(Slot),
    /// Write that many bytes from the front of the slot's buffer to the
    /// slot's file, all of them.
    Write(Slot, usize),
    /// Delete the slot's file.
    Remove(Slot),
}

/// How the outstanding request ended.
pub enum Outcome {
    /// It was carried out. The number is the count of bytes read where the
    /// request was a read, and has no meaning otherwise.
    Done(usize),
    /// It failed.
    Failed(IoError),
}

impl Outcome {
    /// The count of bytes that the outcome reports: 0 for a failure.
    pub open spec fn bytes(self) -> usize {
        match self {
            Outcome::Done(n) => n,
            Outcome::Failed(_) => 0,
        }
    }
}

/// What follows the outcome of a request.
pub enum Step<P> {
    /// The run goes on in this phase, with this request outstanding.
    Next(P, Action),
    /// The run is over, with this result.
    Finish(Result<(), Error>),
}

/// What is said when the two companion files end at different lengths.
pub const SIZE_MISMATCH: &'static str = "The two input files differ in size!";

/// Where an encryption stands: the request that is outstanding.
#[derive(Clone, Copy, Debug, PartialEq, Eq)]
pub enum EncryptPhase {
    /// The subject file is being opened.
    OpenSubject,
    /// The first companion file is being created.
    CreateFirst,
    /// The second companion file is being created.
    CreateSecond,
    /// A chunk of the subject file is being read.
    ReadSubject,
    /// The pad of a chunk of that length is being written to the first
    /// companion file.
    WriteFirst(usize),
    /// The chunk under its pad is being written to the second companion file.
    WriteSecond(usize),
    /// The subject file is being deleted.
    RemoveSubject,
}

impl EncryptPhase {
    /// The request that is outstanding in this phase.
    pub open spec fn spec_request(self) -> Action {
        match self {
            EncryptPhase::OpenSubject => Action::Open(Slot::Subject, Mode::Open),
            EncryptPhase::CreateFirst => Action::Open(Slot::First, Mode::Create),
            EncryptPhase::CreateSecond => Action::Open(Slot::Second, Mode::Create),
            EncryptPhase::ReadSubject => Action::Read(Slot::Subject),
            EncryptPhase::WriteFirst(n) => Action::Write(Slot::First, n),
            EncryptPhase::WriteSecond(n) => Action::Write(Slot::Second, n),
            EncryptPhase::RemoveSubject => Action::Remove(Slot::Subject),
        }
    }

    /// The phase that follows once the outstanding request was carried out,
    /// with `n` bytes read where it was a read; `None` where the encryption
    /// is complete. `rm` says whether the subject file is to be deleted at
    /// the end.
    pub open spec fn after(self, rm: bool, n: usize) -> Option<EncryptPhase> {
        match self {
            EncryptPhase::OpenSubject => Some(EncryptPhase::CreateFirst),
            EncryptPhase::CreateFirst => Some(EncryptPhase::CreateSecond),
            EncryptPhase::CreateSecond => Some(EncryptPhase::ReadSubject),
            EncryptPhase::ReadSubject => if n > 0 {
                Some(EncryptPhase::WriteFirst(n))
            } else if rm {
                Some(EncryptPhase::RemoveSubject)
            } else {
                None
            },
            EncryptPhase::WriteFirst(len) => Some(EncryptPhase::WriteSecond(len)),
            EncryptPhase::WriteSecond(_) => Some(EncryptPhase::ReadSubject),
            EncryptPhase::RemoveSubject => None,
        }
    }

    /// The phase in which every encryption begins.
    pub fn start() -> (phase: EncryptPhase)
        ensures
            phase == EncryptPhase::OpenSubject,
    {
        EncryptPhase::OpenSubject
    }

    /// The request that is outstanding in this phase.
    pub fn request(&self) -> (action: Action)
        ensures
            action == self.spec_request(),
    {
        match *self {
            EncryptPhase::OpenSubject => Action::Open(Slot::Subject, Mode::Open),
            EncryptPhase::CreateFirst => Action::Open(Slot::First, Mode::Create),
            EncryptPhase::CreateSecond => Action::Open(Slot::Second, Mode::Create),
            EncryptPhase::ReadSubject => Action::Read(Slot::Subject),
            EncryptPhase::WriteFirst(n) => Action::Write(Slot::First, n),
            EncryptPhase::WriteSecond(n) => Action::Write(Slot::Second, n),
            EncryptPhase::RemoveSubject => Action::Remove(Slot::Subject),
        }
    }
}

/// The step that an encryption takes from `phase` on `outcome`: a failure
/// ends it with that failure as the error, anything else leads to the phase
/// that follows, or to success where none follows.
pub open spec fn encrypt_step(rm: bool, phase: EncryptPhase, outcome: Outcome) -> Step<
    EncryptPhase,
> {
    match outcome {
        Outcome::Failed(e) => Step::Finish(Err(Error::IoError(e))),
        Outcome::Done(n) => match phase.after(rm, n) {
            Some(next) => Step::Next(next, next.spec_request()),
            None => Step::Finish(Ok(())),
        },
    }
}

/// The subject file is deleted last: a request to delete it follows nothing
/// but a read that found the subject file at its end, in an encryption that
/// was asked to delete. Every request before it was carried out, since a
/// failure ends the encryption at once.
pub proof fn lemma_encrypt_removes_last(rm: bool, phase: EncryptPhase, outcome: Outcome)
    ensures
        match encrypt_step(rm, phase, outcome) {
            Step::Next(_, Action::Remove(_)) => rm && phase is ReadSubject && outcome
                == Outcome::Done(0),
            _ => true,
        },
        outcome is Failed ==> encrypt_step(rm, phase, outcome) is Finish,
{
}

/// The length of the chunk that `outcome` reports in `phase`: the count of
/// bytes read where the phase is a read that was carried out, and 0 otherwise.
pub open spec fn encrypt_chunk(phase: EncryptPhase, outcome: Outcome) -> usize {
    if phase is ReadSubject {
        outcome.bytes()
    } else {
        0
    }
}

/// Encrypts a file using the options wrapped in a [`Config`], one step at a
/// time.
///
/// `phase` is where the encryption stands and `outcome` how the request of
/// that phase ended. The answer is [`encrypt_step`]. Where the outcome is a
/// chunk of `n` bytes at the front of `subject`, the front of `first` gets a
/// fresh pad and the front of `second` the chunk under that pad. Nothing
/// else in the buffers changes.
pub fn encrypt_file(
    c: &Config,
    phase: EncryptPhase,
    outcome: Outcome,
    subject: &[u8],
    first: &mut [u8],
    second: &mut [u8],
) -> (step: Step<EncryptPhase>)
    requires
        encrypt_chunk(phase, outcome) <= subject@.len(),
        encrypt_chunk(phase, outcome) <= old(first)@.len(),
        encrypt_chunk(phase, outcome) <= old(second)@.len(),
    ensures
        step == encrypt_step(c.rm, phase, outcome),
        final(first)@.len() == old(first)@.len(),
        final(second)@.len() == old(second)@.len(),
        final(second)@.take(encrypt_chunk(phase, outcome) as int) == xor_bytes(
            subject@.take(encrypt_chunk(phase, outcome) as int),
            final(first)@.take(encrypt_chunk(phase, outcome) as int),
        ),
        final(first)@.skip(encrypt_chunk(phase, outcome) as int) == old(first)@.skip(
            encrypt_chunk(phase, outcome) as int,
        ),
        final(second)@.skip(encrypt_chunk(phase, outcome) as int) == old(second)@.skip(
            encrypt_chunk(phase, outcome) as int,
        ),
{
    let n: usize = match outcome {
        Outcome::Failed(e) => {
            return Step::Finish(Err(Error::IoError(e)));
        },
        Outcome::Done(n) => n,
    };
    let next: EncryptPhase = match phase {
        EncryptPhase::OpenSubject => EncryptPhase::CreateFirst,
        EncryptPhase::CreateFirst => EncryptPhase::CreateSecond,
        EncryptPhase::CreateSecond => EncryptPhase::ReadSubject,
        EncryptPhase::ReadSubject => {
            if n > 0 {
                let chunk = slice_subrange(subject, 0, n);
                match encrypt(chunk, first, second) {
                    Ok(()) => EncryptPhase::WriteFirst(n),
                    Err(e) => {
                        return Step::Finish(Err(e));
                    },
                }
            } else if c.rm {
                EncryptPhase::RemoveSubject
            } else {
                return Step::Finish(Ok(()));
            }
        },
        EncryptPhase::WriteFirst(len) => EncryptPhase::WriteSecond(len),
        EncryptPhase::WriteSecond(_) => EncryptPhase::ReadSubject,
        EncryptPhase::RemoveSubject => {
            return Step::Finish(Ok(()));
        },
    };
    Step::Next(next, next.request())
}

/// Where a decryption stands: the request that is outstanding.
#[derive(Clone, Copy, Debug, PartialEq, Eq)]
pub enum DecryptPhase {
    /// The first companion file is being opened.
    OpenFirst,
    /// The second companion file is being opened.
    OpenSecond,
    /// The subject file is being created.
    CreateSubject,
    /// A chunk of the first companion file is being read.
    ReadFirst,
    /// A chunk of the second companion file is being read; the first gave a
    /// chunk of that length.
    ReadSecond(usize),
    /// The decrypted chunk of that length is being written to the subject
    /// file.
    WriteSubject(usize),
    /// The first companion file is being deleted.
    RemoveFirst,
    /// The second companion file is being deleted.
    RemoveSecond,
}

impl DecryptPhase {
    /// The request that is outstanding in this phase.
    pub open spec fn spec_request(self) -> Action {
        match self {
            DecryptPhase::OpenFirst => Action::Open(Slot::First, Mode::Open),
            DecryptPhase::OpenSecond => Action::Open(Slot::Second, Mode::Open),
            DecryptPhase::CreateSubject => Action::Open(Slot::Subject, Mode::Create),
            DecryptPhase::ReadFirst => Action::Read(Slot::First),
            DecryptPhase::ReadSecond(_) => Action::Read(Slot::Second),
            DecryptPhase::WriteSubject(n) => Action::Write(Slot::Subject, n),
            DecryptPhase::RemoveFirst => Action::Remove(Slot::First),
            DecryptPhase::RemoveSecond => Action::Remove(Slot::Second),
        }
    }

    /// Whether `n` bytes from the second companion file show that the two
    /// files differ in length: the first gave another count.
    pub open spec fn mismatch(self, n: usize) -> bool {
        match self {
            DecryptPhase::ReadSecond(len) => len != n,
            _ => false,
        }
    }

    /// The phase that follows once the outstanding request was carried out,
    /// with `n` bytes read where it was a read; `None` where the decryption
    /// is complete. `rm` says whether the companion files are to be deleted
    /// at the end. It is meant for outcomes that are no [`Self::mismatch`].
    pub open spec fn after(self, rm: bool, n: usize) -> Option<DecryptPhase> {
        match self {
            DecryptPhase::OpenFirst => Some(DecryptPhase::OpenSecond),
            DecryptPhase::OpenSecond => Some(DecryptPhase::CreateSubject),
            DecryptPhase::CreateSubject => Some(DecryptPhase::ReadFirst),
            DecryptPhase::ReadFirst => Some(DecryptPhase::ReadSecond(n)),
            DecryptPhase::ReadSecond(_) => if n > 0 {
                Some(DecryptPhase::WriteSubject(n))
            } else if rm {
                Some(DecryptPhase::RemoveFirst)
            } else {
                None
            },
            DecryptPhase::WriteSubject(_) => Some(DecryptPhase::ReadFirst),
            DecryptPhase::RemoveFirst => Some(DecryptPhase::RemoveSecond),
            DecryptPhase::RemoveSecond => None,
        }
    }

    /// The phase in which every decryption begins.
    pub fn start() -> (phase: DecryptPhase)
        ensures
            phase == DecryptPhase::OpenFirst,
    {
        DecryptPhase::OpenFirst
    }

    /// The request that is outstanding in this phase.
    pub fn request(&self) -> (action: Action)
        ensures
            action == self.spec_request(),
    {
        match *self {
            DecryptPhase::OpenFirst => Action::Open(Slot::First, Mode::Open),
            DecryptPhase::OpenSecond => Action::Open(Slot::Second, Mode::Open),
            DecryptPhase::CreateSubject => Action::Open(Slot::Subject, Mode::Create),
            DecryptPhase::ReadFirst => Action::Read(Slot::First),
            DecryptPhase::ReadSecond(_) => Action::Read(Slot::Second),
            DecryptPhase::WriteSubject(n) => Action::Write(Slot::Subject, n),
            DecryptPhase::RemoveFirst => Action::Remove(Slot::First),
            DecryptPhase::RemoveSecond => Action::Remove(Slot::Second),
        }
    }
}

/// Whether `step` is the step that a decryption takes from `phase` on
/// `outcome`: a failure ends it with that failure as the error; two reads
/// of different counts end it as invalid input, with [`SIZE_MISMATCH`] as
/// the message; anything else leads to the phase that follows, or to success
/// where none follows.
pub open spec fn decrypt_step(
    rm: bool,
    phase: DecryptPhase,
    outcome: Outcome,
    step: Step<DecryptPhase>,
) -> bool {
    match outcome {
        Outcome::Failed(e) => step == Step::<DecryptPhase>::Finish(Err(Error::IoError(e))),
        Outcome::Done(n) => if phase.mismatch(n) {
            match step {
                Step::Finish(Err(Error::InvalidInput(message))) => message@ == SIZE_MISMATCH@,
                _ => false,
            }
        } else {
            match phase.after(rm, n) {
                Some(next) => step == Step::Next(next, next.spec_request()),
                None => step == Step::<DecryptPhase>::Finish(Ok(())),
            }
        },
    }
}

/// The companion files are deleted last: a request to delete the first
/// follows nothing but a pair of reads that found both files at their end,
/// in a decryption that was asked to delete; a request to delete the second
/// follows nothing but the deletion of the first.
pub proof fn lemma_decrypt_removes_last(
    rm: bool,
    phase: DecryptPhase,
    outcome: Outcome,
    step: Step<DecryptPhase>,
)
    requires
        decrypt_step(rm, phase, outcome, step),
    ensures
        match step {
            Step::Next(_, Action::Remove(Slot::First)) => rm && phase == DecryptPhase::ReadSecond(0)
                && outcome == Outcome::Done(0),
            Step::Next(_, Action::Remove(_)) => phase is RemoveFirst && outcome is Done,
            _ => true,
        },
        outcome is Failed ==> step is Finish,
{
}

/// The length of the chunk that `outcome` completes in `phase`: the count of
/// bytes that both companion files gave, where the phase is the second read
/// and it gave as many bytes as the first; 0 otherwise.
pub open spec fn decrypt_chunk(phase: DecryptPhase, outcome: Outcome) -> usize {
    match phase {
        DecryptPhase::ReadSecond(len) => if outcome.bytes() == len {
            len
        } else {
            0
        },
        _ => 0,
    }
}

/// Decrypts a file using the options wrapped in a [`Config`], one step at a
/// time.
///
/// `phase` is where the decryption stands and `outcome` how the request of
/// that phase ended. The answer meets [`decrypt_step`]. Where the outcome
/// completes a chunk, `n` bytes at the front of both `first` and `second`,
/// the front of `subject` gets their XOR. Nothing else in `subject` changes.
pub fn decrypt_file(
    c: &Config,
    phase: DecryptPhase,
    outcome: Outcome,
    subject: &mut [u8],
    first: &[u8],
    second: &[u8],
) -> (step: Step<DecryptPhase>)
    requires
        decrypt_chunk(phase, outcome) <= old(subject)@.len(),
        decrypt_chunk(phase, outcome) <= first@.len(),
        decrypt_chunk(phase, outcome) <= second@.len(),
    ensures
        decrypt_step(c.rm, phase, outcome, step),
        final(subject)@.len() == old(subject)@.len(),
        final(subject)@.take(decrypt_chunk(phase, outcome) as int) == xor_bytes(
            first@.take(decrypt_chunk(phase, outcome) as int),
            second@.take(decrypt_chunk(phase, outcome) as int),
        ),
        final(subject)@.skip(decrypt_chunk(phase, outcome) as int) == old(subject)@.skip(
            decrypt_chunk(phase, outcome) as int,
        ),
{
    let n: usize = match outcome {
        Outcome::Failed(e) => {
            return Step::Finish(Err(Error::IoError(e)));
        },
        Outcome::Done(n) => n,
    };
    let next: DecryptPhase = match phase {
        DecryptPhase::OpenFirst => DecryptPhase::OpenSecond,
        DecryptPhase::OpenSecond => DecryptPhase::CreateSubject,
        DecryptPhase::CreateSubject => DecryptPhase::ReadFirst,
        DecryptPhase::ReadFirst => DecryptPhase::ReadSecond(n),
        DecryptPhase::ReadSecond(len) => {
            if len != n {
                return Step::Finish(Err(Error::InvalidInput(SIZE_MISMATCH.to_owned())));
            }
            if n > 0 {
                let chunk1 = slice_subrange(first, 0, n);
                let chunk2 = slice_subrange(second, 0, n);
                match decrypt(chunk1, chunk2, subject) {
                    Ok(()) => DecryptPhase::WriteSubject(n),
                    Err(e) => {
                        return Step::Finish(Err(e));
                    },
                }
            } else if c.rm {
                DecryptPhase::RemoveFirst
            } else {
                return Step::Finish(Ok(()));
            }
        },
        DecryptPhase::WriteSubject(_) => DecryptPhase::ReadFirst,
        DecryptPhase::RemoveFirst => DecryptPhase::RemoveSecond,
        DecryptPhase::RemoveSecond => {
            return Step::Finish(Ok(()));
        },
    };
    Step::Next(next, next.request())
}

} // verus!
