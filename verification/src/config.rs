//! The configuration of one encryption or decryption.

use vstd::prelude::*;

use crate::files::{companion_name, extend_extension};

verus! {

/// The suffix of the first companion file unless another is given.
pub const DEFAULT_SUFFIX1: &'static str = "otp.0";

/// The suffix of the second companion file unless another is given.
pub const DEFAULT_SUFFIX2: &'static str = "otp.1";

/// The chunk size in bytes unless another is given: 1 MiB.
pub const DEFAULT_BUFFER: u32 = 1048576;

/// One of the three files that an encryption or a decryption works on.
#[derive(Clone, Copy, Debug, PartialEq, Eq)]
pub enum Slot {
    /// The subject file: the plaintext that is encrypted, or the file that
    /// decryption writes.
    Subject,
    /// The first companion file.
    First,
    /// The second companion file.
    Second,
}

/// Whether a suffix can be told apart from the name it is appended to: it
/// begins neither with a dot nor with a path separator.
pub open spec fn valid_suffix(suffix: Seq<char>) -> bool {
    suffix.len() > 0 ==> suffix[0] != '.' && suffix[0] != '/' && suffix[0] != '\\'
}

/// Configuration passed to [`encrypt_file`](crate::encrypt_file) or
/// [`decrypt_file`](crate::decrypt_file)
#[derive(Clone)]
pub struct Config {
    /// File to be encrypted
    pub file: String,
    /// Suffix for the name of the first input/output file
    pub suffix1: String,
    /// Suffix for the name of the second input/output file
    pub suffix2: String,
    /// Buffer size in bytes
    pub buffer: u32,
    /// Delete input file after encryption
    pub rm: bool,
    /// Don't print anything to stdout
    pub quiet: bool,
}

impl Config {
    /// What a configuration has to meet: a chunk size of at least one byte
    /// and two valid suffixes.
    pub open spec fn well_formed(&self) -> bool {
        &&& self.buffer > 0
        &&& valid_suffix(self.suffix1@)
        &&& valid_suffix(self.suffix2@)
    }

    /// The name of the file in `slot`.
    pub open spec fn spec_path(&self, slot: Slot) -> Seq<char> {
        match slot {
            Slot::Subject => self.file@,
            Slot::First => companion_name(self.file@, self.suffix1@),
            Slot::Second => companion_name(self.file@, self.suffix2@),
        }
    }

    /// Constructs a new `Config` with the given file(-path).
    /// Other fields are filled with default values.
    pub fn new(file: &str) -> (res: Self)
        ensures
            res.file@ == file@,
            res.suffix1@ == DEFAULT_SUFFIX1@,
            res.suffix2@ == DEFAULT_SUFFIX2@,
            res.buffer == DEFAULT_BUFFER,
            !res.rm,
            res.quiet,
            res.well_formed(),
    {
        let mut c = Config::default();
        c.file = file.to_owned();
        c
    }

    /// Constructs a new `Config` with the given file(-path)
    /// and suffixes. Other fields are filled with
    /// default values.
    pub fn new_with_suffixes(file: &str, suffix1: &str, suffix2: &str) -> (res: Self)
        ensures
            res.file@ == file@,
            res.suffix1@ == suffix1@,
            res.suffix2@ == suffix2@,
            res.buffer == DEFAULT_BUFFER,
            !res.rm,
            res.quiet,
            res.well_formed() <==> valid_suffix(suffix1@) && valid_suffix(suffix2@),
    {
        let mut c = Config::default();
        c.file = file.to_owned();
        c.suffix1 = suffix1.to_owned();
        c.suffix2 = suffix2.to_owned();
        c
    }

    fn default() -> (res: Self)
        ensures
            res.file@ == Seq::<char>::empty(),
            res.suffix1@ == DEFAULT_SUFFIX1@,
            res.suffix2@ == DEFAULT_SUFFIX2@,
            res.buffer == DEFAULT_BUFFER,
            !res.rm,
            res.quiet,
            res.well_formed(),
    {
        proof {
            reveal_strlit("otp.0");
            reveal_strlit("otp.1");
        }
        Config {
            file: String::new(),
            suffix1: DEFAULT_SUFFIX1.to_owned(),
            suffix2: DEFAULT_SUFFIX2.to_owned(),
            buffer: DEFAULT_BUFFER,
            rm: false,
            quiet: true,
        }
    }

    /// The name of the file in `slot`: the subject file's name as it is, a
    /// companion's as the subject's name, a dot, and the companion's suffix.
    pub fn path(&self, slot: Slot) -> (res: String)
        ensures
            res@ == self.spec_path(slot),
    {
        match slot {
            Slot::Subject => self.file.clone(),
            Slot::First => extend_extension(self.file.as_str(), self.suffix1.as_str()),
            Slot::Second => extend_extension(self.file.as_str(), self.suffix2.as_str()),
        }
    }
}

} // verus!
