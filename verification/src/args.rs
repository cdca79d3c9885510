//! The arguments of the two commands, as plain values.

use vstd::prelude::*;

use crate::config::Config;

verus! {

/// The arguments of the command that encrypts.
pub struct Encrypt {
    /// File to be encrypted
    pub file: String,
    /// Suffix for the name of the first output file
    pub out1_suffix: String,
    /// Suffix for the name of the second output file
    pub out2_suffix: String,
    /// Buffer size in bytes
    pub buffer: u32,
    /// Delete input file after encryption
    pub rm: bool,
}

/// The arguments of the command that decrypts.
pub struct Decrypt {
    /// Output file name. This is the name of the decrypted file.
    pub file: String,
    /// Suffix for the name of the first input file
    pub in1_suffix: String,
    /// Suffix for the name of the second input file
    pub in2_suffix: String,
    /// Buffer size in bytes
    pub buffer: u32,
    /// Delete input files after decryption
    pub rm: bool,
}

impl Encrypt {
    /// The configuration that these arguments ask for. `quiet` says whether
    /// nothing is to be printed.
    pub fn into_config(self, quiet: bool) -> (res: Config)
        ensures
            res.file == self.file,
            res.suffix1 == self.out1_suffix,
            res.suffix2 == self.out2_suffix,
            res.buffer == self.buffer,
            res.rm == self.rm,
            res.quiet == quiet,
    {
        Config {
            file: self.file,
            suffix1: self.out1_suffix,
            suffix2: self.out2_suffix,
            buffer: self.buffer,
            rm: self.rm,
            quiet,
        }
    }
}

impl Decrypt {
    /// The configuration that these arguments ask for. `quiet` says whether
    /// nothing is to be printed.
    pub fn into_config(self, quiet: bool) -> (res: Config)
        ensures
            res.file == self.file,
            res.suffix1 == self.in1_suffix,
            res.suffix2 == self.in2_suffix,
            res.buffer == self.buffer,
            res.rm == self.rm,
            res.quiet == quiet,
    {
        Config {
            file: self.file,
            suffix1: self.in1_suffix,
            suffix2: self.in2_suffix,
            buffer: self.buffer,
            rm: self.rm,
            quiet,
        }
    }
}

} // verus!
