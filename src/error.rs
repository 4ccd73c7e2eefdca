use vstd::prelude::*;

verus! {

/// Why a spend is refused.
#[derive(Debug, Clone, Copy, PartialEq, Eq, Structural)]
pub enum Error {
    /// The lock arguments are neither 20 nor 28 bytes long.
    Encoding,
    /// Headers were given, but none of them is as late as the time limit.
    TimeLimitNotReached,
    /// A time limit is set, and no header was given to prove the time.
    CurrentTimeNotGiven,
    /// The signature could not be recovered; the recovery's own code is kept.
    Secp256k1(i32),
    /// The signature was made by another key than the owner's.
    WrongPubkey,
}

impl Error {
    /// The exit status that reports this error to the host.
    pub open spec fn spec_exit_code(self) -> i8 {
        match self {
            Error::Encoding => 4,
            Error::TimeLimitNotReached => 5,
            Error::CurrentTimeNotGiven => 6,
            Error::Secp256k1(_) => 7,
            Error::WrongPubkey => 8,
        }
    }

    /// Returns the exit status of this error: a distinct non-zero code for each kind.
    pub fn exit_code(&self) -> (r: i8)
        ensures
            r == self.spec_exit_code(),
            r != 0,
    {
        match self {
            Error::Encoding => 4,
            Error::TimeLimitNotReached => 5,
            Error::CurrentTimeNotGiven => 6,
            Error::Secp256k1(_) => 7,
            Error::WrongPubkey => 8,
        }
    }
}

} // verus!
