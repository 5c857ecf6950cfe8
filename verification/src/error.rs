//! Why a request is refused.

use vstd::prelude::*;

verus! {

/// The failures that are this program's own.
#[derive(Clone, Copy, Debug, PartialEq, Eq, Structural)]
pub enum MeepError {
    /// Primary and secondary creators must be different.
    PrimareAndSecondaryAreSame,
    /// Percentage is in the range [0; 100].
    PercentageLimitExceeded,
    /// Settings account has wrong pubkey.
    WrongSettingsAccount,
    /// Wrong authority.
    WrongAuthority,
    /// Wrong primary creator.
    WrongPrimaryCreator,
    /// Wrong secondary creator.
    WrongSecondaryCreator,
}

impl MeepError {
    /// The number under which the ledger reports this failure.
    pub open spec fn spec_code(self) -> u32 {
        match self {
            MeepError::PrimareAndSecondaryAreSame => 0,
            MeepError::PercentageLimitExceeded => 1,
            MeepError::WrongSettingsAccount => 2,
            MeepError::WrongAuthority => 3,
            MeepError::WrongPrimaryCreator => 4,
            MeepError::WrongSecondaryCreator => 5,
        }
    }

    /// The number under which the ledger reports this failure.
    pub fn code(&self) -> (code: u32)
        ensures
            code == self.spec_code(),
    {
        match self {
            MeepError::PrimareAndSecondaryAreSame => 0,
            MeepError::PercentageLimitExceeded => 1,
            MeepError::WrongSettingsAccount => 2,
            MeepError::WrongAuthority => 3,
            MeepError::WrongPrimaryCreator => 4,
            MeepError::WrongSecondaryCreator => 5,
        }
    }

    /// The failure that the ledger reports under `code`, if it is one of this
    /// program's.
    pub fn from_code(code: u32) -> (error: Option<MeepError>)
        ensures
            match error {
                Some(e) => e.spec_code() == code,
                None => code > 5,
            },
    {
        match code {
            0 => Some(MeepError::PrimareAndSecondaryAreSame),
            1 => Some(MeepError::PercentageLimitExceeded),
            2 => Some(MeepError::WrongSettingsAccount),
            3 => Some(MeepError::WrongAuthority),
            4 => Some(MeepError::WrongPrimaryCreator),
            5 => Some(MeepError::WrongSecondaryCreator),
            _ => None,
        }
    }

    /// The sentence that describes this failure to a user.
    pub open spec fn spec_message(self) -> Seq<char> {
        match self {
            MeepError::PrimareAndSecondaryAreSame => {
                "Primary and secondary creators must be different"@
            },
            MeepError::PercentageLimitExceeded => "Percentage is in the range [0; 100]"@,
            MeepError::WrongSettingsAccount => "Settings account has wrong pubkey"@,
            MeepError::WrongAuthority => "Wrong authority"@,
            MeepError::WrongPrimaryCreator => "Wrong primary creator"@,
            MeepError::WrongSecondaryCreator => "Wrong secondary creator"@,
        }
    }

    /// The sentence that describes this failure to a user.
    pub fn message(&self) -> (text: &'static str)
        ensures
            text@ == self.spec_message(),
    {
        match self {
            MeepError::PrimareAndSecondaryAreSame => {
                "Primary and secondary creators must be different"
            },
            MeepError::PercentageLimitExceeded => "Percentage is in the range [0; 100]",
            MeepError::WrongSettingsAccount => "Settings account has wrong pubkey",
            MeepError::WrongAuthority => "Wrong authority",
            MeepError::WrongPrimaryCreator => "Wrong primary creator",
            MeepError::WrongSecondaryCreator => "Wrong secondary creator",
        }
    }

    /// The name of this family of failures.
    pub fn type_of() -> (name: &'static str)
        ensures
            name@ == "Meep Error"@,
    {
        "Meep Error"
    }

    /// Distinct failures are reported under distinct numbers.
    pub proof fn lemma_code_injective(a: MeepError, b: MeepError)
        ensures
            a.spec_code() == b.spec_code() <==> a == b,
    {
    }
}

/// Why an operation was refused before any record was touched.
#[derive(Clone, Copy, Debug, PartialEq, Eq, Structural)]
pub enum ProgramError {
    /// One of this program's own failures.
    Custom(MeepError),
    /// The body of the request does not encode an operation.
    BorshIoError,
    /// An identity that has to co-sign the request did not.
    MissingRequiredSignature,
    /// The request names fewer accounts than the operation reads.
    NotEnoughAccountKeys,
    /// The ledger found no address off the curve for the seeds of a record.
    InvalidSeeds,
}

impl From<MeepError> for ProgramError {
    fn from(error: MeepError) -> (e: ProgramError) {
        ProgramError::Custom(error)
    }
}

impl vstd::std_specs::convert::FromSpecImpl<MeepError> for ProgramError {
    open spec fn obeys_from_spec() -> bool {
        true
    }

    open spec fn from_spec(error: MeepError) -> ProgramError {
        ProgramError::Custom(error)
    }
}

} // verus!
