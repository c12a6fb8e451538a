use ckb_std::error::SysError;
use vstd::prelude::*;

verus! {

/// Declares the host's syscall error so that verified code can match on it.
#[verifier::external_type_specification]
pub struct ExSysError(SysError);

/// Every way in which an order check can fail; each has its own exit code.
#[derive(Clone, Copy, Debug, PartialEq, Eq, Structural)]
pub enum Error {
    IndexOutOfBound,
    ItemMissing,
    LengthNotEnough,
    Encoding,
    LockArgsInvalid,
    DexOwnerLockNotMatch,
    DexFTTotalValueNotMatch,
    DexNFTTotalValueNotMatch,
    DexSetupInvalid,
    TotalValueOverflow,
    UnitTypeNotMatch,
    TotalValueNotMatch,
}

impl Error {
    /// The exit code that the host reports for this error.
    pub open spec fn spec_code(self) -> i8 {
        match self {
            Error::IndexOutOfBound => 1,
            Error::ItemMissing => 2,
            Error::LengthNotEnough => 3,
            Error::Encoding => 4,
            Error::LockArgsInvalid => 5,
            Error::DexOwnerLockNotMatch => 6,
            Error::DexFTTotalValueNotMatch => 7,
            Error::DexNFTTotalValueNotMatch => 8,
            Error::DexSetupInvalid => 9,
            Error::TotalValueOverflow => 10,
            Error::UnitTypeNotMatch => 11,
            Error::TotalValueNotMatch => 12,
        }
    }

    /// The exit code of this error: a small positive number, one per variant.
    pub fn code(&self) -> (r: i8)
        ensures
            r == self.spec_code(),
            r > 0,
    {
        match self {
            Error::IndexOutOfBound => 1,
            Error::ItemMissing => 2,
            Error::LengthNotEnough => 3,
            Error::Encoding => 4,
            Error::LockArgsInvalid => 5,
            Error::DexOwnerLockNotMatch => 6,
            Error::DexFTTotalValueNotMatch => 7,
            Error::DexNFTTotalValueNotMatch => 8,
            Error::DexSetupInvalid => 9,
            Error::TotalValueOverflow => 10,
            Error::UnitTypeNotMatch => 11,
            Error::TotalValueNotMatch => 12,
        }
    }

    /// The error that a host syscall failure stands for, if it is one of the
    /// recognised kinds.
    pub open spec fn spec_from_sys(err: SysError) -> Option<Error> {
        match err {
            SysError::IndexOutOfBound => Some(Error::IndexOutOfBound),
            SysError::ItemMissing => Some(Error::ItemMissing),
            SysError::LengthNotEnough(_) => Some(Error::LengthNotEnough),
            SysError::Encoding => Some(Error::Encoding),
            SysError::Unknown(_) => None,
        }
    }

    /// Maps a syscall failure to the error reported for it. An unknown
    /// syscall error number is not a validation outcome: it yields `None`,
    /// and the caller is to abort.
    pub fn from_sys_error(err: SysError) -> (r: Option<Error>)
        ensures
            r == Self::spec_from_sys(err),
    {
        match err {
            SysError::IndexOutOfBound => Some(Error::IndexOutOfBound),
            SysError::ItemMissing => Some(Error::ItemMissing),
            SysError::LengthNotEnough(_) => Some(Error::LengthNotEnough),
            SysError::Encoding => Some(Error::Encoding),
            SysError::Unknown(_) => None,
        }
    }
}

} // verus!
