use vstd::prelude::*;

verus! {

/// Result codes of the VST 3 API (`tresult`) as they are numbered on
/// platforms other than Windows.
#[derive(Debug, Clone, Copy, PartialEq, Eq, Structural)]
pub enum TResult {
    KNoInterface,
    /// This value also used for KResultTrue
    KResultOk,
    KResultFalse,
    KInvalidArgument,
    KNotImplemented,
    KInternalError,
    KNotInititalized,
    KOutOfMemory,
}

/// The numeric value of each result code.
pub open spec fn tresult_code(r: TResult) -> int {
    match r {
        TResult::KNoInterface => -1,
        TResult::KResultOk => 0,
        TResult::KResultFalse => 1,
        TResult::KInvalidArgument => 2,
        TResult::KNotImplemented => 3,
        TResult::KInternalError => 4,
        TResult::KNotInititalized => 5,
        TResult::KOutOfMemory => 6,
    }
}

/// The result code that a number stands for, if any.
pub open spec fn tresult_of_code(code: int) -> Option<TResult> {
    if code == -1 {
        Some(TResult::KNoInterface)
    } else if code == 0 {
        Some(TResult::KResultOk)
    } else if code == 1 {
        Some(TResult::KResultFalse)
    } else if code == 2 {
        Some(TResult::KInvalidArgument)
    } else if code == 3 {
        Some(TResult::KNotImplemented)
    } else if code == 4 {
        Some(TResult::KInternalError)
    } else if code == 5 {
        Some(TResult::KNotInititalized)
    } else if code == 6 {
        Some(TResult::KOutOfMemory)
    } else {
        None
    }
}

impl TResult {
    /// True exactly for `KResultOk` (which is also `kResultTrue`).
    pub fn is_ok(&self) -> (r: bool)
        ensures
            r <==> *self == TResult::KResultOk,
    {
        match self {
            TResult::KResultOk => true,
            _ => false,
        }
    }

    /// The numeric value of the code, as `tresult`.
    pub fn to_i32(&self) -> (r: i32)
        ensures
            r == tresult_code(*self),
    {
        match self {
            TResult::KNoInterface => -1,
            TResult::KResultOk => 0,
            TResult::KResultFalse => 1,
            TResult::KInvalidArgument => 2,
            TResult::KNotImplemented => 3,
            TResult::KInternalError => 4,
            TResult::KNotInititalized => 5,
            TResult::KOutOfMemory => 6,
        }
    }

    /// The code that a number stands for; `None` for any other number.
    pub fn from_i32(code: i32) -> (r: Option<TResult>)
        ensures
            r == tresult_of_code(code as int),
    {
        match code {
            -1 => Some(TResult::KNoInterface),
            0 => Some(TResult::KResultOk),
            1 => Some(TResult::KResultFalse),
            2 => Some(TResult::KInvalidArgument),
            3 => Some(TResult::KNotImplemented),
            4 => Some(TResult::KInternalError),
            5 => Some(TResult::KNotInititalized),
            6 => Some(TResult::KOutOfMemory),
            _ => None,
        }
    }
}

/// Reading a code's number back gives the code.
pub proof fn lemma_tresult_code_round_trip(r: TResult)
    ensures
        tresult_of_code(tresult_code(r)) == Some(r),
{
}

/// A number that stands for a code is that code's number.
pub proof fn lemma_tresult_number_round_trip(code: int)
    ensures
        tresult_of_code(code) matches Some(r) ==> tresult_code(r) == code,
{
}

/// `KResultOk` (also `kResultTrue`) is the one code numbered 0, so a code is
/// ok exactly when its number is 0.
pub proof fn lemma_ok_is_code_zero(r: TResult)
    ensures
        tresult_code(r) == 0 <==> r == TResult::KResultOk,
{
}

/// Distinct codes have distinct numbers.
pub proof fn lemma_tresult_code_injective(a: TResult, b: TResult)
    ensures
        tresult_code(a) == tresult_code(b) <==> a == b,
{
}

/// Result codes of the VST 3 API as they are numbered on Windows, where the
/// error codes are `HRESULT` values.
#[derive(Debug, Clone, Copy, PartialEq, Eq, Structural)]
pub enum KResult {
    KNoInterface,
    /// This value also used for KResultTrue
    KResultOk,
    KResultFalse,
    KInvalidArgument,
    KNotImplemented,
    KInternalError,
    KNotInititalized,
    KOutOfMemory,
}

/// The numeric value of each Windows result code.
pub open spec fn kresult_code(r: KResult) -> int {
    match r {
        KResult::KNoInterface => -2_147_467_262,
        KResult::KResultOk => 0,
        KResult::KResultFalse => 1,
        KResult::KInvalidArgument => -2_147_467_809,
        KResult::KNotImplemented => -2_147_467_263,
        KResult::KInternalError => -2_147_467_259,
        KResult::KNotInititalized => -2_147_418_113,
        KResult::KOutOfMemory => -2_147_024_882,
    }
}

/// The Windows result code that a number stands for, if any.
pub open spec fn kresult_of_code(code: int) -> Option<KResult> {
    if code == -2_147_467_262 {
        Some(KResult::KNoInterface)
    } else if code == 0 {
        Some(KResult::KResultOk)
    } else if code == 1 {
        Some(KResult::KResultFalse)
    } else if code == -2_147_467_809 {
        Some(KResult::KInvalidArgument)
    } else if code == -2_147_467_263 {
        Some(KResult::KNotImplemented)
    } else if code == -2_147_467_259 {
        Some(KResult::KInternalError)
    } else if code == -2_147_418_113 {
        Some(KResult::KNotInititalized)
    } else if code == -2_147_024_882 {
        Some(KResult::KOutOfMemory)
    } else {
        None
    }
}

impl KResult {
    /// The Windows code that a number stands for; `None` for any other number.
    pub fn from_i32(code: i32) -> (r: Option<KResult>)
        ensures
            r == kresult_of_code(code as int),
    {
        match code {
            -2_147_467_262 => Some(KResult::KNoInterface),
            0 => Some(KResult::KResultOk),
            1 => Some(KResult::KResultFalse),
            -2_147_467_809 => Some(KResult::KInvalidArgument),
            -2_147_467_263 => Some(KResult::KNotImplemented),
            -2_147_467_259 => Some(KResult::KInternalError),
            -2_147_418_113 => Some(KResult::KNotInititalized),
            -2_147_024_882 => Some(KResult::KOutOfMemory),
            _ => None,
        }
    }
}

/// Reading a Windows code's number back gives the code.
pub proof fn lemma_kresult_code_round_trip(r: KResult)
    ensures
        kresult_of_code(kresult_code(r)) == Some(r),
{
}

/// A number read as a Windows code is that code's number: no other number is
/// taken for a code.
pub proof fn lemma_kresult_number_round_trip(code: int)
    ensures
        kresult_of_code(code) matches Some(r) ==> kresult_code(r) == code,
{
}

} // verus!
