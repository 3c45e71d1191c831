//! Status codes of the two error domains of the runtime, wrapped so that a
//! failure travels as the `Err` side of a `Result`.
//!
//! A code of zero reports success in both domains. The wrappers add no
//! recovery of their own: they carry whatever the runtime decided.

use vstd::prelude::*;
use vstd::string::StringExecFns;

verus! {

/// A status of the general error domain: zero reports success.
#[allow(non_camel_case_types)]
pub type CHIP_ERROR = u32;

/// A status of the cluster framework: [`EmberAfStatus_EMBER_ZCL_STATUS_SUCCESS`]
/// reports success.
pub type EmberAfStatus = u8;

/// The general domain's success code.
pub const CHIP_NO_ERROR: CHIP_ERROR = 0;

/// The operation was carried out.
#[allow(non_upper_case_globals)]
pub const EmberAfStatus_EMBER_ZCL_STATUS_SUCCESS: EmberAfStatus = 0x00;

/// The operation failed for a reason that has no code of its own.
#[allow(non_upper_case_globals)]
pub const EmberAfStatus_EMBER_ZCL_STATUS_FAILURE: EmberAfStatus = 0x01;

/// No free entry is left to hold what was asked for.
#[allow(non_upper_case_globals)]
pub const EmberAfStatus_EMBER_ZCL_STATUS_RESOURCE_EXHAUSTED: EmberAfStatus = 0x89;

/// An entry with the same identity is already there.
#[allow(non_upper_case_globals)]
pub const EmberAfStatus_EMBER_ZCL_STATUS_DUPLICATE_EXISTS: EmberAfStatus = 0x8a;

/// A wrapped [`CHIP_ERROR`].
///
/// Most calls into the runtime answer with such a status; the wrapper is
/// usually met as the `Err` side of a `Result`, where its code is not zero.
#[derive(Copy, Clone, Debug, PartialEq, Eq, Structural)]
pub struct ChipError(pub CHIP_ERROR);

impl ChipError {
    /// What [`ChipError::check_and_return`] makes of a status and a value.
    pub open spec fn checked<T>(error: CHIP_ERROR, value: T) -> Result<T, ChipError> {
        if error == 0 {
            Ok(value)
        } else {
            Err(ChipError(error))
        }
    }

    /// What [`ChipError::to_raw`] makes of a result.
    pub open spec fn raw(result: Result<(), ChipError>) -> CHIP_ERROR {
        match result {
            Ok(()) => 0,
            Err(err) => err.0,
        }
    }

    /// Wraps a status.
    pub fn from(error: CHIP_ERROR) -> (r: Self)
        ensures
            r == ChipError(error),
    {
        Self(error)
    }

    /// Wraps a bare code.
    pub fn from_code(error_code: u32) -> (r: Self)
        ensures
            r == ChipError(error_code),
    {
        Self(error_code)
    }

    /// `Ok(value)` if `error` is zero, else `Err` of the wrapped `error`.
    pub fn check_and_return<T>(error: CHIP_ERROR, value: T) -> (r: Result<T, Self>)
        ensures
            r == Self::checked(error, value),
    {
        if error == 0 {
            Ok(value)
        } else {
            Err(Self(error))
        }
    }

    /// `Ok(())` if `error` is zero, else `Err` of the wrapped `error`.
    pub fn convert(error: CHIP_ERROR) -> (r: Result<(), Self>)
        ensures
            r == Self::checked(error, ()),
    {
        Self::check_and_return(error, ())
    }

    /// The wrapped status.
    pub fn error(self) -> (r: CHIP_ERROR)
        ensures
            r == self.0,
    {
        self.0
    }

    /// The wrapped status as a number.
    pub fn code(&self) -> (r: u32)
        ensures
            r == self.0,
    {
        self.0
    }

    /// The status to hand back to the runtime for `result`: zero for `Ok`,
    /// the wrapped status for `Err`.
    pub fn to_raw(result: Result<(), ChipError>) -> (r: CHIP_ERROR)
        ensures
            r == Self::raw(result),
    {
        let err = match result {
            Ok(()) => Self::from_code(0),
            Err(err) => err,
        };
        err.error()
    }
}

/// A wrapped [`EmberAfStatus`].
#[derive(Copy, Clone, Debug, PartialEq, Eq, Structural)]
pub struct EmberAfError(pub EmberAfStatus);

/// The character that writes the digit `d`.
pub open spec fn digit_char(d: nat) -> char {
    if d == 0 {
        '0'
    } else if d == 1 {
        '1'
    } else if d == 2 {
        '2'
    } else if d == 3 {
        '3'
    } else if d == 4 {
        '4'
    } else if d == 5 {
        '5'
    } else if d == 6 {
        '6'
    } else if d == 7 {
        '7'
    } else if d == 8 {
        '8'
    } else {
        '9'
    }
}

/// `n` written in base ten, without leading zeros.
pub open spec fn decimal(n: nat) -> Seq<char>
    decreases n,
{
    if n < 10 {
        seq![digit_char(n)]
    } else {
        decimal(n / 10).push(digit_char(n % 10))
    }
}

/// The one-character text of a digit.
fn digit_str(d: u8) -> (r: &'static str)
    requires
        d < 10,
    ensures
        r@ == seq![digit_char(d as nat)],
{
    proof {
        reveal_strlit("0");
        reveal_strlit("1");
        reveal_strlit("2");
        reveal_strlit("3");
        reveal_strlit("4");
        reveal_strlit("5");
        reveal_strlit("6");
        reveal_strlit("7");
        reveal_strlit("8");
        reveal_strlit("9");
    }
    let r = if d == 0 {
        "0"
    } else if d == 1 {
        "1"
    } else if d == 2 {
        "2"
    } else if d == 3 {
        "3"
    } else if d == 4 {
        "4"
    } else if d == 5 {
        "5"
    } else if d == 6 {
        "6"
    } else if d == 7 {
        "7"
    } else if d == 8 {
        "8"
    } else {
        "9"
    };
    assert(r@ =~= seq![digit_char(d as nat)]);
    r
}

impl EmberAfError {
    /// What [`EmberAfError::check_and_return`] makes of a status and a value.
    pub open spec fn checked<T>(error: EmberAfStatus, value: T) -> Result<T, EmberAfError> {
        if error == EmberAfStatus_EMBER_ZCL_STATUS_SUCCESS {
            Ok(value)
        } else {
            Err(EmberAfError(error))
        }
    }

    /// What [`EmberAfError::to_raw`] makes of a result.
    pub open spec fn raw(result: Result<(), EmberAfError>) -> EmberAfStatus {
        match result {
            Ok(()) => EmberAfStatus_EMBER_ZCL_STATUS_SUCCESS,
            Err(err) => err.0,
        }
    }

    /// The text of [`EmberAfError::to_string`]: a fixed prefix, then the
    /// status in base ten.
    pub open spec fn rendered(self) -> Seq<char> {
        "EMBER AF ERROR: "@ + decimal(self.0 as nat)
    }

    /// Wraps a status.
    pub fn from(error: EmberAfStatus) -> (r: Self)
        ensures
            r == EmberAfError(error),
    {
        Self(error)
    }

    /// `Ok(value)` if `error` is the success status, else `Err` of the
    /// wrapped `error`.
    pub fn check_and_return<T>(error: EmberAfStatus, value: T) -> (r: Result<T, Self>)
        ensures
            r == Self::checked(error, value),
    {
        if error == EmberAfStatus_EMBER_ZCL_STATUS_SUCCESS {
            Ok(value)
        } else {
            Err(Self(error))
        }
    }

    /// `Ok(())` if `error` is the success status, else `Err` of the wrapped
    /// `error`.
    pub fn convert(error: EmberAfStatus) -> (r: Result<(), Self>)
        ensures
            r == Self::checked(error, ()),
    {
        Self::check_and_return(error, ())
    }

    /// The wrapped status.
    pub fn code(&self) -> (r: EmberAfStatus)
        ensures
            r == self.0,
    {
        self.0
    }

    /// The status to hand back to the runtime for `result`: the success
    /// status for `Ok`, the wrapped status for `Err`.
    pub fn to_raw(result: Result<(), EmberAfError>) -> (r: EmberAfStatus)
        ensures
            r == Self::raw(result),
    {
        match result {
            Ok(()) => EmberAfStatus_EMBER_ZCL_STATUS_SUCCESS,
            Err(err) => err.0,
        }
    }

    /// The diagnostic text of this status.
    pub fn to_string(&self) -> (r: String)
        ensures
            r@ == self.rendered(),
            r@.len() > 0,
    {
        let n: u8 = self.0;
        let mut text = String::from_str("EMBER AF ERROR: ");
        if n >= 100 {
            text.append(digit_str(n / 100));
        }
        if n >= 10 {
            text.append(digit_str((n / 10) % 10));
        }
        text.append(digit_str(n % 10));
        proof {
            let m = n as nat;
            reveal_with_fuel(decimal, 3);
            if m >= 100 {
                assert(decimal(m) =~= seq![
                    digit_char(m / 100),
                    digit_char((m / 10) % 10),
                    digit_char(m % 10),
                ]);
            } else if m >= 10 {
                assert(decimal(m) =~= seq![digit_char(m / 10), digit_char(m % 10)]);
            }
            assert(text@ =~= self.rendered());
        }
        text
    }
}

/// Zero is success in both directions: it converts to `Ok(())`, and `Ok(())`
/// goes back to zero.
pub proof fn lemma_chip_success_round_trip()
    ensures
        ChipError::checked(0, ()) == Ok::<(), ChipError>(()),
        ChipError::raw(Ok(())) == 0,
{
}

/// A code other than zero converts to a failure that carries the code, and
/// the failure goes back to the same code.
pub proof fn lemma_chip_failure_round_trip(code: CHIP_ERROR)
    requires
        code != 0,
    ensures
        ChipError::checked(code, ()) == Err::<(), ChipError>(ChipError(code)),
        ChipError::raw(ChipError::checked(code, ())) == code,
{
}

/// A result goes to the runtime and comes back unchanged, unless it is a
/// failure that wraps zero.
pub proof fn lemma_chip_result_round_trip(result: Result<(), ChipError>)
    requires
        result matches Err(err) ==> err.0 != 0,
    ensures
        ChipError::checked(ChipError::raw(result), ()) == result,
{
    match result {
        Ok(unit) => assert(unit == ()),
        Err(_) => {},
    }
}

/// The success status is success in both directions.
pub proof fn lemma_ember_success_round_trip()
    ensures
        EmberAfError::checked(EmberAfStatus_EMBER_ZCL_STATUS_SUCCESS, ()) == Ok::<(), EmberAfError>(
            (),
        ),
        EmberAfError::raw(Ok(())) == EmberAfStatus_EMBER_ZCL_STATUS_SUCCESS,
{
}

/// Any other status converts to a failure that carries it, goes back to the
/// same status, and renders as a text that is not empty.
pub proof fn lemma_ember_failure_round_trip(status: EmberAfStatus)
    requires
        status != EmberAfStatus_EMBER_ZCL_STATUS_SUCCESS,
    ensures
        EmberAfError::checked(status, ()) == Err::<(), EmberAfError>(EmberAfError(status)),
        EmberAfError::raw(EmberAfError::checked(status, ())) == status,
        EmberAfError(status).rendered().len() > 0,
{
    assert(decimal(status as nat).len() > 0) by {
        reveal_with_fuel(decimal, 2);
    }
}

/// A result goes to the runtime and comes back unchanged, unless it is a
/// failure that wraps the success status.
pub proof fn lemma_ember_result_round_trip(result: Result<(), EmberAfError>)
    requires
        result matches Err(err) ==> err.0 != EmberAfStatus_EMBER_ZCL_STATUS_SUCCESS,
    ensures
        EmberAfError::checked(EmberAfError::raw(result), ()) == result,
{
    match result {
        Ok(unit) => assert(unit == ()),
        Err(_) => {},
    }
}

} // verus!
