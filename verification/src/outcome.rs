//! What an attempt to switch the auth system on or off came to, and the status codes that say so.

use vstd::prelude::*;
use crate::error::AuthError;

verus! {

/// The result of attempting to disable the auth system.
#[derive(Clone, Copy, Debug, PartialEq, Eq, Hash, Structural)]
pub enum DisableAuth {
    /// The auth system was already disabled.
    AlreadyDisabled,
    /// The auth system was successfully disabled.
    Disabled,
    /// The attempt to disable the auth system was not done by a root user.
    Unauthorized,
}

/// The result of attempting to enable the auth system.
#[derive(Clone, Copy, Debug, PartialEq, Eq, Hash, Structural)]
pub enum EnableAuth {
    /// The auth system was already enabled.
    AlreadyEnabled,
    /// The auth system was successfully enabled.
    Enabled,
    /// The auth system could not be enabled because there is no root user.
    RootUserRequired,
}

/// The status behind each result of disabling.
pub open spec fn disable_status(outcome: DisableAuth) -> u16 {
    match outcome {
        DisableAuth::Disabled => 200,
        DisableAuth::Unauthorized => 401,
        DisableAuth::AlreadyDisabled => 409,
    }
}

/// The status behind each result of enabling.
pub open spec fn enable_status(outcome: EnableAuth) -> u16 {
    match outcome {
        EnableAuth::Enabled => 200,
        EnableAuth::RootUserRequired => 400,
        EnableAuth::AlreadyEnabled => 409,
    }
}

/// What a status means as the answer to a request to disable the auth system.
pub open spec fn disable_outcome(status: u16) -> Result<DisableAuth, AuthError> {
    if status == 200 {
        Ok(DisableAuth::Disabled)
    } else if status == 409 {
        Ok(DisableAuth::AlreadyDisabled)
    } else if status == 401 {
        Ok(DisableAuth::Unauthorized)
    } else {
        Err(AuthError::UnexpectedStatus(status))
    }
}

/// What a status means as the answer to a request to enable the auth system.
pub open spec fn enable_outcome(status: u16) -> Result<EnableAuth, AuthError> {
    if status == 200 {
        Ok(EnableAuth::Enabled)
    } else if status == 400 {
        Ok(EnableAuth::RootUserRequired)
    } else if status == 409 {
        Ok(EnableAuth::AlreadyEnabled)
    } else {
        Err(AuthError::UnexpectedStatus(status))
    }
}

impl DisableAuth {
    /// Indicates whether or not the auth system was disabled as a result of the call to `disable`.
    pub fn is_disabled(&self) -> (r: bool)
        ensures
            r == (*self != DisableAuth::Unauthorized),
    {
        match *self {
            DisableAuth::AlreadyDisabled | DisableAuth::Disabled => true,
            DisableAuth::Unauthorized => false,
        }
    }

    /// Reads the status of an answer to a request to disable the auth system.
    pub fn from_status(status: u16) -> (r: Result<DisableAuth, AuthError>)
        ensures
            r == disable_outcome(status),
    {
        if status == 200 {
            Ok(DisableAuth::Disabled)
        } else if status == 409 {
            Ok(DisableAuth::AlreadyDisabled)
        } else if status == 401 {
            Ok(DisableAuth::Unauthorized)
        } else {
            Err(AuthError::UnexpectedStatus(status))
        }
    }
}

impl EnableAuth {
    /// Indicates whether or not the auth system was enabled as a result of the call to `enable`.
    pub fn is_enabled(&self) -> (r: bool)
        ensures
            r == (*self != EnableAuth::RootUserRequired),
    {
        match *self {
            EnableAuth::AlreadyEnabled | EnableAuth::Enabled => true,
            EnableAuth::RootUserRequired => false,
        }
    }

    /// Reads the status of an answer to a request to enable the auth system.
    pub fn from_status(status: u16) -> (r: Result<EnableAuth, AuthError>)
        ensures
            r == enable_outcome(status),
    {
        if status == 200 {
            Ok(EnableAuth::Enabled)
        } else if status == 400 {
            Ok(EnableAuth::RootUserRequired)
        } else if status == 409 {
            Ok(EnableAuth::AlreadyEnabled)
        } else {
            Err(AuthError::UnexpectedStatus(status))
        }
    }
}

/// Each result of disabling comes from one status and from no other, and every other status
/// is an error that holds that very status.
pub proof fn disable_outcome_round_trip(status: u16, outcome: DisableAuth)
    ensures
        disable_outcome(disable_status(outcome)) == Ok::<DisableAuth, AuthError>(outcome),
        disable_outcome(status) == Ok::<DisableAuth, AuthError>(outcome) <==> status == disable_status(
            outcome,
        ),
        disable_outcome(status) is Err <==> status != 200 && status != 401 && status != 409,
        disable_outcome(status) is Err ==> disable_outcome(status) == Err::<DisableAuth, AuthError>(
            AuthError::UnexpectedStatus(status),
        ),
{
}

/// Each result of enabling comes from one status and from no other, and every other status
/// is an error that holds that very status.
pub proof fn enable_outcome_round_trip(status: u16, outcome: EnableAuth)
    ensures
        enable_outcome(enable_status(outcome)) == Ok::<EnableAuth, AuthError>(outcome),
        enable_outcome(status) == Ok::<EnableAuth, AuthError>(outcome) <==> status == enable_status(
            outcome,
        ),
        enable_outcome(status) is Err <==> status != 200 && status != 400 && status != 409,
        enable_outcome(status) is Err ==> enable_outcome(status) == Err::<EnableAuth, AuthError>(
            AuthError::UnexpectedStatus(status),
        ),
{
}

/// Two readings of one status as the answer to a request to disable the auth system give
/// the same: the result depends on the status alone.
pub proof fn disable_outcome_is_repeatable(
    status: u16,
    first: Result<DisableAuth, AuthError>,
    second: Result<DisableAuth, AuthError>,
)
    requires
        first == disable_outcome(status),
        second == disable_outcome(status),
    ensures
        first == second,
{
}

/// Two readings of one status as the answer to a request to enable the auth system give
/// the same: the result depends on the status alone.
pub proof fn enable_outcome_is_repeatable(
    status: u16,
    first: Result<EnableAuth, AuthError>,
    second: Result<EnableAuth, AuthError>,
)
    requires
        first == enable_outcome(status),
        second == enable_outcome(status),
    ensures
        first == second,
{
}

} // verus!
