//! Translation of the status codes the Bluetooth stack reports into the
//! outcome the server acts on.

use vstd::prelude::*;

verus! {

/// Status of a radio or advertising operation.
#[derive(Debug, Clone, Copy, PartialEq, Eq, Structural)]
pub enum BtStatus {
    Success,
    Fail,
    NotReady,
    Busy,
    /// Any code outside the ones named above.
    Other,
}

/// Status of an attribute-protocol operation.
#[derive(Debug, Clone, Copy, PartialEq, Eq, Structural)]
pub enum GattStatus {
    Success,
    Error,
    InternalError,
    Busy,
    /// Any code outside the ones named above.
    Other,
}

/// Why an operation of the server did not go through.
#[derive(Debug, Clone, Copy, PartialEq, Eq, Structural)]
pub enum ServerError {
    /// The stack reported a status from the classified error set.
    OperationFailed,
    /// A response would carry more bytes than an attribute value can hold.
    ResponseTooLong,
    /// Data was to be sent while no peer is connected.
    NotConnected,
}

/// The outcome a radio status stands for: failure, not-ready and busy are
/// errors, everything else is let through.
pub open spec fn bt_status_outcome(status: BtStatus) -> Result<(), ServerError> {
    match status {
        BtStatus::Fail | BtStatus::NotReady | BtStatus::Busy => Err(ServerError::OperationFailed),
        BtStatus::Success | BtStatus::Other => Ok(()),
    }
}

/// The outcome an attribute-protocol status stands for: error, internal
/// error and busy are errors, everything else is let through.
pub open spec fn gatt_status_outcome(status: GattStatus) -> Result<(), ServerError> {
    match status {
        GattStatus::Error | GattStatus::InternalError | GattStatus::Busy => Err(
            ServerError::OperationFailed,
        ),
        GattStatus::Success | GattStatus::Other => Ok(()),
    }
}

impl BtStatus {
    /// Whether the status is let through although it is not plain success;
    /// callers report such a status as a warning.
    pub fn is_unclassified(&self) -> (unclassified: bool)
        ensures
            unclassified == (*self is Other),
    {
        match self {
            BtStatus::Other => true,
            _ => false,
        }
    }
}

impl GattStatus {
    /// Whether the status is let through although it is not plain success;
    /// callers report such a status as a warning.
    pub fn is_unclassified(&self) -> (unclassified: bool)
        ensures
            unclassified == (*self is Other),
    {
        match self {
            GattStatus::Other => true,
            _ => false,
        }
    }
}

/// Translates a radio status into the outcome it stands for.
pub fn check_bt_status(status: BtStatus) -> (outcome: Result<(), ServerError>)
    ensures
        outcome == bt_status_outcome(status),
{
    match status {
        BtStatus::Success => Ok(()),
        BtStatus::Fail => Err(ServerError::OperationFailed),
        BtStatus::NotReady => Err(ServerError::OperationFailed),
        BtStatus::Busy => Err(ServerError::OperationFailed),
        BtStatus::Other => Ok(()),
    }
}

/// Translates an attribute-protocol status into the outcome it stands for.
pub fn check_gatt_status(status: GattStatus) -> (outcome: Result<(), ServerError>)
    ensures
        outcome == gatt_status_outcome(status),
{
    match status {
        GattStatus::Success => Ok(()),
        GattStatus::Error => Err(ServerError::OperationFailed),
        GattStatus::InternalError => Err(ServerError::OperationFailed),
        GattStatus::Busy => Err(ServerError::OperationFailed),
        GattStatus::Other => Ok(()),
    }
}

} // verus!
