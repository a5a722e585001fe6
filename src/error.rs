use vstd::prelude::*;
use crate::payment::decimal_string;
use crate::text::decimal;

verus! {

/// What can go wrong in the library, one variant per cause, so that a caller
/// can tell "unreachable" from "rejected" from "invalid input".
#[derive(Debug, Clone, PartialEq, Eq)]
pub enum PunctureError {
    /// The invite text is malformed or truncated.
    InvalidInvite,
    /// A daemon with the same identity is already registered.
    AlreadyRegistered,
    /// The daemon (or the payee's service) could not be reached.
    Unreachable(String),
    /// The daemon rejected the operation; its message is kept verbatim.
    Rejected(String),
    /// The connection's daemon was deleted from the registry.
    DaemonUnregistered,
    /// The session ended while it was still in use.
    SessionClosed,
    /// The requested amount lies outside the payee service's bounds.
    AmountOutOfBounds { min_msat: u64, max_msat: u64 },
    /// The payee's service answered with an invoice that is not one for the
    /// requested amount.
    InvalidServiceInvoice,
    /// The fee does not fit in 64 bits.
    FeeOverflow,
}

/// The message a user is shown for `e`.
pub open spec fn message_of(e: PunctureError) -> Seq<char> {
    match e {
        PunctureError::InvalidInvite => "invalid invite"@,
        PunctureError::AlreadyRegistered => "daemon is already registered"@,
        PunctureError::Unreachable(d) => "unreachable: "@ + d@,
        PunctureError::Rejected(d) => "rejected: "@ + d@,
        PunctureError::DaemonUnregistered => "daemon is no longer registered"@,
        PunctureError::SessionClosed => "connection to the daemon was lost"@,
        PunctureError::AmountOutOfBounds { min_msat, max_msat } => "amount must be between "@
            + decimal(min_msat as nat) + " and "@ + decimal(max_msat as nat) + " msat"@,
        PunctureError::InvalidServiceInvoice => "payee service returned an invalid invoice"@,
        PunctureError::FeeOverflow => "fee exceeds the largest amount"@,
    }
}

impl PunctureError {
    /// A message that tells "unreachable" from "rejected" from "invalid input".
    pub fn message(&self) -> (r: String)
        ensures
            r@ == message_of(*self),
    {
        match self {
            PunctureError::InvalidInvite => String::from_str("invalid invite"),
            PunctureError::AlreadyRegistered => String::from_str("daemon is already registered"),
            PunctureError::Unreachable(d) => {
                let mut r = String::from_str("unreachable: ");
                r.append(d.as_str());
                r
            },
            PunctureError::Rejected(d) => {
                let mut r = String::from_str("rejected: ");
                r.append(d.as_str());
                r
            },
            PunctureError::DaemonUnregistered => String::from_str("daemon is no longer registered"),
            PunctureError::SessionClosed => String::from_str("connection to the daemon was lost"),
            PunctureError::AmountOutOfBounds { min_msat, max_msat } => {
                let mut r = String::from_str("amount must be between ");
                r.append(decimal_string(*min_msat).as_str());
                r.append(" and ");
                r.append(decimal_string(*max_msat).as_str());
                r.append(" msat");
                r
            },
            PunctureError::InvalidServiceInvoice => String::from_str(
                "payee service returned an invalid invoice",
            ),
            PunctureError::FeeOverflow => String::from_str("fee exceeds the largest amount"),
        }
    }
}

} // verus!
