use vstd::prelude::*;

verus! {

/// Why an admission attempt was refused or a session was torn down.
///
/// Every failure is local to one session and nothing is retried: a client that
/// wants to come back opens a new connection.
#[derive(Clone, Copy, Debug, PartialEq, Eq, Structural)]
pub enum RelayError {
    /// The credential was missing or wrong; the connection is refused.
    AdmissionDenied,
    /// Reading from or writing to the peer failed.
    PeerDisconnected,
    /// The subscriber fell behind the hub by more than its capacity.
    SubscriberLagged,
    /// The hub has been torn down.
    HubUnavailable,
}

impl RelayError {
    /// The HTTP status by which a client learns of this error, if it learns
    /// of it at all: only a refused admission is answered, with 401. The
    /// other errors end a session without a word to its peer.
    pub open spec fn status_spec(self) -> Option<u16> {
        match self {
            RelayError::AdmissionDenied => Some(401u16),
            _ => None,
        }
    }

    pub fn status(&self) -> (code: Option<u16>)
        ensures
            code == self.status_spec(),
    {
        match self {
            RelayError::AdmissionDenied => Some(401),
            _ => None,
        }
    }
}

} // verus!
