use vstd::prelude::*;

verus! {

/// What the rules of this crate read out of a failed file or socket
/// operation.  Every failure they do not distinguish is `Other`.
#[derive(Clone, Copy, Debug, PartialEq, Eq, Structural)]
pub enum IoKind {
    NotFound,
    AlreadyExists,
    ConnectionRefused,
    ConnectionReset,
    Other,
}

/// Why a request never produced a response from the player.
#[derive(Clone, Copy, Debug, PartialEq, Eq, Structural)]
pub enum SendKind {
    ConnectionRefused,
    ConnectionReset,
    Timeout,
    Other,
}

/// Every failure the store, the player client and the session rules report.
#[derive(Clone, Copy, Debug, PartialEq, Eq, Structural)]
#[non_exhaustive]
pub enum HomeRadioError {
    /// Text that should have been JSON of the expected shape was not.
    Serde,
    /// A file operation failed.
    Io(IoKind),
    /// Text that should have been a volume was not a decimal `u16`.
    ParseInt,
    /// The request could not be delivered to the player.
    SendRequestError(SendKind),
    /// The query of a request could not be encoded.
    UrlEncodedError,
    /// The player answered, but not with the JSON payload expected.
    JsonPayloadError,
    /// The body of the player's answer could not be read to its end.
    PayloadError,
    /// The player did not become reachable within the probes allowed.
    VLCServerUnhealthy,
    /// A driver could not start playback.
    Play,
    /// A driver could not set this volume.
    VolumeChange(i32),
    /// The worker that carries out commands is gone.
    ChannelClosed,
}

impl HomeRadioError {
    /// Whether the failure means that nothing is listening on the player's
    /// port yet, or that it hung up: the two failures a starting player shows.
    pub open spec fn is_unreachable(self) -> bool {
        match self {
            HomeRadioError::SendRequestError(k) => k == SendKind::ConnectionRefused || k
                == SendKind::ConnectionReset,
            HomeRadioError::Io(k) => k == IoKind::ConnectionRefused || k == IoKind::ConnectionReset,
            _ => false,
        }
    }

    /// Executable form of [`HomeRadioError::is_unreachable`].
    pub fn unreachable(&self) -> (r: bool)
        ensures
            r == self.is_unreachable(),
    {
        match self {
            HomeRadioError::SendRequestError(k) => match k {
                SendKind::ConnectionRefused => true,
                SendKind::ConnectionReset => true,
                _ => false,
            },
            HomeRadioError::Io(k) => match k {
                IoKind::ConnectionRefused => true,
                IoKind::ConnectionReset => true,
                _ => false,
            },
            _ => false,
        }
    }
}

} // verus!
