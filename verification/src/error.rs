//! Why a relay operation was refused or given up.
use vstd::prelude::*;

verus! {

/// Relay error
#[derive(Clone, Copy, Debug, PartialEq, Eq, Structural)]
pub enum Error {
    /// Channel timeout
    ChannelTimeout,
    /// Message response timeout
    RecvTimeout,
    /// Generic timeout
    Timeout,
    /// Message not sent
    MessagetNotSent,
    /// Impossible to receive oneshot message
    OneShotRecvError,
    /// Read actions disabled
    ReadDisabled,
    /// Write actions disabled
    WriteDisabled,
    /// Filters empty
    FiltersEmpty,
}

impl Error {
    /// The text that an error is shown with.
    pub open spec fn text(self) -> Seq<char> {
        match self {
            Error::ChannelTimeout => "channel timeout"@,
            Error::RecvTimeout => "recv message response timeout"@,
            Error::Timeout => "timeout"@,
            Error::MessagetNotSent => "message not sent"@,
            Error::OneShotRecvError => "impossible to recv msg"@,
            Error::ReadDisabled => "read actions are disabled for this relay"@,
            Error::WriteDisabled => "write actions are disabled for this relay"@,
            Error::FiltersEmpty => "filters empty"@,
        }
    }

    /// The text that the error is shown with.
    pub fn message(&self) -> (text: &'static str)
        ensures
            text@ == self.text(),
    {
        match self {
            Error::ChannelTimeout => "channel timeout",
            Error::RecvTimeout => "recv message response timeout",
            Error::Timeout => "timeout",
            Error::MessagetNotSent => "message not sent",
            Error::OneShotRecvError => "impossible to recv msg",
            Error::ReadDisabled => "read actions are disabled for this relay",
            Error::WriteDisabled => "write actions are disabled for this relay",
            Error::FiltersEmpty => "filters empty",
        }
    }
}

} // verus!
