//! The state that the server keeps of each accepted client connection.

use vstd::prelude::*;

verus! {

/// The readiness kinds a connection asks the poller to report.
#[derive(Clone, Copy, Debug, PartialEq, Eq, Structural)]
pub struct Interest {
    /// Data can be read.
    pub readable: bool,
    /// The peer hung up.
    pub hup: bool,
}

/// An accepted client connection: the token it is registered with, what it
/// asks the poller for, and whether it must be (re)registered or dropped.
#[derive(Clone, Copy, Debug, PartialEq, Eq, Structural)]
pub struct Connection {
    /// The token used to register with the poller.
    pub token: usize,
    /// The set of events the connection is interested in.
    pub interest: Interest,
    /// The connection needs to be (re)registered with the poller.
    pub is_idle: bool,
    /// The connection is reset and is to be dropped.
    pub is_reset: bool,
}

impl Connection {
    /// A fresh connection: interested in hang-ups only, idle, not reset.
    pub fn new(token: usize) -> (r: Connection)
        ensures
            r == (Connection {
                token,
                interest: Interest { readable: false, hup: true },
                is_idle: true,
                is_reset: false,
            }),
    {
        Connection {
            token: token,
            interest: Interest { readable: false, hup: true },
            is_idle: true,
            is_reset: false,
        }
    }

    /// The interest that a first registration hands to the poller: the
    /// current one with reads added.
    pub fn registration_interest(&self) -> (r: Interest)
        ensures
            r == (Interest { readable: true, ..self.interest }),
    {
        Interest { readable: true, hup: self.interest.hup }
    }

    /// The interest that a registration again hands to the poller.
    pub fn reregistration_interest(&self) -> (r: Interest)
        ensures
            r == self.interest,
    {
        self.interest
    }

    /// Records a first registration: reads are now of interest, and the
    /// connection is no longer idle if the poller accepted it.
    pub fn register(&mut self, registered: bool)
        ensures
            *final(self) == (Connection {
                interest: Interest { readable: true, ..old(self).interest },
                is_idle: if registered {
                    false
                } else {
                    old(self).is_idle
                },
                ..*old(self)
            }),
    {
        self.interest.readable = true;
        if registered {
            self.is_idle = false;
        }
    }

    /// Records a registration again: the connection is no longer idle if
    /// the poller accepted it.
    pub fn reregister(&mut self, registered: bool)
        ensures
            *final(self) == (Connection {
                is_idle: if registered {
                    false
                } else {
                    old(self).is_idle
                },
                ..*old(self)
            }),
    {
        if registered {
            self.is_idle = false;
        }
    }

    /// Marks the connection as reset.
    pub fn mark_reset(&mut self)
        ensures
            *final(self) == (Connection { is_reset: true, ..*old(self) }),
    {
        self.is_reset = true;
    }

    /// Whether the connection is reset.
    pub fn is_reset(&self) -> (r: bool)
        ensures
            r == self.is_reset,
    {
        self.is_reset
    }

    /// Marks the connection as needing a registration again.
    pub fn mark_idle(&mut self)
        ensures
            *final(self) == (Connection { is_idle: true, ..*old(self) }),
    {
        self.is_idle = true;
    }

    /// Whether the connection needs a registration again.
    pub fn is_idle(&self) -> (r: bool)
        ensures
            r == self.is_idle,
    {
        self.is_idle
    }
}

} // verus!
