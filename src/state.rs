use vstd::prelude::*;

verus! {

/// Connection state of the link to the remote control service.
#[derive(Debug, Copy, Clone, PartialEq, Eq, Structural)]
pub enum ConnectionState {
    Connected,
    Disconnected,
    Unauthorized,
}

/// Canonical lowercase text of a state.
pub open spec fn state_text(s: ConnectionState) -> Seq<char> {
    match s {
        ConnectionState::Connected => "connected"@,
        ConnectionState::Disconnected => "disconnected"@,
        ConnectionState::Unauthorized => "unauthorized"@,
    }
}

/// What the connection-state file holds for a state: its text and a newline.
pub open spec fn persisted_text(s: ConnectionState) -> Seq<char> {
    state_text(s).push('\n')
}

impl ConnectionState {
    /// Get string representation of the state.
    pub fn as_str(&self) -> (r: &'static str)
        ensures
            r@ == state_text(*self),
    {
        match self {
            ConnectionState::Connected => "connected",
            ConnectionState::Disconnected => "disconnected",
            ConnectionState::Unauthorized => "unauthorized",
        }
    }

    /// The same text as an owned string (what displaying the state prints).
    pub fn to_string(&self) -> (r: String)
        ensures
            r@ == state_text(*self),
    {
        String::from_str(self.as_str())
    }

    /// The line written to the connection-state file.
    pub fn persisted_line(&self) -> (r: String)
        ensures
            r@ == persisted_text(*self),
    {
        let mut s = String::from_str(self.as_str());
        s.append("\n");
        proof {
            reveal_strlit("\n");
            assert(s@ =~= persisted_text(*self));
        }
        s
    }
}

} // verus!
