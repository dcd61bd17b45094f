//! The client's shared state: where input goes, the connection, and the
//! sequence counter of sent messages.
use vstd::prelude::*;

verus! {

/// Where keyboard and mouse input currently goes.
#[derive(Clone, Copy, Debug, PartialEq, Eq, Structural)]
pub enum InputMode {
    /// Inputs go to macOS (normal mode)
    MacOS,
    /// Inputs are forwarded to Windows (forwarding mode)
    Windows,
}

impl InputMode {
    /// The other mode.
    pub open spec fn toggled(self) -> InputMode {
        match self {
            InputMode::MacOS => InputMode::Windows,
            InputMode::Windows => InputMode::MacOS,
        }
    }

    /// The other mode.
    pub fn toggle(self) -> (r: InputMode)
        ensures
            r == self.toggled(),
    {
        match self {
            InputMode::MacOS => InputMode::Windows,
            InputMode::Windows => InputMode::MacOS,
        }
    }
}

/// Switching modes twice leaves the mode where it was, and switching always
/// changes it.
pub proof fn lemma_toggle_involution(m: InputMode)
    ensures
        m.toggled().toggled() == m,
        m.toggled() != m,
{
}

/// The client's state. `C` is the connection to the server; the state only
/// needs to know whether there is one.
pub struct AppState<C> {
    /// Current input mode
    pub mode: InputMode,
    /// Connection to the Windows server (if connected)
    pub network_client: Option<C>,
    /// Server address (IP:PORT)
    pub server_address: Option<String>,
    /// Sequence number of the last message sent
    pub sequence: u64,
}

impl<C> AppState<C> {
    /// Input is being forwarded: Windows mode with a live connection.
    pub open spec fn forwarding(&self) -> bool {
        self.mode == InputMode::Windows && self.network_client is Some
    }

    pub fn new() -> (s: Self)
        ensures
            s.mode == InputMode::MacOS,
            s.network_client is None,
            s.server_address is None,
            s.sequence == 0,
    {
        AppState { mode: InputMode::MacOS, network_client: None, server_address: None, sequence: 0 }
    }

    /// Get next sequence number
    pub fn next_sequence(&mut self) -> (n: u64)
        requires
            old(self).sequence < u64::MAX,
        ensures
            n == old(self).sequence + 1,
            final(self).sequence == n,
            final(self).mode == old(self).mode,
            final(self).network_client == old(self).network_client,
            final(self).server_address == old(self).server_address,
    {
        self.sequence = self.sequence + 1;
        self.sequence
    }

    /// Check if we should forward inputs
    pub fn should_forward(&self) -> (b: bool)
        ensures
            b == self.forwarding(),
    {
        self.mode == InputMode::Windows && self.network_client.is_some()
    }
}

} // verus!
