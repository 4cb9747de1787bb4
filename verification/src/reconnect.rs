//! The reconnect loop's state machine: a connect/retry cycle that owns the
//! object state store for the lifetime of each connection and reports phase
//! changes to the presentation layer.  The loop's runner performs the
//! actual connection attempts and timers; the decisions live here.

use vstd::prelude::*;

use crate::state::{IdentEntry, Item, State};
use crate::{GtkMessage, PipewireMessage};

verus! {

/// The connection phase of the backend loop.
#[derive(Clone, Copy, Debug, PartialEq, Eq, Structural)]
pub enum ConnectionPhase {
    /// No connection; no attempt has been announced since the last session.
    Disconnected,
    /// Attempts are under way and the presentation layer was told so.
    Connecting,
    /// A connection is up and a session is running.
    Connected,
}

/// The control flags the backend loop services in every phase.
pub struct LoopState {
    /// Set once a termination request arrives; the loop then stops
    /// permanently.  Termination is honored from any state and is the only
    /// path to this subsystem's exit.
    pub is_stopped: bool,
    /// The remote target to connect to; `None` means the default remote.
    pub remote: Option<String>,
}

impl LoopState {
    /// Fresh control flags: running, default remote.
    pub fn new() -> (s: Self)
        ensures
            !s.is_stopped,
            s.remote is None,
    {
        LoopState { is_stopped: false, remote: None }
    }

    /// Service one control message.  A termination request stops the loop
    /// permanently; a connect request records the remote target to use from
    /// now on.  Answers whether the message interrupts the running loop
    /// iteration — a link toggle does not, it is handled in place.
    pub fn handle_message(&mut self, msg: GtkMessage) -> (interrupted: bool)
        ensures
            match msg {
                GtkMessage::Terminate => {
                    &&& interrupted
                    &&& final(self).is_stopped
                    &&& final(self).remote == old(self).remote
                },
                GtkMessage::Connect(remote) => {
                    &&& interrupted
                    &&& final(self).remote == remote
                    &&& final(self).is_stopped == old(self).is_stopped
                },
                GtkMessage::ToggleLink { .. } => {
                    &&& !interrupted
                    &&& final(self).is_stopped == old(self).is_stopped
                    &&& final(self).remote == old(self).remote
                },
            },
    {
        match msg {
            GtkMessage::Terminate => {
                self.is_stopped = true;
                true
            },
            GtkMessage::Connect(remote) => {
                self.remote = remote;
                true
            },
            GtkMessage::ToggleLink { .. } => false,
        }
    }
}

/// The reconnect loop's state: phase, control flags, and the object state
/// store of the current session.
pub struct ReconnectLoop {
    /// The connection phase.
    pub phase: ConnectionPhase,
    /// Control flags, serviced without blocking the retry cadence.
    pub control: LoopState,
    /// The store of the running session.  It is rebuilt from scratch each
    /// time a connection is established, so no identifier from an earlier
    /// session ever leaks into a later one.
    pub store: State,
}

impl ReconnectLoop {
    /// The store's invariant holds in every reachable loop state.
    pub open spec fn wf(&self) -> bool {
        self.store.wf()
    }

    /// A fresh loop: disconnected, running, with an empty store.
    pub fn new() -> (r: Self)
        ensures
            r.wf(),
            r.phase is Disconnected,
            !r.control.is_stopped,
            r.control.remote is None,
            r.store.items() == Map::<u32, Item>::empty(),
    {
        ReconnectLoop {
            phase: ConnectionPhase::Disconnected,
            control: LoopState::new(),
            store: State::new(),
        }
    }

    /// A connection attempt failed; the runner will retry on its fixed
    /// interval.  The first failure announces `Connecting` to the
    /// presentation layer; later ones in the same cycle stay silent.
    pub fn connect_failed(&mut self) -> (msg: Option<PipewireMessage>)
        requires
            old(self).wf(),
            !(old(self).phase is Connected),
        ensures
            final(self).wf(),
            final(self).phase is Connecting,
            final(self).control == old(self).control,
            final(self).store == old(self).store,
            msg == if old(self).phase is Connecting {
                None::<PipewireMessage>
            } else {
                Some(PipewireMessage::Connecting)
            },
    {
        let announce = match self.phase {
            ConnectionPhase::Connecting => false,
            _ => true,
        };
        self.phase = ConnectionPhase::Connecting;
        if announce {
            Some(PipewireMessage::Connecting)
        } else {
            None
        }
    }

    /// A connection attempt succeeded: a session begins over a fresh, empty
    /// store.  `Connected` is announced exactly when a `Connecting` was
    /// announced before it.
    pub fn connect_succeeded(&mut self) -> (msg: Option<PipewireMessage>)
        requires
            old(self).wf(),
            !(old(self).phase is Connected),
        ensures
            final(self).wf(),
            final(self).phase is Connected,
            final(self).control == old(self).control,
            final(self).store.items() == Map::<u32, Item>::empty(),
            final(self).store.counters() == Map::<Seq<char>, IdentEntry>::empty(),
            forall|f: u32, t: u32| #[trigger] final(self).store.spec_get_link_id(f, t) is None,
            msg == if old(self).phase is Connecting {
                Some(PipewireMessage::Connected)
            } else {
                None::<PipewireMessage>
            },
    {
        let announce = match self.phase {
            ConnectionPhase::Connecting => true,
            _ => false,
        };
        self.phase = ConnectionPhase::Connected;
        self.store = State::new();
        if announce {
            Some(PipewireMessage::Connected)
        } else {
            None
        }
    }

    /// The running session ended: a fatal connection error — a broken pipe,
    /// say — or an interrupting control message tore it down.  The
    /// presentation layer is always told to clear its mirror, and the dead
    /// session's store is discarded.
    pub fn session_ended(&mut self) -> (msg: PipewireMessage)
        requires
            old(self).wf(),
            old(self).phase is Connected,
        ensures
            final(self).wf(),
            final(self).phase is Disconnected,
            final(self).control == old(self).control,
            final(self).store.items() == Map::<u32, Item>::empty(),
            msg == PipewireMessage::Disconnected,
    {
        self.phase = ConnectionPhase::Disconnected;
        self.store = State::new();
        PipewireMessage::Disconnected
    }
}

} // verus!
