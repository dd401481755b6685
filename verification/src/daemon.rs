//! The control daemon's protocol: a poll loop over a listener, any number
//! of accepted connections, and a stop pipe. Every decision the loop makes
//! is a function here; the unverified front end only performs the accepts,
//! reads, writes, and the checkpoint itself.

use vstd::prelude::*;
use crate::consts::CONTROL_REQUEST_MAX;

verus! {

/// CPU budget handed to the image streamer's compression stage.
#[derive(Clone, Copy, Debug, PartialEq, Eq, Structural)]
pub enum CpuBudget {
    Low,
    Medium,
    High,
}

/// A checkpoint request with every parameter spelled out.
pub struct CheckpointRequest {
    pub image_url: Option<String>,
    pub preserved_paths: Vec<String>,
    pub leave_running: bool,
    pub num_shards: u32,
    pub cpu_budget: CpuBudget,
    pub passphrase_file: Option<String>,
    pub verbose: u8,
    pub app_name: Option<String>,
}

/// The hard-coded parameters of a control-socket triggered checkpoint: the
/// application keeps running, a single shard, medium CPU budget, no
/// passphrase, and no override of the configured image URL.
pub open spec fn is_default_control_request(cp: CheckpointRequest) -> bool {
    &&& cp.image_url is None
    &&& cp.preserved_paths@.len() == 0
    &&& cp.leave_running == true
    &&& cp.num_shards == 1
    &&& cp.cpu_budget is Medium
    &&& cp.passphrase_file is None
    &&& cp.verbose == 0
    &&& cp.app_name is None
}

/// Builds the checkpoint request a control-socket trigger uses.
pub fn default_control_request() -> (cp: CheckpointRequest)
    ensures
        is_default_control_request(cp),
{
    CheckpointRequest {
        image_url: Option::None,
        preserved_paths: Vec::new(),
        leave_running: true,
        num_shards: 1,
        cpu_budget: CpuBudget::Medium,
        passphrase_file: Option::None,
        verbose: 0,
        app_name: Option::None,
    }
}

/// What one registered poll slot watches.
#[derive(Clone, Copy, Debug, PartialEq, Eq, Structural)]
pub enum PollKind {
    /// The read end of the stop pipe.
    Stop,
    /// The listening socket.
    Listener,
    /// One accepted connection.
    Connection,
}

/// The daemon's registration state: slot index is the poll key; a vacated
/// slot stays as a hole so the other keys keep their meaning.
pub struct DaemonState {
    pub slots: Vec<Option<PollKind>>,
}

impl DaemonState {
    /// The slot a key addresses, when registered.
    pub open spec fn kind_at(&self, key: int) -> Option<PollKind> {
        if 0 <= key < self.slots@.len() {
            self.slots@[key]
        } else {
            Option::None
        }
    }
}

/// The daemon starts watching exactly the stop pipe (key 0) and the
/// listener (key 1).
pub fn daemon_init() -> (s: DaemonState)
    ensures
        s.slots@.len() == 2,
        s.kind_at(0) == Option::Some(PollKind::Stop),
        s.kind_at(1) == Option::Some(PollKind::Listener),
{
    let mut slots: Vec<Option<PollKind>> = Vec::new();
    slots.push(Option::Some(PollKind::Stop));
    slots.push(Option::Some(PollKind::Listener));
    DaemonState { slots }
}

/// What the loop does with a key the poller reported readable.
#[derive(Clone, Copy, Debug, PartialEq, Eq, Structural)]
pub enum ReadyAction {
    /// Accept one connection and register it.
    Accept,
    /// Read up to [`CONTROL_REQUEST_MAX`] bytes from the connection behind
    /// the key.
    ReadConnection { key: usize },
    /// Leave the loop: the stop pipe was written to or closed.
    Shutdown,
    /// A key with no live registration: nothing to do.
    Ignore,
}

/// Dispatch on a readable key: the listener accepts, a connection is read,
/// the stop pipe shuts the daemon down, and a stale key does nothing.
pub fn on_ready(state: &DaemonState, key: usize) -> (a: ReadyAction)
    ensures
        a == match state.kind_at(key as int) {
            Option::Some(PollKind::Stop) => ReadyAction::Shutdown,
            Option::Some(PollKind::Listener) => ReadyAction::Accept,
            Option::Some(PollKind::Connection) => ReadyAction::ReadConnection { key },
            Option::None => ReadyAction::Ignore,
        },
{
    if key < state.slots.len() {
        match state.slots[key] {
            Option::Some(PollKind::Stop) => ReadyAction::Shutdown,
            Option::Some(PollKind::Listener) => ReadyAction::Accept,
            Option::Some(PollKind::Connection) => ReadyAction::ReadConnection { key },
            Option::None => ReadyAction::Ignore,
        }
    } else {
        ReadyAction::Ignore
    }
}

/// Registers a freshly accepted connection; its key is the new slot's
/// index. No other slot changes.
pub fn register_connection(state: &mut DaemonState) -> (key: usize)
    ensures
        key == old(state).slots@.len(),
        final(state).slots@.len() == old(state).slots@.len() + 1,
        final(state).kind_at(key as int) == Option::Some(PollKind::Connection),
        forall|k: int| 0 <= k < old(state).slots@.len() ==> final(state).kind_at(k) == old(
            state,
        ).kind_at(k),
{
    let key = state.slots.len();
    state.slots.push(Option::Some(PollKind::Connection));
    key
}

/// A non-empty request triggers a checkpoint and is echoed back once the
/// attempt completes; an empty read (the peer closed without sending) or a
/// read error drops the connection and triggers nothing.
pub open spec fn triggers_checkpoint(read_len: Option<usize>) -> bool {
    match read_len {
        Option::Some(n) => n > 0,
        Option::None => false,
    }
}

/// The loop's reaction to one read from a connection.
pub enum ConnVerdict {
    /// Run a checkpoint with the default parameters, then echo the
    /// `echo_len` received bytes back as the acknowledgement.
    TriggerCheckpoint { request: CheckpointRequest, echo_len: usize },
    /// Drop the connection: its slot is vacated.
    DropConnection,
}

/// Decides what one read from connection `key` means, and maintains the
/// registrations: a dropped connection vacates exactly its own slot, so
/// other connections are unaffected. `read_len` carries the byte count of a
/// successful read, or nothing for a read error.
pub fn on_connection_read(state: &mut DaemonState, key: usize, read_len: Option<usize>) -> (v:
    ConnVerdict)
    requires
        old(state).kind_at(key as int) == Option::Some(PollKind::Connection),
        read_len matches Option::Some(n) ==> n <= CONTROL_REQUEST_MAX,
    ensures
        triggers_checkpoint(read_len) ==> (v matches ConnVerdict::TriggerCheckpoint {
            request,
            echo_len,
        } && is_default_control_request(request) && Option::Some(echo_len) == read_len
            && *final(state) == *old(state)),
        !triggers_checkpoint(read_len) ==> (v is DropConnection && final(state).kind_at(key as int)
            is None),
        final(state).slots@.len() == old(state).slots@.len(),
        forall|k: int| 0 <= k < old(state).slots@.len() && k != key ==> final(state).kind_at(k)
            == old(state).kind_at(k),
{
    match read_len {
        Option::Some(n) => {
            if n > 0 {
                ConnVerdict::TriggerCheckpoint { request: default_control_request(), echo_len: n }
            } else {
                state.slots.set(key, Option::None);
                ConnVerdict::DropConnection
            }
        },
        Option::None => {
            state.slots.set(key, Option::None);
            ConnVerdict::DropConnection
        },
    }
}

/// A connection that closes without sending bytes never triggers a
/// checkpoint, and neither does a failed read.
pub proof fn lemma_empty_request_triggers_nothing()
    ensures
        !triggers_checkpoint(Option::Some(0)),
        !triggers_checkpoint(Option::None),
        forall|n: usize| #[trigger] triggers_checkpoint(Option::Some(n)) <==> n > 0,
{
}

} // verus!
