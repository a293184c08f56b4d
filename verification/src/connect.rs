//! How a client reaches the daemon, and starts it where it is not there.
//!
//! The client performs a [`ConnectAction`], tells [`connect_next`] what came of
//! it, and is told the next action, until it is told to use the connection or to
//! give up.
use vstd::prelude::*;
use crate::error::Error;

verus! {

/// How often the client looks for the daemon that it started.
pub const TRIES: u32 = 100;

/// The pause between two looks, in milliseconds.
pub const PAUSE: u64 = 20;

/// What the client waits for.
#[derive(Debug, Clone, Copy, PartialEq, Eq, Structural)]
pub enum ConnectState {
    /// The outcome of its first attempt.
    First,
    /// The end of the process that starts the daemon.
    Starting,
    /// The outcome of an attempt that `tries` others came before since.
    Trying { tries: u32 },
    /// The end of the pause after `tries` attempts.
    Pausing { tries: u32 },
    /// Nothing.
    Done,
}

/// What came of an action.
#[derive(Debug, Clone, Copy, PartialEq, Eq, Structural)]
pub enum ConnectEvent {
    Connected,
    Refused,
    Started { success: bool },
    Paused,
}

/// What the client does next.
pub enum ConnectAction {
    /// Try to connect.
    Try,
    /// Run the process that starts the daemon.
    Start,
    /// Pause.
    Pause { millis: u64 },
    /// Use the connection.
    Use,
    /// Give up.
    Fail(Error),
}

/// Whether `event` is something that the state waits for.
pub open spec fn expects(state: ConnectState, event: ConnectEvent) -> bool {
    match (state, event) {
        (ConnectState::First, ConnectEvent::Connected) => true,
        (ConnectState::First, ConnectEvent::Refused) => true,
        (ConnectState::Starting, ConnectEvent::Started { .. }) => true,
        (ConnectState::Trying { tries }, ConnectEvent::Connected) => tries < TRIES,
        (ConnectState::Trying { tries }, ConnectEvent::Refused) => tries < TRIES,
        (ConnectState::Pausing { tries }, ConnectEvent::Paused) => tries <= TRIES,
        _ => false,
    }
}

/// What follows an event that the state waits for.
pub open spec fn next(state: ConnectState, event: ConnectEvent) -> (ConnectState, ConnectAction) {
    match (state, event) {
        (_, ConnectEvent::Connected) => (ConnectState::Done, ConnectAction::Use),
        (ConnectState::First, _) => (ConnectState::Starting, ConnectAction::Start),
        (ConnectState::Starting, ConnectEvent::Started { success }) => if success {
            (ConnectState::Trying { tries: 0 }, ConnectAction::Try)
        } else {
            (ConnectState::Done, ConnectAction::Fail(Error::DaemonNotStarted))
        },
        (ConnectState::Trying { tries }, _) => (
            ConnectState::Pausing { tries: (tries + 1) as u32 },
            ConnectAction::Pause { millis: PAUSE },
        ),
        (ConnectState::Pausing { tries }, _) => if tries < TRIES {
            (ConnectState::Trying { tries }, ConnectAction::Try)
        } else {
            (ConnectState::Done, ConnectAction::Fail(Error::DaemonSilent))
        },
        _ => arbitrary(),
    }
}

/// Starts to connect.
pub fn connect() -> (first: (ConnectState, ConnectAction))
    ensures
        first == (ConnectState::First, ConnectAction::Try),
{
    (ConnectState::First, ConnectAction::Try)
}

/// Decides what follows an event.
pub fn connect_next(state: ConnectState, event: ConnectEvent) -> (after: (
    ConnectState,
    ConnectAction,
))
    requires
        expects(state, event),
    ensures
        after == next(state, event),
{
    match (state, event) {
        (_, ConnectEvent::Connected) => (ConnectState::Done, ConnectAction::Use),
        (ConnectState::First, _) => (ConnectState::Starting, ConnectAction::Start),
        (ConnectState::Starting, ConnectEvent::Started { success }) => {
            if success {
                (ConnectState::Trying { tries: 0 }, ConnectAction::Try)
            } else {
                (ConnectState::Done, ConnectAction::Fail(Error::DaemonNotStarted))
            }
        },
        (ConnectState::Trying { tries }, _) => (
            ConnectState::Pausing { tries: tries + 1 },
            ConnectAction::Pause { millis: PAUSE },
        ),
        (ConnectState::Pausing { tries }, _) => {
            if tries < TRIES {
                (ConnectState::Trying { tries }, ConnectAction::Try)
            } else {
                (ConnectState::Done, ConnectAction::Fail(Error::DaemonSilent))
            }
        },
        _ => vstd::pervasive::unreached(),
    }
}

/// What the client meets: whether the attempt after `n` others is accepted, and
/// whether the daemon can be started.
pub struct Surroundings {
    pub accepts: spec_fn(nat) -> bool,
    pub starts: bool,
}

/// How connecting ends: with which action, after how many attempts, starts of
/// the daemon and milliseconds of pauses.
pub struct Connected {
    pub last: ConnectAction,
    pub attempts: nat,
    pub starts: nat,
    pub paused: nat,
}

/// How many actions can still follow in a state.
pub open spec fn steps_left(state: ConnectState) -> int {
    match state {
        ConnectState::First => 2 * TRIES + 3,
        ConnectState::Starting => 2 * TRIES + 2,
        ConnectState::Trying { tries } => 2 * (TRIES - tries) + 1,
        ConnectState::Pausing { tries } => 2 * (TRIES - tries) + 2,
        ConnectState::Done => 0,
    }
}

/// The rest of a connection that is in `state` and about to do `action`, where
/// `so_far` is what was done before.
pub open spec fn connect_from(
    state: ConnectState,
    action: ConnectAction,
    around: Surroundings,
    so_far: Connected,
) -> Connected
    decreases steps_left(state),
{
    let (event, done) = match action {
        ConnectAction::Try => (
            if (around.accepts)(so_far.attempts) {
                ConnectEvent::Connected
            } else {
                ConnectEvent::Refused
            },
            Connected { attempts: so_far.attempts + 1, ..so_far },
        ),
        ConnectAction::Start => (
            ConnectEvent::Started { success: around.starts },
            Connected { starts: so_far.starts + 1, ..so_far },
        ),
        ConnectAction::Pause { millis } => (
            ConnectEvent::Paused,
            Connected { paused: so_far.paused + millis as nat, ..so_far },
        ),
        _ => arbitrary(),
    };
    if action is Use || action is Fail {
        Connected { last: action, ..so_far }
    } else if expects(state, event) {
        let (after, then_do) = next(state, event);
        if 0 <= steps_left(after) < steps_left(state) {
            connect_from(after, then_do, around, done)
        } else {
            arbitrary()
        }
    } else {
        arbitrary()
    }
}

/// A whole connection.
pub open spec fn connection(around: Surroundings) -> Connected {
    connect_from(
        ConnectState::First,
        ConnectAction::Try,
        around,
        Connected { last: ConnectAction::Try, attempts: 0, starts: 0, paused: 0 },
    )
}

/// Whether the daemon answers one of the looks for it that follow the first
/// `tries`.
pub open spec fn answers_after(around: Surroundings, tries: nat) -> bool {
    exists|n: nat| tries < n <= TRIES && #[trigger] (around.accepts)(n)
}

proof fn lemma_trying(around: Surroundings, tries: u32, so_far: Connected)
    requires
        tries < TRIES,
        so_far.attempts == tries + 1,
        so_far.starts == 1,
        so_far.paused == tries * PAUSE,
    ensures
        ({
            let ended = connect_from(
                ConnectState::Trying { tries },
                ConnectAction::Try,
                around,
                so_far,
            );
            &&& ended.starts == 1
            &&& so_far.attempts < ended.attempts <= TRIES + 1
            &&& answers_after(around, tries as nat) ==> {
                &&& ended.last == ConnectAction::Use
                &&& (around.accepts)((ended.attempts - 1) as nat)
                &&& ended.paused == (ended.attempts - 2) * PAUSE
            }
            &&& !answers_after(around, tries as nat) ==> {
                &&& ended.last == ConnectAction::Fail(Error::DaemonSilent)
                &&& ended.attempts == TRIES + 1
                &&& ended.paused == TRIES * PAUSE
            }
            &&& forall|n: nat|
                so_far.attempts <= n < ended.attempts - 1 ==> !#[trigger] (around.accepts)(n)
        }),
    decreases TRIES - tries,
{
    reveal_with_fuel(connect_from, 4);
    let n = (tries + 1) as nat;
    if (around.accepts)(n) {
    } else if tries + 1 < TRIES {
        let done = Connected {
            attempts: so_far.attempts + 1,
            paused: so_far.paused + PAUSE as nat,
            ..so_far
        };
        lemma_trying(around, (tries + 1) as u32, done);
        assert(answers_after(around, tries as nat) == answers_after(around, n)) by {
            if answers_after(around, tries as nat) {
                let m = choose|m: nat| tries < m <= TRIES && #[trigger] (around.accepts)(m);
                assert(m != n);
            }
        }
    } else {
        assert(!answers_after(around, tries as nat)) by {
            if answers_after(around, tries as nat) {
                let m = choose|m: nat| tries < m <= TRIES && #[trigger] (around.accepts)(m);
                assert(m == n);
            }
        }
    }
}

/// A daemon that is there is used at once. One that is not is started, once;
/// if it starts, the client looks for it a hundred times, twenty milliseconds
/// apart, and uses the first connection that it gets.
pub proof fn connection_is_bounded(around: Surroundings)
    ensures
        ({
            let ended = connection(around);
            &&& ended.starts == (if (around.accepts)(0) {
                0nat
            } else {
                1
            })
            &&& if (around.accepts)(0) {
                ended.last == ConnectAction::Use && ended.attempts == 1 && ended.paused == 0
            } else if !around.starts {
                &&& ended.last == ConnectAction::Fail(Error::DaemonNotStarted)
                &&& ended.attempts == 1
                &&& ended.paused == 0
            } else if answers_after(around, 0) {
                &&& ended.last == ConnectAction::Use
                &&& 2 <= ended.attempts <= TRIES + 1
                &&& (around.accepts)((ended.attempts - 1) as nat)
                &&& forall|n: nat| n < ended.attempts - 1 ==> !#[trigger] (around.accepts)(n)
                &&& ended.paused == (ended.attempts - 2) * PAUSE
            } else {
                &&& ended.last == ConnectAction::Fail(Error::DaemonSilent)
                &&& ended.attempts == TRIES + 1
                &&& ended.paused == TRIES * PAUSE
            }
        }),
{
    reveal_with_fuel(connect_from, 3);
    if !(around.accepts)(0) && around.starts {
        lemma_trying(
            around,
            0,
            Connected { last: ConnectAction::Try, attempts: 1, starts: 1, paused: 0 },
        );
    }
}

/// A daemon that was started is looked for up to a hundred times with twenty
/// milliseconds after each vain look, two seconds in all; the first look that finds
/// it is the last.
pub proof fn started_daemon_gets_two_seconds(around: Surroundings, k: nat)
    requires
        !(around.accepts)(0),
        around.starts,
        1 <= k <= 101,
        forall|n: nat| 1 <= n < k ==> !#[trigger] (around.accepts)(n),
        k <= 100 ==> (around.accepts)(k),
    ensures
        ({
            let ended = connection(around);
            &&& ended.starts == 1
            &&& k <= 100 ==> {
                &&& ended.last == ConnectAction::Use
                &&& ended.attempts == k + 1
                &&& ended.paused == (k - 1) * 20
            }
            &&& k == 101 ==> {
                &&& ended.last == ConnectAction::Fail(Error::DaemonSilent)
                &&& ended.attempts == 101
                &&& ended.paused == 2000
            }
        }),
{
    connection_is_bounded(around);
    let ended = connection(around);
    if k <= 100 {
        assert(answers_after(around, 0));
        let last = (ended.attempts - 1) as nat;
        assert((around.accepts)(last));
        assert((around.accepts)(k));
    } else {
        if answers_after(around, 0) {
            let n = choose|n: nat| 0 < n <= TRIES && #[trigger] (around.accepts)(n);
            assert(false);
        }
    }
}

} // verus!
