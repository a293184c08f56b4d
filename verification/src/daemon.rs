//! The life of the daemon.
//!
//! The daemon performs the action of its [`DaemonStep`], and [`daemon_next`]
//! tells the step that follows.
use vstd::prelude::*;
use crate::error::Error;

verus! {

/// What the daemon does.
#[derive(Debug)]
pub enum DaemonStep {
    /// Leave the shell that started it.
    Detach,
    /// Find the state directory.
    Locate,
    /// Open the lock.
    OpenLock,
    /// Take the lock.
    Lock,
    /// Remove the socket that an earlier daemon left.
    RemoveSocket,
    /// Open the database.
    Open,
    /// Listen on the socket.
    Bind,
    /// Leave its process id.
    WritePid,
    /// Wait for a client.
    Accept,
    /// Limit the time that the client may take.
    Configure,
    /// Read the request and find the reply; a failure becomes part of it.
    Answer,
    /// Send the reply.
    Send,
    /// End.
    Exit(Result<(), Error>),
}

/// What came of it.
#[derive(Debug)]
pub enum DaemonEvent {
    Done,
    /// Another daemon has the lock.
    Held,
    /// There was no socket.
    Missing,
    Failed(Error),
}

/// Whether `event` can come of the step.
pub open spec fn expects(step: DaemonStep, event: DaemonEvent) -> bool {
    match event {
        DaemonEvent::Done => !(step is Exit),
        DaemonEvent::Held => step is Lock,
        DaemonEvent::Missing => step is RemoveSocket,
        DaemonEvent::Failed(_) => !(step is Exit) && !(step is Answer),
    }
}

/// The step that follows. A daemon that finds another at work ends quietly; one
/// that cannot start, or cannot serve any client, ends with the error; a client
/// that went away is no such error.
pub open spec fn next(step: DaemonStep, event: DaemonEvent) -> DaemonStep {
    match (step, event) {
        (DaemonStep::Lock, DaemonEvent::Held) => DaemonStep::Exit(Ok(())),
        (DaemonStep::Send, _) => DaemonStep::Accept,
        (_, DaemonEvent::Failed(error)) => DaemonStep::Exit(Err(error)),
        (DaemonStep::Detach, _) => DaemonStep::Locate,
        (DaemonStep::Locate, _) => DaemonStep::OpenLock,
        (DaemonStep::OpenLock, _) => DaemonStep::Lock,
        (DaemonStep::Lock, _) => DaemonStep::RemoveSocket,
        (DaemonStep::RemoveSocket, _) => DaemonStep::Open,
        (DaemonStep::Open, _) => DaemonStep::Bind,
        (DaemonStep::Bind, _) => DaemonStep::WritePid,
        (DaemonStep::WritePid, _) => DaemonStep::Accept,
        (DaemonStep::Accept, _) => DaemonStep::Configure,
        (DaemonStep::Configure, _) => DaemonStep::Answer,
        (DaemonStep::Answer, _) => DaemonStep::Send,
        (DaemonStep::Exit(result), _) => DaemonStep::Exit(result),
    }
}

/// The first step.
pub fn daemon() -> (step: DaemonStep)
    ensures
        step == DaemonStep::Detach,
{
    DaemonStep::Detach
}

/// Decides the step that follows.
pub fn daemon_next(step: DaemonStep, event: DaemonEvent) -> (after: DaemonStep)
    requires
        expects(step, event),
    ensures
        after == next(step, event),
{
    match (step, event) {
        (DaemonStep::Lock, DaemonEvent::Held) => DaemonStep::Exit(Ok(())),
        (DaemonStep::Send, _) => DaemonStep::Accept,
        (_, DaemonEvent::Failed(error)) => DaemonStep::Exit(Err(error)),
        (DaemonStep::Detach, _) => DaemonStep::Locate,
        (DaemonStep::Locate, _) => DaemonStep::OpenLock,
        (DaemonStep::OpenLock, _) => DaemonStep::Lock,
        (DaemonStep::Lock, _) => DaemonStep::RemoveSocket,
        (DaemonStep::RemoveSocket, _) => DaemonStep::Open,
        (DaemonStep::Open, _) => DaemonStep::Bind,
        (DaemonStep::Bind, _) => DaemonStep::WritePid,
        (DaemonStep::WritePid, _) => DaemonStep::Accept,
        (DaemonStep::Accept, _) => DaemonStep::Configure,
        (DaemonStep::Configure, _) => DaemonStep::Answer,
        (DaemonStep::Answer, _) => DaemonStep::Send,
        (DaemonStep::Exit(result), _) => DaemonStep::Exit(result),
    }
}

/// The step that the daemon has come to after the events, in their order.
pub open spec fn step_after(events: Seq<DaemonEvent>) -> DaemonStep
    decreases events.len(),
{
    if events.len() == 0 {
        DaemonStep::Detach
    } else {
        next(step_after(events.drop_last()), events.last())
    }
}

/// Whether each of the events can come of the step it came of.
pub open spec fn possible(events: Seq<DaemonEvent>) -> bool {
    forall|n: int|
        0 <= n < events.len() ==> expects(step_after(#[trigger] events.take(n)), events[n])
}

/// Whether the daemon has got past taking the lock.
pub open spec fn past_lock(step: DaemonStep) -> bool {
    match step {
        DaemonStep::Detach | DaemonStep::Locate | DaemonStep::OpenLock | DaemonStep::Lock => false,
        DaemonStep::Exit(_) => false,
        _ => true,
    }
}

/// A daemon removes the socket, and serves clients, only once it has taken the
/// lock; so of several that start at once, one serves.
pub proof fn lock_comes_first(events: Seq<DaemonEvent>)
    requires
        possible(events),
        past_lock(step_after(events)),
    ensures
        exists|n: int|
            0 <= n < events.len() && step_after(#[trigger] events.take(n)) is Lock && events[n]
                is Done,
    decreases events.len(),
{
    let before = events.drop_last();
    let last = events.len() - 1;
    assert(events.take(last) =~= before);
    if past_lock(step_after(before)) {
        assert(possible(before)) by {
            assert forall|n: int| 0 <= n < before.len() implies expects(
                step_after(#[trigger] before.take(n)),
                before[n],
            ) by {
                assert(before.take(n) =~= events.take(n));
            }
        }
        lock_comes_first(before);
        let n = choose|n: int|
            0 <= n < before.len() && step_after(#[trigger] before.take(n)) is Lock && before[n]
                is Done;
        assert(before.take(n) =~= events.take(n));
        assert(step_after(events.take(n)) is Lock);
    } else {
        assert(step_after(events.take(last)) is Lock);
    }
}

/// No client stops the daemon: once it answers one, it comes back to wait for
/// the next, whatever becomes of the reply.
pub proof fn client_does_not_stop_the_daemon(sent: DaemonEvent)
    requires
        expects(DaemonStep::Send, sent),
    ensures
        next(DaemonStep::Answer, DaemonEvent::Done) == DaemonStep::Send,
        next(DaemonStep::Send, sent) == DaemonStep::Accept,
{
}

/// The place of a step in the life of the daemon.
pub open spec fn place(step: DaemonStep) -> int {
    match step {
        DaemonStep::Detach => 0,
        DaemonStep::Locate => 1,
        DaemonStep::OpenLock => 2,
        DaemonStep::Lock => 3,
        DaemonStep::RemoveSocket => 4,
        DaemonStep::Open => 5,
        DaemonStep::Bind => 6,
        DaemonStep::WritePid => 7,
        DaemonStep::Accept => 8,
        DaemonStep::Configure => 9,
        DaemonStep::Answer => 10,
        DaemonStep::Send => 11,
        DaemonStep::Exit(_) => 12,
    }
}

/// No step is left out and none is made twice: what succeeds is followed by the
/// next step, and a reply by the next client. A socket that is not there is as good
/// as one that was removed.
pub proof fn steps_come_in_order(step: DaemonStep)
    requires
        !(step is Exit),
    ensures
        expects(step, DaemonEvent::Done),
        expects(DaemonStep::RemoveSocket, DaemonEvent::Missing),
        !(step is Send) ==> place(next(step, DaemonEvent::Done)) == place(step) + 1,
        !(next(step, DaemonEvent::Done) is Exit),
        step is Send ==> next(step, DaemonEvent::Done) is Accept,
        next(DaemonStep::RemoveSocket, DaemonEvent::Missing) == next(
            DaemonStep::RemoveSocket,
            DaemonEvent::Done,
        ),
{
}

/// A daemon that finds the lock taken ends, and that is no error. Whatever else
/// fails, but for a reply that cannot be sent, ends it with that error.
pub proof fn failure_ends_the_daemon(step: DaemonStep, error: Error)
    requires
        !(step is Exit),
        !(step is Send),
    ensures
        expects(DaemonStep::Lock, DaemonEvent::Held),
        next(DaemonStep::Lock, DaemonEvent::Held) == DaemonStep::Exit(Ok(())),
        !(step is Answer) ==> expects(step, DaemonEvent::Failed(error)),
        next(step, DaemonEvent::Failed(error)) == DaemonStep::Exit(Err(error)),
{
}

} // verus!
