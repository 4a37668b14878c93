//! The record of whether delivery is possible: disconnected, connecting, or
//! connected with a handle to send through.

use vstd::prelude::*;

verus! {

/// Whether messages can be delivered, and through what.
#[derive(Debug)]
pub enum ConnectionState<H> {
    /// No channel exists; a connection attempt may be started.
    Disconnected,
    /// A connection attempt is in flight; no other may be started.
    Connecting,
    /// Messages are handed to `H`.
    Connected(H),
}

/// The state after an attempt to begin connecting.
pub open spec fn after_begin<H>(state: ConnectionState<H>) -> ConnectionState<H> {
    match state {
        ConnectionState::Disconnected => ConnectionState::Connecting,
        other => other,
    }
}

/// Whether an attempt to begin connecting, made in `state`, is the one that
/// has to run the connection attempt.
pub open spec fn begin_wins<H>(state: ConnectionState<H>) -> bool {
    state is Disconnected
}

/// The state that a finished connection attempt leaves.
pub open spec fn after_commit<H>(handle: Option<H>) -> ConnectionState<H> {
    match handle {
        Some(h) => ConnectionState::Connected(h),
        None => ConnectionState::Disconnected,
    }
}

/// The state after the outbound stream has ended.
pub open spec fn after_invalidate<H>(state: ConnectionState<H>) -> ConnectionState<H> {
    match state {
        ConnectionState::Connected(_) => ConnectionState::Disconnected,
        other => other,
    }
}

/// How many of `attempts` successive attempts to begin connecting win, when
/// the first is made in `state` and nothing else touches the state between
/// them.
pub open spec fn wins_among<H>(state: ConnectionState<H>, attempts: nat) -> nat
    decreases attempts,
{
    if attempts == 0 {
        0
    } else {
        let first: nat = if begin_wins(state) { 1 } else { 0 };
        first + wins_among(after_begin(state), (attempts - 1) as nat)
    }
}

/// The state after `attempts` successive attempts to begin connecting.
pub open spec fn after_attempts<H>(state: ConnectionState<H>, attempts: nat) -> ConnectionState<H>
    decreases attempts,
{
    if attempts == 0 {
        state
    } else {
        after_attempts(after_begin(state), (attempts - 1) as nat)
    }
}

impl<H> ConnectionState<H> {
    /// The state that holds `handle`, if there is one.
    pub fn from_option(handle: Option<H>) -> (state: Self)
        ensures
            state == after_commit(handle),
    {
        match handle {
            Some(h) => ConnectionState::Connected(h),
            None => ConnectionState::Disconnected,
        }
    }
}

/// The single source of truth on the connection. The one who shares it
/// between threads keeps it behind a lock and holds the lock for one call.
#[derive(Debug)]
pub struct ConnectionTracker<H> {
    state: ConnectionState<H>,
}

impl<H> View for ConnectionTracker<H> {
    type V = ConnectionState<H>;

    closed spec fn view(&self) -> ConnectionState<H> {
        self.state
    }
}

impl<H> ConnectionTracker<H> {
    /// A tracker that is connected through `handle`, or disconnected where
    /// there is none.
    pub fn new(handle: Option<H>) -> (tracker: Self)
        ensures
            tracker@ == after_commit(handle),
    {
        ConnectionTracker { state: ConnectionState::from_option(handle) }
    }

    /// The current state.
    pub fn read(&self) -> (state: &ConnectionState<H>)
        ensures
            *state == self@,
    {
        &self.state
    }

    /// Moves from disconnected to connecting. Returns whether this call made
    /// the move: only then is the caller to run a connection attempt.
    pub fn try_begin_connect(&mut self) -> (won: bool)
        ensures
            won == begin_wins(old(self)@),
            final(self)@ == after_begin(old(self)@),
    {
        match self.state {
            ConnectionState::Disconnected => {
                self.state = ConnectionState::Connecting;
                true
            },
            _ => false,
        }
    }

    /// Publishes the result of a connection attempt: connected through the
    /// handle, or disconnected again where the attempt failed.
    pub fn commit(&mut self, handle: Option<H>)
        ensures
            final(self)@ == after_commit(handle),
    {
        self.state = ConnectionState::from_option(handle);
    }

    /// Records that the outbound stream has ended: a connected tracker
    /// becomes disconnected, another one stays as it is.
    pub fn invalidate(&mut self)
        ensures
            final(self)@ == after_invalidate(old(self)@),
    {
        let ended: bool = match self.state {
            ConnectionState::Connected(_) => true,
            _ => false,
        };
        if ended {
            self.state = ConnectionState::Disconnected;
        }
    }
}

/// An attempt to begin connecting never leaves the state disconnected, so
/// the attempt that follows it does not win.
pub proof fn lemma_begin_closes_gate<H>(state: ConnectionState<H>)
    ensures
        !(after_begin(state) is Disconnected),
        !begin_wins(after_begin(state)),
{
}

/// Of any number of attempts to begin connecting that meet a disconnected
/// tracker before the connection attempt resolves, exactly one wins, and the
/// tracker is connecting after them.
pub proof fn lemma_single_winner<H>(attempts: nat)
    requires
        attempts >= 1,
    ensures
        wins_among(ConnectionState::<H>::Disconnected, attempts) == 1,
        after_attempts(ConnectionState::<H>::Disconnected, attempts) == ConnectionState::<H>::Connecting,
{
    lemma_no_winner_while_busy(ConnectionState::<H>::Connecting, (attempts - 1) as nat);
}

/// While the tracker is connecting or connected, no attempt to begin
/// connecting wins, and none changes the state.
pub proof fn lemma_no_winner_while_busy<H>(state: ConnectionState<H>, attempts: nat)
    requires
        !(state is Disconnected),
    ensures
        wins_among(state, attempts) == 0,
        after_attempts(state, attempts) == state,
    decreases attempts,
{
    if attempts > 0 {
        lemma_no_winner_while_busy(after_begin(state), (attempts - 1) as nat);
    }
}

/// A failed connection attempt leaves the tracker disconnected: the next
/// attempt to begin connecting wins again.
pub proof fn lemma_failed_attempt_reopens_gate<H>()
    ensures
        after_commit(None::<H>) == ConnectionState::<H>::Disconnected,
        begin_wins(after_commit(None::<H>)),
{
}

/// Once the stream of a connected tracker has ended, the tracker is
/// disconnected and the next attempt to begin connecting wins.
pub proof fn lemma_invalidate_reopens_gate<H>(handle: H)
    ensures
        after_invalidate(ConnectionState::Connected(handle)) == ConnectionState::<H>::Disconnected,
        begin_wins(after_invalidate(ConnectionState::Connected(handle))),
        wins_among(after_invalidate(ConnectionState::Connected(handle)), 1) == 1,
{
    lemma_single_winner::<H>(1);
}

} // verus!
