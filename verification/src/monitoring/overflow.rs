//! Overflow handling for broadcast and multi-producer channels: what a
//! sender does with a message that the channel does not take, and the
//! counters it keeps of sent and dropped messages.

use vstd::prelude::*;
use tokio::sync::{broadcast, mpsc};
use crate::monitoring::metrics::{wrap_inc, wrapping_add_u64};

verus! {

#[verifier::external_type_specification]
#[verifier::external_body]
pub struct ExInstant(std::time::Instant);

#[verifier::external_type_specification]
#[verifier::external_body]
#[verifier::reject_recursive_types(T)]
pub struct ExBroadcastSender<T>(broadcast::Sender<T>);

#[verifier::external_type_specification]
#[verifier::external_body]
#[verifier::reject_recursive_types(T)]
pub struct ExBroadcastReceiver<T>(broadcast::Receiver<T>);

#[verifier::external_type_specification]
#[verifier::external_body]
#[verifier::reject_recursive_types(T)]
pub struct ExMpscSender<T>(mpsc::Sender<T>);

#[verifier::external_type_specification]
#[verifier::external_body]
#[verifier::reject_recursive_types(T)]
pub struct ExMpscReceiver<T>(mpsc::Receiver<T>);

/// `tokio::sync::broadcast::channel`: a channel of the given capacity with
/// one receiver. It panics on a capacity of zero or above `usize::MAX / 2`,
/// which `requires` leaves out.
#[verifier::external_body]
fn broadcast_channel<T: Clone>(capacity: usize) -> (broadcast::Sender<T>, broadcast::Receiver<T>)
    requires
        0 < capacity <= usize::MAX / 2,
{
    broadcast::channel(capacity)
}

/// `tokio::sync::broadcast::Sender::send`: hands the value to every
/// receiver subscribed now and returns their number, at least one; with no
/// receiver it gives the value back. How many receivers there are is the
/// channel's state at the moment of the call, which is left unsaid.
#[verifier::external_body]
fn broadcast_send<T>(sender: &broadcast::Sender<T>, value: T) -> (r: Result<usize, T>)
    ensures
        r matches Ok(n) ==> n >= 1,
        r matches Err(v) ==> v == value,
{
    match sender.send(value) {
        Ok(n) => Ok(n),
        Err(broadcast::error::SendError(v)) => Err(v),
    }
}

/// `tokio::sync::broadcast::Sender::subscribe`: a new receiver of the values
/// sent from now on.
#[verifier::external_body]
fn broadcast_subscribe<T>(sender: &broadcast::Sender<T>) -> broadcast::Receiver<T> {
    sender.subscribe()
}

/// `tokio::sync::mpsc::channel`: a bounded channel of `buffer` places. It
/// panics on a buffer of zero or above tokio's largest permit count,
/// `usize::MAX >> 3`, which `requires` leaves out.
#[verifier::external_body]
fn mpsc_channel<T>(buffer: usize) -> (mpsc::Sender<T>, mpsc::Receiver<T>)
    requires
        0 < buffer <= usize::MAX / 8,
{
    mpsc::channel(buffer)
}

/// Why a channel did not take a message; the message comes back with it.
pub enum Refused<T> {
    /// The channel's buffer is full.
    Full(T),
    /// The receiving half is closed or dropped.
    Closed(T),
}

/// `tokio::sync::mpsc::Sender::try_send`: queues the message at once or
/// gives it back, telling a full buffer from a closed channel. Which of the
/// three happens depends on the channel's state and is left unsaid.
#[verifier::external_body]
fn mpsc_try_send<T>(sender: &mpsc::Sender<T>, message: T) -> (r: Result<(), Refused<T>>)
    ensures
        r matches Err(Refused::Full(m)) ==> m == message,
        r matches Err(Refused::Closed(m)) ==> m == message,
{
    match sender.try_send(message) {
        Ok(()) => Ok(()),
        Err(mpsc::error::TrySendError::Full(m)) => Err(Refused::Full(m)),
        Err(mpsc::error::TrySendError::Closed(m)) => Err(Refused::Closed(m)),
    }
}

/// Overflow handling strategy for channels.
#[derive(Debug, Clone, Copy, PartialEq, Eq, Structural)]
pub enum OverflowStrategy {
    /// Drop oldest messages when full
    DropOldest,
    /// Block until space is available
    Block,
    /// Return an error when full
    Error,
    /// Drop newest (incoming) message
    DropNewest,
}

/// Statistics for overflow monitoring.
#[derive(Debug, Clone)]
pub struct OverflowStats {
    pub total_sent: u64,
    pub total_dropped: u64,
    pub total_blocked: u64,
    pub current_size: usize,
    pub max_size: usize,
    pub last_overflow: Option<std::time::Instant>,
}

/// Error of a broadcast send; the message comes back with it.
#[derive(Debug)]
pub enum BroadcastError<T> {
    /// Channel is full
    Full(T),
    /// Message was dropped due to overflow
    Dropped(T),
    /// No receivers available
    NoReceivers,
}

/// Error of a multi-producer send; the message comes back with it.
#[derive(Debug)]
pub enum MpscError<T> {
    /// Channel is full
    Full(T),
    /// Message was dropped due to overflow
    Dropped(T),
    /// Channel is closed
    Closed(T),
}

/// A channel whose overflow statistics can be read.
pub trait OverflowStatsProvider: Send + Sync {
    fn get_stats(&self) -> OverflowStats;
    fn name(&self) -> &str;
}

/// What a broadcast sender answers when the channel did not take a message,
/// under each strategy: an error is reported under `Error`, the message is
/// otherwise dropped.
pub open spec fn broadcast_refusal<T>(strategy: OverflowStrategy, message: T) -> BroadcastError<T> {
    match strategy {
        OverflowStrategy::Error => BroadcastError::Full(message),
        _ => BroadcastError::Dropped(message),
    }
}

/// Whether a refused broadcast message counts as dropped: under the two
/// dropping strategies, not under `Block` or `Error`.
pub open spec fn broadcast_counts_drop(strategy: OverflowStrategy) -> bool {
    strategy == OverflowStrategy::DropOldest || strategy == OverflowStrategy::DropNewest
}

/// Wrapper around a broadcast sender with overflow handling.
#[verifier::reject_recursive_types(T)]
pub struct BoundedBroadcaster<T> {
    sender: broadcast::Sender<T>,
    strategy: OverflowStrategy,
    dropped: u64,
    max_size: usize,
}

impl<T: Clone> BoundedBroadcaster<T> {
    /// A broadcaster over a new channel of `capacity` places. The channel's
    /// first receiver is dropped at once: messages reach only receivers that
    /// subscribe later.
    pub fn new(capacity: usize, strategy: OverflowStrategy) -> (b: Self)
        requires
            0 < capacity <= usize::MAX / 2,
        ensures
            b.strategy() == strategy,
            b.dropped_count() == 0,
            b.max_size() == capacity,
    {
        let (sender, _receiver) = broadcast_channel(capacity);
        BoundedBroadcaster { sender, strategy, dropped: 0, max_size: capacity }
    }
}

impl<T> BoundedBroadcaster<T> {
    pub closed spec fn strategy(&self) -> OverflowStrategy {
        self.strategy
    }

    pub closed spec fn dropped_count(&self) -> u64 {
        self.dropped
    }

    pub closed spec fn max_size(&self) -> usize {
        self.max_size
    }

    /// Sends a message to every current receiver. Where the channel does not
    /// take it, the strategy decides: `Full` under `Error`, else `Dropped`,
    /// with the message given back; the drop counter rises under the two
    /// dropping strategies.
    pub fn send(&mut self, message: T) -> (r: Result<usize, BroadcastError<T>>)
        ensures
            final(self).strategy() == old(self).strategy(),
            final(self).max_size() == old(self).max_size(),
            r matches Ok(n) ==> n >= 1 && final(self).dropped_count() == old(self).dropped_count(),
            r is Err ==> r == Err::<usize, BroadcastError<T>>(broadcast_refusal(old(self).strategy(), message)),
            r is Err ==> final(self).dropped_count() == (if broadcast_counts_drop(old(self).strategy()) {
                wrap_inc(old(self).dropped_count())
            } else {
                old(self).dropped_count()
            }),
    {
        match broadcast_send(&self.sender, message) {
            Ok(n) => Ok(n),
            Err(msg) => {
                match self.strategy {
                    OverflowStrategy::DropOldest => {
                        self.dropped = wrapping_add_u64(self.dropped, 1);
                        Err(BroadcastError::Dropped(msg))
                    },
                    OverflowStrategy::Block => Err(BroadcastError::Dropped(msg)),
                    OverflowStrategy::Error => Err(BroadcastError::Full(msg)),
                    OverflowStrategy::DropNewest => {
                        self.dropped = wrapping_add_u64(self.dropped, 1);
                        Err(BroadcastError::Dropped(msg))
                    },
                }
            },
        }
    }

    /// Sends without blocking: the same as `send`.
    pub fn try_send(&mut self, message: T) -> (r: Result<usize, BroadcastError<T>>)
        ensures
            final(self).strategy() == old(self).strategy(),
            final(self).max_size() == old(self).max_size(),
            r matches Ok(n) ==> n >= 1 && final(self).dropped_count() == old(self).dropped_count(),
            r is Err ==> r == Err::<usize, BroadcastError<T>>(broadcast_refusal(old(self).strategy(), message)),
            r is Err ==> final(self).dropped_count() == (if broadcast_counts_drop(old(self).strategy()) {
                wrap_inc(old(self).dropped_count())
            } else {
                old(self).dropped_count()
            }),
    {
        self.send(message)
    }

    /// A receiver of the messages sent from now on.
    pub fn subscribe(&self) -> broadcast::Receiver<T> {
        broadcast_subscribe(&self.sender)
    }

    /// The statistics a broadcaster can give: the dropped count and the
    /// capacity; the channel shows no other figure.
    pub fn stats(&self) -> (s: OverflowStats)
        ensures
            s.total_sent == 0,
            s.total_dropped == self.dropped_count(),
            s.total_blocked == 0,
            s.current_size == 0,
            s.max_size == self.max_size(),
            s.last_overflow is None,
    {
        OverflowStats {
            total_sent: 0,
            total_dropped: self.dropped,
            total_blocked: 0,
            current_size: 0,
            max_size: self.max_size,
            last_overflow: None,
        }
    }
}

/// Overflow-aware multi-producer sender.
#[verifier::reject_recursive_types(T)]
pub struct BoundedMpsc<T> {
    sender: mpsc::Sender<T>,
    strategy: OverflowStrategy,
    sent: u64,
    dropped: u64,
    blocked: u64,
}

/// What `try_send` answers when the buffer is full: under `DropNewest` the
/// message is dropped, under every other strategy the error is `Full`.
pub open spec fn try_send_full<T>(strategy: OverflowStrategy, message: T) -> MpscError<T> {
    if strategy == OverflowStrategy::DropNewest {
        MpscError::Dropped(message)
    } else {
        MpscError::Full(message)
    }
}

/// What a non-blocking `send` answers when the buffer is full: the error is
/// `Full` under `Error`, the message is dropped otherwise.
pub open spec fn send_full<T>(strategy: OverflowStrategy, message: T) -> MpscError<T> {
    if strategy == OverflowStrategy::Error {
        MpscError::Full(message)
    } else {
        MpscError::Dropped(message)
    }
}

impl<T> BoundedMpsc<T> {
    /// A sender over a new channel of `capacity` places, and the channel's
    /// receiver.
    pub fn new(capacity: usize, strategy: OverflowStrategy) -> (r: (Self, mpsc::Receiver<T>))
        requires
            0 < capacity <= usize::MAX / 8,
        ensures
            r.0.strategy() == strategy,
            r.0.sent_count() == 0 && r.0.dropped_count() == 0 && r.0.blocked_count() == 0,
    {
        let (sender, receiver) = mpsc_channel(capacity);
        (BoundedMpsc { sender, strategy, sent: 0, dropped: 0, blocked: 0 }, receiver)
    }

    pub closed spec fn strategy(&self) -> OverflowStrategy {
        self.strategy
    }

    pub closed spec fn sent_count(&self) -> u64 {
        self.sent
    }

    pub closed spec fn dropped_count(&self) -> u64 {
        self.dropped
    }

    pub closed spec fn blocked_count(&self) -> u64 {
        self.blocked
    }

    /// The strategy this sender was made with.
    pub fn get_strategy(&self) -> (s: OverflowStrategy)
        ensures
            s == self.strategy(),
    {
        self.strategy
    }

    /// The underlying sender, for a send that waits for room.
    pub fn sender(&self) -> &mpsc::Sender<T> {
        &self.sender
    }

    /// Records the outcome of a send that waited for room (the `Block`
    /// strategy): a delivered message counts as sent; a message given back
    /// means the channel is closed.
    pub fn record_blocking_send(&mut self, outcome: Result<(), T>) -> (r: Result<(), MpscError<T>>)
        ensures
            final(self).strategy() == old(self).strategy(),
            final(self).dropped_count() == old(self).dropped_count(),
            final(self).blocked_count() == old(self).blocked_count(),
            outcome is Ok ==> r is Ok && final(self).sent_count() == wrap_inc(old(self).sent_count()),
            outcome matches Err(m) ==> r == Err::<(), MpscError<T>>(MpscError::Closed(m))
                && final(self).sent_count() == old(self).sent_count(),
    {
        match outcome {
            Ok(()) => {
                self.sent = wrapping_add_u64(self.sent, 1);
                Ok(())
            },
            Err(m) => Err(MpscError::Closed(m)),
        }
    }

    /// Sends without waiting, as `send` does under every strategy but
    /// `Block`: on a full buffer the message is dropped (and counted) unless
    /// the strategy is `Error`.
    pub fn send_without_waiting(&mut self, message: T) -> (r: Result<(), MpscError<T>>)
        ensures
            final(self).strategy() == old(self).strategy(),
            final(self).blocked_count() == old(self).blocked_count(),
            r is Ok ==> final(self).sent_count() == wrap_inc(old(self).sent_count())
                && final(self).dropped_count() == old(self).dropped_count(),
            r is Err ==> final(self).sent_count() == old(self).sent_count(),
            r matches Err(MpscError::Closed(m)) ==> m == message
                && final(self).dropped_count() == old(self).dropped_count(),
            (r matches Err(MpscError::Full(_)) || r matches Err(MpscError::Dropped(_)))
                ==> r == Err::<(), MpscError<T>>(send_full(old(self).strategy(), message)),
            r matches Err(MpscError::Full(_)) ==> final(self).dropped_count() == old(self).dropped_count(),
            r matches Err(MpscError::Dropped(_)) ==> final(self).dropped_count() == wrap_inc(old(self).dropped_count()),
    {
        match mpsc_try_send(&self.sender, message) {
            Ok(()) => {
                self.sent = wrapping_add_u64(self.sent, 1);
                Ok(())
            },
            Err(Refused::Full(msg)) => {
                match self.strategy {
                    OverflowStrategy::Error => Err(MpscError::Full(msg)),
                    _ => {
                        self.dropped = wrapping_add_u64(self.dropped, 1);
                        Err(MpscError::Dropped(msg))
                    },
                }
            },
            Err(Refused::Closed(msg)) => Err(MpscError::Closed(msg)),
        }
    }

    /// Tries to send without waiting: on a full buffer the message is
    /// dropped (and counted) under `DropNewest`, and `Full` is answered
    /// under every other strategy.
    pub fn try_send(&mut self, message: T) -> (r: Result<(), MpscError<T>>)
        ensures
            final(self).strategy() == old(self).strategy(),
            final(self).blocked_count() == old(self).blocked_count(),
            r is Ok ==> final(self).sent_count() == wrap_inc(old(self).sent_count())
                && final(self).dropped_count() == old(self).dropped_count(),
            r is Err ==> final(self).sent_count() == old(self).sent_count(),
            r matches Err(MpscError::Closed(m)) ==> m == message
                && final(self).dropped_count() == old(self).dropped_count(),
            (r matches Err(MpscError::Full(_)) || r matches Err(MpscError::Dropped(_)))
                ==> r == Err::<(), MpscError<T>>(try_send_full(old(self).strategy(), message)),
            r matches Err(MpscError::Full(_)) ==> final(self).dropped_count() == old(self).dropped_count(),
            r matches Err(MpscError::Dropped(_)) ==> final(self).dropped_count() == wrap_inc(old(self).dropped_count()),
    {
        match mpsc_try_send(&self.sender, message) {
            Ok(()) => {
                self.sent = wrapping_add_u64(self.sent, 1);
                Ok(())
            },
            Err(Refused::Full(msg)) => {
                match self.strategy {
                    OverflowStrategy::DropNewest => {
                        self.dropped = wrapping_add_u64(self.dropped, 1);
                        Err(MpscError::Dropped(msg))
                    },
                    _ => Err(MpscError::Full(msg)),
                }
            },
            Err(Refused::Closed(msg)) => Err(MpscError::Closed(msg)),
        }
    }

    /// The counters as statistics; the channel shows neither its size nor
    /// its capacity.
    pub fn stats(&self) -> (s: OverflowStats)
        ensures
            s.total_sent == self.sent_count(),
            s.total_dropped == self.dropped_count(),
            s.total_blocked == self.blocked_count(),
            s.current_size == 0,
            s.max_size == 0,
            s.last_overflow is None,
    {
        OverflowStats {
            total_sent: self.sent,
            total_dropped: self.dropped,
            total_blocked: self.blocked,
            current_size: 0,
            max_size: 0,
            last_overflow: None,
        }
    }
}

} // verus!
