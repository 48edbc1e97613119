//! The keyed mutexes of the shared buffers, as the engine and the consumer
//! use them. A keyed mutex is given back under a key and can only be taken
//! under the key it was given back under. The producer takes under its key
//! and hands over under the consumer's; the consumer takes under its key and
//! gives back under the producer's. This module states what follows: who is
//! served when, and that the two sides never hold a buffer at the same time.

use vstd::prelude::*;
use crate::duplication::buffers::{BufferRole, CONSUMER_KEY, PRODUCER_KEY};
use crate::duplication::engine::{
    EngineAction,
    EngineEvent,
    FrameSource,
    InternalDesktopDuplicationApi,
    Phase,
};
use crate::errors::{DDApiError, Result};

verus! {

/// The two sides of the thread boundary.
#[derive(Clone, Copy, Debug, PartialEq, Eq, Structural)]
pub enum Party {
    Producer,
    Consumer,
}

/// The state of one keyed mutex.
#[derive(Clone, Copy, Debug, PartialEq, Eq, Structural)]
pub enum KeyedMutex {
    /// Nobody holds it; it was given back under this key.
    Free(u64),
    /// One side holds it.
    Held(Party),
}

impl KeyedMutex {
    /// A keyed mutex is created free under the producer's key.
    pub open spec fn created() -> KeyedMutex {
        KeyedMutex::Free(PRODUCER_KEY)
    }

    /// Taking the mutex under a key works exactly if it is free under that
    /// key.
    pub open spec fn acquired(self, party: Party, key: u64) -> Option<KeyedMutex> {
        if self == KeyedMutex::Free(key) {
            Some(KeyedMutex::Held(party))
        } else {
            None
        }
    }

    /// Giving the mutex back under a key, by the side that holds it.
    pub open spec fn let_go(self, party: Party, key: u64) -> Option<KeyedMutex> {
        if self == KeyedMutex::Held(party) {
            Some(KeyedMutex::Free(key))
        } else {
            None
        }
    }
}

/// The keyed mutexes of the two shared buffers; `None` for a buffer that
/// does not exist.
pub struct SharedMutexes {
    pub stable: Option<KeyedMutex>,
    pub pointer: Option<KeyedMutex>,
}

impl SharedMutexes {
    /// No shared buffer exists.
    pub open spec fn none() -> SharedMutexes {
        SharedMutexes { stable: None, pointer: None }
    }

    /// The keyed mutex of a buffer.
    pub open spec fn of(self, role: BufferRole) -> Option<KeyedMutex> {
        match role {
            BufferRole::Stable => self.stable,
            BufferRole::CursorShared => self.pointer,
            BufferRole::CursorScratch => None,
        }
    }

    /// The same with the keyed mutex of one buffer replaced.
    pub open spec fn with(self, role: BufferRole, mutex: Option<KeyedMutex>) -> SharedMutexes {
        match role {
            BufferRole::Stable => SharedMutexes { stable: mutex, ..self },
            BufferRole::CursorShared => SharedMutexes { pointer: mutex, ..self },
            BufferRole::CursorScratch => self,
        }
    }

    /// What performing an action of the engine does to the keyed mutexes,
    /// given the event that reports its outcome; `None` if the event cannot
    /// be the outcome of the action.
    pub open spec fn performed(self, action: EngineAction, event: EngineEvent) -> Option<
        SharedMutexes,
    > {
        match (action, event) {
            (EngineAction::OpenSession, EngineEvent::SessionOpened) => Some(self),
            (EngineAction::OpenSession, EngineEvent::SessionRefused { code, detail }) => Some(self),
            (EngineAction::CloseSession, EngineEvent::Completed) => Some(SharedMutexes::none()),
            (EngineAction::SwitchDesktop, EngineEvent::Completed) => Some(self),
            (EngineAction::ReleaseFrame, EngineEvent::Completed) => Some(self),
            (EngineAction::AcquireNext { timeout_ms }, EngineEvent::Acquired { info, resource }) => Some(
                self,
            ),
            (
                EngineAction::AcquireNext { timeout_ms },
                EngineEvent::AcquireFailed { code, detail },
            ) => Some(self),
            (EngineAction::ReadPointerShape { capacity }, EngineEvent::ShapeRead { buffer, shape }) => Some(
                self,
            ),
            (
                EngineAction::ReadPointerShape { capacity },
                EngineEvent::ShapeFailed { code, required, detail },
            ) => Some(self),
            (EngineAction::CreateBuffer { role, request }, EngineEvent::BufferCreated) => if role.is_shared() {
                Some(self.with(role, Some(KeyedMutex::created())))
            } else {
                Some(self)
            },
            (EngineAction::CreateBuffer { role, request }, EngineEvent::BufferFailed { detail }) => Some(
                self,
            ),
            (EngineAction::LockBuffer { role, key, wait_ms }, EngineEvent::Locked) => match self.of(
                role,
            ) {
                Some(m) => match m.acquired(Party::Producer, key) {
                    Some(held) => Some(self.with(role, Some(held))),
                    None => None,
                },
                None => None,
            },
            (
                EngineAction::LockBuffer { role, key, wait_ms },
                EngineEvent::LockTimedOut { detail },
            ) => if self.of(role) == Some(KeyedMutex::Free(key)) {
                None
            } else {
                Some(self)
            },
            (EngineAction::UnlockBuffer { role, key }, EngineEvent::Completed) => match self.of(
                role,
            ) {
                Some(m) => match m.let_go(Party::Producer, key) {
                    Some(free) => Some(self.with(role, Some(free))),
                    None => None,
                },
                None => None,
            },
            (EngineAction::CopyFrame { from, to }, EngineEvent::Completed) => Some(self),
            (EngineAction::QueryCursor, EngineEvent::CursorQueried { cursor }) => Some(self),
            (EngineAction::QueryHotspot { cursor }, EngineEvent::HotspotFound { x, y }) => Some(self),
            (EngineAction::QueryHotspot { cursor }, EngineEvent::HotspotFailed { detail }) => Some(
                self,
            ),
            (EngineAction::DrawCursor { cursor, x, y }, EngineEvent::Drawn) => Some(self),
            (EngineAction::DrawCursor { cursor, x, y }, EngineEvent::DrawFailed { detail }) => Some(
                self,
            ),
            _ => None,
        }
    }

    /// Nothing is held by anybody, and what exists is free for the producer.
    pub open spec fn all_with_producer(self) -> bool {
        &&& self.stable is Some ==> self.stable == Some(KeyedMutex::Free(PRODUCER_KEY))
        &&& self.pointer is Some ==> self.pointer == Some(KeyedMutex::Free(PRODUCER_KEY))
    }
}

impl Phase {
    /// Whether `action` is what the engine waits for in this phase.
    pub open spec fn awaits(self, action: EngineAction) -> bool {
        match self {
            Phase::Idle => action is Finish || action is Busy || action is Rejected,
            Phase::Opening => action is OpenSession,
            Phase::Closing(_) => action is CloseSession,
            Phase::Switching(_) => action is SwitchDesktop,
            Phase::Reopening(_) => action is OpenSession,
            Phase::Releasing => action is ReleaseFrame,
            Phase::Polling => action is AcquireNext,
            Phase::ReadingShape { .. } => action is ReadPointerShape,
            Phase::CreatingStable => action matches EngineAction::CreateBuffer { role, .. } && role
                == BufferRole::Stable,
            Phase::LockingStable => action matches EngineAction::LockBuffer { role, key, .. }
                && role == BufferRole::Stable && key == PRODUCER_KEY,
            Phase::StoringFrame => action == (EngineAction::CopyFrame {
                from: FrameSource::Fresh,
                to: BufferRole::Stable,
            }),
            Phase::ReleasingFresh => action is ReleaseFrame,
            Phase::CreatingScratch => action matches EngineAction::CreateBuffer { role, .. }
                && role == BufferRole::CursorScratch,
            Phase::CreatingShared => action matches EngineAction::CreateBuffer { role, .. } && role
                == BufferRole::CursorShared,
            Phase::LockingShared => action matches EngineAction::LockBuffer { role, key, .. }
                && role == BufferRole::CursorShared && key == PRODUCER_KEY,
            Phase::Staging => action == (EngineAction::CopyFrame {
                from: FrameSource::Buffer(BufferRole::Stable),
                to: BufferRole::CursorScratch,
            }),
            Phase::QueryingCursor => action is QueryCursor,
            Phase::QueryingHotspot(_) => action is QueryHotspot,
            Phase::Drawing => action is DrawCursor,
            Phase::Presenting => action == (EngineAction::CopyFrame {
                from: FrameSource::Buffer(BufferRole::CursorScratch),
                to: BufferRole::CursorShared,
            }),
            Phase::Finishing(result) => action is SwitchDesktop || action is ReleaseFrame || (
            action matches EngineAction::UnlockBuffer { role, key } && role.is_shared() && key
                == crate::duplication::engine::handoff_key(result, role)),
        }
    }
}

impl InternalDesktopDuplicationApi {
    /// The key under which a shared buffer is free while the engine does not
    /// hold it: the consumer's once the buffer is handed over at the end of a
    /// request, the producer's at any other time.
    pub open spec fn free_key(self, pending: EngineAction, role: BufferRole) -> u64 {
        if self.phase == Phase::Finishing(Ok(role)) || pending == EngineAction::Finish(Ok(role)) {
            CONSUMER_KEY
        } else {
            PRODUCER_KEY
        }
    }

    /// How the keyed mutexes stand to the engine while `pending` is the
    /// action that the driver has been handed and not yet performed, in a
    /// request during which the consumer holds nothing.
    pub open spec fn in_step(self, pending: EngineAction, mutexes: SharedMutexes) -> bool {
        &&& self.phase.awaits(pending)
        &&& !(pending is Busy) && !(pending is Rejected)
        &&& pending matches EngineAction::Finish(Ok(role)) ==> role.is_shared() && self.state.buffer(
            role,
        ) is Some
        &&& !(pending is CloseSession) ==> self.in_step_for(pending, mutexes, BufferRole::Stable)
            && self.in_step_for(pending, mutexes, BufferRole::CursorShared)
    }

    /// The same for one shared buffer.
    pub open spec fn in_step_for(
        self,
        pending: EngineAction,
        mutexes: SharedMutexes,
        role: BufferRole,
    ) -> bool {
        let giving_back = pending matches EngineAction::UnlockBuffer { role: r, .. } && r == role;
        &&& giving_back ==> !self.holds(role)
        &&& mutexes.of(role) is Some <==> self.state.buffer(role) is Some
        &&& mutexes.of(role) == Some(KeyedMutex::Held(Party::Producer)) <==> self.holds(role)
            || giving_back
        &&& mutexes.of(role) is Some && !self.holds(role) && !giving_back ==> mutexes.of(role)
            == Some(KeyedMutex::Free(self.free_key(pending, role)))
    }
}

/// The two sides never hold a buffer at the same time, and the keys
/// alternate: what the producer hands over only the consumer can take, and
/// what the consumer gives back only the producer can take.
pub proof fn lemma_keys_alternate(mutex: KeyedMutex)
    ensures
        mutex.acquired(Party::Producer, PRODUCER_KEY) is Some ==> mutex.acquired(
            Party::Consumer,
            CONSUMER_KEY,
        ) is None,
        mutex == KeyedMutex::Held(Party::Consumer) ==> mutex.acquired(Party::Producer, PRODUCER_KEY)
            is None && mutex.let_go(Party::Producer, CONSUMER_KEY) is None,
        mutex == KeyedMutex::Held(Party::Producer) ==> mutex.acquired(Party::Consumer, CONSUMER_KEY)
            is None && mutex.let_go(Party::Consumer, PRODUCER_KEY) is None,
        KeyedMutex::Held(Party::Producer).let_go(Party::Producer, CONSUMER_KEY).unwrap().acquired(
            Party::Consumer,
            CONSUMER_KEY,
        ) == Some(KeyedMutex::Held(Party::Consumer)),
        KeyedMutex::Held(Party::Producer).let_go(Party::Producer, CONSUMER_KEY).unwrap().acquired(
            Party::Producer,
            PRODUCER_KEY,
        ) is None,
        KeyedMutex::Held(Party::Consumer).let_go(Party::Consumer, PRODUCER_KEY).unwrap().acquired(
            Party::Producer,
            PRODUCER_KEY,
        ) == Some(KeyedMutex::Held(Party::Producer)),
        KeyedMutex::Held(Party::Consumer).let_go(Party::Consumer, PRODUCER_KEY).unwrap().acquired(
            Party::Consumer,
            CONSUMER_KEY,
        ) is None,
{
}

/// A request begins in step with the keyed mutexes when the engine is at
/// rest, the buffers that exist are those the engine knows, and the consumer
/// has given back what it held.
pub proof fn lemma_begins_in_step(
    engine: InternalDesktopDuplicationApi,
    mutexes: SharedMutexes,
    timeout_ns: u128,
    now_ns: u128,
)
    requires
        engine.wf(),
        engine.phase is Idle,
        mutexes.all_with_producer(),
        forall|role: BufferRole|
            role.is_shared() ==> (mutexes.of(role) is Some <==> engine.state.buffer(role) is Some),
    ensures
        engine.began(timeout_ns, now_ns).0.in_step(engine.began(timeout_ns, now_ns).1, mutexes),
        engine.began(timeout_ns, now_ns).1 is Finish ==> mutexes.all_with_producer() && (engine.began(
            timeout_ns,
            now_ns,
        ).1 matches EngineAction::Finish(r) && r is Err),
{
    assert(BufferRole::Stable.is_shared() && BufferRole::CursorShared.is_shared());
}

/// The engine stays in step with the keyed mutexes: whatever the driver
/// reports of the pending action, the next action is again one that the
/// mutexes allow.
pub proof fn lemma_stays_in_step(
    engine: InternalDesktopDuplicationApi,
    pending: EngineAction,
    mutexes: SharedMutexes,
    event: EngineEvent,
    now_ns: u128,
)
    requires
        engine.wf(),
        engine.in_step(pending, mutexes),
        mutexes.performed(pending, event) is Some,
    ensures
        !(engine.stepped(event, now_ns).1 is Rejected),
        engine.stepped(event, now_ns).0.in_step(
            engine.stepped(event, now_ns).1,
            mutexes.performed(pending, event).unwrap(),
        ),
{
    crate::duplication::engine::lemma_stepped_wf(engine, event, now_ns);
}

/// What being in step means for the driver. A keyed mutex that the engine
/// asks for is free under the producer's key: the producer never waits for a
/// consumer that has given back what it held. When a request ends well, the
/// published buffer is handed over: free under the consumer's key, so that
/// only the consumer can take it; every other shared buffer is back with the
/// producer. When a request fails, everything is back with the producer.
pub proof fn lemma_in_step_serves(
    engine: InternalDesktopDuplicationApi,
    pending: EngineAction,
    mutexes: SharedMutexes,
)
    requires
        engine.wf(),
        engine.in_step(pending, mutexes),
    ensures
        pending matches EngineAction::LockBuffer { role, key, .. } ==> mutexes.of(role) == Some(
            KeyedMutex::Free(key),
        ) && key == PRODUCER_KEY,
        pending matches EngineAction::UnlockBuffer { role, .. } ==> mutexes.of(role) == Some(
            KeyedMutex::Held(Party::Producer),
        ),
        pending matches EngineAction::Finish(Ok(role)) ==> mutexes.of(role) == Some(
            KeyedMutex::Free(CONSUMER_KEY),
        ) && (forall|other: BufferRole|
            other.is_shared() && other != role && mutexes.of(other) is Some ==> mutexes.of(other)
                == Some(KeyedMutex::Free(PRODUCER_KEY))),
        pending matches EngineAction::Finish(Err(_)) ==> mutexes.all_with_producer(),
        pending matches EngineAction::CopyFrame { to, .. } ==> (to.is_shared() ==> mutexes.of(to)
            == Some(KeyedMutex::Held(Party::Producer))),
{
    assert forall|other: BufferRole| other.is_shared() implies other == BufferRole::Stable || other
        == BufferRole::CursorShared by {}
}

} // verus!
