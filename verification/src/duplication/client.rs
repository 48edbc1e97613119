//! The consumer side of the thread boundary. One request is in flight at a
//! time: the consumer gives back the texture it holds, asks the worker for
//! the next frame, opens the handle it is sent if it is a new one, and takes
//! the keyed mutex before it reads.

use vstd::prelude::*;
use crate::duplication::buffers::{CONSUMER_KEY, LOCK_WAIT_MS};
use crate::duplication::cursor::CursorShape;
use crate::duplication::frame_info::FrameInfo;
use crate::duplication::worker::FrameData;
use crate::errors::{DDApiError, Result};

verus! {

/// What the consumer's driver has to do next.
#[derive(Debug)]
pub enum ClientAction {
    /// Give the keyed mutex of the texture held back under the producer's
    /// key, if `release_first`; then send the request to the worker and wait
    /// for its answer. Answered by `Response` or `Disconnected`.
    Request { release_first: bool },
    /// Open the handle as a local texture, in place of the one opened
    /// before. Answered by `Opened` or `OpenFailed`.
    Open { handle: isize },
    /// Take the keyed mutex of the texture opened last under `key`, waiting
    /// at most `wait_ms`. Answered by `Locked` or `LockTimedOut`.
    Lock { key: u64, wait_ms: u32 },
    /// The request is over. On `Ok` the texture opened last holds the frame
    /// and may be read.
    Done(Result<()>),
    /// A request is in flight. The caller has to wait until it is over;
    /// nothing has changed.
    Wait,
    /// The event answers no pending action; nothing has changed.
    Rejected,
}

/// What the consumer's driver reports back.
#[derive(Debug)]
pub enum ClientEvent {
    /// The answer of the worker.
    Response(Result<FrameData>),
    /// The worker is gone.
    Disconnected { detail: String },
    Opened,
    OpenFailed { detail: String },
    Locked,
    /// The producer did not hand the texture over in time.
    LockTimedOut { detail: String },
}

/// Where the consumer stands within a request.
#[derive(Debug)]
pub enum ClientPhase {
    /// No request is in flight.
    Idle,
    /// The request was sent; the answer is awaited.
    Awaiting,
    /// The handle of the answer is being opened.
    Opening(FrameData),
    /// The keyed mutex is being taken.
    Locking,
}

/// The consumer's end of the capture thread.
#[derive(Debug)]
pub struct DesktopDuplicationApi {
    /// The handle of the texture opened last.
    pub last_handle: Option<isize>,
    /// The consumer holds the keyed mutex of the texture opened last.
    pub holding: bool,
    pub last_frame_info: Option<FrameInfo>,
    pub last_cursor_shape: Option<CursorShape>,
    pub phase: ClientPhase,
}

impl DesktopDuplicationApi {
    /// The consumer before its first request.
    pub open spec fn initial() -> Self {
        DesktopDuplicationApi {
            last_handle: None,
            holding: false,
            last_frame_info: None,
            last_cursor_shape: None,
            phase: ClientPhase::Idle,
        }
    }

    /// The start of a request.
    pub open spec fn began(self) -> (Self, ClientAction) {
        if !(self.phase is Idle) {
            (self, ClientAction::Wait)
        } else {
            (
                DesktopDuplicationApi { holding: false, phase: ClientPhase::Awaiting, ..self },
                ClientAction::Request { release_first: self.holding },
            )
        }
    }

    /// A frame has arrived and its texture is open: its metadata replaces
    /// what was kept, and the keyed mutex is taken next.
    pub open spec fn accepted(self, data: FrameData) -> (Self, ClientAction) {
        (
            DesktopDuplicationApi {
                last_handle: Some(data.handle),
                last_frame_info: Some(data.info),
                last_cursor_shape: data.shape,
                phase: ClientPhase::Locking,
                ..self
            },
            ClientAction::Lock { key: CONSUMER_KEY, wait_ms: LOCK_WAIT_MS },
        )
    }

    /// The end of a request.
    pub open spec fn done(self, result: Result<()>) -> (Self, ClientAction) {
        (DesktopDuplicationApi { phase: ClientPhase::Idle, ..self }, ClientAction::Done(result))
    }

    /// The transition of the consumer.
    pub open spec fn stepped(self, event: ClientEvent) -> (Self, ClientAction) {
        match (self.phase, event) {
            (ClientPhase::Awaiting, ClientEvent::Disconnected { detail }) => self.done(
                Err(DDApiError::Unexpected(detail)),
            ),
            (ClientPhase::Awaiting, ClientEvent::Response(Err(e))) => self.done(Err(e)),
            (ClientPhase::Awaiting, ClientEvent::Response(Ok(data))) => {
                if self.last_handle == Some(data.handle) {
                    self.accepted(data)
                } else {
                    (
                        DesktopDuplicationApi { phase: ClientPhase::Opening(data), ..self },
                        ClientAction::Open { handle: data.handle },
                    )
                }
            },
            (ClientPhase::Opening(data), ClientEvent::Opened) => self.accepted(data),
            (ClientPhase::Opening(data), ClientEvent::OpenFailed { detail }) => (
                DesktopDuplicationApi { last_handle: None, ..self }
            ).done(Err(DDApiError::Unexpected(detail))),
            (ClientPhase::Locking, ClientEvent::Locked) => (DesktopDuplicationApi {
                holding: true,
                ..self
            }).done(Ok(())),
            (ClientPhase::Locking, ClientEvent::LockTimedOut { detail }) => self.done(
                Err(DDApiError::Unexpected(detail)),
            ),
            _ => (self, ClientAction::Rejected),
        }
    }

    /// What holds of every consumer that was made by `new` and driven
    /// through `acquire_next_frame` and `resume`: while a request is in
    /// flight, the consumer holds no texture.
    pub open spec fn wf(self) -> bool {
        !(self.phase is Idle) ==> !self.holding
    }

    /// A consumer that holds nothing.
    pub fn new() -> (client: Self)
        ensures
            client == Self::initial(),
            client.wf(),
    {
        DesktopDuplicationApi {
            last_handle: None,
            holding: false,
            last_frame_info: None,
            last_cursor_shape: None,
            phase: ClientPhase::Idle,
        }
    }

    fn accept(self, data: FrameData) -> (r: (Self, ClientAction))
        ensures
            r == self.accepted(data),
    {
        let mut me = self;
        me.last_handle = Some(data.handle);
        me.last_frame_info = Some(data.info);
        me.last_cursor_shape = data.shape;
        me.phase = ClientPhase::Locking;
        (me, ClientAction::Lock { key: CONSUMER_KEY, wait_ms: LOCK_WAIT_MS })
    }

    fn finish(self, result: Result<()>) -> (r: (Self, ClientAction))
        ensures
            r == self.done(result),
    {
        let mut me = self;
        me.phase = ClientPhase::Idle;
        (me, ClientAction::Done(result))
    }

    fn step(self, event: ClientEvent) -> (r: (Self, ClientAction))
        ensures
            r == self.stepped(event),
    {
        let mut me = self;
        let mut phase = ClientPhase::Idle;
        core::mem::swap(&mut me.phase, &mut phase);
        match (phase, event) {
            (ClientPhase::Awaiting, ClientEvent::Disconnected { detail }) => me.finish(
                Err(DDApiError::Unexpected(detail)),
            ),
            (ClientPhase::Awaiting, ClientEvent::Response(Err(e))) => me.finish(Err(e)),
            (ClientPhase::Awaiting, ClientEvent::Response(Ok(data))) => {
                let known = match me.last_handle {
                    Some(h) => h == data.handle,
                    None => false,
                };
                if known {
                    me.accept(data)
                } else {
                    let handle = data.handle;
                    me.phase = ClientPhase::Opening(data);
                    (me, ClientAction::Open { handle })
                }
            },
            (ClientPhase::Opening(data), ClientEvent::Opened) => me.accept(data),
            (ClientPhase::Opening(_), ClientEvent::OpenFailed { detail }) => {
                me.last_handle = None;
                me.finish(Err(DDApiError::Unexpected(detail)))
            },
            (ClientPhase::Locking, ClientEvent::Locked) => {
                me.holding = true;
                me.finish(Ok(()))
            },
            (ClientPhase::Locking, ClientEvent::LockTimedOut { detail }) => me.finish(
                Err(DDApiError::Unexpected(detail)),
            ),
            (phase, _) => {
                me.phase = phase;
                (me, ClientAction::Rejected)
            },
        }
    }

    /// Starts a request for the next frame. First the texture that is held
    /// goes back to the producer. While another request is in flight the
    /// answer is `Wait`: that request goes on, and this one has to be made
    /// again once it is over.
    pub fn acquire_next_frame(&mut self) -> (action: ClientAction)
        ensures
            (*final(self), action) == old(self).began(),
            !(old(self).phase is Idle) ==> action is Wait && *final(self) == *old(self),
            old(self).phase is Idle ==> action == (ClientAction::Request {
                release_first: old(self).holding,
            }) && !final(self).holding,
            old(self).wf() ==> final(self).wf(),
    {
        match self.phase {
            ClientPhase::Idle => {
                let release_first = self.holding;
                self.holding = false;
                self.phase = ClientPhase::Awaiting;
                ClientAction::Request { release_first }
            },
            _ => ClientAction::Wait,
        }
    }

    /// Takes in what the driver reports and says what to do next. An event
    /// that does not answer the pending action is rejected and changes
    /// nothing.
    pub fn resume(&mut self, event: ClientEvent) -> (action: ClientAction)
        ensures
            (*final(self), action) == old(self).stepped(event),
            action is Rejected ==> *final(self) == *old(self),
            action is Done ==> final(self).phase is Idle,
            action matches ClientAction::Done(r) ==> (r is Ok ==> final(self).holding),
            !(action is Wait) && !(action is Request),
            old(self).wf() ==> final(self).wf(),
            old(self).wf() && action is Done ==> (action->0 is Ok <==> final(self).holding),
    {
        let mut taken = DesktopDuplicationApi::new();
        core::mem::swap(self, &mut taken);
        let (next, action) = taken.step(event);
        *self = next;
        action
    }

    /// Copies the shape of the pointer that came with the latest frame into
    /// `shape`. Before a frame with a shape has arrived this is refused with
    /// `BadParam`, and `shape` is left as it was.
    pub fn get_cursor_shape(&self, shape: &mut CursorShape) -> (r: Result<()>)
        ensures
            self.last_cursor_shape is Some <==> r is Ok,
            r is Ok ==> final(shape)@ == self.last_cursor_shape->0@,
            r is Err ==> *final(shape) == *old(shape),
            r matches Err(e) ==> e matches DDApiError::BadParam(detail) && detail@
                == "requested before frame!!!"@,
    {
        match &self.last_cursor_shape {
            Some(latest) => {
                *shape = latest.clone();
                Ok(())
            },
            None => Err(DDApiError::BadParam("requested before frame!!!".to_owned())),
        }
    }

    /// Hands out the metadata of the latest frame and forgets it: it is
    /// read once. With nothing to read the empty snapshot is returned.
    pub fn get_last_frame_info(&mut self) -> (info: FrameInfo)
        ensures
            info == match old(self).last_frame_info {
                Some(i) => i,
                None => FrameInfo::empty(),
            },
            *final(self) == (DesktopDuplicationApi { last_frame_info: None, ..*old(self) }),
            old(self).wf() ==> final(self).wf(),
    {
        let info = match self.last_frame_info {
            Some(i) => i,
            None => FrameInfo::default(),
        };
        self.last_frame_info = None;
        info
    }
}

/// One request at a time. A request made while another is in flight is
/// neither an error nor the end of the other: the caller is told to wait, and
/// the consumer is exactly as it was. Once the request in flight is over, the
/// next one is admitted.
pub proof fn lemma_one_request_at_a_time(client: DesktopDuplicationApi, event: ClientEvent)
    requires
        !(client.phase is Idle),
    ensures
        client.began() == (client, ClientAction::Wait),
        client.stepped(event).1 is Done ==> client.stepped(event).0.began().1 is Request,
        !(client.stepped(event).1 is Done) ==> !(client.stepped(event).0.phase is Idle)
            && client.stepped(event).0.began().1 is Wait,
{
}

/// The consumer gives back only what it holds, and holds the texture exactly
/// after a request that ended well.
pub proof fn lemma_consumer_holds(client: DesktopDuplicationApi, event: ClientEvent)
    requires
        client.wf(),
    ensures
        client.began().0.wf(),
        client.stepped(event).0.wf(),
        client.began().1 matches ClientAction::Request { release_first } ==> release_first
            == client.holding && !client.began().0.holding,
        !(client.stepped(event).0.phase is Idle) ==> !client.stepped(event).0.holding,
        client.stepped(event).1 matches ClientAction::Done(r) ==> (r is Ok
            <==> client.stepped(event).0.holding),
{
}

} // verus!
