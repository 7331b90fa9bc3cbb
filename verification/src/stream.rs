use vstd::prelude::*;

use crate::abort::AbortSignal;
use crate::error::ChatError;
use crate::text::str_eq;
use crate::wire::{chunk_delta_of, extract_chunk_delta, error_message_of, extract_error_message};

verus! {

/// A sink that receives ordered text fragments and a single terminal
/// notification. The two spec functions model what the sink has
/// observed; `text` and `done` must account to them as stated.
pub trait StreamHandler: Sized {
    /// The fragments delivered so far, in receipt order.
    spec fn delivered(&self) -> Seq<Seq<char>>;

    /// How often the terminal notification has been invoked.
    spec fn done_count(&self) -> nat;

    /// Delivers one text fragment; on failure nothing was delivered.
    fn text(&mut self, fragment: &str) -> (r: Result<(), ChatError>)
        ensures
            final(self).done_count() == old(self).done_count(),
            r is Ok ==> final(self).delivered() == old(self).delivered().push(fragment@),
            r is Err ==> final(self).delivered() == old(self).delivered(),
            r is Err ==> r == Err::<(), ChatError>(ChatError::IoError),
    ;

    /// Invokes the terminal notification once.
    fn done(&mut self) -> (r: Result<(), ChatError>)
        ensures
            final(self).delivered() == old(self).delivered(),
            final(self).done_count() == old(self).done_count() + 1,
            r is Err ==> r == Err::<(), ChatError>(ChatError::IoError),
    ;
}

/// An in-memory sink: it records every fragment and counts terminal
/// notifications. With `fail_delivery` set it refuses every fragment,
/// behaving as a sink whose delivery fails.
pub struct MemoryHandler {
    pub fragments: Vec<String>,
    pub done_calls: u64,
    pub fail_delivery: bool,
    pub done_events: Ghost<nat>,
}

impl MemoryHandler {
    /// A fresh sink that has observed nothing.
    pub fn new() -> (r: MemoryHandler)
        ensures
            r.delivered() == Seq::<Seq<char>>::empty(),
            r.done_count() == 0,
            r.fragments@ == Seq::<String>::empty(),
            r.done_calls == 0,
            !r.fail_delivery,
    {
        let r = MemoryHandler {
            fragments: Vec::new(),
            done_calls: 0,
            fail_delivery: false,
            done_events: Ghost(0),
        };
        proof {
            assert(r.delivered() =~= Seq::<Seq<char>>::empty());
        }
        r
    }
}

impl StreamHandler for MemoryHandler {
    open spec fn delivered(&self) -> Seq<Seq<char>> {
        self.fragments.deep_view()
    }

    open spec fn done_count(&self) -> nat {
        self.done_events@
    }

    fn text(&mut self, fragment: &str) -> (r: Result<(), ChatError>)
        ensures
            r is Err <==> old(self).fail_delivery,
            final(self).fail_delivery == old(self).fail_delivery,
            final(self).done_calls == old(self).done_calls,
    {
        if self.fail_delivery {
            return Err(ChatError::IoError);
        }
        self.fragments.push(fragment.to_owned());
        proof {
            assert(self.delivered() =~= old(self).delivered().push(fragment@));
        }
        Ok(())
    }

    fn done(&mut self) -> (r: Result<(), ChatError>)
        ensures
            r is Ok,
            final(self).fragments@ == old(self).fragments@,
            final(self).fail_delivery == old(self).fail_delivery,
            old(self).done_calls < u64::MAX ==> final(self).done_calls == old(self).done_calls
                + 1,
    {
        if self.done_calls < u64::MAX {
            self.done_calls = self.done_calls + 1;
        }
        proof {
            self.done_events@ = self.done_events@ + 1;
        }
        Ok(())
    }
}

/// One event observed by the cancellation race that the streaming path
/// runs: the stream-consumption branch yields chunks or its end or
/// failure, the abort-poll branch yields ticks, and the interrupt branch
/// yields at most one interrupt.
#[derive(Debug)]
pub enum StreamEvent {
    /// One event-stream chunk's data, in receipt order.
    Chunk(String),
    /// The stream ended without the terminal sentinel.
    StreamClosed,
    /// Transport or decode failure mid-stream, with its message.
    StreamFailed(String),
    /// The initial HTTP status was not successful; its body, read once.
    BadStatus(String),
    /// The abort poll fired; the signal is consulted.
    PollTick,
    /// A process-level interrupt notification arrived.
    Interrupted,
}

impl Clone for StreamEvent {
    fn clone(&self) -> (r: Self)
        ensures
            r == *self,
    {
        match self {
            StreamEvent::Chunk(c) => StreamEvent::Chunk(c.clone()),
            StreamEvent::StreamClosed => StreamEvent::StreamClosed,
            StreamEvent::StreamFailed(m) => StreamEvent::StreamFailed(m.clone()),
            StreamEvent::BadStatus(b) => StreamEvent::BadStatus(b.clone()),
            StreamEvent::PollTick => StreamEvent::PollTick,
            StreamEvent::Interrupted => StreamEvent::Interrupted,
        }
    }
}

/// The fragment one consumed event delivers: nothing unless it is a
/// chunk other than the terminal sentinel whose named delta is
/// non-empty.
pub open spec fn event_delta(ev: StreamEvent) -> Seq<Seq<char>> {
    match ev {
        StreamEvent::Chunk(c) => if c@ == "[DONE]"@ {
            Seq::empty()
        } else {
            match chunk_delta_of(c@) {
                Some(d) => if d.len() > 0 {
                    seq![d]
                } else {
                    Seq::empty()
                },
                None => Seq::empty(),
            }
        },
        _ => Seq::empty(),
    }
}

/// The non-empty named deltas the chunks of an event sequence carry,
/// in receipt order.
pub open spec fn chunk_deltas(events: Seq<StreamEvent>) -> Seq<Seq<char>>
    decreases events.len(),
{
    if events.len() == 0 {
        Seq::empty()
    } else {
        chunk_deltas(events.drop_last()) + event_delta(events.last())
    }
}

/// Whether consuming an event can leave the race running: a decodable
/// chunk other than the sentinel, or a poll tick while no abort has
/// been requested.
pub open spec fn keeps_racing(ev: StreamEvent, explicit_abort: bool) -> bool {
    match ev {
        StreamEvent::Chunk(c) => c@ != "[DONE]"@ && chunk_delta_of(c@) is Some,
        StreamEvent::PollTick => !explicit_abort,
        _ => false,
    }
}

/// The outcomes the race permits for an event that settles it, given
/// the explicit-abort latch when the event is consumed.
pub open spec fn settled_outcome(
    ev: StreamEvent,
    explicit_abort: bool,
    res: Result<(), ChatError>,
) -> bool {
    match ev {
        StreamEvent::Chunk(c) => if c@ == "[DONE]"@ {
            res is Ok || res == Err::<(), ChatError>(ChatError::IoError)
        } else {
            match chunk_delta_of(c@) {
                Some(d) => d.len() > 0 && res == Err::<(), ChatError>(ChatError::IoError),
                None => res == Err::<(), ChatError>(ChatError::MalformedResponse) || res
                    == Err::<(), ChatError>(ChatError::IoError),
            }
        },
        StreamEvent::StreamClosed => res is Ok || res == Err::<(), ChatError>(ChatError::IoError),
        StreamEvent::StreamFailed(m) => (res matches Err(ChatError::TransportError(t)) && t@
            == m@) || res == Err::<(), ChatError>(ChatError::IoError),
        StreamEvent::BadStatus(b) => (error_message_of(b@) matches Some(msg) && res matches Err(
            ChatError::ApiError(t),
        ) && t@ == msg) || (error_message_of(b@) is None && res == Err::<(), ChatError>(
            ChatError::MalformedResponse,
        )) || res == Err::<(), ChatError>(ChatError::IoError),
        StreamEvent::PollTick => explicit_abort && (res is Ok || res == Err::<(), ChatError>(
            ChatError::IoError,
        )),
        StreamEvent::Interrupted => res is Ok,
    }
}

/// What the race does after one event: keep going, or settle with the
/// overall outcome of the streaming call.
#[derive(Debug)]
pub enum StreamStep {
    Continue,
    Settled(Result<(), ChatError>),
}

/// The state of one streaming request's cancellation race: the sink, the
/// request's abort signal, and whether a branch has already settled.
pub struct StreamRun<H: StreamHandler> {
    pub handler: H,
    pub abort: AbortSignal,
    pub settled: bool,
}

impl<H: StreamHandler> StreamRun<H> {
    /// Starts the race over a sink that has observed nothing yet.
    pub fn new(handler: H) -> (r: StreamRun<H>)
        requires
            handler.done_count() == 0,
            handler.delivered() == Seq::<Seq<char>>::empty(),
        ensures
            r.handler == handler,
            !r.settled,
            !r.abort.explicit_abort,
            !r.abort.interrupted,
    {
        StreamRun { handler, abort: AbortSignal::new(), settled: false }
    }

    /// Requests an explicit abort; the poll branch will observe it.
    pub fn request_abort(&mut self)
        ensures
            final(self).abort.explicit_abort,
            final(self).abort.interrupted == old(self).abort.interrupted,
            final(self).handler == old(self).handler,
            final(self).settled == old(self).settled,
    {
        self.abort.request_abort();
    }

    /// Consumes one event of the race and decides what follows.
    ///
    /// The terminal notification is invoked exactly once before the call
    /// settles, whichever branch wins — except an interrupt, which hands
    /// responsibility back and returns at once. Fragments are delivered
    /// in receipt order, and never after the race has settled.
    pub fn on_event(&mut self, ev: StreamEvent) -> (r: StreamStep)
        requires
            !old(self).settled,
            old(self).handler.done_count() == 0,
        ensures
            final(self).settled == (r is Settled),
            final(self).abort.explicit_abort == old(self).abort.explicit_abort,
            final(self).abort.interrupted == (old(self).abort.interrupted || ev is Interrupted),
            r is Continue ==> final(self).handler.done_count() == 0,
            r is Settled && !(ev is Interrupted) ==> final(self).handler.done_count() == 1,
            r is Settled && ev is Interrupted ==> final(self).handler.done_count() == 0,
            ev is Interrupted ==> (r matches StreamStep::Settled(res) && res is Ok
                && final(self).handler == old(self).handler),
            match ev {
                StreamEvent::Chunk(c) => {
                    if c@ == "[DONE]"@ {
                        &&& r matches StreamStep::Settled(res) && (res is Ok || res == Err::<(),
                        ChatError>(ChatError::IoError))
                        &&& final(self).handler.delivered() == old(self).handler.delivered()
                    } else {
                        match chunk_delta_of(c@) {
                            Option::None => {
                                &&& r matches StreamStep::Settled(res) && (res == Err::<(),
                                ChatError>(ChatError::MalformedResponse) || res == Err::<(),
                                ChatError>(ChatError::IoError))
                                &&& final(self).handler.delivered() == old(
                                    self,
                                ).handler.delivered()
                            },
                            Option::Some(d) => {
                                if d.len() == 0 {
                                    &&& r is Continue
                                    &&& final(self).handler.delivered() == old(
                                        self,
                                    ).handler.delivered()
                                } else {
                                    ||| (r is Continue && final(self).handler.delivered() == old(
                                        self,
                                    ).handler.delivered().push(d))
                                    ||| (r == StreamStep::Settled(Err::<(), ChatError>(
                                        ChatError::IoError,
                                    )) && final(self).handler.delivered() == old(
                                        self,
                                    ).handler.delivered())
                                }
                            },
                        }
                    }
                },
                StreamEvent::StreamClosed => {
                    &&& r matches StreamStep::Settled(res) && (res is Ok || res == Err::<(),
                    ChatError>(ChatError::IoError))
                    &&& final(self).handler.delivered() == old(self).handler.delivered()
                },
                StreamEvent::StreamFailed(m) => {
                    &&& r matches StreamStep::Settled(res) && ((res matches Err(
                        ChatError::TransportError(t),
                    ) && t@ == m@) || res == Err::<(), ChatError>(ChatError::IoError))
                    &&& final(self).handler.delivered() == old(self).handler.delivered()
                },
                StreamEvent::BadStatus(b) => {
                    &&& r matches StreamStep::Settled(res) && ((error_message_of(b@) matches Some(
                        msg,
                    ) && res matches Err(ChatError::ApiError(t)) && t@ == msg) || (error_message_of(
                        b@,
                    ) is None && res == Err::<(), ChatError>(ChatError::MalformedResponse)) || res
                        == Err::<(), ChatError>(ChatError::IoError))
                    &&& final(self).handler.delivered() == old(self).handler.delivered()
                },
                StreamEvent::PollTick => {
                    if old(self).abort.explicit_abort || old(self).abort.interrupted {
                        &&& r matches StreamStep::Settled(res) && (res is Ok || res == Err::<(),
                        ChatError>(ChatError::IoError))
                        &&& final(self).handler.delivered() == old(self).handler.delivered()
                    } else {
                        &&& r is Continue
                        &&& final(self).handler == old(self).handler
                    }
                },
                StreamEvent::Interrupted => true,
            },
    {
        match ev {
            StreamEvent::Chunk(c) => {
                if str_eq(c.as_str(), "[DONE]") {
                    self.settled = true;
                    match self.handler.done() {
                        Err(e) => StreamStep::Settled(Err(e)),
                        Ok(_) => StreamStep::Settled(Ok(())),
                    }
                } else {
                    match extract_chunk_delta(c.as_str()) {
                        Option::None => {
                            self.settled = true;
                            match self.handler.done() {
                                Err(e) => StreamStep::Settled(Err(e)),
                                Ok(_) => StreamStep::Settled(Err(ChatError::MalformedResponse)),
                            }
                        },
                        Option::Some(d) => {
                            if d.as_str().is_empty() {
                                StreamStep::Continue
                            } else {
                                match self.handler.text(d.as_str()) {
                                    Ok(_) => StreamStep::Continue,
                                    Err(_) => {
                                        self.settled = true;
                                        match self.handler.done() {
                                            Err(e) => StreamStep::Settled(Err(e)),
                                            Ok(_) => StreamStep::Settled(
                                                Err(ChatError::IoError),
                                            ),
                                        }
                                    },
                                }
                            }
                        },
                    }
                }
            },
            StreamEvent::StreamClosed => {
                self.settled = true;
                match self.handler.done() {
                    Err(e) => StreamStep::Settled(Err(e)),
                    Ok(_) => StreamStep::Settled(Ok(())),
                }
            },
            StreamEvent::StreamFailed(m) => {
                self.settled = true;
                match self.handler.done() {
                    Err(e) => StreamStep::Settled(Err(e)),
                    Ok(_) => StreamStep::Settled(Err(ChatError::TransportError(m))),
                }
            },
            StreamEvent::BadStatus(b) => {
                self.settled = true;
                let failure = match extract_error_message(b.as_str()) {
                    Option::Some(msg) => ChatError::ApiError(msg),
                    Option::None => ChatError::MalformedResponse,
                };
                match self.handler.done() {
                    Err(e) => StreamStep::Settled(Err(e)),
                    Ok(_) => StreamStep::Settled(Err(failure)),
                }
            },
            StreamEvent::PollTick => {
                if self.abort.is_aborted() {
                    self.settled = true;
                    match self.handler.done() {
                        Err(e) => StreamStep::Settled(Err(e)),
                        Ok(_) => StreamStep::Settled(Ok(())),
                    }
                } else {
                    StreamStep::Continue
                }
            },
            StreamEvent::Interrupted => {
                self.abort.set_interrupted();
                self.settled = true;
                StreamStep::Settled(Ok(()))
            },
        }
    }
}


/// Feeds a finished sequence of race events to the machine, in receipt
/// order, until one settles, and returns the settled outcome, if any.
///
/// Run-level completion contract: when the race settles, the terminal
/// notification has been invoked exactly once — except when the
/// interrupt branch won, which hands responsibility back without it;
/// while nothing has settled, it has not been invoked at all.
pub fn run_events<H: StreamHandler>(run: &mut StreamRun<H>, events: Vec<StreamEvent>) -> (r:
    Option<Result<(), ChatError>>)
    requires
        !old(run).settled,
        old(run).handler.done_count() == 0,
        !old(run).abort.interrupted,
    ensures
        r is Some <==> final(run).settled,
        final(run).abort.explicit_abort == old(run).abort.explicit_abort,
        r is None ==> {
            &&& final(run).handler.done_count() == 0
            &&& !final(run).abort.interrupted
            &&& final(run).handler.delivered() == old(run).handler.delivered() + chunk_deltas(
                events@,
            )
            &&& forall|j: int|
                0 <= j < events@.len() ==> keeps_racing(
                    #[trigger] events@[j],
                    old(run).abort.explicit_abort,
                )
        },
        r matches Some(res) ==> exists|k: int|
            {
                &&& 0 <= k < events@.len()
                &&& forall|j: int|
                    0 <= j < k ==> keeps_racing(
                        #[trigger] events@[j],
                        old(run).abort.explicit_abort,
                    )
                &&& settled_outcome(#[trigger] events@[k], old(run).abort.explicit_abort, res)
                &&& final(run).handler.delivered() == old(run).handler.delivered() + chunk_deltas(
                    events@.take(k),
                )
                &&& final(run).abort.interrupted == (events@[k] is Interrupted)
                &&& events@[k] is Interrupted ==> final(run).handler.done_count() == 0
                &&& !(events@[k] is Interrupted) ==> final(run).handler.done_count() == 1
            },
{
    let n = events.len();
    let mut i: usize = 0;
    proof {
        assert(run.handler.delivered() =~= old(run).handler.delivered() + chunk_deltas(
            events@.take(0),
        ));
    }
    while i < n
        invariant
            n == events@.len(),
            i <= n,
            !run.settled,
            run.handler.done_count() == 0,
            run.abort.explicit_abort == old(run).abort.explicit_abort,
            !run.abort.interrupted,
            run.handler.delivered() == old(run).handler.delivered() + chunk_deltas(
                events@.take(i as int),
            ),
            forall|j: int|
                0 <= j < i ==> keeps_racing(#[trigger] events@[j], old(run).abort.explicit_abort),
        decreases n - i,
    {
        let ghost pre = run.handler.delivered();
        let ev = events[i].clone();
        proof {
            assert(events@.take(i + 1).drop_last() =~= events@.take(i as int));
            assert(events@.take(i + 1).last() == events@[i as int]);
        }
        match run.on_event(ev) {
            StreamStep::Continue => {
                proof {
                    assert(keeps_racing(events@[i as int], old(run).abort.explicit_abort));
                    assert(run.handler.delivered() =~= old(run).handler.delivered()
                        + chunk_deltas(events@.take(i + 1)));
                }
            },
            StreamStep::Settled(outcome) => {
                proof {
                    let k = i as int;
                    assert(settled_outcome(events@[k], old(run).abort.explicit_abort, outcome));
                    assert(run.handler.delivered() == old(run).handler.delivered()
                        + chunk_deltas(events@.take(k)));
                }
                return Some(outcome);
            },
        }
        i = i + 1;
    }
    proof {
        assert(events@.take(n as int) =~= events@);
    }
    None
}


/// Settles the race with a failure that precedes dispatch (the token
/// budget was violated, so no network call may be made), still
/// invoking the terminal notification exactly once before the error is
/// returned; a delivery failure of that notification takes precedence.
pub fn fail_before_dispatch<H: StreamHandler>(run: &mut StreamRun<H>, error: ChatError) -> (r:
    Result<(), ChatError>)
    requires
        !old(run).settled,
        old(run).handler.done_count() == 0,
    ensures
        final(run).settled,
        final(run).handler.done_count() == 1,
        final(run).handler.delivered() == old(run).handler.delivered(),
        final(run).abort == old(run).abort,
        r == Err::<(), ChatError>(error) || r == Err::<(), ChatError>(ChatError::IoError),
{
    run.settled = true;
    match run.handler.done() {
        Err(e) => Err(e),
        Ok(_) => Err(error),
    }
}

/// The dry-run streaming path: delivers the echoed input as the one
/// fragment, then invokes the terminal notification exactly once.
pub fn deliver_echo<H: StreamHandler>(handler: &mut H, text: &str) -> (r: Result<(), ChatError>)
    requires
        old(handler).done_count() == 0,
    ensures
        final(handler).done_count() == 1,
        r is Ok ==> final(handler).delivered() == old(handler).delivered().push(text@),
        r is Err ==> r == Err::<(), ChatError>(ChatError::IoError),
        final(handler).delivered() == old(handler).delivered().push(text@)
            || final(handler).delivered() == old(handler).delivered(),
{
    let tr = handler.text(text);
    match handler.done() {
        Err(e) => Err(e),
        Ok(_) => tr,
    }
}

} // verus!
