use crate::body::ResponseBody;
use crate::error::HError;
use crate::outcome::{decode_response, Response};
use vstd::prelude::*;

verus! {

/// What the transport reports to an exchange, in the order it happens.
pub enum Event {
    /// The response head arrived with this status; its body follows.
    Responded(u16),
    /// The transport could not deliver a response.
    TransportFailed(String),
    /// The next piece of the response body.
    Chunk(Vec<u8>),
    /// The body stream broke off.
    StreamFailed(String),
    /// The body stream is exhausted.
    StreamEnded,
}

/// What an exchange asks of its driver after an event.
#[derive(Debug, PartialEq, Eq)]
pub enum Step {
    /// Wait for the next event.
    Pending,
    /// The whole body is in: decode it with this status.
    Deliver(u16, Vec<u8>),
    /// The exchange failed with this error.
    Fail(HError),
}

enum Stage {
    Submitting,
    Buffering(u16, Vec<u8>),
    Done,
}

/// The state of one request as a value.
pub enum StageModel {
    Submitting,
    Buffering(u16, Seq<u8>),
    Done,
}

pub enum EventModel {
    Responded(u16),
    TransportFailed(String),
    Chunk(Seq<u8>),
    StreamFailed(String),
    StreamEnded,
}

pub enum StepModel {
    Pending,
    Deliver(u16, Seq<u8>),
    Fail(HError),
}

impl View for Event {
    type V = EventModel;

    open spec fn view(&self) -> EventModel {
        match self {
            Event::Responded(s) => EventModel::Responded(*s),
            Event::TransportFailed(m) => EventModel::TransportFailed(*m),
            Event::Chunk(c) => EventModel::Chunk(c@),
            Event::StreamFailed(m) => EventModel::StreamFailed(*m),
            Event::StreamEnded => EventModel::StreamEnded,
        }
    }
}

impl View for Step {
    type V = StepModel;

    open spec fn view(&self) -> StepModel {
        match self {
            Step::Pending => StepModel::Pending,
            Step::Deliver(s, b) => StepModel::Deliver(*s, b@),
            Step::Fail(e) => StepModel::Fail(*e),
        }
    }
}

/// Which events a stage can take: a response head or a transport failure
/// first, then body chunks until the stream ends or fails, then nothing.
pub open spec fn admits(stage: StageModel, ev: EventModel) -> bool {
    match stage {
        StageModel::Submitting => ev is Responded || ev is TransportFailed,
        StageModel::Buffering(_, _) => ev is Chunk || ev is StreamFailed || ev is StreamEnded,
        StageModel::Done => false,
    }
}

/// The stage after an admitted event, and the step it asks for. A failure
/// drops what was buffered; the status of the response head is kept until
/// the body is delivered with it.
pub open spec fn next(stage: StageModel, ev: EventModel) -> (StageModel, StepModel) {
    match ev {
        EventModel::Responded(s) => (StageModel::Buffering(s, Seq::empty()), StepModel::Pending),
        EventModel::TransportFailed(m) => (
            StageModel::Done,
            StepModel::Fail(HError::InvalidHttpResponse(m)),
        ),
        EventModel::Chunk(c) => match stage {
            StageModel::Buffering(s, b) => (StageModel::Buffering(s, b + c), StepModel::Pending),
            _ => (stage, StepModel::Pending),
        },
        EventModel::StreamFailed(m) => (
            StageModel::Done,
            StepModel::Fail(HError::InvalidHttpResponse(m)),
        ),
        EventModel::StreamEnded => match stage {
            StageModel::Buffering(s, b) => (StageModel::Done, StepModel::Deliver(s, b)),
            _ => (stage, StepModel::Pending),
        },
    }
}

/// One request in flight: submitted, then buffering its body, then done.
pub struct Exchange {
    stage: Stage,
}

impl View for Exchange {
    type V = StageModel;

    closed spec fn view(&self) -> StageModel {
        match self.stage {
            Stage::Submitting => StageModel::Submitting,
            Stage::Buffering(s, b) => StageModel::Buffering(s, b@),
            Stage::Done => StageModel::Done,
        }
    }
}

impl Exchange {
    /// An exchange whose request has been handed to the transport.
    pub fn new() -> (r: Exchange)
        ensures
            r@ == StageModel::Submitting,
    {
        Exchange { stage: Stage::Submitting }
    }

    /// Whether the exchange has delivered its body or failed.
    pub fn is_done(&self) -> (r: bool)
        ensures
            r == (self@ is Done),
    {
        match self.stage {
            Stage::Done => true,
            _ => false,
        }
    }

    /// Whether the exchange can take `ev` now.
    pub fn admits(&self, ev: &Event) -> (r: bool)
        ensures
            r == admits(self@, ev@),
    {
        match self.stage {
            Stage::Submitting => match ev {
                Event::Responded(_) | Event::TransportFailed(_) => true,
                _ => false,
            },
            Stage::Buffering(_, _) => match ev {
                Event::Chunk(_) | Event::StreamFailed(_) | Event::StreamEnded => true,
                _ => false,
            },
            Stage::Done => false,
        }
    }

    /// Takes the next event and says what the driver is to do.
    pub fn on_event(&mut self, ev: Event) -> (r: Step)
        requires
            admits(old(self)@, ev@),
        ensures
            (final(self)@, r@) == next(old(self)@, ev@),
    {
        let mut stage = Stage::Done;
        std::mem::swap(&mut self.stage, &mut stage);
        match ev {
            Event::Responded(s) => {
                self.stage = Stage::Buffering(s, Vec::new());
                Step::Pending
            },
            Event::TransportFailed(m) => Step::Fail(HError::InvalidHttpResponse(m)),
            Event::Chunk(c) => {
                match stage {
                    Stage::Buffering(s, b) => {
                        let mut b = b;
                        let mut c = c;
                        b.append(&mut c);
                        self.stage = Stage::Buffering(s, b);
                    },
                    _ => {},
                }
                Step::Pending
            },
            Event::StreamFailed(m) => Step::Fail(HError::InvalidHttpResponse(m)),
            Event::StreamEnded => match stage {
                Stage::Buffering(s, b) => Step::Deliver(s, b),
                _ => Step::Pending,
            },
        }
    }
}

/// What a step comes to for the caller: nothing yet while pending, the
/// decoded response once the body is delivered, or the exchange's error.
pub fn complete<R: ResponseBody>(step: Step) -> (r: Option<Result<Response<R>, HError>>)
    ensures
        step is Pending <==> r is None,
        step is Fail ==> r == Some(Err::<Response<R>, HError>(step->Fail_0)),
        step is Deliver && r is Some && r->Some_0 is Ok ==> r->Some_0->Ok_0.status == step->Deliver_0
            && R::decodes_as(step->Deliver_0, step->Deliver_1@, r->Some_0->Ok_0.value),
        step is Deliver && r is Some && r->Some_0 is Err ==> !R::always_decodes(
            step->Deliver_0,
            step->Deliver_1@,
        ) && r->Some_0->Err_0 is InvalidDataFormat,
        step is Deliver && R::never_decodes(step->Deliver_0, step->Deliver_1@) ==> r is Some
            && r->Some_0 is Err,
{
    match step {
        Step::Pending => None,
        Step::Deliver(status, body) => Some(decode_response(status, body)),
        Step::Fail(e) => Some(Err(e)),
    }
}

/// The bytes of a sequence of chunks, one after the other.
pub open spec fn concat(chunks: Seq<Seq<u8>>) -> Seq<u8>
    decreases chunks.len(),
{
    if chunks.len() == 0 {
        Seq::empty()
    } else {
        chunks[0] + concat(chunks.drop_first())
    }
}

/// The stage after taking each chunk in turn.
pub open spec fn feed_chunks(stage: StageModel, chunks: Seq<Seq<u8>>) -> StageModel
    decreases chunks.len(),
{
    if chunks.len() == 0 {
        stage
    } else {
        feed_chunks(next(stage, EventModel::Chunk(chunks[0])).0, chunks.drop_first())
    }
}

/// While buffering, every chunk is admitted, and the chunks are appended in
/// order to what was buffered, under the same status.
pub proof fn lemma_feed_chunks(status: u16, buffered: Seq<u8>, chunks: Seq<Seq<u8>>)
    ensures
        feed_chunks(StageModel::Buffering(status, buffered), chunks) == StageModel::Buffering(
            status,
            buffered + concat(chunks),
        ),
        forall|i: int|
            0 <= i < chunks.len() ==> admits(
                feed_chunks(StageModel::Buffering(status, buffered), chunks.take(i)),
                EventModel::Chunk(#[trigger] chunks[i]),
            ),
    decreases chunks.len(),
{
    if chunks.len() == 0 {
        assert(buffered + concat(chunks) =~= buffered);
    } else {
        let rest = chunks.drop_first();
        lemma_feed_chunks(status, buffered + chunks[0], rest);
        assert(buffered + chunks[0] + concat(rest) =~= buffered + concat(chunks));
        assert forall|i: int| 0 <= i < chunks.len() implies admits(
            feed_chunks(StageModel::Buffering(status, buffered), chunks.take(i)),
            EventModel::Chunk(#[trigger] chunks[i]),
        ) by {
            if i > 0 {
                assert(chunks.take(i).drop_first() =~= rest.take(i - 1));
                assert(chunks[i] == rest[i - 1]);
            }
        }
    }
}

/// An exchange that receives a response head, then body chunks, then the
/// end of the stream, delivers the chunks' bytes unaltered, in order, with
/// the status of the head; every event on the way is admitted.
pub proof fn lemma_exchange_delivers_body(status: u16, chunks: Seq<Seq<u8>>)
    ensures
        admits(StageModel::Submitting, EventModel::Responded(status)),
        next(StageModel::Submitting, EventModel::Responded(status)) == (
            StageModel::Buffering(status, Seq::empty()),
            StepModel::Pending,
        ),
        admits(feed_chunks(StageModel::Buffering(status, Seq::empty()), chunks), EventModel::StreamEnded),
        next(feed_chunks(StageModel::Buffering(status, Seq::empty()), chunks), EventModel::StreamEnded)
            == (StageModel::Done, StepModel::Deliver(status, concat(chunks))),
{
    lemma_feed_chunks(status, Seq::empty(), chunks);
    assert(Seq::<u8>::empty() + concat(chunks) =~= concat(chunks));
}

} // verus!
