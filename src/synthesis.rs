//! The synthesis queue worker: one synthesis call at a time, chunks taken in
//! arrival order, each call's audio forwarded in full before the next starts.
use vstd::prelude::*;
use vstd::string::StringExecFns;

use crate::message::{audio_of, is_telemetry, lemma_audio_of_single, OutboundMessage};

verus! {

/// One synthesis call.
#[derive(Clone, Debug, PartialEq, Eq)]
pub struct SynthesisRequest {
    pub text: String,
    pub voice_id: String,
    pub preferred_provider: String,
}

/// What reaches the worker: the next sentence chunk from its queue, or an
/// item of the synthesis call in flight.
#[derive(Clone, Debug, PartialEq, Eq)]
pub enum SynthesisEvent {
    /// The next queued chunk.
    Chunk(String),
    /// One piece of audio from the call in flight.
    Audio(Vec<u8>),
    /// The call in flight has delivered all its audio.
    Finished,
    /// The call in flight failed.
    Failed(String),
}

pub ghost enum SynthesisEventView {
    Chunk(Seq<char>),
    Audio(Seq<u8>),
    Finished,
    Failed,
}

impl View for SynthesisEvent {
    type V = SynthesisEventView;

    open spec fn view(&self) -> SynthesisEventView {
        match self {
            SynthesisEvent::Chunk(c) => SynthesisEventView::Chunk(c@),
            SynthesisEvent::Audio(b) => SynthesisEventView::Audio(b@),
            SynthesisEvent::Finished => SynthesisEventView::Finished,
            SynthesisEvent::Failed(_) => SynthesisEventView::Failed,
        }
    }
}

/// What the worker does with one event.
#[derive(Clone, Debug, PartialEq, Eq)]
pub struct SynthesisStep {
    /// Queued for the client.
    pub message: OutboundMessage,
    /// The synthesis call to open, for a chunk.
    pub request: Option<SynthesisRequest>,
}

/// A new chunk is taken only when no call is in flight; call items come only
/// while one is.
pub open spec fn accepts(current: Option<Seq<char>>, ev: SynthesisEventView) -> bool {
    match ev {
        SynthesisEventView::Chunk(_) => current is None,
        _ => current is Some,
    }
}

/// The chunk in flight after the event.
pub open spec fn next_current(
    current: Option<Seq<char>>,
    ev: SynthesisEventView,
) -> Option<Seq<char>> {
    match ev {
        SynthesisEventView::Chunk(c) => Some(c),
        SynthesisEventView::Audio(_) => current,
        _ => None,
    }
}

/// The audio the event sends to the client.
pub open spec fn audio_sent(ev: SynthesisEventView) -> Seq<Seq<u8>> {
    match ev {
        SynthesisEventView::Audio(b) => seq![b],
        _ => Seq::empty(),
    }
}

/// The texts of the synthesis calls the event opens.
pub open spec fn calls_opened(ev: SynthesisEventView) -> Seq<Seq<char>> {
    match ev {
        SynthesisEventView::Chunk(c) => seq![c],
        _ => Seq::empty(),
    }
}

/// The text of the call a step opens, if any.
pub open spec fn request_texts(r: Option<SynthesisRequest>) -> Seq<Seq<char>> {
    match r {
        Some(q) => seq![q.text@],
        None => Seq::empty(),
    }
}

/// The outcome of a run of events on the worker.
pub ghost struct SynthesisRun {
    /// Every event came when the worker could take it.
    pub valid: bool,
    /// The chunk in flight at the end.
    pub current: Option<Seq<char>>,
    /// The audio sent to the client, in order.
    pub audio: Seq<Seq<u8>>,
    /// The texts of the synthesis calls opened, in order.
    pub calls: Seq<Seq<char>>,
}

pub open spec fn run(current: Option<Seq<char>>, evs: Seq<SynthesisEventView>) -> SynthesisRun
    decreases evs.len(),
{
    if evs.len() == 0 {
        SynthesisRun { valid: true, current, audio: Seq::empty(), calls: Seq::empty() }
    } else {
        let r = run(current, evs.drop_last());
        let e = evs.last();
        SynthesisRun {
            valid: r.valid && accepts(r.current, e),
            current: next_current(r.current, e),
            audio: r.audio + audio_sent(e),
            calls: r.calls + calls_opened(e),
        }
    }
}

/// One queued chunk and what its synthesis call delivered: audio pieces in
/// order, then completion or failure.
pub ghost struct SynthesisJob {
    pub text: Seq<char>,
    pub audio: Seq<Seq<u8>>,
    pub completed: bool,
}

pub open spec fn audio_events(audio: Seq<Seq<u8>>) -> Seq<SynthesisEventView> {
    audio.map_values(|b: Seq<u8>| SynthesisEventView::Audio(b))
}

/// The events the worker sees for one job, whatever the call's latency.
pub open spec fn job_events(j: SynthesisJob) -> Seq<SynthesisEventView> {
    seq![SynthesisEventView::Chunk(j.text)] + audio_events(j.audio) + seq![
        if j.completed {
            SynthesisEventView::Finished
        } else {
            SynthesisEventView::Failed
        },
    ]
}

/// The events for a sequence of jobs taken one after the other.
pub open spec fn jobs_events(jobs: Seq<SynthesisJob>) -> Seq<SynthesisEventView>
    decreases jobs.len(),
{
    if jobs.len() == 0 {
        Seq::empty()
    } else {
        jobs_events(jobs.drop_last()) + job_events(jobs.last())
    }
}

/// All the jobs' audio, job after job.
pub open spec fn jobs_audio(jobs: Seq<SynthesisJob>) -> Seq<Seq<u8>>
    decreases jobs.len(),
{
    if jobs.len() == 0 {
        Seq::empty()
    } else {
        jobs_audio(jobs.drop_last()) + jobs.last().audio
    }
}

/// Running two stretches of events is running the first, then the second
/// from where the first left the worker.
pub proof fn lemma_run_append(
    current: Option<Seq<char>>,
    a: Seq<SynthesisEventView>,
    b: Seq<SynthesisEventView>,
)
    ensures
        run(current, a + b).valid == (run(current, a).valid && run(
            run(current, a).current,
            b,
        ).valid),
        run(current, a + b).current == run(run(current, a).current, b).current,
        run(current, a + b).audio == run(current, a).audio + run(run(current, a).current, b).audio,
        run(current, a + b).calls == run(current, a).calls + run(run(current, a).current, b).calls,
    decreases b.len(),
{
    let ra = run(current, a);
    if b.len() == 0 {
        assert(a + b =~= a);
        assert(ra.audio + Seq::<Seq<u8>>::empty() =~= ra.audio);
        assert(ra.calls + Seq::<Seq<char>>::empty() =~= ra.calls);
    } else {
        lemma_run_append(current, a, b.drop_last());
        assert((a + b).drop_last() =~= a + b.drop_last());
        assert((a + b).last() == b.last());
        let rb = run(ra.current, b.drop_last());
        let e = b.last();
        assert(ra.audio + rb.audio + audio_sent(e) =~= ra.audio + (rb.audio + audio_sent(e)));
        assert(ra.calls + rb.calls + calls_opened(e) =~= ra.calls + (rb.calls + calls_opened(e)));
    }
}

/// While a call is in flight, its audio pieces go out as they come and the
/// call stays in flight.
pub proof fn lemma_run_audio(text: Seq<char>, audio: Seq<Seq<u8>>)
    ensures
        run(Some(text), audio_events(audio)) == (SynthesisRun {
            valid: true,
            current: Some(text),
            audio: audio,
            calls: Seq::empty(),
        }),
    decreases audio.len(),
{
    if audio.len() == 0 {
        assert(audio_events(audio) =~= Seq::empty());
        assert(audio =~= Seq::empty());
    } else {
        lemma_run_audio(text, audio.drop_last());
        let evs = audio_events(audio);
        assert(evs.drop_last() =~= audio_events(audio.drop_last()));
        assert(evs.last() == SynthesisEventView::Audio(audio.last()));
        assert(audio.drop_last() + seq![audio.last()] =~= audio);
        assert(Seq::<Seq<char>>::empty() + Seq::<Seq<char>>::empty() =~= Seq::<Seq<char>>::empty());
        let r = run(Some(text), evs);
        assert(r.audio == audio);
        assert(r.calls == Seq::<Seq<char>>::empty());
    }
}

/// A single event is one step of the worker.
pub proof fn lemma_run_single(current: Option<Seq<char>>, e: SynthesisEventView)
    ensures
        run(current, seq![e]) == (SynthesisRun {
            valid: accepts(current, e),
            current: next_current(current, e),
            audio: audio_sent(e),
            calls: calls_opened(e),
        }),
{
    assert(seq![e].drop_last() =~= Seq::<SynthesisEventView>::empty());
    assert(seq![e].last() == e);
    assert(run(current, seq![e].drop_last()) == run(current, Seq::<SynthesisEventView>::empty()));
    assert(Seq::<Seq<u8>>::empty() + audio_sent(e) =~= audio_sent(e));
    assert(Seq::<Seq<char>>::empty() + calls_opened(e) =~= calls_opened(e));
}

/// One job, from an idle worker: one call opened for its text, all its audio
/// sent, and the worker idle again, whether the call completed or failed.
pub proof fn lemma_run_job(j: SynthesisJob)
    ensures
        run(None, job_events(j)) == (SynthesisRun {
            valid: true,
            current: None,
            audio: j.audio,
            calls: seq![j.text],
        }),
{
    let start = SynthesisEventView::Chunk(j.text);
    let end = if j.completed {
        SynthesisEventView::Finished
    } else {
        SynthesisEventView::Failed
    };
    let middle = audio_events(j.audio);
    lemma_run_append(None, seq![start] + middle, seq![end]);
    lemma_run_append(None, seq![start], middle);
    lemma_run_single(None, start);
    lemma_run_audio(j.text, j.audio);
    lemma_run_single(Some(j.text), end);
    assert(seq![j.text] + Seq::<Seq<char>>::empty() + Seq::<Seq<char>>::empty() =~= seq![
        j.text,
    ]);
    assert(Seq::<Seq<u8>>::empty() + j.audio + Seq::<Seq<u8>>::empty() =~= j.audio);
}

/// Ordering and failure isolation: whatever the chunks and whatever each
/// call delivered, completed or failed, an idle worker fed the jobs one after
/// the other opens one call per chunk in queue order, sends the client all of
/// the first job's audio, then all of the second's, and so on, and ends idle.
pub proof fn lemma_audio_in_chunk_order(jobs: Seq<SynthesisJob>)
    ensures
        run(None, jobs_events(jobs)) == (SynthesisRun {
            valid: true,
            current: None,
            audio: jobs_audio(jobs),
            calls: jobs.map_values(|j: SynthesisJob| j.text),
        }),
    decreases jobs.len(),
{
    if jobs.len() == 0 {
        assert(jobs.map_values(|j: SynthesisJob| j.text) =~= Seq::empty());
    } else {
        let init = jobs.drop_last();
        lemma_audio_in_chunk_order(init);
        lemma_run_append(None, jobs_events(init), job_events(jobs.last()));
        lemma_run_job(jobs.last());
        assert(jobs.map_values(|j: SynthesisJob| j.text) =~= init.map_values(
            |j: SynthesisJob| j.text,
        ) + seq![jobs.last().text]);
    }
}

/// Failure isolation: when the call for job `k` fails, the worker is idle
/// again right after it, every later job still gets its call, and the audio
/// of all jobs still reaches the client in job order.
pub proof fn lemma_failure_isolation(jobs: Seq<SynthesisJob>, k: int)
    requires
        0 <= k < jobs.len(),
        !jobs[k].completed,
    ensures
        run(None, jobs_events(jobs.take(k + 1))).current is None,
        run(None, jobs_events(jobs)).valid,
        forall|i: int|
            k < i < jobs.len() ==> #[trigger] run(None, jobs_events(jobs)).calls[i] == jobs[i].text,
        run(None, jobs_events(jobs)).audio == jobs_audio(jobs),
{
    lemma_audio_in_chunk_order(jobs);
    lemma_audio_in_chunk_order(jobs.take(k + 1));
}

/// Takes sentence chunks one at a time and relays each one's audio.
pub struct SynthesisWorker {
    voice_id: String,
    current: Option<String>,
}

impl View for SynthesisWorker {
    type V = Option<Seq<char>>;

    /// The chunk whose synthesis call is in flight, if any.
    closed spec fn view(&self) -> Option<Seq<char>> {
        match self.current {
            Some(c) => Some(c@),
            None => None,
        }
    }
}

impl SynthesisWorker {
    pub closed spec fn voice(&self) -> Seq<char> {
        self.voice_id@
    }

    pub fn new(voice_id: &str) -> (r: SynthesisWorker)
        ensures
            r@ is None,
            r.voice() == voice_id@,
    {
        SynthesisWorker { voice_id: String::from_str(voice_id), current: None }
    }

    /// No call is in flight: the next chunk may be taken from the queue.
    pub fn is_idle(&self) -> (r: bool)
        ensures
            r == (self@ is None),
    {
        self.current.is_none()
    }

    /// Handles one event. A chunk reports progress and opens its synthesis
    /// call; audio goes to the client verbatim; the end of the call, or its
    /// failure, is reported and frees the worker for the next chunk.
    pub fn step(&mut self, ev: SynthesisEvent) -> (r: SynthesisStep)
        requires
            accepts(old(self)@, ev@),
        ensures
            final(self)@ == next_current(old(self)@, ev@),
            final(self).voice() == old(self).voice(),
            audio_of(seq![r.message]) == audio_sent(ev@),
            request_texts(r.request) == calls_opened(ev@),
            r.request is Some <==> ev is Chunk,
            match ev {
                SynthesisEvent::Chunk(c) => {
                    &&& is_telemetry(r.message, "tts"@, "processing"@, c@)
                    &&& r.request->0.text@ == c@
                    &&& r.request->0.voice_id@ == old(self).voice()
                    &&& r.request->0.preferred_provider@ == "auto"@
                },
                SynthesisEvent::Audio(b) => r.message is Audio && r.message->Audio_bytes@ == b@,
                SynthesisEvent::Finished => is_telemetry(
                    r.message,
                    "tts"@,
                    "complete"@,
                    "Audio stream finished"@,
                ),
                SynthesisEvent::Failed(d) => is_telemetry(r.message, "tts"@, "error"@, d@),
            },
    {
        match ev {
            SynthesisEvent::Chunk(c) => {
                let message = OutboundMessage::telemetry("tts", "processing", c.as_str());
                proof {
                    lemma_audio_of_single(message);
                }
                let request = SynthesisRequest {
                    text: c.clone(),
                    voice_id: self.voice_id.clone(),
                    preferred_provider: String::from_str("auto"),
                };
                self.current = Some(c);
                SynthesisStep { message, request: Some(request) }
            },
            SynthesisEvent::Audio(b) => {
                let message = OutboundMessage::audio(b);
                proof {
                    lemma_audio_of_single(message);
                }
                SynthesisStep { message, request: None }
            },
            SynthesisEvent::Finished => {
                let message = OutboundMessage::telemetry(
                    "tts",
                    "complete",
                    "Audio stream finished",
                );
                proof {
                    lemma_audio_of_single(message);
                }
                self.current = None;
                SynthesisStep { message, request: None }
            },
            SynthesisEvent::Failed(d) => {
                let message = OutboundMessage::telemetry("tts", "error", d.as_str());
                proof {
                    lemma_audio_of_single(message);
                }
                self.current = None;
                SynthesisStep { message, request: None }
            },
        }
    }
}

} // verus!
