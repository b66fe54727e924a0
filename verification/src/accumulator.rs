//! Accumulator / Dispatcher: the recording-gated session buffer.
//!
//! The accumulator consumes two event streams — resampled frames and
//! recording-state changes — and reacts to one event at a time. While
//! recording it appends every arriving frame to the live session buffer; when
//! recording turns off it hands the whole buffer out for transcription (if
//! non-empty) and starts over empty; while idle it discards arriving frames.
//!
//! The state machine is mirrored by spec-level step functions, and the
//! session laws (what exactly a dispatched buffer holds, that ending without
//! beginning dispatches nothing, that a second begin is a no-op) are proved
//! against that model.

use vstd::prelude::*;

verus! {

/// One event the accumulator reacts to: a resampled mono frame arrived, or
/// the recording flag was observed to change.
pub enum AccumulatorEvent<S> {
    Frame(Vec<S>),
    Recording(bool),
}

/// What one step asks the caller to do: hand a finished session buffer to
/// transcription dispatch, or nothing.
pub enum AccumulatorAction<S> {
    Dispatch(Vec<S>),
    NoDispatch,
}

impl<S> AccumulatorAction<S> {
    /// The dispatched samples, if this action dispatches.
    pub open spec fn dispatched(self) -> Option<Seq<S>> {
        match self {
            AccumulatorAction::Dispatch(b) => Some(b@),
            AccumulatorAction::NoDispatch => None,
        }
    }
}

/// Whether the accumulator is recording after reacting to `ev`.
pub open spec fn spec_recording_after<S>(recording: bool, ev: AccumulatorEvent<S>) -> bool {
    match ev {
        AccumulatorEvent::Frame(_) => recording,
        AccumulatorEvent::Recording(v) => v,
    }
}

/// The session buffer after reacting to `ev`: a frame is appended only while
/// recording; a begin keeps the (fresh or live) buffer; an end always leaves
/// the buffer empty.
pub open spec fn spec_buffer_after<S>(
    recording: bool,
    buffer: Seq<S>,
    ev: AccumulatorEvent<S>,
) -> Seq<S> {
    match ev {
        AccumulatorEvent::Frame(f) => if recording {
            buffer + f@
        } else {
            buffer
        },
        AccumulatorEvent::Recording(v) => if v {
            buffer
        } else {
            Seq::empty()
        },
    }
}

/// What reacting to `ev` dispatches: the whole buffer, exactly when recording
/// turns from on to off and the buffer is non-empty.
pub open spec fn spec_dispatch_of<S>(
    recording: bool,
    buffer: Seq<S>,
    ev: AccumulatorEvent<S>,
) -> Option<Seq<S>> {
    match ev {
        AccumulatorEvent::Frame(_) => None,
        AccumulatorEvent::Recording(v) => if recording && !v && buffer.len() > 0 {
            Some(buffer)
        } else {
            None
        },
    }
}

/// The accumulator's state: whether recording is on, and the live session
/// buffer. At most one session buffer is ever live, and while idle it is
/// empty.
pub struct Accumulator<S> {
    recording: bool,
    buffer: Vec<S>,
    capacity_hint: usize,
}

impl<S> Accumulator<S> {
    /// Whether a recording session is live.
    pub closed spec fn recording(self) -> bool {
        self.recording
    }

    /// The samples accumulated in the live session so far.
    pub closed spec fn session(self) -> Seq<S> {
        self.buffer@
    }

    /// While idle there is no accumulated audio.
    pub open spec fn wf(self) -> bool {
        !self.recording() ==> self.session().len() == 0
    }

    /// A fresh accumulator: idle, nothing buffered. `capacity_hint` pre-sizes
    /// each session buffer (a hint for the configured maximum recording
    /// duration, not a limit).
    pub fn new(capacity_hint: usize) -> (r: Accumulator<S>)
        ensures
            r.wf(),
            !r.recording(),
            r.session() == Seq::<S>::empty(),
    {
        Accumulator { recording: false, buffer: Vec::new(), capacity_hint }
    }

    /// Reacts to one event, exactly as the spec-level step functions say:
    /// frames are appended while recording and discarded while idle; a begin
    /// while idle opens a fresh session and a begin while recording is a
    /// no-op; an end while recording dispatches the non-empty buffer (or
    /// discards an empty one) and an end while idle is a no-op.
    pub fn step(&mut self, event: AccumulatorEvent<S>) -> (act: AccumulatorAction<S>)
        requires
            old(self).wf(),
        ensures
            final(self).wf(),
            final(self).recording() == spec_recording_after(old(self).recording(), event),
            final(self).session() == spec_buffer_after(
                old(self).recording(),
                old(self).session(),
                event,
            ),
            act.dispatched() == spec_dispatch_of(old(self).recording(), old(self).session(), event),
    {
        match event {
            AccumulatorEvent::Frame(mut frame) => {
                if self.recording {
                    self.buffer.append(&mut frame);
                }
                AccumulatorAction::NoDispatch
            },
            AccumulatorEvent::Recording(v) => {
                if v {
                    if !self.recording {
                        self.recording = true;
                        self.buffer = Vec::with_capacity(self.capacity_hint);
                    }
                    AccumulatorAction::NoDispatch
                } else {
                    if self.recording {
                        self.recording = false;
                        if self.buffer.len() > 0 {
                            let mut out: Vec<S> = Vec::new();
                            core::mem::swap(&mut self.buffer, &mut out);
                            AccumulatorAction::Dispatch(out)
                        } else {
                            AccumulatorAction::NoDispatch
                        }
                    } else {
                        AccumulatorAction::NoDispatch
                    }
                }
            },
        }
    }
}

/// Runs the spec-level state machine over a whole event sequence, from the
/// given state. Returns the final recording state, the final buffer, and
/// every dispatched buffer in order.
pub open spec fn spec_run<S>(
    recording: bool,
    buffer: Seq<S>,
    events: Seq<AccumulatorEvent<S>>,
) -> (bool, Seq<S>, Seq<Seq<S>>)
    decreases events.len(),
{
    if events.len() == 0 {
        (recording, buffer, Seq::empty())
    } else {
        let ev = events[0];
        let rest = spec_run(
            spec_recording_after(recording, ev),
            spec_buffer_after(recording, buffer, ev),
            events.drop_first(),
        );
        let here = match spec_dispatch_of(recording, buffer, ev) {
            Some(b) => seq![b],
            None => Seq::empty(),
        };
        (rest.0, rest.1, here + rest.2)
    }
}

/// The audio carried by the frame events of `events`, in arrival order.
pub open spec fn frames_content<S>(events: Seq<AccumulatorEvent<S>>) -> Seq<S>
    decreases events.len(),
{
    if events.len() == 0 {
        Seq::empty()
    } else {
        (match events[0] {
            AccumulatorEvent::Frame(f) => f@,
            AccumulatorEvent::Recording(_) => Seq::<S>::empty(),
        }) + frames_content(events.drop_first())
    }
}

/// No event in the sequence turns recording on.
pub open spec fn no_begin<S>(events: Seq<AccumulatorEvent<S>>) -> bool {
    forall|i: int|
        0 <= i < events.len() ==> !(#[trigger] events[i] matches AccumulatorEvent::Recording(true))
}

/// No event in the sequence turns recording off.
pub open spec fn no_stop<S>(events: Seq<AccumulatorEvent<S>>) -> bool {
    forall|i: int|
        0 <= i < events.len() ==> !(#[trigger] events[i] matches AccumulatorEvent::Recording(
            false,
        ))
}

/// Running a concatenation of event sequences is running one after the
/// other, with the dispatches concatenated in order.
pub proof fn lemma_run_append<S>(
    recording: bool,
    buffer: Seq<S>,
    a: Seq<AccumulatorEvent<S>>,
    b: Seq<AccumulatorEvent<S>>,
)
    ensures
        ({
            let ra = spec_run(recording, buffer, a);
            let rb = spec_run(ra.0, ra.1, b);
            spec_run(recording, buffer, a + b) == (rb.0, rb.1, ra.2 + rb.2)
        }),
    decreases a.len(),
{
    let ra = spec_run(recording, buffer, a);
    let rb = spec_run(ra.0, ra.1, b);
    if a.len() == 0 {
        assert(a + b =~= b);
        assert(ra.2 + rb.2 =~= rb.2);
    } else {
        let ev = a[0];
        let rec1 = spec_recording_after(recording, ev);
        let buf1 = spec_buffer_after(recording, buffer, ev);
        lemma_run_append(rec1, buf1, a.drop_first(), b);
        assert((a + b).drop_first() =~= a.drop_first() + b);
        assert((a + b)[0] == ev);
        let here = match spec_dispatch_of(recording, buffer, ev) {
            Some(d) => seq![d],
            None => Seq::<Seq<S>>::empty(),
        };
        let ra1 = spec_run(rec1, buf1, a.drop_first());
        assert(ra.2 =~= here + ra1.2);
        assert(here + (ra1.2 + rb.2) =~= (here + ra1.2) + rb.2);
    }
}

/// Law: while recording, a stretch of events in which recording is never
/// turned off dispatches nothing, keeps recording on, and grows the session
/// buffer by exactly the audio of its frames, in order. Repeated begins in
/// the stretch change nothing.
pub proof fn lemma_recording_collects<S>(buffer: Seq<S>, events: Seq<AccumulatorEvent<S>>)
    requires
        no_stop(events),
    ensures
        spec_run(true, buffer, events) == (
            true,
            buffer + frames_content(events),
            Seq::<Seq<S>>::empty(),
        ),
    decreases events.len(),
{
    if events.len() == 0 {
        assert(buffer + frames_content(events) =~= buffer);
    } else {
        let ev = events[0];
        assert(!(ev matches AccumulatorEvent::Recording(false)));
        let buf1 = spec_buffer_after(true, buffer, ev);
        assert(no_stop(events.drop_first())) by {
            assert(forall|i: int|
                0 <= i < events.drop_first().len() ==> events.drop_first()[i] == events[i + 1]);
        }
        lemma_recording_collects(buf1, events.drop_first());
        assert(buf1 + frames_content(events.drop_first()) =~= buffer + frames_content(events));
        assert(Seq::<Seq<S>>::empty() + Seq::<Seq<S>>::empty() =~= Seq::<Seq<S>>::empty());
    }
}

/// Law: starting idle with an empty buffer, a stretch of events in which
/// recording is never turned on — frames arriving, or repeated ends —
/// dispatches nothing and leaves the accumulator idle and empty. In
/// particular, calling end without ever having called begin is a no-op.
pub proof fn lemma_idle_discards<S>(events: Seq<AccumulatorEvent<S>>)
    requires
        no_begin(events),
    ensures
        spec_run(false, Seq::<S>::empty(), events) == (
            false,
            Seq::<S>::empty(),
            Seq::<Seq<S>>::empty(),
        ),
    decreases events.len(),
{
    if events.len() == 0 {
    } else {
        let ev = events[0];
        assert(!(ev matches AccumulatorEvent::Recording(true)));
        assert(spec_recording_after(false, ev) == false);
        assert(spec_buffer_after(false, Seq::<S>::empty(), ev) =~= Seq::<S>::empty());
        assert(no_begin(events.drop_first())) by {
            assert(forall|i: int|
                0 <= i < events.drop_first().len() ==> events.drop_first()[i] == events[i + 1]);
        }
        lemma_idle_discards::<S>(events.drop_first());
        assert(Seq::<Seq<S>>::empty() + Seq::<Seq<S>>::empty() =~= Seq::<Seq<S>>::empty());
    }
}

/// Law: a second begin without an intervening end does not corrupt state —
/// it changes nothing at all: recording stays on, the live session buffer is
/// untouched, and nothing is dispatched.
pub proof fn lemma_second_begin_is_noop<S>(buffer: Seq<S>, ev: AccumulatorEvent<S>)
    requires
        ev matches AccumulatorEvent::Recording(true),
    ensures
        spec_recording_after(true, ev) == true,
        spec_buffer_after(true, buffer, ev) == buffer,
        spec_dispatch_of(true, buffer, ev) is None,
{
}

/// Law: one whole session, from any idle point. Running a begin, then any
/// stretch of frames (and possibly repeated begins), then an end, dispatches
/// exactly one buffer holding exactly the audio of the frames inside the
/// session — when any arrived — and nothing when none did; afterwards the
/// accumulator is idle and empty again. Audio from before the begin or after
/// the end never leaks into the dispatched session.
pub proof fn lemma_session_dispatch_exact<S>(mid: Seq<AccumulatorEvent<S>>)
    requires
        no_stop(mid),
    ensures
        ({
            let events = seq![AccumulatorEvent::<S>::Recording(true)] + mid + seq![
                AccumulatorEvent::<S>::Recording(false),
            ];
            let r = spec_run(false, Seq::<S>::empty(), events);
            &&& r.0 == false
            &&& r.1 == Seq::<S>::empty()
            &&& r.2 == if frames_content(mid).len() == 0 {
                Seq::<Seq<S>>::empty()
            } else {
                seq![frames_content(mid)]
            }
        }),
{
    reveal_with_fuel(spec_run, 2);
    let begin = seq![AccumulatorEvent::<S>::Recording(true)];
    let end = seq![AccumulatorEvent::<S>::Recording(false)];
    let events = begin + mid + end;
    let content = frames_content(mid);

    let r_begin = spec_run(false, Seq::<S>::empty(), begin);
    assert(begin.drop_first() =~= Seq::<AccumulatorEvent<S>>::empty());
    assert(r_begin.0 == true);
    assert(r_begin.1 =~= Seq::<S>::empty());
    assert(r_begin.2 =~= Seq::<Seq<S>>::empty());

    lemma_recording_collects(Seq::<S>::empty(), mid);
    let r_mid = spec_run(true, Seq::<S>::empty(), mid);
    assert(r_mid.0 == true);
    assert(r_mid.1 =~= content);
    assert(r_mid.2 =~= Seq::<Seq<S>>::empty());

    let r_end = spec_run(true, content, end);
    assert(end.drop_first() =~= Seq::<AccumulatorEvent<S>>::empty());
    assert(r_end.0 == false);
    assert(r_end.1 =~= Seq::<S>::empty());
    assert(r_end.2 =~= if content.len() == 0 {
        Seq::<Seq<S>>::empty()
    } else {
        seq![content]
    });

    lemma_run_append(false, Seq::<S>::empty(), begin, mid + end);
    lemma_run_append(true, Seq::<S>::empty(), mid, end);
    assert(begin + (mid + end) =~= events);
    let r = spec_run(false, Seq::<S>::empty(), events);
    let r_rest = spec_run(true, Seq::<S>::empty(), mid + end);
    assert(r_rest.0 == r_end.0 && r_rest.1 == r_end.1);
    assert(r_rest.2 =~= r_mid.2 + r_end.2);
    assert(r.0 == r_rest.0 && r.1 == r_rest.1);
    assert(r.2 =~= r_begin.2 + r_rest.2);
    assert(r.2 =~= r_end.2);
    assert(r.1 == Seq::<S>::empty());
    assert(r.2 == if content.len() == 0 {
        Seq::<Seq<S>>::empty()
    } else {
        seq![content]
    });
}

} // verus!
