use vstd::prelude::*;
use crate::error::Error;
use crate::events::DictionaryHandlerEvent;

verus! {

/// Threshold that the partitioner starts with.
pub const DEFAULT_THRESHOLD: usize = 5;

/// Maximum segmentation depth that the partitioner starts with.
pub const DEFAULT_DEPTH: usize = 4;

/// The abstract state of the resynthesis actor.
pub struct ResynthModel<F, T> {
    /// Similarity cutoff for the next refresh.
    pub threshold: usize,
    /// Maximum segmentation recursion for the next refresh.
    pub depth: usize,
    /// The attached capture feed, if any.
    pub feed: Option<F>,
    /// The feed revoked when its stream was paused, kept for the resume.
    pub parked: Option<F>,
    /// Every sample captured so far, in order of arrival.
    pub live: Seq<T>,
    /// Samples of the last successful synthesis, if any.
    pub synthesized: Option<Seq<T>>,
    /// Set once `Quit` has been applied.
    pub terminated: bool,
}

/// What the actor's run loop does after a command has been handled.
#[derive(Debug, Clone, Copy, PartialEq, Eq, Structural)]
pub enum ResynthAction {
    /// Nothing more: go on with the next iteration.
    Continue,
    /// Re-segment the live sound (`live`, which holds every sample captured
    /// up to the command) with these parameters, rebuild the
    /// dictionary and the target sequence, and report the outcome through
    /// `complete_refresh`.
    Partition { threshold: usize, depth: usize },
    /// This many samples were handed over for playback.
    Played(usize),
    /// Leave the run loop.
    Exit,
    /// The actor had already quit; the command was not applied.
    Ignored,
}

/// Something that changes the resynthesis actor: a command, or the outcome of
/// the analysis that a `Partition` action asked for (`None` when the
/// partition held no split point, else the synthesized samples).
pub enum ResynthEvent<F, T> {
    Command(DictionaryHandlerEvent<F>),
    Refreshed(Option<Seq<T>>),
}

/// The state of a freshly started actor.
pub open spec fn initial_model<F, T>() -> ResynthModel<F, T> {
    ResynthModel {
        threshold: DEFAULT_THRESHOLD,
        depth: DEFAULT_DEPTH,
        feed: None,
        parked: None,
        live: Seq::empty(),
        synthesized: None,
        terminated: false,
    }
}

/// The state after `samples`, drained from the capture feed, were added to the
/// live sound.
pub open spec fn captured<F, T>(m: ResynthModel<F, T>, samples: Seq<T>) -> ResynthModel<F, T> {
    if m.terminated {
        m
    } else {
        ResynthModel { live: m.live + samples, ..m }
    }
}

/// Number of samples that a `Play` hands over for playback in state `m`.
pub open spec fn playable_len<F, T>(m: ResynthModel<F, T>) -> usize {
    match m.synthesized {
        Some(s) => s.len() as usize,
        None => 0,
    }
}

/// The samples that command `c` hands over for playback in state `m`: for a
/// `Play`, those of the last synthesis, in order, and none when there is no
/// synthesis yet; none for any other command, and none once the actor has quit.
pub open spec fn played_samples<F, T>(m: ResynthModel<F, T>, c: DictionaryHandlerEvent<F>) -> Seq<T> {
    if !m.terminated && c is Play {
        match m.synthesized {
            Some(s) => s,
            None => Seq::empty(),
        }
    } else {
        Seq::empty()
    }
}

/// The action that command `c` yields in state `m`.
pub open spec fn command_action<F, T>(m: ResynthModel<F, T>, c: DictionaryHandlerEvent<F>) -> ResynthAction {
    if m.terminated {
        ResynthAction::Ignored
    } else {
        match c {
            DictionaryHandlerEvent::Refresh => ResynthAction::Partition { threshold: m.threshold, depth: m.depth },
            DictionaryHandlerEvent::Play => ResynthAction::Played(playable_len(m)),
            DictionaryHandlerEvent::Quit => ResynthAction::Exit,
            _ => ResynthAction::Continue,
        }
    }
}

/// The state after command `c` in state `m`.
pub open spec fn command_next<F, T>(m: ResynthModel<F, T>, c: DictionaryHandlerEvent<F>) -> ResynthModel<F, T> {
    if m.terminated {
        m
    } else {
        match c {
            DictionaryHandlerEvent::SetThreshold(n) => ResynthModel { threshold: n, ..m },
            DictionaryHandlerEvent::SetDepth(n) => ResynthModel { depth: n, ..m },
            DictionaryHandlerEvent::InputBuffer(Some(f)) => ResynthModel { feed: Some(f), parked: None, ..m },
            DictionaryHandlerEvent::InputBuffer(None) => ResynthModel {
                feed: None,
                parked: match m.feed {
                    Some(f) => Some(f),
                    None => m.parked,
                },
                ..m
            },
            DictionaryHandlerEvent::RestoreInput => match m.parked {
                Some(f) => ResynthModel { feed: Some(f), parked: None, ..m },
                None => m,
            },
            DictionaryHandlerEvent::Quit => ResynthModel { terminated: true, ..m },
            _ => m,
        }
    }
}

/// The state after a refresh in state `m` came out as `outcome`: a new
/// synthesis replaces the old one, an empty partition keeps it.
pub open spec fn refresh_next<F, T>(m: ResynthModel<F, T>, outcome: Option<Seq<T>>) -> ResynthModel<F, T> {
    match outcome {
        Some(s) if !m.terminated => ResynthModel { synthesized: Some(s), ..m },
        _ => m,
    }
}

/// The state after event `e` in state `m`.
pub open spec fn event_next<F, T>(m: ResynthModel<F, T>, e: ResynthEvent<F, T>) -> ResynthModel<F, T> {
    match e {
        ResynthEvent::Command(c) => command_next(m, c),
        ResynthEvent::Refreshed(o) => refresh_next(m, o),
    }
}

/// The state after the events `es`, in order, starting in state `m`.
pub open spec fn run<F, T>(m: ResynthModel<F, T>, es: Seq<ResynthEvent<F, T>>) -> ResynthModel<F, T>
    decreases es.len(),
{
    if es.len() == 0 {
        m
    } else {
        event_next(run(m, es.drop_last()), es.last())
    }
}

/// Appends every element of `samples`, in order, to `out`.
fn append_all<T: Copy>(out: &mut Vec<T>, samples: &Vec<T>) -> (n: usize)
    ensures
        final(out)@ == old(out)@ + samples@,
        n == samples@.len(),
{
    let mut i: usize = 0;
    while i < samples.len()
        invariant
            i <= samples@.len(),
            out@ == old(out)@ + samples@.subrange(0, i as int),
        decreases samples@.len() - i,
    {
        out.push(samples[i]);
        i = i + 1;
        assert(out@ =~= old(out)@ + samples@.subrange(0, i as int));
    }
    assert(samples@.subrange(0, i as int) =~= samples@);
    i
}

/// The state of the resynthesis actor: partitioner parameters, capture feed
/// and last synthesis. `F` is the capture feed, `T` a playback sample.
pub struct Resynthesizer<F, T> {
    threshold: usize,
    depth: usize,
    feed: Option<F>,
    parked: Option<F>,
    live: Vec<T>,
    synthesized: Option<Vec<T>>,
    terminated: bool,
}

impl<F, T> View for Resynthesizer<F, T> {
    type V = ResynthModel<F, T>;

    closed spec fn view(&self) -> ResynthModel<F, T> {
        ResynthModel {
            threshold: self.threshold,
            depth: self.depth,
            feed: self.feed,
            parked: self.parked,
            live: self.live@,
            synthesized: match self.synthesized {
                Some(v) => Some(v@),
                None => None,
            },
            terminated: self.terminated,
        }
    }
}

impl<F, T: Copy> Resynthesizer<F, T> {
    /// A started actor: default parameters, no feed, nothing synthesized.
    pub fn new() -> (r: Self)
        ensures
            r@ == initial_model::<F, T>(),
    {
        Resynthesizer {
            threshold: DEFAULT_THRESHOLD,
            depth: DEFAULT_DEPTH,
            feed: None,
            parked: None,
            live: Vec::new(),
            synthesized: None,
            terminated: false,
        }
    }

    /// Adds `samples`, just drained from the capture feed, to the live sound.
    pub fn capture(&mut self, samples: &Vec<T>)
        ensures
            final(self)@ == captured(old(self)@, samples@),
    {
        if !self.terminated {
            append_all(&mut self.live, samples);
        }
    }

    /// One turn of the actor's loop that has a command: the samples drained
    /// from the capture feed come first, so the command, a refresh in
    /// particular, sees all audio captured up to it; then the command is
    /// handled as `handle` does.
    pub fn step(&mut self, drained: &Vec<T>, cmd: DictionaryHandlerEvent<F>, out: &mut Vec<T>) -> (r: ResynthAction)
        ensures
            final(self)@ == command_next(captured(old(self)@, drained@), cmd),
            r == command_action(captured(old(self)@, drained@), cmd),
            final(out)@ == old(out)@ + played_samples(captured(old(self)@, drained@), cmd),
    {
        self.capture(drained);
        self.handle(cmd, out)
    }

    /// Applies one command. A `Play` appends every sample of the last
    /// synthesis, in order, to `out`, which the caller then puts on the
    /// playback queue; with no synthesis yet it appends nothing. No other
    /// command touches `out`. Once `Quit` has been applied no later command
    /// changes anything.
    pub fn handle(&mut self, cmd: DictionaryHandlerEvent<F>, out: &mut Vec<T>) -> (r: ResynthAction)
        ensures
            final(self)@ == command_next(old(self)@, cmd),
            r == command_action(old(self)@, cmd),
            final(out)@ == old(out)@ + played_samples(old(self)@, cmd),
    {
        if self.terminated {
            assert(old(out)@ + Seq::<T>::empty() =~= old(out)@);
            return ResynthAction::Ignored;
        }
        assert(old(out)@ + Seq::<T>::empty() =~= old(out)@);
        match cmd {
            DictionaryHandlerEvent::Refresh => ResynthAction::Partition { threshold: self.threshold, depth: self.depth },
            DictionaryHandlerEvent::Play => {
                let n = match &self.synthesized {
                    Some(samples) => append_all(out, samples),
                    None => 0,
                };
                ResynthAction::Played(n)
            },
            DictionaryHandlerEvent::SetThreshold(n) => {
                self.threshold = n;
                ResynthAction::Continue
            },
            DictionaryHandlerEvent::SetDepth(n) => {
                self.depth = n;
                ResynthAction::Continue
            },
            DictionaryHandlerEvent::InputBuffer(Some(f)) => {
                self.feed = Some(f);
                self.parked = None;
                ResynthAction::Continue
            },
            DictionaryHandlerEvent::InputBuffer(None) => {
                match self.feed.take() {
                    Some(f) => self.parked = Some(f),
                    None => {},
                }
                ResynthAction::Continue
            },
            DictionaryHandlerEvent::RestoreInput => {
                match self.parked.take() {
                    Some(f) => self.feed = Some(f),
                    None => {},
                }
                ResynthAction::Continue
            },
            DictionaryHandlerEvent::Quit => {
                self.terminated = true;
                ResynthAction::Exit
            },
        }
    }

    /// Takes the outcome of the analysis that a `Partition` action asked for:
    /// `None` when the partition held no split point, else the samples of the
    /// new synthesis. An empty partition is reported and keeps the previous
    /// synthesis unchanged. Once `Quit` has been applied nothing is stored.
    pub fn complete_refresh(&mut self, outcome: Option<Vec<T>>) -> (r: Result<(), Error>)
        ensures
            final(self)@ == refresh_next(old(self)@, match outcome { Some(v) => Some(v@), None => None }),
            r == (match outcome { Some(_) => Ok(()), None => Err(Error::EmptyPartition) }),
    {
        match outcome {
            Some(samples) => {
                if !self.terminated {
                    self.synthesized = Some(samples);
                }
                Ok(())
            },
            None => Err(Error::EmptyPartition),
        }
    }

    pub fn threshold(&self) -> (r: usize)
        ensures
            r == self@.threshold,
    {
        self.threshold
    }

    pub fn depth(&self) -> (r: usize)
        ensures
            r == self@.depth,
    {
        self.depth
    }

    /// The attached capture feed, if any.
    pub fn feed(&self) -> (r: Option<&F>)
        ensures
            r == (match self@.feed { Some(f) => Some(&f), None => None::<&F> }),
    {
        match &self.feed {
            Some(f) => Some(f),
            None => None,
        }
    }

    /// Every sample captured so far: what a refresh re-segments.
    pub fn live(&self) -> (r: &Vec<T>)
        ensures
            r@ == self@.live,
    {
        &self.live
    }

    /// Samples of the last successful synthesis, if any.
    pub fn synthesized(&self) -> (r: Option<&Vec<T>>)
        ensures
            (match r { Some(v) => self@.synthesized == Some(v@), None => self@.synthesized is None }),
    {
        match &self.synthesized {
            Some(v) => Some(v),
            None => None,
        }
    }

    pub fn is_terminated(&self) -> (r: bool)
        ensures
            r == self@.terminated,
    {
        self.terminated
    }
}

/// `e` is the `Quit` command.
pub open spec fn is_quit<F, T>(e: ResynthEvent<F, T>) -> bool {
    e matches ResynthEvent::Command(DictionaryHandlerEvent::Quit)
}

/// The threshold in force after `es`, starting from `t`: the last one set.
pub open spec fn last_threshold<F, T>(es: Seq<ResynthEvent<F, T>>, t: usize) -> usize
    decreases es.len(),
{
    if es.len() == 0 {
        t
    } else {
        match es.last() {
            ResynthEvent::Command(DictionaryHandlerEvent::SetThreshold(n)) => n,
            _ => last_threshold(es.drop_last(), t),
        }
    }
}

/// The depth in force after `es`, starting from `d`: the last one set.
pub open spec fn last_depth<F, T>(es: Seq<ResynthEvent<F, T>>, d: usize) -> usize
    decreases es.len(),
{
    if es.len() == 0 {
        d
    } else {
        match es.last() {
            ResynthEvent::Command(DictionaryHandlerEvent::SetDepth(n)) => n,
            _ => last_depth(es.drop_last(), d),
        }
    }
}

/// The last successful synthesis among `es`, or `init` when there is none.
pub open spec fn last_synthesis<F, T>(es: Seq<ResynthEvent<F, T>>, init: Option<Seq<T>>) -> Option<Seq<T>>
    decreases es.len(),
{
    if es.len() == 0 {
        init
    } else {
        match es.last() {
            ResynthEvent::Refreshed(Some(s)) => Some(s),
            _ => last_synthesis(es.drop_last(), init),
        }
    }
}

proof fn lemma_run_append<F, T>(m: ResynthModel<F, T>, a: Seq<ResynthEvent<F, T>>, e: ResynthEvent<F, T>)
    ensures
        run(m, a.push(e)) == event_next(run(m, a), e),
{
    assert(a.push(e).drop_last() =~= a);
}

proof fn lemma_terminated_stays<F, T>(m: ResynthModel<F, T>, a: Seq<ResynthEvent<F, T>>, b: Seq<ResynthEvent<F, T>>)
    requires
        run(m, a).terminated,
    ensures
        run(m, a + b) == run(m, a),
    decreases b.len(),
{
    if b.len() == 0 {
        assert(a + b =~= a);
    } else {
        lemma_terminated_stays(m, a, b.drop_last());
        assert((a + b).drop_last() =~= a + b.drop_last());
        assert((a + b).last() == b.last());
    }
}

/// Once `Quit` has been applied, no later event changes the actor's state and
/// every later command is ignored.
pub proof fn lemma_quit_is_terminal<F, T>(
    m: ResynthModel<F, T>,
    before: Seq<ResynthEvent<F, T>>,
    after: Seq<ResynthEvent<F, T>>,
)
    ensures
        run(m, before.push(ResynthEvent::Command(DictionaryHandlerEvent::Quit))).terminated,
        run(m, before.push(ResynthEvent::Command(DictionaryHandlerEvent::Quit)) + after)
            == run(m, before.push(ResynthEvent::Command(DictionaryHandlerEvent::Quit))),
        forall|i: int, c: DictionaryHandlerEvent<F>|
            0 <= i < after.len() && after[i] == ResynthEvent::<F, T>::Command(c) ==> command_action(
                run(m, before.push(ResynthEvent::Command(DictionaryHandlerEvent::Quit)) + after.take(i)),
                c,
            ) == ResynthAction::Ignored,
{
    let q = before.push(ResynthEvent::<F, T>::Command(DictionaryHandlerEvent::Quit));
    lemma_run_append(m, before, ResynthEvent::Command(DictionaryHandlerEvent::Quit));
    lemma_terminated_stays(m, q, after);
    assert forall|i: int, c: DictionaryHandlerEvent<F>|
        0 <= i < after.len() && after[i] == ResynthEvent::<F, T>::Command(c) implies command_action(
            run(m, q + after.take(i)),
            c,
        ) == ResynthAction::Ignored by {
        lemma_terminated_stays(m, q, after.take(i));
    }
}

proof fn lemma_parameters_track_last_set<F, T>(m: ResynthModel<F, T>, es: Seq<ResynthEvent<F, T>>)
    requires
        !m.terminated,
        forall|i: int| 0 <= i < es.len() ==> !is_quit(#[trigger] es[i]),
    ensures
        !run(m, es).terminated,
        run(m, es).threshold == last_threshold(es, m.threshold),
        run(m, es).depth == last_depth(es, m.depth),
    decreases es.len(),
{
    if es.len() > 0 {
        let init = es.drop_last();
        assert forall|i: int| 0 <= i < init.len() implies !is_quit(#[trigger] init[i]) by {
            assert(init[i] == es[i]);
        }
        lemma_parameters_track_last_set(m, init);
        assert(!is_quit(es[es.len() - 1]));
    }
}

/// Threshold and depth changes made between two refreshes apply to the later
/// refresh only: the first refresh partitions with the values in force when it
/// was handled, whatever follows it, and the second with the last values set
/// in between.
pub proof fn lemma_parameters_apply_to_next_refresh<F, T>(
    m: ResynthModel<F, T>,
    before: Seq<ResynthEvent<F, T>>,
    between: Seq<ResynthEvent<F, T>>,
)
    requires
        !run(m, before).terminated,
        forall|i: int| 0 <= i < between.len() ==> !is_quit(#[trigger] between[i]),
    ensures
        command_action(run(m, before), DictionaryHandlerEvent::Refresh) == (ResynthAction::Partition {
            threshold: run(m, before).threshold,
            depth: run(m, before).depth,
        }),
        command_action(
            run(m, before.push(ResynthEvent::Command(DictionaryHandlerEvent::Refresh)) + between),
            DictionaryHandlerEvent::Refresh,
        ) == (ResynthAction::Partition {
            threshold: last_threshold(between, run(m, before).threshold),
            depth: last_depth(between, run(m, before).depth),
        }),
{
    let r = ResynthEvent::<F, T>::Command(DictionaryHandlerEvent::Refresh);
    let s1 = run(m, before);
    lemma_run_append(m, before, r);
    lemma_run_append_all(m, before.push(r), between);
    lemma_parameters_track_last_set(s1, between);
}

proof fn lemma_run_append_all<F, T>(m: ResynthModel<F, T>, a: Seq<ResynthEvent<F, T>>, b: Seq<ResynthEvent<F, T>>)
    ensures
        run(m, a + b) == run(run(m, a), b),
    decreases b.len(),
{
    if b.len() == 0 {
        assert(a + b =~= a);
    } else {
        lemma_run_append_all(m, a, b.drop_last());
        assert((a + b).drop_last() =~= a + b.drop_last());
        assert((a + b).last() == b.last());
    }
}

proof fn lemma_synthesis_tracks_last<F, T>(m: ResynthModel<F, T>, es: Seq<ResynthEvent<F, T>>)
    requires
        !m.terminated,
        forall|i: int| 0 <= i < es.len() ==> !is_quit(#[trigger] es[i]),
    ensures
        !run(m, es).terminated,
        run(m, es).synthesized == last_synthesis(es, m.synthesized),
    decreases es.len(),
{
    if es.len() > 0 {
        let init = es.drop_last();
        assert forall|i: int| 0 <= i < init.len() implies !is_quit(#[trigger] init[i]) by {
            assert(init[i] == es[i]);
        }
        lemma_synthesis_tracks_last(m, init);
        assert(!is_quit(es[es.len() - 1]));
    }
}

/// A `Play` hands over exactly the samples of the last successful synthesis,
/// in order: after any events without `Quit`, those of the last synthesis
/// among them (or of the one held before, if none), and nothing at all when
/// there has been no synthesis. In particular a refresh followed at once by a
/// play hands over the synthesis it produced.
pub proof fn lemma_play_matches_last_synthesis<F, T>(m: ResynthModel<F, T>, es: Seq<ResynthEvent<F, T>>)
    requires
        !m.terminated,
        forall|i: int| 0 <= i < es.len() ==> !is_quit(#[trigger] es[i]),
    ensures
        command_action(run(m, es), DictionaryHandlerEvent::Play) == ResynthAction::Played(
            match last_synthesis(es, m.synthesized) {
                Some(s) => s.len() as usize,
                None => 0,
            },
        ),
        played_samples(run(m, es), DictionaryHandlerEvent::Play) == (match last_synthesis(es, m.synthesized) {
            Some(s) => s,
            None => Seq::empty(),
        }),
        forall|s: Seq<T>|
            #![trigger refresh_next(run(m, es), Some(s))]
            played_samples(refresh_next(run(m, es), Some(s)), DictionaryHandlerEvent::Play) == s
                && command_action(refresh_next(run(m, es), Some(s)), DictionaryHandlerEvent::Play)
                == ResynthAction::Played(s.len() as usize),
{
    lemma_synthesis_tracks_last(m, es);
}

/// A refresh that found no split point leaves the actor as it was: a later
/// play hands over the same samples as before it.
pub proof fn lemma_empty_partition_keeps_synthesis<F, T>(m: ResynthModel<F, T>)
    ensures
        refresh_next(m, None) == m,
        played_samples(refresh_next(m, None), DictionaryHandlerEvent::Play) == played_samples(
            m,
            DictionaryHandlerEvent::Play,
        ),
        command_action(refresh_next(m, None), DictionaryHandlerEvent::Play) == command_action(
            m,
            DictionaryHandlerEvent::Play,
        ),
{
}

/// `e` sets the threshold or the depth.
pub open spec fn is_parameter_change<F, T>(e: ResynthEvent<F, T>) -> bool {
    ||| e matches ResynthEvent::Command(DictionaryHandlerEvent::SetThreshold(_))
    ||| e matches ResynthEvent::Command(DictionaryHandlerEvent::SetDepth(_))
}

/// Threshold and depth changes made after a refresh leave its result alone:
/// the synthesis is kept, and a play hands over the same samples as before
/// the changes.
pub proof fn lemma_parameter_changes_keep_synthesis<F, T>(m: ResynthModel<F, T>, changes: Seq<ResynthEvent<F, T>>)
    requires
        forall|i: int| 0 <= i < changes.len() ==> is_parameter_change(#[trigger] changes[i]),
    ensures
        run(m, changes).synthesized == m.synthesized,
        run(m, changes).terminated == m.terminated,
        played_samples(run(m, changes), DictionaryHandlerEvent::Play) == played_samples(
            m,
            DictionaryHandlerEvent::Play,
        ),
    decreases changes.len(),
{
    if changes.len() > 0 {
        let init = changes.drop_last();
        assert forall|i: int| 0 <= i < init.len() implies is_parameter_change(#[trigger] init[i]) by {
            assert(init[i] == changes[i]);
        }
        lemma_parameter_changes_keep_synthesis(m, init);
        assert(is_parameter_change(changes[changes.len() - 1]));
    }
}

/// Pausing and resuming the stream gives the resynthesis actor back the very
/// feed it had: the feed revoked at the pause is the one restored.
pub proof fn lemma_pause_resume_restores_feed<F, T>(m: ResynthModel<F, T>)
    requires
        !m.terminated,
        m.feed is Some,
    ensures
        command_next(m, DictionaryHandlerEvent::InputBuffer(None)).feed is None,
        command_next(
            command_next(m, DictionaryHandlerEvent::InputBuffer(None)),
            DictionaryHandlerEvent::RestoreInput,
        ).feed == m.feed,
{
}

} // verus!
