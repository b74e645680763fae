//! The decisions of a run: the order in which the equipment is found,
//! connected, fed and let go, and what the loop that takes scores does with
//! each of them.
//!
//! Waiting on channels and on the device belongs to the caller. It asks
//! [`Run`] what to do next and reports how it went, and for each score it
//! receives it asks [`ControlLoop::on_sample`] what to do.

use crate::analysis::{
    lemma_normalised_bounds, lemma_normalised_monotonic, normalised, AnalyzerType,
};
use crate::level::{
    freq_score_to_level, is_level_change, last_sent, lemma_rising_track, level_for, levels_of,
    non_decreasing, writes, LevelFilter,
};
use crate::score::{Score, SCORE_ONE};
use vstd::prelude::*;

verus! {

/// Why the loop ends.
#[derive(Clone, Copy, Debug, PartialEq, Eq, Structural)]
pub enum LoopExit {
    /// The shutdown token has fired.
    Shutdown,
    /// The producer has run out of tracks.
    Stopped,
}

/// What the loop does with one score.
#[derive(Clone, Copy, Debug, PartialEq, Eq, Structural)]
pub enum Tick {
    /// Leave the loop; nothing more is written but the teardown.
    Exit(LoopExit),
    /// Go on with this level; write it to the device if `send` says so.
    Level { level: i16, send: bool },
}

/// What the loop knows between two scores.
pub struct ControlLoopView {
    pub max_level: i16,
    /// The level sent last; 0 before the first.
    pub prev_sent: int,
}

/// The decisions of the consumer loop.
#[derive(Clone, Copy, Debug, PartialEq, Eq, Structural)]
pub struct ControlLoop {
    max_level: i16,
    filter: LevelFilter,
}

impl View for ControlLoop {
    type V = ControlLoopView;

    closed spec fn view(&self) -> ControlLoopView {
        ControlLoopView { max_level: self.max_level, prev_sent: self.filter@ }
    }
}

/// The scores of a list, in millionths.
pub open spec fn millionths_of(scores: Seq<Score>) -> Seq<int> {
    scores.map_values(|score: Score| score@)
}

/// The levels of a list, as numbers.
pub open spec fn numbers_of(levels: Seq<i16>) -> Seq<int> {
    levels.map_values(|level: i16| level as int)
}

impl ControlLoop {
    /// A loop for a device that takes levels up to `max_level`, with
    /// nothing sent yet.
    pub fn new(max_level: i16) -> (control: ControlLoop)
        ensures
            control@.max_level == max_level,
            control@.prev_sent == 0,
    {
        ControlLoop { max_level, filter: LevelFilter::new() }
    }

    /// The level sent last; 0 before the first.
    pub fn prev_sent(&self) -> (level: i16)
        ensures
            level == self@.prev_sent,
    {
        self.filter.prev_sent()
    }

    /// Decides what to do with one score. The shutdown token is looked at
    /// first, then the stop signal; either ends the loop and leaves the
    /// score unused. Otherwise the score becomes a level, and the level is
    /// sent if it is more than one away from the level sent last.
    pub fn on_sample(&mut self, score: Score, shutdown: bool, stop: bool) -> (tick: Tick)
        ensures
            final(self)@.max_level == old(self)@.max_level,
            if shutdown {
                &&& tick == Tick::Exit(LoopExit::Shutdown)
                &&& final(self)@ == old(self)@
            } else if stop {
                &&& tick == Tick::Exit(LoopExit::Stopped)
                &&& final(self)@ == old(self)@
            } else {
                &&& tick matches Tick::Level { level, send }
                &&& level == level_for(old(self)@.max_level as int, score@)
                &&& send == is_level_change(old(self)@.prev_sent, level as int)
                &&& final(self)@.prev_sent == if send {
                    level as int
                } else {
                    old(self)@.prev_sent
                }
            },
    {
        if shutdown {
            return Tick::Exit(LoopExit::Shutdown);
        }
        if stop {
            return Tick::Exit(LoopExit::Stopped);
        }
        let level = freq_score_to_level(self.max_level, score);
        let send = self.filter.offer(level);
        Tick::Level { level, send }
    }

    /// Takes the scores of a whole track, in order, and lists the levels
    /// that are to be written to the device.
    pub fn feed(&mut self, scores: &Vec<Score>) -> (sent: Vec<i16>)
        ensures
            final(self)@.max_level == old(self)@.max_level,
            numbers_of(sent@) == writes(
                old(self)@.prev_sent,
                levels_of(old(self)@.max_level as int, millionths_of(scores@)),
            ),
            final(self)@.prev_sent == last_sent(
                old(self)@.prev_sent,
                levels_of(old(self)@.max_level as int, millionths_of(scores@)),
            ),
    {
        let ghost start = self@.prev_sent;
        let ghost max = self@.max_level as int;
        let ghost all = levels_of(max, millionths_of(scores@));
        let mut sent: Vec<i16> = Vec::new();
        let mut at: usize = 0;
        while at < scores.len()
            invariant
                at <= scores@.len(),
                self@.max_level == max,
                all == levels_of(max, millionths_of(scores@)),
                numbers_of(sent@) == writes(start, all.subrange(0, at as int)),
                self@.prev_sent == last_sent(start, all.subrange(0, at as int)),
            decreases scores@.len() - at,
        {
            let ghost seen = all.subrange(0, at as int);
            let ghost next = all.subrange(0, at + 1);
            let ghost before = sent@;
            assert(next.drop_last() == seen);
            assert(next.last() == level_for(max, scores@[at as int]@));
            match self.on_sample(scores[at], false, false) {
                Tick::Level { level, send } => {
                    if send {
                        sent.push(level);
                        assert(numbers_of(sent@) =~= numbers_of(before).push(level as int));
                    }
                },
                Tick::Exit(_) => {},
            }
            at += 1;
        }
        assert(all.subrange(0, at as int) == all);
        sent
    }
}

/// The scores, in millionths, that an analyzer of the given strategy and
/// scale gives for a list of readings, one by one.
pub open spec fn scores_of(kind: AnalyzerType, scale: int, readings: Seq<int>) -> Seq<int> {
    Seq::new(readings.len(), |i: int| normalised(kind, scale, readings[i]))
}

/// From readings to writes, for a track that only gets louder: when no
/// reading is lower than one before it, no level is lower than one before
/// it, and a loop that has sent nothing yet writes at most `max - 1`
/// levels, each higher than the one before.
pub proof fn lemma_rising_readings(kind: AnalyzerType, scale: int, max: int, readings: Seq<int>)
    requires
        1 <= max,
        0 <= scale,
        forall|i: int, j: int| 0 <= i <= j < readings.len() ==> readings[i] <= readings[j],
    ensures
        non_decreasing(levels_of(max, scores_of(kind, scale, readings))),
        writes(0, levels_of(max, scores_of(kind, scale, readings))).len() <= max - 1,
        forall|i: int, j: int|
            0 <= i < j < writes(0, levels_of(max, scores_of(kind, scale, readings))).len()
                ==> writes(0, levels_of(max, scores_of(kind, scale, readings)))[i] < writes(
                0,
                levels_of(max, scores_of(kind, scale, readings)),
            )[j],
{
    let scores = scores_of(kind, scale, readings);
    assert forall|i: int| 0 <= i < scores.len() implies 0 <= #[trigger] scores[i] <= SCORE_ONE by {
        lemma_normalised_bounds(kind, scale, readings[i]);
    }
    assert forall|i: int, j: int| 0 <= i <= j < scores.len() implies scores[i] <= scores[j] by {
        lemma_normalised_monotonic(kind, scale, readings[i], readings[j]);
    }
    lemma_rising_track(max, scores);
}

/// What a run is for.
#[derive(Clone, Copy, Debug, PartialEq, Eq, Structural)]
pub enum RunMode {
    /// Connect and show what the equipment reports; no music, no levels.
    Inspect,
    /// Play and show the levels; no equipment.
    LevelsOnly,
    /// Play and drive the equipment.
    Drive,
}

/// The mode that the switches of the command line ask for.
pub open spec fn mode_for(debug: bool, no_discovery: bool) -> RunMode {
    if debug && !no_discovery {
        RunMode::Inspect
    } else if no_discovery {
        RunMode::LevelsOnly
    } else {
        RunMode::Drive
    }
}

/// The mode that the switches of the command line ask for.
pub fn run_mode(debug: bool, no_discovery: bool) -> (mode: RunMode)
    ensures
        mode == mode_for(debug, no_discovery),
{
    if debug && !no_discovery {
        RunMode::Inspect
    } else if no_discovery {
        RunMode::LevelsOnly
    } else {
        RunMode::Drive
    }
}

/// How far a run has come.
#[derive(Clone, Copy, Debug, PartialEq, Eq, Structural)]
pub enum RunStage {
    Starting,
    Discovering,
    Connecting,
    PermittingPlayback,
    Streaming,
    TearingDown,
    Done,
}

/// What the caller does next.
#[derive(Clone, Copy, Debug, PartialEq, Eq, Structural)]
pub enum RunStep {
    /// Scan for the equipment and make the session.
    Discover,
    /// Connect the session.
    Connect,
    /// Tell the producer that it may play.
    PermitPlayback,
    /// Take what arrives until the stream ends.
    Stream,
    /// Tear the session down; a failure of the teardown is passed over.
    Disconnect,
    /// Leave.
    Exit,
}

/// What a run knows.
pub struct RunView {
    pub mode: RunMode,
    pub stage: RunStage,
    /// Whether the session with the equipment exists.
    pub session: bool,
    /// Whether the session became ready.
    pub ready: bool,
    /// Whether the producer was told that it may play.
    pub permitted: bool,
}

impl RunView {
    /// What holds of every run: there is one session at most, and none
    /// without equipment; only a session becomes ready and only a session
    /// is torn down; and the producer is told to play only when there is
    /// no equipment or after the session became ready.
    pub open spec fn well_formed(self) -> bool {
        &&& self.mode is LevelsOnly ==> !self.session
        &&& self.ready ==> self.session
        &&& self.permitted ==> self.mode is LevelsOnly || self.ready
        &&& self.stage is Connecting ==> self.session
        &&& self.stage is TearingDown ==> self.session
        &&& self.stage is PermittingPlayback ==> self.mode is LevelsOnly || (self.mode is Drive
            && self.ready)
        &&& self.stage is Streaming ==> (self.mode is Inspect && self.ready) || self.permitted
    }

    /// The stage after something went wrong, or after the stream ended: a
    /// session is torn down first, a teardown that fails is passed over.
    pub open spec fn wind_down(self) -> RunStage {
        if self.session && !(self.stage is TearingDown) && !(self.stage is Done) {
            RunStage::TearingDown
        } else {
            RunStage::Done
        }
    }

    /// The step that goes with a stage.
    pub open spec fn step_of(stage: RunStage) -> RunStep {
        match stage {
            RunStage::Starting => RunStep::Exit,
            RunStage::Discovering => RunStep::Discover,
            RunStage::Connecting => RunStep::Connect,
            RunStage::PermittingPlayback => RunStep::PermitPlayback,
            RunStage::Streaming => RunStep::Stream,
            RunStage::TearingDown => RunStep::Disconnect,
            RunStage::Done => RunStep::Exit,
        }
    }
}

/// The order of a run. Each method stands for the end of the step handed
/// out before; one that is called out of turn counts as a failure.
#[derive(Clone, Copy, Debug, PartialEq, Eq, Structural)]
pub struct Run {
    mode: RunMode,
    stage: RunStage,
    session: bool,
    ready: bool,
    permitted: bool,
}

impl View for Run {
    type V = RunView;

    closed spec fn view(&self) -> RunView {
        RunView {
            mode: self.mode,
            stage: self.stage,
            session: self.session,
            ready: self.ready,
            permitted: self.permitted,
        }
    }
}

impl Run {
    #[verifier::type_invariant]
    spec fn inv(&self) -> bool {
        self@.well_formed()
    }

    /// A run that has not begun.
    pub fn new(mode: RunMode) -> (run: Run)
        ensures
            run@ == (RunView {
                mode,
                stage: RunStage::Starting,
                session: false,
                ready: false,
                permitted: false,
            }),
            run@.well_formed(),
    {
        Run { mode, stage: RunStage::Starting, session: false, ready: false, permitted: false }
    }

    /// How far the run has come.
    pub fn stage(&self) -> (stage: RunStage)
        ensures
            stage == self@.stage,
    {
        self.stage
    }

    /// What the run is for.
    pub fn mode(&self) -> (mode: RunMode)
        ensures
            mode == self@.mode,
    {
        self.mode
    }

    fn go(&mut self, stage: RunStage) -> (step: RunStep)
        requires
            (RunView { stage, ..old(self)@ }).well_formed(),
        ensures
            final(self)@ == (RunView { stage, ..old(self)@ }),
            step == RunView::step_of(stage),
    {
        self.stage = stage;
        match stage {
            RunStage::Starting => RunStep::Exit,
            RunStage::Discovering => RunStep::Discover,
            RunStage::Connecting => RunStep::Connect,
            RunStage::PermittingPlayback => RunStep::PermitPlayback,
            RunStage::Streaming => RunStep::Stream,
            RunStage::TearingDown => RunStep::Disconnect,
            RunStage::Done => RunStep::Exit,
        }
    }

    /// Something went wrong, or the caller gives up. A session that exists
    /// is torn down before the run ends; a run that is tearing down ends.
    pub fn failed(&mut self) -> (step: RunStep)
        ensures
            final(self)@.well_formed(),
            final(self)@ == (RunView { stage: old(self)@.wind_down(), ..old(self)@ }),
            step == RunView::step_of(old(self)@.wind_down()),
    {
        proof {
            use_type_invariant(&*self);
        }
        let tearing_down = match self.stage {
            RunStage::TearingDown => true,
            RunStage::Done => true,
            _ => false,
        };
        if self.session && !tearing_down {
            self.go(RunStage::TearingDown)
        } else {
            self.go(RunStage::Done)
        }
    }

    /// Begins the run: without equipment the producer may play at once,
    /// else the equipment is looked for.
    pub fn begin(&mut self) -> (step: RunStep)
        ensures
            final(self)@.well_formed(),
            old(self)@.stage is Starting ==> {
                let next = if old(self)@.mode is LevelsOnly {
                    RunStage::PermittingPlayback
                } else {
                    RunStage::Discovering
                };
                final(self)@ == (RunView { stage: next, ..old(self)@ }) && step
                    == RunView::step_of(next)
            },
            !(old(self)@.stage is Starting) ==> final(self)@ == (RunView {
                stage: old(self)@.wind_down(),
                ..old(self)@
            }) && step == RunView::step_of(old(self)@.wind_down()),
    {
        proof {
            use_type_invariant(&*self);
        }
        match (self.stage, self.mode) {
            (RunStage::Starting, RunMode::LevelsOnly) => self.go(RunStage::PermittingPlayback),
            (RunStage::Starting, _) => self.go(RunStage::Discovering),
            _ => self.failed(),
        }
    }

    /// The scan is over. With the equipment found its session exists and
    /// is connected next; without it the run ends.
    pub fn discovered(&mut self, found: bool) -> (step: RunStep)
        ensures
            final(self)@.well_formed(),
            old(self)@.stage is Discovering && found && !(old(self)@.mode is LevelsOnly)
                ==> final(self)@ == (RunView {
                stage: RunStage::Connecting,
                session: true,
                ..old(self)@
            }) && step == RunStep::Connect,
            old(self)@.stage is Discovering && !(found && !(old(self)@.mode is LevelsOnly))
                ==> final(self)@ == (RunView {
                stage: RunStage::Done,
                ..old(self)@
            }) && step == RunStep::Exit,
            !(old(self)@.stage is Discovering) ==> final(self)@ == (RunView {
                stage: old(self)@.wind_down(),
                ..old(self)@
            }) && step == RunView::step_of(old(self)@.wind_down()),
    {
        proof {
            use_type_invariant(&*self);
        }
        match self.stage {
            RunStage::Discovering => {
                if found {
                    match self.mode {
                        RunMode::LevelsOnly => self.go(RunStage::Done),
                        _ => {
                            self.session = true;
                            self.stage = RunStage::Connecting;
                            RunStep::Connect
                        },
                    }
                } else {
                    self.go(RunStage::Done)
                }
            },
            _ => self.failed(),
        }
    }

    /// The attempt to connect is over. A session that is ready is fed:
    /// when the run drives the equipment the producer is told to play
    /// first. One that is not ready is torn down.
    pub fn connected(&mut self, ready: bool) -> (step: RunStep)
        ensures
            final(self)@.well_formed(),
            old(self)@.stage is Connecting && ready ==> {
                let next = if old(self)@.mode is Drive {
                    RunStage::PermittingPlayback
                } else {
                    RunStage::Streaming
                };
                final(self)@ == (RunView { stage: next, ready: true, ..old(self)@ }) && step
                    == RunView::step_of(next)
            },
            old(self)@.stage is Connecting && !ready ==> final(self)@ == (RunView {
                stage: RunStage::TearingDown,
                ..old(self)@
            }) && step == RunStep::Disconnect,
            !(old(self)@.stage is Connecting) ==> final(self)@ == (RunView {
                stage: old(self)@.wind_down(),
                ..old(self)@
            }) && step == RunView::step_of(old(self)@.wind_down()),
    {
        proof {
            use_type_invariant(&*self);
        }
        match self.stage {
            RunStage::Connecting => {},
            _ => {
                return self.failed();
            },
        }
        if !ready {
            return self.go(RunStage::TearingDown);
        }
        self.ready = true;
        match self.mode {
            RunMode::Drive => self.go(RunStage::PermittingPlayback),
            _ => self.go(RunStage::Streaming),
        }
    }

    /// The producer was told that it may play: what it sends is taken
    /// next.
    pub fn playback_permitted(&mut self) -> (step: RunStep)
        ensures
            final(self)@.well_formed(),
            old(self)@.stage is PermittingPlayback ==> final(self)@ == (RunView {
                stage: RunStage::Streaming,
                permitted: true,
                ..old(self)@
            }) && step == RunStep::Stream,
            !(old(self)@.stage is PermittingPlayback) ==> final(self)@ == (RunView {
                stage: old(self)@.wind_down(),
                ..old(self)@
            }) && step == RunView::step_of(old(self)@.wind_down()),
    {
        proof {
            use_type_invariant(&*self);
        }
        match self.stage {
            RunStage::PermittingPlayback => {
                self.permitted = true;
                self.stage = RunStage::Streaming;
                RunStep::Stream
            },
            _ => self.failed(),
        }
    }

    /// The stream has ended, by a stop, a shutdown or the end of the
    /// channel. A session is torn down; without one the run ends.
    pub fn stream_ended(&mut self) -> (step: RunStep)
        ensures
            final(self)@.well_formed(),
            final(self)@ == (RunView { stage: old(self)@.wind_down(), ..old(self)@ }),
            step == RunView::step_of(old(self)@.wind_down()),
    {
        self.failed()
    }

    /// The teardown is over, however it went: the run ends.
    pub fn disconnected(&mut self) -> (step: RunStep)
        ensures
            final(self)@.well_formed(),
            old(self)@.stage is TearingDown ==> final(self)@ == (RunView {
                stage: RunStage::Done,
                ..old(self)@
            }) && step == RunStep::Exit,
            !(old(self)@.stage is TearingDown) ==> final(self)@ == (RunView {
                stage: old(self)@.wind_down(),
                ..old(self)@
            }) && step == RunView::step_of(old(self)@.wind_down()),
    {
        proof {
            use_type_invariant(&*self);
        }
        match self.stage {
            RunStage::TearingDown => self.go(RunStage::Done),
            _ => self.failed(),
        }
    }
}

} // verus!
