//! The timer itself: made armed, finished once.

use crate::clock::elapsed_since;
use crate::elapsed::Elapsed;
use crate::format::{compose_line, line_text, TimeFormat};
use crate::level::{LogLevel, Sink};
use std::time::Instant;
use vstd::prelude::*;

verus! {

/// What a timer hands over when it is finished: one line of text and the
/// sink it is meant for.
#[derive(Debug, PartialEq, Eq)]
pub struct Emission {
    pub sink: Sink,
    pub text: String,
}

/// The two states of a timer. There is no way back from `Emitted`.
#[derive(Clone, Copy, Debug, PartialEq, Eq)]
pub enum Phase {
    /// Made, and not finished yet.
    Armed,
    /// Finished: whatever there was to emit has been handed over.
    Emitted,
}

/// A timer for one scope. It is armed when made and finished at most once;
/// only the call that finishes it can yield an emission.
pub struct ScopeTimer<'a> {
    label: &'a str,
    time_format: TimeFormat,
    log_level: Option<LogLevel>,
    debug_only: bool,
    unit_suffix: bool,
    start: Instant,
    phase: Phase,
}

/// What a timer is, to the contracts.
pub struct TimerView {
    /// The name under which the elapsed time is reported.
    pub label: Seq<char>,
    /// The unit in which the elapsed time is written.
    pub time_format: TimeFormat,
    /// The severity of the log record, or `None` for standard output.
    pub log_level: Option<LogLevel>,
    /// Whether the timer stays silent outside a debug configuration.
    pub debug_only: bool,
    /// Whether the sub-second formats carry their unit suffix.
    pub unit_suffix: bool,
    /// The clock reading taken when the timer was made.
    pub start: Instant,
    /// Whether the timer has been finished.
    pub phase: Phase,
}

impl TimerView {
    /// The timer is for debug configurations only and this is none. The
    /// flag is taken as it was given and held against the configuration
    /// when the timer is finished, not when it is made.
    pub open spec fn suppressed(self, debug_config: bool) -> bool {
        self.debug_only && !debug_config
    }

    /// Finishing the timer now yields an emission.
    pub open spec fn emits(self, debug_config: bool) -> bool {
        self.phase is Armed && !self.suppressed(debug_config)
    }

    /// The sink that the timer's log level selects.
    pub open spec fn sink(self) -> Sink {
        Sink::of(self.log_level)
    }

    /// The line that reports `elapsed` for this timer.
    pub open spec fn line(self, elapsed: Elapsed) -> Seq<char> {
        line_text(
            self.label,
            self.time_format.value_text(elapsed),
            self.time_format.unit_text(self.unit_suffix),
        )
    }

    /// The timer after it has been finished: in its last state, otherwise
    /// unchanged.
    pub open spec fn finished(self) -> TimerView {
        TimerView { phase: Phase::Emitted, ..self }
    }

    /// How many emissions come out when the timer is finished once for each
    /// entry of `configs`, in order, each entry being the debug
    /// configuration at that call.
    pub open spec fn emission_count(self, configs: Seq<bool>) -> nat
        decreases configs.len(),
    {
        if configs.len() == 0 {
            0
        } else {
            let first: nat = if self.emits(configs[0]) {
                1
            } else {
                0
            };
            first + self.finished().emission_count(configs.drop_first())
        }
    }
}

impl<'a> View for ScopeTimer<'a> {
    type V = TimerView;

    closed spec fn view(&self) -> TimerView {
        TimerView {
            label: self.label@,
            time_format: self.time_format,
            log_level: self.log_level,
            debug_only: self.debug_only,
            unit_suffix: self.unit_suffix,
            start: self.start,
            phase: self.phase,
        }
    }
}

impl<'a> ScopeTimer<'a> {
    /// Starts a timer: reads the clock and keeps the four settings as given.
    /// The timer is armed, and the sub-second formats carry their unit suffix.
    pub fn new(
        label: &'a str,
        time_format: TimeFormat,
        log_level: Option<LogLevel>,
        debug_only: bool,
    ) -> (timer: Self)
        ensures
            timer@.label == label@,
            timer@.time_format == time_format,
            timer@.log_level == log_level,
            timer@.debug_only == debug_only,
            timer@.unit_suffix,
            timer@.phase is Armed,
    {
        ScopeTimer {
            label,
            time_format,
            log_level,
            debug_only,
            unit_suffix: true,
            start: Instant::now(),
            phase: Phase::Armed,
        }
    }

    /// Chooses whether the sub-second formats carry their unit suffix.
    /// Nothing else changes.
    pub fn with_unit_suffix(self, unit_suffix: bool) -> (timer: Self)
        ensures
            timer@ == (TimerView { unit_suffix, ..self@ }),
    {
        ScopeTimer { unit_suffix, ..self }
    }

    /// The name under which the elapsed time is reported.
    pub fn label(&self) -> (label: &'a str)
        ensures
            label@ == self@.label,
    {
        self.label
    }

    /// The unit in which the elapsed time is written.
    pub fn time_format(&self) -> (time_format: TimeFormat)
        ensures
            time_format == self@.time_format,
    {
        self.time_format
    }

    /// The severity of the log record, or `None` for standard output.
    pub fn log_level(&self) -> (log_level: Option<LogLevel>)
        ensures
            log_level == self@.log_level,
    {
        self.log_level
    }

    /// Whether the timer stays silent outside a debug configuration.
    pub fn debug_only(&self) -> (debug_only: bool)
        ensures
            debug_only == self@.debug_only,
    {
        self.debug_only
    }

    /// Whether the sub-second formats carry their unit suffix.
    pub fn unit_suffix(&self) -> (unit_suffix: bool)
        ensures
            unit_suffix == self@.unit_suffix,
    {
        self.unit_suffix
    }

    /// Whether the timer has been finished.
    pub fn phase(&self) -> (phase: Phase)
        ensures
            phase == self@.phase,
    {
        self.phase
    }

    /// The line and the sink for a given elapsed time. The state of the
    /// timer plays no part and is left as it is.
    pub fn timer_info(&self, elapsed: Elapsed) -> (emission: Emission)
        requires
            self@.time_format.valid(),
            elapsed.wf(),
        ensures
            emission.sink == self@.sink(),
            emission.text@ == self@.line(elapsed),
    {
        let value = self.time_format.value(elapsed);
        let unit = self.time_format.unit(self.unit_suffix);
        Emission {
            sink: Sink::select(self.log_level),
            text: compose_line(self.label, value.as_str(), unit),
        }
    }

    /// Finishes the timer with a given elapsed time. An armed timer that is
    /// not suppressed yields its emission; a finished or suppressed one
    /// yields nothing. Either way the timer is finished afterwards.
    pub fn finish(&mut self, elapsed: Elapsed, debug_config: bool) -> (emission: Option<Emission>)
        requires
            old(self)@.emits(debug_config) ==> old(self)@.time_format.valid(),
            elapsed.wf(),
        ensures
            final(self)@ == old(self)@.finished(),
            old(self)@.suppressed(debug_config) ==> emission is None,
            emission is Some <==> old(self)@.emits(debug_config),
            emission matches Some(e) ==> e.sink == old(self)@.sink() && e.text@ == old(
                self,
            )@.line(elapsed),
    {
        let emits = match self.phase {
            Phase::Armed => !self.debug_only || debug_config,
            Phase::Emitted => false,
        };
        self.phase = Phase::Emitted;
        if emits {
            Some(self.timer_info(elapsed))
        } else {
            None
        }
    }

    /// Finishes the timer with the time that has passed on the clock since
    /// it was made. What `finish` states holds here for the span that the
    /// clock gave.
    pub fn elapsed_time(&mut self, debug_config: bool) -> (emission: Option<Emission>)
        requires
            old(self)@.emits(debug_config) ==> old(self)@.time_format.valid(),
        ensures
            final(self)@ == old(self)@.finished(),
            old(self)@.suppressed(debug_config) ==> emission is None,
            emission is Some <==> old(self)@.emits(debug_config),
            emission matches Some(e) ==> e.sink == old(self)@.sink() && exists|elapsed: Elapsed|
                elapsed.wf() && e.text@ == #[trigger] old(self)@.line(elapsed),
    {
        let elapsed = elapsed_since(&self.start);
        self.finish(elapsed, debug_config)
    }
}

/// Finishing is idempotent: a second finish leaves the timer as the first
/// left it.
pub proof fn lemma_finish_is_idempotent(timer: TimerView)
    ensures
        timer.finished().finished() == timer.finished(),
        timer.finished().phase is Emitted,
{
}

/// Once a timer has been finished, finishing it again yields nothing,
/// however often and under whatever configurations.
pub proof fn lemma_finished_timer_is_silent(timer: TimerView, configs: Seq<bool>)
    requires
        timer.phase is Emitted,
    ensures
        timer.emission_count(configs) == 0,
    decreases configs.len(),
{
    if configs.len() > 0 {
        lemma_finished_timer_is_silent(timer, configs.drop_first());
    }
}

/// Emission happens once. Over any run of finishing calls, only the first
/// call can emit, and it does so exactly when the timer was armed and not
/// suppressed at that call: the run as a whole emits once in that case and
/// never otherwise.
pub proof fn lemma_emits_once(timer: TimerView, configs: Seq<bool>)
    requires
        configs.len() > 0,
    ensures
        timer.emits(configs[0]) ==> timer.emission_count(configs) == 1,
        !timer.emits(configs[0]) ==> timer.emission_count(configs) == 0,
{
    lemma_finished_timer_is_silent(timer.finished(), configs.drop_first());
}

/// A timer for debug configurations only emits nothing while every call
/// that finishes it sees a configuration that is not one.
pub proof fn lemma_suppressed_timer_is_silent(timer: TimerView, configs: Seq<bool>)
    requires
        timer.debug_only,
        forall|i: int| 0 <= i < configs.len() ==> !configs[i],
    ensures
        timer.emission_count(configs) == 0,
{
    if configs.len() > 0 {
        lemma_emits_once(timer, configs);
    }
}

impl<'a> Default for ScopeTimer<'a> {
    /// Starts a timer labelled `timer` that reports seconds with three
    /// fractional digits on standard output, in every configuration.
    fn default() -> (timer: Self)
        ensures
            timer@.label == "timer"@,
            timer@.time_format == TimeFormat::SecondsF32(3),
            timer@.log_level is None,
            !timer@.debug_only,
            timer@.unit_suffix,
            timer@.phase is Armed,
    {
        ScopeTimer::new("timer", TimeFormat::SecondsF32(3), None, false)
    }
}

} // verus!
