use crate::snapshot::Snapshot;
use crate::state::State;
use vstd::prelude::*;

verus! {

/// A command sent to a timer through its queue.
#[derive(Clone, Copy, PartialEq, Eq, Structural, Debug)]
pub enum Command {
    Pause,
    Resume,
    Halt,
    Report,
    /// Lets a halted timer finish; sent at shutdown.
    ConfirmHalt,
}

/// What ended a timer's wait.
#[derive(Clone, Copy, PartialEq, Eq, Structural, Debug)]
pub enum Event {
    /// The wait timed out with no command.
    Tick,
    Received(Command),
    /// Every sender of the timer's queue is gone.
    Closed,
}

/// How the timer's thread waits for its next event.
#[derive(Clone, Copy, PartialEq, Eq, Structural, Debug)]
pub enum Wait {
    /// For a command, at most this many nanoseconds.
    Timeout(u128),
    /// For a command, without a time limit.
    Forever,
    /// Not at all: the timer is done and its thread ends.
    Stop,
}

/// The mathematical state of a timer. Instants and spans are nanoseconds.
pub struct TimerView {
    pub name: Seq<char>,
    pub arg: Seq<char>,
    pub duration: u128,
    pub step: u128,
    pub elapsed: u128,
    /// The instant from which elapsed time is measured.
    pub start_time: u128,
    pub state: State,
    /// The timer answers no more events.
    pub finished: bool,
}

/// What a timer emits on one event, as the timer states it describes.
pub struct Effects {
    /// A snapshot for the report collection queue.
    pub report: Option<TimerView>,
    /// A snapshot for the updater, sent after the report.
    pub update: Option<TimerView>,
    /// The timer's name goes to the halt notification queue, after the update.
    pub announce: bool,
}

pub open spec fn quiet() -> Effects {
    Effects { report: None, update: None, announce: false }
}

impl TimerView {
    /// Bounds that hold at every point, also inside one turn of the loop.
    pub open spec fn bounded(self) -> bool {
        &&& 0 < self.step <= self.duration
        &&& self.elapsed <= self.duration
    }

    /// Between events: bounded, and a running timer's next tick does not
    /// pass its duration.
    pub open spec fn wf(self) -> bool {
        &&& self.bounded()
        &&& self.state == State::Running ==> self.elapsed + self.step <= self.duration
    }

    /// A timer that has just been started at `now`.
    pub open spec fn started(
        name: Seq<char>,
        arg: Seq<char>,
        duration: u128,
        step: u128,
        now: u128,
    ) -> TimerView {
        TimerView {
            name,
            arg,
            duration,
            step: if step > duration {
                duration
            } else {
                step
            },
            elapsed: 0,
            start_time: now,
            state: State::Running,
            finished: false,
        }
    }

    /// Elapsed time taken anew from the clock: `now` minus the anchor, at most
    /// the duration. A clock behind the anchor moves the anchor instead, so
    /// that elapsed time goes on from its last value.
    pub open spec fn recompute(self, now: u128) -> TimerView {
        if now >= self.start_time {
            let run = (now - self.start_time) as u128;
            TimerView {
                elapsed: if run < self.duration {
                    run
                } else {
                    self.duration
                },
                ..self
            }
        } else {
            TimerView { start_time: back_from(now, self.elapsed), ..self }
        }
    }

    /// The step, shortened so that the next tick does not pass the duration.
    pub open spec fn shrink_step(self) -> TimerView {
        if self.elapsed < self.duration && self.step > self.duration - self.elapsed {
            TimerView { step: (self.duration - self.elapsed) as u128, ..self }
        } else {
            self
        }
    }

    pub open spec fn halted(self) -> TimerView {
        TimerView { state: State::Halted, ..self }
    }

    /// The halt transition: final update, then the announcement.
    pub open spec fn halt_out(self) -> (TimerView, Effects) {
        (self.halted(), Effects { report: None, update: Some(self.halted()), announce: true })
    }

    /// One turn of the ticking loop at `now`: take elapsed time, shorten the
    /// step, then either send an update and wait again or halt.
    pub open spec fn advance(self, now: u128) -> (TimerView, Effects) {
        let t = self.recompute(now).shrink_step();
        if t.elapsed < t.duration {
            (t, Effects { report: None, update: Some(t), announce: false })
        } else {
            t.halt_out()
        }
    }

    /// The timer after `event` at `now`, and what it emits.
    pub open spec fn next(self, event: Event, now: u128) -> (TimerView, Effects) {
        if self.finished {
            (self, quiet())
        } else if event == Event::Closed {
            (TimerView { finished: true, ..self }, quiet())
        } else {
            match self.state {
                State::Running => match event {
                    Event::Received(Command::Pause) => {
                        let p = TimerView { state: State::Paused, ..self.recompute(now) };
                        (p, Effects { report: None, update: Some(p), announce: false })
                    },
                    Event::Received(Command::Halt) => self.recompute(now).halt_out(),
                    Event::Received(Command::Report) => {
                        let r = self.recompute(now);
                        let (t, e) = r.advance(now);
                        (t, Effects { report: Some(r), ..e })
                    },
                    Event::Received(Command::ConfirmHalt) => (self, quiet()),
                    _ => self.advance(now),
                },
                State::Paused => match event {
                    Event::Received(Command::Resume) => TimerView {
                        state: State::Running,
                        start_time: back_from(now, self.elapsed),
                        ..self
                    }.advance(now),
                    Event::Received(Command::Halt) => self.halt_out(),
                    Event::Received(Command::Report) => (
                        self,
                        Effects { report: Some(self), update: None, announce: false },
                    ),
                    _ => (self, quiet()),
                },
                State::Halted => match event {
                    Event::Received(Command::Report) => (
                        self,
                        Effects { report: Some(self), update: None, announce: false },
                    ),
                    Event::Received(Command::ConfirmHalt) => (
                        TimerView { finished: true, ..self },
                        quiet(),
                    ),
                    _ => (self, quiet()),
                },
            }
        }
    }

    /// How the timer waits after reaching this state.
    pub open spec fn wait(self) -> Wait {
        if self.finished {
            Wait::Stop
        } else if self.state == State::Running {
            Wait::Timeout(self.step)
        } else {
            Wait::Forever
        }
    }
}

/// The instant `span` before `now`, or the clock's origin if that is later.
pub open spec fn back_from(now: u128, span: u128) -> u128 {
    if now >= span {
        (now - span) as u128
    } else {
        0
    }
}

/// The snapshot shows the timer state `t`.
pub open spec fn describes(s: Snapshot, t: TimerView) -> bool {
    &&& s.name@ == t.name
    &&& s.arg@ == t.arg
    &&& s.duration == t.duration
    &&& s.elapsed == t.elapsed
    &&& s.state == t.state
}

pub open spec fn emits(s: Option<Snapshot>, t: Option<TimerView>) -> bool {
    match t {
        None => s is None,
        Some(t) => s is Some && describes(s->0, t),
    }
}

/// What the timer's thread does after one event.
pub struct Outcome {
    pub report: Option<Snapshot>,
    pub update: Option<Snapshot>,
    pub announce_halt: bool,
    pub wait: Wait,
}

impl Outcome {
    /// The outcome carries out `e`, and then waits as `t` does.
    pub open spec fn performs(self, e: Effects, t: TimerView) -> bool {
        &&& emits(self.report, e.report)
        &&& emits(self.update, e.update)
        &&& self.announce_halt == e.announce
        &&& self.wait == t.wait()
    }
}

/// The logic of one timer's thread, fed with its events and the clock.
pub struct TimerCore {
    name: String,
    arg: String,
    duration: u128,
    step: u128,
    elapsed: u128,
    start_time: u128,
    state: State,
    finished: bool,
}

impl View for TimerCore {
    type V = TimerView;

    closed spec fn view(&self) -> TimerView {
        TimerView {
            name: self.name@,
            arg: self.arg@,
            duration: self.duration,
            step: self.step,
            elapsed: self.elapsed,
            start_time: self.start_time,
            state: self.state,
            finished: self.finished,
        }
    }
}

impl TimerCore {
    /// Starts a timer at `now`: it sends its first update at once and waits
    /// one step.
    pub fn start(name: String, duration: u128, step: u128, arg: String, now: u128) -> (r: (
        TimerCore,
        Outcome,
    ))
        requires
            duration > 0,
            step > 0,
        ensures
            r.0@ == TimerView::started(name@, arg@, duration, step, now),
            r.0@.wf(),
            r.1.performs(
                Effects { report: None, update: Some(r.0@), announce: false },
                r.0@,
            ),
    {
        let t = TimerCore {
            name,
            arg,
            duration,
            step: if step > duration {
                duration
            } else {
                step
            },
            elapsed: 0,
            start_time: now,
            state: State::Running,
            finished: false,
        };
        let update = t.snapshot();
        let wait = t.wait();
        (t, Outcome { report: None, update: Some(update), announce_halt: false, wait })
    }

    pub fn name(&self) -> (r: &String)
        ensures
            r@ == self@.name,
    {
        &self.name
    }

    pub fn wait(&self) -> (r: Wait)
        ensures
            r == self@.wait(),
    {
        if self.finished {
            Wait::Stop
        } else if self.state.is_halted() || self.state.is_paused() {
            Wait::Forever
        } else {
            Wait::Timeout(self.step)
        }
    }

    pub fn snapshot(&self) -> (s: Snapshot)
        ensures
            describes(s, self@),
    {
        Snapshot {
            name: self.name.clone(),
            duration: self.duration,
            elapsed: self.elapsed,
            state: self.state,
            arg: self.arg.clone(),
        }
    }

    fn recompute(&mut self, now: u128)
        ensures
            final(self)@ == old(self)@.recompute(now),
    {
        if now >= self.start_time {
            let run = now - self.start_time;
            self.elapsed = if run < self.duration {
                run
            } else {
                self.duration
            };
        } else {
            self.start_time = if now >= self.elapsed {
                now - self.elapsed
            } else {
                0
            };
        }
    }

    fn shrink_step(&mut self)
        ensures
            final(self)@ == old(self)@.shrink_step(),
    {
        if self.elapsed < self.duration && self.step > self.duration - self.elapsed {
            self.step = self.duration - self.elapsed;
        }
    }

    fn halt_out(&mut self) -> (o: Outcome)
        requires
            old(self)@.bounded(),
            !old(self)@.finished,
        ensures
            final(self)@ == old(self)@.halt_out().0,
            final(self)@.wf(),
            o.performs(old(self)@.halt_out().1, final(self)@),
    {
        self.state = State::Halted;
        let update = self.snapshot();
        Outcome { report: None, update: Some(update), announce_halt: true, wait: Wait::Forever }
    }

    fn advance(&mut self, now: u128) -> (o: Outcome)
        requires
            old(self)@.bounded(),
            !old(self)@.finished,
            old(self)@.state == State::Running,
        ensures
            final(self)@ == old(self)@.advance(now).0,
            final(self)@.wf(),
            o.performs(old(self)@.advance(now).1, final(self)@),
    {
        self.recompute(now);
        self.shrink_step();
        if self.elapsed < self.duration {
            let update = self.snapshot();
            Outcome {
                report: None,
                update: Some(update),
                announce_halt: false,
                wait: Wait::Timeout(self.step),
            }
        } else {
            self.halt_out()
        }
    }

    /// Handles one event at `now`.
    pub fn on_event(&mut self, event: Event, now: u128) -> (o: Outcome)
        requires
            old(self)@.wf(),
        ensures
            final(self)@ == old(self)@.next(event, now).0,
            final(self)@.wf(),
            o.performs(old(self)@.next(event, now).1, final(self)@),
    {
        if self.finished {
            return Outcome { report: None, update: None, announce_halt: false, wait: Wait::Stop };
        }
        if let Event::Closed = event {
            self.finished = true;
            return Outcome { report: None, update: None, announce_halt: false, wait: Wait::Stop };
        }
        match self.state {
            State::Running => match event {
                Event::Received(Command::Pause) => {
                    self.recompute(now);
                    self.state = State::Paused;
                    let update = self.snapshot();
                    Outcome {
                        report: None,
                        update: Some(update),
                        announce_halt: false,
                        wait: Wait::Forever,
                    }
                },
                Event::Received(Command::Halt) => {
                    self.recompute(now);
                    self.halt_out()
                },
                Event::Received(Command::Report) => {
                    self.recompute(now);
                    let report = self.snapshot();
                    let o = self.advance(now);
                    Outcome { report: Some(report), ..o }
                },
                Event::Received(Command::ConfirmHalt) => Outcome {
                    report: None,
                    update: None,
                    announce_halt: false,
                    wait: Wait::Timeout(self.step),
                },
                _ => self.advance(now),
            },
            State::Paused => match event {
                Event::Received(Command::Resume) => {
                    self.state = State::Running;
                    self.start_time = if now >= self.elapsed {
                        now - self.elapsed
                    } else {
                        0
                    };
                    self.advance(now)
                },
                Event::Received(Command::Halt) => self.halt_out(),
                Event::Received(Command::Report) => {
                    let report = self.snapshot();
                    Outcome {
                        report: Some(report),
                        update: None,
                        announce_halt: false,
                        wait: Wait::Forever,
                    }
                },
                _ => Outcome { report: None, update: None, announce_halt: false, wait: Wait::Forever },
            },
            State::Halted => match event {
                Event::Received(Command::Report) => {
                    let report = self.snapshot();
                    Outcome {
                        report: Some(report),
                        update: None,
                        announce_halt: false,
                        wait: Wait::Forever,
                    }
                },
                Event::Received(Command::ConfirmHalt) => {
                    self.finished = true;
                    Outcome { report: None, update: None, announce_halt: false, wait: Wait::Stop }
                },
                _ => Outcome { report: None, update: None, announce_halt: false, wait: Wait::Forever },
            },
        }
    }
}

/// A timer's elapsed time never passes its duration: every event keeps the
/// timer well formed, and no snapshot it emits shows more time than the
/// duration.
pub proof fn lemma_elapsed_within_duration(t: TimerView, event: Event, now: u128)
    requires
        t.wf(),
    ensures
        t.next(event, now).0.wf(),
        t.next(event, now).0.duration == t.duration,
        t.next(event, now).1.report is Some ==> t.next(event, now).1.report->0.elapsed
            <= t.duration,
        t.next(event, now).1.update is Some ==> t.next(event, now).1.update->0.elapsed
            <= t.duration,
{
}

/// While a timer runs, no event takes its elapsed time backward, nor shows a
/// smaller one in a snapshot, as long as the clock does not read earlier than
/// the instant at which the timer reached its current elapsed time.
pub proof fn lemma_running_elapsed_monotone(t: TimerView, event: Event, now: u128)
    requires
        t.wf(),
        t.state == State::Running,
        !t.finished,
        now >= t.elapsed,
        now >= t.start_time ==> now - t.start_time >= t.elapsed,
    ensures
        t.next(event, now).0.elapsed >= t.elapsed,
        t.next(event, now).1.report is Some ==> t.next(event, now).1.report->0.elapsed
            >= t.elapsed,
        t.next(event, now).1.update is Some ==> t.next(event, now).1.update->0.elapsed
            >= t.elapsed,
{
}

/// While a timer is paused its elapsed time is frozen: whatever the event and
/// the clock, the timer and every snapshot it emits keep the elapsed time it
/// had when paused; a resume goes on from it.
pub proof fn lemma_paused_elapsed_frozen(t: TimerView, event: Event, now: u128)
    requires
        t.wf(),
        t.state == State::Paused,
        now >= t.elapsed,
    ensures
        t.next(event, now).0.elapsed == t.elapsed,
        t.next(event, now).1.report is Some ==> t.next(event, now).1.report->0.elapsed
            == t.elapsed,
        t.next(event, now).1.update is Some ==> t.next(event, now).1.update->0.elapsed
            == t.elapsed,
{
}

/// Two reports in a row from a running timer that is still running after the
/// first show the same timer, name, argument, duration and state, and differ
/// in elapsed time by no more than the time between them.
pub proof fn lemma_report_twice(t: TimerView, now1: u128, now2: u128)
    requires
        t.wf(),
        t.state == State::Running,
        !t.finished,
        t.elapsed <= now1 <= now2,
        t.next(Event::Received(Command::Report), now1).0.state == State::Running,
    ensures
        ({
            let (t1, e1) = t.next(Event::Received(Command::Report), now1);
            let e2 = t1.next(Event::Received(Command::Report), now2).1;
            &&& e1.report is Some
            &&& e2.report is Some
            &&& e1.report->0.name == e2.report->0.name
            &&& e1.report->0.arg == e2.report->0.arg
            &&& e1.report->0.duration == e2.report->0.duration
            &&& e1.report->0.state == e2.report->0.state
            &&& e1.report->0.elapsed <= e2.report->0.elapsed
            &&& e2.report->0.elapsed - e1.report->0.elapsed <= now2 - now1
        }),
{
}

/// A halt takes effect at once: a running or paused timer is halted by
/// `Halt`, sends its final update and announces itself. Once halted it stays
/// halted whatever follows, emits no update, and a report it answers shows it
/// halted.
pub proof fn lemma_halt_is_final(t: TimerView, now: u128, event: Event, later: u128)
    requires
        t.wf(),
        !t.finished,
        t.state != State::Halted,
    ensures
        ({
            let (h, e) = t.next(Event::Received(Command::Halt), now);
            &&& h.state == State::Halted
            &&& e.update is Some && e.update->0.state == State::Halted
            &&& e.announce
            &&& h.next(event, later).0.state == State::Halted
            &&& h.next(event, later).1.update is None
            &&& !h.next(event, later).1.announce
            &&& h.next(event, later).1.report is Some ==> h.next(event, later).1.report->0.state
                == State::Halted
        }),
{
}

} // verus!
