//! Application start-up: the ordered phases of the boot sequence and what
//! is recorded of each. Running a phase's work against the service registry
//! is the application's part; it reports each phase's start and outcome
//! here.

use vstd::prelude::*;

use std::time::{Duration, Instant};

use crate::clipboard::now;

verus! {

/// Calls `Instant::elapsed`; the value depends on the clock, so nothing is
/// claimed of it.
#[verifier::external_body]
fn elapsed_since(t: &Instant) -> Duration {
    t.elapsed()
}

/// Where a phase stands.
#[derive(Debug, Clone)]
pub enum PhaseStatus {
    Pending,
    Running,
    Completed,
    /// The phase failed, with the reason.
    Failed(String),
}

/// How a status is shown.
pub open spec fn status_text(s: PhaseStatus) -> Seq<char> {
    match s {
        PhaseStatus::Pending => "pending"@,
        PhaseStatus::Running => "running"@,
        PhaseStatus::Completed => "completed"@,
        PhaseStatus::Failed(msg) => "failed: "@ + msg@,
    }
}

impl PhaseStatus {
    /// How this status is shown.
    pub fn describe(&self) -> (r: String)
        ensures
            r@ == status_text(*self),
    {
        match self {
            PhaseStatus::Pending => String::from_str("pending"),
            PhaseStatus::Running => String::from_str("running"),
            PhaseStatus::Completed => String::from_str("completed"),
            PhaseStatus::Failed(msg) => {
                let mut s = String::from_str("failed: ");
                s.append(msg.as_str());
                s
            },
        }
    }
}

/// One phase of the boot sequence.
#[derive(Debug, Clone)]
pub struct StartupPhase {
    pub name: String,
    pub duration: Option<Duration>,
    pub status: PhaseStatus,
}

impl StartupPhase {
    /// A pending phase called `name`, not yet timed.
    pub fn new(name: &str) -> (r: Self)
        ensures
            r.name@ == name@,
            r.duration is None,
            r.status is Pending,
    {
        StartupPhase { name: name.to_string(), duration: None, status: PhaseStatus::Pending }
    }
}

/// The phases of the boot sequence, in order.
pub open spec fn phase_names() -> Seq<Seq<char>> {
    seq![
        "Load configuration"@,
        "Initialize database"@,
        "Initialize GPU renderer"@,
        "Restore session"@,
        "Start extension host"@,
        "Activate extensions"@,
        "Start file watcher"@,
        "Start language servers"@,
        "Check for updates"@,
        "Show welcome page"@,
    ]
}

/// Whether a phase is over (completed or failed).
pub open spec fn is_over(p: StartupPhase) -> bool {
    p.status is Completed || p.status is Failed
}

/// The names of the failed phases, in order.
pub open spec fn failed_names(phases: Seq<StartupPhase>) -> Seq<Seq<char>>
    decreases phases.len(),
{
    if phases.len() == 0 {
        Seq::empty()
    } else {
        let init = failed_names(phases.drop_last());
        if phases.last().status is Failed {
            init.push(phases.last().name@)
        } else {
            init
        }
    }
}

/// The timed phases with their durations, in order.
pub open spec fn timed_phases(phases: Seq<StartupPhase>) -> Seq<(Seq<char>, Duration)>
    decreases phases.len(),
{
    if phases.len() == 0 {
        Seq::empty()
    } else {
        let init = timed_phases(phases.drop_last());
        match phases.last().duration {
            Some(d) => init.push((phases.last().name@, d)),
            None => init,
        }
    }
}

/// The boot sequence: its phases and the one being run.
pub struct StartupSequence {
    pub phases: Vec<StartupPhase>,
    pub current_phase: usize,
    pub start_time: Instant,
}

impl StartupSequence {
    /// The full sequence, every phase pending.
    pub fn new() -> (r: Self)
        ensures
            r.phases@.map_values(|p: StartupPhase| p.name@) == phase_names(),
            forall|i: int|
                0 <= i < r.phases@.len() ==> (#[trigger] r.phases@[i]).status is Pending
                    && r.phases@[i].duration is None,
            r.current_phase == 0,
    {
        let phases = vec![
            StartupPhase::new("Load configuration"),
            StartupPhase::new("Initialize database"),
            StartupPhase::new("Initialize GPU renderer"),
            StartupPhase::new("Restore session"),
            StartupPhase::new("Start extension host"),
            StartupPhase::new("Activate extensions"),
            StartupPhase::new("Start file watcher"),
            StartupPhase::new("Start language servers"),
            StartupPhase::new("Check for updates"),
            StartupPhase::new("Show welcome page"),
        ];
        assert(phases@.map_values(|p: StartupPhase| p.name@) =~= phase_names());
        StartupSequence { phases, current_phase: 0, start_time: now() }
    }

    /// Marks the start of the whole run.
    pub fn mark_started(&mut self)
        ensures
            final(self).phases == old(self).phases,
            final(self).current_phase == old(self).current_phase,
    {
        self.start_time = now();
    }

    /// Marks phase `i` as the one running.
    pub fn begin_phase(&mut self, i: usize)
        requires
            i < old(self).phases@.len(),
        ensures
            final(self).current_phase == i,
            final(self).phases@ == old(self).phases@.update(
                i as int,
                StartupPhase { status: PhaseStatus::Running, ..old(self).phases@[i as int] },
            ),
    {
        self.current_phase = i;
        self.phases[i].status = PhaseStatus::Running;
    }

    /// Records how phase `i` ended: completed, or failed with the reason,
    /// after taking `duration`. A failure does not stop the sequence.
    pub fn finish_phase(&mut self, i: usize, duration: Duration, outcome: Result<(), String>)
        requires
            i < old(self).phases@.len(),
        ensures
            final(self).current_phase == old(self).current_phase,
            final(self).phases@ == old(self).phases@.update(
                i as int,
                StartupPhase {
                    duration: Some(duration),
                    status: match outcome {
                        Ok(_) => PhaseStatus::Completed,
                        Err(e) => PhaseStatus::Failed(e),
                    },
                    ..old(self).phases@[i as int]
                },
            ),
    {
        self.phases[i].duration = Some(duration);
        self.phases[i].status = match outcome {
            Ok(_) => PhaseStatus::Completed,
            Err(e) => PhaseStatus::Failed(e),
        };
    }

    /// Time since the run started.
    pub fn get_startup_time(&self) -> Duration {
        elapsed_since(&self.start_time)
    }

    /// The timed phases with their durations, in order.
    pub fn get_phase_times(&self) -> (r: Vec<(&str, Duration)>)
        ensures
            r@.map_values(|t: (&str, Duration)| (t.0@, t.1)) == timed_phases(self.phases@),
    {
        let mut out: Vec<(&str, Duration)> = Vec::new();
        let mut i: usize = 0;
        while i < self.phases.len()
            invariant
                i <= self.phases@.len(),
                out@.map_values(|t: (&str, Duration)| (t.0@, t.1)) == timed_phases(
                    self.phases@.subrange(0, i as int),
                ),
            decreases self.phases@.len() - i,
        {
            let ghost before = out@;
            assert(self.phases@.subrange(0, i + 1).drop_last() =~= self.phases@.subrange(
                0,
                i as int,
            ));
            match self.phases[i].duration {
                Some(d) => {
                    out.push((self.phases[i].name.as_str(), d));
                    assert(out@.map_values(|t: (&str, Duration)| (t.0@, t.1)) =~= before.map_values(
                        |t: (&str, Duration)| (t.0@, t.1),
                    ).push((self.phases@[i as int].name@, d)));
                },
                None => {},
            }
            i = i + 1;
        }
        assert(self.phases@.subrange(0, self.phases@.len() as int) =~= self.phases@);
        out
    }

    /// Whether every phase has completed or failed.
    pub fn is_finished(&self) -> (r: bool)
        ensures
            r == (forall|i: int| 0 <= i < self.phases@.len() ==> is_over(#[trigger] self.phases@[i])),
    {
        let mut i: usize = 0;
        while i < self.phases.len()
            invariant
                i <= self.phases@.len(),
                forall|j: int| 0 <= j < i ==> is_over(#[trigger] self.phases@[j]),
            decreases self.phases@.len() - i,
        {
            match self.phases[i].status {
                PhaseStatus::Completed | PhaseStatus::Failed(_) => {},
                _ => {
                    return false;
                },
            }
            i = i + 1;
        }
        true
    }

    /// The names of the phases that failed, in order.
    pub fn failed_phases(&self) -> (r: Vec<&str>)
        ensures
            r@.map_values(|s: &str| s@) == failed_names(self.phases@),
    {
        let mut out: Vec<&str> = Vec::new();
        let mut i: usize = 0;
        while i < self.phases.len()
            invariant
                i <= self.phases@.len(),
                out@.map_values(|s: &str| s@) == failed_names(self.phases@.subrange(0, i as int)),
            decreases self.phases@.len() - i,
        {
            let ghost before = out@;
            assert(self.phases@.subrange(0, i + 1).drop_last() =~= self.phases@.subrange(
                0,
                i as int,
            ));
            match self.phases[i].status {
                PhaseStatus::Failed(_) => {
                    out.push(self.phases[i].name.as_str());
                    assert(out@.map_values(|s: &str| s@) =~= before.map_values(|s: &str| s@).push(
                        self.phases@[i as int].name@,
                    ));
                },
                _ => {},
            }
            i = i + 1;
        }
        assert(self.phases@.subrange(0, self.phases@.len() as int) =~= self.phases@);
        out
    }
}

impl Default for StartupSequence {
    fn default() -> (r: Self)
        ensures
            r.phases@.map_values(|p: StartupPhase| p.name@) == phase_names(),
            forall|i: int|
                0 <= i < r.phases@.len() ==> (#[trigger] r.phases@[i]).status is Pending
                    && r.phases@[i].duration is None,
            r.current_phase == 0,
    {
        StartupSequence::new()
    }
}

} // verus!
