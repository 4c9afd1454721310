use sidex_app::startup::{PhaseStatus, StartupPhase, StartupSequence};
use std::time::Duration;

#[test]
fn new_creates_all_phases() {
    let seq = StartupSequence::new();
    assert_eq!(seq.phases.len(), 10);
    assert!(seq.phases.iter().all(|p| matches!(p.status, PhaseStatus::Pending)));
}

#[test]
fn phases_record_outcomes() {
    let mut seq = StartupSequence::default();
    assert!(!seq.is_finished());
    seq.mark_started();
    for i in 0..seq.phases.len() {
        seq.begin_phase(i);
        assert!(matches!(seq.phases[i].status, PhaseStatus::Running));
        assert_eq!(seq.current_phase, i);
        let outcome = if i == 3 { Err("disk full".to_string()) } else { Ok(()) };
        seq.finish_phase(i, Duration::from_millis(i as u64), outcome);
    }
    assert!(seq.is_finished());
    assert_eq!(seq.failed_phases(), vec!["Restore session"]);
    let times = seq.get_phase_times();
    assert_eq!(times.len(), 10);
    assert_eq!(times[2], ("Initialize GPU renderer", Duration::from_millis(2)));
    let _ = seq.get_startup_time();
}

#[test]
fn phase_status_text() {
    assert_eq!(PhaseStatus::Pending.describe(), "pending");
    assert_eq!(PhaseStatus::Failed("boom".into()).describe(), "failed: boom");
    let p = StartupPhase::new("x");
    assert!(p.duration.is_none());
    assert_eq!(p.status.describe(), "pending");
}
