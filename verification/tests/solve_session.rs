use zodiacal_web::binary64::Binary64;
use zodiacal_web::protocol::{SolveResult, SolveServerMsg};
use zodiacal_web::solve_session::{
    describe_failure, progress_due, SolveEffect, SolveEvent, SolveReport, SolveSession, StepOutput,
};

fn b(x: f64) -> Binary64 {
    Binary64::from_bits(x.to_bits())
}

fn result() -> SolveResult {
    SolveResult {
        ra_deg: b(180.0),
        dec_deg: b(-45.0),
        orientation_deg: b(10.0),
        pixel_scale_arcsec: b(1.5),
        field_width_deg: b(2.0),
        field_height_deg: b(1.5),
    }
}

fn run(id: uuid::Uuid, events: Vec<SolveEvent>) -> (Vec<SolveServerMsg>, Vec<SolveEffect>, SolveSession) {
    let mut s = SolveSession::new(id);
    let mut msgs = Vec::new();
    let mut effects = Vec::new();
    for e in events {
        let StepOutput { message, effect } = s.step(e);
        if let Some(m) = message {
            msgs.push(m);
        }
        effects.push(effect);
    }
    (msgs, effects, s)
}

#[test]
fn missing_upload_is_reported() {
    let id = uuid::Uuid::new_v4();
    let (msgs, effects, s) = run(id, vec![SolveEvent::UploadLookup { found: false }]);
    assert_eq!(msgs.len(), 1);
    assert!(matches!(&msgs[0], SolveServerMsg::Failed { reason } if reason == "No pending upload for this job ID"));
    assert!(matches!(effects[0], SolveEffect::Close));
    assert!(s.is_closed());
}

#[test]
fn successful_solve_streams_in_order() {
    let id = uuid::Uuid::new_v4();
    let report = SolveReport { solution: Some(result()), timed_out: false, n_verified: 17, n_sources: 250 };
    let (msgs, effects, s) = run(
        id,
        vec![
            SolveEvent::UploadLookup { found: true },
            SolveEvent::JobMarked { outcome: Ok(()) },
            SolveEvent::Progress { count: 250 },
            SolveEvent::Progress { count: 5 },
            SolveEvent::Progress { count: 12 },
            SolveEvent::SolveFinished { result: Ok(report) },
            SolveEvent::ResultRecorded { outcome: Ok(()) },
        ],
    );
    assert!(matches!(msgs[0], SolveServerMsg::Accepted { job_id } if job_id == id));
    assert!(matches!(msgs[1], SolveServerMsg::Extracting { n_sources: None }));
    assert!(matches!(msgs[2], SolveServerMsg::Extracting { n_sources: Some(250) }));
    assert!(matches!(msgs[3], SolveServerMsg::Solving { n_verified: 5 }));
    assert!(matches!(msgs[4], SolveServerMsg::Solving { n_verified: 12 }));
    assert!(matches!(msgs[5], SolveServerMsg::Solved { result: r } if r == result()));
    assert_eq!(msgs.len(), 6);
    assert!(matches!(effects[0], SolveEffect::MarkSolving));
    assert!(matches!(effects[1], SolveEffect::RunSolve));
    assert!(matches!(effects[5], SolveEffect::RecordSolved { result: r } if r == result()));
    assert!(matches!(effects[6], SolveEffect::Close));
    assert!(s.is_closed());
}

#[test]
fn source_count_is_sent_once_even_without_progress() {
    let id = uuid::Uuid::new_v4();
    let report = SolveReport { solution: None, timed_out: false, n_verified: 42, n_sources: 9 };
    let (msgs, effects, _) = run(
        id,
        vec![
            SolveEvent::UploadLookup { found: true },
            SolveEvent::JobMarked { outcome: Ok(()) },
            SolveEvent::SolveFinished { result: Ok(report) },
            SolveEvent::ResultRecorded { outcome: Ok(()) },
        ],
    );
    assert!(matches!(msgs[2], SolveServerMsg::Extracting { n_sources: Some(9) }));
    assert!(matches!(&effects[2], SolveEffect::RecordFailed { reason } if reason == "No solution found (42 candidates verified)"));
    assert!(matches!(&msgs[3], SolveServerMsg::Failed { reason } if reason == "No solution found (42 candidates verified)"));
    assert_eq!(msgs.len(), 4);
}

#[test]
fn timeout_reason() {
    let report = SolveReport { solution: None, timed_out: true, n_verified: 3, n_sources: 9 };
    assert_eq!(describe_failure(&report), "Solve timed out");
    let report = SolveReport { solution: None, timed_out: false, n_verified: 0, n_sources: 9 };
    assert_eq!(describe_failure(&report), "No solution found (0 candidates verified)");
}

#[test]
fn errors_end_the_session() {
    let id = uuid::Uuid::new_v4();
    let (msgs, _, s) = run(
        id,
        vec![
            SolveEvent::UploadLookup { found: true },
            SolveEvent::JobMarked { outcome: Err("database unavailable".to_string()) },
            SolveEvent::Progress { count: 3 },
        ],
    );
    assert_eq!(msgs.len(), 2);
    assert!(matches!(&msgs[1], SolveServerMsg::Failed { reason } if reason == "database unavailable"));
    assert!(s.is_closed());

    let (msgs, _, _) = run(
        id,
        vec![
            SolveEvent::UploadLookup { found: true },
            SolveEvent::JobMarked { outcome: Ok(()) },
            SolveEvent::SolveFinished { result: Err("Failed to decode image".to_string()) },
        ],
    );
    assert_eq!(msgs.len(), 3);
    assert!(matches!(&msgs[2], SolveServerMsg::Failed { reason } if reason == "Failed to decode image"));

    let report = SolveReport { solution: Some(result()), timed_out: false, n_verified: 1, n_sources: 9 };
    let (msgs, _, _) = run(
        id,
        vec![
            SolveEvent::UploadLookup { found: true },
            SolveEvent::JobMarked { outcome: Ok(()) },
            SolveEvent::Progress { count: 9 },
            SolveEvent::SolveFinished { result: Ok(report) },
            SolveEvent::ResultRecorded { outcome: Err("write failed".to_string()) },
        ],
    );
    assert_eq!(msgs.len(), 4);
    assert!(matches!(&msgs[3], SolveServerMsg::Failed { reason } if reason == "write failed"));
}

#[test]
fn unexpected_events_are_ignored() {
    let id = uuid::Uuid::new_v4();
    let (msgs, effects, s) = run(
        id,
        vec![
            SolveEvent::Progress { count: 3 },
            SolveEvent::ResultRecorded { outcome: Ok(()) },
        ],
    );
    assert!(msgs.is_empty());
    assert!(effects.iter().all(|e| matches!(e, SolveEffect::Wait)));
    assert!(!s.is_closed());
}

#[test]
fn progress_is_throttled() {
    assert!(!progress_due(0));
    assert!(!progress_due(250_000_000));
    assert!(progress_due(250_000_001));
    assert!(progress_due(std::time::Duration::from_micros(250_500).as_nanos()));
}
