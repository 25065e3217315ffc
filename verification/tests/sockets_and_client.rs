use zodiacal_web::app_socket::{greeting, notice_for, reply, AppConnection, JobNotice};
use zodiacal_web::binary64::Binary64;
use zodiacal_web::client::{
    activity_entry, backend_status, connect_failed_status, connecting_status, upload_failed_status,
    uploading_status, short_job_id, solve_update, stops_listening, upload_outcome, ws_solve_url,
    ClientUpdate, HEARTBEAT_INTERVAL_SECS,
};
use zodiacal_web::decimal::decimal_string;
use zodiacal_web::protocol::{ClientMsg, JobStatus, ServerMsg, SolveResult, SolveServerMsg};

#[test]
fn app_socket_replies() {
    assert!(matches!(greeting(), ServerMsg::Heartbeat));
    assert!(matches!(reply(Ok(ClientMsg::Ping)), ServerMsg::Heartbeat));
    let id = uuid::Uuid::new_v4();
    assert!(matches!(reply(Ok(ClientMsg::SubscribeJob { job_id: id })), ServerMsg::Heartbeat));
    match reply(Err("expected value at line 1".to_string())) {
        ServerMsg::Error { message } => assert_eq!(message, "Decode error: expected value at line 1"),
        other => panic!("Wrong variant: {other:?}"),
    }
}

#[test]
fn client_stops_on_shutdown_or_error() {
    let shutdown = ServerMsg::ServerShutdown { reason: "restarting".to_string(), reconnect_delay_ms: 1000 };
    assert!(stops_listening(&Ok(shutdown)));
    assert!(stops_listening(&Err("closed".to_string())));
    assert!(!stops_listening(&Ok(ServerMsg::Heartbeat)));
    assert_eq!(HEARTBEAT_INTERVAL_SECS, 5);
}

#[test]
fn solve_socket_url() {
    assert_eq!(ws_solve_url("https:", "example.org", "abc"), "wss://example.org/ws/solve/abc");
    assert_eq!(ws_solve_url("http:", "localhost:3000", "abc"), "ws://localhost:3000/ws/solve/abc");
}

#[test]
fn short_id_is_eight_characters() {
    let id = uuid::Uuid::from_u128(0x0123_4567_89ab_cdef_0123_4567_89ab_cdef);
    assert_eq!(short_job_id(&id.to_string()), "01234567");
}

fn status(u: ClientUpdate) -> String {
    match u {
        ClientUpdate::Status(s) => s,
        other => panic!("Wrong variant: {other:?}"),
    }
}

#[test]
fn status_lines() {
    let id = uuid::Uuid::new_v4();
    assert_eq!(status(solve_update("0123abcd", Ok(SolveServerMsg::Accepted { job_id: id }))), "Job 0123abcd — accepted");
    assert_eq!(
        status(solve_update("0123abcd", Ok(SolveServerMsg::Extracting { n_sources: Some(312) }))),
        "Job 0123abcd — 312 sources extracted"
    );
    assert_eq!(
        status(solve_update("0123abcd", Ok(SolveServerMsg::Extracting { n_sources: Some(0) }))),
        "Job 0123abcd — extracting sources..."
    );
    assert_eq!(
        status(solve_update("0123abcd", Ok(SolveServerMsg::Extracting { n_sources: None }))),
        "Job 0123abcd — extracting sources..."
    );
    assert_eq!(
        status(solve_update("0123abcd", Ok(SolveServerMsg::Solving { n_verified: 42 }))),
        "Job 0123abcd — solving (42 verified)..."
    );
    match solve_update("x", Ok(SolveServerMsg::Failed { reason: "timed out".to_string() })) {
        ClientUpdate::Finished(s) => assert_eq!(s, "Failed: timed out"),
        other => panic!("Wrong variant: {other:?}"),
    }
    match solve_update("x", Err("connection reset".to_string())) {
        ClientUpdate::Broken(s) => assert_eq!(s, "WS error: connection reset"),
        other => panic!("Wrong variant: {other:?}"),
    }
    let b = |x: f64| Binary64::from_bits(x.to_bits());
    let r = SolveResult {
        ra_deg: b(1.0),
        dec_deg: b(2.0),
        orientation_deg: b(3.0),
        pixel_scale_arcsec: b(4.0),
        field_width_deg: b(5.0),
        field_height_deg: b(6.0),
    };
    assert!(matches!(solve_update("x", Ok(SolveServerMsg::Solved { result: r })), ClientUpdate::Solved(s) if s == r));
}

#[test]
fn activity_and_upload_outcome() {
    assert_eq!(activity_entry("m31.png", "Failed: timed out"), "m31.png: Failed: timed out");
    assert_eq!(upload_outcome(200, "{}".to_string()), Ok("{}".to_string()));
    assert_eq!(upload_outcome(400, "bad".to_string()), Err("HTTP 400".to_string()));
    assert_eq!(upload_outcome(0, String::new()), Err("HTTP 0".to_string()));
}

#[test]
fn decimal_matches_display() {
    for n in [0u64, 1, 9, 10, 11, 99, 100, 12345, u64::MAX] {
        assert_eq!(decimal_string(n), n.to_string());
    }
}

#[test]
fn other_status_lines() {
    assert_eq!(uploading_status("m31.fits"), "Uploading m31.fits...");
    assert_eq!(upload_failed_status("HTTP 400"), "Upload failed: HTTP 400");
    assert_eq!(connecting_status("0123abcd"), "Job 0123abcd — connecting...");
    assert_eq!(connect_failed_status("refused"), "WS connect failed: refused");
    assert_eq!(backend_status(Some("ok")), "Backend: ok");
    assert_eq!(backend_status(None), "Checking backend...");
}

fn id(n: u128) -> uuid::Uuid {
    uuid::Uuid::from_u128(n)
}

#[test]
fn subscribed_client_gets_the_news_of_its_job_only() {
    let mut conn = AppConnection::new();
    assert!(conn.on_notice(JobNotice::Accepted { job_id: id(1) }).is_none());
    assert!(matches!(conn.on_client(Ok(ClientMsg::SubscribeJob { job_id: id(1) })), ServerMsg::Heartbeat));
    assert!(matches!(conn.on_client(Ok(ClientMsg::Ping)), ServerMsg::Heartbeat));
    assert!(matches!(conn.on_client(Err("bad".to_string())), ServerMsg::Error { .. }));
    assert!(conn.is_subscribed(&id(1)));
    assert!(!conn.is_subscribed(&id(2)));
    match conn.on_notice(JobNotice::Progress { job_id: id(1), status: JobStatus::Solving }) {
        Some(ServerMsg::JobProgress { job_id, status }) => {
            assert_eq!(job_id, id(1));
            assert_eq!(status, JobStatus::Solving);
        }
        other => panic!("Wrong message: {other:?}"),
    }
    assert!(conn.on_notice(JobNotice::Progress { job_id: id(2), status: JobStatus::Solving }).is_none());
    match conn.on_notice(JobNotice::Accepted { job_id: id(1) }) {
        Some(ServerMsg::JobAccepted { job_id }) => assert_eq!(job_id, id(1)),
        other => panic!("Wrong message: {other:?}"),
    }
}

#[test]
fn subscriptions_accumulate_and_repeat_harmlessly() {
    let mut conn = AppConnection::new();
    conn.on_client(Ok(ClientMsg::SubscribeJob { job_id: id(7) }));
    conn.on_client(Ok(ClientMsg::SubscribeJob { job_id: id(8) }));
    conn.on_client(Ok(ClientMsg::SubscribeJob { job_id: id(7) }));
    assert!(conn.is_subscribed(&id(7)));
    assert!(conn.is_subscribed(&id(8)));
    assert!(!conn.is_subscribed(&id(9)));
}

#[test]
fn solve_messages_make_job_notices() {
    let job = id(42);
    assert!(notice_for(job, &SolveServerMsg::Accepted { job_id: job }).is_none());
    assert!(matches!(
        notice_for(job, &SolveServerMsg::Extracting { n_sources: None }),
        Some(JobNotice::Progress { job_id, status: JobStatus::Solving }) if job_id == job
    ));
    assert!(notice_for(job, &SolveServerMsg::Extracting { n_sources: Some(12) }).is_none());
    assert!(notice_for(job, &SolveServerMsg::Solving { n_verified: 3 }).is_none());
    assert!(matches!(
        notice_for(job, &SolveServerMsg::Failed { reason: "no match".to_string() }),
        Some(JobNotice::Progress { job_id, status: JobStatus::Failed }) if job_id == job
    ));
    let r = SolveResult {
        ra_deg: Binary64::from_bits(1.5f64.to_bits()),
        dec_deg: Binary64::from_bits(2.5f64.to_bits()),
        orientation_deg: Binary64::from_bits(0.0f64.to_bits()),
        pixel_scale_arcsec: Binary64::from_bits(1.0f64.to_bits()),
        field_width_deg: Binary64::from_bits(1.0f64.to_bits()),
        field_height_deg: Binary64::from_bits(1.0f64.to_bits()),
    };
    match notice_for(job, &SolveServerMsg::Solved { result: r }) {
        Some(JobNotice::Completed { job_id, result }) => {
            assert_eq!(job_id, job);
            assert_eq!(result, r);
        }
        other => panic!("Wrong notice: {other:?}"),
    }
}
