use photobooth::camera::CameraError;
use photobooth::clock::Timestamp;
use photobooth::handlers::{
    clear_session, get_session_status, print_photo, record_print, retake_photo, select_companion,
    select_land, select_weapon, start_countdown, start_session, submit_email, submit_email_at,
    submit_names, AppState, CountdownReply, EmailOutcome, EmailPayload, NamesPayload, PrintRefusal,
    PrintReply, SelectionPayload, StatusCode,
};
use photobooth::printer::{PaperSize, PrintQuality, PrinterError};
use photobooth::server::{
    image_asset_path, image_content_type, image_etag, kiosk_mode, server_mode, ServerMode,
};
use photobooth::session::PhotoSession;

fn sel(id: &str) -> SelectionPayload {
    SelectionPayload { id: id.to_string() }
}

fn booth_with_session() -> AppState {
    let mut st = AppState::new();
    st.current_session =
        Some(PhotoSession::new_at(10, Timestamp::from_unix(10, 0).unwrap()));
    st
}

#[test]
fn starting_sessions_counts_them() {
    let mut st = AppState::new();
    assert_eq!(start_session(&mut st), Some(1));
    assert_eq!(start_session(&mut st), Some(2));
    assert_eq!(st.session_count, 2);
    let s = st.current_session.as_ref().unwrap();
    assert!(s.session_id.starts_with("session_"));
    assert_eq!(s.retakes_used, 0);
    assert!(s.user_names.is_none());
}

#[test]
fn selections_need_a_session() {
    let mut st = AppState::new();
    assert_eq!(select_weapon(&mut st, sel("axe")), StatusCode::Conflict);
    assert_eq!(submit_names(&mut st, NamesPayload { names: vec!["A".into()] }), StatusCode::Conflict);
    assert!(st.current_session.is_none());
    assert_eq!(StatusCode::Conflict.code(), 409);
}

#[test]
fn selections_are_recorded() {
    let mut st = booth_with_session();
    assert_eq!(select_weapon(&mut st, sel("axe")), StatusCode::Success);
    assert_eq!(select_land(&mut st, sel("desert")), StatusCode::Success);
    assert_eq!(select_companion(&mut st, sel("owl")), StatusCode::Success);
    let s = st.current_session.as_ref().unwrap();
    assert_eq!(s.weapon.as_deref(), Some("axe"));
    assert_eq!(s.land.as_deref(), Some("desert"));
    assert_eq!(s.companion.as_deref(), Some("owl"));
    assert_eq!(StatusCode::Success.code(), 200);
}

#[test]
fn countdown_stores_the_photo() {
    let mut st = booth_with_session();
    let reply = start_countdown(&mut st, Ok("./photos/photo_1.jpg".into()));
    assert_eq!(reply.status(), StatusCode::Success);
    match reply {
        CountdownReply::Captured { photo_path } => assert_eq!(photo_path, "./photos/photo_1.jpg"),
        _ => panic!("expected a photo"),
    }
    assert_eq!(
        st.current_session.as_ref().unwrap().photo_path.as_deref(),
        Some("./photos/photo_1.jpg")
    );
    let mut empty = AppState::new();
    let r = start_countdown(&mut empty, Ok("x.jpg".into()));
    assert!(matches!(r, CountdownReply::NoSession));
    assert_eq!(r.status(), StatusCode::Conflict);
}

#[test]
fn countdown_failure_messages() {
    let mut st = booth_with_session();
    let msg = |r: CountdownReply| match r {
        CountdownReply::Failed { message } => message,
        _ => panic!("expected a failure"),
    };
    assert_eq!(
        msg(start_countdown(&mut st, Err(CameraError::Busy))),
        "Camera is busy, please try again in a moment"
    );
    assert_eq!(
        msg(start_countdown(
            &mut st,
            Err(CameraError::CommandFailed("Pipeline handler in use".into()))
        )),
        "Camera is being used by another process"
    );
    assert_eq!(
        msg(start_countdown(&mut st, Err(CameraError::Io("x".into())))),
        "Failed to take photo, please try again"
    );
    assert!(st.current_session.as_ref().unwrap().photo_path.is_none());
}

#[test]
fn retakes_are_limited() {
    let mut st = booth_with_session();
    retake_photo(&mut st);
    retake_photo(&mut st);
    let status = get_session_status(&st).unwrap();
    assert_eq!(status.retakes_used, 1);
    assert_eq!(status.max_retakes, 1);
    assert!(!status.can_retake);
    let mut empty = AppState::new();
    retake_photo(&mut empty);
    assert!(empty.current_session.is_none());
}

#[test]
fn session_status_reports() {
    assert!(get_session_status(&AppState::new()).is_none());
    let st = booth_with_session();
    let status = get_session_status(&st).unwrap();
    assert_eq!(status.session_id, "session_10");
    assert!(!status.has_photo);
    assert!(status.can_retake);
    assert!(!status.is_complete);
    assert!(status.email.is_none());
}

#[test]
fn email_must_not_be_blank() {
    let mut st = booth_with_session();
    let r = submit_email(&mut st, EmailPayload { email: " \t ".into() }).unwrap();
    assert!(matches!(r, EmailOutcome::EmptyEmail));
    assert_eq!(r.status(), StatusCode::BadRequest);
    assert_eq!(r.message(), "Email cannot be empty");
    assert!(st.current_session.as_ref().unwrap().email.is_none());
}

#[test]
fn email_without_session() {
    let mut st = AppState::new();
    let r = submit_email(&mut st, EmailPayload { email: "a@b".into() }).unwrap();
    assert!(matches!(r, EmailOutcome::NoSession));
    assert_eq!(r.message(), "No active session found");
}

#[test]
fn incomplete_session_names_what_is_missing() {
    let mut st = booth_with_session();
    let r = submit_email(&mut st, EmailPayload { email: "a@b".into() }).unwrap();
    assert_eq!(r.message(), "Session is incomplete. Missing: names, photo");
    assert_eq!(st.current_session.as_ref().unwrap().email.as_deref(), Some("a@b"));
    submit_names(&mut st, NamesPayload { names: vec!["Ann".into()] });
    let r2 = submit_email(&mut st, EmailPayload { email: "a@b".into() }).unwrap();
    assert_eq!(r2.message(), "Session is incomplete. Missing: photo");
}

#[test]
fn complete_session_yields_its_record() {
    let mut st = booth_with_session();
    submit_names(&mut st, NamesPayload { names: vec!["Ann".into(), "Bo".into()] });
    select_weapon(&mut st, sel("bow"));
    start_countdown(&mut st, Ok("p.jpg".into()));
    let now = Timestamp::from_unix(75, 0).unwrap();
    let r = submit_email_at(&mut st, EmailPayload { email: "ann@x.y".into() }, &now);
    assert_eq!(r.status(), StatusCode::Success);
    assert_eq!(r.message(), "Photo session completed! Check your email.");
    match r {
        EmailOutcome::Completed(rec) => {
            assert_eq!(rec.session_id, "session_10");
            assert_eq!(rec.names, vec!["Ann".to_string(), "Bo".to_string()]);
            assert_eq!(rec.weapon_choice.as_deref(), Some("bow"));
            assert_eq!(rec.photo_path.as_deref(), Some("p.jpg"));
            assert_eq!(rec.email.as_deref(), Some("ann@x.y"));
            assert_eq!(rec.session_duration_seconds, Some(65));
        }
        _ => panic!("expected a completed session"),
    }
    clear_session(&mut st);
    assert!(st.current_session.is_none());
}

#[test]
fn printing_needs_a_photo() {
    let st = AppState::new();
    match print_photo(&st) {
        Err(r) => {
            assert!(matches!(r, PrintRefusal::NoSession));
            assert_eq!(r.message(), "No active session");
        }
        Ok(_) => panic!("expected a refusal"),
    }
    let mut st = booth_with_session();
    match print_photo(&st) {
        Err(r) => assert_eq!(r.message(), "No photo available to print"),
        Ok(_) => panic!("expected a refusal"),
    }
    start_countdown(&mut st, Ok("p.jpg".into()));
    let job = print_photo(&st).ok().unwrap();
    assert_eq!(job.file_path, "p.jpg");
    assert_eq!(job.copies, 1);
    assert_eq!(job.paper_size, PaperSize::Photo4x6);
    assert_eq!(job.quality, PrintQuality::Normal);
}

#[test]
fn print_results_are_recorded() {
    let mut st = booth_with_session();
    match record_print(&mut st, Ok("job-7".into())) {
        PrintReply::Printed { job_id } => assert_eq!(job_id, "job-7"),
        _ => panic!("expected a job"),
    }
    assert_eq!(st.current_session.as_ref().unwrap().print_job_id.as_deref(), Some("job-7"));
    match record_print(&mut st, Err(PrinterError::PrintFailed("jam".into()))) {
        PrintReply::Failed { message } => {
            assert_eq!(message, "Failed to print: Print job failed: jam")
        }
        _ => panic!("expected a failure"),
    }
}

#[test]
fn embedded_images() {
    assert_eq!(image_content_type("a.jpg"), "image/jpeg");
    assert_eq!(image_content_type("a.jpeg"), "image/jpeg");
    assert_eq!(image_content_type("a.png"), "image/png");
    assert_eq!(image_content_type("a.gif"), "application/octet-stream");
    assert_eq!(image_asset_path("logo.png"), "static/images/logo.png");
    assert_eq!(image_etag("logo.png"), "\"logo.png\"");
}

#[test]
fn server_modes() {
    assert_eq!(server_mode(true, true, true), ServerMode::Http);
    assert_eq!(server_mode(false, true, true), ServerMode::Https);
    assert_eq!(server_mode(false, true, false), ServerMode::Http);
    assert!(kiosk_mode(false, false, &vec!["booth".into(), "--kiosk".into()]));
    assert!(!kiosk_mode(false, false, &vec!["booth".into()]));
    assert!(kiosk_mode(true, false, &vec![]));
}

#[test]
fn unicode_blank_email_is_refused() {
    let mut st = booth_with_session();
    let r = submit_email(&mut st, EmailPayload { email: "\u{3000}\u{a0}\n".into() }).unwrap();
    assert!(matches!(r, EmailOutcome::EmptyEmail));
    let r2 = submit_email(&mut st, EmailPayload { email: " x ".into() }).unwrap();
    assert!(!matches!(r2, EmailOutcome::EmptyEmail));
    assert_eq!(st.current_session.as_ref().unwrap().email.as_deref(), Some(" x "));
}

#[test]
fn requests_without_session_change_nothing() {
    let mut st = AppState::new();
    assert_eq!(select_land(&mut st, sel("sea")), StatusCode::Conflict);
    assert_eq!(select_companion(&mut st, sel("cat")), StatusCode::Conflict);
    retake_photo(&mut st);
    let _ = start_countdown(&mut st, Ok("p.jpg".into()));
    let _ = record_print(&mut st, Ok("job".into()));
    assert!(st.current_session.is_none());
    assert_eq!(st.session_count, 0);
}

#[test]
fn each_start_adds_one_to_the_count() {
    let mut st = AppState::new();
    st.session_count = 41;
    for expected in 42..47u32 {
        assert_eq!(start_session(&mut st), Some(expected));
    }
    assert_eq!(st.session_count, 46);
}

#[test]
fn print_answers_carry_status_and_message() {
    assert_eq!(PrintRefusal::NoSession.status(), StatusCode::NotFound);
    assert_eq!(PrintRefusal::NoPhoto.status().code(), 404);
    assert_eq!(PrintRefusal::NoSession.message(), "No active session");
    let printed = PrintReply::Printed { job_id: "job-1".into() };
    assert_eq!(printed.status().code(), 200);
    assert_eq!(printed.message(), "Photo sent to printer!");
    let failed = PrintReply::Failed { message: "Failed to print: jam".into() };
    assert_eq!(failed.status().code(), 500);
    assert_eq!(failed.message(), "Failed to print: jam");
}

#[test]
fn countdown_answers_carry_their_message() {
    let mut st = AppState::new();
    let reply = start_countdown(&mut st, Ok("./photos/p.jpg".into()));
    assert_eq!(reply.status().code(), 409);
    assert_eq!(reply.message().as_deref(), Some("No active session"));
    let mut st = booth_with_session();
    let reply = start_countdown(&mut st, Ok("./photos/p.jpg".into()));
    assert_eq!(reply.status().code(), 200);
    assert_eq!(reply.message(), None);
    let reply = start_countdown(&mut st, Err(CameraError::Busy));
    assert_eq!(reply.message().as_deref(), Some("Camera is busy, please try again in a moment"));
}
