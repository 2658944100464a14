use photobooth::camera::{
    new_camera, CameraError, CameraKind, CaptureStep, LibcameraSystemCamera, MockCamera,
};
use photobooth::clock::Timestamp;
use photobooth::cups_printer;
use photobooth::cups_printer::{brother_search_next, brother_search_start, BrotherSearch};
use photobooth::printer::{
    new_printer, BrotherHLL2405W, MockPrinter, PaperSize, PrintJob, PrintQuality, PrinterError,
    PrinterKind,
};

#[test]
fn camera_selection() {
    assert_eq!(new_camera("libcamera").ok(), Some(CameraKind::Libcamera));
    assert_eq!(new_camera("mock").ok(), Some(CameraKind::Mock));
    match new_camera("webcam") {
        Err(CameraError::UnknownType(t)) => assert_eq!(t, "webcam"),
        _ => panic!("expected an unknown type"),
    }
}

#[test]
fn camera_error_messages() {
    assert_eq!(CameraError::Busy.message(), "Camera is busy, please try again");
    assert_eq!(
        CameraError::UnknownType("x".into()).message(),
        "Unknown camera type requested: x"
    );
    assert_eq!(CameraError::Io("denied".into()).message(), "Camera IO Error: denied");
    assert_eq!(
        CameraError::CommandFailed("boom".into()).message(),
        "Command execution failed: boom"
    );
    assert_eq!(
        CameraError::NotFound("/dev/video0".into()).message(),
        "Camera not found at device path: /dev/video0"
    );
    assert_eq!(
        CameraError::DeviceError("e".into()).message(),
        "Failed to access camera device with rscam: e"
    );
    assert_eq!(
        CameraError::ImageDecodeError("e".into()).message(),
        "Failed to decode image from camera frame: e"
    );
}

#[test]
fn photo_file_names() {
    assert_eq!(MockCamera::photo_filename(1700000000), "./photos/photo_1700000000.jpg");
    let cam = LibcameraSystemCamera::new(true).ok().unwrap();
    assert_eq!(cam.output_dir, "./photos");
    assert_eq!(cam.photo_filename(5), "./photos/photo_5.jpg");
    assert_eq!(cam.kind_name(), "libcamera-system");
    assert_eq!(MockCamera.kind_name(), "mock");
    match LibcameraSystemCamera::new(false) {
        Err(CameraError::NotFound(m)) => assert_eq!(m, "libcamera-still command not found"),
        _ => panic!("expected not found"),
    }
}

#[test]
fn capture_arguments() {
    assert_eq!(
        LibcameraSystemCamera::capture_args("out.jpg"),
        vec![
            "--output", "out.jpg", "--width", "1280", "--height", "720", "--quality", "95",
            "--timeout", "3000", "--nopreview", "--immediate"
        ]
    );
}

#[test]
fn capture_failures_are_told_apart() {
    assert!(matches!(
        LibcameraSystemCamera::capture_failure(b"ERROR: Pipeline handler in use by another process"),
        CameraError::Busy
    ));
    assert!(matches!(
        LibcameraSystemCamera::capture_failure(b"open: Device or resource busy"),
        CameraError::Busy
    ));
    match LibcameraSystemCamera::capture_failure(b"no cameras available\xff") {
        CameraError::CommandFailed(m) => {
            assert_eq!(m, "libcamera-still failed: no cameras available\u{fffd}")
        }
        _ => panic!("expected a failed command"),
    }
}

#[test]
fn busy_captures_retry_up_to_five_times() {
    for attempt in 1..5 {
        match LibcameraSystemCamera::after_capture(attempt, Err(CameraError::Busy)) {
            CaptureStep::Retry { next_attempt } => assert_eq!(next_attempt, attempt + 1),
            _ => panic!("expected a retry"),
        }
    }
    assert!(matches!(
        LibcameraSystemCamera::after_capture(5, Err(CameraError::Busy)),
        CaptureStep::Fail(CameraError::Busy)
    ));
    assert!(matches!(LibcameraSystemCamera::after_capture(3, Ok(())), CaptureStep::Done));
    assert!(matches!(
        LibcameraSystemCamera::after_capture(1, Err(CameraError::Io("x".into()))),
        CaptureStep::Fail(CameraError::Io(_))
    ));
}

#[test]
fn printer_selection() {
    assert_eq!(new_printer("brother-hl-l2405w").ok(), Some(PrinterKind::BrotherHLL2405W));
    assert_eq!(new_printer("mock").ok(), Some(PrinterKind::Mock));
    match new_printer("laser") {
        Err(PrinterError::UnknownType(t)) => assert_eq!(t, "laser"),
        _ => panic!("expected an unknown type"),
    }
}

#[test]
fn printer_error_messages() {
    assert_eq!(PrinterError::NotFound.message(), "Printer not found or not connected");
    assert_eq!(PrinterError::UnknownType("z".into()).message(), "Unknown printer type requested: z");
    assert_eq!(PrinterError::PrintFailed("jam".into()).message(), "Print job failed: jam");
    assert_eq!(PrinterError::FileNotFound("a.jpg".into()).message(), "File not found: a.jpg");
    assert_eq!(PrinterError::Io("e".into()).message(), "IO Error: e");
    assert_eq!(PrinterError::ImageError("e".into()).message(), "Image processing error: e");
}

#[test]
fn default_print_job() {
    let job = PrintJob::default();
    assert_eq!(job.file_path, "");
    assert_eq!(job.copies, 1);
    assert_eq!(job.paper_size, PaperSize::Letter);
    assert_eq!(job.quality, PrintQuality::Normal);
}

#[test]
fn brother_name_from_lpstat() {
    let listing = "printer Office_Laser is idle.  enabled since Mon\nprinter Brother_HL_L2405W_series is idle.  enabled since Tue\n";
    assert_eq!(BrotherHLL2405W::name_from_listing(listing), "Brother_HL_L2405W_series");
    assert_eq!(BrotherHLL2405W::name_from_listing("printer Office is idle\n"), "Brother_HL-L2405W");
    assert_eq!(BrotherHLL2405W::name_from_listing("HL-L2405W\n"), "Brother_HL-L2405W");
    assert_eq!(BrotherHLL2405W::name_from_listing(""), "Brother_HL-L2405W");
    match BrotherHLL2405W::new(true, b"printer HL-L2405W-usb disabled\n") {
        Ok(p) => assert_eq!(p.printer_name, "HL-L2405W-usb"),
        Err(_) => panic!("expected a printer"),
    }
    assert!(matches!(BrotherHLL2405W::new(false, b""), Err(PrinterError::NotFound)));
}

#[test]
fn print_copy_sits_beside_the_photo() {
    assert_eq!(
        BrotherHLL2405W::print_copy_path("./photos/photo_9.jpg"),
        "./photos/print_photo_9.jpg"
    );
    assert_eq!(BrotherHLL2405W::print_copy_path("photo.jpg"), "print_photo.jpg");
    assert_eq!(BrotherHLL2405W::try_print_copy_path("photos/.."), None);
    assert_eq!(
        BrotherHLL2405W::try_print_copy_path("/tmp/x.png"),
        Some("/tmp/print_x.png".to_string())
    );
}

#[test]
fn lp_command_for_a_job() {
    let p = BrotherHLL2405W { printer_name: "Brother_HL-L2405W".into() };
    let job = PrintJob {
        file_path: "a.jpg".into(),
        copies: 2,
        paper_size: PaperSize::Photo4x6,
        quality: PrintQuality::High,
    };
    assert_eq!(
        p.lp_args(&job, "print_a.jpg"),
        vec!["-d", "Brother_HL-L2405W", "-n", "2", "-o", "media=4x6", "-o", "print-quality=5", "print_a.jpg"]
    );
    assert_eq!(p.kind_name(), "brother-hl-l2405w");
}

#[test]
fn lp_answers() {
    match BrotherHLL2405W::lp_outcome(true, b"  request id is Brother-12 (1 file(s))\n", b"") {
        Ok(id) => assert_eq!(id, "request id is Brother-12 (1 file(s))"),
        Err(_) => panic!("expected a job"),
    }
    match BrotherHLL2405W::lp_outcome(false, b"", b"lp: error") {
        Err(PrinterError::PrintFailed(m)) => assert_eq!(m, "lp: error"),
        _ => panic!("expected a failure"),
    }
    assert!(BrotherHLL2405W::copy_to_remove("print_a.jpg", "a.jpg"));
    assert!(!BrotherHLL2405W::copy_to_remove("a.jpg", "a.jpg"));
}

#[test]
fn lpstat_readiness_and_status() {
    assert!(BrotherHLL2405W::ready_from_listing(Some(b"printer B is idle. enabled since x")));
    assert!(!BrotherHLL2405W::ready_from_listing(Some(b"printer B disabled since x")));
    assert!(!BrotherHLL2405W::ready_from_listing(None));
    let st = BrotherHLL2405W::status_from_listing(b"printer B disabled since x");
    assert!(!st.is_online);
    assert_eq!(st.error_message.as_deref(), Some("Printer is disabled or has an error"));
    let ok = BrotherHLL2405W::status_from_listing(b"printer B is idle. enabled");
    assert!(ok.is_online);
    assert!(ok.error_message.is_none());
    assert!(ok.paper_level.is_none());
}

#[test]
fn mock_printer_reports() {
    let m = MockPrinter::new();
    assert!(m.is_ready());
    let st = m.get_status();
    assert!(st.is_online);
    assert_eq!(st.paper_level.as_deref(), Some("Full"));
    assert_eq!(st.toner_level.as_deref(), Some("75%"));
    assert_eq!(MockPrinter::job_id(1700000000), "mock-job-1700000000");
    assert_eq!(m.kind_name(), "mock");
}

#[test]
fn cups_printer_choice() {
    let names: Vec<String> = vec!["Office".into(), "BROTHER".into(), "Brother_HL".into()];
    assert_eq!(cups_printer::choose_printer(&names, "brother"), Some(1));
    assert_eq!(cups_printer::choose_printer(&names, "HL-L2405W"), Some(1));
    assert_eq!(cups_printer::choose_printer(&names, "brother_hl"), Some(2));
    let others: Vec<String> = vec!["Office".into(), "Canon".into()];
    assert_eq!(cups_printer::choose_printer(&others, "canon"), Some(1));
    assert_eq!(cups_printer::choose_printer(&others, "brother"), None);
    match cups_printer::printer_not_found("brother") {
        cups_printer::PrinterError::NotFound(m) => assert_eq!(m, "Printer 'brother' not found in CUPS"),
        _ => panic!("expected not found"),
    }
}

#[test]
fn cups_job_options() {
    let job = cups_printer::PrintJob {
        file_path: "a.jpg".into(),
        copies: 3,
        paper_size: cups_printer::PaperSize::Photo5x7,
        quality: cups_printer::PrintQuality::Draft,
    };
    let want: Vec<(String, String)> = [
        ("copies", "3"),
        ("media", "5x7"),
        ("print-quality", "draft"),
        ("media-type", "photo"),
        ("print-color-mode", "color"),
    ]
    .iter()
    .map(|(k, v)| (k.to_string(), v.to_string()))
    .collect();
    assert_eq!(cups_printer::job_options(&job), want);
    let t = Timestamp::from_unix(1_700_000_000, 0).unwrap();
    assert_eq!(cups_printer::job_title(&t), "PhotoBooth-20231114-221320");
}

#[test]
fn cups_outcomes_and_messages() {
    assert_eq!(cups_printer::print_outcome(Ok(17)).ok(), Some("17".to_string()));
    match cups_printer::print_outcome(Err("no such printer".into())) {
        Err(cups_printer::PrinterError::PrintFailed(m)) => assert_eq!(m, "CUPS error: no such printer"),
        _ => panic!("expected a failure"),
    }
    assert_eq!(cups_printer::missing_file("a.jpg").message(), "IO error: File not found: a.jpg");
    assert_eq!(cups_printer::not_initialized().message(), "Printer not ready: Printer not initialized");
    assert_eq!(
        cups_printer::brother_not_found().message(),
        "Printer not found: Brother printer not found with any expected name"
    );
    assert_eq!(cups_printer::PrinterError::PrintFailed("x".into()).message(), "Print failed: x");
    let st = cups_printer::cups_status(true);
    assert!(st.is_online && st.paper_level.is_none() && st.error_message.is_none());
    assert_eq!(cups_printer::brother_kind_name(), "Brother CUPS Printer");
}

#[test]
fn cups_mock_printer() {
    let m = cups_printer::MockPrinter;
    let st = m.get_status();
    assert_eq!(st.paper_level, Some(85));
    assert_eq!(st.toner_level, Some(60));
    assert!(m.is_ready());
    assert_eq!(m.kind_name(), "Mock Printer");
    let id = cups_printer::MockPrinter::new_job_id();
    assert!(id.starts_with("mock-job-"));
    let hex = &id["mock-job-".len()..];
    assert_eq!(hex.len(), 32);
    assert!(hex.chars().all(|c| c.is_ascii_digit() || ('a'..='f').contains(&c)));
    assert_eq!(cups_printer::MockPrinter::job_id_with("abc"), "mock-job-abc");
}

#[test]
fn cups_printer_configurations() {
    match cups_printer::new_printer("brother-hl-l2405w") {
        Ok(cups_printer::CupsPrinterKind::Brother(names)) => {
            assert_eq!(names, vec!["brother", "Brother", "HL-L2405W", "Brother_HL-L2405W"])
        }
        _ => panic!("expected the brother printer"),
    }
    assert!(matches!(cups_printer::new_printer("mock"), Ok(cups_printer::CupsPrinterKind::Mock)));
    match cups_printer::new_printer("inkjet") {
        Err(cups_printer::PrinterError::NotFound(m)) => assert_eq!(m, "Unknown printer type: inkjet"),
        _ => panic!("expected not found"),
    }
}

#[test]
fn freeing_the_camera() {
    let cmds = LibcameraSystemCamera::freeing_commands();
    assert_eq!(cmds.len(), 8);
    assert_eq!(cmds[0], vec!["systemctl", "--user", "stop", "pipewire-pulse"]);
    assert_eq!(cmds[6], vec!["pkill", "-f", "rpicam-vid"]);
    assert_eq!(cmds[7][0], "bash");
    assert_eq!(LibcameraSystemCamera::settle_millis(), 1500);
    assert_eq!(LibcameraSystemCamera::retry_pause_millis(), 2000);
}

#[test]
fn brother_search_tries_each_name_in_turn() {
    let names: Vec<String> =
        vec!["brother".into(), "Brother".into(), "HL-L2405W".into(), "Brother_HL-L2405W".into()];
    assert_eq!(brother_search_start(&names), BrotherSearch::Try(0));
    assert_eq!(brother_search_start(&Vec::new()), BrotherSearch::NotFound);
    assert_eq!(brother_search_next(&names, 0, false), BrotherSearch::Try(1));
    assert_eq!(brother_search_next(&names, 1, true), BrotherSearch::Found(1));
    assert_eq!(brother_search_next(&names, 2, false), BrotherSearch::Try(3));
    assert_eq!(brother_search_next(&names, 3, false), BrotherSearch::NotFound);
    assert_eq!(brother_search_next(&names, 3, true), BrotherSearch::Found(3));
    match cups_printer::brother_not_found() {
        cups_printer::PrinterError::NotFound(m) => {
            assert_eq!(m, "Brother printer not found with any expected name")
        }
        _ => panic!("expected not found"),
    }
}
