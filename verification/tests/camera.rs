use olympus_air::commands::{
    backoff_delay_ms, connect_advance, connect_steps, init_step_result, init_steps,
    start_live_view_command, start_live_view_result, stop_live_view, stop_live_view_command,
    verify_result, CameraError, ConnectAction, ConnectProgress,
};
use olympus_air::listing::extract_image_names;
use olympus_air::photo::{new_images, raw_photo_preamble};
use olympus_air::responses::{
    classify_binary_body, delete_attempt_succeeded, error_body_salvageable, image_data_acceptable,
    image_viewable, is_error_text, BinaryVerdict,
};
use olympus_air::urls::{
    delete_urls, direct_image_urls, download_urls, higher_resolution_url, image_data_urls,
    image_list_url, join_url, normalize_base_url, play_mode_url, resolution_url, take_photo_url,
    UrlFormatGenerator,
};

#[test]
fn init_sequence_is_fixed() {
    let steps = init_steps();
    assert_eq!(
        steps,
        vec![
            "get_connectmode.cgi",
            "switch_cameramode.cgi?mode=rec",
            "get_state.cgi",
            "exec_takemisc.cgi?com=stopliveview",
        ]
    );
    assert_eq!(init_step_result(true), Ok(300));
    assert_eq!(init_step_result(false), Err(CameraError::InitFailed));
    assert_eq!(start_live_view_result(true), Ok(1000));
    assert_eq!(start_live_view_result(false), Err(CameraError::StartFailed));
}

#[test]
fn live_view_commands_carry_the_port() {
    assert_eq!(
        start_live_view_command(65001),
        "exec_takemisc.cgi?com=startliveview&port=65001"
    );
    assert_eq!(
        start_live_view_command(80),
        "exec_takemisc.cgi?com=startliveview&port=80"
    );
    assert_eq!(stop_live_view_command(), "exec_takemisc.cgi?com=stopliveview");
}

#[test]
fn stop_live_view_reports_the_command_outcome() {
    assert_eq!(stop_live_view(true), Ok(()));
    assert_eq!(stop_live_view(false), Err(CameraError::StopFailed));
}

#[test]
fn connection_advances_with_growing_delays() {
    let steps = connect_steps();
    assert_eq!(steps.len(), 4);
    assert_eq!(steps[3], "exec_takemisc.cgi?com=startliveview&port=5555");
    let mut p = ConnectProgress { step: 0, attempts: 0 };
    assert_eq!(
        connect_advance(&mut p, 4, true),
        ConnectAction::NextStep { delay_ms: 500 }
    );
    assert_eq!(p, ConnectProgress { step: 1, attempts: 0 });
    assert_eq!(
        connect_advance(&mut p, 4, false),
        ConnectAction::Retry { delay_ms: 500 }
    );
    assert_eq!(p, ConnectProgress { step: 1, attempts: 1 });
    assert_eq!(
        connect_advance(&mut p, 4, false),
        ConnectAction::Retry { delay_ms: 1000 }
    );
    assert_eq!(connect_advance(&mut p, 4, false), ConnectAction::Fail);
    let mut q = ConnectProgress { step: 3, attempts: 0 };
    assert_eq!(
        connect_advance(&mut q, 4, true),
        ConnectAction::Verify { delay_ms: 1000 }
    );
    assert_eq!(verify_result(true), Ok(()));
    assert_eq!(verify_result(false), Err(CameraError::VerifyFailed));
}

#[test]
fn backoff_doubles_per_retry() {
    assert_eq!(backoff_delay_ms(0), 500);
    assert_eq!(backoff_delay_ms(1), 1000);
    assert_eq!(backoff_delay_ms(2), 2000);
    assert_eq!(backoff_delay_ms(3), 4000);
}

#[test]
fn base_urls_get_their_trailing_slash() {
    assert_eq!(normalize_base_url("http://192.168.0.10"), "http://192.168.0.10/");
    assert_eq!(normalize_base_url("http://192.168.0.10/"), "http://192.168.0.10/");
    assert_eq!(join_url("http://c/", "get_state.cgi"), "http://c/get_state.cgi");
    assert_eq!(join_url("http://c/", "http://elsewhere/x"), "http://elsewhere/x");
}

#[test]
fn url_formats_cover_the_documented_variants() {
    let formats = UrlFormatGenerator::generate_url_formats("http://c/", "p1010001.jpg");
    assert_eq!(formats.len(), 10);
    assert_eq!(
        formats[0],
        "http://c/get_thumbnail.cgi?DIR=/DCIM/100OLYMP&FILE=p1010001.jpg&size=1024"
    );
    assert_eq!(formats[3], "http://c/DCIM/100OLYMP/p1010001.jpg");
    assert_eq!(
        formats[8],
        "http://c/get_thumbnail.cgi?DIR=/DCIM/100OLYMP&FILE=P1010001.JPG&size=1024"
    );
    assert_eq!(
        formats[9],
        "http://c/get_thumbnail.cgi?DIR=/dcim/100olymp&FILE=p1010001.jpg&size=1024"
    );
}

#[test]
fn operation_urls_are_exact() {
    let d = download_urls("http://c/", "P1.JPG");
    assert_eq!(d[0], "http://c/get_thumbnail.cgi?DIR=/DCIM/100OLYMP&FILE=P1.JPG");
    assert_eq!(d[2], "http://c/get_img.cgi?DIR=/DCIM/100OLYMP&FILE=P1.JPG");
    let i = image_data_urls("http://c/", "P1.JPG");
    assert_eq!(i.len(), 7);
    assert_eq!(i[4], "http://c//DCIM/100OLYMP/P1.JPG");
    let del = delete_urls("http://c/", "P1.JPG");
    assert_eq!(del[0], "http://c/exec_erase.cgi?DIR=/DCIM/100OLYMP&FILE=P1.JPG");
    assert_eq!(del[1], "http://c/exec_erase.cgi?com=exec&DIR=/DCIM/100OLYMP&FILE=P1.JPG");
    assert_eq!(del[2], "http://c/exec_erase.cgi?DIR=/DCIM/100OLYMP/P1.JPG");
    assert_eq!(play_mode_url("http://c/"), "http://c/switch_cameramode.cgi?mode=play");
    assert_eq!(image_list_url("http://c/"), "http://c/get_imglist.cgi?DIR=/DCIM/100OLYMP");
    assert_eq!(take_photo_url("http://c/"), "http://c/exec_takemotion.cgi?com=newstarttake");
    let direct = direct_image_urls("http://c/", "P1.JPG");
    assert_eq!(direct[1], "http://c//DCIM/100OLYMP/P1.JPG");
}

#[test]
fn higher_resolution_doubles_the_size_suffix() {
    assert_eq!(
        higher_resolution_url("http://c/get_thumbnail.cgi?FILE=a&size=1024"),
        "http://c/get_thumbnail.cgi?FILE=a&size=2048"
    );
    assert_eq!(
        higher_resolution_url("http://c/DCIM/100OLYMP/P1.JPG"),
        "http://c/DCIM/100OLYMP/P1.JPG"
    );
}

#[test]
fn resolution_names_pick_their_endpoints() {
    assert_eq!(
        resolution_url("/DCIM/100OLYMP/P1.JPG", "thumbnail"),
        "get_thumbnail.cgi?DIR=/DCIM/100OLYMP/P1.JPG&size=1024"
    );
    assert_eq!(
        resolution_url("/DCIM/100OLYMP/P1.JPG", "LOW"),
        "get_thumbnail.cgi?DIR=/DCIM/100OLYMP/P1.JPG&size=1024"
    );
    assert_eq!(
        resolution_url("/DCIM/100OLYMP/P1.JPG", "Medium"),
        "get_resized_img.cgi?DIR=/DCIM/100OLYMP/P1.JPG&size=2048"
    );
    assert_eq!(
        resolution_url("/DCIM/100OLYMP/P1.JPG", "high"),
        "get_img.cgi?DIR=/DCIM/100OLYMP/P1.JPG"
    );
    assert_eq!(
        resolution_url("/DCIM/100OLYMP/P1.JPG", "FULL"),
        "get_img.cgi?DIR=/DCIM/100OLYMP/P1.JPG"
    );
    assert_eq!(
        resolution_url("/DCIM/100OLYMP/P1.JPG", "whatever"),
        "get_thumbnail.cgi?DIR=/DCIM/100OLYMP/P1.JPG&size=1024"
    );
}

#[test]
fn bodies_are_classified_by_their_bytes() {
    assert_eq!(classify_binary_body(&[0xff, 0xd8, 1, 2]), BinaryVerdict::ValidJpeg);
    assert_eq!(
        classify_binary_body(b"ERROR: no such file here"),
        BinaryVerdict::ErrorText
    );
    assert_eq!(
        classify_binary_body(b"an error happened somewhere"),
        BinaryVerdict::ErrorText
    );
    assert_eq!(
        classify_binary_body(b"404 Not Found on this camera"),
        BinaryVerdict::ErrorText
    );
    assert_eq!(classify_binary_body(b"binary-ish"), BinaryVerdict::Unrecognized);
    // Ten bytes or fewer never count as error text.
    assert_eq!(classify_binary_body(b"ERROR"), BinaryVerdict::Unrecognized);
    assert!(!is_error_text(b"ERROR"));
    assert!(image_data_acceptable(&[0xff, 0xd8]));
    assert!(image_data_acceptable(b"unrecognized data here"));
    assert!(!image_data_acceptable(b"ERROR: not an image at all"));
}

#[test]
fn viewable_images_need_length_and_marker() {
    let mut big = vec![0xff, 0xd8];
    big.resize(100, 0);
    assert!(image_viewable(&big));
    assert!(!image_viewable(&[0xff, 0xd8, 0]));
    let mut not_jpeg = vec![0, 1];
    not_jpeg.resize(200, 0);
    assert!(!image_viewable(&not_jpeg));
    assert!(error_body_salvageable(&[0xff, 0xd8, 9]));
    assert!(!error_body_salvageable(b"text"));
}

#[test]
fn deletion_success_requires_a_clean_body() {
    assert!(delete_attempt_succeeded(true, b"OK"));
    assert!(!delete_attempt_succeeded(true, b"WIFI_INTERNAL_ERROR"));
    assert!(!delete_attempt_succeeded(true, b"xx WIFI_INTERNAL_ERROR yy"));
    assert!(!delete_attempt_succeeded(false, b"OK"));
}

#[test]
fn image_names_are_extracted_sorted_and_deduplicated() {
    let page = "<html><a href=\"/DCIM/100OLYMP/P1010002.JPG\">P1010002.JPG</a>\n\
                wbem/P1010001.JPG,P1010001.JPG,raw text PA.JPG nope P33.JPG</html>";
    let names = extract_image_names(page);
    assert_eq!(names, vec!["P1010001.JPG", "P1010002.JPG", "P33.JPG"]);
}

#[test]
fn both_name_shapes_are_recognized() {
    // The strict shape needs a word character after the P; the loose shape
    // takes any character but a line break.
    let names = extract_image_names("P-123.JPG and P_456.JPG but not P\n789.JPG");
    assert_eq!(names, vec!["P-123.JPG", "P_456.JPG"]);
    // A name needs at least one digit before the suffix.
    assert_eq!(extract_image_names("PA.JPG"), Vec::<String>::new());
    // Lowercase suffixes are not image names.
    assert_eq!(extract_image_names("p1010001.jpg"), Vec::<String>::new());
}

#[test]
fn photo_sequence_diffs_the_image_lists() {
    let preamble = raw_photo_preamble();
    assert_eq!(preamble, vec!["switch_cameramode.cgi?mode=rec", "get_state.cgi"]);
    let existing = vec!["P1.JPG".to_string(), "P2.JPG".to_string()];
    let current = vec![
        "P1.JPG".to_string(),
        "P2.JPG".to_string(),
        "P3.JPG".to_string(),
        "P4.JPG".to_string(),
    ];
    let fresh = new_images(&existing, &current);
    assert_eq!(fresh, vec!["P3.JPG".to_string(), "P4.JPG".to_string()]);
    let none = new_images(&current, &existing);
    assert_eq!(none, Vec::<String>::new());
}
