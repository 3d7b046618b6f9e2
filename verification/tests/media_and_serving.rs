use vibe_cast::document::Document;
use vibe_cast::json::parse_document;
use vibe_cast::media::{is_media_extension, names_media};
use vibe_cast::serving::{
    acknowledgement, bind_attempts, server_info, status_report, BindAttempt, EXTRA_PORTS,
};

#[test]
fn pictures_and_videos_are_media() {
    for extension in [
        "jpg", "jpeg", "png", "gif", "webp", "bmp", "tiff", "tif", "heic", "heif", "mp4", "mov",
        "webm", "m4v", "avi", "mkv",
    ] {
        assert!(names_media(extension), "{}", extension);
        assert!(is_media_extension(extension), "{}", extension);
    }
}

#[test]
fn the_case_of_an_extension_does_not_matter() {
    assert!(is_media_extension("JPG"));
    assert!(is_media_extension("Png"));
    assert!(is_media_extension("MoV"));
    assert!(is_media_extension("HEIC"));
    assert!(!names_media("JPG"));
    assert!(!names_media("Png"));
}

#[test]
fn other_extensions_are_not_media() {
    for extension in ["", "txt", "json", "jpg ", ".jpg", "jpgx", "mp3", "svg", "pdf", "j", "mpeg4"] {
        assert!(!names_media(extension), "{:?}", extension);
        assert!(!is_media_extension(extension), "{:?}", extension);
    }
}

#[test]
fn twenty_further_ports_are_tried() {
    assert_eq!(EXTRA_PORTS, 20);
    let attempts = bind_attempts(8080);
    assert_eq!(attempts.len(), 42);
    assert_eq!(attempts[0], BindAttempt { port: 8080, v6: true });
    assert_eq!(attempts[1], BindAttempt { port: 8080, v6: false });
    assert_eq!(attempts[2], BindAttempt { port: 8081, v6: true });
    assert_eq!(attempts[40], BindAttempt { port: 8100, v6: true });
    assert_eq!(attempts[41], BindAttempt { port: 8100, v6: false });
    for (i, attempt) in attempts.iter().enumerate() {
        assert_eq!(attempt.port as usize, 8080 + i / 2);
        assert_eq!(attempt.v6, i % 2 == 0);
    }
}

#[test]
fn the_ports_stop_at_the_largest() {
    let attempts = bind_attempts(65530);
    assert_eq!(attempts.len(), 12);
    assert_eq!(attempts[0], BindAttempt { port: 65530, v6: true });
    assert_eq!(attempts[11], BindAttempt { port: 65535, v6: false });
    assert_eq!(
        bind_attempts(65535),
        vec![BindAttempt { port: 65535, v6: true }, BindAttempt { port: 65535, v6: false }]
    );
    assert_eq!(bind_attempts(65515).len(), 42);
    assert_eq!(bind_attempts(65516).len(), 40);
    assert_eq!(bind_attempts(0).len(), 42);
}

#[test]
fn server_info_names_address_and_port() {
    let expected: Document = parse_document(r#"{"ip": "192.168.1.20", "port": 8083}"#).unwrap();
    assert_eq!(server_info(Some("192.168.1.20".to_string()), 8083), expected);
    let fallback: Document = parse_document(r#"{"ip": "127.0.0.1", "port": 8080}"#).unwrap();
    assert_eq!(server_info(None, 8080), fallback);
}

#[test]
fn the_answers_of_the_server() {
    assert_eq!(acknowledgement(), parse_document(r#"{"status": "ok"}"#).unwrap());
    assert_eq!(status_report(), parse_document(r#"{"status": "online"}"#).unwrap());
}
