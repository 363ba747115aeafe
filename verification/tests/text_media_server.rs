use momo_bot::media::{detect_image_format, format_from_extension, image_data_url};
use momo_bot::retry::retry_step;
use momo_bot::server::{content_type_for, file_response_status, route_request, trim_slashes, Route};
use momo_bot::text::{
    append_decimal, chars_of, is_blank, join_strings, parse_u32, str_contains, str_ends_with,
    str_eq, str_starts_with,
};
use momo_bot::utils::{choice_by_draw, is_group_or_channel, random_choice, random_roll};
use momo_bot::types::ChatKind;
use momo_bot::config::ROLL_SCALE;

#[test]
fn text_helpers() {
    assert_eq!(chars_of("añ😺"), vec!['a', 'ñ', '😺']);
    assert_eq!(join_strings(&["a".to_string(), "b".to_string(), "c".to_string()], ", "), "a, b, c");
    assert_eq!(join_strings(&[], "\n"), "");
    assert_eq!(momo_bot::handler::bot_username_for(Some("MoMo ÄB")), "momo äb");
    assert!(is_blank(" \t\n"));
    assert!(is_blank(""));
    assert!(!is_blank(" x "));
    assert!(str_contains("hello momo!", "momo"));
    assert!(!str_contains("mom", "momo"));
    assert!(str_contains("abc", ""));
    assert!(str_starts_with("images/a.png", "images/"));
    assert!(str_ends_with("a.jpeg", ".jpeg"));
    assert!(!str_ends_with("a.jpeg", ".jpg"));
    assert!(str_eq("x", "x") && !str_eq("x", "y"));
    let mut s = String::from("n=");
    append_decimal(&mut s, 0);
    append_decimal(&mut s, 907);
    assert_eq!(s, "n=0907");
}

#[test]
fn parse_u32_follows_from_str() {
    assert_eq!(parse_u32("1024"), Some(1024));
    assert_eq!(parse_u32("+7"), Some(7));
    assert_eq!(parse_u32("0042"), Some(42));
    assert_eq!(parse_u32("4294967295"), Some(u32::MAX));
    assert_eq!(parse_u32("4294967296"), None);
    assert_eq!(parse_u32(""), None);
    assert_eq!(parse_u32("+"), None);
    assert_eq!(parse_u32("-1"), None);
    assert_eq!(parse_u32(" 5"), None);
    assert_eq!(parse_u32("12a"), None);
    for s in ["0", "17", "+3", "99999999999", "1_000", "٣"] {
        assert_eq!(parse_u32(s), s.parse::<u32>().ok(), "{}", s);
    }
}

#[test]
fn image_formats_by_signature() {
    assert_eq!(detect_image_format(&[0xFF, 0xD8, 0xFF, 0xE0]), Some("image/jpeg"));
    assert_eq!(detect_image_format(&[0x89, 0x50, 0x4E, 0x47, 0x0D]), Some("image/png"));
    assert_eq!(
        detect_image_format(b"RIFF\x00\x00\x00\x00WEBPVP8 "),
        Some("image/webp")
    );
    assert_eq!(detect_image_format(b"RIFF\x00\x00\x00\x00WAVE"), None);
    assert_eq!(detect_image_format(b"RIFF"), None);
    assert_eq!(detect_image_format(&[0xFF, 0xD8, 0xFF]), None);
    assert_eq!(detect_image_format(b"GIF89a"), None);
}

#[test]
fn image_formats_by_extension() {
    assert_eq!(format_from_extension("photos/file_1.JPG"), Some("image/jpeg"));
    assert_eq!(format_from_extension("a.jpeg"), Some("image/jpeg"));
    assert_eq!(format_from_extension("a.Png"), Some("image/png"));
    assert_eq!(format_from_extension("stickers/x.webp"), Some("image/webp"));
    assert_eq!(format_from_extension("a.gif"), None);
}

#[test]
fn data_url_of_known_bytes() {
    let bytes = [0x89u8, 0x50, 0x4E, 0x47];
    let (mime, url) = image_data_url(&bytes, "x.bin").unwrap();
    assert_eq!(mime, "image/png");
    assert_eq!(url, "data:image/png;base64,iVBORw==");
    let (mime, url) = image_data_url(b"Man", "photo.jpg").unwrap();
    assert_eq!(mime, "image/jpeg");
    assert_eq!(url, "data:image/jpeg;base64,TWFu");
    let (_, url) = image_data_url(b"Ma", "p.webp").unwrap();
    assert_eq!(url, "data:image/webp;base64,TWE=");
    let (_, url) = image_data_url(b"", "p.png").unwrap();
    assert_eq!(url, "data:image/png;base64,");
    assert_eq!(image_data_url(b"hello", "notes.txt"), None);
}

#[test]
fn server_routes() {
    assert_eq!(trim_slashes("///images/a.png"), "images/a.png");
    assert_eq!(trim_slashes("x/"), "x/");
    match route_request("/images/abc.jpg") {
        Route::ServeFile { file_path, content_type } => {
            assert_eq!(file_path, "assets/cache/images/abc.jpg");
            assert_eq!(content_type, "image/jpeg");
        }
        Route::NotFound => panic!("should serve"),
    }
    match route_request("//images/x.bin") {
        Route::ServeFile { file_path, content_type } => {
            assert_eq!(file_path, "assets/cache/images/x.bin");
            assert_eq!(content_type, "application/octet-stream");
        }
        Route::NotFound => panic!("should serve"),
    }
    assert!(matches!(route_request("/etc/passwd"), Route::NotFound));
    assert!(matches!(route_request("/images/../../../etc/passwd"), Route::NotFound));
    assert!(matches!(route_request("/image/a.png"), Route::NotFound));
    assert!(matches!(route_request("/"), Route::NotFound));
    assert_eq!(content_type_for("a.png"), "image/png");
    assert_eq!(content_type_for("a.webp"), "image/webp");
    assert_eq!(content_type_for("a.JPG"), "application/octet-stream");
    assert_eq!(file_response_status(true, true), 200);
    assert_eq!(file_response_status(true, false), 500);
    assert_eq!(file_response_status(false, false), 404);
}

#[test]
fn retry_backoff() {
    assert_eq!(retry_step(0, 0), (1, 2));
    assert_eq!(retry_step(1, 5), (2, 4));
    assert_eq!(retry_step(3, 599), (4, 16));
    assert_eq!(retry_step(4, 0), (5, 32));
    assert_eq!(retry_step(5, 0), (5, 64));
    assert_eq!(retry_step(7, 0), (7, 256));
    assert_eq!(retry_step(8, 0), (8, 256));
    assert_eq!(retry_step(100, 0), (100, 256));
    assert_eq!(retry_step(5, 600), (1, 2));
    assert_eq!(retry_step(u32::MAX, 3600), (1, 2));
}

#[test]
fn retry_count_stays_at_five_and_wait_stays_bounded() {
    let mut count = 0u32;
    let mut waits = Vec::new();
    for _ in 0..20 {
        let (c, w) = retry_step(count, 1);
        assert!(c <= 5);
        assert!(w >= 2 && w <= 300);
        waits.push(w);
        count = c;
    }
    assert_eq!(&waits[..6], &[2, 4, 8, 16, 32, 64]);
    assert!(waits[6..].iter().all(|w| *w == 64));
}

#[test]
fn chat_kinds_and_choices() {
    assert!(!is_group_or_channel(ChatKind::Private));
    assert!(is_group_or_channel(ChatKind::Group));
    assert!(is_group_or_channel(ChatKind::Supergroup));
    assert!(is_group_or_channel(ChatKind::Channel));
    let items = [10, 20, 30];
    assert_eq!(*choice_by_draw(&items, 4), 20);
    assert_eq!(*choice_by_draw(&items, 0), 10);
    assert!(items.contains(random_choice(&items)));
    for _ in 0..100 {
        assert!(random_roll() < ROLL_SCALE);
    }
}

#[test]
fn stable_run_resets_the_backoff() {
    let mut count = 0u32;
    let mut waits = Vec::new();
    for run in 0..7 {
        let uptime = if run == 6 { 600 } else { 3 };
        let (c, w) = retry_step(count, uptime);
        waits.push(w);
        count = c;
    }
    assert_eq!(waits, vec![2, 4, 8, 16, 32, 64, 2]);
    assert_eq!(count, 1);
}
