use mosaic_core::ids::{generate_uuid, generate_short_id, generate_prefixed_id};
use mosaic_core::sanitize::{sanitize_name, sanitize_folder_name};
use mosaic_core::strutil::{join_path, u64_to_dec, str_eq, str_lex_le};
use mosaic_core::clock::{chrono_now, relative_label, relative_time_at, parse_iso};
use mosaic_core::error::{ErrorCode, MosaicError};
use mosaic_core::results::MetaResult;

#[test]
fn test_uuid_format() {
    let id = generate_uuid();
    assert_eq!(id.len(), 36);
    assert!(id.contains('-'));
}

#[test]
fn test_short_id() {
    let id = generate_short_id();
    assert_eq!(id.len(), 8);
}

#[test]
fn test_sanitize_name() {
    assert_eq!(sanitize_name("Hello World"), "Hello World");
    assert_eq!(sanitize_name("Test/Path"), "Test_Path");
    assert_eq!(sanitize_name("  spaces  "), "spaces");
    assert_eq!(sanitize_name("under_score-dash"), "under_score-dash");
}

#[test]
fn sanitize_empty_name() {
    assert_eq!(sanitize_name(""), "");
}

#[test]
fn chrono_now_renders_decimal_milliseconds() {
    let ms = chrono_now();
    assert!(!ms.is_empty());
    assert!(ms.chars().all(|c| c.is_ascii_digit()));
    assert!(ms.parse::<u64>().unwrap() > 0);
}

#[test]
fn sanitize_folder_name_matches_sanitize_name() {
    assert_eq!(sanitize_folder_name("a:b?c"), "a_b_c");
    assert_eq!(sanitize_folder_name("Ünïcode name"), "Ünïcode name");
    assert_eq!(sanitize_folder_name("   "), "");
}

#[test]
fn prefixed_id_shape() {
    let id = generate_prefixed_id("vault");
    assert_eq!(id.len(), "vault".len() + 9);
    assert!(id.starts_with("vault_"));
}

#[test]
fn join_path_inserts_separator() {
    assert_eq!(join_path("/tmp/v", "canvases"), "/tmp/v/canvases");
}

#[test]
fn decimal_rendering() {
    assert_eq!(u64_to_dec(0), "0");
    assert_eq!(u64_to_dec(7), "7");
    assert_eq!(u64_to_dec(40), "40");
    assert_eq!(u64_to_dec(18446744073709551615), "18446744073709551615");
}

#[test]
fn string_order_helpers() {
    assert!(str_eq("abc", "abc"));
    assert!(!str_eq("abc", "abd"));
    assert!(str_lex_le("2024-01-01", "2024-01-02"));
    assert!(!str_lex_le("2024-02-01", "2024-01-02"));
    assert!(str_lex_le("abc", "abcd"));
}

#[test]
fn relative_labels() {
    assert_eq!(relative_label(5), "just now");
    assert_eq!(relative_label(60), "1 minute ago");
    assert_eq!(relative_label(150), "2 minutes ago");
    assert_eq!(relative_label(3600), "1 hour ago");
    assert_eq!(relative_label(7500), "2 hours ago");
    assert_eq!(relative_label(86400), "1 day ago");
    assert_eq!(relative_label(86400 * 29), "29 days ago");
    assert_eq!(relative_label(86400 * 31), "1 month ago");
    assert_eq!(relative_label(86400 * 30 * 12), "1 year ago");
}

#[test]
fn relative_time_against_fixed_clock() {
    let then = parse_iso("2024-01-01T00:00:00+00:00").unwrap();
    let now = then + 3600 * 1000;
    assert_eq!(relative_time_at("2024-01-01T00:00:00+00:00", now), "1 hour ago");
    assert_eq!(relative_time_at("2024-01-01T00:00:00+00:00", then - 1), "in the future");
    assert_eq!(relative_time_at("not a timestamp", now), "not a timestamp");
}

#[test]
fn error_constructors_carry_codes() {
    assert_eq!(MosaicError::not_found("Vault").code, ErrorCode::NotFound);
    assert_eq!(MosaicError::not_found("Vault").message, "Vault not found");
    assert_eq!(MosaicError::already_exists("Vault").code, ErrorCode::AlreadyExists);
    assert_eq!(MosaicError::io_error("disk full").message, "I/O error: disk full");
    assert_eq!(MosaicError::io_error("x").code, ErrorCode::IoError);
    assert_eq!(MosaicError::json_error("bad").code, ErrorCode::InvalidJson);
    assert_eq!(MosaicError::vault_not_found("/v").code, ErrorCode::VaultNotFound);
    assert_eq!(MosaicError::vault_not_found("/v").message, "Vault not found at: /v");
    assert_eq!(MosaicError::canvas_not_found("/c").code, ErrorCode::CanvasNotFound);
    let e = MosaicError::new(ErrorCode::Unknown, "boom").with_context("ctx");
    assert_eq!(e.context.as_deref(), Some("ctx"));
}

#[test]
fn meta_result_wraps_outcomes() {
    let ok: MetaResult<u32> = MetaResult::ok(7, "done");
    assert!(ok.success);
    assert_eq!(ok.message, "done");
    assert_eq!(ok.data, Some(7));
    let err: MetaResult<u32> = MetaResult::err("failed");
    assert!(!err.success);
    assert!(err.data.is_none());
}
