use block_header_export::cli::ArgError;
use block_header_export::cli::parse_range_args;
use block_header_export::cli::usage_line;
use block_header_export::config::ConfigError;
use block_header_export::config::endpoint_url;
use block_header_export::digits::check_hex_text;
use block_header_export::digits::dec_text_of;
use block_header_export::digits::hex_text_of;
use block_header_export::digits::parse_dec_u64;
use block_header_export::digits::parse_hex_u64;
use block_header_export::range::BlockRange;
use block_header_export::record::NormalizeError;
use block_header_export::record::RawHeader;
use block_header_export::record::normalize;
use block_header_export::writer::output_dir;
use block_header_export::writer::output_file_name;
use block_header_export::writer::output_path;
use block_header_export::writer::render_document;
use block_header_export::writer::render_record;

fn format_header(n: u64) -> RawHeader {
    RawHeader {
        number: Some(n),
        hash: Some("0xaa".to_string()),
        parent_hash: "0x01".to_string(),
        uncles_hash: "0x02".to_string(),
        withdrawals_root: None,
        blob_gas_used: None,
        excess_blob_gas: None,
        parent_beacon_root: None,
        author: "0x03".to_string(),
        state_root: "0x04".to_string(),
        transactions_root: "0x05".to_string(),
        receipts_root: "0x06".to_string(),
        gas_used: "0x5208".to_string(),
        gas_limit: "0x1c9c380".to_string(),
        base_fee_per_gas: None,
        extra_data: "0x".to_string(),
        logs_bloom: Some("0x0".to_string()),
        timestamp: "0x64".to_string(),
        difficulty: "0x0".to_string(),
        mix_hash: None,
        nonce: Some("0x42".to_string()),
    }
}

#[test]
fn hex_rendering_values() {
    assert_eq!(hex_text_of(0), "0x0");
    assert_eq!(hex_text_of(255), "0xff");
    assert_eq!(hex_text_of(100), "0x64");
    assert_eq!(hex_text_of(u64::MAX), "0xffffffffffffffff");
}

#[test]
fn hex_parsing_values() {
    assert_eq!(parse_hex_u64("0xff"), Some(255));
    assert_eq!(parse_hex_u64("0x0"), Some(0));
    assert_eq!(parse_hex_u64("0xffffffffffffffff"), Some(u64::MAX));
    assert_eq!(parse_hex_u64("0x"), None);
    assert_eq!(parse_hex_u64("ff"), None);
    assert_eq!(parse_hex_u64("0xFG"), None);
    assert_eq!(parse_hex_u64("0x10000000000000000"), None);
}

#[test]
fn hex_text_check() {
    assert!(check_hex_text("0x"));
    assert!(check_hex_text("0x0123456789abcdef"));
    assert!(!check_hex_text("0"));
    assert!(!check_hex_text("1234"));
    assert!(!check_hex_text("0xAB"));
    assert!(!check_hex_text("0x12z"));
}

#[test]
fn dec_rendering_values() {
    assert_eq!(dec_text_of(0), "0");
    assert_eq!(dec_text_of(1234), "1234");
    assert_eq!(dec_text_of(u64::MAX), "18446744073709551615");
}

#[test]
fn dec_parsing_values() {
    assert_eq!(parse_dec_u64("0"), Some(0));
    assert_eq!(parse_dec_u64("007"), Some(7));
    assert_eq!(parse_dec_u64("18446744073709551615"), Some(u64::MAX));
    assert_eq!(parse_dec_u64("18446744073709551616"), None);
    assert_eq!(parse_dec_u64(""), None);
    assert_eq!(parse_dec_u64("12a"), None);
    assert_eq!(parse_dec_u64("-3"), None);
}

#[test]
fn range_construction() {
    assert!(BlockRange::new(3, 3).is_some());
    assert!(BlockRange::new(0, 10).is_some());
    assert!(BlockRange::new(4, 3).is_none());
}

#[test]
fn argument_parsing() {
    let ok = parse_range_args("1", "5").unwrap();
    assert_eq!(ok.start, 1);
    assert_eq!(ok.end, 5);
    assert!(matches!(parse_range_args("x", "5"), Err(ArgError::BadStart)));
    assert!(matches!(parse_range_args("1", "x"), Err(ArgError::BadEnd)));
    assert!(matches!(parse_range_args("6", "5"), Err(ArgError::ReversedRange)));
}

#[test]
fn usage_line_text() {
    assert_eq!(usage_line("prog"), "Usage: prog <start_block> <end_block>");
}

#[test]
fn endpoint_from_credential() {
    assert_eq!(endpoint_url(None), Err(ConfigError::MissingCredential));
    assert_eq!(
        endpoint_url(Some("abc123".to_string())),
        Ok("https://mainnet.infura.io/v3/abc123".to_string())
    );
}

#[test]
fn normalize_preserves_fields() {
    let rec = normalize(100, format_header(100), Vec::new()).unwrap();
    assert_eq!(rec.number, 100);
    assert_eq!(rec.hash.as_deref(), Some("0xaa"));
    assert_eq!(rec.base_fee_per_gas, None);
    assert_eq!(rec.logs_bloom.as_deref(), Some("0x0"));
    assert_eq!(rec.gas_used, "0x5208");
    assert_eq!(rec.ommers.len(), 0);
}

#[test]
fn normalize_rejects_wrong_number() {
    assert!(matches!(
        normalize(100, format_header(7), Vec::new()),
        Err(NormalizeError::NumberMismatch)
    ));
    let mut h = format_header(100);
    h.number = None;
    assert!(matches!(normalize(100, h, Vec::new()), Err(NormalizeError::NumberMismatch)));
}

#[test]
fn normalize_rejects_malformed_field() {
    let mut h = format_header(100);
    h.timestamp = "1690000000".to_string();
    assert!(matches!(normalize(100, h, Vec::new()), Err(NormalizeError::MalformedField)));
}

#[test]
fn output_naming() {
    let range = BlockRange::new(1, 5).unwrap();
    assert_eq!(output_dir(), "jsons");
    assert_eq!(output_file_name(&range), "block_headers_1-5.json");
    assert_eq!(output_path(&range), "jsons/block_headers_1-5.json");
    let single = BlockRange::new(100, 100).unwrap();
    assert_eq!(output_file_name(&single), "block_headers_100-100.json");
}

#[test]
fn record_rendering_exact() {
    let rec = normalize(100, format_header(100), Vec::new()).unwrap();
    let expected = "{\"number\":\"0x64\",\"hash\":\"0xaa\",\"parent_hash\":\"0x01\",\"uncles_hash\":\"0x02\",\"withdrawals_root\":null,\"blob_gas_used\":null,\"excess_blob_gas\":null,\"parent_beacon_root\":null,\"author\":\"0x03\",\"state_root\":\"0x04\",\"transactions_root\":\"0x05\",\"receipts_root\":\"0x06\",\"gas_used\":\"0x5208\",\"gas_limit\":\"0x1c9c380\",\"base_fee_per_gas\":null,\"extra_data\":\"0x\",\"logs_bloom\":\"0x0\",\"timestamp\":\"0x64\",\"difficulty\":\"0x0\",\"mix_hash\":null,\"nonce\":\"0x42\",\"uncles\":[]}";
    assert_eq!(render_record(&rec), expected);
    let document = render_document(&vec![rec]);
    assert_eq!(document, format!("[{}]", expected));
}

#[test]
fn empty_document_rendering() {
    assert_eq!(render_document(&Vec::new()), "[]");
}
