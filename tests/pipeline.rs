use aes_gcm::aead::{Aead, KeyInit};
use messages_wrapped::contacts_probe::{contact_sources_usable, has_contacts};
use messages_wrapped::decimal::decimal_string;
use messages_wrapped::envelope::{analysis_failed, succeeded, upload_failed, Envelope, ErrorType};
use messages_wrapped::error::AnalyzerError;
use messages_wrapped::order::chronological_order;
use messages_wrapped::packager::{encrypt_data, KEY_LEN, MAX_QUALITY, TAG_LEN};
use messages_wrapped::timing::{AnalysisTiming, TimingReport};
use messages_wrapped::upload::{
    check_status, classify_send_failure, encode_key, finish_upload, server_id, share_url, upload_url,
    NetworkError,
};

fn open(key: &[u8], sealed: &[u8]) -> Vec<u8> {
    let cipher = aes_gcm::Aes256Gcm::new_from_slice(key).unwrap();
    let compressed = cipher.decrypt(aes_gcm::Nonce::from_slice(&[0u8; 12]), sealed).unwrap();
    let mut out = Vec::new();
    brotli::BrotliDecompress(&mut &compressed[..], &mut out).unwrap();
    out
}

#[test]
fn order_is_chronological_and_stable() {
    let dates = vec![30i64, 10, 20, 10, 30, -5];
    let order = chronological_order(&dates);
    assert_eq!(order, vec![5, 1, 3, 2, 0, 4]);
}

#[test]
fn order_of_nothing_is_empty() {
    assert_eq!(chronological_order(&Vec::new()), Vec::<usize>::new());
}

#[test]
fn order_keeps_equal_stamps_in_retrieval_order() {
    let dates = vec![7i64; 5];
    assert_eq!(chronological_order(&dates), vec![0, 1, 2, 3, 4]);
}

#[test]
fn order_sorts_descending_input() {
    let dates: Vec<i64> = (0..50).rev().collect();
    let order = chronological_order(&dates);
    for w in order.windows(2) {
        assert!(dates[w[0]] <= dates[w[1]]);
    }
    assert_eq!(order[0], 49);
}

#[test]
fn packaged_bytes_round_trip() {
    for input in [Vec::new(), b"hello hello hello hello".to_vec(), (0..5000u32).map(|i| (i % 251) as u8).collect()] {
        let (key, sealed) = encrypt_data(&input, MAX_QUALITY).ok().unwrap();
        assert_eq!(key.len(), KEY_LEN);
        assert!(sealed.len() >= TAG_LEN);
        assert_eq!(open(&key, &sealed), input);
    }
}

#[test]
fn packaging_compresses_repetitive_data() {
    let input = vec![b'a'; 100_000];
    let (_, sealed) = encrypt_data(&input, MAX_QUALITY).ok().unwrap();
    assert!(sealed.len() < 1000);
}

#[test]
fn keys_are_never_reused() {
    let mut keys = Vec::new();
    for i in 0..100u32 {
        let (key, _) = encrypt_data(&i.to_le_bytes(), 5).ok().unwrap();
        assert!(!keys.contains(&key));
        keys.push(key);
    }
}

#[test]
fn same_input_gives_different_ciphertexts() {
    let (k1, c1) = encrypt_data(b"same", MAX_QUALITY).ok().unwrap();
    let (k2, c2) = encrypt_data(b"same", MAX_QUALITY).ok().unwrap();
    assert_ne!(k1, k2);
    assert_ne!(c1, c2);
}

#[test]
fn server_error_names_code_and_body() {
    let e = NetworkError::HttpStatus { code: 500, body: "oops".to_string() };
    let m = e.message();
    assert!(m.contains("500"));
    assert!(m.contains("oops"));
    assert_eq!(m, "Upload failed with status 500 Internal Server Error. Server response: oops");
}

#[test]
fn server_error_with_empty_body_uses_placeholder() {
    let e = NetworkError::HttpStatus { code: 404, body: String::new() };
    assert_eq!(e.message(), "Upload failed with status 404 Not Found. Server response: No error details provided");
}

#[test]
fn finish_upload_reports_status_failure() {
    let r = finish_upload("https://x.test", &[1u8; 32], 500, "oops".to_string());
    match r {
        Err(e) => {
            assert!(matches!(e, NetworkError::HttpStatus { code: 500, .. }));
            let m = AnalyzerError::Network(e).message();
            assert!(m.contains("500") && m.contains("oops"));
        }
        Ok(_) => panic!("a failed status must not succeed"),
    }
}

#[test]
fn timeout_is_told_apart_from_connection_failure() {
    let t = classify_send_failure(true, true, "u".to_string(), "d".to_string());
    assert!(matches!(t, NetworkError::Timeout { .. }));
    assert_eq!(t.message(), "Request timed out while uploading to u");
    let c = classify_send_failure(false, true, "u".to_string(), "d".to_string());
    assert!(matches!(c, NetworkError::ConnectionFailed { .. }));
    assert_eq!(c.message(), "Failed to connect to u. Please check your internet connection");
    let o = classify_send_failure(false, false, "u".to_string(), "d".to_string());
    assert_eq!(o.message(), "Upload failed: d (URL: u)");
}

#[test]
fn status_check_accepts_only_2xx() {
    assert!(check_status(200, String::new()).is_ok());
    assert!(check_status(299, String::new()).is_ok());
    assert!(check_status(199, String::new()).is_err());
    assert!(check_status(300, String::new()).is_err());
}

#[test]
fn server_id_reads_json() {
    assert_eq!(server_id(r#"{"id":"abc"}"#).ok().unwrap(), "abc");
    assert_eq!(server_id(r#"{"other":1}"#).ok().unwrap(), "");
    assert_eq!(server_id(r#"{"id":7}"#).ok().unwrap(), "");
    assert!(matches!(server_id("not json"), Err(NetworkError::MalformedResponse)));
}

#[test]
fn share_link_has_key_in_fragment() {
    let key = [0xFFu8, 0xEE, 0xDD];
    let text = encode_key(&key);
    assert_eq!(text, "_-7d");
    assert_eq!(share_url("https://b", "id1", &text), "https://b/s/id1#_-7d");
    let (link, key_text) = finish_upload("https://b", &key, 201, r#"{"id":"id1"}"#.to_string()).ok().unwrap();
    assert_eq!(link, "https://b/s/id1#_-7d");
    assert_eq!(key_text, "_-7d");
}

#[test]
fn share_link_of_a_real_key() {
    let (key, _) = encrypt_data(b"x", MAX_QUALITY).ok().unwrap();
    let (link, key_text) = finish_upload("https://b", &key, 200, r#"{"id":"q9"}"#.to_string()).ok().unwrap();
    assert_eq!(key_text.len(), 44);
    assert!(link.starts_with("https://b/s/q9#"));
    assert!(link.ends_with(&key_text));
}

#[test]
fn malformed_answer_is_an_error() {
    let r = finish_upload("https://b", &[1u8; 32], 200, "<html>".to_string());
    assert!(matches!(r, Err(NetworkError::MalformedResponse)));
}

#[test]
fn upload_endpoint() {
    assert_eq!(upload_url("https://messageswrapped.com"), "https://messageswrapped.com/api/upload");
}

#[test]
fn gather_failure_envelope() {
    let err = AnalyzerError::LocalStorage { message: "no db".to_string() };
    let env = analysis_failed(&err, 1700000000);
    assert!(!env.is_success());
    assert!(matches!(env, Envelope::Failure { error_type: ErrorType::AnalysisFailed, .. }));
    assert_eq!(
        env.to_json(),
        r#"{"error":{"errorType":"analysis_failed","fullError":"LocalStorageError: no db","message":"Failed to analyze messages: no db","timestamp":1700000000},"success":false}"#
    );
}

#[test]
fn upload_failure_envelope() {
    let err = AnalyzerError::Network(NetworkError::Timeout { url: "https://b/api/upload".to_string() });
    let env = upload_failed(&err, 5);
    assert!(matches!(env, Envelope::Failure { error_type: ErrorType::UploadFailed, .. }));
    let json = env.to_json();
    assert!(json.contains(r#""errorType":"upload_failed""#));
    assert!(json.contains(r#""timestamp":5}"#));
    assert!(json.ends_with(r#""success":false}"#));
}

#[test]
fn crypto_failure_envelope() {
    let env = upload_failed(&AnalyzerError::Crypto, 0);
    let json = env.to_json();
    assert!(json.contains(r#""fullError":"CryptoError: Encryption failed""#));
}

#[test]
fn success_envelope() {
    let env = succeeded("https://b/s/id#k".to_string(), "k".to_string(), "t\n".to_string());
    assert!(env.is_success());
    assert_eq!(
        env.to_json(),
        r#"{"data":{"encryptionKey":"k","shareUrl":"https://b/s/id#k"},"success":true,"timing":"t\n"}"#
    );
}

#[test]
fn envelope_escapes_quotes() {
    let err = AnalyzerError::LocalStorage { message: "a \"b\"".to_string() };
    let json = analysis_failed(&err, 1).to_json();
    assert!(json.contains(r#""message":"Failed to analyze messages: a \"b\"""#));
}

#[test]
fn contacts_absent_store() {
    assert!(!has_contacts(&None));
}

#[test]
fn contacts_found_in_some_source() {
    assert!(has_contacts(&Some(vec![None, Some(0), Some(3)])));
    assert!(!has_contacts(&Some(vec![None, Some(0)])));
    assert!(!has_contacts(&Some(Vec::new())));
}

#[test]
fn decimal_text() {
    assert_eq!(decimal_string(0), "0");
    assert_eq!(decimal_string(1234567890), "1234567890");
    assert_eq!(decimal_string(u64::MAX), "18446744073709551615");
}

#[test]
fn timing_report_totals() {
    let timing = AnalysisTiming {
        chat_db_time: 1,
        messages_query_time: 2,
        contacts_time: 3,
        handles_time: 4,
        total_time: 11,
    };
    let mut report = timing.to_report();
    report.add_phase("Upload".to_string(), 10);
    assert_eq!(report.len(), 6);
    assert_eq!(report.sum_of_phases(), 31);
    assert_eq!(
        report.render(25),
        "DB Connection: 1 ns\nMessages Query: 2 ns\nContacts Load: 3 ns\nHandles Load: 4 ns\nTotal Analysis Time: 11 ns\nUpload: 10 ns\nSum of All Phases: 31 ns\nTotal Time: 25 ns\n"
    );
    let mut phases = TimingReport::new();
    phases.add_phase("Gather".to_string(), 11);
    phases.add_phase("Upload".to_string(), 10);
    assert_eq!(
        phases.render_with_details(&timing.to_report(), 30),
        "DB Connection: 1 ns\nMessages Query: 2 ns\nContacts Load: 3 ns\nHandles Load: 4 ns\nTotal Analysis Time: 11 ns\nGather: 11 ns\nUpload: 10 ns\nSum of All Phases: 21 ns\nTotal Time: 30 ns\n"
    );
}

#[test]
fn timing_sum_saturates() {
    let mut report = TimingReport::new();
    report.add_phase("a".to_string(), u64::MAX);
    report.add_phase("b".to_string(), 5);
    assert_eq!(report.sum_of_phases(), u64::MAX);
    let mut all = TimingReport::new();
    all.append_report(&report);
    assert_eq!(all.nanos_at(1), 5);
}

#[test]
fn contact_sources_need_the_primary() {
    assert!(contact_sources_usable(&vec![true, false, false]));
    assert!(!contact_sources_usable(&vec![false, true]));
    assert!(!contact_sources_usable(&Vec::new()));
}

#[test]
fn control_characters_are_escaped() {
    let err = AnalyzerError::LocalStorage { message: "a\u{1}\tb\\".to_string() };
    let json = analysis_failed(&err, 1).to_json();
    assert!(json.contains(r#""message":"Failed to analyze messages: a\u0001\tb\\""#));
}

#[test]
fn base64_of_one_and_two_bytes() {
    assert_eq!(encode_key(&[0xFB]), "-w==");
    assert_eq!(encode_key(&[0xFB, 0xFF]), "-_8=");
    assert_eq!(encode_key(&[]), "");
}
