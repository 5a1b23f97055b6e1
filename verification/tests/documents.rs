use trustify::digest::{sha256_hex, to_lower_hex};
use trustify::document_id::{parse_document_id, IdError, IdKind};
use trustify::endpoints::{download, download_after_fetch, download_reply, get, get_reply, DownloadStep, EndpointError, Reply};
use trustify::ingestor::{self, check_cvss_vectors, UploadError};

const GENERIC_CSAF: &str = r#"{
  "document": {
    "category": "generic_csaf",
    "csaf_version": "2.0",
    "publisher": {
      "category": "other",
      "name": "OASIS CSAF TC",
      "namespace": "https://csaf.io"
    },
    "title": "Template for generating CSAF files for Validator examples",
    "tracking": {
      "current_release_date": "2021-07-21T10:00:00.000Z",
      "id": "OASIS_CSAF_TC-CSAF_2.0-2021-TEMPLATE",
      "initial_release_date": "2021-07-21T10:00:00.000Z",
      "revision_history": [
        {
          "date": "2021-07-21T10:00:00.000Z",
          "number": "1",
          "summary": "Initial version."
        }
      ],
      "status": "final",
      "version": "1"
    }
  }
}"#;

#[test]
fn lower_hex_of_bytes() {
    assert_eq!(to_lower_hex(&[0xbe, 0xef, 0x00, 0x0a]), "beef000a");
    assert_eq!(to_lower_hex(&[]), "");
}

#[test]
fn sha256_of_hello_world() {
    assert_eq!(
        sha256_hex(b"hello world"),
        "b94d27b9934d3e08a52e52d7da7dabfac484efe37a5380ee9088f7ace2efcde9"
    );
    assert_eq!(
        sha256_hex(b""),
        "e3b0c44298fc1c149afbf4c8996fb92427ae41e4649b934ca495991b7852b855"
    );
}

#[test]
fn document_keys_parse() {
    let id = parse_document_id("sha256:abc").unwrap();
    assert_eq!(id.kind, IdKind::Sha256);
    assert_eq!(id.value, "abc");
    let id = parse_document_id("sha384:x:y").unwrap();
    assert_eq!(id.kind, IdKind::Sha384);
    assert_eq!(id.value, "x:y");
    let id = parse_document_id("sha512:").unwrap();
    assert_eq!(id.kind, IdKind::Sha512);
    assert_eq!(id.value, "");
    let id = parse_document_id("urn:uuid:2fd0d1b7-a908-4d63-9310-d57a7f77c6df").unwrap();
    assert_eq!(id.kind, IdKind::Uuid);
    assert_eq!(id.value, "2fd0d1b7-a908-4d63-9310-d57a7f77c6df");
}

#[test]
fn document_keys_refused() {
    assert!(matches!(parse_document_id("abc"), Err(IdError::MissingPrefix)));
    assert!(matches!(parse_document_id(""), Err(IdError::MissingPrefix)));
    match parse_document_id("md5:abc") {
        Err(IdError::UnsupportedAlgorithm(p)) => assert_eq!(p, "md5"),
        other => panic!("unexpected {:?}", other),
    }
    match parse_document_id("urn:isbn:123") {
        Err(IdError::UnsupportedAlgorithm(p)) => assert_eq!(p, "urn"),
        other => panic!("unexpected {:?}", other),
    }
}

#[test]
fn get_and_download_replies() {
    match get::<()>("nope") {
        Err(EndpointError::HashKey(IdError::MissingPrefix)) => {}
        other => panic!("unexpected {:?}", other),
    }
    assert_eq!(download::<()>("sha256:ab").unwrap().value, "ab");
    assert!(matches!(get_reply(Some(5)), Reply::Found(5)));
    assert!(matches!(get_reply::<i32>(None), Reply::NotFound));
    assert!(matches!(download_after_fetch(Some(3)), DownloadStep::Retrieve(3)));
    assert!(matches!(download_after_fetch::<i32>(None), DownloadStep::NotFound));
    assert!(matches!(download_reply::<i32, &str>(Ok(Some(1))), Ok(Reply::Found(1))));
    assert!(matches!(download_reply::<i32, &str>(Ok(None)), Ok(Reply::NotFound)));
    assert!(matches!(download_reply::<i32, &str>(Err("down")), Err(EndpointError::Storage("down"))));
}

#[test]
fn upload_advisory() {
    let upload = match ingestor::upload_advisory(GENERIC_CSAF.as_bytes(), "/advisories") {
        Ok(u) => u,
        Err(e) => panic!("refused: {:?}", e),
    };
    assert_eq!(upload.location, "/advisories");
    assert_eq!(upload.sha256, sha256_hex(GENERIC_CSAF.as_bytes()));
    assert_eq!(upload.sha256.len(), 64);
    assert_eq!(upload.csaf.document.title, "Template for generating CSAF files for Validator examples");
}

#[test]
fn upload_of_garbage_is_a_bad_request() {
    match ingestor::upload_advisory(b"not json", "/advisories") {
        Err(UploadError::BadRequest { msg, status }) => {
            assert_eq!(msg, "File could not be parsed");
            assert_eq!(status, 400);
        }
        other => panic!("unexpected {:?}", other.err()),
    }
}

fn with_scores(scores: &str) -> String {
    let body = GENERIC_CSAF.trim_end();
    let body = &body[..body.len() - 1];
    format!("{body}, \"vulnerabilities\": [{{\"cve\": \"CVE-2023-33201\", \"scores\": {scores}}}]}}")
}

const GOOD_SCORE: &str = r#"[{"products": ["CSAFPID-0001"], "cvss_v3": {"version": "3.1", "vectorString": "CVSS:3.1/AV:N/AC:L/PR:N/UI:N/S:U/C:H/I:H/A:H", "baseScore": 9.8, "baseSeverity": "CRITICAL"}}]"#;
const BAD_SCORE: &str = r#"[{"products": ["CSAFPID-0001"], "cvss_v3": {"version": "3.1", "vectorString": "CVSS:3.1/AV:Q", "baseScore": 9.8, "baseSeverity": "CRITICAL"}}]"#;

#[test]
fn upload_with_valid_cvss_vector() {
    let doc = with_scores(GOOD_SCORE);
    let upload = match ingestor::upload_advisory(doc.as_bytes(), "/advisories") {
        Ok(u) => u,
        Err(e) => panic!("refused: {:?}", e),
    };
    let vulns = upload.csaf.vulnerabilities.expect("vulnerabilities");
    assert_eq!(vulns[0].cve.as_deref(), Some("CVE-2023-33201"));
    assert!(vulns[0].scores.as_ref().unwrap()[0].cvss_v3.is_some());
}

#[test]
fn upload_with_invalid_cvss_vector_is_a_bad_request() {
    let doc = with_scores(BAD_SCORE);
    match ingestor::upload_advisory(doc.as_bytes(), "/advisories") {
        Err(UploadError::BadRequest { msg, status }) => {
            assert_eq!(msg, "File could not be parsed");
            assert_eq!(status, 400);
        }
        other => panic!("unexpected {:?}", other.err()),
    }
}

#[test]
fn cvss_check_reads_objects_and_arrays() {
    let good: serde_json::Value = serde_json::from_str(&with_scores(GOOD_SCORE)).unwrap();
    assert!(check_cvss_vectors(&good));
    let bad: serde_json::Value = serde_json::from_str(&with_scores(BAD_SCORE)).unwrap();
    assert!(!check_cvss_vectors(&bad));
    // A score given as an array: its third element is `cvss_v3`, whose second is the vector.
    let positional: serde_json::Value = serde_json::from_str(
        r#"{"vulnerabilities": [{"scores": [[["CSAFPID-0001"], null, ["3.1", "not a vector", 1.0, "LOW"]]]}]}"#,
    )
    .unwrap();
    assert!(!check_cvss_vectors(&positional));
    let no_vulnerabilities: serde_json::Value = serde_json::from_str(r#"{"document": {}}"#).unwrap();
    assert!(check_cvss_vectors(&no_vulnerabilities));
}
