use kaws::engine::{
    certificate_from_response, failure, generate_authority_arguments, generate_leaf_arguments,
    generate_request_arguments, join, leaf_from_response, request_from_response, request_json,
    response_shape, sign_arguments, staged_certificate_path, staged_key_path, ResponseShape,
    ENGINE, STAGING_PREFIX,
};
use kaws::error::ErrorKind;
use kaws::issuance::{Cause, Operation};
use kaws::pki::{CfsslGencertResponse, CfsslGenkeyResponse, CfsslSignResponse};

#[test]
fn request_names_the_subject_and_a_2048_bit_rsa_key() {
    assert_eq!(
        request_json("kaws-demo"),
        "{\"CN\":\"kaws-demo\",\"key\":{\"algo\":\"rsa\",\"size\":2048}}"
    );
    assert_eq!(request_json(""), "{\"CN\":\"\",\"key\":{\"algo\":\"rsa\",\"size\":2048}}");
}

#[test]
fn request_is_a_json_object() {
    let parsed: serde_json::Value = serde_json::from_str(&request_json("alice")).unwrap();
    assert_eq!(parsed["CN"].as_str(), Some("alice"));
    assert_eq!(parsed["key"]["algo"].as_str(), Some("rsa"));
    assert_eq!(parsed["key"]["size"].as_u64(), Some(2048));
}

#[test]
fn request_keeps_the_name_within_its_quotes() {
    assert_eq!(
        request_json("a\"b"),
        "{\"CN\":\"a\\\"b\",\"key\":{\"algo\":\"rsa\",\"size\":2048}}"
    );
    assert_eq!(
        request_json("a\\b"),
        "{\"CN\":\"a\\\\b\",\"key\":{\"algo\":\"rsa\",\"size\":2048}}"
    );
    assert_eq!(
        request_json("a\nb\u{1f}"),
        "{\"CN\":\"a\\u000ab\\u001f\",\"key\":{\"algo\":\"rsa\",\"size\":2048}}"
    );
}

#[test]
fn no_name_adds_to_the_request_or_changes_it() {
    let mut names: Vec<String> = vec![
        "a\"b".to_string(),
        "\",\"key\":{\"algo\":\"rsa\",\"size\":512},\"x\":\"".to_string(),
        "back\\slash\\".to_string(),
        "\\\"".to_string(),
        "tab\tnewline\nreturn\r".to_string(),
        "kubernetes-\u{e9}\u{4e2d}\u{1f600}".to_string(),
        "\u{7f}\u{80}".to_string(),
        String::new(),
    ];
    names.push((0u8..0x30).map(char::from).collect());
    for name in names {
        let parsed: serde_json::Value = serde_json::from_str(&request_json(&name)).unwrap();
        let members = parsed.as_object().unwrap();
        assert_eq!(members.len(), 2);
        assert_eq!(members["CN"].as_str(), Some(name.as_str()));
        assert_eq!(members["key"].as_object().unwrap().len(), 2);
        assert_eq!(members["key"]["algo"].as_str(), Some("rsa"));
        assert_eq!(members["key"]["size"].as_u64(), Some(2048));
    }
}

#[test]
fn join_puts_the_separator_between_neighbours() {
    assert_eq!(join(&[], ","), "");
    assert_eq!(join(&["a"], ","), "a");
    assert_eq!(join(&["a", "b", "c"], ","), "a,b,c");
    assert_eq!(join(&["", ""], ", "), ", ");
    let parts = ["kubernetes", "kubernetes.default", "10.3.0.1"];
    assert_eq!(join(&parts, ","), parts.join(","));
}

#[test]
fn engine_and_staging_names() {
    assert_eq!(ENGINE, "cfssl");
    assert_eq!(STAGING_PREFIX, "kaws");
    assert_eq!(staged_certificate_path("/tmp/kaws.abc"), "/tmp/kaws.abc/cert.pem");
    assert_eq!(staged_key_path("/tmp/kaws.abc"), "/tmp/kaws.abc/key.pem");
}

#[test]
fn arguments_for_an_authority() {
    assert_eq!(generate_authority_arguments(), vec!["gencert", "-initca", "-"]);
}

#[test]
fn arguments_for_a_leaf_without_hostnames() {
    assert_eq!(
        generate_leaf_arguments("/t/cert.pem", "/t/key.pem", None),
        vec!["gencert", "-ca", "/t/cert.pem", "-ca-key", "/t/key.pem", "-"]
    );
}

#[test]
fn arguments_for_a_leaf_with_hostnames() {
    let san = ["kubernetes.demo.example.com"];
    assert_eq!(
        generate_leaf_arguments("/t/cert.pem", "/t/key.pem", Some(&san)),
        vec![
            "gencert",
            "-ca",
            "/t/cert.pem",
            "-ca-key",
            "/t/key.pem",
            "-hostname",
            "kubernetes.demo.example.com",
            "-",
        ]
    );
    let san = ["a.example.com", "b.example.com"];
    assert_eq!(
        generate_leaf_arguments("C", "K", Some(&san)),
        vec!["gencert", "-ca", "C", "-ca-key", "K", "-hostname", "a.example.com,b.example.com", "-"]
    );
}

#[test]
fn the_input_mark_is_the_last_argument_and_the_only_one() {
    let san = ["a.example.com", "b.example.com", "10.0.0.1"];
    for arguments in [
        generate_authority_arguments(),
        generate_leaf_arguments("c", "k", None),
        generate_leaf_arguments("c", "k", Some(&san)),
        generate_leaf_arguments("c", "k", Some(&[])),
        sign_arguments("c", "k"),
        generate_request_arguments(),
    ] {
        assert_eq!(arguments.last().map(String::as_str), Some("-"));
        assert_eq!(arguments.iter().filter(|argument| *argument == "-").count(), 1);
    }
}

#[test]
fn arguments_for_signing() {
    assert_eq!(
        sign_arguments("/t/cert.pem", "/t/key.pem"),
        vec!["sign", "-ca", "/t/cert.pem", "-ca-key", "/t/key.pem", "-"]
    );
}

#[test]
fn arguments_for_a_request() {
    assert_eq!(generate_request_arguments(), vec!["genkey", "-"]);
}

#[test]
fn each_operation_expects_its_response() {
    assert_eq!(response_shape(Operation::GenerateAuthority), ResponseShape::CertificateAndKey);
    assert_eq!(response_shape(Operation::GenerateLeaf), ResponseShape::CertificateAndKey);
    assert_eq!(response_shape(Operation::Sign), ResponseShape::Certificate);
    assert_eq!(response_shape(Operation::GenerateRequest), ResponseShape::RequestAndKey);
}

#[test]
fn results_hold_what_the_engine_answered() {
    let (cert, key) = leaf_from_response(CfsslGencertResponse { cert: vec![1, 2, 3], key: vec![4, 5] });
    assert_eq!(cert.as_bytes(), &[1, 2, 3]);
    assert_eq!(key.as_bytes(), &[4, 5]);

    let cert = certificate_from_response(CfsslSignResponse { cert: vec![9, 8] });
    assert_eq!(cert.as_bytes(), &[9, 8]);

    let (csr, key) = request_from_response(CfsslGenkeyResponse { csr: vec![7], key: vec![] });
    assert_eq!(csr.as_bytes(), &[7]);
    assert_eq!(key.as_bytes(), &[] as &[u8]);
}

#[test]
fn failures_are_classed_by_their_cause() {
    let cases = [
        (Cause::Staging, ErrorKind::Filesystem),
        (Cause::PathEncoding, ErrorKind::Encoding),
        (Cause::Spawn, ErrorKind::ProcessSpawn),
        (Cause::StdinUnavailable, ErrorKind::ProcessSpawn),
        (Cause::Request, ErrorKind::ProcessSpawn),
        (Cause::Wait, ErrorKind::ProcessSpawn),
        (Cause::EngineFailed, ErrorKind::Issuance),
        (Cause::Parse, ErrorKind::ResponseParse),
        (Cause::Removal, ErrorKind::Filesystem),
        (Cause::Protocol, ErrorKind::Other),
    ];
    for (cause, kind) in cases {
        assert_eq!(failure(Operation::Sign, cause, "detail".to_string()).kind, kind);
    }
}

#[test]
fn failures_say_what_happened() {
    let detail = || "No such file or directory (os error 2)".to_string();
    assert_eq!(
        failure(Operation::GenerateLeaf, Cause::Spawn, detail()).message,
        "No such file or directory (os error 2)"
    );
    assert_eq!(
        failure(Operation::GenerateLeaf, Cause::Parse, "expected value at line 1 column 1".to_string())
            .message,
        "expected value at line 1 column 1"
    );
    assert_eq!(
        failure(Operation::GenerateLeaf, Cause::PathEncoding, detail()).message,
        "Temporary path was invalid UTF-8"
    );
    assert_eq!(
        failure(Operation::Sign, Cause::StdinUnavailable, detail()).message,
        "failed to acquire handle to stdin of child process"
    );
    assert_eq!(
        failure(Operation::GenerateAuthority, Cause::EngineFailed, detail()).message,
        "Execution of `cfssl genkey` failed."
    );
    assert_eq!(
        failure(Operation::GenerateRequest, Cause::EngineFailed, detail()).message,
        "Execution of `cfssl genkey` failed."
    );
    assert_eq!(
        failure(Operation::GenerateLeaf, Cause::EngineFailed, detail()).message,
        "Execution of `cfssl gencert` failed."
    );
    assert_eq!(
        failure(Operation::Sign, Cause::EngineFailed, detail()).message,
        "Execution of `cfssl gencert` failed."
    );
}
