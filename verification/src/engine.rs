//! What is said to the issuance engine and what is made of its answer:
//! the request text, the command line, the staged file names, the results
//! and the failures.

use vstd::prelude::*;
use crate::error::{ErrorKind, KawsError};
use crate::issuance::{Cause, Operation};
use crate::json::{json_escape, json_escaped};
use crate::pki::{
    Certificate,
    CertificateSigningRequest,
    CfsslGencertResponse,
    CfsslGenkeyResponse,
    CfsslSignResponse,
    PrivateKey,
    from_bytes_keeps_them,
};

verus! {

/// The program that issues certificates.
pub const ENGINE: &'static str = "cfssl";

/// What the name of every staging directory begins with.
pub const STAGING_PREFIX: &'static str = "kaws";

/// The request for a 2048-bit RSA key under a common name: a JSON object
/// with the name under `CN` and the key's algorithm and size under `key`.
/// The name is written as a JSON string, so that whatever it holds stays
/// within the quotes.
pub open spec fn request_text(common_name: Seq<char>) -> Seq<char> {
    "{\"CN\":\""@ + json_escaped(common_name)
        + "\",\"key\":{\"algo\":\"rsa\",\"size\":2048}}"@
}

/// The texts of `parts` with `separator` between each two neighbours.
pub open spec fn joined(parts: Seq<Seq<char>>, separator: Seq<char>) -> Seq<char>
    decreases parts.len(),
{
    if parts.len() == 0 {
        Seq::empty()
    } else if parts.len() == 1 {
        parts[0]
    } else {
        joined(parts.drop_last(), separator) + separator + parts.last()
    }
}

/// The texts that a list of string slices stands for.
pub open spec fn texts(parts: Seq<&str>) -> Seq<Seq<char>> {
    parts.map_values(|part: &str| part@)
}

/// The text sent to the engine to ask for a key under `common_name`.
pub fn request_json(common_name: &str) -> (json: String)
    ensures
        json@ == request_text(common_name@),
{
    let mut json = String::from_str("{\"CN\":\"");
    json.append(json_escape(common_name).as_str());
    json.append("\",\"key\":{\"algo\":\"rsa\",\"size\":2048}}");
    json
}

/// Joins `parts` with `separator` between each two neighbours.
pub fn join(parts: &[&str], separator: &str) -> (text: String)
    ensures
        text@ == joined(texts(parts@), separator@),
{
    let mut text = String::from_str("");
    proof {
        reveal_strlit("");
    }
    let mut i: usize = 0;
    while i < parts.len()
        invariant
            i <= parts.len(),
            text@ == joined(texts(parts@).take(i as int), separator@),
        decreases parts.len() - i,
    {
        proof {
            let all = texts(parts@);
            assert(all.take(i + 1).drop_last() =~= all.take(i as int));
            assert(all.take(i + 1).last() == parts@[i as int]@);
            assert(Seq::<char>::empty() + parts@[i as int]@ =~= parts@[i as int]@);
        }
        if i > 0 {
            text.append(separator);
        }
        text.append(parts[i]);
        i = i + 1;
    }
    proof {
        assert(texts(parts@).take(parts@.len() as int) =~= texts(parts@));
    }
    text
}

/// Where an authority's certificate is staged within `directory`.
pub fn staged_certificate_path(directory: &str) -> (path: String)
    ensures
        path@ == directory@ + "/cert.pem"@,
{
    String::from_str(directory).concat("/cert.pem")
}

/// Where an authority's key is staged within `directory`.
pub fn staged_key_path(directory: &str) -> (path: String)
    ensures
        path@ == directory@ + "/key.pem"@,
{
    String::from_str(directory).concat("/key.pem")
}

/// The command line that asks the engine for a self-signed authority,
/// with the request on its input.
pub open spec fn authority_arguments() -> Seq<Seq<char>> {
    seq!["gencert"@, "-initca"@, "-"@]
}

/// The command line that asks the engine for a certificate under the
/// authority staged at the two paths: the flags first, among them, where
/// hostnames are given, the one that carries them joined by commas, and
/// last the mark that the request is on the engine's input.
pub open spec fn leaf_arguments(
    cert_path: Seq<char>,
    key_path: Seq<char>,
    san: Option<Seq<Seq<char>>>,
) -> Seq<Seq<char>> {
    let fixed = seq!["gencert"@, "-ca"@, cert_path, "-ca-key"@, key_path];
    match san {
        Some(names) => fixed + seq!["-hostname"@, joined(names, ","@), "-"@],
        None => fixed + seq!["-"@],
    }
}

/// The command line that asks the engine to sign the request on its input
/// under the authority staged at the two paths.
pub open spec fn signing_arguments(cert_path: Seq<char>, key_path: Seq<char>) -> Seq<Seq<char>> {
    seq!["sign"@, "-ca"@, cert_path, "-ca-key"@, key_path, "-"@]
}

/// The command line that asks the engine for a signing request and key,
/// with the request on its input.
pub open spec fn request_arguments() -> Seq<Seq<char>> {
    seq!["genkey"@, "-"@]
}

/// The arguments with which the engine generates an authority.
pub fn generate_authority_arguments() -> (arguments: Vec<String>)
    ensures
        arguments.deep_view() == authority_arguments(),
{
    let mut arguments: Vec<String> = Vec::new();
    arguments.push(String::from_str("gencert"));
    arguments.push(String::from_str("-initca"));
    arguments.push(String::from_str("-"));
    assert(arguments.deep_view() =~= authority_arguments());
    arguments
}

/// The arguments with which the engine generates a certificate and key
/// under the authority staged at `cert_path` and `key_path`, valid for the
/// hostnames in `san` where there are any.
pub fn generate_leaf_arguments(cert_path: &str, key_path: &str, san: Option<&[&str]>) -> (arguments:
    Vec<String>)
    ensures
        arguments.deep_view() == leaf_arguments(
            cert_path@,
            key_path@,
            match san {
                Some(names) => Some(texts(names@)),
                None => None,
            },
        ),
{
    let mut arguments: Vec<String> = Vec::new();
    arguments.push(String::from_str("gencert"));
    arguments.push(String::from_str("-ca"));
    arguments.push(String::from_str(cert_path));
    arguments.push(String::from_str("-ca-key"));
    arguments.push(String::from_str(key_path));
    if let Some(names) = san {
        arguments.push(String::from_str("-hostname"));
        arguments.push(join(names, ","));
    }
    arguments.push(String::from_str("-"));
    assert(arguments.deep_view() =~= leaf_arguments(
        cert_path@,
        key_path@,
        match san {
            Some(names) => Some(texts(names@)),
            None => None,
        },
    ));
    arguments
}

/// The arguments with which the engine signs a request under the
/// authority staged at `cert_path` and `key_path`.
pub fn sign_arguments(cert_path: &str, key_path: &str) -> (arguments: Vec<String>)
    ensures
        arguments.deep_view() == signing_arguments(cert_path@, key_path@),
{
    let mut arguments: Vec<String> = Vec::new();
    arguments.push(String::from_str("sign"));
    arguments.push(String::from_str("-ca"));
    arguments.push(String::from_str(cert_path));
    arguments.push(String::from_str("-ca-key"));
    arguments.push(String::from_str(key_path));
    arguments.push(String::from_str("-"));
    assert(arguments.deep_view() =~= signing_arguments(cert_path@, key_path@));
    arguments
}

/// The arguments with which the engine generates a signing request.
pub fn generate_request_arguments() -> (arguments: Vec<String>)
    ensures
        arguments.deep_view() == request_arguments(),
{
    let mut arguments: Vec<String> = Vec::new();
    arguments.push(String::from_str("genkey"));
    arguments.push(String::from_str("-"));
    assert(arguments.deep_view() =~= request_arguments());
    arguments
}

/// The fields that the engine's answer must hold.
#[derive(Clone, Copy, Debug, PartialEq, Eq, Structural)]
pub enum ResponseShape {
    /// `cert` and `key`.
    CertificateAndKey,
    /// `cert`.
    Certificate,
    /// `csr` and `key`.
    RequestAndKey,
}

/// The answer that each operation expects.
pub open spec fn expected_shape(operation: Operation) -> ResponseShape {
    match operation {
        Operation::GenerateAuthority => ResponseShape::CertificateAndKey,
        Operation::GenerateLeaf => ResponseShape::CertificateAndKey,
        Operation::Sign => ResponseShape::Certificate,
        Operation::GenerateRequest => ResponseShape::RequestAndKey,
    }
}

/// The answer to read the engine's output as.
pub fn response_shape(operation: Operation) -> (shape: ResponseShape)
    ensures
        shape == expected_shape(operation),
{
    match operation {
        Operation::GenerateAuthority | Operation::GenerateLeaf => ResponseShape::CertificateAndKey,
        Operation::Sign => ResponseShape::Certificate,
        Operation::GenerateRequest => ResponseShape::RequestAndKey,
    }
}

/// The certificate and key of a leaf, as the engine answered.
pub fn leaf_from_response(raw: CfsslGencertResponse) -> (leaf: (Certificate, PrivateKey))
    ensures
        leaf.0@ == raw.cert@,
        leaf.1@ == raw.key@,
{
    proof {
        from_bytes_keeps_them(raw.cert);
        from_bytes_keeps_them(raw.key);
    }
    (Certificate::from(raw.cert), PrivateKey::from(raw.key))
}

/// The certificate that the engine signed.
pub fn certificate_from_response(raw: CfsslSignResponse) -> (certificate: Certificate)
    ensures
        certificate@ == raw.cert@,
{
    proof {
        from_bytes_keeps_them(raw.cert);
    }
    Certificate::from(raw.cert)
}

/// The signing request and key, as the engine answered.
pub fn request_from_response(raw: CfsslGenkeyResponse) -> (request: (
    CertificateSigningRequest,
    PrivateKey,
))
    ensures
        request.0@ == raw.csr@,
        request.1@ == raw.key@,
{
    proof {
        from_bytes_keeps_them(raw.csr);
        from_bytes_keeps_them(raw.key);
    }
    (CertificateSigningRequest::from(raw.csr), PrivateKey::from(raw.key))
}

/// The class of the failure that a cause gives rise to.
pub open spec fn failure_kind(cause: Cause) -> ErrorKind {
    match cause {
        Cause::Staging => ErrorKind::Filesystem,
        Cause::PathEncoding => ErrorKind::Encoding,
        Cause::Spawn => ErrorKind::ProcessSpawn,
        Cause::StdinUnavailable => ErrorKind::ProcessSpawn,
        Cause::Request => ErrorKind::ProcessSpawn,
        Cause::Wait => ErrorKind::ProcessSpawn,
        Cause::EngineFailed => ErrorKind::Issuance,
        Cause::Parse => ErrorKind::ResponseParse,
        Cause::Removal => ErrorKind::Filesystem,
        Cause::Protocol => ErrorKind::Other,
    }
}

/// The message of the failure: fixed where the cause says all there is to
/// say, else the detail that came with the report.
pub open spec fn failure_text(operation: Operation, cause: Cause, detail: Seq<char>) -> Seq<
    char,
> {
    match cause {
        Cause::PathEncoding => "Temporary path was invalid UTF-8"@,
        Cause::StdinUnavailable => "failed to acquire handle to stdin of child process"@,
        Cause::EngineFailed => if operation.stages_authority() {
            "Execution of `cfssl gencert` failed."@
        } else {
            "Execution of `cfssl genkey` failed."@
        },
        Cause::Protocol => "The exchange with cfssl was reported out of turn."@,
        _ => detail,
    }
}

/// The failure that an exchange ends with, given its cause and what the
/// failing action reported.
pub fn failure(operation: Operation, cause: Cause, detail: String) -> (error: KawsError)
    ensures
        error.kind == failure_kind(cause),
        error.message@ == failure_text(operation, cause, detail@),
{
    match cause {
        Cause::Staging => KawsError::of_kind(ErrorKind::Filesystem, detail),
        Cause::PathEncoding => KawsError::of_kind(
            ErrorKind::Encoding,
            String::from_str("Temporary path was invalid UTF-8"),
        ),
        Cause::Spawn => KawsError::of_kind(ErrorKind::ProcessSpawn, detail),
        Cause::StdinUnavailable => KawsError::of_kind(
            ErrorKind::ProcessSpawn,
            String::from_str("failed to acquire handle to stdin of child process"),
        ),
        Cause::Request => KawsError::of_kind(ErrorKind::ProcessSpawn, detail),
        Cause::Wait => KawsError::of_kind(ErrorKind::ProcessSpawn, detail),
        Cause::EngineFailed => if operation.needs_authority() {
            KawsError::of_kind(
                ErrorKind::Issuance,
                String::from_str("Execution of `cfssl gencert` failed."),
            )
        } else {
            KawsError::of_kind(
                ErrorKind::Issuance,
                String::from_str("Execution of `cfssl genkey` failed."),
            )
        },
        Cause::Parse => KawsError::of_kind(ErrorKind::ResponseParse, detail),
        Cause::Removal => KawsError::of_kind(ErrorKind::Filesystem, detail),
        Cause::Protocol => KawsError::of_kind(
            ErrorKind::Other,
            String::from_str("The exchange with cfssl was reported out of turn."),
        ),
    }
}

} // verus!
