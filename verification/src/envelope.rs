//! Secrets at rest. A key never rests on disk but sealed: the remote key
//! service wraps a data key under the master key and encrypts with it, and
//! what it returns is kept as one run of base64 text. To read a secret
//! back, the text is decoded and handed to the service whole; the wrapped
//! key in it tells the service which master key to use.
//!
//! The calls to the service are the caller's; this module frames what is
//! stored and decides what each answer of the service amounts to.

use vstd::prelude::*;
use rustc_serialize::base64::{FromBase64, FromBase64Error, ToBase64, STANDARD};
use crate::error::{ErrorKind, KawsError};

verus! {

/// The text that `ToBase64::to_base64` of rustc_serialize gives for bytes
/// under its `STANDARD` configuration.
pub uninterp spec fn base64_text(bytes: Seq<u8>) -> Seq<char>;

/// The bytes that `FromBase64::from_base64` of rustc_serialize gives for a
/// text, or `None` where it refuses the text.
pub uninterp spec fn base64_bytes(text: Seq<char>) -> Option<Seq<u8>>;

/// The error of rustc_serialize's base64 decoder.
#[verifier::external_type_specification]
#[verifier::external_body]
pub struct ExFromBase64Error(FromBase64Error);

/// `<[u8] as ToBase64>::to_base64` of rustc_serialize with `STANDARD`:
/// the result is the encoding of the bytes, and the crate's decoder turns
/// it back into them. Nothing here is proved; it is taken from the
/// encoder and decoder as rustc_serialize wrote them.
#[verifier::external_body]
fn to_base64(bytes: &[u8]) -> (text: String)
    ensures
        text@ == base64_text(bytes@),
        base64_bytes(text@) == Some(bytes@),
{
    bytes.to_base64(STANDARD)
}

/// `<str as FromBase64>::from_base64` of rustc_serialize: the bytes that
/// the text encodes, or the decoder's error where it refuses the text.
#[verifier::external_body]
fn from_base64(text: &str) -> (decoded: Result<Vec<u8>, FromBase64Error>)
    ensures
        match decoded {
            Ok(bytes) => base64_bytes(text@) == Some(bytes@),
            Err(_) => base64_bytes(text@) is None,
        },
{
    text.from_base64()
}

/// The decoder's error as rustc_serialize words it.
#[verifier::external_body]
fn base64_error_text(error: &FromBase64Error) -> (text: String) {
    format!("{}", error)
}

/// The master key under which the service wraps data keys.
pub struct MasterKeyReference {
    pub region: String,
    pub key_id: String,
}

/// A sealed secret: base64 text of the wrapped data key followed by the
/// cipher output. The only form in which the key of an authority or of a
/// service rests on disk.
pub struct EncryptedBlob(String);

/// What the key service returns when it encrypts.
pub struct Sealed {
    pub wrapped_key: Vec<u8>,
    pub payload: Vec<u8>,
}

/// Why the key service did not do what it was asked.
#[derive(Clone, Copy, Debug, PartialEq, Eq, Structural)]
pub enum ServiceFault {
    /// The caller may not use the master key.
    Denied,
    /// The master key or the service cannot be reached or used.
    Unavailable,
    /// The ciphertext was altered or is not the service's own.
    InvalidCiphertext,
}

/// A refusal of the key service, with its own words.
pub struct ServiceFailure {
    pub fault: ServiceFault,
    pub message: String,
}

impl View for EncryptedBlob {
    type V = Seq<char>;

    closed spec fn view(&self) -> Seq<char> {
        self.0@
    }
}

impl EncryptedBlob {
    /// A blob as it was read from disk.
    pub fn from_text(text: String) -> (blob: EncryptedBlob)
        ensures
            blob@ == text@,
    {
        EncryptedBlob(text)
    }

    /// The text to write to disk.
    pub fn as_str(&self) -> (text: &str)
        ensures
            text@ == self@,
    {
        self.0.as_str()
    }
}

/// The class of the failure that a refusal of the service amounts to.
pub open spec fn fault_kind(fault: ServiceFault) -> ErrorKind {
    match fault {
        ServiceFault::Denied => ErrorKind::RemoteKeyService,
        ServiceFault::Unavailable => ErrorKind::RemoteKeyService,
        ServiceFault::InvalidCiphertext => ErrorKind::Decryption,
    }
}

/// The failure that a refusal of the service amounts to.
pub fn service_error(failure: ServiceFailure) -> (error: KawsError)
    ensures
        error.kind == fault_kind(failure.fault),
        error.message@ == failure.message@,
{
    match failure.fault {
        ServiceFault::Denied => KawsError::of_kind(ErrorKind::RemoteKeyService, failure.message),
        ServiceFault::Unavailable => KawsError::of_kind(
            ErrorKind::RemoteKeyService,
            failure.message,
        ),
        ServiceFault::InvalidCiphertext => KawsError::of_kind(
            ErrorKind::Decryption,
            failure.message,
        ),
    }
}

/// Frames what the service returned: the base64 text of the wrapped key
/// followed by the payload. Unsealing the blob gives back these bytes.
pub fn seal(wrapped_key: &[u8], payload: &[u8]) -> (blob: EncryptedBlob)
    ensures
        blob@ == base64_text(wrapped_key@ + payload@),
        base64_bytes(blob@) == Some(wrapped_key@ + payload@),
{
    let mut bytes: Vec<u8> = Vec::new();
    bytes.extend_from_slice(wrapped_key);
    bytes.extend_from_slice(payload);
    assert(bytes@ =~= wrapped_key@ + payload@);
    EncryptedBlob(to_base64(bytes.as_slice()))
}

/// Whether a text is a blob's frame: the encoder's own text of the bytes
/// that the decoder reads from it. The decoder reads more than the encoder
/// writes (line breaks, the characters of the other alphabet, spare bits in
/// the last character); none of that is a frame.
pub open spec fn is_frame(blob: Seq<char>) -> bool {
    base64_bytes(blob) matches Some(bytes) && base64_text(bytes) == blob
}

/// What opening a blob's frame comes to: the bytes that the text encodes
/// where it is a frame, else a `MalformedBlob` failure.
pub open spec fn unseal_result(blob: Seq<char>, opened: Result<Vec<u8>, KawsError>) -> bool {
    match opened {
        Ok(bytes) => is_frame(blob) && base64_bytes(blob) == Some(bytes@),
        Err(error) => !is_frame(blob) && error.kind == ErrorKind::MalformedBlob && (base64_bytes(
            blob,
        ) is Some ==> error.message@
            == "The blob is not the base64 text of its contents as it was written"@),
    }
}

/// Opens the frame: the bytes to hand to the service, wrapped key first.
/// Fails, with `MalformedBlob`, exactly where the blob is not the text that
/// sealing its contents would have written, so that a blob changed in any
/// character is either refused here or hands the service other bytes.
pub fn unseal(blob: &EncryptedBlob) -> (opened: Result<Vec<u8>, KawsError>)
    ensures
        unseal_result(blob@, opened),
{
    match from_base64(blob.as_str()) {
        Ok(bytes) => {
            let written = to_base64(bytes.as_slice());
            if written == blob.0 {
                Ok(bytes)
            } else {
                Err(
                    KawsError::of_kind(
                        ErrorKind::MalformedBlob,
                        String::from_str(
                            "The blob is not the base64 text of its contents as it was written",
                        ),
                    ),
                )
            }
        },
        Err(error) => Err(
            KawsError::of_kind(ErrorKind::MalformedBlob, base64_error_text(&error)),
        ),
    }
}

/// What encrypting comes to, given the service's answer: the sealed blob
/// where the service returned ciphertext, else the failure.
pub open spec fn encrypt_result(
    answer: Result<Option<Sealed>, ServiceFailure>,
    outcome: Result<EncryptedBlob, KawsError>,
) -> bool {
    match answer {
        Ok(Some(sealed)) => outcome is Ok && outcome->Ok_0@ == base64_text(
            sealed.wrapped_key@ + sealed.payload@,
        ) && base64_bytes(outcome->Ok_0@) == Some(sealed.wrapped_key@ + sealed.payload@),
        Ok(None) => outcome is Err && outcome->Err_0.kind == ErrorKind::RemoteKeyService
            && outcome->Err_0.message@ == "No ciphertext was returned by the key service"@,
        Err(failure) => outcome is Err && outcome->Err_0.kind == fault_kind(failure.fault)
            && outcome->Err_0.message@ == failure.message@,
    }
}

/// What decrypting comes to, given the service's answer: the plaintext
/// where the service returned one, else the failure.
pub open spec fn decrypt_result(
    answer: Result<Option<Vec<u8>>, ServiceFailure>,
    outcome: Result<Vec<u8>, KawsError>,
) -> bool {
    match answer {
        Ok(Some(plaintext)) => outcome is Ok && outcome->Ok_0@ == plaintext@,
        Ok(None) => outcome is Err && outcome->Err_0.kind == ErrorKind::Decryption
            && outcome->Err_0.message@ == "No plaintext was returned by the key service"@,
        Err(failure) => outcome is Err && outcome->Err_0.kind == fault_kind(failure.fault)
            && outcome->Err_0.message@ == failure.message@,
    }
}

/// Finishes an encryption: seals what the service returned, or reports
/// why there is nothing to seal.
pub fn encrypt_outcome(answer: Result<Option<Sealed>, ServiceFailure>) -> (outcome: Result<
    EncryptedBlob,
    KawsError,
>)
    ensures
        encrypt_result(answer, outcome),
{
    match answer {
        Ok(Some(sealed)) => Ok(seal(sealed.wrapped_key.as_slice(), sealed.payload.as_slice())),
        Ok(None) => Err(
            KawsError::of_kind(
                ErrorKind::RemoteKeyService,
                String::from_str("No ciphertext was returned by the key service"),
            ),
        ),
        Err(failure) => Err(service_error(failure)),
    }
}

/// Finishes a decryption: the plaintext that the service returned, as it
/// returned it, or why there is none.
pub fn decrypt_outcome(answer: Result<Option<Vec<u8>>, ServiceFailure>) -> (outcome: Result<
    Vec<u8>,
    KawsError,
>)
    ensures
        decrypt_result(answer, outcome),
{
    match answer {
        Ok(Some(plaintext)) => Ok(plaintext),
        Ok(None) => Err(
            KawsError::of_kind(
                ErrorKind::Decryption,
                String::from_str("No plaintext was returned by the key service"),
            ),
        ),
        Err(failure) => Err(service_error(failure)),
    }
}

/// What was sealed is what is opened: where the service returned
/// ciphertext, encrypting gives a blob, and opening that blob's frame gives
/// back, byte for byte, the wrapped key and payload that the service
/// returned. So the service is asked to decrypt exactly what it produced.
pub proof fn what_is_sealed_opens(
    sealed: Sealed,
    outcome: Result<EncryptedBlob, KawsError>,
    opened: Result<Vec<u8>, KawsError>,
)
    requires
        encrypt_result(Ok(Some(sealed)), outcome),
        outcome is Ok ==> unseal_result(outcome->Ok_0@, opened),
    ensures
        outcome is Ok,
        opened is Ok,
        opened->Ok_0@ == sealed.wrapped_key@ + sealed.payload@,
{
}

/// No two blobs open to the same bytes: a blob that differs from another
/// in any character either does not open, or opens to bytes that differ
/// from the other's. So the service is never handed the ciphertext of the
/// blob that was written when it is handed a changed one; that it then
/// refuses what it is handed is the service's own doing.
pub proof fn changed_blob_opens_differently(
    written: Seq<char>,
    changed: Seq<char>,
    opened_written: Result<Vec<u8>, KawsError>,
    opened_changed: Result<Vec<u8>, KawsError>,
)
    requires
        unseal_result(written, opened_written),
        unseal_result(changed, opened_changed),
        written != changed,
        opened_written is Ok,
    ensures
        opened_changed is Err || opened_changed->Ok_0@ != opened_written->Ok_0@,
{
}

} // verus!
