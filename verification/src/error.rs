//! The error value shared by every operation, and the classes it falls in.

use vstd::prelude::*;

verus! {

/// The class of a failure, by the collaborator or artifact that caused it.
#[derive(Clone, Copy, Debug, PartialEq, Eq, Structural)]
pub enum ErrorKind {
    /// The remote key service denied the master key or could not be reached.
    RemoteKeyService,
    /// An encrypted blob is not well-formed text of its encoding.
    MalformedBlob,
    /// The key service found the ciphertext altered or not its own.
    Decryption,
    /// The issuance engine ran and reported failure.
    Issuance,
    /// The issuance engine answered with something that is not a response.
    ResponseParse,
    /// A file or directory could not be read, written or removed.
    Filesystem,
    /// The issuance engine could not be started or spoken to.
    ProcessSpawn,
    /// Bytes could not be turned into the text they were expected to be.
    Encoding,
    /// A failure that carries only its message.
    Other,
}

/// A failure: its class and a message for the operator.
#[derive(Debug)]
pub struct KawsError {
    pub kind: ErrorKind,
    pub message: String,
}

/// What an operation hands to the driver: an optional message on success.
pub type KawsResult = Result<Option<String>, KawsError>;

impl KawsError {
    /// A failure of no particular class.
    pub fn new(message: String) -> (error: KawsError)
        ensures
            error.kind == ErrorKind::Other,
            error.message@ == message@,
    {
        KawsError { kind: ErrorKind::Other, message }
    }

    /// A failure of the given class.
    pub fn of_kind(kind: ErrorKind, message: String) -> (error: KawsError)
        ensures
            error.kind == kind,
            error.message@ == message@,
    {
        KawsError { kind, message }
    }

    /// The class of this failure.
    pub fn kind(&self) -> (kind: ErrorKind)
        ensures
            kind == self.kind,
    {
        self.kind
    }

    /// The message, as the driver prints it.
    pub fn description(&self) -> (message: &str)
        ensures
            message@ == self.message@,
    {
        self.message.as_str()
    }
}

} // verus!
