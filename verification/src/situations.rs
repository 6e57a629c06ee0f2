//! What can go wrong, each in the words of the part where it happened.
use vstd::prelude::*;

verus! {

/// What the window is told of something that went wrong: a situation it can
/// name and the raw detail behind it.
#[derive(Clone, Debug, PartialEq)]
pub struct Failure {
    pub situation: String,
    pub detail: String,
}

impl Failure {
    pub fn new(situation: &str, detail: String) -> (f: Failure)
        ensures
            f.situation@ == situation@,
            f.detail@ == detail@,
    {
        Failure { situation: situation.to_owned(), detail }
    }

    pub fn copied(&self) -> (f: Failure)
        ensures
            f == *self,
    {
        Failure { situation: self.situation.clone(), detail: self.detail.clone() }
    }
}

/// What a token or a PKCS#11 module answered.
#[derive(Clone, Copy, Debug, PartialEq, Eq, Structural)]
pub enum TokenSituation {
    IncorrectPin,
    PinLocked,
    TokenAbsent,
    ExpiredSession,
    ModuleNotFound,
    CertificateNotFound,
    Pkcs12Unreadable,
    KeyNotRsa,
    Unknown,
}

/// A refusal of the token, with its raw detail.
#[derive(Clone, Debug)]
pub struct TokenError {
    pub situation: TokenSituation,
    pub detail: String,
}

/// The name the window knows a situation of the token by.
pub open spec fn token_situation_name(situation: TokenSituation) -> Seq<char> {
    match situation {
        TokenSituation::IncorrectPin => "incorrectPin"@,
        TokenSituation::PinLocked => "pinLocked"@,
        TokenSituation::TokenAbsent => "tokenAbsent"@,
        TokenSituation::ExpiredSession => "expiredSession"@,
        TokenSituation::ModuleNotFound => "moduleNotFound"@,
        TokenSituation::CertificateNotFound => "certificateNotFound"@,
        TokenSituation::Pkcs12Unreadable => "pkcs12Unreadable"@,
        TokenSituation::KeyNotRsa => "keyNotRsa"@,
        TokenSituation::Unknown => "unknown"@,
    }
}

impl TokenError {
    /// What the window is told of it: its situation and its whole detail.
    pub fn failure(&self) -> (f: Failure)
        ensures
            f.situation@ == token_situation_name(self.situation),
            f.detail@ == self.detail@,
    {
        let name = match self.situation {
            TokenSituation::IncorrectPin => "incorrectPin",
            TokenSituation::PinLocked => "pinLocked",
            TokenSituation::TokenAbsent => "tokenAbsent",
            TokenSituation::ExpiredSession => "expiredSession",
            TokenSituation::ModuleNotFound => "moduleNotFound",
            TokenSituation::CertificateNotFound => "certificateNotFound",
            TokenSituation::Pkcs12Unreadable => "pkcs12Unreadable",
            TokenSituation::KeyNotRsa => "keyNotRsa",
            TokenSituation::Unknown => "unknown",
        };
        Failure::new(name, self.detail.clone())
    }

    pub fn new(situation: TokenSituation, detail: String) -> (e: TokenError)
        ensures
            e.situation == situation,
            e.detail@ == detail@,
    {
        TokenError { situation, detail }
    }

    pub fn situation(&self) -> (s: TokenSituation)
        ensures
            s == self.situation,
    {
        self.situation
    }
}

/// What the files on disk of the application answered.
#[derive(Clone, Copy, Debug, PartialEq, Eq, Structural)]
pub enum MemorySituation {
    Unreadable,
    Unwritable,
}

/// What the destination folder answered.
#[derive(Clone, Copy, Debug, PartialEq, Eq, Structural)]
pub enum DestinationSituation {
    FolderMissing,
    NotAFolder,
    FolderUnreadable,
    NoFreeName,
}

/// What the store of the handwritten rubric answered.
#[derive(Clone, Copy, Debug, PartialEq, Eq, Structural)]
pub enum RubricSituation {
    NotAnAcceptedImage,
    DamagedImage,
    ImageTooLarge,
    SourceUnreadable,
    StoreUnwritable,
    StoreUnreadable,
}

/// What the local channel towards the site answered.
#[derive(Clone, Copy, Debug, PartialEq, Eq, Structural)]
pub enum ChannelSituation {
    NoDrawnPortIsFree,
    NotListening,
    MaterialNotUsable,
}

/// Why a document cannot be signed, known before the PIN is asked.
#[derive(Clone, Copy, Debug, PartialEq, Eq, Structural)]
pub enum Inadmissible {
    NotAPdf,
    Encrypted,
    Certified,
}

/// What the native bridge answered.
#[derive(Clone, Debug)]
pub enum BridgeError {
    PdfHasUnregisteredSignatures(String),
    IncompatiblePolicy(String),
    ExecutablePathUnknown(String),
    NotFound(String),
    Load { detail: String },
    MissingSymbol { symbol: String },
    IsolateFailed(String),
    InvalidArgument(String),
    NullResponse,
    MalformedResponse(String),
    Failed(String),
}

/// The session seal came back different from the one issued.
#[derive(Clone, Copy, Debug, PartialEq, Eq, Structural)]
pub struct SealMismatch;

/// What can break in the three-phase signing cycle.
#[derive(Clone, Debug)]
pub enum CycleError {
    Inadmissible(Inadmissible),
    Bridge(BridgeError),
    Token(TokenError),
    Seal(SealMismatch),
}

/// The token asks for its secret on the reader's own keypad.
#[derive(Clone, Copy, Debug, PartialEq, Eq, Structural)]
pub struct SecretOnTheReaderKeypad;

/// The thread that held the bridge is gone.
#[derive(Clone, Copy, Debug, PartialEq, Eq, Structural)]
pub struct IsolateGone;

/// What can break while a signature is being produced.
#[derive(Clone, Debug)]
pub enum CycleFailure {
    DocumentUnreadable(String),
    Cycle(CycleError),
    SecretOnTheReaderKeypad(SecretOnTheReaderKeypad),
    Gone(IsolateGone),
}

} // verus!
