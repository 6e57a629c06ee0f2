//! The border where every situation of ours becomes a code of the catalogue
//! the site can read.
use vstd::prelude::*;

use crate::catalogue::{number_of, wire_line, SafCode, WireAnswer};
use crate::situations::{
    BridgeError, ChannelSituation, CycleError, CycleFailure, DestinationSituation, Inadmissible,
    MemorySituation, RubricSituation, TokenSituation,
};

verus! {

pub open spec fn token_code(situation: TokenSituation) -> SafCode {
    match situation {
        TokenSituation::IncorrectPin
        | TokenSituation::ExpiredSession
        | TokenSituation::Pkcs12Unreadable
        | TokenSituation::Unknown => SafCode::CannotAccessKeystore,
        TokenSituation::PinLocked => SafCode::LockedKeystore,
        TokenSituation::TokenAbsent | TokenSituation::ModuleNotFound => SafCode::CannotFindKeystore,
        TokenSituation::CertificateNotFound => SafCode::NoCertificatesInKeystore,
        TokenSituation::KeyNotRsa => SafCode::IncompatibleKeyType,
    }
}

/// The code of a situation of the token.
pub fn code_of_token(situation: TokenSituation) -> (c: SafCode)
    ensures
        c == token_code(situation),
{
    match situation {
        TokenSituation::IncorrectPin
        | TokenSituation::ExpiredSession
        | TokenSituation::Pkcs12Unreadable
        | TokenSituation::Unknown => SafCode::CannotAccessKeystore,
        TokenSituation::PinLocked => SafCode::LockedKeystore,
        TokenSituation::TokenAbsent | TokenSituation::ModuleNotFound => SafCode::CannotFindKeystore,
        TokenSituation::CertificateNotFound => SafCode::NoCertificatesInKeystore,
        TokenSituation::KeyNotRsa => SafCode::IncompatibleKeyType,
    }
}

pub open spec fn memory_code(situation: MemorySituation) -> SafCode {
    match situation {
        MemorySituation::Unreadable => SafCode::CannotReadData,
        MemorySituation::Unwritable => SafCode::CannotSaveData,
    }
}

/// The code of a situation of the application's files.
pub fn code_of_memory(situation: MemorySituation) -> (c: SafCode)
    ensures
        c == memory_code(situation),
{
    match situation {
        MemorySituation::Unreadable => SafCode::CannotReadData,
        MemorySituation::Unwritable => SafCode::CannotSaveData,
    }
}

/// The code of a situation of the destination folder: every one of them is
/// data that could not be saved.
pub fn code_of_destination(situation: DestinationSituation) -> (c: SafCode)
    ensures
        c == SafCode::CannotSaveData,
{
    match situation {
        DestinationSituation::FolderMissing
        | DestinationSituation::NotAFolder
        | DestinationSituation::FolderUnreadable
        | DestinationSituation::NoFreeName => SafCode::CannotSaveData,
    }
}

/// The code of a situation of the rubric store: every one of them is the
/// visible signature's.
pub fn code_of_rubric(situation: RubricSituation) -> (c: SafCode)
    ensures
        c == SafCode::VisibleSignature,
{
    match situation {
        RubricSituation::NotAnAcceptedImage
        | RubricSituation::DamagedImage
        | RubricSituation::ImageTooLarge
        | RubricSituation::SourceUnreadable
        | RubricSituation::StoreUnwritable
        | RubricSituation::StoreUnreadable => SafCode::VisibleSignature,
    }
}

pub open spec fn channel_code(situation: ChannelSituation) -> SafCode {
    match situation {
        ChannelSituation::NoDrawnPortIsFree | ChannelSituation::NotListening => {
            SafCode::CannotOpenSocket
        },
        ChannelSituation::MaterialNotUsable => SafCode::CannotAccessSslKeystore,
    }
}

/// The code of a situation of the local channel.
pub fn code_of_channel(situation: ChannelSituation) -> (c: SafCode)
    ensures
        c == channel_code(situation),
{
    match situation {
        ChannelSituation::NoDrawnPortIsFree | ChannelSituation::NotListening => {
            SafCode::CannotOpenSocket
        },
        ChannelSituation::MaterialNotUsable => SafCode::CannotAccessSslKeystore,
    }
}

pub open spec fn inadmissible_code(refusal: Inadmissible) -> SafCode {
    match refusal {
        Inadmissible::NotAPdf => SafCode::InvalidPdf,
        Inadmissible::Encrypted => SafCode::PdfWrongPassword,
        Inadmissible::Certified => SafCode::PdfCertified,
    }
}

/// The code of a document that cannot be signed.
pub fn code_of_inadmissible(refusal: Inadmissible) -> (c: SafCode)
    ensures
        c == inadmissible_code(refusal),
{
    match refusal {
        Inadmissible::NotAPdf => SafCode::InvalidPdf,
        Inadmissible::Encrypted => SafCode::PdfWrongPassword,
        Inadmissible::Certified => SafCode::PdfCertified,
    }
}

pub open spec fn bridge_code(error: BridgeError) -> SafCode {
    match error {
        BridgeError::PdfHasUnregisteredSignatures(_) => SafCode::ConfirmationNeeded,
        BridgeError::IncompatiblePolicy(_) => SafCode::InvalidPolicy,
        _ => SafCode::SignatureFailed,
    }
}

/// The code of an answer of the native bridge.
pub fn code_of_bridge(error: &BridgeError) -> (c: SafCode)
    ensures
        c == bridge_code(*error),
{
    match error {
        BridgeError::PdfHasUnregisteredSignatures(_) => SafCode::ConfirmationNeeded,
        BridgeError::IncompatiblePolicy(_) => SafCode::InvalidPolicy,
        BridgeError::ExecutablePathUnknown(_)
        | BridgeError::NotFound(_)
        | BridgeError::Load { .. }
        | BridgeError::MissingSymbol { .. }
        | BridgeError::IsolateFailed(_)
        | BridgeError::InvalidArgument(_)
        | BridgeError::NullResponse
        | BridgeError::MalformedResponse(_)
        | BridgeError::Failed(_) => SafCode::SignatureFailed,
    }
}

/// The code of a session seal that came back changed.
pub fn code_of_broken_seal() -> (c: SafCode)
    ensures
        c == SafCode::PostprocessingData,
{
    SafCode::PostprocessingData
}

pub open spec fn cycle_code(failure: CycleFailure) -> SafCode {
    match failure {
        CycleFailure::DocumentUnreadable(_) => SafCode::CannotReadData,
        CycleFailure::Cycle(CycleError::Inadmissible(refusal)) => inadmissible_code(refusal),
        CycleFailure::Cycle(CycleError::Bridge(error)) => bridge_code(error),
        CycleFailure::Cycle(CycleError::Token(error)) => token_code(error.situation),
        CycleFailure::Cycle(CycleError::Seal(_)) => SafCode::PostprocessingData,
        CycleFailure::SecretOnTheReaderKeypad(_) => SafCode::CannotAccessKeystore,
        CycleFailure::Gone(_) => SafCode::SignatureFailed,
    }
}

/// The code of what broke in the signing cycle.
pub fn code_of_cycle(failure: &CycleFailure) -> (c: SafCode)
    ensures
        c == cycle_code(*failure),
{
    match failure {
        CycleFailure::DocumentUnreadable(_) => SafCode::CannotReadData,
        CycleFailure::Cycle(CycleError::Inadmissible(refusal)) => code_of_inadmissible(*refusal),
        CycleFailure::Cycle(CycleError::Bridge(error)) => code_of_bridge(error),
        CycleFailure::Cycle(CycleError::Token(error)) => code_of_token(error.situation()),
        CycleFailure::Cycle(CycleError::Seal(_)) => code_of_broken_seal(),
        CycleFailure::SecretOnTheReaderKeypad(_) => SafCode::CannotAccessKeystore,
        CycleFailure::Gone(_) => SafCode::SignatureFailed,
    }
}

/// The answer of a person who said no.
pub fn cancelled() -> (a: WireAnswer)
    ensures
        a == WireAnswer::Cancelled,
        wire_line(a) == "CANCEL"@,
{
    WireAnswer::Cancelled
}

/// The shadow-attack code is never produced by any situation of ours.
pub proof fn the_shadow_attack_code_is_never_produced(
    token: TokenSituation,
    memory: MemorySituation,
    channel: ChannelSituation,
    refusal: Inadmissible,
    bridge: BridgeError,
    failure: CycleFailure,
)
    ensures
        token_code(token) != SafCode::PdfShadowAttack,
        memory_code(memory) != SafCode::PdfShadowAttack,
        channel_code(channel) != SafCode::PdfShadowAttack,
        inadmissible_code(refusal) != SafCode::PdfShadowAttack,
        bridge_code(bridge) != SafCode::PdfShadowAttack,
        cycle_code(failure) != SafCode::PdfShadowAttack,
{
}

/// No refusal of ours is a cancellation: its line is never the `CANCEL` a
/// person's no becomes.
pub proof fn no_refusal_is_a_cancellation(code: SafCode)
    ensures
        WireAnswer::Refused(code) != WireAnswer::Cancelled,
        wire_line(WireAnswer::Refused(code)) != wire_line(WireAnswer::Cancelled),
{
    reveal_strlit("CANCEL");
    reveal_strlit("SAF_");
    let line = wire_line(WireAnswer::Refused(code));
    assert(line[0] == 'S');
    assert(wire_line(WireAnswer::Cancelled)[0] == 'C');
}

/// A PIN locked after too many wrong tries is told to the site as a locked
/// keystore, and no other situation of the token is: the site reads a
/// locked PIN apart from a wrong one, whose keystore merely could not be
/// accessed, and a locked PIN never reads as a keystore that could not be
/// accessed.
pub proof fn a_locked_pin_is_told_apart(situation: TokenSituation)
    ensures
        token_code(situation) == SafCode::LockedKeystore <==> situation == TokenSituation::PinLocked,
        number_of(token_code(situation)) == 21 <==> situation == TokenSituation::PinLocked,
        situation == TokenSituation::PinLocked ==> token_code(situation) != token_code(
            TokenSituation::IncorrectPin,
        ) && token_code(situation) != SafCode::CannotAccessKeystore,
{
}

/// The three reasons a PDF is refused get three different codes.
pub proof fn the_three_pdf_situations_get_three_codes(a: Inadmissible, b: Inadmissible)
    requires
        a != b,
    ensures
        inadmissible_code(a) != inadmissible_code(b),
{
}

/// What breaks after the consent keeps its own code: a broken seal is not a
/// signature that did not come out.
pub proof fn a_broken_seal_keeps_its_own_code(failure: CycleFailure)
    requires
        failure matches CycleFailure::Cycle(CycleError::Seal(_)),
    ensures
        cycle_code(failure) == SafCode::PostprocessingData,
        cycle_code(failure) != SafCode::SignatureFailed,
{
}

} // verus!
