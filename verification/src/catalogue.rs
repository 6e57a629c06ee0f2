//! The closed catalogue of answers a site can read: the `SAF_` codes of the
//! published client and the cancellation.
use vstd::prelude::*;

use crate::text::{chars_of, string_of};

verus! {

/// A code of the published catalogue.
#[derive(Clone, Copy, Debug, PartialEq, Eq, Structural)]
pub enum SafCode {
    UnsupportedProcedure,
    Params,
    UnsupportedOperation,
    CannotAccessKeystore,
    SignatureFailed,
    CannotReadData,
    CannotSaveData,
    InvalidPdf,
    PdfWrongPassword,
    PdfCertified,
    NoCertificatesInKeystore,
    CannotFindKeystore,
    LockedKeystore,
    IncompatibleKeyType,
    InvalidPolicy,
    PostprocessingData,
    VisibleSignature,
    CannotOpenSocket,
    CannotAccessSslKeystore,
    PdfShadowAttack,
    ConfirmationNeeded,
}

/// The number a code carries on the wire.
pub open spec fn number_of(code: SafCode) -> u8 {
    match code {
        SafCode::UnsupportedProcedure => 2,
        SafCode::Params => 3,
        SafCode::UnsupportedOperation => 4,
        SafCode::CannotAccessKeystore => 8,
        SafCode::SignatureFailed => 9,
        SafCode::CannotReadData => 12,
        SafCode::CannotSaveData => 13,
        SafCode::InvalidPdf => 14,
        SafCode::PdfWrongPassword => 15,
        SafCode::PdfCertified => 16,
        SafCode::NoCertificatesInKeystore => 19,
        SafCode::CannotFindKeystore => 20,
        SafCode::LockedKeystore => 21,
        SafCode::IncompatibleKeyType => 22,
        SafCode::InvalidPolicy => 26,
        SafCode::PostprocessingData => 42,
        SafCode::VisibleSignature => 43,
        SafCode::CannotOpenSocket => 45,
        SafCode::CannotAccessSslKeystore => 46,
        SafCode::PdfShadowAttack => 48,
        SafCode::ConfirmationNeeded => 50,
    }
}

/// Two different codes never read the same number on the wire.
pub proof fn each_code_has_its_own_number(a: SafCode, b: SafCode)
    requires
        a != b,
    ensures
        number_of(a) != number_of(b),
{
}

/// The text that follows the number on the wire.
pub open spec fn message_of(code: SafCode) -> Seq<char> {
    match code {
        SafCode::UnsupportedProcedure => "Version del protocolo no soportada"@,
        SafCode::Params => "Parametros incorrectos en la invocacion"@,
        SafCode::UnsupportedOperation => "Operacion no soportada"@,
        SafCode::CannotAccessKeystore => "No se ha podido acceder al almacen de claves"@,
        SafCode::SignatureFailed => "No se ha podido completar la firma electronica"@,
        SafCode::CannotReadData => "No se han podido leer los datos"@,
        SafCode::CannotSaveData => "No se han podido guardar los datos"@,
        SafCode::InvalidPdf => "El documento no es un PDF valido"@,
        SafCode::PdfWrongPassword => "El PDF esta protegido con contrasena"@,
        SafCode::PdfCertified => "El PDF esta certificado y no admite mas firmas"@,
        SafCode::NoCertificatesInKeystore => "No hay certificados en el almacen"@,
        SafCode::CannotFindKeystore => "No se ha encontrado el almacen de claves"@,
        SafCode::LockedKeystore => "El almacen de claves esta bloqueado"@,
        SafCode::IncompatibleKeyType => "El tipo de clave no es compatible"@,
        SafCode::InvalidPolicy => "La politica de firma no es valida"@,
        SafCode::PostprocessingData => "Los datos de la postfirma no son validos"@,
        SafCode::VisibleSignature => "No se puede colocar la firma visible"@,
        SafCode::CannotOpenSocket => "No se ha podido abrir el canal con la sede"@,
        SafCode::CannotAccessSslKeystore => "No se ha podido acceder al almacen SSL"@,
        SafCode::PdfShadowAttack => "El PDF ha sido modificado tras su firma"@,
        SafCode::ConfirmationNeeded => "El PDF tiene firmas que requieren confirmacion"@,
    }
}

impl SafCode {
    pub fn number(self) -> (n: u8)
        ensures
            n == number_of(self),
    {
        match self {
            SafCode::UnsupportedProcedure => 2,
            SafCode::Params => 3,
            SafCode::UnsupportedOperation => 4,
            SafCode::CannotAccessKeystore => 8,
            SafCode::SignatureFailed => 9,
            SafCode::CannotReadData => 12,
            SafCode::CannotSaveData => 13,
            SafCode::InvalidPdf => 14,
            SafCode::PdfWrongPassword => 15,
            SafCode::PdfCertified => 16,
            SafCode::NoCertificatesInKeystore => 19,
            SafCode::CannotFindKeystore => 20,
            SafCode::LockedKeystore => 21,
            SafCode::IncompatibleKeyType => 22,
            SafCode::InvalidPolicy => 26,
            SafCode::PostprocessingData => 42,
            SafCode::VisibleSignature => 43,
            SafCode::CannotOpenSocket => 45,
            SafCode::CannotAccessSslKeystore => 46,
            SafCode::PdfShadowAttack => 48,
            SafCode::ConfirmationNeeded => 50,
        }
    }

    fn message(self) -> (m: Vec<char>)
        ensures
            m@ == message_of(self),
    {
        match self {
            SafCode::UnsupportedProcedure => chars_of("Version del protocolo no soportada"),
            SafCode::Params => chars_of("Parametros incorrectos en la invocacion"),
            SafCode::UnsupportedOperation => chars_of("Operacion no soportada"),
            SafCode::CannotAccessKeystore => chars_of(
                "No se ha podido acceder al almacen de claves",
            ),
            SafCode::SignatureFailed => chars_of(
                "No se ha podido completar la firma electronica",
            ),
            SafCode::CannotReadData => chars_of("No se han podido leer los datos"),
            SafCode::CannotSaveData => chars_of("No se han podido guardar los datos"),
            SafCode::InvalidPdf => chars_of("El documento no es un PDF valido"),
            SafCode::PdfWrongPassword => chars_of("El PDF esta protegido con contrasena"),
            SafCode::PdfCertified => chars_of("El PDF esta certificado y no admite mas firmas"),
            SafCode::NoCertificatesInKeystore => chars_of("No hay certificados en el almacen"),
            SafCode::CannotFindKeystore => chars_of("No se ha encontrado el almacen de claves"),
            SafCode::LockedKeystore => chars_of("El almacen de claves esta bloqueado"),
            SafCode::IncompatibleKeyType => chars_of("El tipo de clave no es compatible"),
            SafCode::InvalidPolicy => chars_of("La politica de firma no es valida"),
            SafCode::PostprocessingData => chars_of("Los datos de la postfirma no son validos"),
            SafCode::VisibleSignature => chars_of("No se puede colocar la firma visible"),
            SafCode::CannotOpenSocket => chars_of("No se ha podido abrir el canal con la sede"),
            SafCode::CannotAccessSslKeystore => chars_of(
                "No se ha podido acceder al almacen SSL",
            ),
            SafCode::PdfShadowAttack => chars_of("El PDF ha sido modificado tras su firma"),
            SafCode::ConfirmationNeeded => chars_of(
                "El PDF tiene firmas que requieren confirmacion",
            ),
        }
    }
}

/// Every code of the published catalogue.
pub fn catalogue() -> (all: Vec<SafCode>)
    ensures
        forall|code: SafCode| all@.contains(code),
{
    let all = vec![
        SafCode::UnsupportedProcedure,
        SafCode::Params,
        SafCode::UnsupportedOperation,
        SafCode::CannotAccessKeystore,
        SafCode::SignatureFailed,
        SafCode::CannotReadData,
        SafCode::CannotSaveData,
        SafCode::InvalidPdf,
        SafCode::PdfWrongPassword,
        SafCode::PdfCertified,
        SafCode::NoCertificatesInKeystore,
        SafCode::CannotFindKeystore,
        SafCode::LockedKeystore,
        SafCode::IncompatibleKeyType,
        SafCode::InvalidPolicy,
        SafCode::PostprocessingData,
        SafCode::VisibleSignature,
        SafCode::CannotOpenSocket,
        SafCode::CannotAccessSslKeystore,
        SafCode::PdfShadowAttack,
        SafCode::ConfirmationNeeded,
    ];
    assert forall|code: SafCode| all@.contains(code) by {
        match code {
            SafCode::UnsupportedProcedure => assert(all@[0] == code),
            SafCode::Params => assert(all@[1] == code),
            SafCode::UnsupportedOperation => assert(all@[2] == code),
            SafCode::CannotAccessKeystore => assert(all@[3] == code),
            SafCode::SignatureFailed => assert(all@[4] == code),
            SafCode::CannotReadData => assert(all@[5] == code),
            SafCode::CannotSaveData => assert(all@[6] == code),
            SafCode::InvalidPdf => assert(all@[7] == code),
            SafCode::PdfWrongPassword => assert(all@[8] == code),
            SafCode::PdfCertified => assert(all@[9] == code),
            SafCode::NoCertificatesInKeystore => assert(all@[10] == code),
            SafCode::CannotFindKeystore => assert(all@[11] == code),
            SafCode::LockedKeystore => assert(all@[12] == code),
            SafCode::IncompatibleKeyType => assert(all@[13] == code),
            SafCode::InvalidPolicy => assert(all@[14] == code),
            SafCode::PostprocessingData => assert(all@[15] == code),
            SafCode::VisibleSignature => assert(all@[16] == code),
            SafCode::CannotOpenSocket => assert(all@[17] == code),
            SafCode::CannotAccessSslKeystore => assert(all@[18] == code),
            SafCode::PdfShadowAttack => assert(all@[19] == code),
            SafCode::ConfirmationNeeded => assert(all@[20] == code),
        }
    }
    all
}

/// What the site reads: a cancellation, or a code of the catalogue.
#[derive(Clone, Copy, Debug, PartialEq, Eq, Structural)]
pub enum WireAnswer {
    Cancelled,
    Refused(SafCode),
}

/// A decimal digit, as a character.
pub open spec fn digit(n: int) -> char {
    (n + 48) as char
}

/// The line an answer becomes on the wire.
pub open spec fn wire_line(answer: WireAnswer) -> Seq<char> {
    match answer {
        WireAnswer::Cancelled => "CANCEL"@,
        WireAnswer::Refused(code) => "SAF_"@ + seq![
            digit((number_of(code) / 10) as int),
            digit((number_of(code) % 10) as int),
        ] + ": "@ + message_of(code),
    }
}

impl WireAnswer {
    /// The refusal with this code.
    pub fn refused(code: SafCode) -> (a: WireAnswer)
        ensures
            a == WireAnswer::Refused(code),
    {
        WireAnswer::Refused(code)
    }

    /// The line the site receives.
    pub fn on_the_wire(&self) -> (line: String)
        ensures
            line@ == wire_line(*self),
    {
        match self {
            WireAnswer::Cancelled => {
                let cancel = chars_of("CANCEL");
                string_of(&cancel)
            },
            WireAnswer::Refused(code) => {
                let n = code.number();
                let mut line = chars_of("SAF_");
                let tens: u8 = 48 + n / 10;
                let units: u8 = 48 + n % 10;
                line.push(tens as char);
                line.push(units as char);
                let mut separator = chars_of(": ");
                line.append(&mut separator);
                let mut message = code.message();
                line.append(&mut message);
                assert(line@ =~= wire_line(*self));
                string_of(&line)
            },
        }
    }
}

} // verus!
