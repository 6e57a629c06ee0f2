//! The codec of version 4 of the protocol: what each outcome of an errand
//! becomes on the wire.
use vstd::prelude::*;

use crate::catalogue::{wire_line, SafCode, WireAnswer};
use crate::encoding::{base64_url_safe, url_safe};
use crate::situations::Failure;
use crate::text::{chars_of, string_of};

verus! {

/// A refusal of the protocol itself: the invocation could not be attended.
#[derive(Clone, Debug, PartialEq)]
pub struct Refusal {
    pub code: SafCode,
    pub detail: String,
}

impl Refusal {
    pub fn new(code: SafCode, detail: String) -> (r: Refusal)
        ensures
            r.code == code,
            r.detail@ == detail@,
    {
        Refusal { code, detail }
    }

    pub fn code(&self) -> (c: SafCode)
        ensures
            c == self.code,
    {
        self.code
    }

    pub fn copied(&self) -> (r: Refusal)
        ensures
            r == *self,
    {
        Refusal { code: self.code, detail: self.detail.clone() }
    }

    /// What the site reads of it: its code, never its detail.
    pub fn answer(&self) -> (a: WireAnswer)
        ensures
            a == WireAnswer::Refused(self.code),
    {
        WireAnswer::Refused(self.code)
    }
}

/// How an errand ends for the site.
#[derive(Debug, PartialEq)]
pub enum SiteOutcome {
    Certificate(Vec<u8>),
    Signature { signer_der: Vec<u8>, signed: Vec<u8> },
    Cancelled,
    Refused { answer: WireAnswer, failure: Failure },
    RefusedByTheProtocol(Refusal),
}

impl SiteOutcome {
    /// The situation the window is told, when the errand was refused.
    pub fn failure(&self) -> (f: Option<&Failure>)
        ensures
            match *self {
                SiteOutcome::Refused { failure, .. } => f == Some(&failure),
                _ => f is None,
            },
    {
        match self {
            SiteOutcome::Refused { failure, .. } => Some(failure),
            _ => None,
        }
    }

    /// The line the site reads for this outcome.
    pub fn on_the_wire(&self) -> (line: String)
        ensures
            line@ == encoded(*self),
    {
        V4Codec.encode(self)
    }
}

/// The line an outcome becomes: the certificate alone, the certificate and
/// the signature separated by a bar, `CANCEL`, or a code of the catalogue.
pub open spec fn encoded(outcome: SiteOutcome) -> Seq<char> {
    match outcome {
        SiteOutcome::Certificate(der) => base64_url_safe(der@),
        SiteOutcome::Signature { signer_der, signed } => base64_url_safe(signer_der@) + "|"@
            + base64_url_safe(signed@),
        SiteOutcome::Cancelled => "CANCEL"@,
        SiteOutcome::Refused { answer, .. } => wire_line(answer),
        SiteOutcome::RefusedByTheProtocol(refusal) => wire_line(WireAnswer::Refused(refusal.code)),
    }
}

/// The codec of version 4, the only one spoken.
#[derive(Clone, Copy, Debug, Default, PartialEq, Eq, Structural)]
pub struct V4Codec;

impl V4Codec {
    /// What the site receives for an outcome; no detail of a refusal ever
    /// goes out.
    pub fn encode(&self, outcome: &SiteOutcome) -> (line: String)
        ensures
            line@ == encoded(*outcome),
    {
        match outcome {
            SiteOutcome::Certificate(der) => url_safe(der),
            SiteOutcome::Signature { signer_der, signed } => {
                let mut line = chars_of(url_safe(signer_der).as_str());
                let mut bar = chars_of("|");
                let mut second = chars_of(url_safe(signed).as_str());
                line.append(&mut bar);
                line.append(&mut second);
                string_of(&line)
            },
            SiteOutcome::Cancelled => crate::frontier::cancelled().on_the_wire(),
            SiteOutcome::Refused { answer, .. } => answer.on_the_wire(),
            SiteOutcome::RefusedByTheProtocol(refusal) => refusal.answer().on_the_wire(),
        }
    }
}

/// What the site reads of a refusal depends on its code alone: the detail
/// the window is told never goes out.
pub proof fn the_detail_never_goes_out(answer: WireAnswer, one: Failure, other: Failure)
    ensures
        encoded(SiteOutcome::Refused { answer, failure: one }) == encoded(
            SiteOutcome::Refused { answer, failure: other },
        ),
{
}

/// A refusal of the protocol reads as its code, whatever its detail.
pub proof fn a_protocol_refusal_reads_as_its_code(refusal: Refusal)
    ensures
        encoded(SiteOutcome::RefusedByTheProtocol(refusal)) == wire_line(WireAnswer::Refused(refusal.code)),
{
}

} // verus!
