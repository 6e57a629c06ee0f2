//! The signing session: the cycle half open between the presign and the
//! postsign, and where the last signed document landed.
use vstd::prelude::*;

use crate::catalogue::SafCode;
use crate::cycle::{algorithm, presign, presign_request, OpenCycle, PostSignRequest, PreSignRequest, Presigned, SessionSeal, SigningRequest, TokenSignature};
use crate::documents::{opened_under, OpenedDocuments, PortalDocument, Remembrance};
use crate::filtering::{bridge_failure, usable_as, usable_through, SiteFilter};
use crate::frontier::{code_of_cycle, code_of_token, cycle_code, token_code};
use crate::policies::{copy_pairs, map_of, merged_with, properties_of, to_java_properties};
use crate::certificates::{behind, remember_the_certificate, remembered_in, usable_certificate};
use crate::configuration::Configuration;
use crate::documents::SignedDocumentView;
use crate::memory::Memory;
use crate::recents::{as_signed, kept_or_first, kept_tray, noted, Badge, RecentDocument};
use crate::situations::{CycleFailure, Inadmissible};
use crate::token::{ListedCertificates, TokenCertificate};
use crate::documents::{parent_path, DocumentInHand};
use crate::situations::{token_situation_name, BridgeError, CycleError, Failure, TokenError};
use crate::encoding::base64_standard;
use crate::text::{chars_of, string_of};
use crate::token::{CertificateRef, ReferenceView};

verus! {

/// A cycle between the presign and the postsign. The PIN is never kept.
struct InFlight {
    cycle: OpenCycle,
    document: DocumentInHand,
    signature: Option<TokenSignature>,
    certificate: CertificateRef,
    signer_der: Vec<u8>,
    seal: SessionSeal,
}

/// The session of a local signature.
pub struct SigningSession {
    open: Option<InFlight>,
    delivered: Option<String>,
}

/// A cycle taken out of the session with its token signature, ready for
/// the postsign.
pub struct SignedCycle {
    pub cycle: OpenCycle,
    pub document: DocumentInHand,
    pub signature: TokenSignature,
    pub seal: SessionSeal,
    pub certificate: CertificateRef,
    pub signer_der: Vec<u8>,
}

fn no_open_cycle() -> (f: Failure)
    ensures
        f.situation@ == "unknown"@,
{
    Failure::new("unknown", string_of(&chars_of("no hay ninguna firma empezada")))
}

fn no_signed_document() -> (f: Failure)
    ensures
        f.situation@ == "unknown"@,
{
    Failure::new("unknown", string_of(&chars_of("no hay ningun documento firmado en esta sesion")))
}

impl SigningSession {
    /// The seal kept apart is the one the cycle was issued.
    pub closed spec fn well_formed(&self) -> bool {
        self.open matches Some(f) ==> f.seal.text@ == f.cycle.seal_view()
    }

    /// Whether a cycle is half open.
    pub closed spec fn live(&self) -> bool {
        self.open is Some
    }

    /// Whether the half-open cycle already holds the token's signature.
    pub closed spec fn signed_on_token(&self) -> bool {
        self.open matches Some(f) && f.signature is Some
    }

    /// The bytes the half-open cycle waits to have signed.
    pub closed spec fn waiting_to_sign(&self) -> Option<Seq<u8>> {
        match self.open {
            Some(f) => Some(f.cycle.to_be_signed_view()),
            None => None,
        }
    }

    /// The DER of the signer of the half-open cycle.
    pub closed spec fn signer_view(&self) -> Option<Seq<u8>> {
        match self.open {
            Some(f) => Some(f.signer_der@),
            None => None,
        }
    }

    /// The certificate the half-open cycle signs with.
    pub closed spec fn certificate_in_flight(&self) -> Option<ReferenceView> {
        match self.open {
            Some(f) => Some(f.certificate@),
            None => None,
        }
    }

    /// The document the half-open cycle signs: its path and whether it is
    /// remembered.
    pub closed spec fn document_in_flight(&self) -> Option<(Seq<char>, Remembrance)> {
        match self.open {
            Some(f) => Some((f.document.path_view(), f.document.remembrance_view())),
            None => None,
        }
    }

    /// The seal kept apart for the half-open cycle.
    pub closed spec fn seal_in_flight(&self) -> Option<Seq<char>> {
        match self.open {
            Some(f) => Some(f.seal.text@),
            None => None,
        }
    }

    /// The Base64 of the document's bytes the half-open cycle carries.
    pub closed spec fn pdf_in_flight(&self) -> Option<Seq<char>> {
        match self.open {
            Some(f) => Some(f.cycle.pdf_view()),
            None => None,
        }
    }

    /// Where the last signed document of the session landed.
    pub closed spec fn landing(&self) -> Option<Seq<char>> {
        match self.delivered {
            Some(p) => Some(p@),
            None => None,
        }
    }

    /// A session with nothing open and nothing signed.
    pub fn new() -> (s: SigningSession)
        ensures
            s.well_formed(),
            !s.live(),
            !s.signed_on_token(),
            s.landing() is None,
    {
        SigningSession { open: None, delivered: None }
    }

    /// The bytes the token must sign, while a cycle is half open.
    pub fn to_be_signed(&self) -> (b: Option<Vec<u8>>)
        ensures
            match b {
                Some(b) => self.waiting_to_sign() == Some(b@),
                None => self.waiting_to_sign() is None,
            },
    {
        match &self.open {
            Some(in_flight) => Some(crate::token::copy_bytes(in_flight.cycle.to_be_signed())),
            None => None,
        }
    }

    /// Notes where the signed document landed.
    pub fn delivered_at(&mut self, landing: &str)
        requires
            old(self).well_formed(),
        ensures
            final(self).well_formed(),
            final(self).landing() == Some(landing@),
            final(self).live() == old(self).live(),
    {
        self.delivered = Some(landing.to_owned());
    }
}

impl Default for SigningSession {
    fn default() -> (s: SigningSession)
        ensures
            s.well_formed(),
            !s.live(),
            !s.signed_on_token(),
            s.landing() is None,
    {
        SigningSession::new()
    }
}

/// The path of the document the half-open cycle signs.
pub open spec fn path_in_flight(session: SigningSession) -> Seq<char> {
    match session.document_in_flight() {
        Some(d) => d.0,
        None => Seq::empty(),
    }
}

/// Whether the document the half-open cycle signs is remembered.
pub open spec fn remembrance_in_flight(session: SigningSession) -> Remembrance {
    match session.document_in_flight() {
        Some(d) => d.1,
        None => Remembrance::Unrecorded,
    }
}

/// Keeps the cycle the presign opened, with its seal apart from it, waiting
/// for the token.
pub fn open_the_cycle(
    session: &mut SigningSession,
    cycle: OpenCycle,
    document: DocumentInHand,
    signer_der: Vec<u8>,
)
    requires
        old(session).well_formed(),
    ensures
        final(session).well_formed(),
        final(session).live(),
        !final(session).signed_on_token(),
        final(session).waiting_to_sign() == Some(cycle.to_be_signed_view()),
        final(session).landing() == old(session).landing(),
        final(session).signer_view() == Some(signer_der@),
        final(session).certificate_in_flight() == Some(cycle.certificate_view()),
        final(session).document_in_flight() == Some((document.path_view(), document.remembrance_view())),
        final(session).pdf_in_flight() == Some(cycle.pdf_view()),
        final(session).seal_in_flight() == Some(cycle.seal_view()),
{
    let seal = cycle.seal_in_transit();
    let certificate = cycle.certificate().copied();
    session.open = Some(InFlight { cycle, document, signature: None, certificate, signer_der, seal });
}

/// Keeps the token's answer in the half-open cycle.
pub fn sign_on_token(session: &mut SigningSession, signed: Result<Vec<u8>, TokenError>) -> (r: Result<
    (),
    Failure,
>)
    requires
        old(session).well_formed(),
    ensures
        final(session).well_formed(),
        !old(session).live() ==> (r matches Err(f) && f.situation@ == "unknown"@),
        final(session).live() == old(session).live(),
        final(session).waiting_to_sign() == old(session).waiting_to_sign(),
        final(session).landing() == old(session).landing(),
        r is Ok <==> (old(session).live() && signed is Ok),
        r is Ok ==> final(session).signed_on_token(),
        r is Err ==> final(session).signed_on_token() == old(session).signed_on_token(),
{
    let taken = session.open.take();
    match taken {
        None => Err(no_open_cycle()),
        Some(mut in_flight) => match in_flight.cycle.sign_on_token(signed) {
            Ok(signature) => {
                in_flight.signature = Some(signature);
                session.open = Some(in_flight);
                Ok(())
            },
            Err(CycleError::Token(error)) => {
                session.open = Some(in_flight);
                Err(error.failure())
            },
            Err(_) => {
                session.open = Some(in_flight);
                Err(no_open_cycle())
            },
        },
    }
}

/// Takes the half-open cycle out of the session, with its signature; the
/// session is left with no cycle either way.
pub fn take_signed_cycle(session: &mut SigningSession) -> (r: Result<SignedCycle, Failure>)
    requires
        old(session).well_formed(),
    ensures
        final(session).well_formed(),
        !final(session).live(),
        final(session).landing() == old(session).landing(),
        r is Ok <==> old(session).signed_on_token(),
        r matches Err(f) ==> f.situation@ == "unknown"@,
        r matches Ok(c) ==> Some(c.cycle.to_be_signed_view()) == old(session).waiting_to_sign()
            && c.seal.text@ == c.cycle.seal_view() && Some(c.signer_der@) == old(session).signer_view()
            && Some(c.certificate@) == old(session).certificate_in_flight() && Some(
            (c.document.path_view(), c.document.remembrance_view()),
        ) == old(session).document_in_flight() && Some(c.cycle.pdf_view()) == old(session).pdf_in_flight(),
{
    let in_flight = match session.open.take() {
        Some(in_flight) => in_flight,
        None => return Err(no_open_cycle()),
    };
    let signature = match in_flight.signature {
        Some(signature) => signature,
        None => {
            return Err(
                Failure::new(
                    "unknown",
                    string_of(&chars_of("todavía no se ha firmado en el token")),
                ),
            )
        },
    };
    Ok(
        SignedCycle {
            cycle: in_flight.cycle,
            document: in_flight.document,
            signature,
            seal: in_flight.seal,
            certificate: in_flight.certificate,
            signer_der: in_flight.signer_der,
        },
    )
}

/// Where the last signed document of the session landed.
pub fn signed_document(session: &SigningSession) -> (r: Result<String, Failure>)
    ensures
        match r {
            Ok(p) => session.landing() == Some(p@),
            Err(f) => session.landing() is None && f.situation@ == "unknown"@,
        },
{
    match &session.delivered {
        Some(landing) => Ok(landing.clone()),
        None => Err(no_signed_document()),
    }
}

/// The folder of the last signed document of the session.
pub fn signed_folder(session: &SigningSession) -> (r: Result<String, Failure>)
    ensures
        match r {
            Ok(p) => session.landing() matches Some(l) && parent_path(l) == Some(p@),
            Err(f) => f.situation@ == "unknown"@ && (session.landing() matches Some(l) ==> parent_path(l) is None),
        },
{
    let landing = signed_document(session)?;
    match crate::documents::parent_of_path(landing.as_str()) {
        Some(folder) => Ok(folder),
        None => Err(no_signed_document()),
    }
}

/// Whether a signature is half done: the only state where replacing the
/// document would cost a PIN.
pub fn is_live(session: &SigningSession) -> (r: bool)
    ensures
        r == session.live(),
{
    session.open.is_some()
}

/// Drops the half-open cycle, if any.
pub fn cancel(session: &mut SigningSession)
    requires
        old(session).well_formed(),
    ensures
        final(session).well_formed(),
        !final(session).live(),
        final(session).landing() == old(session).landing(),
{
    session.open = None;
}

/// Cancelling leaves no cycle to take: whatever the session held, taking a
/// cycle right after cancelling is refused.
pub proof fn cancelling_leaves_no_cycle_behind(before: SigningSession, after: SigningSession)
    requires
        !after.live(),
    ensures
        !after.signed_on_token(),
{
}

/// Why a site's signature did not come out: the code the site receives and
/// the whole situation the window is told.
#[derive(Debug)]
pub struct SiteRefusal {
    code: SafCode,
    failure: Failure,
}

impl SiteRefusal {
    pub closed spec fn code_view(&self) -> SafCode {
        self.code
    }

    pub closed spec fn failure_view(&self) -> Failure {
        self.failure
    }

    pub fn new(code: SafCode, failure: Failure) -> (r: SiteRefusal)
        ensures
            r.code_view() == code,
            r.failure_view() == failure,
    {
        SiteRefusal { code, failure }
    }

    pub fn code(&self) -> (c: SafCode)
        ensures
            c == self.code_view(),
    {
        self.code
    }

    pub fn failure(&self) -> (f: &Failure)
        ensures
            *f == self.failure_view(),
    {
        &self.failure
    }

    pub fn into_failure(self) -> (f: Failure)
        ensures
            f == self.failure_view(),
    {
        self.failure
    }
}

/// What a site's errand hands over: the signed document and the signer.
#[derive(Clone, Debug)]
pub struct SiteSignature {
    pub signed: Vec<u8>,
    pub signer_der: Vec<u8>,
}

/// What the window is told of a signature that did not come out.
pub fn cycle_failure(failure: &CycleFailure) -> (f: Failure)
    ensures
        failure is DocumentUnreadable ==> f.situation@ == "documentUnreadable"@,
{
    match failure {
        CycleFailure::DocumentUnreadable(detail) => Failure::new("documentUnreadable", detail.clone()),
        CycleFailure::Cycle(CycleError::Token(error)) => error.failure(),
        CycleFailure::Cycle(CycleError::Bridge(error)) => bridge_failure(error),
        CycleFailure::Cycle(CycleError::Inadmissible(refusal)) => crate::errand::inadmissible_failure(*refusal),
        CycleFailure::Cycle(CycleError::Seal(_)) => Failure::new(
            "sealMismatch",
            string_of(&chars_of("el sello de la sesion ha vuelto cambiado")),
        ),
        CycleFailure::SecretOnTheReaderKeypad(_) => Failure::new(
            "pinOnTheReader",
            string_of(&chars_of("el PIN se teclea en el propio lector")),
        ),
        CycleFailure::Gone(_) => Failure::new(
            "bridgeGone",
            string_of(&chars_of("el hilo del puente ya no esta")),
        ),
    }
}

impl SiteRefusal {
    /// The refusal of a cycle that broke, with the code its situation has.
    pub fn of_cycle(failure: CycleFailure) -> (r: SiteRefusal)
        ensures
            r.code_view() == cycle_code(failure),
    {
        let code = code_of_cycle(&failure);
        SiteRefusal::new(code, cycle_failure(&failure))
    }
}

/// What the bridge is asked at the presign: these bytes, the signer's DER
/// as the whole chain, and the parameters of the site under ours.
pub open spec fn presign_asked(
    p: PreSignRequest,
    bytes: Seq<u8>,
    der: Seq<u8>,
    from_the_site: Seq<(String, String)>,
    ours: Seq<(String, String)>,
) -> bool {
    &&& p.pdf_b64@ == base64_standard(bytes)
    &&& p.algorithm@ == algorithm()
    &&& p.certificate_chain_b64@ == base64_standard(der)
    &&& exists|merged: Seq<(String, String)>|
        map_of(merged) == map_of(from_the_site).union_prefer_right(map_of(ours))
            && p.extra_params@ == #[trigger] properties_of(merged)
}

/// Whether opening the cycle may have come to this: the store's secret
/// asked for the chosen certificate, then the presign over these bytes; on
/// success the session holds the cycle of this signer and this document.
pub open spec fn cycle_opened<K, Q, S>(
    secret: K,
    bridge_presign: Q,
    chosen: TokenCertificate,
    bytes: Seq<u8>,
    document: DocumentInHand,
    from_the_site: Seq<(String, String)>,
    ours: Seq<(String, String)>,
    r: Result<S, CycleFailure>,
    before: SigningSession,
    after: SigningSession,
) -> bool where
    K: FnOnce(&CertificateRef) -> Result<S, CycleFailure>,
    Q: FnOnce(PreSignRequest) -> Result<Presigned, BridgeError>,
 {
    match r {
        Ok(kept) => {
            &&& exists|c: &CertificateRef| *c == chosen.reference && #[trigger] secret.ensures((c,), Ok(kept))
            &&& exists|p: PreSignRequest, presigned: Presigned|
                #[trigger] bridge_presign.ensures((p,), Ok(presigned)) && presign_asked(
                    p,
                    bytes,
                    chosen.der@,
                    from_the_site,
                    ours,
                ) && after.waiting_to_sign() == Some(presigned.pre_sign@)
            &&& after.live() && !after.signed_on_token()
            &&& after.signer_view() == Some(chosen.der@)
            &&& after.certificate_in_flight() == Some(chosen.reference@)
            &&& after.document_in_flight() == Some((document.path_view(), document.remembrance_view()))
            &&& after.pdf_in_flight() == Some(base64_standard(bytes))
        },
        Err(e) => after == before && ((exists|c: &CertificateRef|
            *c == chosen.reference && #[trigger] secret.ensures((c,), Err(e))) || (e matches CycleFailure::Cycle(
            CycleError::Bridge(b),
        ) && exists|p: PreSignRequest|
            #[trigger] bridge_presign.ensures((p,), Err(b)) && presign_asked(p, bytes, chosen.der@, from_the_site, ours))),
    }
}

/// Opens the cycle: the store's secret is asked first, then the presign
/// crosses to the bridge with the parameters of the site under ours, and the
/// cycle is kept with its seal apart, waiting for the token.
fn open_the_cycle_with<K, Q, S>(
    session: &mut SigningSession,
    document: DocumentInHand,
    bytes: Vec<u8>,
    already_signed: bool,
    chosen: &TokenCertificate,
    ours: Vec<(String, String)>,
    from_the_site: &Vec<(String, String)>,
    secret: K,
    bridge_presign: Q,
) -> (r: Result<S, CycleFailure>) where
    K: FnOnce(&CertificateRef) -> Result<S, CycleFailure>,
    Q: FnOnce(PreSignRequest) -> Result<Presigned, BridgeError>,

    requires
        old(session).well_formed(),
        forall|c: &CertificateRef| secret.requires((c,)),
        forall|p: PreSignRequest| bridge_presign.requires((p,)),
    ensures
        final(session).well_formed(),
        final(session).landing() == old(session).landing(),
        r is Ok ==> final(session).live() && !final(session).signed_on_token(),
        r is Err ==> final(session).live() == old(session).live() && final(session).waiting_to_sign()
            == old(session).waiting_to_sign() && final(session).signed_on_token() == old(session).signed_on_token(),
        cycle_opened(
            secret,
            bridge_presign,
            *chosen,
            bytes@,
            document,
            from_the_site@,
            ours@,
            r,
            *old(session),
            *final(session),
        ),
{
    let reference = chosen.reference();
    let kept = match secret(reference) {
        Ok(kept) => kept,
        Err(e) => {
            assert(secret.ensures((reference,), Err(e)));
            return Err(e);
        },
    };
    assert(secret.ensures((reference,), Ok(kept)));
    let mut chain: Vec<Vec<u8>> = Vec::new();
    chain.push(crate::token::copy_bytes(chosen.der()));
    let signer_der = crate::token::copy_bytes(chosen.der());
    let merged = merged_with(copy_pairs(from_the_site), ours);
    let extra_params = to_java_properties(&merged);
    let ghost document_bytes = bytes@;
    let request = SigningRequest {
        document: bytes,
        already_signed,
        chain,
        extra_params,
        certificate: chosen.reference().copied(),
    };
    let asked = presign_request(&request);
    let ghost asked_view = asked;
    proof {
        assert(request.chain@.len() == 1);
        assert(presign_asked(asked_view, document_bytes, chosen.der@, from_the_site@, ours@));
    }
    let answered = bridge_presign(asked);
    assert(bridge_presign.ensures((asked_view,), answered));
    let cycle = match presign(&request, answered) {
        Ok(cycle) => cycle,
        Err(error) => {
            return Err(CycleFailure::Cycle(error));
        },
    };
    open_the_cycle(session, cycle, document, signer_der);
    Ok(kept)
}

/// The presign of a site's errand: the document in hand, admitted on its
/// bytes; the certificate, listed again and checked against the site's
/// filter before the PIN; the configuration of the signature; and the cycle
/// opened. Each refusal carries the code of its own situation, and the
/// session is left as it was.
pub fn begin_for_the_site<SE, R, L, G, K, Q, S>(
    select: &SE,
    filter: &SiteFilter,
    from_the_site: &Vec<(String, String)>,
    document: &str,
    certificate: &str,
    opened: &OpenedDocuments,
    read: R,
    list: L,
    config: G,
    secret: K,
    bridge_presign: Q,
    listed: &ListedCertificates,
    session: &mut SigningSession,
) -> (r: Result<S, SiteRefusal>) where
    R: FnOnce(&PortalDocument) -> Result<(Vec<u8>, bool), CycleFailure>,
    L: FnOnce() -> Result<Vec<TokenCertificate>, TokenError>,
    G: FnOnce(&TokenCertificate) -> Result<Vec<(String, String)>, Failure>,
    K: FnOnce(&CertificateRef) -> Result<S, CycleFailure>,
    Q: FnOnce(PreSignRequest) -> Result<Presigned, BridgeError>,
    SE: Fn(&str, &str) -> Result<Vec<usize>, BridgeError>,

    requires
        old(session).well_formed(),
        forall|d: &PortalDocument| read.requires((d,)),
        list.requires(()),
        forall|c: &TokenCertificate| config.requires((c,)),
        forall|c: &CertificateRef| secret.requires((c,)),
        forall|p: PreSignRequest| bridge_presign.requires((p,)),
        forall|e: &str, p: &str| select.requires((e, p)),
    ensures
        final(session).well_formed(),
        final(session).landing() == old(session).landing(),
        opened_under(opened@, document@) is None ==> (r matches Err(refusal) && refusal.code_view()
            == SafCode::CannotReadData && refusal.failure_view().situation@ == "documentUnreadable"@),
        r is Ok ==> final(session).live() && !final(session).signed_on_token(),
        r is Err ==> final(session).live() == old(session).live() && final(session).waiting_to_sign()
            == old(session).waiting_to_sign(),
        r is Err ==> *final(session) == *old(session),
        opened_under(opened@, document@) matches Some(found) ==> exists|
            d: PortalDocument,
            got: Result<(Vec<u8>, bool), CycleFailure>,
        |
            d.path@ == found.0 && #[trigger] read.ensures((&d,), got) && match got {
                Err(cf) => r matches Err(refusal) && refusal.code_view() == cycle_code(cf),
                Ok(admitted) => exists|listing: Result<Vec<TokenCertificate>, TokenError>|
                    #[trigger] list.ensures((), listing) && match listing {
                        Err(e) => r matches Err(refusal) && refusal.code_view() == token_code(e.situation),
                        Ok(found_certs) => exists|u: Result<TokenCertificate, Failure>|
                            #[trigger] usable_as(*select, *filter, found_certs@, listed@, certificate@, u) && match u {
                                Err(f) => r matches Err(refusal) && refusal.code_view()
                                    == SafCode::NoCertificatesInKeystore && refusal.failure_view() == f,
                                Ok(c) => exists|ours: Result<Vec<(String, String)>, Failure>|
                                    #[trigger] config.ensures((&c,), ours) && match ours {
                                        Err(f) => r matches Err(refusal) && refusal.code_view()
                                            == SafCode::VisibleSignature && refusal.failure_view() == f,
                                        Ok(o) => exists|cr: Result<S, CycleFailure>, doc: DocumentInHand|
                                            doc.path_view() == found.0 && doc.remembrance_view() == found.1
                                                && #[trigger] cycle_opened(
                                                secret,
                                                bridge_presign,
                                                c,
                                                admitted.0@,
                                                doc,
                                                from_the_site@,
                                                o@,
                                                cr,
                                                *old(session),
                                                *final(session),
                                            ) && match cr {
                                                Ok(k) => r == Ok::<S, SiteRefusal>(k),
                                                Err(cf) => r matches Err(refusal) && refusal.code_view() == cycle_code(cf),
                                            },
                                    },
                            },
                    },
            },
{
    let in_hand = match DocumentInHand::taken(opened, document) {
        Ok(in_hand) => in_hand,
        Err(failure) => {
            return Err(SiteRefusal::new(SafCode::CannotReadData, failure));
        },
    };
    let portal = in_hand.document();
    let got = read(portal);
    assert(read.ensures((portal,), got));
    let (bytes, already_signed) = match got {
        Ok(admitted) => admitted,
        Err(failure) => {
            return Err(SiteRefusal::of_cycle(failure));
        },
    };
    let listing = list();
    assert(list.ensures((), listing));
    let found = match listing {
        Ok(found) => found,
        Err(error) => {
            return Err(SiteRefusal::new(code_of_token(error.situation()), error.failure()));
        },
    };
    let usable = usable_through(select, filter, &found, certificate, listed);
    let ghost u = if usable is Ok {
        Ok::<TokenCertificate, Failure>(*usable->Ok_0)
    } else {
        Err::<TokenCertificate, Failure>(usable->Err_0)
    };
    assert(usable_as(*select, *filter, found@, listed@, certificate@, u));
    let chosen = match usable {
        Ok(chosen) => chosen,
        Err(failure) => {
            return Err(SiteRefusal::new(SafCode::NoCertificatesInKeystore, failure));
        },
    };
    let configured = config(chosen);
    assert(config.ensures((chosen,), configured));
    let ours = match configured {
        Ok(ours) => ours,
        Err(failure) => {
            return Err(SiteRefusal::new(SafCode::VisibleSignature, failure));
        },
    };
    let ghost doc = in_hand;
    let ghost o = ours@;
    let opened_cycle = open_the_cycle_with(session, in_hand, bytes, already_signed, chosen, ours, from_the_site, secret, bridge_presign);
    assert(cycle_opened(secret, bridge_presign, *chosen, bytes@, doc, from_the_site@, o, opened_cycle, *old(session), *session));
    match opened_cycle {
        Ok(secret) => Ok(secret),
        Err(failure) => Err(SiteRefusal::of_cycle(failure)),
    }
}

/// The presign of a local signature: the document in hand, admitted on its
/// bytes; the certificate the window pointed at, still there and usable;
/// the configuration of the signature; and the cycle opened.
pub fn begin<R, L, G, K, Q, S>(
    document: &str,
    certificate: &str,
    opened: &OpenedDocuments,
    read: R,
    list: L,
    config: G,
    secret: K,
    bridge_presign: Q,
    listed: &ListedCertificates,
    session: &mut SigningSession,
) -> (r: Result<S, Failure>) where
    R: FnOnce(&PortalDocument) -> Result<(Vec<u8>, bool), CycleFailure>,
    L: FnOnce() -> Result<Vec<TokenCertificate>, TokenError>,
    G: FnOnce(&TokenCertificate) -> Result<Vec<(String, String)>, Failure>,
    K: FnOnce(&CertificateRef) -> Result<S, CycleFailure>,
    Q: FnOnce(PreSignRequest) -> Result<Presigned, BridgeError>,

    requires
        old(session).well_formed(),
        forall|d: &PortalDocument| read.requires((d,)),
        list.requires(()),
        forall|c: &TokenCertificate| config.requires((c,)),
        forall|c: &CertificateRef| secret.requires((c,)),
        forall|p: PreSignRequest| bridge_presign.requires((p,)),
    ensures
        final(session).well_formed(),
        final(session).landing() == old(session).landing(),
        opened_under(opened@, document@) is None ==> (r matches Err(f) && f.situation@ == "documentUnreadable"@),
        r is Ok ==> final(session).live() && !final(session).signed_on_token(),
        r is Err ==> final(session).live() == old(session).live() && final(session).waiting_to_sign()
            == old(session).waiting_to_sign(),
        r is Err ==> *final(session) == *old(session),
        opened_under(opened@, document@) matches Some(found) ==> exists|
            d: PortalDocument,
            got: Result<(Vec<u8>, bool), CycleFailure>,
        |
            d.path@ == found.0 && #[trigger] read.ensures((&d,), got) && match got {
                Err(_) => r is Err,
                Ok(admitted) => exists|listing: Result<Vec<TokenCertificate>, TokenError>|
                    #[trigger] list.ensures((), listing) && match listing {
                        Err(e) => r matches Err(f) && f.situation@ == token_situation_name(e.situation) && f.detail@
                            == e.detail@,
                        Ok(found_certs) => match behind(found_certs@, listed@, certificate@) {
                            Some(i) if found_certs@[i].status is Valid => exists|
                                ours: Result<Vec<(String, String)>, Failure>,
                            |
                                #[trigger] config.ensures((&found_certs@[i],), ours) && match ours {
                                    Err(f) => r == Err::<S, Failure>(f),
                                    Ok(o) => exists|cr: Result<S, CycleFailure>, doc: DocumentInHand|
                                        doc.path_view() == found.0 && doc.remembrance_view() == found.1
                                            && #[trigger] cycle_opened(
                                            secret,
                                            bridge_presign,
                                            found_certs@[i],
                                            admitted.0@,
                                            doc,
                                            Seq::empty(),
                                            o@,
                                            cr,
                                            *old(session),
                                            *final(session),
                                        ) && match cr {
                                            Ok(k) => r == Ok::<S, Failure>(k),
                                            Err(_) => r is Err,
                                        },
                                },
                            _ => r matches Err(f) && f.situation@ == "certificateNotFound"@,
                        },
                    },
            },
{
    let in_hand = match DocumentInHand::taken(opened, document) {
        Ok(in_hand) => in_hand,
        Err(f) => {
            return Err(f);
        },
    };
    let portal = in_hand.document();
    let got = read(portal);
    assert(read.ensures((portal,), got));
    let (bytes, already_signed) = match got {
        Ok(admitted) => admitted,
        Err(failure) => {
            return Err(cycle_failure(&failure));
        },
    };
    let listing = list();
    assert(list.ensures((), listing));
    let found = match listing {
        Ok(found) => found,
        Err(error) => {
            return Err(error.failure());
        },
    };
    let chosen = match usable_certificate(&found, certificate, listed) {
        Ok(chosen) => chosen,
        Err(f) => {
            return Err(f);
        },
    };
    let configured = config(chosen);
    assert(config.ensures((chosen,), configured));
    let ours = match configured {
        Ok(ours) => ours,
        Err(f) => {
            return Err(f);
        },
    };
    let empty: Vec<(String, String)> = Vec::new();
    assert(empty@ == Seq::<(String, String)>::empty());
    let ghost doc = in_hand;
    let ghost o = ours@;
    let opened_cycle = open_the_cycle_with(session, in_hand, bytes, already_signed, chosen, ours, &empty, secret, bridge_presign);
    assert(cycle_opened(secret, bridge_presign, *chosen, bytes@, doc, Seq::empty(), o, opened_cycle, *old(session), *session));
    match opened_cycle {
        Ok(secret) => Ok(secret),
        Err(failure) => Err(cycle_failure(&failure)),
    }
}

/// The postsign of a site's errand: the cycle signed on the token is taken
/// out of the session and crosses to the bridge once its seal is checked;
/// the signed bytes come back with the signer, and nothing is written
/// anywhere.
pub fn finish_for_the_site<Q>(session: &mut SigningSession, bridge_postsign: Q) -> (r: Result<
    SiteSignature,
    SiteRefusal,
>) where Q: FnOnce(PostSignRequest) -> Result<Vec<u8>, BridgeError>,

    requires
        old(session).well_formed(),
        forall|p: PostSignRequest| bridge_postsign.requires((p,)),
    ensures
        final(session).well_formed(),
        !final(session).live(),
        final(session).landing() == old(session).landing(),
        !old(session).signed_on_token() ==> (r matches Err(refusal) && refusal.code_view()
            == SafCode::SignatureFailed),
        old(session).signed_on_token() ==> exists|p: PostSignRequest, answered: Result<Vec<u8>, BridgeError>|
            #[trigger] bridge_postsign.ensures((p,), answered) && Some(p.pdf_b64@) == old(session).pdf_in_flight()
                && match answered {
                Ok(bytes) => r matches Ok(signature) && signature.signed@ == bytes@ && Some(signature.signer_der@)
                    == old(session).signer_view(),
                Err(b) => r matches Err(refusal) && refusal.code_view() == cycle_code(
                    CycleFailure::Cycle(CycleError::Bridge(b)),
                ),
            },
{
    let signed = match take_signed_cycle(session) {
        Ok(signed) => signed,
        Err(failure) => {
            return Err(SiteRefusal::new(SafCode::SignatureFailed, failure));
        },
    };
    let request = match signed.cycle.postsign(&signed.signature, &signed.seal) {
        Ok(request) => request,
        Err(error) => {
            return Err(SiteRefusal::of_cycle(CycleFailure::Cycle(error)));
        },
    };
    let ghost asked = request;
    let answered = bridge_postsign(request);
    assert(bridge_postsign.ensures((asked,), answered));
    match answered {
        Ok(bytes) => Ok(SiteSignature { signed: bytes, signer_der: signed.signer_der }),
        Err(error) => Err(SiteRefusal::of_cycle(CycleFailure::Cycle(CycleError::Bridge(error)))),
    }
}

/// The postsign of a local signature: the cycle signed on the token crosses
/// to the bridge once its seal is checked, the signed document lands in the
/// destination folder, the certificate is remembered, a remembered document
/// gets its row signed, and the session keeps where it landed.
pub fn finish<Q, D, N>(
    session: &mut SigningSession,
    bridge_postsign: Q,
    deliver: D,
    seen: N,
    memory: &mut Memory,
    configuration: &Configuration,
) -> (r: Result<SignedDocumentView, Failure>) where
    Q: FnOnce(PostSignRequest) -> Result<Vec<u8>, BridgeError>,
    D: FnOnce(&PortalDocument, Vec<u8>) -> Result<(String, SignedDocumentView), Failure>,
    N: FnOnce(&str, Badge) -> Result<RecentDocument, Failure>,

    requires
        old(session).well_formed(),
        forall|p: PostSignRequest| bridge_postsign.requires((p,)),
        forall|d: &PortalDocument, b: Vec<u8>| deliver.requires((d, b)),
        forall|p: &str, b: Badge| seen.requires((p, b)),
    ensures
        old(session).signed_on_token() ==> exists|p: PostSignRequest, answered: Result<Vec<u8>, BridgeError>|
            #[trigger] bridge_postsign.ensures((p,), answered) && Some(p.pdf_b64@) == old(session).pdf_in_flight()
                && match answered {
                Err(_) => r is Err,
                Ok(bytes) => exists|d: PortalDocument, delivered: Result<(String, SignedDocumentView), Failure>|
                    d.path@ == path_in_flight(*old(session)) && #[trigger] deliver.ensures(
                        (&d, bytes),
                        delivered,
                    ) && match delivered {
                        Err(f) => r == Err::<SignedDocumentView, Failure>(f),
                        Ok(landed) => {
                            &&& r == Ok::<SignedDocumentView, Failure>(landed.1)
                            &&& final(session).landing() == Some(landed.0@)
                            &&& configuration.remember_activity ==> remembered_in(*final(memory))
                                == old(session).certificate_in_flight()
                            &&& (remembrance_in_flight(*old(session)) == Remembrance::Unrecorded
                                && configuration.remember_activity) ==> kept_tray(*final(memory)) == kept_tray(
                                *old(memory),
                            )
                            &&& (remembrance_in_flight(*old(session)) == Remembrance::Remembered
                                && configuration.remember_activity) ==> (kept_tray(*final(memory))
                                == kept_tray(*old(memory)) || exists|l: &str, row: RecentDocument|
                                l@ == landed.0@ && #[trigger] seen.ensures((l, Badge::Signed), Ok(row))
                                    && kept_tray(*final(memory)) == noted(kept_tray(*old(memory)), as_signed(row@)))
                        },
                    },
            },
        final(session).well_formed(),
        !final(session).live(),
        !old(session).signed_on_token() ==> (r matches Err(f) && f.situation@ == "unknown"@) && *final(memory)
            == *old(memory) && final(session).landing() == old(session).landing(),
        r is Err ==> *final(memory) == *old(memory) && final(session).landing() == old(session).landing(),
        r is Ok ==> final(session).landing() is Some && (configuration.remember_activity ==> remembered_in(
            *final(memory),
        ) is Some),
{
    let signed = take_signed_cycle(session)?;
    let request = match signed.cycle.postsign(&signed.signature, &signed.seal) {
        Ok(request) => request,
        Err(error) => {
            return Err(cycle_failure(&CycleFailure::Cycle(error)));
        },
    };
    let ghost asked = request;
    let answered = bridge_postsign(request);
    assert(bridge_postsign.ensures((asked,), answered));
    let bytes = match answered {
        Ok(bytes) => bytes,
        Err(error) => {
            return Err(cycle_failure(&CycleFailure::Cycle(CycleError::Bridge(error))));
        },
    };
    let ghost given = bytes;
    let portal = signed.document.document();
    let delivered = deliver(portal, bytes);
    assert(deliver.ensures((portal, given), delivered));
    let (landing, delivered) = match delivered {
        Ok(landed) => landed,
        Err(f) => {
            return Err(f);
        },
    };
    let ghost before = *memory;
    remember_the_certificate(memory, configuration, &signed.certificate);
    proof {
        if configuration.remember_activity {
            assert(kept_tray(*memory) == kept_tray(before));
            assert(kept_or_first(*memory).recents == kept_tray(before));
        }
    }
    if signed.document.is_remembered() {
        crate::recents::note_signed(memory, configuration, landing.as_str(), seen);
    }
    session.delivered_at(landing.as_str());
    Ok(delivered)
}

} // verus!
