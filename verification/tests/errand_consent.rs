use std::cell::RefCell;

use rfirma::codec::{Refusal, SiteOutcome, V4Codec};
use rfirma::documents::OpenedDocuments;
use rfirma::errand::{
    attend, consent, consent_to_sign, decline, finish, look_again, Consented, Errand, ErrandDesk, ErrandStep,
    LiveErrand, Moment, SelectCertificate, SignRequest, SignatureRound, SiteRequest, SiteVisibleSignature,
};
use rfirma::filtering::{FilterEngine, SiteFilter};
use rfirma::memory::Memory;
use rfirma::policies::PolicyEngine;
use rfirma::signing::{SiteRefusal, SiteSignature};
use rfirma::catalogue::SafCode;
use rfirma::situations::{BridgeError, Failure};
use rfirma::token::{CertificateRef, CertificateStatus, ListedCertificates, TokenCertificate};

const CREDENTIAL: &str = "8jAkPZfRw2mQxN4TbYuL";

struct AnEngine {
    answers: RefCell<Vec<Vec<usize>>>,
}

impl AnEngine {
    fn answering(answers: &[&[usize]]) -> Self {
        Self { answers: RefCell::new(answers.iter().rev().map(|answer| answer.to_vec()).collect()) }
    }
}

impl FilterEngine for AnEngine {
    fn select(&self, _filter_properties: &str, _certificates_b64: &str) -> Result<Vec<usize>, BridgeError> {
        Ok(self.answers.borrow_mut().pop().expect("el motor contesta lo que se le dijo"))
    }
}

/// A policy engine that answers the expansion it is told, and notes what it
/// was asked.
struct APolicyEngine {
    expanded: String,
    asked: RefCell<Vec<(String, String)>>,
}

impl APolicyEngine {
    fn answering(expanded: &str) -> Self {
        Self { expanded: expanded.to_owned(), asked: RefCell::new(Vec::new()) }
    }
}

impl PolicyEngine for APolicyEngine {
    fn expand(&self, extra_params: &str, format: &str) -> Result<String, BridgeError> {
        self.asked.borrow_mut().push((extra_params.to_owned(), format.to_owned()));
        Ok(self.expanded.clone())
    }
}

fn a_usable_certificate(label: &str) -> TokenCertificate {
    TokenCertificate::new(
        CertificateRef::new("/usr/lib/softhsm/libsofthsm2.so", "rfirma-test", label, vec![0x01]),
        "/usr/lib/softhsm/libsofthsm2.so".to_owned(),
        vec![0x30, 0x03],
        Some("CN=LOVELACE BYRON ADA".to_owned()),
        Some("CN=AC FNMT Usuarios".to_owned()),
        CertificateStatus::Valid { not_after: 4_102_444_800 },
    )
}

fn a_live() -> LiveErrand {
    let mut live = LiveErrand::speaking(V4Codec);
    assert!(live.begin(Errand::of(CREDENTIAL, 54001, V4Codec)));
    live
}

fn a_signature_request(declared: Vec<(String, String)>) -> SignRequest {
    SignRequest {
        document: b"%PDF-1.7\n".to_vec(),
        round: SignatureRound::Sign,
        filter: SiteFilter::default(),
        declared,
    }
}

fn a_consent_to_sign_over(unregistered: bool, expanded: &str) -> ErrandStep {
    let engine = AnEngine::answering(&[&[0]]);
    let policies = APolicyEngine::answering(expanded);
    let mut listed = ListedCertificates::new();
    let mut opened = OpenedDocuments::new();
    let mut live = a_live();

    consent_to_sign(
        &|e: &str, p: &str| engine.select(e, p),
        &|e: &str, f: &str| policies.expand(e, f),
        &a_signature_request(Vec::new()),
        |_: &Vec<u8>| Ok(unregistered),
        |_: &Vec<(String, String)>| Ok(SiteVisibleSignature::NotAsked),
        vec![a_usable_certificate("FIRMA")],
        &mut listed,
        &Memory::new(),
        &mut opened,
        |_: &Vec<u8>| Ok("/tmp/rfirma-errand/0.pdf".to_owned()),
        &mut live,
    )
}

fn an_ordinary_pdf_asks_about_no_unregistered_signature() {
    let asked = a_consent_to_sign_over(false, "");

    let ErrandStep::AskingToSign(consent) = asked else {
        panic!("hay certificado que la sede acepta: {asked:?}");
    };
    assert!(!consent.unregistered_signatures);
}

fn a_site_that_forbids_unregistered_signatures_still_signs_an_ordinary_pdf() {
    let asked = a_consent_to_sign_over(false, "allowCosigningUnregisteredSignatures=false\n");

    let ErrandStep::AskingToSign(consent) = asked else {
        panic!("no hay nada que rechazar: {asked:?}");
    };
    assert!(!consent.unregistered_signatures);
}

#[test]
fn errand_an_ordinary_pdf_asks_about_no_unregistered_signature() {
    an_ordinary_pdf_asks_about_no_unregistered_signature();
}

#[test]
fn tests_an_ordinary_pdf_asks_about_no_unregistered_signature() {
    an_ordinary_pdf_asks_about_no_unregistered_signature();
}

#[test]
fn errand_a_site_that_forbids_unregistered_signatures_still_signs_an_ordinary_pdf() {
    a_site_that_forbids_unregistered_signatures_still_signs_an_ordinary_pdf();
}

#[test]
fn tests_a_site_that_forbids_unregistered_signatures_still_signs_an_ordinary_pdf() {
    a_site_that_forbids_unregistered_signatures_still_signs_an_ordinary_pdf();
}

#[test]
fn tests_a_pdf_with_signatures_it_cannot_read_is_asked_about_inside_the_consent() {
    let asked = a_consent_to_sign_over(true, "");

    let ErrandStep::AskingToSign(consent) = asked else {
        panic!("no es un rechazo, es un aviso: {asked:?}");
    };
    assert!(consent.unregistered_signatures);
}

#[test]
fn tests_a_site_that_allows_unregistered_signatures_does_not_skip_the_question() {
    let asked = a_consent_to_sign_over(true, "allowCosigningUnregisteredSignatures=true\n");

    let ErrandStep::AskingToSign(consent) = asked else {
        panic!("se pregunta igual: {asked:?}");
    };
    assert!(consent.unregistered_signatures);
    assert!(
        !consent.from_the_site.iter().any(|(key, _)| key == "allowCosigningUnregisteredSignatures"),
        "al puente solo se le manda tras el consentimiento"
    );
}

#[test]
fn tests_a_site_that_forbids_unregistered_signatures_is_answered_with_a_cancel() {
    let asked = a_consent_to_sign_over(true, "allowCosigningUnregisteredSignatures=false\n");

    let ErrandStep::Answering(reply) = asked else {
        panic!("la sede ya contesto que no: {asked:?}");
    };
    assert_eq!(reply.on_the_wire(), "CANCEL");
}

#[test]
fn a_forbidding_value_is_read_whatever_its_case_and_blanks() {
    let asked = a_consent_to_sign_over(true, "allowCosigningUnregisteredSignatures= TRUE \n");
    assert!(matches!(asked, ErrandStep::AskingToSign(_)), "{asked:?}");

    let asked = a_consent_to_sign_over(true, "allowCosigningUnregisteredSignatures=no\n");
    assert!(matches!(asked, ErrandStep::Answering(SiteOutcome::Cancelled)), "{asked:?}");
}

#[test]
fn the_site_parameters_cross_to_the_engine_as_java_properties() {
    let engine = AnEngine::answering(&[&[0]]);
    let policies = APolicyEngine::answering("signReason=Conforme\npolicyIdentifier=2.16.724.1.3.1.1.2.1.9\n");
    let mut listed = ListedCertificates::new();
    let mut opened = OpenedDocuments::new();
    let mut live = a_live();

    let asked = consent_to_sign(
        &|e: &str, p: &str| engine.select(e, p),
        &|e: &str, f: &str| policies.expand(e, f),
        &a_signature_request(vec![("policyIdentifier".to_owned(), "urn:oid:x".to_owned())]),
        |_: &Vec<u8>| Ok(false),
        |_: &Vec<(String, String)>| Ok(SiteVisibleSignature::NotAsked),
        vec![a_usable_certificate("FIRMA")],
        &mut listed,
        &Memory::new(),
        &mut opened,
        |_: &Vec<u8>| Ok("/tmp/rfirma-errand/0.pdf".to_owned()),
        &mut live,
    );

    assert_eq!(policies.asked.borrow()[0], ("policyIdentifier=urn:oid:x\n".to_owned(), "pades".to_owned()));
    let ErrandStep::AskingToSign(consent) = asked else {
        panic!("{asked:?}");
    };
    assert_eq!(consent.from_the_site.len(), 2);
    assert_eq!(consent.certificates.len(), 1);
    assert_eq!(live.scratch_path(), Some("/tmp/rfirma-errand/0.pdf"));
    assert!(opened.get(&consent.document).is_some(), "el documento queda abierto sin recordarse");
}

#[test]
fn a_box_the_site_cannot_have_is_refused_before_anyone_is_asked() {
    let engine = AnEngine::answering(&[&[0]]);
    let policies = APolicyEngine::answering("visibleSignature=want\n");
    let mut listed = ListedCertificates::new();
    let mut opened = OpenedDocuments::new();
    let mut live = a_live();

    let asked = consent_to_sign(
        &|e: &str, p: &str| engine.select(e, p),
        &|e: &str, f: &str| policies.expand(e, f),
        &a_signature_request(Vec::new()),
        |_: &Vec<u8>| Ok(false),
        |_: &Vec<(String, String)>| Err(Refusal::new(SafCode::VisibleSignature, "sin sitio".to_owned())),
        vec![a_usable_certificate("FIRMA")],
        &mut listed,
        &Memory::new(),
        &mut opened,
        |_: &Vec<u8>| panic!("no se llega a guardar nada"),
        &mut live,
    );

    let ErrandStep::Answering(reply) = asked else {
        panic!("{asked:?}");
    };
    assert!(reply.on_the_wire().starts_with("SAF_43"));
    assert!(live.current().is_none());
}

fn a_desk<'a, S, X>(select: &'a S, expand: &'a X, memory: &'a Memory) -> ErrandDesk<'a, S, X> {
    ErrandDesk { select, expand, memory }
}

#[test]
fn an_identity_goes_from_the_operation_to_the_wire() {
    let engine = AnEngine::answering(&[&[0], &[0]]);
    let policies = APolicyEngine::answering("");
    let memory = Memory::new();
    let mut listed = ListedCertificates::new();
    let mut opened = OpenedDocuments::new();
    let mut live = a_live();
    let url = "afirma://selectcert?op=selectcert";

    let step = attend(
        &a_desk(&|e: &str, p: &str| engine.select(e, p), &|e: &str, f: &str| policies.expand(e, f), &memory),
        url,
        |_: &str| SiteRequest::SelectCertificate(SelectCertificate { filter: SiteFilter::default() }),
        || Ok(vec![a_usable_certificate("FIRMA")]),
        |_: &Vec<u8>| panic!("no hay documento"),
        |_: &Vec<(String, String)>| panic!("no hay recuadro"),
        |_: &Vec<u8>| panic!("no hay documento"),
        &mut listed,
        &mut opened,
        &mut live,
    )
    .expect("hay codec negociado");

    let ErrandStep::AskingForConsent { certificates, .. } = step else {
        panic!("{step:?}");
    };
    assert!(matches!(live.moment(), Some(Moment::AskingForConsent { .. })));
    assert!(live.take_lines().is_empty(), "la sede no recibe nada todavia");

    let consented = consent(
        &|e: &str, p: &str| engine.select(e, p),
        &certificates[0].id,
        || Ok(vec![a_usable_certificate("FIRMA")]),
        |_, _| -> Result<(), SiteRefusal> { panic!("no es una firma") },
        &listed,
        &mut live,
    );

    assert!(matches!(consented, Ok(Consented::IdentityHandedOver)));
    assert_eq!(live.take_lines(), vec!["MAM=".to_owned()]);
    assert!(live.current().is_none());
}

#[test]
fn looking_again_attends_the_same_request_once_a_certificate_is_installed() {
    let engine = AnEngine::answering(&[&[0]]);
    let policies = APolicyEngine::answering("");
    let memory = Memory::new();
    let mut listed = ListedCertificates::new();
    let mut opened = OpenedDocuments::new();
    let mut live = a_live();
    let select = |_: &str| SiteRequest::SelectCertificate(SelectCertificate { filter: SiteFilter::default() });

    let first = attend(
        &a_desk(&|e: &str, p: &str| engine.select(e, p), &|e: &str, f: &str| policies.expand(e, f), &memory),
        "afirma://selectcert?op=selectcert",
        select,
        || Ok(Vec::new()),
        |_: &Vec<u8>| Ok(false),
        |_: &Vec<(String, String)>| Ok(SiteVisibleSignature::NotAsked),
        |_: &Vec<u8>| Ok(String::new()),
        &mut listed,
        &mut opened,
        &mut live,
    );
    assert!(matches!(first, Some(ErrandStep::NoCertificate { answered: None, .. })), "{first:?}");
    assert!(live.take_lines().is_empty(), "sin certificado no se contesta nada");

    let again = look_again(
        &a_desk(&|e: &str, p: &str| engine.select(e, p), &|e: &str, f: &str| policies.expand(e, f), &memory),
        select,
        || Ok(vec![a_usable_certificate("FIRMA")]),
        |_: &Vec<u8>| Ok(false),
        |_: &Vec<(String, String)>| Ok(SiteVisibleSignature::NotAsked),
        |_: &Vec<u8>| Ok(String::new()),
        &mut listed,
        &mut opened,
        &mut live,
    );
    assert!(matches!(again, Some(ErrandStep::AskingForConsent { .. })), "{again:?}");
}

#[test]
fn nothing_consented_is_nothing_to_answer() {
    let engine = AnEngine::answering(&[]);
    let listed = ListedCertificates::new();
    let mut live = a_live();

    let refused = consent(
        &|e: &str, p: &str| engine.select(e, p),
        "00000000000000000000000000000000",
        || panic!("no se lista nada"),
        |_, _| -> Result<(), SiteRefusal> { panic!("no se firma nada") },
        &listed,
        &mut live,
    );

    assert_eq!(refused.expect_err("no hay nada pendiente").situation, "siteErrandNotLive");
    assert!(live.current().is_some(), "y el tramite sigue");
}

#[test]
fn a_signature_that_did_not_come_out_is_answered_with_its_code() {
    let mut live = a_live();
    live.answer_through();

    let refused = finish(
        Err(SiteRefusal::new(SafCode::SignatureFailed, Failure::new("bridgeFailed", "lo que dijera Java".to_owned()))),
        &mut live,
    );

    assert_eq!(refused.expect_err("no ha salido").situation, "bridgeFailed");
    assert_eq!(live.take_lines()[0], "SAF_09: No se ha podido completar la firma electronica");
}

#[test]
fn a_finished_signature_goes_out_behind_its_certificate() {
    let mut live = a_live();
    live.answer_through();

    finish(Ok(SiteSignature { signed: b"%PDF".to_vec(), signer_der: vec![0xfb, 0xff, 0xbf] }), &mut live)
        .expect("la firma ha salido");

    assert_eq!(live.take_lines(), vec!["-_-_|JVBERg==".to_owned()]);
    assert!(live.current().is_none());
}

#[test]
fn declining_twice_writes_the_cancellation_once() {
    let mut live = a_live();
    live.answer_through();

    decline(&mut live);
    decline(&mut live);

    assert_eq!(live.take_lines(), vec!["CANCEL".to_owned()]);
}

#[test]
fn a_document_that_is_not_a_pdf_is_refused_before_the_policy_is_asked() {
    let engine = AnEngine::answering(&[&[0]]);
    let policies = APolicyEngine::answering("");
    let mut listed = ListedCertificates::new();
    let mut opened = OpenedDocuments::new();
    let mut live = a_live();

    let asked = consent_to_sign(
        &|e: &str, p: &str| engine.select(e, p),
        &|e: &str, f: &str| policies.expand(e, f),
        &a_signature_request(Vec::new()),
        |_: &Vec<u8>| Err(rfirma::situations::Inadmissible::NotAPdf),
        |_: &Vec<(String, String)>| panic!("no se llega al recuadro"),
        vec![a_usable_certificate("FIRMA")],
        &mut listed,
        &Memory::new(),
        &mut opened,
        |_: &Vec<u8>| panic!("no se guarda nada"),
        &mut live,
    );

    let ErrandStep::Answering(reply) = asked else {
        panic!("{asked:?}");
    };
    assert_eq!(reply.on_the_wire(), rfirma::catalogue::WireAnswer::refused(SafCode::InvalidPdf).on_the_wire());
    assert!(policies.asked.borrow().is_empty(), "la admisibilidad va antes que la politica");
    assert!(live.scratch_path().is_none());
}

#[test]
fn a_site_that_keeps_no_certificate_is_answered_certificate_not_found() {
    let engine = AnEngine::answering(&[&[]]);
    let policies = APolicyEngine::answering("");
    let mut listed = ListedCertificates::new();
    let mut opened = OpenedDocuments::new();
    let mut live = a_live();

    let asked = consent_to_sign(
        &|e: &str, p: &str| engine.select(e, p),
        &|e: &str, f: &str| policies.expand(e, f),
        &a_signature_request(Vec::new()),
        |_: &Vec<u8>| Ok(false),
        |_: &Vec<(String, String)>| Ok(SiteVisibleSignature::NotAsked),
        vec![a_usable_certificate("FIRMA")],
        &mut listed,
        &Memory::new(),
        &mut opened,
        |_: &Vec<u8>| panic!("no se guarda nada"),
        &mut live,
    );

    let ErrandStep::NoCertificate { answered: Some(reply), owned, .. } = asked else {
        panic!("{asked:?}");
    };
    assert_eq!(owned, 1);
    assert_eq!(
        reply.on_the_wire(),
        rfirma::catalogue::WireAnswer::refused(SafCode::NoCertificatesInKeystore).on_the_wire()
    );
}
