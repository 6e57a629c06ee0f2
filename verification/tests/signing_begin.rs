use std::cell::RefCell;

use rfirma::catalogue::SafCode;
use rfirma::cycle::{Presigned, SessionSeal};
use rfirma::documents::{OpenedDocuments, PortalDocument};
use rfirma::filtering::{FilterEngine, SiteFilter};
use rfirma::signing::{
    begin, begin_for_the_site, finish_for_the_site, is_live, sign_on_token, SigningSession,
};
use rfirma::situations::{BridgeError, CycleFailure};
use rfirma::token::{CertificateRef, CertificateStatus, ListedCertificates, TokenCertificate};

struct NoEngine;

impl FilterEngine for NoEngine {
    fn select(&self, _properties: &str, _certificates: &str) -> Result<Vec<usize>, BridgeError> {
        unreachable!("no se llega a filtrar nada")
    }
}

struct AnEngine;

impl FilterEngine for AnEngine {
    fn select(&self, _properties: &str, _certificates: &str) -> Result<Vec<usize>, BridgeError> {
        Ok(vec![0])
    }
}

fn a_usable_certificate(label: &str) -> TokenCertificate {
    TokenCertificate::new(
        CertificateRef::new("/usr/lib/softhsm/libsofthsm2.so", "rfirma-test", label, vec![0x01]),
        "/usr/lib/softhsm/libsofthsm2.so".to_owned(),
        vec![0x30, 0x03],
        Some("CN=LOVELACE BYRON ADA".to_owned()),
        Some("CN=AC FNMT Usuarios".to_owned()),
        CertificateStatus::Valid { not_after: 4_102_444_800 },
    )
}

fn a_signature_cannot_begin_on_a_document_that_is_not_open() {
    let mut session = SigningSession::default();

    let failure = begin(
        "00000000000000000000000000000000",
        "FIRMA",
        &OpenedDocuments::new(),
        |_: &PortalDocument| -> Result<(Vec<u8>, bool), CycleFailure> { panic!("no hay nada que leer") },
        || panic!("no hay nada que listar"),
        |_: &TokenCertificate| panic!("no hay nada que configurar"),
        |_: &CertificateRef| -> Result<(), CycleFailure> { panic!("no hay secreto que pedir") },
        |_| panic!("no se cruza al puente"),
        &ListedCertificates::new(),
        &mut session,
    )
    .expect_err("ese documento no esta abierto");

    assert_eq!(failure.situation, "documentUnreadable");
    assert!(!is_live(&session));
}

#[test]
fn signing_a_signature_cannot_begin_on_a_document_that_is_not_open() {
    a_signature_cannot_begin_on_a_document_that_is_not_open();
}

#[test]
fn mod_a_signature_cannot_begin_on_a_document_that_is_not_open() {
    a_signature_cannot_begin_on_a_document_that_is_not_open();
}

#[test]
fn tests_a_signature_cannot_begin_on_a_document_that_is_not_open() {
    a_signature_cannot_begin_on_a_document_that_is_not_open();
}

#[test]
fn a_site_signature_cannot_begin_on_a_document_that_is_not_open() {
    let mut session = SigningSession::default();

    let failure = begin_for_the_site(
        &|e: &str, p: &str| NoEngine.select(e, p),
        &SiteFilter::default(),
        &Vec::new(),
        "00000000000000000000000000000000",
        "FIRMA",
        &OpenedDocuments::new(),
        |_: &PortalDocument| -> Result<(Vec<u8>, bool), CycleFailure> { panic!("no hay nada que leer") },
        || panic!("no hay nada que listar"),
        |_: &TokenCertificate| panic!("no hay nada que configurar"),
        |_: &CertificateRef| -> Result<(), CycleFailure> { panic!("no hay secreto que pedir") },
        |_| panic!("no se cruza al puente"),
        &ListedCertificates::new(),
        &mut session,
    )
    .expect_err("ese documento no esta abierto");

    assert_eq!(failure.failure().situation, "documentUnreadable");
    assert_eq!(failure.code(), SafCode::CannotReadData, "y la sede recibe el codigo de lo que ha pasado");
}

#[test]
fn a_site_signature_goes_from_the_presign_to_the_postsign() {
    let certificates = [a_usable_certificate("FIRMA")];
    let mut listed = ListedCertificates::new();
    let handles = listed.replace(vec![certificates[0].reference().copied()]);
    let mut opened = OpenedDocuments::new();
    let document = opened.remember_unrecorded(PortalDocument::opened("/tmp/rfirma-errand/0.pdf"));
    let presigned = RefCell::new(Vec::new());
    let mut session = SigningSession::default();

    begin_for_the_site(
        &|e: &str, p: &str| AnEngine.select(e, p),
        &SiteFilter::default(),
        &vec![("signReason".to_owned(), "de la sede".to_owned())],
        &document,
        &handles[0],
        &opened,
        |_: &PortalDocument| Ok((b"%PDF".to_vec(), false)),
        || Ok(certificates.to_vec()),
        |_: &TokenCertificate| Ok(vec![("signReason".to_owned(), "nuestra".to_owned())]),
        |_: &CertificateRef| -> Result<&str, CycleFailure> { Ok("el PIN se pide aparte") },
        |request| {
            presigned.borrow_mut().push(request.extra_params.clone());
            Ok(Presigned { session: "s".to_owned(), pre_sign: vec![1, 2], stamp: SessionSeal::from_bridge("sello") })
        },
        &listed,
        &mut session,
    )
    .expect("el ciclo se abre");

    assert_eq!(presigned.borrow()[0], "signReason=de la sede\nsignReason=nuestra\n", "lo nuestro va detras y gana");
    assert!(is_live(&session));
    assert_eq!(session.to_be_signed(), Some(vec![1, 2]));

    sign_on_token(&mut session, Ok(vec![0x30])).expect("el token firma");
    let signed = finish_for_the_site(&mut session, |request| {
        assert_eq!(request.stamp.text, "sello");
        assert_eq!(request.pkcs1_b64, "MA==");
        Ok(b"%PDF firmado".to_vec())
    })
    .expect("la postfirma sale");

    assert_eq!(signed.signed, b"%PDF firmado".to_vec());
    assert_eq!(signed.signer_der, vec![0x30, 0x03]);
    assert!(!is_live(&session));
}

#[test]
fn a_site_postsign_without_a_signed_cycle_is_a_signature_that_did_not_come_out() {
    let mut session = SigningSession::default();

    let refused = finish_for_the_site(&mut session, |_| panic!("no se cruza al puente")).err().expect("no hay ciclo");

    assert_eq!(refused.code(), SafCode::SignatureFailed);
}

/// Signs locally the document opened as `remembered` says, and hands back
/// the memory the postsign left.
fn a_local_signature(remembered: bool) -> rfirma::memory::Memory {
    let certificates = [a_usable_certificate("FIRMA")];
    let mut listed = ListedCertificates::new();
    let handles = listed.replace(vec![certificates[0].reference().copied()]);
    let mut opened = OpenedDocuments::new();
    let document = if remembered {
        opened.remember(PortalDocument::opened("/home/quien/contrato.pdf"))
    } else {
        opened.remember_unrecorded(PortalDocument::opened("/tmp/rfirma-errand/0.pdf"))
    };
    let mut session = SigningSession::default();
    let mut memory = rfirma::memory::Memory::new();
    let configuration = rfirma::configuration::Configuration::default();

    begin(
        &document,
        &handles[0],
        &opened,
        |_: &PortalDocument| Ok((b"%PDF".to_vec(), false)),
        || Ok(certificates.to_vec()),
        |_: &TokenCertificate| Ok(Vec::new()),
        |_: &CertificateRef| -> Result<(), CycleFailure> { Ok(()) },
        |_| Ok(Presigned { session: "s".to_owned(), pre_sign: vec![1], stamp: SessionSeal::from_bridge("sello") }),
        &listed,
        &mut session,
    )
    .expect("el ciclo se abre");
    assert!(memory.state().is_none(), "la prefirma no recuerda nada");
    sign_on_token(&mut session, Ok(vec![0x30])).expect("el token firma");
    assert!(memory.state().is_none(), "firmar en el token tampoco");

    rfirma::signing::finish(
        &mut session,
        |_| Ok(b"%PDF firmado".to_vec()),
        |_: &PortalDocument, bytes: Vec<u8>| {
            Ok((
                "/home/quien/Documentos/contrato-firmado.pdf".to_owned(),
                rfirma::documents::SignedDocumentView {
                    name: "contrato-firmado.pdf".to_owned(),
                    folder: "Documentos".to_owned(),
                    size_bytes: bytes.len() as u64,
                },
            ))
        },
        |path: &str, badge| {
            Ok(rfirma::recents::RecentDocument {
                path: path.to_owned(),
                name: "contrato-firmado.pdf".to_owned(),
                badge,
                modified: None,
                last_used: 1,
            })
        },
        &mut memory,
        &configuration,
    )
    .expect("la postfirma sale");
    memory
}

fn the_signed_badge_is_written_by_the_postsign_and_by_nothing_else() {
    let memory = a_local_signature(true);
    let state = memory.state().expect("se recuerda la actividad");
    assert_eq!(state.recents.len(), 1);
    assert_eq!(state.recents[0].badge, rfirma::recents::Badge::Signed);
}

fn a_document_that_is_not_remembered_gets_no_row_when_it_is_signed() {
    let memory = a_local_signature(false);
    let state = memory.state().expect("el certificado se recuerda igual");
    assert!(state.recents.is_empty(), "el documento de paso no deja fila");
}

fn only_the_postsign_remembers_the_certificate() {
    let memory = a_local_signature(false);
    let state = memory.state().expect("la postfirma recuerda");
    assert!(state.certificate.is_some());
}

#[test]
fn signing_the_signed_badge_is_written_by_the_postsign_and_by_nothing_else() {
    the_signed_badge_is_written_by_the_postsign_and_by_nothing_else();
}

#[test]
fn mod_the_signed_badge_is_written_by_the_postsign_and_by_nothing_else() {
    the_signed_badge_is_written_by_the_postsign_and_by_nothing_else();
}

#[test]
fn tests_the_signed_badge_is_written_by_the_postsign_and_by_nothing_else() {
    the_signed_badge_is_written_by_the_postsign_and_by_nothing_else();
}

#[test]
fn mod_a_document_that_is_not_remembered_gets_no_row_when_it_is_signed() {
    a_document_that_is_not_remembered_gets_no_row_when_it_is_signed();
}

#[test]
fn tests_a_document_that_is_not_remembered_gets_no_row_when_it_is_signed() {
    a_document_that_is_not_remembered_gets_no_row_when_it_is_signed();
}

#[test]
fn signing_only_the_postsign_remembers_the_certificate() {
    only_the_postsign_remembers_the_certificate();
}

#[test]
fn mod_only_the_postsign_remembers_the_certificate() {
    only_the_postsign_remembers_the_certificate();
}

#[test]
fn tests_only_the_postsign_remembers_the_certificate() {
    only_the_postsign_remembers_the_certificate();
}

#[test]
fn the_presign_of_a_site_errand_checks_the_filter_again_before_the_pin() {
    let certificates = [a_usable_certificate("FIRMA")];
    let mut listed = ListedCertificates::new();
    let handles = listed.replace(vec![certificates[0].reference().copied()]);
    let mut opened = OpenedDocuments::new();
    let document = opened.remember_unrecorded(PortalDocument::opened("/tmp/rfirma-errand/0.pdf"));
    let mut session = SigningSession::default();

    let refused = begin_for_the_site(
        &|_: &str, _: &str| Ok(Vec::new()),
        &SiteFilter::default(),
        &Vec::new(),
        &document,
        &handles[0],
        &opened,
        |_: &PortalDocument| Ok((b"%PDF".to_vec(), false)),
        || Ok(certificates.to_vec()),
        |_: &TokenCertificate| Ok(Vec::new()),
        |_: &CertificateRef| -> Result<(), CycleFailure> { panic!("el secreto no se pide") },
        |_| panic!("no se cruza al puente"),
        &listed,
        &mut session,
    )
    .expect_err("la sede ya no acepta ese certificado");

    assert_eq!(refused.code(), SafCode::NoCertificatesInKeystore);
    assert_eq!(refused.failure().situation, "certificateNotFound");
    assert!(!is_live(&session));
}

#[test]
fn the_postsign_of_a_site_errand_writes_nothing_anywhere() {
    let mut session = SigningSession::default();
    let refused = finish_for_the_site(&mut session, |_| panic!("no se cruza al puente"));
    assert!(refused.is_err());
    assert!(rfirma::signing::signed_document(&session).is_err(), "no queda ningun documento firmado");
}

#[test]
fn a_local_signature_notes_a_remembered_document_as_signed_and_remembers_its_certificate() {
    let certificates = [a_usable_certificate("FIRMA")];
    let mut listed = ListedCertificates::new();
    let handles = listed.replace(vec![certificates[0].reference().copied()]);
    let mut opened = OpenedDocuments::new();
    let document = opened.remember(PortalDocument::opened("/home/quien/contrato.pdf"));
    let mut session = SigningSession::default();
    let mut memory = rfirma::memory::Memory::new();
    let configuration = rfirma::configuration::Configuration::default();

    begin(
        &document,
        &handles[0],
        &opened,
        |_: &PortalDocument| Ok((b"%PDF".to_vec(), false)),
        || Ok(certificates.to_vec()),
        |_: &TokenCertificate| Ok(Vec::new()),
        |_: &CertificateRef| -> Result<(), CycleFailure> { Ok(()) },
        |_| Ok(Presigned { session: "s".to_owned(), pre_sign: vec![1], stamp: SessionSeal::from_bridge("sello") }),
        &listed,
        &mut session,
    )
    .expect("el ciclo se abre");
    sign_on_token(&mut session, Ok(vec![0x30])).expect("el token firma");

    let delivered = rfirma::signing::finish(
        &mut session,
        |_| Ok(b"%PDF firmado".to_vec()),
        |_: &PortalDocument, bytes: Vec<u8>| {
            Ok((
                "/home/quien/Documentos/contrato-firmado.pdf".to_owned(),
                rfirma::documents::SignedDocumentView {
                    name: "contrato-firmado.pdf".to_owned(),
                    folder: "Documentos".to_owned(),
                    size_bytes: bytes.len() as u64,
                },
            ))
        },
        |path: &str, badge| {
            Ok(rfirma::recents::RecentDocument {
                path: path.to_owned(),
                name: "contrato-firmado.pdf".to_owned(),
                badge,
                modified: None,
                last_used: 1,
            })
        },
        &mut memory,
        &configuration,
    )
    .expect("la postfirma sale");

    assert_eq!(delivered.size_bytes, 12);
    let state = memory.state().expect("se recuerda la actividad");
    assert_eq!(state.recents.len(), 1);
    assert_eq!(state.recents[0].badge, rfirma::recents::Badge::Signed);
    assert_eq!(state.recents[0].path, "/home/quien/Documentos/contrato-firmado.pdf");
    assert!(state.certificate.is_some(), "el certificado con el que se firmo queda recordado");
}
