use std::cell::{Cell, RefCell};

use rfirma::cycle::{Presigned, SessionSeal, TokenSignature};
use rfirma::documents::{OpenedDocuments, PortalDocument};
use rfirma::handlers::{situation_name, who_handles, HandlerSituation, RegisteredHandlers};
use rfirma::preview::compose;
use rfirma::situations::CycleFailure;
use rfirma::token::{CertificateRef, CertificateStatus, ListedCertificates, TokenCertificate};

fn a_usable_certificate(label: &str) -> TokenCertificate {
    TokenCertificate::new(
        CertificateRef::new("/usr/lib/softhsm/libsofthsm2.so", "rfirma-test", label, vec![0x01]),
        "/usr/lib/softhsm/libsofthsm2.so".to_owned(),
        vec![0x30, 0x03],
        Some("CN=LOVELACE BYRON ADA".to_owned()),
        Some("CN=AC FNMT Usuarios".to_owned()),
        CertificateStatus::Valid { not_after: 4_102_444_800 },
    )
}

/// A dry run over an open document, noting each crossing of the bridge and
/// the PKCS#1 the postsign carried.
fn a_dry_run(crossings: &Cell<usize>, pkcs1: &RefCell<String>) -> Vec<u8> {
    let certificates = [a_usable_certificate("FIRMA")];
    let mut listed = ListedCertificates::new();
    let handles = listed.replace(vec![certificates[0].reference().copied()]);
    let mut opened = OpenedDocuments::new();
    let document = opened.remember(PortalDocument::opened("/home/quien/contrato.pdf"));

    compose(
        &document,
        &handles[0],
        &opened,
        |_: &PortalDocument| -> Result<(Vec<u8>, bool), CycleFailure> { Ok((b"%PDF".to_vec(), false)) },
        || Ok(certificates.to_vec()),
        |_: &TokenCertificate| Ok(vec![("signaturePages".to_owned(), "1,2,3".to_owned())]),
        |_| {
            crossings.set(crossings.get() + 1);
            Ok(Presigned { session: "s".to_owned(), pre_sign: vec![1], stamp: SessionSeal::from_bridge("sello") })
        },
        |request| {
            crossings.set(crossings.get() + 1);
            *pkcs1.borrow_mut() = request.pkcs1_b64.clone();
            Ok(b"%PDF compuesto".to_vec())
        },
        &listed,
    )
    .expect("la vista previa se compone")
}

fn the_bridge_is_crossed_twice_and_never_once_per_page() {
    let crossings = Cell::new(0);
    let pkcs1 = RefCell::new(String::new());

    let composed = a_dry_run(&crossings, &pkcs1);

    assert_eq!(composed, b"%PDF compuesto".to_vec());
    assert_eq!(crossings.get(), 2, "una prefirma y una postfirma, para todas las paginas");
}

fn the_pkcs1_of_the_dry_run_is_the_invented_one() {
    let crossings = Cell::new(0);
    let pkcs1 = RefCell::new(String::new());

    a_dry_run(&crossings, &pkcs1);

    let invented = TokenSignature::invented();
    assert_eq!(invented.raw().len(), 256, "una firma RSA de 2048 bits");
    assert!(invented.raw().iter().all(|byte| *byte == 0), "no lo ha calculado ningun token, y se nota");
    assert_eq!(*pkcs1.borrow(), invented.to_pkcs1_base64());
}

#[test]
fn preview_the_bridge_is_crossed_twice_and_never_once_per_page() {
    the_bridge_is_crossed_twice_and_never_once_per_page();
}

#[test]
fn tests_the_bridge_is_crossed_twice_and_never_once_per_page() {
    the_bridge_is_crossed_twice_and_never_once_per_page();
}

#[test]
fn preview_the_pkcs1_of_the_dry_run_is_the_invented_one() {
    the_pkcs1_of_the_dry_run_is_the_invented_one();
}

#[test]
fn tests_the_pkcs1_of_the_dry_run_is_the_invented_one() {
    the_pkcs1_of_the_dry_run_is_the_invented_one();
}

#[test]
fn a_dry_run_of_a_document_that_is_not_open_crosses_nothing() {
    let failure = compose(
        "00000000000000000000000000000000",
        "FIRMA",
        &OpenedDocuments::new(),
        |_: &PortalDocument| -> Result<(Vec<u8>, bool), CycleFailure> { panic!("no hay nada que leer") },
        || panic!("no hay nada que listar"),
        |_: &TokenCertificate| panic!("no hay nada que configurar"),
        |_| panic!("no se cruza al puente"),
        |_| panic!("no se cruza al puente"),
        &ListedCertificates::new(),
    )
    .expect_err("no esta abierto");

    assert_eq!(failure.situation, "documentUnreadable");
}

#[test]
fn every_situation_of_the_handlers_has_its_key() {
    assert_eq!(situation_name(HandlerSituation::NotAvailableInsideTheSandbox), "handlerNotAvailable");
    assert_eq!(situation_name(HandlerSituation::TheListIsNotReadable), "handlerListUnreadable");
    assert_eq!(situation_name(HandlerSituation::TheListIsNotWritable), "handlerListUnwritable");
}

fn the_dry_run_neither_asks_for_the_pin_nor_writes_anything() {
    let crossings = Cell::new(0);
    let pkcs1 = RefCell::new(String::new());

    let composed = a_dry_run(&crossings, &pkcs1);

    assert_eq!(composed, b"%PDF compuesto".to_vec(), "lo compuesto vuelve tal cual, sin escribirse");
    assert_eq!(crossings.get(), 2, "no hay mas que las dos travesias del puente: ni PIN ni token");
}

fn only_the_dry_run_invents_a_pkcs1() {
    let crossings = Cell::new(0);
    let pkcs1 = RefCell::new(String::new());

    a_dry_run(&crossings, &pkcs1);

    assert_eq!(*pkcs1.borrow(), TokenSignature::invented().to_pkcs1_base64());
    assert_ne!(TokenSignature::invented().to_pkcs1_base64(), "MA==", "no es la firma de ningun token");
}

#[test]
fn preview_the_dry_run_neither_asks_for_the_pin_nor_writes_anything() {
    the_dry_run_neither_asks_for_the_pin_nor_writes_anything();
}

#[test]
fn tests_the_dry_run_neither_asks_for_the_pin_nor_writes_anything() {
    the_dry_run_neither_asks_for_the_pin_nor_writes_anything();
}

#[test]
fn preview_only_the_dry_run_invents_a_pkcs1() {
    only_the_dry_run_invents_a_pkcs1();
}

#[test]
fn tests_only_the_dry_run_invents_a_pkcs1() {
    only_the_dry_run_invents_a_pkcs1();
}

#[test]
fn the_handlers_of_the_scheme_are_told_only_where_the_desktop_can_be_asked() {
    let closed = who_handles(RegisteredHandlers::NotAvailableInsideTheSandbox, || panic!("no se pregunta"), "rfirma.desktop");
    assert!(!closed.available);
    assert!(closed.handlers.is_empty());
    assert_eq!(closed.ours, "rfirma.desktop");

    let known = who_handles(
        RegisteredHandlers::Known(vec![("autofirma.desktop".to_owned(), "AutoFirma".to_owned())]),
        || Some("rfirma.desktop".to_owned()),
        "rfirma.desktop",
    );
    assert!(known.available);
    assert_eq!(known.handlers[0].id, "autofirma.desktop");
    assert_eq!(known.handlers[0].name, "AutoFirma");
    assert_eq!(known.current.as_deref(), Some("rfirma.desktop"));
}
