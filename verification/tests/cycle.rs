use rfirma::cycle::{presign, Presigned, SessionSeal, SigningRequest, TokenSignature, INVENTED_PKCS1_BYTES};
use rfirma::situations::{BridgeError, CycleError, TokenError, TokenSituation};
use rfirma::token::CertificateRef;

fn a_request() -> SigningRequest {
    SigningRequest {
        document: b"%PDF".to_vec(),
        already_signed: false,
        chain: vec![vec![0x01], vec![0x02]],
        extra_params: "signReason=Conforme\n".to_owned(),
        certificate: CertificateRef::new("/usr/lib/softhsm/libsofthsm2.so", "rfirma-test", "FIRMA", vec![1]),
    }
}

fn presigned_with(seal: &str) -> Presigned {
    Presigned {
        session: "sesion".to_owned(),
        pre_sign: vec![0x31, 0x32],
        stamp: SessionSeal::from_bridge(seal),
    }
}

#[test]
fn the_signature_travels_to_the_postsign_in_base64() {
    let signature = TokenSignature::from_token(vec![0x30, 0x82, 0x01, 0x00]);

    assert_eq!(signature.raw(), [0x30, 0x82, 0x01, 0x00]);
    assert_eq!(signature.to_pkcs1_base64(), "MIIBAA==");
}

#[test]
fn a_seal_that_came_back_changed_is_refused_before_anything_else() {
    let issued = SessionSeal::from_bridge("el sello de la prefirma");
    let tampered = SessionSeal::from_bridge("el sello de la prefirma.");

    assert!(issued.verify_unchanged(&tampered).is_err());
    assert!(issued.verify_unchanged(&issued.copied()).is_ok());
}

#[test]
fn the_postsign_compares_the_seal_before_crossing_the_border() {
    let cycle = presign(&a_request(), Ok(presigned_with("el sello"))).expect("el ciclo se abre");
    let signature = TokenSignature::from_token(vec![0x30]);

    let refused = cycle.postsign(&signature, &SessionSeal::from_bridge("otro sello"));
    assert!(matches!(refused, Err(CycleError::Seal(_))), "nada cruza con un sello cambiado");

    let crossing = cycle.postsign(&signature, &cycle.seal_in_transit()).expect("el sello es el mismo");
    assert_eq!(crossing.pdf_b64, "JVBERg==");
    assert_eq!(crossing.certificate_chain_b64, "AQ==;Ag==");
    assert_eq!(crossing.session, "sesion");
    assert_eq!(crossing.pkcs1_b64, "MA==");
}

#[test]
fn the_presign_opens_the_cycle_with_what_the_bridge_answered() {
    let cycle = presign(&a_request(), Ok(presigned_with("el sello"))).expect("el ciclo se abre");

    assert_eq!(cycle.to_be_signed(), [0x31, 0x32]);
    assert_eq!(cycle.certificate().label(), "FIRMA");
    assert!(!cycle.is_cosigning());
    assert_eq!(cycle.seal_in_transit().text, "el sello");
}

#[test]
fn a_presign_the_bridge_refused_opens_no_cycle() {
    let refused = presign(&a_request(), Err(BridgeError::Failed("lo que dijera Java".to_owned())));

    assert!(matches!(refused, Err(CycleError::Bridge(_))));
}

#[test]
fn the_token_answer_becomes_the_signature_or_its_situation() {
    let cycle = presign(&a_request(), Ok(presigned_with("el sello"))).expect("el ciclo se abre");

    let signed = cycle.sign_on_token(Ok(vec![9, 9])).expect("el token firma");
    assert_eq!(signed.raw(), [9, 9]);

    let refused = cycle.sign_on_token(Err(TokenError::new(TokenSituation::IncorrectPin, "CKR_PIN_INCORRECT".to_owned())));
    assert!(matches!(refused, Err(CycleError::Token(error)) if error.situation == TokenSituation::IncorrectPin));
}

#[test]
fn the_invented_signature_is_as_long_as_an_rsa_2048_one() {
    let invented = TokenSignature::invented();

    assert_eq!(invented.raw().len(), INVENTED_PKCS1_BYTES);
    assert!(invented.raw().iter().all(|byte| *byte == 0));
}
