use rfirma::catalogue::{SafCode, WireAnswer};
use rfirma::codec::{SiteOutcome, V4Codec};
use rfirma::situations::Failure;

#[test]
fn a_certificate_goes_out_as_url_safe_base64_and_nothing_else() {
    assert_eq!(V4Codec.encode(&SiteOutcome::Certificate(vec![0xfb, 0xff, 0xbf])), "-_-_");
}

#[test]
fn a_signature_goes_out_behind_its_certificate_separated_by_a_bar() {
    assert_eq!(
        V4Codec.encode(&SiteOutcome::Signature {
            signer_der: vec![0xfb, 0xff, 0xbf],
            signed: b"%PDF".to_vec(),
        }),
        "-_-_|JVBERg=="
    );
}

#[test]
fn the_cancellation_and_the_refusals_go_out_as_the_catalogue_writes_them() {
    assert_eq!(V4Codec.encode(&SiteOutcome::Cancelled), "CANCEL");
    let refused = V4Codec.encode(&SiteOutcome::Refused {
        answer: WireAnswer::refused(SafCode::NoCertificatesInKeystore),
        failure: Failure::new("certificateNotFound", "detalle que no sale".to_owned()),
    });
    assert!(refused.starts_with("SAF_19"), "{refused}");
    assert!(!refused.contains("detalle que no sale"), "el detalle no sale");
}

#[test]
fn a_refusal_of_the_protocol_goes_out_with_its_code_and_without_its_detail() {
    let refused = V4Codec.encode(&SiteOutcome::RefusedByTheProtocol(
        rfirma::codec::Refusal::new(SafCode::UnsupportedOperation, "contrafirma".to_owned()),
    ));
    assert!(refused.starts_with("SAF_04"), "{refused}");
    assert!(!refused.contains("contrafirma"));
}
