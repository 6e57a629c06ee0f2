use rfirma::certificates::{certificate_behind, stamped_holder_of, usable_certificate, only_rsa_keys};
use rfirma::distinguished::{attribute, holder_of, is_pseudonym, issuer_of};
use rfirma::situations::TokenSituation;
use rfirma::token::{CertificateRef, CertificateStatus, ListedCertificates, TokenCertificate};

/// A certificate of the token with whatever DER it is given; with garbage
/// inside, the token reads it as unreadable.
fn a_certificate(label: &str, der: &[u8]) -> TokenCertificate {
    a_certificate_with_id(label, 0x01, der)
}

fn a_certificate_with_id(label: &str, cka_id: u8, der: &[u8]) -> TokenCertificate {
    TokenCertificate::new(
        CertificateRef::new("/usr/lib/softhsm/libsofthsm2.so", "rfirma-test", label, vec![cka_id]),
        "/usr/lib/softhsm/libsofthsm2.so".to_owned(),
        der.to_vec(),
        None,
        None,
        CertificateStatus::Unreadable,
    )
}

fn listed_from(certificates: &[TokenCertificate]) -> (ListedCertificates, Vec<String>) {
    let mut listed = ListedCertificates::new();
    let handles = listed.replace(
        certificates.iter().map(|certificate| certificate.reference().copied()).collect(),
    );
    (listed, handles)
}

#[test]
fn reads_the_holder_and_the_id_out_of_the_subject() {
    let (name, id) = holder_of(Some(
        "CN=LOVELACE BYRON ADA, SERIALNUMBER=IDCES-00000000T, O=FNMT-RCM",
    ));

    assert_eq!(name, "LOVELACE BYRON ADA");
    assert_eq!(id, "IDCES-00000000T");
}

#[test]
fn a_subject_without_the_fields_gives_empty_strings_and_not_a_panic() {
    assert_eq!(holder_of(None), (String::new(), String::new()));
}

#[test]
fn a_subject_with_the_pseudonym_rdn_is_a_pseudonym_certificate() {
    for subject in [
        "CN=SEUDONIMO, 2.5.4.65=ADA, C=ES",
        "CN=SEUDONIMO, OID.2.5.4.65=ADA, C=ES",
        "CN=SEUDONIMO, pseudonym=ADA, C=ES",
    ] {
        assert!(is_pseudonym(Some(subject)), "«{subject}» es de seudónimo");
    }
}

#[test]
fn a_subject_without_that_rdn_is_not_a_pseudonym_certificate() {
    assert!(!is_pseudonym(Some(
        "CN=LOVELACE BYRON ADA - 99999999R, serialNumber=IDCES-99999999R, C=ES"
    )));
    assert!(!is_pseudonym(None));
}

#[test]
fn the_issuer_is_the_authority_and_not_the_organisation_of_the_holder() {
    let subject = "CN=EIDAS CERTIFICADO PRUEBAS - 99999999R, serialNumber=IDCES-99999999R, C=ES";
    let issuer = "CN=AC FNMT Usuarios, OU=Ceres, O=FNMT-RCM, C=ES";

    assert_eq!(issuer_of(Some(issuer)), "AC FNMT Usuarios");
    assert_eq!(attribute("O=", subject), "");
}

#[test]
fn the_organisation_of_a_public_employee_is_never_read_as_the_issuer() {
    let subject = "CN=LOVELACE BYRON ADA, O=AYUNTAMIENTO DE CADIZ, C=ES";
    let issuer = "CN=AC Administracion Publica, O=FNMT-RCM, C=ES";

    let (name, id) = holder_of(Some(subject));

    assert_eq!(name, "LOVELACE BYRON ADA");
    assert_eq!(id, "");
    assert_eq!(issuer_of(Some(issuer)), "AC Administracion Publica");
}

#[test]
fn the_holder_of_a_company_representative_is_read_whole() {
    let subject = "CN=LOVELACE BYRON ADA - R: B00000000, SERIALNUMBER=IDCES-00000000T, \
                    O=ANALYTICAL ENGINES SL, C=ES";

    let (name, id) = holder_of(Some(subject));

    assert_eq!(name, "LOVELACE BYRON ADA - R: B00000000");
    assert_eq!(id, "IDCES-00000000T");
}

#[test]
fn a_common_name_with_an_escaped_comma_is_read_whole() {
    let subject = "CN=APELLIDO1 APELLIDO2\\, NOMBRE (FIRMA), SERIALNUMBER=00000000T, C=ES";

    let (name, id) = holder_of(Some(subject));

    assert_eq!(name, "APELLIDO1 APELLIDO2, NOMBRE (FIRMA)");
    assert_eq!(id, "00000000T");
}

#[test]
fn a_literal_backslash_before_the_comma_does_not_escape_it() {
    let subject = "CN=FOO\\\\,SERIALNUMBER=00000000T";

    let (name, id) = holder_of(Some(subject));

    assert_eq!(name, "FOO\\");
    assert_eq!(id, "00000000T");
}

#[test]
fn an_issuer_without_a_common_name_falls_back_instead_of_going_blank() {
    assert_eq!(issuer_of(Some("O=FNMT-RCM, C=ES")), "FNMT-RCM");
    assert_eq!(issuer_of(Some("OU=Ceres, C=ES")), "OU=Ceres, C=ES");
    assert_eq!(issuer_of(None), "");
}

#[test]
fn refuses_a_certificate_that_is_no_longer_in_the_token() {
    let certificates = [a_certificate("FIRMA", &[])];
    let (listed, handles) = listed_from(&certificates);

    let failure = usable_certificate(&[], &handles[0], &listed).expect_err("ya no esta");

    assert_eq!(failure.situation, "certificateNotFound");
    assert!(failure.detail.contains("FIRMA"), "{}", failure.detail);
}

#[test]
fn refuses_a_handle_that_is_not_from_the_last_listing() {
    let listed = ListedCertificates::new();

    let failure = usable_certificate(&[], "00000000000000000000000000000000", &listed)
        .expect_err("no es de la ultima busqueda");

    assert_eq!(failure.situation, "certificateNotFound");
}

#[test]
fn two_certificates_with_the_same_label_are_chosen_apart() {
    let certificates = [
        a_certificate_with_id("FNMT-GEMELO-99999999R", 0x04, &[]),
        a_certificate_with_id("FNMT-GEMELO-99999999R", 0x05, &[]),
    ];
    let (listed, handles) = listed_from(&certificates);

    let first = certificate_behind(&certificates, &handles[0], &listed).expect("el primero");
    let second = certificate_behind(&certificates, &handles[1], &listed).expect("el segundo");

    assert_ne!(handles[0], handles[1]);
    assert_eq!(first.reference().cka_id(), [0x04].as_slice());
    assert_eq!(second.reference().cka_id(), [0x05].as_slice());
}

#[test]
fn looks_at_the_status_again_between_listing_and_signing() {
    let certificates = [a_certificate("FIRMA", &[0x00, 0x01, 0x02])];
    let (listed, handles) = listed_from(&certificates);

    let failure =
        usable_certificate(&certificates, &handles[0], &listed).expect_err("no es legible");

    assert_eq!(failure.situation, "certificateNotFound");
    assert!(failure.detail.contains("Unreadable"), "{}", failure.detail);
}

#[test]
fn a_certificate_in_force_is_usable() {
    let certificate = TokenCertificate::new(
        CertificateRef::new("/usr/lib/softhsm/libsofthsm2.so", "rfirma-test", "FIRMA", vec![1]),
        "/usr/lib/softhsm/libsofthsm2.so".to_owned(),
        vec![0x30],
        Some("CN=LOVELACE BYRON ADA, 2.5.4.65=ADA".to_owned()),
        Some("CN=AC FNMT Usuarios, O=FNMT-RCM".to_owned()),
        CertificateStatus::Valid { not_after: 4_102_444_800 },
    );
    let certificates = [certificate];
    let (listed, handles) = listed_from(&certificates);

    let chosen = usable_certificate(&certificates, &handles[0], &listed).expect("en vigor");
    let stamped = stamped_holder_of(chosen);

    assert_eq!(stamped.common_name, "LOVELACE BYRON ADA");
    assert_eq!(stamped.issuer, "AC FNMT Usuarios");
    assert!(stamped.pseudonym);
}

#[test]
fn a_handle_is_thirty_two_hexadecimal_digits() {
    let (_, handles) = listed_from(&[a_certificate("UNO", &[]), a_certificate("DOS", &[])]);

    assert_eq!(handles[0], "00000000000000000000000000000000");
    assert_eq!(handles[1], "00000000000000000000000000000001");
}

#[test]
fn an_empty_installed_store_or_one_without_a_certificate_is_refused() {
    let refused = only_rsa_keys(&[]).expect_err("sin certificado");
    assert_eq!(refused.situation(), TokenSituation::Pkcs12Unreadable);

    let refused = only_rsa_keys(&[a_certificate("BASURA", &[0x00])]).expect_err("no es X.509");
    assert_eq!(refused.situation(), TokenSituation::KeyNotRsa);
    assert!(refused.detail.contains("BASURA"));
}
