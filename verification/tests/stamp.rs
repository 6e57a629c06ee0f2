use rfirma::certificates::StampedHolder;
use rfirma::stamp::{sign_reason_of, visible_text_fields, VisibleFieldsOrder};

#[test]
fn the_box_says_only_what_was_asked_and_is_not_empty() {
    let holder = StampedHolder { common_name: "LOVELACE BYRON ADA".to_owned(), issuer: String::new(), pseudonym: true };
    let fields = VisibleFieldsOrder { signer_name: true, issuer: true, signed_at: true, reason: false };

    let said = visible_text_fields(&fields, &holder, "31/08/26, 12:00:00", "Conforme");

    assert_eq!(said.signer_name.as_deref(), Some("LOVELACE BYRON ADA"));
    assert_eq!(said.issuer, None, "un emisor vacio no se dice");
    assert_eq!(said.signed_at.as_deref(), Some("31/08/26, 12:00:00"));
    assert_eq!(said.reason, None, "el motivo no se pidio");
    assert!(said.pseudonym);
}

#[test]
fn an_empty_reason_is_not_sent_to_the_bridge() {
    assert_eq!(sign_reason_of(""), None);
    assert_eq!(sign_reason_of("Conforme").as_deref(), Some("Conforme"));
}

fn an_empty_reason_is_not_sent_at_all() {
    assert_eq!(sign_reason_of(""), None);
}

fn a_reason_that_was_written_does_travel() {
    assert_eq!(sign_reason_of("Conforme").as_deref(), Some("Conforme"));
}

#[test]
fn signing_an_empty_reason_is_not_sent_at_all() {
    an_empty_reason_is_not_sent_at_all();
}

#[test]
fn mod_an_empty_reason_is_not_sent_at_all() {
    an_empty_reason_is_not_sent_at_all();
}

#[test]
fn tests_an_empty_reason_is_not_sent_at_all() {
    an_empty_reason_is_not_sent_at_all();
}

#[test]
fn signing_a_reason_that_was_written_does_travel() {
    a_reason_that_was_written_does_travel();
}

#[test]
fn mod_a_reason_that_was_written_does_travel() {
    a_reason_that_was_written_does_travel();
}

#[test]
fn tests_a_reason_that_was_written_does_travel() {
    a_reason_that_was_written_does_travel();
}
