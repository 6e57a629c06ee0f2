use std::cell::RefCell;

use rfirma::catalogue::{SafCode, WireAnswer};
use rfirma::codec::V4Codec;
use rfirma::errand::{declined, identity_handed_over, Errand, LiveErrand};
use rfirma::filtering::{FilterEngine, SiteFilter};
use rfirma::situations::BridgeError;
use rfirma::startup::{attend_launch, Attendance, ChannelDuty, ChannelError, Launch, OpenChannel, Transport};
use rfirma::token::{CertificateRef, CertificateStatus, ListedCertificates, TokenCertificate};

const CREDENTIAL: &str = "8jAkPZfRw2mQxN4TbYuL";

/// A transport that notes the duties it was asked for and binds the first
/// port drawn.
struct ATransport<'a> {
    asked: &'a RefCell<Vec<ChannelDuty>>,
}

impl Transport for ATransport<'_> {
    fn open(&self, ports: &[u16], duty: ChannelDuty) -> Result<OpenChannel, ChannelError> {
        self.asked.borrow_mut().push(duty);
        Ok(OpenChannel::new(ports[0]))
    }
}

fn a_launch(ports: &[u16]) -> Launch {
    Launch::Attended { credential: CREDENTIAL.to_owned(), ports: ports.to_vec() }
}

/// An engine that answers each question with the next answer it was given.
struct AnEngine {
    answers: RefCell<Vec<Vec<usize>>>,
}

impl AnEngine {
    fn answering(answers: &[&[usize]]) -> Self {
        Self { answers: RefCell::new(answers.iter().rev().map(|answer| answer.to_vec()).collect()) }
    }
}

impl FilterEngine for AnEngine {
    fn select(&self, _filter_properties: &str, _certificates_b64: &str) -> Result<Vec<usize>, BridgeError> {
        Ok(self.answers.borrow_mut().pop().expect("el motor contesta lo que se le dijo"))
    }
}

fn a_usable_certificate(label: &str) -> TokenCertificate {
    TokenCertificate::new(
        CertificateRef::new("/usr/lib/softhsm/libsofthsm2.so", "rfirma-test", label, vec![0x01]),
        "/usr/lib/softhsm/libsofthsm2.so".to_owned(),
        vec![0x30, 0x03],
        Some("CN=LOVELACE BYRON ADA".to_owned()),
        Some("CN=AC FNMT Usuarios".to_owned()),
        CertificateStatus::Valid { not_after: 4_102_444_800 },
    )
}

fn listed_from(certificates: &[TokenCertificate]) -> (ListedCertificates, Vec<String>) {
    let mut listed = ListedCertificates::new();
    let handles =
        listed.replace(certificates.iter().map(|certificate| certificate.reference().copied()).collect());
    (listed, handles)
}

fn the_person_saying_no_is_the_only_cancellation() {
    let mut live = LiveErrand::default();
    assert!(live.begin(Errand::of(CREDENTIAL, 54001, V4Codec)));

    let reply = declined(&mut live);

    assert_eq!(reply.on_the_wire(), "CANCEL");
    assert!(live.current().is_none(), "cancelado, el tramite se acaba");
}

fn a_second_launch_is_refused_while_the_first_errand_is_live() {
    let mut live = LiveErrand::default();
    let asked = RefCell::new(Vec::new());

    let first = attend_launch(a_launch(&[54001]), &|p: &[u16], d: ChannelDuty| ATransport { asked: &asked }.open(p, d), &|_c: OpenChannel| {}, &mut live);
    assert!(matches!(first, Attendance::Serving { .. }), "{first:?}");

    let second = attend_launch(a_launch(&[55001]), &|p: &[u16], d: ChannelDuty| ATransport { asked: &asked }.open(p, d), &|_c: OpenChannel| {}, &mut live);
    let Attendance::RefusingOverTheChannel { answer, .. } = second else {
        panic!("el segundo se rechaza por su socket: {second:?}");
    };
    assert_eq!(answer.on_the_wire(), WireAnswer::refused(SafCode::CannotOpenSocket).on_the_wire());

    let errand = live.current().expect("el primer tramite sigue vivo");
    assert_eq!(errand.port(), 54001);
}

fn a_launch_that_loses_the_place_while_its_channel_opens_has_it_closed_and_is_refused() {
    let mut live = LiveErrand::default();
    let asked = RefCell::new(Vec::new());
    assert!(live.begin(Errand::of(CREDENTIAL, 54001, V4Codec)), "la otra se lleva la plaza");

    let closed = RefCell::new(Vec::new());
    let attendance = attend_launch(
        a_launch(&[55001, 55002]),
        &|p: &[u16], d: ChannelDuty| ATransport { asked: &asked }.open(p, d),
        &|c: OpenChannel| closed.borrow_mut().push(c.port()),
        &mut live,
    );

    let Attendance::RefusingOverTheChannel { answer, .. } = attendance else {
        panic!("la que llega tarde se rechaza por su socket: {attendance:?}");
    };
    assert_eq!(answer.on_the_wire(), WireAnswer::refused(SafCode::CannotOpenSocket).on_the_wire());
    assert_eq!(*closed.borrow(), vec![55001], "el canal de la que llega tarde se cierra antes de rechazar");
    assert_eq!(asked.borrow().len(), 2, "uno para servir y otro para decir el rechazo");
}

fn once_the_first_site_has_its_answer_the_next_launch_is_attended() {
    let mut live = LiveErrand::default();
    let asked = RefCell::new(Vec::new());

    attend_launch(a_launch(&[54001]), &|p: &[u16], d: ChannelDuty| ATransport { asked: &asked }.open(p, d), &|_c: OpenChannel| {}, &mut live);
    declined(&mut live);

    let next = attend_launch(a_launch(&[55001]), &|p: &[u16], d: ChannelDuty| ATransport { asked: &asked }.open(p, d), &|_c: OpenChannel| {}, &mut live);

    assert!(matches!(next, Attendance::Serving { .. }), "{next:?}");
}

fn the_live_errand_remembers_the_credential_and_the_port_and_nothing_else() {
    let mut live = LiveErrand::default();
    let asked = RefCell::new(Vec::new());

    attend_launch(a_launch(&[54001]), &|p: &[u16], d: ChannelDuty| ATransport { asked: &asked }.open(p, d), &|_c: OpenChannel| {}, &mut live);

    let errand = live.current().expect("hay tramite vivo");
    assert_eq!(errand.credential(), CREDENTIAL);
    assert_eq!(errand.port(), 54001);
}

fn a_certificate_the_site_no_longer_accepts_is_never_handed_over() {
    let ours: Vec<TokenCertificate> = vec![a_usable_certificate("FIRMA")];
    let (listed, handles) = listed_from(&ours);
    let mut live = LiveErrand::default();

    let engine = AnEngine::answering(&[&[]]);
    let reply = identity_handed_over(
        &|e: &str, p: &str| engine.select(e, p),
        &SiteFilter::default(),
        &ours,
        &handles[0],
        &listed,
        &mut live,
    );

    assert_eq!(reply.on_the_wire(), WireAnswer::refused(SafCode::NoCertificatesInKeystore).on_the_wire());
    assert!(
        reply.failure().is_some_and(|it| it.situation == "certificateNotFound"),
        "la ventana sabe cual es la situacion: {reply:?}"
    );
}

#[test]
fn errand_the_person_saying_no_is_the_only_cancellation() {
    the_person_saying_no_is_the_only_cancellation();
}

#[test]
fn tests_the_person_saying_no_is_the_only_cancellation() {
    the_person_saying_no_is_the_only_cancellation();
}

#[test]
fn errand_a_second_launch_is_refused_while_the_first_errand_is_live() {
    a_second_launch_is_refused_while_the_first_errand_is_live();
}

#[test]
fn tests_a_second_launch_is_refused_while_the_first_errand_is_live() {
    a_second_launch_is_refused_while_the_first_errand_is_live();
}

#[test]
fn errand_a_launch_that_loses_the_place_while_its_channel_opens_has_it_closed_and_is_refused() {
    a_launch_that_loses_the_place_while_its_channel_opens_has_it_closed_and_is_refused();
}

#[test]
fn tests_a_launch_that_loses_the_place_while_its_channel_opens_has_it_closed_and_is_refused() {
    a_launch_that_loses_the_place_while_its_channel_opens_has_it_closed_and_is_refused();
}

#[test]
fn errand_once_the_first_site_has_its_answer_the_next_launch_is_attended() {
    once_the_first_site_has_its_answer_the_next_launch_is_attended();
}

#[test]
fn tests_once_the_first_site_has_its_answer_the_next_launch_is_attended() {
    once_the_first_site_has_its_answer_the_next_launch_is_attended();
}

#[test]
fn errand_the_live_errand_remembers_the_credential_and_the_port_and_nothing_else() {
    the_live_errand_remembers_the_credential_and_the_port_and_nothing_else();
}

#[test]
fn tests_the_live_errand_remembers_the_credential_and_the_port_and_nothing_else() {
    the_live_errand_remembers_the_credential_and_the_port_and_nothing_else();
}

#[test]
fn errand_a_certificate_the_site_no_longer_accepts_is_never_handed_over() {
    a_certificate_the_site_no_longer_accepts_is_never_handed_over();
}

#[test]
fn tests_a_certificate_the_site_no_longer_accepts_is_never_handed_over() {
    a_certificate_the_site_no_longer_accepts_is_never_handed_over();
}
