use std::cell::RefCell;

use rfirma::trust::{
    narrate_startup_outcome, refresh_local_ca_trust, settled_by, tally, PendingNotice, Reading, Stage, TrustError, TrustOutcome,
    TrustSituation, TrustStores, Work, TRUSTED_SSL_CA,
};

fn an_outcome(trusted: usize, missed: Vec<(String, TrustError)>, notice: PendingNotice) -> TrustOutcome {
    TrustOutcome { stage: Stage::Absent, work: Work::MakeOneAndInstallIt, trusted, missed, notice }
}

fn nowhere_with_no_profiles_says_there_is_nowhere_to_install() {
    let outcome = an_outcome(0, Vec::new(), PendingNotice::none());

    let lines = narrate_startup_outcome(outcome, &[]);

    assert_eq!(lines.len(), 1);
    assert!(lines[0].contains("no se ha encontrado ningún almacén"));
}

fn nowhere_with_profiles_that_all_refused_names_the_profiles_instead() {
    let profile = "/home/persona/.mozilla/firefox/perfil".to_owned();
    let missed = vec![(
        profile.clone(),
        TrustError::new(TrustSituation::StoreUnreachable, "el perfil está bloqueado".to_owned()),
    )];
    let outcome = an_outcome(0, missed, PendingNotice::none());

    let lines = narrate_startup_outcome(outcome, std::slice::from_ref(&profile));

    assert_eq!(lines.len(), 2);
    assert!(!lines[0].contains("no se ha encontrado ningún almacén"));
    assert!(lines[0].contains("no ha entrado en ninguno"));
    assert!(lines[1].contains("1 almacén(es) NSS"));
}

fn an_outcome_that_was_already_trusted_says_nothing() {
    let outcome = an_outcome(1, Vec::new(), PendingNotice::none());

    let lines = narrate_startup_outcome(outcome, &["/home/persona/perfil".to_owned()]);

    assert!(lines.is_empty());
}

fn installing_asks_to_restart_the_browser() {
    let outcome = an_outcome(1, Vec::new(), PendingNotice::after_installing());

    let lines = narrate_startup_outcome(outcome, &["/home/persona/perfil".to_owned()]);

    assert_eq!(lines, vec!["rfirma: se ha instalado la CA local; reinicia el navegador"]);
}

fn one_missed_profile_among_others_only_reports_the_miss() {
    let profile = "/home/persona/perfil-b".to_owned();
    let missed = vec![(
        profile.clone(),
        TrustError::new(TrustSituation::StoreUnreachable, "sin permiso de escritura".to_owned()),
    )];
    let outcome = an_outcome(1, missed, PendingNotice::after_installing());

    let lines = narrate_startup_outcome(outcome, &["/home/persona/perfil-a".to_owned(), profile]);

    assert_eq!(lines.len(), 2);
    assert!(lines[0].contains("reinicia el navegador"));
    assert!(lines[1].contains("1 almacén(es) NSS"));
}

#[test]
fn trust_nowhere_with_no_profiles_says_there_is_nowhere_to_install() {
    nowhere_with_no_profiles_says_there_is_nowhere_to_install();
}

#[test]
fn tests_nowhere_with_no_profiles_says_there_is_nowhere_to_install() {
    nowhere_with_no_profiles_says_there_is_nowhere_to_install();
}

#[test]
fn trust_nowhere_with_profiles_that_all_refused_names_the_profiles_instead() {
    nowhere_with_profiles_that_all_refused_names_the_profiles_instead();
}

#[test]
fn tests_nowhere_with_profiles_that_all_refused_names_the_profiles_instead() {
    nowhere_with_profiles_that_all_refused_names_the_profiles_instead();
}

#[test]
fn trust_an_outcome_that_was_already_trusted_says_nothing() {
    an_outcome_that_was_already_trusted_says_nothing();
}

#[test]
fn tests_an_outcome_that_was_already_trusted_says_nothing() {
    an_outcome_that_was_already_trusted_says_nothing();
}

#[test]
fn trust_installing_asks_to_restart_the_browser() {
    installing_asks_to_restart_the_browser();
}

#[test]
fn tests_installing_asks_to_restart_the_browser() {
    installing_asks_to_restart_the_browser();
}

#[test]
fn trust_one_missed_profile_among_others_only_reports_the_miss() {
    one_missed_profile_among_others_only_reports_the_miss();
}

#[test]
fn tests_one_missed_profile_among_others_only_reports_the_miss() {
    one_missed_profile_among_others_only_reports_the_miss();
}

#[test]
fn the_missed_line_names_each_store_with_its_reason() {
    let missed = vec![
        ("/a".to_owned(), TrustError::new(TrustSituation::StoreUnreachable, "uno".to_owned())),
        ("/b".to_owned(), TrustError::new(TrustSituation::TrustNotWritten, "dos".to_owned())),
    ];
    let lines = narrate_startup_outcome(an_outcome(0, missed, PendingNotice::none()), &["/a".to_owned(), "/b".to_owned()]);

    assert_eq!(lines.len(), 2);
    assert_eq!(lines[1], "rfirma: la CA local no ha entrado en 2 almacén(es) NSS: /a (uno), /b (dos)");
}

/// A double of the NSS stores: it remembers what went in, never removes
/// anything, and refuses the profiles it is told to.
#[derive(Default)]
struct Doubled {
    contents: RefCell<Vec<(String, Vec<u8>)>>,
    refuse: Vec<String>,
    installs: RefCell<usize>,
}

impl TrustStores for Doubled {
    fn install(&self, profile: &str, certificate_der: &[u8], _nickname: &str) -> Result<(), TrustError> {
        if self.refuse.iter().any(|refused| refused == profile) {
            return Err(TrustError::new(TrustSituation::StoreUnreachable, "no deja escribir".to_owned()));
        }
        *self.installs.borrow_mut() += 1;
        self.contents.borrow_mut().push((profile.to_owned(), certificate_der.to_vec()));
        Ok(())
    }

    fn trust_of(&self, profile: &str, certificate_der: &[u8]) -> Result<Option<u32>, TrustError> {
        Ok(self
            .contents
            .borrow()
            .iter()
            .any(|(where_, der)| where_ == profile && der == certificate_der)
            .then_some(TRUSTED_SSL_CA))
    }
}

#[test]
fn the_first_refresh_installs_everywhere_and_the_second_says_nothing() {
    let stores = Doubled::default();
    let profiles = ["/perfiles/firefox".to_owned(), "/perfiles/chrome".to_owned()];
    let ders = [vec![0x30, 0x01]];

    let mut first = refresh_local_ca_trust(Stage::Absent, Work::MakeOneAndInstallIt, &ders, "rFirma", &profiles, &|p: &str, d: &[u8], _: Reading| stores.trust_of(p, d), &|p: &str, d: &[u8], n: &str| stores.install(p, d, n));
    let mut second = refresh_local_ca_trust(Stage::InForce, Work::InstallTheOneWeHave, &ders, "rFirma", &profiles, &|p: &str, d: &[u8], _: Reading| stores.trust_of(p, d), &|p: &str, d: &[u8], n: &str| stores.install(p, d, n));

    assert_eq!(first.trusted, 2);
    assert!(first.missed.is_empty());
    assert!(!first.nowhere());
    assert!(first.notice.when_the_errand_ends().is_some());
    assert!(second.notice.when_the_errand_ends().is_none());
    assert_eq!(*stores.installs.borrow(), 2, "la segunda vez no se instala nada");
}

#[test]
fn nothing_is_written_in_the_middle_of_an_errand() {
    let stores = Doubled::default();
    let profiles = ["/perfiles/firefox".to_owned()];

    let outcome = refresh_local_ca_trust(Stage::InForce, Work::Nothing, &[vec![0x30]], "rFirma", &profiles, &|p: &str, d: &[u8], _: Reading| stores.trust_of(p, d), &|p: &str, d: &[u8], n: &str| stores.install(p, d, n));

    assert!(!outcome.looked());
    assert!(!outcome.nowhere(), "sin mirar no se puede decir que no este en ninguna parte");
    assert_eq!(*stores.installs.borrow(), 0);
}

#[test]
fn a_store_that_refuses_is_noted_and_the_rest_go_on() {
    let stores = Doubled { refuse: vec!["/perfiles/chrome".to_owned()], ..Doubled::default() };
    let profiles = ["/perfiles/firefox".to_owned(), "/perfiles/chrome".to_owned()];

    let outcome = refresh_local_ca_trust(Stage::Absent, Work::MakeOneAndInstallIt, &[vec![0x30]], "rFirma", &profiles, &|p: &str, d: &[u8], _: Reading| stores.trust_of(p, d), &|p: &str, d: &[u8], n: &str| stores.install(p, d, n));

    assert_eq!(outcome.trusted, 1);
    assert_eq!(outcome.missed.len(), 1);
    assert_eq!(outcome.missed[0].0, "/perfiles/chrome");
}

#[test]
fn a_store_that_takes_the_ca_without_its_trust_is_missed_as_not_written() {
    let profiles = ["/perfiles/maestra".to_owned()];
    let outcome = refresh_local_ca_trust(
        Stage::Absent,
        Work::MakeOneAndInstallIt,
        &[vec![0x30]],
        "rFirma",
        &profiles,
        &|_p: &str, _d: &[u8], _: Reading| Ok(Some(0)),
        &|_p: &str, _d: &[u8], _n: &str| Ok(()),
    );

    assert_eq!(outcome.trusted, 0);
    assert_eq!(outcome.missed.len(), 1);
    assert_eq!(outcome.missed[0].1.situation, TrustSituation::TrustNotWritten);
    assert!(outcome.missed[0].1.detail.contains("/perfiles/maestra"));
    assert!(!outcome.notice.is_pending());
}

#[test]
fn the_tally_keeps_the_order_of_the_profiles_and_notices_only_an_install() {
    let profiles = ["/a".to_owned(), "/b".to_owned(), "/c".to_owned()];
    let results = vec![
        Err(TrustError::new(TrustSituation::StoreUnreachable, "uno".to_owned())),
        Ok(false),
        Err(TrustError::new(TrustSituation::TrustNotWritten, "tres".to_owned())),
    ];
    let outcome = tally(Stage::InForce, Work::InstallTheOneWeHave, &profiles, results);
    assert_eq!(outcome.trusted, 1);
    assert_eq!(outcome.missed.len(), 2);
    assert_eq!(outcome.missed[0].0, "/a");
    assert_eq!(outcome.missed[1].0, "/c");
    assert!(!outcome.notice.is_pending());

    let installed = tally(Stage::InForce, Work::InstallTheOneWeHave, &profiles, vec![Ok(false), Ok(true), Ok(false)]);
    assert_eq!(installed.trusted, 3);
    assert!(installed.notice.is_pending());
}

#[test]
fn a_certificate_counts_as_installed_only_when_its_bits_read_back_trusted() {
    assert_eq!(settled_by("/p", Ok(Some(TRUSTED_SSL_CA)), None, None).ok(), Some(false), "ya estaba");
    assert_eq!(settled_by("/p", Ok(None), Some(Ok(())), Some(Ok(Some(TRUSTED_SSL_CA)))).ok(), Some(true));
    let unwritten = settled_by("/p", Ok(None), Some(Ok(())), Some(Ok(Some(0)))).expect_err("sin los bits");
    assert_eq!(unwritten.situation, TrustSituation::TrustNotWritten);
    let refused = settled_by(
        "/p",
        Ok(None),
        Some(Err(TrustError::new(TrustSituation::StoreUnreachable, "no".to_owned()))),
        None,
    )
    .expect_err("el almacen no deja");
    assert_eq!(refused.situation, TrustSituation::StoreUnreachable);
}

#[test]
fn a_profile_whose_store_refuses_leaves_the_other_counted_trusted() {
    let stores = Doubled { refuse: vec!["/perfiles/chrome".to_owned()], ..Doubled::default() };
    let profiles = ["/perfiles/firefox".to_owned(), "/perfiles/chrome".to_owned()];

    let outcome = refresh_local_ca_trust(
        Stage::Absent,
        Work::MakeOneAndInstallIt,
        &[vec![0x30]],
        "rFirma",
        &profiles,
        &|p: &str, d: &[u8], _: Reading| stores.trust_of(p, d),
        &|p: &str, d: &[u8], n: &str| stores.install(p, d, n),
    );

    assert_eq!(outcome.trusted, 1);
    assert_eq!(outcome.missed.len(), 1);
    assert_eq!(outcome.missed[0].0, "/perfiles/chrome");
    assert_eq!(outcome.missed[0].1.situation, TrustSituation::StoreUnreachable);
    assert_eq!(stores.trust_of("/perfiles/firefox", &[0x30]).ok(), Some(Some(TRUSTED_SSL_CA)));
}
