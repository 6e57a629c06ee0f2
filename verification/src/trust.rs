//! The local CA in the NSS stores of the person's browsers: leaving it
//! trusted everywhere it can go, and telling how that went.
use vstd::prelude::*;

use crate::text::{chars_of, decimal, decimal_of, string_of};

verus! {

/// Where the local CA is in its life.
#[derive(Clone, Copy, Debug, PartialEq, Eq, Structural)]
pub enum Stage {
    /// There is none saved yet.
    Absent,
    /// The saved one serves and is far from expiring.
    InForce,
    /// The saved one is close to expiring and the next one goes in beside it.
    Overlapping,
}

/// What a refresh does to the stores.
#[derive(Clone, Copy, Debug, PartialEq, Eq, Structural)]
pub enum Work {
    Nothing,
    InstallTheOneWeHave,
    MakeOneAndInstallIt,
    MakeTheNextAndInstallItToo,
    InstallBothOfThem,
    PromoteTheNextOne,
}

/// When the refresh happens: only at startup is anything written.
#[derive(Clone, Copy, Debug, PartialEq, Eq, Structural)]
pub enum Moment {
    Startup,
    MidErrand,
}

/// What the person is told once the errand is over.
#[derive(Clone, Copy, Debug, PartialEq, Eq, Structural)]
pub enum Notice {
    RestartTheBrowser,
}

/// A notice waiting for the errand to end; it is told once.
#[derive(Clone, Copy, Debug, PartialEq, Eq, Structural)]
pub struct PendingNotice {
    pending: Option<Notice>,
}

impl PendingNotice {
    pub closed spec fn view_pending(&self) -> Option<Notice> {
        self.pending
    }

    /// Nothing to tell.
    pub fn none() -> (n: PendingNotice)
        ensures
            n.view_pending() is None,
    {
        PendingNotice { pending: None }
    }

    /// After installing a local CA, the browser must be restarted to see it.
    pub fn after_installing() -> (n: PendingNotice)
        ensures
            n.view_pending() == Some(Notice::RestartTheBrowser),
    {
        PendingNotice { pending: Some(Notice::RestartTheBrowser) }
    }

    pub fn is_pending(&self) -> (r: bool)
        ensures
            r == self.view_pending() is Some,
    {
        self.pending.is_some()
    }

    /// The notice to tell now that the errand ended; it is told once.
    pub fn when_the_errand_ends(&mut self) -> (n: Option<Notice>)
        ensures
            n == old(self).view_pending(),
            final(self).view_pending() is None,
    {
        self.pending.take()
    }
}

/// What a store answered.
#[derive(Clone, Copy, Debug, PartialEq, Eq, Structural)]
pub enum TrustSituation {
    /// The store could not be read or written.
    StoreUnreachable,
    /// The certificate went in without its trust bits.
    TrustNotWritten,
}

/// A store that refused, with its raw detail.
#[derive(Clone, Debug, PartialEq)]
pub struct TrustError {
    pub situation: TrustSituation,
    pub detail: String,
}

impl TrustError {
    pub fn new(situation: TrustSituation, detail: String) -> (e: TrustError)
        ensures
            e.situation == situation,
            e.detail@ == detail@,
    {
        TrustError { situation, detail }
    }

    /// The same refusal.
    pub fn copied(&self) -> (e: TrustError)
        ensures
            e == *self,
    {
        TrustError { situation: self.situation, detail: self.detail.clone() }
    }
}

/// The trust bits of a CA trusted to issue server certificates.
pub const TRUSTED_SSL_CA: u32 = 0x38;

/// Whether these trust bits make a CA trusted to issue server certificates.
pub open spec fn trusted_ssl_ca(bits: u32) -> bool {
    bits & TRUSTED_SSL_CA == TRUSTED_SSL_CA
}

pub fn is_trusted_ssl_ca(bits: u32) -> (r: bool)
    ensures
        r == trusted_ssl_ca(bits),
{
    bits & TRUSTED_SSL_CA == TRUSTED_SSL_CA
}

/// The NSS stores of the person's profiles: the real ones in production, a
/// double in the tests.
pub trait TrustStores {
    /// Puts the certificate into the profile's store, trusted.
    fn install(&self, profile: &str, certificate_der: &[u8], nickname: &str) -> Result<(), TrustError>;

    /// The trust bits the certificate has in the profile's store, if it is
    /// there at all.
    fn trust_of(&self, profile: &str, certificate_der: &[u8]) -> Result<Option<u32>, TrustError>;
}

/// How the local CA was left in the stores.
#[derive(Debug)]
pub struct TrustOutcome {
    pub stage: Stage,
    pub work: Work,
    /// How many stores trust it.
    pub trusted: usize,
    /// The stores it could not be left trusted in, and why.
    pub missed: Vec<(String, TrustError)>,
    pub notice: PendingNotice,
}

impl TrustOutcome {
    /// Some store was looked at.
    pub open spec fn has_looked(&self) -> bool {
        !(self.work is Nothing)
    }

    /// Stores were looked at and none trusts the local CA.
    pub open spec fn is_nowhere(&self) -> bool {
        self.has_looked() && self.trusted == 0
    }

    pub fn nowhere(&self) -> (r: bool)
        ensures
            r == self.is_nowhere(),
    {
        self.looked() && self.trusted == 0
    }

    pub fn looked(&self) -> (r: bool)
        ensures
            r == self.has_looked(),
    {
        match self.work {
            Work::Nothing => false,
            _ => true,
        }
    }
}

/// When a store is read: before anything is installed in it, or to read the
/// bits back after installing.
#[derive(Clone, Copy, Debug, PartialEq, Eq, Structural)]
pub enum Reading {
    BeforeInstalling,
    AfterInstalling,
}

/// Whether these bits, if any, are those of a trusted CA.
pub open spec fn is_trusted_read(read: Option<u32>) -> bool {
    read matches Some(bits) && trusted_ssl_ca(bits)
}

/// Whether reading the trust of this certificate in the profile's store, at
/// this reading, may have answered so.
pub open spec fn read_as<T: Fn(&str, &[u8], Reading) -> Result<Option<u32>, TrustError>>(
    trust_of: T,
    profile: Seq<char>,
    der: Seq<u8>,
    when: Reading,
    answered: Result<Option<u32>, TrustError>,
) -> bool {
    exists|p: &str, d: &[u8]| p@ == profile && d@ == der && #[trigger] trust_of.ensures((p, d, when), answered)
}

/// Whether installing it under this nickname may have gone so.
pub open spec fn installed_as<I: Fn(&str, &[u8], &str) -> Result<(), TrustError>>(
    install: I,
    profile: Seq<char>,
    der: Seq<u8>,
    nickname: Seq<char>,
    went: Result<(), TrustError>,
) -> bool {
    exists|p: &str, d: &[u8], n: &str|
        p@ == profile && d@ == der && n@ == nickname && #[trigger] install.ensures((p, d, n), went)
}

/// What is told of a store that took the certificate without its trust.
pub open spec fn not_written_detail(profile: Seq<char>) -> Seq<char> {
    "la CA local ha entrado en «"@ + profile + "» pero sin los bits de confianza (¿contraseña maestra en el perfil?)"@
}

/// What settling one certificate in a profile comes to from what was
/// observed: the first reading, the install when there was one, and the
/// reading back when there was one. `Ok(false)` when it was already trusted,
/// `Ok(true)` when it was installed and reads back trusted, the store's
/// refusal as it came, and `TrustNotWritten` when it reads back untrusted.
pub open spec fn verdict(
    profile: Seq<char>,
    first: Result<Option<u32>, TrustError>,
    went: Option<Result<(), TrustError>>,
    again: Option<Result<Option<u32>, TrustError>>,
    r: Result<bool, TrustError>,
) -> bool {
    match first {
        Err(e) => r == Err::<bool, TrustError>(e),
        Ok(read) => if is_trusted_read(read) {
            r == Ok::<bool, TrustError>(false)
        } else {
            match went {
                Some(Err(e)) => r == Err::<bool, TrustError>(e),
                Some(Ok(_)) => match again {
                    Some(Err(e)) => r == Err::<bool, TrustError>(e),
                    Some(Ok(read_back)) => if is_trusted_read(read_back) {
                        r == Ok::<bool, TrustError>(true)
                    } else {
                        r matches Err(e) && e.situation == TrustSituation::TrustNotWritten && e.detail@
                            == not_written_detail(profile)
                    },
                    None => false,
                },
                None => false,
            }
        },
    }
}

/// Whether what was observed of one certificate is complete: the install
/// when the first reading did not find it trusted, and the reading back
/// when the install went through.
pub open spec fn observed_in_full(
    first: Result<Option<u32>, TrustError>,
    went: Option<Result<(), TrustError>>,
    again: Option<Result<Option<u32>, TrustError>>,
) -> bool {
    match first {
        Ok(read) => !is_trusted_read(read) ==> went is Some && (went matches Some(Ok(_)) ==> again is Some),
        Err(_) => true,
    }
}

/// Settles one certificate from what was observed of its store, exactly
/// as `verdict` says.
pub fn settled_by(
    profile: &str,
    first: Result<Option<u32>, TrustError>,
    went: Option<Result<(), TrustError>>,
    again: Option<Result<Option<u32>, TrustError>>,
) -> (r: Result<bool, TrustError>)
    requires
        observed_in_full(first, went, again),
    ensures
        verdict(profile@, first, went, again, r),
{
    let read = match first {
        Err(e) => {
            return Err(e);
        },
        Ok(read) => read,
    };
    if let Some(bits) = read {
        if is_trusted_ssl_ca(bits) {
            return Ok(false);
        }
    }
    match went {
        Some(Err(e)) => {
            return Err(e);
        },
        _ => {},
    }
    let read_back = match again {
        Some(Err(e)) => {
            return Err(e);
        },
        Some(Ok(read_back)) => read_back,
        None => {
            return Ok(false);
        },
    };
    let written = match read_back {
        Some(bits) => is_trusted_ssl_ca(bits),
        None => false,
    };
    if !written {
        let mut detail = chars_of("la CA local ha entrado en «");
        let mut name = chars_of(profile);
        let mut tail = chars_of("» pero sin los bits de confianza (¿contraseña maestra en el perfil?)");
        detail.append(&mut name);
        detail.append(&mut tail);
        assert(detail@ == not_written_detail(profile@));
        return Err(TrustError::new(TrustSituation::TrustNotWritten, string_of(&detail)));
    }
    Ok(true)
}

/// Whether settling one certificate in a profile may have come to this:
/// what the store answered at each step, and the verdict on it.
pub open spec fn settled_one<T, I>(
    trust_of: T,
    install: I,
    profile: Seq<char>,
    nickname: Seq<char>,
    der: Seq<u8>,
    r: Result<bool, TrustError>,
) -> bool where
    T: Fn(&str, &[u8], Reading) -> Result<Option<u32>, TrustError>,
    I: Fn(&str, &[u8], &str) -> Result<(), TrustError>,
 {
    exists|
        first: Result<Option<u32>, TrustError>,
        went: Option<Result<(), TrustError>>,
        again: Option<Result<Option<u32>, TrustError>>,
    |
        #[trigger] verdict(profile, first, went, again, r) && read_as(
            trust_of,
            profile,
            der,
            Reading::BeforeInstalling,
            first,
        ) && (went matches Some(w) ==> installed_as(install, profile, der, nickname, w)) && (again matches Some(
            a,
        ) ==> read_as(trust_of, profile, der, Reading::AfterInstalling, a))
}

/// Whether a certificate ends trusted in a profile: already, or once
/// installed and read back.
pub open spec fn ends_trusted<T, I>(trust_of: T, install: I, profile: Seq<char>, nickname: Seq<char>, der: Seq<u8>) -> bool where
    T: Fn(&str, &[u8], Reading) -> Result<Option<u32>, TrustError>,
    I: Fn(&str, &[u8], &str) -> Result<(), TrustError>,
 {
    settled_one(trust_of, install, profile, nickname, der, Ok(false)) || settled_one(
        trust_of,
        install,
        profile,
        nickname,
        der,
        Ok(true),
    )
}

/// Whether settling every certificate in a profile may have ended so:
/// `Ok(installed_any)` with each of them ending trusted, one of them
/// installed now exactly when `installed_any`; `Err` with the refusal of one.
pub open spec fn settled_profile<T, I>(
    trust_of: T,
    install: I,
    profile: Seq<char>,
    nickname: Seq<char>,
    ders: Seq<Vec<u8>>,
    r: Result<bool, TrustError>,
) -> bool where
    T: Fn(&str, &[u8], Reading) -> Result<Option<u32>, TrustError>,
    I: Fn(&str, &[u8], &str) -> Result<(), TrustError>,
 {
    match r {
        Ok(false) => forall|j: int|
            0 <= j < ders.len() ==> #[trigger] settled_one(trust_of, install, profile, nickname, ders[j]@, Ok(false)),
        Ok(true) => (forall|j: int|
            0 <= j < ders.len() ==> #[trigger] ends_trusted(trust_of, install, profile, nickname, ders[j]@))
            && exists|j: int|
            0 <= j < ders.len() && #[trigger] settled_one(trust_of, install, profile, nickname, ders[j]@, Ok(true)),
        Err(e) => exists|j: int|
            0 <= j < ders.len() && #[trigger] settled_one(trust_of, install, profile, nickname, ders[j]@, Err(e)),
    }
}

/// Leaves one certificate trusted in a store and reads the bits back: the
/// success of the write is not the signal. Whether it had to be installed.
fn settle_one<T, I>(trust_of: &T, install: &I, profile: &str, der: &[u8], nickname: &str) -> (r: Result<
    bool,
    TrustError,
>) where
    T: Fn(&str, &[u8], Reading) -> Result<Option<u32>, TrustError>,
    I: Fn(&str, &[u8], &str) -> Result<(), TrustError>,

    requires
        forall|p: &str, d: &[u8], w: Reading| trust_of.requires((p, d, w)),
        forall|p: &str, d: &[u8], n: &str| install.requires((p, d, n)),
    ensures
        settled_one(*trust_of, *install, profile@, nickname@, der@, r),
{
    let first = trust_of(profile, der, Reading::BeforeInstalling);
    assert(trust_of.ensures((profile, der, Reading::BeforeInstalling), first));
    let ghost first_view = first;
    let needs_install = match &first {
        Ok(read) => match read {
            Some(bits) => !is_trusted_ssl_ca(*bits),
            None => true,
        },
        Err(_) => false,
    };
    assert(needs_install == (first_view matches Ok(read) && !is_trusted_read(read)));
    if !needs_install {
        let r = settled_by(profile, first, None, None);
        assert(verdict(profile@, first_view, None, None, r));
        return r;
    }
    let went = install(profile, der, nickname);
    assert(install.ensures((profile, der, nickname), went));
    let ghost went_view = went;
    if went.is_err() {
        let r = settled_by(profile, first, Some(went), None);
        assert(verdict(profile@, first_view, Some(went_view), None, r));
        return r;
    }
    let again = trust_of(profile, der, Reading::AfterInstalling);
    assert(trust_of.ensures((profile, der, Reading::AfterInstalling), again));
    let ghost again_view = again;
    let r = settled_by(profile, first, Some(went), Some(again));
    assert(verdict(profile@, first_view, Some(went_view), Some(again_view), r));
    r
}

/// Leaves every certificate trusted in one store: whether one had to go in.
fn settle<T, I>(trust_of: &T, install: &I, profile: &str, ders: &[Vec<u8>], nickname: &str) -> (r: Result<
    bool,
    TrustError,
>) where
    T: Fn(&str, &[u8], Reading) -> Result<Option<u32>, TrustError>,
    I: Fn(&str, &[u8], &str) -> Result<(), TrustError>,

    requires
        forall|p: &str, d: &[u8], w: Reading| trust_of.requires((p, d, w)),
        forall|p: &str, d: &[u8], n: &str| install.requires((p, d, n)),
    ensures
        settled_profile(*trust_of, *install, profile@, nickname@, ders@, r),
{
    let mut installed_any = false;
    let mut k: usize = 0;
    while k < ders.len()
        invariant
            0 <= k <= ders@.len(),
            forall|p: &str, d: &[u8], w: Reading| trust_of.requires((p, d, w)),
            forall|p: &str, d: &[u8], n: &str| install.requires((p, d, n)),
            forall|j: int| 0 <= j < k ==> #[trigger] ends_trusted(*trust_of, *install, profile@, nickname@, ders@[j]@),
            installed_any ==> exists|j: int|
                0 <= j < k && #[trigger] settled_one(*trust_of, *install, profile@, nickname@, ders@[j]@, Ok(true)),
            !installed_any ==> forall|j: int|
                0 <= j < k ==> #[trigger] settled_one(*trust_of, *install, profile@, nickname@, ders@[j]@, Ok(false)),
        decreases ders.len() - k,
    {
        let one = settle_one(trust_of, install, profile, ders[k].as_slice(), nickname);
        assert(ders[k as int]@ == ders@[k as int]@);
        match one {
            Err(e) => {
                assert(settled_one(*trust_of, *install, profile@, nickname@, ders@[k as int]@, Err(e)));
                return Err(e);
            },
            Ok(true) => {
                assert(settled_one(*trust_of, *install, profile@, nickname@, ders@[k as int]@, Ok(true)));
                assert(ends_trusted(*trust_of, *install, profile@, nickname@, ders@[k as int]@));
                installed_any = true;
            },
            Ok(false) => {
                assert(settled_one(*trust_of, *install, profile@, nickname@, ders@[k as int]@, Ok(false)));
                assert(ends_trusted(*trust_of, *install, profile@, nickname@, ders@[k as int]@));
            },
        }
        k = k + 1;
    }
    Ok(installed_any)
}

/// How many of the profiles ended trusted.
pub open spec fn trusted_count(results: Seq<Result<bool, TrustError>>) -> nat
    decreases results.len(),
{
    if results.len() == 0 {
        0
    } else {
        trusted_count(results.drop_last()) + if results.last() is Ok {
            1nat
        } else {
            0nat
        }
    }
}

/// The profiles that refused, each with its refusal, in the profiles' order.
pub open spec fn missed_of(profiles: Seq<Seq<char>>, results: Seq<Result<bool, TrustError>>) -> Seq<
    (Seq<char>, TrustError),
>
    decreases results.len(),
{
    if results.len() == 0 || profiles.len() != results.len() {
        Seq::empty()
    } else {
        let before = missed_of(profiles.drop_last(), results.drop_last());
        match results.last() {
            Err(e) => before.push((profiles.last(), e)),
            Ok(_) => before,
        }
    }
}

/// Whether some profile got a certificate installed now.
pub open spec fn any_installed(results: Seq<Result<bool, TrustError>>) -> bool {
    exists|i: int| 0 <= i < results.len() && #[trigger] results[i] == Ok::<bool, TrustError>(true)
}

/// The missed stores as plain values.
pub open spec fn missed_view(missed: Seq<(String, TrustError)>) -> Seq<(Seq<char>, TrustError)> {
    missed.map_values(|m: (String, TrustError)| (m.0@, m.1))
}

/// The profiles as plain values.
pub open spec fn profiles_view(profiles: Seq<String>) -> Seq<Seq<char>> {
    profiles.map_values(|p: String| p@)
}

/// Every store noted as missed is one of the profiles.
pub open spec fn missed_among(missed: Seq<(String, TrustError)>, profiles: Seq<String>) -> bool {
    forall|k: int| 0 <= k < missed.len() ==> exists|j: int|
        0 <= j < profiles.len() && (#[trigger] missed[k]).0@ == profiles[j]@
}

proof fn lemma_missed_among(profiles: Seq<String>, results: Seq<Result<bool, TrustError>>)
    requires
        profiles.len() == results.len(),
    ensures
        forall|k: int| 0 <= k < missed_of(profiles_view(profiles), results).len() ==> exists|j: int|
            0 <= j < profiles.len() && (#[trigger] missed_of(profiles_view(profiles), results)[k]).0 == profiles[j]@,
        missed_of(profiles_view(profiles), results).len() + trusted_count(results) == results.len(),
    decreases results.len(),
{
    if results.len() > 0 {
        let shorter = profiles.drop_last();
        assert(profiles_view(shorter) =~= profiles_view(profiles).drop_last());
        lemma_missed_among(shorter, results.drop_last());
        let before = missed_of(profiles_view(shorter), results.drop_last());
        assert forall|k: int| 0 <= k < missed_of(profiles_view(profiles), results).len() implies exists|j: int|
            0 <= j < profiles.len() && (#[trigger] missed_of(profiles_view(profiles), results)[k]).0
                == profiles[j]@ by {
            if k < before.len() {
                let j = choose|j: int| 0 <= j < shorter.len() && before[k].0 == shorter[j]@;
                assert(profiles[j] == shorter[j]);
            } else {
                assert(profiles_view(profiles).last() == profiles[profiles.len() - 1]@);
            }
        }
    }
}

/// How the local CA was left, from what each profile's store gave: the
/// profiles that refused noted in order with their refusal, the rest counted
/// trusted, and the restart notice pending exactly when one got a certificate
/// installed now.
pub fn tally(stage: Stage, work: Work, profiles: &[String], results: Vec<Result<bool, TrustError>>) -> (outcome:
    TrustOutcome)
    requires
        results@.len() == profiles@.len(),
    ensures
        outcome.stage == stage,
        outcome.work == work,
        outcome.trusted == trusted_count(results@),
        missed_view(outcome.missed@) == missed_of(profiles_view(profiles@), results@),
        outcome.notice.view_pending() is Some <==> any_installed(results@),
        outcome.notice.view_pending() is Some ==> outcome.notice.view_pending() == Some(Notice::RestartTheBrowser),
{
    let mut trusted: usize = 0;
    let mut installed_any = false;
    let mut missed: Vec<(String, TrustError)> = Vec::new();
    let mut k: usize = 0;
    let ghost all = results@;
    let mut rest = results;
    proof {
        assert(profiles_view(profiles@).take(0) =~= Seq::<Seq<char>>::empty());
        assert(all.take(0) =~= Seq::<Result<bool, TrustError>>::empty());
    }
    while k < profiles.len()
        invariant
            0 <= k <= profiles@.len(),
            all.len() == profiles@.len(),
            rest@ == all,
            trusted == trusted_count(all.take(k as int)),
            trusted <= k,
            missed_view(missed@) == missed_of(profiles_view(profiles@).take(k as int), all.take(k as int)),
            installed_any <==> any_installed(all.take(k as int)),
        decreases profiles.len() - k,
    {
        let ghost next = all.take(k + 1);
        let ghost names = profiles_view(profiles@).take(k + 1);
        proof {
            assert(next.drop_last() =~= all.take(k as int));
            assert(names.drop_last() =~= profiles_view(profiles@).take(k as int));
            assert(next.last() == all[k as int]);
            assert(names.last() == profiles@[k as int]@);
        }
        let ghost before = missed@;
        match &rest[k] {
            Ok(now) => {
                trusted = trusted + 1;
                if *now {
                    installed_any = true;
                    assert(next[k as int] == Ok::<bool, TrustError>(true));
                }
            },
            Err(error) => {
                missed.push((profiles[k].clone(), error.copied()));
                proof {
                    assert(missed_view(missed@) =~= missed_view(before).push((profiles@[k as int]@, all[k as int]->Err_0)));
                }
            },
        }
        proof {
            if installed_any && !any_installed(all.take(k as int)) {
                assert(next[k as int] == Ok::<bool, TrustError>(true));
            }
            if any_installed(next) {
                let i = choose|i: int| 0 <= i < next.len() && #[trigger] next[i] == Ok::<bool, TrustError>(true);
                if i < k {
                    assert(all.take(k as int)[i] == next[i]);
                }
            }
            if any_installed(all.take(k as int)) {
                let i = choose|i: int| 0 <= i < k && #[trigger] all.take(k as int)[i] == Ok::<bool, TrustError>(true);
                assert(next[i] == all.take(k as int)[i]);
            }
        }
        k = k + 1;
    }
    proof {
        assert(all.take(k as int) =~= all);
        assert(profiles_view(profiles@).take(k as int) =~= profiles_view(profiles@));
    }
    let notice = if installed_any {
        PendingNotice::after_installing()
    } else {
        PendingNotice::none()
    };
    TrustOutcome { stage, work, trusted, missed, notice }
}

/// Leaves the local CAs the work calls for trusted in every profile, and
/// tells how that went; a store that refuses is noted and the rest go on.
/// With nothing to do no store is touched. Each profile's store is read
/// through `trust_of` and written through `install`, under `nickname`.
pub fn refresh_local_ca_trust<T, I>(
    stage: Stage,
    work: Work,
    ders: &[Vec<u8>],
    nickname: &str,
    profiles: &[String],
    trust_of: &T,
    install: &I,
) -> (outcome: TrustOutcome) where
    T: Fn(&str, &[u8], Reading) -> Result<Option<u32>, TrustError>,
    I: Fn(&str, &[u8], &str) -> Result<(), TrustError>,

    requires
        forall|p: &str, d: &[u8], w: Reading| trust_of.requires((p, d, w)),
        forall|p: &str, d: &[u8], n: &str| install.requires((p, d, n)),
    ensures
        outcome.stage == stage,
        outcome.work == work,
        work is Nothing ==> outcome.trusted == 0 && outcome.missed@.len() == 0
            && outcome.notice.view_pending() is None,
        !(work is Nothing) ==> outcome.trusted + outcome.missed@.len() == profiles@.len(),
        missed_among(outcome.missed@, profiles@),
        outcome.notice.view_pending() is Some ==> outcome.trusted > 0,
        !(work is Nothing) ==> exists|results: Seq<Result<bool, TrustError>>|
            {
                &&& results.len() == profiles@.len()
                &&& forall|i: int|
                    0 <= i < results.len() ==> #[trigger] settled_profile(
                        *trust_of,
                        *install,
                        profiles@[i]@,
                        nickname@,
                        ders@,
                        results[i],
                    )
                &&& outcome.trusted == trusted_count(results)
                &&& missed_view(outcome.missed@) == missed_of(profiles_view(profiles@), results)
                &&& outcome.notice.view_pending() is Some <==> any_installed(results)
            },
{
    if let Work::Nothing = work {
        let nothing: Vec<(String, TrustError)> = Vec::new();
        let outcome = TrustOutcome { stage, work, trusted: 0, missed: nothing, notice: PendingNotice::none() };
        assert(outcome.missed@.len() == 0);
        return outcome;
    }
    let mut results: Vec<Result<bool, TrustError>> = Vec::new();
    let mut k: usize = 0;
    while k < profiles.len()
        invariant
            0 <= k <= profiles@.len(),
            results@.len() == k,
            forall|p: &str, d: &[u8], w: Reading| trust_of.requires((p, d, w)),
            forall|p: &str, d: &[u8], n: &str| install.requires((p, d, n)),
            forall|i: int|
                0 <= i < k ==> #[trigger] settled_profile(
                    *trust_of,
                    *install,
                    profiles@[i]@,
                    nickname@,
                    ders@,
                    results@[i],
                ),
        decreases profiles.len() - k,
    {
        let profile = profiles[k].as_str();
        let settled = settle(trust_of, install, profile, ders, nickname);
        results.push(settled);
        k = k + 1;
    }
    let ghost seen = results@;
    let outcome = tally(stage, work, profiles, results);
    proof {
        lemma_missed_among(profiles@, seen);
        let names = profiles_view(profiles@);
        assert forall|m: int| 0 <= m < outcome.missed@.len() implies exists|j: int|
            0 <= j < profiles@.len() && (#[trigger] outcome.missed@[m]).0@ == profiles@[j]@ by {
            assert(missed_view(outcome.missed@)[m] == (outcome.missed@[m].0@, outcome.missed@[m].1));
        }
        if outcome.notice.view_pending() is Some {
            let i = choose|i: int| 0 <= i < seen.len() && #[trigger] seen[i] == Ok::<bool, TrustError>(true);
            lemma_some_trusted(seen, i);
        }
    }
    outcome
}

proof fn lemma_some_trusted(results: Seq<Result<bool, TrustError>>, i: int)
    requires
        0 <= i < results.len(),
        results[i] is Ok,
    ensures
        trusted_count(results) > 0,
    decreases results.len(),
{
    if i < results.len() - 1 {
        lemma_some_trusted(results.drop_last(), i);
    }
}

/// The line said when no NSS store was found at all.
pub open spec fn no_store_line() -> Seq<char> {
    "rfirma: no se ha encontrado ningún almacén NSS; ninguna sede va a poder abrir el canal local"@
}

/// The line said when the stores found all refused the local CA.
pub open spec fn in_none_line() -> Seq<char> {
    "rfirma: la CA local no ha entrado en ninguno de los almacenes NSS encontrados; ninguna sede va a poder abrir el canal local"@
}

/// The line said after installing the local CA.
pub open spec fn restart_line() -> Seq<char> {
    "rfirma: se ha instalado la CA local; reinicia el navegador"@
}

/// Each missed store with its reason, separated by `, `.
pub open spec fn missed_detail(missed: Seq<(String, TrustError)>) -> Seq<char>
    decreases missed.len(),
{
    if missed.len() == 0 {
        Seq::empty()
    } else if missed.len() == 1 {
        missed[0].0@ + " ("@ + missed[0].1.detail@ + ")"@
    } else {
        missed_detail(missed.drop_last()) + ", "@ + missed.last().0@ + " ("@ + missed.last().1.detail@ + ")"@
    }
}

/// The line that counts the stores the local CA missed.
pub open spec fn missed_line(missed: Seq<(String, TrustError)>) -> Seq<char> {
    "rfirma: la CA local no ha entrado en "@ + decimal(missed.len()) + " almacén(es) NSS: "@ + missed_detail(missed)
}

/// What is said of a refresh at startup, in order: nowhere to go, the
/// restart the installation calls for, and the stores it missed.
pub open spec fn narration(outcome: TrustOutcome, profiles: nat) -> Seq<Seq<char>> {
    let first = if outcome.is_nowhere() {
        seq![if profiles == 0 { no_store_line() } else { in_none_line() }]
    } else {
        Seq::empty()
    };
    let second = if outcome.notice.view_pending() is Some {
        first.push(restart_line())
    } else {
        first
    };
    if outcome.missed@.len() > 0 {
        second.push(missed_line(outcome.missed@))
    } else {
        second
    }
}

fn missed_text(missed: &Vec<(String, TrustError)>) -> (r: Vec<char>)
    ensures
        r@ == missed_detail(missed@),
{
    let mut r: Vec<char> = Vec::new();
    let mut k: usize = 0;
    while k < missed.len()
        invariant
            0 <= k <= missed.len(),
            r@ == missed_detail(missed@.take(k as int)),
        decreases missed.len() - k,
    {
        assert(missed@.take(k + 1).drop_last() =~= missed@.take(k as int));
        if k > 0 {
            let mut separator = chars_of(", ");
            r.append(&mut separator);
        } else {
            assert(r@ =~= Seq::<char>::empty());
        }
        let mut profile = chars_of(missed[k].0.as_str());
        let mut open = chars_of(" (");
        let mut detail = chars_of(missed[k].1.detail.as_str());
        let mut close = chars_of(")");
        r.append(&mut profile);
        r.append(&mut open);
        r.append(&mut detail);
        r.append(&mut close);
        k = k + 1;
    }
    assert(missed@.take(k as int) =~= missed@);
    r
}

/// The lines a refresh at startup leaves in the log.
pub fn narrate_startup_outcome(outcome: TrustOutcome, profiles: &[String]) -> (lines: Vec<String>)
    ensures
        lines@.map_values(|l: String| l@) == narration(outcome, profiles@.len()),
{
    let ghost given = outcome;
    let mut outcome = outcome;
    let mut lines: Vec<String> = Vec::new();
    if outcome.nowhere() {
        if profiles.len() == 0 {
            lines.push(string_of(&chars_of("rfirma: no se ha encontrado ningún almacén NSS; ninguna sede va a poder abrir el canal local")));
        } else {
            lines.push(string_of(&chars_of("rfirma: la CA local no ha entrado en ninguno de los almacenes NSS encontrados; ninguna sede va a poder abrir el canal local")));
        }
    }
    let ghost after_first = lines@.map_values(|l: String| l@);
    match outcome.notice.when_the_errand_ends() {
        Some(Notice::RestartTheBrowser) => {
            lines.push(string_of(&chars_of("rfirma: se ha instalado la CA local; reinicia el navegador")));
            assert(lines@.map_values(|l: String| l@) =~= after_first.push(restart_line()));
        },
        None => {},
    }
    let ghost after_second = lines@.map_values(|l: String| l@);
    if outcome.missed.len() > 0 {
        let mut line = chars_of("rfirma: la CA local no ha entrado en ");
        let mut count = decimal_of(outcome.missed.len());
        let mut middle = chars_of(" almacén(es) NSS: ");
        let mut detail = missed_text(&outcome.missed);
        line.append(&mut count);
        line.append(&mut middle);
        line.append(&mut detail);
        lines.push(string_of(&line));
        assert(lines@.map_values(|l: String| l@) =~= after_second.push(missed_line(given.missed@)));
    }
    assert(lines@.map_values(|l: String| l@) =~= narration(given, profiles@.len()));
    lines
}

} // verus!
