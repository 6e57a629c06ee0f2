//! The errand of an electronic office: what is live, what the person is
//! asked, and how every errand ends with exactly one answer to the site.
use vstd::prelude::*;

use crate::catalogue::{SafCode, WireAnswer};
use crate::certificates::{copy_rows, remembered_in, row_of, rows_of, rows_view, CertificateView, RowView};
use crate::codec::{encoded, Refusal, SiteOutcome, V4Codec};
use crate::filtering::{bridge_failure, kept_as, kept_of, kept_through, lemma_kept_is_no_longer, selected, usable_as, usable_through, SiteFilter};
use crate::situations::BridgeError;
use crate::frontier::{code_of_token, token_code};
use crate::memory::Memory;
use crate::signing::{SiteRefusal, SiteSignature};
use crate::situations::{Failure, TokenError};
use crate::text::{chars_of, string_of, trim, trimmed, upper, upper_char};
use crate::documents::{OpenedDocuments, PortalDocument, Remembrance};
use crate::frontier::{bridge_code, code_of_bridge, code_of_inadmissible, inadmissible_code};
use crate::policies::{copy_pairs, expanded_as, expanded_through, map_of, pairs_as, remove_key, PolicyEngine};
use crate::situations::Inadmissible;
use crate::token::{ListedCertificates, TokenCertificate};

verus! {

/// Whether a signature is the first one on the document or one more.
#[derive(Clone, Copy, Debug, PartialEq, Eq, Structural)]
pub enum SignatureRound {
    Sign,
    Cosign,
}

/// Why there is no certificate to offer.
#[derive(Clone, Copy, Debug, PartialEq, Eq, Structural)]
pub enum NoCertificate {
    /// This machine has none.
    NotOne,
    /// It has some, and the site excluded them all.
    TheSiteExcludedThemAll,
}

/// Why no channel towards the site could be opened.
#[derive(Clone, Copy, Debug, PartialEq, Eq, Structural)]
pub enum NoChannel {
    ChannelNotOpened,
    LocalCaMissing,
}

/// What the window of a site's errand shows at this moment.
#[derive(Debug, PartialEq)]
pub enum Moment {
    Waiting,
    AskingForConsent { certificates: Vec<CertificateView> },
    AskingToSign {
        document: String,
        round: SignatureRound,
        certificates: Vec<CertificateView>,
        unregistered_signatures: bool,
    },
    NoCertificate { reason: NoCertificate, owned: usize },
    NoChannel(NoChannel),
    RefusedWithoutChannel(Refusal),
}

/// What the person is asked before signing for a site.
#[derive(Debug)]
pub struct SigningConsent {
    pub document: String,
    pub round: SignatureRound,
    pub certificates: Vec<CertificateView>,
    pub from_the_site: Vec<(String, String)>,
    pub visible: SiteVisibleSignature,
    pub filter: SiteFilter,
    pub unregistered_signatures: bool,
}

/// The box a site asked for, already decided before the consent.
#[derive(Clone, Copy, Debug, PartialEq, Eq, Structural)]
pub enum SiteVisibleSignature {
    /// The site asked for no box.
    NotAsked,
    /// The site placed the box in its own parameters.
    PlacedByTheSite,
    /// The box was optional and the site never placed it: the signature goes
    /// invisible.
    Declined,
}

/// A site asks for an identity: a certificate that passes this filter.
#[derive(Clone, Debug)]
pub struct SelectCertificate {
    pub filter: SiteFilter,
}

/// A site asks for the signature of these bytes in PAdES.
#[derive(Clone, Debug)]
pub struct SignRequest {
    pub document: Vec<u8>,
    pub round: SignatureRound,
    pub filter: SiteFilter,
    /// The parameters the site declared, not expanded yet.
    pub declared: Vec<(String, String)>,
}

/// What a site asks for, once read.
#[derive(Clone, Debug)]
pub enum SiteRequest {
    SelectCertificate(SelectCertificate),
    Sign(SignRequest),
    /// An operation that is not attended, with the refusal it is answered.
    NotAttended(Refusal),
}

/// Where an errand stands after attending an operation.
#[derive(Debug)]
pub enum ErrandStep {
    AskingForConsent { certificates: Vec<CertificateView>, filter: SiteFilter },
    AskingToSign(SigningConsent),
    NoCertificate { reason: NoCertificate, owned: usize, answered: Option<SiteOutcome> },
    Answering(SiteOutcome),
}

impl ErrandStep {
    /// What the window shows of this step; nothing once it is answered.
    pub fn moment(&self) -> (m: Option<Moment>)
        ensures
            match *self {
                ErrandStep::AskingForConsent { certificates, .. } => m matches Some(
                    Moment::AskingForConsent { certificates: shown },
                ) && rows_view(shown@) == rows_view(certificates@),
                ErrandStep::AskingToSign(consent) => m matches Some(
                    Moment::AskingToSign { document, round, certificates, unregistered_signatures },
                ) && document@ == consent.document@ && round == consent.round && rows_view(
                    certificates@,
                ) == rows_view(consent.certificates@) && unregistered_signatures
                    == consent.unregistered_signatures,
                ErrandStep::NoCertificate { reason, owned, .. } => m == Some(
                    Moment::NoCertificate { reason, owned },
                ),
                ErrandStep::Answering(_) => m is None,
            },
    {
        match self {
            ErrandStep::AskingForConsent { certificates, .. } => Some(
                Moment::AskingForConsent { certificates: copy_rows(certificates) },
            ),
            ErrandStep::AskingToSign(consent) => Some(
                Moment::AskingToSign {
                    document: consent.document.clone(),
                    round: consent.round,
                    certificates: copy_rows(&consent.certificates),
                    unregistered_signatures: consent.unregistered_signatures,
                },
            ),
            ErrandStep::NoCertificate { reason, owned, .. } => Some(
                Moment::NoCertificate { reason: *reason, owned: *owned },
            ),
            ErrandStep::Answering(_) => None,
        }
    }
}

/// The errand a site opened: its credential, the port its channel took and
/// the codec it speaks.
#[derive(Clone, Debug)]
pub struct Errand {
    credential: String,
    port: u16,
    codec: V4Codec,
}

impl Errand {
    pub closed spec fn credential_view(&self) -> Seq<char> {
        self.credential@
    }

    pub closed spec fn port_view(&self) -> u16 {
        self.port
    }

    pub fn of(credential: &str, port: u16, codec: V4Codec) -> (e: Errand)
        ensures
            e.credential_view() == credential@,
            e.port_view() == port,
    {
        Errand { credential: credential.to_owned(), port, codec }
    }

    /// A copy of this errand.
    pub fn clone_errand(&self) -> (e: Errand)
        ensures
            e == *self,
    {
        Errand { credential: self.credential.clone(), port: self.port, codec: self.codec }
    }

    pub fn credential(&self) -> (c: &str)
        ensures
            c@ == self.credential_view(),
    {
        self.credential.as_str()
    }

    pub fn port(&self) -> (p: u16)
        ensures
            p == self.port_view(),
    {
        self.port
    }
}

/// A signature the person consented to, kept to be enforced when it begins.
#[derive(Clone, Debug)]
pub struct PendingSignature {
    pub document: String,
    pub filter: SiteFilter,
    pub from_the_site: Vec<(String, String)>,
    pub unregistered_signatures: bool,
}

/// What the person consented to, still to be carried out.
#[derive(Debug)]
pub enum PendingConsent {
    Identity(SiteFilter),
    Signature(PendingSignature),
}

/// The site's errand that is live, if any, and everything that goes with
/// it. The lines to write to the site and the documents to remove are left
/// for whoever holds the channel and the disk.
pub struct LiveErrand {
    errand: Option<Errand>,
    codec: Option<V4Codec>,
    scratch: Option<String>,
    replying: bool,
    asked: Option<String>,
    consent: Option<PendingConsent>,
    moment: Option<Moment>,
    outbox: Vec<String>,
    leftovers: Vec<String>,
}

impl LiveErrand {
    pub closed spec fn is_live(&self) -> bool {
        self.errand is Some
    }

    pub closed spec fn current_view(&self) -> Option<(Seq<char>, u16)> {
        match self.errand {
            Some(e) => Some((e.credential@, e.port)),
            None => None,
        }
    }

    pub closed spec fn speaks(&self) -> bool {
        self.codec is Some
    }

    /// An errand is live exactly when there is a current one.
    pub proof fn live_means_current(&self)
        ensures
            self.is_live() <==> self.current_view() is Some,
    {
    }

    /// The signature consented, while it is pending.
    pub closed spec fn signature_pending(&self) -> Option<PendingSignature> {
        match self.consent {
            Some(PendingConsent::Signature(pending)) => Some(pending),
            _ => None,
        }
    }

    pub closed spec fn replying(&self) -> bool {
        self.replying
    }

    pub closed spec fn lines(&self) -> Seq<Seq<char>> {
        self.outbox@.map_values(|l: String| l@)
    }

    pub closed spec fn leftover_files(&self) -> Seq<Seq<char>> {
        self.leftovers@.map_values(|l: String| l@)
    }

    pub closed spec fn scratch_view(&self) -> Option<Seq<char>> {
        match self.scratch {
            Some(s) => Some(s@),
            None => None,
        }
    }

    pub closed spec fn request_view(&self) -> Option<Seq<char>> {
        match self.asked {
            Some(s) => Some(s@),
            None => None,
        }
    }

    pub closed spec fn asks_identity(&self) -> bool {
        self.consent matches Some(PendingConsent::Identity(_))
    }

    pub closed spec fn asks_signature(&self) -> bool {
        self.consent matches Some(PendingConsent::Signature(_))
    }

    /// The filter of the identity the site asked for, while it is pending.
    pub closed spec fn identity_filter(&self) -> Option<SiteFilter> {
        match self.consent {
            Some(PendingConsent::Identity(filter)) => Some(filter),
            _ => None,
        }
    }

    pub closed spec fn moment_view(&self) -> Option<Moment> {
        self.moment
    }

    /// Nothing live, nothing asked, nothing to write.
    pub fn new() -> (l: LiveErrand)
        ensures
            !l.is_live(),
            !l.speaks(),
            !l.replying(),
            l.lines().len() == 0,
            l.leftover_files().len() == 0,
            l.scratch_view() is None,
            l.request_view() is None,
            !l.asks_identity(),
            !l.asks_signature(),
            l.moment_view() is None,
    {
        let l = LiveErrand {
            errand: None,
            codec: None,
            scratch: None,
            replying: false,
            asked: None,
            consent: None,
            moment: None,
            outbox: Vec::new(),
            leftovers: Vec::new(),
        };
        assert(l.lines() =~= Seq::<Seq<char>>::empty());
        assert(l.leftover_files() =~= Seq::<Seq<char>>::empty());
        l
    }

    /// A live errand that already speaks a codec, with no errand yet.
    pub fn speaking(codec: V4Codec) -> (l: LiveErrand)
        ensures
            !l.is_live(),
            l.speaks(),
            !l.replying(),
            l.lines().len() == 0,
            l.moment_view() is None,
            !l.asks_identity(),
            !l.asks_signature(),
    {
        let mut l = LiveErrand::new();
        l.codec = Some(codec);
        l
    }

    /// Takes the place of the live errand if it is free; with one already
    /// live nothing changes and the newcomer is refused.
    pub fn begin(&mut self, errand: Errand) -> (taken: bool)
        ensures
            taken == !old(self).is_live(),
            taken == old(self).current_view() is None,
            taken ==> final(self).current_view() == Some((errand.credential_view(), errand.port_view()))
                && final(self).speaks(),
            !taken ==> final(self).current_view() == old(self).current_view() && final(self).speaks()
                == old(self).speaks(),
            final(self).replying() == old(self).replying(),
            final(self).lines() == old(self).lines(),
            final(self).leftover_files() == old(self).leftover_files(),
            final(self).asks_identity() == old(self).asks_identity(),
            final(self).asks_signature() == old(self).asks_signature(),
            final(self).moment_view() == old(self).moment_view(),
            final(self).request_view() == old(self).request_view(),
            final(self).scratch_view() == old(self).scratch_view(),
    {
        if self.errand.is_some() {
            return false;
        }
        self.codec = Some(errand.codec);
        self.errand = Some(errand);
        true
    }

    /// The errand that is live.
    pub fn current(&self) -> (e: Option<&Errand>)
        ensures
            match e {
                Some(e) => self.current_view() == Some((e.credential_view(), e.port_view())),
                None => self.current_view() is None,
            },
    {
        self.errand.as_ref()
    }

    /// The codec negotiated, if any.
    pub fn codec(&self) -> (c: Option<V4Codec>)
        ensures
            c is Some <==> self.speaks(),
    {
        self.codec
    }

    /// From now on the errand has a reply handle to answer through.
    pub fn answer_through(&mut self)
        ensures
            final(self).replying(),
            final(self).current_view() == old(self).current_view(),
            final(self).speaks() == old(self).speaks(),
            final(self).lines() == old(self).lines(),
            final(self).leftover_files() == old(self).leftover_files(),
            final(self).asks_identity() == old(self).asks_identity(),
            final(self).asks_signature() == old(self).asks_signature(),
            final(self).moment_view() == old(self).moment_view(),
            final(self).request_view() == old(self).request_view(),
            final(self).scratch_view() == old(self).scratch_view(),
    {
        self.replying = true;
    }

    /// Answers the site once: the line goes out only through a handle that
    /// was given and not used yet, and the handle is spent.
    pub fn answer_the_site(&mut self, outcome: &SiteOutcome)
        ensures
            !final(self).replying(),
            (old(self).replying() && old(self).speaks()) ==> final(self).lines() == old(self).lines().push(
                encoded(*outcome),
            ),
            !(old(self).replying() && old(self).speaks()) ==> final(self).lines() == old(self).lines(),
            final(self).current_view() == old(self).current_view(),
            final(self).speaks() == old(self).speaks(),
            final(self).leftover_files() == old(self).leftover_files(),
            final(self).asks_identity() == old(self).asks_identity(),
            final(self).asks_signature() == old(self).asks_signature(),
            final(self).moment_view() == old(self).moment_view(),
            final(self).request_view() == old(self).request_view(),
            final(self).scratch_view() == old(self).scratch_view(),
    {
        if !self.replying {
            return ;
        }
        self.replying = false;
        if let Some(codec) = self.codec {
            let line = codec.encode(outcome);
            let ghost before = self.outbox@;
            self.outbox.push(line);
            assert(self.lines() =~= before.map_values(|l: String| l@).push(encoded(*outcome)));
        }
    }

    /// The request of the site, kept to look at it again.
    pub fn keep_the_request(&mut self, url: &str)
        ensures
            final(self).request_view() == Some(url@),
            final(self).current_view() == old(self).current_view(),
            final(self).is_live() == old(self).is_live(),
            final(self).replying() == old(self).replying(),
            final(self).lines() == old(self).lines(),
            final(self).asks_identity() == old(self).asks_identity(),
            final(self).asks_signature() == old(self).asks_signature(),
            final(self).speaks() == old(self).speaks(),
            final(self).leftover_files() == old(self).leftover_files(),
            final(self).moment_view() == old(self).moment_view(),
            final(self).scratch_view() == old(self).scratch_view(),
    {
        self.asked = Some(url.to_owned());
    }

    /// The request of the site, if one is kept.
    pub fn the_request(&self) -> (r: Option<&str>)
        ensures
            match r {
                Some(u) => self.request_view() == Some(u@),
                None => self.request_view() is None,
            },
    {
        match &self.asked {
            Some(u) => Some(u.as_str()),
            None => None,
        }
    }

    /// The document the site sent, kept on disk for the errand.
    pub fn keep_the_scratch(&mut self, path: &str)
        ensures
            final(self).scratch_view() == Some(path@),
            final(self).current_view() == old(self).current_view(),
            final(self).lines() == old(self).lines(),
            final(self).speaks() == old(self).speaks(),
            final(self).replying() == old(self).replying(),
            final(self).leftover_files() == old(self).leftover_files(),
            final(self).asks_identity() == old(self).asks_identity(),
            final(self).asks_signature() == old(self).asks_signature(),
            final(self).moment_view() == old(self).moment_view(),
            final(self).request_view() == old(self).request_view(),
    {
        self.scratch = Some(path.to_owned());
    }

    /// Where the document the site sent is kept, if any.
    pub fn scratch_path(&self) -> (p: Option<&str>)
        ensures
            match p {
                Some(p) => self.scratch_view() == Some(p@),
                None => self.scratch_view() is None,
            },
    {
        match &self.scratch {
            Some(p) => Some(p.as_str()),
            None => None,
        }
    }

    /// Notes what the window shows now; the last one noted is the one kept.
    pub fn note(&mut self, moment: Moment)
        ensures
            final(self).moment_view() == Some(moment),
            final(self).current_view() == old(self).current_view(),
            final(self).replying() == old(self).replying(),
            final(self).lines() == old(self).lines(),
            final(self).asks_identity() == old(self).asks_identity(),
            final(self).asks_signature() == old(self).asks_signature(),
            unchanged_but_moment(*old(self), *final(self)),
    {
        self.moment = Some(moment);
    }

    /// What the window shows now, left where it was.
    pub fn moment(&self) -> (m: Option<&Moment>)
        ensures
            match m {
                Some(m) => self.moment_view() == Some(*m),
                None => self.moment_view() is None,
            },
    {
        self.moment.as_ref()
    }

    /// The identity the person is asked to hand over.
    pub fn remember_identity(&mut self, filter: SiteFilter)
        ensures
            final(self).asks_identity(),
            !final(self).asks_signature(),
            final(self).current_view() == old(self).current_view(),
            final(self).lines() == old(self).lines(),
            final(self).replying() == old(self).replying(),
            final(self).speaks() == old(self).speaks(),
    {
        self.consent = Some(PendingConsent::Identity(filter));
    }

    /// The signature the person is asked to make.
    pub fn remember_signature(&mut self, pending: PendingSignature)
        ensures
            final(self).asks_signature(),
            !final(self).asks_identity(),
            final(self).current_view() == old(self).current_view(),
            final(self).lines() == old(self).lines(),
            final(self).replying() == old(self).replying(),
            final(self).speaks() == old(self).speaks(),
    {
        self.consent = Some(PendingConsent::Signature(pending));
    }

    /// The filter of the identity the site asked for, if that is what is
    /// pending: a consented signature is never an identity to hand over.
    pub fn what_the_site_asked(&self) -> (f: Option<&SiteFilter>)
        ensures
            f is Some <==> self.asks_identity(),
            f matches Some(filter) ==> self.identity_filter() == Some(*filter),
    {
        match &self.consent {
            Some(PendingConsent::Identity(filter)) => Some(filter),
            _ => None,
        }
    }

    /// The signature consented, if that is what is pending: a consented
    /// identity is never a signature to begin.
    pub fn the_signature_consented(&self) -> (p: Option<&PendingSignature>)
        ensures
            p is Some <==> self.asks_signature(),
            p matches Some(pending) ==> self.signature_pending() == Some(*pending),
    {
        match &self.consent {
            Some(PendingConsent::Signature(pending)) => Some(pending),
            _ => None,
        }
    }

    /// Forgets whatever was consented.
    pub fn forget_the_consent(&mut self)
        ensures
            !final(self).asks_identity(),
            !final(self).asks_signature(),
            final(self).current_view() == old(self).current_view(),
            final(self).lines() == old(self).lines(),
            final(self).replying() == old(self).replying(),
            final(self).moment_view() == old(self).moment_view(),
    {
        self.consent = None;
    }

    /// Ends the errand: the place is free again, the reply handle is
    /// dropped, the site's document is left to be removed, and nothing
    /// remains asked or consented.
    pub fn end(&mut self)
        ensures
            !final(self).is_live(),
            final(self).current_view() is None,
            !final(self).replying(),
            final(self).scratch_view() is None,
            final(self).request_view() is None,
            !final(self).asks_identity(),
            !final(self).asks_signature(),
            final(self).lines() == old(self).lines(),
            final(self).speaks() == old(self).speaks(),
            final(self).moment_view() == old(self).moment_view(),
            match old(self).scratch_view() {
                Some(s) => final(self).leftover_files() == old(self).leftover_files().push(s),
                None => final(self).leftover_files() == old(self).leftover_files(),
            },
    {
        self.errand = None;
        self.replying = false;
        if let Some(scratch) = self.scratch.take() {
            let ghost before = self.leftovers@;
            self.leftovers.push(scratch);
            assert(self.leftover_files() =~= before.map_values(|l: String| l@).push(
                self.leftovers@.last()@,
            ));
        }
        self.asked = None;
        self.consent = None;
    }

    /// The lines still to be written to the site, handed over once.
    pub fn take_lines(&mut self) -> (lines: Vec<String>)
        ensures
            lines@.map_values(|l: String| l@) == old(self).lines(),
            final(self).lines().len() == 0,
            final(self).current_view() == old(self).current_view(),
            final(self).replying() == old(self).replying(),
    {
        let mut lines = Vec::new();
        std::mem::swap(&mut lines, &mut self.outbox);
        assert(self.lines() =~= Seq::<Seq<char>>::empty());
        lines
    }

    /// The documents still to be removed, handed over once.
    pub fn take_leftovers(&mut self) -> (files: Vec<String>)
        ensures
            files@.map_values(|l: String| l@) == old(self).leftover_files(),
            final(self).leftover_files().len() == 0,
            final(self).current_view() == old(self).current_view(),
            final(self).lines() == old(self).lines(),
    {
        let mut files = Vec::new();
        std::mem::swap(&mut files, &mut self.leftovers);
        assert(self.leftover_files() =~= Seq::<Seq<char>>::empty());
        files
    }
}

impl Default for LiveErrand {
    fn default() -> (l: LiveErrand)
        ensures
            !l.is_live(),
            !l.speaks(),
            !l.replying(),
            l.lines().len() == 0,
            l.leftover_files().len() == 0,
            l.scratch_view() is None,
            l.request_view() is None,
            !l.asks_identity(),
            !l.asks_signature(),
            l.moment_view() is None,
    {
        LiveErrand::new()
    }
}

/// Everything of the live errand but the moment the window shows is as it
/// was.
pub open spec fn unchanged_but_moment(before: LiveErrand, after: LiveErrand) -> bool {
    &&& after.is_live() == before.is_live()
    &&& after.current_view() == before.current_view()
    &&& after.speaks() == before.speaks()
    &&& after.replying() == before.replying()
    &&& after.lines() == before.lines()
    &&& after.leftover_files() == before.leftover_files()
    &&& after.request_view() == before.request_view()
    &&& after.scratch_view() == before.scratch_view()
    &&& after.identity_filter() == before.identity_filter()
    &&& after.signature_pending() == before.signature_pending()
    &&& after.asks_identity() == before.asks_identity()
    &&& after.asks_signature() == before.asks_signature()
}

/// What holds once an errand is over: no errand is live, nothing is pending
/// and the site got the line of this outcome if it was waiting for one.
pub open spec fn is_over(before: LiveErrand, after: LiveErrand, outcome: SiteOutcome) -> bool {
    &&& !after.is_live()
    &&& after.current_view() is None
    &&& !after.replying()
    &&& !after.asks_identity()
    &&& !after.asks_signature()
    &&& after.request_view() is None
    &&& after.scratch_view() is None
    &&& match before.scratch_view() {
        Some(scratch) => after.leftover_files() == before.leftover_files().push(scratch),
        None => after.leftover_files() == before.leftover_files(),
    }
    &&& (before.replying() && before.speaks()) ==> after.lines() == before.lines().push(encoded(outcome))
    &&& !(before.replying() && before.speaks()) ==> after.lines() == before.lines()
}

/// An errand is answered once: once it is over, ending it again with any
/// outcome writes nothing more to the site.
pub proof fn an_errand_is_answered_once(
    first: LiveErrand,
    after: LiveErrand,
    again: LiveErrand,
    outcome: SiteOutcome,
    late: SiteOutcome,
)
    requires
        is_over(first, after, outcome),
        is_over(after, again, late),
    ensures
        again.lines() == after.lines(),
        (first.replying() && first.speaks()) ==> again.lines() == first.lines().push(encoded(outcome)),
{
}

/// A site's errand leaves no trace: once it is over, the document the site
/// sent is no longer kept, and it is among the files left to remove.
pub proof fn an_errand_leaves_no_trace(before: LiveErrand, after: LiveErrand, outcome: SiteOutcome)
    requires
        is_over(before, after, outcome),
    ensures
        after.scratch_view() is None,
        before.scratch_view() matches Some(scratch) ==> after.leftover_files().contains(scratch),
{
    if let Some(scratch) = before.scratch_view() {
        assert(after.leftover_files()[after.leftover_files().len() - 1] == scratch);
    }
}

/// Answers the site with this outcome and ends the errand.
pub fn over(live: &mut LiveErrand, reply: SiteOutcome) -> (r: SiteOutcome)
    ensures
        r == reply,
        is_over(*old(live), *final(live), reply),
{
    live.answer_the_site(&reply);
    live.end();
    reply
}

/// The step of an errand that is answered and over.
pub fn answering(live: &mut LiveErrand, reply: SiteOutcome) -> (step: ErrandStep)
    ensures
        step == ErrandStep::Answering(reply),
        is_over(*old(live), *final(live), reply),
{
    ErrandStep::Answering(over(live, reply))
}

/// The person said no: the site reads `CANCEL`.
pub fn declined(live: &mut LiveErrand) -> (r: SiteOutcome)
    ensures
        r == SiteOutcome::Cancelled,
        is_over(*old(live), *final(live), SiteOutcome::Cancelled),
{
    over(live, SiteOutcome::Cancelled)
}

/// The signature the site asked for, handed over with its signer.
pub fn signature_handed_over(live: &mut LiveErrand, signed: &SiteSignature) -> (r: SiteOutcome)
    ensures
        r matches SiteOutcome::Signature { signer_der, signed: document } && signer_der@
            == signed.signer_der@ && document@ == signed.signed@,
        is_over(*old(live), *final(live), r),
{
    over(
        live,
        SiteOutcome::Signature {
            signer_der: crate::token::copy_bytes(&signed.signer_der),
            signed: crate::token::copy_bytes(&signed.signed),
        },
    )
}

/// The signature did not come out: the site reads the code the refusal
/// carries, and the window keeps the whole situation.
pub fn the_signature_did_not_come_out(live: &mut LiveErrand, refusal: SiteRefusal) -> (r: SiteOutcome)
    ensures
        r == (SiteOutcome::Refused {
            answer: WireAnswer::Refused(refusal.code_view()),
            failure: refusal.failure_view(),
        }),
        is_over(*old(live), *final(live), r),
{
    let code = refusal.code();
    over(live, SiteOutcome::Refused { answer: WireAnswer::refused(code), failure: refusal.into_failure() })
}

/// There is no certificate on this machine: nothing is written to the site,
/// and the errand waits for one to be installed.
pub fn no_certificate_at_all() -> (step: ErrandStep)
    ensures
        step == (ErrandStep::NoCertificate { reason: NoCertificate::NotOne, owned: 0, answered: None }),
{
    ErrandStep::NoCertificate { reason: NoCertificate::NotOne, owned: 0, answered: None }
}

/// The site excluded every certificate owned: it is told at once, and the
/// window says which of the two situations it is.
pub fn no_certificate_the_site_accepts(live: &mut LiveErrand, owned: usize) -> (step: ErrandStep)
    ensures
        step is NoCertificate,
        step->reason == NoCertificate::TheSiteExcludedThemAll,
        step->owned == owned,
        step->answered matches Some(outcome) && outcome matches SiteOutcome::Refused { answer, failure }
            && answer == WireAnswer::Refused(SafCode::NoCertificatesInKeystore)
            && failure.situation@ == "certificateNotFound"@,
        is_over(*old(live), *final(live), step->answered->Some_0),
{
    let answered = over(
        live,
        SiteOutcome::Refused {
            answer: WireAnswer::refused(SafCode::NoCertificatesInKeystore),
            failure: Failure::new(
                "certificateNotFound",
                string_of(&chars_of("no queda ningun certificado que la sede acepte")),
            ),
        },
    );
    ErrandStep::NoCertificate {
        reason: NoCertificate::TheSiteExcludedThemAll,
        owned,
        answered: Some(answered),
    }
}

/// Whether handing the identity over may have come to this outcome: the
/// certificate behind the handle, checked once more with the site's filter,
/// goes to the site; otherwise the site is told there is none that will do,
/// with the situation of the check.
pub open spec fn handed_as<S: Fn(&str, &str) -> Result<Vec<usize>, BridgeError>>(
    select: S,
    filter: SiteFilter,
    found: Seq<TokenCertificate>,
    listed: Seq<(Seq<char>, crate::token::ReferenceView)>,
    handle: Seq<char>,
    o: SiteOutcome,
) -> bool {
    exists|u: Result<TokenCertificate, Failure>|
        #[trigger] usable_as(select, filter, found, listed, handle, u) && match u {
            Ok(c) => o matches SiteOutcome::Certificate(der) && der@ == c.der@,
            Err(f) => o == SiteOutcome::Refused {
                answer: WireAnswer::Refused(SafCode::NoCertificatesInKeystore),
                failure: f,
            },
        }
}

/// Whether identifying with what the tokens listed may have come to this: a
/// listing that failed is answered with the code of the token's situation.
pub open spec fn identified_as<S: Fn(&str, &str) -> Result<Vec<usize>, BridgeError>>(
    select: S,
    found: Result<Vec<TokenCertificate>, TokenError>,
    filter: SiteFilter,
    listed: Seq<(Seq<char>, crate::token::ReferenceView)>,
    handle: Seq<char>,
    o: SiteOutcome,
) -> bool {
    match found {
        Err(e) => o matches SiteOutcome::Refused { answer, .. } && answer == WireAnswer::Refused(
            token_code(e.situation),
        ),
        Ok(certificates) => handed_as(select, filter, certificates@, listed, handle, o),
    }
}

/// Hands the identity over: the certificate the window pointed at, if it is
/// still there, can still sign and the site still accepts it; otherwise, for
/// the site, there is none that will do.
pub fn identity_handed_over<S>(
    select: &S,
    filter: &SiteFilter,
    found: &[TokenCertificate],
    handle: &str,
    listed: &ListedCertificates,
    live: &mut LiveErrand,
) -> (r: SiteOutcome) where S: Fn(&str, &str) -> Result<Vec<usize>, BridgeError>,
    requires
        forall|e: &str, p: &str| select.requires((e, p)),
    ensures
        is_over(*old(live), *final(live), r),
        handed_as(*select, *filter, found@, listed@, handle@, r),
        match r {
            SiteOutcome::Certificate(der) => exists|i: int|
                crate::certificates::behind(found@, listed@, handle@) == Some(i) && der@
                    == found@[i].der@ && found@[i].status is Valid,
            SiteOutcome::Refused { answer, .. } => answer == WireAnswer::Refused(
                SafCode::NoCertificatesInKeystore,
            ),
            _ => false,
        },
{
    let usable = usable_through(select, filter, found, handle, listed);
    let ghost u = if usable is Ok {
        Ok::<TokenCertificate, Failure>(*usable->Ok_0)
    } else {
        Err::<TokenCertificate, Failure>(usable->Err_0)
    };
    assert(usable_as(*select, *filter, found@, listed@, handle@, u));
    match usable {
        Ok(chosen) => over(live, SiteOutcome::Certificate(crate::token::copy_bytes(chosen.der()))),
        Err(failure) => over(
            live,
            SiteOutcome::Refused {
                answer: WireAnswer::refused(SafCode::NoCertificatesInKeystore),
                failure,
            },
        ),
    }
}

/// Hands the identity over from what the tokens listed; a listing that
/// failed is answered with the code of the token's situation.
pub fn identify_with<S>(
    select: &S,
    found: Result<Vec<TokenCertificate>, TokenError>,
    filter: &SiteFilter,
    handle: &str,
    listed: &ListedCertificates,
    live: &mut LiveErrand,
) -> (r: SiteOutcome) where S: Fn(&str, &str) -> Result<Vec<usize>, BridgeError>,
    requires
        forall|e: &str, p: &str| select.requires((e, p)),
    ensures
        is_over(*old(live), *final(live), r),
        identified_as(*select, found, *filter, listed@, handle@, r),
        found matches Err(e) ==> r matches SiteOutcome::Refused { answer, .. } && answer
            == WireAnswer::Refused(token_code(e.situation)),
{
    match found {
        Err(error) => {
            let code = code_of_token(error.situation());
            over(live, SiteOutcome::Refused { answer: WireAnswer::refused(code), failure: error.failure() })
        },
        Ok(found) => identity_handed_over(select, filter, &found, handle, listed, live),
    }
}

/// Whether the consent to hand an identity over was asked with the rows of
/// exactly these certificates, under fresh handles, and the site's filter.
pub open spec fn asked_for_identity(
    step: ErrandStep,
    kept: Seq<TokenCertificate>,
    filter: SiteFilter,
    listed: Seq<(Seq<char>, crate::token::ReferenceView)>,
) -> bool {
    step matches ErrandStep::AskingForConsent { certificates, filter: asked } && {
        &&& certificates@.len() == kept.len()
        &&& listed.len() == kept.len()
        &&& forall|j: int| 0 <= j < kept.len() ==> #[trigger] listed[j].1 == kept[j].reference@
        &&& same_filter(asked, filter)
    }
}

/// The same filter, pair by pair.
pub open spec fn same_filter(a: SiteFilter, b: SiteFilter) -> bool {
    &&& a.pairs@.len() == b.pairs@.len()
    &&& forall|k: int| 0 <= k < a.pairs@.len() ==> #[trigger] a.pairs@[k].0@ == b.pairs@[k].0@ && a.pairs@[k].1@ == b.pairs@[k].1@
}

/// The step a consent to hand an identity over may have come to, from the
/// listing the site accepts.
pub open spec fn identity_step<S: Fn(&str, &str) -> Result<Vec<usize>, BridgeError>>(
    select: S,
    filter: SiteFilter,
    ours: Seq<TokenCertificate>,
    step: ErrandStep,
    before: LiveErrand,
    after: LiveErrand,
    listed_after: Seq<(Seq<char>, crate::token::ReferenceView)>,
) -> bool {
    exists|r: Result<Vec<TokenCertificate>, ErrandStep>|
        #[trigger] listed_as(select, filter, ours, r, before, after) && match r {
            Err(answered) => step == answered,
            Ok(kept) => asked_for_identity(step, kept@, filter, listed_after),
        }
}

/// Asks for the consent to hand an identity over, with the certificates the
/// site accepts; none owned, or none accepted, is a dead end of its own.
pub fn consent_for<S>(
    select: &S,
    filter: &SiteFilter,
    ours: Vec<TokenCertificate>,
    listed: &mut ListedCertificates,
    memory: &Memory,
    live: &mut LiveErrand,
) -> (step: ErrandStep) where S: Fn(&str, &str) -> Result<Vec<usize>, BridgeError>,
    requires
        old(listed).well_formed(),
        old(listed).minted() + ours.len() <= u64::MAX,
        forall|e: &str, p: &str| select.requires((e, p)),
    ensures
        final(listed).well_formed(),
        ours.len() == 0 ==> step == (ErrandStep::NoCertificate {
            reason: NoCertificate::NotOne,
            owned: 0,
            answered: None,
        }) && *final(live) == *old(live),
        identity_step(*select, *filter, ours@, step, *old(live), *final(live), final(listed)@),
        match step {
            ErrandStep::AskingForConsent { certificates, .. } => ours.len() > 0 && certificates.len() > 0
                && *final(live) == *old(live) && exists|accepted: Seq<usize>| certificates.len()
                == kept_of(ours@, accepted).len(),
            ErrandStep::NoCertificate { reason, owned, answered } => (reason == NoCertificate::NotOne
                ==> ours.len() == 0 && answered is None) && (reason
                == NoCertificate::TheSiteExcludedThemAll ==> ours.len() > 0 && owned == ours.len()
                && answered is Some && is_over(*old(live), *final(live), answered->Some_0)),
            ErrandStep::Answering(outcome) => outcome matches SiteOutcome::Refused { answer, .. }
                && answer == WireAnswer::Refused(SafCode::CannotAccessKeystore) && is_over(
                *old(live),
                *final(live),
                outcome,
            ),
            ErrandStep::AskingToSign(_) => false,
        },
{
    let ghost given = ours@;
    let listing = accepted_listing(select, filter, ours, live);
    let ghost r = listing;
    match listing {
        Err(step) => step,
        Ok(accepted) => {
            let ghost kept = accepted@;
            let ghost accepted_copy = accepted;
            let rows = rows_of(accepted, listed, memory);
            assert(listed@.len() == kept.len());
            assert forall|j: int| 0 <= j < kept.len() implies #[trigger] listed@[j].1 == kept[j].reference@ by {
                assert(0 <= j < rows.len());
                assert(rows[j] == rows[j]);
                assert(kept[j] == accepted_copy@[j]);
                assert(row_of(rows[j], accepted_copy[j], listed@[j].0, remembered_in(*memory)));
                assert(listed@[j].1 == accepted_copy[j].reference@);
            }
            let asked = filter.copied();
            assert(same_filter(asked, *filter));
            let step = ErrandStep::AskingForConsent { certificates: rows, filter: asked };
            assert(asked_for_identity(step, kept, *filter, listed@));
            step
        },
    }
}

/// The parameter by which a site allows cosigning over signatures that are
/// not registered; it is the application's to decide and never crosses.
pub const ALLOW_UNREGISTERED_KEY: &'static str = "allowCosigningUnregisteredSignatures";

/// `true`, whatever the case of its letters and the blanks around it.
pub open spec fn says_true(value: Seq<char>) -> bool {
    trim(value).map_values(|c: char| upper(c)) == "TRUE"@
}

fn reads_true(value: &str) -> (r: bool)
    ensures
        r == says_true(value@),
{
    let text = trimmed(&chars_of(value));
    let wanted = chars_of("TRUE");
    if text.len() != wanted.len() {
        assert(text@.map_values(|c: char| upper(c)).len() != "TRUE"@.len());
        return false;
    }
    let mut i: usize = 0;
    while i < wanted.len()
        invariant
            text@ == trim(value@),
            wanted@ == "TRUE"@,
            text.len() == wanted.len(),
            0 <= i <= wanted.len(),
            forall|k: int| 0 <= k < i ==> upper(#[trigger] text@[k]) == wanted@[k],
        decreases wanted.len() - i,
    {
        if upper_char(text[i]) != wanted[i] {
            assert(text@.map_values(|c: char| upper(c))[i as int] != "TRUE"@[i as int]);
            return false;
        }
        i = i + 1;
    }
    assert(text@.map_values(|c: char| upper(c)) =~= "TRUE"@);
    true
}

/// What the window is told of a document that cannot be signed.
pub fn inadmissible_failure(refusal: Inadmissible) -> (f: Failure)
    ensures
        refusal is NotAPdf ==> f.situation@ == "notAPdf"@,
{
    match refusal {
        Inadmissible::NotAPdf => Failure::new("notAPdf", string_of(&chars_of("el documento no es un PDF"))),
        Inadmissible::Encrypted => Failure::new(
            "encryptedPdf",
            string_of(&chars_of("el PDF esta cifrado con contrasena")),
        ),
        Inadmissible::Certified => Failure::new(
            "certifiedPdf",
            string_of(&chars_of("el PDF esta certificado y no admite mas firmas")),
        ),
    }
}

/// The answer of a site that excluded every certificate owned.
pub open spec fn all_excluded(o: SiteOutcome) -> bool {
    o matches SiteOutcome::Refused { answer, failure } && answer == WireAnswer::Refused(
        SafCode::NoCertificatesInKeystore,
    ) && failure.situation@ == "certificateNotFound"@
}

/// What the listing the site kept leads to: an engine that failed is
/// answered with `SAF_06`; a site that kept none of the certificates owned
/// is told so at once; otherwise the certificates it kept go on.
pub open spec fn listing_step(
    owned: nat,
    kept: Result<Vec<TokenCertificate>, Failure>,
    r: Result<Vec<TokenCertificate>, ErrandStep>,
    before: LiveErrand,
    after: LiveErrand,
) -> bool {
    match kept {
        Err(f) => {
            let outcome = SiteOutcome::Refused { answer: WireAnswer::Refused(SafCode::CannotAccessKeystore), failure: f };
            r == Err::<Vec<TokenCertificate>, ErrandStep>(ErrandStep::Answering(outcome)) && is_over(before, after, outcome)
        },
        Ok(k) => if k@.len() == 0 {
            r matches Err(ErrandStep::NoCertificate { reason, owned: n, answered: Some(o) }) && reason
                == NoCertificate::TheSiteExcludedThemAll && n == owned && all_excluded(o) && is_over(before, after, o)
        } else {
            r == Ok::<Vec<TokenCertificate>, ErrandStep>(k) && after == before
        },
    }
}

/// Whether the listing the site accepts out of these certificates may have
/// come to this: none owned is a dead end of its own; otherwise the engine
/// is asked with the site's filter over all of them.
pub open spec fn listed_as<S: Fn(&str, &str) -> Result<Vec<usize>, BridgeError>>(
    select: S,
    filter: SiteFilter,
    ours: Seq<TokenCertificate>,
    r: Result<Vec<TokenCertificate>, ErrandStep>,
    before: LiveErrand,
    after: LiveErrand,
) -> bool {
    if ours.len() == 0 {
        r == Err::<Vec<TokenCertificate>, ErrandStep>(
            ErrandStep::NoCertificate { reason: NoCertificate::NotOne, owned: 0, answered: None },
        ) && after == before
    } else {
        exists|answer: Result<Vec<usize>, BridgeError>, kept: Result<Vec<TokenCertificate>, Failure>|
            selected(select, filter, ours, answer) && #[trigger] kept_as(ours, answer, kept) && listing_step(
                ours.len(),
                kept,
                r,
                before,
                after,
            )
    }
}

/// The listing the site accepts out of what the tokens listed, or the step
/// that answers when none is left: none owned, an engine that failed, or a
/// site that excluded them all.
fn accepted_listing<S>(select: &S, filter: &SiteFilter, ours: Vec<TokenCertificate>, live: &mut LiveErrand) -> (r:
    Result<Vec<TokenCertificate>, ErrandStep>) where S: Fn(&str, &str) -> Result<Vec<usize>, BridgeError>,
    requires
        forall|e: &str, p: &str| select.requires((e, p)),
    ensures
        listed_as(*select, *filter, ours@, r, *old(live), *final(live)),
        r matches Ok(accepted) ==> accepted.len() > 0 && accepted.len() <= ours.len() && exists|picked: Seq<usize>|
            accepted@ == kept_of(ours@, picked),
{
    if ours.len() == 0 {
        return Err(no_certificate_at_all());
    }
    let owned = ours.len();
    let ghost given = ours@;
    let kept = kept_through(select, filter, ours);
    let ghost answered_kept = kept;
    let ghost answer = choose|answer: Result<Vec<usize>, BridgeError>|
        selected(*select, *filter, given, answer) && kept_as(given, answer, answered_kept);
    let r = match kept {
        Ok(accepted) => {
            if accepted.len() == 0 {
                Err(no_certificate_the_site_accepts(live, owned))
            } else {
                proof {
                    let picked = choose|picked: Seq<usize>| accepted@ == kept_of(given, picked);
                    lemma_kept_is_no_longer(given, picked);
                }
                Ok(accepted)
            }
        },
        Err(failure) => Err(
            answering(
                live,
                SiteOutcome::Refused { answer: WireAnswer::refused(SafCode::CannotAccessKeystore), failure },
            ),
        ),
    };
    assert(listing_step(given.len(), answered_kept, r, *old(live), *live));
    r
}

/// Whether the site's expanded parameters forbid cosigning over signatures
/// that are not registered.
pub open spec fn forbids_unregistered(pairs: Seq<(String, String)>) -> bool {
    map_of(pairs).contains_key("allowCosigningUnregisteredSignatures"@) && !says_true(
        map_of(pairs)["allowCosigningUnregisteredSignatures"@],
    )
}

/// The consent to sign that may have been asked, or the answer given, once
/// the box the site asked for is decided: the listing the site accepts,
/// then the document kept untraced under the name `write_scratch` gave.
pub open spec fn signing_after_box<S, W>(
    select: S,
    write_scratch: W,
    request: SignRequest,
    ours: Seq<TokenCertificate>,
    unregistered: bool,
    site: Map<Seq<char>, Seq<char>>,
    visible: SiteVisibleSignature,
    step: ErrandStep,
    before: LiveErrand,
    after: LiveErrand,
    opened_before: Seq<(Seq<char>, Seq<char>, Remembrance)>,
    opened_after: Seq<(Seq<char>, Seq<char>, Remembrance)>,
    listed_after: Seq<(Seq<char>, crate::token::ReferenceView)>,
) -> bool where
    S: Fn(&str, &str) -> Result<Vec<usize>, BridgeError>,
    W: FnOnce(&Vec<u8>) -> Result<String, Failure>,
 {
    exists|r: Result<Vec<TokenCertificate>, ErrandStep>, mid: LiveErrand|
        #[trigger] listed_as(select, request.filter, ours, r, before, mid) && match r {
            Err(answered) => step == answered && after == mid && opened_after == opened_before,
            Ok(kept) => exists|written: Result<String, Failure>|
                #[trigger] write_scratch.ensures((&request.document,), written) && match written {
                    Err(f) => step == ErrandStep::Answering(
                        SiteOutcome::Refused { answer: WireAnswer::Refused(SafCode::CannotSaveData), failure: f },
                    ) && is_over(
                        mid,
                        after,
                        SiteOutcome::Refused { answer: WireAnswer::Refused(SafCode::CannotSaveData), failure: f },
                    ) && opened_after == opened_before,
                    Ok(path) => step matches ErrandStep::AskingToSign(c) && {
                        &&& c.round == request.round
                        &&& c.visible == visible
                        &&& map_of(c.from_the_site@) == site
                        &&& c.unregistered_signatures == unregistered
                        &&& same_filter(c.filter, request.filter)
                        &&& c.certificates@.len() == kept@.len()
                        &&& listed_after.len() == kept@.len()
                        &&& forall|j: int| 0 <= j < kept@.len() ==> #[trigger] listed_after[j].1 == kept@[j].reference@
                        &&& after.scratch_view() == Some(path@)
                        &&& opened_after == opened_before.push((c.document@, path@, Remembrance::Unrecorded))
                    },
                },
        }
}

/// The step a consent to sign may have come to, from what each party
/// answered: the document's admissibility, the site's policy expanded, the
/// box the site asked for, the listing the site accepts and the document
/// kept. The site's key on unregistered signatures never goes on with its
/// parameters.
pub open spec fn signing_step<S, X, C, V, W>(
    select: S,
    expand: X,
    check: C,
    visible_signature_of: V,
    write_scratch: W,
    request: SignRequest,
    ours: Seq<TokenCertificate>,
    step: ErrandStep,
    before: LiveErrand,
    after: LiveErrand,
    opened_before: Seq<(Seq<char>, Seq<char>, Remembrance)>,
    opened_after: Seq<(Seq<char>, Seq<char>, Remembrance)>,
    listed_after: Seq<(Seq<char>, crate::token::ReferenceView)>,
) -> bool where
    S: Fn(&str, &str) -> Result<Vec<usize>, BridgeError>,
    X: Fn(&str, &str) -> Result<String, BridgeError>,
    C: FnOnce(&Vec<u8>) -> Result<bool, Inadmissible>,
    V: FnOnce(&Vec<(String, String)>) -> Result<SiteVisibleSignature, Refusal>,
    W: FnOnce(&Vec<u8>) -> Result<String, Failure>,
 {
    exists|checked: Result<bool, Inadmissible>|
        #[trigger] check.ensures((&request.document,), checked) && match checked {
            Err(i) => step matches ErrandStep::Answering(outcome) && outcome matches SiteOutcome::Refused {
                answer,
                ..
            } && answer == WireAnswer::Refused(inadmissible_code(i)) && is_over(before, after, outcome)
                && opened_after == opened_before,
            Ok(unregistered) => exists|answer: Result<String, BridgeError>, expanded: Result<Vec<(String, String)>, BridgeError>|
                expanded_as(expand, request.declared@, answer) && #[trigger] pairs_as(answer, expanded) && match expanded {
                    Err(e) => step matches ErrandStep::Answering(outcome) && outcome matches SiteOutcome::Refused {
                        answer: a,
                        ..
                    } && a == WireAnswer::Refused(bridge_code(e)) && is_over(before, after, outcome)
                        && opened_after == opened_before,
                    Ok(pairs) => if unregistered && forbids_unregistered(pairs@) {
                        step == ErrandStep::Answering(SiteOutcome::Cancelled) && is_over(
                            before,
                            after,
                            SiteOutcome::Cancelled,
                        ) && opened_after == opened_before
                    } else {
                        exists|handed: Vec<(String, String)>, visible: Result<SiteVisibleSignature, Refusal>|
                            map_of(handed@) == map_of(pairs@).remove("allowCosigningUnregisteredSignatures"@)
                                && #[trigger] visible_signature_of.ensures((&handed,), visible) && match visible {
                                Err(r) => step == ErrandStep::Answering(SiteOutcome::RefusedByTheProtocol(r))
                                    && is_over(before, after, SiteOutcome::RefusedByTheProtocol(r))
                                    && opened_after == opened_before,
                                Ok(v) => signing_after_box(
                                    select,
                                    write_scratch,
                                    request,
                                    ours,
                                    unregistered,
                                    map_of(handed@),
                                    v,
                                    step,
                                    before,
                                    after,
                                    opened_before,
                                    opened_after,
                                    listed_after,
                                ),
                            }
                    },
                },
        }
}

/// The moment of the consent to a signature, over a listing the
/// application's criteria already passed. In this order, and none can be
/// swapped: the document's admissibility first, on its bytes and before
/// anything is asked; then the policy the site declared, expanded, and with
/// it the box it asks for; then the listing the site accepts; and only then
/// the document is kept, untraced, and the consent is asked. A site that
/// forbids cosigning over unregistered signatures, on a document that has
/// them, is answered with a cancellation, as if the person had said no.
pub fn consent_to_sign<S, X, C, V, W>(
    select: &S,
    expand: &X,
    request: &SignRequest,
    check: C,
    visible_signature_of: V,
    ours: Vec<TokenCertificate>,
    listed: &mut ListedCertificates,
    memory: &Memory,
    opened: &mut OpenedDocuments,
    write_scratch: W,
    live: &mut LiveErrand,
) -> (step: ErrandStep) where
    S: Fn(&str, &str) -> Result<Vec<usize>, BridgeError>,
    X: Fn(&str, &str) -> Result<String, BridgeError>,
    C: FnOnce(&Vec<u8>) -> Result<bool, Inadmissible>,
    V: FnOnce(&Vec<(String, String)>) -> Result<SiteVisibleSignature, Refusal>,
    W: FnOnce(&Vec<u8>) -> Result<String, Failure>,

    requires
        old(listed).well_formed(),
        old(listed).minted() + ours.len() <= u64::MAX,
        old(opened).well_formed(),
        old(opened).minted() < u64::MAX,
        forall|e: &str, p: &str| select.requires((e, p)),
        forall|e: &str, f: &str| expand.requires((e, f)),
        forall|d: &Vec<u8>| check.requires((d,)),
        forall|p: &Vec<(String, String)>| visible_signature_of.requires((p,)),
        forall|d: &Vec<u8>| write_scratch.requires((d,)),
    ensures
        final(listed).well_formed(),
        final(opened).well_formed(),
        signing_step(
            *select,
            *expand,
            check,
            visible_signature_of,
            write_scratch,
            *request,
            ours@,
            step,
            *old(live),
            *final(live),
            old(opened)@,
            final(opened)@,
            final(listed)@,
        ),
        match step {
            ErrandStep::Answering(outcome) => is_over(*old(live), *final(live), outcome) && final(opened)@
                == old(opened)@,
            ErrandStep::NoCertificate { reason, owned, answered } => final(opened)@ == old(opened)@ && (
            reason == NoCertificate::NotOne ==> ours.len() == 0 && answered is None && *final(live)
                == *old(live)) && (reason == NoCertificate::TheSiteExcludedThemAll ==> ours.len() > 0
                && owned == ours.len() && answered is Some && is_over(*old(live), *final(live), answered->Some_0)),
            ErrandStep::AskingToSign(consent) => {
                &&& consent.round == request.round
                &&& consent.certificates.len() > 0
                &&& same_filter(consent.filter, request.filter)
                &&& !map_of(consent.from_the_site@).contains_key("allowCosigningUnregisteredSignatures"@)
                &&& final(live).current_view() == old(live).current_view()
                &&& final(live).lines() == old(live).lines()
                &&& final(live).request_view() == old(live).request_view()
                &&& final(live).replying() == old(live).replying()
                &&& final(live).scratch_view() is Some
                &&& final(opened)@ == old(opened)@.push(
                    (consent.document@, final(live).scratch_view()->0, Remembrance::Unrecorded),
                )
            },
            ErrandStep::AskingForConsent { .. } => false,
        },
{
    let document = &request.document;
    let checked = check(document);
    assert(check.ensures((&request.document,), checked));
    let ghost checked_view = checked;
    let unregistered_signatures = match checked {
        Ok(unregistered) => unregistered,
        Err(inadmissible) => {
            return answering(
                live,
                SiteOutcome::Refused {
                    answer: WireAnswer::refused(code_of_inadmissible(inadmissible)),
                    failure: inadmissible_failure(inadmissible),
                },
            );
        },
    };
    let expanded = expanded_through(expand, &request.declared);
    let ghost expanded_view = expanded;
    let ghost policy_answer = choose|answer: Result<String, BridgeError>|
        expanded_as(*expand, request.declared@, answer) && pairs_as(answer, expanded_view);
    assert(expanded_as(*expand, request.declared@, policy_answer) && pairs_as(policy_answer, expanded_view));
    let expanded = match expanded {
        Ok(expanded) => expanded,
        Err(error) => {
            let code = code_of_bridge(&error);
            return answering(
                live,
                SiteOutcome::Refused { answer: WireAnswer::refused(code), failure: bridge_failure(&error) },
            );
        },
    };
    let ghost pairs = expanded@;
    let (from_the_site, allowed) = remove_key(expanded, ALLOW_UNREGISTERED_KEY);
    let forbidden = match &allowed {
        Some(declared) => !reads_true(declared.as_str()),
        None => false,
    };
    assert(forbidden == forbids_unregistered(pairs));
    if unregistered_signatures && forbidden {
        return answering(live, SiteOutcome::Cancelled);
    }
    let visible = visible_signature_of(&from_the_site);
    assert(visible_signature_of.ensures((&from_the_site,), visible));
    let ghost handed = from_the_site;
    let ghost visible_view = visible;
    let visible = match visible {
        Ok(visible) => visible,
        Err(refusal) => {
            return answering(live, SiteOutcome::RefusedByTheProtocol(refusal));
        },
    };
    let ghost live_before = *live;
    let ghost opened_before = opened@;
    let listing = accepted_listing(select, &request.filter, ours, live);
    let ghost listing_view = listing;
    let ghost mid = *live;
    let accepted = match listing {
        Ok(accepted) => accepted,
        Err(step) => {
            assert(signing_after_box(
                *select,
                write_scratch,
                *request,
                ours@,
                unregistered_signatures,
                map_of(handed@),
                visible,
                step,
                live_before,
                *live,
                opened_before,
                opened@,
                listed@,
            ));
            return step;
        },
    };
    let written = write_scratch(&request.document);
    assert(write_scratch.ensures((&request.document,), written));
    let ghost written_view = written;
    let path = match written {
        Ok(path) => path,
        Err(failure) => {
            let step = answering(
                live,
                SiteOutcome::Refused { answer: WireAnswer::refused(SafCode::CannotSaveData), failure },
            );
            assert(signing_after_box(
                *select,
                write_scratch,
                *request,
                ours@,
                unregistered_signatures,
                map_of(handed@),
                visible,
                step,
                live_before,
                *live,
                opened_before,
                opened@,
                listed@,
            ));
            return step;
        },
    };
    live.keep_the_scratch(path.as_str());
    let document = opened.remember_unrecorded(PortalDocument::opened(path.as_str()));
    let ghost kept = accepted@;
    let ghost accepted_copy = accepted;
    let certificates = rows_of(accepted, listed, memory);
    assert forall|j: int| 0 <= j < kept.len() implies #[trigger] listed@[j].1 == kept[j].reference@ by {
        assert(row_of(certificates[j], accepted_copy[j], listed@[j].0, remembered_in(*memory)));
    }
    let asked = request.filter.copied();
    assert(same_filter(asked, request.filter));
    assert(live.scratch_view() == Some(path@));
    assert(opened@ == opened_before.push((document@, path@, Remembrance::Unrecorded)));
    let step = ErrandStep::AskingToSign(
        SigningConsent {
            document,
            round: request.round,
            certificates,
            from_the_site,
            visible,
            filter: asked,
            unregistered_signatures,
        },
    );
    assert(signing_after_box(
        *select,
        write_scratch,
        *request,
        ours@,
        unregistered_signatures,
        map_of(handed@),
        visible,
        step,
        live_before,
        *live,
        opened_before,
        opened@,
        listed@,
    ));
    step
}

/// What an errand needs at hand: the borrowed engines and the memory
/// between sessions.
pub struct ErrandDesk<'a, S, X> {
    /// The site's filter engine: the expression and the listing in, the
    /// rows it keeps out.
    pub select: &'a S,
    /// The policy engine: the declared parameters and the format in, the
    /// expanded ones out.
    pub expand: &'a X,
    pub memory: &'a Memory,
}

/// Attends the operation that came through the open channel: a refusal of
/// the protocol is answered at once; otherwise the request is kept, to look
/// at it again, the tokens are listed, and the consent is asked for the
/// identity or the signature. A listing that failed is answered with the
/// code of the token's situation.
pub fn attend_operation<SE, XP, L, C, V, W>(
    desk: &ErrandDesk<'_, SE, XP>,
    url: &str,
    request: SiteRequest,
    list: L,
    check: C,
    visible_signature_of: V,
    write_scratch: W,
    listed: &mut ListedCertificates,
    opened: &mut OpenedDocuments,
    live: &mut LiveErrand,
) -> (step: ErrandStep) where
    SE: Fn(&str, &str) -> Result<Vec<usize>, BridgeError>,
    XP: Fn(&str, &str) -> Result<String, BridgeError>,
    L: FnOnce() -> Result<Vec<TokenCertificate>, TokenError>,
    C: FnOnce(&Vec<u8>) -> Result<bool, Inadmissible>,
    V: FnOnce(&Vec<(String, String)>) -> Result<SiteVisibleSignature, Refusal>,
    W: FnOnce(&Vec<u8>) -> Result<String, Failure>,

    requires
        forall|e: &str, p: &str| desk.select.requires((e, p)),
        forall|e: &str, f: &str| desk.expand.requires((e, f)),
        old(listed).well_formed(),
        old(opened).well_formed(),
        old(opened).minted() < u64::MAX,
        list.requires(()),
        forall|d: &Vec<u8>| check.requires((d,)),
        forall|p: &Vec<(String, String)>| visible_signature_of.requires((p,)),
        forall|d: &Vec<u8>| write_scratch.requires((d,)),
    ensures
        final(listed).well_formed(),
        final(opened).well_formed(),
        request is NotAttended ==> step == ErrandStep::Answering(
            SiteOutcome::RefusedByTheProtocol(request->NotAttended_0),
        ) && is_over(*old(live), *final(live), step->Answering_0),
        (step is AskingForConsent || step is AskingToSign || step matches ErrandStep::NoCertificate {
            answered: None,
            ..
        }) ==> final(live).request_view() == Some(url@),
        step is Answering ==> is_over(*old(live), *final(live), step->Answering_0),
        (step is AskingForConsent || step is AskingToSign) ==> final(live).replying() == old(live).replying(),
        request is SelectCertificate ==> !(step is AskingToSign),
        request is Sign ==> !(step is AskingForConsent),
        !(request is NotAttended) ==> exists|listing: Result<Vec<TokenCertificate>, TokenError>|
            #[trigger] list.ensures((), listing) && match listing {
                Err(e) => step matches ErrandStep::Answering(o) && o matches SiteOutcome::Refused { answer, .. }
                    && answer == WireAnswer::Refused(token_code(e.situation)),
                Ok(ours) => if old(listed).minted() + ours@.len() > u64::MAX {
                    step matches ErrandStep::Answering(o) && o matches SiteOutcome::Refused { answer, .. }
                        && answer == WireAnswer::Refused(SafCode::CannotAccessKeystore)
                } else {
                    exists|mid: LiveErrand|
                        #![trigger mid.request_view()]
                        mid.request_view() == Some(url@) && mid.current_view() == old(live).current_view()
                            && mid.is_live() == old(live).is_live() && mid.speaks() == old(live).speaks()
                            && mid.replying() == old(live).replying() && mid.lines() == old(live).lines()
                            && mid.scratch_view() == old(live).scratch_view() && match request {
                            SiteRequest::Sign(r) => signing_step(
                                *desk.select,
                                *desk.expand,
                                check,
                                visible_signature_of,
                                write_scratch,
                                r,
                                ours@,
                                step,
                                mid,
                                *final(live),
                                old(opened)@,
                                final(opened)@,
                                final(listed)@,
                            ),
                            SiteRequest::SelectCertificate(r) => identity_step(
                                *desk.select,
                                r.filter,
                                ours@,
                                step,
                                mid,
                                *final(live),
                                final(listed)@,
                            ),
                            _ => false,
                        }
                },
            },
{
    let operation = match request {
        SiteRequest::NotAttended(refusal) => {
            return answering(live, SiteOutcome::RefusedByTheProtocol(refusal));
        },
        attended => attended,
    };
    live.keep_the_request(url);
    let ghost mid = *live;
    let listing = list();
    assert(list.ensures((), listing));
    let ours = match listing {
        Ok(ours) => ours,
        Err(error) => {
            let code = code_of_token(error.situation());
            return answering(live, SiteOutcome::Refused { answer: WireAnswer::refused(code), failure: error.failure() });
        },
    };
    if !listed.has_room_for(ours.len()) {
        return answering(
            live,
            SiteOutcome::Refused {
                answer: WireAnswer::refused(SafCode::CannotAccessKeystore),
                failure: Failure::new(
                    "unknown",
                    string_of(&chars_of("no quedan asas para listar mas certificados")),
                ),
            },
        );
    }
    assert(mid.request_view() == Some(url@));
    match operation {
        SiteRequest::SelectCertificate(request) => consent_for(
            desk.select,
            &request.filter,
            ours,
            listed,
            desk.memory,
            live,
        ),
        SiteRequest::Sign(request) => consent_to_sign(
            desk.select,
            desk.expand,
            &request,
            check,
            visible_signature_of,
            ours,
            listed,
            desk.memory,
            opened,
            write_scratch,
            live,
        ),
        SiteRequest::NotAttended(refusal) => answering(live, SiteOutcome::RefusedByTheProtocol(refusal)),
    }
}

/// Reads the operation with the codec the startup negotiated, attends it,
/// and notes what is left to carry out and what the window shows. Nothing
/// happens without a negotiated codec.
fn dispatch<SE, XP, D, L, C, V, W>(
    desk: &ErrandDesk<'_, SE, XP>,
    url: &str,
    decode: D,
    list: L,
    check: C,
    visible_signature_of: V,
    write_scratch: W,
    listed: &mut ListedCertificates,
    opened: &mut OpenedDocuments,
    live: &mut LiveErrand,
) -> (r: Option<ErrandStep>) where
    SE: Fn(&str, &str) -> Result<Vec<usize>, BridgeError>,
    XP: Fn(&str, &str) -> Result<String, BridgeError>,
    D: FnOnce(&str) -> SiteRequest,
    L: FnOnce() -> Result<Vec<TokenCertificate>, TokenError>,
    C: FnOnce(&Vec<u8>) -> Result<bool, Inadmissible>,
    V: FnOnce(&Vec<(String, String)>) -> Result<SiteVisibleSignature, Refusal>,
    W: FnOnce(&Vec<u8>) -> Result<String, Failure>,

    requires
        forall|e: &str, p: &str| desk.select.requires((e, p)),
        forall|e: &str, f: &str| desk.expand.requires((e, f)),
        old(listed).well_formed(),
        old(opened).well_formed(),
        old(opened).minted() < u64::MAX,
        forall|u: &str| decode.requires((u,)),
        list.requires(()),
        forall|d: &Vec<u8>| check.requires((d,)),
        forall|p: &Vec<(String, String)>| visible_signature_of.requires((p,)),
        forall|d: &Vec<u8>| write_scratch.requires((d,)),
    ensures
        final(listed).well_formed(),
        final(opened).well_formed(),
        !old(live).speaks() ==> r is None && *final(live) == *old(live),
        old(live).speaks() ==> r is Some,
        r matches Some(ErrandStep::AskingForConsent { .. }) ==> final(live).asks_identity() && final(live).replying()
            == old(live).replying() && final(live).moment_view() matches Some(Moment::AskingForConsent { .. }),
        r matches Some(ErrandStep::AskingToSign(_)) ==> final(live).asks_signature() && final(live).replying()
            == old(live).replying() && final(live).moment_view() matches Some(Moment::AskingToSign { .. }),
        r matches Some(ErrandStep::NoCertificate { reason, owned, .. }) ==> !final(live).asks_identity()
            && !final(live).asks_signature() && final(live).moment_view() == Some(
            Moment::NoCertificate { reason, owned },
        ),
        r matches Some(ErrandStep::Answering(outcome)) ==> is_over(*old(live), *final(live), outcome),
{
    if live.codec().is_none() {
        return None;
    }
    let request = decode(url);
    let step = attend_operation(
        desk,
        url,
        request,
        list,
        check,
        visible_signature_of,
        write_scratch,
        listed,
        opened,
        live,
    );
    match &step {
        ErrandStep::AskingForConsent { filter, .. } => live.remember_identity(filter.copied()),
        ErrandStep::AskingToSign(asked) => live.remember_signature(
            PendingSignature {
                document: asked.document.clone(),
                filter: asked.filter.copied(),
                from_the_site: copy_pairs(&asked.from_the_site),
                unregistered_signatures: asked.unregistered_signatures,
            },
        ),
        ErrandStep::NoCertificate { .. } => live.forget_the_consent(),
        ErrandStep::Answering(_) => {},
    }
    match step.moment() {
        Some(moment) => live.note(moment),
        None => {},
    }
    Some(step)
}

/// Attends the operation that came through the channel, with a reply handle
/// to answer the site through: the handle is noted first of all, since it is
/// where everything the errand tells the site goes.
pub fn attend<SE, XP, D, L, C, V, W>(
    desk: &ErrandDesk<'_, SE, XP>,
    url: &str,
    decode: D,
    list: L,
    check: C,
    visible_signature_of: V,
    write_scratch: W,
    listed: &mut ListedCertificates,
    opened: &mut OpenedDocuments,
    live: &mut LiveErrand,
) -> (r: Option<ErrandStep>) where
    SE: Fn(&str, &str) -> Result<Vec<usize>, BridgeError>,
    XP: Fn(&str, &str) -> Result<String, BridgeError>,
    D: FnOnce(&str) -> SiteRequest,
    L: FnOnce() -> Result<Vec<TokenCertificate>, TokenError>,
    C: FnOnce(&Vec<u8>) -> Result<bool, Inadmissible>,
    V: FnOnce(&Vec<(String, String)>) -> Result<SiteVisibleSignature, Refusal>,
    W: FnOnce(&Vec<u8>) -> Result<String, Failure>,

    requires
        forall|e: &str, p: &str| desk.select.requires((e, p)),
        forall|e: &str, f: &str| desk.expand.requires((e, f)),
        old(listed).well_formed(),
        old(opened).well_formed(),
        old(opened).minted() < u64::MAX,
        forall|u: &str| decode.requires((u,)),
        list.requires(()),
        forall|d: &Vec<u8>| check.requires((d,)),
        forall|p: &Vec<(String, String)>| visible_signature_of.requires((p,)),
        forall|d: &Vec<u8>| write_scratch.requires((d,)),
    ensures
        final(listed).well_formed(),
        final(opened).well_formed(),
        old(live).speaks() <==> r is Some,
        !old(live).speaks() ==> final(live).replying(),
        r matches Some(ErrandStep::AskingForConsent { .. }) ==> final(live).asks_identity() && final(live).replying(),
        r matches Some(ErrandStep::AskingToSign(_)) ==> final(live).asks_signature() && final(live).replying(),
        r matches Some(ErrandStep::Answering(outcome)) ==> old(live).speaks() && final(live).lines() == old(live).lines().push(encoded(outcome)) && !final(live).is_live(),
{
    live.answer_through();
    dispatch(desk, url, decode, list, check, visible_signature_of, write_scratch, listed, opened, live)
}

/// Attends again the request the site sent, in case a certificate was
/// installed with the window open: the same request, channel and handle;
/// with no request kept there is nothing to look at again.
pub fn look_again<SE, XP, D, L, C, V, W>(
    desk: &ErrandDesk<'_, SE, XP>,
    decode: D,
    list: L,
    check: C,
    visible_signature_of: V,
    write_scratch: W,
    listed: &mut ListedCertificates,
    opened: &mut OpenedDocuments,
    live: &mut LiveErrand,
) -> (r: Option<ErrandStep>) where
    SE: Fn(&str, &str) -> Result<Vec<usize>, BridgeError>,
    XP: Fn(&str, &str) -> Result<String, BridgeError>,
    D: FnOnce(&str) -> SiteRequest,
    L: FnOnce() -> Result<Vec<TokenCertificate>, TokenError>,
    C: FnOnce(&Vec<u8>) -> Result<bool, Inadmissible>,
    V: FnOnce(&Vec<(String, String)>) -> Result<SiteVisibleSignature, Refusal>,
    W: FnOnce(&Vec<u8>) -> Result<String, Failure>,

    requires
        forall|e: &str, p: &str| desk.select.requires((e, p)),
        forall|e: &str, f: &str| desk.expand.requires((e, f)),
        old(listed).well_formed(),
        old(opened).well_formed(),
        old(opened).minted() < u64::MAX,
        forall|u: &str| decode.requires((u,)),
        list.requires(()),
        forall|d: &Vec<u8>| check.requires((d,)),
        forall|p: &Vec<(String, String)>| visible_signature_of.requires((p,)),
        forall|d: &Vec<u8>| write_scratch.requires((d,)),
    ensures
        final(listed).well_formed(),
        final(opened).well_formed(),
        old(live).request_view() is None ==> r is None && *final(live) == *old(live),
        r is Some ==> old(live).request_view() is Some && old(live).speaks(),
        old(live).request_view() is Some ==> (r is Some <==> old(live).speaks()),
        !old(live).speaks() ==> r is None && *final(live) == *old(live),
        r matches Some(ErrandStep::AskingForConsent { .. }) ==> final(live).asks_identity() && final(live).replying()
            == old(live).replying() && final(live).moment_view() matches Some(Moment::AskingForConsent { .. }),
        r matches Some(ErrandStep::AskingToSign(_)) ==> final(live).asks_signature() && final(live).replying()
            == old(live).replying() && final(live).moment_view() matches Some(Moment::AskingToSign { .. }),
        r matches Some(ErrandStep::NoCertificate { reason, owned, .. }) ==> !final(live).asks_identity()
            && !final(live).asks_signature() && final(live).moment_view() == Some(
            Moment::NoCertificate { reason, owned },
        ),
        r matches Some(ErrandStep::Answering(outcome)) ==> is_over(*old(live), *final(live), outcome),
{
    let url = match live.the_request() {
        Some(url) => url.to_owned(),
        None => {
            return None;
        },
    };
    dispatch(desk, url.as_str(), decode, list, check, visible_signature_of, write_scratch, listed, opened, live)
}

/// The signature handed on is the one consented: its document, its filter,
/// the site's parameters and whether it has unregistered signatures.
pub open spec fn consented_as(handed: PendingSignature, consented: PendingSignature) -> bool {
    &&& handed.document@ == consented.document@
    &&& same_filter(handed.filter, consented.filter)
    &&& handed.from_the_site@ == consented.from_the_site@
    &&& handed.unregistered_signatures == consented.unregistered_signatures
}

/// What consenting came to: the identity handed over, or a signature that
/// goes on with the PIN.
#[derive(Debug)]
pub enum Consented<S> {
    /// The site has the certificate and the errand is over.
    IdentityHandedOver,
    /// The presign opened the cycle; this is how to ask the store for its
    /// secret.
    SigningWith(S),
}

/// The person consents with one of the certificates in front of them: only
/// its handle comes from the window, and what was consented comes from what
/// was noted when the request was attended. An identity is handed over at
/// once; a signature opens its cycle. Whatever goes wrong, the site is told
/// at once with the code of the situation and the errand is over; with
/// nothing consented there is nothing to answer.
pub fn consent<SE, L, B, S>(
    select: &SE,
    certificate: &str,
    list: L,
    begin: B,
    listed: &ListedCertificates,
    live: &mut LiveErrand,
) -> (r: Result<Consented<S>, Failure>) where
    SE: Fn(&str, &str) -> Result<Vec<usize>, BridgeError>,
    L: FnOnce() -> Result<Vec<TokenCertificate>, TokenError>,
    B: FnOnce(&PendingSignature, &str) -> Result<S, SiteRefusal>,

    requires
        list.requires(()),
        forall|p: &PendingSignature, c: &str| begin.requires((p, c)),
        forall|e: &str, p: &str| select.requires((e, p)),
    ensures
        old(live).asks_identity() ==> exists|found: Result<Vec<TokenCertificate>, TokenError>, o: SiteOutcome, asked: SiteFilter|
            list.ensures((), found) && #[trigger] identified_as(*select, found, asked, listed@, certificate@, o) && same_filter(
                asked,
                old(live).identity_filter()->0,
            ) && is_over(*old(live), *final(live), o) && match o {
                SiteOutcome::Refused { failure, .. } => r == Err::<Consented<S>, Failure>(failure),
                _ => r matches Ok(Consented::IdentityHandedOver),
            },
        old(live).asks_signature() ==> exists|pending: PendingSignature, answered: Result<S, SiteRefusal>|
            #[trigger] begin.ensures((&pending, certificate), answered) && consented_as(
                pending,
                old(live).signature_pending()->0,
            ) && match answered {
                Ok(secret) => r == Ok::<Consented<S>, Failure>(Consented::SigningWith(secret)),
                Err(refusal) => r == Err::<Consented<S>, Failure>(refusal.failure_view()),
            },
        !old(live).asks_identity() && !old(live).asks_signature() ==> (r matches Err(f) && f.situation@
            == "siteErrandNotLive"@) && *final(live) == *old(live),
        old(live).asks_identity() ==> !(r matches Ok(Consented::SigningWith(_))) && !final(live).is_live()
            && !final(live).asks_identity() && !final(live).asks_signature(),
        old(live).asks_signature() && r is Ok ==> (r matches Ok(Consented::SigningWith(_))) && *final(live)
            == *old(live),
        old(live).asks_signature() && r is Err ==> !final(live).is_live() && !final(live).asks_signature()
            && final(live).current_view() is None,
{
    match live.what_the_site_asked() {
        Some(filter) => {
            let filter = filter.copied();
            let found = list();
            assert(list.ensures((), found));
            let ghost found_view = found;
            let outcome = identify_with(select, found, &filter, certificate, listed, live);
            assert(same_filter(filter, old(live).identity_filter()->0));
            return match outcome.failure() {
                Some(failure) => Err(failure.copied()),
                None => Ok(Consented::IdentityHandedOver),
            };
        },
        None => {},
    }
    let pending = match live.the_signature_consented() {
        Some(pending) => PendingSignature {
            document: pending.document.clone(),
            filter: pending.filter.copied(),
            from_the_site: copy_pairs(&pending.from_the_site),
            unregistered_signatures: pending.unregistered_signatures,
        },
        None => {
            return Err(
                Failure::new(
                    "siteErrandNotLive",
                    string_of(&chars_of("no hay ninguna identificacion ni firma pendiente que contestar")),
                ),
            );
        },
    };
    assert(consented_as(pending, old(live).signature_pending()->0));
    let answered = begin(&pending, certificate);
    assert(begin.ensures((&pending, certificate), answered));
    match answered {
        Ok(secret) => Ok(Consented::SigningWith(secret)),
        Err(refusal) => {
            let failure = refusal.failure().copied();
            the_signature_did_not_come_out(live, refusal);
            Err(failure)
        },
    }
}

/// The second half of consenting to a signature: the site receives the
/// signer's certificate and the signed PDF, and the errand is over; a
/// postsign that did not come out is told with its own code.
pub fn finish(finished: Result<SiteSignature, SiteRefusal>, live: &mut LiveErrand) -> (r: Result<(), Failure>)
    ensures
        !final(live).is_live(),
        !final(live).asks_signature(),
        match finished {
            Ok(signed) => r is Ok && is_over(
                *old(live),
                *final(live),
                SiteOutcome::Signature { signer_der: signed.signer_der, signed: signed.signed },
            ),
            Err(refusal) => r == Err::<(), Failure>(refusal.failure_view()) && is_over(
                *old(live),
                *final(live),
                SiteOutcome::Refused {
                    answer: WireAnswer::Refused(refusal.code_view()),
                    failure: refusal.failure_view(),
                },
            ),
        },
{
    match finished {
        Err(refusal) => {
            let failure = refusal.failure().copied();
            the_signature_did_not_come_out(live, refusal);
            Err(failure)
        },
        Ok(signed) => {
            signature_handed_over(live, &signed);
            Ok(())
        },
    }
}

/// The person says no: the site receives `CANCEL` at once, and with the
/// answer goes what was consented.
pub fn decline(live: &mut LiveErrand) -> (r: SiteOutcome)
    ensures
        r == SiteOutcome::Cancelled,
        is_over(*old(live), *final(live), SiteOutcome::Cancelled),
{
    declined(live)
}

} // verus!
