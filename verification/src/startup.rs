//! The launch of a site and the startup of the application: which channel
//! is opened and held, which window opens, and what the local CA's state
//! leaves the person in front of.
use vstd::prelude::*;

use crate::catalogue::{wire_line, SafCode, WireAnswer};
use crate::codec::{Refusal, V4Codec};
use crate::errand::{unchanged_but_moment, Errand, LiveErrand, Moment, NoChannel};
use crate::invocation::{first_launch, Invocation};
use crate::situations::{ChannelSituation, Failure};
use crate::text::{chars_of, string_of};
use crate::trust::{narrate_startup_outcome, narration, TrustOutcome};

verus! {

/// A channel bound on one of the ports a site drew. Closing it is the
/// transport's work, on whoever holds it.
#[derive(Debug, PartialEq, Eq)]
pub struct OpenChannel {
    port: u16,
}

impl OpenChannel {
    pub closed spec fn port_view(&self) -> u16 {
        self.port
    }

    pub fn new(port: u16) -> (c: OpenChannel)
        ensures
            c.port_view() == port,
    {
        OpenChannel { port }
    }

    pub fn port(&self) -> (p: u16)
        ensures
            p == self.port_view(),
    {
        self.port
    }
}

/// What a channel is opened for.
#[derive(Clone, Debug, PartialEq, Eq)]
pub enum ChannelDuty {
    /// To serve the conversation, closed with this credential.
    Serve(String),
    /// Only to say this code at the first message and close.
    Refuse(WireAnswer),
}

/// A channel that could not be opened.
#[derive(Clone, Debug, PartialEq, Eq)]
pub struct ChannelError {
    pub situation: ChannelSituation,
    pub detail: String,
}

impl ChannelError {
    pub fn new(situation: ChannelSituation, detail: String) -> (e: ChannelError)
        ensures
            e.situation == situation,
            e.detail@ == detail@,
    {
        ChannelError { situation, detail }
    }
}

/// Whoever binds one of the ports and serves the channel: the local
/// WebSocket server in production, a double in the tests.
pub trait Transport {
    fn open(&self, ports: &[u16], duty: ChannelDuty) -> Result<OpenChannel, ChannelError>;
}

/// Whether the transport, asked to bind one of these ports for this duty,
/// may have answered so.
pub open spec fn opened<O: Fn(&[u16], ChannelDuty) -> Result<OpenChannel, ChannelError>>(
    open: O,
    ports: Seq<u16>,
    duty: ChannelDuty,
    answered: Result<OpenChannel, ChannelError>,
) -> bool {
    exists|p: &[u16]| p@ == ports && #[trigger] open.ensures((p, duty), answered)
}

/// A site's launch, once read.
#[derive(Clone, Debug)]
pub enum Launch {
    /// Not even a URL of the protocol: there are no ports to read.
    NotAProtocolUrl(Refusal),
    /// A launch to attend: the credential it closes the channel with and the
    /// ports the site drew.
    Attended { credential: String, ports: Vec<u16> },
    /// A launch to refuse, with the ports the site drew, if any.
    Refused { refusal: Refusal, ports: Vec<u16> },
}

/// Where a site's launch stands.
#[derive(Debug)]
pub enum Attendance {
    /// The channel is open and serving the conversation of this errand.
    Serving { channel: OpenChannel, errand: Errand },
    /// The launch is refused over a channel opened only to say so.
    RefusingOverTheChannel { channel: OpenChannel, answer: WireAnswer },
    /// The launch is refused and there is no socket to say it through.
    RefusingInTheWindow(Refusal),
    /// The launch was good and the channel could not be opened.
    ChannelNotOpened(ChannelError),
}

/// The refusal of a launch that found another errand live.
pub open spec fn errand_in_flight(refusal: Refusal) -> bool {
    refusal.code == SafCode::CannotOpenSocket
}

/// What the window is told of a launch that found another errand live.
pub open spec fn in_flight_detail() -> Seq<char> {
    "ya hay un tramite de sede vivo: no se atienden dos a la vez"@
}

/// Whether a refusal with these drawn ports may have been answered so: over
/// a channel the transport opened to say its code, or in the window when the
/// site drew no ports or none could be bound.
pub open spec fn refused_as<O: Fn(&[u16], ChannelDuty) -> Result<OpenChannel, ChannelError>>(
    open: O,
    ports: Seq<u16>,
    refusal: Refusal,
    a: Attendance,
) -> bool {
    match a {
        Attendance::RefusingOverTheChannel { channel, answer } => ports.len() > 0 && answer == WireAnswer::Refused(
            refusal.code,
        ) && opened(open, ports, ChannelDuty::Refuse(answer), Ok(channel)),
        Attendance::RefusingInTheWindow(r) => r == refusal && (ports.len() == 0 || exists|e: ChannelError|
            opened(open, ports, ChannelDuty::Refuse(WireAnswer::Refused(refusal.code)), Err(e))),
        _ => false,
    }
}

/// Answers a refusal where it can be answered: over a socket when the site
/// drew ports, and in the window otherwise.
fn refuse<O>(ports: &Vec<u16>, refusal: Refusal, open: &O) -> (a: Attendance) where
    O: Fn(&[u16], ChannelDuty) -> Result<OpenChannel, ChannelError>,

    requires
        forall|p: &[u16], d: ChannelDuty| open.requires((p, d)),
    ensures
        refused_as(*open, ports@, refusal, a),
{
    if ports.len() == 0 {
        return Attendance::RefusingInTheWindow(refusal);
    }
    let asked = ports.as_slice();
    let duty = ChannelDuty::Refuse(refusal.answer());
    let answered = open(asked, duty);
    assert(open.ensures((asked, ChannelDuty::Refuse(WireAnswer::Refused(refusal.code))), answered));
    match answered {
        Ok(channel) => Attendance::RefusingOverTheChannel { channel, answer: refusal.answer() },
        Err(e) => {
            assert(opened(*open, ports@, ChannelDuty::Refuse(WireAnswer::Refused(refusal.code)), Err(e)));
            Attendance::RefusingInTheWindow(refusal)
        },
    }
}

/// Whether a launch may have been attended so, the live errand going from
/// `before` to `after`.
pub open spec fn launch_attended<O: Fn(&[u16], ChannelDuty) -> Result<OpenChannel, ChannelError>, C: Fn(OpenChannel)>(
    launch: Launch,
    open: O,
    close: C,
    before: LiveErrand,
    after: LiveErrand,
    r: Attendance,
) -> bool {
        match launch {
            Launch::NotAProtocolUrl(refusal) => r == Attendance::RefusingInTheWindow(refusal) && after
                == before,
            Launch::Refused { refusal, ports } => after == before && refused_as(open, ports@, refusal, r),
            Launch::Attended { credential, ports } => match r {
                Attendance::Serving { channel, errand } => {
                    &&& !before.is_live()
                    &&& opened(open, ports@, ChannelDuty::Serve(credential), Ok(channel))
                    &&& errand.credential_view() == credential@
                    &&& errand.port_view() == channel.port_view()
                    &&& after.current_view() == Some((credential@, channel.port_view()))
                },
                Attendance::ChannelNotOpened(e) => opened(open, ports@, ChannelDuty::Serve(credential), Err(e))
                    && after == before,
                _ => {
                    &&& before.is_live()
                    &&& after.current_view() == before.current_view()
                    &&& exists|c: OpenChannel|
                        opened(open, ports@, ChannelDuty::Serve(credential), Ok(c)) && #[trigger] close.ensures(
                            (c,),
                            (),
                        )
                    &&& exists|refusal: Refusal|
                        errand_in_flight(refusal) && refusal.detail@ == in_flight_detail() && refused_as(
                            open,
                            ports@,
                            refusal,
                            r,
                        )
                },
            },
        }
}

/// Attends a site's launch. A good one opens the channel on one of the
/// ports it drew and takes the place of the live errand; with one already
/// live, the channel just opened is closed first and the launch is refused
/// with `SAF_45`. A refusal goes over a socket when the site drew ports, and
/// to the window when it did not or none could be bound.
pub fn attend_launch<O, C>(launch: Launch, open: &O, close: &C, live: &mut LiveErrand) -> (r: Attendance) where
    O: Fn(&[u16], ChannelDuty) -> Result<OpenChannel, ChannelError>,
    C: Fn(OpenChannel),

    requires
        forall|p: &[u16], d: ChannelDuty| open.requires((p, d)),
        forall|c: OpenChannel| close.requires((c,)),
    ensures
        final(live).moment_view() == old(live).moment_view(),
        final(live).lines() == old(live).lines(),
        launch_attended(launch, *open, *close, *old(live), *final(live), r),
{
    match launch {
        Launch::NotAProtocolUrl(refusal) => Attendance::RefusingInTheWindow(refusal),
        Launch::Refused { refusal, ports } => refuse(&ports, refusal, open),
        Launch::Attended { credential, ports } => {
            let asked = ports.as_slice();
            let duty = ChannelDuty::Serve(credential.clone());
            let answered = open(asked, duty);
            assert(open.ensures((asked, ChannelDuty::Serve(credential)), answered));
            match answered {
                Err(error) => Attendance::ChannelNotOpened(error),
                Ok(channel) => {
                    let ghost bound = channel;
                    let errand = Errand::of(credential.as_str(), channel.port(), V4Codec);
                    let kept = errand.clone_errand();
                    if live.begin(errand) {
                        Attendance::Serving { channel, errand: kept }
                    } else {
                        close(channel);
                        assert(close.ensures((bound,), ()));
                        let refusal = Refusal::new(
                            SafCode::CannotOpenSocket,
                            string_of(&chars_of("ya hay un tramite de sede vivo: no se atienden dos a la vez")),
                        );
                        let ghost said = refusal;
                        let a = refuse(&ports, refusal, open);
                        assert(opened(*open, ports@, ChannelDuty::Serve(credential), Ok(bound)));
                        assert(errand_in_flight(said) && said.detail@ == in_flight_detail());
                        a
                    }
                },
            }
        },
    }
}

/// What the site's window opens on.
#[derive(Debug)]
pub enum SiteWindowContent {
    /// The errand that is being served.
    TheErrand(Errand),
    /// A dead end the errand cannot get past.
    ADeadEnd(DeadEnd),
}

/// Why an errand cannot go on.
#[derive(Debug)]
pub enum DeadEnd {
    /// The channel could not be opened on the ports drawn.
    ChannelNotOpened,
    /// The local CA is in no NSS store: no browser will even try the channel.
    NoLocalCa,
    /// The launch was refused and there was no channel to say it through.
    RefusedWithoutChannel(Refusal),
}

/// Whether the local CA is somewhere a browser can see it.
#[derive(Clone, Copy, Debug, PartialEq, Eq, Structural)]
pub enum LocalCaReach {
    /// Stores were looked at and none trusts it.
    Nowhere,
    /// It is somewhere, or nobody looked.
    NotAnObstacle,
}

/// The moment a window's content leaves the errand in.
pub open spec fn content_moment(content: SiteWindowContent) -> Moment {
    match content {
        SiteWindowContent::TheErrand(_) => Moment::Waiting,
        SiteWindowContent::ADeadEnd(DeadEnd::ChannelNotOpened) => Moment::NoChannel(NoChannel::ChannelNotOpened),
        SiteWindowContent::ADeadEnd(DeadEnd::NoLocalCa) => Moment::NoChannel(NoChannel::LocalCaMissing),
        SiteWindowContent::ADeadEnd(DeadEnd::RefusedWithoutChannel(refusal)) => Moment::RefusedWithoutChannel(
            refusal,
        ),
    }
}

impl SiteWindowContent {
    /// The moment of the errand this content shows.
    pub fn moment(&self) -> (m: Moment)
        ensures
            m == content_moment(*self),
    {
        match self {
            SiteWindowContent::TheErrand(_) => Moment::Waiting,
            SiteWindowContent::ADeadEnd(DeadEnd::ChannelNotOpened) => Moment::NoChannel(
                NoChannel::ChannelNotOpened,
            ),
            SiteWindowContent::ADeadEnd(DeadEnd::NoLocalCa) => Moment::NoChannel(NoChannel::LocalCaMissing),
            SiteWindowContent::ADeadEnd(DeadEnd::RefusedWithoutChannel(refusal)) => Moment::RefusedWithoutChannel(
                refusal.copied(),
            ),
        }
    }
}

/// The moment noted once a window opens on this content, if one does.
pub open spec fn noted_moment(window: Option<SiteWindowContent>, before: Option<Moment>) -> Option<Moment> {
    match window {
        Some(content) => Some(content_moment(content)),
        None => before,
    }
}

/// What a site's launch decided, with the window it opens, if any.
#[derive(Debug)]
pub struct SiteLaunch {
    pub attendance: Attendance,
    pub window: Option<SiteWindowContent>,
}

/// Attends a site's launch and decides the window: the errand when it is
/// served and the local CA is no obstacle, a dead end when the CA is
/// nowhere, the channel did not open or the refusal has no socket; no window
/// at all for a refusal answered over a socket. The window's moment is
/// noted in the live errand.
pub fn attend_site_launch<O, C>(
    launch: Launch,
    open: &O,
    close: &C,
    live: &mut LiveErrand,
    local_ca: LocalCaReach,
) -> (r: SiteLaunch) where
    O: Fn(&[u16], ChannelDuty) -> Result<OpenChannel, ChannelError>,
    C: Fn(OpenChannel),

    requires
        forall|p: &[u16], d: ChannelDuty| open.requires((p, d)),
        forall|c: OpenChannel| close.requires((c,)),
    ensures
        exists|mid: LiveErrand|
            launch_attended(launch, *open, *close, *old(live), mid, r.attendance) && #[trigger] unchanged_but_moment(
                mid,
                *final(live),
            ),
        match r.attendance {
            Attendance::Serving { .. } => match local_ca {
                LocalCaReach::Nowhere => r.window matches Some(SiteWindowContent::ADeadEnd(DeadEnd::NoLocalCa)),
                LocalCaReach::NotAnObstacle => r.window matches Some(SiteWindowContent::TheErrand(_)),
            },
            Attendance::ChannelNotOpened(_) => r.window matches Some(
                SiteWindowContent::ADeadEnd(DeadEnd::ChannelNotOpened),
            ),
            Attendance::RefusingInTheWindow(refusal) => r.window matches Some(
                SiteWindowContent::ADeadEnd(DeadEnd::RefusedWithoutChannel(shown)),
            ) && shown == refusal,
            Attendance::RefusingOverTheChannel { .. } => r.window is None,
        },
        final(live).moment_view() == noted_moment(r.window, old(live).moment_view()),
{
    let attendance = attend_launch(launch, open, close, live);
    let ghost mid = *live;
    let window = match &attendance {
        Attendance::Serving { errand, .. } => match local_ca {
            LocalCaReach::Nowhere => Some(SiteWindowContent::ADeadEnd(DeadEnd::NoLocalCa)),
            LocalCaReach::NotAnObstacle => Some(SiteWindowContent::TheErrand(errand.clone_errand())),
        },
        Attendance::ChannelNotOpened(_) => Some(SiteWindowContent::ADeadEnd(DeadEnd::ChannelNotOpened)),
        Attendance::RefusingInTheWindow(refusal) => Some(
            SiteWindowContent::ADeadEnd(DeadEnd::RefusedWithoutChannel(refusal.copied())),
        ),
        Attendance::RefusingOverTheChannel { .. } => None,
    };
    if let Some(content) = &window {
        live.note(content.moment());
    }
    assert(unchanged_but_moment(mid, *live));
    SiteLaunch { attendance, window }
}

/// What the startup leaves: what was said of the local CA and the window
/// that opens.
#[derive(Debug)]
pub struct Startup {
    pub said: Vec<String>,
    pub opening: Opening,
}

/// The window a startup opens.
#[derive(Debug)]
pub enum Opening {
    /// The main window, for local use or a document named.
    TheMainWindow,
    /// The site's errand, without the main window.
    TheSiteErrand(SiteLaunch),
}

/// A local CA that could not even be read or written.
#[derive(Clone, Debug, PartialEq, Eq)]
pub struct TlsError {
    pub detail: String,
}

/// What is said of the refresh of the local CA at startup, and whether the
/// CA is an obstacle: a CA that could not be refreshed is said and the
/// startup goes on without it.
pub fn refresh_the_local_ca(refreshed: Result<TrustOutcome, TlsError>, profiles: &[String]) -> (r: (
    Vec<String>,
    LocalCaReach,
))
    ensures
        match refreshed {
            Ok(outcome) => r.0@.map_values(|l: String| l@) == narration(outcome, profiles@.len()) && (r.1
                == LocalCaReach::Nowhere <==> outcome.is_nowhere()),
            Err(error) => r.0@.len() == 1 && r.1 == LocalCaReach::NotAnObstacle,
        },
{
    match refreshed {
        Ok(outcome) => {
            let reach = if outcome.nowhere() {
                LocalCaReach::Nowhere
            } else {
                LocalCaReach::NotAnObstacle
            };
            (narrate_startup_outcome(outcome, profiles), reach)
        },
        Err(error) => {
            let mut line = chars_of("rfirma: no se puede refrescar la CA local (");
            let mut detail = chars_of(error.detail.as_str());
            let mut tail = chars_of("); el arranque sigue sin ella");
            line.append(&mut detail);
            line.append(&mut tail);
            let mut said: Vec<String> = Vec::new();
            said.push(string_of(&line));
            (said, LocalCaReach::NotAnObstacle)
        },
    }
}

/// Attends the invocation that started the application: the local CA is
/// refreshed and told first, and then either the main window opens or, for
/// a site's launch, its errand is attended without it.
pub fn attend_startup<O, C>(
    invocation: &Invocation,
    launch: Option<Launch>,
    refreshed: Result<TrustOutcome, TlsError>,
    profiles: &[String],
    open: &O,
    close: &C,
    live: &mut LiveErrand,
) -> (s: Startup) where
    O: Fn(&[u16], ChannelDuty) -> Result<OpenChannel, ChannelError>,
    C: Fn(OpenChannel),

    requires
        first_launch(invocation.command_line@, 1) is Some <==> launch is Some,
        forall|p: &[u16], d: ChannelDuty| open.requires((p, d)),
        forall|c: OpenChannel| close.requires((c,)),
    ensures
        launch is None <==> s.opening is TheMainWindow,
        launch is None ==> *final(live) == *old(live),
        match refreshed {
            Ok(outcome) => s.said@.map_values(|l: String| l@) == narration(outcome, profiles@.len()),
            Err(_) => s.said@.len() == 1,
        },
{
    let (said, local_ca) = refresh_the_local_ca(refreshed, profiles);
    if invocation.site_launch().is_none() {
        return Startup { said, opening: Opening::TheMainWindow };
    }
    match launch {
        None => Startup { said, opening: Opening::TheMainWindow },
        Some(launch) => Startup {
            said,
            opening: Opening::TheSiteErrand(attend_site_launch(launch, open, close, live, local_ca)),
        },
    }
}

/// The channels held for the site: the one serving the live errand and the
/// one open only to say a refusal.
#[derive(Debug)]
pub struct HeldChannel {
    serving: Option<OpenChannel>,
    refusing: Option<OpenChannel>,
}

impl Default for HeldChannel {
    /// Nothing held yet.
    fn default() -> (h: HeldChannel)
        ensures
            h.serving_port() is None,
            h.refusing_port() is None,
    {
        HeldChannel { serving: None, refusing: None }
    }
}

impl HeldChannel {
    pub closed spec fn serving_port(&self) -> Option<u16> {
        match self.serving {
            Some(c) => Some(c.port),
            None => None,
        }
    }

    pub closed spec fn refusing_port(&self) -> Option<u16> {
        match self.refusing {
            Some(c) => Some(c.port),
            None => None,
        }
    }

    /// Holds the channel of a live errand; the one it replaces, if any, is
    /// handed back to be closed.
    pub fn hold(&mut self, channel: OpenChannel) -> (replaced: Option<OpenChannel>)
        ensures
            final(self).serving_port() == Some(channel.port_view()),
            final(self).refusing_port() == old(self).refusing_port(),
            match replaced {
                Some(c) => old(self).serving_port() == Some(c.port_view()),
                None => old(self).serving_port() is None,
            },
    {
        let replaced = self.serving.take();
        self.serving = Some(channel);
        replaced
    }

    /// Whether a channel serves a live errand.
    pub fn is_serving(&self) -> (r: bool)
        ensures
            r == self.serving_port() is Some,
    {
        self.serving.is_some()
    }

    /// Holds a channel open only to say a refusal; it never touches the one
    /// serving, and the refusal it replaces, if any, is handed back to be
    /// closed.
    pub fn hold_a_refusal(&mut self, channel: OpenChannel) -> (replaced: Option<OpenChannel>)
        ensures
            final(self).refusing_port() == Some(channel.port_view()),
            final(self).serving_port() == old(self).serving_port(),
            match replaced {
                Some(c) => old(self).refusing_port() == Some(c.port_view()),
                None => old(self).refusing_port() is None,
            },
    {
        let replaced = self.refusing.take();
        self.refusing = Some(channel);
        replaced
    }
}

/// Holds the channel a launch opened, or says why there is none: what is
/// said, and the channel left to close.
pub fn hold_the_channel(held: &mut HeldChannel, attendance: Attendance) -> (r: (
    Vec<String>,
    Option<OpenChannel>,
))
    ensures
        match attendance {
            Attendance::Serving { channel, .. } => {
                &&& r.0@.len() == 0
                &&& final(held).serving_port() == Some(channel.port_view())
                &&& final(held).refusing_port() == old(held).refusing_port()
                &&& match r.1 {
                    Some(c) => old(held).serving_port() == Some(c.port_view()),
                    None => old(held).serving_port() is None,
                }
            },
            Attendance::RefusingOverTheChannel { channel, .. } => {
                &&& r.0@.len() == 0
                &&& final(held).refusing_port() == Some(channel.port_view())
                &&& final(held).serving_port() == old(held).serving_port()
                &&& match r.1 {
                    Some(c) => old(held).refusing_port() == Some(c.port_view()),
                    None => old(held).refusing_port() is None,
                }
            },
            Attendance::RefusingInTheWindow(refusal) => {
                &&& r.1 is None
                &&& *final(held) == *old(held)
                &&& r.0@.len() == 1
                &&& r.0@[0]@ == "rfirma: la invocacion de sede se rechaza con "@ + wire_line(
                    WireAnswer::Refused(refusal.code),
                ) + " y no hay canal por el que decirlo: "@ + refusal.detail@
            },
            Attendance::ChannelNotOpened(error) => {
                &&& r.1 is None
                &&& *final(held) == *old(held)
                &&& r.0@.len() == 1
                &&& r.0@[0]@ == "rfirma: la invocacion de sede era buena pero no se abrio el canal ("@
                    + error.detail@ + ")"@
            },
        },
{
    match attendance {
        Attendance::Serving { channel, .. } => (Vec::new(), held.hold(channel)),
        Attendance::RefusingOverTheChannel { channel, .. } => (Vec::new(), held.hold_a_refusal(channel)),
        Attendance::RefusingInTheWindow(refusal) => {
            let mut line = chars_of("rfirma: la invocacion de sede se rechaza con ");
            let mut code = chars_of(refusal.answer().on_the_wire().as_str());
            let mut middle = chars_of(" y no hay canal por el que decirlo: ");
            let mut detail = chars_of(refusal.detail.as_str());
            line.append(&mut code);
            line.append(&mut middle);
            line.append(&mut detail);
            let mut said: Vec<String> = Vec::new();
            said.push(string_of(&line));
            (said, None)
        },
        Attendance::ChannelNotOpened(error) => {
            let mut line = chars_of("rfirma: la invocacion de sede era buena pero no se abrio el canal (");
            let mut detail = chars_of(error.detail.as_str());
            let mut tail = chars_of(")");
            line.append(&mut detail);
            line.append(&mut tail);
            let mut said: Vec<String> = Vec::new();
            said.push(string_of(&line));
            (said, None)
        },
    }
}

/// What the repair screen is left on after installing the local CA: it only
/// waits when a channel is serving, and without the CA in any store it asks
/// for it again, channel or not.
pub fn what_the_repair_leaves(in_some_store: bool, channel_is_serving: bool) -> (m: Moment)
    ensures
        !in_some_store ==> m == Moment::NoChannel(NoChannel::LocalCaMissing),
        in_some_store && channel_is_serving ==> m == Moment::Waiting,
        in_some_store && !channel_is_serving ==> m == Moment::NoChannel(NoChannel::ChannelNotOpened),
{
    if !in_some_store {
        Moment::NoChannel(NoChannel::LocalCaMissing)
    } else if channel_is_serving {
        Moment::Waiting
    } else {
        Moment::NoChannel(NoChannel::ChannelNotOpened)
    }
}

/// The person asked to install the local CA from the repair screen: the
/// refresh's result decides whether it reached a store, and the screen is
/// left on what that and the held channel call for.
pub fn repair_the_local_ca(refreshed: Result<TrustOutcome, TlsError>, held: &HeldChannel, live: &mut LiveErrand) -> (m:
    Moment)
    ensures
        m == what_the_repair_moment(
            refreshed matches Ok(outcome) && !outcome.is_nowhere(),
            held.serving_port() is Some,
        ),
        final(live).moment_view() == Some(m),
        final(live).current_view() == old(live).current_view(),
{
    let in_some_store = match &refreshed {
        Ok(outcome) => !outcome.nowhere(),
        Err(_) => false,
    };
    let serving = held.is_serving();
    live.note(what_the_repair_leaves(in_some_store, serving));
    what_the_repair_leaves(in_some_store, serving)
}

/// The moment the repair leaves, as a value.
pub open spec fn what_the_repair_moment(in_some_store: bool, channel_is_serving: bool) -> Moment {
    if !in_some_store {
        Moment::NoChannel(NoChannel::LocalCaMissing)
    } else if channel_is_serving {
        Moment::Waiting
    } else {
        Moment::NoChannel(NoChannel::ChannelNotOpened)
    }
}

} // verus!
