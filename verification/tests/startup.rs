use std::cell::RefCell;

use rfirma::catalogue::{SafCode, WireAnswer};
use rfirma::codec::{Refusal, V4Codec};
use rfirma::errand::{Errand, LiveErrand, Moment, NoChannel};
use rfirma::invocation::Invocation;
use rfirma::situations::ChannelSituation;
use rfirma::startup::{
    attend_launch, attend_site_launch, attend_startup, hold_the_channel, repair_the_local_ca,
    what_the_repair_leaves, Attendance, ChannelDuty, ChannelError, DeadEnd, HeldChannel, Launch,
    LocalCaReach, OpenChannel, Opening, SiteWindowContent, TlsError, Transport,
};
use rfirma::trust::{PendingNotice, Stage, TrustOutcome, Work};

const CREDENTIAL: &str = "8jAkPZfRw2mQxN4TbYuL";
const PORTS: [u16; 3] = [51001, 51002, 51003];

/// A transport that notes what it was asked and binds the first port, or
/// none when every port is taken.
#[derive(Default)]
struct World {
    asked: RefCell<Vec<(Vec<u16>, ChannelDuty)>>,
    every_port_taken: bool,
}

impl Transport for World {
    fn open(&self, ports: &[u16], duty: ChannelDuty) -> Result<OpenChannel, ChannelError> {
        self.asked.borrow_mut().push((ports.to_vec(), duty));
        if self.every_port_taken {
            return Err(ChannelError::new(
                ChannelSituation::NoDrawnPortIsFree,
                "los tres puertos sorteados estan ocupados".to_owned(),
            ));
        }
        Ok(OpenChannel::new(*ports.first().expect("la sede sorteo puertos")))
    }
}

fn a_good_launch() -> Launch {
    Launch::Attended { credential: CREDENTIAL.to_owned(), ports: PORTS.to_vec() }
}

fn invoked_with_a_launch() -> Invocation {
    Invocation {
        command_line: vec![
            "rfirma".to_owned(),
            format!("afirma://websocket?ports=51001,51002,51003&v=4&idsession={CREDENTIAL}"),
        ],
        folder: "/tmp".to_owned(),
    }
}

fn unwritable_local_ca_material_is_said_but_does_not_stop_the_errand() {
    let world = World::default();
    let mut live = LiveErrand::default();

    let startup = attend_startup(
        &invoked_with_a_launch(),
        Some(a_good_launch()),
        Err(TlsError { detail: "no se puede escribir en /proc".to_owned() }),
        &["/perfiles/firefox".to_owned()],
        &|p: &[u16], d: ChannelDuty| world.open(p, d),
        &|_c: OpenChannel| {},
        &mut live,
    );

    assert!(
        startup.said.iter().any(|line| line.contains("no se puede refrescar la CA local")),
        "lo que no se puede escribir se dice: {:?}",
        startup.said
    );
    assert!(
        matches!(&startup.opening, Opening::TheSiteErrand(launch) if matches!(launch.attendance, Attendance::Serving { .. })),
        "y el tramite se atiende igual: {:?}",
        startup.opening
    );
}

fn a_second_launch_with_a_live_errand_gets_no_window_of_its_own() {
    let world = World::default();
    let mut live = LiveErrand::default();
    assert!(live.begin(Errand::of(CREDENTIAL, PORTS[0], V4Codec)), "el primero se queda con la plaza");

    let launch = attend_site_launch(a_good_launch(), &|p: &[u16], d: ChannelDuty| world.open(p, d), &|_c: OpenChannel| {}, &mut live, LocalCaReach::NotAnObstacle);

    assert!(
        matches!(launch.attendance, Attendance::RefusingOverTheChannel { .. }),
        "el que llega se entera por su propio canal: {:?}",
        launch.attendance
    );
    assert!(launch.window.is_none(), "no hay segunda ventana de sede");
}

fn a_second_invocation_never_touches_the_trust_stores() {
    let world = World::default();
    let mut live = LiveErrand::default();

    let launch = attend_site_launch(a_good_launch(), &|p: &[u16], d: ChannelDuty| world.open(p, d), &|_c: OpenChannel| {}, &mut live, LocalCaReach::NotAnObstacle);

    assert!(matches!(launch.attendance, Attendance::Serving { .. }));
    assert_eq!(world.asked.borrow().len(), 1, "solo se abre el canal");
    assert!(matches!(&launch.window, Some(SiteWindowContent::TheErrand(errand)) if errand.port() == PORTS[0]));
}

#[test]
fn startup_unwritable_local_ca_material_is_said_but_does_not_stop_the_errand() {
    unwritable_local_ca_material_is_said_but_does_not_stop_the_errand();
}

#[test]
fn mod_unwritable_local_ca_material_is_said_but_does_not_stop_the_errand() {
    unwritable_local_ca_material_is_said_but_does_not_stop_the_errand();
}

#[test]
fn startup_a_second_launch_with_a_live_errand_gets_no_window_of_its_own() {
    a_second_launch_with_a_live_errand_gets_no_window_of_its_own();
}

#[test]
fn mod_a_second_launch_with_a_live_errand_gets_no_window_of_its_own() {
    a_second_launch_with_a_live_errand_gets_no_window_of_its_own();
}

#[test]
fn startup_a_second_invocation_never_touches_the_trust_stores() {
    a_second_invocation_never_touches_the_trust_stores();
}

#[test]
fn mod_a_second_invocation_never_touches_the_trust_stores() {
    a_second_invocation_never_touches_the_trust_stores();
}

#[test]
fn a_startup_without_a_launch_opens_the_main_window() {
    let world = World::default();
    let mut live = LiveErrand::default();
    let invocation = Invocation { command_line: vec!["rfirma".to_owned()], folder: "/tmp".to_owned() };
    let outcome = TrustOutcome {
        stage: Stage::InForce,
        work: Work::InstallTheOneWeHave,
        trusted: 1,
        missed: Vec::new(),
        notice: PendingNotice::none(),
    };

    let startup = attend_startup(&invocation, None, Ok(outcome), &["/perfiles/firefox".to_owned()], &|p: &[u16], d: ChannelDuty| world.open(p, d), &|_c: OpenChannel| {}, &mut live);

    assert!(matches!(startup.opening, Opening::TheMainWindow));
    assert!(startup.said.is_empty());
    assert!(world.asked.borrow().is_empty());
}

#[test]
fn a_served_launch_with_the_local_ca_nowhere_is_a_dead_end() {
    let world = World::default();
    let mut live = LiveErrand::default();

    let launch = attend_site_launch(a_good_launch(), &|p: &[u16], d: ChannelDuty| world.open(p, d), &|_c: OpenChannel| {}, &mut live, LocalCaReach::Nowhere);

    assert!(matches!(launch.window, Some(SiteWindowContent::ADeadEnd(DeadEnd::NoLocalCa))));
    assert_eq!(live.moment(), Some(&Moment::NoChannel(NoChannel::LocalCaMissing)));
}

#[test]
fn a_launch_that_loses_the_place_hands_its_channel_back_to_be_closed() {
    let world = World::default();
    let mut live = LiveErrand::default();
    assert!(live.begin(Errand::of(CREDENTIAL, 50000, V4Codec)));

    let closed = RefCell::new(Vec::new());
    let attendance = attend_launch(
        a_good_launch(),
        &|p: &[u16], d: ChannelDuty| world.open(p, d),
        &|c: OpenChannel| closed.borrow_mut().push(c.port()),
        &mut live,
    );

    assert_eq!(*closed.borrow(), vec![PORTS[0]], "el canal recien abierto se cierra antes de rechazar");
    let Attendance::RefusingOverTheChannel { answer, .. } = attendance else {
        panic!("se rechaza por su canal: {attendance:?}");
    };
    assert_eq!(answer, WireAnswer::refused(SafCode::CannotOpenSocket));
    assert_eq!(live.current().map(|errand| errand.port()), Some(50000), "la plaza sigue siendo del primero");
}

#[test]
fn a_refusal_without_drawn_ports_is_only_shown_in_the_window() {
    let world = World::default();
    let mut live = LiveErrand::default();
    let refusal = Refusal::new(SafCode::Params, "sin puertos".to_owned());

    let attendance = attend_launch(Launch::Refused { refusal, ports: Vec::new() }, &|p: &[u16], d: ChannelDuty| world.open(p, d), &|_c: OpenChannel| {}, &mut live);

    assert!(matches!(attendance, Attendance::RefusingInTheWindow(refusal) if refusal.code() == SafCode::Params));
    assert!(world.asked.borrow().is_empty());
}

#[test]
fn a_good_launch_with_every_port_taken_has_no_channel() {
    let world = World { every_port_taken: true, ..World::default() };
    let mut live = LiveErrand::default();

    let launch = attend_site_launch(a_good_launch(), &|p: &[u16], d: ChannelDuty| world.open(p, d), &|_c: OpenChannel| {}, &mut live, LocalCaReach::NotAnObstacle);

    assert!(matches!(launch.attendance, Attendance::ChannelNotOpened(_)));
    assert!(matches!(launch.window, Some(SiteWindowContent::ADeadEnd(DeadEnd::ChannelNotOpened))));
    assert!(live.current().is_none());
}

#[test]
fn a_refusal_never_closes_the_channel_of_the_live_errand() {
    let mut held = HeldChannel::default();

    let first = held.hold(OpenChannel::new(PORTS[0]));
    let second = held.hold_a_refusal(OpenChannel::new(PORTS[1]));

    assert!(first.is_none() && second.is_none(), "el canal del tramite vivo sigue sirviendo");
    assert!(held.is_serving());
}

#[test]
fn a_new_refusal_closes_the_refusal_it_replaces() {
    let mut held = HeldChannel::default();

    held.hold_a_refusal(OpenChannel::new(PORTS[0]));
    let replaced = held.hold_a_refusal(OpenChannel::new(PORTS[1]));

    assert_eq!(replaced.map(|channel| channel.port()), Some(PORTS[0]));
}

#[test]
fn an_unheld_channel_is_not_serving() {
    let held = HeldChannel::default();

    assert!(!held.is_serving());
}

#[test]
fn only_the_channel_of_the_errand_counts_as_serving() {
    let mut held = HeldChannel::default();

    held.hold_a_refusal(OpenChannel::new(PORTS[0]));
    assert!(!held.is_serving());

    held.hold(OpenChannel::new(PORTS[1]));
    assert!(held.is_serving());
}

#[test]
fn a_new_serving_channel_closes_the_one_it_replaces() {
    let mut held = HeldChannel::default();

    held.hold(OpenChannel::new(PORTS[0]));
    let replaced = held.hold(OpenChannel::new(PORTS[1]));

    assert_eq!(replaced.map(|channel| channel.port()), Some(PORTS[0]));
}

#[test]
fn a_refusal_with_no_socket_is_said_in_the_log() {
    let mut held = HeldChannel::default();
    let refusal = Refusal::new(SafCode::Params, "falta ports".to_owned());

    let (said, to_close) = hold_the_channel(&mut held, Attendance::RefusingInTheWindow(refusal));

    assert_eq!(said.len(), 1);
    assert!(said[0].contains("SAF_03"), "{}", said[0]);
    assert!(said[0].contains("falta ports"));
    assert!(to_close.is_none());
    assert!(!held.is_serving());
}

#[test]
fn the_repair_only_waits_when_a_channel_is_serving() {
    assert_eq!(what_the_repair_leaves(true, true), Moment::Waiting);
    assert_eq!(what_the_repair_leaves(true, false), Moment::NoChannel(NoChannel::ChannelNotOpened));
}

#[test]
fn the_repair_asks_for_the_local_ca_again_when_it_reached_no_store() {
    for serving in [true, false] {
        assert_eq!(what_the_repair_leaves(false, serving), Moment::NoChannel(NoChannel::LocalCaMissing));
    }
}

#[test]
fn a_repair_whose_material_failed_asks_for_the_local_ca_again() {
    let mut held = HeldChannel::default();
    held.hold(OpenChannel::new(PORTS[0]));
    let mut live = LiveErrand::default();

    let moment = repair_the_local_ca(Err(TlsError { detail: "sin disco".to_owned() }), &held, &mut live);

    assert_eq!(moment, Moment::NoChannel(NoChannel::LocalCaMissing));
    assert_eq!(live.moment(), Some(&Moment::NoChannel(NoChannel::LocalCaMissing)));
}
