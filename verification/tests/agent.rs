use tcn_exchange::agent::{Action, Agent, Event, Failure, Phase, Settings};
use tcn_exchange::clock::{TimeSpan, UnixTime};
use tcn_exchange::keys::{ReportAuthorizationKey, TemporaryContactNumber};
use tcn_exchange::report::SignedReport;
use tcn_exchange::simulation::Schedule;
use tcn_exchange::user::{FetchRequest, Received, User};

fn rak(tag: u8) -> ReportAuthorizationKey {
    ReportAuthorizationKey::from_bytes([tag; 32])
}

fn schedule(tcks_per_rak: u16) -> Schedule {
    Schedule {
        tcks_per_rak,
        max_tcks: 100,
        raks_to_report: 14,
    }
}

fn agent(tcks_per_rak: u16) -> Agent {
    let settings = Settings::new(schedule(tcks_per_rak), 4, 6).unwrap();
    Agent::new(User::with_rak(0, rak(1)), settings)
}

fn tick(next: u8, report_draw: bool, change_draw: bool, since_secs: u64) -> Event {
    Event::Tick {
        next_rak: rak(next),
        report_draw,
        change_draw,
        now: UnixTime::new(605, 0).unwrap(),
        since_last_fetch: TimeSpan::new(since_secs, 0).unwrap(),
    }
}

fn empty() -> Event {
    Event::Received {
        received: Received::Empty,
        heard: false,
    }
}

#[test]
fn settings_need_a_shard_and_an_interval() {
    assert!(Settings::new(schedule(3), 0, 6).is_none());
    assert!(Settings::new(schedule(3), 4, 0).is_none());
    let settings = Settings::new(schedule(3), 4, 6).unwrap();
    assert_eq!(settings.num_shards(), 4);
    assert_eq!(settings.server_batch_interval(), 6);
    assert_eq!(settings.schedule(), schedule(3));
}

#[test]
fn a_quiet_tick_sends_receives_and_waits() {
    let mut agent = agent(3);
    assert_eq!(agent.phase(), Phase::Idle);
    let first = rak(1).initial_temporary_contact_key().temporary_contact_number();
    match agent.advance(tick(2, true, false, 0)) {
        Action::Send(tcn) => assert_eq!(tcn.0, first.0),
        other => panic!("expected a send, got {:?}", other),
    }
    assert_eq!(agent.phase(), Phase::Sending);
    assert!(matches!(agent.advance(Event::Sent), Action::Receive));
    assert_eq!(agent.phase(), Phase::Observing);
    let heard = TemporaryContactNumber([5u8; 16]);
    let received = Event::Received {
        received: Received::Number(heard),
        heard: true,
    };
    assert!(matches!(agent.advance(received), Action::Receive));
    let lagged = Event::Received {
        received: Received::Lagged(3),
        heard: true,
    };
    assert!(matches!(agent.advance(lagged), Action::Receive));
    assert!(matches!(agent.advance(empty()), Action::Wait));
    assert_eq!(agent.phase(), Phase::Idle);
    assert!(agent.user().has_observed(&heard));
    assert_eq!(agent.user().tck().index(), 2);
    assert_eq!(agent.user().past_raks(), 0);
}

#[test]
fn a_full_tick_takes_every_step_in_order() {
    let mut agent = agent(1);
    // Use up the only key of the first rak.
    let only = match agent.advance(tick(2, true, false, 0)) {
        Action::Send(tcn) => tcn,
        other => panic!("expected a send, got {:?}", other),
    };
    agent.advance(Event::Sent);
    assert!(matches!(agent.advance(empty()), Action::Wait));
    // Now rotation is due; the draws ask for a report and a shard change,
    // and a fetch is overdue.
    let first_of_next = rak(2).initial_temporary_contact_key().temporary_contact_number();
    match agent.advance(tick(2, true, true, 7)) {
        Action::Send(tcn) => assert_eq!(tcn.0, first_of_next.0),
        other => panic!("expected a send, got {:?}", other),
    }
    assert_eq!(agent.user().past_raks(), 1);
    assert!(matches!(agent.advance(Event::Sent), Action::Receive));
    let moved_to = match agent.advance(empty()) {
        Action::Subscribe(shard) => shard,
        other => panic!("expected a shard change, got {:?}", other),
    };
    assert!(moved_to < 4);
    assert_eq!(agent.user().shard(), moved_to);
    assert_eq!(agent.phase(), Phase::Subscribing);
    match agent.advance(Event::Subscribed) {
        Action::Fetch(plan) => assert_eq!(
            plan,
            vec![
                FetchRequest { shard: 0, bucket: 99 },
                FetchRequest { shard: 0, bucket: 99 },
            ]
        ),
        other => panic!("expected a fetch, got {:?}", other),
    }
    assert_eq!(agent.phase(), Phase::Fetching);
    // The report on the first rak discloses the one number sent under it.
    match agent.advance(Event::Fetched) {
        Action::Submit(plan) => {
            assert_eq!(plan.len(), 1);
            let report = SignedReport::read(&plan[0].body).unwrap().verify().unwrap();
            let disclosed = report.temporary_contact_numbers();
            assert_eq!(disclosed.len(), 1);
            assert_eq!(disclosed[0].0, only.0);
        }
        other => panic!("expected submissions, got {:?}", other),
    }
    assert_eq!(agent.phase(), Phase::Submitting);
    assert!(matches!(agent.advance(Event::Submitted), Action::Wait));
    assert_eq!(agent.phase(), Phase::Idle);
}

#[test]
fn the_report_covers_every_number_sent_under_the_key() {
    let mut agent = agent(5);
    let mut sent = Vec::new();
    for _ in 0..5 {
        match agent.advance(tick(2, true, false, 0)) {
            Action::Send(tcn) => sent.push(tcn.0),
            other => panic!("expected a send, got {:?}", other),
        }
        agent.advance(Event::Sent);
        assert!(matches!(agent.advance(empty()), Action::Wait));
    }
    assert!(matches!(agent.advance(tick(2, true, false, 0)), Action::Send(_)));
    agent.advance(Event::Sent);
    match agent.advance(empty()) {
        Action::Submit(plan) => {
            let report = SignedReport::read(&plan[0].body).unwrap().verify().unwrap();
            let disclosed: Vec<[u8; 16]> = report
                .temporary_contact_numbers()
                .iter()
                .map(|t| t.0)
                .collect();
            assert_eq!(disclosed, sent);
        }
        other => panic!("expected submissions, got {:?}", other),
    }
}

#[test]
fn without_a_key_per_rak_there_is_nothing_to_report() {
    let mut agent = agent(0);
    // Rotation is due at once, and the draw asks for a report.
    assert!(matches!(agent.advance(tick(2, true, false, 0)), Action::Send(_)));
    assert_eq!(agent.user().past_raks(), 1);
    agent.advance(Event::Sent);
    assert!(matches!(
        agent.advance(empty()),
        Action::Stop(Failure::CannotReport)
    ));
    assert_eq!(agent.phase(), Phase::Stopped);
}

#[test]
fn a_report_is_planned_after_rotation_when_drawn() {
    let mut agent = agent(2);
    for _ in 0..2 {
        assert!(matches!(agent.advance(tick(2, true, false, 0)), Action::Send(_)));
        agent.advance(Event::Sent);
        assert!(matches!(agent.advance(empty()), Action::Wait));
    }
    assert!(matches!(agent.advance(tick(2, true, false, 0)), Action::Send(_)));
    agent.advance(Event::Sent);
    match agent.advance(empty()) {
        Action::Submit(plan) => {
            assert_eq!(plan.len(), 1);
            assert_eq!(plan[0].shard, 0);
            let expected = rak(1)
                .create_report(tcn_exchange::report::MemoType::CoEpiV1, Vec::new(), 1, 3)
                .unwrap();
            assert_eq!(plan[0].body, expected.as_bytes().to_vec());
        }
        other => panic!("expected submissions, got {:?}", other),
    }
    assert_eq!(agent.phase(), Phase::Submitting);
    assert!(matches!(agent.advance(Event::Submitted), Action::Wait));
    assert_eq!(agent.phase(), Phase::Idle);
}

#[test]
fn no_report_without_the_draw() {
    let mut agent = agent(2);
    for _ in 0..3 {
        assert!(matches!(agent.advance(tick(2, false, false, 0)), Action::Send(_)));
        agent.advance(Event::Sent);
        assert!(matches!(agent.advance(empty()), Action::Wait));
    }
    assert_eq!(agent.user().past_raks(), 1);
}

#[test]
fn a_fetch_is_made_only_when_due() {
    let mut agent = agent(5);
    agent.advance(tick(2, false, false, 6));
    agent.advance(Event::Sent);
    assert!(matches!(agent.advance(empty()), Action::Wait));
    agent.advance(tick(2, false, false, 7));
    agent.advance(Event::Sent);
    assert!(matches!(agent.advance(empty()), Action::Fetch(_)));
    assert!(matches!(agent.advance(Event::Fetched), Action::Wait));
}

#[test]
fn a_closed_channel_stops_the_agent() {
    let mut agent = agent(5);
    agent.advance(tick(2, false, false, 0));
    agent.advance(Event::Sent);
    let closed = Event::Received {
        received: Received::Closed,
        heard: false,
    };
    assert!(matches!(
        agent.advance(closed),
        Action::Stop(Failure::ChannelClosed)
    ));
    assert_eq!(agent.phase(), Phase::Stopped);
    assert!(matches!(
        agent.advance(tick(2, false, false, 0)),
        Action::Stop(Failure::OutOfTurn)
    ));
}

#[test]
fn what_comes_out_of_turn_changes_nothing() {
    let mut agent = agent(5);
    for event in [Event::Sent, empty(), Event::Subscribed, Event::Fetched, Event::Submitted] {
        assert!(matches!(
            agent.advance(event),
            Action::Stop(Failure::OutOfTurn)
        ));
        assert_eq!(agent.phase(), Phase::Idle);
        assert_eq!(agent.user().tck().index(), 1);
    }
    agent.advance(tick(2, false, false, 0));
    assert!(matches!(
        agent.advance(tick(2, false, false, 0)),
        Action::Stop(Failure::OutOfTurn)
    ));
    assert_eq!(agent.phase(), Phase::Sending);
    assert_eq!(agent.user().tck().index(), 2);
}

#[test]
fn the_ratchet_runs_out_without_rotation() {
    let settings = Settings::new(schedule(u16::MAX), 1, 6).unwrap();
    let mut agent = Agent::new(User::with_rak(0, rak(1)), settings);
    for _ in 1..u16::MAX {
        assert!(matches!(agent.advance(tick(2, false, false, 0)), Action::Send(_)));
        agent.advance(Event::Sent);
        assert!(matches!(agent.advance(empty()), Action::Wait));
    }
    assert_eq!(agent.user().tck().index(), u16::MAX);
    assert!(matches!(
        agent.advance(tick(2, false, false, 0)),
        Action::Stop(Failure::RatchetExhausted)
    ));
}
