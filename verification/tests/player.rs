use home_radio::errors::{HomeRadioError, IoKind, SendKind};
use home_radio::media_service::remote_media_service::{
    AfterSend, AfterSleep, AfterStatus, Command, RemoteMediaService, Step, VlcStatus,
    POLL_INTERVAL_MILLIS, SETTLE_DELAY_MILLIS,
};

/// What a caller was asked to do.
#[derive(Clone, Debug, PartialEq, Eq)]
enum Did {
    Sent(Command),
    Fetched,
    Slept(u64),
}

/// A player that takes every command, unless `refuse` names it, and answers
/// the fetches of its status from a list.
struct Device {
    statuses: Vec<Result<VlcStatus, HomeRadioError>>,
    next: usize,
    refuse: Option<(Command, HomeRadioError)>,
    log: Vec<Did>,
}

fn device(statuses: Vec<Result<VlcStatus, HomeRadioError>>) -> Device {
    Device { statuses, next: 0, refuse: None, log: Vec::new() }
}

fn says(state: &str) -> Result<VlcStatus, HomeRadioError> {
    Ok(VlcStatus { state: state.to_string() })
}

fn refused() -> Result<VlcStatus, HomeRadioError> {
    Err(HomeRadioError::SendRequestError(SendKind::ConnectionRefused))
}

fn drive(device: &mut Device, first: Step) -> Result<(), HomeRadioError> {
    let mut step = first;
    loop {
        step = match step {
            Step::Send(command, k) => {
                device.log.push(Did::Sent(command.clone()));
                let outcome = match &device.refuse {
                    Some((c, e)) if *c == command => Err(*e),
                    _ => Ok(()),
                };
                k.sent(outcome)
            }
            Step::FetchStatus(k) => {
                device.log.push(Did::Fetched);
                let outcome = device.statuses[device.next].clone();
                device.next += 1;
                k.status(outcome)
            }
            Step::Sleep(millis, k) => {
                device.log.push(Did::Slept(millis));
                k.slept()
            }
            Step::Done(result) => return result,
        };
    }
}

fn probes(device: &Device) -> usize {
    device.log.iter().filter(|d| **d == Did::Fetched).count()
}

fn service() -> RemoteMediaService {
    RemoteMediaService::new_with_auth("localhost".to_string(), "8090".to_string(), "foo".to_string())
}

#[test]
fn client_knows_where_the_player_listens() {
    let s = service();
    assert_eq!(s.base_url(), "http://localhost:8090");
    assert_eq!(s.host(), "localhost");
    assert_eq!(s.port(), "8090");
    assert_eq!(s.password(), "foo");
    assert_eq!(s.status_url(), "http://localhost:8090/requests/status.json");
}

fn owned(pairs: &[(&str, &str)]) -> Vec<(String, String)> {
    pairs.iter().map(|(k, v)| (k.to_string(), v.to_string())).collect()
}

#[test]
fn commands_carry_their_query() {
    assert_eq!(Command::ClearPlaylist.query(), owned(&[("command", "pl_empty")]));
    assert_eq!(Command::Stop.query(), owned(&[("command", "pl_stop")]));
    assert_eq!(
        Command::Play("http://radio.example/a?b=c".to_string()).query(),
        owned(&[
            ("command", "in_play"),
            ("input", "http://radio.example/a?b=c"),
            ("option", "novideo"),
        ])
    );
    assert_eq!(Command::SetVolume(0).query(), owned(&[("command", "volume"), ("val", "0")]));
    assert_eq!(Command::SetVolume(256).query(), owned(&[("command", "volume"), ("val", "256")]));
    assert_eq!(
        Command::SetVolume(65535).query(),
        owned(&[("command", "volume"), ("val", "65535")])
    );
}

#[test]
fn health_is_reachability() {
    assert_eq!(RemoteMediaService::check_health(says("stopped")), Ok(true));
    assert_eq!(RemoteMediaService::check_health(says("")), Ok(true));
    assert_eq!(RemoteMediaService::check_health(refused()), Ok(false));
    assert_eq!(
        RemoteMediaService::check_health(Err(HomeRadioError::SendRequestError(
            SendKind::ConnectionReset
        ))),
        Ok(false)
    );
    assert_eq!(
        RemoteMediaService::check_health(Err(HomeRadioError::Io(IoKind::ConnectionRefused))),
        Ok(false)
    );
    assert_eq!(
        RemoteMediaService::check_health(Err(HomeRadioError::Io(IoKind::ConnectionReset))),
        Ok(false)
    );
}

#[test]
fn other_failures_are_no_answer_on_health() {
    for e in [
        HomeRadioError::Serde,
        HomeRadioError::JsonPayloadError,
        HomeRadioError::PayloadError,
        HomeRadioError::UrlEncodedError,
        HomeRadioError::SendRequestError(SendKind::Timeout),
        HomeRadioError::SendRequestError(SendKind::Other),
        HomeRadioError::Io(IoKind::NotFound),
        HomeRadioError::Io(IoKind::Other),
        HomeRadioError::ParseInt,
        HomeRadioError::VLCServerUnhealthy,
    ] {
        assert_eq!(RemoteMediaService::check_health(Err(e)), Err(e));
        assert!(!e.unreachable());
    }
}

#[test]
fn wait_succeeds_after_k_plus_one_probes() {
    for max in 1u16..8 {
        for k in 0..max {
            let mut statuses = Vec::new();
            for _ in 0..k {
                statuses.push(refused());
            }
            statuses.push(says("stopped"));
            let mut d = device(statuses);
            let result = drive(&mut d, service().wait_for_healthy(max, 200));
            assert_eq!(result, Ok(()));
            assert_eq!(probes(&d), k as usize + 1);
            let mut expected = Vec::new();
            for _ in 0..k {
                expected.push(Did::Fetched);
                expected.push(Did::Slept(200));
            }
            expected.push(Did::Fetched);
            assert_eq!(d.log, expected);
        }
    }
}

#[test]
fn wait_fails_after_max_retries_probes() {
    for max in 0u16..8 {
        for k in max..max + 3 {
            let mut statuses = Vec::new();
            for _ in 0..k {
                statuses.push(refused());
            }
            statuses.push(says("stopped"));
            let mut d = device(statuses);
            let result = drive(&mut d, service().wait_for_healthy(max, 35));
            assert_eq!(result, Err(HomeRadioError::VLCServerUnhealthy));
            assert_eq!(probes(&d), max as usize);
            let mut expected = Vec::new();
            for _ in 0..max {
                expected.push(Did::Fetched);
                expected.push(Did::Slept(35));
            }
            assert_eq!(d.log, expected);
        }
    }
}

#[test]
fn wait_with_startup_bounds() {
    let mut statuses = Vec::new();
    for _ in 0..19 {
        statuses.push(refused());
    }
    statuses.push(says("stopped"));
    let mut d = device(statuses);
    assert_eq!(drive(&mut d, service().wait_for_healthy(20, 200)), Ok(()));
    assert_eq!(probes(&d), 20);

    let mut statuses = Vec::new();
    for _ in 0..20 {
        statuses.push(refused());
    }
    let mut d = device(statuses);
    assert_eq!(
        drive(&mut d, service().wait_for_healthy(20, 200)),
        Err(HomeRadioError::VLCServerUnhealthy)
    );
    assert_eq!(probes(&d), 20);
}

#[test]
fn wait_with_the_largest_budget_does_not_overflow() {
    let mut statuses = Vec::new();
    for _ in 0..65535 {
        statuses.push(refused());
    }
    let mut d = device(statuses);
    assert_eq!(
        drive(&mut d, service().wait_for_healthy(65535, 0)),
        Err(HomeRadioError::VLCServerUnhealthy)
    );
    assert_eq!(probes(&d), 65535);
}

#[test]
fn wait_gives_up_on_a_failure_that_is_not_unreachability() {
    let mut d = device(vec![refused(), Err(HomeRadioError::Serde), says("stopped")]);
    assert_eq!(drive(&mut d, service().wait_for_healthy(20, 200)), Err(HomeRadioError::Serde));
    assert_eq!(d.log, vec![Did::Fetched, Did::Slept(200), Did::Fetched]);
}

#[test]
fn play_sets_volume_once_playing_is_seen() {
    let mut d = device(vec![says("stopped"), says("stopped"), says("playing")]);
    let result = drive(&mut d, service().play("http://radio.example/live", 120));
    assert_eq!(result, Ok(()));
    assert_eq!(POLL_INTERVAL_MILLIS, 500);
    assert_eq!(SETTLE_DELAY_MILLIS, 1000);
    assert_eq!(
        d.log,
        vec![
            Did::Sent(Command::ClearPlaylist),
            Did::Sent(Command::Play("http://radio.example/live".to_string())),
            Did::Fetched,
            Did::Fetched,
            Did::Slept(500),
            Did::Fetched,
            Did::Slept(1000),
            Did::Sent(Command::SetVolume(120)),
        ]
    );
    let sent = |c: &Command| d.log.iter().filter(|x| **x == Did::Sent(c.clone())).count();
    assert_eq!(sent(&Command::ClearPlaylist), 1);
    assert_eq!(sent(&Command::Play("http://radio.example/live".to_string())), 1);
    assert_eq!(sent(&Command::SetVolume(120)), 1);
}

#[test]
fn play_polls_through_any_state_but_playing() {
    let mut d = device(vec![
        says("stopped"),
        says("paused"),
        says("opening"),
        says("stopped"),
        says("playing"),
    ]);
    assert_eq!(drive(&mut d, service().play("u", 1)), Ok(()));
    assert_eq!(
        d.log,
        vec![
            Did::Sent(Command::ClearPlaylist),
            Did::Sent(Command::Play("u".to_string())),
            Did::Fetched,
            Did::Fetched,
            Did::Slept(500),
            Did::Fetched,
            Did::Slept(500),
            Did::Fetched,
            Did::Slept(500),
            Did::Fetched,
            Did::Slept(1000),
            Did::Sent(Command::SetVolume(1)),
        ]
    );
}

#[test]
fn play_on_a_player_found_stopped_polls_at_least_once() {
    let mut d = device(vec![says("stopped"), says("playing")]);
    assert_eq!(drive(&mut d, service().play("u", 9)), Ok(()));
    assert_eq!(
        d.log,
        vec![
            Did::Sent(Command::ClearPlaylist),
            Did::Sent(Command::Play("u".to_string())),
            Did::Fetched,
            Did::Fetched,
            Did::Slept(1000),
            Did::Sent(Command::SetVolume(9)),
        ]
    );
}

#[test]
fn play_leaves_the_volume_when_the_player_is_not_found_stopped() {
    for state in ["playing", "paused", "", "STOPPED"] {
        let mut d = device(vec![says(state), says("playing")]);
        assert_eq!(drive(&mut d, service().play("u", 9)), Ok(()));
        assert_eq!(
            d.log,
            vec![
                Did::Sent(Command::ClearPlaylist),
                Did::Sent(Command::Play("u".to_string())),
                Did::Fetched,
            ]
        );
    }
}

#[test]
fn play_ends_with_the_first_failure() {
    let e = HomeRadioError::SendRequestError(SendKind::Timeout);

    let mut d = device(vec![]);
    d.refuse = Some((Command::ClearPlaylist, e));
    assert_eq!(drive(&mut d, service().play("u", 9)), Err(e));
    assert_eq!(d.log, vec![Did::Sent(Command::ClearPlaylist)]);

    let mut d = device(vec![]);
    d.refuse = Some((Command::Play("u".to_string()), e));
    assert_eq!(drive(&mut d, service().play("u", 9)), Err(e));
    assert_eq!(d.log.len(), 2);

    let mut d = device(vec![refused()]);
    assert_eq!(
        drive(&mut d, service().play("u", 9)),
        Err(HomeRadioError::SendRequestError(SendKind::ConnectionRefused))
    );
    assert_eq!(d.log.len(), 3);

    let mut d = device(vec![says("stopped"), says("stopped"), Err(HomeRadioError::Serde)]);
    assert_eq!(drive(&mut d, service().play("u", 9)), Err(HomeRadioError::Serde));
    assert_eq!(d.log.len(), 6);

    let mut d = device(vec![says("stopped"), says("playing")]);
    d.refuse = Some((Command::SetVolume(9), e));
    assert_eq!(drive(&mut d, service().play("u", 9)), Err(e));
    assert_eq!(d.log.last(), Some(&Did::Sent(Command::SetVolume(9))));
}

#[test]
fn stop_clears_the_playlist_and_stops() {
    let mut d = device(vec![]);
    assert_eq!(drive(&mut d, service().stop()), Ok(()));
    assert_eq!(d.log, vec![Did::Sent(Command::ClearPlaylist), Did::Sent(Command::Stop)]);

    let e = HomeRadioError::SendRequestError(SendKind::Other);
    let mut d = device(vec![]);
    d.refuse = Some((Command::ClearPlaylist, e));
    assert_eq!(drive(&mut d, service().stop()), Err(e));
    assert_eq!(d.log, vec![Did::Sent(Command::ClearPlaylist)]);

    let mut d = device(vec![]);
    d.refuse = Some((Command::Stop, e));
    assert_eq!(drive(&mut d, service().stop()), Err(e));
    assert_eq!(d.log.len(), 2);
}

#[test]
fn set_volume_sends_one_command() {
    let mut d = device(vec![]);
    assert_eq!(drive(&mut d, service().set_volume(77)), Ok(()));
    assert_eq!(d.log, vec![Did::Sent(Command::SetVolume(77))]);

    let e = HomeRadioError::UrlEncodedError;
    let mut d = device(vec![]);
    d.refuse = Some((Command::SetVolume(77), e));
    assert_eq!(drive(&mut d, service().set_volume(77)), Err(e));
}

#[test]
fn steps_name_what_follows() {
    assert_eq!(
        service().play("u", 3),
        Step::Send(Command::ClearPlaylist, AfterSend::ThenPlay { url: "u".to_string(), volume: 3 })
    );
    assert_eq!(
        AfterSend::ThenPlay { url: "u".to_string(), volume: 3 }.sent(Ok(())),
        Step::Send(Command::Play("u".to_string()), AfterSend::ThenCheck { volume: 3 })
    );
    assert_eq!(
        AfterSend::ThenCheck { volume: 3 }.sent(Ok(())),
        Step::FetchStatus(AfterStatus::Check { volume: 3 })
    );
    assert_eq!(
        AfterStatus::Check { volume: 3 }.status(says("stopped")),
        Step::FetchStatus(AfterStatus::Poll { volume: 3 })
    );
    assert_eq!(
        AfterStatus::Poll { volume: 3 }.status(says("stopped")),
        Step::Sleep(500, AfterSleep::ThenPoll { volume: 3 })
    );
    assert_eq!(
        AfterSleep::ThenPoll { volume: 3 }.slept(),
        Step::FetchStatus(AfterStatus::Poll { volume: 3 })
    );
    assert_eq!(
        AfterStatus::Poll { volume: 3 }.status(says("playing")),
        Step::Sleep(1000, AfterSleep::ThenVolume { volume: 3 })
    );
    assert_eq!(
        AfterSleep::ThenVolume { volume: 3 }.slept(),
        Step::Send(Command::SetVolume(3), AfterSend::Last)
    );
    assert_eq!(AfterSend::Last.sent(Ok(())), Step::Done(Ok(())));
    assert_eq!(
        service().wait_for_healthy(0, 1),
        Step::Done(Err(HomeRadioError::VLCServerUnhealthy))
    );
    assert_eq!(
        AfterSleep::ThenProbe { max_retries: 0, sleep_time_millis: 1, current_retries: 65535 }.slept(),
        Step::Done(Err(HomeRadioError::VLCServerUnhealthy))
    );
    assert_eq!(
        AfterSleep::ThenProbe { max_retries: 65535, sleep_time_millis: 1, current_retries: 65535 }
            .slept(),
        Step::Done(Err(HomeRadioError::VLCServerUnhealthy))
    );
    assert_eq!(
        AfterSleep::ThenProbe { max_retries: 3, sleep_time_millis: 1, current_retries: 1 }.slept(),
        Step::FetchStatus(AfterStatus::Probe {
            max_retries: 3,
            sleep_time_millis: 1,
            current_retries: 2
        })
    );
}

#[test]
fn status_that_does_not_parse_is_a_failure() {
    assert_eq!(RemoteMediaService::get_status(Ok(None)), Err(HomeRadioError::Serde));
    assert_eq!(
        RemoteMediaService::get_status(Ok(Some(VlcStatus { state: "paused".to_string() }))),
        Ok(VlcStatus { state: "paused".to_string() })
    );
    assert_eq!(
        RemoteMediaService::get_status(Err(HomeRadioError::PayloadError)),
        Err(HomeRadioError::PayloadError)
    );
    assert_eq!(
        RemoteMediaService::get_status(Err(HomeRadioError::SendRequestError(SendKind::Timeout))),
        Err(HomeRadioError::SendRequestError(SendKind::Timeout))
    );
}
