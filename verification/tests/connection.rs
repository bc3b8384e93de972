use wifi_boot::WifiError;
use wifi_boot::controller::Action;
use wifi_boot::controller::Controller;
use wifi_boot::controller::Event;
use wifi_boot::controller::Phase;
use wifi_boot::controller::connect;
use wifi_boot::credentials::Credentials;
use wifi_boot::radio::AuthMode;
use wifi_boot::radio::SimRadio;
use wifi_boot::store::NvStore;

fn corp_store() -> NvStore {
    NvStore {
        available: true,
        ssid: Some(b"CorpNet".to_vec()),
        pass: Some(b"hunter2".to_vec()),
    }
}

fn defaults() -> Credentials {
    Credentials::new(b"DefaultNet".to_vec(), b"defaultkey".to_vec())
}

#[test]
fn never_connected_times_out_after_exactly_five_polls() {
    let mut s = corp_store();
    let mut radio = SimRadio::accepting(vec![]);
    let r = connect(&mut s, &defaults(), AuthMode::Open, &mut radio);
    assert_eq!(r.map(|c| c.phase), Err(WifiError::ConnectionTimeout(5)));
    assert_eq!(radio.polled, 5);
    assert_eq!(radio.reconnects, 3);
}

#[test]
fn polling_stops_at_the_budget_even_with_a_longer_script() {
    let mut s = corp_store();
    let mut radio = SimRadio::accepting(vec![false; 10]);
    let r = connect(&mut s, &defaults(), AuthMode::Open, &mut radio);
    assert_eq!(r.map(|c| c.phase), Err(WifiError::ConnectionTimeout(5)));
    assert_eq!(radio.polled, 5);
}

#[test]
fn connects_on_third_poll_after_one_reconnect_cycle() {
    let mut s = corp_store();
    let mut radio = SimRadio::accepting(vec![false, false, true]);
    let r = connect(&mut s, &defaults(), AuthMode::Open, &mut radio);
    let ctrl = r.unwrap();
    assert!(ctrl.is_connected());
    assert_eq!(radio.polled, 3);
    assert_eq!(radio.reconnects, 1);
}

#[test]
fn connects_on_first_poll_without_reconnecting() {
    let mut s = corp_store();
    let mut radio = SimRadio::accepting(vec![true]);
    let ctrl = connect(&mut s, &defaults(), AuthMode::Open, &mut radio).unwrap();
    assert!(ctrl.is_connected());
    assert_eq!(radio.polled, 1);
    assert_eq!(radio.reconnects, 0);
}

#[test]
fn connects_on_last_allowed_poll() {
    let mut s = corp_store();
    let mut radio = SimRadio::accepting(vec![false, false, false, false, true]);
    let ctrl = connect(&mut s, &defaults(), AuthMode::Open, &mut radio).unwrap();
    assert!(ctrl.is_connected());
    assert_eq!(radio.polled, 5);
    assert_eq!(radio.reconnects, 3);
}

#[test]
fn rejected_configure_is_fatal() {
    let mut s = corp_store();
    let mut radio = SimRadio::new(false, true, true, vec![true]);
    let r = connect(&mut s, &defaults(), AuthMode::Open, &mut radio);
    assert_eq!(r.map(|c| c.phase), Err(WifiError::RadioConfigFault));
    assert_eq!(radio.polled, 0);
    assert_eq!(radio.reconnects, 0);
}

#[test]
fn rejected_start_is_fatal() {
    let mut s = corp_store();
    let mut radio = SimRadio::new(true, false, true, vec![true]);
    let r = connect(&mut s, &defaults(), AuthMode::Open, &mut radio);
    assert_eq!(r.map(|c| c.phase), Err(WifiError::RadioConfigFault));
    assert!(!radio.started);
    assert_eq!(radio.polled, 0);
}

#[test]
fn rejected_connect_request_is_fatal() {
    let mut s = corp_store();
    let mut radio = SimRadio::new(true, true, false, vec![true]);
    let r = connect(&mut s, &defaults(), AuthMode::Open, &mut radio);
    assert_eq!(r.map(|c| c.phase), Err(WifiError::RadioConfigFault));
    assert!(radio.started);
    assert_eq!(radio.polled, 0);
}

#[test]
fn loaded_credentials_reach_the_interface() {
    let mut s = corp_store();
    let mut radio = SimRadio::accepting(vec![true]);
    connect(&mut s, &defaults(), AuthMode::Open, &mut radio).unwrap();
    assert!(radio.configured);
    assert_eq!(radio.cfg_name, b"CorpNet".to_vec());
    assert_eq!(radio.cfg_secret, b"hunter2".to_vec());
    assert_eq!(radio.cfg_auth, AuthMode::Open);
}

#[test]
fn auth_mode_is_passed_through_independently() {
    let mut s = corp_store();
    let mut radio = SimRadio::accepting(vec![true]);
    connect(&mut s, &defaults(), AuthMode::Passphrase, &mut radio).unwrap();
    assert_eq!(radio.cfg_auth, AuthMode::Passphrase);
}

#[test]
fn oversize_stored_credential_aborts_before_touching_the_radio() {
    let mut s = NvStore {
        available: true,
        ssid: Some(vec![b'x'; 33]),
        pass: Some(b"p".to_vec()),
    };
    let mut radio = SimRadio::accepting(vec![true]);
    let r = connect(&mut s, &defaults(), AuthMode::Open, &mut radio);
    assert_eq!(r.map(|c| c.phase), Err(WifiError::CredentialTooLong));
    assert!(!radio.configured);
    assert_eq!(radio.polled, 0);
}

#[test]
fn connect_with_empty_store_uses_and_persists_defaults() {
    let mut s = NvStore::empty();
    let mut radio = SimRadio::accepting(vec![true]);
    connect(&mut s, &defaults(), AuthMode::Open, &mut radio).unwrap();
    assert_eq!(radio.cfg_name, b"DefaultNet".to_vec());
    assert_eq!(radio.cfg_secret, b"defaultkey".to_vec());
    assert_eq!(s.ssid, Some(b"DefaultNet".to_vec()));
    assert_eq!(s.pass, Some(b"defaultkey".to_vec()));
}

#[test]
fn step_walks_the_happy_path() {
    let mut c = Controller::new();
    assert_eq!(c.phase, Phase::Idle);
    assert_eq!(c.step(Event::Begin), Action::Configure);
    assert_eq!(c.phase, Phase::Configuring);
    assert_eq!(c.step(Event::RadioOk), Action::Start);
    assert_eq!(c.phase, Phase::Starting);
    assert_eq!(c.step(Event::RadioOk), Action::IssueConnect);
    assert_eq!(c.phase, Phase::Connecting);
    assert_eq!(c.step(Event::RadioOk), Action::AwaitPoll);
    assert_eq!(c.step(Event::Polled(true)), Action::Halt);
    assert_eq!(c.phase, Phase::Connected);
    assert!(c.is_connected());
}

#[test]
fn step_counts_attempts_and_asks_for_reconnects() {
    let mut c = Controller::new();
    c.step(Event::Begin);
    c.step(Event::RadioOk);
    c.step(Event::RadioOk);
    c.step(Event::RadioOk);
    assert_eq!(c.step(Event::Polled(false)), Action::AwaitPoll);
    assert_eq!(c.attempts, 1);
    assert_eq!(c.step(Event::Polled(false)), Action::Reconnect);
    assert_eq!(c.attempts, 2);
    c.step(Event::RadioOk);
    assert_eq!(c.step(Event::Polled(false)), Action::Reconnect);
    c.step(Event::RadioOk);
    assert_eq!(c.step(Event::Polled(false)), Action::Reconnect);
    c.step(Event::RadioOk);
    assert_eq!(c.step(Event::Polled(false)), Action::Halt);
    assert_eq!(c.phase, Phase::Failed(WifiError::ConnectionTimeout(5)));
    assert!(!c.is_connected());
}

#[test]
fn step_fails_fast_on_a_rejected_radio_call() {
    let mut c = Controller::new();
    c.step(Event::Begin);
    assert_eq!(c.step(Event::RadioErr), Action::Halt);
    assert_eq!(c.phase, Phase::Failed(WifiError::RadioConfigFault));
}
