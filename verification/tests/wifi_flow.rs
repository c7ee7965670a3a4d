use devicectl::session::{Outcome, Session, Workflow};
use devicectl::wifi::{Event, KnownNetwork, Request, ScanResult, WifiError, WifiModule};

fn scan_entry(name: &str, signal: isize) -> ScanResult {
    ScanResult {
        mac: "00:11:22:33:44:55".to_string(),
        frequency: "2417".to_string(),
        signal,
        flags: "[WPA2-PSK-CCMP][ESS]".to_string(),
        name: name.to_string(),
    }
}

fn known(network_id: usize, ssid: &str) -> KnownNetwork {
    KnownNetwork {
        network_id,
        ssid: ssid.to_string(),
        flags: "[CURRENT]".to_string(),
    }
}

/// Drive a session to completion, answering every request with the next
/// scripted event; returns every request the machine emitted, in order,
/// and the result.
fn drive(
    start: (Session, Request),
    script: Vec<Event>,
) -> (Vec<Request>, Option<Result<Outcome, WifiError>>) {
    let (mut session, first) = start;
    let mut requests = vec![first];
    let mut events = script.into_iter();
    loop {
        let ev = match events.next() {
            Some(ev) => ev,
            None => break,
        };
        match session.step(ev) {
            Some(req) => requests.push(req),
            None => break,
        }
    }
    assert!(session.is_closed());
    (requests, session.into_result())
}

fn count_shutdowns(requests: &[Request]) -> usize {
    requests
        .iter()
        .filter(|r| matches!(r, Request::Shutdown))
        .count()
}

#[test]
fn scan_returns_list_verbatim() {
    let module = WifiModule::new();
    let reported = vec![
        scan_entry("cafe", -40),
        scan_entry("cafe", -62),
        scan_entry("office", -55),
    ];
    let (requests, result) = drive(
        module.scan_networks(),
        vec![Event::ScanResults(reported), Event::ShutdownComplete],
    );
    assert!(matches!(requests[0], Request::GetScan));
    assert_eq!(count_shutdowns(&requests), 1);
    match result {
        Some(Ok(Outcome::ScanList(list))) => {
            assert_eq!(list.len(), 3);
            assert_eq!(list[0].name, "cafe");
            assert_eq!(list[0].signal, -40);
            assert_eq!(list[1].name, "cafe");
            assert_eq!(list[1].signal, -62);
            assert_eq!(list[2].name, "office");
        }
        other => panic!("unexpected result: {:?}", other),
    }
}

#[test]
fn scan_error_still_shuts_down() {
    let module = WifiModule::new();
    let (requests, result) = drive(
        module.scan_networks(),
        vec![
            Event::Failed(WifiError::ConnectionError),
            Event::ShutdownComplete,
        ],
    );
    assert_eq!(count_shutdowns(&requests), 1);
    assert!(matches!(requests.last(), Some(Request::Shutdown)));
    assert!(matches!(result, Some(Err(WifiError::ConnectionError))));
}

#[test]
fn list_known_networks_verbatim() {
    let module = WifiModule::new();
    let table = vec![known(0, "home"), known(1, "home"), known(4, "office")];
    let (requests, result) = drive(
        module.list_known_networks(),
        vec![Event::Networks(table), Event::ShutdownComplete],
    );
    assert!(matches!(requests[0], Request::GetNetworks));
    assert_eq!(count_shutdowns(&requests), 1);
    match result {
        Some(Ok(Outcome::KnownList(list))) => {
            assert_eq!(list.len(), 3);
            assert_eq!(list[0].network_id, 0);
            assert_eq!(list[1].network_id, 1);
            assert_eq!(list[1].ssid, "home");
            assert_eq!(list[2].network_id, 4);
            assert_eq!(list[2].ssid, "office");
        }
        other => panic!("unexpected result: {:?}", other),
    }
}

#[test]
fn connect_reuses_existing_entry() {
    let module = WifiModule::new();
    let table = vec![known(3, "home"), known(7, "office")];
    let (requests, result) = drive(
        module.connect_network("office".to_string(), "secret".to_string()),
        vec![Event::Networks(table), Event::Ack, Event::ShutdownComplete],
    );
    assert!(matches!(requests[0], Request::GetNetworks));
    assert!(matches!(requests[1], Request::SelectNetwork(7)));
    assert!(matches!(requests[2], Request::Shutdown));
    assert_eq!(requests.len(), 3);
    assert!(!requests.iter().any(|r| matches!(r, Request::AddNetwork)));
    assert!(matches!(result, Some(Ok(Outcome::Accepted))));
}

#[test]
fn connect_first_match_wins() {
    let module = WifiModule::new();
    let table = vec![known(1, "net"), known(2, "net")];
    let (requests, _) = drive(
        module.connect_network("net".to_string(), "irrelevant".to_string()),
        vec![Event::Networks(table), Event::Ack, Event::ShutdownComplete],
    );
    assert!(matches!(requests[1], Request::SelectNetwork(1)));
}

#[test]
fn connect_match_is_case_sensitive() {
    let module = WifiModule::new();
    let table = vec![known(3, "Guest")];
    let (requests, _) = drive(
        module.connect_network("guest".to_string(), "pw".to_string()),
        vec![
            Event::Networks(table),
            Event::NetworkAdded(5),
            Event::Ack,
            Event::Ack,
            Event::Ack,
            Event::ShutdownComplete,
        ],
    );
    assert!(matches!(requests[1], Request::AddNetwork));
}

#[test]
fn connect_creates_when_absent() {
    let module = WifiModule::new();
    let (requests, result) = drive(
        module.connect_network("guest".to_string(), "pw".to_string()),
        vec![
            Event::Networks(vec![]),
            Event::NetworkAdded(5),
            Event::Ack,
            Event::Ack,
            Event::Ack,
            Event::ShutdownComplete,
        ],
    );
    assert_eq!(requests.len(), 6);
    assert!(matches!(requests[0], Request::GetNetworks));
    assert!(matches!(requests[1], Request::AddNetwork));
    match &requests[2] {
        Request::SetSsid(id, ssid) => {
            assert_eq!(*id, 5);
            assert_eq!(ssid, "guest");
        }
        other => panic!("expected the SSID write, got {:?}", other),
    }
    match &requests[3] {
        Request::SetPsk(id, psk) => {
            assert_eq!(*id, 5);
            assert_eq!(psk, "pw");
        }
        other => panic!("expected the PSK write, got {:?}", other),
    }
    assert!(matches!(requests[4], Request::SelectNetwork(5)));
    assert!(matches!(requests[5], Request::Shutdown));
    assert!(matches!(result, Some(Ok(Outcome::Accepted))));
}

#[test]
fn connect_error_mid_create_still_shuts_down() {
    let module = WifiModule::new();
    let (requests, result) = drive(
        module.connect_network("guest".to_string(), "pw".to_string()),
        vec![
            Event::Networks(vec![]),
            Event::Failed(WifiError::ProtocolError),
            Event::ShutdownComplete,
        ],
    );
    assert_eq!(count_shutdowns(&requests), 1);
    assert!(matches!(requests.last(), Some(Request::Shutdown)));
    assert!(!requests.iter().any(|r| matches!(r, Request::SetSsid(..))));
    assert!(matches!(result, Some(Err(WifiError::ProtocolError))));
}

#[test]
fn connect_table_fetch_error_still_shuts_down() {
    let module = WifiModule::new();
    let (requests, result) = drive(
        module.connect_network("guest".to_string(), "pw".to_string()),
        vec![
            Event::Failed(WifiError::ConnectionError),
            Event::ShutdownComplete,
        ],
    );
    assert_eq!(requests.len(), 2);
    assert_eq!(count_shutdowns(&requests), 1);
    assert!(matches!(result, Some(Err(WifiError::ConnectionError))));
}

#[test]
fn remove_network_success() {
    let module = WifiModule::new();
    let (requests, result) = drive(
        module.remove_network(9),
        vec![Event::Ack, Event::ShutdownComplete],
    );
    assert_eq!(requests.len(), 2);
    assert!(matches!(requests[0], Request::RemoveNetwork(9)));
    assert!(matches!(requests[1], Request::Shutdown));
    assert!(matches!(result, Some(Ok(Outcome::Accepted))));
}

#[test]
fn remove_absent_returns_not_found() {
    let module = WifiModule::new();
    let (requests, result) = drive(
        module.remove_network(42),
        vec![
            Event::Failed(WifiError::NotFoundError),
            Event::ShutdownComplete,
        ],
    );
    assert!(matches!(requests[0], Request::RemoveNetwork(42)));
    assert_eq!(count_shutdowns(&requests), 1);
    assert!(matches!(requests.last(), Some(Request::Shutdown)));
    assert!(matches!(result, Some(Err(WifiError::NotFoundError))));
}

#[test]
fn shutdown_failure_after_success_surfaces() {
    let module = WifiModule::new();
    let (requests, result) = drive(
        module.remove_network(1),
        vec![Event::Ack, Event::Failed(WifiError::ConnectionError)],
    );
    assert_eq!(count_shutdowns(&requests), 1);
    assert!(matches!(result, Some(Err(WifiError::ConnectionError))));
}

#[test]
fn shutdown_failure_keeps_first_error() {
    let module = WifiModule::new();
    let (_, result) = drive(
        module.remove_network(42),
        vec![
            Event::Failed(WifiError::NotFoundError),
            Event::Failed(WifiError::ConnectionError),
        ],
    );
    assert!(matches!(result, Some(Err(WifiError::NotFoundError))));
}

#[test]
fn mismatched_answer_is_protocol_error() {
    let module = WifiModule::new();
    let (requests, result) = drive(
        module.scan_networks(),
        vec![Event::Ack, Event::ShutdownComplete],
    );
    assert_eq!(count_shutdowns(&requests), 1);
    assert!(matches!(result, Some(Err(WifiError::ProtocolError))));
}

#[test]
fn closed_session_asks_nothing_more() {
    let module = WifiModule::new();
    let (mut session, _) = module.remove_network(3);
    assert!(session.step(Event::Ack).is_some());
    assert!(session.step(Event::ShutdownComplete).is_none());
    assert!(session.is_closed());
    assert!(session.step(Event::Ack).is_none());
    assert!(session.is_closed());
    assert!(matches!(
        session.into_result(),
        Some(Ok(Outcome::Accepted))
    ));
}

#[test]
fn start_emits_the_workflow_request() {
    let (_, req) = Session::start(Workflow::Scan);
    assert!(matches!(req, Request::GetScan));
    let (_, req) = Session::start(Workflow::ListKnown);
    assert!(matches!(req, Request::GetNetworks));
    let (_, req) = Session::start(Workflow::Connect {
        ssid: "a".to_string(),
        psk: "b".to_string(),
    });
    assert!(matches!(req, Request::GetNetworks));
    let (_, req) = Session::start(Workflow::Remove { network_id: 17 });
    assert!(matches!(req, Request::RemoveNetwork(17)));
}
