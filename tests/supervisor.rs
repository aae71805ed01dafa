use tiny_champ_select_helper::client_state::{BasicInfo, ClientState, ClientStatus, Transition};
use tiny_champ_select_helper::config::{is_valid_lcu_path, Config, DEFAULT_SERVER_URL};
use tiny_champ_select_helper::json::Json;
use tiny_champ_select_helper::lcu::{decode_frame, PHASE_ENDPOINT};
use tiny_champ_select_helper::supervisor::{keeps_running, EventDecision, PublishOutcome, Supervisor};

fn finish(mut t: Transition, bodies: &[&str]) -> Transition {
    for body in bodies {
        assert!(t.next_lookup().is_some());
        t.accept(body).unwrap();
    }
    assert_eq!(t.next_lookup(), None);
    t
}

fn phase_event(phase: &str) -> (String, Json) {
    let text = format!(
        r#"[8,"OnJsonApiEvent_lol-gameflow_v1_gameflow-phase",{{"data":"{}","eventType":"Update","uri":"/lol-gameflow/v1/gameflow-phase"}}]"#,
        phase
    );
    decode_frame(&text).unwrap().unwrap()
}

const REGION: &str = r#"{"region":"EUW"}"#;
const ME: &str = r#"{"displayName":"Me"}"#;
const TEAM: &str = r#"{"myTeam":[{"summonerId":0},{"summonerId":-1},{"summonerId":4001},{"summonerId":4002}]}"#;
const NAMES: &str = r#"[{"displayName":"Me"},{"displayName":"Mate"}]"#;

fn connect_idle(sup: &mut Supervisor) {
    let t = sup.connect(ClientState::from("None"));
    assert!(sup.commit(finish(t, &[REGION, ME])));
}

#[test]
fn end_to_end_session() {
    let mut published: Vec<ClientStatus> = Vec::new();
    let mut sup = Supervisor::new();
    connect_idle(&mut sup);
    published.push(sup.status().clone());
    let info = Some(BasicInfo { server: "euw".to_string(), username: "Me".to_string() });
    assert_eq!(published[0], ClientStatus { state: ClientState::Idle, info: info.clone(), additional_info: None });

    let (uri, data) = phase_event("ChampSelect");
    match sup.on_event(&uri, &data) {
        EventDecision::Enter(t) => {
            let mut t = t;
            assert_eq!(t.request_path(), "/lol-champ-select/v1/session");
            t.accept(TEAM).unwrap();
            assert_eq!(t.request_path(), "/lol-summoner/v2/summoner-names?ids=[4001, 4002]");
            t.accept(NAMES).unwrap();
            assert!(sup.commit(t));
        }
        other => panic!("unexpected {:?}", other),
    }
    published.push(sup.status().clone());
    assert_eq!(
        published[1],
        ClientStatus {
            state: ClientState::ChampSelect,
            info: info.clone(),
            additional_info: Some(vec!["Me".to_string(), "Mate".to_string()]),
        }
    );

    let (uri, data) = phase_event("InProgress");
    match sup.on_event(&uri, &data) {
        EventDecision::Enter(t) => assert!(sup.commit(finish(t, &[]))),
        other => panic!("unexpected {:?}", other),
    }
    published.push(sup.status().clone());
    assert_eq!(published[2], ClientStatus { state: ClientState::InGame, info: info.clone(), additional_info: None });

    let t = sup.disconnect();
    assert!(sup.commit(t));
    published.push(sup.status().clone());
    assert_eq!(published[3], ClientStatus::default());

    for s in &published {
        assert_eq!(s.info.is_some(), s.state != ClientState::Closed);
        assert_eq!(s.additional_info.is_some(), s.state == ClientState::ChampSelect);
    }
}

#[test]
fn repeated_phase_is_not_a_transition() {
    let mut sup = Supervisor::new();
    connect_idle(&mut sup);
    let (uri, data) = phase_event("Lobby");
    assert!(matches!(sup.on_event(&uri, &data), EventDecision::Unchanged));
}

#[test]
fn other_endpoints_are_unknown() {
    let sup = Supervisor::new();
    let data = Json::Str("ChampSelect".to_string());
    assert!(matches!(sup.on_event("/lol-lobby/v2/lobby", &data), EventDecision::Unknown));
    assert!(matches!(sup.on_event("/LOL-GAMEFLOW/v1/gameflow-phase", &data), EventDecision::Unknown));
}

#[test]
fn phase_event_without_a_string_is_invalid() {
    let sup = Supervisor::new();
    assert!(matches!(sup.on_event(PHASE_ENDPOINT, &Json::Null), EventDecision::InvalidData));
    assert!(matches!(sup.on_event(PHASE_ENDPOINT, &Json::Number(Some(3))), EventDecision::InvalidData));
}

#[test]
fn reconnect_fetches_a_fresh_snapshot() {
    let mut sup = Supervisor::new();
    connect_idle(&mut sup);
    let t = sup.disconnect();
    assert!(sup.commit(t));
    assert_eq!(*sup.status(), ClientStatus::default());

    let t = sup.connect(ClientState::Idle);
    assert!(t.needs_info);
    let t = finish(t, &[r#"{"region":"NA"}"#, r#"{"displayName":"Other"}"#]);
    assert!(sup.commit(t));
    assert_eq!(sup.status().state, ClientState::Idle);
    assert_eq!(sup.status().info, Some(BasicInfo { server: "na".to_string(), username: "Other".to_string() }));
}

#[test]
fn connect_drops_what_the_last_connection_left() {
    let mut sup = Supervisor::new();
    connect_idle(&mut sup);
    let t = sup.connect(ClientState::InGame);
    assert_eq!(*sup.status(), ClientStatus::default());
    assert!(t.needs_info);
    assert!(!t.needs_roster);
}

#[test]
fn hub_shutdown_stops_the_supervisor() {
    assert!(keeps_running(PublishOutcome::Delivered));
    assert!(keeps_running(PublishOutcome::NoSubscribers));
    assert!(!keeps_running(PublishOutcome::HubClosed));
}

#[test]
fn config_defaults_and_urls() {
    let c = Config::for_client_path("C:/Riot Games/League of Legends".to_string());
    assert_eq!(c.client_path, "C:/Riot Games/League of Legends");
    assert_eq!(c.server_url, DEFAULT_SERVER_URL);
    assert_eq!(c.browser_url(), "http://127.0.0.1:43257");
}

#[test]
fn install_directory_needs_config_and_a_client() {
    assert!(is_valid_lcu_path(true, true, false));
    assert!(is_valid_lcu_path(true, false, true));
    assert!(!is_valid_lcu_path(true, false, false));
    assert!(!is_valid_lcu_path(false, true, true));
}
