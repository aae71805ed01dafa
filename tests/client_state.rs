use tiny_champ_select_helper::client_state::{
    compute_phase, display_name_from, names_from, phase_from, region_from, summoner_names_path,
    team_ids_from, BasicInfo, ClientState, ClientStatus, EnrichmentError, Lookup, Transition,
};

#[test]
fn phase_mapping() {
    assert_eq!(compute_phase("ChampSelect"), ClientState::ChampSelect);
    assert_eq!(compute_phase("InProgress"), ClientState::InGame);
    for other in ["", "Lobby", "Matchmaking", "None", "champselect", "EndOfGame"] {
        assert_eq!(compute_phase(other), ClientState::Idle);
    }
}

#[test]
fn phase_from_str_conversion() {
    assert_eq!(ClientState::from("ChampSelect"), ClientState::ChampSelect);
    assert_eq!(ClientState::from("InProgress"), ClientState::InGame);
    assert_eq!(ClientState::from("Lobby"), ClientState::Idle);
}

#[test]
fn default_state_and_status_are_closed() {
    assert_eq!(ClientState::default(), ClientState::Closed);
    let s = ClientStatus::default();
    assert_eq!(s.state, ClientState::Closed);
    assert_eq!(s.info, None);
    assert_eq!(s.additional_info, None);
}

#[test]
fn region_is_lower_cased() {
    assert_eq!(region_from(r#"{"locale":"en_GB","region":"EUW","webRegion":"euw"}"#), Some("euw".to_string()));
    assert_eq!(region_from(r#"{"locale":"en_GB"}"#), None);
    assert_eq!(region_from(r#"{"region":3}"#), None);
    assert_eq!(region_from("garbage"), None);
}

#[test]
fn display_name_is_read() {
    assert_eq!(display_name_from(r#"{"displayName":"Faker","summonerId":7}"#), Some("Faker".to_string()));
    assert_eq!(display_name_from("[]"), None);
}

#[test]
fn phase_response_is_a_bare_string() {
    assert_eq!(phase_from("\"ChampSelect\""), Some(ClientState::ChampSelect));
    assert_eq!(phase_from("\"None\""), Some(ClientState::Idle));
    assert_eq!(phase_from("{\"phase\":\"Lobby\"}"), None);
}

#[test]
fn roster_ids_drop_bots_and_empty_slots() {
    let body = r#"{"myTeam":[{"summonerId":0},{"summonerId":-1},{"summonerId":4001},{"summonerId":4002}]}"#;
    assert_eq!(team_ids_from(body), Some(vec![4001, 4002]));
}

#[test]
fn roster_ids_skip_members_without_an_id() {
    let body = r#"{"myTeam":[{"cellId":1},{"summonerId":"9"},{"summonerId":12}]}"#;
    assert_eq!(team_ids_from(body), Some(vec![12]));
    assert_eq!(team_ids_from(r#"{"myTeam":{}}"#), None);
    assert_eq!(team_ids_from(r#"{"theirTeam":[]}"#), None);
}

#[test]
fn names_path_lists_the_ids() {
    assert_eq!(summoner_names_path(&vec![4001, 4002]), "/lol-summoner/v2/summoner-names?ids=[4001, 4002]");
    assert_eq!(summoner_names_path(&vec![]), "/lol-summoner/v2/summoner-names?ids=[]");
    assert_eq!(summoner_names_path(&vec![u64::MAX]), format!("/lol-summoner/v2/summoner-names?ids=[{}]", u64::MAX));
}

#[test]
fn names_are_read_in_order() {
    let body = r#"[{"displayName":"A"},{"puuid":"x"},{"displayName":"B"}]"#;
    assert_eq!(names_from(body), Some(vec!["A".to_string(), "B".to_string()]));
    assert_eq!(names_from(r#"{"displayName":"A"}"#), None);
}

fn run(t: &mut Transition, responses: &[(&str, Lookup, &str)]) {
    for (path, lookup, body) in responses {
        assert_eq!(t.next_lookup(), Some(*lookup));
        assert_eq!(t.request_path(), *path);
        t.accept(body).unwrap();
    }
    assert_eq!(t.next_lookup(), None);
}

#[test]
fn entering_champ_select_fetches_info_then_roster() {
    let mut status = ClientStatus::default();
    let mut t = Transition::begin(&status, ClientState::ChampSelect);
    run(
        &mut t,
        &[
            ("/riotclient/region-locale", Lookup::RegionLocale, r#"{"region":"NA"}"#),
            ("/lol-summoner/v1/current-summoner", Lookup::CurrentSummoner, r#"{"displayName":"Me"}"#),
            ("/lol-champ-select/v1/session", Lookup::ChampSelectSession, r#"{"myTeam":[{"summonerId":1},{"summonerId":0}]}"#),
            ("/lol-summoner/v2/summoner-names?ids=[1]", Lookup::SummonerNames, r#"[{"displayName":"Me"}]"#),
        ],
    );
    assert!(status.update(t));
    assert_eq!(status.state, ClientState::ChampSelect);
    assert_eq!(status.info, Some(BasicInfo { server: "na".to_string(), username: "Me".to_string() }));
    assert_eq!(status.additional_info, Some(vec!["Me".to_string()]));
}

#[test]
fn failed_lookup_leaves_the_transition_as_it_was() {
    let status = ClientStatus::default();
    let mut t = Transition::begin(&status, ClientState::Idle);
    assert_eq!(t.accept("not json"), Err(EnrichmentError { lookup: Lookup::RegionLocale }));
    assert_eq!(t.next_lookup(), Some(Lookup::RegionLocale));
    t.accept(r#"{"region":"KR"}"#).unwrap();
    assert_eq!(t.accept("{}"), Err(EnrichmentError { lookup: Lookup::CurrentSummoner }));
    assert_eq!(t.next_lookup(), Some(Lookup::CurrentSummoner));
}

#[test]
fn unfinished_transition_is_not_applied() {
    let mut status = ClientStatus::default();
    let t = Transition::begin(&status, ClientState::Idle);
    assert!(!status.update(t));
    assert_eq!(status, ClientStatus::default());
}

#[test]
fn transition_begun_elsewhere_is_not_applied() {
    let mut status = ClientStatus {
        state: ClientState::Idle,
        info: Some(BasicInfo { server: "euw".to_string(), username: "x".to_string() }),
        additional_info: None,
    };
    let before = status.clone();
    let mut t = Transition::begin(&ClientStatus::default(), ClientState::InGame);
    t.accept(r#"{"region":"KR"}"#).unwrap();
    t.accept(r#"{"displayName":"other"}"#).unwrap();
    assert_eq!(t.next_lookup(), None);
    assert!(!status.update(t));
    assert_eq!(status, before);
}

#[test]
fn same_state_transition_fetches_nothing_and_keeps_enrichment() {
    let mut status = ClientStatus {
        state: ClientState::ChampSelect,
        info: Some(BasicInfo { server: "euw".to_string(), username: "x".to_string() }),
        additional_info: Some(vec!["x".to_string(), "y".to_string()]),
    };
    let before = status.clone();
    let t = Transition::begin(&status, ClientState::ChampSelect);
    assert_eq!(t.next_lookup(), None);
    assert!(status.update(t));
    assert_eq!(status, before);
}

#[test]
fn leaving_champ_select_drops_the_roster_and_keeps_info() {
    let info = BasicInfo { server: "euw".to_string(), username: "x".to_string() };
    let mut status = ClientStatus {
        state: ClientState::ChampSelect,
        info: Some(info.clone()),
        additional_info: Some(vec!["x".to_string()]),
    };
    let t = Transition::begin(&status, ClientState::InGame);
    assert_eq!(t.next_lookup(), None);
    assert!(status.update(t));
    assert_eq!(status.state, ClientState::InGame);
    assert_eq!(status.info, Some(info));
    assert_eq!(status.additional_info, None);
}

#[test]
fn state_names_on_the_wire() {
    assert_eq!(ClientState::Closed.name(), "Closed");
    assert_eq!(ClientState::Idle.name(), "Idle");
    assert_eq!(ClientState::ChampSelect.name(), "ChampSelect");
    assert_eq!(ClientState::InGame.name(), "InGame");
}
