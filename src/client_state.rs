//! The client's state, its enrichment with player identity and lobby roster, and the
//! step-by-step transition between two states.

use vstd::prelude::*;
use crate::json::{field, get_field, json_document, parse_json, text_of, Json};
use crate::text::{decimal_text, push_decimal, string_of, chars_of, views};

verus! {

/// The phase the client is in.
#[derive(Debug, Clone, Copy, PartialEq, Eq, Structural)]
pub enum ClientState {
    Closed,
    Idle,
    ChampSelect,
    InGame,
}

/// The state that the client's raw phase text stands for.
pub open spec fn phase_of(raw: Seq<char>) -> ClientState {
    if raw == "ChampSelect"@ {
        ClientState::ChampSelect
    } else if raw == "InProgress"@ {
        ClientState::InGame
    } else {
        ClientState::Idle
    }
}

/// Maps the client's raw phase text to a state; never `Closed`.
pub fn compute_phase(raw: &str) -> (r: ClientState)
    ensures
        r == phase_of(raw@),
        r != ClientState::Closed,
{
    let s = String::from_str(raw);
    if s == String::from_str("ChampSelect") {
        ClientState::ChampSelect
    } else if s == String::from_str("InProgress") {
        ClientState::InGame
    } else {
        ClientState::Idle
    }
}

impl ClientState {
    /// The name of the state in a published snapshot.
    pub fn name(&self) -> (r: &'static str)
        ensures
            r@ == match self {
                ClientState::Closed => "Closed"@,
                ClientState::Idle => "Idle"@,
                ClientState::ChampSelect => "ChampSelect"@,
                ClientState::InGame => "InGame"@,
            },
    {
        match self {
            ClientState::Closed => "Closed",
            ClientState::Idle => "Idle",
            ClientState::ChampSelect => "ChampSelect",
            ClientState::InGame => "InGame",
        }
    }
}

impl<'a> From<&'a str> for ClientState {
    fn from(s: &'a str) -> Self {
        compute_phase(s)
    }
}

impl<'a> vstd::std_specs::convert::FromSpecImpl<&'a str> for ClientState {
    open spec fn obeys_from_spec() -> bool {
        true
    }

    open spec fn from_spec(v: &'a str) -> Self {
        phase_of(v@)
    }
}

impl Default for ClientState {
    fn default() -> (r: Self)
        ensures
            r == ClientState::Closed,
    {
        ClientState::Closed
    }
}

/// Who is playing, and where: fetched once per connection.
#[derive(Debug, Clone, PartialEq, Eq)]
pub struct BasicInfo {
    /// The region code, lower-cased.
    pub server: String,
    /// The local player's display name.
    pub username: String,
}

/// The snapshot published to subscribers.
#[derive(Debug, Clone, PartialEq, Eq)]
pub struct ClientStatus {
    pub state: ClientState,
    pub info: Option<BasicInfo>,
    /// The display names of the player's team, while in champion select.
    pub additional_info: Option<Vec<String>>,
}

impl ClientStatus {
    /// Enrichment is present exactly where the state calls for it.
    pub open spec fn is_consistent(self) -> bool {
        &&& (self.info is Some) == (self.state != ClientState::Closed)
        &&& (self.additional_info is Some) == (self.state == ClientState::ChampSelect)
    }

    /// The snapshot after `t` is applied: the state is the target; what the target needs
    /// and was already there is kept, what it needs and was missing is taken from `t`,
    /// and what it does not need is dropped.
    pub open spec fn updated(self, t: Transition) -> ClientStatus {
        ClientStatus {
            state: t.target,
            info: if t.target == ClientState::Closed {
                None
            } else if self.info is Some {
                self.info
            } else {
                t.info
            },
            additional_info: if t.target != ClientState::ChampSelect {
                None
            } else if self.additional_info is Some {
                self.additional_info
            } else {
                t.roster
            },
        }
    }

    /// Applies a finished transition that was begun from this snapshot; leaves the
    /// snapshot as it is, and says so, when `t` is unfinished or was begun elsewhere.
    pub fn update(&mut self, t: Transition) -> (applied: bool)
        ensures
            applied == (t.is_begun_from(*old(self)) && t.next() is None),
            applied ==> *final(self) == old(self).updated(t),
            applied ==> final(self).is_consistent(),
            !applied ==> *final(self) == *old(self),
        no_unwind
    {
        let fits = t.needs_info == (t.target != ClientState::Closed && matches!(self.info, None))
            && t.needs_roster == (t.target == ClientState::ChampSelect
                && matches!(self.additional_info, None));
        if !fits || matches!(t.next_lookup(), Some(_)) {
            return false;
        }
        let target = t.target;
        if target == ClientState::Closed {
            self.info = None;
        } else if matches!(self.info, None) {
            self.info = t.info;
        }
        if target != ClientState::ChampSelect {
            self.additional_info = None;
        } else if matches!(self.additional_info, None) {
            self.additional_info = t.roster;
        }
        self.state = target;
        true
    }
}

impl Default for ClientStatus {
    fn default() -> (r: Self)
        ensures
            r.state == ClientState::Closed,
            r.info is None,
            r.additional_info is None,
            r.is_consistent(),
    {
        ClientStatus { state: ClientState::Closed, info: None, additional_info: None }
    }
}

/// Where the region code is read.
pub const REGION_LOCALE_PATH: &'static str = "/riotclient/region-locale";

/// Where the local player's display name is read.
pub const CURRENT_SUMMONER_PATH: &'static str = "/lol-summoner/v1/current-summoner";

/// Where the current phase is read.
pub const GAMEFLOW_PHASE_PATH: &'static str = "/lol-gameflow/v1/gameflow-phase";

/// Where the champion select session, and with it the team, is read.
pub const CHAMP_SELECT_SESSION_PATH: &'static str = "/lol-champ-select/v1/session";

/// Where display names are looked up by summoner id; the ids follow.
pub const SUMMONER_NAMES_PATH: &'static str = "/lol-summoner/v2/summoner-names?ids=";

/// `s` in lower case, as `str::to_lowercase` writes it.
pub uninterp spec fn lower_of(s: Seq<char>) -> Seq<char>;

/// Relies on `str::to_lowercase`, whose result depends on the characters alone.
#[verifier::external_body]
fn lowercase(s: &str) -> (r: String)
    ensures
        r@ == lower_of(s@),
{
    s.to_lowercase()
}

/// The text of member `key` of the document, where it is an object whose member is a string.
pub open spec fn text_field(doc: Option<Json>, key: Seq<char>) -> Option<Seq<char>> {
    match doc {
        Some(j) => match field(j, key) {
            Some(v) => text_of(v),
            None => None,
        },
        None => None,
    }
}

/// The phase in a gameflow-phase response: a bare JSON string.
pub open spec fn phase_in(doc: Option<Json>) -> Option<ClientState> {
    match doc {
        Some(Json::Str(s)) => Some(phase_of(s@)),
        _ => None,
    }
}

/// The id of a team member, where it is a positive integer; 0 and negative ids stand
/// for bots and empty slots.
pub open spec fn member_id(member: Json) -> Option<u64> {
    match field(member, "summonerId"@) {
        Some(Json::Number(Some(id))) => if id > 0 {
            Some(id)
        } else {
            None
        },
        _ => None,
    }
}

pub open spec fn positive_ids(team: Seq<Json>) -> Seq<u64>
    decreases team.len(),
{
    if team.len() == 0 {
        Seq::empty()
    } else {
        let rest = positive_ids(team.drop_last());
        match member_id(team.last()) {
            Some(id) => rest.push(id),
            None => rest,
        }
    }
}

/// The roster is looked up only for real players: every id kept is above 0.
pub proof fn lemma_team_ids_are_positive(team: Seq<Json>)
    ensures
        forall|i: int| 0 <= i < positive_ids(team).len() ==> #[trigger] positive_ids(team)[i] > 0,
    decreases team.len(),
{
    if team.len() > 0 {
        lemma_team_ids_are_positive(team.drop_last());
        let rest = positive_ids(team.drop_last());
        match member_id(team.last()) {
            Some(id) => {
                assert forall|i: int| 0 <= i < rest.push(id).len() implies #[trigger] rest.push(
                    id,
                )[i] > 0 by {
                    if i < rest.len() {
                        assert(rest.push(id)[i] == rest[i]);
                    }
                }
            },
            None => {},
        }
    }
}

/// The positive ids of `myTeam` in a champion select session, in team order.
pub open spec fn team_ids_in(doc: Option<Json>) -> Option<Seq<u64>> {
    match doc {
        Some(j) => match field(j, "myTeam"@) {
            Some(Json::Array(team)) => Some(positive_ids(team@)),
            _ => None,
        },
        None => None,
    }
}

pub open spec fn display_names(entries: Seq<Json>) -> Seq<Seq<char>>
    decreases entries.len(),
{
    if entries.len() == 0 {
        Seq::empty()
    } else {
        let rest = display_names(entries.drop_last());
        match field(entries.last(), "displayName"@) {
            Some(Json::Str(name)) => rest.push(name@),
            _ => rest,
        }
    }
}

/// The display names in a summoner-names response, an array of objects; an entry
/// without a string `displayName` is passed over.
pub open spec fn names_in(doc: Option<Json>) -> Option<Seq<Seq<char>>> {
    match doc {
        Some(Json::Array(entries)) => Some(display_names(entries@)),
        _ => None,
    }
}

fn text_member(body: &str, key: &str) -> (r: Option<String>)
    ensures
        match r {
            Some(v) => text_field(json_document(body@), key@) == Some(v@),
            None => text_field(json_document(body@), key@) is None,
        },
{
    let doc = match parse_json(body) {
        Some(d) => d,
        None => return None,
    };
    let k = String::from_str(key);
    match get_field(&doc, &k) {
        Some(Json::Str(v)) => Some(v.clone()),
        _ => None,
    }
}

/// The lower-cased region code in a region-locale response.
pub fn region_from(body: &str) -> (r: Option<String>)
    ensures
        match text_field(json_document(body@), "region"@) {
            Some(t) => r is Some && r->0@ == lower_of(t),
            None => r is None,
        },
{
    match text_member(body, "region") {
        Some(v) => Some(lowercase(v.as_str())),
        None => None,
    }
}

/// The display name in a current-summoner response.
pub fn display_name_from(body: &str) -> (r: Option<String>)
    ensures
        match text_field(json_document(body@), "displayName"@) {
            Some(t) => r is Some && r->0@ == t,
            None => r is None,
        },
{
    text_member(body, "displayName")
}

/// The state in a gameflow-phase response.
pub fn phase_from(body: &str) -> (r: Option<ClientState>)
    ensures
        r == phase_in(json_document(body@)),
{
    match parse_json(body) {
        Some(Json::Str(s)) => Some(compute_phase(s.as_str())),
        _ => None,
    }
}

/// The positive summoner ids of the player's team in a champion select session.
pub fn team_ids_from(body: &str) -> (r: Option<Vec<u64>>)
    ensures
        match team_ids_in(json_document(body@)) {
            Some(ids) => r is Some && r->0@ == ids,
            None => r is None,
        },
{
    let doc = match parse_json(body) {
        Some(d) => d,
        None => return None,
    };
    let key = String::from_str("myTeam");
    let team = match get_field(&doc, &key) {
        Some(Json::Array(team)) => team,
        _ => return None,
    };
    let id_key = String::from_str("summonerId");
    let mut ids: Vec<u64> = Vec::new();
    let mut i: usize = 0;
    while i < team.len()
        invariant
            i <= team@.len(),
            id_key@ == "summonerId"@,
            ids@ == positive_ids(team@.take(i as int)),
        decreases team@.len() - i,
    {
        proof {
            assert(team@.take(i as int + 1).drop_last() =~= team@.take(i as int));
        }
        match get_field(&team[i], &id_key) {
            Some(Json::Number(Some(id))) => {
                if *id > 0 {
                    ids.push(*id);
                }
            },
            _ => {},
        }
        i = i + 1;
    }
    assert(team@.take(team@.len() as int) =~= team@);
    Some(ids)
}

/// The display names in a summoner-names response.
pub fn names_from(body: &str) -> (r: Option<Vec<String>>)
    ensures
        match names_in(json_document(body@)) {
            Some(names) => r is Some && views(r->0@) == names,
            None => r is None,
        },
{
    let doc = match parse_json(body) {
        Some(d) => d,
        None => return None,
    };
    let entries = match &doc {
        Json::Array(entries) => entries,
        _ => return None,
    };
    let key = String::from_str("displayName");
    let mut names: Vec<String> = Vec::new();
    let mut i: usize = 0;
    while i < entries.len()
        invariant
            i <= entries@.len(),
            key@ == "displayName"@,
            views(names@) == display_names(entries@.take(i as int)),
        decreases entries@.len() - i,
    {
        proof {
            assert(entries@.take(i as int + 1).drop_last() =~= entries@.take(i as int));
        }
        match get_field(&entries[i], &key) {
            Some(Json::Str(name)) => {
                let ghost before = names@;
                names.push(name.clone());
                assert(views(names@) =~= views(before).push(name@));
            },
            _ => {},
        }
        i = i + 1;
    }
    assert(entries@.take(entries@.len() as int) =~= entries@);
    Some(names)
}

/// `ids` as a list: `[a, b, c]`.
pub open spec fn id_list_text(ids: Seq<u64>) -> Seq<char> {
    seq!['['] + joined_ids(ids) + seq![']']
}

pub open spec fn joined_ids(ids: Seq<u64>) -> Seq<char>
    decreases ids.len(),
{
    if ids.len() == 0 {
        Seq::empty()
    } else if ids.len() == 1 {
        decimal_text(ids[0] as nat)
    } else {
        joined_ids(ids.drop_last()) + seq![',', ' '] + decimal_text(ids.last() as nat)
    }
}

/// The path that looks up the display names of `ids`.
pub fn summoner_names_path(ids: &Vec<u64>) -> (r: String)
    ensures
        r@ == SUMMONER_NAMES_PATH@ + id_list_text(ids@),
{
    let mut out = chars_of(SUMMONER_NAMES_PATH);
    out.push('[');
    let ghost start = out@;
    let mut i: usize = 0;
    while i < ids.len()
        invariant
            i <= ids@.len(),
            out@ == start + joined_ids(ids@.take(i as int)),
        decreases ids@.len() - i,
    {
        proof {
            assert(ids@.take(i as int + 1).drop_last() =~= ids@.take(i as int));
        }
        if i > 0 {
            out.push(',');
            out.push(' ');
        }
        push_decimal(&mut out, ids[i]);
        i = i + 1;
        assert(out@ =~= start + joined_ids(ids@.take(i as int)));
    }
    assert(ids@.take(ids@.len() as int) =~= ids@);
    out.push(']');
    assert(out@ =~= SUMMONER_NAMES_PATH@ + id_list_text(ids@));
    string_of(&out)
}

/// A request a transition still has to make.
#[derive(Debug, Clone, Copy, PartialEq, Eq, Structural)]
pub enum Lookup {
    RegionLocale,
    CurrentSummoner,
    ChampSelectSession,
    SummonerNames,
}

/// A lookup whose response could not be read.
#[derive(Debug, Clone, Copy, PartialEq, Eq, Structural)]
pub struct EnrichmentError {
    pub lookup: Lookup,
}

/// A change of state under way: what the target needs that the snapshot lacks, and
/// what has been fetched of it so far. Nothing is written to the snapshot until
/// `ClientStatus::update`, so a failed lookup leaves the snapshot as it was.
#[derive(Debug)]
pub struct Transition {
    pub target: ClientState,
    /// The target is not `Closed` and the snapshot has no `BasicInfo` yet.
    pub needs_info: bool,
    /// The target is `ChampSelect` and the snapshot has no roster yet.
    pub needs_roster: bool,
    pub region: Option<String>,
    pub info: Option<BasicInfo>,
    pub ids: Option<Vec<u64>>,
    pub roster: Option<Vec<String>>,
}

impl Transition {
    pub open spec fn is_begun_from(self, status: ClientStatus) -> bool {
        &&& self.needs_info == (self.target != ClientState::Closed && status.info is None)
        &&& self.needs_roster == (self.target == ClientState::ChampSelect
            && status.additional_info is None)
    }

    /// The lookup to make next: region, then display name, while `BasicInfo` is
    /// needed; then team, then names, while the roster is; none once all is there.
    pub open spec fn next(self) -> Option<Lookup> {
        if self.needs_info && self.info is None {
            if self.region is None {
                Some(Lookup::RegionLocale)
            } else {
                Some(Lookup::CurrentSummoner)
            }
        } else if self.needs_roster && self.roster is None {
            if self.ids is None {
                Some(Lookup::ChampSelectSession)
            } else {
                Some(Lookup::SummonerNames)
            }
        } else {
            None
        }
    }

    /// Whether the response `body` to the next lookup can be read.
    pub open spec fn readable(self, body: Seq<char>) -> bool {
        let doc = json_document(body);
        match self.next() {
            Some(Lookup::RegionLocale) => text_field(doc, "region"@) is Some,
            Some(Lookup::CurrentSummoner) => text_field(doc, "displayName"@) is Some,
            Some(Lookup::ChampSelectSession) => team_ids_in(doc) is Some,
            Some(Lookup::SummonerNames) => names_in(doc) is Some,
            None => false,
        }
    }

    /// `n` is this transition with the response `body` to its next lookup taken in.
    pub open spec fn accepts(self, body: Seq<char>, n: Transition) -> bool {
        let doc = json_document(body);
        &&& n.target == self.target
        &&& n.needs_info == self.needs_info
        &&& n.needs_roster == self.needs_roster
        &&& match self.next() {
            Some(Lookup::RegionLocale) => {
                &&& n.region is Some
                &&& n.region->0@ == lower_of(text_field(doc, "region"@)->0)
                &&& n.info == self.info && n.ids == self.ids && n.roster == self.roster
            },
            Some(Lookup::CurrentSummoner) => {
                &&& n.info == Some(
                    BasicInfo { server: self.region->0, username: n.info->0.username },
                )
                &&& n.info->0.username@ == text_field(doc, "displayName"@)->0
                &&& n.region is None && n.ids == self.ids && n.roster == self.roster
            },
            Some(Lookup::ChampSelectSession) => {
                &&& n.ids is Some
                &&& n.ids->0@ == team_ids_in(doc)->0
                &&& n.region == self.region && n.info == self.info && n.roster == self.roster
            },
            Some(Lookup::SummonerNames) => {
                &&& n.roster is Some
                &&& views(n.roster->0@) == names_in(doc)->0
                &&& n.ids is None && n.region == self.region && n.info == self.info
            },
            None => false,
        }
    }

    /// Starts the change of `status` to `target`.
    pub fn begin(status: &ClientStatus, target: ClientState) -> (r: Transition)
        ensures
            r.target == target,
            r.is_begun_from(*status),
            r.region is None && r.info is None && r.ids is None && r.roster is None,
    {
        Transition {
            target,
            needs_info: target != ClientState::Closed && status.info.is_none(),
            needs_roster: target == ClientState::ChampSelect && status.additional_info.is_none(),
            region: None,
            info: None,
            ids: None,
            roster: None,
        }
    }

    /// The lookup to make next, if any is left.
    pub fn next_lookup(&self) -> (r: Option<Lookup>)
        ensures
            r == self.next(),
        no_unwind
    {
        if self.needs_info && matches!(self.info, None) {
            if matches!(self.region, None) {
                Some(Lookup::RegionLocale)
            } else {
                Some(Lookup::CurrentSummoner)
            }
        } else if self.needs_roster && matches!(self.roster, None) {
            if matches!(self.ids, None) {
                Some(Lookup::ChampSelectSession)
            } else {
                Some(Lookup::SummonerNames)
            }
        } else {
            None
        }
    }

    /// The path of the next lookup.
    pub fn request_path(&self) -> (r: String)
        requires
            self.next() is Some,
        ensures
            match self.next()->0 {
                Lookup::RegionLocale => r@ == REGION_LOCALE_PATH@,
                Lookup::CurrentSummoner => r@ == CURRENT_SUMMONER_PATH@,
                Lookup::ChampSelectSession => r@ == CHAMP_SELECT_SESSION_PATH@,
                Lookup::SummonerNames => r@ == SUMMONER_NAMES_PATH@ + id_list_text(
                    self.ids->0@,
                ),
            },
    {
        match self.next_lookup() {
            Some(Lookup::RegionLocale) => String::from_str(REGION_LOCALE_PATH),
            Some(Lookup::CurrentSummoner) => String::from_str(CURRENT_SUMMONER_PATH),
            Some(Lookup::ChampSelectSession) => String::from_str(CHAMP_SELECT_SESSION_PATH),
            _ => match &self.ids {
                Some(ids) => summoner_names_path(ids),
                None => String::new(),
            },
        }
    }

    /// Takes in the response `body` to the next lookup. Where it cannot be read the
    /// transition stays as it was and the error names the lookup.
    pub fn accept(&mut self, body: &str) -> (r: Result<(), EnrichmentError>)
        requires
            old(self).next() is Some,
        ensures
            r is Ok == old(self).readable(body@),
            r is Ok ==> old(self).accepts(body@, *final(self)),
            r is Err ==> *final(self) == *old(self) && r->Err_0.lookup == old(self).next()->0,
    {
        let lookup = self.next_lookup();
        match lookup {
            Some(Lookup::RegionLocale) => match region_from(body) {
                Some(region) => {
                    self.region = Some(region);
                    Ok(())
                },
                None => Err(EnrichmentError { lookup: Lookup::RegionLocale }),
            },
            Some(Lookup::CurrentSummoner) => match display_name_from(body) {
                Some(username) => {
                    let server = self.region.take().unwrap();
                    self.info = Some(BasicInfo { server, username });
                    Ok(())
                },
                None => Err(EnrichmentError { lookup: Lookup::CurrentSummoner }),
            },
            Some(Lookup::ChampSelectSession) => match team_ids_from(body) {
                Some(ids) => {
                    self.ids = Some(ids);
                    Ok(())
                },
                None => Err(EnrichmentError { lookup: Lookup::ChampSelectSession }),
            },
            _ => match names_from(body) {
                Some(names) => {
                    self.ids = None;
                    self.roster = Some(names);
                    Ok(())
                },
                None => Err(EnrichmentError { lookup: Lookup::SummonerNames }),
            },
        }
    }
}

} // verus!
