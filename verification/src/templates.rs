use vstd::prelude::*;

use crate::text::{opt_chars, owned};

verus! {

/// One entry of the player list shown with a status response.
pub struct SamplePlayer {
    pub id: String,
    pub name: String,
}

/// What a [`SamplePlayer`] holds.
pub struct SamplePlayerView {
    pub id: Seq<char>,
    pub name: Seq<char>,
}

impl View for SamplePlayer {
    type V = SamplePlayerView;

    open spec fn view(&self) -> SamplePlayerView {
        SamplePlayerView { id: self.id@, name: self.name@ }
    }
}

/// The player counts and the sample of player names of a status response.
pub struct Players {
    pub max: i32,
    pub online: i32,
    pub sample: Vec<SamplePlayer>,
}

/// What a [`Players`] holds.
pub struct PlayersView {
    pub max: i32,
    pub online: i32,
    pub sample: Seq<SamplePlayerView>,
}

impl View for Players {
    type V = PlayersView;

    open spec fn view(&self) -> PlayersView {
        PlayersView {
            max: self.max,
            online: self.online,
            sample: self.sample@.map_values(|p: SamplePlayer| p@),
        }
    }
}

/// The game version a status response announces.
pub struct Version {
    pub name: String,
    pub protocol: i32,
}

/// The answer to a status request: what a client shows in its server list.
pub struct Status {
    pub description: String,
    pub favicon: Option<String>,
    pub players: Players,
    pub version: Version,
    pub enforces_secure_chat: Option<bool>,
}

/// What a [`Status`] holds.
pub struct StatusView {
    pub description: Seq<char>,
    pub favicon: Option<Seq<char>>,
    pub players: PlayersView,
    pub version_name: Seq<char>,
    pub protocol: i32,
    pub enforces_secure_chat: Option<bool>,
}

impl View for Status {
    type V = StatusView;

    open spec fn view(&self) -> StatusView {
        StatusView {
            description: self.description@,
            favicon: opt_chars(self.favicon),
            players: self.players@,
            version_name: self.version.name@,
            protocol: self.version.protocol,
            enforces_secure_chat: self.enforces_secure_chat,
        }
    }
}

/// The packet that ends a login with a reason shown to the player.
pub struct LoginDisconnect {
    pub reason: String,
}

/// The list shown when none is given: room for twenty, nobody online.
pub open spec fn empty_players() -> PlayersView {
    PlayersView { max: 20, online: 0, sample: Seq::empty() }
}

/// The status response for an optional message of the day and player list.
pub open spec fn status_view(motd: Option<Seq<char>>, players: Option<PlayersView>) -> StatusView {
    StatusView {
        description: match motd {
            Some(m) => m,
            None => "A Minecraft Server"@,
        },
        favicon: None,
        players: match players {
            Some(p) => p,
            None => empty_players(),
        },
        version_name: "1.20.1"@,
        protocol: 763,
        enforces_secure_chat: Some(false),
    }
}

/// The plain response: default message, nobody online.
pub open spec fn base_view() -> StatusView {
    status_view(None, None)
}

/// The entry that stands for one anonymous player.
pub open spec fn anonymous_player() -> SamplePlayerView {
    SamplePlayerView { id: "00000000-0000-0000-0000-000000000000"@, name: "Anonymous Player"@ }
}

/// How many entries the sample of `anonymous(online)` lists: one for each of
/// `0..=online`.
pub open spec fn anonymous_count(online: i32) -> nat {
    if online < 0 {
        0
    } else {
        (online + 1) as nat
    }
}

/// The response that claims `online` players, all anonymous.
pub open spec fn anonymous_view(online: i32) -> StatusView {
    status_view(
        None,
        Some(
            PlayersView {
                max: 20,
                online,
                sample: Seq::new(anonymous_count(online), |i: int| anonymous_player()),
            },
        ),
    )
}

/// The three players of the recording server.
pub open spec fn dream_players() -> Seq<SamplePlayerView> {
    seq![
        SamplePlayerView { id: "ec70bcaf-702f-4bb8-b48d-276fa52a780c"@, name: "Dream"@ },
        SamplePlayerView { id: "bd3dd5a4-0438-4699-b2fd-36f518154b41"@, name: "GeorgeNotFound"@ },
        SamplePlayerView { id: "c66f7c8a-ed0c-4469-90b0-421d8ff7ca49"@, name: "Sapnap"@ },
    ]
}

/// The response of a well-known recording server with three players online.
pub open spec fn dream_view() -> StatusView {
    status_view(
        Some("Dream recording server"@),
        Some(PlayersView { max: 20, online: 3, sample: dream_players() }),
    )
}

/// The responses to choose from, in the order in which they are numbered.
pub open spec fn choice_view(choice: int, online: i32) -> StatusView {
    if choice == 0 {
        base_view()
    } else if choice == 1 {
        anonymous_view(online)
    } else {
        dream_view()
    }
}

/// The packet that turns a player away at login, showing `reason`.
pub fn disconnect(reason: &str) -> (packet: LoginDisconnect)
    ensures
        packet.reason@ == reason@,
{
    LoginDisconnect { reason: owned(reason) }
}

/// A status response with message of the day `s` (a default one when absent)
/// and player list `players` (room for twenty, nobody online, when absent).
pub fn status_response(s: Option<&str>, players: Option<Players>) -> (status: Status)
    ensures
        status@ == status_view(
            match s {
                Some(m) => Some(m@),
                None => None,
            },
            match players {
                Some(p) => Some(p@),
                None => None,
            },
        ),
{
    let motd = match s {
        Some(m) => owned(m),
        None => owned("A Minecraft Server"),
    };
    let players = match players {
        Some(p) => p,
        None => {
            let none = Players { max: 20, online: 0, sample: Vec::new() };
            assert(none@.sample =~= empty_players().sample);
            none
        },
    };
    let status = Status {
        description: motd,
        favicon: None,
        players,
        version: Version { name: owned("1.20.1"), protocol: 763 },
        enforces_secure_chat: Some(false),
    };
    status
}

/// The plain status response.
pub fn base() -> (status: Status)
    ensures
        status@ == base_view(),
{
    status_response(None, None)
}

fn sample_player(id: &str, name: &str) -> (p: SamplePlayer)
    ensures
        p@ == (SamplePlayerView { id: id@, name: name@ }),
{
    SamplePlayer { id: owned(id), name: owned(name) }
}

/// A status response claiming `online` players, listing an anonymous entry
/// for each of `0..=online` (so one more than `online`, none when negative).
pub fn anonymous(online: i32) -> (status: Status)
    ensures
        status@ == anonymous_view(online),
{
    let count: usize = if online < 0 {
        0
    } else {
        online as usize + 1
    };
    let mut sample: Vec<SamplePlayer> = Vec::new();
    let mut i: usize = 0;
    while i < count
        invariant
            i <= count,
            count == anonymous_count(online),
            sample@.len() == i,
            forall|j: int| 0 <= j < i ==> #[trigger] sample@[j]@ == anonymous_player(),
        decreases count - i,
    {
        sample.push(sample_player("00000000-0000-0000-0000-000000000000", "Anonymous Player"));
        i += 1;
    }
    let players = Players { max: 20, online, sample };
    assert(players@.sample =~= Seq::new(anonymous_count(online), |i: int| anonymous_player()));
    status_response(None, Some(players))
}

/// The status response of the recording server.
pub fn dream() -> (status: Status)
    ensures
        status@ == dream_view(),
{
    let mut sample: Vec<SamplePlayer> = Vec::new();
    sample.push(sample_player("ec70bcaf-702f-4bb8-b48d-276fa52a780c", "Dream"));
    sample.push(sample_player("bd3dd5a4-0438-4699-b2fd-36f518154b41", "GeorgeNotFound"));
    sample.push(sample_player("c66f7c8a-ed0c-4469-90b0-421d8ff7ca49", "Sapnap"));
    let players = Players { max: 20, online: 3, sample };
    assert(players@.sample =~= dream_players());
    status_response(Some("Dream recording server"), Some(players))
}

/// The response numbered `choice` among plain, anonymous (claiming `online`
/// players) and recording server.
pub fn pick(choice: usize, online: i32) -> (status: Status)
    requires
        choice < 3,
    ensures
        status@ == choice_view(choice as int, online),
{
    let mut choices: Vec<Status> = Vec::new();
    choices.push(base());
    choices.push(anonymous(online));
    choices.push(dream());
    choices.remove(choice)
}

/// A random `i32` in `low..=high`.
///
/// Calls `fastrand::i32` with the range `low..=high`; claims only that the
/// result lies in the range, as fastrand's documentation says. fastrand
/// panics on an empty range, which `requires` rules out.
#[verifier::external_body]
fn random_i32(low: i32, high: i32) -> (r: i32)
    requires
        low <= high,
    ensures
        low <= r <= high,
{
    fastrand::i32(low..=high)
}

/// A random index below `len`.
///
/// Calls `fastrand::usize` with the range `..len`; claims only that the
/// result is below `len`. fastrand panics on the empty range `..0`, which
/// `requires` rules out.
#[verifier::external_body]
fn random_index(len: usize) -> (r: usize)
    requires
        0 < len,
    ensures
        r < len,
{
    fastrand::usize(..len)
}

/// A status response picked at random: the plain one, an anonymous one
/// claiming between 0 and 20 players, or the recording server.
pub fn pick_for_me() -> (status: Status)
    ensures
        exists|choice: int, online: i32|
            0 <= choice < 3 && 0 <= online <= 20 && status@ == choice_view(choice, online),
{
    let online = random_i32(0, 20);
    let choice = random_index(3);
    let status = pick(choice, online);
    assert(0 <= choice < 3 && 0 <= online <= 20 && status@ == choice_view(choice as int, online));
    status
}

/// Every status response announces version 1.20.1 (protocol 763), shows no
/// icon, does not enforce secure chat, shows the given message of the day or
/// else "A Minecraft Server", and shows the given players or else room for
/// twenty with nobody online.
pub proof fn law_status_fixed_fields(motd: Option<Seq<char>>, players: Option<PlayersView>)
    ensures
        status_view(motd, players).version_name == "1.20.1"@,
        status_view(motd, players).protocol == 763,
        status_view(motd, players).favicon is None,
        status_view(motd, players).enforces_secure_chat == Some(false),
        motd matches Some(m) ==> status_view(motd, players).description == m,
        motd is None ==> status_view(motd, players).description == "A Minecraft Server"@,
        players matches Some(p) ==> status_view(motd, players).players == p,
        players is None ==> status_view(motd, players).players.max == 20
            && status_view(motd, players).players.online == 0
            && status_view(motd, players).players.sample.len() == 0,
{
}

/// The three responses to pick from: the plain one with nobody online, the
/// anonymous one claiming `online` players with one anonymous entry for each
/// of `0..=online`, and the recording server with its three players; all have
/// room for twenty.
pub proof fn law_choices(online: i32)
    ensures
        choice_view(0, online).players.online == 0,
        choice_view(0, online).players.sample.len() == 0,
        choice_view(0, online).description == "A Minecraft Server"@,
        choice_view(1, online).players.online == online,
        choice_view(1, online).players.sample.len() == (if online < 0 {
            0
        } else {
            online + 1
        }),
        forall|i: int|
            0 <= i < choice_view(1, online).players.sample.len() ==> #[trigger] choice_view(
                1,
                online,
            ).players.sample[i] == (SamplePlayerView {
                id: "00000000-0000-0000-0000-000000000000"@,
                name: "Anonymous Player"@,
            }),
        choice_view(2, online).players.online == 3,
        choice_view(2, online).description == "Dream recording server"@,
        choice_view(2, online).players.sample.len() == 3,
        choice_view(2, online).players.sample[0].name == "Dream"@,
        choice_view(2, online).players.sample[1].name == "GeorgeNotFound"@,
        choice_view(2, online).players.sample[2].name == "Sapnap"@,
        forall|c: int| 0 <= c < 3 ==> #[trigger] choice_view(c, online).players.max == 20,
{
}

} // verus!
