use vstd::prelude::*;

use crate::text::owned;

verus! {

/// One entry of the player sample of a server list response.
pub struct PlayerSampleEntry {
    pub name: String,
    pub id: u128,
}

/// What a [`PlayerSampleEntry`] holds.
pub struct PlayerSampleEntryView {
    pub name: Seq<char>,
    pub id: u128,
}

impl View for PlayerSampleEntry {
    type V = PlayerSampleEntryView;

    open spec fn view(&self) -> PlayerSampleEntryView {
        PlayerSampleEntryView { name: self.name@, id: self.id }
    }
}

/// How the server answers a server list ping: with a response, or not at all.
pub enum ServerListPing {
    Respond {
        online_players: i32,
        max_players: i32,
        player_sample: Vec<PlayerSampleEntry>,
        description: String,
        favicon_png: Vec<u8>,
        version_name: String,
        protocol: i32,
    },
    Ignore,
}

/// What a [`ServerListPing`] holds.
pub enum ServerListPingView {
    Respond {
        online_players: i32,
        max_players: i32,
        player_sample: Seq<PlayerSampleEntryView>,
        description: Seq<char>,
        favicon_png: Seq<u8>,
        version_name: Seq<char>,
        protocol: i32,
    },
    Ignore,
}

/// The views of the entries of a sample.
pub open spec fn sample_view(sample: Seq<PlayerSampleEntry>) -> Seq<PlayerSampleEntryView> {
    sample.map_values(|e: PlayerSampleEntry| e@)
}

impl View for ServerListPing {
    type V = ServerListPingView;

    open spec fn view(&self) -> ServerListPingView {
        match self {
            ServerListPing::Respond {
                online_players,
                max_players,
                player_sample,
                description,
                favicon_png,
                version_name,
                protocol,
            } => ServerListPingView::Respond {
                online_players: *online_players,
                max_players: *max_players,
                player_sample: sample_view(player_sample@),
                description: description@,
                favicon_png: favicon_png@,
                version_name: version_name@,
                protocol: *protocol,
            },
            ServerListPing::Ignore => ServerListPingView::Ignore,
        }
    }
}

/// The response for an optional message of the day and player sample: the
/// number of players online is the size of the sample, room for twenty, no
/// icon, version 1.20.1.
pub open spec fn response_view(
    motd: Option<Seq<char>>,
    players: Option<Seq<PlayerSampleEntryView>>,
) -> ServerListPingView {
    let sample = match players {
        Some(p) => p,
        None => Seq::empty(),
    };
    ServerListPingView::Respond {
        online_players: sample.len() as i32,
        max_players: 20,
        player_sample: sample,
        description: match motd {
            Some(m) => m,
            None => "A Minecraft Server"@,
        },
        favicon_png: Seq::empty(),
        version_name: "1.20.1"@,
        protocol: 763,
    }
}

/// The entry that stands for one anonymous player: the nil id.
pub open spec fn anonymous_entry() -> PlayerSampleEntryView {
    PlayerSampleEntryView { name: "Anonymous Player"@, id: 0 }
}

/// How many anonymous entries `anonymous(online)` lists: one for each of
/// `0..=online`.
pub open spec fn anonymous_count(online: i32) -> nat {
    if online < 0 {
        0
    } else {
        (online + 1) as nat
    }
}

/// The three players of the recording server.
pub open spec fn dream_entries() -> Seq<PlayerSampleEntryView> {
    seq![
        PlayerSampleEntryView { name: "Dream"@, id: 0xec70bcaf702f4bb8b48d276fa52a780c },
        PlayerSampleEntryView { name: "GeorgeNotFound"@, id: 0xbd3dd5a404384699b2fd36f518154b41 },
        PlayerSampleEntryView { name: "Sapnap"@, id: 0xc66f7c8aed0c446990b0421d8ff7ca49 },
    ]
}

/// A server list response with message of the day `s` (a default one when
/// absent) and player sample `players` (empty when absent); it claims as many
/// players online as the sample lists.
pub fn status_response(s: Option<&str>, players: Option<Vec<PlayerSampleEntry>>) -> (ping:
    ServerListPing)
    ensures
        ping@ == response_view(
            match s {
                Some(m) => Some(m@),
                None => None,
            },
            match players {
                Some(p) => Some(sample_view(p@)),
                None => None,
            },
        ),
{
    let motd = match s {
        Some(m) => owned(m),
        None => owned("A Minecraft Server"),
    };
    let player_sample = match players {
        Some(p) => p,
        None => {
            let none: Vec<PlayerSampleEntry> = Vec::new();
            assert(sample_view(none@) =~= Seq::<PlayerSampleEntryView>::empty());
            none
        },
    };
    let online_players = player_sample.len() as i32;
    let ping = ServerListPing::Respond {
        online_players,
        max_players: 20,
        player_sample,
        description: motd,
        favicon_png: Vec::new(),
        version_name: owned("1.20.1"),
        protocol: 763,
    };
    ping
}

/// The plain response.
pub fn base() -> (ping: ServerListPing)
    ensures
        ping@ == response_view(None, None),
{
    status_response(None, None)
}

/// A response listing an anonymous entry for each of `0..=online`.
pub fn anonymous(online: i32) -> (ping: ServerListPing)
    ensures
        ping@ == response_view(
            None,
            Some(Seq::new(anonymous_count(online), |i: int| anonymous_entry())),
        ),
{
    let count: usize = if online < 0 {
        0
    } else {
        online as usize + 1
    };
    let mut players: Vec<PlayerSampleEntry> = Vec::new();
    let mut i: usize = 0;
    while i < count
        invariant
            i <= count,
            count == anonymous_count(online),
            players@.len() == i,
            forall|j: int| 0 <= j < i ==> #[trigger] players@[j]@ == anonymous_entry(),
        decreases count - i,
    {
        players.push(PlayerSampleEntry { name: owned("Anonymous Player"), id: 0 });
        i += 1;
    }
    assert(sample_view(players@) =~= Seq::new(anonymous_count(online), |i: int| anonymous_entry()));
    status_response(None, Some(players))
}

/// The response of the recording server with its three players.
pub fn dream() -> (ping: ServerListPing)
    ensures
        ping@ == response_view(Some("Dream recording server"@), Some(dream_entries())),
{
    let mut players: Vec<PlayerSampleEntry> = Vec::new();
    players.push(
        PlayerSampleEntry { name: owned("Dream"), id: 0xec70bcaf702f4bb8b48d276fa52a780c },
    );
    players.push(
        PlayerSampleEntry {
            name: owned("GeorgeNotFound"),
            id: 0xbd3dd5a404384699b2fd36f518154b41,
        },
    );
    players.push(
        PlayerSampleEntry { name: owned("Sapnap"), id: 0xc66f7c8aed0c446990b0421d8ff7ca49 },
    );
    assert(sample_view(players@) =~= dream_entries());
    status_response(Some("Dream recording server"), Some(players))
}

/// Every response claims exactly as many players online as its sample lists,
/// whenever that number fits an `i32`.
pub proof fn law_online_matches_sample(
    motd: Option<Seq<char>>,
    players: Option<Seq<PlayerSampleEntryView>>,
)
    requires
        match players {
            Some(p) => p.len() <= i32::MAX,
            None => true,
        },
    ensures
        response_view(motd, players) matches ServerListPingView::Respond {
            online_players,
            player_sample,
            ..
        } && online_players as int == player_sample.len(),
{
}

/// Every response has room for twenty players, shows no icon, announces
/// version 1.20.1 (protocol 763), shows the given message of the day or else
/// "A Minecraft Server", and lists exactly the given sample (or none).
pub proof fn law_response_fixed_fields(
    motd: Option<Seq<char>>,
    players: Option<Seq<PlayerSampleEntryView>>,
)
    ensures
        response_view(motd, players) matches ServerListPingView::Respond {
            max_players,
            favicon_png,
            version_name,
            protocol,
            description,
            player_sample,
            ..
        } && max_players == 20 && favicon_png.len() == 0 && version_name == "1.20.1"@
            && protocol == 763 && (motd matches Some(m) ==> description == m) && (motd is None
            ==> description == "A Minecraft Server"@) && (players matches Some(p)
            ==> player_sample == p) && (players is None ==> player_sample.len() == 0),
{
}

/// The anonymous response lists one nil-id anonymous entry for each of
/// `0..=online`, and the recording server lists its three players; both have
/// room for twenty.
pub proof fn law_fixed_samples(online: i32)
    ensures
        response_view(
            None,
            Some(Seq::new(anonymous_count(online), |i: int| anonymous_entry())),
        ) matches ServerListPingView::Respond { player_sample, max_players, .. }
            && max_players == 20 && player_sample.len() == (if online < 0 {
            0
        } else {
            online + 1
        }) && forall|i: int|
            0 <= i < player_sample.len() ==> #[trigger] player_sample[i].id == 0
                && player_sample[i].name == "Anonymous Player"@,
        response_view(Some("Dream recording server"@), Some(dream_entries())) matches ServerListPingView::Respond {
            player_sample,
            online_players,
            max_players,
            ..
        } && player_sample.len() == 3 && online_players == 3 && max_players == 20
            && player_sample[0].name == "Dream"@ && player_sample[1].name == "GeorgeNotFound"@
            && player_sample[2].name == "Sapnap"@,
{
}

} // verus!
