//! The closed set of supported titles and the keys of their bundled assets.

use vstd::prelude::*;
use vstd::string::StringExecFns;

verus! {

/// A supported title. The order of the variants is the order of the icon row.
#[derive(Clone, Copy, Debug, PartialEq, Eq, Hash, Structural)]
pub enum Game {
    WutheringWaves,
    ZenlessZoneZero,
    HonkaiStarRail,
    GenshinImpact,
}

/// What a bundled asset is used for.
#[derive(Clone, Copy, Debug, PartialEq, Eq, Hash, Structural)]
pub enum AssetRole {
    Background,
    Icon,
}

/// Number of supported titles.
pub const GAME_COUNT: usize = 4;

impl Default for Game {
    fn default() -> (game: Game)
        ensures
            game == Game::WutheringWaves,
    {
        Game::WutheringWaves
    }
}

impl Game {
    /// Position of the title in the icon row.
    pub open spec fn spec_index(self) -> nat {
        match self {
            Game::WutheringWaves => 0,
            Game::ZenlessZoneZero => 1,
            Game::HonkaiStarRail => 2,
            Game::GenshinImpact => 3,
        }
    }

    /// The title at a position of the icon row, if there is one.
    pub open spec fn spec_from_index(index: nat) -> Option<Game> {
        if index == 0 {
            Some(Game::WutheringWaves)
        } else if index == 1 {
            Some(Game::ZenlessZoneZero)
        } else if index == 2 {
            Some(Game::HonkaiStarRail)
        } else if index == 3 {
            Some(Game::GenshinImpact)
        } else {
            None
        }
    }

    /// Every title once, in row order.
    pub open spec fn spec_all() -> Seq<Game> {
        seq![
            Game::WutheringWaves,
            Game::ZenlessZoneZero,
            Game::HonkaiStarRail,
            Game::GenshinImpact,
        ]
    }

    /// The identifier under which the title is written into documents.
    pub open spec fn spec_name(self) -> Seq<char> {
        match self {
            Game::WutheringWaves => "WutheringWaves"@,
            Game::ZenlessZoneZero => "ZenlessZoneZero"@,
            Game::HonkaiStarRail => "HonkaiStarRail"@,
            Game::GenshinImpact => "GenshinImpact"@,
        }
    }

    /// The title that an identifier names, if it names one.
    pub open spec fn spec_from_name(name: Seq<char>) -> Option<Game> {
        if name == "WutheringWaves"@ {
            Some(Game::WutheringWaves)
        } else if name == "ZenlessZoneZero"@ {
            Some(Game::ZenlessZoneZero)
        } else if name == "HonkaiStarRail"@ {
            Some(Game::HonkaiStarRail)
        } else if name == "GenshinImpact"@ {
            Some(Game::GenshinImpact)
        } else {
            None
        }
    }

    /// The identifier under which the title is written into documents.
    pub fn name(self) -> (name: &'static str)
        ensures
            name@ == self.spec_name(),
    {
        match self {
            Game::WutheringWaves => "WutheringWaves",
            Game::ZenlessZoneZero => "ZenlessZoneZero",
            Game::HonkaiStarRail => "HonkaiStarRail",
            Game::GenshinImpact => "GenshinImpact",
        }
    }

    /// The title that an identifier names, if it names one.
    pub fn from_name(name: &str) -> (game: Option<Game>)
        ensures
            game == Game::spec_from_name(name@),
    {
        let name = String::from_str(name);
        if name == String::from_str("WutheringWaves") {
            Some(Game::WutheringWaves)
        } else if name == String::from_str("ZenlessZoneZero") {
            Some(Game::ZenlessZoneZero)
        } else if name == String::from_str("HonkaiStarRail") {
            Some(Game::HonkaiStarRail)
        } else if name == String::from_str("GenshinImpact") {
            Some(Game::GenshinImpact)
        } else {
            None
        }
    }

    pub fn index(self) -> (index: usize)
        ensures
            index == self.spec_index(),
            index < GAME_COUNT,
    {
        match self {
            Game::WutheringWaves => 0,
            Game::ZenlessZoneZero => 1,
            Game::HonkaiStarRail => 2,
            Game::GenshinImpact => 3,
        }
    }

    pub fn from_index(index: usize) -> (game: Option<Game>)
        ensures
            game == Game::spec_from_index(index as nat),
            game is Some <==> index < GAME_COUNT,
    {
        if index == 0 {
            Some(Game::WutheringWaves)
        } else if index == 1 {
            Some(Game::ZenlessZoneZero)
        } else if index == 2 {
            Some(Game::HonkaiStarRail)
        } else if index == 3 {
            Some(Game::GenshinImpact)
        } else {
            None
        }
    }

    /// Every title once, in row order.
    pub fn all() -> (games: Vec<Game>)
        ensures
            games@ == Game::spec_all(),
    {
        let games = vec![
            Game::WutheringWaves,
            Game::ZenlessZoneZero,
            Game::HonkaiStarRail,
            Game::GenshinImpact,
        ];
        assert(games@ =~= Game::spec_all());
        games
    }
}

/// `spec_all` lists the titles by their index: each title stands at its own
/// position, and the list has no other entries.
pub proof fn lemma_all_is_indexed(game: Game)
    ensures
        Game::spec_all().len() == GAME_COUNT,
        Game::spec_all()[game.spec_index() as int] == game,
        Game::spec_from_index(game.spec_index()) == Some(game),
{
}

/// Every title is found again by its identifier, and an identifier that names
/// a title is that title's own.
pub proof fn lemma_name_round_trip(game: Game, name: Seq<char>)
    ensures
        Game::spec_from_name(game.spec_name()) == Some(game),
        Game::spec_from_name(name) == Some(game) ==> name == game.spec_name(),
{
    reveal_strlit("WutheringWaves");
    reveal_strlit("ZenlessZoneZero");
    reveal_strlit("HonkaiStarRail");
    reveal_strlit("GenshinImpact");
    let own = game.spec_name();
    assert(own[0] == 'W' || own[0] == 'Z' || own[0] == 'H' || own[0] == 'G');
}

/// The key under which the asset of a title and role is bundled.
pub open spec fn asset_key_spec(game: Game, role: AssetRole) -> Seq<char> {
    match (game, role) {
        (Game::WutheringWaves, AssetRole::Background) => "wutheringwaves-bg.mp4"@,
        (Game::ZenlessZoneZero, AssetRole::Background) => "zenlesszonezero-bg.png"@,
        (Game::HonkaiStarRail, AssetRole::Background) => "honkaistarrail-bg.png"@,
        (Game::GenshinImpact, AssetRole::Background) => "genshinimpact-bg.png"@,
        (Game::WutheringWaves, AssetRole::Icon) => "wutheringwaves-icon.png"@,
        (Game::ZenlessZoneZero, AssetRole::Icon) => "zenlesszonezero-icon.png"@,
        (Game::HonkaiStarRail, AssetRole::Icon) => "honkaistarrail-icon.png"@,
        (Game::GenshinImpact, AssetRole::Icon) => "genshinimpact-icon.png"@,
    }
}

/// The key under which the asset of a title and role is bundled. The suffix of
/// a key is part of its name only: nothing reads a media kind from it.
pub fn asset_key(game: Game, role: AssetRole) -> (key: &'static str)
    ensures
        key@ == asset_key_spec(game, role),
{
    match role {
        AssetRole::Background => match game {
            Game::WutheringWaves => "wutheringwaves-bg.mp4",
            Game::ZenlessZoneZero => "zenlesszonezero-bg.png",
            Game::HonkaiStarRail => "honkaistarrail-bg.png",
            Game::GenshinImpact => "genshinimpact-bg.png",
        },
        AssetRole::Icon => match game {
            Game::WutheringWaves => "wutheringwaves-icon.png",
            Game::ZenlessZoneZero => "zenlesszonezero-icon.png",
            Game::HonkaiStarRail => "honkaistarrail-icon.png",
            Game::GenshinImpact => "genshinimpact-icon.png",
        },
    }
}

/// Two different (title, role) pairs never share a key.
pub proof fn lemma_asset_keys_distinct(g1: Game, r1: AssetRole, g2: Game, r2: AssetRole)
    requires
        g1 != g2 || r1 != r2,
    ensures
        asset_key_spec(g1, r1) != asset_key_spec(g2, r2),
{
    reveal_strlit("wutheringwaves-bg.mp4");
    reveal_strlit("zenlesszonezero-bg.png");
    reveal_strlit("honkaistarrail-bg.png");
    reveal_strlit("genshinimpact-bg.png");
    reveal_strlit("wutheringwaves-icon.png");
    reveal_strlit("zenlesszonezero-icon.png");
    reveal_strlit("honkaistarrail-icon.png");
    reveal_strlit("genshinimpact-icon.png");
    let k1 = asset_key_spec(g1, r1);
    let k2 = asset_key_spec(g2, r2);
    if g1 != g2 {
        assert(k1[0] != k2[0]);
    } else {
        assert(k1.len() != k2.len());
    }
}

} // verus!
