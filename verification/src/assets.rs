//! The asset store: a read-only mapping from logical keys to byte buffers,
//! filled once at startup.

use crate::game::{asset_key, asset_key_spec, AssetRole, Game};
use vstd::prelude::*;
use vstd::string::StringExecFns;

verus! {

struct Asset {
    key: String,
    bytes: Vec<u8>,
}

/// The bundled assets by key. No key occurs twice.
pub struct AssetStore {
    entries: Vec<Asset>,
}

/// Whether some entry has the key.
spec fn has_key(entries: Seq<Asset>, key: Seq<char>) -> bool {
    exists|i: int| 0 <= i < entries.len() && (#[trigger] entries[i]).key@ == key
}

/// The position of an entry with the key.
spec fn position_of(entries: Seq<Asset>, key: Seq<char>) -> int {
    choose|i: int| 0 <= i < entries.len() && (#[trigger] entries[i]).key@ == key
}

spec fn distinct_keys(entries: Seq<Asset>) -> bool {
    forall|i: int, j: int|
        0 <= i < entries.len() && 0 <= j < entries.len() && i != j ==> (#[trigger] entries[i]).key@
            != (#[trigger] entries[j]).key@
}

impl View for AssetStore {
    type V = Map<Seq<char>, Seq<u8>>;

    closed spec fn view(&self) -> Map<Seq<char>, Seq<u8>> {
        Map::new(
            |key: Seq<char>| has_key(self.entries@, key),
            |key: Seq<char>| self.entries@[position_of(self.entries@, key)].bytes@,
        )
    }
}

/// Whether a store holds an asset for every title and role.
pub open spec fn is_complete(assets: Map<Seq<char>, Seq<u8>>) -> bool {
    forall|game: Game, role: AssetRole| assets.contains_key(#[trigger] asset_key_spec(game, role))
}

/// The (title, role) pairs in the order in which a store is checked: titles
/// in row order, the background of each before its icon.
pub open spec fn required_assets() -> Seq<(Game, AssetRole)> {
    seq![
        (Game::WutheringWaves, AssetRole::Background),
        (Game::WutheringWaves, AssetRole::Icon),
        (Game::ZenlessZoneZero, AssetRole::Background),
        (Game::ZenlessZoneZero, AssetRole::Icon),
        (Game::HonkaiStarRail, AssetRole::Background),
        (Game::HonkaiStarRail, AssetRole::Icon),
        (Game::GenshinImpact, AssetRole::Background),
        (Game::GenshinImpact, AssetRole::Icon),
    ]
}

/// Where a (title, role) pair stands among the required assets.
pub open spec fn required_position(game: Game, role: AssetRole) -> int {
    game.spec_index() * 2 + match role {
        AssetRole::Background => 0int,
        AssetRole::Icon => 1int,
    }
}

/// Whether a store holds the required assets at the first `count` positions.
pub open spec fn holds_first(assets: Map<Seq<char>, Seq<u8>>, count: int) -> bool {
    forall|i: int|
        0 <= i < count && i < required_assets().len() ==> assets.contains_key(
            asset_key_spec((#[trigger] required_assets()[i]).0, required_assets()[i].1),
        )
}

/// Every (title, role) pair is among the required assets, at its position.
pub proof fn lemma_required_assets_cover(game: Game, role: AssetRole)
    ensures
        0 <= required_position(game, role) < required_assets().len(),
        required_assets()[required_position(game, role)] == (game, role),
{
}

/// A store is complete exactly if it holds all the required assets.
pub proof fn lemma_complete_holds_all(assets: Map<Seq<char>, Seq<u8>>)
    ensures
        is_complete(assets) <==> holds_first(assets, required_assets().len() as int),
{
    if holds_first(assets, required_assets().len() as int) {
        assert forall|game: Game, role: AssetRole|
            assets.contains_key(#[trigger] asset_key_spec(game, role)) by {
            lemma_required_assets_cover(game, role);
            let at = required_position(game, role);
            assert(required_assets()[at].0 == game && required_assets()[at].1 == role);
        }
    }
}

impl AssetStore {
    #[verifier::type_invariant]
    spec fn inv(self) -> bool {
        distinct_keys(self.entries@)
    }

    /// A store without assets.
    pub fn new() -> (store: AssetStore)
        ensures
            store@ == Map::<Seq<char>, Seq<u8>>::empty(),
    {
        let store = AssetStore { entries: Vec::new() };
        assert(store@ =~= Map::<Seq<char>, Seq<u8>>::empty());
        store
    }

    fn find(&self, key: &str) -> (at: Option<usize>)
        ensures
            at is Some <==> self@.contains_key(key@),
            at matches Some(i) ==> i < self.entries@.len() && self.entries@[i as int].key@ == key@
                && self.entries@[i as int].bytes@ == self@[key@],
    {
        proof {
            use_type_invariant(self);
        }
        let wanted = String::from_str(key);
        let mut i: usize = 0;
        while i < self.entries.len()
            invariant
                i <= self.entries@.len(),
                wanted@ == key@,
                distinct_keys(self.entries@),
                forall|j: int| 0 <= j < i ==> (#[trigger] self.entries@[j]).key@ != key@,
            decreases self.entries@.len() - i,
        {
            if self.entries[i].key == wanted {
                proof {
                    let found = position_of(self.entries@, key@);
                    assert(self.entries@[i as int].key@ == key@);
                    assert(found == i);
                }
                return Some(i);
            }
            i += 1;
        }
        None
    }

    /// Whether the store holds an asset under the key.
    pub fn contains(&self, key: &str) -> (held: bool)
        ensures
            held == self@.contains_key(key@),
    {
        self.find(key).is_some()
    }

    /// The bytes stored under the key.
    pub fn get(&self, key: &str) -> (bytes: Option<&Vec<u8>>)
        ensures
            bytes is Some <==> self@.contains_key(key@),
            bytes matches Some(held) ==> held@ == self@[key@],
    {
        match self.find(key) {
            Some(i) => Some(&self.entries[i].bytes),
            None => None,
        }
    }

    /// Adds an asset under a new key. A key that is already taken keeps its
    /// bytes, and the call returns `false`.
    pub fn insert(&mut self, key: &str, bytes: Vec<u8>) -> (added: bool)
        ensures
            added == !old(self)@.contains_key(key@),
            added ==> final(self)@ == old(self)@.insert(key@, bytes@),
            !added ==> final(self)@ == old(self)@,
    {
        proof {
            use_type_invariant(&*self);
        }
        if self.contains(key) {
            return false;
        }
        let ghost before = self.entries@;
        let asset = Asset { key: String::from_str(key), bytes };
        let mut entries: Vec<Asset> = Vec::new();
        core::mem::swap(&mut self.entries, &mut entries);
        entries.push(asset);
        self.entries = entries;
        proof {
            let after = self.entries@;
            assert(after[before.len() as int].key@ == key@);
            assert forall|k: Seq<char>| has_key(after, k) <==> (k == key@ || has_key(before, k)) by {
                if has_key(before, k) {
                    let i = position_of(before, k);
                    assert(after[i].key@ == k);
                }
                if has_key(after, k) && k != key@ {
                    let i = position_of(after, k);
                    assert(before[i].key@ == k);
                }
            }
            assert forall|k: Seq<char>| has_key(after, k) implies #[trigger] final(self)@[k] == old(
                self,
            )@.insert(key@, bytes@)[k] by {
                let i = position_of(after, k);
                if k == key@ {
                    assert(i == before.len());
                } else {
                    assert(before[i].key@ == k);
                    assert(position_of(before, k) == i);
                }
            }
            assert(final(self)@ =~= old(self)@.insert(key@, bytes@));
        }
        true
    }

    /// The first required asset that the store lacks, if it lacks one.
    pub fn first_missing(&self) -> (missing: Option<(Game, AssetRole)>)
        ensures
            missing is None <==> is_complete(self@),
            missing matches Some((game, role)) ==> {
                &&& !self@.contains_key(asset_key_spec(game, role))
                &&& holds_first(self@, required_position(game, role))
            },
    {
        let games = Game::all();
        let mut i: usize = 0;
        while i < games.len()
            invariant
                games@ == Game::spec_all(),
                i <= games@.len(),
                holds_first(self@, 2 * i),
            decreases games@.len() - i,
        {
            let game = games[i];
            assert(game.spec_index() == i);
            assert(required_assets()[2 * i].0 == game && required_assets()[2 * i].1
                == AssetRole::Background);
            assert(required_assets()[2 * i + 1].0 == game && required_assets()[2 * i + 1].1
                == AssetRole::Icon);
            if !self.contains(asset_key(game, AssetRole::Background)) {
                return Some((game, AssetRole::Background));
            }
            if !self.contains(asset_key(game, AssetRole::Icon)) {
                return Some((game, AssetRole::Icon));
            }
            i += 1;
        }
        proof {
            lemma_complete_holds_all(self@);
        }
        None
    }
}

} // verus!
