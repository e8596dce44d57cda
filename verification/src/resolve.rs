//! Resolving the assets of a title: its background, sniffed and decoded, and
//! its icon, decoded, rounded and scaled.

use crate::assets::AssetStore;
use crate::decode::{
    decode, decode_spec, is_resized, resize_fits, try_resize, DecodeError,
};
use crate::game::{asset_key, asset_key_spec, AssetRole, Game, GAME_COUNT};
use crate::mask::{round_image, round_image_spec};
use crate::raster::{DecodedImage, ImageView};
use crate::sniff::{classify, media_kind_of, sniffed_extension, MediaKind};
use vstd::prelude::*;

verus! {

/// Width and height of the box that a game icon is scaled into, in pixels.
pub const ICON_SIZE: u32 = 126;

/// Why an asset could not be resolved.
#[derive(Clone, Copy, Debug, PartialEq, Eq, Hash, Structural)]
pub enum AssetError {
    /// The store holds nothing under the asset's key: the bundle is broken.
    Missing,
    /// The asset is taken for a raster image and does not decode.
    Decode(DecodeError),
    /// The image is too large to be resampled on this machine.
    TooLarge,
}

/// A resolved background: a decoded image, or the bytes of a video that have
/// yet to be staged and opened by a video backend.
#[derive(Debug)]
pub enum ResolvedBackground<'a> {
    Image(DecodedImage),
    Video(&'a [u8]),
}

/// The mathematical content of a resolved background.
pub enum BackgroundView {
    Image(ImageView),
    Video(Seq<u8>),
}

impl<'a> View for ResolvedBackground<'a> {
    type V = BackgroundView;

    open spec fn view(&self) -> BackgroundView {
        match self {
            ResolvedBackground::Image(image) => BackgroundView::Image(image@),
            ResolvedBackground::Video(bytes) => BackgroundView::Video(bytes@),
        }
    }
}

/// The view of a background resolution.
pub open spec fn resolved_view(result: Result<ResolvedBackground<'_>, AssetError>) -> Result<
    BackgroundView,
    AssetError,
> {
    match result {
        Ok(background) => Ok(background@),
        Err(error) => Err(error),
    }
}

/// What asset bytes resolve to as a background: the content decides between
/// video and raster image, and a raster image has to decode.
pub open spec fn background_of_bytes(bytes: Seq<u8>) -> Result<BackgroundView, AssetError> {
    match media_kind_of(sniffed_extension(bytes)) {
        MediaKind::Video => Ok(BackgroundView::Video(bytes)),
        MediaKind::StaticImage => match decode_spec(bytes) {
            Ok(image) => Ok(BackgroundView::Image(image)),
            Err(error) => Err(AssetError::Decode(error)),
        },
    }
}

/// What the asset under a key resolves to as a background.
pub open spec fn resolve_spec(assets: Map<Seq<char>, Seq<u8>>, key: Seq<char>) -> Result<
    BackgroundView,
    AssetError,
> {
    if assets.contains_key(key) {
        background_of_bytes(assets[key])
    } else {
        Err(AssetError::Missing)
    }
}

/// The background of a title, as the assets in a store resolve it.
pub open spec fn background_spec(assets: Map<Seq<char>, Seq<u8>>, game: Game) -> Result<
    BackgroundView,
    AssetError,
> {
    resolve_spec(assets, asset_key_spec(game, AssetRole::Background))
}

/// The key plays no part in what bytes resolve to: the same bytes under two
/// keys, in one store or in two, resolve alike.
pub proof fn lemma_resolution_ignores_key(
    first: Map<Seq<char>, Seq<u8>>,
    first_key: Seq<char>,
    second: Map<Seq<char>, Seq<u8>>,
    second_key: Seq<char>,
)
    requires
        first.contains_key(first_key),
        second.contains_key(second_key),
        first[first_key] == second[second_key],
    ensures
        resolve_spec(first, first_key) == resolve_spec(second, second_key),
{
}

/// Resolves asset bytes as a background: sniffs the media kind and decodes
/// the bytes if they are a raster image. Exactly one variant comes back.
pub fn resolve_background<'a>(bytes: &'a [u8]) -> (result: Result<ResolvedBackground<'a>, AssetError>)
    ensures
        resolved_view(result) == background_of_bytes(bytes@),
{
    match classify(bytes) {
        MediaKind::Video => Ok(ResolvedBackground::Video(bytes)),
        MediaKind::StaticImage => match decode(bytes) {
            Ok(image) => Ok(ResolvedBackground::Image(image)),
            Err(error) => Err(AssetError::Decode(error)),
        },
    }
}

/// Resolves the asset under a key as a background.
pub fn resolve<'a>(store: &'a AssetStore, key: &str) -> (result: Result<
    ResolvedBackground<'a>,
    AssetError,
>)
    ensures
        resolved_view(result) == resolve_spec(store@, key@),
{
    match store.get(key) {
        Some(bytes) => resolve_background(bytes.as_slice()),
        None => Err(AssetError::Missing),
    }
}

/// Resolves the background of a title from the store.
pub fn get_game_background<'a>(store: &'a AssetStore, game: Game) -> (result: Result<
    ResolvedBackground<'a>,
    AssetError,
>)
    ensures
        resolved_view(result) == background_spec(store@, game),
{
    resolve(store, asset_key(game, AssetRole::Background))
}

/// The rounded image that the icon of a title is scaled from, or the reason
/// why the title gets no icon.
pub open spec fn icon_source_spec(assets: Map<Seq<char>, Seq<u8>>, game: Game) -> Result<
    ImageView,
    AssetError,
> {
    let key = asset_key_spec(game, AssetRole::Icon);
    if assets.contains_key(key) {
        match round_image_spec(assets[key]) {
            Ok(rounded) => if resize_fits(rounded, ICON_SIZE, ICON_SIZE) {
                Ok(rounded)
            } else {
                Err(AssetError::TooLarge)
            },
            Err(error) => Err(AssetError::Decode(error)),
        }
    } else {
        Err(AssetError::Missing)
    }
}

/// Whether `icon` is an icon of the title: the title's icon asset, decoded,
/// rounded and then scaled into the icon box.
pub open spec fn is_icon_of(assets: Map<Seq<char>, Seq<u8>>, game: Game, icon: ImageView) -> bool {
    icon_source_spec(assets, game) matches Ok(rounded) && is_resized(
        rounded,
        ICON_SIZE,
        ICON_SIZE,
        icon,
    )
}

/// Resolves the icon of a title from the store: decodes the asset, cuts its
/// corners and scales the result into the icon box.
pub fn get_game_icon_handle(store: &AssetStore, game: Game) -> (result: Result<
    DecodedImage,
    AssetError,
>)
    ensures
        result matches Ok(icon) ==> is_icon_of(store@, game, icon@),
        result matches Err(error) ==> icon_source_spec(store@, game) == Err::<ImageView, _>(error),
{
    let bytes = match store.get(asset_key(game, AssetRole::Icon)) {
        Some(bytes) => bytes,
        None => {
            return Err(AssetError::Missing);
        },
    };
    let rounded = match round_image(bytes.as_slice()) {
        Ok(rounded) => rounded,
        Err(error) => {
            return Err(AssetError::Decode(error));
        },
    };
    match try_resize(&rounded, ICON_SIZE, ICON_SIZE) {
        Some(icon) => Ok(icon),
        None => Err(AssetError::TooLarge),
    }
}

/// The reason why a title gets no icon, if there is one.
pub open spec fn icon_failure(assets: Map<Seq<char>, Seq<u8>>, game: Game) -> Option<AssetError> {
    match icon_source_spec(assets, game) {
        Ok(_) => None,
        Err(error) => Some(error),
    }
}

/// The failure of the first title in row order that gets no icon.
pub open spec fn first_icon_failure(assets: Map<Seq<char>, Seq<u8>>) -> Option<AssetError> {
    if icon_failure(assets, Game::WutheringWaves) is Some {
        icon_failure(assets, Game::WutheringWaves)
    } else if icon_failure(assets, Game::ZenlessZoneZero) is Some {
        icon_failure(assets, Game::ZenlessZoneZero)
    } else if icon_failure(assets, Game::HonkaiStarRail) is Some {
        icon_failure(assets, Game::HonkaiStarRail)
    } else {
        icon_failure(assets, Game::GenshinImpact)
    }
}

/// Titles whose icons are resolved have no icon failure.
proof fn lemma_icons_so_far(assets: Map<Seq<char>, Seq<u8>>, icons: Seq<DecodedImage>, count: int)
    requires
        0 <= count <= GAME_COUNT,
        icons.len() >= count,
        forall|j: int|
            0 <= j < count ==> is_icon_of(assets, Game::spec_all()[j], (#[trigger] icons[j])@),
    ensures
        forall|j: int|
            0 <= j < count ==> icon_failure(assets, #[trigger] Game::spec_all()[j]) is None,
        count >= 1 ==> icon_failure(assets, Game::WutheringWaves) is None,
        count >= 2 ==> icon_failure(assets, Game::ZenlessZoneZero) is None,
        count >= 3 ==> icon_failure(assets, Game::HonkaiStarRail) is None,
        count >= 4 ==> icon_failure(assets, Game::GenshinImpact) is None,
{
    assert forall|j: int| 0 <= j < count implies icon_failure(
        assets,
        #[trigger] Game::spec_all()[j],
    ) is None by {
        assert(is_icon_of(assets, Game::spec_all()[j], icons[j]@));
    }
    if count >= 1 {
        assert(Game::spec_all()[0] == Game::WutheringWaves);
    }
    if count >= 2 {
        assert(Game::spec_all()[1] == Game::ZenlessZoneZero);
    }
    if count >= 3 {
        assert(Game::spec_all()[2] == Game::HonkaiStarRail);
    }
    if count >= 4 {
        assert(Game::spec_all()[3] == Game::GenshinImpact);
    }
}

/// The icons of all titles, built once and read from then on.
#[derive(Debug)]
pub struct IconCache {
    icons: Vec<DecodedImage>,
}

impl IconCache {
    #[verifier::type_invariant]
    spec fn inv(self) -> bool {
        self.icons@.len() == GAME_COUNT
    }

    /// The icon held for a title.
    pub closed spec fn spec_icon(self, game: Game) -> ImageView {
        self.icons@[game.spec_index() as int]@
    }

    /// Resolves the icon of every title. The first title in row order whose
    /// icon cannot be resolved fails the whole cache.
    pub fn build(store: &AssetStore) -> (result: Result<IconCache, AssetError>)
        ensures
            result is Ok <==> first_icon_failure(store@) is None,
            result matches Ok(cache) ==> forall|game: Game|
                is_icon_of(store@, game, #[trigger] cache.spec_icon(game)),
            result matches Err(error) ==> first_icon_failure(store@) == Some(error),
    {
        let games = Game::all();
        let mut icons: Vec<DecodedImage> = Vec::new();
        let mut i: usize = 0;
        while i < games.len()
            invariant
                games@ == Game::spec_all(),
                i <= games@.len(),
                icons@.len() == i,
                forall|j: int|
                    0 <= j < i ==> is_icon_of(store@, Game::spec_all()[j], (#[trigger] icons@[j])@),
            decreases games@.len() - i,
        {
            match get_game_icon_handle(store, games[i]) {
                Ok(icon) => {
                    icons.push(icon);
                },
                Err(error) => {
                    proof {
                        lemma_icons_so_far(store@, icons@, i as int);
                    }
                    return Err(error);
                },
            }
            i += 1;
        }
        proof {
            lemma_icons_so_far(store@, icons@, GAME_COUNT as int);
        }
        let cache = IconCache { icons };
        assert forall|game: Game| is_icon_of(store@, game, #[trigger] cache.spec_icon(game)) by {
            crate::game::lemma_all_is_indexed(game);
        }
        Ok(cache)
    }

    /// The icon of a title.
    pub fn get(&self, game: Game) -> (icon: &DecodedImage)
        ensures
            icon@ == self.spec_icon(game),
    {
        proof {
            use_type_invariant(self);
        }
        &self.icons[game.index()]
    }
}

/// The icon of a title in the cache. The cache holds one for every title.
pub fn get_game_icon(cache: &IconCache, game: Game) -> (icon: &DecodedImage)
    ensures
        icon@ == cache.spec_icon(game),
{
    cache.get(game)
}

} // verus!
