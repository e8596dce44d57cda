//! The top-level state of the launcher: the selected title, the saved record
//! and the background on display, with the rule that decides which resolved
//! background may replace it.

use crate::game::Game;
use crate::raster::DecodedImage;
use crate::state::{default_state, PersistedState, StateView};
use vstd::prelude::*;

verus! {

/// A background ready for display: a decoded image, or a handle of a playable
/// video of the shell's own type.
#[derive(Debug)]
pub enum Background<V> {
    Image(DecodedImage),
    Video(V),
}

/// The state of the launcher. The saved record has one owner, this one.
#[derive(Debug)]
pub struct Launcher<V> {
    selected_game: Game,
    shown: Option<(Game, Background<V>)>,
    pub saved: PersistedState,
}

/// The mathematical content of the launcher's state: the selection, the
/// background on display with the title it was resolved for, and the saved
/// record.
pub struct LauncherView<V> {
    pub selected_game: Game,
    pub shown: Option<(Game, Background<V>)>,
    pub saved: StateView,
}

impl<V> View for Launcher<V> {
    type V = LauncherView<V>;

    closed spec fn view(&self) -> LauncherView<V> {
        LauncherView { selected_game: self.selected_game, shown: self.shown, saved: self.saved@ }
    }
}

impl<V> LauncherView<V> {
    /// The state after the user has selected a title. The display is left
    /// alone until a background for the new selection arrives.
    pub open spec fn select(self, game: Game) -> LauncherView<V> {
        LauncherView { selected_game: game, ..self }
    }

    /// Whether a background resolved for `target` is taken for display.
    pub open spec fn accepts(self, target: Game) -> bool {
        target == self.selected_game
    }

    /// The state after a background resolved for `target` has arrived: it
    /// replaces the display if `target` is still selected, and is dropped
    /// otherwise.
    pub open spec fn deliver(self, target: Game, background: Background<V>) -> LauncherView<V> {
        if self.accepts(target) {
            LauncherView { shown: Some((target, background)), ..self }
        } else {
            self
        }
    }

    /// Whether the display shows a background of the selected title.
    pub open spec fn is_current(self) -> bool {
        self.shown matches Some((game, _)) && game == self.selected_game
    }

    /// Whether a background has to be resolved for the selection.
    pub open spec fn needs_background(self) -> bool {
        !self.is_current()
    }
}

/// Of two requests, the later selection wins: when a background for `first`
/// arrives after the one for `second`, it is dropped and the display keeps
/// the background of `second`.
pub proof fn lemma_late_result_is_discarded<V>(
    state: LauncherView<V>,
    first: Game,
    second: Game,
    for_first: Background<V>,
    for_second: Background<V>,
)
    requires
        first != second,
    ensures
        state.select(first).select(second).deliver(second, for_second).deliver(
            first,
            for_first,
        ).shown == Some((second, for_second)),
        state.select(first).select(second).deliver(first, for_first).deliver(
            second,
            for_second,
        ).shown == Some((second, for_second)),
{
}

/// A background that is taken for display belongs to the selected title, and
/// one that is dropped leaves the state as it was.
pub proof fn lemma_delivery_follows_selection<V>(
    state: LauncherView<V>,
    target: Game,
    background: Background<V>,
)
    ensures
        state.accepts(target) ==> state.deliver(target, background).is_current(),
        !state.accepts(target) ==> state.deliver(target, background) == state,
        state.deliver(target, background).selected_game == state.selected_game,
        state.deliver(target, background).saved == state.saved,
{
}

/// A display that shows the selection's background keeps doing so whatever
/// arrives, until the selection changes.
pub proof fn lemma_current_stays_current<V>(
    state: LauncherView<V>,
    target: Game,
    background: Background<V>,
)
    requires
        state.is_current(),
    ensures
        state.deliver(target, background).is_current(),
{
}

impl<V> Launcher<V> {
    /// The launcher of a fresh installation: the first title selected,
    /// nothing on display, nothing installed.
    pub fn new() -> (launcher: Launcher<V>)
        ensures
            launcher@ == (LauncherView::<V> {
                selected_game: Game::WutheringWaves,
                shown: None,
                saved: default_state(),
            }),
    {
        Launcher { selected_game: Game::default(), shown: None, saved: PersistedState::default() }
    }

    /// The launcher that starts from a saved record: the first title
    /// selected, nothing on display.
    pub fn from_saved(saved: PersistedState) -> (launcher: Launcher<V>)
        ensures
            launcher@ == (LauncherView::<V> {
                selected_game: Game::WutheringWaves,
                shown: None,
                saved: saved@,
            }),
    {
        Launcher { selected_game: Game::default(), shown: None, saved }
    }

    pub fn selected_game(&self) -> (game: Game)
        ensures
            game == self@.selected_game,
    {
        self.selected_game
    }

    /// The background on display, if there is one.
    pub fn background(&self) -> (background: Option<&Background<V>>)
        ensures
            background is Some <==> self@.shown is Some,
            background matches Some(shown) ==> self@.shown matches Some((_, held)) && *shown
                == held,
    {
        match &self.shown {
            Some(shown) => Some(&shown.1),
            None => None,
        }
    }

    /// The title whose background is on display, if there is one.
    pub fn shown_game(&self) -> (game: Option<Game>)
        ensures
            game is Some <==> self@.shown is Some,
            game matches Some(shown) ==> self@.shown matches Some((owner, _)) && shown == owner,
    {
        match &self.shown {
            Some(shown) => Some(shown.0),
            None => None,
        }
    }

    /// Whether a background has to be resolved for the selection.
    pub fn needs_background(&self) -> (needed: bool)
        ensures
            needed == self@.needs_background(),
    {
        match &self.shown {
            Some(shown) => shown.0 != self.selected_game,
            None => true,
        }
    }

    /// Selects a title. Returns whether a background has to be resolved for
    /// it; the display stays as it is until that background is delivered.
    pub fn select(&mut self, game: Game) -> (request: bool)
        ensures
            final(self)@ == old(self)@.select(game),
            request == final(self)@.needs_background(),
    {
        self.selected_game = game;
        self.needs_background()
    }

    /// Takes a background resolved for `target`. It replaces the display if
    /// `target` is still the selected title; otherwise it is dropped, and
    /// with it whatever it holds. Returns whether it was taken.
    pub fn deliver(&mut self, target: Game, background: Background<V>) -> (taken: bool)
        ensures
            final(self)@ == old(self)@.deliver(target, background),
            taken == old(self)@.accepts(target),
    {
        if target == self.selected_game {
            self.shown = Some((target, background));
            true
        } else {
            false
        }
    }
}

} // verus!
