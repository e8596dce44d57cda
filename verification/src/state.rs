//! The persisted record of what is installed, and its document form.

use crate::game::{lemma_name_round_trip, Game};
use vstd::prelude::*;
use vstd::string::StringExecFns;

verus! {

/// Why no saved state could be loaded.
#[derive(Clone, Copy, Debug, PartialEq, Eq, Hash, Structural)]
pub enum LoadError {
    /// There is no saved document.
    Missing,
    /// There is a document, and it does not hold a state.
    Corrupt,
}

/// Why a state could not be saved.
#[derive(Clone, Copy, Debug, PartialEq, Eq, Hash, Structural)]
pub enum SaveError {
    /// The file system refused.
    Io,
    /// The state could not be written as a document.
    Encode,
}

/// What is saved between sessions. The two lists are kept like sets, in the
/// order in which the titles were installed.
#[derive(Debug)]
pub struct PersistedState {
    pub installed_games: Vec<Game>,
    pub installed_game_servers: Vec<Game>,
    pub db_software_installed: bool,
}

/// The mathematical content of a persisted state.
pub struct StateView {
    pub installed_games: Seq<Game>,
    pub installed_game_servers: Seq<Game>,
    pub db_software_installed: bool,
}

impl View for PersistedState {
    type V = StateView;

    open spec fn view(&self) -> StateView {
        StateView {
            installed_games: self.installed_games@,
            installed_game_servers: self.installed_game_servers@,
            db_software_installed: self.db_software_installed,
        }
    }
}

/// The state of a fresh installation: nothing installed.
pub open spec fn default_state() -> StateView {
    StateView {
        installed_games: Seq::empty(),
        installed_game_servers: Seq::empty(),
        db_software_installed: false,
    }
}

/// A list with `game` in it: the list itself if it holds the title, and
/// otherwise the list with the title at its end.
pub open spec fn with_game(list: Seq<Game>, game: Game) -> Seq<Game> {
    if list.contains(game) {
        list
    } else {
        list.push(game)
    }
}

fn list_contains(list: &Vec<Game>, game: Game) -> (held: bool)
    ensures
        held == list@.contains(game),
{
    let mut i: usize = 0;
    while i < list.len()
        invariant
            i <= list@.len(),
            forall|j: int| 0 <= j < i ==> list@[j] != game,
        decreases list@.len() - i,
    {
        if list[i] == game {
            return true;
        }
        i += 1;
    }
    false
}

fn copy_list(list: &Vec<Game>) -> (copy: Vec<Game>)
    ensures
        copy@ == list@,
{
    let mut copy: Vec<Game> = Vec::with_capacity(list.len());
    let mut i: usize = 0;
    while i < list.len()
        invariant
            i <= list@.len(),
            copy@ == list@.take(i as int),
        decreases list@.len() - i,
    {
        copy.push(list[i]);
        assert(copy@ =~= list@.take(i + 1));
        i += 1;
    }
    assert(list@.take(list@.len() as int) =~= list@);
    copy
}

impl Default for PersistedState {
    fn default() -> (state: PersistedState)
        ensures
            state@ == default_state(),
    {
        PersistedState {
            installed_games: Vec::new(),
            installed_game_servers: Vec::new(),
            db_software_installed: false,
        }
    }
}

impl Clone for PersistedState {
    fn clone(&self) -> (copy: PersistedState)
        ensures
            copy@ == self@,
    {
        PersistedState {
            installed_games: copy_list(&self.installed_games),
            installed_game_servers: copy_list(&self.installed_game_servers),
            db_software_installed: self.db_software_installed,
        }
    }
}

impl PersistedState {
    /// Whether the title is among the installed games.
    pub fn is_game_installed(&self, game: Game) -> (installed: bool)
        ensures
            installed == self@.installed_games.contains(game),
    {
        list_contains(&self.installed_games, game)
    }

    /// Whether the title is among the installed game servers.
    pub fn is_game_server_installed(&self, game: Game) -> (installed: bool)
        ensures
            installed == self@.installed_game_servers.contains(game),
    {
        list_contains(&self.installed_game_servers, game)
    }

    /// Records a game as installed. A game that is recorded already stays
    /// where it is, and the call returns `false`.
    pub fn install_game(&mut self, game: Game) -> (added: bool)
        ensures
            added == !old(self)@.installed_games.contains(game),
            final(self)@ == (StateView {
                installed_games: with_game(old(self)@.installed_games, game),
                ..old(self)@
            }),
    {
        if list_contains(&self.installed_games, game) {
            false
        } else {
            self.installed_games.push(game);
            true
        }
    }

    /// Records a game server as installed. A server that is recorded already
    /// stays where it is, and the call returns `false`.
    pub fn install_game_server(&mut self, game: Game) -> (added: bool)
        ensures
            added == !old(self)@.installed_game_servers.contains(game),
            final(self)@ == (StateView {
                installed_game_servers: with_game(old(self)@.installed_game_servers, game),
                ..old(self)@
            }),
    {
        if list_contains(&self.installed_game_servers, game) {
            false
        } else {
            self.installed_game_servers.push(game);
            true
        }
    }
}

/// Adding a title to a list without repetitions leaves it without
/// repetitions.
pub proof fn lemma_with_game_keeps_set_like(list: Seq<Game>, game: Game)
    requires
        list.no_duplicates(),
    ensures
        with_game(list, game).no_duplicates(),
        with_game(list, game).contains(game),
        forall|other: Game| list.contains(other) ==> with_game(list, game).contains(other),
{
    if !list.contains(game) {
        let longer = list.push(game);
        assert(longer[list.len() as int] == game);
        assert forall|other: Game| list.contains(other) implies longer.contains(other) by {
            let i = choose|i: int| 0 <= i < list.len() && list[i] == other;
            assert(longer[i] == other);
        }
    }
}

/// The state to start a session with: the loaded one, or the state of a
/// fresh installation where none could be loaded.
pub open spec fn state_or_default_spec(loaded: Result<StateView, LoadError>) -> StateView {
    match loaded {
        Ok(state) => state,
        Err(_) => default_state(),
    }
}

/// The view of a loading result.
pub open spec fn loaded_view(loaded: Result<PersistedState, LoadError>) -> Result<
    StateView,
    LoadError,
> {
    match loaded {
        Ok(state) => Ok(state@),
        Err(error) => Err(error),
    }
}

/// The state to start a session with: the loaded one, or the state of a
/// fresh installation where none could be loaded.
pub fn state_or_default(loaded: Result<PersistedState, LoadError>) -> (state: PersistedState)
    ensures
        state@ == state_or_default_spec(loaded_view(loaded)),
{
    match loaded {
        Ok(state) => state,
        Err(_) => PersistedState::default(),
    }
}

/// A state as a document holds it: titles by their identifiers.
#[derive(Debug)]
pub struct StateDocument {
    pub installed_games: Vec<String>,
    pub installed_game_servers: Vec<String>,
    pub db_software_installed: bool,
}

/// The mathematical content of a state document.
pub struct DocumentView {
    pub installed_games: Seq<Seq<char>>,
    pub installed_game_servers: Seq<Seq<char>>,
    pub db_software_installed: bool,
}

/// The identifiers that a list of strings holds.
pub open spec fn names_view(names: Seq<String>) -> Seq<Seq<char>> {
    names.map_values(|name: String| name@)
}

impl View for StateDocument {
    type V = DocumentView;

    open spec fn view(&self) -> DocumentView {
        DocumentView {
            installed_games: names_view(self.installed_games@),
            installed_game_servers: names_view(self.installed_game_servers@),
            db_software_installed: self.db_software_installed,
        }
    }
}

/// The identifiers of a list of titles.
pub open spec fn names_of(games: Seq<Game>) -> Seq<Seq<char>> {
    games.map_values(|game: Game| game.spec_name())
}

/// Whether every identifier names a title.
pub open spec fn all_known(names: Seq<Seq<char>>) -> bool {
    forall|i: int| 0 <= i < names.len() ==> Game::spec_from_name(#[trigger] names[i]) is Some
}

/// The titles that a list of identifiers names.
pub open spec fn games_of(names: Seq<Seq<char>>) -> Seq<Game> {
    names.map_values(|name: Seq<char>| Game::spec_from_name(name).unwrap())
}

/// The document of a state.
pub open spec fn document_of(state: StateView) -> DocumentView {
    DocumentView {
        installed_games: names_of(state.installed_games),
        installed_game_servers: names_of(state.installed_game_servers),
        db_software_installed: state.db_software_installed,
    }
}

/// The state that a document holds: corrupt if an identifier names no title.
pub open spec fn state_of_document(document: DocumentView) -> Result<StateView, LoadError> {
    if all_known(document.installed_games) && all_known(document.installed_game_servers) {
        Ok(
            StateView {
                installed_games: games_of(document.installed_games),
                installed_game_servers: games_of(document.installed_game_servers),
                db_software_installed: document.db_software_installed,
            },
        )
    } else {
        Err(LoadError::Corrupt)
    }
}

/// Reading back the identifiers of a list of titles gives the list.
pub proof fn lemma_names_round_trip(games: Seq<Game>)
    ensures
        all_known(names_of(games)),
        games_of(names_of(games)) == games,
{
    assert forall|i: int| 0 <= i < games.len() implies Game::spec_from_name(
        #[trigger] names_of(games)[i],
    ) == Some(games[i]) by {
        lemma_name_round_trip(games[i], games[i].spec_name());
    }
    assert(games_of(names_of(games)) =~= games);
}

/// Writing a state as a document and reading the document back gives the
/// state.
pub proof fn lemma_document_round_trip(state: StateView)
    ensures
        state_of_document(document_of(state)) == Ok::<StateView, LoadError>(state),
{
    lemma_names_round_trip(state.installed_games);
    lemma_names_round_trip(state.installed_game_servers);
}

fn write_names(games: &Vec<Game>) -> (names: Vec<String>)
    ensures
        names_view(names@) == names_of(games@),
{
    let mut names: Vec<String> = Vec::with_capacity(games.len());
    let mut i: usize = 0;
    while i < games.len()
        invariant
            i <= games@.len(),
            names@.len() == i,
            forall|j: int| 0 <= j < i ==> (#[trigger] names@[j])@ == games@[j].spec_name(),
        decreases games@.len() - i,
    {
        names.push(String::from_str(games[i].name()));
        i += 1;
    }
    assert(names_view(names@) =~= names_of(games@));
    names
}

fn read_names(names: &Vec<String>) -> (games: Option<Vec<Game>>)
    ensures
        games is Some <==> all_known(names_view(names@)),
        games matches Some(list) ==> list@ == games_of(names_view(names@)),
{
    let ghost wanted = names_view(names@);
    let mut games: Vec<Game> = Vec::with_capacity(names.len());
    let mut i: usize = 0;
    while i < names.len()
        invariant
            wanted == names_view(names@),
            i <= names@.len(),
            games@.len() == i,
            forall|j: int| 0 <= j < i ==> Game::spec_from_name(#[trigger] wanted[j]) == Some(games@[j]),
        decreases names@.len() - i,
    {
        assert(wanted[i as int] == names@[i as int]@);
        match Game::from_name(names[i].as_str()) {
            Some(game) => {
                games.push(game);
            },
            None => {
                return None;
            },
        }
        i += 1;
    }
    assert(games@ =~= games_of(wanted));
    Some(games)
}

/// What was found where the state is saved.
#[derive(Debug)]
pub enum SavedDocument {
    /// Nothing could be read there.
    Absent,
    /// What was read is no document of the expected shape.
    Unparsable,
    /// A document of the expected shape.
    Parsed(StateDocument),
}

/// The mathematical content of what was found.
pub enum SavedView {
    Absent,
    Unparsable,
    Parsed(DocumentView),
}

impl View for SavedDocument {
    type V = SavedView;

    open spec fn view(&self) -> SavedView {
        match self {
            SavedDocument::Absent => SavedView::Absent,
            SavedDocument::Unparsable => SavedView::Unparsable,
            SavedDocument::Parsed(document) => SavedView::Parsed(document@),
        }
    }
}

/// The result of loading from what was found: `Missing` where nothing was
/// read, `Corrupt` where no state can be read out of it.
pub open spec fn load_spec(saved: SavedView) -> Result<StateView, LoadError> {
    match saved {
        SavedView::Absent => Err(LoadError::Missing),
        SavedView::Unparsable => Err(LoadError::Corrupt),
        SavedView::Parsed(document) => state_of_document(document),
    }
}

/// Saving a state and loading what was saved gives the state back, provided
/// that the document written is the document read.
pub proof fn lemma_save_load_round_trip(state: StateView)
    ensures
        load_spec(SavedView::Parsed(document_of(state))) == Ok::<StateView, LoadError>(state),
{
    lemma_document_round_trip(state);
}

impl PersistedState {
    /// Loads the state from what was found where it is saved.
    pub fn load_from(saved: SavedDocument) -> (loaded: Result<PersistedState, LoadError>)
        ensures
            loaded_view(loaded) == load_spec(saved@),
    {
        match saved {
            SavedDocument::Absent => Err(LoadError::Missing),
            SavedDocument::Unparsable => Err(LoadError::Corrupt),
            SavedDocument::Parsed(document) => PersistedState::from_document(&document),
        }
    }

    /// The document of the state.
    pub fn to_document(&self) -> (document: StateDocument)
        ensures
            document@ == document_of(self@),
    {
        StateDocument {
            installed_games: write_names(&self.installed_games),
            installed_game_servers: write_names(&self.installed_game_servers),
            db_software_installed: self.db_software_installed,
        }
    }

    /// The state that a document holds, or `Corrupt` if one of its
    /// identifiers names no title.
    pub fn from_document(document: &StateDocument) -> (loaded: Result<PersistedState, LoadError>)
        ensures
            loaded_view(loaded) == state_of_document(document@),
    {
        let installed_games = match read_names(&document.installed_games) {
            Some(games) => games,
            None => {
                return Err(LoadError::Corrupt);
            },
        };
        let installed_game_servers = match read_names(&document.installed_game_servers) {
            Some(games) => games,
            None => {
                return Err(LoadError::Corrupt);
            },
        };
        Ok(
            PersistedState {
                installed_games,
                installed_game_servers,
                db_software_installed: document.db_software_installed,
            },
        )
    }
}

} // verus!
