//! The navigation of the front end: which view is active, which board and
//! which row are highlighted, which rows are on display, and when a board's
//! listing page is to be fetched.
//!
//! The navigator decides and never waits. It takes one event at a time and
//! answers with a command. Where the command asks for a page, the caller
//! fetches it and hands the answer to `Navigator::complete_fetch`. Until then
//! no rows are on display and the navigator takes no input but the request to
//! quit; the rows shown before are held back, and come back if the request
//! fails.

use crate::board::{Board, BoardRow, BoardRowView, BoardView};
use crate::error::{Error, ErrorView};
use crate::event_source::Event;
use crate::gateway::{
    board_url, page_rows, read_board_rows, read_outcome, response_view, service_url,
};
use crate::markup::fits_parser;
use crate::text::without_layout;
use crate::selection::{
    next_index, position, previous_index, select_next, select_previous, SelectionState,
};
use vstd::prelude::*;

verus! {

/// The two views of the front end. In `Home` the board list is walked
/// through; in `Boards` the rows of the highlighted board are on display and
/// are walked through.
#[derive(Clone, Copy, Debug, PartialEq, Eq, Structural)]
pub enum MenuItem {
    Home,
    Boards,
}

/// The place of a view's tab in the menu.
pub open spec fn tab_index(item: MenuItem) -> usize {
    match item {
        MenuItem::Home => 0,
        MenuItem::Boards => 1,
    }
}

impl From<MenuItem> for usize {
    fn from(input: MenuItem) -> (index: usize) {
        match input {
            MenuItem::Home => 0,
            MenuItem::Boards => 1,
        }
    }
}

impl vstd::std_specs::convert::FromSpecImpl<MenuItem> for usize {
    open spec fn obeys_from_spec() -> bool {
        true
    }

    open spec fn from_spec(input: MenuItem) -> usize {
        tab_index(input)
    }
}

/// A key as the navigator knows it: a character, one of the two arrows that
/// it reacts to, or any other key.
#[derive(Clone, Copy, Debug, PartialEq, Eq, Structural)]
pub enum Key {
    Char(char),
    Up,
    Down,
    Other,
}

/// What a key press can ask of the navigator.
#[derive(Clone, Copy, Debug, PartialEq, Eq, Structural)]
pub enum Action {
    Quit,
    SwitchToHome,
    SwitchToBoards,
    MoveUp,
    MoveDown,
}

/// What a key asks for: `q` to quit, `h` for the home view, `b` for the board
/// view, the arrows to move the selection. Other keys ask for nothing.
pub open spec fn action_of(key: Key) -> Option<Action> {
    match key {
        Key::Char(c) => if c == 'q' {
            Some(Action::Quit)
        } else if c == 'h' {
            Some(Action::SwitchToHome)
        } else if c == 'b' {
            Some(Action::SwitchToBoards)
        } else {
            None
        },
        Key::Up => Some(Action::MoveUp),
        Key::Down => Some(Action::MoveDown),
        Key::Other => None,
    }
}

impl Action {
    /// What a key asks for, if anything.
    pub fn from_key(key: Key) -> (action: Option<Action>)
        ensures
            action == action_of(key),
    {
        match key {
            Key::Char(c) => if c == 'q' {
                Some(Action::Quit)
            } else if c == 'h' {
                Some(Action::SwitchToHome)
            } else if c == 'b' {
                Some(Action::SwitchToBoards)
            } else {
                None
            },
            Key::Up => Some(Action::MoveUp),
            Key::Down => Some(Action::MoveDown),
            Key::Other => None,
        }
    }
}

/// What the navigator asks of its caller after an event.
#[derive(Clone, Debug, PartialEq, Eq)]
pub enum Command {
    /// Nothing but to show the state as it is.
    Idle,
    /// To fetch the page at this address and to hand the answer to
    /// `Navigator::complete_fetch`.
    Fetch(String),
    /// To shut down.
    Quit,
}

/// What a `Command` holds, as a sequence of characters.
pub enum CommandView {
    Idle,
    Fetch(Seq<char>),
    Quit,
}

impl View for Command {
    type V = CommandView;

    open spec fn view(&self) -> CommandView {
        match self {
            Command::Idle => CommandView::Idle,
            Command::Fetch(url) => CommandView::Fetch(url@),
            Command::Quit => CommandView::Quit,
        }
    }
}

/// The navigator's state.
pub struct NavigatorView {
    /// The catalogue of boards.
    pub boards: Seq<BoardView>,
    /// The active view.
    pub active_menu_item: MenuItem,
    /// The highlighted board, a place in `boards`.
    pub selected_board: int,
    /// The rows on display.
    pub rows: Seq<BoardRowView>,
    /// The highlighted row, a place in `rows`, if one is highlighted.
    pub selected_row: Option<int>,
    /// Whether a page was asked for and the answer has not come.
    pub awaiting_rows: bool,
    /// The rows that were on display when the page was asked for, held back
    /// while the answer is awaited.
    pub held_rows: Seq<BoardRowView>,
    /// The failure of the last request, if it failed.
    pub failure: Option<ErrorView>,
    /// Whether the request to quit has come.
    pub finished: bool,
}

impl NavigatorView {
    /// The highlighted board is one of the catalogue, and the highlighted
    /// row, if there is one, is one of the rows on display. While an answer
    /// is awaited no rows are on display, and rows are held back at no other
    /// time.
    pub open spec fn wf(self) -> bool {
        &&& 0 <= self.selected_board < self.boards.len()
        &&& self.selected_row matches Some(row) ==> 0 <= row < self.rows.len()
        &&& self.awaiting_rows ==> self.rows.len() == 0
        &&& !self.awaiting_rows ==> self.held_rows.len() == 0
    }

    /// The state at the start: the home view, the first board highlighted,
    /// no rows.
    pub open spec fn initial(boards: Seq<BoardView>) -> NavigatorView {
        NavigatorView {
            boards,
            active_menu_item: MenuItem::Home,
            selected_board: 0,
            rows: Seq::empty(),
            selected_row: None,
            awaiting_rows: false,
            held_rows: Seq::empty(),
            failure: None,
            finished: false,
        }
    }

    /// Whether input other than the request to quit is taken: not after the
    /// request to quit, and not while the answer to a request is awaited.
    pub open spec fn takes_input(self) -> bool {
        !self.finished && !self.awaiting_rows
    }

    /// The address of the highlighted board's listing page.
    pub open spec fn selected_url(self) -> Seq<char> {
        service_url(self.boards[self.selected_board].uri)
    }

    /// The state after a step of the selection: of the highlighted board in
    /// the home view, of the highlighted row in the board view.
    pub open spec fn moved(self, forward: bool) -> NavigatorView {
        match self.active_menu_item {
            MenuItem::Home => {
                let here = Some(self.selected_board);
                let there = if forward {
                    next_index(here, self.boards.len() as int)
                } else {
                    previous_index(here, self.boards.len() as int)
                };
                NavigatorView { selected_board: there->0, ..self }
            },
            MenuItem::Boards => {
                let there = if forward {
                    next_index(self.selected_row, self.rows.len() as int)
                } else {
                    previous_index(self.selected_row, self.rows.len() as int)
                };
                NavigatorView { selected_row: there, ..self }
            },
        }
    }

    /// The state after an action.
    ///
    /// The request to quit ends the run, and nothing changes after it. While
    /// an answer is awaited no other action is taken. Else: the home view is
    /// entered as it was left; the board view is entered with no rows on
    /// display, the rows shown before held back, no row highlighted and the
    /// highlighted board's page asked for, and an action that asks for the
    /// board view while it is active changes nothing; a move steps the
    /// selection of the active view.
    pub open spec fn after(self, action: Action) -> NavigatorView {
        if self.finished {
            self
        } else if action == Action::Quit {
            NavigatorView { finished: true, ..self }
        } else if self.awaiting_rows {
            self
        } else {
            match action {
                Action::Quit => self,
                Action::SwitchToHome => NavigatorView { active_menu_item: MenuItem::Home, ..self },
                Action::SwitchToBoards => if self.active_menu_item == MenuItem::Home {
                    NavigatorView {
                        active_menu_item: MenuItem::Boards,
                        rows: Seq::empty(),
                        selected_row: None,
                        awaiting_rows: true,
                        held_rows: self.rows,
                        ..self
                    }
                } else {
                    self
                },
                Action::MoveDown => self.moved(true),
                Action::MoveUp => self.moved(false),
            }
        }
    }

    /// What an action asks of the caller: to shut down, on the request to
    /// quit and ever after; to fetch the highlighted board's page, when the
    /// board view is entered; nothing else.
    pub open spec fn command(self, action: Action) -> CommandView {
        if self.finished || action == Action::Quit {
            CommandView::Quit
        } else if self.takes_input() && action == Action::SwitchToBoards && self.active_menu_item
            == MenuItem::Home {
            CommandView::Fetch(self.selected_url())
        } else {
            CommandView::Idle
        }
    }

    /// The action that an event stands for: that of its key, and none for a
    /// tick.
    pub open spec fn action_in(event: Event<Key>) -> Option<Action> {
        match event {
            Event::Input(key) => action_of(key),
            Event::Tick => None,
        }
    }

    /// The state after an event: after its action, and unchanged where it
    /// stands for none.
    pub open spec fn after_event(self, event: Event<Key>) -> NavigatorView {
        match Self::action_in(event) {
            Some(action) => self.after(action),
            None => self,
        }
    }

    /// What an event asks of the caller: what its action asks, and where it
    /// stands for none, nothing, or to shut down after the request to quit.
    pub open spec fn command_on(self, event: Event<Key>) -> CommandView {
        match Self::action_in(event) {
            Some(action) => self.command(action),
            None => if self.finished {
                CommandView::Quit
            } else {
                CommandView::Idle
            },
        }
    }

    /// The state after the answer to a request. A page's rows go on display,
    /// with no row highlighted, and the rows held back are let go; a failure,
    /// that of the request or the refusal of a page that came, is
    /// kept and brings the rows held back on display again. An answer that
    /// was not awaited changes nothing.
    pub open spec fn after_fetch(self, response: Result<Seq<char>, ErrorView>) -> NavigatorView {
        if !self.awaiting_rows {
            self
        } else {
            match read_outcome(response) {
                Ok(rows) => NavigatorView {
                    rows,
                    selected_row: None,
                    awaiting_rows: false,
                    held_rows: Seq::empty(),
                    failure: None,
                    ..self
                },
                Err(failure) => NavigatorView {
                    rows: self.held_rows,
                    awaiting_rows: false,
                    held_rows: Seq::empty(),
                    failure: Some(failure),
                    ..self
                },
            }
        }
    }
}

/// The navigator: the catalogue of boards, the active view, the selection,
/// the rows on display and the outcome of the last request.
pub struct Navigator {
    boards: Vec<Board>,
    active_menu_item: MenuItem,
    selected_board: usize,
    rows: Vec<BoardRow>,
    selected_row: Option<usize>,
    awaiting_rows: bool,
    held_rows: Vec<BoardRow>,
    failure: Option<Error>,
    finished: bool,
}

impl View for Navigator {
    type V = NavigatorView;

    closed spec fn view(&self) -> NavigatorView {
        NavigatorView {
            boards: self.boards.deep_view(),
            active_menu_item: self.active_menu_item,
            selected_board: self.selected_board as int,
            rows: self.rows.deep_view(),
            selected_row: position(self.selected_row),
            awaiting_rows: self.awaiting_rows,
            held_rows: self.held_rows.deep_view(),
            failure: self.failure.deep_view(),
            finished: self.finished,
        }
    }
}

impl Navigator {
    /// The highlighted board is one of the catalogue, and the highlighted
    /// row, if there is one, is one of the rows on display. While an answer
    /// is awaited no rows are on display, and rows are held back at no other
    /// time.
    pub open spec fn wf(&self) -> bool {
        self@.wf()
    }

    /// A navigator over a catalogue of boards, in the home view with the
    /// first board highlighted. An empty catalogue has no board to highlight
    /// and gives none.
    pub fn new(boards: Vec<Board>) -> (navigator: Option<Self>)
        ensures
            navigator is None <==> boards.len() == 0,
            navigator matches Some(n) ==> n.wf() && n@ == NavigatorView::initial(
                boards.deep_view(),
            ),
    {
        if boards.len() == 0 {
            return None;
        }
        let navigator = Navigator {
            boards,
            active_menu_item: MenuItem::Home,
            selected_board: 0,
            rows: Vec::new(),
            selected_row: None,
            awaiting_rows: false,
            held_rows: Vec::new(),
            failure: None,
            finished: false,
        };
        assert(navigator@.rows =~= Seq::<BoardRowView>::empty());
        assert(navigator@.held_rows =~= Seq::<BoardRowView>::empty());
        Some(navigator)
    }

    /// The active view.
    pub fn active_menu_item(&self) -> (item: MenuItem)
        ensures
            item == self@.active_menu_item,
    {
        self.active_menu_item
    }

    /// The catalogue of boards.
    pub fn boards(&self) -> (boards: &Vec<Board>)
        ensures
            boards.deep_view() == self@.boards,
    {
        &self.boards
    }

    /// The rows on display.
    pub fn rows(&self) -> (rows: &Vec<BoardRow>)
        ensures
            rows.deep_view() == self@.rows,
    {
        &self.rows
    }

    /// The highlighted board and the highlighted row.
    pub fn selection(&self) -> (selection: SelectionState)
        ensures
            selection.selected_board_index == self@.selected_board,
            position(selection.selected_row_index) == self@.selected_row,
    {
        SelectionState {
            selected_board_index: self.selected_board,
            selected_row_index: self.selected_row,
        }
    }

    /// The highlighted board.
    pub fn selected_board(&self) -> (board: &Board)
        requires
            self.wf(),
        ensures
            board@ == self@.boards[self@.selected_board],
    {
        &self.boards[self.selected_board]
    }

    /// The failure of the last request, if it failed.
    pub fn failure(&self) -> (failure: Option<&Error>)
        ensures
            failure.deep_view() == self@.failure,
    {
        match &self.failure {
            Some(failure) => Some(failure),
            None => None,
        }
    }

    /// Whether a page was asked for and the answer has not come.
    pub fn is_awaiting_rows(&self) -> (awaiting: bool)
        ensures
            awaiting == self@.awaiting_rows,
    {
        self.awaiting_rows
    }

    /// Whether the request to quit has come.
    pub fn is_finished(&self) -> (finished: bool)
        ensures
            finished == self@.finished,
    {
        self.finished
    }

    /// Steps the selection of the active view, forward or backward.
    fn step_selection(&mut self, forward: bool)
        requires
            old(self).wf(),
        ensures
            final(self).wf(),
            final(self)@ == old(self)@.moved(forward),
    {
        match self.active_menu_item {
            MenuItem::Home => {
                let here = Some(self.selected_board);
                let there = if forward {
                    select_next(here, self.boards.len())
                } else {
                    select_previous(here, self.boards.len())
                };
                if let Some(index) = there {
                    self.selected_board = index;
                }
            },
            MenuItem::Boards => {
                self.selected_row = if forward {
                    select_next(self.selected_row, self.rows.len())
                } else {
                    select_previous(self.selected_row, self.rows.len())
                };
            },
        }
    }

    /// Takes an action and says what is to be done about it.
    pub fn apply(&mut self, action: Action) -> (command: Command)
        requires
            old(self).wf(),
        ensures
            final(self).wf(),
            final(self)@ == old(self)@.after(action),
            command@ == old(self)@.command(action),
    {
        if self.finished {
            return Command::Quit;
        }
        if let Action::Quit = action {
            self.finished = true;
            return Command::Quit;
        }
        if self.awaiting_rows {
            return Command::Idle;
        }
        match action {
            Action::Quit => Command::Quit,
            Action::SwitchToHome => {
                self.active_menu_item = MenuItem::Home;
                Command::Idle
            },
            Action::SwitchToBoards => {
                if let MenuItem::Home = self.active_menu_item {
                    self.active_menu_item = MenuItem::Boards;
                    core::mem::swap(&mut self.rows, &mut self.held_rows);
                    self.selected_row = None;
                    self.awaiting_rows = true;
                    assert(self@.rows =~= Seq::<BoardRowView>::empty());
                    Command::Fetch(board_url(self.boards[self.selected_board].uri.as_str()))
                } else {
                    Command::Idle
                }
            },
            Action::MoveDown => {
                self.step_selection(true);
                Command::Idle
            },
            Action::MoveUp => {
                self.step_selection(false);
                Command::Idle
            },
        }
    }

    /// Takes an event and says what is to be done about it. A key press
    /// counts as the action that the key asks for; a tick, and a key that
    /// asks for nothing, change nothing.
    pub fn handle(&mut self, event: Event<Key>) -> (command: Command)
        requires
            old(self).wf(),
        ensures
            final(self).wf(),
            final(self)@ == old(self)@.after_event(event),
            command@ == old(self)@.command_on(event),
    {
        let action = match event {
            Event::Input(key) => Action::from_key(key),
            Event::Tick => None,
        };
        match action {
            Some(action) => self.apply(action),
            None => if self.finished {
                Command::Quit
            } else {
                Command::Idle
            },
        }
    }

    /// Takes the answer to the request for the highlighted board's page. A
    /// page is read into rows, which go on display with no row highlighted; a
    /// failure, that of the request or the refusal of a page that came, is
    /// kept for display and brings the rows shown before the request on
    /// display again. An answer that was not awaited is dropped.
    pub fn complete_fetch(&mut self, response: Result<String, Error>)
        requires
            old(self).wf(),
        ensures
            final(self).wf(),
            final(self)@ == old(self)@.after_fetch(response_view(response)),
    {
        if !self.awaiting_rows {
            return ;
        }
        self.awaiting_rows = false;
        match read_board_rows(response) {
            Ok(rows) => {
                self.rows = rows;
                self.held_rows = Vec::new();
                self.selected_row = None;
                self.failure = None;
                assert(self@.held_rows =~= Seq::<BoardRowView>::empty());
            },
            Err(failure) => {
                core::mem::swap(&mut self.rows, &mut self.held_rows);
                self.failure = Some(failure);
                assert(self@.held_rows =~= Seq::<BoardRowView>::empty());
            },
        }
    }
}

/// Every action leaves the catalogue as it is, the highlighted board within
/// it and the highlighted row within the rows on display.
pub proof fn lemma_actions_keep_selection_valid(state: NavigatorView, action: Action)
    requires
        state.wf(),
    ensures
        state.after(action).wf(),
        state.after(action).boards == state.boards,
{
}

/// Every answer to a request leaves the catalogue and the highlighted board
/// as they are and the highlighted row within the rows on display, however
/// many rows the page has.
pub proof fn lemma_answers_keep_selection_valid(
    state: NavigatorView,
    response: Result<Seq<char>, ErrorView>,
)
    requires
        state.wf(),
    ensures
        state.after_fetch(response).wf(),
        state.after_fetch(response).boards == state.boards,
        state.after_fetch(response).selected_board == state.selected_board,
        state.after_fetch(response).active_menu_item == state.active_menu_item,
{
}

/// Only entering the board view and the answer to a request change the rows
/// on display.
pub proof fn lemma_rows_change_with_a_fetch_only(state: NavigatorView, action: Action)
    requires
        state.wf(),
    ensures
        state.after(action).rows == state.rows || state.command(action) is Fetch,
{
}

/// Entering the board view, whatever rows are on display from a board shown
/// before, takes them from display, leaves no row highlighted and asks once
/// for the page of the board that is highlighted now: the command names its
/// address, and no action asks for a page again, or puts a row on display or
/// highlights one, before the answer has come.
pub proof fn lemma_entering_boards_fetches_once(state: NavigatorView, later: Action)
    requires
        state.wf(),
        state.takes_input(),
        state.active_menu_item == MenuItem::Home,
    ensures
        state.command(Action::SwitchToBoards) == CommandView::Fetch(
            service_url(state.boards[state.selected_board].uri),
        ),
        state.after(Action::SwitchToBoards).active_menu_item == MenuItem::Boards,
        state.after(Action::SwitchToBoards).selected_board == state.selected_board,
        state.after(Action::SwitchToBoards).selected_row is None,
        state.after(Action::SwitchToBoards).rows.len() == 0,
        state.after(Action::SwitchToBoards).awaiting_rows,
        !(state.after(Action::SwitchToBoards).command(later) is Fetch),
        state.after(Action::SwitchToBoards).after(later).rows.len() == 0,
        state.after(Action::SwitchToBoards).after(later).selected_row is None,
{
}

/// A page is asked for on entering the board view and at no other time.
pub proof fn lemma_fetch_only_on_entering_boards(state: NavigatorView, action: Action)
    requires
        state.wf(),
    ensures
        state.command(action) is Fetch <==> state.takes_input() && action == Action::SwitchToBoards
            && state.active_menu_item == MenuItem::Home,
        state.command(action) is Fetch <==> state.after(action).awaiting_rows
            && !state.awaiting_rows,
{
}

/// Moving on from one board to the next in the home view and entering the
/// board view asks for the page of the next board, and leaves no row
/// highlighted.
pub proof fn lemma_switching_board_fetches_its_page(state: NavigatorView)
    requires
        state.wf(),
        state.takes_input(),
        state.active_menu_item == MenuItem::Home,
    ensures
        ({
            let next = if state.selected_board == state.boards.len() - 1 {
                0
            } else {
                state.selected_board + 1
            };
            let moved = state.after(Action::MoveDown);
            &&& moved.selected_board == next
            &&& moved.rows == state.rows
            &&& moved.command(Action::SwitchToBoards) == CommandView::Fetch(
                service_url(state.boards[next].uri),
            )
            &&& moved.after(Action::SwitchToBoards).selected_row is None
        }),
{
}

/// A request that fails brings the rows on display again that were shown
/// when the board view was entered, and leaves the active view and the
/// highlighted board as they are; the failure is there to be shown.
pub proof fn lemma_failed_fetch_keeps_rows(state: NavigatorView, failure: ErrorView)
    requires
        state.wf(),
        state.takes_input(),
        state.active_menu_item == MenuItem::Home,
    ensures
        ({
            let asked = state.after(Action::SwitchToBoards);
            let failed = asked.after_fetch(Err(failure));
            &&& failed.rows == state.rows
            &&& failed.failure == Some(failure)
            &&& failed.active_menu_item == asked.active_menu_item
            &&& failed.selected_board == state.selected_board
            &&& failed.selected_row is None
            &&& !failed.finished
            &&& !failed.awaiting_rows
            &&& failed.wf()
        }),
{
}

/// A page that comes and is not refused goes on display in place of the rows
/// shown before, with no row highlighted and no failure to show.
pub proof fn lemma_fetched_page_replaces_rows(state: NavigatorView, body: Seq<char>)
    requires
        state.wf(),
        state.awaiting_rows,
        fits_parser(without_layout(body)),
    ensures
        state.after_fetch(Ok(body)).rows == page_rows(body),
        state.after_fetch(Ok(body)).selected_row is None,
        state.after_fetch(Ok(body)).failure is None,
        !state.after_fetch(Ok(body)).awaiting_rows,
{
}

/// A page that comes and is too long or nested too deeply is refused: the
/// refusal is there to be shown as a failure, and the rows held back come on
/// display again.
pub proof fn lemma_refused_page_keeps_rows(state: NavigatorView, body: Seq<char>)
    requires
        state.wf(),
        state.awaiting_rows,
        !fits_parser(without_layout(body)),
    ensures
        state.after_fetch(Ok(body)).rows == state.held_rows,
        state.after_fetch(Ok(body)).failure == Some(ErrorView::PageRefused),
        state.after_fetch(Ok(body)).selected_row is None,
        !state.after_fetch(Ok(body)).awaiting_rows,
        state.after_fetch(Ok(body)).wf(),
{
}

/// Switching between the views keeps the highlighted board.
pub proof fn lemma_switching_views_keeps_board(state: NavigatorView, action: Action)
    requires
        state.wf(),
        action == Action::SwitchToHome || action == Action::SwitchToBoards,
    ensures
        state.after(action).selected_board == state.selected_board,
{
}

/// After the request to quit nothing changes, and every event is answered
/// with the command to shut down.
pub proof fn lemma_quit_is_final(state: NavigatorView, event: Event<Key>)
    ensures
        state.after(Action::Quit).finished,
        state.command(Action::Quit) == CommandView::Quit,
        state.finished ==> state.after_event(event) == state && state.command_on(event)
            == CommandView::Quit,
{
}

} // verus!
