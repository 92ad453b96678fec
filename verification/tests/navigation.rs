use commweb_tui::board::Board;
use commweb_tui::error::Error;
use commweb_tui::event_source::Event;
use commweb_tui::navigation::{Action, Command, Key, MenuItem, Navigator};
use commweb_tui::registry::read_boards;
use commweb_tui::selection::SelectionState;

fn listing_of(board: &str, count: usize) -> String {
    let mut markup = String::from("<html><body>\n");
    for n in 0..count {
        markup.push_str(&format!(
            "<div class=\"symph_row\">\n\
             \t<a class=\"list_subject\" href=\"/{board}/{n}\"><span class=\"subject_fixed\">{board} {n}</span></a>\n\
             \t<div class=\"list_author\"><span class=\"nickname\">user</span></div>\n\
             \t<div class=\"list_hit\"><span class=\"hit\">1</span></div>\n\
             \t<div class=\"list_time\"><span class=\"timestamp\">12:00</span></div>\n\
             </div>\n"
        ));
    }
    markup.push_str("</body></html>");
    markup
}

fn navigator() -> Navigator {
    Navigator::new(read_boards().unwrap()).unwrap()
}

fn press(navigator: &mut Navigator, key: Key) -> Command {
    navigator.handle(Event::Input(key))
}

fn fetch(path: &str) -> Command {
    Command::Fetch(format!("https://www.clien.net/service/{path}"))
}

fn selection(board: usize, row: Option<usize>) -> SelectionState {
    SelectionState { selected_board_index: board, selected_row_index: row }
}

/// A navigator that shows `count` rows of the first board, back in the home view.
fn with_rows_of_first_board(count: usize) -> Navigator {
    let mut navigator = navigator();
    assert_eq!(press(&mut navigator, Key::Char('b')), fetch("board/park"));
    navigator.complete_fetch(Ok(listing_of("park", count)));
    assert_eq!(navigator.rows().len(), count);
    navigator
}

#[test]
fn navigator_starts_at_home_with_the_first_board() {
    let navigator = navigator();
    assert_eq!(navigator.active_menu_item(), MenuItem::Home);
    assert_eq!(navigator.selection(), selection(0, None));
    assert_eq!(navigator.boards(), &read_boards().unwrap());
    assert_eq!(navigator.selected_board(), &Board::new("모두의공원", "board/park"));
    assert!(navigator.rows().is_empty());
    assert_eq!(navigator.failure(), None);
    assert!(!navigator.is_awaiting_rows());
    assert!(!navigator.is_finished());
}

#[test]
fn empty_catalogue_gives_no_navigator() {
    assert!(Navigator::new(vec![]).is_none());
    assert!(Navigator::new(vec![Board::new("only", "board/only")]).is_some());
}

#[test]
fn menu_items_have_their_tabs() {
    assert_eq!(usize::from(MenuItem::Home), 0);
    assert_eq!(usize::from(MenuItem::Boards), 1);
    let tab: usize = MenuItem::Boards.into();
    assert_eq!(tab, 1);
}

#[test]
fn keys_ask_for_their_actions() {
    assert_eq!(Action::from_key(Key::Char('q')), Some(Action::Quit));
    assert_eq!(Action::from_key(Key::Char('h')), Some(Action::SwitchToHome));
    assert_eq!(Action::from_key(Key::Char('b')), Some(Action::SwitchToBoards));
    assert_eq!(Action::from_key(Key::Up), Some(Action::MoveUp));
    assert_eq!(Action::from_key(Key::Down), Some(Action::MoveDown));
    assert_eq!(Action::from_key(Key::Other), None);
    for c in ['Q', 'H', 'B', 'x', ' ', '\n', 'ㅂ'] {
        assert_eq!(Action::from_key(Key::Char(c)), None);
    }
}

#[test]
fn board_selection_wraps_around_the_catalogue() {
    let mut navigator = navigator();
    assert_eq!(press(&mut navigator, Key::Up), Command::Idle);
    assert_eq!(navigator.selection(), selection(6, None));
    assert_eq!(press(&mut navigator, Key::Down), Command::Idle);
    assert_eq!(navigator.selection(), selection(0, None));
    for expected in [1, 2, 3, 4, 5, 6, 0, 1] {
        assert_eq!(navigator.apply(Action::MoveDown), Command::Idle);
        assert_eq!(navigator.selection().selected_board_index, expected);
    }
    for expected in [0, 6, 5] {
        assert_eq!(navigator.apply(Action::MoveUp), Command::Idle);
        assert_eq!(navigator.selection().selected_board_index, expected);
    }
    assert_eq!(navigator.selected_board().uri, "board/use");
    assert!(navigator.rows().is_empty());
    assert_eq!(navigator.active_menu_item(), MenuItem::Home);
}

#[test]
fn single_board_stays_selected() {
    let mut navigator = Navigator::new(vec![Board::new("only", "board/only")]).unwrap();
    assert_eq!(navigator.apply(Action::MoveDown), Command::Idle);
    assert_eq!(navigator.selection(), selection(0, None));
    assert_eq!(navigator.apply(Action::MoveUp), Command::Idle);
    assert_eq!(navigator.selection(), selection(0, None));
}

#[test]
fn entering_boards_asks_for_the_selected_page_once() {
    let mut navigator = navigator();
    assert_eq!(press(&mut navigator, Key::Down), Command::Idle);
    assert_eq!(press(&mut navigator, Key::Char('b')), fetch("board/news"));
    assert_eq!(navigator.active_menu_item(), MenuItem::Boards);
    assert!(navigator.is_awaiting_rows());
    assert!(navigator.rows().is_empty());
    assert_eq!(navigator.selection(), selection(1, None));

    navigator.complete_fetch(Ok(listing_of("news", 3)));
    assert!(!navigator.is_awaiting_rows());
    assert_eq!(navigator.rows().len(), 3);
    assert_eq!(navigator.rows()[2].title, "news 2");
    assert_eq!(navigator.rows()[2].url, "/news/2");
    assert_eq!(navigator.selection(), selection(1, None));
    assert_eq!(navigator.failure(), None);

    assert_eq!(press(&mut navigator, Key::Char('b')), Command::Idle);
    assert!(!navigator.is_awaiting_rows());
    assert_eq!(navigator.rows().len(), 3);
}

#[test]
fn row_selection_wraps_around_the_rows() {
    let mut navigator = with_rows_of_first_board(5);
    assert_eq!(navigator.selection(), selection(0, None));
    for expected in [0, 1, 2, 3, 4, 0] {
        assert_eq!(press(&mut navigator, Key::Down), Command::Idle);
        assert_eq!(navigator.selection(), selection(0, Some(expected)));
    }
    for expected in [4, 3] {
        assert_eq!(press(&mut navigator, Key::Up), Command::Idle);
        assert_eq!(navigator.selection(), selection(0, Some(expected)));
    }
    assert_eq!(navigator.rows().len(), 5);
}

#[test]
fn row_selection_enters_from_the_end_on_a_step_back() {
    let mut navigator = with_rows_of_first_board(5);
    assert_eq!(press(&mut navigator, Key::Up), Command::Idle);
    assert_eq!(navigator.selection(), selection(0, Some(4)));
}

#[test]
fn empty_rows_leave_row_selection_unset() {
    let mut navigator = with_rows_of_first_board(0);
    assert_eq!(press(&mut navigator, Key::Down), Command::Idle);
    assert_eq!(navigator.selection(), selection(0, None));
    assert_eq!(press(&mut navigator, Key::Up), Command::Idle);
    assert_eq!(navigator.selection(), selection(0, None));
}

#[test]
fn switching_views_keeps_the_selected_board() {
    let mut navigator = navigator();
    navigator.apply(Action::MoveDown);
    navigator.apply(Action::MoveDown);
    assert_eq!(press(&mut navigator, Key::Char('b')), fetch("board/useful"));
    navigator.complete_fetch(Ok(listing_of("useful", 2)));
    press(&mut navigator, Key::Down);
    assert_eq!(navigator.selection(), selection(2, Some(0)));

    assert_eq!(press(&mut navigator, Key::Char('h')), Command::Idle);
    assert_eq!(navigator.active_menu_item(), MenuItem::Home);
    assert_eq!(navigator.selection(), selection(2, Some(0)));
    assert_eq!(navigator.rows().len(), 2);
    assert_eq!(press(&mut navigator, Key::Char('h')), Command::Idle);
    assert_eq!(navigator.active_menu_item(), MenuItem::Home);
}

#[test]
fn switching_board_resets_row_selection_and_fetches_once() {
    let mut navigator = with_rows_of_first_board(5);
    press(&mut navigator, Key::Down);
    press(&mut navigator, Key::Down);
    press(&mut navigator, Key::Down);
    assert_eq!(navigator.selection(), selection(0, Some(2)));

    assert_eq!(press(&mut navigator, Key::Char('h')), Command::Idle);
    assert_eq!(press(&mut navigator, Key::Down), Command::Idle);
    assert_eq!(navigator.selection(), selection(1, Some(2)));
    assert_eq!(navigator.rows().len(), 5);

    assert_eq!(press(&mut navigator, Key::Char('b')), fetch("board/news"));
    assert_eq!(navigator.selection(), selection(1, None));
    assert!(navigator.is_awaiting_rows());
    assert!(navigator.rows().is_empty());

    for key in [Key::Char('b'), Key::Char('h'), Key::Down, Key::Up, Key::Other] {
        assert_eq!(press(&mut navigator, key), Command::Idle);
    }
    assert_eq!(navigator.handle(Event::Tick), Command::Idle);
    assert_eq!(navigator.selection(), selection(1, None));
    assert_eq!(navigator.active_menu_item(), MenuItem::Boards);
    assert!(navigator.rows().is_empty());
    assert!(navigator.is_awaiting_rows());

    navigator.complete_fetch(Ok(listing_of("news", 2)));
    assert_eq!(navigator.rows().len(), 2);
    assert_eq!(navigator.rows()[0].title, "news 0");
    assert_eq!(navigator.selection(), selection(1, None));
}

#[test]
fn failed_fetch_keeps_rows_and_reports_the_failure() {
    let mut navigator = with_rows_of_first_board(5);
    let shown = navigator.rows().clone();
    press(&mut navigator, Key::Char('h'));
    press(&mut navigator, Key::Down);
    assert_eq!(navigator.rows(), &shown);
    assert_eq!(press(&mut navigator, Key::Char('b')), fetch("board/news"));
    assert!(navigator.rows().is_empty());

    let failure = Error::FetchError("connection reset".to_string());
    navigator.complete_fetch(Err(failure.clone()));
    assert_eq!(navigator.failure(), Some(&failure));
    assert_eq!(navigator.rows(), &shown);
    assert_eq!(navigator.rows()[0].title, "park 0");
    assert_eq!(navigator.active_menu_item(), MenuItem::Boards);
    assert_eq!(navigator.selection(), selection(1, None));
    assert!(!navigator.is_awaiting_rows());
    assert!(!navigator.is_finished());

    assert_eq!(press(&mut navigator, Key::Down), Command::Idle);
    assert_eq!(navigator.selection(), selection(1, Some(0)));
    press(&mut navigator, Key::Char('h'));
    assert_eq!(press(&mut navigator, Key::Char('b')), fetch("board/news"));
    navigator.complete_fetch(Ok(listing_of("news", 1)));
    assert_eq!(navigator.failure(), None);
    assert_eq!(navigator.rows().len(), 1);
    assert_eq!(navigator.selection(), selection(1, None));
}

#[test]
fn refused_page_keeps_rows_and_reports_the_refusal() {
    let mut navigator = with_rows_of_first_board(5);
    let shown = navigator.rows().clone();
    press(&mut navigator, Key::Char('h'));
    press(&mut navigator, Key::Down);
    assert_eq!(press(&mut navigator, Key::Char('b')), fetch("board/news"));

    navigator.complete_fetch(Ok("<div>".repeat(1_000) + &listing_of("news", 4)));
    assert_eq!(navigator.failure(), Some(&Error::PageRefused));
    assert_eq!(navigator.rows(), &shown);
    assert_eq!(navigator.selection(), selection(1, None));
    assert_eq!(navigator.active_menu_item(), MenuItem::Boards);
    assert!(!navigator.is_awaiting_rows());

    press(&mut navigator, Key::Char('h'));
    assert_eq!(press(&mut navigator, Key::Char('b')), fetch("board/news"));
    navigator.complete_fetch(Ok(listing_of("news", 3)));
    assert_eq!(navigator.failure(), None);
    assert_eq!(navigator.rows().len(), 3);
}

#[test]
fn failed_first_fetch_leaves_no_rows() {
    let mut navigator = navigator();
    assert_eq!(press(&mut navigator, Key::Char('b')), fetch("board/park"));
    navigator.complete_fetch(Err(Error::FetchError("no route".to_string())));
    assert!(navigator.rows().is_empty());
    assert_eq!(navigator.failure(), Some(&Error::FetchError("no route".to_string())));
    assert_eq!(press(&mut navigator, Key::Down), Command::Idle);
    assert_eq!(navigator.selection(), selection(0, None));
}

#[test]
fn shorter_page_leaves_no_stale_selection() {
    let mut navigator = with_rows_of_first_board(5);
    press(&mut navigator, Key::Up);
    assert_eq!(navigator.selection(), selection(0, Some(4)));
    press(&mut navigator, Key::Char('h'));
    assert_eq!(press(&mut navigator, Key::Char('b')), fetch("board/park"));
    navigator.complete_fetch(Ok(listing_of("park", 2)));
    assert_eq!(navigator.rows().len(), 2);
    assert_eq!(navigator.selection(), selection(0, None));
    press(&mut navigator, Key::Up);
    assert_eq!(navigator.selection(), selection(0, Some(1)));
}

#[test]
fn answer_that_was_not_awaited_is_dropped() {
    let mut navigator = with_rows_of_first_board(2);
    navigator.complete_fetch(Ok(listing_of("other", 4)));
    assert_eq!(navigator.rows().len(), 2);
    assert_eq!(navigator.rows()[0].title, "park 0");
    navigator.complete_fetch(Err(Error::FetchError("late".to_string())));
    assert_eq!(navigator.failure(), None);
}

#[test]
fn ticks_and_other_keys_change_nothing() {
    let mut navigator = with_rows_of_first_board(3);
    press(&mut navigator, Key::Down);
    for event in [Event::Tick, Event::Input(Key::Other), Event::Input(Key::Char('x'))] {
        assert_eq!(navigator.handle(event), Command::Idle);
        assert_eq!(navigator.selection(), selection(0, Some(0)));
        assert_eq!(navigator.active_menu_item(), MenuItem::Boards);
        assert_eq!(navigator.rows().len(), 3);
    }
}

#[test]
fn quit_ends_the_run_for_good() {
    let mut navigator = with_rows_of_first_board(3);
    assert_eq!(press(&mut navigator, Key::Char('q')), Command::Quit);
    assert!(navigator.is_finished());
    for key in [Key::Char('h'), Key::Char('b'), Key::Down, Key::Up, Key::Other, Key::Char('q')] {
        assert_eq!(press(&mut navigator, key), Command::Quit);
    }
    assert_eq!(navigator.handle(Event::Tick), Command::Quit);
    assert_eq!(navigator.active_menu_item(), MenuItem::Boards);
    assert_eq!(navigator.selection(), selection(0, None));
    assert_eq!(navigator.rows().len(), 3);
}

#[test]
fn quit_is_taken_while_a_page_is_awaited() {
    let mut navigator = navigator();
    assert_eq!(press(&mut navigator, Key::Char('b')), fetch("board/park"));
    assert_eq!(press(&mut navigator, Key::Char('q')), Command::Quit);
    assert!(navigator.is_finished());
}
