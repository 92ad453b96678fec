use commweb_tui::board::{Board, BoardRow};
use commweb_tui::error::Error;
use commweb_tui::gateway::{board_url, read_board_rows};
use commweb_tui::registry::read_boards;

fn listing(titles: &[&str]) -> String {
    let mut markup = String::from("<html>\n<body>\n");
    for title in titles {
        markup.push_str(&format!(
            "\t<div class=\"symph_row\">\n\
             \t\t<a class=\"list_subject\" href=\"/service/board/park/{title}\">\n\
             \t\t\t<span class=\"subject_fixed\">{title}</span>\n\
             \t\t</a>\n\
             \t\t<div class=\"list_author\"><span class=\"nickname\">\n\t\t\tauthor of {title}\n\t\t</span></div>\n\
             \t\t<div class=\"list_hit\"><span class=\"hit\">1\n0</span></div>\n\
             \t\t<div class=\"list_time\"><span class=\"timestamp\">12:00</span></div>\n\
             \t</div>\n"
        ));
    }
    markup.push_str("</body>\n</html>\n");
    markup
}

#[test]
fn catalogue_has_its_seven_boards_in_order() {
    let boards = read_boards().unwrap();
    let expected = [
        ("모두의공원", "board/park"),
        ("새로운소식", "board/news"),
        ("유용한사이트", "board/useful"),
        ("자료실", "board/pds"),
        ("팁과강좌", "board/lecture"),
        ("사용기", "board/use"),
        ("추천글", "recommend"),
    ];
    assert_eq!(boards.len(), 7);
    for (board, (name, uri)) in boards.iter().zip(expected) {
        assert_eq!(board, &Board::new(name, uri));
    }
    assert_eq!(read_boards(), Ok(boards));
}

#[test]
fn address_is_the_service_address_and_the_path() {
    assert_eq!(board_url("board/park"), "https://www.clien.net/service/board/park");
    assert_eq!(board_url("recommend"), "https://www.clien.net/service/recommend");
    assert_eq!(board_url(""), "https://www.clien.net/service/");
    for board in read_boards().unwrap() {
        assert_eq!(board_url(&board.uri), format!("https://www.clien.net/service/{}", board.uri));
    }
}

#[test]
fn answer_is_cleared_of_layout_and_read() {
    let rows = read_board_rows(Ok(listing(&["one", "two"]))).unwrap();
    assert_eq!(rows.len(), 2);
    assert_eq!(
        rows[0],
        BoardRow {
            title: "one".to_string(),
            url: "/service/board/park/one".to_string(),
            comment_count: 0,
            nickname: "author of one".to_string(),
            hit_count: "10".to_string(),
            timestamp: "12:00".to_string(),
        }
    );
    assert_eq!(rows[1].title, "two");
    assert_eq!(read_board_rows(Ok(String::new())), Ok(vec![]));
    assert_eq!(read_board_rows(Ok("\n\t\n".to_string())), Ok(vec![]));
}

#[test]
fn answer_nested_too_deeply_is_refused() {
    let deepest = "<div>\n".repeat(253);
    assert_eq!(read_board_rows(Ok(deepest.clone())), Ok(vec![]));
    assert_eq!(read_board_rows(Ok(deepest + "\t<div>")), Err(Error::PageRefused));
    let deep = "<div>".repeat(3_000) + &listing(&["a"]);
    assert_eq!(read_board_rows(Ok(deep)), Err(Error::PageRefused));
    assert_eq!(read_board_rows(Ok(listing(&["a"; 200]))).map(|rows| rows.len()), Ok(200));
}

#[test]
fn failed_request_gives_its_failure_back() {
    let failure = Error::FetchError("connection refused".to_string());
    assert_eq!(read_board_rows(Err(failure.clone())), Err(failure));
    let other = Error::ReadDBError("gone".to_string());
    assert_eq!(read_board_rows(Err(other.clone())), Err(other));
}

#[test]
fn failure_is_described_with_its_detail() {
    assert_eq!(
        Error::ReadDBError("no such file".to_string()).message(),
        "error reading the DB file: no such file"
    );
    assert_eq!(
        Error::ParseDBError("expected value at line 1".to_string()).message(),
        "error parsing the DB file: expected value at line 1"
    );
    assert_eq!(
        Error::FetchError("timed out".to_string()).message(),
        "error fetching the page: timed out"
    );
    assert_eq!(Error::FetchError(String::new()).message(), "error fetching the page: ");
    assert_eq!(Error::PageRefused.message(), "error reading the page: it is too long or nested too deeply");
}
