//! The catalogue of boards: fixed, and the same on every reading.

use crate::board::{Board, BoardView};
use crate::error::Error;
use vstd::prelude::*;

verus! {

/// A catalogue entry: a board's display name and the path segment of its
/// listing page.
pub open spec fn entry(name: &str, uri: &str) -> BoardView {
    BoardView { name: name@, uri: uri@ }
}

/// The boards of the catalogue, in the order in which they are listed.
pub open spec fn catalogue() -> Seq<BoardView> {
    seq![
        entry("모두의공원", "board/park"),
        entry("새로운소식", "board/news"),
        entry("유용한사이트", "board/useful"),
        entry("자료실", "board/pds"),
        entry("팁과강좌", "board/lecture"),
        entry("사용기", "board/use"),
        entry("추천글", "recommend"),
    ]
}

/// Reads the catalogue of boards. It is fixed, so the reading always
/// succeeds, with the same seven boards in the same order.
pub fn read_boards() -> (boards: Result<Vec<Board>, Error>)
    ensures
        boards is Ok,
        boards->Ok_0.deep_view() == catalogue(),
        boards->Ok_0.len() == 7,
{
    let mut board_list: Vec<Board> = Vec::new();
    board_list.push(Board::new("모두의공원", "board/park"));
    board_list.push(Board::new("새로운소식", "board/news"));
    board_list.push(Board::new("유용한사이트", "board/useful"));
    board_list.push(Board::new("자료실", "board/pds"));
    board_list.push(Board::new("팁과강좌", "board/lecture"));
    board_list.push(Board::new("사용기", "board/use"));
    board_list.push(Board::new("추천글", "recommend"));
    assert(board_list.deep_view() =~= catalogue());
    Ok(board_list)
}

} // verus!
