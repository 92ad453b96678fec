//! Boards and the rows of a board's listing page.
//!
//! A listing page holds one container per topic. Each container is read into
//! a `RowFields`, the texts found at the places where a row's fields stand,
//! and a `RowFields` that has every required field becomes a `BoardRow`.

use crate::markup::{
    attr_of, document_class_nodes, find_class, first_class_node, first_nested_class_node,
    first_nested_named_node, first_of_class, first_of_nested_class, first_of_nested_name,
    children_of, fits_parser, node_attr, node_text, parse, parse_tree, parsed_document, text_of,
    tree_children, within_depth, MAX_MARKUP_LEN, MAX_NESTING,
};
use crate::text::{is_blank, parse_u32, parsed_u32, text_is_blank, trim, trimmed};
use select::node::Node;
use std::rc::Rc;
use vstd::prelude::*;

verus! {

/// One board of the site: the name shown in the board list and the path
/// segment under which its listing page is fetched.
#[derive(Clone, Debug, PartialEq, Eq)]
pub struct Board {
    pub name: String,
    pub uri: String,
}

/// What a `Board` holds, as sequences of characters.
pub struct BoardView {
    pub name: Seq<char>,
    pub uri: Seq<char>,
}

impl View for Board {
    type V = BoardView;

    open spec fn view(&self) -> BoardView {
        BoardView { name: self.name@, uri: self.uri@ }
    }
}

impl DeepView for Board {
    type V = BoardView;

    open spec fn deep_view(&self) -> BoardView {
        self@
    }
}

impl Board {
    /// A board with the given display name and path segment.
    pub fn new(name: &str, uri: &str) -> (board: Self)
        ensures
            board@ == (BoardView { name: name@, uri: uri@ }),
    {
        Self { name: name.to_owned(), uri: uri.to_owned() }
    }
}

/// One row of a listing page: a topic with its link, the number of comments,
/// its author's nickname, the number of views as the page shows it, and the
/// time of posting as the page shows it.
#[derive(Clone, Debug, PartialEq, Eq)]
pub struct BoardRow {
    pub title: String,
    pub url: String,
    pub comment_count: u32,
    pub nickname: String,
    pub hit_count: String,
    pub timestamp: String,
}

/// What a `BoardRow` holds, as sequences of characters and a number.
pub struct BoardRowView {
    pub title: Seq<char>,
    pub url: Seq<char>,
    pub comment_count: u32,
    pub nickname: Seq<char>,
    pub hit_count: Seq<char>,
    pub timestamp: Seq<char>,
}

impl View for BoardRow {
    type V = BoardRowView;

    open spec fn view(&self) -> BoardRowView {
        BoardRowView {
            title: self.title@,
            url: self.url@,
            comment_count: self.comment_count,
            nickname: self.nickname@,
            hit_count: self.hit_count@,
            timestamp: self.timestamp@,
        }
    }
}

impl DeepView for BoardRow {
    type V = BoardRowView;

    open spec fn deep_view(&self) -> BoardRowView {
        self@
    }
}

/// The texts found in one row container, each absent where the container
/// has no node for it.
#[derive(Clone, Debug, PartialEq, Eq)]
pub struct RowFields {
    /// The text of the subject node.
    pub title: Option<String>,
    /// The target of the subject link.
    pub link: Option<String>,
    /// The text of the comment-count marker.
    pub comment_count: Option<String>,
    /// The text of the nickname node in the author slot.
    pub nickname: Option<String>,
    /// The alternative text of the image in the author slot.
    pub image_alt: Option<String>,
    /// The text of the view-count marker.
    pub hit_count: Option<String>,
    /// The text of the timestamp marker.
    pub timestamp: Option<String>,
}

/// What a `RowFields` holds, as sequences of characters.
pub struct RowFieldsView {
    pub title: Option<Seq<char>>,
    pub link: Option<Seq<char>>,
    pub comment_count: Option<Seq<char>>,
    pub nickname: Option<Seq<char>>,
    pub image_alt: Option<Seq<char>>,
    pub hit_count: Option<Seq<char>>,
    pub timestamp: Option<Seq<char>>,
}

impl View for RowFields {
    type V = RowFieldsView;

    open spec fn view(&self) -> RowFieldsView {
        RowFieldsView {
            title: self.title.deep_view(),
            link: self.link.deep_view(),
            comment_count: self.comment_count.deep_view(),
            nickname: self.nickname.deep_view(),
            image_alt: self.image_alt.deep_view(),
            hit_count: self.hit_count.deep_view(),
            timestamp: self.timestamp.deep_view(),
        }
    }
}

impl DeepView for RowFields {
    type V = RowFieldsView;

    open spec fn deep_view(&self) -> RowFieldsView {
        self@
    }
}

/// The number of comments that a marker's text stands for: 0 where the
/// marker is absent or its text is no numeral.
pub open spec fn comment_count_of(marker: Option<Seq<char>>) -> u32 {
    match marker {
        Some(text) => match parsed_u32(text) {
            Some(count) => count,
            None => 0,
        },
        None => 0,
    }
}

/// The author's nickname: the nickname text, unless it is absent or blank,
/// and then the image's alternative text; either without the white space
/// around it. None where neither gives one.
pub open spec fn nickname_of(nickname: Option<Seq<char>>, image_alt: Option<Seq<char>>) -> Option<
    Seq<char>,
> {
    if nickname is Some && !is_blank(nickname->0) {
        Some(trimmed(nickname->0))
    } else {
        match image_alt {
            Some(alt) => Some(trimmed(alt)),
            None => None,
        }
    }
}

/// Whether a container's texts make a row: title, link, view count and
/// timestamp are there, and a nickname can be had.
pub open spec fn is_complete(fields: RowFieldsView) -> bool {
    &&& fields.title is Some
    &&& fields.link is Some
    &&& nickname_of(fields.nickname, fields.image_alt) is Some
    &&& fields.hit_count is Some
    &&& fields.timestamp is Some
}

/// The row that a container's texts make, none where a required one is
/// missing.
pub open spec fn row_of(fields: RowFieldsView) -> Option<BoardRowView> {
    if is_complete(fields) {
        Some(
            BoardRowView {
                title: fields.title->0,
                url: fields.link->0,
                comment_count: comment_count_of(fields.comment_count),
                nickname: nickname_of(fields.nickname, fields.image_alt)->0,
                hit_count: fields.hit_count->0,
                timestamp: fields.timestamp->0,
            },
        )
    } else {
        None
    }
}

/// The rows that a page's containers make: one for each container that has
/// every required field, in the containers' order.
pub open spec fn rows_of(containers: Seq<RowFieldsView>) -> Seq<BoardRowView> {
    containers.filter_map(|fields: RowFieldsView| row_of(fields))
}

/// The text of a node that may be absent.
pub open spec fn text_at(node: Option<Node<'_>>) -> Option<Seq<char>> {
    match node {
        Some(node) => Some(node_text(node)),
        None => None,
    }
}

/// An attribute of a node that may be absent.
pub open spec fn attr_at(node: Option<Node<'_>>, name: Seq<char>) -> Option<Seq<char>> {
    match node {
        Some(node) => node_attr(node, name),
        None => None,
    }
}

/// The texts of one row container: each field is looked for below the
/// container only, and the first node found counts.
pub open spec fn container_fields(container: Node<'_>) -> RowFieldsView {
    RowFieldsView {
        title: text_at(first_class_node(container, "subject_fixed"@)),
        link: attr_at(first_class_node(container, "list_subject"@), "href"@),
        comment_count: text_at(first_class_node(container, "rSymph05"@)),
        nickname: text_at(first_nested_class_node(container, "list_author"@, "nickname"@)),
        image_alt: attr_at(first_nested_named_node(container, "list_author"@, "img"@), "alt"@),
        hit_count: text_at(first_nested_class_node(container, "list_hit"@, "hit"@)),
        timestamp: text_at(first_nested_class_node(container, "list_time"@, "timestamp"@)),
    }
}

/// The texts of every row container of a page, in document order. A page
/// that is too long or nested too deeply counts as one without containers.
pub open spec fn page_fields(markup: Seq<char>) -> Seq<RowFieldsView> {
    if fits_parser(markup) {
        document_class_nodes(&parsed_document(markup), "symph_row"@).map_values(
            |container: Node<'_>| container_fields(container),
        )
    } else {
        Seq::empty()
    }
}

/// Tells whether the tree below a node, the node counted, has `levels`
/// levels at most.
fn tree_fits(node: &Rc<markup5ever_rcdom::Node>, levels: usize) -> (fits: bool)
    ensures
        fits == within_depth(*node, levels as nat),
    decreases levels,
{
    if levels == 0 {
        return false;
    }
    let children = children_of(node);
    for i in 0..children.len()
        invariant
            levels > 0,
            children@ == tree_children(*node),
            forall|k: int| 0 <= k < i ==> within_depth(#[trigger] children[k], (levels - 1) as nat),
    {
        if !tree_fits(&children[i], levels - 1) {
            return false;
        }
    }
    true
}

/// Tells whether a page is small enough to be parsed: of `MAX_MARKUP_LEN`
/// characters at most, and nested `MAX_NESTING` levels deep at most.
pub fn page_fits_parser(markup: &str) -> (fits: bool)
    ensures
        fits == fits_parser(markup@),
{
    if markup.unicode_len() > MAX_MARKUP_LEN {
        return false;
    }
    let root = parse_tree(markup);
    tree_fits(&root, MAX_NESTING)
}

/// The text of a node, where there is one.
fn read_text(node: Option<Node<'_>>) -> (text: Option<String>)
    ensures
        text.deep_view() == text_at(node),
{
    match node {
        Some(node) => Some(text_of(&node)),
        None => None,
    }
}

/// An attribute of a node, where there is a node and it has the attribute.
fn read_attr(node: Option<Node<'_>>, name: &str) -> (value: Option<String>)
    ensures
        value.deep_view() == attr_at(node, name@),
{
    match node {
        Some(node) => match attr_of(&node, name) {
            Some(value) => Some(value.to_owned()),
            None => None,
        },
        None => None,
    }
}

/// A text that may be absent, borrowed.
fn as_text(text: &Option<String>) -> (borrowed: Option<&str>)
    ensures
        borrowed.deep_view() == text.deep_view(),
{
    match text {
        Some(text) => Some(text.as_str()),
        None => None,
    }
}

impl RowFields {
    /// Reads the texts of one row container.
    fn read(container: &Node<'_>) -> (fields: Self)
        ensures
            fields@ == container_fields(*container),
    {
        RowFields {
            title: read_text(first_of_class(container, "subject_fixed")),
            link: read_attr(first_of_class(container, "list_subject"), "href"),
            comment_count: read_text(first_of_class(container, "rSymph05")),
            nickname: read_text(first_of_nested_class(container, "list_author", "nickname")),
            image_alt: read_attr(first_of_nested_name(container, "list_author", "img"), "alt"),
            hit_count: read_text(first_of_nested_class(container, "list_hit", "hit")),
            timestamp: read_text(first_of_nested_class(container, "list_time", "timestamp")),
        }
    }

    /// Parses a page and reads the texts of each of its row containers, in
    /// document order. A page that is too long or nested too deeply is not
    /// handed to the parser and is refused: it gives none.
    pub fn read_page(markup: &str) -> (containers: Option<Vec<Self>>)
        ensures
            containers is Some <==> fits_parser(markup@),
            containers matches Some(read) ==> read.deep_view() == page_fields(markup@),
    {
        if !page_fits_parser(markup) {
            return None;
        }
        let document = parse(markup);
        let nodes = find_class(&document, "symph_row");
        let mut containers: Vec<Self> = Vec::new();
        for i in 0..nodes.len()
            invariant
                containers.len() == i,
                forall|k: int| 0 <= k < i ==> (#[trigger] containers[k])@ == container_fields(nodes[k]),
        {
            containers.push(RowFields::read(&nodes[i]));
        }
        assert(containers.deep_view() =~= page_fields(markup@));
        Some(containers)
    }

    /// Parses a page and reads the texts of each of its row containers, in
    /// document order. A page that is refused gives no containers.
    pub fn from_page(markup: &str) -> (containers: Vec<Self>)
        ensures
            containers.deep_view() == page_fields(markup@),
            !fits_parser(markup@) ==> containers.len() == 0,
    {
        match Self::read_page(markup) {
            Some(containers) => containers,
            None => {
                let containers: Vec<Self> = Vec::new();
                assert(containers.deep_view() =~= page_fields(markup@));
                containers
            },
        }
    }
}

impl BoardRow {
    /// The number of comments that a comment-count marker shows: the number
    /// that its text stands for, and 0 where the marker is absent or the text
    /// is no numeral.
    pub fn get_comment_count(marker: Option<&str>) -> (count: u32)
        ensures
            count == comment_count_of(marker.deep_view()),
            marker is None ==> count == 0,
    {
        match marker {
            Some(text) => match parse_u32(text) {
                Some(count) => count,
                None => 0,
            },
            None => 0,
        }
    }

    /// The author's nickname: the nickname text, unless it is absent or
    /// blank, and then the alternative text of the author's image; either
    /// without the white space around it. None where neither gives one.
    pub fn get_nickname(nickname: Option<&str>, image_alt: Option<&str>) -> (author: Option<String>)
        ensures
            author.deep_view() == nickname_of(nickname.deep_view(), image_alt.deep_view()),
    {
        if let Some(text) = nickname {
            if !text_is_blank(text) {
                return Some(trim(text).to_owned());
            }
        }
        match image_alt {
            Some(alt) => Some(trim(alt).to_owned()),
            None => None,
        }
    }

    /// Makes a row of a container's texts. A container without a title, a
    /// link, a nickname, a view count or a timestamp makes none.
    pub fn from_fields(fields: RowFields) -> (row: Option<Self>)
        ensures
            row.deep_view() == row_of(fields@),
    {
        let comment_count = Self::get_comment_count(as_text(&fields.comment_count));
        let nickname = Self::get_nickname(as_text(&fields.nickname), as_text(&fields.image_alt));
        match (fields.title, fields.link, nickname, fields.hit_count, fields.timestamp) {
            (Some(title), Some(url), Some(nickname), Some(hit_count), Some(timestamp)) => Some(
                BoardRow { title, url, comment_count, nickname, hit_count, timestamp },
            ),
            _ => None,
        }
    }

    /// Makes the rows of a page's containers: one for each container that has
    /// every required field, in the containers' order. The others are left
    /// out.
    pub fn from_containers(containers: Vec<RowFields>) -> (rows: Vec<Self>)
        ensures
            rows.deep_view() == rows_of(containers.deep_view()),
    {
        let ghost all = containers.deep_view();
        let mut rows: Vec<Self> = Vec::new();
        for fields in it: containers
            invariant
                it.seq().len() == all.len(),
                forall|k: int| 0 <= k < all.len() ==> (#[trigger] it.seq()[k])@ == all[k],
                rows.deep_view() == rows_of(all.take(it.index())),
        {
            proof {
                assert(all.take(it.index() + 1).drop_last() == all.take(it.index()));
            }
            let ghost before = rows.deep_view();
            match Self::from_fields(fields) {
                Some(row) => {
                    rows.push(row);
                    assert(rows.deep_view() =~= before + seq![row@]);
                },
                None => {},
            }
        }
        assert(all.take(all.len() as int) == all);
        rows
    }

    /// Reads the rows of a listing page. Every container of the page that has
    /// a title, a link, a nickname, a view count and a timestamp gives one
    /// row, in document order; a container that lacks one of them gives none.
    /// A page that is too long or nested too deeply is refused: it gives
    /// none.
    pub fn read_page(doc: &str) -> (rows: Option<Vec<Self>>)
        ensures
            rows is Some <==> fits_parser(doc@),
            rows matches Some(read) ==> read.deep_view() == rows_of(page_fields(doc@)),
    {
        match RowFields::read_page(doc) {
            Some(containers) => Some(Self::from_containers(containers)),
            None => None,
        }
    }

    /// Reads the rows of a listing page, as `read_page` does. A page that is
    /// refused gives no rows.
    pub fn get_board_data(doc: String) -> (rows: Vec<Self>)
        ensures
            rows.deep_view() == rows_of(page_fields(doc@)),
            !fits_parser(doc@) ==> rows.len() == 0,
    {
        let rows = Self::from_containers(RowFields::from_page(doc.as_str()));
        assert(rows.deep_view().len() == rows.len());
        rows
    }
}

/// The rows of two runs of containers, one after the other, are the rows of
/// the first run followed by the rows of the second.
pub proof fn lemma_rows_of_concat(first: Seq<RowFieldsView>, second: Seq<RowFieldsView>)
    ensures
        rows_of(first + second) == rows_of(first) + rows_of(second),
    decreases second.len(),
{
    if second.len() == 0 {
        assert(first + second == first);
    } else {
        lemma_rows_of_concat(first, second.drop_last());
        assert((first + second).drop_last() == first + second.drop_last());
    }
}

/// Where every container of a page has all required fields, the page gives
/// exactly one row for each container, in the containers' order.
pub proof fn lemma_complete_containers_all_give_rows(containers: Seq<RowFieldsView>)
    requires
        forall|i: int| 0 <= i < containers.len() ==> is_complete(#[trigger] containers[i]),
    ensures
        rows_of(containers).len() == containers.len(),
        forall|i: int|
            0 <= i < containers.len() ==> Some(#[trigger] rows_of(containers)[i]) == row_of(
                containers[i],
            ),
    decreases containers.len(),
{
    if containers.len() > 0 {
        let before = containers.drop_last();
        assert forall|i: int| 0 <= i < before.len() implies is_complete(#[trigger] before[i]) by {
            assert(before[i] == containers[i]);
        }
        lemma_complete_containers_all_give_rows(before);
        assert forall|i: int| 0 <= i < containers.len() implies Some(
            #[trigger] rows_of(containers)[i],
        ) == row_of(containers[i]) by {
            if i < before.len() {
                assert(rows_of(containers)[i] == rows_of(before)[i]);
                assert(before[i] == containers[i]);
            }
        }
    }
}

/// A container without a comment-count marker gives a row with no comments.
pub proof fn lemma_absent_marker_counts_zero(fields: RowFieldsView)
    requires
        is_complete(fields),
        fields.comment_count is None,
    ensures
        row_of(fields) is Some,
        row_of(fields)->0.comment_count == 0,
{
}

/// Where the nickname text of a container is blank and the author's image
/// has an alternative text, the row's nickname is that text without the white
/// space around it.
pub proof fn lemma_blank_nickname_falls_back(
    nickname: Seq<char>,
    image_alt: Seq<char>,
)
    requires
        is_blank(nickname),
    ensures
        nickname_of(Some(nickname), Some(image_alt)) == Some(trimmed(image_alt)),
{
}

/// A container that lacks a required field, such as the subject link, gives
/// no row, and the page's other containers give the rows that they would give
/// without it.
pub proof fn lemma_incomplete_container_left_out(containers: Seq<RowFieldsView>, at: int)
    requires
        0 <= at < containers.len(),
        !is_complete(containers[at]),
    ensures
        row_of(containers[at]) is None,
        rows_of(containers) == rows_of(containers.remove(at)),
{
    let before = containers.take(at);
    let one = seq![containers[at]];
    let after = containers.skip(at + 1);
    assert(containers == before + one + after);
    assert(containers.remove(at) == before + after);
    lemma_rows_of_concat(before + one, after);
    lemma_rows_of_concat(before, one);
    lemma_rows_of_concat(before, after);
    Seq::lemma_filter_map_singleton(containers[at], |fields: RowFieldsView| row_of(fields));
}

/// A container without a subject link is not complete.
pub proof fn lemma_missing_link_is_incomplete(fields: RowFieldsView)
    requires
        fields.link is None,
    ensures
        !is_complete(fields),
        row_of(fields) is None,
{
}

} // verus!
