//! Reading a discussion board's listing page: the rows of a page, the catalogue
//! of boards, and the navigation state that a terminal front end displays.

pub mod board;
pub mod error;
pub mod event_source;
pub mod gateway;
pub mod markup;
pub mod navigation;
pub mod registry;
pub mod selection;
pub mod text;
