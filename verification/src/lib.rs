//! Second-hand housing listings: the rules that turn scraped listing pages, stored
//! listings and user interface events into the values the program stores and shows.
pub mod text;
pub mod pattern;
pub mod house;
pub mod page;
pub mod crawl;
pub mod query;
pub mod romanize;
pub mod display;
pub mod timefmt;
pub mod app_state;

