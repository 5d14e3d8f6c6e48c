use vstd::prelude::*;

use crate::house::{insert_statement, insert_text, House};
use crate::page::{listing_url, listing_url_text, PageError};

verus! {

/// How many listing index pages of a city are read.
pub const LISTING_PAGES: u32 = 12;

/// How many seconds to wait after storing a listing.
pub const PAUSE_SECS: u64 = 15;

/// Where the crawl of a city's listings stands: the index page being read and the key the
/// next stored listing gets.
pub struct Crawl {
    pub page: u32,
    pub next_id: i64,
}

/// What became of one listing link.
pub enum ListingOutcome {
    /// The listing page could not be read as text.
    Unreadable,
    /// What reading the listing page gave.
    Read(Result<Option<House>, PageError>),
}

/// What to do with one listing link.
pub enum CrawlAction {
    /// Go on with the next link.
    Skip,
    /// Run the statement that stores the listing, then wait `PAUSE_SECS` seconds.
    Store(String),
    /// Stop the crawl: the page does not have the layout the reader knows.
    Stop(PageError),
}

/// A crawl at the first index page, with no listing stored yet.
pub fn crawl_start() -> (c: Crawl)
    ensures
        c.page == 0,
        c.next_id == 0,
{
    Crawl { page: 0, next_id: 0 }
}

/// The address of the index page the crawl stands at, `None` once all pages are read.
pub fn crawl_url(position: &str, c: &Crawl) -> (r: Option<String>)
    ensures
        c.page < LISTING_PAGES ==> (r matches Some(u) && u@ == listing_url_text(
            position@,
            c.page as nat,
        )),
        c.page >= LISTING_PAGES ==> r is None,
{
    if c.page < LISTING_PAGES {
        Some(listing_url(position, c.page))
    } else {
        None
    }
}

/// Moves the crawl on to the next index page.
pub fn crawl_next_page(c: &mut Crawl)
    requires
        old(c).page < LISTING_PAGES,
    ensures
        final(c).page == old(c).page + 1,
        final(c).next_id == old(c).next_id,
{
    c.page = c.page + 1;
}

/// Decides what to do with one listing link: links whose page cannot be read, and pages that
/// are no listing, are skipped; a listing is stored under the next key, which then moves on;
/// a page without the expected layout stops the crawl.
pub fn crawl_listing(c: &mut Crawl, outcome: ListingOutcome) -> (act: CrawlAction)
    requires
        old(c).next_id < i64::MAX,
    ensures
        final(c).page == old(c).page,
        match outcome {
            ListingOutcome::Read(Ok(Some(h))) => act matches CrawlAction::Store(s) && s@ == insert_text(
                old(c).next_id as int,
                h@,
            ) && final(c).next_id == old(c).next_id + 1,
            ListingOutcome::Read(Err(e)) => act matches CrawlAction::Stop(e2) && e2 == e
                && final(c).next_id == old(c).next_id,
            _ => act matches CrawlAction::Skip && final(c).next_id == old(c).next_id,
        },
{
    match outcome {
        ListingOutcome::Unreadable => CrawlAction::Skip,
        ListingOutcome::Read(Ok(None)) => CrawlAction::Skip,
        ListingOutcome::Read(Err(e)) => CrawlAction::Stop(e),
        ListingOutcome::Read(Ok(Some(house))) => {
            let statement = insert_statement(c.next_id, &house);
            c.next_id = c.next_id + 1;
            CrawlAction::Store(statement)
        },
    }
}

} // verus!
