//! What the scraping tasks do after a scrape, and which torrents they look
//! for when they fill gaps in the archive.

use vstd::prelude::*;
use crate::scrape::ScrapeError;

verus! {

/// What follows a scrape of a torrent page.
#[derive(Debug, Clone, Copy, PartialEq, Eq, Structural)]
pub enum FollowUp {
    /// It went through.
    Continue,
    /// The torrent has no `.torrent` file yet: try it again later.
    Backlog(usize),
    /// The torrent was deleted from the index: record that.
    MarkDeleted(usize),
    /// Any other failure.
    Fail,
}

/// What follows a scrape of a torrent page, by its outcome.
pub fn scrape_followup(result: &Result<(), ScrapeError>) -> (r: FollowUp)
    ensures
        match result {
            Ok(_) => r == FollowUp::Continue,
            Err(ScrapeError::TorrentMissing(id)) => r == FollowUp::Backlog(*id),
            Err(ScrapeError::TorrentDeleted(id)) => r == FollowUp::MarkDeleted(*id),
            Err(_) => r == FollowUp::Fail,
        },
{
    match result {
        Ok(_) => FollowUp::Continue,
        Err(ScrapeError::TorrentMissing(id)) => FollowUp::Backlog(*id),
        Err(ScrapeError::TorrentDeleted(id)) => FollowUp::MarkDeleted(*id),
        Err(_) => FollowUp::Fail,
    }
}

/// Whether a listing scrape looks wrong: rows were found, none of them was
/// new, and torrent pages were not scraped.
pub fn listing_suspicious(new_torrents: usize, deep: bool, rows: usize) -> (r: bool)
    ensures
        r == (new_torrents == 0 && !deep && rows != 0),
{
    new_torrents == 0 && !deep && rows != 0
}

/// The ids from `newest` down to `oldest`, the order in which gaps in the
/// archive are filled.
pub fn backlog_candidates(oldest: i32, newest: i32) -> (r: Vec<usize>)
    ensures
        r@.len() == (if oldest <= newest { newest - oldest + 1 } else { 0 }),
        forall|k: int| 0 <= k < r@.len() ==> #[trigger] r@[k] == ((newest - k) as i32) as usize,
{
    let mut r: Vec<usize> = Vec::new();
    if oldest > newest {
        return r;
    }
    let mut id: i64 = newest as i64;
    while id >= oldest as i64
        invariant
            oldest <= newest,
            oldest - 1 <= id <= newest,
            r@.len() == newest - id,
            forall|k: int| 0 <= k < r@.len() ==> #[trigger] r@[k] == ((newest - k) as i32) as usize,
        decreases id - oldest + 1,
    {
        let n: i32 = id as i32;
        r.push(n as usize);
        id = id - 1;
    }
    r
}

} // verus!
