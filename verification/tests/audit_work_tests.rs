use tracker_lib::audit::{backfill_checked, backfill_schedule, torrent_findings, Finding};
use tracker_lib::schedule::{next_update_checked, MAX_TIMESTAMP};
use tracker_lib::models::Torrent;
use tracker_lib::scrape::ScrapeError;
use tracker_lib::work::{backlog_candidates, listing_suspicious, scrape_followup, FollowUp};

fn stored() -> Torrent {
    Torrent {
        id: 7,
        info_hash: "abc".to_string(),
        seeders: 0,
        leechers: 0,
        completed: 0,
        title: "T".to_string(),
        category: 12,
        submitter: Some("bob".to_string()),
        information: None,
        size: 100,
        date: 1_000,
        description: None,
        comments: 2,
        remake: false,
        trusted: false,
        partial: false,
        anonymous: false,
        deleted: false,
        hidden: false,
        next_update: None,
        update_count: 0,
        update_frequency: None,
    }
}

#[test]
fn clean_torrent_has_no_findings() {
    assert!(torrent_findings(&stored(), Some(("abc", 100)), 2).is_empty());
}

#[test]
fn every_finding_in_order() {
    let mut t = stored();
    t.submitter = None;
    t.information = Some("No information.".to_string());
    t.description = Some("#### No description.".to_string());
    assert_eq!(
        torrent_findings(&t, Some(("abd", 99)), 3),
        vec![
            Finding::SizeMismatch,
            Finding::HashMismatch,
            Finding::MissingSubmitter,
            Finding::PlaceholderInformation,
            Finding::PlaceholderDescription,
            Finding::CommentCountMismatch,
        ]
    );
    assert_eq!(torrent_findings(&t, None, 2)[0], Finding::MissingFile);
}

#[test]
fn anonymous_without_submitter_is_fine() {
    let mut t = stored();
    t.submitter = None;
    t.anonymous = true;
    t.information = Some("Some info".to_string());
    assert!(torrent_findings(&t, Some(("abc", 100)), 2).is_empty());
}

#[test]
fn finding_messages() {
    assert_eq!(
        Finding::MissingFile.message(7),
        "The torrent 7 does not have an actual torrent downloaded!"
    );
    assert_eq!(
        Finding::CommentCountMismatch.message(-3),
        "The torrent -3's comments field is not equal to the number of comments!"
    );
    assert_eq!(Finding::HashMismatch.message(12), "The torrent 12 has a mismatched infohash field!");
}

#[test]
fn backfill_clamps_the_age() {
    let now = 2_000_000_000i64;
    let mut t = stored();
    t.date = now - 7_200;
    assert_eq!(backfill_schedule(&t, now, 0), Some((now + 7_200, 120)));
    t.date = now - 10;
    assert_eq!(backfill_schedule(&t, now, 0), Some((now + 3_600, 60)));
    t.date = now + 500;
    assert_eq!(backfill_schedule(&t, now, 0), Some((now + 3_600, 60)));
    t.date = 0;
    assert_eq!(backfill_schedule(&t, now, 0), Some((now + 31_536_000, 525_600)));
    t.date = now - 7_200;
    assert_eq!(backfill_schedule(&t, now, 600_000_000), Some((now + 7_201, 120)));
    t.update_frequency = Some(60);
    assert_eq!(backfill_schedule(&t, now, 0), None);
    t.update_frequency = None;
    t.next_update = Some(5);
    assert_eq!(backfill_schedule(&t, now, 0), None);
}

#[test]
fn followups() {
    assert_eq!(scrape_followup(&Ok(())), FollowUp::Continue);
    assert_eq!(scrape_followup(&Err(ScrapeError::TorrentMissing(4))), FollowUp::Backlog(4));
    assert_eq!(scrape_followup(&Err(ScrapeError::TorrentDeleted(5))), FollowUp::MarkDeleted(5));
    assert_eq!(scrape_followup(&Err(ScrapeError::InfoHash(5))), FollowUp::Fail);
}

#[test]
fn listing_check() {
    assert!(listing_suspicious(0, false, 75));
    assert!(!listing_suspicious(0, true, 75));
    assert!(!listing_suspicious(1, false, 75));
    assert!(!listing_suspicious(0, false, 0));
}

#[test]
fn backlog_order() {
    assert_eq!(backlog_candidates(3, 6), vec![6, 5, 4, 3]);
    assert_eq!(backlog_candidates(5, 5), vec![5]);
    assert!(backlog_candidates(6, 3).is_empty());
}

#[test]
fn backfill_checked_refuses_what_chrono_cannot_hold() {
    let now = 2_000_000_000i64;
    let mut t = stored();
    t.date = now - 7_200;
    assert_eq!(backfill_checked(&t, now, 0), Ok(Some((now + 7_200, 120))));
    t.date = i64::MAX;
    assert_eq!(backfill_checked(&t, now, 0), Err(()));
    t.date = 0;
    assert_eq!(backfill_checked(&t, MAX_TIMESTAMP - 10, 0), Err(()));
    assert_eq!(backfill_checked(&t, i64::MAX, 0), Err(()));
    t.update_frequency = Some(1);
    assert_eq!(backfill_checked(&t, now, 0), Ok(None));
}

#[test]
fn next_update_checked_refuses_what_chrono_cannot_hold() {
    let now = 2_000_000_000i64;
    assert_eq!(next_update_checked(true, true, now - 7_200, None, now, 0), Some((now + 7_200, 120)));
    assert_eq!(next_update_checked(true, true, i64::MIN, None, now, 0), None);
    assert_eq!(next_update_checked(false, true, i64::MIN, None, now, 0), Some((now + 3_600, 60)));
    assert_eq!(next_update_checked(false, true, 0, None, MAX_TIMESTAMP, 0), None);
    assert_eq!(next_update_checked(false, true, 0, None, now, 1_000_000_000), None);
}
