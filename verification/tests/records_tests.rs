use tracker_lib::models::Torrent;
use tracker_lib::records::{
    avatar_locations, comment_record, comment_user, full_torrent_record, page_url,
    partial_torrent_record, row_action, stored_comment_count, submitter_user, torrent_changed,
    torrent_download_url, torrent_file_path, update_query, RowAction,
};
use tracker_lib::scrape::{MagnetLink, ParsedComment, ParsedCommentUser, ParsedPartialTorrent, ParsedTorrent, ScrapeError};

fn parsed() -> ParsedTorrent {
    ParsedTorrent {
        title: "T".to_string(),
        category: 12,
        submitter: Some("bob".to_string()),
        info: None,
        date: 100,
        desc: None,
        remake: false,
        trusted: true,
        anonymous: false,
        hidden: false,
    }
}

fn stored() -> Torrent {
    Torrent {
        id: 5,
        info_hash: "h".to_string(),
        seeders: 0,
        leechers: 0,
        completed: 0,
        title: "T".to_string(),
        category: 12,
        submitter: Some("bob".to_string()),
        information: None,
        size: 1,
        date: 100,
        description: None,
        comments: 2,
        remake: false,
        trusted: true,
        partial: false,
        anonymous: false,
        deleted: false,
        hidden: false,
        next_update: None,
        update_count: 3,
        update_frequency: Some(60),
    }
}

#[test]
fn addresses() {
    assert_eq!(page_url(2, "&o=asc"), "https://nyaa.si/?p=2&o=asc");
    assert_eq!(torrent_download_url(7), "https://nyaa.si/download/7.torrent");
    assert_eq!(torrent_file_path(7), "./torrents/7.torrent");
    let (d, f, u) = avatar_locations("bob", "a.png");
    assert_eq!(d, "./avatars/bob/");
    assert_eq!(f, "./avatars/bob/a.png");
    assert_eq!(u, "https://nyaa.si/user/bob/a.png");
}

#[test]
fn rows() {
    assert_eq!(row_action(true, true), RowAction::Skip);
    assert_eq!(row_action(false, true), RowAction::ScrapeFull);
    assert_eq!(row_action(false, false), RowAction::InsertPartial);
}

#[test]
fn partial_records() {
    let mut t = ParsedPartialTorrent {
        id: 9,
        title: "x".to_string(),
        category: 21,
        magnet: MagnetLink { hash: Some("ab".to_string()), length: Some(10) },
        size: 10,
        date: 50,
        comments: 1,
        remake: true,
        trusted: false,
    };
    let r = partial_torrent_record(&t, 1000, 60).unwrap();
    assert_eq!(r.id, Some(9));
    assert_eq!(r.info_hash, "ab");
    assert_eq!((r.size, r.date, r.comments, r.category), (10, 50, 1, 21));
    assert!(r.partial && r.anonymous && r.remake && !r.deleted);
    assert_eq!((r.next_update, r.update_count, r.update_frequency), (Some(1000), 0, Some(60)));
    t.magnet.length = None;
    assert!(matches!(partial_torrent_record(&t, 0, 0), Err(ScrapeError::Size(9))));
    t.magnet.hash = None;
    assert!(matches!(partial_torrent_record(&t, 0, 0), Err(ScrapeError::InfoHash(9))));
}

#[test]
fn changes_and_updates() {
    let p = parsed();
    let s = stored();
    assert!(!torrent_changed(&s, &p, 2, 2));
    assert!(torrent_changed(&s, &p, 2, 3));
    let mut s2 = stored();
    s2.information = Some("i".to_string());
    assert!(torrent_changed(&s2, &p, 2, 2));
    let q = update_query(Some(&s), &p, 2, 2);
    assert!(!q.new && !q.differs);
    assert_eq!((q.date, q.update_frequency, q.update_count), (100, Some(60), 4));
    let q = update_query(None, &p, 0, 0);
    assert!(q.new && q.differs && q.update_count == 1 && q.update_frequency.is_none());
    let mut s3 = stored();
    s3.update_count = i32::MAX;
    assert_eq!(update_query(Some(&s3), &p, 2, 2).update_count, i32::MIN);
    assert_eq!(stored_comment_count(Some(&s), 7), 7);
    let mut s4 = stored();
    s4.partial = true;
    assert_eq!(stored_comment_count(Some(&s4), 7), 0);
    assert_eq!(stored_comment_count(None, 7), 0);
}

#[test]
fn full_records_and_users() {
    let p = parsed();
    let r = full_torrent_record(5, "hash".to_string(), 99, &p, 2, 500, 60, 4);
    assert_eq!(r.id, Some(5));
    assert_eq!((r.size, r.comments, r.update_count), (99, 2, 4));
    assert!(!r.partial && r.trusted);
    assert_eq!(r.submitter.as_deref(), Some("bob"));
    let u = submitter_user(&p).unwrap();
    assert!(u.nyaa && u.trusted && u.username == "bob");
    let mut anon = parsed();
    anon.submitter = None;
    assert!(submitter_user(&anon).is_none());
    let c = ParsedComment {
        comment_id: 3,
        torrent_id: 5,
        submitter: ParsedCommentUser {
            username: "al".to_string(),
            trusted: true,
            banned: false,
            admin: true,
            moderator: false,
            avatar: Some("a.png".to_string()),
        },
        date: 77,
        content: "hey".to_string(),
    };
    let u = comment_user(&c);
    assert!(u.nyaa_admin && u.trusted && !u.nyaa_mod);
    assert_eq!(u.avatar.as_deref(), Some("a.png"));
    let n = comment_record(&c);
    assert_eq!((n.id, n.torrent_id, n.date_created), (Some(3), 5, 77));
    assert_eq!(n.text, "hey");
}
