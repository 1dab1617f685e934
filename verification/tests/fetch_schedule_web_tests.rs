use std::io::Write;
use tracker_lib::fetch::{decode_response, file_error, is_gzip, page_error, request_delay_ms, response_action, torrent_file_info, ResponseAction};
use tracker_lib::models::Torrent;
use tracker_lib::schedule::next_update_algo;
use tracker_lib::scrape::ScrapeError;
use tracker_lib::web::{
    category_filter, header_classes, next_order, page_count, page_number, page_offset, row_class,
    torrent_row, CategoryFilter, Order, ServerError, Sort,
};

#[test]
fn pacing() {
    assert_eq!(request_delay_ms(1200), Some(3800));
    assert_eq!(request_delay_ms(5000), None);
    assert_eq!(request_delay_ms(0), Some(5000));
}

#[test]
fn statuses() {
    assert_eq!(response_action(200), ResponseAction::Read);
    assert_eq!(response_action(204), ResponseAction::Read);
    assert_eq!(response_action(429), ResponseAction::Retry);
    assert_eq!(response_action(504), ResponseAction::Retry);
    assert_eq!(response_action(404), ResponseAction::Fail);
    assert!(is_gzip(Some("gzip")));
    assert!(!is_gzip(Some("br")));
    assert!(!is_gzip(None));
}

#[test]
fn bodies() {
    let mut enc = flate2::write::GzEncoder::new(Vec::new(), flate2::Compression::default());
    enc.write_all(b"hello").unwrap();
    let gz = enc.finish().unwrap();
    assert_eq!(decode_response(gz, true, true, "u", 200).unwrap(), b"hello".to_vec());
    assert!(matches!(decode_response(b"nope".to_vec(), true, false, "u", 200), Err(ScrapeError::Gzip(_))));
    match decode_response(vec![0xff, 0xfe], false, true, "u", 200) {
        Err(ScrapeError::BadResponse(u, s)) => assert_eq!((u.as_str(), s), ("u", 200)),
        other => panic!("{other:?}"),
    }
    assert_eq!(decode_response(vec![0xff], false, false, "u", 200).unwrap(), vec![0xff]);
}

#[test]
fn not_found_errors() {
    assert!(matches!(page_error(ScrapeError::Response("u".to_string(), 404), 3), ScrapeError::TorrentDeleted(3)));
    assert!(matches!(page_error(ScrapeError::Response("u".to_string(), 500), 3), ScrapeError::Response(_, 500)));
    assert!(matches!(file_error(ScrapeError::Response("u".to_string(), 404), 3), ScrapeError::TorrentMissing(3)));
}

#[test]
fn torrent_files() {
    let mut bytes: Vec<u8> = b"d4:infod6:lengthi12e4:name4:test12:piece lengthi16384e6:pieces20:".to_vec();
    bytes.extend_from_slice(&[0xffu8; 20]);
    bytes.extend_from_slice(b"ee");
    let (hash, size) = torrent_file_info("./torrents/1.torrent", &bytes).unwrap();
    assert_eq!(size, 12);
    assert_eq!(hash.len(), 40);
    match torrent_file_info("p", b"garbage") {
        Err(ScrapeError::LavaTorrent(p, _)) => assert_eq!(p, "p"),
        other => panic!("{other:?}"),
    }
}

#[test]
fn schedule() {
    let now = 1_000_000_000i64;
    assert_eq!(next_update_algo(false, true, 0, None, now, 0), (now + 3600, 60));
    assert_eq!(next_update_algo(true, true, now - 7200, None, now, 0), (now + 7200, 120));
    assert_eq!(next_update_algo(true, true, now, None, now, 0), (now + 3600, 60));
    assert_eq!(next_update_algo(false, false, 0, Some(30), now, 0), (now + 3600, 60));
    assert_eq!(next_update_algo(false, false, 0, None, now, 0), (now + 7200, 120));
    assert_eq!(next_update_algo(true, true, now - 40_000_000, None, now, 0), (now + 31_536_000, 525_600));
    assert_eq!(next_update_algo(true, true, now - 100, None, now, 600_000_000), (now + 101, 1));
    assert_eq!(next_update_algo(false, false, 0, Some(0), now, 0), (now + 3600, 60));
}

#[test]
fn web_rules() {
    assert_eq!(category_filter(0), CategoryFilter::Any);
    assert_eq!(category_filter(10), CategoryFilter::Between(10, 20));
    assert_eq!(category_filter(12), CategoryFilter::Exact(12));
    assert_eq!(page_number(None).unwrap(), 1);
    assert_eq!(page_number(Some("rss")).unwrap(), 1);
    assert_eq!(page_number(Some("3")).unwrap(), 3);
    match page_number(Some("x")) {
        Err(ServerError::InvalidParam(m)) => assert_eq!(m, "page param not a number"),
        other => panic!("{other:?}"),
    }
    assert_eq!(page_offset(3), 150);
    assert_eq!(page_offset(i64::MIN), i64::MIN.wrapping_sub(1).wrapping_mul(75));
    assert_eq!(page_count(0), 0);
    assert_eq!(page_count(75), 1);
    assert_eq!(page_count(76), 2);
    assert_eq!(row_class(true, true), "danger");
    assert_eq!(row_class(false, true), "success");
    assert_eq!(row_class(false, false), "default");
    assert_eq!(header_classes(Sort::Date, Order::Descending, "hdr", Some(Sort::Date), true), "hdr sorting_desc text-center");
    assert_eq!(header_classes(Sort::Date, Order::Ascending, "hdr", Some(Sort::Size), false), "hdr sorting");
    assert_eq!(header_classes(Sort::Date, Order::Ascending, "hdr", None, false), "hdr");
    assert_eq!(next_order(Sort::Size, Order::Descending, Sort::Size), "asc");
    assert_eq!(next_order(Sort::Size, Order::Ascending, Sort::Date), "desc");
    assert_eq!(Order::Ascending.flip(), Order::Descending);
    assert_eq!(Order::default().nick(), "desc");
    assert_eq!(ServerError::Diesel("x".to_string()).status_code(), 500);
}

#[test]
fn result_rows() {
    let t = Torrent {
        id: 5,
        info_hash: "abcd".to_string(),
        seeders: 1,
        leechers: 2,
        completed: 3,
        title: "T".to_string(),
        category: 12,
        submitter: None,
        information: None,
        size: 2048,
        date: 0,
        description: None,
        comments: 4,
        remake: false,
        trusted: true,
        partial: false,
        anonymous: true,
        deleted: false,
        hidden: false,
        next_update: None,
        update_count: 0,
        update_frequency: None,
    };
    let row = torrent_row(&t, true, "2.0 KiB".to_string()).unwrap();
    assert_eq!(row.time, "1970-01-01 00:00");
    assert_eq!(row.torrent.as_deref(), Some("/download/5.torrent"));
    assert!(row.magnet.as_deref().unwrap().starts_with("magnet:?"));
    assert!(row.magnet.as_deref().unwrap().contains("abcd"));
    assert_eq!((row.seeders, row.leechers, row.completed, row.comments), (1, 2, 3, 4));
    let mut far = t.clone();
    far.date = i64::MAX;
    assert!(matches!(torrent_row(&far, false, String::new()), Err(ServerError::DateTime(5))));
}
