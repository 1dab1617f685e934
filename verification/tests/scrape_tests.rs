use tracker_lib::dom::{attr, parse_page, root_scope, select, select_all};
use tracker_lib::scrape::{
    comment_elements, comment_from_raw, listing_rows, parse_comment, parse_partial_torrent,
    parse_comments, parse_torrent, partial_from_raw, read_comment, read_partial_torrent, read_torrent,
    torrent_from_raw, torrent_view_url, RawComment,
    RawPartialTorrent, RawTorrent, ScrapeError,
};

const COMMENT_PAGE: &str = "<html><body><div id=\"collapse-comments\"><div class=\"panel comment-panel\">\
<div class=\"panel-body\"><div class=\"col-md-2\"><p><a class=\"text-success\" href=\"/user/alice\" title=\"Trusted\">alice</a></p>\
<img class=\"avatar\" src=\"https://i.example/u/abc.png?v=3\" alt=\"User\"></div>\
<div class=\"comment-body col-md-10\"><div class=\"row\"><a href=\"#com-1\"><small data-timestamp=\"1700000000\">2023</small></a></div>\
<div class=\"comment-content\" id=\"torrent-comment123\">Nice <b>one</b></div></div></div></div></div></body></html>";

const TORRENT_PAGE: &str = "<html><body><div class=\"panel panel-success\"><div class=\"panel-heading\"><h3 class=\"panel-title\">\n\t\t\tMy Title\n\t\t</h3></div>\
<div class=\"panel-body\">\
<div class=\"row\"><div class=\"col-md-1\">Category:</div><div class=\"col-md-5\"><a href=\"/?c=1_0\">Anime</a> - <a href=\"/?c=1_2\">English-translated</a></div><div class=\"col-md-1\">Date:</div><div class=\"col-md-5\" data-timestamp=\"1700000000\">2023</div></div>\
<div class=\"row\"><div class=\"col-md-1\">Submitter:</div><div class=\"col-md-5\"><a href=\"/user/bob\">bob\n\t </a></div></div>\
<div class=\"row\"><div class=\"col-md-1\">Information:</div><div class=\"col-md-5\">No information.</div></div>\
</div></div><div id=\"torrent-description\">#### No description.</div></body></html>";

const LISTING_PAGE: &str = "<html><body><div class=\"table-responsive\"><table><tbody>\
<tr class=\"success\"><td><a href=\"/?c=1_2\" title=\"Anime - English-translated\"><img src=\"/i/1_2.png\"></a></td>\
<td colspan=\"2\"><a href=\"/view/123#comments\" class=\"comments\" title=\"3 comments\"><i class=\"fa fa-comments-o\"></i>3</a><a href=\"/view/123\" title=\"Some Title\">Some Title</a></td>\
<td class=\"text-center\"><a href=\"/download/123.torrent\"><i class=\"fa fa-fw fa-download\"></i></a><a href=\"magnet:?xt=urn:btih:abcdef&amp;dn=x&amp;xl=1024\"><i class=\"fa fa-fw fa-magnet\"></i></a></td>\
<td class=\"text-center\">1.0 KiB</td><td class=\"text-center\" data-timestamp=\"1700000000\">2023</td></tr>\
</tbody></table></div></body></html>";

#[test]
fn view_url() {
    assert_eq!(torrent_view_url(42), "https://nyaa.si/view/42");
}

#[test]
fn select_and_attr() {
    let doc = parse_page(COMMENT_PAGE.to_string());
    let root = root_scope(&doc);
    let a = select(&root, "p>a", "u").unwrap();
    assert_eq!(attr(&a, "title").unwrap(), "Trusted");
    match attr(&a, "nope") {
        Err(ScrapeError::MissingAttribute(n)) => assert_eq!(n, "nope"),
        other => panic!("{other:?}"),
    }
    match select(&root, "table", "u") {
        Err(ScrapeError::Selector(u, s)) => {
            assert_eq!(u, "u");
            assert_eq!(s, "table");
        }
        other => panic!("{:?}", other.map(|_| ())),
    }
    match select(&root, "p>>>", "u") {
        Err(ScrapeError::BadSelector(s)) => assert_eq!(s, "p>>>"),
        other => panic!("{:?}", other.map(|_| ())),
    }
}

#[test]
fn comment_from_page() {
    let doc = parse_page(COMMENT_PAGE.to_string());
    let root = root_scope(&doc);
    let elements = comment_elements(&root).unwrap();
    assert_eq!(elements.len(), 1);
    let c = parse_comment(&elements[0], 9).unwrap();
    assert_eq!(c.comment_id, 123);
    assert_eq!(c.torrent_id, 9);
    assert_eq!(c.date, 1700000000);
    assert_eq!(c.content, "Nice <b>one</b>");
    assert_eq!(c.submitter.username, "alice");
    assert!(c.submitter.trusted && !c.submitter.banned && !c.submitter.admin && !c.submitter.moderator);
    assert_eq!(c.submitter.avatar.as_deref(), Some("abc.png"));
}

#[test]
fn comment_from_texts() {
    let raw = RawComment {
        submitter: Ok(("BANNED Moderator".to_string(), "carol".to_string())),
        avatar_src: Ok("/static/img/avatar/default.png".to_string()),
        date: Ok("17".to_string()),
        content: Ok(("hi".to_string(), "torrent-comment5".to_string())),
    };
    let c = comment_from_raw(raw, 1).unwrap();
    assert!(c.submitter.banned && c.submitter.moderator && !c.submitter.trusted);
    assert_eq!(c.submitter.avatar, None);
    assert_eq!(c.comment_id, 5);

    let raw = RawComment {
        submitter: Ok(("".to_string(), "carol".to_string())),
        avatar_src: Ok("x".to_string()),
        date: Ok("soon".to_string()),
        content: Ok(("hi".to_string(), "torrent-comment5".to_string())),
    };
    match comment_from_raw(raw, 1) {
        Err(ScrapeError::BadAttribute(n, m)) => {
            assert_eq!(n, "data-timestamp");
            assert_eq!(m, "invalid digit found in string");
        }
        other => panic!("{other:?}"),
    }
}

#[test]
fn torrent_from_page() {
    let doc = parse_page(TORRENT_PAGE.to_string());
    let root = root_scope(&doc);
    let t = parse_torrent(&root, 5).unwrap();
    assert_eq!(t.title, "My Title");
    assert_eq!(t.category, 12);
    assert_eq!(t.date, 1700000000);
    assert_eq!(t.submitter.as_deref(), Some("bob"));
    assert!(!t.anonymous);
    assert_eq!(t.info, None);
    assert_eq!(t.desc, None);
    assert!(t.trusted && !t.remake && !t.hidden);
}

#[test]
fn torrent_from_texts() {
    let raw = RawTorrent {
        heading_style: Ok(Some("background-color: darkgray;".to_string())),
        title: Ok(("T".to_string(), true, false)),
        category_href: Ok("/?c=3_1".to_string()),
        date: Ok("9".to_string()),
        submitter: None,
        information: Ok("\n\t\t\t\tirc\n\t\t\t".to_string()),
        description: Ok("desc".to_string()),
    };
    let t = torrent_from_raw(raw).unwrap();
    assert!(t.hidden && t.remake && t.anonymous);
    assert_eq!(t.category, 31);
    assert_eq!(t.info.as_deref(), Some("irc"));
    assert_eq!(t.desc.as_deref(), Some("desc"));

    let raw = RawTorrent {
        heading_style: Ok(None),
        title: Ok(("T".to_string(), false, false)),
        category_href: Ok("/?c=x".to_string()),
        date: Ok("9".to_string()),
        submitter: None,
        information: Ok("i".to_string()),
        description: Ok("d".to_string()),
    };
    match torrent_from_raw(raw) {
        Err(ScrapeError::BadAttribute(n, _)) => assert_eq!(n, "href"),
        other => panic!("{other:?}"),
    }
}

#[test]
fn listing_row_from_page() {
    let doc = parse_page(LISTING_PAGE.to_string());
    let root = root_scope(&doc);
    let rows = listing_rows(&root).unwrap();
    assert_eq!(rows.len(), 1);
    let t = parse_partial_torrent(&rows[0], "https://nyaa.si/?p=1").unwrap();
    assert_eq!(t.id, 123);
    assert_eq!(t.title, "Some Title");
    assert_eq!(t.category, 12);
    assert_eq!(t.comments, 3);
    assert_eq!(t.size, 1024);
    assert_eq!(t.date, 1700000000);
    assert!(t.trusted && !t.remake);
    assert_eq!(t.magnet.hash.as_deref(), Some("abcdef"));
    assert_eq!(t.magnet.length, Some(1024));
}

#[test]
fn listing_row_from_texts() {
    let raw = RawPartialTorrent {
        title: Ok("T".to_string()),
        magnet_href: Ok("http://not-a-magnet".to_string()),
        id_href: Ok("/view/1".to_string()),
        comments: None,
        danger: false,
        success: false,
        size_text: Ok("1 B".to_string()),
        date: Ok("1".to_string()),
        category_href: Ok("/?c=1_2".to_string()),
    };
    assert!(matches!(partial_from_raw(raw), Err(ScrapeError::MagnetError(_))));

    let raw = RawPartialTorrent {
        title: Ok("T".to_string()),
        magnet_href: Ok("magnet:?xt=urn:btih:ff".to_string()),
        id_href: Ok("/view/77".to_string()),
        comments: None,
        danger: true,
        success: false,
        size_text: Ok("2 KiB".to_string()),
        date: Ok("1".to_string()),
        category_href: Ok("/?c=6_1".to_string()),
    };
    let t = partial_from_raw(raw).unwrap();
    assert_eq!((t.id, t.comments, t.size, t.category), (77, 0, 2048, 61));
    assert!(t.remake);
    assert_eq!(t.magnet.length, None);

    let raw = RawPartialTorrent {
        title: Ok("T".to_string()),
        magnet_href: Ok("magnet:?xt=urn:btih:ff".to_string()),
        id_href: Ok("/view/77".to_string()),
        comments: None,
        danger: true,
        success: false,
        size_text: Ok("lots".to_string()),
        date: Ok("1".to_string()),
        category_href: Ok("/?c=6_1".to_string()),
    };
    match partial_from_raw(raw) {
        Err(ScrapeError::BadAttribute(n, _)) => assert_eq!(n, "textContent"),
        other => panic!("{other:?}"),
    }
}

#[test]
fn reads_from_an_empty_element_name_their_selectors() {
    let doc = parse_page("<html><body><p>nothing</p></body></html>".to_string());
    let root = root_scope(&doc);
    let row = read_partial_torrent(&root, "u");
    match row.title {
        Err(ScrapeError::Selector(u, s)) => {
            assert_eq!(u, "u");
            assert_eq!(s, "td[colspan=\"2\"]>a:not(.comments)");
        }
        other => panic!("{other:?}"),
    }
    match row.size_text {
        Err(ScrapeError::Selector(_, s)) => assert_eq!(s, ":nth-child(4)"),
        other => panic!("{other:?}"),
    }
    assert!(row.comments.is_none());
    let comment = read_comment(&root, "u");
    match comment.avatar_src {
        Err(ScrapeError::Selector(_, s)) => assert_eq!(s, ".avatar"),
        other => panic!("{other:?}"),
    }
    let page = read_torrent(&root, "u");
    match page.description {
        Err(ScrapeError::Selector(_, s)) => assert_eq!(s, "#torrent-description"),
        other => panic!("{other:?}"),
    }
    assert!(page.submitter.is_none());
    assert!(select_all(&root, "td").unwrap().is_empty());
    match select_all(&root, "p>>>") {
        Err(ScrapeError::BadSelector(s)) => assert_eq!(s, "p>>>"),
        other => panic!("{:?}", other.map(|_| ())),
    }
}

#[test]
fn failed_pages_name_the_view_address_and_selector() {
    let doc = parse_page("<p>x</p>".to_string());
    let root = root_scope(&doc);
    match parse_torrent(&root, 5) {
        Err(ScrapeError::Selector(u, s)) => {
            assert_eq!(u, "https://nyaa.si/view/5");
            assert_eq!(s, ".panel-heading");
        }
        other => panic!("{other:?}"),
    }
    match parse_comment(&root, 7) {
        Err(ScrapeError::Selector(u, s)) => {
            assert_eq!(u, "https://nyaa.si/view/7");
            assert_eq!(s, "p>a");
        }
        other => panic!("{other:?}"),
    }
    assert!(comment_elements(&root).unwrap().is_empty());
    assert!(listing_rows(&root).unwrap().is_empty());
}

#[test]
fn all_comments_of_a_page() {
    let doc = parse_page(COMMENT_PAGE.to_string());
    let root = root_scope(&doc);
    let comments = parse_comments(&root, 9).unwrap();
    assert_eq!(comments.len(), 1);
    assert_eq!(comments[0].comment_id, 123);
    assert_eq!(comments[0].submitter.username, "alice");
    let empty = parse_page("<p>x</p>".to_string());
    assert!(parse_comments(&root_scope(&empty), 9).unwrap().is_empty());
    let broken = parse_page(
        "<div id=\"collapse-comments\"><div><p>no link</p></div></div>".to_string(),
    );
    match parse_comments(&root_scope(&broken), 4) {
        Err(ScrapeError::Selector(u, s)) => {
            assert_eq!(u, "https://nyaa.si/view/4");
            assert_eq!(s, "p>a");
        }
        other => panic!("{:?}", other.map(|v| v.len())),
    }
}
