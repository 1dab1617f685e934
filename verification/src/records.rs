//! Turning what was scraped into the records that the archive stores, and
//! the addresses and paths that scraping uses.

use vstd::prelude::*;
use crate::models::{NewComment, NewTorrent, Torrent, User};
use crate::scrape::{opt_view, ParsedComment, ParsedPartialTorrent, ParsedTorrent, ScrapeError};
use crate::text::{concat, decimal, usize_to_string};

verus! {

/// The address of a page of the torrent listing, with extra query flags.
pub open spec fn page_url_spec(page: usize, flags: Seq<char>) -> Seq<char> {
    "https://nyaa.si/?p="@ + decimal(page as nat) + flags
}

/// The address of a page of the torrent listing, with extra query flags.
pub fn page_url(page: usize, flags: &str) -> (r: String)
    ensures
        r@ == page_url_spec(page, flags@),
{
    let n = usize_to_string(page);
    let head = concat("https://nyaa.si/?p=", n.as_str());
    let r = concat(head.as_str(), flags);
    r
}

/// The address of a torrent's `.torrent` file.
pub fn torrent_download_url(id: usize) -> (r: String)
    ensures
        r@ == "https://nyaa.si/download/"@ + decimal(id as nat) + ".torrent"@,
{
    let n = usize_to_string(id);
    let head = concat("https://nyaa.si/download/", n.as_str());
    concat(head.as_str(), ".torrent")
}

/// Where the archive keeps a torrent's `.torrent` file.
pub fn torrent_file_path(id: usize) -> (r: String)
    ensures
        r@ == "./torrents/"@ + decimal(id as nat) + ".torrent"@,
{
    let n = usize_to_string(id);
    let head = concat("./torrents/", n.as_str());
    concat(head.as_str(), ".torrent")
}

/// Where the archive keeps a user's avatar: the user's directory, the file,
/// and the address to download it from.
pub fn avatar_locations(username: &str, avatar: &str) -> (r: (String, String, String))
    ensures
        r.0@ == "./avatars/"@ + username@ + "/"@,
        r.1@ == "./avatars/"@ + username@ + "/"@ + avatar@,
        r.2@ == "https://nyaa.si/user/"@ + username@ + "/"@ + avatar@,
{
    let a = concat("./avatars/", username);
    let dir = concat(a.as_str(), "/");
    let file = concat(dir.as_str(), avatar);
    let b = concat("https://nyaa.si/user/", username);
    let c = concat(b.as_str(), "/");
    let url = concat(c.as_str(), avatar);
    (dir, file, url)
}

/// What to do with a row of a listing.
#[derive(Debug, Clone, Copy, PartialEq, Eq, Structural)]
pub enum RowAction {
    /// The torrent is archived already.
    Skip,
    /// Scrape the torrent's own page.
    ScrapeFull,
    /// Store what the listing shows.
    InsertPartial,
}

/// What to do with a listing row, given whether the torrent is archived and
/// whether torrent pages are to be scraped.
pub fn row_action(archived: bool, deep: bool) -> (r: RowAction)
    ensures
        r == (if archived {
            RowAction::Skip
        } else if deep {
            RowAction::ScrapeFull
        } else {
            RowAction::InsertPartial
        }),
{
    if archived {
        RowAction::Skip
    } else if deep {
        RowAction::ScrapeFull
    } else {
        RowAction::InsertPartial
    }
}

/// The record of a torrent known only from a listing row. The hash and size
/// are taken from its magnet link, which must hold them.
pub fn partial_torrent_record(t: &ParsedPartialTorrent, next_update: i64, update_frequency: i32) -> (r:
    Result<NewTorrent, ScrapeError>)
    ensures
        t.magnet.hash is None ==> (r matches Err(ScrapeError::InfoHash(i)) && i == t.id),
        t.magnet.hash is Some && t.magnet.length is None ==> (r matches Err(ScrapeError::Size(i))
            && i == t.id),
        t.magnet.hash is Some && t.magnet.length is Some ==> (r matches Ok(n) && {
            &&& n.id == Some(t.id as i32)
            &&& n.info_hash@ == t.magnet.hash->0@
            &&& n.title@ == t.title@
            &&& n.category == t.category as i32
            &&& n.submitter is None
            &&& n.information is None
            &&& n.size == t.magnet.length->0 as i64
            &&& n.date == t.date as i64
            &&& n.description is None
            &&& n.comments == t.comments as i32
            &&& n.remake == t.remake
            &&& n.trusted == t.trusted
            &&& n.anonymous
            &&& n.partial
            &&& !n.deleted
            &&& !n.hidden
            &&& n.next_update == Some(next_update)
            &&& n.update_count == 0
            &&& n.update_frequency == Some(update_frequency)
        }),
{
    let hash = match &t.magnet.hash {
        Some(h) => h.clone(),
        None => return Err(ScrapeError::InfoHash(t.id)),
    };
    let size = match t.magnet.length {
        Some(l) => l,
        None => return Err(ScrapeError::Size(t.id)),
    };
    Ok(
        NewTorrent {
            id: Some(t.id as i32),
            info_hash: hash,
            title: t.title.clone(),
            category: t.category as i32,
            submitter: None,
            information: None,
            size: size as i64,
            date: t.date as i64,
            description: None,
            comments: t.comments as i32,
            remake: t.remake,
            trusted: t.trusted,
            anonymous: true,
            partial: true,
            deleted: false,
            hidden: false,
            next_update: Some(next_update),
            update_count: 0,
            update_frequency: Some(update_frequency),
        },
    )
}

/// The user record for a torrent's submitter who is not archived yet: a
/// user of the index, trusted when the torrent is.
pub fn submitter_user(parsed: &ParsedTorrent) -> (r: Option<User>)
    ensures
        parsed.submitter is None ==> r is None,
        parsed.submitter matches Some(s) ==> (r matches Some(u) && {
            &&& u.username@ == s@
            &&& u.password is None && u.salt is None && u.email is None
            &&& u.nyaa
            &&& u.trusted == parsed.trusted
            &&& !u.banned && !u.nyaa_admin && !u.nyaa_mod
            &&& u.avatar is None
        }),
{
    match &parsed.submitter {
        None => None,
        Some(s) => Some(
            User {
                username: s.clone(),
                password: None,
                salt: None,
                email: None,
                nyaa: true,
                trusted: parsed.trusted,
                banned: false,
                nyaa_admin: false,
                nyaa_mod: false,
                avatar: None,
            },
        ),
    }
}

/// The comment count to store for a torrent: 0 for a new or partial
/// torrent, else the number of its archived comments.
pub fn stored_comment_count(existing: Option<&Torrent>, archived_comments: usize) -> (r: i32)
    ensures
        r == (match existing {
            Some(t) => if t.partial {
                0
            } else {
                archived_comments as i32
            },
            None => 0,
        }),
{
    match existing {
        Some(t) => if t.partial {
            0
        } else {
            archived_comments as i32
        },
        None => 0,
    }
}

/// Whether what a torrent page shows differs from the archived torrent.
pub open spec fn torrent_changed_spec(
    old: Torrent,
    parsed: ParsedTorrent,
    comments_num: i32,
    comments_len: usize,
) -> bool {
    ||| old.title@ != parsed.title@
    ||| old.category != parsed.category as i32
    ||| opt_view(old.information) != opt_view(parsed.info)
    ||| opt_view(old.description) != opt_view(parsed.desc)
    ||| comments_num as usize != comments_len
    ||| old.remake != parsed.remake
    ||| old.trusted != parsed.trusted
    ||| old.anonymous != parsed.anonymous
    ||| old.hidden != parsed.hidden
}

/// A rescraped torrent counts as changed whenever any compared field
/// differs from the stored one: title, category, information, description,
/// comment count, remake, trusted, anonymous or hidden; and as unchanged
/// when all of them agree.
pub proof fn lemma_torrent_changed_fields(
    old: Torrent,
    parsed: ParsedTorrent,
    comments_num: i32,
    comments_len: usize,
)
    ensures
        old.title@ != parsed.title@ ==> torrent_changed_spec(old, parsed, comments_num, comments_len),
        old.category != parsed.category as i32 ==> torrent_changed_spec(
            old,
            parsed,
            comments_num,
            comments_len,
        ),
        opt_view(old.information) != opt_view(parsed.info) ==> torrent_changed_spec(
            old,
            parsed,
            comments_num,
            comments_len,
        ),
        opt_view(old.description) != opt_view(parsed.desc) ==> torrent_changed_spec(
            old,
            parsed,
            comments_num,
            comments_len,
        ),
        comments_num as usize != comments_len ==> torrent_changed_spec(
            old,
            parsed,
            comments_num,
            comments_len,
        ),
        old.remake != parsed.remake ==> torrent_changed_spec(old, parsed, comments_num, comments_len),
        old.trusted != parsed.trusted ==> torrent_changed_spec(
            old,
            parsed,
            comments_num,
            comments_len,
        ),
        old.anonymous != parsed.anonymous ==> torrent_changed_spec(
            old,
            parsed,
            comments_num,
            comments_len,
        ),
        old.hidden != parsed.hidden ==> torrent_changed_spec(old, parsed, comments_num, comments_len),
        old.title@ == parsed.title@ && old.category == parsed.category as i32 && opt_view(
            old.information,
        ) == opt_view(parsed.info) && opt_view(old.description) == opt_view(parsed.desc)
            && comments_num as usize == comments_len && old.remake == parsed.remake && old.trusted
            == parsed.trusted && old.anonymous == parsed.anonymous && old.hidden == parsed.hidden
            ==> !torrent_changed_spec(old, parsed, comments_num, comments_len),
{
}

fn opt_str_eq(a: &Option<String>, b: &Option<String>) -> (r: bool)
    ensures
        r == (opt_view(*a) == opt_view(*b)),
{
    match (a, b) {
        (Some(x), Some(y)) => crate::text::str_eq(x.as_str(), y.as_str()),
        (None, None) => true,
        _ => false,
    }
}

/// Whether what a torrent page shows differs from the archived torrent.
pub fn torrent_changed(old: &Torrent, parsed: &ParsedTorrent, comments_num: i32, comments_len: usize) -> (r:
    bool)
    ensures
        r == torrent_changed_spec(*old, *parsed, comments_num, comments_len),
{
    !crate::text::str_eq(old.title.as_str(), parsed.title.as_str()) || old.category
        != parsed.category as i32 || !opt_str_eq(&old.information, &parsed.info) || !opt_str_eq(
        &old.description,
        &parsed.desc,
    ) || comments_num as usize != comments_len || old.remake != parsed.remake || old.trusted
        != parsed.trusted || old.anonymous != parsed.anonymous || old.hidden != parsed.hidden
}

/// What the update schedule is asked about a torrent: whether it is new,
/// whether it changed, its date, its last update frequency; and the update
/// count to store (one more than before, wrapping around as a release build
/// of the archiver does).
pub struct UpdateQuery {
    pub new: bool,
    pub differs: bool,
    pub date: i64,
    pub update_frequency: Option<i32>,
    pub update_count: i32,
}

/// What the update schedule is asked about a scraped torrent page.
pub fn update_query(old: Option<&Torrent>, parsed: &ParsedTorrent, comments_num: i32, comments_len: usize) -> (r:
    UpdateQuery)
    ensures
        r.date == parsed.date as i64,
        old is None ==> r.new && r.differs && r.update_frequency is None && r.update_count == 1,
        old matches Some(t) ==> {
            &&& !r.new
            &&& r.differs == torrent_changed_spec(*t, *parsed, comments_num, comments_len)
            &&& r.update_frequency == t.update_frequency
            &&& r.update_count == (if t.update_count == i32::MAX {
                i32::MIN
            } else {
                (t.update_count + 1) as i32
            })
        },
{
    match old {
        Some(t) => UpdateQuery {
            new: false,
            differs: torrent_changed(t, parsed, comments_num, comments_len),
            date: parsed.date as i64,
            update_frequency: t.update_frequency,
            update_count: if t.update_count == i32::MAX {
                i32::MIN
            } else {
                t.update_count + 1
            },
        },
        None => UpdateQuery {
            new: true,
            differs: true,
            date: parsed.date as i64,
            update_frequency: None,
            update_count: 1,
        },
    }
}

/// The record of a fully scraped torrent.
pub fn full_torrent_record(
    id: usize,
    info_hash: String,
    size: usize,
    parsed: &ParsedTorrent,
    comments: i32,
    next_update: i64,
    update_frequency: i32,
    update_count: i32,
) -> (r: NewTorrent)
    ensures
        r.id == Some(id as i32),
        r.info_hash == info_hash,
        r.title@ == parsed.title@,
        r.category == parsed.category as i32,
        opt_view(r.submitter) == opt_view(parsed.submitter),
        opt_view(r.information) == opt_view(parsed.info),
        r.size == size as i64,
        r.date == parsed.date as i64,
        opt_view(r.description) == opt_view(parsed.desc),
        r.comments == comments,
        r.remake == parsed.remake,
        r.trusted == parsed.trusted,
        r.anonymous == parsed.anonymous,
        !r.partial,
        !r.deleted,
        r.hidden == parsed.hidden,
        r.next_update == Some(next_update),
        r.update_count == update_count,
        r.update_frequency == Some(update_frequency),
{
    NewTorrent {
        id: Some(id as i32),
        info_hash,
        title: parsed.title.clone(),
        category: parsed.category as i32,
        submitter: clone_opt(&parsed.submitter),
        information: clone_opt(&parsed.info),
        size: size as i64,
        date: parsed.date as i64,
        description: clone_opt(&parsed.desc),
        comments,
        remake: parsed.remake,
        trusted: parsed.trusted,
        anonymous: parsed.anonymous,
        partial: false,
        deleted: false,
        hidden: parsed.hidden,
        next_update: Some(next_update),
        update_count,
        update_frequency: Some(update_frequency),
    }
}

fn clone_opt(o: &Option<String>) -> (r: Option<String>)
    ensures
        r == *o,
{
    match o {
        Some(s) => Some(s.clone()),
        None => None,
    }
}

/// The user record of a comment's writer: a user of the index with the
/// standing that the comment shows.
pub fn comment_user(c: &ParsedComment) -> (r: User)
    ensures
        r.username@ == c.submitter.username@,
        r.password is None && r.salt is None && r.email is None,
        r.nyaa,
        r.trusted == c.submitter.trusted,
        r.banned == c.submitter.banned,
        r.nyaa_admin == c.submitter.admin,
        r.nyaa_mod == c.submitter.moderator,
        r.avatar == c.submitter.avatar,
{
    User {
        username: c.submitter.username.clone(),
        password: None,
        salt: None,
        email: None,
        nyaa: true,
        trusted: c.submitter.trusted,
        banned: c.submitter.banned,
        nyaa_admin: c.submitter.admin,
        nyaa_mod: c.submitter.moderator,
        avatar: clone_opt(&c.submitter.avatar),
    }
}

/// The comment record of a scraped comment.
pub fn comment_record(c: &ParsedComment) -> (r: NewComment)
    ensures
        r.id == Some(c.comment_id as i32),
        r.torrent_id == c.torrent_id as i32,
        r.submitter@ == c.submitter.username@,
        r.date_created == c.date as i64,
        r.date_edited is None,
        r.text@ == c.content@,
{
    NewComment {
        id: Some(c.comment_id as i32),
        torrent_id: c.torrent_id as i32,
        submitter: c.submitter.username.clone(),
        date_created: c.date as i64,
        date_edited: None,
        text: c.content.clone(),
    }
}

} // verus!
