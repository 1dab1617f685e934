//! Reading the index's pages: torrent listings, torrent pages and comments,
//! and turning what they hold into records.

use vstd::prelude::*;
use crate::dom::{
    attr, attr_spec, child, css_selector_valid, dom_attr, dom_has_class, dom_has_parent,
    dom_inner_html, dom_match_count, dom_text, parent_element, scope_has_class, scope_inner_html,
    scope_text, select, select_all, select_all_spec, select_spec, Scope, ScopeV, StepV,
};
use crate::models::DatabaseError;
use crate::text::{
    after_last, after_last_exec, before_first, before_first_exec, contains_exec, contains_seq,
    int_error_message, occurs_at, parse_usize, parse_usize_spec, remove_all, remove_all_exec,
    str_eq, trim_end_exec, trim_end_spec,
};

verus! {

/// The error type of `magnet_url`.
#[verifier::external_type_specification]
#[verifier::external_body]
pub struct ExMagnetError(magnet_url::MagnetError);

/// What can go wrong while scraping. Failures of outside libraries carry
/// their messages; paths are given as text.
#[derive(Debug)]
pub enum ScrapeError {
    CreateIpcChannel(String),
    CreateRuntime(String),
    CreateTorClient(String),
    Clock(String),
    Arti(String),
    /// The request to the url failed.
    Request(String, String),
    /// The url answered with this status.
    Response(String, u16),
    /// The body of the answer from the url could not be read.
    ResponseIO(String, String),
    /// The body could not be gzip-decoded.
    Gzip(String),
    /// The body of the answer from the url (with this status) was not UTF-8.
    BadResponse(String, u16),
    /// The torrent file at the path could not be read as a torrent.
    LavaTorrent(String, String),
    /// The magnet link could not be parsed.
    MagnetError(magnet_url::MagnetError),
    TorrentDeleted(usize),
    TorrentMissing(usize),
    /// The selector had no match on the page at the url.
    Selector(String, String),
    /// The attribute is missing.
    MissingAttribute(String),
    /// The attribute (or text) could not be read, with the reason.
    BadAttribute(String, String),
    Database(DatabaseError),
    CreateFile(String, String),
    CreateDirectory(String, String),
    WriteFile(String, String),
    OpenFile(String, String),
    InfoHash(usize),
    Size(usize),
    AvatarUrl(String),
    /// The text is not a CSS selector.
    BadSelector(String),
    /// The element that the selector found has no element grandparent.
    MissingParent(String),
}

/// The mathematical model of a [`ScrapeError`].
pub enum ScrapeErrorV {
    CreateIpcChannel(Seq<char>),
    CreateRuntime(Seq<char>),
    CreateTorClient(Seq<char>),
    Clock(Seq<char>),
    Arti(Seq<char>),
    Request(Seq<char>, Seq<char>),
    Response(Seq<char>, u16),
    ResponseIO(Seq<char>, Seq<char>),
    Gzip(Seq<char>),
    BadResponse(Seq<char>, u16),
    LavaTorrent(Seq<char>, Seq<char>),
    MagnetError,
    TorrentDeleted(usize),
    TorrentMissing(usize),
    Selector(Seq<char>, Seq<char>),
    MissingAttribute(Seq<char>),
    BadAttribute(Seq<char>, Seq<char>),
    Database(DatabaseError),
    CreateFile(Seq<char>, Seq<char>),
    CreateDirectory(Seq<char>, Seq<char>),
    WriteFile(Seq<char>, Seq<char>),
    OpenFile(Seq<char>, Seq<char>),
    InfoHash(usize),
    Size(usize),
    AvatarUrl(Seq<char>),
    BadSelector(Seq<char>),
    MissingParent(Seq<char>),
}

impl View for ScrapeError {
    type V = ScrapeErrorV;

    open spec fn view(&self) -> ScrapeErrorV {
        match self {
            ScrapeError::CreateIpcChannel(a) => ScrapeErrorV::CreateIpcChannel(a@),
            ScrapeError::CreateRuntime(a) => ScrapeErrorV::CreateRuntime(a@),
            ScrapeError::CreateTorClient(a) => ScrapeErrorV::CreateTorClient(a@),
            ScrapeError::Clock(a) => ScrapeErrorV::Clock(a@),
            ScrapeError::Arti(a) => ScrapeErrorV::Arti(a@),
            ScrapeError::Request(a, b) => ScrapeErrorV::Request(a@, b@),
            ScrapeError::Response(a, b) => ScrapeErrorV::Response(a@, *b),
            ScrapeError::ResponseIO(a, b) => ScrapeErrorV::ResponseIO(a@, b@),
            ScrapeError::Gzip(a) => ScrapeErrorV::Gzip(a@),
            ScrapeError::BadResponse(a, b) => ScrapeErrorV::BadResponse(a@, *b),
            ScrapeError::LavaTorrent(a, b) => ScrapeErrorV::LavaTorrent(a@, b@),
            ScrapeError::MagnetError(_) => ScrapeErrorV::MagnetError,
            ScrapeError::TorrentDeleted(a) => ScrapeErrorV::TorrentDeleted(*a),
            ScrapeError::TorrentMissing(a) => ScrapeErrorV::TorrentMissing(*a),
            ScrapeError::Selector(a, b) => ScrapeErrorV::Selector(a@, b@),
            ScrapeError::MissingAttribute(a) => ScrapeErrorV::MissingAttribute(a@),
            ScrapeError::BadAttribute(a, b) => ScrapeErrorV::BadAttribute(a@, b@),
            ScrapeError::Database(a) => ScrapeErrorV::Database(*a),
            ScrapeError::CreateFile(a, b) => ScrapeErrorV::CreateFile(a@, b@),
            ScrapeError::CreateDirectory(a, b) => ScrapeErrorV::CreateDirectory(a@, b@),
            ScrapeError::WriteFile(a, b) => ScrapeErrorV::WriteFile(a@, b@),
            ScrapeError::OpenFile(a, b) => ScrapeErrorV::OpenFile(a@, b@),
            ScrapeError::InfoHash(a) => ScrapeErrorV::InfoHash(*a),
            ScrapeError::Size(a) => ScrapeErrorV::Size(*a),
            ScrapeError::AvatarUrl(a) => ScrapeErrorV::AvatarUrl(a@),
            ScrapeError::BadSelector(a) => ScrapeErrorV::BadSelector(a@),
            ScrapeError::MissingParent(a) => ScrapeErrorV::MissingParent(a@),
        }
    }
}

/// The model of an optional string.
pub open spec fn opt_view(o: Option<String>) -> Option<Seq<char>> {
    match o {
        Some(s) => Some(s@),
        None => None,
    }
}

/// The model of a result whose error is a [`ScrapeError`].
pub open spec fn res_view<T: View>(r: Result<T, ScrapeError>) -> Result<T::V, ScrapeErrorV> {
    match r {
        Ok(v) => Ok(v@),
        Err(e) => Err(e@),
    }
}

/// The model of a result of a string read from a page.
pub open spec fn str_res_view(r: Result<String, ScrapeError>) -> Result<Seq<char>, ScrapeErrorV> {
    match r {
        Ok(v) => Ok(v@),
        Err(e) => Err(e@),
    }
}

// ------------------------------------------------------------------
// Fields read as numbers

/// A field read as a `usize`; a failure names the field and gives the reason.
pub open spec fn usize_field(text: Seq<char>, name: Seq<char>) -> Result<usize, ScrapeErrorV> {
    match parse_usize_spec(text) {
        Ok(n) => Ok(n as usize),
        Err(k) => Err(ScrapeErrorV::BadAttribute(name, int_error_message(k))),
    }
}

/// Reads a field as a `usize`.
pub fn parse_usize_field(text: &str, name: &str) -> (r: Result<usize, ScrapeError>)
    ensures
        match usize_field(text@, name@) {
            Ok(n) => r == Ok::<usize, ScrapeError>(n),
            Err(e) => r is Err && r->Err_0@ == e,
        },
{
    match parse_usize(text) {
        Ok(n) => Ok(n),
        Err(msg) => Err(ScrapeError::BadAttribute(name.to_string(), msg)),
    }
}

/// A category number as the index writes it in a link (`/?c=1_2`).
pub open spec fn category_field(href: Seq<char>) -> Result<usize, ScrapeErrorV> {
    usize_field(remove_all(remove_all(href, "/?c="@), "_"@), "href"@)
}

fn parse_category_href(href: &str) -> (r: Result<usize, ScrapeError>)
    ensures
        match category_field(href@) {
            Ok(n) => r == Ok::<usize, ScrapeError>(n),
            Err(e) => r is Err && r->Err_0@ == e,
        },
{
    let a = remove_all_exec(href, "/?c=");
    let b = remove_all_exec(a.as_str(), "_");
    parse_usize_field(b.as_str(), "href")
}

// ------------------------------------------------------------------
// Magnet links and sizes

/// The parts of a magnet link that the archive keeps.
#[derive(Debug, Clone)]
pub struct MagnetLink {
    pub hash: Option<String>,
    pub length: Option<u64>,
}

/// The mathematical model of a [`MagnetLink`].
pub struct MagnetLinkV {
    pub hash: Option<Seq<char>>,
    pub length: Option<u64>,
}

impl View for MagnetLink {
    type V = MagnetLinkV;

    open spec fn view(&self) -> MagnetLinkV {
        MagnetLinkV { hash: opt_view(self.hash), length: self.length }
    }
}

/// The torrent hash that `magnet_url` reads from a magnet link.
pub uninterp spec fn magnet_hash(link: Seq<char>) -> Option<Seq<char>>;

/// The torrent size that `magnet_url` reads from a magnet link.
pub uninterp spec fn magnet_length(link: Seq<char>) -> Option<u64>;

/// A text that `magnet_url` accepts as a magnet link: it starts with `magnet:?`.
pub open spec fn is_magnet_link(link: Seq<char>) -> bool {
    link.len() >= 8 && link.subrange(0, 8) == "magnet:?"@
}

/// `magnet_url::Magnet::new`, then `Magnet::hash` and `Magnet::length`: the
/// link parses exactly when it starts with `magnet:?`.
#[verifier::external_body]
fn parse_magnet(link: &str) -> (r: Result<MagnetLink, magnet_url::MagnetError>)
    ensures
        r is Ok <==> is_magnet_link(link@),
        r matches Ok(m) ==> m@ == (MagnetLinkV {
            hash: magnet_hash(link@),
            length: magnet_length(link@),
        }),
{
    magnet_url::Magnet::new(link).map(
        |m| MagnetLink { hash: m.hash().map(|h| h.to_string()), length: m.length() },
    )
}

/// What `byte_unit` reads from a size text such as `1.5 GiB`: a number of
/// bytes, or the message of its parse error.
pub uninterp spec fn byte_size_parse(text: Seq<char>) -> Result<u64, Seq<char>>;

/// `str::parse::<byte_unit::Byte>` followed by `Byte::as_u64`; an error is
/// given by its message.
#[verifier::external_body]
fn parse_byte_size(text: &str) -> (r: Result<u64, String>)
    ensures
        match byte_size_parse(text@) {
            Ok(v) => r == Ok::<u64, String>(v),
            Err(m) => r is Err && r->Err_0@ == m,
        },
{
    text.parse::<byte_unit::Byte>().map(|b| b.as_u64()).map_err(|e| e.to_string())
}

// ------------------------------------------------------------------
// Torrent listings

/// A row of a torrent listing.
#[derive(Debug, Clone)]
pub struct ParsedPartialTorrent {
    pub id: usize,
    pub title: String,
    pub category: usize,
    pub magnet: MagnetLink,
    pub size: usize,
    pub date: usize,
    pub comments: usize,
    pub remake: bool,
    pub trusted: bool,
}

/// The mathematical model of a [`ParsedPartialTorrent`].
pub struct ParsedPartialTorrentV {
    pub id: usize,
    pub title: Seq<char>,
    pub category: usize,
    pub magnet: MagnetLinkV,
    pub size: usize,
    pub date: usize,
    pub comments: usize,
    pub remake: bool,
    pub trusted: bool,
}

impl View for ParsedPartialTorrent {
    type V = ParsedPartialTorrentV;

    open spec fn view(&self) -> ParsedPartialTorrentV {
        ParsedPartialTorrentV {
            id: self.id,
            title: self.title@,
            category: self.category,
            magnet: self.magnet@,
            size: self.size,
            date: self.date,
            comments: self.comments,
            remake: self.remake,
            trusted: self.trusted,
        }
    }
}

/// What a listing row shows, read in the order in which it is used. A read
/// that failed holds its error.
pub struct RawPartialTorrent {
    /// The title link's `title` attribute.
    pub title: Result<String, ScrapeError>,
    /// The magnet link's `href` attribute.
    pub magnet_href: Result<String, ScrapeError>,
    /// The title link's `href` attribute (`/view/<id>`).
    pub id_href: Result<String, ScrapeError>,
    /// The text of the comment counter, where the row has one.
    pub comments: Option<String>,
    /// The row has the class `danger` (a remake).
    pub danger: bool,
    /// The row has the class `success` (a trusted upload).
    pub success: bool,
    /// The text of the size cell.
    pub size_text: Result<String, ScrapeError>,
    /// The `data-timestamp` attribute of the date cell.
    pub date: Result<String, ScrapeError>,
    /// The category link's `href` attribute.
    pub category_href: Result<String, ScrapeError>,
}

/// The mathematical model of a [`RawPartialTorrent`].
pub struct RawPartialTorrentV {
    pub title: Result<Seq<char>, ScrapeErrorV>,
    pub magnet_href: Result<Seq<char>, ScrapeErrorV>,
    pub id_href: Result<Seq<char>, ScrapeErrorV>,
    pub comments: Option<Seq<char>>,
    pub danger: bool,
    pub success: bool,
    pub size_text: Result<Seq<char>, ScrapeErrorV>,
    pub date: Result<Seq<char>, ScrapeErrorV>,
    pub category_href: Result<Seq<char>, ScrapeErrorV>,
}

impl View for RawPartialTorrent {
    type V = RawPartialTorrentV;

    open spec fn view(&self) -> RawPartialTorrentV {
        RawPartialTorrentV {
            title: str_res_view(self.title),
            magnet_href: str_res_view(self.magnet_href),
            id_href: str_res_view(self.id_href),
            comments: opt_view(self.comments),
            danger: self.danger,
            success: self.success,
            size_text: str_res_view(self.size_text),
            date: str_res_view(self.date),
            category_href: str_res_view(self.category_href),
        }
    }
}

/// The comment count of a listing row: the counter's digits, 0 without one.
pub open spec fn comments_field(text: Option<Seq<char>>) -> Result<usize, ScrapeErrorV> {
    match text {
        Some(t) => usize_field(remove_all(remove_all(t, "\n"@), "\t"@), "textContent"@),
        None => Ok(0),
    }
}

/// The listing row that the texts read from it denote.
pub open spec fn partial_from_raw_spec(raw: RawPartialTorrentV) -> Result<
    ParsedPartialTorrentV,
    ScrapeErrorV,
> {
    match raw.title {
        Err(e) => Err(e),
        Ok(title) => match raw.magnet_href {
            Err(e) => Err(e),
            Ok(href) => if !is_magnet_link(href) {
                Err(ScrapeErrorV::MagnetError)
            } else {
                match raw.id_href {
                    Err(e) => Err(e),
                    Ok(idh) => match usize_field(remove_all(idh, "/view/"@), "href"@) {
                        Err(e) => Err(e),
                        Ok(id) => match comments_field(raw.comments) {
                            Err(e) => Err(e),
                            Ok(comments) => match raw.size_text {
                                Err(e) => Err(e),
                                Ok(st) => match byte_size_parse(st) {
                                    Err(m) => Err(ScrapeErrorV::BadAttribute("textContent"@, m)),
                                    Ok(size) => match raw.date {
                                        Err(e) => Err(e),
                                        Ok(d) => match usize_field(d, "data-timestamp"@) {
                                            Err(e) => Err(e),
                                            Ok(date) => match raw.category_href {
                                                Err(e) => Err(e),
                                                Ok(ch) => match category_field(ch) {
                                                    Err(e) => Err(e),
                                                    Ok(category) => Ok(
                                                        ParsedPartialTorrentV {
                                                            id,
                                                            title,
                                                            category,
                                                            magnet: MagnetLinkV {
                                                                hash: magnet_hash(href),
                                                                length: magnet_length(href),
                                                            },
                                                            size: size as usize,
                                                            date,
                                                            comments,
                                                            remake: raw.danger,
                                                            trusted: raw.success,
                                                        },
                                                    ),
                                                },
                                            },
                                        },
                                    },
                                },
                            },
                        },
                    },
                }
            },
        },
    }
}

/// A listing row's flags and texts come from the row itself: a remake is a
/// row with class `danger`, a trusted upload one with class `success`, the
/// title is the link's title, and the magnet fields are those of its magnet
/// link.
pub proof fn lemma_partial_fields(raw: RawPartialTorrentV)
    requires
        partial_from_raw_spec(raw) is Ok,
    ensures
        raw.title is Ok,
        raw.magnet_href is Ok,
        ({
            let p = partial_from_raw_spec(raw)->Ok_0;
            &&& p.remake == raw.danger
            &&& p.trusted == raw.success
            &&& p.title == raw.title->Ok_0
            &&& p.magnet.hash == magnet_hash(raw.magnet_href->Ok_0)
            &&& p.magnet.length == magnet_length(raw.magnet_href->Ok_0)
        }),
{
}

/// Builds a listing row from the texts read from it.
pub fn partial_from_raw(raw: RawPartialTorrent) -> (r: Result<ParsedPartialTorrent, ScrapeError>)
    ensures
        res_view(r) == partial_from_raw_spec(raw@),
{
    let title = match raw.title {
        Err(e) => return Err(e),
        Ok(t) => t,
    };
    let href = match raw.magnet_href {
        Err(e) => return Err(e),
        Ok(h) => h,
    };
    let magnet = match parse_magnet(href.as_str()) {
        Err(e) => return Err(ScrapeError::MagnetError(e)),
        Ok(m) => m,
    };
    let id_href = match raw.id_href {
        Err(e) => return Err(e),
        Ok(h) => h,
    };
    let id_text = remove_all_exec(id_href.as_str(), "/view/");
    let id = match parse_usize_field(id_text.as_str(), "href") {
        Err(e) => return Err(e),
        Ok(n) => n,
    };
    let comments = match &raw.comments {
        Some(t) => {
            let a = remove_all_exec(t.as_str(), "\n");
            let b = remove_all_exec(a.as_str(), "\t");
            match parse_usize_field(b.as_str(), "textContent") {
                Err(e) => return Err(e),
                Ok(n) => n,
            }
        },
        None => 0,
    };
    let size_text = match raw.size_text {
        Err(e) => return Err(e),
        Ok(s) => s,
    };
    let size = match parse_byte_size(size_text.as_str()) {
        Err(m) => return Err(ScrapeError::BadAttribute("textContent".to_string(), m)),
        Ok(v) => v,
    };
    let date_text = match raw.date {
        Err(e) => return Err(e),
        Ok(d) => d,
    };
    let date = match parse_usize_field(date_text.as_str(), "data-timestamp") {
        Err(e) => return Err(e),
        Ok(n) => n,
    };
    let category_href = match raw.category_href {
        Err(e) => return Err(e),
        Ok(c) => c,
    };
    let category = match parse_category_href(category_href.as_str()) {
        Err(e) => return Err(e),
        Ok(n) => n,
    };
    Ok(
        ParsedPartialTorrent {
            id,
            title,
            category,
            magnet,
            size: size as usize,
            date,
            comments,
            remake: raw.danger,
            trusted: raw.success,
        },
    )
}

/// What `select` then `attr` give: the attribute of the first match.
pub open spec fn select_attr_spec(s: ScopeV, selector: Seq<char>, url: Seq<char>, name: Seq<char>) -> Result<
    Seq<char>,
    ScrapeErrorV,
> {
    match select_spec(s, selector, url) {
        Ok(c) => attr_spec(c, name),
        Err(e) => Err(e),
    }
}

/// What `select` then the text of the match give.
pub open spec fn select_text_spec(s: ScopeV, selector: Seq<char>, url: Seq<char>) -> Result<
    Seq<char>,
    ScrapeErrorV,
> {
    match select_spec(s, selector, url) {
        Ok(c) => Ok(dom_text(c.html, c.path)),
        Err(e) => Err(e),
    }
}

/// The texts that a listing row at `s` shows, on the page at `url`.
pub open spec fn raw_partial_spec(s: ScopeV, url: Seq<char>) -> RawPartialTorrentV {
    RawPartialTorrentV {
        title: select_attr_spec(s, "td[colspan=\"2\"]>a:not(.comments)"@, url, "title"@),
        magnet_href: select_attr_spec(s, "a:has(i.fa-magnet)"@, url, "href"@),
        id_href: select_attr_spec(s, "td[colspan=\"2\"]>a:not(.comments)"@, url, "href"@),
        comments: match select_text_spec(s, ".comments"@, url) {
            Ok(t) => Some(t),
            Err(_) => None,
        },
        danger: dom_has_class(s.html, s.path, "danger"@),
        success: dom_has_class(s.html, s.path, "success"@),
        size_text: select_text_spec(s, ":nth-child(4)"@, url),
        date: select_attr_spec(s, "td[data-timestamp]"@, url, "data-timestamp"@),
        category_href: select_attr_spec(s, "td>a:has(img)"@, url, "href"@),
    }
}

/// The attribute `name` of the first match of `selector`.
fn select_attr(element: &Scope, selector: &str, url: &str, name: &str) -> (r: Result<
    String,
    ScrapeError,
>)
    ensures
        str_res_view(r) == select_attr_spec(element@, selector@, url@, name@),
{
    match select(element, selector, url) {
        Ok(e) => attr(&e, name),
        Err(e) => Err(e),
    }
}

/// The text of the first match of `selector`.
fn select_text(element: &Scope, selector: &str, url: &str) -> (r: Result<String, ScrapeError>)
    ensures
        str_res_view(r) == select_text_spec(element@, selector@, url@),
{
    match select(element, selector, url) {
        Ok(e) => Ok(scope_text(&e)),
        Err(e) => Err(e),
    }
}

/// Reads the texts of a listing row.
pub fn read_partial_torrent(torrent: &Scope, url: &str) -> (r: RawPartialTorrent)
    ensures
        r@ == raw_partial_spec(torrent@, url@),
{
    let title = select_attr(torrent, "td[colspan=\"2\"]>a:not(.comments)", url, "title");
    let magnet_href = select_attr(torrent, "a:has(i.fa-magnet)", url, "href");
    let id_href = select_attr(torrent, "td[colspan=\"2\"]>a:not(.comments)", url, "href");
    let comments = match select_text(torrent, ".comments", url) {
        Ok(t) => Some(t),
        Err(_) => None,
    };
    let size_text = select_text(torrent, ":nth-child(4)", url);
    let date = select_attr(torrent, "td[data-timestamp]", url, "data-timestamp");
    let category_href = select_attr(torrent, "td>a:has(img)", url, "href");
    RawPartialTorrent {
        title,
        magnet_href,
        id_href,
        comments,
        danger: scope_has_class(torrent, "danger"),
        success: scope_has_class(torrent, "success"),
        size_text,
        date,
        category_href,
    }
}

/// Parses a row of a torrent listing on the page at `url`.
pub fn parse_partial_torrent(torrent: &Scope, url: &str) -> (r: Result<
    ParsedPartialTorrent,
    ScrapeError,
>)
    ensures
        res_view(r) == partial_from_raw_spec(raw_partial_spec(torrent@, url@)),
{
    let raw = read_partial_torrent(torrent, url);
    partial_from_raw(raw)
}

/// The rows of a torrent listing page.
pub fn listing_rows<'a>(page: &Scope<'a>) -> (r: Result<Vec<Scope<'a>>, ScrapeError>)
    ensures
        select_all_spec(r, page@, ".table-responsive>table>tbody>tr"@),
{
    select_all(page, ".table-responsive>table>tbody>tr")
}


// ------------------------------------------------------------------
// Comments

/// The user who wrote a comment, as the comment shows them.
#[derive(Debug, Clone)]
pub struct ParsedCommentUser {
    pub username: String,
    pub trusted: bool,
    pub banned: bool,
    pub admin: bool,
    pub moderator: bool,
    pub avatar: Option<String>,
}

/// A comment on a torrent page.
#[derive(Debug, Clone)]
pub struct ParsedComment {
    pub comment_id: usize,
    pub torrent_id: usize,
    pub submitter: ParsedCommentUser,
    pub date: usize,
    pub content: String,
}

/// The mathematical model of a [`ParsedCommentUser`].
pub struct ParsedCommentUserV {
    pub username: Seq<char>,
    pub trusted: bool,
    pub banned: bool,
    pub admin: bool,
    pub moderator: bool,
    pub avatar: Option<Seq<char>>,
}

/// The mathematical model of a [`ParsedComment`].
pub struct ParsedCommentV {
    pub comment_id: usize,
    pub torrent_id: usize,
    pub submitter: ParsedCommentUserV,
    pub date: usize,
    pub content: Seq<char>,
}

impl View for ParsedCommentUser {
    type V = ParsedCommentUserV;

    open spec fn view(&self) -> ParsedCommentUserV {
        ParsedCommentUserV {
            username: self.username@,
            trusted: self.trusted,
            banned: self.banned,
            admin: self.admin,
            moderator: self.moderator,
            avatar: opt_view(self.avatar),
        }
    }
}

impl View for ParsedComment {
    type V = ParsedCommentV;

    open spec fn view(&self) -> ParsedCommentV {
        ParsedCommentV {
            comment_id: self.comment_id,
            torrent_id: self.torrent_id,
            submitter: self.submitter@,
            date: self.date,
            content: self.content@,
        }
    }
}

/// What a comment shows, read in the order in which it is used.
pub struct RawComment {
    /// The user link's `title` attribute and text.
    pub submitter: Result<(String, String), ScrapeError>,
    /// The avatar's `src` attribute.
    pub avatar_src: Result<String, ScrapeError>,
    /// The `data-timestamp` attribute of the date.
    pub date: Result<String, ScrapeError>,
    /// The comment body's inner HTML and `id` attribute.
    pub content: Result<(String, String), ScrapeError>,
}

/// The mathematical model of a [`RawComment`].
pub struct RawCommentV {
    pub submitter: Result<(Seq<char>, Seq<char>), ScrapeErrorV>,
    pub avatar_src: Result<Seq<char>, ScrapeErrorV>,
    pub date: Result<Seq<char>, ScrapeErrorV>,
    pub content: Result<(Seq<char>, Seq<char>), ScrapeErrorV>,
}

/// The model of a result of two strings read from a page.
pub open spec fn pair_res_view(r: Result<(String, String), ScrapeError>) -> Result<
    (Seq<char>, Seq<char>),
    ScrapeErrorV,
> {
    match r {
        Ok((a, b)) => Ok((a@, b@)),
        Err(e) => Err(e@),
    }
}

impl View for RawComment {
    type V = RawCommentV;

    open spec fn view(&self) -> RawCommentV {
        RawCommentV {
            submitter: pair_res_view(self.submitter),
            avatar_src: str_res_view(self.avatar_src),
            date: str_res_view(self.date),
            content: pair_res_view(self.content),
        }
    }
}

/// The avatar file that a comment shows: none for the default avatar, else
/// the last segment of its path, without the query string.
pub open spec fn avatar_file(src: Seq<char>) -> Option<Seq<char>> {
    if src == "/static/img/avatar/default.png"@ {
        None
    } else {
        Some(before_first(after_last(src, '/'), '?'))
    }
}

/// The comment that the texts read from it denote, on torrent `id`.
pub open spec fn comment_from_raw_spec(raw: RawCommentV, id: usize) -> Result<
    ParsedCommentV,
    ScrapeErrorV,
> {
    match raw.submitter {
        Err(e) => Err(e),
        Ok((title, name)) => match raw.avatar_src {
            Err(e) => Err(e),
            Ok(src) => match raw.date {
                Err(e) => Err(e),
                Ok(d) => match usize_field(d, "data-timestamp"@) {
                    Err(e) => Err(e),
                    Ok(date) => match raw.content {
                        Err(e) => Err(e),
                        Ok((html, id_attr)) => match usize_field(
                            remove_all(id_attr, "torrent-comment"@),
                            "torrent-comment"@,
                        ) {
                            Err(e) => Err(e),
                            Ok(comment_id) => Ok(
                                ParsedCommentV {
                                    comment_id,
                                    torrent_id: id,
                                    submitter: ParsedCommentUserV {
                                        username: name,
                                        trusted: contains_seq(title, "Trusted"@),
                                        banned: contains_seq(title, "BANNED"@),
                                        admin: contains_seq(title, "Administrator"@),
                                        moderator: contains_seq(title, "Moderator"@),
                                        avatar: avatar_file(src),
                                    },
                                    date,
                                    content: html,
                                },
                            ),
                        },
                    },
                },
            },
        },
    }
}

/// A parsed comment's writer is who its user link names: the link's text is
/// the username, and each standing holds exactly when the link's title
/// contains its word (`Trusted`, `BANNED`, `Administrator`, `Moderator`);
/// the avatar is absent exactly for the default image; the comment belongs
/// to the torrent it was read for.
pub proof fn lemma_comment_submitter_from_title(raw: RawCommentV, id: usize)
    requires
        comment_from_raw_spec(raw, id) is Ok,
    ensures
        raw.submitter is Ok,
        raw.avatar_src is Ok,
        ({
            let title = raw.submitter->Ok_0.0;
            let name = raw.submitter->Ok_0.1;
            let c = comment_from_raw_spec(raw, id)->Ok_0;
            &&& c.torrent_id == id
            &&& c.submitter.username == name
            &&& c.submitter.trusted <==> exists|i: int| occurs_at(title, "Trusted"@, i)
            &&& c.submitter.banned <==> exists|i: int| occurs_at(title, "BANNED"@, i)
            &&& c.submitter.admin <==> exists|i: int| occurs_at(title, "Administrator"@, i)
            &&& c.submitter.moderator <==> exists|i: int| occurs_at(title, "Moderator"@, i)
            &&& c.submitter.avatar is None <==> raw.avatar_src->Ok_0
                == "/static/img/avatar/default.png"@
        }),
{
}

/// Builds a comment from the texts read from it.
pub fn comment_from_raw(raw: RawComment, id: usize) -> (r: Result<ParsedComment, ScrapeError>)
    ensures
        res_view(r) == comment_from_raw_spec(raw@, id),
{
    let (title, name) = match raw.submitter {
        Err(e) => return Err(e),
        Ok(p) => p,
    };
    let src = match raw.avatar_src {
        Err(e) => return Err(e),
        Ok(s) => s,
    };
    let date_text = match raw.date {
        Err(e) => return Err(e),
        Ok(d) => d,
    };
    let date = match parse_usize_field(date_text.as_str(), "data-timestamp") {
        Err(e) => return Err(e),
        Ok(n) => n,
    };
    let (html, id_attr) = match raw.content {
        Err(e) => return Err(e),
        Ok(p) => p,
    };
    let id_text = remove_all_exec(id_attr.as_str(), "torrent-comment");
    let comment_id = match parse_usize_field(id_text.as_str(), "torrent-comment") {
        Err(e) => return Err(e),
        Ok(n) => n,
    };
    let avatar = if str_eq(src.as_str(), "/static/img/avatar/default.png") {
        None
    } else {
        let last = after_last_exec(src.as_str(), '/');
        Some(before_first_exec(last.as_str(), '?'))
    };
    Ok(
        ParsedComment {
            comment_id,
            torrent_id: id,
            submitter: ParsedCommentUser {
                username: name,
                trusted: contains_exec(title.as_str(), "Trusted"),
                banned: contains_exec(title.as_str(), "BANNED"),
                admin: contains_exec(title.as_str(), "Administrator"),
                moderator: contains_exec(title.as_str(), "Moderator"),
                avatar,
            },
            date,
            content: html,
        },
    )
}

/// The texts that a comment at `s` shows, on the page at `url`.
pub open spec fn raw_comment_spec(s: ScopeV, url: Seq<char>) -> RawCommentV {
    RawCommentV {
        submitter: match select_spec(s, "p>a"@, url) {
            Ok(c) => match attr_spec(c, "title"@) {
                Ok(t) => Ok((t, dom_text(c.html, c.path))),
                Err(e) => Err(e),
            },
            Err(e) => Err(e),
        },
        avatar_src: select_attr_spec(s, ".avatar"@, url, "src"@),
        date: select_attr_spec(s, "small[data-timestamp]"@, url, "data-timestamp"@),
        content: match select_spec(s, ".comment-content"@, url) {
            Ok(c) => match attr_spec(c, "id"@) {
                Ok(i) => Ok((dom_inner_html(c.html, c.path), i)),
                Err(e) => Err(e),
            },
            Err(e) => Err(e),
        },
    }
}

/// Reads the texts of a comment.
pub fn read_comment(comment: &Scope, url: &str) -> (r: RawComment)
    ensures
        r@ == raw_comment_spec(comment@, url@),
{
    let submitter = match select(comment, "p>a", url) {
        Ok(e) => match attr(&e, "title") {
            Ok(title) => Ok((title, scope_text(&e))),
            Err(err) => Err(err),
        },
        Err(e) => Err(e),
    };
    let avatar_src = select_attr(comment, ".avatar", url, "src");
    let date = select_attr(comment, "small[data-timestamp]", url, "data-timestamp");
    let content = match select(comment, ".comment-content", url) {
        Ok(e) => {
            let html = scope_inner_html(&e);
            match attr(&e, "id") {
                Ok(id_attr) => Ok((html, id_attr)),
                Err(err) => Err(err),
            }
        },
        Err(e) => Err(e),
    };
    RawComment { submitter, avatar_src, date, content }
}

/// The address of a torrent's page.
pub open spec fn torrent_view_url_spec(id: usize) -> Seq<char> {
    "https://nyaa.si/view/"@ + crate::text::decimal(id as nat)
}

/// The address of a torrent's page.
pub fn torrent_view_url(id: usize) -> (r: String)
    ensures
        r@ == torrent_view_url_spec(id),
{
    let n = crate::text::usize_to_string(id);
    crate::text::concat("https://nyaa.si/view/", n.as_str())
}

/// Parses a comment of torrent `id`, read on the torrent's page.
pub fn parse_comment(comment: &Scope, id: usize) -> (r: Result<ParsedComment, ScrapeError>)
    ensures
        res_view(r) == comment_from_raw_spec(
            raw_comment_spec(comment@, torrent_view_url_spec(id)),
            id,
        ),
{
    let url = torrent_view_url(id);
    let raw = read_comment(comment, url.as_str());
    comment_from_raw(raw, id)
}

/// The comments of a torrent page.
pub fn comment_elements<'a>(page: &Scope<'a>) -> (r: Result<Vec<Scope<'a>>, ScrapeError>)
    ensures
        select_all_spec(r, page@, "#collapse-comments>div"@),
{
    select_all(page, "#collapse-comments>div")
}

/// The comments of torrent `id` at the addresses `cs`, in order; the first
/// one that cannot be parsed gives its error.
pub open spec fn comments_spec(cs: Seq<ScopeV>, id: usize) -> Result<Seq<ParsedCommentV>, ScrapeErrorV>
    decreases cs.len(),
{
    if cs.len() == 0 {
        Ok(Seq::empty())
    } else {
        match comments_spec(cs.drop_last(), id) {
            Err(e) => Err(e),
            Ok(v) => match comment_from_raw_spec(
                raw_comment_spec(cs.last(), torrent_view_url_spec(id)),
                id,
            ) {
                Ok(c) => Ok(v.push(c)),
                Err(e) => Err(e),
            },
        }
    }
}

/// The addresses of the comments on a torrent page with root `page`.
pub open spec fn comment_scopes(page: ScopeV) -> Seq<ScopeV> {
    Seq::new(
        dom_match_count(page.html, page.path, "#collapse-comments>div"@),
        |i: int| child(page, StepV::Select("#collapse-comments>div"@, i as nat)),
    )
}

/// The comments of torrent `id` on its page with root `page`.
pub open spec fn page_comments_spec(page: ScopeV, id: usize) -> Result<
    Seq<ParsedCommentV>,
    ScrapeErrorV,
> {
    if !css_selector_valid("#collapse-comments>div"@) {
        Err(ScrapeErrorV::BadSelector("#collapse-comments>div"@))
    } else {
        comments_spec(comment_scopes(page), id)
    }
}

/// Parses every comment of torrent `id` on its page with root `page`, in
/// order; the first that cannot be parsed gives its error.
pub fn parse_comments(page: &Scope, id: usize) -> (r: Result<Vec<ParsedComment>, ScrapeError>)
    ensures
        match r {
            Ok(v) => page_comments_spec(page@, id) == Ok::<Seq<ParsedCommentV>, ScrapeErrorV>(
                v@.map_values(|c: ParsedComment| c@),
            ),
            Err(e) => page_comments_spec(page@, id) == Err::<Seq<ParsedCommentV>, ScrapeErrorV>(
                e@,
            ),
        },
{
    let elements = match comment_elements(page) {
        Ok(v) => v,
        Err(e) => return Err(e),
    };
    let ghost scopes = elements@.map_values(|s: Scope| s@);
    assert(scopes =~= comment_scopes(page@));
    let mut out: Vec<ParsedComment> = Vec::new();
    let mut i: usize = 0;
    assert(scopes.take(0) =~= Seq::<ScopeV>::empty());
    assert(out@.map_values(|c: ParsedComment| c@) =~= Seq::<ParsedCommentV>::empty());
    while i < elements.len()
        invariant
            i <= elements@.len(),
            out@.len() == i,
            scopes == elements@.map_values(|s: Scope| s@),
            scopes == comment_scopes(page@),
            css_selector_valid("#collapse-comments>div"@),
            comments_spec(scopes.take(i as int), id) == Ok::<Seq<ParsedCommentV>, ScrapeErrorV>(
                out@.map_values(|c: ParsedComment| c@),
            ),
        decreases elements@.len() - i,
    {
        let ghost prefix = out@.map_values(|c: ParsedComment| c@);
        let ghost next = comment_from_raw_spec(
            raw_comment_spec(scopes[i as int], torrent_view_url_spec(id)),
            id,
        );
        proof {
            let t = scopes.take(i + 1);
            assert(t.drop_last() =~= scopes.take(i as int));
            assert(t.last() == scopes[i as int]);
            assert(scopes[i as int] == elements@[i as int]@);
            assert(comments_spec(t, id) == match next {
                Ok(c) => Ok::<Seq<ParsedCommentV>, ScrapeErrorV>(prefix.push(c)),
                Err(e) => Err(e),
            });
        }
        let parsed = parse_comment(&elements[i], id);
        assert(res_view(parsed) == next);
        match parsed {
            Ok(c) => {
                let ghost old_out = out@;
                out.push(c);
                assert(out@ =~= old_out.push(out@[i as int]));
                assert(out@.map_values(|c: ParsedComment| c@) =~= prefix.push(out@[i as int]@));
            },
            Err(e) => {
                proof {
                    assert(comments_spec(scopes.take(i + 1), id) == Err::<
                        Seq<ParsedCommentV>,
                        ScrapeErrorV,
                    >(e@));
                    lemma_comments_error_stays(scopes, i + 1, id);
                    assert(scopes.take(scopes.len() as int) =~= scopes);
                }
                return Err(e);
            },
        }
        i = i + 1;
    }
    assert(scopes.take(elements@.len() as int) =~= scopes);
    Ok(out)
}

/// Once a comment fails to parse, every longer prefix fails with its error.
proof fn lemma_comments_error_stays(cs: Seq<ScopeV>, k: int, id: usize)
    requires
        0 <= k <= cs.len(),
        comments_spec(cs.take(k), id) is Err,
    ensures
        comments_spec(cs, id) == comments_spec(cs.take(k), id),
    decreases cs.len() - k,
{
    if k < cs.len() {
        assert(cs.take(k + 1).drop_last() =~= cs.take(k));
        lemma_comments_error_stays(cs, k + 1, id);
    } else {
        assert(cs.take(k) =~= cs);
    }
}

// ------------------------------------------------------------------
// Torrent pages

/// What a torrent page says of the torrent.
#[derive(Debug, Clone)]
pub struct ParsedTorrent {
    pub title: String,
    pub category: usize,
    pub submitter: Option<String>,
    pub info: Option<String>,
    pub date: usize,
    pub desc: Option<String>,
    pub remake: bool,
    pub trusted: bool,
    pub anonymous: bool,
    pub hidden: bool,
}

/// The mathematical model of a [`ParsedTorrent`].
pub struct ParsedTorrentV {
    pub title: Seq<char>,
    pub category: usize,
    pub submitter: Option<Seq<char>>,
    pub info: Option<Seq<char>>,
    pub date: usize,
    pub desc: Option<Seq<char>>,
    pub remake: bool,
    pub trusted: bool,
    pub anonymous: bool,
    pub hidden: bool,
}

impl View for ParsedTorrent {
    type V = ParsedTorrentV;

    open spec fn view(&self) -> ParsedTorrentV {
        ParsedTorrentV {
            title: self.title@,
            category: self.category,
            submitter: opt_view(self.submitter),
            info: opt_view(self.info),
            date: self.date,
            desc: opt_view(self.desc),
            remake: self.remake,
            trusted: self.trusted,
            anonymous: self.anonymous,
            hidden: self.hidden,
        }
    }
}

/// What a torrent page shows, read in the order in which it is used.
pub struct RawTorrent {
    /// The heading panel's `style` attribute, where it has one.
    pub heading_style: Result<Option<String>, ScrapeError>,
    /// The title's text, and whether the panel around it has the classes
    /// `panel-danger` and `panel-success`.
    pub title: Result<(String, bool, bool), ScrapeError>,
    /// The category link's `href` attribute.
    pub category_href: Result<String, ScrapeError>,
    /// The `data-timestamp` attribute of the date.
    pub date: Result<String, ScrapeError>,
    /// The submitter link's text, where there is one.
    pub submitter: Option<String>,
    /// The text of the information field.
    pub information: Result<String, ScrapeError>,
    /// The inner HTML of the description.
    pub description: Result<String, ScrapeError>,
}

/// The mathematical model of a [`RawTorrent`].
pub struct RawTorrentV {
    pub heading_style: Result<Option<Seq<char>>, ScrapeErrorV>,
    pub title: Result<(Seq<char>, bool, bool), ScrapeErrorV>,
    pub category_href: Result<Seq<char>, ScrapeErrorV>,
    pub date: Result<Seq<char>, ScrapeErrorV>,
    pub submitter: Option<Seq<char>>,
    pub information: Result<Seq<char>, ScrapeErrorV>,
    pub description: Result<Seq<char>, ScrapeErrorV>,
}

impl View for RawTorrent {
    type V = RawTorrentV;

    open spec fn view(&self) -> RawTorrentV {
        RawTorrentV {
            heading_style: match self.heading_style {
                Ok(s) => Ok(opt_view(s)),
                Err(e) => Err(e@),
            },
            title: match self.title {
                Ok((t, d, s)) => Ok((t@, d, s)),
                Err(e) => Err(e@),
            },
            category_href: str_res_view(self.category_href),
            date: str_res_view(self.date),
            submitter: opt_view(self.submitter),
            information: str_res_view(self.information),
            description: str_res_view(self.description),
        }
    }
}

/// The title as the page shows it, without the markup's line breaks and tabs.
pub open spec fn clean_title(t: Seq<char>) -> Seq<char> {
    remove_all(remove_all(t, "\n\t\t\t"@), "\n\t\t"@)
}

/// The information field, without the markup's line breaks and tabs.
pub open spec fn clean_information(t: Seq<char>) -> Seq<char> {
    remove_all(remove_all(t, "\n\t\t\t\t"@), "\n\t\t\t"@)
}

/// The submitter's name, without line breaks, tabs and trailing whitespace.
pub open spec fn clean_submitter(t: Seq<char>) -> Seq<char> {
    trim_end_spec(remove_all(remove_all(t, "\n"@), "\t"@))
}

/// The torrent that the texts read from its page denote.
pub open spec fn torrent_from_raw_spec(raw: RawTorrentV) -> Result<ParsedTorrentV, ScrapeErrorV> {
    match raw.heading_style {
        Err(e) => Err(e),
        Ok(style) => match raw.title {
            Err(e) => Err(e),
            Ok((title, danger, success)) => match raw.category_href {
                Err(e) => Err(e),
                Ok(ch) => match category_field(ch) {
                    Err(e) => Err(e),
                    Ok(category) => match raw.date {
                        Err(e) => Err(e),
                        Ok(d) => match usize_field(d, "data-timestamp"@) {
                            Err(e) => Err(e),
                            Ok(date) => match raw.information {
                                Err(e) => Err(e),
                                Ok(info) => match raw.description {
                                    Err(e) => Err(e),
                                    Ok(desc) => {
                                        let submitter = match raw.submitter {
                                            Some(s) => Some(clean_submitter(s)),
                                            None => None,
                                        };
                                        let info = clean_information(info);
                                        Ok(
                                            ParsedTorrentV {
                                                title: clean_title(title),
                                                category,
                                                submitter,
                                                info: if info == "No information."@ {
                                                    None
                                                } else {
                                                    Some(info)
                                                },
                                                date,
                                                desc: if desc == "#### No description."@ {
                                                    None
                                                } else {
                                                    Some(desc)
                                                },
                                                remake: danger,
                                                trusted: success,
                                                anonymous: submitter is None,
                                                hidden: match style {
                                                    Some(s) => contains_seq(
                                                        s,
                                                        "background-color: darkgray"@,
                                                    ),
                                                    None => false,
                                                },
                                            },
                                        )
                                    },
                                },
                            },
                        },
                    },
                },
            },
        },
    }
}

/// A torrent page's flags come from the page itself: a remake has a panel
/// with class `panel-danger`, a trusted upload one with `panel-success`, an
/// anonymous upload has no submitter link, a hidden one a dark-gray heading;
/// information and description are absent exactly when the page shows the
/// placeholder texts.
pub proof fn lemma_torrent_fields(raw: RawTorrentV)
    requires
        torrent_from_raw_spec(raw) is Ok,
    ensures
        raw.title is Ok,
        raw.heading_style is Ok,
        raw.information is Ok,
        raw.description is Ok,
        ({
            let p = torrent_from_raw_spec(raw)->Ok_0;
            &&& p.remake == raw.title->Ok_0.1
            &&& p.trusted == raw.title->Ok_0.2
            &&& p.anonymous <==> raw.submitter is None
            &&& p.hidden <==> (raw.heading_style->Ok_0 matches Some(style) && exists|i: int|
                occurs_at(style, "background-color: darkgray"@, i))
            &&& p.info is None <==> clean_information(raw.information->Ok_0) == "No information."@
            &&& p.desc is None <==> raw.description->Ok_0 == "#### No description."@
        }),
{
}

/// Builds a torrent from the texts read from its page.
pub fn torrent_from_raw(raw: RawTorrent) -> (r: Result<ParsedTorrent, ScrapeError>)
    ensures
        res_view(r) == torrent_from_raw_spec(raw@),
{
    let style = match raw.heading_style {
        Err(e) => return Err(e),
        Ok(s) => s,
    };
    let (title_text, danger, success) = match raw.title {
        Err(e) => return Err(e),
        Ok(t) => t,
    };
    let hidden = match &style {
        Some(s) => contains_exec(s.as_str(), "background-color: darkgray"),
        None => false,
    };
    let t1 = remove_all_exec(title_text.as_str(), "\n\t\t\t");
    let title = remove_all_exec(t1.as_str(), "\n\t\t");
    let category_href = match raw.category_href {
        Err(e) => return Err(e),
        Ok(c) => c,
    };
    let category = match parse_category_href(category_href.as_str()) {
        Err(e) => return Err(e),
        Ok(n) => n,
    };
    let date_text = match raw.date {
        Err(e) => return Err(e),
        Ok(d) => d,
    };
    let date = match parse_usize_field(date_text.as_str(), "data-timestamp") {
        Err(e) => return Err(e),
        Ok(n) => n,
    };
    let submitter = match &raw.submitter {
        Some(s) => {
            let a = remove_all_exec(s.as_str(), "\n");
            let b = remove_all_exec(a.as_str(), "\t");
            Some(trim_end_exec(b.as_str()))
        },
        None => None,
    };
    let anonymous = submitter.is_none();
    let info_text = match raw.information {
        Err(e) => return Err(e),
        Ok(i) => i,
    };
    let i1 = remove_all_exec(info_text.as_str(), "\n\t\t\t\t");
    let info = remove_all_exec(i1.as_str(), "\n\t\t\t");
    let info = if str_eq(info.as_str(), "No information.") {
        None
    } else {
        Some(info)
    };
    let desc = match raw.description {
        Err(e) => return Err(e),
        Ok(d) => d,
    };
    let desc = if str_eq(desc.as_str(), "#### No description.") {
        None
    } else {
        Some(desc)
    };
    Ok(
        ParsedTorrent {
            title,
            category,
            submitter,
            info,
            date,
            desc,
            remake: danger,
            trusted: success,
            anonymous,
            hidden,
        },
    )
}

/// The title, and whether the panel two levels above it has the classes
/// `panel-danger` and `panel-success`.
pub open spec fn title_panel_spec(c: ScopeV) -> Result<(Seq<char>, bool, bool), ScrapeErrorV> {
    let p = child(c, StepV::Parent);
    let g = child(p, StepV::Parent);
    if dom_has_parent(c.html, c.path) && dom_has_parent(p.html, p.path) {
        Ok(
            (
                dom_text(c.html, c.path),
                dom_has_class(g.html, g.path, "panel-danger"@),
                dom_has_class(g.html, g.path, "panel-success"@),
            ),
        )
    } else {
        Err(ScrapeErrorV::MissingParent(".panel-title"@))
    }
}

/// The texts that a torrent page with root `s` shows, at `url`.
pub open spec fn raw_torrent_spec(s: ScopeV, url: Seq<char>) -> RawTorrentV {
    RawTorrentV {
        heading_style: match select_spec(s, ".panel-heading"@, url) {
            Ok(c) => Ok(dom_attr(c.html, c.path, "style"@)),
            Err(e) => Err(e),
        },
        title: match select_spec(s, ".panel-title"@, url) {
            Ok(c) => title_panel_spec(c),
            Err(e) => Err(e),
        },
        category_href: select_attr_spec(
            s,
            ".panel-body>.row:nth-child(1)>.col-md-5:nth-child(2)>a:nth-child(2)"@,
            url,
            "href"@,
        ),
        date: select_attr_spec(s, ".col-md-5[data-timestamp]"@, url, "data-timestamp"@),
        submitter: match select_text_spec(
            s,
            ".panel-body>.row:nth-child(2)>.col-md-5:nth-child(2)>a"@,
            url,
        ) {
            Ok(t) => Some(t),
            Err(_) => None,
        },
        information: select_text_spec(
            s,
            ".panel-body>.row:nth-child(3)>.col-md-5:nth-child(2)"@,
            url,
        ),
        description: match select_spec(s, "#torrent-description"@, url) {
            Ok(c) => Ok(dom_inner_html(c.html, c.path)),
            Err(e) => Err(e),
        },
    }
}

/// Reads the texts of a torrent page.
pub fn read_torrent(dom: &Scope, url: &str) -> (r: RawTorrent)
    ensures
        r@ == raw_torrent_spec(dom@, url@),
{
    let heading_style = match select(dom, ".panel-heading", url) {
        Ok(e) => Ok(
            match attr(&e, "style") {
                Ok(s) => Some(s),
                Err(_) => None,
            },
        ),
        Err(e) => Err(e),
    };
    let title = match select(dom, ".panel-title", url) {
        Ok(e) => {
            let panel = match parent_element(&e) {
                Some(p) => parent_element(&p),
                None => None,
            };
            match panel {
                Some(p) => Ok(
                    (
                        scope_text(&e),
                        scope_has_class(&p, "panel-danger"),
                        scope_has_class(&p, "panel-success"),
                    ),
                ),
                None => Err(ScrapeError::MissingParent(".panel-title".to_string())),
            }
        },
        Err(e) => Err(e),
    };
    let category_href = select_attr(
        dom,
        ".panel-body>.row:nth-child(1)>.col-md-5:nth-child(2)>a:nth-child(2)",
        url,
        "href",
    );
    let date = select_attr(dom, ".col-md-5[data-timestamp]", url, "data-timestamp");
    let submitter = match select_text(
        dom,
        ".panel-body>.row:nth-child(2)>.col-md-5:nth-child(2)>a",
        url,
    ) {
        Ok(t) => Some(t),
        Err(_) => None,
    };
    let information = select_text(dom, ".panel-body>.row:nth-child(3)>.col-md-5:nth-child(2)", url);
    let description = match select(dom, "#torrent-description", url) {
        Ok(e) => Ok(scope_inner_html(&e)),
        Err(e) => Err(e),
    };
    RawTorrent { heading_style, title, category_href, date, submitter, information, description }
}

/// Parses the page of torrent `id`, given its root element.
pub fn parse_torrent(dom: &Scope, id: usize) -> (r: Result<ParsedTorrent, ScrapeError>)
    ensures
        res_view(r) == torrent_from_raw_spec(raw_torrent_spec(dom@, torrent_view_url_spec(id))),
{
    let url = torrent_view_url(id);
    let raw = read_torrent(dom, url.as_str());
    torrent_from_raw(raw)
}

} // verus!
