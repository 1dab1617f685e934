//! The rules of the web front end: sorting and filtering choices, page
//! numbers, table classes, and the rows that a search result shows.

use vstd::prelude::*;
use crate::models::Torrent;
use crate::text::{concat, decimal, parse_i64, parse_i64_spec, usize_to_string};

verus! {

/// What can go wrong while answering a request. Failures of outside
/// libraries carry their messages.
#[derive(Debug)]
pub enum ServerError {
    Askama(String),
    InvalidParam(String),
    Diesel(String),
    /// The torrent's date is out of the range of dates.
    DateTime(usize),
}

impl ServerError {
    /// The HTTP status of the answer: always an internal server error.
    pub fn status_code(&self) -> (r: u16)
        ensures
            r == 500,
    {
        500
    }
}

/// The direction of a sort.
#[derive(Debug, Clone, Copy, PartialEq, Eq, Structural)]
pub enum Order {
    Ascending,
    Descending,
}

/// The short name of a direction.
pub open spec fn order_nick(o: Order) -> Seq<char> {
    match o {
        Order::Ascending => "asc"@,
        Order::Descending => "desc"@,
    }
}

/// The opposite direction.
pub open spec fn order_flip(o: Order) -> Order {
    match o {
        Order::Ascending => Order::Descending,
        Order::Descending => Order::Ascending,
    }
}

impl Default for Order {
    fn default() -> (r: Order)
        ensures
            r == Order::Descending,
    {
        Order::Descending
    }
}

impl Order {
    /// The short name of the direction (`asc` or `desc`).
    pub fn nick(&self) -> (r: String)
        ensures
            r@ == order_nick(*self),
    {
        match self {
            Order::Ascending => "asc",
            Order::Descending => "desc",
        }.to_string()
    }

    /// The opposite direction.
    pub fn flip(&self) -> (r: Order)
        ensures
            r == order_flip(*self),
    {
        match self {
            Order::Ascending => Order::Descending,
            Order::Descending => Order::Ascending,
        }
    }
}

/// Flipping a direction twice gives it back, and a flip always changes it.
pub proof fn lemma_flip_involution(o: Order)
    ensures
        order_flip(order_flip(o)) == o,
        order_flip(o) != o,
{
}

/// The column that search results are sorted by.
#[derive(Debug, Clone, Copy, PartialEq, Eq, Structural)]
pub enum Sort {
    Date,
    Size,
    Comments,
    Seeders,
    Leechers,
    Completed,
}

impl Default for Sort {
    fn default() -> (r: Sort)
        ensures
            r == Sort::Date,
    {
        Sort::Date
    }
}

/// Which torrents a search shows.
#[derive(Debug, Clone, Copy, PartialEq, Eq, Structural)]
pub enum Filter {
    /// Every torrent.
    Unfiltered,
    NoRemakes,
    Trusted,
}

impl Default for Filter {
    fn default() -> (r: Filter)
        ensures
            r == Filter::Unfiltered,
    {
        Filter::Unfiltered
    }
}

/// A condition on the category column.
#[derive(Debug, Clone, Copy, PartialEq, Eq, Structural)]
pub enum CategoryFilter {
    /// Every category.
    Any,
    /// Categories strictly between the two numbers.
    Between(i32, i32),
    /// Exactly this category.
    Exact(i32),
}

/// The condition for a category choice: 0 is every category, a multiple of
/// ten is the subcategories of that category, anything else one category.
pub fn category_filter(category: u8) -> (r: CategoryFilter)
    ensures
        category == 0 ==> r == CategoryFilter::Any,
        category != 0 && category % 10 == 0 ==> r == CategoryFilter::Between(
            category as i32,
            (category + 10) as i32,
        ),
        category % 10 != 0 ==> r == CategoryFilter::Exact(category as i32),
{
    let cat = category as i32;
    if category == 0 {
        CategoryFilter::Any
    } else if category % 10 == 0 {
        CategoryFilter::Between(cat, cat + 10)
    } else {
        CategoryFilter::Exact(cat)
    }
}

/// The page that a `page` parameter asks for: page 1 when there is none or
/// it is `rss`, else its number.
pub open spec fn page_number_spec(page: Option<Seq<char>>) -> Option<int> {
    match page {
        None => Some(1),
        Some(p) => if p == "rss"@ {
            Some(1)
        } else {
            parse_i64_spec(p)
        },
    }
}

/// The page that a `page` parameter asks for; an error when it is no number.
pub fn page_number(page: Option<&str>) -> (r: Result<i64, ServerError>)
    ensures
        match page_number_spec(
            match page {
                Some(p) => Some(p@),
                None => None,
            },
        ) {
            Some(n) => r == Ok::<i64, ServerError>(n as i64),
            None => r matches Err(ServerError::InvalidParam(m)) && m@ == "page param not a number"@,
        },
{
    let text = match page {
        None => return Ok(1),
        Some(p) => p,
    };
    if crate::text::str_eq(text, "rss") {
        return Ok(1);
    }
    match parse_i64(text) {
        Some(n) => Ok(n),
        None => Err(ServerError::InvalidParam("page param not a number".to_string())),
    }
}

/// The number of results on a page.
pub const PAGE_SIZE: i64 = 75;

/// The offset of the first result of a page, computed with wrapping
/// arithmetic as a release build does.
pub fn page_offset(page: i64) -> (r: i64)
    ensures
        r == page.wrapping_sub(1).wrapping_mul(75),
        -0x0100_0000_0000_0000 <= page <= 0x0100_0000_0000_0000 ==> r == (page - 1) * 75,
{
    let r = page.wrapping_sub(1).wrapping_mul(75);
    proof {
        if -0x0100_0000_0000_0000 <= page <= 0x0100_0000_0000_0000 {
            assert(page.wrapping_sub(1) == page - 1);
            assert(((page - 1) * 75) as i64 == (page - 1) * 75);
        }
    }
    r
}

/// The number of pages that `total` results fill.
pub fn page_count(total: usize) -> (r: usize)
    ensures
        r == (total + 74) / 75,
{
    let q = total / 75;
    if total % 75 == 0 {
        q
    } else {
        q + 1
    }
}

/// The class of a result row: `danger` for a remake, `success` for a
/// trusted upload, else `default`.
pub fn row_class(remake: bool, trusted: bool) -> (r: &'static str)
    ensures
        r@ == (if remake {
            "danger"@
        } else if trusted {
            "success"@
        } else {
            "default"@
        }),
{
    if remake {
        "danger"
    } else if trusted {
        "success"
    } else {
        "default"
    }
}

/// The classes of a column header: the base class, then `sorting_<order>`
/// on the column that results are sorted by or `sorting` on another
/// sortable column, then `text-center` where asked; separated by spaces.
pub open spec fn header_classes_spec(
    sort: Sort,
    order: Order,
    base_class: Seq<char>,
    target_sort: Option<Sort>,
    center: bool,
) -> Seq<char> {
    base_class + (if target_sort == Some(sort) {
        " sorting_"@ + order_nick(order)
    } else if target_sort is Some {
        " sorting"@
    } else {
        Seq::empty()
    }) + (if center {
        " text-center"@
    } else {
        Seq::empty()
    })
}

/// The classes of a column header of a result table sorted by `sort` in
/// direction `order`.
pub fn header_classes(
    sort: Sort,
    order: Order,
    base_class: &str,
    target_sort: Option<Sort>,
    center: bool,
) -> (r: String)
    ensures
        r@ == header_classes_spec(sort, order, base_class@, target_sort, center),
{
    let is_target = match target_sort {
        Some(s) => s == sort,
        None => false,
    };
    let mid = if is_target {
        let nick = order.nick();
        concat(" sorting_", nick.as_str())
    } else if target_sort.is_some() {
        " sorting".to_string()
    } else {
        String::new()
    };
    let tail = if center {
        " text-center".to_string()
    } else {
        String::new()
    };
    let head = concat(base_class, mid.as_str());
    let r = concat(head.as_str(), tail.as_str());
    assert(r@ =~= header_classes_spec(sort, order, base_class@, target_sort, center));
    r
}

/// The direction that a click on a column header asks for: the opposite of
/// the current one on the sorted column, else the default (descending).
pub fn next_order(sort: Sort, order: Order, target_sort: Sort) -> (r: String)
    ensures
        r@ == (if sort == target_sort {
            order_nick(order_flip(order))
        } else {
            "desc"@
        }),
{
    if sort == target_sort {
        order.flip().nick()
    } else {
        Order::default().nick()
    }
}

/// A row of a search result.
#[derive(Debug, Clone)]
pub struct BasicTorrent {
    pub id: usize,
    pub category: u8,
    pub title: String,
    pub torrent: Option<String>,
    pub magnet: Option<String>,
    pub size: String,
    pub date: usize,
    pub time: String,
    pub seeders: usize,
    pub leechers: usize,
    pub completed: usize,
    pub comments: usize,
    pub remake: bool,
    pub trusted: bool,
}

/// The magnet link that `magnet_url`'s builder makes of a hash, hash type,
/// length and display name.
pub uninterp spec fn magnet_uri(hash: Seq<char>, hash_type: Seq<char>, length: u64, name: Seq<char>) -> Seq<char>;

/// `MagnetBuilder` with the hash, hash type, length and display name, built
/// and written out.
#[verifier::external_body]
fn build_magnet(hash: &str, hash_type: &str, length: u64, name: &str) -> (r: String)
    ensures
        r@ == magnet_uri(hash@, hash_type@, length, name@),
{
    magnet_url::MagnetBuilder::new().hash(hash).hash_type(hash_type).length(length).display_name(
        name,
    ).build().to_string()
}

/// The text that `chrono` writes for a timestamp with `%Y-%m-%d %H:%M`.
pub uninterp spec fn utc_minute_text(secs: i64) -> Seq<char>;

/// `DateTime::<Utc>::from_timestamp_secs`, written with `%Y-%m-%d %H:%M`:
/// `None` exactly when the second is out of the range of `DateTime<Utc>`.
#[verifier::external_body]
fn format_timestamp(secs: i64) -> (r: Option<String>)
    ensures
        r is Some <==> crate::schedule::MIN_TIMESTAMP <= secs <= crate::schedule::MAX_TIMESTAMP,
        r matches Some(t) ==> t@ == utc_minute_text(secs),
{
    chrono::DateTime::from_timestamp_secs(secs).map(|d| d.format("%Y-%m-%d %H:%M").to_string())
}

/// The row that a search result shows for a torrent, given whether its
/// `.torrent` file is archived and its size as text.
pub fn torrent_row(t: &Torrent, file_exists: bool, size: String) -> (r: Result<
    BasicTorrent,
    ServerError,
>)
    ensures
        !(crate::schedule::MIN_TIMESTAMP <= t.date <= crate::schedule::MAX_TIMESTAMP) ==> (
        r matches Err(ServerError::DateTime(i)) && i == t.id as usize),
        crate::schedule::MIN_TIMESTAMP <= t.date <= crate::schedule::MAX_TIMESTAMP ==> (r matches Ok(
            b,
        ) && {
            &&& b.id == t.id as usize
            &&& b.category == t.category as u8
            &&& b.title@ == t.title@
            &&& (file_exists ==> b.torrent is Some && b.torrent->0@ == "/download/"@ + decimal(
                (t.id as usize) as nat,
            ) + ".torrent"@)
            &&& (!file_exists ==> b.torrent is None)
            &&& b.magnet matches Some(m) && m@ == magnet_uri(
                t.info_hash@,
                "btih"@,
                t.size as u64,
                t.title@,
            )
            &&& b.size == size
            &&& b.date == t.date as usize
            &&& b.time@ == utc_minute_text(t.date)
            &&& b.seeders == t.seeders as usize
            &&& b.leechers == t.leechers as usize
            &&& b.completed == t.completed as usize
            &&& b.comments == t.comments as usize
            &&& b.remake == t.remake
            &&& b.trusted == t.trusted
        }),
{
    let id = t.id as usize;
    let torrent = if file_exists {
        let n = usize_to_string(id);
        let head = concat("/download/", n.as_str());
        Some(concat(head.as_str(), ".torrent"))
    } else {
        None
    };
    let magnet = Some(build_magnet(t.info_hash.as_str(), "btih", t.size as u64, t.title.as_str()));
    let time = match format_timestamp(t.date) {
        Some(s) => s,
        None => return Err(ServerError::DateTime(id)),
    };
    Ok(
        BasicTorrent {
            id,
            category: t.category as u8,
            title: t.title.clone(),
            torrent,
            magnet,
            size,
            date: t.date as usize,
            time,
            seeders: t.seeders as usize,
            leechers: t.leechers as usize,
            completed: t.completed as usize,
            comments: t.comments as usize,
            remake: t.remake,
            trusted: t.trusted,
        },
    )
}

} // verus!
