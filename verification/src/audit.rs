//! Checking stored torrents against their `.torrent` files and comments, and
//! giving unscheduled torrents their first scrape time.

use vstd::prelude::*;
use crate::models::Torrent;
use crate::schedule::{MAX_TIMESTAMP, MAX_WAIT_SECS, MIN_TIMESTAMP};
use crate::text::{concat, i64_to_string, signed_decimal, str_eq};

verus! {

/// Something wrong with a stored torrent.
#[derive(Debug, Clone, Copy, PartialEq, Eq, Structural)]
pub enum Finding {
    /// No `.torrent` file is archived for it.
    MissingFile,
    /// Its size differs from its `.torrent` file's length.
    SizeMismatch,
    /// Its info hash differs from its `.torrent` file's.
    HashMismatch,
    /// It is not anonymous, yet no submitter is stored.
    MissingSubmitter,
    /// Its information field holds the index's placeholder text.
    PlaceholderInformation,
    /// Its description holds the index's placeholder text.
    PlaceholderDescription,
    /// Its comment count differs from the number of stored comments.
    CommentCountMismatch,
}

/// The one-element sequence of `f` when `cond` holds, else nothing.
pub open spec fn finding_if(cond: bool, f: Finding) -> Seq<Finding> {
    if cond {
        seq![f]
    } else {
        Seq::empty()
    }
}

/// What is wrong with a stored torrent, in this order: its file (missing, or
/// size and hash differing from the file's `(hash, length)`), its submitter,
/// its placeholder information and description, its comment count.
pub open spec fn findings_spec(t: &Torrent, file: Option<(Seq<char>, i64)>, comments_len: usize) -> Seq<
    Finding,
> {
    (match file {
        None => seq![Finding::MissingFile],
        Some((hash, length)) => finding_if(length != t.size, Finding::SizeMismatch) + finding_if(
            t.info_hash@ != hash,
            Finding::HashMismatch,
        ),
    }) + finding_if(t.submitter is None && !t.anonymous, Finding::MissingSubmitter) + finding_if(
        t.information matches Some(i) && i@ == "No information."@,
        Finding::PlaceholderInformation,
    ) + finding_if(
        t.description matches Some(d) && d@ == "#### No description."@,
        Finding::PlaceholderDescription,
    ) + finding_if(t.comments as usize != comments_len, Finding::CommentCountMismatch)
}

/// A finding about the archived `.torrent` file rather than the record.
pub open spec fn is_file_finding(f: Finding) -> bool {
    f is MissingFile || f is SizeMismatch || f is HashMismatch
}

/// The findings of a list that are about the record itself.
pub open spec fn record_findings(s: Seq<Finding>) -> Seq<Finding> {
    s.filter(|f: Finding| !is_file_finding(f))
}

/// The findings about the file.
pub open spec fn file_findings(t: &Torrent, file: Option<(Seq<char>, i64)>) -> Seq<Finding> {
    match file {
        None => seq![Finding::MissingFile],
        Some((hash, length)) => finding_if(length != t.size, Finding::SizeMismatch) + finding_if(
            t.info_hash@ != hash,
            Finding::HashMismatch,
        ),
    }
}

/// The findings about the record.
pub open spec fn record_checks(t: &Torrent, comments_len: usize) -> Seq<Finding> {
    finding_if(t.submitter is None && !t.anonymous, Finding::MissingSubmitter) + finding_if(
        t.information matches Some(i) && i@ == "No information."@,
        Finding::PlaceholderInformation,
    ) + finding_if(
        t.description matches Some(d) && d@ == "#### No description."@,
        Finding::PlaceholderDescription,
    ) + finding_if(t.comments as usize != comments_len, Finding::CommentCountMismatch)
}

proof fn lemma_findings_split(t: &Torrent, file: Option<(Seq<char>, i64)>, comments_len: usize)
    ensures
        findings_spec(t, file, comments_len) == file_findings(t, file) + record_checks(
            t,
            comments_len,
        ),
{
    assert(findings_spec(t, file, comments_len) =~= file_findings(t, file) + record_checks(
        t,
        comments_len,
    ));
}

proof fn lemma_concat_contains(a: Seq<Finding>, b: Seq<Finding>, x: Finding)
    ensures
        (a + b).contains(x) <==> a.contains(x) || b.contains(x),
{
    if a.contains(x) {
        let i = choose|i: int| 0 <= i < a.len() && a[i] == x;
        assert((a + b)[i] == x);
    }
    if b.contains(x) {
        let i = choose|i: int| 0 <= i < b.len() && b[i] == x;
        assert((a + b)[a.len() + i] == x);
    }
    if (a + b).contains(x) {
        let i = choose|i: int| 0 <= i < (a + b).len() && (a + b)[i] == x;
        if i < a.len() {
            assert(a[i] == x);
        } else {
            assert(b[i - a.len()] == x);
        }
    }
}

proof fn lemma_finding_if_contains(cond: bool, f: Finding, x: Finding)
    ensures
        finding_if(cond, f).contains(x) <==> cond && f == x,
{
    if cond {
        assert(finding_if(cond, f)[0] == f);
    }
}

proof fn lemma_no_record_findings_in_file(t: &Torrent, file: Option<(Seq<char>, i64)>)
    ensures
        record_findings(file_findings(t, file)) == Seq::<Finding>::empty(),
{
    let pred = |f: Finding| !is_file_finding(f);
    reveal_with_fuel(Seq::<Finding>::filter, 2);
    match file {
        None => {
            assert(seq![Finding::MissingFile].drop_last() =~= Seq::<Finding>::empty());
        },
        Some((hash, length)) => {
            let x = finding_if(length != t.size, Finding::SizeMismatch);
            let y = finding_if(t.info_hash@ != hash, Finding::HashMismatch);
            Seq::filter_distributes_over_add(x, y, pred);
            if length != t.size {
                assert(x.drop_last() =~= Seq::<Finding>::empty());
            }
            if t.info_hash@ != hash {
                assert(y.drop_last() =~= Seq::<Finding>::empty());
            }
            assert(x.filter(pred) =~= Seq::<Finding>::empty());
            assert(y.filter(pred) =~= Seq::<Finding>::empty());
            assert(record_findings(file_findings(t, file)) =~= Seq::<Finding>::empty());
        },
    }
}

/// Whether the condition of finding `x` holds.
pub open spec fn finding_condition(
    t: &Torrent,
    file: Option<(Seq<char>, i64)>,
    comments_len: usize,
    x: Finding,
) -> bool {
    match x {
        Finding::MissingFile => file is None,
        Finding::SizeMismatch => file matches Some((h, l)) && l != t.size,
        Finding::HashMismatch => file matches Some((h, l)) && h != t.info_hash@,
        Finding::MissingSubmitter => t.submitter is None && !t.anonymous,
        Finding::PlaceholderInformation => t.information matches Some(i) && i@
            == "No information."@,
        Finding::PlaceholderDescription => t.description matches Some(d) && d@
            == "#### No description."@,
        Finding::CommentCountMismatch => t.comments as usize != comments_len,
    }
}

proof fn lemma_finding_member(
    t: &Torrent,
    file: Option<(Seq<char>, i64)>,
    comments_len: usize,
    x: Finding,
)
    ensures
        findings_spec(t, file, comments_len).contains(x) <==> finding_condition(
            t,
            file,
            comments_len,
            x,
        ),
{
    lemma_findings_split(t, file, comments_len);
    let a = finding_if(t.submitter is None && !t.anonymous, Finding::MissingSubmitter);
    let b = finding_if(
        t.information matches Some(i) && i@ == "No information."@,
        Finding::PlaceholderInformation,
    );
    let c = finding_if(
        t.description matches Some(d) && d@ == "#### No description."@,
        Finding::PlaceholderDescription,
    );
    let d = finding_if(t.comments as usize != comments_len, Finding::CommentCountMismatch);
    let ff = file_findings(t, file);
    lemma_concat_contains(ff, a + b + c + d, x);
    lemma_concat_contains(a + b + c, d, x);
    lemma_concat_contains(a + b, c, x);
    lemma_concat_contains(a, b, x);
    lemma_finding_if_contains(t.submitter is None && !t.anonymous, Finding::MissingSubmitter, x);
    lemma_finding_if_contains(
        t.information matches Some(i) && i@ == "No information."@,
        Finding::PlaceholderInformation,
        x,
    );
    lemma_finding_if_contains(
        t.description matches Some(d) && d@ == "#### No description."@,
        Finding::PlaceholderDescription,
        x,
    );
    lemma_finding_if_contains(t.comments as usize != comments_len, Finding::CommentCountMismatch, x);
    match file {
        None => {
            assert(ff[0] == Finding::MissingFile);
            if ff.contains(x) {
                assert(ff.len() == 1);
            }
        },
        Some((h, l)) => {
            let x1 = finding_if(l != t.size, Finding::SizeMismatch);
            let y1 = finding_if(t.info_hash@ != h, Finding::HashMismatch);
            lemma_concat_contains(x1, y1, x);
            lemma_finding_if_contains(l != t.size, Finding::SizeMismatch, x);
            lemma_finding_if_contains(t.info_hash@ != h, Finding::HashMismatch, x);
        },
    }
}

/// Each finding is reported exactly when its condition holds, whether or
/// not a `.torrent` file is archived: the file findings follow the file
/// alone, and the submitter, placeholder and comment-count findings follow
/// the record alone, so that two audits of the same record with different
/// files agree on them.
pub proof fn lemma_findings_conditions(
    t: &Torrent,
    file: Option<(Seq<char>, i64)>,
    other: Option<(Seq<char>, i64)>,
    comments_len: usize,
)
    ensures
        findings_spec(t, file, comments_len).contains(Finding::MissingFile) <==> file is None,
        findings_spec(t, file, comments_len).contains(Finding::SizeMismatch) <==> (file matches Some(
            (h, l),
        ) && l != t.size),
        findings_spec(t, file, comments_len).contains(Finding::HashMismatch) <==> (file matches Some(
            (h, l),
        ) && h != t.info_hash@),
        findings_spec(t, file, comments_len).contains(Finding::MissingSubmitter) <==> (t.submitter
            is None && !t.anonymous),
        findings_spec(t, file, comments_len).contains(Finding::PlaceholderInformation) <==> (
        t.information matches Some(i) && i@ == "No information."@),
        findings_spec(t, file, comments_len).contains(Finding::PlaceholderDescription) <==> (
        t.description matches Some(d) && d@ == "#### No description."@),
        findings_spec(t, file, comments_len).contains(Finding::CommentCountMismatch) <==> (t.comments
            as usize != comments_len),
        record_findings(findings_spec(t, file, comments_len)) == record_findings(
            findings_spec(t, other, comments_len),
        ),
{
    lemma_finding_member(t, file, comments_len, Finding::MissingFile);
    lemma_finding_member(t, file, comments_len, Finding::SizeMismatch);
    lemma_finding_member(t, file, comments_len, Finding::HashMismatch);
    lemma_finding_member(t, file, comments_len, Finding::MissingSubmitter);
    lemma_finding_member(t, file, comments_len, Finding::PlaceholderInformation);
    lemma_finding_member(t, file, comments_len, Finding::PlaceholderDescription);
    lemma_finding_member(t, file, comments_len, Finding::CommentCountMismatch);
    lemma_record_findings_agree(t, file, other, comments_len);
}

proof fn lemma_record_findings_agree(
    t: &Torrent,
    file: Option<(Seq<char>, i64)>,
    other: Option<(Seq<char>, i64)>,
    comments_len: usize,
)
    ensures
        record_findings(findings_spec(t, file, comments_len)) == record_findings(
            findings_spec(t, other, comments_len),
        ),
{
    let pred = |f: Finding| !is_file_finding(f);
    lemma_findings_split(t, file, comments_len);
    lemma_findings_split(t, other, comments_len);
    lemma_no_record_findings_in_file(t, file);
    lemma_no_record_findings_in_file(t, other);
    Seq::filter_distributes_over_add(file_findings(t, file), record_checks(t, comments_len), pred);
    Seq::filter_distributes_over_add(file_findings(t, other), record_checks(t, comments_len), pred);
    assert(record_findings(findings_spec(t, file, comments_len)) =~= record_findings(
        record_checks(t, comments_len),
    ));
    assert(record_findings(findings_spec(t, other, comments_len)) =~= record_findings(
        record_checks(t, comments_len),
    ));
}

/// What is wrong with a stored torrent, given the info hash and length of
/// its `.torrent` file (if one is archived) and the number of its stored
/// comments.
pub fn torrent_findings(t: &Torrent, file: Option<(&str, i64)>, comments_len: usize) -> (r: Vec<
    Finding,
>)
    ensures
        r@ == findings_spec(
            t,
            match file {
                Some((h, l)) => Some((h@, l)),
                None => None,
            },
            comments_len,
        ),
{
    let mut r: Vec<Finding> = Vec::new();
    match file {
        None => {
            r.push(Finding::MissingFile);
        },
        Some((hash, length)) => {
            if length != t.size {
                r.push(Finding::SizeMismatch);
            }
            if !str_eq(t.info_hash.as_str(), hash) {
                r.push(Finding::HashMismatch);
            }
        },
    }
    let ghost head = r@;
    if t.submitter.is_none() && !t.anonymous {
        r.push(Finding::MissingSubmitter);
    }
    let ghost with_submitter = r@;
    let placeholder_info = match &t.information {
        Some(i) => str_eq(i.as_str(), "No information."),
        None => false,
    };
    if placeholder_info {
        r.push(Finding::PlaceholderInformation);
    }
    let ghost with_info = r@;
    let placeholder_desc = match &t.description {
        Some(d) => str_eq(d.as_str(), "#### No description."),
        None => false,
    };
    if placeholder_desc {
        r.push(Finding::PlaceholderDescription);
    }
    let ghost with_desc = r@;
    if t.comments as usize != comments_len {
        r.push(Finding::CommentCountMismatch);
    }
    proof {
        let fv = match file {
            Some((h, l)) => Some((h@, l)),
            None => None,
        };
        let part0 = match fv {
            None => seq![Finding::MissingFile],
            Some((hash, length)) => finding_if(length != t.size, Finding::SizeMismatch)
                + finding_if(t.info_hash@ != hash, Finding::HashMismatch),
        };
        assert(head =~= part0);
        assert(with_submitter =~= part0 + finding_if(
            t.submitter is None && !t.anonymous,
            Finding::MissingSubmitter,
        ));
        assert(r@ =~= findings_spec(t, fv, comments_len));
    }
    r
}

/// The report line for a finding on the torrent `id`.
pub open spec fn finding_message_spec(f: Finding, id: i32) -> Seq<char> {
    let n = signed_decimal(id as int);
    match f {
        Finding::MissingFile => "The torrent "@ + n
            + " does not have an actual torrent downloaded!"@,
        Finding::SizeMismatch => "The torrent "@ + n + " has a mismatching size field!"@,
        Finding::HashMismatch => "The torrent "@ + n + " has a mismatched infohash field!"@,
        Finding::MissingSubmitter => "The torrent "@ + n
            + " isn't anonymous but the submitter is None!"@,
        Finding::PlaceholderInformation => "The torrent "@ + n
            + "'s information field is Some when it should be None!"@,
        Finding::PlaceholderDescription => "The torrent "@ + n
            + "'s description field is Some when it should be None!"@,
        Finding::CommentCountMismatch => "The torrent "@ + n
            + "'s comments field is not equal to the number of comments!"@,
    }
}

impl Finding {
    /// The report line for this finding on the torrent `id`.
    pub fn message(&self, id: i32) -> (r: String)
        ensures
            r@ == finding_message_spec(*self, id),
    {
        let n = i64_to_string(id as i64);
        let head = concat("The torrent ", n.as_str());
        let tail = match self {
            Finding::MissingFile => " does not have an actual torrent downloaded!",
            Finding::SizeMismatch => " has a mismatching size field!",
            Finding::HashMismatch => " has a mismatched infohash field!",
            Finding::MissingSubmitter => " isn't anonymous but the submitter is None!",
            Finding::PlaceholderInformation => "'s information field is Some when it should be None!",
            Finding::PlaceholderDescription => "'s description field is Some when it should be None!",
            Finding::CommentCountMismatch => "'s comments field is not equal to the number of comments!",
        };
        concat(head.as_str(), tail)
    }
}

/// The first wait of a torrent that was never scheduled: its age, at most
/// 365 days and at least an hour (seconds and nanoseconds).
pub open spec fn backfill_wait(date: i64, now_secs: i64, now_nanos: u32) -> (int, int) {
    let age = now_secs - date;
    if age >= MAX_WAIT_SECS {
        (MAX_WAIT_SECS as int, 0int)
    } else if age < 3600 {
        (3600int, 0int)
    } else {
        (age, now_nanos as int)
    }
}

/// The second of the first scrape of a torrent that was never scheduled.
pub open spec fn backfill_next_secs(date: i64, now_secs: i64, now_nanos: u32) -> int {
    let w = backfill_wait(date, now_secs, now_nanos);
    now_secs + w.0 + (if now_nanos + w.1 >= 1_000_000_000 { 1int } else { 0int })
}

/// The first schedule of a stored torrent: `None` when it has a next scrape
/// time or a frequency already; else the second of its next scrape and the
/// wait in minutes, the wait being its age clamped to between an hour and
/// 365 days.
pub fn backfill_schedule(t: &Torrent, now_secs: i64, now_nanos: u32) -> (r: Option<(i64, i32)>)
    requires
        MIN_TIMESTAMP <= now_secs <= MAX_TIMESTAMP,
        now_nanos < 1_000_000_000,
        t.next_update is None && t.update_frequency is None ==> {
            &&& MIN_TIMESTAMP <= t.date <= MAX_TIMESTAMP
            &&& backfill_next_secs(t.date, now_secs, now_nanos) <= MAX_TIMESTAMP
        },
    ensures
        !(t.next_update is None && t.update_frequency is None) ==> r is None,
        t.next_update is None && t.update_frequency is None ==> r == Some(
            (
                backfill_next_secs(t.date, now_secs, now_nanos) as i64,
                (backfill_wait(t.date, now_secs, now_nanos).0 / 60) as i32,
            ),
        ),
        r matches Some((next, minutes)) ==> 60 <= minutes <= 525600 && now_secs + 3600 <= next
            <= now_secs + MAX_WAIT_SECS + 1,
{
    if t.next_update.is_some() || t.update_frequency.is_some() {
        return None;
    }
    let age: i64 = now_secs - t.date;
    let (secs, nanos): (i64, i64) = if age >= MAX_WAIT_SECS {
        (MAX_WAIT_SECS, 0)
    } else if age < 3600 {
        (3600, 0)
    } else {
        (age, now_nanos as i64)
    };
    let carry: i64 = if now_nanos as i64 + nanos >= 1_000_000_000 {
        1
    } else {
        0
    };
    let minutes: i64 = secs / 60;
    proof {
        assert(3600int / 60 == 60);
        assert(MAX_WAIT_SECS as int / 60 == 525600);
        assert(60 <= minutes <= 525600) by {
            assert(3600 <= secs <= MAX_WAIT_SECS);
        }
    }
    Some((now_secs + secs + carry, minutes as i32))
}

/// The first schedule where `chrono` can compute it: `Err` exactly where the
/// torrent needs one and the current time, the torrent's date or the next
/// scrape is out of `chrono`'s range; else what [`backfill_schedule`] gives.
pub fn backfill_checked(t: &Torrent, now_secs: i64, now_nanos: u32) -> (r: Result<
    Option<(i64, i32)>,
    (),
>)
    ensures
        !(MIN_TIMESTAMP <= now_secs <= MAX_TIMESTAMP && now_nanos < 1_000_000_000) ==> r is Err,
        MIN_TIMESTAMP <= now_secs <= MAX_TIMESTAMP && now_nanos < 1_000_000_000 ==> {
            &&& !(t.next_update is None && t.update_frequency is None) ==> r == Ok::<
                Option<(i64, i32)>,
                (),
            >(None)
            &&& t.next_update is None && t.update_frequency is None ==> (r is Ok <==> (MIN_TIMESTAMP
                <= t.date <= MAX_TIMESTAMP && backfill_next_secs(t.date, now_secs, now_nanos)
                <= MAX_TIMESTAMP))
            &&& r is Ok ==> r == Ok::<Option<(i64, i32)>, ()>(
                if t.next_update is None && t.update_frequency is None {
                    Some(
                        (
                            backfill_next_secs(t.date, now_secs, now_nanos) as i64,
                            (backfill_wait(t.date, now_secs, now_nanos).0 / 60) as i32,
                        ),
                    )
                } else {
                    None
                },
            )
        },
{
    if !(MIN_TIMESTAMP <= now_secs && now_secs <= MAX_TIMESTAMP && now_nanos < 1_000_000_000) {
        return Err(());
    }
    if t.next_update.is_some() || t.update_frequency.is_some() {
        return Ok(None);
    }
    if !(MIN_TIMESTAMP <= t.date && t.date <= MAX_TIMESTAMP) {
        return Err(());
    }
    let age: i64 = now_secs - t.date;
    let (secs, nanos): (i64, i64) = if age >= MAX_WAIT_SECS {
        (MAX_WAIT_SECS, 0)
    } else if age < 3600 {
        (3600, 0)
    } else {
        (age, now_nanos as i64)
    };
    let carry: i64 = if now_nanos as i64 + nanos >= 1_000_000_000 {
        1
    } else {
        0
    };
    if now_secs + secs + carry > MAX_TIMESTAMP {
        return Err(());
    }
    Ok(backfill_schedule(t, now_secs, now_nanos))
}

} // verus!
