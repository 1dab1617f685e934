//! Reading parsed HTML pages with `scraper`. An element of a page is known
//! to the proofs by its address: the page's HTML text and the steps that
//! lead from the document's root element to it. What `scraper` finds at an
//! address is named by functions of the text and the steps alone.

use vstd::prelude::*;
use crate::scrape::{ScrapeError, ScrapeErrorV};

verus! {

/// A reference to an element of a parsed HTML document.
#[verifier::external_type_specification]
#[verifier::external_body]
pub struct ExElementRef<'a>(scraper::ElementRef<'a>);

/// A parsed HTML document.
#[verifier::external_type_specification]
#[verifier::external_body]
pub struct ExHtml(scraper::Html);

/// A step from an element to another.
#[derive(Debug)]
pub enum Step {
    /// To the descendant with this index, in document order, among those
    /// that the CSS selector matches.
    Select(String, usize),
    /// To the parent element.
    Parent,
}

/// The mathematical model of a [`Step`].
pub enum StepV {
    Select(Seq<char>, nat),
    Parent,
}

impl View for Step {
    type V = StepV;

    open spec fn view(&self) -> StepV {
        match self {
            Step::Select(s, k) => StepV::Select(s@, *k as nat),
            Step::Parent => StepV::Parent,
        }
    }
}

/// The model of a sequence of steps.
pub open spec fn steps_view(steps: Seq<Step>) -> Seq<StepV> {
    steps.map_values(|s: Step| s@)
}

/// An HTML page: its text and the document that `scraper` parses from it.
pub struct Page {
    html: String,
    document: scraper::Html,
}

impl View for Page {
    type V = Seq<char>;

    closed spec fn view(&self) -> Seq<char> {
        self.html@
    }
}

/// The address of an element: the page's HTML text and the steps from its
/// root element.
pub struct ScopeV {
    pub html: Seq<char>,
    pub path: Seq<StepV>,
}

/// An element of a page, with its address.
pub struct Scope<'a> {
    page: &'a Page,
    element: scraper::ElementRef<'a>,
    path: Vec<Step>,
}

impl<'a> View for Scope<'a> {
    type V = ScopeV;

    closed spec fn view(&self) -> ScopeV {
        ScopeV { html: self.page@, path: steps_view(self.path@) }
    }
}

/// The element one step further.
pub open spec fn child(s: ScopeV, step: StepV) -> ScopeV {
    ScopeV { html: s.html, path: s.path.push(step) }
}

/// Whether `scraper::Selector::parse` accepts the text as a CSS selector
/// group; the parse depends on the text alone.
pub uninterp spec fn css_selector_valid(selector: Seq<char>) -> bool;

/// How many descendants of the element at `path` in the document that
/// `scraper::Html::parse_document` makes of `html` the selector matches
/// (`ElementRef::select`).
pub uninterp spec fn dom_match_count(html: Seq<char>, path: Seq<StepV>, selector: Seq<char>) -> nat;

/// Whether the element at `path` has a parent that is an element.
pub uninterp spec fn dom_has_parent(html: Seq<char>, path: Seq<StepV>) -> bool;

/// The value of the attribute `name` of the element at `path`
/// (`ElementRef::attr`).
pub uninterp spec fn dom_attr(html: Seq<char>, path: Seq<StepV>, name: Seq<char>) -> Option<Seq<char>>;

/// The text of the descendant text nodes of the element at `path`,
/// concatenated (`ElementRef::text`).
pub uninterp spec fn dom_text(html: Seq<char>, path: Seq<StepV>) -> Seq<char>;

/// The serialised HTML of the children of the element at `path`
/// (`ElementRef::inner_html`).
pub uninterp spec fn dom_inner_html(html: Seq<char>, path: Seq<StepV>) -> Seq<char>;

/// Whether the element at `path` has the class, compared case-sensitively
/// (`Element::has_class`).
pub uninterp spec fn dom_has_class(html: Seq<char>, path: Seq<StepV>, class: Seq<char>) -> bool;

/// `scraper::Html::parse_document`, kept with the text it was parsed from.
#[verifier::external_body]
pub fn parse_page(html: String) -> (r: Page)
    ensures
        r@ == html@,
{
    Page { document: scraper::Html::parse_document(&html), html }
}

/// The root element of the page (`Html::root_element`), at the empty address.
#[verifier::external_body]
pub fn root_scope<'a>(page: &'a Page) -> (r: Scope<'a>)
    ensures
        r@ == (ScopeV { html: page@, path: Seq::empty() }),
{
    Scope { page, element: page.document.root_element(), path: Vec::new() }
}

/// `scraper::Selector::parse(..).is_ok()`.
#[verifier::external_body]
fn selector_valid(selector: &str) -> (r: bool)
    ensures
        r == css_selector_valid(selector@),
{
    scraper::Selector::parse(selector).is_ok()
}

/// The descendant of the element with index `k` among those that the
/// selector matches (`ElementRef::select(..).nth(k)`), at the address
/// `path`, which is one step further.
#[verifier::external_body]
fn nth_match<'a>(scope: &Scope<'a>, selector: &str, k: usize, path: Vec<Step>) -> (r: Option<
    Scope<'a>,
>)
    requires
        css_selector_valid(selector@),
        steps_view(path@) == scope@.path.push(StepV::Select(selector@, k as nat)),
    ensures
        r is Some <==> k < dom_match_count(scope@.html, scope@.path, selector@),
        r matches Some(s) ==> s@ == child(scope@, StepV::Select(selector@, k as nat)),
{
    let parsed = match scraper::Selector::parse(selector) {
        Ok(s) => s,
        Err(_) => return None,
    };
    match scope.element.select(&parsed).nth(k) {
        Some(element) => Some(Scope { page: scope.page, element, path }),
        None => None,
    }
}

/// The parent element (`NodeRef::parent` then `ElementRef::wrap`), at the
/// address `path`, which is one step further.
#[verifier::external_body]
fn parent_of<'a>(scope: &Scope<'a>, path: Vec<Step>) -> (r: Option<Scope<'a>>)
    requires
        steps_view(path@) == scope@.path.push(StepV::Parent),
    ensures
        r is Some <==> dom_has_parent(scope@.html, scope@.path),
        r matches Some(s) ==> s@ == child(scope@, StepV::Parent),
{
    match scope.element.parent().and_then(scraper::ElementRef::wrap) {
        Some(element) => Some(Scope { page: scope.page, element, path }),
        None => None,
    }
}

/// `ElementRef::attr`.
#[verifier::external_body]
fn scope_attr(scope: &Scope, name: &str) -> (r: Option<String>)
    ensures
        match r {
            Some(v) => dom_attr(scope@.html, scope@.path, name@) == Some(v@),
            None => dom_attr(scope@.html, scope@.path, name@) is None,
        },
{
    scope.element.attr(name).map(|v| v.to_string())
}

/// `ElementRef::text().collect()`.
#[verifier::external_body]
pub fn scope_text(scope: &Scope) -> (r: String)
    ensures
        r@ == dom_text(scope@.html, scope@.path),
{
    scope.element.text().collect()
}

/// `ElementRef::inner_html`.
#[verifier::external_body]
pub fn scope_inner_html(scope: &Scope) -> (r: String)
    ensures
        r@ == dom_inner_html(scope@.html, scope@.path),
{
    scope.element.inner_html()
}

/// `Element::has_class` with `CaseSensitivity::CaseSensitive`.
#[verifier::external_body]
pub fn scope_has_class(scope: &Scope, class: &str) -> (r: bool)
    ensures
        r == dom_has_class(scope@.html, scope@.path, class@),
{
    scope.element.value().has_class(class, scraper::CaseSensitivity::CaseSensitive)
}

/// A copy of a step.
fn copy_step(s: &Step) -> (r: Step)
    ensures
        r@ == s@,
{
    match s {
        Step::Select(sel, k) => Step::Select(sel.clone(), *k),
        Step::Parent => Step::Parent,
    }
}

/// The address of the element, one step further.
fn extend_path(scope: &Scope, step: Step) -> (r: Vec<Step>)
    ensures
        steps_view(r@) == scope@.path.push(step@),
{
    let mut r: Vec<Step> = Vec::new();
    let mut i: usize = 0;
    while i < scope.path.len()
        invariant
            i <= scope.path@.len(),
            r@.len() == i,
            steps_view(r@) == steps_view(scope.path@.take(i as int)),
        decreases scope.path@.len() - i,
    {
        let s = copy_step(&scope.path[i]);
        let ghost before = r@;
        r.push(s);
        proof {
            let t = scope.path@.take(i + 1);
            assert(t =~= scope.path@.take(i as int).push(scope.path@[i as int]));
            assert(r@ =~= before.push(r@[i as int]));
            assert(r@[i as int]@ == scope.path@[i as int]@);
            assert forall|j: int| 0 <= j < r@.len() implies #[trigger] steps_view(r@)[j]
                == steps_view(t)[j] by {
                if j < i {
                    assert(steps_view(before)[j] == steps_view(scope.path@.take(i as int))[j]);
                }
            }
            assert(steps_view(r@) =~= steps_view(t));
        }
        i = i + 1;
    }
    assert(scope.path@.take(scope.path@.len() as int) =~= scope.path@);
    assert(steps_view(r@.push(step)) =~= steps_view(r@).push(step@));
    r.push(step);
    proof {
        assert(scope@.path == steps_view(scope.path@));
    }
    r
}

/// What a `select` of `selector` from the element at `s` gives on the page
/// at `url`: the first match, or the error naming the page and the selector
/// when there is none, or naming the selector when it is no CSS selector.
pub open spec fn select_spec(s: ScopeV, selector: Seq<char>, url: Seq<char>) -> Result<
    ScopeV,
    ScrapeErrorV,
> {
    if !css_selector_valid(selector) {
        Err(ScrapeErrorV::BadSelector(selector))
    } else if dom_match_count(s.html, s.path, selector) == 0 {
        Err(ScrapeErrorV::Selector(url, selector))
    } else {
        Ok(child(s, StepV::Select(selector, 0)))
    }
}

/// The model of a result that holds an element.
pub open spec fn scope_res_view<'a>(r: Result<Scope<'a>, ScrapeError>) -> Result<ScopeV, ScrapeErrorV> {
    match r {
        Ok(s) => Ok(s@),
        Err(e) => Err(e@),
    }
}

/// The first descendant of the element that the selector matches; an error
/// names the page and the selector when there is none, or the selector when
/// it is no CSS selector.
pub fn select<'a>(element: &Scope<'a>, selector: &str, url: &str) -> (r: Result<
    Scope<'a>,
    ScrapeError,
>)
    ensures
        scope_res_view(r) == select_spec(element@, selector@, url@),
{
    if !selector_valid(selector) {
        return Err(ScrapeError::BadSelector(selector.to_string()));
    }
    let path = extend_path(element, Step::Select(selector.to_string(), 0));
    match nth_match(element, selector, 0, path) {
        Some(e) => Ok(e),
        None => Err(ScrapeError::Selector(url.to_string(), selector.to_string())),
    }
}

/// What a `select_all` of `selector` from the element at `s` gives: every
/// match, in document order, or the error naming the selector when it is no
/// CSS selector.
pub open spec fn select_all_spec<'a>(r: Result<Vec<Scope<'a>>, ScrapeError>, s: ScopeV, selector: Seq<char>) -> bool {
    if !css_selector_valid(selector) {
        r matches Err(e) && e@ == ScrapeErrorV::BadSelector(selector)
    } else {
        r matches Ok(v) && v@.len() == dom_match_count(s.html, s.path, selector) && forall|i: int|
            0 <= i < v@.len() ==> #[trigger] v@[i]@ == child(s, StepV::Select(selector, i as nat))
    }
}

/// All descendants of the element that the selector matches, in document
/// order; an error names the selector when it is no CSS selector.
pub fn select_all<'a>(element: &Scope<'a>, selector: &str) -> (r: Result<
    Vec<Scope<'a>>,
    ScrapeError,
>)
    ensures
        select_all_spec(r, element@, selector@),
{
    if !selector_valid(selector) {
        return Err(ScrapeError::BadSelector(selector.to_string()));
    }
    let mut out: Vec<Scope<'a>> = Vec::new();
    let mut k: usize = 0;
    loop
        invariant
            css_selector_valid(selector@),
            k == out@.len(),
            k <= dom_match_count(element@.html, element@.path, selector@),
            forall|i: int|
                0 <= i < out@.len() ==> #[trigger] out@[i]@ == child(
                    element@,
                    StepV::Select(selector@, i as nat),
                ),
        ensures
            out@.len() == dom_match_count(element@.html, element@.path, selector@),
            forall|i: int|
                0 <= i < out@.len() ==> #[trigger] out@[i]@ == child(
                    element@,
                    StepV::Select(selector@, i as nat),
                ),
        decreases dom_match_count(element@.html, element@.path, selector@) - k,
    {
        let path = extend_path(element, Step::Select(selector.to_string(), k));
        match nth_match(element, selector, k, path) {
            Some(e) => {
                out.push(e);
                k = out.len();
            },
            None => {
                break;
            },
        }
    }
    Ok(out)
}

/// The model of an attribute read: its value, or the error naming it.
pub open spec fn attr_spec(s: ScopeV, name: Seq<char>) -> Result<Seq<char>, ScrapeErrorV> {
    match dom_attr(s.html, s.path, name) {
        Some(v) => Ok(v),
        None => Err(ScrapeErrorV::MissingAttribute(name)),
    }
}

/// The value of an attribute; an error names the attribute when it is missing.
pub fn attr(element: &Scope, name: &str) -> (r: Result<String, ScrapeError>)
    ensures
        match r {
            Ok(v) => attr_spec(element@, name@) == Ok::<Seq<char>, ScrapeErrorV>(v@),
            Err(e) => attr_spec(element@, name@) == Err::<Seq<char>, ScrapeErrorV>(e@),
        },
{
    match scope_attr(element, name) {
        Some(v) => Ok(v),
        None => Err(ScrapeError::MissingAttribute(name.to_string())),
    }
}

/// The element one step up, where its parent is an element.
pub fn parent_element<'a>(element: &Scope<'a>) -> (r: Option<Scope<'a>>)
    ensures
        r is Some <==> dom_has_parent(element@.html, element@.path),
        r matches Some(s) ==> s@ == child(element@, StepV::Parent),
{
    let path = extend_path(element, Step::Parent);
    parent_of(element, path)
}

} // verus!
