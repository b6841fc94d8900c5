//! The crawl frontier: the URLs discovered so far in the order they
//! were found, the URLs already visited, and the rules that keep both
//! free of duplicates.  Fetching pages and pulling links out of their
//! HTML is the surroundings' work; every decision on the resulting
//! URLs is made and proved here.

use vstd::prelude::*;
use vstd::string::*;

verus! {

/// Errors of crawling.
#[derive(Debug)]
pub enum CrawlerError {
    /// The URL does not parse.
    InvalidUrl(String),
    /// The page's HTML could not be read for links.
    ParseError(String),
    /// The page could not be fetched.
    NetworkError(String),
    /// Any other crawling failure.
    CrawlerError(String),
}

/// Whether `s` parses as an absolute URL; determined by its text
/// alone.
pub uninterp spec fn parses_as_url(s: Seq<char>) -> bool;

/// The registrable domain of `s`, when `s` parses and its host is a
/// domain name (not an address); determined by the text alone.
pub uninterp spec fn domain_of(s: Seq<char>) -> Option<Seq<char>>;

/// Relies on `url::Url::parse` and `url::Url::domain`: parsing is a
/// pure function of the input text; the outer `None` is a parse
/// failure, the inner option is the parsed URL's domain, absent for
/// hostless URLs and for address hosts.
#[verifier::external_body]
fn parse_domain(s: &str) -> (r: Option<Option<String>>)
    ensures
        r is Some <==> parses_as_url(s@),
        r matches Some(d) ==> d.deep_view() == domain_of(s@),
{
    match url::Url::parse(s) {
        Ok(u) => Some(u.domain().map(|d| d.to_string())),
        Err(_) => None,
    }
}

/// The `href` values of the document's anchor elements, in document
/// order; determined by the HTML text alone.
pub uninterp spec fn anchor_hrefs_of(html: Seq<char>) -> Seq<Seq<char>>;

/// Relies on scraper's HTML parsing to query one document:
/// `Html::parse_document`, `Selector::parse` with the fixed anchor
/// selector, `select`, and `attr("href")`.  Parsing is a pure
/// function of the HTML text, and the hrefs come out in document
/// order.
#[verifier::external_body]
fn anchor_hrefs(html: &str) -> (r: Vec<String>)
    ensures
        r.deep_view() == anchor_hrefs_of(html@),
{
    let mut out = Vec::new();
    if let Ok(selector) = scraper::Selector::parse("a[href]") {
        let document = scraper::Html::parse_document(html);
        for element in document.select(&selector) {
            if let Some(href) = element.value().attr("href") {
                out.push(href.to_string());
            }
        }
    }
    out
}

/// `href` resolved against the page address `base`, when both combine
/// into an absolute URL; determined by the two texts alone.
pub uninterp spec fn resolved_of(base: Seq<char>, href: Seq<char>) -> Option<Seq<char>>;

/// Relies on `url::Url::parse` and `url::Url::join`: resolving a
/// possibly-relative `href` against `base` is a pure function of the
/// two texts, absent when either does not combine into an absolute
/// URL.
#[verifier::external_body]
fn resolve_href(base: &str, href: &str) -> (r: Option<String>)
    ensures
        r.deep_view() == resolved_of(base@, href@),
{
    match url::Url::parse(base) {
        Ok(b) => b.join(href).ok().map(|u| u.to_string()),
        Err(_) => None,
    }
}

/// `u` with its fragment removed, as the URL renders afterwards;
/// `u` itself when it does not parse.
pub uninterp spec fn without_fragment_of(u: Seq<char>) -> Seq<char>;

/// Relies on `url::Url::set_fragment` with no fragment: dropping the
/// fragment of a URL is a pure function of its text.
#[verifier::external_body]
fn drop_fragment(u: &str) -> (r: String)
    ensures
        r@ == without_fragment_of(u@),
{
    match url::Url::parse(u) {
        Ok(mut parsed) => {
            parsed.set_fragment(None);
            parsed.to_string()
        },
        Err(_) => u.to_string(),
    }
}

/// `u` with its query removed, as the URL renders afterwards; `u`
/// itself when it does not parse.
pub uninterp spec fn without_query_of(u: Seq<char>) -> Seq<char>;

/// Relies on `url::Url::set_query` with no query: dropping the query
/// of a URL is a pure function of its text.
#[verifier::external_body]
fn drop_query(u: &str) -> (r: String)
    ensures
        r@ == without_query_of(u@),
{
    match url::Url::parse(u) {
        Ok(mut parsed) => {
            parsed.set_query(None);
            parsed.to_string()
        },
        Err(_) => u.to_string(),
    }
}

/// What governs one crawl: where it starts and which URLs it keeps.
#[derive(Debug)]
pub struct CrawlConfig {
    pub base_url: String,
    pub base_domain: Option<String>,
    pub max_depth: usize,
    pub same_domain_only: bool,
    pub ignore_fragments: bool,
    pub ignore_query_params: bool,
}

impl CrawlConfig {
    /// A configuration rooted at `base_url`, rejected when it does not
    /// parse: depth ten, same domain only, fragments ignored, query
    /// parameters kept.
    pub fn new(base_url: &str) -> (r: Result<Self, CrawlerError>)
        ensures
            parses_as_url(base_url@) ==> (r matches Ok(c) && {
                &&& c.base_url@ == base_url@
                &&& c.base_domain.deep_view() == domain_of(base_url@)
                &&& c.max_depth == 10
                &&& c.same_domain_only
                &&& c.ignore_fragments
                &&& !c.ignore_query_params
            }),
            !parses_as_url(base_url@) ==> (r matches Err(e) && e is InvalidUrl),
    {
        match parse_domain(base_url) {
            Some(domain) => Ok(
                CrawlConfig {
                    base_url: base_url.to_owned(),
                    base_domain: domain,
                    max_depth: 10,
                    same_domain_only: true,
                    ignore_fragments: true,
                    ignore_query_params: false,
                },
            ),
            None => Err(CrawlerError::InvalidUrl(base_url.to_owned())),
        }
    }
}

fn vec_contains(v: &Vec<String>, s: &str) -> (r: bool)
    ensures
        r == v.deep_view().contains(s@),
{
    let n = v.len();
    let mut i: usize = 0;
    while i < n
        invariant
            i <= n,
            n == v@.len(),
            forall|k: int| 0 <= k < i ==> v.deep_view()[k] != s@,
        decreases n - i,
    {
        if v[i].as_str().eq(s) {
            proof {
                assert(v.deep_view()[i as int] == s@);
            }
            return true;
        }
        i = i + 1;
    }
    proof {
        if v.deep_view().contains(s@) {
            let k = choose|k: int| 0 <= k < v.deep_view().len() && v.deep_view()[k] == s@;
            assert(false);
        }
    }
    false
}

/// No URL appears twice.
pub open spec fn distinct(s: Seq<Seq<char>>) -> bool {
    forall|i: int, j: int| 0 <= i < j < s.len() ==> s[i] != s[j]
}

proof fn lemma_push_distinct(s: Seq<Seq<char>>, x: Seq<char>)
    requires
        distinct(s),
        !s.contains(x),
    ensures
        distinct(s.push(x)),
{
    assert forall|i: int, j: int| 0 <= i < j < s.push(x).len() implies s.push(x)[i] != s.push(x)[j] by {
        if j == s.len() {
            assert(s.push(x)[i] == s[i]);
            if s[i] == x {
                assert(s.contains(x));
            }
        } else {
            assert(s.push(x)[i] == s[i] && s.push(x)[j] == s[j]);
        }
    }
}

/// The frontier after the links are taken in, one by one in order:
/// a link neither visited nor already in the frontier is appended.
pub open spec fn add_links_spec(
    visited: Seq<Seq<char>>,
    discovered: Seq<Seq<char>>,
    links: Seq<Seq<char>>,
) -> Seq<Seq<char>>
    decreases links.len(),
{
    if links.len() == 0 {
        discovered
    } else {
        let next = if visited.contains(links[0]) || discovered.contains(links[0]) {
            discovered
        } else {
            discovered.push(links[0])
        };
        add_links_spec(visited, next, links.drop_first())
    }
}

/// The first URL of the frontier not yet visited.
pub open spec fn first_unvisited(discovered: Seq<Seq<char>>, visited: Seq<Seq<char>>) -> Option<
    Seq<char>,
>
    decreases discovered.len(),
{
    if discovered.len() == 0 {
        None
    } else if !visited.contains(discovered[0]) {
        Some(discovered[0])
    } else {
        first_unvisited(discovered.drop_first(), visited)
    }
}

/// What one anchor contributes to the frontier under configuration
/// `c`: its href resolved against the page address, the fragment and
/// query dropped as configured, and kept only when the domain rule
/// admits it.
pub open spec fn kept_link_of(c: CrawlConfig, base: Seq<char>, href: Seq<char>) -> Option<
    Seq<char>,
> {
    match resolved_of(base, href) {
        Some(resolved) => {
            let defragged = if c.ignore_fragments {
                without_fragment_of(resolved)
            } else {
                resolved
            };
            let cleaned = if c.ignore_query_params {
                without_query_of(defragged)
            } else {
                defragged
            };
            if !c.same_domain_only || (parses_as_url(cleaned) && domain_of(cleaned)
                == c.base_domain.deep_view()) {
                Some(cleaned)
            } else {
                None
            }
        },
        None => None,
    }
}

/// The links of the listed anchors that the configuration keeps, in
/// document order.
pub open spec fn extracted_links_of(
    c: CrawlConfig,
    base: Seq<char>,
    hrefs: Seq<Seq<char>>,
) -> Seq<Seq<char>>
    decreases hrefs.len(),
{
    if hrefs.len() == 0 {
        Seq::empty()
    } else {
        extracted_links_of(c, base, hrefs.drop_last()) + (match kept_link_of(
            c,
            base,
            hrefs.last(),
        ) {
            Some(l) => seq![l],
            None => Seq::empty(),
        })
    }
}

/// Walks the frontier of one crawl: URLs are visited in discovery
/// order, each at most once.
pub struct Crawler {
    config: CrawlConfig,
    visited: Vec<String>,
    discovered: Vec<String>,
}

impl Crawler {
    /// The visited URLs, in the order they were first visited.
    pub closed spec fn visited_view(self) -> Seq<Seq<char>> {
        self.visited.deep_view()
    }

    /// The discovered URLs (the frontier), in discovery order.
    pub closed spec fn discovered_view(self) -> Seq<Seq<char>> {
        self.discovered.deep_view()
    }

    /// The configuration this crawler follows.
    pub closed spec fn config_spec(self) -> CrawlConfig {
        self.config
    }

    /// Neither list repeats a URL.
    pub closed spec fn wf(self) -> bool {
        distinct(self.visited.deep_view()) && distinct(self.discovered.deep_view())
    }

    /// The configuration this crawler follows.
    pub fn config(&self) -> (r: &CrawlConfig)
        ensures
            *r == self.config_spec(),
    {
        &self.config
    }

    /// A crawler whose frontier starts at the configured base URL,
    /// with nothing visited.
    pub fn new(config: CrawlConfig) -> (r: Crawler)
        ensures
            r.wf(),
            r.visited_view() =~= Seq::<Seq<char>>::empty(),
            r.discovered_view() =~= seq![config.base_url@],
            r.config_spec() == config,
    {
        let mut discovered: Vec<String> = Vec::new();
        discovered.push(config.base_url.clone());
        Crawler { config, visited: Vec::new(), discovered }
    }

    /// Takes links into the frontier, in order, skipping any already
    /// visited or already discovered: the frontier never repeats a
    /// URL.
    pub fn add_discovered_links(&mut self, links: Vec<String>)
        requires
            old(self).wf(),
        ensures
            final(self).wf(),
            final(self).visited_view() == old(self).visited_view(),
            final(self).config_spec() == old(self).config_spec(),
            final(self).discovered_view() == add_links_spec(
                old(self).visited_view(),
                old(self).discovered_view(),
                links.deep_view(),
            ),
    {
        let n = links.len();
        let mut i: usize = 0;
        proof {
            assert(links.deep_view().skip(0) =~= links.deep_view());
        }
        while i < n
            invariant
                i <= n,
                n == links@.len(),
                self.wf(),
                self.config == old(self).config,
                self.visited == old(self).visited,
                add_links_spec(
                    old(self).visited_view(),
                    old(self).discovered_view(),
                    links.deep_view(),
                ) == add_links_spec(
                    self.visited_view(),
                    self.discovered_view(),
                    links.deep_view().skip(i as int),
                ),
            decreases n - i,
        {
            let ghost rest = links.deep_view().skip(i as int);
            let ghost pre = self.discovered.deep_view();
            proof {
                assert(rest[0] == links.deep_view()[i as int]);
                assert(rest.drop_first() =~= links.deep_view().skip(i + 1));
            }
            let link = &links[i];
            let in_visited = vec_contains(&self.visited, link.as_str());
            let in_discovered = vec_contains(&self.discovered, link.as_str());
            if !in_visited && !in_discovered {
                self.discovered.push(link.clone());
                proof {
                    assert(self.discovered.deep_view() =~= pre.push(rest[0]));
                    lemma_push_distinct(pre, rest[0]);
                }
            }
            i = i + 1;
        }
        proof {
            assert(links.deep_view().skip(n as int) =~= Seq::<Seq<char>>::empty());
        }
    }

    /// Hands out the first unvisited URL of the frontier, marking it
    /// visited; `None` once the frontier is exhausted.
    pub fn get_next_url(&mut self) -> (r: Option<String>)
        requires
            old(self).wf(),
        ensures
            final(self).wf(),
            final(self).discovered_view() == old(self).discovered_view(),
            final(self).config_spec() == old(self).config_spec(),
            match r {
                Some(u) => {
                    &&& first_unvisited(old(self).discovered_view(), old(self).visited_view())
                        == Some(u@)
                    &&& final(self).visited_view() == old(self).visited_view().push(u@)
                },
                None => {
                    &&& first_unvisited(old(self).discovered_view(), old(self).visited_view())
                        is None
                    &&& *final(self) == *old(self)
                },
            },
    {
        let n = self.discovered.len();
        let mut i: usize = 0;
        proof {
            assert(self.discovered.deep_view().skip(0) =~= self.discovered.deep_view());
        }
        while i < n
            invariant
                i <= n,
                n == self.discovered@.len(),
                *self == *old(self),
                self.wf(),
                first_unvisited(self.discovered_view(), self.visited_view()) == first_unvisited(
                    self.discovered_view().skip(i as int),
                    self.visited_view(),
                ),
            decreases n - i,
        {
            let ghost rest = self.discovered_view().skip(i as int);
            proof {
                assert(rest[0] == self.discovered_view()[i as int]);
                assert(rest.drop_first() =~= self.discovered_view().skip(i + 1));
            }
            let in_visited = vec_contains(&self.visited, self.discovered[i].as_str());
            if !in_visited {
                let ghost pre = self.visited.deep_view();
                let next = self.discovered[i].clone();
                self.visited.push(next.clone());
                proof {
                    assert(self.visited.deep_view() =~= pre.push(next@));
                    lemma_push_distinct(pre, next@);
                }
                return Some(next);
            }
            i = i + 1;
        }
        proof {
            assert(self.discovered_view().skip(n as int) =~= Seq::<Seq<char>>::empty());
        }
        None
    }

    /// Marks a URL visited (a no-op when it already is): the visited
    /// list never repeats a URL.
    pub fn mark_visited(&mut self, url: &str)
        requires
            old(self).wf(),
        ensures
            final(self).wf(),
            final(self).discovered_view() == old(self).discovered_view(),
            final(self).config_spec() == old(self).config_spec(),
            final(self).visited_view() == if old(self).visited_view().contains(url@) {
                old(self).visited_view()
            } else {
                old(self).visited_view().push(url@)
            },
    {
        if !vec_contains(&self.visited, url) {
            let ghost pre = self.visited.deep_view();
            self.visited.push(url.to_owned());
            proof {
                assert(self.visited.deep_view() =~= pre.push(url@));
                lemma_push_distinct(pre, url@);
            }
        }
    }

    /// Whether a URL was visited.
    pub fn is_visited(&self, url: &str) -> (r: bool)
        ensures
            r == self.visited_view().contains(url@),
    {
        vec_contains(&self.visited, url)
    }

    /// How many URLs were visited.
    pub fn get_visited_count(&self) -> (r: usize)
        ensures
            r == self.visited_view().len(),
    {
        self.visited.len()
    }

    /// How many URLs were discovered.
    pub fn get_discovered_count(&self) -> (r: usize)
        ensures
            r == self.discovered_view().len(),
    {
        self.discovered.len()
    }

    /// How many discovered URLs are not yet visited (counting the
    /// lists; never below zero).
    pub fn get_remaining_count(&self) -> (r: usize)
        ensures
            r == if self.discovered_view().len() >= self.visited_view().len() {
                self.discovered_view().len() - self.visited_view().len()
            } else {
                0
            },
    {
        let d = self.discovered.len();
        let v = self.visited.len();
        if d >= v {
            d - v
        } else {
            0
        }
    }

    /// Whether any discovered URL is still unvisited, by the counts.
    pub fn has_more_urls(&self) -> (r: bool)
        ensures
            r == (self.discovered_view().len() > self.visited_view().len()),
    {
        self.get_remaining_count() > 0
    }

    /// Pulls the anchors out of one page's HTML and keeps the links
    /// the configuration admits, in document order: each href is
    /// resolved against the page address, its fragment and query are
    /// dropped as configured, and — on same-domain crawls — only a
    /// link whose domain matches the base URL's is kept.  Rejected
    /// when the page address itself does not parse.
    pub fn extract_links_from_html(&self, html: &str, current_url: &str) -> (r: Result<
        Vec<String>,
        CrawlerError,
    >)
        ensures
            parses_as_url(current_url@) ==> (r matches Ok(links) && links.deep_view()
                == extracted_links_of(self.config_spec(), current_url@, anchor_hrefs_of(html@))),
            !parses_as_url(current_url@) ==> (r matches Err(e) && e is InvalidUrl),
    {
        if parse_domain(current_url).is_none() {
            return Err(CrawlerError::InvalidUrl(current_url.to_owned()));
        }
        let hrefs = anchor_hrefs(html);
        let n = hrefs.len();
        let mut links: Vec<String> = Vec::new();
        let mut i: usize = 0;
        proof {
            assert(hrefs.deep_view().take(0) =~= Seq::<Seq<char>>::empty());
        }
        while i < n
            invariant
                i <= n,
                n == hrefs@.len(),
                hrefs.deep_view() == anchor_hrefs_of(html@),
                links.deep_view() == extracted_links_of(
                    self.config_spec(),
                    current_url@,
                    hrefs.deep_view().take(i as int),
                ),
            decreases n - i,
        {
            let ghost cfg = self.config_spec();
            let ghost href = hrefs.deep_view()[i as int];
            match resolve_href(current_url, hrefs[i].as_str()) {
                Some(resolved) => {
                    proof {
                        assert(resolved_of(current_url@, href) == Some(resolved@));
                    }
                    let defragged = if self.config.ignore_fragments {
                        drop_fragment(resolved.as_str())
                    } else {
                        resolved
                    };
                    let cleaned = if self.config.ignore_query_params {
                        drop_query(defragged.as_str())
                    } else {
                        defragged
                    };
                    let keep = if self.config.same_domain_only {
                        match parse_domain(cleaned.as_str()) {
                            Some(domain) => match (&domain, &self.config.base_domain) {
                                (Some(a), Some(b)) => a.eq(b),
                                (None, None) => true,
                                _ => false,
                            },
                            None => false,
                        }
                    } else {
                        true
                    };
                    proof {
                        if keep {
                            assert(kept_link_of(cfg, current_url@, href) == Some(cleaned@));
                        } else {
                            assert(kept_link_of(cfg, current_url@, href) is None);
                        }
                    }
                    if keep {
                        links.push(cleaned);
                    }
                },
                None => {
                    proof {
                        assert(kept_link_of(cfg, current_url@, href) is None);
                    }
                },
            }
            proof {
                let rows = hrefs.deep_view();
                assert(rows.take(i + 1).drop_last() =~= rows.take(i as int));
                assert(rows.take(i + 1).last() == rows[i as int]);
                assert(links.deep_view() =~= extracted_links_of(cfg, current_url@, rows.take(i + 1)));
            }
            i = i + 1;
        }
        proof {
            assert(hrefs.deep_view().take(n as int) =~= hrefs.deep_view());
        }
        Ok(links)
    }

    /// Whether `url`'s domain equals the base URL's; an unparseable
    /// `url` is rejected.
    pub fn is_same_domain(&self, url: &str) -> (r: Result<bool, CrawlerError>)
        ensures
            parses_as_url(url@) ==> (r matches Ok(b) && b == (domain_of(url@)
                == self.config_spec().base_domain.deep_view())),
            !parses_as_url(url@) ==> (r matches Err(e) && e is InvalidUrl),
    {
        match parse_domain(url) {
            Some(domain) => {
                let same = match (&domain, &self.config.base_domain) {
                    (Some(a), Some(b)) => a.eq(b),
                    (None, None) => true,
                    _ => false,
                };
                Ok(same)
            },
            None => Err(CrawlerError::InvalidUrl(url.to_owned())),
        }
    }
}

} // verus!
