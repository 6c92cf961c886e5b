use crate::error::Error;
use vstd::prelude::*;
use vstd::string::StringExecFns;

verus! {

/// The search services that a query can be sent to.
pub enum Services {
    Scholar,
}

/// The search parameters of one query.
pub struct ScholarArgs {
    /// `q`: the search text; required.
    pub query: String,
    /// `cites`: a citation id, to list the works that cite it.
    pub cite_id: Option<&'static str>,
    /// `as_ylo`: only results from this year on.
    pub from_year: Option<u16>,
    /// `as_yhi`: only results up to this year.
    pub to_year: Option<u16>,
    /// `scisbd`: 0 for relevance, 1 for abstracts only, 2 for everything;
    /// other values are left out of the URL.
    pub sort_by: Option<u8>,
    /// `cluster`: query all versions of a work.
    pub cluster_id: Option<&'static str>,
    /// `hl`: interface language, such as `en`.
    pub lang: Option<&'static str>,
    /// `lr`: one or more languages to limit the results to, such as
    /// `lang_fr|lang_en`.
    pub lang_limit: Option<&'static str>,
    /// `num`: the largest number of results to return.
    pub limit: Option<u32>,
    /// `start`: the offset of the first result, for paging.
    pub offset: Option<u32>,
    /// `safe`: `active` or `off`.
    pub adult_filtering: Option<bool>,
    /// `filter`: 1 for similar results, 0 for omitted ones.
    pub include_similar_results: Option<bool>,
    /// `as_vis`: 1 to include citations, 0 otherwise.
    pub include_citations: Option<bool>,
}

/// The endpoint of a service, up to and including the `?` before its
/// parameters.
pub open spec fn base_url(service: Services) -> Seq<char> {
    match service {
        Services::Scholar => "https://scholar.google.com/scholar?"@,
    }
}

/// The character of a decimal digit.
pub open spec fn digit_char(d: nat) -> char {
    if d == 0 {
        '0'
    } else if d == 1 {
        '1'
    } else if d == 2 {
        '2'
    } else if d == 3 {
        '3'
    } else if d == 4 {
        '4'
    } else if d == 5 {
        '5'
    } else if d == 6 {
        '6'
    } else if d == 7 {
        '7'
    } else if d == 8 {
        '8'
    } else {
        '9'
    }
}

/// The decimal form of a number: no sign, no leading zeros, no grouping.
pub open spec fn decimal(n: nat) -> Seq<char>
    decreases n,
{
    if n < 10 {
        seq![digit_char(n)]
    } else {
        decimal(n / 10) + seq![digit_char(n % 10)]
    }
}

/// `key` followed by the text, or nothing when the field is absent.
pub open spec fn text_param(key: Seq<char>, v: Option<&'static str>) -> Seq<char> {
    match v {
        Some(s) => key + s@,
        None => Seq::empty(),
    }
}

/// `key` followed by the number in decimal, or nothing when it is absent.
pub open spec fn number_param(key: Seq<char>, v: Option<nat>) -> Seq<char> {
    match v {
        Some(n) => key + decimal(n),
        None => Seq::empty(),
    }
}

/// The token for a flag: `on` when it is set, `off` otherwise.
pub open spec fn flag_token(b: bool, on: Seq<char>, off: Seq<char>) -> Seq<char> {
    if b {
        on
    } else {
        off
    }
}

/// `key` followed by the token for the flag, or nothing when it is absent.
pub open spec fn flag_param(key: Seq<char>, v: Option<bool>, on: Seq<char>, off: Seq<char>) -> Seq<
    char,
> {
    match v {
        Some(b) => key + flag_token(b, on, off),
        None => Seq::empty(),
    }
}

/// An optional year as a number.
pub open spec fn opt_u16(v: Option<u16>) -> Option<nat> {
    match v {
        Some(n) => Some(n as nat),
        None => None,
    }
}

/// An optional count as a number.
pub open spec fn opt_u32(v: Option<u32>) -> Option<nat> {
    match v {
        Some(n) => Some(n as nat),
        None => None,
    }
}

/// The sort mode as it goes into the URL: only the three defined values.
pub open spec fn sort_mode(v: Option<u8>) -> Option<nat> {
    match v {
        Some(n) => if n < 3 {
            Some(n as nat)
        } else {
            None
        },
        None => None,
    }
}

/// The request URL as assembled, before it is parsed and normalised: the
/// endpoint, `q=` and the query text, then each present optional parameter as
/// `&key=value`, in a fixed order.
pub open spec fn composed_url(a: ScholarArgs) -> Seq<char> {
    base_url(Services::Scholar) + "q="@ + a.query@ + text_param("&cites="@, a.cite_id)
        + number_param("&as_ylo="@, opt_u16(a.from_year)) + number_param(
        "&as_yhi="@,
        opt_u16(a.to_year),
    ) + number_param("&scisbd="@, sort_mode(a.sort_by)) + text_param("&cluster="@, a.cluster_id)
        + text_param("&hl="@, a.lang) + text_param("&lr="@, a.lang_limit) + number_param(
        "&num="@,
        opt_u32(a.limit),
    ) + number_param("&start="@, opt_u32(a.offset)) + flag_param(
        "&safe="@,
        a.adult_filtering,
        "active"@,
        "off"@,
    ) + flag_param("&filter="@, a.include_similar_results, "1"@, "0"@) + flag_param(
        "&as_vis="@,
        a.include_citations,
        "1"@,
        "0"@,
    )
}

/// What `url::Url::parse` followed by the URL's text gives for a string: the
/// normalised URL, or `None` where parsing fails.
pub uninterp spec fn normalized_url(s: Seq<char>) -> Option<Seq<char>>;

/// Relies on `url::Url::parse`, and on the parsed URL's `to_string`, to check
/// and normalise an absolute URL.
#[verifier::external_body]
fn normalize_url(s: &str) -> (r: Option<String>)
    ensures
        match r {
            Some(u) => normalized_url(s@) == Some(u@),
            None => normalized_url(s@) is None,
        },
{
    url::Url::parse(s).ok().map(|u| u.to_string())
}

/// With every optional parameter absent, the assembled URL is the endpoint,
/// `q=` and the query text, with nothing after it.
pub proof fn lemma_query_only_url(a: ScholarArgs)
    requires
        a.query@.len() > 0,
        a.cite_id is None,
        a.from_year is None,
        a.to_year is None,
        a.sort_by is None,
        a.cluster_id is None,
        a.lang is None,
        a.lang_limit is None,
        a.limit is None,
        a.offset is None,
        a.adult_filtering is None,
        a.include_similar_results is None,
        a.include_citations is None,
    ensures
        composed_url(a) == "https://scholar.google.com/scholar?"@ + "q="@ + a.query@,
{
    assert(composed_url(a) =~= "https://scholar.google.com/scholar?"@ + "q="@ + a.query@);
}

/// With every optional parameter present (and a defined sort mode), each
/// appears once, as `&key=value`, in the fixed order: cites, as_ylo, as_yhi,
/// scisbd, cluster, hl, lr, num, start, safe, filter, as_vis.
pub proof fn lemma_full_url_order(a: ScholarArgs)
    requires
        a.cite_id is Some,
        a.from_year is Some,
        a.to_year is Some,
        a.sort_by is Some,
        a.sort_by->0 < 3,
        a.cluster_id is Some,
        a.lang is Some,
        a.lang_limit is Some,
        a.limit is Some,
        a.offset is Some,
        a.adult_filtering is Some,
        a.include_similar_results is Some,
        a.include_citations is Some,
    ensures
        composed_url(a) == "https://scholar.google.com/scholar?"@ + "q="@ + a.query@ + "&cites="@
            + a.cite_id->0@ + "&as_ylo="@ + decimal(a.from_year->0 as nat) + "&as_yhi="@
            + decimal(a.to_year->0 as nat) + "&scisbd="@ + decimal(a.sort_by->0 as nat)
            + "&cluster="@ + a.cluster_id->0@ + "&hl="@ + a.lang->0@ + "&lr="@
            + a.lang_limit->0@ + "&num="@ + decimal(a.limit->0 as nat) + "&start="@ + decimal(
            a.offset->0 as nat,
        ) + "&safe="@ + flag_token(a.adult_filtering->0, "active"@, "off"@) + "&filter="@
            + flag_token(a.include_similar_results->0, "1"@, "0"@) + "&as_vis="@ + flag_token(
            a.include_citations->0,
            "1"@,
            "0"@,
        ),
{
    let p0 = "https://scholar.google.com/scholar?"@ + "q="@ + a.query@;
    lemma_append_pair(p0, "&cites="@, a.cite_id->0@);
    let p1 = p0 + "&cites="@ + a.cite_id->0@;
    lemma_append_pair(p1, "&as_ylo="@, decimal(a.from_year->0 as nat));
    let p2 = p1 + "&as_ylo="@ + decimal(a.from_year->0 as nat);
    lemma_append_pair(p2, "&as_yhi="@, decimal(a.to_year->0 as nat));
    let p3 = p2 + "&as_yhi="@ + decimal(a.to_year->0 as nat);
    lemma_append_pair(p3, "&scisbd="@, decimal(a.sort_by->0 as nat));
    let p4 = p3 + "&scisbd="@ + decimal(a.sort_by->0 as nat);
    lemma_append_pair(p4, "&cluster="@, a.cluster_id->0@);
    let p5 = p4 + "&cluster="@ + a.cluster_id->0@;
    lemma_append_pair(p5, "&hl="@, a.lang->0@);
    let p6 = p5 + "&hl="@ + a.lang->0@;
    lemma_append_pair(p6, "&lr="@, a.lang_limit->0@);
    let p7 = p6 + "&lr="@ + a.lang_limit->0@;
    lemma_append_pair(p7, "&num="@, decimal(a.limit->0 as nat));
    let p8 = p7 + "&num="@ + decimal(a.limit->0 as nat);
    lemma_append_pair(p8, "&start="@, decimal(a.offset->0 as nat));
    let p9 = p8 + "&start="@ + decimal(a.offset->0 as nat);
    lemma_append_pair(p9, "&safe="@, flag_token(a.adult_filtering->0, "active"@, "off"@));
    let p10 = p9 + "&safe="@ + flag_token(a.adult_filtering->0, "active"@, "off"@);
    lemma_append_pair(p10, "&filter="@, flag_token(a.include_similar_results->0, "1"@, "0"@));
    let p11 = p10 + "&filter="@ + flag_token(a.include_similar_results->0, "1"@, "0"@);
    lemma_append_pair(p11, "&as_vis="@, flag_token(a.include_citations->0, "1"@, "0"@));
}

proof fn lemma_append_pair(x: Seq<char>, k: Seq<char>, v: Seq<char>)
    ensures
        x + (k + v) == x + k + v,
{
    assert(x + (k + v) =~= x + k + v);
}

/// A sort mode outside the three defined values is dropped, not refused: the
/// URL is the one assembled with no sort mode at all.
pub proof fn lemma_unknown_sort_mode_dropped(a: ScholarArgs, b: ScholarArgs)
    requires
        a.sort_by is Some,
        a.sort_by->0 >= 3,
        b == (ScholarArgs { sort_by: None, ..a }),
    ensures
        composed_url(a) == composed_url(b),
{
}

/// The endpoint of a service, ending in `?`.
pub fn get_base_url(service: Services) -> (r: &'static str)
    ensures
        r@ == base_url(service),
{
    match service {
        Services::Scholar => "https://scholar.google.com/scholar?",
    }
}

/// The text of a decimal digit.
fn digit_str(d: u32) -> (r: &'static str)
    requires
        d < 10,
    ensures
        r@ == seq![digit_char(d as nat)],
{
    if d == 0 {
        proof { reveal_strlit("0"); }
        "0"
    } else if d == 1 {
        proof { reveal_strlit("1"); }
        "1"
    } else if d == 2 {
        proof { reveal_strlit("2"); }
        "2"
    } else if d == 3 {
        proof { reveal_strlit("3"); }
        "3"
    } else if d == 4 {
        proof { reveal_strlit("4"); }
        "4"
    } else if d == 5 {
        proof { reveal_strlit("5"); }
        "5"
    } else if d == 6 {
        proof { reveal_strlit("6"); }
        "6"
    } else if d == 7 {
        proof { reveal_strlit("7"); }
        "7"
    } else if d == 8 {
        proof { reveal_strlit("8"); }
        "8"
    } else {
        proof { reveal_strlit("9"); }
        "9"
    }
}

/// Appends the decimal form of `n`.
fn push_decimal(s: &mut String, n: u32)
    ensures
        final(s)@ == old(s)@ + decimal(n as nat),
    decreases n,
{
    if n < 10 {
        s.append(digit_str(n));
    } else {
        let ghost start = s@;
        push_decimal(s, n / 10);
        s.append(digit_str(n % 10));
        assert(s@ == start + (decimal((n / 10) as nat) + seq![digit_char((n % 10) as nat)]));
    }
}

/// Appends `key` and the number, when there is one.
fn push_number(s: &mut String, key: &str, v: Option<u32>)
    ensures
        final(s)@ == old(s)@ + number_param(key@, opt_u32(v)),
{
    if let Some(n) = v {
        s.append(key);
        push_decimal(s, n);
        assert(final(s)@ =~= old(s)@ + (key@ + decimal(n as nat)));
    } else {
        assert(s@ =~= old(s)@ + Seq::<char>::empty());
    }
}

/// Appends `key` and the text, when there is one.
fn push_text(s: &mut String, key: &str, v: Option<&'static str>)
    ensures
        final(s)@ == old(s)@ + text_param(key@, v),
{
    if let Some(t) = v {
        s.append(key);
        s.append(t);
        assert(final(s)@ =~= old(s)@ + (key@ + t@));
    } else {
        assert(s@ =~= old(s)@ + Seq::<char>::empty());
    }
}

/// Appends `key` and the token for the flag, when there is one.
fn push_flag(s: &mut String, key: &str, v: Option<bool>, on: &str, off: &str)
    ensures
        final(s)@ == old(s)@ + flag_param(key@, v, on@, off@),
{
    if let Some(b) = v {
        s.append(key);
        if b {
            s.append(on);
        } else {
            s.append(off);
        }
        assert(final(s)@ =~= old(s)@ + (key@ + flag_token(b, on@, off@)));
    } else {
        assert(s@ =~= old(s)@ + Seq::<char>::empty());
    }
}

impl ScholarArgs {
    /// The service these parameters are for.
    pub fn get_service(&self) -> (r: Services)
        ensures
            r == Services::Scholar,
    {
        Services::Scholar
    }

    /// The request URL as assembled from the parameters, before it is
    /// parsed: the endpoint, `q=` and the query text, then each present
    /// optional parameter in its fixed order.
    pub fn compose_url(&self) -> (r: String)
        ensures
            r@ == composed_url(*self),
    {
        let mut url = String::from_str(get_base_url(self.get_service()));
        url.append("q=");
        url.append(self.query.as_str());
        push_text(&mut url, "&cites=", self.cite_id);
        let from_year = match self.from_year {
            Some(y) => Some(y as u32),
            None => None,
        };
        push_number(&mut url, "&as_ylo=", from_year);
        let to_year = match self.to_year {
            Some(y) => Some(y as u32),
            None => None,
        };
        push_number(&mut url, "&as_yhi=", to_year);
        let sort_by = match self.sort_by {
            Some(m) => if m < 3 {
                Some(m as u32)
            } else {
                None
            },
            None => None,
        };
        push_number(&mut url, "&scisbd=", sort_by);
        push_text(&mut url, "&cluster=", self.cluster_id);
        push_text(&mut url, "&hl=", self.lang);
        push_text(&mut url, "&lr=", self.lang_limit);
        push_number(&mut url, "&num=", self.limit);
        push_number(&mut url, "&start=", self.offset);
        push_flag(&mut url, "&safe=", self.adult_filtering, "active", "off");
        push_flag(&mut url, "&filter=", self.include_similar_results, "1", "0");
        push_flag(&mut url, "&as_vis=", self.include_citations, "1", "0");
        assert(opt_u16(self.from_year) == opt_u32(from_year));
        assert(opt_u16(self.to_year) == opt_u32(to_year));
        assert(sort_mode(self.sort_by) == opt_u32(sort_by));
        url
    }

    /// The normalised request URL. An empty query text is refused; so is an
    /// assembled URL that does not parse.
    pub fn get_url(&self) -> (r: Result<String, Error>)
        ensures
            self.query@.len() == 0 ==> r matches Err(Error::RequiredFieldError),
            self.query@.len() > 0 ==> match normalized_url(composed_url(*self)) {
                Some(u) => r is Ok && r->Ok_0@ == u,
                None => r matches Err(Error::MalformedUrlError),
            },
    {
        if self.query.as_str().is_empty() {
            return Err(Error::RequiredFieldError);
        }
        let url = self.compose_url();
        match normalize_url(url.as_str()) {
            Some(u) => Ok(u),
            None => Err(Error::MalformedUrlError),
        }
    }
}

} // verus!
