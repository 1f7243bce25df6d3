//! Finding a product picture: the image addresses that an image-search
//! result page lists in its "preview" entries, made absolute.
use vstd::prelude::*;
use vstd::string::StringExecFns;
use regex::Regex;
use crate::http::{empty_reply, is_text, text_reply, Body, JsonBody, Reply, Status};
use crate::text::{contains, contains_spec, starts_with, starts_with_spec};

verus! {

#[verifier::external_type_specification]
#[verifier::external_body]
pub struct ExRegex(Regex);

/// Whether `Regex::new(pattern)` succeeds.
pub uninterp spec fn regex_compiles(pattern: Seq<char>) -> bool;

/// What `captures_iter(text)` of the compiled `pattern` yields, each match
/// taken by the text of its capture group `group` (`None` when that group
/// did not take part in the match).
pub uninterp spec fn regex_group_captures(pattern: Seq<char>, text: Seq<char>, group: nat) -> Seq<Option<Seq<char>>>;

/// A compiled regular expression together with its source text.
pub struct Pattern {
    source: String,
    compiled: Regex,
}

impl Pattern {
    /// The source text of the expression.
    pub closed spec fn source(&self) -> Seq<char> {
        self.source@
    }
}

/// Calls `Regex::new(source)`; the contract says when it succeeds, by name,
/// and keeps the source beside the compiled expression.
#[verifier::external_body]
fn compile_pattern(source: &str) -> (r: Option<Pattern>)
    ensures
        r is Some <==> regex_compiles(source@),
        r matches Some(p) ==> p.source() == source@,
{
    match Regex::new(source) {
        Ok(compiled) => Some(Pattern { source: source.to_string(), compiled }),
        Err(_) => None,
    }
}

/// Optional texts, by their characters.
pub open spec fn optional_texts(v: Seq<Option<String>>) -> Seq<Option<Seq<char>>> {
    v.map_values(|o: Option<String>| match o {
        Some(s) => Some(s@),
        None => None,
    })
}

/// Texts, by their characters.
pub open spec fn texts(v: Seq<String>) -> Seq<Seq<char>> {
    v.map_values(|s: String| s@)
}

/// Calls `captures_iter(text)` on the compiled expression and takes each
/// match's capture group `group` as text; the contract names the result.
#[verifier::external_body]
fn group_captures(pattern: &Pattern, text: &str, group: usize) -> (r: Vec<Option<String>>)
    ensures
        optional_texts(r@) == regex_group_captures(pattern.source(), text@, group as nat),
{
    pattern.compiled.captures_iter(text).map(|c| c.get(group).map(|m| m.as_str().to_string())).collect()
}

/// The expression that picks the address out of a `"preview":[{"url":"..."` entry.
pub open spec fn preview_url_pattern() -> Seq<char> {
    r#""preview":\[\{"url":"([^"]+)"#@
}

/// An address as it is handed out: kept if it starts with "http", otherwise
/// taken as a scheme-less address and given "https://".
pub open spec fn normalize_url(u: Seq<char>) -> Seq<char> {
    if starts_with_spec(u, "http"@) {
        u
    } else {
        "https://"@ + u
    }
}

/// The addresses made from the captures, in order; a capture without text
/// gives none.
pub open spec fn normalized_urls(caps: Seq<Option<Seq<char>>>) -> Seq<Seq<char>>
    decreases caps.len(),
{
    if caps.len() == 0 {
        Seq::empty()
    } else {
        let rest = normalized_urls(caps.drop_last());
        match caps.last() {
            Some(u) => rest.push(normalize_url(u)),
            None => rest,
        }
    }
}

/// Makes the captured addresses absolute, in order.
pub fn normalize_logo_urls(captures: Vec<Option<String>>) -> (r: Vec<String>)
    ensures
        texts(r@) == normalized_urls(optional_texts(captures@)),
{
    let ghost caps = captures@;
    let mut ans: Vec<String> = Vec::new();
    for val in it: captures
        invariant
            it.seq() == caps,
            texts(ans@) == normalized_urls(optional_texts(caps.subrange(0, it.index() as int))),
    {
        let ghost i = it.index();
        assert(optional_texts(caps.subrange(0, i + 1)).drop_last() =~= optional_texts(caps.subrange(0, i)));
        match val {
            Some(url) => {
                if starts_with(url.as_str(), "http") {
                    ans.push(url);
                } else {
                    let mut full = "https://".to_owned();
                    full.append(url.as_str());
                    ans.push(full);
                }
            },
            None => {},
        }
        assert(texts(ans@) =~= normalized_urls(optional_texts(caps.subrange(0, i + 1))));
    }
    assert(caps.subrange(0, caps.len() as int) =~= caps);
    ans
}

/// The picture addresses listed on a search result page; `None` if the
/// expression does not compile.
pub fn logo_urls(page: &str) -> (r: Option<Vec<String>>)
    ensures
        r is Some <==> regex_compiles(preview_url_pattern()),
        r matches Some(v) ==> texts(v@) == normalized_urls(regex_group_captures(preview_url_pattern(), page@, 1)),
{
    let pattern = match compile_pattern(r#""preview":\[\{"url":"([^"]+)"#) {
        Some(p) => p,
        None => {
            return None;
        },
    };
    let caps = group_captures(&pattern, page, 1);
    Some(normalize_logo_urls(caps))
}

/// The sentence by which the search site says that it is overloaded.
pub open spec fn overload_notice() -> Seq<char> {
    "Нам очень жаль"@
}

/// The addresses that the fetched search page offers for a product picture,
/// or why there are none.
pub fn get_logo_url(fetched: Result<String, String>) -> (r: Result<Vec<String>, String>)
    ensures
        match fetched {
            Err(e) => r == Err::<Vec<String>, String>(e),
            Ok(page) => if regex_compiles(preview_url_pattern()) {
                r matches Ok(v) && texts(v@) == normalized_urls(regex_group_captures(preview_url_pattern(), page@, 1))
            } else {
                r matches Err(t) && t@ == "internal error"@
            },
        },
{
    match fetched {
        Err(e) => Err(e),
        Ok(page) => match logo_urls(page.as_str()) {
            Some(v) => Ok(v),
            None => Err("internal error".to_owned()),
        },
    }
}

/// Answers a picture search from the fetched result page (or the text of the
/// fetch's error, sent with a 500): the list of addresses as JSON, or
/// "the external server is overloaded" when the page says so.
pub fn find_logo(fetched: Result<String, String>) -> (r: Reply)
    ensures
        match fetched {
            Err(e) => r.status == Status::InternalServerError && is_text(r.body, e@),
            Ok(page) => if !regex_compiles(preview_url_pattern()) {
                r.status == Status::InternalServerError && r.body is Empty
            } else if contains_spec(page@, overload_notice()) {
                r.status == Status::Success && is_text(r.body, "the external server is overloaded"@)
            } else {
                r.status == Status::Success && (r.body matches Body::Json(JsonBody::Urls(v))
                    && texts(v@) == normalized_urls(regex_group_captures(preview_url_pattern(), page@, 1)))
            },
        },
{
    let res = match fetched {
        Ok(v) => v,
        Err(err) => {
            return text_reply(Status::InternalServerError, err);
        },
    };
    let ans = match logo_urls(res.as_str()) {
        Some(v) => v,
        None => {
            return empty_reply(Status::InternalServerError);
        },
    };
    if contains(res.as_str(), "Нам очень жаль") {
        return text_reply(Status::Success, "the external server is overloaded".to_owned());
    }
    Reply { status: Status::Success, body: Body::Json(JsonBody::Urls(ans)) }
}


/// Every address handed out starts with "http": one that did not is given
/// "https://" in front.
pub proof fn normalized_urls_start_with_http(caps: Seq<Option<Seq<char>>>)
    ensures
        forall|i: int|
            0 <= i < normalized_urls(caps).len() ==> starts_with_spec(
                #[trigger] normalized_urls(caps)[i],
                "http"@,
            ),
    decreases caps.len(),
{
    reveal_strlit("http");
    reveal_strlit("https://");
    if caps.len() > 0 {
        let rest = normalized_urls(caps.drop_last());
        normalized_urls_start_with_http(caps.drop_last());
        match caps.last() {
            Some(u) => {
                if !starts_with_spec(u, "http"@) {
                    assert(("https://"@ + u).subrange(0, 4) =~= "http"@);
                }
                assert(starts_with_spec(normalize_url(u), "http"@));
                assert forall|i: int| 0 <= i < normalized_urls(caps).len() implies starts_with_spec(
                    #[trigger] normalized_urls(caps)[i],
                    "http"@,
                ) by {
                    if i < rest.len() {
                        assert(normalized_urls(caps)[i] == rest[i]);
                    }
                }
            },
            None => {},
        }
    }
}

/// The address list has one entry per capture that has text, in the
/// captures' order: entry `k` is the `k`-th captured address, kept when it
/// begins with "http" and given "https://" in front otherwise. No capture
/// with text is dropped, and nothing else is added.
pub proof fn normalized_urls_are_the_captured_addresses(caps: Seq<Option<Seq<char>>>)
    ensures
        normalized_urls(caps).len() == caps.filter(|o: Option<Seq<char>>| o is Some).len(),
        normalized_urls(caps) == caps.filter(|o: Option<Seq<char>>| o is Some).map_values(
            |o: Option<Seq<char>>|
                {
                    let u = match o {
                        Some(u) => u,
                        None => Seq::empty(),
                    };
                    if u.len() >= 4 && u.subrange(0, 4) == "http"@ {
                        u
                    } else {
                        "https://"@ + u
                    }
                },
        ),
    decreases caps.len(),
{
    reveal_with_fuel(Seq::<_>::filter, 1);
    reveal_strlit("http");
    let f = |o: Option<Seq<char>>|
        {
            let u = match o {
                Some(u) => u,
                None => Seq::empty(),
            };
            if u.len() >= 4 && u.subrange(0, 4) == "http"@ {
                u
            } else {
                "https://"@ + u
            }
        };
    let pred = |o: Option<Seq<char>>| o is Some;
    if caps.len() > 0 {
        normalized_urls_are_the_captured_addresses(caps.drop_last());
        let sub = caps.drop_last().filter(pred);
        match caps.last() {
            Some(u) => {
                assert(caps.filter(pred) == sub.push(caps.last()));
                assert(sub.push(caps.last()).map_values(f) =~= sub.map_values(f).push(f(caps.last())));
                assert(f(caps.last()) == normalize_url(u));
            },
            None => {
                assert(caps.filter(pred) == sub);
            },
        }
    } else {
        assert(caps.filter(pred).map_values(f) =~= Seq::<Seq<char>>::empty());
    }
}

/// The expression that picks out the addresses is exactly
/// `"preview":\[\{"url":"([^"]+)`: an opening quote, the word preview, a
/// quote, a colon, an escaped `[` and `{`, `"url":"`, then a capture of one
/// or more characters other than a quote, and nothing after the capture.
pub proof fn preview_pattern_is_the_preview_url_expression()
    ensures
        preview_url_pattern() =~= seq![
            '"', 'p', 'r', 'e', 'v', 'i', 'e', 'w', '"', ':', '\\', '[', '\\', '{', '"', 'u', 'r',
            'l', '"', ':', '"', '(', '[', '^', '"', ']', '+', ')',
        ],
{
    reveal_strlit(r#""preview":\[\{"url":"([^"]+)"#);
}

} // verus!
