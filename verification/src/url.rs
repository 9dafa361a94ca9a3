//! Building URLs from a base, a path and query parameters. The shape of a
//! URL is checked against two regular expressions; keys and values of the
//! query are percent-encoded.

use vstd::prelude::*;
use vstd::string::*;
use crate::errors::{invalid_error, Error, ErrorCode};

verus! {

/// The pattern that a base URL must match.
pub const BASE_URL_PATTERN: &'static str = r"^(https?://)?(www\.)?([\w-]+\.[a-z]+)(/)?$";

/// The pattern that a finished URL must match.
pub const URL_PATTERN: &'static str = r"^(https?://)?(www\.)?([\w-]+\.[a-z]+)(/.*)?(\?.*)?$";

/// Whether the regular expression `pattern`, as the `regex` crate reads it,
/// matches somewhere in `text`; `None` where the pattern does not compile.
pub uninterp spec fn regex_verdict(pattern: Seq<char>, text: Seq<char>) -> Option<bool>;

/// The percent-encoding of the UTF-8 bytes of `text` in which every byte
/// but ASCII letters and digits is escaped.
pub uninterp spec fn percent_encoded(text: Seq<char>) -> Seq<char>;

/// `regex::Regex::new` on `pattern` and, where that compiles,
/// `Regex::is_match` on `text`. Both depend on their arguments alone; the
/// result is named, not described.
#[verifier::external_body]
pub(crate) fn pattern_matches(pattern: &str, text: &str) -> (r: Option<bool>)
    ensures
        r == regex_verdict(pattern@, text@),
{
    match regex::Regex::new(pattern) {
        Ok(re) => Some(re.is_match(text)),
        Err(_) => None,
    }
}

/// `percent_encoding::utf8_percent_encode` with the set `NON_ALPHANUMERIC`,
/// collected into a string. It depends on its argument alone; the result is
/// named, not described.
#[verifier::external_body]
pub(crate) fn encode_url(url: &str) -> (r: String)
    ensures
        r@ == percent_encoded(url@),
{
    percent_encoding::utf8_percent_encode(url, percent_encoding::NON_ALPHANUMERIC).to_string()
}

/// Query parameters: keys with their values, in order.
pub type HttpParams = Vec<(String, String)>;

/// What a [`Url`] holds, as mathematical values.
pub struct UrlView {
    pub base_url: Seq<char>,
    pub path: Option<Seq<char>>,
    pub params: Option<Seq<(Seq<char>, Seq<char>)>>,
}

/// The texts of the keys and values in `params`.
pub open spec fn params_view(params: Seq<(String, String)>) -> Seq<(Seq<char>, Seq<char>)> {
    Seq::new(params.len(), |i: int| (params[i].0@, params[i].1@))
}

/// `text` with a slash at its end, added where it has none.
pub open spec fn with_trailing_slash(text: Seq<char>) -> Seq<char> {
    if text.len() > 0 && text.last() == '/' {
        text
    } else {
        text.push('/')
    }
}

/// `text` without the slash at its beginning, where it has one.
pub open spec fn without_leading_slash(text: Seq<char>) -> Seq<char> {
    if text.len() > 0 && text[0] == '/' {
        text.subrange(1, text.len() as int)
    } else {
        text
    }
}

/// The query string of `params`: `?` before the first pair, `&` before each
/// other, `=` between key and value.
pub open spec fn query_text(params: Seq<(Seq<char>, Seq<char>)>) -> Seq<char>
    decreases params.len(),
{
    if params.len() == 0 {
        Seq::empty()
    } else {
        query_text(params.drop_last()) + (if params.len() == 1 {
            "?"@
        } else {
            "&"@
        }) + params.last().0 + "="@ + params.last().1
    }
}

/// The text of a URL: base, path and query string.
pub open spec fn url_text(v: UrlView) -> Seq<char> {
    let with_path = match v.path {
        Some(p) => v.base_url + p,
        None => v.base_url,
    };
    match v.params {
        Some(params) => with_path + query_text(params),
        None => with_path,
    }
}

/// A URL in the making.
#[derive(Debug, Clone, PartialEq, Eq)]
pub struct Url {
    base_url: String,
    path: Option<String>,
    params: Option<HttpParams>,
}

impl View for Url {
    type V = UrlView;

    closed spec fn view(&self) -> UrlView {
        UrlView {
            base_url: self.base_url@,
            path: match self.path {
                Some(p) => Some(p@),
                None => None,
            },
            params: match self.params {
                Some(params) => Some(params_view(params@)),
                None => None,
            },
        }
    }
}

/// `text` with a slash at its end, added where it has none.
pub fn ensure_trailing_slash(text: &str) -> (r: String)
    ensures
        r@ == with_trailing_slash(text@),
{
    let len: usize = text.unicode_len();
    let mut s = String::from_str(text);
    if len == 0 || text.get_char(len - 1) != '/' {
        s.append("/");
        proof {
            reveal_strlit("/");
            assert(text@ + "/"@ =~= text@.push('/'));
        }
    }
    s
}

impl Url {
    /// The URL with base `base_url`, given what the base pattern says of
    /// it: the base with a slash at its end where the pattern matches,
    /// `Invalid` where it does not or does not compile.
    pub fn from_checked(base_url: &str, verdict: Option<bool>) -> (r: Result<Url, Error>)
        ensures
            verdict == Some(true) ==> r.is_ok() && r.unwrap()@ == (UrlView {
                base_url: with_trailing_slash(base_url@),
                path: None,
                params: None,
            }),
            verdict != Some(true) ==> r.is_err() && r.unwrap_err()@ == invalid_error(
                "Invalid base URL: "@ + base_url@,
            ),
    {
        match verdict {
            Some(true) => Ok(
                Url { base_url: ensure_trailing_slash(base_url), path: None, params: None },
            ),
            _ => {
                let mut message = String::from_str("Invalid base URL: ");
                message.append(base_url);
                Err(Error::new(message.as_str(), ErrorCode::Invalid))
            },
        }
    }

    /// The URL with base `base_url`, which must match the base pattern:
    /// an optional scheme, an optional `www.`, a host and a top-level
    /// domain, and an optional slash.
    pub fn new(base_url: &str) -> (r: Result<Url, Error>)
        ensures
            regex_verdict(BASE_URL_PATTERN@, base_url@) == Some(true) ==> r.is_ok() && r.unwrap()@
                == (UrlView {
                base_url: with_trailing_slash(base_url@),
                path: None,
                params: None,
            }),
            regex_verdict(BASE_URL_PATTERN@, base_url@) != Some(true) ==> r.is_err()
                && r.unwrap_err()@ == invalid_error("Invalid base URL: "@ + base_url@),
    {
        let verdict = pattern_matches(BASE_URL_PATTERN, base_url);
        Url::from_checked(base_url, verdict)
    }

    /// The URL with its path set to `path`, without a slash at its
    /// beginning and with one at its end.
    pub fn add_path(self, path: &str) -> (r: Url)
        ensures
            r@ == (UrlView {
                path: Some(with_trailing_slash(without_leading_slash(path@))),
                ..self@
            }),
    {
        let len: usize = path.unicode_len();
        let trimmed: &str = if len > 0 && path.get_char(0) == '/' {
            path.substring_char(1, len)
        } else {
            path
        };
        Url {
            base_url: self.base_url,
            path: Some(ensure_trailing_slash(trimmed)),
            params: self.params,
        }
    }

    /// The URL with one more query parameter, key and value taken as they
    /// are.
    pub fn push_param(self, key: String, value: String) -> (r: Url)
        ensures
            r@ == (UrlView {
                params: Some(
                    (match self@.params {
                        Some(p) => p,
                        None => Seq::empty(),
                    }).push((key@, value@)),
                ),
                ..self@
            }),
    {
        let mut params: HttpParams = match self.params {
            Some(p) => p,
            None => Vec::new(),
        };
        let ghost before = params@;
        params.push((key, value));
        assert(params_view(params@) =~= params_view(before).push((key@, value@)));
        assert(self@.params.is_none() ==> params_view(before) =~= Seq::empty());
        Url { base_url: self.base_url, path: self.path, params: Some(params) }
    }

    /// The URL with one more query parameter, key and value
    /// percent-encoded.
    pub fn add_param(self, key: &str, value: &str) -> (r: Url)
        ensures
            r@ == (UrlView {
                params: Some(
                    (match self@.params {
                        Some(p) => p,
                        None => Seq::empty(),
                    }).push((percent_encoded(key@), percent_encoded(value@))),
                ),
                ..self@
            }),
    {
        self.push_param(encode_url(key), encode_url(value))
    }

    /// The URL with its query parameters replaced by `params`, taken as
    /// they are.
    pub fn set_params(self, params: HttpParams) -> (r: Url)
        ensures
            r@ == (UrlView { params: Some(params_view(params@)), ..self@ }),
    {
        Url { base_url: self.base_url, path: self.path, params: Some(params) }
    }

    /// The text of the URL: base, path and query string.
    pub fn assemble(&self) -> (r: String)
        ensures
            r@ == url_text(self@),
    {
        let mut url = self.base_url.clone();
        match &self.path {
            Some(path) => {
                url.append(path.as_str());
            },
            None => {},
        }
        let ghost with_path = url@;
        match &self.params {
            Some(params) => {
                let mut i: usize = 0;
                assert(params_view(params@).subrange(0, 0) =~= Seq::empty());
                assert(with_path + Seq::<char>::empty() =~= with_path);
                while i < params.len()
                    invariant
                        i <= params@.len(),
                        url@ == with_path + query_text(params_view(params@).subrange(0, i as int)),
                    decreases params@.len() - i,
                {
                    let ghost before = url@;
                    if i == 0 {
                        url.append("?");
                    } else {
                        url.append("&");
                    }
                    url.append(params[i].0.as_str());
                    url.append("=");
                    url.append(params[i].1.as_str());
                    proof {
                        let all = params_view(params@);
                        let next = all.subrange(0, i + 1);
                        assert(next.drop_last() =~= all.subrange(0, i as int));
                        assert(next.last() == all[i as int]);
                        let q = query_text(all.subrange(0, i as int));
                        let sep = if i == 0 {
                            "?"@
                        } else {
                            "&"@
                        };
                        assert(url@ == with_path + q + sep + all[i as int].0 + "="@
                            + all[i as int].1);
                        assert(url@ =~= with_path + (q + sep + all[i as int].0 + "="@
                            + all[i as int].1));
                    }
                    i = i + 1;
                }
                assert(params_view(params@).subrange(0, i as int) =~= params_view(params@));
            },
            None => {},
        }
        url
    }

    /// The finished URL, given what the URL pattern says of its text: the
    /// text where the pattern matches, `Invalid` where it does not or does
    /// not compile.
    pub fn checked_text(url: String, verdict: Option<bool>) -> (r: Result<String, Error>)
        ensures
            verdict == Some(true) ==> r.is_ok() && r.unwrap()@ == url@,
            verdict != Some(true) ==> r.is_err() && r.unwrap_err()@ == invalid_error(
                "Invalid URL: "@ + url@,
            ),
    {
        match verdict {
            Some(true) => Ok(url),
            _ => {
                let mut message = String::from_str("Invalid URL: ");
                message.append(url.as_str());
                Err(Error::new(message.as_str(), ErrorCode::Invalid))
            },
        }
    }

    /// The text of the URL, which must match the URL pattern: `Invalid`
    /// where it does not.
    pub fn build(self) -> (r: Result<String, Error>)
        ensures
            regex_verdict(URL_PATTERN@, url_text(self@)) == Some(true) ==> r.is_ok()
                && r.unwrap()@ == url_text(self@),
            regex_verdict(URL_PATTERN@, url_text(self@)) != Some(true) ==> r.is_err()
                && r.unwrap_err()@ == invalid_error("Invalid URL: "@ + url_text(self@)),
    {
        let url = self.assemble();
        let verdict = pattern_matches(URL_PATTERN, url.as_str());
        Url::checked_text(url, verdict)
    }
}

} // verus!
