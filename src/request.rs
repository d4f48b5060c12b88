use vstd::prelude::*;
use crate::text::has_prefix;

verus! {

/// `http://`
pub open spec fn http_scheme() -> Seq<char> {
    seq!['h', 't', 't', 'p', ':', '/', '/']
}

/// `https://`, the scheme put in front of a URL that has none.
pub open spec fn https_scheme() -> Seq<char> {
    seq!['h', 't', 't', 'p', 's', ':', '/', '/']
}

/// Whether the URL already names its scheme.
pub open spec fn has_scheme(url: Seq<char>) -> bool {
    http_scheme().is_prefix_of(url) || https_scheme().is_prefix_of(url)
}

/// The address a GET request goes to for the typed URL.
pub open spec fn request_target(url: Seq<char>) -> Seq<char> {
    if has_scheme(url) {
        url
    } else {
        https_scheme() + url
    }
}

/// The request target for a typed URL: the URL itself where it begins with
/// `http://` or `https://`, else the URL behind `https://`.
pub fn normalize_url(url: &str) -> (r: String)
    ensures
        r@ == request_target(url@),
{
    let http = "http://";
    let https = "https://";
    proof {
        reveal_strlit("http://");
        reveal_strlit("https://");
        assert(http@ =~= http_scheme());
        assert(https@ =~= https_scheme());
    }
    if has_prefix(url, http) || has_prefix(url, https) {
        String::from_str(url)
    } else {
        let mut r = String::from_str(https);
        r.append(url);
        r
    }
}

/// What the JSON pretty printer makes of a text: the formatted text, or a
/// message that says why it could not be formatted.
pub uninterp spec fn pretty_printed(json: Seq<char>) -> Result<Seq<char>, Seq<char>>;

/// Pretty-prints JSON text.
/// Relies on `jsonxf::pretty_print` (which is
/// `Formatter::pretty_printer().format`): its result depends on the text
/// alone.
#[verifier::external_body]
pub(crate) fn pretty_print(json: &str) -> (r: Result<String, String>)
    ensures
        match r {
            Ok(t) => pretty_printed(json@) == Ok::<Seq<char>, Seq<char>>(t@),
            Err(e) => pretty_printed(json@) == Err::<Seq<char>, Seq<char>>(e@),
        },
{
    jsonxf::pretty_print(json)
}

} // verus!
