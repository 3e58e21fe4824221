//! URLs, and the calls into `url` that build and read them. Verus reads none
//! of that crate: what the items below state of it is taken on trust.

use vstd::prelude::*;
use vstd::utf8::is_ascii_chars;

verus! {

/// What this library reads of a parsed URL: the URL written out, and the
/// pairs of its query, decoded, in the order in which they stand there.
pub struct UrlView {
    pub text: Seq<char>,
    pub query_pairs: Seq<(Seq<char>, Seq<char>)>,
}

/// A URL as `url` holds it once parsed.
#[verifier::external_type_specification]
#[verifier::external_body]
pub struct ExUrl(url::Url);

/// Why `url` rejected a text.
#[verifier::external_type_specification]
#[verifier::external_body]
pub struct ExParseError(url::ParseError);

/// What a `url::Url` holds: `text` is what `as_str` shows of it,
/// `query_pairs` what `query_pairs` yields.
pub uninterp spec fn url_view(link: url::Url) -> UrlView;

/// What `url::Url::parse` makes of `text`, where it accepts it.
pub uninterp spec fn url_parsed(text: Seq<char>) -> Option<UrlView>;

/// What `url::Url::parse_with_params` makes of `base` and the pairs
/// `params`, where it accepts `base`.
pub uninterp spec fn url_with_params(
    base: Seq<char>,
    params: Seq<(Seq<char>, Seq<char>)>,
) -> Option<UrlView>;

/// A base that `parse_with_params` is called with: short, in ASCII, and
/// without fragment.
pub open spec fn plain_base(base: Seq<char>) -> bool {
    &&& base.len() <= 256
    &&& is_ascii_chars(base)
    &&& forall|i: int| 0 <= i < base.len() ==> base[i] != '#'
}

/// A text that `parse` is called with: `http://dummy.com`, and behind it
/// nothing, or what begins a path, a query or a fragment.
pub open spec fn on_dummy_host(text: Seq<char>) -> bool {
    let host = "http://dummy.com"@;
    &&& host.is_prefix_of(text)
    &&& (text.len() == host.len() || text[host.len() as int] == '/' || text[host.len() as int]
        == '?' || text[host.len() as int] == '#')
}

/// Calls `url::Url::parse`. What it returns depends on the text alone. A
/// host is percent-decoded and mapped, which can lengthen it many times
/// over, and each of its labels with a character outside ASCII is then
/// encoded with arithmetic that is left unguarded: on a label of a few
/// thousand characters it can overflow, which is a panic where overflow is
/// checked. `requires` leaves those texts out: it fixes the host to
/// `dummy.com`, which is ASCII and is never encoded, and leaves path, query
/// and fragment to the caller.
#[verifier::external_body]
pub(crate) fn parse(text: &str) -> (r: Result<url::Url, url::ParseError>)
    requires
        on_dummy_host(text@),
    ensures
        r matches Ok(link) ==> url_parsed(text@) == Some(url_view(link)),
        r is Err ==> url_parsed(text@) is None,
{
    url::Url::parse(text)
}

/// Calls `url::Url::parse_with_params`, which parses `base` and then adds
/// each pair of `params` to the query. That function panics at two kinds
/// of places, and `requires` leaves the inputs out that reach them.
/// - Where a position in the URL no longer fits in 32 bits, at the moment
///   when it opens the query or puts the fragment back: a short base stays
///   far below that, and one without `#` has no fragment.
/// - Where the encoding of a host label with a character outside ASCII
///   overflows, as described at [`parse`], which takes a label of a few
///   thousand characters: a base of at most 256 ASCII characters yields,
///   after percent-decoding and mapping, a label of a few hundred
///   characters at most.
#[verifier::external_body]
pub(crate) fn parse_with_params(base: &str, params: &Vec<(String, String)>) -> (r: Result<
    url::Url,
    url::ParseError,
>)
    requires
        plain_base(base@),
    ensures
        r matches Ok(link) ==> url_with_params(base@, params.deep_view()) == Some(url_view(link)),
        r is Err ==> url_with_params(base@, params.deep_view()) is None,
{
    url::Url::parse_with_params(base, params)
}

/// Calls `url::Url::as_str`.
#[verifier::external_body]
pub(crate) fn as_str<'a>(link: &'a url::Url) -> (r: &'a str)
    ensures
        r@ == url_view(*link).text,
{
    link.as_str()
}

/// Calls `url::Url::query_pairs` and collects the pairs that it yields, each
/// as two owned strings.
#[verifier::external_body]
pub(crate) fn query_pairs(link: &url::Url) -> (r: Vec<(String, String)>)
    ensures
        r.deep_view() == url_view(*link).query_pairs,
{
    link.query_pairs().into_owned().collect()
}

} // verus!
