use vstd::prelude::*;
use crate::text::opt_view;

verus! {

/// `url::ParseError`, carried through opaquely.
#[verifier::external_type_specification]
#[verifier::external_body]
pub struct ExUrlParseError(url::ParseError);

/// What the `url` crate makes of a text, as plain values: `None` where
/// `Url::parse` refuses it; else the domain of the URL's origin, `None`
/// where `Url::origin` gives an opaque origin or a host that is an IP
/// address.
pub uninterp spec fn url_origin_domain(input: Seq<char>) -> Option<Option<Seq<char>>>;

/// Calls `url::Url::parse` on `input` and, when it succeeds, `Url::origin`
/// on the result. The contract claims only that the outcome is a function
/// of the text: the error where parsing fails, otherwise the origin's
/// domain (`None` for an opaque origin or an IP host).
#[verifier::external_body]
fn parse_origin_domain(input: &str) -> (res: Result<Option<String>, url::ParseError>)
    ensures
        match res {
            Ok(d) => url_origin_domain(input@) == Some(opt_view(d)),
            Err(_) => url_origin_domain(input@) is None,
        },
{
    let parsed = url::Url::parse(input)?;
    match parsed.origin() {
        url::Origin::Tuple(_, url::Host::Domain(d), _) => Ok(Some(d)),
        url::Origin::Tuple(_, url::Host::Ipv4(_), _) => Ok(None),
        url::Origin::Tuple(_, url::Host::Ipv6(_), _) => Ok(None),
        url::Origin::Opaque(_) => Ok(None),
    }
}

/// A link that the URL parser refused.
#[derive(Debug, Clone, Copy, PartialEq, Eq, Structural)]
pub enum UrlError {
    Parse,
}

/// The host that a playable link must have.
pub const YOUTUBE_HOST: &'static str = "youtube.com";

/// The text returned for a link that does not lead to YouTube.
pub const NOT_YOUTUBE: &'static str = "err";

/// The check on a link, given what the parser made of it: refused links
/// are an error, links whose origin's domain is exactly `youtube.com` are
/// kept, every other link becomes `err`.
pub open spec fn youtube_check(input: Seq<char>, origin: Option<Option<Seq<char>>>) -> Result<Seq<char>, UrlError> {
    match origin {
        None => Err(UrlError::Parse),
        Some(Some(d)) => if d == YOUTUBE_HOST@ {
            Ok(input)
        } else {
            Ok(NOT_YOUTUBE@)
        },
        Some(None) => Ok(NOT_YOUTUBE@),
    }
}

pub open spec fn link_view(r: Result<String, UrlError>) -> Result<Seq<char>, UrlError> {
    match r {
        Ok(s) => Ok(s@),
        Err(e) => Err(e),
    }
}

/// Applies the check to a link whose parse outcome is already known.
pub fn check_youtube_origin(input: &str, origin: Result<Option<String>, UrlError>) -> (res: Result<String, UrlError>)
    ensures
        link_view(res) == youtube_check(
            input@,
            match origin {
                Ok(d) => Some(opt_view(d)),
                Err(_) => None,
            },
        ),
        (origin matches Ok(Some(d)) && d@ == YOUTUBE_HOST@) ==> (res matches Ok(s) && s@ == input@),
        origin is Err ==> res == Err::<String, UrlError>(UrlError::Parse),
{
    match origin {
        Err(_) => Err(UrlError::Parse),
        Ok(Some(d)) => {
            if crate::text::same_text(d.as_str(), YOUTUBE_HOST) {
                Ok(input.to_owned())
            } else {
                Ok(NOT_YOUTUBE.to_owned())
            }
        },
        Ok(None) => Ok(NOT_YOUTUBE.to_owned()),
    }
}

/// Keeps a link if it leads to `youtube.com`, gives `err` for any other
/// link, and fails on text that is no URL.
pub fn split_url(input: &str) -> (res: Result<String, UrlError>)
    ensures
        link_view(res) == youtube_check(input@, url_origin_domain(input@)),
        url_origin_domain(input@) == Some(Some(YOUTUBE_HOST@)) ==> (res matches Ok(s) && s@ == input@),
{
    let origin = match parse_origin_domain(input) {
        Ok(d) => Ok(d),
        Err(_) => Err(UrlError::Parse),
    };
    check_youtube_origin(input, origin)
}

/// A link whose origin's domain is exactly `youtube.com` is kept unchanged,
/// whatever its scheme, path or query; a link with any other origin becomes
/// `err`; only text that does not parse is an error.
pub proof fn lemma_youtube_check_outcomes(input: Seq<char>, origin: Option<Option<Seq<char>>>)
    ensures
        origin == Some(Some(seq!['y', 'o', 'u', 't', 'u', 'b', 'e', '.', 'c', 'o', 'm'])) ==> youtube_check(
            input,
            origin,
        ) == Ok::<Seq<char>, UrlError>(input),
        origin is None ==> youtube_check(input, origin) == Err::<Seq<char>, UrlError>(UrlError::Parse),
        origin is Some && origin != Some(Some(seq!['y', 'o', 'u', 't', 'u', 'b', 'e', '.', 'c', 'o', 'm']))
            ==> youtube_check(input, origin) == Ok::<Seq<char>, UrlError>(seq!['e', 'r', 'r']),
{
    reveal_strlit("youtube.com");
    reveal_strlit("err");
    assert(YOUTUBE_HOST@ =~= seq!['y', 'o', 'u', 't', 'u', 'b', 'e', '.', 'c', 'o', 'm']);
    assert(NOT_YOUTUBE@ =~= seq!['e', 'r', 'r']);
}

/// `split_url` keeps every link that the URL parser places at
/// `youtube.com`.
pub proof fn lemma_split_url_keeps_youtube_links(input: Seq<char>)
    requires
        url_origin_domain(input) == Some(Some(seq!['y', 'o', 'u', 't', 'u', 'b', 'e', '.', 'c', 'o', 'm'])),
    ensures
        youtube_check(input, url_origin_domain(input)) == Ok::<Seq<char>, UrlError>(input),
{
    lemma_youtube_check_outcomes(input, url_origin_domain(input));
}

} // verus!
