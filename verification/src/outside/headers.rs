//! URIs and headers of the `http` crate.
use http::HeaderMap;
use http::HeaderName;
use http::HeaderValue;
use vstd::prelude::*;

verus! {

/// `http::HeaderMap`: headers by name.
#[verifier::external_type_specification]
#[verifier::external_body]
#[verifier::reject_recursive_types(T)]
pub struct ExHeaderMap<T>(http::HeaderMap<T>);

/// `http::HeaderValue`: the bytes of a header value.
#[verifier::external_type_specification]
#[verifier::external_body]
pub struct ExHeaderValue(http::HeaderValue);

/// The headers of a map: under each name, in lower case, the bytes of its
/// values in order.
pub uninterp spec fn header_entries(m: HeaderMap<HeaderValue>) -> Map<Seq<char>, Seq<Seq<u8>>>;

/// The bytes of a header value.
pub uninterp spec fn header_value_bytes(v: HeaderValue) -> Seq<u8>;

/// What parsing a text as a URI gives: its parts, or the complaint.
pub uninterp spec fn http_uri(text: Seq<char>) -> Result<UriText, Seq<char>>;

/// The parts of a URI that are looked at, as characters.
pub struct UriText {
    pub scheme: Option<Seq<char>>,
    pub authority: Option<Seq<char>>,
    /// The whole URI in its normal notation.
    pub text: Seq<char>,
}

/// The parts of a URI that are looked at.
pub struct ParsedUri {
    pub scheme: Option<String>,
    pub authority: Option<String>,
    /// The whole URI in its normal notation.
    pub text: String,
}

impl View for ParsedUri {
    type V = UriText;

    open spec fn view(&self) -> UriText {
        UriText {
            scheme: crate::text::opt_text(self.scheme),
            authority: crate::text::opt_text(self.authority),
            text: self.text@,
        }
    }
}

/// Characters that a header value may hold and that are read back as text:
/// printable ASCII and the tab.
pub open spec fn is_visible(c: char) -> bool {
    ' ' <= c <= '~' || c == '\t'
}

/// Characters of a header name in lower case.
pub open spec fn is_name_char(c: char) -> bool {
    'a' <= c <= 'z' || '0' <= c <= '9' || c == '-'
}

/// A header name in lower case, made of letters, digits and hyphens.
pub open spec fn is_header_name(name: Seq<char>) -> bool {
    &&& 0 < name.len() <= 64
    &&& forall|i: int| 0 <= i < name.len() ==> is_name_char(#[trigger] name[i])
}

/// A text that a header value may hold.
pub open spec fn is_header_text(text: Seq<char>) -> bool {
    forall|i: int| 0 <= i < text.len() ==> is_visible(#[trigger] text[i])
}

/// The bytes of an ASCII text.
pub open spec fn ascii_bytes(text: Seq<char>) -> Seq<u8> {
    Seq::new(text.len(), |i: int| text[i] as u8)
}

/// The text of ASCII bytes.
pub open spec fn ascii_text(bytes: Seq<u8>) -> Seq<char> {
    Seq::new(bytes.len(), |i: int| bytes[i] as char)
}

/// `str::parse` to a `Uri`, with `Uri::scheme`, `Uri::authority` and the
/// `Display` of the `Uri` or of the `InvalidUri`: what comes out depends on
/// the text alone.
#[verifier::external_body]
pub(crate) fn parse_uri(text: &str) -> (r: Result<ParsedUri, String>)
    ensures
        match (r, http_uri(text@)) {
            (Ok(parsed), Ok(uri)) => parsed@ == uri,
            (Err(message), Err(complaint)) => message@ == complaint,
            _ => false,
        },
{
    match text.parse::<http::Uri>() {
        Ok(uri) => Ok(
            ParsedUri {
                scheme: uri.scheme_str().map(str::to_owned),
                authority: uri.authority().map(ToString::to_string),
                text: uri.to_string(),
            },
        ),
        Err(e) => Err(e.to_string()),
    }
}

/// `HeaderMap::new`: no headers.
#[verifier::external_body]
pub(crate) fn header_map_new() -> (r: HeaderMap<HeaderValue>)
    ensures
        header_entries(r).is_empty(),
{
    HeaderMap::new()
}

/// `HeaderMap::insert`: the name gets this one value, whatever it had before.
/// The call panics on a map that is too full, which needs thousands of names.
#[verifier::external_body]
pub(crate) fn header_insert(m: &mut HeaderMap<HeaderValue>, name: &'static str, value: &str)
    requires
        is_header_name(name@),
        is_header_text(value@),
        header_entries(*old(m)).dom().finite(),
        header_entries(*old(m)).dom().len() < 6000,
    ensures
        header_entries(*final(m)) == header_entries(*old(m)).insert(
            name@,
            seq![ascii_bytes(value@)],
        ),
{
    m.insert(HeaderName::from_static(name), HeaderValue::from_str(value).unwrap());
}

/// `HeaderMap::get`: the first value of the name, if it has any.
#[verifier::external_body]
pub(crate) fn header_get<'a>(m: &'a HeaderMap<HeaderValue>, name: &str) -> (r: Option<
    &'a HeaderValue,
>)
    requires
        is_header_name(name@),
    ensures
        match r {
            Some(value) => {
                &&& header_entries(*m).dom().contains(name@)
                &&& header_entries(*m)[name@].len() > 0
                &&& header_value_bytes(*value) == header_entries(*m)[name@][0]
            },
            None => !header_entries(*m).dom().contains(name@),
        },
{
    m.get(name)
}

/// `HeaderValue::to_str`: the value as text, if all its bytes are printable
/// ASCII or tabs.
#[verifier::external_body]
pub(crate) fn header_value_to_str(v: &HeaderValue) -> (r: Option<&str>)
    ensures
        match r {
            Some(text) => {
                &&& is_header_text(ascii_text(header_value_bytes(*v)))
                &&& text@ == ascii_text(header_value_bytes(*v))
            },
            None => !is_header_text(ascii_text(header_value_bytes(*v))),
        },
{
    v.to_str().ok()
}

} // verus!
