//! Validated absolute URLs, stored in serialized form and backed by the
//! `url` crate's parser.

use vstd::prelude::*;

verus! {

/// The result of `url::Url::parse` on a string: `None` when the string is not
/// a syntactically valid absolute URL, and otherwise the serialization of the
/// parsed URL (the parser normalizes its input, so the serialization may
/// differ from the input).
pub uninterp spec fn url_parse_spec(s: Seq<char>) -> Option<Seq<char>>;

/// Holds when `t` is the serialization of a parsed URL: parsing `t` succeeds
/// and returns `t` itself unchanged.
pub open spec fn url_text(t: Seq<char>) -> bool {
    url_parse_spec(t) == Some(t)
}

/// Holds when `s` parses as an absolute URL whose serialization is `t`.
pub open spec fn parses_to(s: Seq<char>, t: Seq<char>) -> bool {
    url_parse_spec(s) == Some(t)
}

/// Holds when `s` does not parse as an absolute URL.
pub open spec fn no_parse(s: Seq<char>) -> bool {
    url_parse_spec(s) is None
}

/// Relies on `url::Url::parse` and `url::Url::as_str`: parsing depends on the
/// input characters alone, and serializing a successfully parsed URL yields a
/// string that parses back to the same URL unchanged (the parser is
/// idempotent on its own output, per the WHATWG URL standard the crate
/// implements).
#[verifier::external_body]
fn parse_raw(s: &str) -> (r: Option<String>)
    ensures
        match r {
            Some(t) => url_parse_spec(s@) == Some(t@) && url_parse_spec(t@) == Some(t@),
            None => url_parse_spec(s@) is None,
        },
{
    match url::Url::parse(s) {
        Ok(u) => Some(u.as_str().to_owned()),
        Err(_) => None,
    }
}

/// A syntactically valid absolute URL, held as its serialization.
#[derive(Clone, Debug)]
pub struct Url {
    text: String,
}

impl View for Url {
    type V = Seq<char>;

    closed spec fn view(&self) -> Seq<char> {
        self.text@
    }
}

impl Url {
    /// Well-formedness: the held text is the serialization of a parsed URL.
    /// Every constructor of this type establishes it.
    pub open spec fn wf(&self) -> bool {
        url_text(self@)
    }

    /// Parses `s` as an absolute URL; on success the result holds the
    /// parser's (normalized) serialization of `s`.
    pub fn parse(s: &str) -> (r: Option<Url>)
        ensures
            match r {
                Some(u) => parses_to(s@, u@) && u.wf(),
                None => no_parse(s@),
            },
    {
        match parse_raw(s) {
            Some(t) => Some(Url { text: t }),
            None => None,
        }
    }

    /// The URL's serialization.
    pub fn as_str(&self) -> (r: &str)
        ensures
            r@ == self@,
    {
        self.text.as_str()
    }
}

impl PartialEq for Url {
    fn eq(&self, other: &Url) -> (r: bool) {
        self.text == other.text
    }
}

impl vstd::std_specs::cmp::PartialEqSpecImpl for Url {
    open spec fn obeys_eq_spec() -> bool {
        true
    }

    open spec fn eq_spec(&self, other: &Url) -> bool {
        self@ == other@
    }
}

} // verus!
