//! Shape resolution for URL references: the five wire shapes, the fixed
//! trial order, and the failure-containment fallback.

use apub_object::{decode_url_reference, encode_url_reference, DecodeError, Url, UrlReference, Value};

fn text(s: &str) -> Value {
    Value::Text(String::from(s))
}

fn link_record(href: &str) -> Value {
    Value::Record(vec![
        (String::from("type"), text("Link")),
        (String::from("href"), text(href)),
    ])
}

#[test]
fn bare_url_string_resolves_to_url_variant() {
    let decoded = decode_url_reference(&text("https://example.com/a")).unwrap();
    match &decoded {
        UrlReference::Url(u) => assert_eq!(u.as_str(), "https://example.com/a"),
        _ => panic!("expected the bare-URL variant"),
    }
    let any = decoded.any_url().unwrap();
    assert_eq!(any.as_str(), "https://example.com/a");
}

#[test]
fn parsing_normalizes_the_url_text() {
    let u = Url::parse("HTTPS://EXAMPLE.com/Path").unwrap();
    assert_eq!(u.as_str(), "https://example.com/Path");
    assert!(Url::parse("").is_none());
    assert!(Url::parse("not a url").is_none());
}

#[test]
fn empty_string_degrades_to_invalid() {
    let decoded = decode_url_reference(&text("")).unwrap();
    match &decoded {
        UrlReference::Invalid(raw) => assert_eq!(raw, ""),
        _ => panic!("expected the invalid variant"),
    }
    assert_eq!(decoded.as_vec().len(), 0);
    assert!(decoded.any_url().is_none());
}

#[test]
fn single_link_record_resolves_to_link_variant() {
    let decoded = decode_url_reference(&link_record("https://example.com/video")).unwrap();
    match &decoded {
        UrlReference::Link(l) => assert_eq!(l.href.as_str(), "https://example.com/video"),
        _ => panic!("expected the single-link variant"),
    }
}

#[test]
fn link_array_resolves_to_link_list_in_wire_order() {
    let wire = Value::Array(vec![
        link_record("https://example.com/first"),
        link_record("https://example.com/second"),
    ]);
    let decoded = decode_url_reference(&wire).unwrap();
    match &decoded {
        UrlReference::LinkList(links) => {
            assert_eq!(links.len(), 2);
            assert_eq!(links[0].href.as_str(), "https://example.com/first");
            assert_eq!(links[1].href.as_str(), "https://example.com/second");
        },
        _ => panic!("expected the link-list variant"),
    }
    let urls = decoded.as_vec();
    assert_eq!(urls.len(), 2);
    assert_eq!(urls[0].as_str(), "https://example.com/first");
    assert_eq!(urls[1].as_str(), "https://example.com/second");
}

#[test]
fn empty_array_resolves_to_empty_link_list() {
    let decoded = decode_url_reference(&Value::Array(vec![])).unwrap();
    match &decoded {
        UrlReference::LinkList(links) => assert_eq!(links.len(), 0),
        _ => panic!("expected the link-list variant"),
    }
    assert_eq!(decoded.as_vec().len(), 0);
    assert!(decoded.any_url().is_none());
}

#[test]
fn url_array_resolves_to_url_list() {
    let wire = Value::Array(vec![
        text("https://example.com/a"),
        text("https://example.com/b"),
    ]);
    let decoded = decode_url_reference(&wire).unwrap();
    match &decoded {
        UrlReference::UrlList(urls) => {
            assert_eq!(urls.len(), 2);
            assert_eq!(urls[0].as_str(), "https://example.com/a");
            assert_eq!(urls[1].as_str(), "https://example.com/b");
        },
        _ => panic!("expected the URL-list variant"),
    }
}

#[test]
fn mixed_array_is_rejected() {
    let wire = Value::Array(vec![text("https://example.com/a"), Value::Other]);
    assert_eq!(decode_url_reference(&wire).unwrap_err(), DecodeError::UnsupportedShape);
}

#[test]
fn other_scalar_is_rejected() {
    assert_eq!(decode_url_reference(&Value::Other).unwrap_err(), DecodeError::UnsupportedShape);
}

#[test]
fn link_record_without_href_is_rejected() {
    let wire = Value::Record(vec![(String::from("type"), text("Link"))]);
    assert_eq!(decode_url_reference(&wire).unwrap_err(), DecodeError::MissingHref);
}

#[test]
fn link_record_with_invalid_href_is_rejected() {
    let wire = Value::Record(vec![
        (String::from("type"), text("Link")),
        (String::from("href"), text("")),
    ]);
    assert_eq!(decode_url_reference(&wire).unwrap_err(), DecodeError::InvalidHref);
}

#[test]
fn link_record_without_type_is_rejected() {
    let wire = Value::Record(vec![(String::from("href"), text("https://example.com/a"))]);
    assert_eq!(decode_url_reference(&wire).unwrap_err(), DecodeError::MissingType);
}

#[test]
fn link_record_with_unknown_type_is_rejected() {
    let wire = Value::Record(vec![
        (String::from("type"), text("Jigsaw")),
        (String::from("href"), text("https://example.com/a")),
    ]);
    assert_eq!(decode_url_reference(&wire).unwrap_err(), DecodeError::UnknownType);
}

#[test]
fn link_record_with_non_string_context_is_rejected() {
    let wire = Value::Record(vec![
        (String::from("type"), text("Link")),
        (String::from("@context"), Value::Other),
        (String::from("href"), text("https://example.com/a")),
    ]);
    assert_eq!(decode_url_reference(&wire).unwrap_err(), DecodeError::BadContext);
}

#[test]
fn unknown_record_fields_are_ignored() {
    let wire = Value::Record(vec![
        (String::from("type"), text("Link")),
        (String::from("mediaType"), text("text/html")),
        (String::from("href"), text("https://example.com/a")),
    ]);
    let decoded = decode_url_reference(&wire).unwrap();
    assert_eq!(decoded.any_url().unwrap().as_str(), "https://example.com/a");
}

#[test]
fn link_list_round_trips_shape_and_contents() {
    let wire = Value::Array(vec![
        link_record("https://example.com/first"),
        link_record("https://example.com/second"),
    ]);
    let decoded = decode_url_reference(&wire).unwrap();
    let encoded = encode_url_reference(&decoded);
    let again = decode_url_reference(&encoded).unwrap();
    match (&decoded, &again) {
        (UrlReference::LinkList(a), UrlReference::LinkList(b)) => {
            assert_eq!(a.len(), b.len());
            for (x, y) in a.iter().zip(b.iter()) {
                assert_eq!(x.href, y.href);
            }
        },
        _ => panic!("the link-list shape must survive the round trip"),
    }
}

#[test]
fn invalid_round_trips_shape_and_contents() {
    let decoded = decode_url_reference(&text("")).unwrap();
    let encoded = encode_url_reference(&decoded);
    let again = decode_url_reference(&encoded).unwrap();
    match &again {
        UrlReference::Invalid(raw) => assert_eq!(raw, ""),
        _ => panic!("the invalid shape must survive the round trip"),
    }
}

#[test]
fn url_list_round_trips_shape_and_contents() {
    let wire = Value::Array(vec![
        text("https://example.com/a"),
        text("https://example.com/b"),
    ]);
    let decoded = decode_url_reference(&wire).unwrap();
    let encoded = encode_url_reference(&decoded);
    let again = decode_url_reference(&encoded).unwrap();
    match &again {
        UrlReference::UrlList(urls) => {
            assert_eq!(urls.len(), 2);
            assert_eq!(urls[0].as_str(), "https://example.com/a");
            assert_eq!(urls[1].as_str(), "https://example.com/b");
        },
        _ => panic!("the URL-list shape must survive the round trip"),
    }
}

#[test]
fn bare_url_round_trips_shape_and_contents() {
    let decoded = decode_url_reference(&text("https://example.com/a")).unwrap();
    let encoded = encode_url_reference(&decoded);
    let again = decode_url_reference(&encoded).unwrap();
    match &again {
        UrlReference::Url(u) => assert_eq!(u.as_str(), "https://example.com/a"),
        _ => panic!("the bare-URL shape must survive the round trip"),
    }
}
