//! The object entity, its accessors, addressee matching, the two ways to
//! reference an object, and the object round trip.

use apub_object::{
    decode_object, decode_object_reference, encode_object, CompoundActorReference, Context,
    DecodeError, Entity, EntityType, ExtendedObject, Object, ObjectReference, ObjectTrait, Url,
    UrlReference, Value,
};

fn text(s: &str) -> Value {
    Value::Text(String::from(s))
}

fn url(s: &str) -> Url {
    Url::parse(s).unwrap()
}

const PUBLIC: &str = "https://www.w3.org/ns/activitystreams#Public";

#[test]
fn new_object_has_only_type_and_id() {
    let object = Object::new_with_entity_type(EntityType::Note, url("https://example.com/notes/1"));
    assert_eq!(object.object_id().as_str(), "https://example.com/notes/1");
    assert_eq!(object.object_id_str(), "https://example.com/notes/1");
    assert_eq!(object.entity_type(), EntityType::Note);
    assert!(object.context().is_none());
    assert!(object.name.is_none());
    assert!(object.url.is_none());
    assert!(object.to.is_none());
    assert!(object.object_url().is_none());
}

#[test]
fn new_with_entity_keeps_the_given_envelope() {
    let entity = Entity {
        object_type: EntityType::Person,
        context: Some(Context::new(String::from("https://www.w3.org/ns/activitystreams"))),
    };
    let object = Object::new_with_entity(entity, url("https://example.com/users/alice"));
    assert_eq!(object.entity_type(), EntityType::Person);
    assert_eq!(object.context().unwrap().as_str(), "https://www.w3.org/ns/activitystreams");
}

#[test]
fn object_url_reports_the_first_url() {
    let mut object = Object::new_with_entity_type(EntityType::Note, url("https://example.com/n/1"));
    object.url = Some(UrlReference::Url(url("https://example.com/n/1.html")));
    assert_eq!(object.object_url().unwrap().as_str(), "https://example.com/n/1.html");
    object.url = Some(UrlReference::Invalid(String::new()));
    assert!(object.object_url().is_none());
}

#[test]
fn matches_is_false_whenever_to_is_absent() {
    let object = Object::new_with_entity_type(EntityType::Note, url("https://example.com/n/1"));
    assert!(!object.matches(PUBLIC));
    assert!(!object.matches(""));
    assert!(!object.matches("https://example.com/users/bob"));
}

#[test]
fn matches_follows_the_addressee_predicate() {
    let mut object = Object::new_with_entity_type(EntityType::Note, url("https://example.com/n/1"));
    object.to = Some(CompoundActorReference::new(vec![
        String::from(PUBLIC),
        String::from("https://example.com/users/bob"),
    ]));
    assert!(object.matches(PUBLIC));
    assert!(object.matches("https://example.com/users/bob"));
    assert!(!object.matches("https://example.com/users/carol"));
}

#[test]
fn matches_ignores_secondary_recipients() {
    let mut object = Object::new_with_entity_type(EntityType::Note, url("https://example.com/n/1"));
    object.to = Some(CompoundActorReference::new(vec![String::from(PUBLIC)]));
    let mut extended = ExtendedObject::from_object(object);
    extended.cc = Some(CompoundActorReference::new(vec![String::from(
        "https://example.com/users/carol",
    )]));
    assert!(extended.matches(PUBLIC));
    assert!(!extended.matches("https://example.com/users/carol"));
}

#[test]
fn object_reference_id_is_total_over_both_variants() {
    let by_url = ObjectReference::Url(url("https://example.com/notes/9"));
    assert_eq!(by_url.object_id().as_str(), "https://example.com/notes/9");
    let object = Object::new_with_entity_type(EntityType::Article, url("https://example.com/a/1"));
    let inline = ObjectReference::Object(Box::new(object));
    assert_eq!(inline.object_id().as_str(), "https://example.com/a/1");
}

#[test]
fn decode_full_object_record() {
    let wire = Value::Record(vec![
        (String::from("@context"), text("https://www.w3.org/ns/activitystreams")),
        (String::from("type"), text("Note")),
        (String::from("id"), text("https://example.com/notes/1")),
        (String::from("name"), text("a note")),
        (String::from("url"), text("https://example.com/notes/1.html")),
        (String::from("to"), Value::Array(vec![text(PUBLIC)])),
        (String::from("ignored"), Value::Other),
    ]);
    let object = decode_object(&wire).unwrap();
    assert_eq!(object.object_id().as_str(), "https://example.com/notes/1");
    assert_eq!(object.entity_type(), EntityType::Note);
    assert_eq!(object.context().unwrap().as_str(), "https://www.w3.org/ns/activitystreams");
    assert_eq!(object.name.as_deref(), Some("a note"));
    assert_eq!(object.object_url().unwrap().as_str(), "https://example.com/notes/1.html");
    assert!(object.matches(PUBLIC));
}

#[test]
fn decode_object_field_order_does_not_matter() {
    let wire = Value::Record(vec![
        (String::from("id"), text("https://example.com/notes/2")),
        (String::from("type"), text("Note")),
    ]);
    let object = decode_object(&wire).unwrap();
    assert_eq!(object.object_id().as_str(), "https://example.com/notes/2");
}

#[test]
fn decode_object_without_id_is_rejected() {
    let wire = Value::Record(vec![(String::from("type"), text("Note"))]);
    assert_eq!(decode_object(&wire).unwrap_err(), DecodeError::MissingId);
}

#[test]
fn decode_object_with_invalid_id_is_rejected() {
    let wire = Value::Record(vec![
        (String::from("type"), text("Note")),
        (String::from("id"), text("")),
    ]);
    assert_eq!(decode_object(&wire).unwrap_err(), DecodeError::InvalidId);
}

#[test]
fn decode_object_with_non_string_name_is_rejected() {
    let wire = Value::Record(vec![
        (String::from("type"), text("Note")),
        (String::from("id"), text("https://example.com/notes/3")),
        (String::from("name"), Value::Other),
    ]);
    assert_eq!(decode_object(&wire).unwrap_err(), DecodeError::BadName);
}

#[test]
fn decode_object_with_bad_addressees_is_rejected() {
    let wire = Value::Record(vec![
        (String::from("type"), text("Note")),
        (String::from("id"), text("https://example.com/notes/4")),
        (String::from("to"), Value::Other),
    ]);
    assert_eq!(decode_object(&wire).unwrap_err(), DecodeError::BadAddressee);
}

#[test]
fn decode_object_with_single_addressee_string() {
    let wire = Value::Record(vec![
        (String::from("type"), text("Note")),
        (String::from("id"), text("https://example.com/notes/5")),
        (String::from("to"), text(PUBLIC)),
    ]);
    let object = decode_object(&wire).unwrap();
    assert!(object.matches(PUBLIC));
}

#[test]
fn encode_omits_absent_optional_fields() {
    let object = Object::new_with_entity_type(EntityType::Note, url("https://example.com/n/6"));
    let encoded = encode_object(&object);
    match &encoded {
        Value::Record(fields) => {
            let keys: Vec<&str> = fields.iter().map(|(k, _)| k.as_str()).collect();
            assert_eq!(keys, vec!["type", "id"]);
        },
        _ => panic!("an object encodes as a record"),
    }
}

#[test]
fn object_with_link_list_round_trips_shape_and_contents() {
    let mut object = Object::new_with_entity_type(EntityType::Note, url("https://example.com/n/7"));
    object.url = Some(UrlReference::LinkList(vec![
        apub_object::Link {
            entity: Entity::new(EntityType::Link),
            href: url("https://example.com/n/7.html"),
        },
        apub_object::Link {
            entity: Entity::new(EntityType::Link),
            href: url("https://example.com/n/7.m3u8"),
        },
    ]));
    let encoded = encode_object(&object);
    let again = decode_object(&encoded).unwrap();
    assert_eq!(again.object_id().as_str(), "https://example.com/n/7");
    match &again.url {
        Some(UrlReference::LinkList(links)) => {
            assert_eq!(links.len(), 2);
            assert_eq!(links[0].href.as_str(), "https://example.com/n/7.html");
            assert_eq!(links[1].href.as_str(), "https://example.com/n/7.m3u8");
        },
        _ => panic!("the link-list shape must survive the round trip"),
    }
}

#[test]
fn decode_object_reference_from_url_string() {
    let reference = decode_object_reference(&text("https://example.com/notes/8")).unwrap();
    match &reference {
        ObjectReference::Url(u) => assert_eq!(u.as_str(), "https://example.com/notes/8"),
        _ => panic!("expected the by-URL variant"),
    }
    assert_eq!(reference.object_id().as_str(), "https://example.com/notes/8");
}

#[test]
fn decode_object_reference_from_inline_record() {
    let wire = Value::Record(vec![
        (String::from("type"), text("Article")),
        (String::from("id"), text("https://example.com/articles/1")),
    ]);
    let reference = decode_object_reference(&wire).unwrap();
    match &reference {
        ObjectReference::Object(o) => {
            assert_eq!(o.entity_type(), EntityType::Article);
        },
        _ => panic!("expected the inline-object variant"),
    }
    assert_eq!(reference.object_id().as_str(), "https://example.com/articles/1");
}

#[test]
fn decode_object_reference_rejects_other_shapes() {
    assert_eq!(decode_object_reference(&Value::Other).unwrap_err(), DecodeError::UnsupportedShape);
    assert_eq!(decode_object_reference(&text("")).unwrap_err(), DecodeError::InvalidId);
}

#[test]
fn every_known_type_tag_decodes() {
    for (tag, expected) in [
        ("Object", EntityType::Object),
        ("Link", EntityType::Link),
        ("Activity", EntityType::Activity),
        ("Note", EntityType::Note),
        ("Article", EntityType::Article),
        ("Person", EntityType::Person),
    ] {
        let wire = Value::Record(vec![
            (String::from("type"), text(tag)),
            (String::from("id"), text("https://example.com/things/1")),
        ]);
        let object = decode_object(&wire).unwrap();
        assert_eq!(object.entity_type(), expected);
    }
}

#[test]
fn encoded_object_keeps_name_and_context() {
    let entity = Entity {
        object_type: EntityType::Note,
        context: Some(Context::new(String::from("https://www.w3.org/ns/activitystreams"))),
    };
    let mut object = Object::new_with_entity(entity, url("https://example.com/n/8"));
    object.name = Some(String::from("named"));
    let encoded = encode_object(&object);
    let again = decode_object(&encoded).unwrap();
    assert_eq!(again.name.as_deref(), Some("named"));
    assert_eq!(again.context().unwrap().as_str(), "https://www.w3.org/ns/activitystreams");
}
