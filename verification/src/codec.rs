//! Shape resolution and re-emission for the wire values: each decoder tries
//! the recognized shapes in a fixed priority order, and each encoder re-emits
//! exactly the shape of the active variant.

use vstd::prelude::*;

use crate::actor::CompoundActorReference;
use crate::context::Context;
use crate::entity::{tag_type, type_tag, Entity, EntityModel, EntityType};
use crate::href::{url_parse_spec, url_text, Url};
use crate::object::{
    Link, LinkModel, ObjRefModel, Object, ObjectModel, ObjectReference, UrlRefModel, UrlReference,
};
use crate::value::{lemma_view_fields_push, lemma_view_items, lemma_view_items_push, lookup, record_get, view_fields, view_items, Value, ValueModel};

verus! {

/// Why decoding a wire value failed.  Shape-ambiguity of an optional
/// URL-typed field is not an error (it degrades to the invalid variant);
/// these arise only for mandatory fields and unrecognized shapes.
#[derive(Clone, Copy, Debug, PartialEq, Eq, Structural)]
pub enum DecodeError {
    /// No recognized shape matched the value.
    UnsupportedShape,
    /// The entity's `type` tag is missing.
    MissingType,
    /// The entity's `type` tag is present but names no known type.
    UnknownType,
    /// The `@context` field is present but not a string.
    BadContext,
    /// A link record has no `href` field.
    MissingHref,
    /// A link record's `href` is not a valid absolute URL.
    InvalidHref,
    /// An object record has no `id` field.
    MissingId,
    /// An object record's `id` is not a valid absolute URL.
    InvalidId,
    /// The `name` field is present but not a string.
    BadName,
    /// The `to` field holds neither a string nor an array of strings.
    BadAddressee,
}

// ---------------------------------------------------------------------------
// What decoding means, over the mathematical values.
// ---------------------------------------------------------------------------

/// Decoding the entity envelope out of a record's fields: a mandatory known
/// `type` tag and an optional string `@context`.
pub open spec fn dec_entity(fields: Seq<(Seq<char>, ValueModel)>) -> Result<
    EntityModel,
    DecodeError,
> {
    match record_get(fields, "type"@) {
        None => Err(DecodeError::MissingType),
        Some(tv) => match tv {
            ValueModel::Text(tag) => match tag_type(tag) {
                None => Err(DecodeError::UnknownType),
                Some(object_type) => match record_get(fields, "@context"@) {
                    None => Ok(EntityModel { object_type, context: None }),
                    Some(cv) => match cv {
                        ValueModel::Text(c) => Ok(
                            EntityModel { object_type, context: Some(c) },
                        ),
                        _ => Err(DecodeError::BadContext),
                    },
                },
            },
            _ => Err(DecodeError::UnknownType),
        },
    }
}

/// Decoding a single link record: its entity envelope plus a mandatory
/// `href` holding a valid absolute URL.
pub open spec fn dec_link(v: ValueModel) -> Result<LinkModel, DecodeError> {
    match v {
        ValueModel::Record(fields) => match dec_entity(fields) {
            Err(e) => Err(e),
            Ok(entity) => match record_get(fields, "href"@) {
                None => Err(DecodeError::MissingHref),
                Some(hv) => match hv {
                    ValueModel::Text(s) => match url_parse_spec(s) {
                        Some(t) => Ok(LinkModel { entity, href: t }),
                        None => Err(DecodeError::InvalidHref),
                    },
                    _ => Err(DecodeError::InvalidHref),
                },
            },
        },
        _ => Err(DecodeError::UnsupportedShape),
    }
}

/// Whether every element of an array decodes as a link.
pub open spec fn all_links(items: Seq<ValueModel>) -> bool {
    forall|i: int| 0 <= i < items.len() ==> dec_link(items[i]) is Ok
}

/// The links an all-link array decodes to, in wire order.
pub open spec fn links_of(items: Seq<ValueModel>) -> Seq<LinkModel> {
    Seq::new(items.len(), |i: int| dec_link(items[i])->Ok_0)
}

/// Whether every element of an array is a string holding a valid URL.
pub open spec fn all_url_texts(items: Seq<ValueModel>) -> bool {
    forall|i: int|
        0 <= i < items.len() ==> items[i] is Text && url_parse_spec(items[i]->Text_0) is Some
}

/// The URLs an all-URL array decodes to, in wire order.
pub open spec fn urls_of_texts(items: Seq<ValueModel>) -> Seq<Seq<char>> {
    Seq::new(items.len(), |i: int| url_parse_spec(items[i]->Text_0)->Some_0)
}

/// Shape resolution for a "one or many URLs or links" property, in the fixed
/// trial order: bare URL string, single link record, array of link records,
/// array of URL strings, and finally the raw-text fallback.  A string that is
/// no URL degrades to the invalid variant instead of failing; any other
/// unrecognized shape is an error.
pub open spec fn dec_url_ref(v: ValueModel) -> Result<UrlRefModel, DecodeError> {
    match v {
        ValueModel::Text(s) => match url_parse_spec(s) {
            Some(t) => Ok(UrlRefModel::Url(t)),
            None => Ok(UrlRefModel::Invalid(s)),
        },
        ValueModel::Record(_) => match dec_link(v) {
            Ok(l) => Ok(UrlRefModel::Link(l)),
            Err(e) => Err(e),
        },
        ValueModel::Array(items) => if all_links(items) {
            Ok(UrlRefModel::LinkList(links_of(items)))
        } else if all_url_texts(items) {
            Ok(UrlRefModel::UrlList(urls_of_texts(items)))
        } else {
            Err(DecodeError::UnsupportedShape)
        },
        ValueModel::Other => Err(DecodeError::UnsupportedShape),
    }
}

/// Whether every element of an array is a string.
pub open spec fn all_texts(items: Seq<ValueModel>) -> bool {
    forall|i: int| 0 <= i < items.len() ==> items[i] is Text
}

/// The strings of an all-string array, in wire order.
pub open spec fn texts_of(items: Seq<ValueModel>) -> Seq<Seq<char>> {
    Seq::new(items.len(), |i: int| items[i]->Text_0)
}

/// Decoding an addressee reference: a single identifier string, or an array
/// of identifier strings.
pub open spec fn dec_actor(v: ValueModel) -> Result<Seq<Seq<char>>, DecodeError> {
    match v {
        ValueModel::Text(s) => Ok(seq![s]),
        ValueModel::Array(items) => if all_texts(items) {
            Ok(texts_of(items))
        } else {
            Err(DecodeError::BadAddressee)
        },
        _ => Err(DecodeError::BadAddressee),
    }
}

/// Decoding the mandatory `id` field: a string holding a valid absolute URL.
pub open spec fn dec_id(fields: Seq<(Seq<char>, ValueModel)>) -> Result<Seq<char>, DecodeError> {
    match record_get(fields, "id"@) {
        None => Err(DecodeError::MissingId),
        Some(iv) => match iv {
            ValueModel::Text(s) => match url_parse_spec(s) {
                Some(t) => Ok(t),
                None => Err(DecodeError::InvalidId),
            },
            _ => Err(DecodeError::InvalidId),
        },
    }
}

/// Decoding the optional `name` field: a string when present.
pub open spec fn dec_name(fields: Seq<(Seq<char>, ValueModel)>) -> Result<
    Option<Seq<char>>,
    DecodeError,
> {
    match record_get(fields, "name"@) {
        None => Ok(None),
        Some(nv) => match nv {
            ValueModel::Text(s) => Ok(Some(s)),
            _ => Err(DecodeError::BadName),
        },
    }
}

/// Decoding the optional `url` field through shape resolution.
pub open spec fn dec_url_field(fields: Seq<(Seq<char>, ValueModel)>) -> Result<
    Option<UrlRefModel>,
    DecodeError,
> {
    match record_get(fields, "url"@) {
        None => Ok(None),
        Some(uv) => match dec_url_ref(uv) {
            Ok(u) => Ok(Some(u)),
            Err(e) => Err(e),
        },
    }
}

/// Decoding the optional `to` field as an addressee reference.
pub open spec fn dec_to(fields: Seq<(Seq<char>, ValueModel)>) -> Result<
    Option<Seq<Seq<char>>>,
    DecodeError,
> {
    match record_get(fields, "to"@) {
        None => Ok(None),
        Some(tv) => match dec_actor(tv) {
            Ok(targets) => Ok(Some(targets)),
            Err(e) => Err(e),
        },
    }
}

/// Decoding an object record: entity envelope, mandatory `id`, optional
/// `name`, `url` and `to`.  A mandatory-field violation fails the decode;
/// unknown fields are ignored.
pub open spec fn dec_object(v: ValueModel) -> Result<ObjectModel, DecodeError> {
    match v {
        ValueModel::Record(fields) => match dec_entity(fields) {
            Err(e) => Err(e),
            Ok(entity) => match dec_id(fields) {
                Err(e) => Err(e),
                Ok(id) => match dec_name(fields) {
                    Err(e) => Err(e),
                    Ok(name) => match dec_url_field(fields) {
                        Err(e) => Err(e),
                        Ok(url) => match dec_to(fields) {
                            Err(e) => Err(e),
                            Ok(to) => Ok(ObjectModel { entity, id, name, url, to }),
                        },
                    },
                },
            },
        },
        _ => Err(DecodeError::UnsupportedShape),
    }
}

/// Decoding an object reference: an inline object record, or an identifier
/// string, in that trial order.
pub open spec fn dec_object_ref(v: ValueModel) -> Result<ObjRefModel, DecodeError> {
    match v {
        ValueModel::Record(_) => match dec_object(v) {
            Ok(o) => Ok(ObjRefModel::Object(o)),
            Err(e) => Err(e),
        },
        ValueModel::Text(s) => match url_parse_spec(s) {
            Some(t) => Ok(ObjRefModel::Url(t)),
            None => Err(DecodeError::InvalidId),
        },
        _ => Err(DecodeError::UnsupportedShape),
    }
}

// ---------------------------------------------------------------------------
// The executable decoders.
// ---------------------------------------------------------------------------

/// Decodes the entity envelope out of a record's fields.
pub fn decode_entity_fields(fields: &Vec<(String, Value)>) -> (r: Result<Entity, DecodeError>)
    ensures
        match r {
            Ok(e) => dec_entity(view_fields(fields@)) == Ok::<EntityModel, DecodeError>(e@),
            Err(er) => dec_entity(view_fields(fields@)) == Err::<EntityModel, DecodeError>(er),
        },
{
    let tag = match lookup(fields, "type") {
        None => {
            return Err(DecodeError::MissingType);
        },
        Some(tv) => match tv {
            Value::Text(s) => s,
            _ => {
                return Err(DecodeError::UnknownType);
            },
        },
    };
    let object_type = match EntityType::from_tag(tag.as_str()) {
        Some(t) => t,
        None => {
            return Err(DecodeError::UnknownType);
        },
    };
    let context = match lookup(fields, "@context") {
        None => None,
        Some(cv) => match cv {
            Value::Text(c) => Some(Context::new(c.clone())),
            _ => {
                return Err(DecodeError::BadContext);
            },
        },
    };
    Ok(Entity { object_type, context })
}

/// Decodes a single link record.
pub fn decode_link(v: &Value) -> (r: Result<Link, DecodeError>)
    ensures
        match r {
            Ok(l) => dec_link(v@) == Ok::<LinkModel, DecodeError>(l@) && l@.wf(),
            Err(e) => dec_link(v@) == Err::<LinkModel, DecodeError>(e),
        },
{
    let fields = match v {
        Value::Record(fields) => fields,
        _ => {
            return Err(DecodeError::UnsupportedShape);
        },
    };
    let entity = match decode_entity_fields(fields) {
        Ok(e) => e,
        Err(e) => {
            return Err(e);
        },
    };
    match lookup(fields, "href") {
        None => Err(DecodeError::MissingHref),
        Some(hv) => match hv {
            Value::Text(s) => match Url::parse(s.as_str()) {
                Some(href) => Ok(Link { entity, href }),
                None => Err(DecodeError::InvalidHref),
            },
            _ => Err(DecodeError::InvalidHref),
        },
    }
}

/// Tries to decode every element of an array as a link.
fn decode_links(items: &Vec<Value>) -> (r: Option<Vec<Link>>)
    ensures
        match r {
            Some(ls) => all_links(view_items(items@)) && ls@.len() == items@.len() && forall|
                i: int,
            |
                0 <= i < ls@.len() ==> dec_link(view_items(items@)[i]) == Ok::<LinkModel, DecodeError>(ls@[i]@)
                    && ls@[i]@.wf(),
            None => !all_links(view_items(items@)),
        },
{
    let n = items.len();
    let mut ls: Vec<Link> = Vec::new();
    let mut i: usize = 0;
    while i < n
        invariant
            n == items@.len(),
            0 <= i <= n,
            ls@.len() == i,
            forall|j: int| 0 <= j < i ==> dec_link(items@[j]@) == Ok::<LinkModel, DecodeError>(ls@[j]@) && ls@[j]@.wf(),
        decreases n - i,
    {
        match decode_link(&items[i]) {
            Ok(l) => {
                ls.push(l);
            },
            Err(_) => {
                proof {
                    lemma_view_items(items@);
                    assert(dec_link(view_items(items@)[i as int]) is Err);
                }
                return None;
            },
        }
        i += 1;
    }
    proof {
        lemma_view_items(items@);
    }
    Some(ls)
}

/// Tries to decode every element of an array as a bare URL string.
fn decode_url_texts(items: &Vec<Value>) -> (r: Option<Vec<Url>>)
    ensures
        match r {
            Some(us) => all_url_texts(view_items(items@)) && us@.len() == items@.len() && forall|
                i: int,
            |
                0 <= i < us@.len() ==> urls_of_texts(view_items(items@))[i] == us@[i]@
                    && us@[i].wf(),
            None => !all_url_texts(view_items(items@)),
        },
{
    let n = items.len();
    let mut us: Vec<Url> = Vec::new();
    let mut i: usize = 0;
    while i < n
        invariant
            n == items@.len(),
            0 <= i <= n,
            us@.len() == i,
            forall|j: int|
                0 <= j < i ==> (#[trigger] items@[j]@) is Text && url_parse_spec(
                    items@[j]@->Text_0,
                ) == Some(us@[j]@) && us@[j].wf(),
        decreases n - i,
    {
        match &items[i] {
            Value::Text(s) => match Url::parse(s.as_str()) {
                Some(u) => {
                    proof {
                        assert(items@[i as int]@ is Text);
                        assert(url_parse_spec(items@[i as int]@->Text_0) == Some(u@));
                    }
                    us.push(u);
                },
                None => {
                    proof {
                        lemma_view_items(items@);
                        assert(view_items(items@)[i as int] == items@[i as int]@);
                        assert(!all_url_texts(view_items(items@)));
                    }
                    return None;
                },
            },
            _ => {
                proof {
                    lemma_view_items(items@);
                    assert(view_items(items@)[i as int] == items@[i as int]@);
                    assert(!(items@[i as int]@ is Text));
                    assert(!all_url_texts(view_items(items@)));
                }
                return None;
            },
        }
        i += 1;
    }
    proof {
        lemma_view_items(items@);
        assert forall|j: int| 0 <= j < view_items(items@).len() implies (#[trigger] view_items(
            items@,
        )[j]) is Text && url_parse_spec(view_items(items@)[j]->Text_0) is Some by {
            assert(view_items(items@)[j] == items@[j]@);
        }
        assert forall|j: int| 0 <= j < us@.len() implies urls_of_texts(view_items(items@))[j]
            == us@[j]@ by {
            assert(view_items(items@)[j] == items@[j]@);
        }
    }
    Some(us)
}

/// Resolves the wire shape of a "one or many URLs or links" property, trying
/// the variants in the fixed priority order; the first match wins.
pub fn decode_url_reference(v: &Value) -> (r: Result<UrlReference, DecodeError>)
    ensures
        match r {
            Ok(u) => dec_url_ref(v@) == Ok::<UrlRefModel, DecodeError>(u@) && u@.wf(),
            Err(e) => dec_url_ref(v@) == Err::<UrlRefModel, DecodeError>(e),
        },
{
    match v {
        Value::Text(s) => match Url::parse(s.as_str()) {
            Some(u) => Ok(UrlReference::Url(u)),
            None => Ok(UrlReference::Invalid(s.clone())),
        },
        Value::Record(_) => match decode_link(v) {
            Ok(l) => Ok(UrlReference::Link(l)),
            Err(e) => Err(e),
        },
        Value::Array(items) => match decode_links(items) {
            Some(ls) => {
                let result = UrlReference::LinkList(ls);
                proof {
                    lemma_view_items(items@);
                    let models = links_of(view_items(items@));
                    assert forall|k: int| 0 <= k < models.len() implies #[trigger] models[k]
                        == ls@[k]@ && models[k].wf() by {
                        assert(dec_link(view_items(items@)[k]) == Ok::<
                            LinkModel,
                            DecodeError,
                        >(ls@[k]@));
                    }
                    assert(result@ =~= UrlRefModel::LinkList(models));
                }
                Ok(result)
            },
            None => match decode_url_texts(items) {
                Some(us) => {
                    let result = UrlReference::UrlList(us);
                    proof {
                        lemma_view_items(items@);
                        let models = urls_of_texts(view_items(items@));
                        assert(result@ =~= UrlRefModel::UrlList(models));
                        assert forall|k: int| 0 <= k < models.len() implies url_text(
                            #[trigger] models[k],
                        ) by {
                            assert(0 <= k < us@.len());
                            assert(urls_of_texts(view_items(items@))[k] == us@[k]@);
                            assert(us@[k].wf());
                        }
                    }
                    Ok(result)
                },
                None => Err(DecodeError::UnsupportedShape),
            },
        },
        Value::Other => Err(DecodeError::UnsupportedShape),
    }
}

/// Decodes an addressee reference: a string, or an array of strings.
pub fn decode_actor_reference(v: &Value) -> (r: Result<CompoundActorReference, DecodeError>)
    ensures
        match r {
            Ok(a) => dec_actor(v@) == Ok::<Seq<Seq<char>>, DecodeError>(a@),
            Err(e) => dec_actor(v@) == Err::<Seq<Seq<char>>, DecodeError>(e),
        },
{
    match v {
        Value::Text(s) => {
            let mut targets: Vec<String> = Vec::new();
            targets.push(s.clone());
            let a = CompoundActorReference::new(targets);
            proof {
                assert(a@ =~= seq![s@]);
            }
            Ok(a)
        },
        Value::Array(items) => {
            let n = items.len();
            let mut targets: Vec<String> = Vec::new();
            let mut i: usize = 0;
            while i < n
                invariant
                    v@ == ValueModel::Array(view_items(items@)),
                    n == items@.len(),
                    0 <= i <= n,
                    targets@.len() == i,
                    forall|j: int|
                        0 <= j < i ==> (#[trigger] items@[j]@) is Text && targets@[j]@
                            == items@[j]@->Text_0,
                decreases n - i,
            {
                match &items[i] {
                    Value::Text(s) => {
                        proof {
                            assert(items@[i as int]@ is Text);
                        }
                        targets.push(s.clone());
                    },
                    _ => {
                        proof {
                            lemma_view_items(items@);
                            assert(view_items(items@)[i as int] == items@[i as int]@);
                            assert(!all_texts(view_items(items@)));
                        }
                        return Err(DecodeError::BadAddressee);
                    },
                }
                i += 1;
            }
            let a = CompoundActorReference::new(targets);
            proof {
                lemma_view_items(items@);
                assert forall|j: int| 0 <= j < view_items(items@).len() implies (
                #[trigger] view_items(items@)[j]) is Text by {
                    assert(view_items(items@)[j] == items@[j]@);
                }
                assert(a@ =~= texts_of(view_items(items@)));
            }
            Ok(a)
        },
        _ => Err(DecodeError::BadAddressee),
    }
}

/// Decodes an object record.
pub fn decode_object(v: &Value) -> (r: Result<Object, DecodeError>)
    ensures
        match r {
            Ok(o) => dec_object(v@) == Ok::<ObjectModel, DecodeError>(o@) && o@.wf(),
            Err(e) => dec_object(v@) == Err::<ObjectModel, DecodeError>(e),
        },
{
    let fields = match v {
        Value::Record(fields) => fields,
        _ => {
            return Err(DecodeError::UnsupportedShape);
        },
    };
    let entity = match decode_entity_fields(fields) {
        Ok(e) => e,
        Err(e) => {
            return Err(e);
        },
    };
    let id = match lookup(fields, "id") {
        None => {
            return Err(DecodeError::MissingId);
        },
        Some(iv) => match iv {
            Value::Text(s) => match Url::parse(s.as_str()) {
                Some(u) => u,
                None => {
                    return Err(DecodeError::InvalidId);
                },
            },
            _ => {
                return Err(DecodeError::InvalidId);
            },
        },
    };
    let name = match lookup(fields, "name") {
        None => None,
        Some(nv) => match nv {
            Value::Text(s) => Some(s.clone()),
            _ => {
                return Err(DecodeError::BadName);
            },
        },
    };
    let url = match lookup(fields, "url") {
        None => None,
        Some(uv) => match decode_url_reference(uv) {
            Ok(u) => Some(u),
            Err(e) => {
                return Err(e);
            },
        },
    };
    let to = match lookup(fields, "to") {
        None => None,
        Some(tv) => match decode_actor_reference(tv) {
            Ok(a) => Some(a),
            Err(e) => {
                return Err(e);
            },
        },
    };
    Ok(Object { entity, id, name, url, to })
}

/// Decodes an object reference: an inline object record, or an identifier
/// string, in that trial order.
pub fn decode_object_reference(v: &Value) -> (r: Result<ObjectReference, DecodeError>)
    ensures
        match r {
            Ok(o) => dec_object_ref(v@) == Ok::<ObjRefModel, DecodeError>(o@) && o@.wf(),
            Err(e) => dec_object_ref(v@) == Err::<ObjRefModel, DecodeError>(e),
        },
{
    match v {
        Value::Record(_) => match decode_object(v) {
            Ok(o) => Ok(ObjectReference::Object(Box::new(o))),
            Err(e) => Err(e),
        },
        Value::Text(s) => match Url::parse(s.as_str()) {
            Some(u) => Ok(ObjectReference::Url(u)),
            None => Err(DecodeError::InvalidId),
        },
        _ => Err(DecodeError::UnsupportedShape),
    }
}


// ---------------------------------------------------------------------------
// What encoding means, over the mathematical values: each encoder re-emits
// exactly the shape of the active variant, and absent optional fields are
// omitted entirely.
// ---------------------------------------------------------------------------

/// The entity envelope's fields: the `type` tag, then `@context` when
/// present.
pub open spec fn enc_entity_fields(entity: EntityModel) -> Seq<(Seq<char>, ValueModel)> {
    match entity.context {
        Some(c) => seq![
            ("type"@, ValueModel::Text(type_tag(entity.object_type))),
            ("@context"@, ValueModel::Text(c)),
        ],
        None => seq![("type"@, ValueModel::Text(type_tag(entity.object_type)))],
    }
}

/// A link record: its entity fields plus `href`.
pub open spec fn enc_link(link: LinkModel) -> ValueModel {
    ValueModel::Record(enc_entity_fields(link.entity).push(("href"@, ValueModel::Text(link.href))))
}

/// A URL reference, re-emitted in the shape of its active variant.
pub open spec fn enc_url_ref(reference: UrlRefModel) -> ValueModel {
    match reference {
        UrlRefModel::Url(t) => ValueModel::Text(t),
        UrlRefModel::Link(l) => enc_link(l),
        UrlRefModel::LinkList(ls) => ValueModel::Array(Seq::new(ls.len(), |i: int| enc_link(ls[i]))),
        UrlRefModel::UrlList(us) => ValueModel::Array(
            Seq::new(us.len(), |i: int| ValueModel::Text(us[i])),
        ),
        UrlRefModel::Invalid(s) => ValueModel::Text(s),
    }
}

/// An addressee reference, as an array of identifier strings.
pub open spec fn enc_actor(targets: Seq<Seq<char>>) -> ValueModel {
    ValueModel::Array(Seq::new(targets.len(), |i: int| ValueModel::Text(targets[i])))
}

/// An object record's fields: entity fields, `id`, then each optional field
/// only when present.
pub open spec fn enc_object_fields(object: ObjectModel) -> Seq<(Seq<char>, ValueModel)> {
    let with_id = enc_entity_fields(object.entity).push(("id"@, ValueModel::Text(object.id)));
    let with_name = match object.name {
        Some(n) => with_id.push(("name"@, ValueModel::Text(n))),
        None => with_id,
    };
    let with_url = match object.url {
        Some(u) => with_name.push(("url"@, enc_url_ref(u))),
        None => with_name,
    };
    match object.to {
        Some(ts) => with_url.push(("to"@, enc_actor(ts))),
        None => with_url,
    }
}

/// An object record.
pub open spec fn enc_object(object: ObjectModel) -> ValueModel {
    ValueModel::Record(enc_object_fields(object))
}

/// An object reference, re-emitted in the shape of its active variant.
pub open spec fn enc_object_ref(reference: ObjRefModel) -> ValueModel {
    match reference {
        ObjRefModel::Object(o) => enc_object(o),
        ObjRefModel::Url(t) => ValueModel::Text(t),
    }
}

// ---------------------------------------------------------------------------
// The executable encoders.
// ---------------------------------------------------------------------------

/// Re-emits the entity envelope's fields.
pub fn encode_entity_fields(entity: &Entity) -> (r: Vec<(String, Value)>)
    ensures
        view_fields(r@) == enc_entity_fields(entity@),
{
    let mut fields: Vec<(String, Value)> = Vec::new();
    fields.push(("type".to_owned(), Value::Text(entity.object_type.tag().to_owned())));
    match &entity.context {
        Some(c) => {
            fields.push(("@context".to_owned(), Value::Text(c.as_str().to_owned())));
        },
        None => {},
    }
    proof {
        crate::value::lemma_view_fields(fields@);
        assert(view_fields(fields@) =~= enc_entity_fields(entity@));
    }
    fields
}

/// Re-emits a link record.
pub fn encode_link(link: &Link) -> (r: Value)
    ensures
        r@ == enc_link(link@),
{
    let mut fields = encode_entity_fields(&link.entity);
    let ghost before = fields@;
    fields.push(("href".to_owned(), Value::Text(link.href.as_str().to_owned())));
    proof {
        lemma_view_fields_push(before, fields@.last());
        assert(fields@ == before.push(fields@.last()));
        assert(view_fields(fields@) == enc_entity_fields(link@.entity).push(
            ("href"@, ValueModel::Text(link@.href)),
        ));
    }
    Value::Record(fields)
}

/// Re-emits a URL reference in the shape of its active variant.
pub fn encode_url_reference(reference: &UrlReference) -> (r: Value)
    ensures
        r@ == enc_url_ref(reference@),
{
    match reference {
        UrlReference::Url(u) => Value::Text(u.as_str().to_owned()),
        UrlReference::Link(l) => encode_link(l),
        UrlReference::LinkList(ls) => {
            let n = ls.len();
            let mut items: Vec<Value> = Vec::new();
            let mut i: usize = 0;
            while i < n
                invariant
                    n == ls@.len(),
                    0 <= i <= n,
                    items@.len() == i,
                    forall|j: int| 0 <= j < i ==> items@[j]@ == enc_link(#[trigger] ls@[j]@),
                decreases n - i,
            {
                let ghost before = items@;
                let item = encode_link(&ls[i]);
                items.push(item);
                proof {
                    lemma_view_items_push(before, item);
                }
                i += 1;
            }
            proof {
                lemma_view_items(items@);
                assert(view_items(items@) =~= Seq::new(ls@.len(), |k: int| enc_link(ls@[k]@)));
                assert(Seq::new(ls@.len(), |k: int| enc_link(ls@[k]@)) =~= Seq::new(
                    reference@->LinkList_0.len(),
                    |k: int| enc_link(reference@->LinkList_0[k]),
                ));
            }
            Value::Array(items)
        },
        UrlReference::UrlList(us) => {
            let n = us.len();
            let mut items: Vec<Value> = Vec::new();
            let mut i: usize = 0;
            while i < n
                invariant
                    n == us@.len(),
                    0 <= i <= n,
                    items@.len() == i,
                    forall|j: int| 0 <= j < i ==> items@[j]@ == ValueModel::Text(#[trigger] us@[j]@),
                decreases n - i,
            {
                items.push(Value::Text(us[i].as_str().to_owned()));
                i += 1;
            }
            proof {
                lemma_view_items(items@);
                assert(view_items(items@) =~= Seq::new(us@.len(), |k: int| ValueModel::Text(us@[k]@)));
                assert(Seq::new(us@.len(), |k: int| ValueModel::Text(us@[k]@)) =~= Seq::new(
                    reference@->UrlList_0.len(),
                    |k: int| ValueModel::Text(reference@->UrlList_0[k]),
                ));
            }
            Value::Array(items)
        },
        UrlReference::Invalid(s) => Value::Text(s.clone()),
    }
}

/// Re-emits an addressee reference as an array of identifier strings.
pub fn encode_actor_reference(reference: &CompoundActorReference) -> (r: Value)
    ensures
        r@ == enc_actor(reference@),
{
    let targets = reference.targets();
    let n = targets.len();
    let mut items: Vec<Value> = Vec::new();
    let mut i: usize = 0;
    while i < n
        invariant
            n == targets@.len(),
            n == reference@.len(),
            forall|j: int| 0 <= j < n ==> targets@[j]@ == reference@[j],
            0 <= i <= n,
            items@.len() == i,
            forall|j: int| 0 <= j < i ==> items@[j]@ == ValueModel::Text(#[trigger] reference@[j]),
        decreases n - i,
    {
        items.push(Value::Text(targets[i].clone()));
        i += 1;
    }
    proof {
        lemma_view_items(items@);
        assert(view_items(items@) =~= Seq::new(reference@.len(), |k: int| ValueModel::Text(reference@[k])));
    }
    Value::Array(items)
}

/// Re-emits an object record, omitting absent optional fields entirely.
pub fn encode_object(object: &Object) -> (r: Value)
    ensures
        r@ == enc_object(object@),
{
    let mut fields = encode_entity_fields(&object.entity);
    let ghost stage0 = fields@;
    fields.push(("id".to_owned(), Value::Text(object.id.as_str().to_owned())));
    proof {
        lemma_view_fields_push(stage0, fields@.last());
        assert(fields@ == stage0.push(fields@.last()));
    }
    let ghost stage1 = fields@;
    match &object.name {
        Some(n) => {
            fields.push(("name".to_owned(), Value::Text(n.clone())));
            proof {
                lemma_view_fields_push(stage1, fields@.last());
                assert(fields@ == stage1.push(fields@.last()));
            }
        },
        None => {},
    }
    let ghost stage2 = fields@;
    match &object.url {
        Some(u) => {
            let encoded = encode_url_reference(u);
            fields.push(("url".to_owned(), encoded));
            proof {
                lemma_view_fields_push(stage2, fields@.last());
                assert(fields@ == stage2.push(fields@.last()));
            }
        },
        None => {},
    }
    let ghost stage3 = fields@;
    match &object.to {
        Some(t) => {
            let encoded = encode_actor_reference(t);
            fields.push(("to".to_owned(), encoded));
            proof {
                lemma_view_fields_push(stage3, fields@.last());
                assert(fields@ == stage3.push(fields@.last()));
            }
        },
        None => {},
    }
    proof {
        assert(view_fields(fields@) == enc_object_fields(object@));
    }
    Value::Record(fields)
}

/// Re-emits an object reference in the shape of its active variant.
pub fn encode_object_reference(reference: &ObjectReference) -> (r: Value)
    ensures
        r@ == enc_object_ref(reference@),
{
    match reference {
        ObjectReference::Object(o) => encode_object(o),
        ObjectReference::Url(u) => Value::Text(u.as_str().to_owned()),
    }
}


// ---------------------------------------------------------------------------
// Laws: decoding inverts encoding, shape for shape.
// ---------------------------------------------------------------------------

/// The record keys the codec uses are pairwise distinct.
proof fn lemma_keys_distinct()
    ensures
        "type"@ != "@context"@,
        "type"@ != "id"@,
        "type"@ != "name"@,
        "type"@ != "url"@,
        "type"@ != "to"@,
        "type"@ != "href"@,
        "@context"@ != "id"@,
        "@context"@ != "name"@,
        "@context"@ != "url"@,
        "@context"@ != "to"@,
        "@context"@ != "href"@,
        "id"@ != "name"@,
        "id"@ != "url"@,
        "id"@ != "to"@,
        "id"@ != "href"@,
        "name"@ != "url"@,
        "name"@ != "to"@,
        "name"@ != "href"@,
        "url"@ != "to"@,
        "url"@ != "href"@,
        "to"@ != "href"@,
{
    reveal_strlit("type");
    reveal_strlit("@context");
    reveal_strlit("id");
    reveal_strlit("name");
    reveal_strlit("url");
    reveal_strlit("to");
    reveal_strlit("href");
    assert("type"@[0] == 't');
    assert("@context"@[0] == '@');
    assert("id"@[0] == 'i');
    assert("name"@[0] == 'n');
    assert("url"@[0] == 'u');
    assert("to"@[0] == 't');
    assert("href"@[0] == 'h');
    assert("type"@[1] == 'y');
    assert("to"@[1] == 'o');
}

/// Looking a key up after appending a field: an earlier binding still wins,
/// the new field answers only for its own, previously absent, key.
proof fn lemma_record_get_push(
    fields: Seq<(Seq<char>, ValueModel)>,
    entry: (Seq<char>, ValueModel),
    k: Seq<char>,
)
    ensures
        record_get(fields.push(entry), k) == (if record_get(fields, k) is Some {
            record_get(fields, k)
        } else if entry.0 == k {
            Some(entry.1)
        } else {
            None::<ValueModel>
        }),
    decreases fields.len(),
{
    reveal_with_fuel(record_get, 3);
    if fields.len() == 0 {
        assert(fields.push(entry) =~= seq![entry]);
        assert(fields.push(entry).drop_first() =~= Seq::<(Seq<char>, ValueModel)>::empty());
    } else {
        assert(fields.push(entry).drop_first() =~= fields.drop_first().push(entry));
        lemma_record_get_push(fields.drop_first(), entry, k);
    }
}

/// Looking a key up in the encoded entity fields: `type` and `@context`
/// answer, every other key is absent.
proof fn lemma_record_get_entity(entity: EntityModel, k: Seq<char>)
    ensures
        record_get(enc_entity_fields(entity), "type"@) == Some(
            ValueModel::Text(type_tag(entity.object_type)),
        ),
        "type"@ != "@context"@ ==> record_get(enc_entity_fields(entity), "@context"@) == (
        match entity.context {
            Some(c) => Some(ValueModel::Text(c)),
            None => None::<ValueModel>,
        }),
        k != "type"@ && k != "@context"@ ==> record_get(enc_entity_fields(entity), k) is None,
{
    reveal_with_fuel(record_get, 4);
    let tpair = ("type"@, ValueModel::Text(type_tag(entity.object_type)));
    match entity.context {
        Some(c) => {
            let cpair = ("@context"@, ValueModel::Text(c));
            let base = enc_entity_fields(entity);
            assert(base == seq![tpair, cpair]);
            assert(base.drop_first() =~= seq![cpair]);
            assert(seq![cpair].drop_first() =~= Seq::<(Seq<char>, ValueModel)>::empty());
        },
        None => {
            let base = enc_entity_fields(entity);
            assert(base == seq![tpair]);
            assert(base.drop_first() =~= Seq::<(Seq<char>, ValueModel)>::empty());
        },
    }
}

/// Decoding inverts encoding for a well-formed link record.
pub proof fn lemma_link_round_trip(link: LinkModel)
    requires
        link.wf(),
    ensures
        dec_link(enc_link(link)) == Ok::<LinkModel, DecodeError>(link),
{
    lemma_keys_distinct();
    let base = enc_entity_fields(link.entity);
    let hpair = ("href"@, ValueModel::Text(link.href));
    let fields = base.push(hpair);
    lemma_record_get_entity(link.entity, "href"@);
    lemma_record_get_push(base, hpair, "type"@);
    lemma_record_get_push(base, hpair, "@context"@);
    lemma_record_get_push(base, hpair, "href"@);
    crate::entity::lemma_type_tag_round_trip(link.entity.object_type);
    assert(dec_entity(fields) == Ok::<EntityModel, DecodeError>(link.entity));
    assert(record_get(fields, "href"@) == Some(ValueModel::Text(link.href)));
    assert(dec_link(enc_link(link)) == Ok::<LinkModel, DecodeError>(
        LinkModel { entity: link.entity, href: link.href },
    ));
    assert(LinkModel { entity: link.entity, href: link.href } == link);
}

/// Decoding inverts encoding for a well-formed URL reference, shape for
/// shape, with one exception: an empty URL list re-emits as an empty array,
/// which resolves to an empty link list.
pub proof fn lemma_url_reference_round_trip(reference: UrlRefModel)
    requires
        reference.wf(),
        match reference {
            UrlRefModel::UrlList(us) => us.len() > 0,
            _ => true,
        },
    ensures
        dec_url_ref(enc_url_ref(reference)) == Ok::<UrlRefModel, DecodeError>(reference),
{
    match reference {
        UrlRefModel::Url(t) => {
        },
        UrlRefModel::Link(l) => {
            lemma_link_round_trip(l);
        },
        UrlRefModel::LinkList(ls) => {
            let encoded = Seq::new(ls.len(), |i: int| enc_link(ls[i]));
            assert forall|i: int| 0 <= i < encoded.len() implies #[trigger] dec_link(encoded[i])
                == Ok::<LinkModel, DecodeError>(ls[i]) by {
                assert(ls[i].wf());
                lemma_link_round_trip(ls[i]);
            }
            assert(all_links(encoded));
            assert(links_of(encoded) =~= ls);
        },
        UrlRefModel::UrlList(us) => {
            let encoded = Seq::new(us.len(), |i: int| ValueModel::Text(us[i]));
            assert(dec_link(encoded[0]) is Err);
            assert(!all_links(encoded));
            assert forall|i: int| 0 <= i < encoded.len() implies (#[trigger] encoded[i]) is Text
                && url_parse_spec(encoded[i]->Text_0) is Some by {
                assert(url_text(us[i]));
            }
            assert(all_url_texts(encoded));
            assert(urls_of_texts(encoded) =~= us);
        },
        UrlRefModel::Invalid(s) => {
        },
    }
}

/// Decoding inverts encoding for an addressee reference, including the
/// empty one.
pub proof fn lemma_actor_round_trip(targets: Seq<Seq<char>>)
    ensures
        dec_actor(enc_actor(targets)) == Ok::<Seq<Seq<char>>, DecodeError>(targets),
{
    let encoded = Seq::new(targets.len(), |i: int| ValueModel::Text(targets[i]));
    assert(all_texts(encoded));
    assert(texts_of(encoded) =~= targets);
}

/// Decoding inverts encoding for a well-formed object: every property comes
/// back, and the url property keeps the exact shape of its active variant
/// (an empty URL list is again the one exception).
pub proof fn lemma_object_round_trip(object: ObjectModel)
    requires
        object.wf(),
        match object.url {
            Some(UrlRefModel::UrlList(us)) => us.len() > 0,
            _ => true,
        },
    ensures
        dec_object(enc_object(object)) == Ok::<ObjectModel, DecodeError>(object),
{
    lemma_keys_distinct();
    let base = enc_entity_fields(object.entity);
    let ipair = ("id"@, ValueModel::Text(object.id));
    let stage1 = base.push(ipair);
    let stage2 = match object.name {
        Some(n) => stage1.push(("name"@, ValueModel::Text(n))),
        None => stage1,
    };
    let stage3 = match object.url {
        Some(u) => stage2.push(("url"@, enc_url_ref(u))),
        None => stage2,
    };
    let fields = match object.to {
        Some(ts) => stage3.push(("to"@, enc_actor(ts))),
        None => stage3,
    };
    assert(enc_object_fields(object) == fields);
    assert forall|k: Seq<char>| true implies #[trigger] record_get(fields, k) == (
    if record_get(stage1, k) is Some {
        record_get(stage1, k)
    } else if object.name is Some && k == "name"@ {
        Some(ValueModel::Text(object.name->0))
    } else if object.url is Some && k == "url"@ {
        Some(enc_url_ref(object.url->0))
    } else if object.to is Some && k == "to"@ {
        Some(enc_actor(object.to->0))
    } else {
        None::<ValueModel>
    }) by {
        lemma_keys_distinct();
        if object.name is Some {
            lemma_record_get_push(stage1, ("name"@, ValueModel::Text(object.name->0)), k);
        }
        if object.url is Some {
            lemma_record_get_push(stage2, ("url"@, enc_url_ref(object.url->0)), k);
        }
        if object.to is Some {
            lemma_record_get_push(stage3, ("to"@, enc_actor(object.to->0)), k);
        }
    }
    lemma_record_get_entity(object.entity, "id"@);
    lemma_record_get_push(base, ipair, "type"@);
    lemma_record_get_push(base, ipair, "@context"@);
    lemma_record_get_push(base, ipair, "id"@);
    lemma_record_get_entity(object.entity, "name"@);
    lemma_record_get_push(base, ipair, "name"@);
    lemma_record_get_entity(object.entity, "url"@);
    lemma_record_get_push(base, ipair, "url"@);
    lemma_record_get_entity(object.entity, "to"@);
    lemma_record_get_push(base, ipair, "to"@);
    crate::entity::lemma_type_tag_round_trip(object.entity.object_type);
    assert(dec_entity(fields) == Ok::<EntityModel, DecodeError>(object.entity));
    assert(dec_id(fields) == Ok::<Seq<char>, DecodeError>(object.id));
    assert(dec_name(fields) == Ok::<Option<Seq<char>>, DecodeError>(object.name));
    match object.url {
        Some(u) => {
            lemma_url_reference_round_trip(u);
            assert(dec_url_field(fields) == Ok::<Option<UrlRefModel>, DecodeError>(Some(u)));
        },
        None => {
            assert(dec_url_field(fields) == Ok::<Option<UrlRefModel>, DecodeError>(None));
        },
    }
    match object.to {
        Some(ts) => {
            lemma_actor_round_trip(ts);
            assert(dec_to(fields) == Ok::<Option<Seq<Seq<char>>>, DecodeError>(Some(ts)));
        },
        None => {
            assert(dec_to(fields) == Ok::<Option<Seq<Seq<char>>>, DecodeError>(None));
        },
    }
    assert(dec_object(enc_object(object)) == Ok::<ObjectModel, DecodeError>(
        ObjectModel {
            entity: object.entity,
            id: object.id,
            name: object.name,
            url: object.url,
            to: object.to,
        },
    ));
    assert(ObjectModel {
        entity: object.entity,
        id: object.id,
        name: object.name,
        url: object.url,
        to: object.to,
    } == object);
}

/// Decoding inverts encoding for an object reference, in both its variants.
pub proof fn lemma_object_reference_round_trip(reference: ObjRefModel)
    requires
        match reference {
            ObjRefModel::Object(o) => o.wf() && match o.url {
                Some(UrlRefModel::UrlList(us)) => us.len() > 0,
                _ => true,
            },
            ObjRefModel::Url(t) => url_text(t),
        },
    ensures
        dec_object_ref(enc_object_ref(reference)) == Ok::<ObjRefModel, DecodeError>(reference),
{
    match reference {
        ObjRefModel::Object(o) => {
            lemma_object_round_trip(o);
        },
        ObjRefModel::Url(t) => {
        },
    }
}

/// A string that parses as an absolute URL resolves to the bare-URL variant
/// holding the parsed URL, and that URL is the one reported first.
pub proof fn lemma_decode_bare_url(s: Seq<char>, t: Seq<char>)
    requires
        crate::href::parses_to(s, t),
    ensures
        dec_url_ref(ValueModel::Text(s)) == Ok::<UrlRefModel, DecodeError>(UrlRefModel::Url(t)),
        UrlRefModel::Url(t).urls() == seq![t],
        UrlRefModel::Url(t).urls()[0] == t,
{
    assert(UrlRefModel::Url(t).urls() =~= seq![t]);
}

/// An array in which every element decodes as a link resolves to the
/// link-list variant, and its URLs are exactly the links' hrefs, in wire
/// order.
pub proof fn lemma_decode_link_array(items: Seq<ValueModel>, links: Seq<LinkModel>)
    requires
        items.len() == links.len(),
        forall|i: int|
            0 <= i < items.len() ==> #[trigger] dec_link(items[i]) == Ok::<
                LinkModel,
                DecodeError,
            >(links[i]),
    ensures
        dec_url_ref(ValueModel::Array(items)) == Ok::<UrlRefModel, DecodeError>(
            UrlRefModel::LinkList(links),
        ),
        UrlRefModel::LinkList(links).urls() == Seq::new(links.len(), |i: int| links[i].href),
{
    assert(all_links(items));
    assert(links_of(items) =~= links);
    assert(UrlRefModel::LinkList(links).urls() =~= Seq::new(
        links.len(),
        |i: int| links[i].href,
    ));
}

} // verus!
