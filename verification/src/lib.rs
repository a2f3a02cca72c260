//! A schema-flexible decoder and normalizer for the polymorphic value shapes
//! of ActivityPub-style documents: fields such as `url` or `to` may arrive as
//! a bare string, a single link record, an array of link records, or an array
//! of bare strings.  The library resolves any of these shapes into one
//! normalized representation and exposes uniform accessors over it.

pub mod actor;
pub mod codec;
pub mod context;
pub mod entity;
pub mod extended;
pub mod href;
pub mod object;
pub mod value;

pub use actor::CompoundActorReference;
pub use codec::{
    decode_actor_reference, decode_link, decode_object, decode_object_reference,
    decode_url_reference, encode_actor_reference, encode_link, encode_object,
    encode_object_reference, encode_url_reference, DecodeError,
};
pub use context::Context;
pub use entity::{Entity, EntityType};
pub use extended::ExtendedObject;
pub use href::Url;
pub use object::{Link, Object, ObjectReference, ObjectTrait, UrlReference};
pub use value::Value;
