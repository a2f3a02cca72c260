//! The extended-properties profile of the object entity.  Where a
//! build-time switch would add `cc`, `preview` and `summary` fields to the
//! object itself, this library models the profile as a second record type
//! embedding the base object, since the field set cannot vary at build time
//! here.

use vstd::prelude::*;

use crate::actor::CompoundActorReference;
use crate::entity::Entity;
use crate::href::Url;
use crate::object::Object;

verus! {

/// An object together with the extended properties: secondary recipients,
/// preview details and a summary.
pub struct ExtendedObject {
    /// The base object entity.
    pub object: Object,
    /// Recipients to receive a copy of the content.
    pub cc: Option<CompoundActorReference>,
    /// Preview details.
    pub preview: Option<Entity>,
    /// Object summary, a short description.
    pub summary: Option<String>,
}

impl ExtendedObject {
    /// Wraps a base object with all extended properties unset.
    pub fn from_object(object: Object) -> (r: ExtendedObject)
        ensures
            r.object@ == object@,
            r.cc is None,
            r.preview is None,
            r.summary is None,
    {
        ExtendedObject { object, cc: None, preview: None, summary: None }
    }

    /// Returns any URL specified in the `url` field of the base object.
    pub fn object_url(&self) -> (r: Option<&Url>)
        ensures
            match r {
                Some(u) => self.object@.object_url() == Some(u@),
                None => self.object@.object_url() is None,
            },
    {
        self.object.object_url()
    }

    /// Returns true if the base object's addressees match `pattern`.  The
    /// result depends on the `to` property alone: secondary recipients
    /// (`cc`) are not consulted, exactly as on the base object.
    pub fn matches(&self, pattern: &str) -> (r: bool)
        ensures
            r == self.object@.matches(pattern@),
    {
        self.object.matches(pattern)
    }
}

} // verus!
