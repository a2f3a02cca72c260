//! The generic entity envelope shared by links and objects: a type tag plus
//! an optional protocol context.

use vstd::prelude::*;

use crate::context::Context;
use crate::value::str_eq;

verus! {

/// The known entity type tags.
#[derive(Clone, Copy, Debug, PartialEq, Eq, Structural)]
pub enum EntityType {
    Object,
    Link,
    Activity,
    Note,
    Article,
    Person,
}

/// The wire tag of an entity type.
pub open spec fn type_tag(t: EntityType) -> Seq<char> {
    match t {
        EntityType::Object => "Object"@,
        EntityType::Link => "Link"@,
        EntityType::Activity => "Activity"@,
        EntityType::Note => "Note"@,
        EntityType::Article => "Article"@,
        EntityType::Person => "Person"@,
    }
}

/// The entity type a wire tag names, if any.
pub open spec fn tag_type(s: Seq<char>) -> Option<EntityType> {
    if s == "Object"@ {
        Some(EntityType::Object)
    } else if s == "Link"@ {
        Some(EntityType::Link)
    } else if s == "Activity"@ {
        Some(EntityType::Activity)
    } else if s == "Note"@ {
        Some(EntityType::Note)
    } else if s == "Article"@ {
        Some(EntityType::Article)
    } else if s == "Person"@ {
        Some(EntityType::Person)
    } else {
        None
    }
}

impl EntityType {
    /// The wire tag for this type.
    pub fn tag(&self) -> (r: &'static str)
        ensures
            r@ == type_tag(*self),
    {
        match self {
            EntityType::Object => "Object",
            EntityType::Link => "Link",
            EntityType::Activity => "Activity",
            EntityType::Note => "Note",
            EntityType::Article => "Article",
            EntityType::Person => "Person",
        }
    }

    /// Resolves a wire tag to the entity type it names.
    pub fn from_tag(s: &str) -> (r: Option<EntityType>)
        ensures
            r == tag_type(s@),
    {
        if str_eq(s, "Object") {
            Some(EntityType::Object)
        } else if str_eq(s, "Link") {
            Some(EntityType::Link)
        } else if str_eq(s, "Activity") {
            Some(EntityType::Activity)
        } else if str_eq(s, "Note") {
            Some(EntityType::Note)
        } else if str_eq(s, "Article") {
            Some(EntityType::Article)
        } else if str_eq(s, "Person") {
            Some(EntityType::Person)
        } else {
            None
        }
    }
}

/// Naming a type and then resolving that name yields the type again.
pub proof fn lemma_type_tag_round_trip(t: EntityType)
    ensures
        tag_type(type_tag(t)) == Some(t),
{
    reveal_strlit("Object");
    reveal_strlit("Link");
    reveal_strlit("Activity");
    reveal_strlit("Note");
    reveal_strlit("Article");
    reveal_strlit("Person");
    assert("Link"@[0] != "Note"@[0]);
    assert("Object"@[0] != "Person"@[0]);
    assert("Article"@[1] != "Activity"@[1]);
    match t {
        EntityType::Object => assert(tag_type(type_tag(t)) == Some(EntityType::Object)),
        EntityType::Link => assert(tag_type(type_tag(t)) == Some(EntityType::Link)),
        EntityType::Activity => assert(tag_type(type_tag(t)) == Some(EntityType::Activity)),
        EntityType::Note => assert(tag_type(type_tag(t)) == Some(EntityType::Note)),
        EntityType::Article => assert(tag_type(type_tag(t)) == Some(EntityType::Article)),
        EntityType::Person => assert(tag_type(type_tag(t)) == Some(EntityType::Person)),
    }
}

/// The mathematical content of an entity envelope.
#[verifier::ext_equal]
pub struct EntityModel {
    pub object_type: EntityType,
    pub context: Option<Seq<char>>,
}

/// The generic entity envelope.
#[derive(Clone, Debug)]
pub struct Entity {
    /// The entity's type tag.
    pub object_type: EntityType,
    /// The protocol context, if any.
    pub context: Option<Context>,
}

impl View for Entity {
    type V = EntityModel;

    open spec fn view(&self) -> EntityModel {
        EntityModel {
            object_type: self.object_type,
            context: match self.context {
                Some(c) => Some(c@),
                None => None,
            },
        }
    }
}

impl Entity {
    /// Creates an envelope of the given type with no context.
    pub fn new(object_type: EntityType) -> (r: Entity)
        ensures
            r@ == (EntityModel { object_type, context: None }),
    {
        Entity { object_type, context: None }
    }
}

} // verus!
