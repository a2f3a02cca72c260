//! The polymorphic reference model: link records, normalized URL references,
//! the object entity built on them, and the two ways to reference an object.

use vstd::prelude::*;

use crate::actor::{matches_in, CompoundActorReference};
use crate::context::Context;
use crate::entity::{Entity, EntityModel, EntityType};
use crate::href::{no_parse, url_text, Url};

verus! {

/// One ActivityPub link record: an embedded entity envelope plus the URL it
/// points at.
#[derive(Clone, Debug)]
pub struct Link {
    /// Embedded entity properties.
    pub entity: Entity,
    /// The URL itself.
    pub href: Url,
}

/// The mathematical content of a `Link`.
#[verifier::ext_equal]
pub struct LinkModel {
    pub entity: EntityModel,
    pub href: Seq<char>,
}

impl View for Link {
    type V = LinkModel;

    open spec fn view(&self) -> LinkModel {
        LinkModel { entity: self.entity@, href: self.href@ }
    }
}

impl LinkModel {
    /// Well-formedness: the href is a validated absolute URL.
    pub open spec fn wf(&self) -> bool {
        url_text(self.href)
    }
}

/// All the wire shapes of a "one or many URLs or links" property, resolved
/// into one queryable value.  Exactly one variant is active.
#[derive(Clone, Debug)]
pub enum UrlReference {
    /// The property was a bare string holding a URL.
    Url(Url),
    /// The property held a single link record.
    Link(Link),
    /// The property held an array of link records, in wire order.
    LinkList(Vec<Link>),
    /// The property held an array of bare URLs, in wire order.
    UrlList(Vec<Url>),
    /// The property was a string that is not a valid URL (for example `""`),
    /// preserved losslessly instead of failing the whole decode.
    Invalid(String),
}

/// The mathematical content of a `UrlReference`.
#[verifier::ext_equal]
pub enum UrlRefModel {
    Url(Seq<char>),
    Link(LinkModel),
    LinkList(Seq<LinkModel>),
    UrlList(Seq<Seq<char>>),
    Invalid(Seq<char>),
}

impl View for UrlReference {
    type V = UrlRefModel;

    open spec fn view(&self) -> UrlRefModel {
        match self {
            UrlReference::Url(u) => UrlRefModel::Url(u@),
            UrlReference::Link(l) => UrlRefModel::Link(l@),
            UrlReference::LinkList(ls) => UrlRefModel::LinkList(
                Seq::new(ls@.len(), |i: int| ls@[i]@),
            ),
            UrlReference::UrlList(us) => UrlRefModel::UrlList(
                Seq::new(us@.len(), |i: int| us@[i]@),
            ),
            UrlReference::Invalid(s) => UrlRefModel::Invalid(s@),
        }
    }
}

impl UrlRefModel {
    /// Well-formedness: every held URL is validated, and the invalid variant
    /// never holds a parseable URL.
    pub open spec fn wf(&self) -> bool {
        match self {
            UrlRefModel::Url(t) => url_text(*t),
            UrlRefModel::Link(l) => l.wf(),
            UrlRefModel::LinkList(ls) => forall|i: int| 0 <= i < ls.len() ==> ls[i].wf(),
            UrlRefModel::UrlList(us) => forall|i: int| 0 <= i < us.len() ==> url_text(us[i]),
            UrlRefModel::Invalid(s) => no_parse(*s),
        }
    }

    /// The URLs this reference holds, in wire order: one for the scalar
    /// variants, the hrefs for link lists, none for the invalid variant.
    pub open spec fn urls(&self) -> Seq<Seq<char>> {
        match self {
            UrlRefModel::Url(t) => seq![*t],
            UrlRefModel::Link(l) => seq![l.href],
            UrlRefModel::LinkList(ls) => Seq::new(ls.len(), |i: int| ls[i].href),
            UrlRefModel::UrlList(us) => *us,
            UrlRefModel::Invalid(_) => Seq::empty(),
        }
    }
}

impl UrlReference {
    /// Flattens any variant into the URLs it holds, in wire order; empty
    /// exactly for the invalid variant and for empty lists.
    pub fn as_vec(&self) -> (r: Vec<&Url>)
        ensures
            r@.len() == self@.urls().len(),
            forall|i: int| 0 <= i < r@.len() ==> r@[i]@ == self@.urls()[i],
    {
        match self {
            UrlReference::Url(url) => {
                let mut v: Vec<&Url> = Vec::new();
                v.push(url);
                v
            },
            UrlReference::Link(link) => {
                let mut v: Vec<&Url> = Vec::new();
                v.push(&link.href);
                v
            },
            UrlReference::LinkList(links) => {
                let n = links.len();
                let mut v: Vec<&Url> = Vec::new();
                let mut i: usize = 0;
                while i < n
                    invariant
                        n == links@.len(),
                        0 <= i <= n,
                        v@.len() == i,
                        forall|j: int| 0 <= j < i ==> v@[j]@ == links@[j]@.href,
                    decreases n - i,
                {
                    v.push(&links[i].href);
                    i += 1;
                }
                v
            },
            UrlReference::UrlList(urls) => {
                let n = urls.len();
                let mut v: Vec<&Url> = Vec::new();
                let mut i: usize = 0;
                while i < n
                    invariant
                        n == urls@.len(),
                        0 <= i <= n,
                        v@.len() == i,
                        forall|j: int| 0 <= j < i ==> v@[j]@ == urls@[j]@,
                    decreases n - i,
                {
                    v.push(&urls[i]);
                    i += 1;
                }
                v
            },
            UrlReference::Invalid(_) => Vec::new(),
        }
    }

    /// Returns any URL within this reference: the first one in wire order,
    /// though callers must not rely on any prioritization among several.
    pub fn any_url(&self) -> (r: Option<&Url>)
        ensures
            match r {
                Some(u) => self@.urls().len() > 0 && u@ == self@.urls()[0],
                None => self@.urls().len() == 0,
            },
    {
        let v = self.as_vec();
        if v.len() == 0 {
            None
        } else {
            Some(v[0])
        }
    }
}

/// The canonical entity record most Fediverse data is represented as.
#[derive(Clone, Debug)]
pub struct Object {
    /// Embedded entity properties.
    pub entity: Entity,
    /// Unique object identifier; the object's identity for all equality and
    /// lookup purposes.
    pub id: Url,
    /// Name of the object, if any.
    pub name: Option<String>,
    /// The object's URL property, already shape-resolved, if present.
    pub url: Option<UrlReference>,
    /// To whom it is sent, in most cases the special public collection URL.
    pub to: Option<CompoundActorReference>,
}

/// The mathematical content of an `Object`.
#[verifier::ext_equal]
pub struct ObjectModel {
    pub entity: EntityModel,
    pub id: Seq<char>,
    pub name: Option<Seq<char>>,
    pub url: Option<UrlRefModel>,
    pub to: Option<Seq<Seq<char>>>,
}

impl View for Object {
    type V = ObjectModel;

    open spec fn view(&self) -> ObjectModel {
        ObjectModel {
            entity: self.entity@,
            id: self.id@,
            name: match self.name {
                Some(n) => Some(n@),
                None => None,
            },
            url: match self.url {
                Some(u) => Some(u@),
                None => None,
            },
            to: match self.to {
                Some(t) => Some(t@),
                None => None,
            },
        }
    }
}

impl ObjectModel {
    /// Well-formedness: the id and every URL held by the url property are
    /// validated absolute URLs.
    pub open spec fn wf(&self) -> bool {
        url_text(self.id) && match self.url {
            Some(u) => u.wf(),
            None => true,
        }
    }

    /// The first URL of the url property, if any.
    pub open spec fn object_url(&self) -> Option<Seq<char>> {
        match self.url {
            Some(u) => if u.urls().len() > 0 {
                Some(u.urls()[0])
            } else {
                None
            },
            None => None,
        }
    }

    /// Whether the primary addressees are present and include `pattern`.
    /// Secondary recipients are not consulted.
    pub open spec fn matches(&self, pattern: Seq<char>) -> bool {
        match self.to {
            Some(targets) => matches_in(targets, pattern),
            None => false,
        }
    }
}

impl Object {
    /// Creates a basic object of `entity_type` with the given `id`.  Other
    /// properties are not set.
    pub fn new_with_entity_type(entity_type: EntityType, id: Url) -> (r: Object)
        ensures
            r@ == (ObjectModel {
                entity: EntityModel { object_type: entity_type, context: None },
                id: id@,
                name: None,
                url: None,
                to: None,
            }),
    {
        Object { entity: Entity::new(entity_type), id, name: None, url: None, to: None }
    }

    /// Creates a basic object with the given `entity` and `id`.  Other
    /// properties are not set.
    pub fn new_with_entity(entity: Entity, id: Url) -> (r: Object)
        ensures
            r@ == (ObjectModel {
                entity: entity@,
                id: id@,
                name: None,
                url: None,
                to: None,
            }),
    {
        Object { entity, id, name: None, url: None, to: None }
    }

    /// Returns any URL specified in the `url` field of this object.
    pub fn object_url(&self) -> (r: Option<&Url>)
        ensures
            match r {
                Some(u) => self@.object_url() == Some(u@),
                None => self@.object_url() is None,
            },
    {
        match &self.url {
            Some(reference) => reference.any_url(),
            None => None,
        }
    }

    /// Returns true if the object's addressees match `pattern`, and false
    /// whenever the `to` property is absent.  Secondary recipients (`cc`)
    /// are not consulted: addressee matching covers primary recipients only.
    pub fn matches(&self, pattern: &str) -> (r: bool)
        ensures
            r == self@.matches(pattern@),
    {
        match &self.to {
            Some(reference) => reference.matches(pattern),
            None => false,
        }
    }
}

/// Commonly used ActivityPub properties, exposed uniformly by any
/// object-like value.
pub trait ObjectTrait {
    /// The identifier, in specification form.
    spec fn id_spec(&self) -> Seq<char>;

    /// The protocol context, in specification form.
    spec fn context_spec(&self) -> Option<Seq<char>>;

    /// The type tag, in specification form.
    spec fn entity_type_spec(&self) -> EntityType;

    /// Returns the protocol context, if any.
    fn context(&self) -> (r: Option<&Context>)
        ensures
            match r {
                Some(c) => self.context_spec() == Some(c@),
                None => self.context_spec() is None,
            },
    ;

    /// Returns the unique object ID.
    fn object_id(&self) -> (r: &Url)
        ensures
            r@ == self.id_spec(),
    ;

    /// Returns the unique object ID as a string slice.
    fn object_id_str(&self) -> (r: &str)
        ensures
            r@ == self.id_spec(),
    {
        self.object_id().as_str()
    }

    /// Returns the type of this object.
    fn entity_type(&self) -> (r: EntityType)
        ensures
            r == self.entity_type_spec(),
    ;
}

impl ObjectTrait for Object {
    open spec fn id_spec(&self) -> Seq<char> {
        self@.id
    }

    open spec fn context_spec(&self) -> Option<Seq<char>> {
        self@.entity.context
    }

    open spec fn entity_type_spec(&self) -> EntityType {
        self@.entity.object_type
    }

    fn context(&self) -> (r: Option<&Context>) {
        match &self.entity.context {
            Some(c) => Some(c),
            None => None,
        }
    }

    fn object_id(&self) -> (r: &Url) {
        &self.id
    }

    fn entity_type(&self) -> (r: EntityType) {
        self.entity.object_type
    }
}

/// The two ways a field may reference an object: embedded inline, or by its
/// URL identifier alone.
#[derive(Clone, Debug)]
pub enum ObjectReference {
    /// Embedded object.
    Object(Box<Object>),
    /// Object referenced by URL.
    Url(Url),
}

/// The mathematical content of an `ObjectReference`.
#[verifier::ext_equal]
pub enum ObjRefModel {
    Object(ObjectModel),
    Url(Seq<char>),
}

impl View for ObjectReference {
    type V = ObjRefModel;

    open spec fn view(&self) -> ObjRefModel {
        match self {
            ObjectReference::Object(obj) => ObjRefModel::Object(obj@),
            ObjectReference::Url(url) => ObjRefModel::Url(url@),
        }
    }
}

impl ObjRefModel {
    /// Well-formedness: the embedded object, or the bare URL, is validated.
    pub open spec fn wf(&self) -> bool {
        match self {
            ObjRefModel::Object(o) => o.wf(),
            ObjRefModel::Url(t) => url_text(*t),
        }
    }

    /// The identity of whatever is referenced: the embedded object's id, or
    /// the bare URL.  Total over both variants.
    pub open spec fn object_id(&self) -> Seq<char> {
        match self {
            ObjRefModel::Object(o) => o.id,
            ObjRefModel::Url(t) => *t,
        }
    }
}

impl ObjectReference {
    /// Returns the object id uniformly, regardless of the underlying
    /// variant: callers never branch on the representation.
    pub fn object_id(&self) -> (r: &Url)
        ensures
            r@ == self@.object_id(),
    {
        match self {
            ObjectReference::Object(obj) => &obj.id,
            ObjectReference::Url(url) => url,
        }
    }
}

} // verus!
