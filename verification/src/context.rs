//! The protocol context an entity may carry (a JSON-LD `@context` IRI),
//! consumed by this library only as an opaque identifier.

use vstd::prelude::*;

verus! {

/// A protocol context, held as its IRI text.
#[derive(Clone, Debug)]
pub struct Context {
    iri: String,
}

impl View for Context {
    type V = Seq<char>;

    closed spec fn view(&self) -> Seq<char> {
        self.iri@
    }
}

impl Context {
    /// Wraps the given IRI text.
    pub fn new(iri: String) -> (r: Context)
        ensures
            r@ == iri@,
    {
        Context { iri }
    }

    /// The context's IRI text.
    pub fn as_str(&self) -> (r: &str)
        ensures
            r@ == self@,
    {
        self.iri.as_str()
    }
}

} // verus!
