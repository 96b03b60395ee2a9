//! Namespaced names of registry entries, dimensions, blocks and sounds.

use vstd::prelude::*;
use vstd::string::StringExecFns;

verus! {

/// A name such as `minecraft:lodestone`.
#[derive(Debug)]
pub struct Identifier {
    pub namespace: String,
    pub path: String,
}

/// The two parts of an [`Identifier`].
#[verifier::ext_equal]
pub struct IdentifierView {
    pub namespace: Seq<char>,
    pub path: Seq<char>,
}

impl IdentifierView {
    /// The written form: the namespace, a colon and the path.
    pub open spec fn text(self) -> Seq<char> {
        self.namespace + ":"@ + self.path
    }
}

impl View for Identifier {
    type V = IdentifierView;

    open spec fn view(&self) -> IdentifierView {
        IdentifierView { namespace: self.namespace@, path: self.path@ }
    }
}

/// The identifier `minecraft:` with the given path.
pub open spec fn vanilla(path: Seq<char>) -> IdentifierView {
    IdentifierView { namespace: "minecraft"@, path }
}

impl Identifier {
    /// An identifier from its two parts.
    pub fn new_static(namespace: &str, path: &str) -> (result: Identifier)
        ensures
            result@ == (IdentifierView { namespace: namespace@, path: path@ }),
    {
        Identifier { namespace: namespace.to_owned(), path: path.to_owned() }
    }

    /// An identifier in the `minecraft` namespace.
    pub fn vanilla_static(path: &str) -> (result: Identifier)
        ensures
            result@ == vanilla(path@),
    {
        Identifier::new_static("minecraft", path)
    }

    /// The identifier as it is written.
    pub fn to_string(&self) -> (result: String)
        ensures
            result@ == self@.text(),
    {
        let mut text = self.namespace.clone();
        text.append(":");
        text.append(self.path.as_str());
        text
    }

    /// Whether the two name the same thing.
    pub fn same_as(&self, other: &Identifier) -> (result: bool)
        ensures
            result == (self@ == other@),
            result == (self.namespace@ == other.namespace@ && self.path@ == other.path@),
    {
        self.namespace == other.namespace && self.path == other.path
    }

    /// Another copy of the identifier.
    pub fn copied(&self) -> (result: Identifier)
        ensures
            result@ == self@,
    {
        Identifier { namespace: self.namespace.clone(), path: self.path.clone() }
    }
}

} // verus!
