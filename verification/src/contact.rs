//! A contact: a public key with an optional relay hint and alias.

use vstd::prelude::*;
use crate::engine::XOnlyPublicKey;

verus! {

/// What a contact holds, as plain values.
pub struct ContactView {
    /// The 32 bytes of the contact's x-only public key.
    pub public_key: Seq<u8>,
    /// Where the contact may be reached, if known.
    pub relay_url: Option<Seq<char>>,
    /// The name given to the contact, if any.
    pub alias: Option<Seq<char>>,
}

/// The plain value of an optional text.
pub open spec fn text_view(text: Option<String>) -> Option<Seq<char>> {
    match text {
        Some(t) => Some(t@),
        None => None,
    }
}

/// A contact. Nothing in it changes after it is made.
#[derive(Debug, Clone, PartialEq, Eq)]
pub struct Contact {
    pk: XOnlyPublicKey,
    relay_url: Option<String>,
    alias: Option<String>,
}

impl View for Contact {
    type V = ContactView;

    closed spec fn view(&self) -> ContactView {
        ContactView {
            public_key: self.pk@,
            relay_url: text_view(self.relay_url),
            alias: text_view(self.alias),
        }
    }
}

/// Copies an optional text.
fn copy_text(text: &Option<String>) -> (r: Option<String>)
    ensures
        r == *text,
{
    match text {
        Some(t) => Some(t.clone()),
        None => None,
    }
}

impl Contact {
    /// Makes a contact of a public key, a relay hint and an alias.
    pub fn new(pk: XOnlyPublicKey, relay_url: Option<String>, alias: Option<String>) -> (r: Contact)
        ensures
            r@ == (ContactView {
                public_key: pk@,
                relay_url: text_view(relay_url),
                alias: text_view(alias),
            }),
    {
        Contact { pk, relay_url, alias }
    }

    /// The contact's alias.
    pub fn alias(&self) -> (r: Option<String>)
        ensures
            text_view(r) == self@.alias,
    {
        copy_text(&self.alias)
    }

    /// The contact's public key.
    pub fn public_key(&self) -> (r: XOnlyPublicKey)
        ensures
            r@ == self@.public_key,
    {
        self.pk
    }

    /// The contact's relay hint.
    pub fn relay_url(&self) -> (r: Option<String>)
        ensures
            text_view(r) == self@.relay_url,
    {
        copy_text(&self.relay_url)
    }
}

} // verus!
