//! Newtype identifiers: client / machine identifiers, auth tokens and
//! numeric keys.

use vstd::prelude::*;

use crate::error::Error;
use crate::text::owned;

verus! {

/// `X-Plex-Client-Identifier` value; never empty.
#[derive(Debug, Clone, PartialEq, Eq)]
pub struct ClientIdentifier(String);

impl View for ClientIdentifier {
    type V = Seq<char>;

    closed spec fn view(&self) -> Seq<char> {
        self.0@
    }
}

impl ClientIdentifier {
    /// Wrap a client identifier; rejects the empty string.
    pub fn new(s: &str) -> (r: Result<Self, Error>)
        ensures
            r is Ok <==> s@.len() > 0,
            r matches Ok(c) ==> c@ == s@,
            r matches Err(e) ==> (e matches Error::Config(m) && m@ == "client identifier must not be empty"@),
    {
        if s.is_empty() {
            Err(Error::Config(owned("client identifier must not be empty")))
        } else {
            Ok(ClientIdentifier(owned(s)))
        }
    }

    /// The identifier text.
    pub fn as_str(&self) -> (r: &str)
        ensures
            r@ == self@,
    {
        self.0.as_str()
    }
}

/// A server or player `machineIdentifier`; never empty.
#[derive(Debug, Clone, PartialEq, Eq)]
pub struct MachineIdentifier(String);

impl View for MachineIdentifier {
    type V = Seq<char>;

    closed spec fn view(&self) -> Seq<char> {
        self.0@
    }
}

impl MachineIdentifier {
    /// Wrap a machine identifier; rejects the empty string.
    pub fn new(s: &str) -> (r: Result<Self, Error>)
        ensures
            r is Ok <==> s@.len() > 0,
            r matches Ok(c) ==> c@ == s@,
            r matches Err(e) ==> (e matches Error::Config(m) && m@ == "machine identifier must not be empty"@),
    {
        if s.is_empty() {
            Err(Error::Config(owned("machine identifier must not be empty")))
        } else {
            Ok(MachineIdentifier(owned(s)))
        }
    }

    /// The identifier text.
    pub fn as_str(&self) -> (r: &str)
        ensures
            r@ == self@,
    {
        self.0.as_str()
    }
}

/// An `X-Plex-Token`; never empty. Deliberately not `Debug`, so it
/// cannot end up in logs by accident.
#[derive(Clone, PartialEq, Eq)]
pub struct PlexToken(String);

impl View for PlexToken {
    type V = Seq<char>;

    closed spec fn view(&self) -> Seq<char> {
        self.0@
    }
}

impl PlexToken {
    /// Wrap a token; rejects the empty string.
    pub fn new(s: &str) -> (r: Result<Self, Error>)
        ensures
            r is Ok <==> s@.len() > 0,
            r matches Ok(c) ==> c@ == s@,
            r matches Err(e) ==> (e matches Error::Config(m) && m@ == "token must not be empty"@),
    {
        if s.is_empty() {
            Err(Error::Config(owned("token must not be empty")))
        } else {
            Ok(PlexToken(owned(s)))
        }
    }

    /// The raw token text, for building headers and URLs.
    pub fn expose(&self) -> (r: &str)
        ensures
            r@ == self@,
    {
        self.0.as_str()
    }

    /// A copy of this token.
    pub fn duplicate(&self) -> (r: PlexToken)
        ensures
            r@ == self@,
    {
        PlexToken(owned(self.0.as_str()))
    }
}

/// Numeric Plex `ratingKey`.
#[derive(Debug, Clone, Copy, PartialEq, Eq, Hash)]
pub struct RatingKey(pub u64);

impl RatingKey {
    /// The numeric value.
    pub fn get(&self) -> (r: u64)
        ensures
            r == self.0,
    {
        self.0
    }
}

/// Numeric play-queue identifier.
#[derive(Debug, Clone, Copy, PartialEq, Eq, Hash)]
pub struct PlayQueueId(pub u64);

impl PlayQueueId {
    /// The numeric value.
    pub fn get(&self) -> (r: u64)
        ensures
            r == self.0,
    {
        self.0
    }
}

} // verus!
