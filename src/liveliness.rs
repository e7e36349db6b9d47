//! Liveliness tokens: a token moves from undeclared to declared to
//! released; declaring it announces the key as alive and releasing it
//! announces that the key left. Subscribers see those announcements as
//! join and leave events.

use vstd::prelude::*;
use crate::query::{QueryReply, ReplySample};

verus! {

/// Where a token is in its life.
#[derive(Clone, Copy, Debug, PartialEq, Eq, Structural)]
pub enum TokenState {
    Undeclared,
    Declared,
    Released,
}

/// The kind of a sample on the liveliness key space.
#[derive(Clone, Copy, Debug, PartialEq, Eq, Structural)]
pub enum SampleKind {
    Put,
    Delete,
}

/// What a subscriber learns of a token's key.
#[derive(Clone, Copy, Debug, PartialEq, Eq, Structural)]
pub enum Presence {
    Joined,
    Left,
}

/// The sample that the bus announces when a token moves from `from` to
/// `to`, for the two moves that exist.
pub open spec fn announcement(from: TokenState, to: TokenState) -> Option<SampleKind> {
    match (from, to) {
        (TokenState::Undeclared, TokenState::Declared) => Some(SampleKind::Put),
        (TokenState::Declared, TokenState::Released) => Some(SampleKind::Delete),
        _ => None,
    }
}

/// What a sample of the given kind tells a subscriber.
pub open spec fn presence_for(kind: SampleKind) -> Presence {
    match kind {
        SampleKind::Put => Presence::Joined,
        SampleKind::Delete => Presence::Left,
    }
}

/// A token bound to a key, held by its one owner.
#[derive(Debug)]
pub struct LivelinessManager {
    key: String,
    state: TokenState,
}

impl LivelinessManager {
    pub closed spec fn spec_key(&self) -> Seq<char> {
        self.key@
    }

    pub closed spec fn spec_state(&self) -> TokenState {
        self.state
    }

    /// A token for `key` that is not declared yet.
    pub fn new(key: String) -> (r: LivelinessManager)
        ensures
            r.spec_key() == key@,
            r.spec_state() == TokenState::Undeclared,
    {
        LivelinessManager { key, state: TokenState::Undeclared }
    }

    pub fn key(&self) -> (r: &String)
        ensures
            r@ == self.spec_key(),
    {
        &self.key
    }

    pub fn state(&self) -> (r: TokenState)
        ensures
            r == self.spec_state(),
    {
        self.state
    }

    /// Declares the token; returns the sample that announces it.
    pub fn declare(&mut self) -> (r: SampleKind)
        requires
            old(self).spec_state() == TokenState::Undeclared,
        ensures
            final(self).spec_state() == TokenState::Declared,
            final(self).spec_key() == old(self).spec_key(),
            announcement(old(self).spec_state(), final(self).spec_state()) == Some(r),
    {
        self.state = TokenState::Declared;
        SampleKind::Put
    }

    /// Releases the token, the only way to revoke its claim; returns the
    /// sample that announces the release.
    pub fn release(&mut self) -> (r: SampleKind)
        requires
            old(self).spec_state() == TokenState::Declared,
        ensures
            final(self).spec_state() == TokenState::Released,
            final(self).spec_key() == old(self).spec_key(),
            announcement(old(self).spec_state(), final(self).spec_state()) == Some(r),
    {
        self.state = TokenState::Released;
        SampleKind::Delete
    }
}

/// A join or leave event for a key, as a subscriber reports it.
#[derive(Debug)]
pub struct LivelinessEvent {
    pub key: String,
    pub presence: Presence,
}

/// The event that a sample of `kind` on `key` stands for.
pub fn liveliness_event(key: String, kind: SampleKind) -> (r: LivelinessEvent)
    ensures
        r.key@ == key@,
        r.presence == presence_for(kind),
{
    let presence = match kind {
        SampleKind::Put => Presence::Joined,
        SampleKind::Delete => Presence::Left,
    };
    LivelinessEvent { key, presence }
}

/// A token declared and then released on one key is seen by a subscriber
/// as joined and then as left, in that order.
pub proof fn lemma_declare_release_round_trip()
    ensures
        announcement(TokenState::Undeclared, TokenState::Declared) matches Some(first)
            && presence_for(first) == Presence::Joined,
        announcement(TokenState::Declared, TokenState::Released) matches Some(second)
            && presence_for(second) == Presence::Left,
{
}

/// The key of a live token that a liveliness query reported, or the
/// error description of a failed reply.
pub fn live_token_key(reply: QueryReply) -> (r: Result<String, String>)
    ensures
        reply.result matches Ok(s) ==> (r matches Ok(k) && k@ == s.key@),
        reply.result matches Err(e) ==> (r matches Err(m) && m@ == e@),
{
    match reply.result {
        Ok(ReplySample { key, .. }) => Ok(key),
        Err(e) => Err(e),
    }
}

} // verus!
