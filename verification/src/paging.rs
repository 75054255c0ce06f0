//! The continuation-token pagination driver: starting from an empty token,
//! absorb one chunk after another, appending items in order, until a chunk
//! arrives with an empty next token.

use vstd::prelude::*;

verus! {

/// The state of one chunked read: the items gathered so far, the token the
/// next chunk must be requested with, and whether the last chunk has arrived.
pub struct Pagination<T> {
    items: Vec<T>,
    token: String,
    done: bool,
}

impl<T> Pagination<T> {
    /// The items gathered so far, in arrival order.
    pub closed spec fn items_seq(self) -> Seq<T> {
        self.items@
    }

    /// The continuation token for the next chunk request.
    pub closed spec fn token_view(self) -> Seq<char> {
        self.token@
    }

    /// Whether the last chunk has arrived.
    pub closed spec fn is_done(self) -> bool {
        self.done
    }

    /// A fresh run: no items, the empty starting token, not done.
    pub fn new() -> (r: Self)
        ensures
            r.items_seq() == Seq::<T>::empty(),
            r.token_view() == Seq::<char>::empty(),
            !r.is_done(),
    {
        let r = Pagination { items: Vec::new(), token: String::new(), done: false };
        proof {
            assert(r.items_seq() =~= Seq::<T>::empty());
        }
        r
    }

    /// The token to request the next chunk with.
    pub fn next_token(&self) -> (r: &String)
        ensures
            r@ == self.token_view(),
    {
        &self.token
    }

    /// Whether the run is over.
    pub fn is_finished(&self) -> (r: bool)
        ensures
            r == self.is_done(),
    {
        self.done
    }

    /// Absorbs one fetched chunk: appends its items in order, keeps the
    /// returned token for the next request, and ends the run exactly when
    /// that token is empty.
    pub fn absorb_chunk(&mut self, mut chunk: Vec<T>, next_token: String)
        requires
            !old(self).is_done(),
        ensures
            final(self).items_seq() == old(self).items_seq() + chunk@,
            final(self).token_view() == next_token@,
            final(self).is_done() <==> next_token@.len() == 0,
    {
        self.items.append(&mut chunk);
        self.done = next_token.as_str().is_empty();
        self.token = next_token;
    }

    /// Hands out everything gathered once the run is over.
    pub fn into_items(self) -> (r: Vec<T>)
        ensures
            r@ == self.items_seq(),
    {
        self.items
    }
}

} // verus!
