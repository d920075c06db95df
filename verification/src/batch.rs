//! The order in which the tokens of a download are taken.

use crate::error::ResolveError;
use crate::u256::{lemma_value_bounded, lemma_value_determines_limbs, U256};
use vstd::prelude::*;
use vstd::string::*;

verus! {

/// The tokens that a download has still to take: a run of token numbers in
/// ascending order, one after the other, which ends for good at the first
/// failure.
#[derive(Debug, PartialEq, Eq)]
pub struct BatchIterator {
    next: U256,
    last: U256,
    live: bool,
}

/// The numbers from `first` up, `count` of them.
pub open spec fn run(first: nat, count: nat) -> Seq<nat> {
    Seq::new(count, |i: int| (first + i) as nat)
}

impl BatchIterator {
    /// The token numbers still to come, in the order in which they come.
    pub closed spec fn pending(self) -> Seq<nat> {
        if self.live && self.next@ <= self.last@ {
            run(self.next@, (self.last@ - self.next@ + 1) as nat)
        } else {
            Seq::empty()
        }
    }

    /// Every token of a collection of `total_supply` tokens: the numbers from
    /// zero to `total_supply - 1`.
    pub fn all(total_supply: U256) -> (batch: BatchIterator)
        ensures
            batch.pending() == run(0, total_supply@),
    {
        match total_supply.predecessor() {
            Some(last) => {
                let batch = BatchIterator { next: U256::zero(), last, live: true };
                assert(batch.pending() =~= run(0, total_supply@));
                batch
            },
            None => {
                let batch = BatchIterator { next: U256::zero(), last: U256::zero(), live: false };
                assert(batch.pending() =~= run(0, total_supply@));
                batch
            },
        }
    }

    /// The one token `token_id`.
    pub fn single(token_id: U256) -> (batch: BatchIterator)
        ensures
            batch.pending() == seq![token_id@],
    {
        let batch = BatchIterator { next: token_id, last: token_id, live: true };
        assert(batch.pending() =~= seq![token_id@]);
        batch
    }

    /// The tokens of a download: the one that was asked for, or, where none
    /// was, every token of the collection.
    pub fn for_download(token_id: Option<U256>, total_supply: U256) -> (batch: BatchIterator)
        ensures
            batch.pending() == match token_id {
                Some(id) => seq![id@],
                None => run(0, total_supply@),
            },
    {
        match token_id {
            Some(id) => BatchIterator::single(id),
            None => BatchIterator::all(total_supply),
        }
    }

    /// Whether no token is left.
    pub fn is_done(&self) -> (done: bool)
        ensures
            done == (self.pending().len() == 0),
    {
        !self.live || self.last.lt(&self.next)
    }

    /// Takes the next token, if one is left.
    pub fn next_token(&mut self) -> (token: Option<U256>)
        ensures
            match token {
                Some(id) => old(self).pending().len() > 0 && id@ == old(self).pending()[0]
                    && final(self).pending() == old(self).pending().drop_first(),
                None => old(self).pending().len() == 0 && final(self).pending() == old(
                    self,
                ).pending(),
            },
    {
        if !self.live || self.last.lt(&self.next) {
            return None;
        }
        let id = self.next;
        proof {
            lemma_value_determines_limbs(self.next, self.last);
            lemma_value_bounded(self.last);
        }
        if self.next == self.last {
            self.live = false;
            assert(old(self).pending().drop_first() =~= self.pending());
        } else {
            match self.next.successor() {
                Some(after) => {
                    self.next = after;
                },
                None => {
                    self.live = false;
                },
            }
            assert(old(self).pending().drop_first() =~= self.pending());
        }
        Some(id)
    }

    /// One step of a download: told what became of the token taken last,
    /// gives the token to take next. After a failure there is none, and none
    /// will come: the first failure ends the download. The first step of a
    /// download is told `Ok`.
    pub fn advance(&mut self, outcome: &Result<(), ResolveError>) -> (token: Option<U256>)
        ensures
            outcome is Err ==> token is None && final(self).pending() == Seq::<nat>::empty(),
            outcome is Ok ==> match token {
                Some(id) => old(self).pending().len() > 0 && id@ == old(self).pending()[0]
                    && final(self).pending() == old(self).pending().drop_first(),
                None => old(self).pending().len() == 0 && final(self).pending() == old(
                    self,
                ).pending(),
            },
    {
        match outcome {
            Err(_) => {
                self.abort();
                None
            },
            Ok(_) => self.next_token(),
        }
    }

    /// Ends the download: no token is taken after a failure.
    pub fn abort(&mut self)
        ensures
            final(self).pending() == Seq::<nat>::empty(),
    {
        self.live = false;
    }
}

/// The path of the image of token `token_id` below `directory`: the
/// directory, a slash, the token's number and `.png`.
pub open spec fn destination_of(directory: Seq<char>, token_id: Seq<char>) -> Seq<char> {
    directory + "/"@ + token_id + ".png"@
}

/// The path to which the image of the token numbered `token_id` is saved
/// below `directory`.
pub fn destination_path(directory: &str, token_id: &str) -> (path: String)
    ensures
        path@ == destination_of(directory@, token_id@),
{
    let mut path = String::from_str(directory);
    path.append("/");
    path.append(token_id);
    path.append(".png");
    path
}

/// The tokens of a whole collection come in ascending order, each once: the
/// `i`-th to come is token `i`.
pub proof fn lemma_whole_collection_in_order(total_supply: nat, i: int)
    requires
        0 <= i < total_supply,
    ensures
        run(0, total_supply).len() == total_supply,
        run(0, total_supply)[i] == i,
{
}

} // verus!
