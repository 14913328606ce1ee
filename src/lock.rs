//! Thread confinement of interface access.
//!
//! A `VJoyLock` is a zero-sized token: holding one proves that interface access from the current
//! thread is permitted. Tokens are neither `Send` nor `Sync`, so every token of one lineage lives
//! on the thread that minted the first of them. A `LockGate` keeps the plain count of live tokens
//! of that thread's lineage: a fresh token is minted only while the count is zero, every other
//! token is a share of a live one, and the lineage ends when its last token is closed.
use std::marker::PhantomData;
use std::rc::Rc;
use vstd::prelude::*;

verus! {

/// Permission to touch the interface from the current thread.
///
/// The `Rc` marker keeps the token from crossing a thread boundary.
#[derive(Debug)]
pub struct VJoyLock {
    confined: PhantomData<Rc<()>>,
}

/// Live count of a token lineage after an open: a token is minted only from a closed gate.
pub open spec fn after_open(live: nat) -> (bool, nat) {
    if live == 0 {
        (true, 1)
    } else {
        (false, live)
    }
}

/// Live count after `k` shares of a live token.
pub open spec fn after_shares(live: nat, k: nat) -> nat
    decreases k,
{
    if k == 0 {
        live
    } else {
        after_shares(live, (k - 1) as nat) + 1
    }
}

/// Live count after `k` tokens are closed.
pub open spec fn after_closes(live: nat, k: nat) -> nat
    decreases k,
{
    if k == 0 {
        live
    } else {
        (after_closes(live, (k - 1) as nat) - 1) as nat
    }
}

/// The admission state of one thread: how many tokens of its lineage are live.
#[derive(Debug)]
pub struct LockGate {
    refs: usize,
}

impl LockGate {
    /// Number of live tokens in the lineage.
    pub closed spec fn live(&self) -> nat {
        self.refs as nat
    }

    /// A lineage is live.
    pub open spec fn is_open(&self) -> bool {
        self.live() > 0
    }

    /// A closed gate, with no live token.
    pub fn new() -> (g: LockGate)
        ensures
            g.live() == 0,
    {
        LockGate { refs: 0 }
    }

    /// Number of live tokens.
    pub fn live_count(&self) -> (r: usize)
        ensures
            r as nat == self.live(),
    {
        self.refs
    }

    /// Mints the first token of a new lineage; refused while a lineage is live.
    pub fn open(&mut self) -> (r: Option<VJoyLock>)
        ensures
            r is Some == after_open(old(self).live()).0,
            final(self).live() == after_open(old(self).live()).1,
    {
        if self.refs == 0 {
            self.refs = 1;
            Some(VJoyLock { confined: PhantomData })
        } else {
            None
        }
    }

    /// Produces one more token of the live lineage.
    pub fn share(&mut self, lock: &VJoyLock) -> (r: VJoyLock)
        requires
            old(self).is_open(),
            old(self).live() < usize::MAX,
        ensures
            final(self).live() == after_shares(old(self).live(), 1),
            final(self).live() == old(self).live() + 1,
    {
        proof {
            reveal_with_fuel(after_shares, 2);
        }
        self.refs = self.refs + 1;
        VJoyLock { confined: PhantomData }
    }

    /// Gives one token back; returns whether it was the lineage's last.
    pub fn close(&mut self, lock: VJoyLock) -> (r: bool)
        requires
            old(self).is_open(),
        ensures
            final(self).live() == after_closes(old(self).live(), 1),
            final(self).live() == old(self).live() - 1,
            r == (final(self).live() == 0),
    {
        proof {
            reveal_with_fuel(after_closes, 2);
        }
        self.refs = self.refs - 1;
        self.refs == 0
    }
}

/// While any token of a lineage is live a second open is refused; once the lineage's last token
/// has been closed, an open mints a new lineage again.
pub proof fn lemma_single_lineage(shares: nat, closes: nat)
    requires
        closes <= shares + 1,
    ensures
        ({
            let live = after_closes(after_shares(after_open(0).1, shares), closes);
            &&& live == shares + 1 - closes
            &&& (closes <= shares ==> !after_open(live).0)
            &&& (closes == shares + 1 ==> after_open(live).0 && after_open(live).1 == 1)
        }),
{
    lemma_shares(after_open(0).1, shares);
    lemma_closes(after_shares(after_open(0).1, shares), closes);
}

proof fn lemma_shares(live: nat, k: nat)
    ensures
        after_shares(live, k) == live + k,
    decreases k,
{
    if k > 0 {
        lemma_shares(live, (k - 1) as nat);
    }
}

proof fn lemma_closes(live: nat, k: nat)
    requires
        k <= live,
    ensures
        after_closes(live, k) == live - k,
    decreases k,
{
    if k > 0 {
        lemma_closes(live, (k - 1) as nat);
    }
}

} // verus!
