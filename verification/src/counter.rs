//! Identifiers handed out one by one, for resources that need a name of
//! their own in each script.

use vstd::prelude::*;

verus! {

/// The identifier that a counter standing at `start` hands out after
/// `taken` others: counting goes round after 65535.
pub open spec fn id_after(start: u16, taken: nat) -> u16 {
    ((start + taken) % 0x10000) as u16
}

/// A counter of 16 bits. Each identifier it hands out is the one after the
/// last; after 65535 it begins again at zero.
#[derive(Debug)]
pub struct IdCounter {
    next: u16,
}

impl IdCounter {
    /// The identifier that will be handed out next.
    pub closed spec fn next(&self) -> u16 {
        self.next
    }

    /// A counter that begins at zero.
    pub fn new() -> (r: Self)
        ensures
            r.next() == 0,
    {
        IdCounter { next: 0 }
    }

    /// The identifier that will be handed out next.
    pub fn peek(&self) -> (r: u16)
        ensures
            r == self.next(),
    {
        self.next
    }

    /// Hands out an identifier and moves on to the one after it.
    pub fn take(&mut self) -> (r: u16)
        ensures
            r == old(self).next(),
            final(self).next() == id_after(old(self).next(), 1),
    {
        let r = self.next;
        self.next = if r == u16::MAX {
            0
        } else {
            r + 1
        };
        r
    }
}

/// Moving on `a` times and then `b` times is moving on `a + b` times.
pub proof fn lemma_id_after_adds(start: u16, a: nat, b: nat)
    ensures
        id_after(id_after(start, a), b) == id_after(start, a + b),
{
    assert((((start + a) % 0x10000) + b) % 0x10000 == (start + a + b) % 0x10000) by (nonlinear_arith);
}

/// Of 65536 identifiers handed out in a row no two are the same.
pub proof fn lemma_ids_differ(start: u16, a: nat, b: nat)
    requires
        a < b < 0x10000,
    ensures
        id_after(start, a) != id_after(start, b),
{
    let x = start + a;
    let y = start + b;
    assert(x < y < x + 0x10000);
    assert(x % 0x10000 != y % 0x10000) by (nonlinear_arith)
        requires
            x < y < x + 0x10000,
    ;
}

} // verus!
