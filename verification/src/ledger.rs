//! The ledger of ticket channels that this process is creating or has
//! created.
//!
//! Looking for a ticket channel and creating one when none is found are two
//! steps, and handlings run side by side. The ledger makes the two steps one:
//! whoever is about to create a channel for a user claims the user first,
//! and a second claim for the same user is refused until the first is
//! settled or released. A settled entry names the channel that was created,
//! for the time in which the mirror has not heard of it yet.

use vstd::prelude::*;

verus! {

/// What the ledger notes about a user.
#[derive(Clone, Copy, Debug, PartialEq, Eq, Structural)]
pub enum Slot {
    /// A ticket channel is being created for the user.
    Creating,
    /// This ticket channel was created for the user.
    Created(u64),
}

/// The map that a run of entries amounts to: a later entry for a user
/// overrides an earlier one.
pub open spec fn slots_of(entries: Seq<(u64, Slot)>) -> Map<u64, Slot>
    decreases entries.len(),
{
    if entries.len() == 0 {
        Map::empty()
    } else {
        slots_of(entries.drop_last()).insert(entries.last().0, entries.last().1)
    }
}

/// The ledger. Its value is a map from users to what is noted about them.
#[derive(Clone, Debug)]
pub struct Ledger {
    entries: Vec<(u64, Slot)>,
}

impl View for Ledger {
    type V = Map<u64, Slot>;

    closed spec fn view(&self) -> Map<u64, Slot> {
        slots_of(self.entries@)
    }
}

/// What a ledger notes about a user, if anything.
pub open spec fn slot_of(ledger: Map<u64, Slot>, user: u64) -> Option<Slot> {
    if ledger.contains_key(user) {
        Some(ledger[user])
    } else {
        None
    }
}

impl Ledger {
    /// A ledger that notes nothing.
    pub fn new() -> (ledger: Ledger)
        ensures
            ledger@ == Map::<u64, Slot>::empty(),
    {
        Ledger { entries: Vec::new() }
    }

    /// What the ledger notes about `user`.
    pub fn slot(&self, user: u64) -> (slot: Option<Slot>)
        ensures
            slot == slot_of(self@, user),
    {
        let mut found: Option<Slot> = None;
        let mut i: usize = 0;
        while i < self.entries.len()
            invariant
                i <= self.entries.len(),
                found == slot_of(slots_of(self.entries@.subrange(0, i as int)), user),
            decreases self.entries.len() - i,
        {
            proof {
                let seen = self.entries@.subrange(0, i + 1);
                assert(seen.drop_last() =~= self.entries@.subrange(0, i as int));
            }
            let entry = self.entries[i];
            if entry.0 == user {
                found = Some(entry.1);
            }
            i = i + 1;
        }
        assert(self.entries@.subrange(0, i as int) =~= self.entries@);
        found
    }

    /// Claims `user` for the creation of a ticket channel. The claim is
    /// granted exactly when the ledger notes nothing about the user; a
    /// refused claim leaves the ledger as it was.
    pub fn claim(&mut self, user: u64) -> (granted: bool)
        ensures
            granted == !old(self)@.contains_key(user),
            final(self)@ == if granted {
                old(self)@.insert(user, Slot::Creating)
            } else {
                old(self)@
            },
    {
        match self.slot(user) {
            Some(_) => false,
            None => {
                proof {
                    let after = self.entries@.push((user, Slot::Creating));
                    assert(after.drop_last() =~= self.entries@);
                }
                self.entries.push((user, Slot::Creating));
                true
            },
        }
    }

    /// Removes whatever the ledger notes about `user`.
    pub fn release(&mut self, user: u64)
        ensures
            final(self)@ == old(self)@.remove(user),
    {
        let mut kept: Vec<(u64, Slot)> = Vec::new();
        let mut i: usize = 0;
        while i < self.entries.len()
            invariant
                i <= self.entries.len(),
                slots_of(kept@) == slots_of(self.entries@.subrange(0, i as int)).remove(user),
            decreases self.entries.len() - i,
        {
            let entry = self.entries[i];
            proof {
                let seen = self.entries@.subrange(0, i + 1);
                assert(seen.drop_last() =~= self.entries@.subrange(0, i as int));
                assert(kept@.push(entry).drop_last() =~= kept@);
            }
            if entry.0 != user {
                kept.push(entry);
            }
            i = i + 1;
        }
        assert(self.entries@.subrange(0, i as int) =~= self.entries@);
        self.entries = kept;
    }

    /// Notes that `channel` was created for `user`, in place of whatever the
    /// ledger noted about the user before.
    pub fn settle(&mut self, user: u64, channel: u64)
        ensures
            final(self)@ == old(self)@.insert(user, Slot::Created(channel)),
    {
        self.release(user);
        proof {
            let after = self.entries@.push((user, Slot::Created(channel)));
            assert(after.drop_last() =~= self.entries@);
        }
        self.entries.push((user, Slot::Created(channel)));
    }
}

} // verus!
