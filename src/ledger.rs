//! Positions looked up by their owner: at most one position per owner.

use vstd::prelude::*;

use crate::contexts::same_identity;
use crate::state::Collateral;

verus! {

/// Every position, each under its own owner.
pub struct Ledger {
    pub positions: Vec<Collateral>,
}

impl Ledger {
    /// No owner holds two positions.
    pub open spec fn wf(self) -> bool {
        forall|i: int, j: int|
            0 <= i < self.positions@.len() && 0 <= j < self.positions@.len() && i != j
                ==> #[trigger] self.positions@[i].depositor@ != #[trigger] self.positions@[j].depositor@
    }

    /// `pos` is the position stored for `owner`.
    pub open spec fn holds(self, owner: Seq<u8>, pos: Collateral) -> bool {
        exists|i: int|
            0 <= i < self.positions@.len() && #[trigger] self.positions@[i] == pos
                && pos.depositor@ == owner
    }

    /// Some position is stored for `owner`.
    pub open spec fn has_owner(self, owner: Seq<u8>) -> bool {
        exists|i: int| 0 <= i < self.positions@.len() && #[trigger] self.positions@[i].depositor@ == owner
    }

    /// A table without positions.
    pub fn new() -> (r: Ledger)
        ensures
            r.wf(),
            forall|o: Seq<u8>| !r.has_owner(o),
    {
        Ledger { positions: Vec::new() }
    }

    /// Where the position of `owner` stands, if there is one.
    fn find(&self, owner: &[u8; 32]) -> (r: Option<usize>)
        ensures
            match r {
                Some(i) => i < self.positions@.len() && self.positions@[i as int].depositor@
                    == owner@,
                None => !self.has_owner(owner@),
            },
    {
        let mut i: usize = 0;
        while i < self.positions.len()
            invariant
                0 <= i <= self.positions@.len(),
                forall|j: int| 0 <= j < i ==> self.positions@[j].depositor@ != owner@,
            decreases self.positions@.len() - i,
        {
            if same_identity(&self.positions[i].depositor, owner) {
                return Some(i);
            }
            i += 1;
        }
        None
    }

    /// The position of `owner`, if one is stored.
    pub fn position_of(&self, owner: &[u8; 32]) -> (r: Option<Collateral>)
        requires
            self.wf(),
        ensures
            match r {
                Some(pos) => self.holds(owner@, pos),
                None => !self.has_owner(owner@),
            },
    {
        match self.find(owner) {
            Some(i) => {
                let pos = self.positions[i];
                assert(self.positions@[i as int] == pos);
                Some(pos)
            },
            None => None,
        }
    }

    /// Stores `pos` as the position of its depositor, in place of the one
    /// stored before; every other owner's position stays as it was.
    pub fn store(&mut self, pos: Collateral)
        requires
            old(self).wf(),
        ensures
            final(self).wf(),
            final(self).holds(pos.depositor@, pos),
            forall|o: Seq<u8>, p: Collateral|
                o != pos.depositor@ ==> (final(self).holds(o, p) <==> old(self).holds(o, p)),
            forall|p: Collateral|
                #[trigger] final(self).holds(pos.depositor@, p) ==> p == pos,
    {
        let ghost before = self.positions@;
        match self.find(&pos.depositor) {
            Some(i) => {
                self.positions.set(i, pos);
                assert(self.positions@[i as int] == pos);
                assert forall|o: Seq<u8>, p: Collateral|
                    o != pos.depositor@ implies (self.holds(o, p) <==> old(self).holds(o, p)) by {
                    if self.holds(o, p) {
                        let k = choose|k: int|
                            0 <= k < self.positions@.len() && #[trigger] self.positions@[k] == p
                                && p.depositor@ == o;
                        assert(before[k] == p);
                    }
                    if old(self).holds(o, p) {
                        let k = choose|k: int|
                            0 <= k < before.len() && #[trigger] before[k] == p && p.depositor@ == o;
                        assert(k != i);
                        assert(self.positions@[k] == p);
                    }
                }
                assert forall|p: Collateral| #[trigger]
                    self.holds(pos.depositor@, p) implies p == pos by {
                    let k = choose|k: int|
                        0 <= k < self.positions@.len() && #[trigger] self.positions@[k] == p
                            && p.depositor@ == pos.depositor@;
                    if k != i {
                        assert(before[k].depositor@ == before[i as int].depositor@);
                    }
                }
            },
            None => {
                self.positions.push(pos);
                let ghost n = before.len() as int;
                assert(self.positions@[n] == pos);
                assert forall|o: Seq<u8>, p: Collateral|
                    o != pos.depositor@ implies (self.holds(o, p) <==> old(self).holds(o, p)) by {
                    if self.holds(o, p) {
                        let k = choose|k: int|
                            0 <= k < self.positions@.len() && #[trigger] self.positions@[k] == p
                                && p.depositor@ == o;
                        assert(k != n);
                        assert(before[k] == p);
                    }
                    if old(self).holds(o, p) {
                        let k = choose|k: int|
                            0 <= k < before.len() && #[trigger] before[k] == p && p.depositor@ == o;
                        assert(self.positions@[k] == p);
                    }
                }
                assert forall|p: Collateral| #[trigger]
                    self.holds(pos.depositor@, p) implies p == pos by {
                    let k = choose|k: int|
                        0 <= k < self.positions@.len() && #[trigger] self.positions@[k] == p
                            && p.depositor@ == pos.depositor@;
                    if k != n {
                        assert(before[k].depositor@ == pos.depositor@);
                    }
                }
            },
        }
    }
}

} // verus!
