use crate::address::Address;
use crate::ledger::slots::lemma_claim_slot;
use crate::ledger::slots::lemma_position_slot;
use crate::ledger::state::LedgerState;
use crate::ledger::state::claims_slot;
use crate::ledger::state::owns_slot;
use crate::record_key::RecordKey;
use crate::states::pool::Pool;
use crate::states::sale::Sale;
use crate::states::user_claim::UserClaim;
use crate::states::user_position::UserPosition;
use vstd::prelude::*;

verus! {

/// The record store: every record of one deployment, each in the slot that
/// its kind and key name. Only the transitions of [`crate::program`] change
/// it.
pub struct Ledger {
    pool: Option<Pool>,
    positions: Vec<UserPosition>,
    sales: Vec<Sale>,
    claims: Vec<UserClaim>,
}

impl View for Ledger {
    type V = LedgerState;

    closed spec fn view(&self) -> LedgerState {
        LedgerState {
            pool: self.pool,
            positions: self.positions@,
            sales: self.sales@,
            claims: self.claims@,
        }
    }
}

impl Ledger {
    /// A store with no record in it.
    pub fn new() -> (r: Ledger)
        ensures
            r@ == LedgerState::empty(),
            r@.inv(),
    {
        Ledger { pool: None, positions: Vec::new(), sales: Vec::new(), claims: Vec::new() }
    }

    /// The pool, once it has been initialized.
    pub fn pool(&self) -> (r: Option<Pool>)
        ensures
            r == self@.pool,
    {
        self.pool
    }

    /// The sale stored under `sale_id`, if there is one.
    pub fn sale(&self, sale_id: u64) -> (r: Option<Sale>)
        ensures
            r == self@.sale_of(sale_id),
    {
        match self.find_sale(sale_id) {
            Some(i) => Some(self.sales[i]),
            None => None,
        }
    }

    /// The position of `owner`, if registered.
    pub fn position(&self, owner: &Address) -> (r: Option<UserPosition>)
        requires
            self@.inv(),
        ensures
            r == self@.position_of(*owner),
    {
        match self.find_position(owner) {
            Some(i) => {
                proof {
                    lemma_position_slot(self@, i as int, *owner);
                }
                Some(self.positions[i])
            },
            None => None,
        }
    }

    /// The claim of `user` on sale `sale_id`, if there is one.
    pub fn claim(&self, user: &Address, sale_id: u64) -> (r: Option<UserClaim>)
        requires
            self@.inv(),
        ensures
            r == self@.claim_of(*user, sale_id),
    {
        match self.find_claim(user, sale_id) {
            Some(i) => {
                proof {
                    lemma_claim_slot(self@, i as int, *user, sale_id);
                }
                Some(self.claims[i])
            },
            None => None,
        }
    }

    /// Whether a record is stored under `key`.
    pub fn contains(&self, key: &RecordKey) -> (r: bool)
        ensures
            r == self@.occupied(*key),
    {
        match key {
            RecordKey::Pool => self.pool.is_some(),
            RecordKey::UserPosition { owner } => self.find_position(owner).is_some(),
            RecordKey::Sale { id } => self.find_sale(*id).is_some(),
            RecordKey::UserClaim { owner, sale_id } => self.find_claim(owner, *sale_id).is_some(),
        }
    }

    /// The number of registered positions.
    pub fn position_count(&self) -> (r: usize)
        ensures
            r == self@.positions.len(),
    {
        self.positions.len()
    }

    /// The number of recorded sales.
    pub fn sale_count(&self) -> (r: usize)
        ensures
            r == self@.sales.len(),
    {
        self.sales.len()
    }

    /// The number of claims.
    pub fn claim_count(&self) -> (r: usize)
        ensures
            r == self@.claims.len(),
    {
        self.claims.len()
    }

    /// Where the position of `owner` is stored.
    pub(crate) fn find_position(&self, owner: &Address) -> (r: Option<usize>)
        ensures
            match r {
                Some(i) => self@.holds_position(i as int, *owner),
                None => !self@.has_position(*owner),
            },
    {
        let mut i: usize = 0;
        while i < self.positions.len()
            invariant
                i <= self.positions.len(),
                forall|j: int| 0 <= j < i ==> !owns_slot(self@.positions, j, *owner),
            decreases self.positions.len() - i,
        {
            if self.positions[i].owner == *owner {
                return Some(i);
            }
            i += 1;
        }
        None
    }

    /// Where the claim of `user` on sale `sale_id` is stored.
    pub(crate) fn find_claim(&self, user: &Address, sale_id: u64) -> (r: Option<usize>)
        ensures
            match r {
                Some(i) => self@.holds_claim(i as int, *user, sale_id),
                None => !self@.has_claim(*user, sale_id),
            },
    {
        let mut i: usize = 0;
        while i < self.claims.len()
            invariant
                i <= self.claims.len(),
                forall|j: int| 0 <= j < i ==> !claims_slot(self@.claims, j, *user, sale_id),
            decreases self.claims.len() - i,
        {
            if self.claims[i].sale_id == sale_id && self.claims[i].user == *user {
                return Some(i);
            }
            i += 1;
        }
        None
    }

    /// Where the sale with identifier `sale_id` is stored.
    pub(crate) fn find_sale(&self, sale_id: u64) -> (r: Option<usize>)
        ensures
            match r {
                Some(i) => i == sale_id && i < self@.sales.len(),
                None => sale_id >= self@.sales.len(),
            },
    {
        let n = self.sales.len();
        if sale_id < n as u64 {
            Some(sale_id as usize)
        } else {
            None
        }
    }

    /// The sale in slot `i`.
    pub(crate) fn sale_at(&self, i: usize) -> (r: Sale)
        requires
            i < self@.sales.len(),
        ensures
            r == self@.sales[i as int],
    {
        self.sales[i]
    }

    /// The position in slot `i`.
    pub(crate) fn position_at(&self, i: usize) -> (r: UserPosition)
        requires
            i < self@.positions.len(),
        ensures
            r == self@.positions[i as int],
    {
        self.positions[i]
    }

    /// Stores `pool` in the pool slot.
    pub(crate) fn put_pool(&mut self, pool: Pool)
        ensures
            final(self)@ == (LedgerState { pool: Some(pool), ..old(self)@ }),
    {
        self.pool = Some(pool);
    }

    /// Stores `position` in a new slot.
    pub(crate) fn push_position(&mut self, position: UserPosition)
        ensures
            final(self)@ == (LedgerState {
                positions: old(self)@.positions.push(position),
                ..old(self)@
            }),
    {
        self.positions.push(position);
    }

    /// Overwrites slot `i` with `position`.
    pub(crate) fn put_position(&mut self, i: usize, position: UserPosition)
        requires
            i < old(self)@.positions.len(),
        ensures
            final(self)@ == (LedgerState {
                positions: old(self)@.positions.update(i as int, position),
                ..old(self)@
            }),
    {
        self.positions.set(i, position);
    }

    /// Stores `sale` in a new slot.
    pub(crate) fn push_sale(&mut self, sale: Sale)
        ensures
            final(self)@ == (LedgerState { sales: old(self)@.sales.push(sale), ..old(self)@ }),
    {
        self.sales.push(sale);
    }

    /// Overwrites slot `i` with `sale`.
    pub(crate) fn put_sale(&mut self, i: usize, sale: Sale)
        requires
            i < old(self)@.sales.len(),
        ensures
            final(self)@ == (LedgerState {
                sales: old(self)@.sales.update(i as int, sale),
                ..old(self)@
            }),
    {
        self.sales.set(i, sale);
    }

    /// Stores `claim` in a new slot.
    pub(crate) fn push_claim(&mut self, claim: UserClaim)
        ensures
            final(self)@ == (LedgerState { claims: old(self)@.claims.push(claim), ..old(self)@ }),
    {
        self.claims.push(claim);
    }
}

} // verus!
