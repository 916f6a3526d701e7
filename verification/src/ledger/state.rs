use crate::address::Address;
use crate::errors::VoltchainError;
use crate::instructions::Event;
use crate::instructions::Instruction;
use crate::instructions::burn_and_mark;
use crate::instructions::burn_and_mark::BurnAndMark;
use crate::instructions::energy_report;
use crate::instructions::energy_report::EnergyReport;
use crate::instructions::finalize_sale;
use crate::instructions::finalize_sale::FinalizeSale;
use crate::instructions::initialize_pool;
use crate::instructions::initialize_pool::InitializePool;
use crate::instructions::record_sale;
use crate::instructions::record_sale::RecordSale;
use crate::instructions::register_user;
use crate::instructions::register_user::RegisterUser;
use crate::record_key::RecordKey;
use crate::states::pool::Pool;
use crate::states::sale::Sale;
use crate::states::user_claim::UserClaim;
use crate::states::user_position::UserPosition;
use vstd::prelude::*;

verus! {

/// Everything a deployment has on record: the pool, if it has been
/// initialized, and the positions, sales and claims in the order in which
/// they were created.
pub struct LedgerState {
    pub pool: Option<Pool>,
    pub positions: Seq<UserPosition>,
    pub sales: Seq<Sale>,
    pub claims: Seq<UserClaim>,
}

/// The sum of the lifetime totals of `positions`.
pub open spec fn total_lifetime(positions: Seq<UserPosition>) -> nat
    decreases positions.len(),
{
    if positions.len() == 0 {
        0
    } else {
        total_lifetime(positions.drop_last()) + positions.last().lifetime_kwh as nat
    }
}

/// Slot `i` of `positions` exists and holds the position of `owner`.
pub open spec fn owns_slot(positions: Seq<UserPosition>, i: int, owner: Address) -> bool {
    0 <= i < positions.len() && positions[i].owner == owner
}

/// Some slot of `positions` holds the position of `owner`.
pub open spec fn registered(positions: Seq<UserPosition>, owner: Address) -> bool {
    exists|i: int| owns_slot(positions, i, owner)
}

/// A slot of `positions` that holds the position of `owner`.
pub open spec fn slot_of_owner(positions: Seq<UserPosition>, owner: Address) -> int
    recommends
        registered(positions, owner),
{
    choose|i: int| owns_slot(positions, i, owner)
}

/// No two of `positions` share an owner.
pub open spec fn distinct_owners(positions: Seq<UserPosition>) -> bool {
    forall|i: int, j: int|
        0 <= i < j < positions.len() ==> positions[i].owner != positions[j].owner
}

/// The position of `owner` among `positions`, if there is one.
pub open spec fn position_in(positions: Seq<UserPosition>, owner: Address) -> Option<UserPosition> {
    if registered(positions, owner) {
        Some(positions[slot_of_owner(positions, owner)])
    } else {
        None
    }
}

/// Slot `i` of `claims` exists and holds the claim of `user` on `sale_id`.
pub open spec fn claims_slot(claims: Seq<UserClaim>, i: int, user: Address, sale_id: u64) -> bool {
    0 <= i < claims.len() && claims[i].user == user && claims[i].sale_id == sale_id
}

/// Some slot of `claims` holds the claim of `user` on `sale_id`.
pub open spec fn claimed(claims: Seq<UserClaim>, user: Address, sale_id: u64) -> bool {
    exists|i: int| claims_slot(claims, i, user, sale_id)
}

/// No two of `claims` share both user and sale.
pub open spec fn distinct_claims(claims: Seq<UserClaim>) -> bool {
    forall|i: int, j: int|
        0 <= i < j < claims.len() ==> !(claims[i].user == claims[j].user && claims[i].sale_id
            == claims[j].sale_id)
}

/// The claim of `user` on `sale_id` among `claims`, if there is one.
pub open spec fn claim_in(claims: Seq<UserClaim>, user: Address, sale_id: u64) -> Option<UserClaim> {
    if claimed(claims, user, sale_id) {
        Some(claims[choose|i: int| claims_slot(claims, i, user, sale_id)])
    } else {
        None
    }
}

impl LedgerState {
    /// The ledger before anything has happened.
    pub open spec fn empty() -> LedgerState {
        LedgerState { pool: None, positions: Seq::empty(), sales: Seq::empty(), claims: Seq::empty() }
    }

    /// Position number `i` exists and belongs to `owner`.
    pub open spec fn holds_position(self, i: int, owner: Address) -> bool {
        owns_slot(self.positions, i, owner)
    }

    /// `owner` is registered.
    pub open spec fn has_position(self, owner: Address) -> bool {
        registered(self.positions, owner)
    }

    /// Where the position of a registered `owner` is stored.
    pub open spec fn position_index(self, owner: Address) -> int
        recommends
            self.has_position(owner),
    {
        slot_of_owner(self.positions, owner)
    }

    /// The record in the slot that `owner` names, if any.
    pub open spec fn position_of(self, owner: Address) -> Option<UserPosition> {
        position_in(self.positions, owner)
    }

    /// Claim number `i` exists and is the claim of `user` on sale `sale_id`.
    pub open spec fn holds_claim(self, i: int, user: Address, sale_id: u64) -> bool {
        claims_slot(self.claims, i, user, sale_id)
    }

    /// `user` has burned against sale `sale_id`.
    pub open spec fn has_claim(self, user: Address, sale_id: u64) -> bool {
        claimed(self.claims, user, sale_id)
    }

    /// The record in the slot that `user` and `sale_id` name, if any.
    pub open spec fn claim_of(self, user: Address, sale_id: u64) -> Option<UserClaim> {
        claim_in(self.claims, user, sale_id)
    }

    /// The record in the slot that `sale_id` names, if any. Sales are stored
    /// in the order of their identifiers.
    pub open spec fn sale_of(self, sale_id: u64) -> Option<Sale> {
        if sale_id < self.sales.len() {
            Some(self.sales[sale_id as int])
        } else {
            None
        }
    }

    /// What holds of every ledger that the transitions can reach.
    ///
    /// * No two positions share an owner, and no position holds more
    ///   spendable balance than it ever reported.
    /// * Sale number `i` carries the identifier `i`, and the pool's period
    ///   counts the sales.
    /// * No two claims share both user and sale; every claim is pending and
    ///   belongs to a registered user.
    /// * The pool's total is the sum of all lifetime totals.
    /// * Without a pool there are no sales, no claims and no energy.
    pub open spec fn inv(self) -> bool {
        &&& distinct_owners(self.positions)
        &&& forall|i: int| 0 <= i < self.positions.len() ==> (#[trigger] self.positions[i]).wf()
        &&& forall|i: int| 0 <= i < self.sales.len() ==> (#[trigger] self.sales[i]).id == i
        &&& distinct_claims(self.claims)
        &&& forall|i: int|
            0 <= i < self.claims.len() ==> (#[trigger] self.claims[i]).pending()
                && self.has_position(self.claims[i].user)
        &&& match self.pool {
            Some(pool) => self.sales.len() == pool.period && total_lifetime(self.positions)
                == pool.total_kwh,
            None => self.sales.len() == 0 && self.claims.len() == 0 && total_lifetime(
                self.positions,
            ) == 0,
        }
    }

    /// The records that initializing the pool declares.
    pub open spec fn initialize_pool_accounts(self, payer: Address) -> InitializePool {
        InitializePool { pool: self.pool, payer }
    }

    /// The ledger after `payer` asks to initialize the pool.
    pub open spec fn after_initialize_pool(
        self,
        payer: Address,
        authority: Address,
        credit_mint: Address,
    ) -> LedgerState {
        let done = initialize_pool::after(
            self.initialize_pool_accounts(payer),
            authority,
            credit_mint,
        );
        LedgerState { pool: done.pool, ..self }
    }

    /// The records that registering `owner` declares.
    pub open spec fn register_user_accounts(self, owner: Address) -> RegisterUser {
        RegisterUser { user_position: self.position_of(owner), owner }
    }

    /// The ledger after `owner` asks to be registered.
    pub open spec fn after_register_user(self, owner: Address) -> LedgerState {
        let accounts = self.register_user_accounts(owner);
        if register_user::rejection(accounts) is None {
            LedgerState {
                positions: self.positions.push(register_user::applied(accounts).user_position->0),
                ..self
            }
        } else {
            self
        }
    }

    /// The records that an energy report by `owner` declares.
    pub open spec fn energy_report_accounts(self, owner: Address) -> EnergyReport {
        EnergyReport { pool: self.pool, user_position: self.position_of(owner), owner }
    }

    /// The ledger after `owner` reports `delta_kwh_micro`.
    pub open spec fn after_energy_report(self, owner: Address, delta_kwh_micro: u64) -> LedgerState {
        let accounts = self.energy_report_accounts(owner);
        if energy_report::rejection(accounts, delta_kwh_micro) is None {
            let done = energy_report::applied(accounts, delta_kwh_micro);
            LedgerState {
                pool: done.pool,
                positions: self.positions.update(
                    self.position_index(owner),
                    done.user_position->0,
                ),
                ..self
            }
        } else {
            self
        }
    }

    /// The records that a sale creation by `authority` declares. The sale
    /// slot is the one that the pool's current period names.
    pub open spec fn record_sale_accounts(self, authority: Address) -> RecordSale {
        RecordSale {
            pool: self.pool,
            sale: match self.pool {
                Some(pool) => self.sale_of(pool.period),
                None => None,
            },
            authority,
        }
    }

    /// The ledger after `authority` asks to record a sale with the given
    /// terms.
    pub open spec fn after_record_sale(
        self,
        authority: Address,
        kwh_sold_micro: u64,
        revenue_brl_cents: u64,
        fee_bps: u16,
    ) -> LedgerState {
        let accounts = self.record_sale_accounts(authority);
        if record_sale::rejection(accounts, kwh_sold_micro, revenue_brl_cents, fee_bps) is None {
            let done = record_sale::applied(accounts, kwh_sold_micro, revenue_brl_cents, fee_bps);
            LedgerState { pool: done.pool, sales: self.sales.push(done.sale->0), ..self }
        } else {
            self
        }
    }

    /// The records that a redemption by `owner` against `sale_id` declares.
    pub open spec fn burn_and_mark_accounts(self, owner: Address, sale_id: u64) -> BurnAndMark {
        BurnAndMark {
            pool: self.pool,
            user_position: self.position_of(owner),
            user_claim: self.claim_of(owner, sale_id),
            owner,
        }
    }

    /// The ledger after `owner` asks to burn `kwh_to_burn_micro` against
    /// `sale_id`.
    pub open spec fn after_burn_and_mark(
        self,
        owner: Address,
        sale_id: u64,
        kwh_to_burn_micro: u64,
    ) -> LedgerState {
        let accounts = self.burn_and_mark_accounts(owner, sale_id);
        if burn_and_mark::rejection(accounts, sale_id, kwh_to_burn_micro) is None {
            let done = burn_and_mark::applied(accounts, sale_id, kwh_to_burn_micro);
            LedgerState {
                positions: self.positions.update(
                    self.position_index(owner),
                    done.user_position->0,
                ),
                claims: self.claims.push(done.user_claim->0),
                ..self
            }
        } else {
            self
        }
    }

    /// The records that finalizing `sale_id` by `authority` declares.
    pub open spec fn finalize_sale_accounts(self, authority: Address, sale_id: u64) -> FinalizeSale {
        FinalizeSale { pool: self.pool, sale: self.sale_of(sale_id), authority }
    }

    /// The ledger after `authority` asks to finalize `sale_id`.
    pub open spec fn after_finalize_sale(self, authority: Address, sale_id: u64) -> LedgerState {
        let accounts = self.finalize_sale_accounts(authority, sale_id);
        if finalize_sale::rejection(accounts, sale_id) is None {
            LedgerState {
                sales: self.sales.update(
                    sale_id as int,
                    finalize_sale::applied(accounts, sale_id).sale->0,
                ),
                ..self
            }
        } else {
            self
        }
    }

    /// A record is stored under `key`.
    pub open spec fn occupied(self, key: RecordKey) -> bool {
        match key {
            RecordKey::Pool => self.pool is Some,
            RecordKey::UserPosition { owner } => self.has_position(owner),
            RecordKey::Sale { id } => id < self.sales.len(),
            RecordKey::UserClaim { owner, sale_id } => self.has_claim(owner, sale_id),
        }
    }

    /// What the caller of `instruction` is told: the notification, or the
    /// rejection.
    pub open spec fn outcome(self, instruction: Instruction) -> Result<Event, VoltchainError> {
        match instruction {
            Instruction::InitializePool { payer, authority, credit_mint } => match initialize_pool::outcome(
                self.initialize_pool_accounts(payer),
                authority,
                credit_mint,
            ) {
                Ok(event) => Ok(Event::PoolInitialized(event)),
                Err(e) => Err(e),
            },
            Instruction::RegisterUser { owner } => match register_user::outcome(
                self.register_user_accounts(owner),
            ) {
                Ok(event) => Ok(Event::UserRegistered(event)),
                Err(e) => Err(e),
            },
            Instruction::EnergyReport { owner, delta_kwh_micro } => match energy_report::outcome(
                self.energy_report_accounts(owner),
                delta_kwh_micro,
            ) {
                Ok(event) => Ok(Event::EnergyReported(event)),
                Err(e) => Err(e),
            },
            Instruction::RecordSale {
                authority,
                kwh_sold_micro,
                revenue_brl_cents,
                fee_bps,
            } => match record_sale::outcome(
                self.record_sale_accounts(authority),
                kwh_sold_micro,
                revenue_brl_cents,
                fee_bps,
            ) {
                Ok(event) => Ok(Event::SaleRecorded(event)),
                Err(e) => Err(e),
            },
            Instruction::BurnAndMark { owner, sale_id, kwh_to_burn_micro } => match burn_and_mark::outcome(
                self.burn_and_mark_accounts(owner, sale_id),
                sale_id,
                kwh_to_burn_micro,
            ) {
                Ok(event) => Ok(Event::TokensBurned(event)),
                Err(e) => Err(e),
            },
            Instruction::FinalizeSale { authority, sale_id } => match finalize_sale::outcome(
                self.finalize_sale_accounts(authority, sale_id),
                sale_id,
            ) {
                Ok(event) => Ok(Event::SaleFinalized(event)),
                Err(e) => Err(e),
            },
        }
    }

    /// The ledger after `instruction`: changed when accepted, untouched when
    /// rejected.
    pub open spec fn step(self, instruction: Instruction) -> LedgerState {
        match instruction {
            Instruction::InitializePool {
                payer,
                authority,
                credit_mint,
            } => self.after_initialize_pool(payer, authority, credit_mint),
            Instruction::RegisterUser { owner } => self.after_register_user(owner),
            Instruction::EnergyReport { owner, delta_kwh_micro } => self.after_energy_report(
                owner,
                delta_kwh_micro,
            ),
            Instruction::RecordSale {
                authority,
                kwh_sold_micro,
                revenue_brl_cents,
                fee_bps,
            } => self.after_record_sale(authority, kwh_sold_micro, revenue_brl_cents, fee_bps),
            Instruction::BurnAndMark { owner, sale_id, kwh_to_burn_micro } => self.after_burn_and_mark(
                owner,
                sale_id,
                kwh_to_burn_micro,
            ),
            Instruction::FinalizeSale { authority, sale_id } => self.after_finalize_sale(
                authority,
                sale_id,
            ),
        }
    }

    /// The ledger after `instructions`, played in order.
    pub open spec fn run(self, instructions: Seq<Instruction>) -> LedgerState
        decreases instructions.len(),
    {
        if instructions.len() == 0 {
            self
        } else {
            self.run(instructions.drop_last()).step(instructions.last())
        }
    }
}

} // verus!
