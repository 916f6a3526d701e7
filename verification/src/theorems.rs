use crate::address::Address;
use crate::errors::VoltchainError;
use crate::instructions::Instruction;
use crate::instructions::burn_and_mark;
use crate::instructions::energy_report;
use crate::instructions::finalize_sale;
use crate::instructions::record_sale;
use crate::instructions::register_user;
use crate::ledger::preservation::lemma_empty_inv;
use crate::ledger::preservation::lemma_run_inv;
use crate::ledger::preservation::lemma_total_lifetime_bounds;
use crate::ledger::slots::lemma_burn_and_mark_slots;
use crate::ledger::slots::lemma_energy_report_slots;
use crate::ledger::slots::lemma_position_slot;
use crate::ledger::slots::lemma_register_user_slots;
use crate::ledger::state::LedgerState;
use crate::ledger::state::claims_slot;
use crate::record_key::RecordKey;
use vstd::prelude::*;

verus! {

/// Records are never destroyed: whatever is stored under a key before a
/// transition is stored under it afterwards.
pub proof fn theorem_records_persist(state: LedgerState, instruction: Instruction, key: RecordKey)
    requires
        state.occupied(key),
    ensures
        state.step(instruction).occupied(key),
{
    let next = state.step(instruction);
    match key {
        RecordKey::Pool => {},
        RecordKey::UserPosition { owner } => {
            let k = state.position_index(owner);
            assert(state.holds_position(k, owner));
            match instruction {
                Instruction::EnergyReport { owner: who, delta_kwh_micro } => {
                    if next != state {
                        assert(state.holds_position(state.position_index(who), who));
                    }
                },
                Instruction::BurnAndMark { owner: who, sale_id, kwh_to_burn_micro } => {
                    if next != state {
                        assert(state.holds_position(state.position_index(who), who));
                    }
                },
                _ => {},
            }
            assert(next.holds_position(k, owner));
        },
        RecordKey::Sale { id } => {},
        RecordKey::UserClaim { owner, sale_id } => {
            let k = choose|k: int| claims_slot(state.claims, k, owner, sale_id);
            assert(state.holds_claim(k, owner, sale_id));
            assert(next.holds_claim(k, owner, sale_id));
        },
    }
}

/// Whatever is stored under a key stays stored under it through any
/// sequence of transitions.
pub proof fn theorem_records_persist_run(state: LedgerState, instructions: Seq<Instruction>, key: RecordKey)
    requires
        state.occupied(key),
    ensures
        state.run(instructions).occupied(key),
    decreases instructions.len(),
{
    if instructions.len() > 0 {
        theorem_records_persist_run(state, instructions.drop_last(), key);
        theorem_records_persist(state.run(instructions.drop_last()), instructions.last(), key);
    }
}

/// Every ledger that transitions produce from the empty one is well formed.
pub proof fn theorem_reachable_inv(instructions: Seq<Instruction>)
    ensures
        LedgerState::empty().run(instructions).inv(),
{
    lemma_empty_inv();
    lemma_run_inv(LedgerState::empty(), instructions);
}

/// In a well-formed ledger no position has reported more than the pool has
/// on record: the pool's total bounds every lifetime total.
pub proof fn theorem_lifetime_within_pool_total(state: LedgerState, owner: Address)
    requires
        state.inv(),
        state.pool is Some,
        state.has_position(owner),
    ensures
        state.position_of(owner)->0.lifetime_kwh <= state.pool->0.total_kwh,
{
    let k = state.position_index(owner);
    assert(state.holds_position(k, owner));
    lemma_total_lifetime_bounds(state.positions, k);
}

/// After every transition, every position holds at most as much spendable
/// balance as its owner ever reported.
pub proof fn theorem_accrued_within_lifetime(instructions: Seq<Instruction>, owner: Address)
    ensures
        match LedgerState::empty().run(instructions).position_of(owner) {
            Some(position) => position.accrued_kwh <= position.lifetime_kwh,
            None => true,
        },
{
    let state = LedgerState::empty().run(instructions);
    lemma_run_inv(LedgerState::empty(), instructions);
    if state.has_position(owner) {
        let k = state.position_index(owner);
        assert(state.holds_position(k, owner));
        assert(state.positions[k].wf());
    }
}

/// The instructions that play `reports` in order; each report names who
/// reports and how much.
pub open spec fn report_instructions(reports: Seq<(Address, u64)>) -> Seq<Instruction> {
    reports.map_values(
        |report: (Address, u64)|
            Instruction::EnergyReport { owner: report.0, delta_kwh_micro: report.1 },
    )
}

/// `state` accepts a report of `delta_kwh_micro` by `owner`.
pub open spec fn accepts_report(state: LedgerState, owner: Address, delta_kwh_micro: u64) -> bool {
    energy_report::rejection(state.energy_report_accounts(owner), delta_kwh_micro) is None
}

/// The sum of the deltas that `owner` reports, and the ledger accepts, when
/// `reports` are played in order from `state`.
pub open spec fn credited_to(state: LedgerState, reports: Seq<(Address, u64)>, owner: Address) -> nat
    decreases reports.len(),
{
    if reports.len() == 0 {
        0
    } else {
        let earlier = reports.drop_last();
        let report = reports.last();
        let midway = state.run(report_instructions(earlier));
        if report.0 == owner && accepts_report(midway, report.0, report.1) {
            credited_to(state, earlier, owner) + report.1 as nat
        } else {
            credited_to(state, earlier, owner)
        }
    }
}

/// The sum of all deltas that the ledger accepts, whoever reports them, when
/// `reports` are played in order from `state`.
pub open spec fn credited_to_all(state: LedgerState, reports: Seq<(Address, u64)>) -> nat
    decreases reports.len(),
{
    if reports.len() == 0 {
        0
    } else {
        let earlier = reports.drop_last();
        let report = reports.last();
        let midway = state.run(report_instructions(earlier));
        if accepts_report(midway, report.0, report.1) {
            credited_to_all(state, earlier) + report.1 as nat
        } else {
            credited_to_all(state, earlier)
        }
    }
}

/// Over any sequence of energy reports, the balance and the lifetime total
/// of a registered user each grow by exactly the sum of that user's accepted
/// deltas.
pub proof fn theorem_reports_add_up_for_user(state: LedgerState, reports: Seq<(Address, u64)>, owner: Address)
    requires
        state.inv(),
        state.has_position(owner),
    ensures
        state.run(report_instructions(reports)).has_position(owner),
        state.run(report_instructions(reports)).position_of(owner)->0.accrued_kwh
            == state.position_of(owner)->0.accrued_kwh + credited_to(state, reports, owner),
        state.run(report_instructions(reports)).position_of(owner)->0.lifetime_kwh
            == state.position_of(owner)->0.lifetime_kwh + credited_to(state, reports, owner),
    decreases reports.len(),
{
    if reports.len() > 0 {
        let earlier = reports.drop_last();
        let report = reports.last();
        assert(report_instructions(reports).drop_last() =~= report_instructions(earlier));
        let midway = state.run(report_instructions(earlier));
        let end = state.run(report_instructions(reports));
        assert(end == midway.after_energy_report(report.0, report.1));
        theorem_reports_add_up_for_user(state, earlier, owner);
        lemma_run_inv(state, report_instructions(earlier));
        lemma_run_inv(state, report_instructions(reports));
        let k = midway.position_index(owner);
        assert(midway.holds_position(k, owner));
        if accepts_report(midway, report.0, report.1) {
            let j = midway.position_index(report.0);
            assert(midway.holds_position(j, report.0));
            lemma_position_slot(midway, j, report.0);
            assert(end.holds_position(k, owner));
        }
        lemma_position_slot(end, k, owner);
    }
}

/// Over any sequence of energy reports, the pool's total grows by exactly
/// the sum of the accepted deltas of all users combined.
pub proof fn theorem_reports_add_up_in_pool(state: LedgerState, reports: Seq<(Address, u64)>)
    requires
        state.pool is Some,
    ensures
        state.run(report_instructions(reports)).pool is Some,
        state.run(report_instructions(reports)).pool->0.total_kwh == state.pool->0.total_kwh
            + credited_to_all(state, reports),
    decreases reports.len(),
{
    if reports.len() > 0 {
        let earlier = reports.drop_last();
        assert(report_instructions(reports).drop_last() =~= report_instructions(earlier));
        theorem_reports_add_up_in_pool(state, earlier);
    }
}

/// Where every report is made by the same user, the pool's total grows by
/// the same sum as that user's balance.
pub proof fn theorem_single_reporter(state: LedgerState, reports: Seq<(Address, u64)>, owner: Address)
    requires
        forall|i: int| 0 <= i < reports.len() ==> (#[trigger] reports[i]).0 == owner,
    ensures
        credited_to_all(state, reports) == credited_to(state, reports, owner),
    decreases reports.len(),
{
    if reports.len() > 0 {
        theorem_single_reporter(state, reports.drop_last(), owner);
    }
}

/// Every one of `reports`, played in order from `state`, is accepted.
pub open spec fn all_accepted(state: LedgerState, reports: Seq<(Address, u64)>) -> bool {
    forall|i: int|
        0 <= i < reports.len() ==> accepts_report(
            state.run(report_instructions(reports.take(i))),
            (#[trigger] reports[i]).0,
            reports[i].1,
        )
}

/// The sum of the deltas of `reports`.
pub open spec fn delta_sum(reports: Seq<(Address, u64)>) -> nat
    decreases reports.len(),
{
    if reports.len() == 0 {
        0
    } else {
        delta_sum(reports.drop_last()) + reports.last().1 as nat
    }
}

/// Where every report is accepted, the accepted deltas are all the deltas.
pub proof fn theorem_all_accepted_sum(state: LedgerState, reports: Seq<(Address, u64)>)
    requires
        all_accepted(state, reports),
    ensures
        credited_to_all(state, reports) == delta_sum(reports),
    decreases reports.len(),
{
    if reports.len() > 0 {
        let earlier = reports.drop_last();
        let n = earlier.len() as int;
        assert forall|i: int| 0 <= i < earlier.len() implies accepts_report(
            state.run(report_instructions(earlier.take(i))),
            (#[trigger] earlier[i]).0,
            earlier[i].1,
        ) by {
            assert(earlier.take(i) =~= reports.take(i));
            assert(reports[i] == earlier[i]);
        }
        theorem_all_accepted_sum(state, earlier);
        assert(reports.take(n) =~= earlier);
        assert(reports[n] == reports.last());
    }
}

/// A sequence of accepted energy reports by a single user raises that user's
/// balance, that user's lifetime total and the pool's total each by exactly
/// the sum of the deltas.
pub proof fn theorem_single_user_reports(state: LedgerState, reports: Seq<(Address, u64)>, owner: Address)
    requires
        state.inv(),
        state.pool is Some,
        state.has_position(owner),
        forall|i: int| 0 <= i < reports.len() ==> (#[trigger] reports[i]).0 == owner,
        all_accepted(state, reports),
    ensures
        state.run(report_instructions(reports)).position_of(owner)->0.accrued_kwh
            == state.position_of(owner)->0.accrued_kwh + delta_sum(reports),
        state.run(report_instructions(reports)).position_of(owner)->0.lifetime_kwh
            == state.position_of(owner)->0.lifetime_kwh + delta_sum(reports),
        state.run(report_instructions(reports)).pool->0.total_kwh == state.pool->0.total_kwh
            + delta_sum(reports),
{
    theorem_reports_add_up_for_user(state, reports, owner);
    theorem_reports_add_up_in_pool(state, reports);
    theorem_single_reporter(state, reports, owner);
    theorem_all_accepted_sum(state, reports);
}

/// The sale that an accepted sale creation stores carries the number of
/// sales recorded before it, and the pool's period then counts it.
pub proof fn theorem_issued_sale_id(
    state: LedgerState,
    authority: Address,
    kwh_sold_micro: u64,
    revenue_brl_cents: u64,
    fee_bps: u16,
)
    requires
        state.inv(),
        record_sale::rejection(
            state.record_sale_accounts(authority),
            kwh_sold_micro,
            revenue_brl_cents,
            fee_bps,
        ) is None,
    ensures
        record_sale::notice(
            state.record_sale_accounts(authority),
            kwh_sold_micro,
            revenue_brl_cents,
            fee_bps,
        ).sale_id == state.sales.len(),
        state.after_record_sale(authority, kwh_sold_micro, revenue_brl_cents, fee_bps).sales.len()
            == state.sales.len() + 1,
        state.after_record_sale(authority, kwh_sold_micro, revenue_brl_cents, fee_bps).sales.last().id
            == state.sales.len(),
        state.after_record_sale(
            authority,
            kwh_sold_micro,
            revenue_brl_cents,
            fee_bps,
        ).pool->0.period == state.sales.len() + 1,
{
}

/// In a well-formed ledger the sale slot of the current period is always
/// vacant: a sale creation is never rejected as a duplicate.
pub proof fn theorem_sale_slot_is_vacant(
    state: LedgerState,
    authority: Address,
    kwh_sold_micro: u64,
    revenue_brl_cents: u64,
    fee_bps: u16,
)
    requires
        state.inv(),
    ensures
        record_sale::rejection(
            state.record_sale_accounts(authority),
            kwh_sold_micro,
            revenue_brl_cents,
            fee_bps,
        ) != Some(VoltchainError::AccountAlreadyInUse),
{
}

/// The number of sale creations that the ledger accepts when `instructions`
/// are played in order from `state`.
pub open spec fn sales_recorded(state: LedgerState, instructions: Seq<Instruction>) -> nat
    decreases instructions.len(),
{
    if instructions.len() == 0 {
        0
    } else {
        let earlier = instructions.drop_last();
        let counted: nat = if instructions.last() is RecordSale && state.run(earlier).outcome(
            instructions.last(),
        ) is Ok {
            1
        } else {
            0
        };
        sales_recorded(state, earlier) + counted
    }
}

/// Sale identifiers are 0, 1, 2, ... in the order of creation, and after N
/// accepted sale creations the pool's period is N.
pub proof fn theorem_sale_ids_count_up(instructions: Seq<Instruction>)
    ensures
        LedgerState::empty().run(instructions).sales.len() == sales_recorded(
            LedgerState::empty(),
            instructions,
        ),
        forall|i: int|
            0 <= i < LedgerState::empty().run(instructions).sales.len() ==> (
            #[trigger] LedgerState::empty().run(instructions).sales[i]).id == i,
        match LedgerState::empty().run(instructions).pool {
            Some(pool) => pool.period == sales_recorded(LedgerState::empty(), instructions),
            None => sales_recorded(LedgerState::empty(), instructions) == 0,
        },
    decreases instructions.len(),
{
    lemma_run_inv(LedgerState::empty(), instructions);
    if instructions.len() > 0 {
        theorem_sale_ids_count_up(instructions.drop_last());
    }
}

/// A user burns against a sale at most once: after an accepted burn, and
/// whatever transitions follow it, a burn by the same user against the same
/// sale is rejected as a duplicate, for any amount.
pub proof fn theorem_burn_at_most_once(
    state: LedgerState,
    owner: Address,
    sale_id: u64,
    kwh_to_burn_micro: u64,
    between: Seq<Instruction>,
    again_kwh_micro: u64,
)
    requires
        state.inv(),
        burn_and_mark::rejection(
            state.burn_and_mark_accounts(owner, sale_id),
            sale_id,
            kwh_to_burn_micro,
        ) is None,
    ensures
        burn_and_mark::outcome(
            state.after_burn_and_mark(owner, sale_id, kwh_to_burn_micro).run(
                between,
            ).burn_and_mark_accounts(owner, sale_id),
            sale_id,
            again_kwh_micro,
        ) == Err::<burn_and_mark::TokensBurned, VoltchainError>(VoltchainError::AccountAlreadyInUse),
{
    let burned = state.after_burn_and_mark(owner, sale_id, kwh_to_burn_micro);
    let later = burned.run(between);
    let k = state.position_index(owner);
    assert(state.holds_position(k, owner));
    assert(burned.holds_position(k, owner));
    assert(burned.holds_claim(state.claims.len() as int, owner, sale_id));
    theorem_records_persist_run(burned, between, RecordKey::Pool);
    theorem_records_persist_run(burned, between, RecordKey::UserPosition { owner });
    theorem_records_persist_run(burned, between, RecordKey::UserClaim { owner, sale_id });
    let j = later.position_index(owner);
    assert(later.holds_position(j, owner));
}

/// A burn of more than the accrued balance, by a registered user who has
/// not yet burned against the sale, is rejected for insufficient balance and
/// changes nothing.
pub proof fn theorem_burn_beyond_balance(
    state: LedgerState,
    owner: Address,
    sale_id: u64,
    kwh_to_burn_micro: u64,
)
    requires
        state.pool is Some,
        state.has_position(owner),
        !state.has_claim(owner, sale_id),
        kwh_to_burn_micro > state.position_of(owner)->0.accrued_kwh,
    ensures
        burn_and_mark::outcome(
            state.burn_and_mark_accounts(owner, sale_id),
            sale_id,
            kwh_to_burn_micro,
        ) == Err::<burn_and_mark::TokensBurned, VoltchainError>(VoltchainError::InsufficientBalance),
        state.after_burn_and_mark(owner, sale_id, kwh_to_burn_micro) == state,
{
    let k = state.position_index(owner);
    assert(state.holds_position(k, owner));
}

/// Finalizing twice: the first call turns an open sale into a finalized one;
/// the second is rejected as an invalid state transition and the sale stays
/// finalized.
pub proof fn theorem_finalize_twice(state: LedgerState, authority: Address, sale_id: u64)
    requires
        finalize_sale::rejection(state.finalize_sale_accounts(authority, sale_id), sale_id) is None,
    ensures
        state.sale_of(sale_id) is Some,
        !state.sale_of(sale_id)->0.finalized,
        state.after_finalize_sale(authority, sale_id).sale_of(sale_id) is Some,
        state.after_finalize_sale(authority, sale_id).sale_of(sale_id)->0.finalized,
        finalize_sale::outcome(
            state.after_finalize_sale(authority, sale_id).finalize_sale_accounts(authority, sale_id),
            sale_id,
        ) == Err::<finalize_sale::SaleFinalized, VoltchainError>(
            VoltchainError::SaleAlreadyFinalized,
        ),
        state.after_finalize_sale(authority, sale_id).after_finalize_sale(authority, sale_id)
            == state.after_finalize_sale(authority, sale_id),
{
}

/// Finalization is terminal: a finalized sale stays finalized through any
/// transition.
pub proof fn theorem_finalized_is_terminal(state: LedgerState, instruction: Instruction, sale_id: u64)
    requires
        state.sale_of(sale_id) is Some,
        state.sale_of(sale_id)->0.finalized,
    ensures
        state.step(instruction).sale_of(sale_id) is Some,
        state.step(instruction).sale_of(sale_id)->0.finalized,
{
}

/// A transition changes nothing of a sale but its finalized flag.
pub proof fn theorem_sale_terms_are_fixed(state: LedgerState, instruction: Instruction, sale_id: u64)
    requires
        state.sale_of(sale_id) is Some,
    ensures
        state.step(instruction).sale_of(sale_id) is Some,
        state.step(instruction).sale_of(sale_id)->0 == (crate::states::sale::Sale {
            finalized: state.step(instruction).sale_of(sale_id)->0.finalized,
            ..state.sale_of(sale_id)->0
        }),
{
}

/// Counters only grow: no transition lowers the pool's total, the pool's
/// period, or the lifetime total of any position.
pub proof fn theorem_counters_never_decrease(state: LedgerState, instruction: Instruction, owner: Address)
    requires
        state.inv(),
    ensures
        state.pool is Some ==> state.step(instruction).pool is Some,
        state.pool is Some ==> state.step(instruction).pool->0.total_kwh
            >= state.pool->0.total_kwh,
        state.pool is Some ==> state.step(instruction).pool->0.period >= state.pool->0.period,
        state.pool is Some ==> state.step(instruction).pool->0.authority
            == state.pool->0.authority,
        state.pool is Some ==> state.step(instruction).pool->0.credit_mint
            == state.pool->0.credit_mint,
        state.has_position(owner) ==> state.step(instruction).has_position(owner),
        state.has_position(owner) ==> state.step(instruction).position_of(owner)->0.lifetime_kwh
            >= state.position_of(owner)->0.lifetime_kwh,
{
    if state.has_position(owner) {
        theorem_records_persist(state, instruction, RecordKey::UserPosition { owner });
        match instruction {
            Instruction::RegisterUser { owner: who } => {
                lemma_register_user_slots(state, who, owner);
            },
            Instruction::EnergyReport { owner: who, delta_kwh_micro } => {
                lemma_energy_report_slots(state, who, delta_kwh_micro, owner);
            },
            Instruction::BurnAndMark { owner: who, sale_id, kwh_to_burn_micro } => {
                lemma_burn_and_mark_slots(state, who, sale_id, kwh_to_burn_micro, owner, sale_id);
            },
            _ => {},
        }
    }
}

/// The handlers that touch a position leave it with a balance within its
/// lifetime total, provided it came in that way.
pub proof fn theorem_handlers_keep_positions_wf(
    report: energy_report::EnergyReport,
    delta_kwh_micro: u64,
    burn: burn_and_mark::BurnAndMark,
    sale_id: u64,
    kwh_to_burn_micro: u64,
    registration: register_user::RegisterUser,
)
    requires
        report.user_position is Some ==> report.user_position->0.wf(),
        burn.user_position is Some ==> burn.user_position->0.wf(),
        registration.user_position is Some ==> registration.user_position->0.wf(),
    ensures
        energy_report::after(report, delta_kwh_micro).user_position is Some
            ==> energy_report::after(report, delta_kwh_micro).user_position->0.wf(),
        burn_and_mark::after(burn, sale_id, kwh_to_burn_micro).user_position is Some
            ==> burn_and_mark::after(burn, sale_id, kwh_to_burn_micro).user_position->0.wf(),
        register_user::after(registration).user_position is Some ==> register_user::after(
            registration,
        ).user_position->0.wf(),
{
}

/// A burn touches the balance only: the lifetime total of the position and
/// the pool are as they were.
pub proof fn theorem_burn_touches_accrued_only(
    accounts: burn_and_mark::BurnAndMark,
    sale_id: u64,
    kwh_to_burn_micro: u64,
)
    requires
        accounts.user_position is Some,
    ensures
        burn_and_mark::after(accounts, sale_id, kwh_to_burn_micro).pool == accounts.pool,
        burn_and_mark::after(accounts, sale_id, kwh_to_burn_micro).user_position is Some,
        burn_and_mark::after(accounts, sale_id, kwh_to_burn_micro).user_position->0.lifetime_kwh
            == accounts.user_position->0.lifetime_kwh,
        burn_and_mark::after(accounts, sale_id, kwh_to_burn_micro).user_position->0.owner
            == accounts.user_position->0.owner,
{
}

} // verus!
