use crate::address::Address;
use crate::instructions::Instruction;
use crate::ledger::state::LedgerState;
use crate::ledger::state::total_lifetime;
use crate::states::user_position::UserPosition;
use vstd::prelude::*;

verus! {

/// A position appended to the end adds its lifetime total to the sum.
pub proof fn lemma_total_lifetime_push(positions: Seq<UserPosition>, position: UserPosition)
    ensures
        total_lifetime(positions.push(position)) == total_lifetime(positions)
            + position.lifetime_kwh,
{
    assert(positions.push(position).drop_last() =~= positions);
}

/// Replacing one position changes the sum by the difference of the two
/// lifetime totals.
pub proof fn lemma_total_lifetime_update(positions: Seq<UserPosition>, i: int, position: UserPosition)
    requires
        0 <= i < positions.len(),
    ensures
        total_lifetime(positions.update(i, position)) == total_lifetime(positions)
            - positions[i].lifetime_kwh + position.lifetime_kwh,
    decreases positions.len(),
{
    let updated = positions.update(i, position);
    if i == positions.len() - 1 {
        assert(updated.drop_last() =~= positions.drop_last());
    } else {
        assert(updated.drop_last() =~= positions.drop_last().update(i, position));
        lemma_total_lifetime_update(positions.drop_last(), i, position);
    }
}

/// No single lifetime total exceeds the sum of all of them.
pub proof fn lemma_total_lifetime_bounds(positions: Seq<UserPosition>, i: int)
    requires
        0 <= i < positions.len(),
    ensures
        positions[i].lifetime_kwh <= total_lifetime(positions),
    decreases positions.len(),
{
    if i < positions.len() - 1 {
        lemma_total_lifetime_bounds(positions.drop_last(), i);
    }
}

/// The empty ledger is well formed.
pub proof fn lemma_empty_inv()
    ensures
        LedgerState::empty().inv(),
{
}

/// Initializing the pool keeps the ledger well formed.
pub proof fn lemma_initialize_pool_inv(
    state: LedgerState,
    payer: Address,
    authority: Address,
    credit_mint: Address,
)
    requires
        state.inv(),
    ensures
        state.after_initialize_pool(payer, authority, credit_mint).inv(),
{
    let next = state.after_initialize_pool(payer, authority, credit_mint);
    assert forall|i: int| 0 <= i < next.claims.len() implies (#[trigger] next.claims[i]).pending()
        && next.has_position(next.claims[i].user) by {
        let k = state.position_index(state.claims[i].user);
        assert(state.holds_position(k, state.claims[i].user));
        assert(next.holds_position(k, next.claims[i].user));
    }
}

/// Registering a user keeps the ledger well formed.
pub proof fn lemma_register_user_inv(state: LedgerState, owner: Address)
    requires
        state.inv(),
    ensures
        state.after_register_user(owner).inv(),
{
    let next = state.after_register_user(owner);
    if next != state {
        let fresh = UserPosition { owner, accrued_kwh: 0, lifetime_kwh: 0 };
        assert(next.positions == state.positions.push(fresh));
        lemma_total_lifetime_push(state.positions, fresh);
        assert(!state.has_position(owner));
        assert forall|i: int, j: int| 0 <= i < j < next.positions.len() implies next.positions[i].owner
            != next.positions[j].owner by {
            if j == state.positions.len() {
                assert(!state.holds_position(i, owner));
            }
        }
        assert forall|i: int| 0 <= i < next.claims.len() implies (#[trigger] next.claims[i]).pending()
            && next.has_position(next.claims[i].user) by {
            let k = state.position_index(state.claims[i].user);
            assert(state.holds_position(k, state.claims[i].user));
            assert(next.holds_position(k, next.claims[i].user));
        }
    }
}

/// An energy report keeps the ledger well formed.
pub proof fn lemma_energy_report_inv(state: LedgerState, owner: Address, delta_kwh_micro: u64)
    requires
        state.inv(),
    ensures
        state.after_energy_report(owner, delta_kwh_micro).inv(),
{
    let next = state.after_energy_report(owner, delta_kwh_micro);
    if next != state {
        let k = state.position_index(owner);
        assert(state.holds_position(k, owner));
        lemma_total_lifetime_update(state.positions, k, next.positions[k]);
        assert forall|i: int| 0 <= i < next.claims.len() implies (#[trigger] next.claims[i]).pending()
            && next.has_position(next.claims[i].user) by {
            let m = state.position_index(state.claims[i].user);
            assert(state.holds_position(m, state.claims[i].user));
            assert(next.holds_position(m, next.claims[i].user));
        }
    }
}

/// Recording a sale keeps the ledger well formed.
pub proof fn lemma_record_sale_inv(
    state: LedgerState,
    authority: Address,
    kwh_sold_micro: u64,
    revenue_brl_cents: u64,
    fee_bps: u16,
)
    requires
        state.inv(),
    ensures
        state.after_record_sale(authority, kwh_sold_micro, revenue_brl_cents, fee_bps).inv(),
{
    let next = state.after_record_sale(authority, kwh_sold_micro, revenue_brl_cents, fee_bps);
    if next != state {
        assert forall|i: int| 0 <= i < next.claims.len() implies (#[trigger] next.claims[i]).pending()
            && next.has_position(next.claims[i].user) by {
            let m = state.position_index(state.claims[i].user);
            assert(state.holds_position(m, state.claims[i].user));
            assert(next.holds_position(m, next.claims[i].user));
        }
    }
}

/// A redemption keeps the ledger well formed.
pub proof fn lemma_burn_and_mark_inv(
    state: LedgerState,
    owner: Address,
    sale_id: u64,
    kwh_to_burn_micro: u64,
)
    requires
        state.inv(),
    ensures
        state.after_burn_and_mark(owner, sale_id, kwh_to_burn_micro).inv(),
{
    let next = state.after_burn_and_mark(owner, sale_id, kwh_to_burn_micro);
    if next != state {
        let k = state.position_index(owner);
        assert(state.holds_position(k, owner));
        lemma_total_lifetime_update(state.positions, k, next.positions[k]);
        assert(!state.has_claim(owner, sale_id));
        assert forall|i: int, j: int| 0 <= i < j < next.claims.len() implies !(next.claims[i].user
            == next.claims[j].user && next.claims[i].sale_id == next.claims[j].sale_id) by {
            if j == state.claims.len() {
                assert(!state.holds_claim(i, owner, sale_id));
            }
        }
        assert forall|i: int| 0 <= i < next.claims.len() implies (#[trigger] next.claims[i]).pending()
            && next.has_position(next.claims[i].user) by {
            if i < state.claims.len() {
                let m = state.position_index(state.claims[i].user);
                assert(state.holds_position(m, state.claims[i].user));
                assert(next.holds_position(m, next.claims[i].user));
            } else {
                assert(next.holds_position(k, owner));
            }
        }
    }
}

/// Finalizing a sale keeps the ledger well formed.
pub proof fn lemma_finalize_sale_inv(state: LedgerState, authority: Address, sale_id: u64)
    requires
        state.inv(),
    ensures
        state.after_finalize_sale(authority, sale_id).inv(),
{
    let next = state.after_finalize_sale(authority, sale_id);
    if next != state {
        assert forall|i: int| 0 <= i < next.claims.len() implies (#[trigger] next.claims[i]).pending()
            && next.has_position(next.claims[i].user) by {
            let m = state.position_index(state.claims[i].user);
            assert(state.holds_position(m, state.claims[i].user));
            assert(next.holds_position(m, next.claims[i].user));
        }
    }
}

/// Every transition keeps the ledger well formed, whether it is accepted or
/// rejected.
pub proof fn lemma_step_inv(state: LedgerState, instruction: Instruction)
    requires
        state.inv(),
    ensures
        state.step(instruction).inv(),
{
    match instruction {
        Instruction::InitializePool { payer, authority, credit_mint } => {
            lemma_initialize_pool_inv(state, payer, authority, credit_mint);
        },
        Instruction::RegisterUser { owner } => {
            lemma_register_user_inv(state, owner);
        },
        Instruction::EnergyReport { owner, delta_kwh_micro } => {
            lemma_energy_report_inv(state, owner, delta_kwh_micro);
        },
        Instruction::RecordSale { authority, kwh_sold_micro, revenue_brl_cents, fee_bps } => {
            lemma_record_sale_inv(state, authority, kwh_sold_micro, revenue_brl_cents, fee_bps);
        },
        Instruction::BurnAndMark { owner, sale_id, kwh_to_burn_micro } => {
            lemma_burn_and_mark_inv(state, owner, sale_id, kwh_to_burn_micro);
        },
        Instruction::FinalizeSale { authority, sale_id } => {
            lemma_finalize_sale_inv(state, authority, sale_id);
        },
    }
}

/// Any sequence of transitions keeps the ledger well formed.
pub proof fn lemma_run_inv(state: LedgerState, instructions: Seq<Instruction>)
    requires
        state.inv(),
    ensures
        state.run(instructions).inv(),
    decreases instructions.len(),
{
    if instructions.len() > 0 {
        lemma_run_inv(state, instructions.drop_last());
        lemma_step_inv(state.run(instructions.drop_last()), instructions.last());
    }
}

} // verus!
