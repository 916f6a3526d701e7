use crate::address::Address;
use crate::instructions::burn_and_mark;
use crate::instructions::energy_report;
use crate::instructions::register_user;
use crate::ledger::state::LedgerState;
use crate::ledger::state::claim_in;
use crate::ledger::state::claimed;
use crate::ledger::state::claims_slot;
use crate::ledger::state::distinct_claims;
use crate::ledger::state::distinct_owners;
use crate::ledger::state::owns_slot;
use crate::ledger::state::position_in;
use crate::ledger::state::registered;
use crate::ledger::state::slot_of_owner;
use crate::states::user_claim::UserClaim;
use crate::states::user_position::UserPosition;
use vstd::prelude::*;

verus! {

/// Among positions with distinct owners, the slot that holds an owner's
/// position is the one place where that owner is found.
pub proof fn lemma_owner_slot(positions: Seq<UserPosition>, i: int, owner: Address)
    requires
        distinct_owners(positions),
        owns_slot(positions, i, owner),
    ensures
        registered(positions, owner),
        slot_of_owner(positions, owner) == i,
        position_in(positions, owner) == Some(positions[i]),
{
    let j = slot_of_owner(positions, owner);
    assert(owns_slot(positions, j, owner));
    if i < j {
        assert(positions[i].owner != positions[j].owner);
    } else if j < i {
        assert(positions[j].owner != positions[i].owner);
    }
}

/// Among distinct claims, the slot that holds the claim of a user on a sale
/// is the one place where that claim is found.
pub proof fn lemma_claims_slot(claims: Seq<UserClaim>, i: int, user: Address, sale_id: u64)
    requires
        distinct_claims(claims),
        claims_slot(claims, i, user, sale_id),
    ensures
        claimed(claims, user, sale_id),
        claim_in(claims, user, sale_id) == Some(claims[i]),
{
    let j = choose|j: int| claims_slot(claims, j, user, sale_id);
    assert(claims_slot(claims, j, user, sale_id));
    if i < j {
        assert(!(claims[i].user == claims[j].user && claims[i].sale_id == claims[j].sale_id));
    } else if j < i {
        assert(!(claims[j].user == claims[i].user && claims[j].sale_id == claims[i].sale_id));
    }
}

/// Appending the position of an owner who had none: that owner now finds
/// it, and every other owner finds what they found before.
pub proof fn lemma_position_in_push(positions: Seq<UserPosition>, position: UserPosition, other: Address)
    requires
        distinct_owners(positions),
        !registered(positions, position.owner),
    ensures
        distinct_owners(positions.push(position)),
        position_in(positions.push(position), other) == if other == position.owner {
            Some(position)
        } else {
            position_in(positions, other)
        },
{
    let pushed = positions.push(position);
    assert forall|i: int, j: int| 0 <= i < j < pushed.len() implies pushed[i].owner
        != pushed[j].owner by {
        if j == positions.len() {
            assert(!owns_slot(positions, i, position.owner));
        }
    }
    if other == position.owner {
        assert(owns_slot(pushed, positions.len() as int, other));
        lemma_owner_slot(pushed, positions.len() as int, other);
    } else if registered(positions, other) {
        let k = slot_of_owner(positions, other);
        assert(owns_slot(positions, k, other));
        assert(owns_slot(pushed, k, other));
        lemma_owner_slot(pushed, k, other);
    } else {
        if registered(pushed, other) {
            let k = slot_of_owner(pushed, other);
            assert(owns_slot(pushed, k, other));
            assert(owns_slot(positions, k, other));
        }
    }
}

/// Overwriting a position with one of the same owner: that owner now finds
/// the new one, and every other owner finds what they found before.
pub proof fn lemma_position_in_update(positions: Seq<UserPosition>, i: int, position: UserPosition, other: Address)
    requires
        distinct_owners(positions),
        owns_slot(positions, i, position.owner),
    ensures
        distinct_owners(positions.update(i, position)),
        position_in(positions.update(i, position), other) == if other == position.owner {
            Some(position)
        } else {
            position_in(positions, other)
        },
{
    let updated = positions.update(i, position);
    assert forall|a: int, b: int| 0 <= a < b < updated.len() implies updated[a].owner
        != updated[b].owner by {
        assert(positions[a].owner != positions[b].owner);
    }
    if other == position.owner {
        assert(owns_slot(updated, i, other));
        lemma_owner_slot(updated, i, other);
    } else if registered(positions, other) {
        let k = slot_of_owner(positions, other);
        assert(owns_slot(positions, k, other));
        assert(owns_slot(updated, k, other));
        lemma_owner_slot(updated, k, other);
    } else {
        if registered(updated, other) {
            let k = slot_of_owner(updated, other);
            assert(owns_slot(updated, k, other));
            assert(owns_slot(positions, k, other));
        }
    }
}

/// Appending a claim that was not there: its user and sale now find it, and
/// every other pair finds what it found before.
pub proof fn lemma_claim_in_push(claims: Seq<UserClaim>, claim: UserClaim, user: Address, sale_id: u64)
    requires
        distinct_claims(claims),
        !claimed(claims, claim.user, claim.sale_id),
    ensures
        distinct_claims(claims.push(claim)),
        claim_in(claims.push(claim), user, sale_id) == if user == claim.user && sale_id
            == claim.sale_id {
            Some(claim)
        } else {
            claim_in(claims, user, sale_id)
        },
{
    let pushed = claims.push(claim);
    assert forall|i: int, j: int| 0 <= i < j < pushed.len() implies !(pushed[i].user
        == pushed[j].user && pushed[i].sale_id == pushed[j].sale_id) by {
        if j == claims.len() {
            assert(!claims_slot(claims, i, claim.user, claim.sale_id));
        }
    }
    if user == claim.user && sale_id == claim.sale_id {
        assert(claims_slot(pushed, claims.len() as int, user, sale_id));
        lemma_claims_slot(pushed, claims.len() as int, user, sale_id);
    } else if claimed(claims, user, sale_id) {
        let k = choose|k: int| claims_slot(claims, k, user, sale_id);
        assert(claims_slot(claims, k, user, sale_id));
        assert(claims_slot(pushed, k, user, sale_id));
        lemma_claims_slot(pushed, k, user, sale_id);
    } else {
        if claimed(pushed, user, sale_id) {
            let k = choose|k: int| claims_slot(pushed, k, user, sale_id);
            assert(claims_slot(pushed, k, user, sale_id));
            assert(claims_slot(claims, k, user, sale_id));
        }
    }
}

/// In a well-formed ledger, the slot that an owner names is the one place
/// where that owner's position is stored.
pub proof fn lemma_position_slot(state: LedgerState, i: int, owner: Address)
    requires
        state.inv(),
        state.holds_position(i, owner),
    ensures
        state.has_position(owner),
        state.position_index(owner) == i,
        state.position_of(owner) == Some(state.positions[i]),
{
    lemma_owner_slot(state.positions, i, owner);
}

/// In a well-formed ledger, the slot that a user and a sale name is the one
/// place where that claim is stored.
pub proof fn lemma_claim_slot(state: LedgerState, i: int, user: Address, sale_id: u64)
    requires
        state.inv(),
        state.holds_claim(i, user, sale_id),
    ensures
        state.has_claim(user, sale_id),
        state.claim_of(user, sale_id) == Some(state.claims[i]),
{
    lemma_claims_slot(state.claims, i, user, sale_id);
}

/// After a registration is attempted, the caller's slot holds what the
/// handler left in it, and every other position slot holds what it held.
pub proof fn lemma_register_user_slots(state: LedgerState, owner: Address, other: Address)
    requires
        state.inv(),
    ensures
        state.after_register_user(owner).position_of(other) == if other == owner {
            register_user::after(state.register_user_accounts(owner)).user_position
        } else {
            state.position_of(other)
        },
{
    let accounts = state.register_user_accounts(owner);
    if register_user::rejection(accounts) is None {
        lemma_position_in_push(
            state.positions,
            register_user::applied(accounts).user_position->0,
            other,
        );
    }
}

/// After an energy report is attempted, the caller's slot holds what the
/// handler left in it, and every other position slot holds what it held.
pub proof fn lemma_energy_report_slots(state: LedgerState, owner: Address, delta_kwh_micro: u64, other: Address)
    requires
        state.inv(),
    ensures
        state.after_energy_report(owner, delta_kwh_micro).position_of(other) == if other == owner {
            energy_report::after(state.energy_report_accounts(owner), delta_kwh_micro).user_position
        } else {
            state.position_of(other)
        },
{
    let accounts = state.energy_report_accounts(owner);
    if energy_report::rejection(accounts, delta_kwh_micro) is None {
        let k = state.position_index(owner);
        assert(state.holds_position(k, owner));
        lemma_position_in_update(
            state.positions,
            k,
            energy_report::applied(accounts, delta_kwh_micro).user_position->0,
            other,
        );
    }
}

/// After a redemption is attempted, the caller's position slot and the
/// claim slot hold what the handler left in them, and every other position
/// and claim slot holds what it held.
pub proof fn lemma_burn_and_mark_slots(
    state: LedgerState,
    owner: Address,
    sale_id: u64,
    kwh_to_burn_micro: u64,
    other: Address,
    other_sale_id: u64,
)
    requires
        state.inv(),
    ensures
        state.after_burn_and_mark(owner, sale_id, kwh_to_burn_micro).position_of(other) == if other
            == owner {
            burn_and_mark::after(
                state.burn_and_mark_accounts(owner, sale_id),
                sale_id,
                kwh_to_burn_micro,
            ).user_position
        } else {
            state.position_of(other)
        },
        state.after_burn_and_mark(owner, sale_id, kwh_to_burn_micro).claim_of(other, other_sale_id)
            == if other == owner && other_sale_id == sale_id {
            burn_and_mark::after(
                state.burn_and_mark_accounts(owner, sale_id),
                sale_id,
                kwh_to_burn_micro,
            ).user_claim
        } else {
            state.claim_of(other, other_sale_id)
        },
{
    let accounts = state.burn_and_mark_accounts(owner, sale_id);
    if burn_and_mark::rejection(accounts, sale_id, kwh_to_burn_micro) is None {
        let done = burn_and_mark::applied(accounts, sale_id, kwh_to_burn_micro);
        let k = state.position_index(owner);
        assert(state.holds_position(k, owner));
        lemma_position_in_update(state.positions, k, done.user_position->0, other);
        lemma_claim_in_push(state.claims, done.user_claim->0, other, other_sale_id);
    }
}

} // verus!
