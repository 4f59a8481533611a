//! Conservation of the funds in custody over a run of deposits and
//! disbursements.

use vstd::prelude::*;
use crate::accounts::{AllocateFunds, FundAccount, StoreFunds};
use crate::errors::TransferError;

verus! {

/// One deposit or disbursement that went through.
pub enum Movement {
    /// `store_funds` of this amount.
    Deposit(u64),
    /// `allocate_funds` of this amount.
    Disbursement(u64),
}

impl Movement {
    /// What the movement adds to the funds in custody.
    pub open spec fn delta(self) -> int {
        match self {
            Movement::Deposit(amount) => amount as int,
            Movement::Disbursement(amount) => -(amount as int),
        }
    }

    /// Whether the ledger lets this movement go through.
    pub open spec fn allowed(self, ledger: FundAccount) -> bool {
        match self {
            Movement::Deposit(amount) => ledger.can_hold(amount),
            Movement::Disbursement(amount) => amount <= ledger.total_funds,
        }
    }

    /// The ledger after this movement went through.
    pub open spec fn apply(self, ledger: FundAccount) -> FundAccount {
        match self {
            Movement::Deposit(amount) => ledger.credited(amount),
            Movement::Disbursement(amount) => ledger.debited(amount),
        }
    }
}

/// The sum of the amounts deposited in `moves`.
pub open spec fn deposited(moves: Seq<Movement>) -> int
    decreases moves.len(),
{
    if moves.len() == 0 {
        0
    } else {
        deposited(moves.drop_last()) + match moves.last() {
            Movement::Deposit(amount) => amount as int,
            Movement::Disbursement(_) => 0,
        }
    }
}

/// The sum of the amounts disbursed in `moves`.
pub open spec fn disbursed(moves: Seq<Movement>) -> int
    decreases moves.len(),
{
    if moves.len() == 0 {
        0
    } else {
        disbursed(moves.drop_last()) + match moves.last() {
            Movement::Deposit(_) => 0,
            Movement::Disbursement(amount) => amount as int,
        }
    }
}

/// `ledgers` are the states of one ledger along `moves`: each movement was
/// allowed in the state before it and gave the state after it.
pub open spec fn successful_run(ledgers: Seq<FundAccount>, moves: Seq<Movement>) -> bool {
    &&& ledgers.len() == moves.len() + 1
    &&& forall|i: int|
        0 <= i < moves.len() ==> (#[trigger] moves[i]).allowed(ledgers[i]) && ledgers[i + 1]
            == moves[i].apply(ledgers[i])
}

/// `balances` are what the escrow's custody account held along `moves`: the
/// custody moved each amount in or out, whole.
pub open spec fn custody_follows(balances: Seq<int>, moves: Seq<Movement>) -> bool {
    &&& balances.len() == moves.len() + 1
    &&& forall|i: int|
        0 <= i < moves.len() ==> balances[i + 1] == balances[i] + (#[trigger] moves[i]).delta()
}

/// A `store_funds` that succeeds is a deposit: the ledger allowed it and
/// moved as a deposit moves it.
pub proof fn lemma_store_funds_is_deposit(ctx: StoreFunds, amount: u64, outcome: Result<(), TransferError>)
    requires
        ctx.result(amount, outcome) is Ok,
    ensures
        outcome is Ok,
        Movement::Deposit(amount).allowed(ctx.fund_account),
        ctx.credited(amount).fund_account == Movement::Deposit(amount).apply(ctx.fund_account),
{
}

/// An `allocate_funds` that succeeds is a disbursement: the ledger allowed
/// it and moved as a disbursement moves it.
pub proof fn lemma_allocate_funds_is_disbursement(ctx: AllocateFunds, amount: u64, outcome: Result<(), TransferError>)
    requires
        ctx.result(amount, outcome) is Ok,
    ensures
        outcome is Ok,
        Movement::Disbursement(amount).allowed(ctx.fund_account),
        ctx.debited(amount).fund_account == Movement::Disbursement(amount).apply(ctx.fund_account),
{
}

/// After any run of successful deposits and disbursements the counter has
/// grown by what was deposited less what was disbursed.
pub proof fn lemma_conservation(ledgers: Seq<FundAccount>, moves: Seq<Movement>)
    requires
        successful_run(ledgers, moves),
    ensures
        ledgers.last().total_funds == ledgers[0].total_funds + deposited(moves) - disbursed(moves),
        ledgers.last().admin == ledgers[0].admin,
        ledgers.last().bump == ledgers[0].bump,
        ledgers.last().whitelist_count == ledgers[0].whitelist_count,
    decreases moves.len(),
{
    if moves.len() > 0 {
        let n = moves.len() as int;
        let before = ledgers.drop_last();
        let earlier = moves.drop_last();
        assert(successful_run(before, earlier)) by {
            assert forall|i: int| 0 <= i < earlier.len() implies (#[trigger] earlier[i]).allowed(
                before[i],
            ) && before[i + 1] == earlier[i].apply(before[i]) by {
                assert(moves[i].allowed(ledgers[i]));
            }
        }
        lemma_conservation(before, earlier);
        assert(moves[n - 1].allowed(ledgers[n - 1]));
    }
}

/// A ledger created by `initialize` holds, after any run of successful
/// deposits and disbursements, what was deposited less what was disbursed.
pub proof fn lemma_conservation_from_creation(ledgers: Seq<FundAccount>, moves: Seq<Movement>)
    requires
        successful_run(ledgers, moves),
        ledgers[0].total_funds == 0,
    ensures
        ledgers.last().total_funds == deposited(moves) - disbursed(moves),
{
    lemma_conservation(ledgers, moves);
}

/// While the custody makes exactly the transfers of the successful deposits
/// and disbursements, the counter and the balance of the escrow's custody
/// account stay equal.
pub proof fn lemma_counter_matches_custody(ledgers: Seq<FundAccount>, balances: Seq<int>, moves: Seq<Movement>)
    requires
        successful_run(ledgers, moves),
        custody_follows(balances, moves),
        balances[0] == ledgers[0].total_funds,
    ensures
        balances.last() == ledgers.last().total_funds,
        forall|i: int| 0 <= i <= moves.len() ==> balances[i] == ledgers[i].total_funds,
{
    lemma_counter_matches_custody_up_to(ledgers, balances, moves, moves.len() as int);
}

proof fn lemma_counter_matches_custody_up_to(ledgers: Seq<FundAccount>, balances: Seq<int>, moves: Seq<Movement>, k: int)
    requires
        successful_run(ledgers, moves),
        custody_follows(balances, moves),
        balances[0] == ledgers[0].total_funds,
        0 <= k <= moves.len(),
    ensures
        forall|i: int| 0 <= i <= k ==> balances[i] == ledgers[i].total_funds,
    decreases k,
{
    if k > 0 {
        lemma_counter_matches_custody_up_to(ledgers, balances, moves, k - 1);
        assert(moves[k - 1].allowed(ledgers[k - 1]));
    }
}

} // verus!
