//! What holds of the vault across its instructions.
use vstd::prelude::*;

use crate::error::VaultError;
use crate::fees::{fee_for, lemma_fee_bounds};
use crate::guessing::{guess_outcome, GuessOutcome};
use crate::instructions::add_supported_token::add_token_outcome;
use crate::instructions::approve_multisig_tx::{approve_fits, approve_outcome};
use crate::instructions::create_multisig_tx::{create_transaction_outcome, first_approvals};
use crate::instructions::deposit::{count_deposit, credit_balance, deposit_fee, deposit_fits, deposit_outcome};
use crate::instructions::execute_multisig_tx::execute_outcome;
use crate::instructions::change_multisig_threshold::change_threshold_outcome;
use crate::instructions::initialize::initialize_outcome;
use crate::instructions::set_multisig_owners::set_owners_outcome;
use crate::instructions::withdraw::{balance_of, count_withdrawal, debit_balance, withdraw_fits, withdraw_outcome};
use crate::instructions::initialize_multisig::initialize_multisig_outcome;
use crate::instructions::withdraw_sol::{lamport_withdrawal_fits, lamport_withdrawal_outcome};
use crate::machine::{after_step, step, VaultOperation};
use crate::pubkey::Pubkey;
use crate::search::{
    approval_count, balance_mints, first_index_of, is_active_token, lemma_approval_count_set,
    lemma_first_index_of, token_mints,
};
use crate::state::{SupportedToken, TokenBalance, TransactionAccount, VaultView};

verus! {

/// The multi-signature authority, where there is one, names no owner twice
/// and needs no more approvals than it has owners.
pub open spec fn multisig_config_ok(v: VaultView) -> bool {
    v.multi_sig matches Some(ms) ==> ms.owners.no_duplicates() && ms.threshold <= ms.owners.len()
}

/// No mint is supported twice and no mint has two balances.
pub open spec fn registry_ok(v: VaultView) -> bool {
    token_mints(v.supported_tokens).no_duplicates() && balance_mints(v.token_balances).no_duplicates()
}

/// Counting a deposit keeps each entry's mint and whether it is active.
proof fn lemma_count_deposit_keeps_mints(tokens: Seq<SupportedToken>, mint: Pubkey, net: u64)
    ensures
        token_mints(count_deposit(tokens, mint, net)) == token_mints(tokens),
        count_deposit(tokens, mint, net).len() == tokens.len(),
        forall|i: int| 0 <= i < tokens.len() ==> #[trigger] count_deposit(tokens, mint, net)[i].is_active == tokens[i].is_active,
{
    lemma_first_index_of(token_mints(tokens), mint);
    assert(token_mints(count_deposit(tokens, mint, net)) =~= token_mints(tokens));
}

/// Counting a withdrawal keeps each entry's mint and whether it is active.
proof fn lemma_count_withdrawal_keeps_mints(tokens: Seq<SupportedToken>, mint: Pubkey, net: u64)
    ensures
        token_mints(count_withdrawal(tokens, mint, net)) == token_mints(tokens),
        count_withdrawal(tokens, mint, net).len() == tokens.len(),
        forall|i: int| 0 <= i < tokens.len() ==> #[trigger] count_withdrawal(tokens, mint, net)[i].is_active == tokens[i].is_active,
{
    lemma_first_index_of(token_mints(tokens), mint);
    assert(token_mints(count_withdrawal(tokens, mint, net)) =~= token_mints(tokens));
}

/// Crediting a balance either keeps the mints or adds the mint, which was
/// missing, at the end; the mint's balance grows by the amount credited.
proof fn lemma_credit_balance(balances: Seq<TokenBalance>, mint: Pubkey, net: u64, now: i64)
    requires
        balance_of(balances, mint) + net <= u64::MAX,
    ensures
        balance_mints(balances).no_duplicates() ==> balance_mints(credit_balance(balances, mint, net, now)).no_duplicates(),
        balance_of(credit_balance(balances, mint, net, now), mint) == balance_of(balances, mint) + net,
{
    let mints = balance_mints(balances);
    let after = credit_balance(balances, mint, net, now);
    lemma_first_index_of(mints, mint);
    match first_index_of(mints, mint) {
        Some(i) => {
            assert(balance_mints(after) =~= mints);
        },
        None => {
            assert(balance_mints(after) =~= mints.push(mint));
            assert(balance_mints(after).drop_last() =~= mints);
            assert(first_index_of(balance_mints(after), mint) == Some(mints.len() as int));
        },
    }
}

/// Debiting a balance keeps the mints; the mint's balance shrinks by the
/// amount debited.
proof fn lemma_debit_balance(balances: Seq<TokenBalance>, mint: Pubkey, net: u64, now: i64)
    requires
        balance_of(balances, mint) >= net,
    ensures
        balance_mints(debit_balance(balances, mint, net, now)) == balance_mints(balances),
        balance_of(debit_balance(balances, mint, net, now), mint) == balance_of(balances, mint) - net,
{
    lemma_first_index_of(balance_mints(balances), mint);
    assert(balance_mints(debit_balance(balances, mint, net, now)) =~= balance_mints(balances));
}

/// Every instruction that succeeds leaves a multi-signature authority that
/// names no owner twice and needs no more approvals than it has owners, if
/// the authority before was so.
pub proof fn lemma_step_keeps_multisig_config(v: VaultView, op: VaultOperation)
    requires
        multisig_config_ok(v),
        step(v, op) is Ok,
    ensures
        multisig_config_ok(step(v, op)->Ok_0),
{
}

/// Every instruction that succeeds leaves the supported tokens with
/// distinct mints and the balances with distinct mints, if they were so.
pub proof fn lemma_step_keeps_registry(v: VaultView, op: VaultOperation)
    requires
        registry_ok(v),
        step(v, op) is Ok,
        op matches VaultOperation::Deposit { mint, amount, now } ==> deposit_fits(v, mint, amount),
        op matches VaultOperation::Withdraw { mint, amount, now } ==> withdraw_fits(v, mint, amount),
    ensures
        registry_ok(step(v, op)->Ok_0),
{
    match op {
        VaultOperation::Deposit { mint, amount, now } => {
            let net = (amount - deposit_fee(v, amount)) as u64;
            lemma_count_deposit_keeps_mints(v.supported_tokens, mint, net);
            lemma_first_index_of(balance_mints(v.token_balances), mint);
            lemma_credit_balance(v.token_balances, mint, net, now);
        },
        VaultOperation::Withdraw { mint, amount, now } => {
            let net = (amount - fee_for(amount, v.fee_config.withdrawal_fee_bps)) as u64;
            lemma_count_withdrawal_keeps_mints(v.supported_tokens, mint, net);
            lemma_debit_balance(v.token_balances, mint, net, now);
        },
        VaultOperation::AddSupportedToken { mint } => {
            let after = step(v, op)->Ok_0;
            assert(token_mints(after.supported_tokens) =~= token_mints(v.supported_tokens).push(mint));
        },
        _ => {},
    }
}

/// What an instruction keeps of the transactions there were: none is
/// removed, none changes what it calls, none loses an approval or its
/// executed mark.
pub open spec fn transactions_kept(before: VaultView, after: VaultView) -> bool {
    &&& before.multi_sig_transactions.len() <= after.multi_sig_transactions.len()
    &&& forall|i: int| 0 <= i < before.multi_sig_transactions.len() ==> {
        let t0 = before.multi_sig_transactions[i];
        let t1 = #[trigger] after.multi_sig_transactions[i];
        &&& t1.multisig == t0.multisig
        &&& t1.program_id == t0.program_id
        &&& t1.accounts == t0.accounts
        &&& t1.data == t0.data
        &&& t1.proposer == t0.proposer
        &&& t1.created_at == t0.created_at
        &&& t0.did_execute ==> t1.did_execute
        &&& t1.signers.len() == t0.signers.len()
        &&& forall|j: int| 0 <= j < t0.signers.len() && t0.signers[j] ==> #[trigger] t1.signers[j]
    }
}

/// No instruction removes a transaction, changes what it calls, takes away
/// an approval or clears its executed mark.
pub proof fn lemma_step_keeps_transactions(v: VaultView, op: VaultOperation)
    requires
        step(v, op) is Ok,
        op matches VaultOperation::ApproveTransaction { approver, transaction_id } ==> approve_fits(v, approver, transaction_id),
    ensures
        transactions_kept(v, step(v, op)->Ok_0),
{
    let after = step(v, op)->Ok_0;
    match op {
        VaultOperation::ApproveTransaction { approver, transaction_id } => {
            lemma_first_index_of(v.multi_sig->0.owners, approver);
            assert forall|i: int| 0 <= i < v.multi_sig_transactions.len() implies {
                let t0 = v.multi_sig_transactions[i];
                let t1 = #[trigger] after.multi_sig_transactions[i];
                forall|j: int| 0 <= j < t0.signers.len() && t0.signers[j] ==> #[trigger] t1.signers[j]
            } by {
                let t0 = v.multi_sig_transactions[i];
                let t1 = after.multi_sig_transactions[i];
                if i == transaction_id {
                    assert forall|j: int| 0 <= j < t0.signers.len() && t0.signers[j] implies #[trigger] t1.signers[j] by {
                    }
                }
            }
        },
        _ => {},
    }
}

/// An approval adds exactly one approval to its transaction.
pub proof fn lemma_approval_adds_one(v: VaultView, approver: Pubkey, transaction_id: u64)
    requires
        approve_fits(v, approver, transaction_id),
        approve_outcome(v, approver, transaction_id) is Ok,
    ensures
        approval_count(approve_outcome(v, approver, transaction_id)->Ok_0.multi_sig_transactions[transaction_id as int].signers)
            == approval_count(v.multi_sig_transactions[transaction_id as int].signers) + 1,
{
    let ms = v.multi_sig->0;
    let owner_index = first_index_of(ms.owners, approver)->0;
    lemma_first_index_of(ms.owners, approver);
    lemma_approval_count_set(v.multi_sig_transactions[transaction_id as int].signers, owner_index);
}

/// A transaction is carried out only with at least the threshold of
/// approvals, only once, and is marked executed afterwards.
pub proof fn lemma_execution_needs_threshold(
    v: VaultView,
    multisig_signer: Pubkey,
    transaction_id: u64,
    expected_signer: Option<Seq<u8>>,
)
    requires
        execute_outcome(v, multisig_signer, transaction_id, expected_signer) is Ok,
    ensures
        approval_count(v.multi_sig_transactions[transaction_id as int].signers) >= v.multi_sig->0.threshold,
        !v.multi_sig_transactions[transaction_id as int].did_execute,
        execute_outcome(v, multisig_signer, transaction_id, expected_signer)->Ok_0.multi_sig_transactions[transaction_id as int].did_execute,
{
}

/// Once carried out, a transaction can be neither carried out again nor
/// approved again.
pub proof fn lemma_executed_transaction_is_closed(
    v: VaultView,
    multisig_signer: Pubkey,
    transaction_id: u64,
    expected_signer: Option<Seq<u8>>,
    other_signer: Pubkey,
    other_expected: Option<Seq<u8>>,
    approver: Pubkey,
)
    requires
        execute_outcome(v, multisig_signer, transaction_id, expected_signer) is Ok,
    ensures
        execute_outcome(
            execute_outcome(v, multisig_signer, transaction_id, expected_signer)->Ok_0,
            other_signer,
            transaction_id,
            other_expected,
        ) == Err::<VaultView, VaultError>(VaultError::TransactionAlreadyExecuted),
        approve_outcome(execute_outcome(v, multisig_signer, transaction_id, expected_signer)->Ok_0, approver, transaction_id) is Err,
{
}

/// A paused vault refuses every movement of funds with `VaultPaused`.
pub proof fn lemma_paused_vault_refuses_movements(v: VaultView, op: VaultOperation)
    requires
        v.paused,
        op is Deposit || op is Withdraw || op is WithdrawSol || op is TransferSol,
    ensures
        step(v, op) == Err::<VaultView, VaultError>(VaultError::VaultPaused),
{
}

/// A deposit splits its amount between the value locked and the fees
/// collected: the two grow by exactly the amount together.
pub proof fn lemma_deposit_accounts_for_amount(v: VaultView, mint: Pubkey, amount: u64, now: i64)
    requires
        deposit_fits(v, mint, amount),
        deposit_outcome(v, mint, amount, now) is Ok,
    ensures
        (deposit_outcome(v, mint, amount, now)->Ok_0.total_value_locked - v.total_value_locked)
            + (deposit_outcome(v, mint, amount, now)->Ok_0.total_fees_collected - v.total_fees_collected) == amount,
{
}

/// A withdrawal takes the amount less its fee off the value locked and adds
/// the fee to the fees collected.
pub proof fn lemma_withdrawal_accounts_for_amount(v: VaultView, mint: Pubkey, amount: u64, now: i64)
    requires
        withdraw_fits(v, mint, amount),
        withdraw_outcome(v, mint, amount, now) is Ok,
    ensures
        v.total_value_locked - withdraw_outcome(v, mint, amount, now)->Ok_0.total_value_locked
            == amount - fee_for(amount, v.fee_config.withdrawal_fee_bps),
        withdraw_outcome(v, mint, amount, now)->Ok_0.total_fees_collected - v.total_fees_collected
            == fee_for(amount, v.fee_config.withdrawal_fee_bps),
{
}

/// Without fees, withdrawing what was just deposited is accepted and gives
/// back the vault's recorded balance of the token and its value locked.
pub proof fn lemma_deposit_then_withdraw(v: VaultView, mint: Pubkey, amount: u64, t1: i64, t2: i64)
    requires
        v.fee_config.deposit_fee_bps == 0,
        v.fee_config.withdrawal_fee_bps == 0,
        deposit_fits(v, mint, amount),
        deposit_outcome(v, mint, amount, t1) is Ok,
        withdraw_fits(deposit_outcome(v, mint, amount, t1)->Ok_0, mint, amount),
    ensures
        ({
            let v1 = deposit_outcome(v, mint, amount, t1)->Ok_0;
            &&& withdraw_outcome(v1, mint, amount, t2) is Ok
            &&& balance_of(withdraw_outcome(v1, mint, amount, t2)->Ok_0.token_balances, mint) == balance_of(v.token_balances, mint)
            &&& withdraw_outcome(v1, mint, amount, t2)->Ok_0.total_value_locked == v.total_value_locked
        }),
{
    let v1 = deposit_outcome(v, mint, amount, t1)->Ok_0;
    lemma_fee_bounds(amount, 0);
    lemma_first_index_of(balance_mints(v.token_balances), mint);
    lemma_credit_balance(v.token_balances, mint, amount, t1);
    lemma_count_deposit_keeps_mints(v.supported_tokens, mint, amount);
    let i = choose|i: int| 0 <= i < v.supported_tokens.len() && v.supported_tokens[i].mint == mint && v.supported_tokens[i].is_active;
    assert(v1.supported_tokens[i].mint == token_mints(v1.supported_tokens)[i]);
    assert(is_active_token(v1.supported_tokens, mint));
    lemma_debit_balance(v1.token_balances, mint, amount, t2);
}

/// A token that the vault has just started to accept can be deposited,
/// unless the vault is paused.
pub proof fn lemma_added_token_accepts_deposits(v: VaultView, mint: Pubkey, amount: u64, now: i64)
    requires
        add_token_outcome(v, mint) is Ok,
        !v.paused,
    ensures
        deposit_outcome(add_token_outcome(v, mint)->Ok_0, mint, amount, now) is Ok,
{
    let v1 = add_token_outcome(v, mint)->Ok_0;
    assert(v1.supported_tokens[v.supported_tokens.len() as int].mint == mint);
}

/// A new vault charges no fees: every deposit reaches the vault whole.
pub proof fn lemma_new_vault_charges_no_fees(
    v: VaultView,
    authority: Pubkey,
    emergency_admin: Pubkey,
    bump: u8,
    amount: u64,
)
    ensures
        deposit_fee(initialize_outcome(v, authority, emergency_admin, bump), amount) == 0,
        fee_for(amount, initialize_outcome(v, authority, emergency_admin, bump).fee_config.withdrawal_fee_bps) == 0,
{
    lemma_fee_bounds(amount, 0);
}

/// The answer is "win" exactly when the guess is the secret, "too small"
/// exactly when it is below it.
pub proof fn lemma_guess_answer(guess: u32, secret: u32)
    ensures
        (guess_outcome(guess, secret) == GuessOutcome::Win) <==> guess == secret,
        (guess_outcome(guess, secret) == GuessOutcome::TooSmall) <==> guess < secret,
        (guess_outcome(guess, secret) == GuessOutcome::TooBig) <==> guess > secret,
{
}

/// Approvals with none given count zero.
proof fn lemma_no_approvals(n: nat, k: int)
    requires
        k < 0 || k >= n,
    ensures
        approval_count(first_approvals(n, k)) == 0,
    decreases n,
{
    if n > 0 {
        assert(first_approvals(n, k).drop_last() =~= first_approvals((n - 1) as nat, k));
        lemma_no_approvals((n - 1) as nat, k);
    }
}

/// The approvals of a new transaction count one.
proof fn lemma_first_approvals_count(n: nat, k: int)
    requires
        0 <= k < n,
    ensures
        approval_count(first_approvals(n, k)) == 1,
    decreases n,
{
    assert(first_approvals(n, k).drop_last() =~= first_approvals((n - 1) as nat, k));
    if k == n - 1 {
        lemma_no_approvals((n - 1) as nat, k);
    } else {
        lemma_first_approvals_count((n - 1) as nat, k);
    }
}

/// A new transaction comes last, so that its number is its position, not
/// executed, with one approval: the proposer's.
pub proof fn lemma_new_transaction_has_proposer_approval(
    v: VaultView,
    vault_key: Pubkey,
    proposer: Pubkey,
    program_id: Pubkey,
    accounts: Seq<TransactionAccount>,
    data: Seq<u8>,
    now: i64,
)
    requires
        create_transaction_outcome(v, vault_key, proposer, program_id, accounts, data, now) is Ok,
    ensures
        ({
            let after = create_transaction_outcome(v, vault_key, proposer, program_id, accounts, data, now)->Ok_0;
            let id = v.multi_sig_transactions.len() as int;
            let ms = v.multi_sig->0;
            &&& after.multi_sig_transactions.len() == id + 1
            &&& !after.multi_sig_transactions[id].did_execute
            &&& after.multi_sig_transactions[id].signers.len() == ms.owners.len()
            &&& approval_count(after.multi_sig_transactions[id].signers) == 1
            &&& after.multi_sig_transactions[id].signers[first_index_of(ms.owners, proposer)->0]
        }),
{
    let ms = v.multi_sig->0;
    lemma_first_index_of(ms.owners, proposer);
    let k = first_index_of(ms.owners, proposer)->0;
    lemma_first_approvals_count(ms.owners.len(), k);
}

/// A multi-signature authority that was just set up, or whose threshold was
/// just changed, needs at least one approval, no more than it has owners,
/// and names no owner twice.
pub proof fn lemma_configured_threshold_is_positive(v: VaultView, op: VaultOperation)
    requires
        op is InitializeMultiSig || (op is ChangeThreshold && multisig_config_ok(v)),
        step(v, op) is Ok,
    ensures
        multisig_config_ok(step(v, op)->Ok_0),
        step(v, op)->Ok_0.multi_sig->0.threshold > 0,
{
}

/// Whether an instruction keeps its arithmetic and its indexing within
/// bounds on the vault; where it would not, it is not carried out.
pub open spec fn step_fits(v: VaultView, op: VaultOperation) -> bool {
    match op {
        VaultOperation::Deposit { mint, amount, now } => deposit_fits(v, mint, amount),
        VaultOperation::Withdraw { mint, amount, now } => withdraw_fits(v, mint, amount),
        VaultOperation::WithdrawSol { vault_lamports, amount } => lamport_withdrawal_fits(v, vault_lamports, amount),
        VaultOperation::TransferSol { vault_lamports, amount } => lamport_withdrawal_fits(v, vault_lamports, amount),
        VaultOperation::ApproveTransaction { approver, transaction_id } => approve_fits(v, approver, transaction_id),
        _ => true,
    }
}

/// The vault after a sequence of instructions, each accepted or refused in
/// turn.
pub open spec fn run(v: VaultView, ops: Seq<VaultOperation>) -> VaultView
    decreases ops.len(),
{
    if ops.len() == 0 {
        v
    } else {
        run(after_step(v, ops[0]), ops.drop_first())
    }
}

/// Whether every instruction of a sequence keeps within bounds where it
/// comes.
pub open spec fn run_fits(v: VaultView, ops: Seq<VaultOperation>) -> bool
    decreases ops.len(),
{
    ops.len() == 0 || (step_fits(v, ops[0]) && run_fits(after_step(v, ops[0]), ops.drop_first()))
}

/// Whether every instruction of a sequence is refused where it comes.
pub open spec fn all_refused(v: VaultView, ops: Seq<VaultOperation>) -> bool
    decreases ops.len(),
{
    ops.len() == 0 || (step(v, ops[0]) is Err && all_refused(v, ops.drop_first()))
}

/// A refused instruction leaves the vault as it was.
pub proof fn lemma_refusal_changes_nothing(v: VaultView, op: VaultOperation)
    requires
        step(v, op) is Err,
    ensures
        after_step(v, op) == v,
{
}

/// A sequence of refused instructions leaves the vault as it was.
pub proof fn lemma_refused_run_changes_nothing(v: VaultView, ops: Seq<VaultOperation>)
    requires
        all_refused(v, ops),
    ensures
        run(v, ops) == v,
    decreases ops.len(),
{
    if ops.len() > 0 {
        lemma_refused_run_changes_nothing(v, ops.drop_first());
    }
}

/// Keeping the transactions is transitive.
proof fn lemma_transactions_kept_transitive(a: VaultView, b: VaultView, c: VaultView)
    requires
        transactions_kept(a, b),
        transactions_kept(b, c),
    ensures
        transactions_kept(a, c),
{
    assert forall|i: int| 0 <= i < a.multi_sig_transactions.len() implies {
        let t0 = a.multi_sig_transactions[i];
        let t1 = #[trigger] c.multi_sig_transactions[i];
        &&& t1.multisig == t0.multisig
        &&& t1.program_id == t0.program_id
        &&& t1.accounts == t0.accounts
        &&& t1.data == t0.data
        &&& t1.proposer == t0.proposer
        &&& t1.created_at == t0.created_at
        &&& t0.did_execute ==> t1.did_execute
        &&& t1.signers.len() == t0.signers.len()
        &&& forall|j: int| 0 <= j < t0.signers.len() && t0.signers[j] ==> #[trigger] t1.signers[j]
    } by {
        let tb = b.multi_sig_transactions[i];
        let t0 = a.multi_sig_transactions[i];
        let t1 = c.multi_sig_transactions[i];
        assert forall|j: int| 0 <= j < t0.signers.len() && t0.signers[j] implies #[trigger] t1.signers[j] by {
            assert(tb.signers[j]);
        }
    }
}

/// One instruction, accepted or refused, keeps the transactions.
proof fn lemma_after_step_keeps_transactions(v: VaultView, op: VaultOperation)
    requires
        step_fits(v, op),
    ensures
        transactions_kept(v, after_step(v, op)),
{
    if step(v, op) is Ok {
        lemma_step_keeps_transactions(v, op);
    }
}

/// Over any sequence of instructions, no transaction is removed, changes
/// what it calls, loses an approval or loses its executed mark.
pub proof fn lemma_run_keeps_transactions(v: VaultView, ops: Seq<VaultOperation>)
    requires
        run_fits(v, ops),
    ensures
        transactions_kept(v, run(v, ops)),
    decreases ops.len(),
{
    if ops.len() > 0 {
        let next = after_step(v, ops[0]);
        lemma_after_step_keeps_transactions(v, ops[0]);
        lemma_run_keeps_transactions(next, ops.drop_first());
        lemma_transactions_kept_transitive(v, next, run(v, ops));
    }
}

/// No instruction removes the multi-signature authority.
pub proof fn lemma_run_keeps_multisig(v: VaultView, ops: Seq<VaultOperation>)
    requires
        v.multi_sig is Some,
    ensures
        run(v, ops).multi_sig is Some,
    decreases ops.len(),
{
    if ops.len() > 0 {
        lemma_run_keeps_multisig(after_step(v, ops[0]), ops.drop_first());
    }
}

/// A transaction that was carried out is never carried out again: after
/// any later sequence of instructions, executing it is refused with
/// `TransactionAlreadyExecuted`, whatever signer is given.
pub proof fn lemma_executed_transaction_stays_closed(
    v: VaultView,
    multisig_signer: Pubkey,
    transaction_id: u64,
    expected_signer: Option<Seq<u8>>,
    ops: Seq<VaultOperation>,
    later_signer: Pubkey,
    later_expected: Option<Seq<u8>>,
)
    requires
        execute_outcome(v, multisig_signer, transaction_id, expected_signer) is Ok,
        run_fits(execute_outcome(v, multisig_signer, transaction_id, expected_signer)->Ok_0, ops),
    ensures
        execute_outcome(
            run(execute_outcome(v, multisig_signer, transaction_id, expected_signer)->Ok_0, ops),
            later_signer,
            transaction_id,
            later_expected,
        ) == Err::<VaultView, VaultError>(VaultError::TransactionAlreadyExecuted),
{
    let v1 = execute_outcome(v, multisig_signer, transaction_id, expected_signer)->Ok_0;
    lemma_run_keeps_transactions(v1, ops);
    lemma_run_keeps_multisig(v1, ops);
    let later = run(v1, ops);
    assert(later.multi_sig_transactions[transaction_id as int].did_execute);
}

/// The sum of the recorded balances.
pub open spec fn total_balance(balances: Seq<TokenBalance>) -> int
    decreases balances.len(),
{
    if balances.len() == 0 {
        0
    } else {
        total_balance(balances.drop_last()) + balances.last().balance
    }
}

/// Replacing one balance changes the sum by the difference.
proof fn lemma_total_balance_update(balances: Seq<TokenBalance>, i: int, b: TokenBalance)
    requires
        0 <= i < balances.len(),
    ensures
        total_balance(balances.update(i, b)) == total_balance(balances) - balances[i].balance + b.balance,
    decreases balances.len(),
{
    let after = balances.update(i, b);
    if i < balances.len() - 1 {
        assert(after.drop_last() =~= balances.drop_last().update(i, b));
        lemma_total_balance_update(balances.drop_last(), i, b);
    } else {
        assert(after.drop_last() =~= balances.drop_last());
    }
}

/// A deposit keeps the value locked equal to the sum of the recorded
/// balances, where it was so.
pub proof fn lemma_deposit_keeps_value_locked_as_balances(v: VaultView, mint: Pubkey, amount: u64, now: i64)
    requires
        deposit_fits(v, mint, amount),
        deposit_outcome(v, mint, amount, now) is Ok,
        v.total_value_locked == total_balance(v.token_balances),
    ensures
        deposit_outcome(v, mint, amount, now)->Ok_0.total_value_locked
            == total_balance(deposit_outcome(v, mint, amount, now)->Ok_0.token_balances),
{
    let net = (amount - deposit_fee(v, amount)) as u64;
    let mints = balance_mints(v.token_balances);
    lemma_first_index_of(mints, mint);
    match first_index_of(mints, mint) {
        Some(i) => {
            let b = v.token_balances[i];
            lemma_total_balance_update(
                v.token_balances,
                i,
                TokenBalance { balance: (b.balance + net) as u64, last_updated: now, ..b },
            );
        },
        None => {
            let pushed = v.token_balances.push(TokenBalance { mint, balance: net, last_updated: now });
            assert(pushed.drop_last() =~= v.token_balances);
        },
    }
}

/// A token withdrawal keeps the value locked equal to the sum of the
/// recorded balances, where it was so.
pub proof fn lemma_withdrawal_keeps_value_locked_as_balances(v: VaultView, mint: Pubkey, amount: u64, now: i64)
    requires
        withdraw_fits(v, mint, amount),
        withdraw_outcome(v, mint, amount, now) is Ok,
        v.total_value_locked == total_balance(v.token_balances),
    ensures
        withdraw_outcome(v, mint, amount, now)->Ok_0.total_value_locked
            == total_balance(withdraw_outcome(v, mint, amount, now)->Ok_0.token_balances),
{
    let fee = fee_for(amount, v.fee_config.withdrawal_fee_bps);
    let net = (amount - fee) as u64;
    let mints = balance_mints(v.token_balances);
    lemma_first_index_of(mints, mint);
    match first_index_of(mints, mint) {
        Some(i) => {
            let b = v.token_balances[i];
            lemma_total_balance_update(
                v.token_balances,
                i,
                TokenBalance { balance: (b.balance - net) as u64, last_updated: now, ..b },
            );
        },
        None => {
            assert(amount == 0);
            assert(fee == 0);
        },
    }
}

/// A transaction that exists, is not yet executed, has at least the
/// threshold of approvals and is given the derived signer address is carried
/// out: execution is accepted, marks exactly that transaction executed and
/// changes nothing else.
pub proof fn lemma_execution_accepted_with_enough_approvals(
    v: VaultView,
    multisig_signer: Pubkey,
    transaction_id: u64,
)
    requires
        v.multi_sig is Some,
        transaction_id < v.multi_sig_transactions.len(),
        !v.multi_sig_transactions[transaction_id as int].did_execute,
        approval_count(v.multi_sig_transactions[transaction_id as int].signers) >= v.multi_sig->0.threshold,
    ensures
        ({
            let r = execute_outcome(v, multisig_signer, transaction_id, Some(multisig_signer.0@));
            let id = transaction_id as int;
            &&& r is Ok
            &&& r->Ok_0.multi_sig_transactions.len() == v.multi_sig_transactions.len()
            &&& r->Ok_0.multi_sig_transactions[id].did_execute
            &&& r->Ok_0.multi_sig_transactions[id].signers == v.multi_sig_transactions[id].signers
            &&& r->Ok_0.multi_sig_transactions[id].program_id == v.multi_sig_transactions[id].program_id
            &&& r->Ok_0.multi_sig_transactions[id].accounts == v.multi_sig_transactions[id].accounts
            &&& r->Ok_0.multi_sig_transactions[id].data == v.multi_sig_transactions[id].data
            &&& forall|i: int| 0 <= i < v.multi_sig_transactions.len() && i != id
                ==> #[trigger] r->Ok_0.multi_sig_transactions[i] == v.multi_sig_transactions[i]
            &&& r->Ok_0.multi_sig == v.multi_sig
            &&& r->Ok_0.token_balances == v.token_balances
            &&& r->Ok_0.supported_tokens == v.supported_tokens
        }),
{
}

/// Execution is refused for want of approvals exactly when the transaction
/// has fewer approvals than the threshold (the earlier checks passing).
pub proof fn lemma_execution_refused_only_below_threshold(
    v: VaultView,
    multisig_signer: Pubkey,
    transaction_id: u64,
    expected_signer: Option<Seq<u8>>,
)
    requires
        v.multi_sig is Some,
        transaction_id < v.multi_sig_transactions.len(),
        !v.multi_sig_transactions[transaction_id as int].did_execute,
    ensures
        (execute_outcome(v, multisig_signer, transaction_id, expected_signer)
            == Err::<VaultView, VaultError>(VaultError::NotEnoughSigners))
        <==> approval_count(v.multi_sig_transactions[transaction_id as int].signers) < v.multi_sig->0.threshold,
{
}

/// Replacing the owners is accepted exactly when there is an authority and
/// the new owners are distinct; then the owners are the new ones, the
/// threshold is the smaller of the old threshold and the new number of
/// owners, and the nonce and bump stay.
pub proof fn lemma_set_owners_keeps_threshold_where_it_fits(v: VaultView, owners: Seq<Pubkey>)
    ensures
        set_owners_outcome(v, owners) is Ok <==> (v.multi_sig is Some && owners.no_duplicates()),
        set_owners_outcome(v, owners) is Ok ==> {
            let old_ms = v.multi_sig->0;
            let ms = set_owners_outcome(v, owners)->Ok_0.multi_sig->0;
            &&& set_owners_outcome(v, owners)->Ok_0.multi_sig is Some
            &&& ms.owners == owners
            &&& ms.threshold <= old_ms.threshold
            &&& ms.threshold <= owners.len()
            &&& (ms.threshold == old_ms.threshold || ms.threshold == owners.len())
            &&& (owners.len() >= old_ms.threshold ==> ms.threshold == old_ms.threshold)
            &&& ms.nonce == old_ms.nonce
            &&& ms.bump == old_ms.bump
            &&& set_owners_outcome(v, owners)->Ok_0.multi_sig_transactions == v.multi_sig_transactions
        },
{
}

/// Changing the threshold is accepted exactly when there is an authority
/// and the new threshold is positive and at most the number of owners; then
/// the stored threshold is the requested one, raised or lowered, and the
/// owners, nonce and bump stay.
pub proof fn lemma_change_threshold_stores_request(v: VaultView, threshold: u64)
    ensures
        change_threshold_outcome(v, threshold) is Ok <==> (v.multi_sig is Some && 0 < threshold
            <= v.multi_sig->0.owners.len()),
        change_threshold_outcome(v, threshold) is Ok ==> {
            let old_ms = v.multi_sig->0;
            let ms = change_threshold_outcome(v, threshold)->Ok_0.multi_sig->0;
            &&& change_threshold_outcome(v, threshold)->Ok_0.multi_sig is Some
            &&& ms.threshold == threshold
            &&& ms.owners == old_ms.owners
            &&& ms.nonce == old_ms.nonce
            &&& ms.bump == old_ms.bump
            &&& change_threshold_outcome(v, threshold)->Ok_0.multi_sig_transactions == v.multi_sig_transactions
        },
{
}

/// An accepted deposit counts the amount after the fee in the deposited
/// total of the entry that holds the deposited mint (the first such entry),
/// and leaves every other entry, and every other field of that entry, as it
/// was.
pub proof fn lemma_deposit_counts_on_deposited_mint(v: VaultView, mint: Pubkey, amount: u64, now: i64)
    requires
        deposit_fits(v, mint, amount),
        deposit_outcome(v, mint, amount, now) is Ok,
    ensures
        ({
            let after = deposit_outcome(v, mint, amount, now)->Ok_0.supported_tokens;
            let net = amount - fee_for(amount, v.fee_config.deposit_fee_bps);
            &&& after.len() == v.supported_tokens.len()
            &&& forall|i: int| 0 <= i < v.supported_tokens.len() ==> {
                let t0 = v.supported_tokens[i];
                let t1 = #[trigger] after[i];
                &&& t1.mint == t0.mint
                &&& t1.bump == t0.bump
                &&& t1.is_active == t0.is_active
                &&& t1.total_withdrawn == t0.total_withdrawn
                &&& t1.total_deposited == t0.total_deposited + if t0.mint == mint && (forall|j: int|
                    0 <= j < i ==> v.supported_tokens[j].mint != mint) {
                    net
                } else {
                    0
                }
            }
        }),
{
    let mints = token_mints(v.supported_tokens);
    lemma_first_index_of(mints, mint);
    let after = deposit_outcome(v, mint, amount, now)->Ok_0.supported_tokens;
    match first_index_of(mints, mint) {
        Some(k) => {
            assert forall|i: int| 0 <= i < v.supported_tokens.len() implies {
                let t0 = v.supported_tokens[i];
                let t1 = #[trigger] after[i];
                t1.total_deposited == t0.total_deposited + if t0.mint == mint && (forall|j: int|
                    0 <= j < i ==> v.supported_tokens[j].mint != mint) {
                    amount - fee_for(amount, v.fee_config.deposit_fee_bps)
                } else {
                    0
                }
            } by {
                let first = v.supported_tokens[i].mint == mint && (forall|j: int|
                    0 <= j < i ==> v.supported_tokens[j].mint != mint);
                if i == k {
                    assert forall|j: int| 0 <= j < i implies v.supported_tokens[j].mint != mint by {
                        assert(mints[j] == v.supported_tokens[j].mint);
                    }
                    assert(first);
                } else if i < k {
                    assert(mints[i] == v.supported_tokens[i].mint);
                    assert(!first);
                } else {
                    assert(mints[k] == v.supported_tokens[k].mint);
                    assert(0 <= k < i && v.supported_tokens[k].mint == mint);
                    assert(!first);
                }
            }
        },
        None => {
            assert forall|i: int| 0 <= i < v.supported_tokens.len() implies v.supported_tokens[i].mint != mint by {
                assert(mints[i] == v.supported_tokens[i].mint);
            }
        },
    }
}

/// An accepted token withdrawal counts the amount after the fee in the
/// withdrawn total of the entry that holds the withdrawn mint (the first
/// such entry), and leaves every other entry, and every other field of that
/// entry, as it was.
pub proof fn lemma_withdrawal_counts_on_withdrawn_mint(v: VaultView, mint: Pubkey, amount: u64, now: i64)
    requires
        withdraw_fits(v, mint, amount),
        withdraw_outcome(v, mint, amount, now) is Ok,
    ensures
        ({
            let after = withdraw_outcome(v, mint, amount, now)->Ok_0.supported_tokens;
            let net = amount - fee_for(amount, v.fee_config.withdrawal_fee_bps);
            &&& after.len() == v.supported_tokens.len()
            &&& forall|i: int| 0 <= i < v.supported_tokens.len() ==> {
                let t0 = v.supported_tokens[i];
                let t1 = #[trigger] after[i];
                &&& t1.mint == t0.mint
                &&& t1.bump == t0.bump
                &&& t1.is_active == t0.is_active
                &&& t1.total_deposited == t0.total_deposited
                &&& t1.total_withdrawn == t0.total_withdrawn + if t0.mint == mint && (forall|j: int|
                    0 <= j < i ==> v.supported_tokens[j].mint != mint) {
                    net
                } else {
                    0
                }
            }
        }),
{
    let mints = token_mints(v.supported_tokens);
    lemma_first_index_of(mints, mint);
    let after = withdraw_outcome(v, mint, amount, now)->Ok_0.supported_tokens;
    match first_index_of(mints, mint) {
        Some(k) => {
            assert forall|i: int| 0 <= i < v.supported_tokens.len() implies {
                let t0 = v.supported_tokens[i];
                let t1 = #[trigger] after[i];
                t1.total_withdrawn == t0.total_withdrawn + if t0.mint == mint && (forall|j: int|
                    0 <= j < i ==> v.supported_tokens[j].mint != mint) {
                    amount - fee_for(amount, v.fee_config.withdrawal_fee_bps)
                } else {
                    0
                }
            } by {
                let first = v.supported_tokens[i].mint == mint && (forall|j: int|
                    0 <= j < i ==> v.supported_tokens[j].mint != mint);
                if i == k {
                    assert forall|j: int| 0 <= j < i implies v.supported_tokens[j].mint != mint by {
                        assert(mints[j] == v.supported_tokens[j].mint);
                    }
                    assert(first);
                } else if i < k {
                    assert(mints[i] == v.supported_tokens[i].mint);
                    assert(!first);
                } else {
                    assert(mints[k] == v.supported_tokens[k].mint);
                    assert(0 <= k < i && v.supported_tokens[k].mint == mint);
                    assert(!first);
                }
            }
        },
        None => {
            assert forall|i: int| 0 <= i < v.supported_tokens.len() implies v.supported_tokens[i].mint != mint by {
                assert(mints[i] == v.supported_tokens[i].mint);
            }
        },
    }
}

/// An accepted deposit credits the amount after the fee to the balance of
/// the deposited mint (the first balance with it) and stamps it with the
/// time; where the vault held no balance of the mint, a balance of exactly
/// that amount is added at the end. Every other balance stays.
pub proof fn lemma_deposit_credits_deposited_mint(v: VaultView, mint: Pubkey, amount: u64, now: i64)
    requires
        deposit_fits(v, mint, amount),
        deposit_outcome(v, mint, amount, now) is Ok,
    ensures
        ({
            let b0 = v.token_balances;
            let b1 = deposit_outcome(v, mint, amount, now)->Ok_0.token_balances;
            let net = amount - fee_for(amount, v.fee_config.deposit_fee_bps);
            &&& (exists|k: int| 0 <= k < b0.len() && b0[k].mint == mint) ==> {
                &&& b1.len() == b0.len()
                &&& forall|i: int| 0 <= i < b0.len() ==> {
                    let first = b0[i].mint == mint && (forall|j: int| 0 <= j < i ==> b0[j].mint != mint);
                    &&& (#[trigger] b1[i]).mint == b0[i].mint
                    &&& b1[i].balance == b0[i].balance + if first { net } else { 0 }
                    &&& b1[i].last_updated == if first { now } else { b0[i].last_updated }
                }
            }
            &&& (forall|k: int| 0 <= k < b0.len() ==> b0[k].mint != mint) ==> {
                &&& b1.len() == b0.len() + 1
                &&& forall|i: int| 0 <= i < b0.len() ==> #[trigger] b1[i] == b0[i]
                &&& b1[b0.len() as int] == (TokenBalance { mint, balance: net as u64, last_updated: now })
            }
        }),
{
    let b0 = v.token_balances;
    let mints = balance_mints(b0);
    lemma_first_index_of(mints, mint);
    let b1 = deposit_outcome(v, mint, amount, now)->Ok_0.token_balances;
    match first_index_of(mints, mint) {
        Some(k) => {
            assert forall|i: int| 0 <= i < b0.len() implies {
                let first = b0[i].mint == mint && (forall|j: int| 0 <= j < i ==> b0[j].mint != mint);
                &&& (#[trigger] b1[i]).mint == b0[i].mint
                &&& b1[i].balance == b0[i].balance + if first { amount - fee_for(amount, v.fee_config.deposit_fee_bps) } else { 0 }
                &&& b1[i].last_updated == if first { now } else { b0[i].last_updated }
            } by {
                let first = b0[i].mint == mint && (forall|j: int| 0 <= j < i ==> b0[j].mint != mint);
                if i == k {
                    assert forall|j: int| 0 <= j < i implies b0[j].mint != mint by {
                        assert(mints[j] == b0[j].mint);
                    }
                    assert(first);
                } else if i < k {
                    assert(mints[i] == b0[i].mint);
                    assert(!first);
                } else {
                    assert(mints[k] == b0[k].mint);
                    assert(0 <= k < i && b0[k].mint == mint);
                    assert(!first);
                }
            }
        },
        None => {
            assert forall|i: int| 0 <= i < b0.len() implies b0[i].mint != mint by {
                assert(mints[i] == b0[i].mint);
            }
        },
    }
}

/// An accepted token withdrawal takes the amount after the fee off the
/// balance of the withdrawn mint (the first balance with it) and stamps it
/// with the time. Every other balance stays, and no balance is added.
pub proof fn lemma_withdrawal_debits_withdrawn_mint(v: VaultView, mint: Pubkey, amount: u64, now: i64)
    requires
        withdraw_fits(v, mint, amount),
        withdraw_outcome(v, mint, amount, now) is Ok,
    ensures
        ({
            let b0 = v.token_balances;
            let b1 = withdraw_outcome(v, mint, amount, now)->Ok_0.token_balances;
            let net = amount - fee_for(amount, v.fee_config.withdrawal_fee_bps);
            &&& b1.len() == b0.len()
            &&& forall|i: int| 0 <= i < b0.len() ==> {
                let first = b0[i].mint == mint && (forall|j: int| 0 <= j < i ==> b0[j].mint != mint);
                &&& (#[trigger] b1[i]).mint == b0[i].mint
                &&& b1[i].balance == b0[i].balance - if first { net } else { 0 }
                &&& b1[i].last_updated == if first { now } else { b0[i].last_updated }
            }
        }),
{
    let b0 = v.token_balances;
    let mints = balance_mints(b0);
    lemma_first_index_of(mints, mint);
    let b1 = withdraw_outcome(v, mint, amount, now)->Ok_0.token_balances;
    match first_index_of(mints, mint) {
        Some(k) => {
            assert forall|i: int| 0 <= i < b0.len() implies {
                let first = b0[i].mint == mint && (forall|j: int| 0 <= j < i ==> b0[j].mint != mint);
                &&& (#[trigger] b1[i]).mint == b0[i].mint
                &&& b1[i].balance == b0[i].balance - if first { amount - fee_for(amount, v.fee_config.withdrawal_fee_bps) } else { 0 }
                &&& b1[i].last_updated == if first { now } else { b0[i].last_updated }
            } by {
                let first = b0[i].mint == mint && (forall|j: int| 0 <= j < i ==> b0[j].mint != mint);
                if i == k {
                    assert forall|j: int| 0 <= j < i implies b0[j].mint != mint by {
                        assert(mints[j] == b0[j].mint);
                    }
                    assert(first);
                } else if i < k {
                    assert(mints[i] == b0[i].mint);
                    assert(!first);
                } else {
                    assert(mints[k] == b0[k].mint);
                    assert(0 <= k < i && b0[k].mint == mint);
                    assert(!first);
                }
            }
        },
        None => {
            assert forall|i: int| 0 <= i < b0.len() implies b0[i].mint != mint by {
                assert(mints[i] == b0[i].mint);
            }
        },
    }
}

/// An accepted approval gives exactly the approval at the approver's first
/// position among the owners, on exactly the transaction named; every other
/// approval and every other transaction stays.
pub proof fn lemma_approval_marks_approver(v: VaultView, approver: Pubkey, transaction_id: u64)
    requires
        approve_fits(v, approver, transaction_id),
        approve_outcome(v, approver, transaction_id) is Ok,
    ensures
        ({
            let after = approve_outcome(v, approver, transaction_id)->Ok_0;
            let id = transaction_id as int;
            let owners = v.multi_sig->0.owners;
            let s0 = v.multi_sig_transactions[id].signers;
            let s1 = after.multi_sig_transactions[id].signers;
            &&& id < v.multi_sig_transactions.len()
            &&& owners.contains(approver)
            &&& after.multi_sig == v.multi_sig
            &&& after.multi_sig_transactions.len() == v.multi_sig_transactions.len()
            &&& forall|i: int| 0 <= i < v.multi_sig_transactions.len() && i != id
                ==> #[trigger] after.multi_sig_transactions[i] == v.multi_sig_transactions[i]
            &&& after.multi_sig_transactions[id].did_execute == v.multi_sig_transactions[id].did_execute
            &&& after.multi_sig_transactions[id].program_id == v.multi_sig_transactions[id].program_id
            &&& s1.len() == s0.len()
            &&& forall|j: int| 0 <= j < s0.len() ==> #[trigger] s1[j] == (s0[j] || (owners[j] == approver
                && forall|k: int| 0 <= k < j ==> owners[k] != approver))
        }),
{
    let ms = v.multi_sig->0;
    let owners = ms.owners;
    lemma_first_index_of(owners, approver);
    let oi = first_index_of(owners, approver)->0;
    let id = transaction_id as int;
    let after = approve_outcome(v, approver, transaction_id)->Ok_0;
    let s0 = v.multi_sig_transactions[id].signers;
    let s1 = after.multi_sig_transactions[id].signers;
    assert(owners[oi] == approver);
    assert forall|j: int| 0 <= j < s0.len() implies #[trigger] s1[j] == (s0[j] || (owners[j] == approver
        && forall|k: int| 0 <= k < j ==> owners[k] != approver)) by {
        let first = owners[j] == approver && forall|k: int| 0 <= k < j ==> owners[k] != approver;
        if j == oi {
            assert(first);
        } else if j < oi {
            assert(!first);
        } else {
            assert(0 <= oi < j && owners[oi] == approver);
            assert(!first);
        }
    }
}

/// A new transaction is accepted exactly when there is an authority, the
/// proposer is one of its owners and at least one account is given. It is
/// added last and holds what was proposed, approved by the proposer's first
/// position alone; every earlier transaction and the authority stay.
pub proof fn lemma_new_transaction_holds_proposal(
    v: VaultView,
    vault_key: Pubkey,
    proposer: Pubkey,
    program_id: Pubkey,
    accounts: Seq<TransactionAccount>,
    data: Seq<u8>,
    now: i64,
)
    ensures
        create_transaction_outcome(v, vault_key, proposer, program_id, accounts, data, now) is Ok
            <==> (v.multi_sig is Some && v.multi_sig->0.owners.contains(proposer) && accounts.len() > 0),
        create_transaction_outcome(v, vault_key, proposer, program_id, accounts, data, now) is Ok ==> {
            let after = create_transaction_outcome(v, vault_key, proposer, program_id, accounts, data, now)->Ok_0;
            let id = v.multi_sig_transactions.len() as int;
            let owners = v.multi_sig->0.owners;
            let t = after.multi_sig_transactions[id];
            &&& after.multi_sig_transactions.len() == id + 1
            &&& forall|i: int| 0 <= i < id ==> #[trigger] after.multi_sig_transactions[i] == v.multi_sig_transactions[i]
            &&& after.multi_sig == v.multi_sig
            &&& t.multisig == vault_key
            &&& t.program_id == program_id
            &&& t.accounts == accounts
            &&& t.data == data
            &&& t.proposer == proposer
            &&& t.created_at == now
            &&& !t.did_execute
            &&& t.signers.len() == owners.len()
            &&& forall|j: int| 0 <= j < owners.len() ==> #[trigger] t.signers[j] == (owners[j] == proposer
                && forall|k: int| 0 <= k < j ==> owners[k] != proposer)
        },
{
    if v.multi_sig is Some {
        let owners = v.multi_sig->0.owners;
        lemma_first_index_of(owners, proposer);
        if create_transaction_outcome(v, vault_key, proposer, program_id, accounts, data, now) is Ok {
            let oi = first_index_of(owners, proposer)->0;
            let t = create_transaction_outcome(v, vault_key, proposer, program_id, accounts, data, now)->Ok_0.multi_sig_transactions[v.multi_sig_transactions.len() as int];
            assert forall|j: int| 0 <= j < owners.len() implies #[trigger] t.signers[j] == (owners[j] == proposer
                && forall|k: int| 0 <= k < j ==> owners[k] != proposer) by {
                let first = owners[j] == proposer && forall|k: int| 0 <= k < j ==> owners[k] != proposer;
                if j == oi {
                    assert(first);
                } else if j < oi {
                    assert(!first);
                } else {
                    assert(0 <= oi < j && owners[oi] == proposer);
                    assert(!first);
                }
            }
        }
    }
}

/// A token is added exactly when no entry holds its mint yet; the new entry
/// comes last, active, with zero totals, and every earlier entry stays.
pub proof fn lemma_added_token_entry(v: VaultView, mint: Pubkey)
    ensures
        add_token_outcome(v, mint) is Ok <==> (forall|i: int| 0 <= i < v.supported_tokens.len() ==> v.supported_tokens[i].mint != mint),
        add_token_outcome(v, mint) is Ok ==> {
            let t = add_token_outcome(v, mint)->Ok_0.supported_tokens;
            &&& t.len() == v.supported_tokens.len() + 1
            &&& forall|i: int| 0 <= i < v.supported_tokens.len() ==> #[trigger] t[i] == v.supported_tokens[i]
            &&& t[v.supported_tokens.len() as int].mint == mint
            &&& t[v.supported_tokens.len() as int].is_active
            &&& t[v.supported_tokens.len() as int].total_deposited == 0
            &&& t[v.supported_tokens.len() as int].total_withdrawn == 0
        },
{
    let mints = token_mints(v.supported_tokens);
    if mints.contains(mint) {
        let k = choose|k: int| 0 <= k < mints.len() && mints[k] == mint;
        assert(v.supported_tokens[k].mint == mint);
    } else {
        assert forall|i: int| 0 <= i < v.supported_tokens.len() implies v.supported_tokens[i].mint != mint by {
            assert(mints[i] == v.supported_tokens[i].mint);
        }
    }
}

/// Setting up the multi-signature authority is accepted exactly when the
/// threshold is positive and at most the number of owners and no owner is
/// named twice; the authority then holds exactly the given owners,
/// threshold and nonce, and the transactions stay.
pub proof fn lemma_multisig_setup_holds_request(v: VaultView, owners: Seq<Pubkey>, threshold: u64, nonce: u8)
    ensures
        initialize_multisig_outcome(v, owners, threshold, nonce) is Ok <==> (0 < threshold <= owners.len()
            && owners.no_duplicates()),
        initialize_multisig_outcome(v, owners, threshold, nonce) is Ok ==> {
            let after = initialize_multisig_outcome(v, owners, threshold, nonce)->Ok_0;
            &&& after.multi_sig is Some
            &&& after.multi_sig->0.owners == owners
            &&& after.multi_sig->0.threshold == threshold
            &&& after.multi_sig->0.nonce == nonce
            &&& after.multi_sig_transactions == v.multi_sig_transactions
        },
{
}

/// A lamport withdrawal is accepted exactly when the vault is not paused
/// and the account holds the amount; it then takes the amount after the fee
/// off the value locked, stopping at zero, adds the fee to the fees
/// collected, and changes no token record.
pub proof fn lemma_lamport_withdrawal_accounting(v: VaultView, vault_lamports: u64, amount: u64)
    ensures
        lamport_withdrawal_outcome(v, vault_lamports, amount) is Ok <==> (!v.paused && vault_lamports >= amount),
        lamport_withdrawal_outcome(v, vault_lamports, amount) is Ok && lamport_withdrawal_fits(v, vault_lamports, amount) ==> {
            let after = lamport_withdrawal_outcome(v, vault_lamports, amount)->Ok_0;
            let fee = fee_for(amount, v.fee_config.withdrawal_fee_bps);
            let net = amount - fee;
            &&& after.total_value_locked == if v.total_value_locked >= net { v.total_value_locked - net } else { 0 }
            &&& after.total_fees_collected == v.total_fees_collected + fee
            &&& after.token_balances == v.token_balances
            &&& after.supported_tokens == v.supported_tokens
            &&& after.multi_sig == v.multi_sig
        },
{
}

} // verus!
