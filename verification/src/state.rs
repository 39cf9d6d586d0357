//! The vault account and the records it holds, with their views.
use vstd::prelude::*;

use crate::pubkey::Pubkey;

verus! {

/// How a voter voted on a governance proposal.
#[derive(Clone, Copy, Debug, PartialEq, Eq, Structural)]
pub enum VoteType {
    For,
    Against,
    Abstain,
}

/// The bytes of one governance instruction.
pub type GovernanceInstruction = Vec<u8>;

/// The fees charged on deposits and withdrawals, in basis points.
#[derive(Clone, Copy, Debug, PartialEq, Eq, Default)]
pub struct FeeConfig {
    pub deposit_fee_bps: u16,
    pub withdrawal_fee_bps: u16,
    pub fee_recipient: Pubkey,
}

/// A token mint that the vault accepts, with its running totals.
#[derive(Clone, Copy, Debug, PartialEq, Eq, Default)]
pub struct SupportedToken {
    pub mint: Pubkey,
    pub bump: u8,
    pub total_deposited: u64,
    pub total_withdrawn: u64,
    pub is_active: bool,
}

/// The amount of one token that the vault holds.
#[derive(Clone, Copy, Debug, PartialEq, Eq, Default)]
pub struct TokenBalance {
    pub mint: Pubkey,
    pub balance: u64,
    pub last_updated: i64,
}

/// A vesting schedule.
#[derive(Clone, Copy, Debug, PartialEq, Eq, Default)]
pub struct TimeLock {
    pub beneficiary: Pubkey,
    pub amount: u64,
    pub start_time: i64,
    pub duration: i64,
    pub cliff_duration: Option<i64>,
    pub is_linear: bool,
    pub claimed_amount: u64,
    pub end_time: i64,
    pub cliff_time: i64,
    pub released_amount: u64,
}

/// A proposal of the authority's own queue.
#[derive(Clone, Debug, PartialEq, Eq, Default)]
pub struct Proposal {
    pub id: u64,
    pub instruction_data: Vec<u8>,
    pub approvals: Vec<Pubkey>,
    pub executed: bool,
    pub created_at: i64,
    pub proposer: Pubkey,
}

/// A proposal that token holders vote on.
#[derive(Clone, Debug, PartialEq, Eq, Default)]
pub struct GovernanceProposal {
    pub id: u64,
    pub proposer: Pubkey,
    pub title: String,
    pub description: String,
    pub instructions: Vec<Vec<u8>>,
    pub for_votes: u64,
    pub against_votes: u64,
    pub abstain_votes: u64,
    pub created_at: i64,
    pub end_time: i64,
    pub executed: bool,
    pub queued: bool,
    pub eta: Option<i64>,
    pub start_time: i64,
    pub cancelled: bool,
}

/// One vote cast on a governance proposal.
#[derive(Clone, Copy, Debug, PartialEq, Eq)]
pub struct VoteRecord {
    pub proposal_id: u64,
    pub voter: Pubkey,
    pub vote_type: VoteType,
    pub voting_power: u64,
    pub voted_at: i64,
}

/// A registered voter and its voting power.
#[derive(Clone, Copy, Debug, PartialEq, Eq, Default)]
pub struct VoterRegistry {
    pub voter: Pubkey,
    pub voting_power: u64,
    pub registered_at: i64,
}

/// The parameters of governance voting.
#[derive(Clone, Copy, Debug, PartialEq, Eq, Default)]
pub struct GovernanceConfig {
    pub voting_token_mint: Pubkey,
    pub quorum_threshold: u16,
    pub proposal_threshold: u64,
    pub voting_period: i64,
    pub time_lock_delay: i64,
    pub execution_threshold: u16,
    pub timelock_delay: i64,
}

/// The owners of the vault's multi-signature authority and how many of
/// them must approve a transaction.
#[derive(Clone, Debug, PartialEq, Eq, Default)]
pub struct MultiSig {
    pub owners: Vec<Pubkey>,
    pub threshold: u64,
    pub nonce: u8,
    pub bump: u8,
}

/// A transaction waiting for, or done with, the owners' approvals.
/// `signers[i]` says whether the owner at position `i` approved it.
#[derive(Clone, Debug, PartialEq, Eq, Default)]
pub struct MultiSigTransaction {
    pub multisig: Pubkey,
    pub program_id: Pubkey,
    pub accounts: Vec<TransactionAccount>,
    pub data: Vec<u8>,
    pub signers: Vec<bool>,
    pub did_execute: bool,
    pub proposer: Pubkey,
    pub created_at: i64,
}

/// An account that a multi-signature transaction passes to its program.
#[derive(Clone, Copy, Debug, PartialEq, Eq, Default)]
pub struct TransactionAccount {
    pub pubkey: Pubkey,
    pub is_signer: bool,
    pub is_writable: bool,
}

/// Where the vault puts a token to earn yield.
#[derive(Clone, Copy, Debug, PartialEq, Eq, Default)]
pub struct YieldStrategyConfig {
    pub token_mint: Pubkey,
    pub strategy_program: Pubkey,
    pub auto_compound: bool,
    pub last_harvested_slot: u64,
}

/// A record of an emergency action.
#[derive(Clone, Debug, PartialEq, Eq, Default)]
pub struct EmergencyActionLog {
    pub timestamp: i64,
    pub admin: Pubkey,
    pub action: u8,
    pub details: Vec<u8>,
}

/// The vault account.
#[derive(Clone, Debug, PartialEq, Eq, Default)]
pub struct Vault {
    pub authority: Pubkey,
    pub bump: u8,
    pub emergency_admin: Pubkey,
    pub paused: bool,
    pub supported_tokens: Vec<SupportedToken>,
    pub token_balances: Vec<TokenBalance>,
    pub time_locks: Vec<TimeLock>,
    pub proposals: Vec<Proposal>,
    pub next_proposal_id: u64,
    pub fee_config: FeeConfig,
    pub total_value_locked: u64,
    pub total_fees_collected: u64,
    pub legacy_mint: Option<Pubkey>,
    pub legacy_total_deposited: u64,
    pub governance_config: Option<GovernanceConfig>,
    pub governance_proposals: Vec<GovernanceProposal>,
    pub next_governance_proposal_id: u64,
    pub vote_records: Vec<VoteRecord>,
    pub voter_registry: Vec<VoterRegistry>,
    pub multi_sig: Option<MultiSig>,
    pub multi_sig_transactions: Vec<MultiSigTransaction>,
    pub yield_strategies: Vec<YieldStrategyConfig>,
    pub emergency_logs: Vec<EmergencyActionLog>,
}

impl Vault {
    /// The space that the vault account reserves for its data.
    pub const INIT_SPACE: usize = 10232;
}

/// The multi-signature authority as a mathematical value.
pub struct MultiSigView {
    pub owners: Seq<Pubkey>,
    pub threshold: u64,
    pub nonce: u8,
    pub bump: u8,
}

impl View for MultiSig {
    type V = MultiSigView;

    open spec fn view(&self) -> MultiSigView {
        MultiSigView {
            owners: self.owners@,
            threshold: self.threshold,
            nonce: self.nonce,
            bump: self.bump,
        }
    }
}

/// A multi-signature transaction as a mathematical value.
pub struct MultiSigTransactionView {
    pub multisig: Pubkey,
    pub program_id: Pubkey,
    pub accounts: Seq<TransactionAccount>,
    pub data: Seq<u8>,
    pub signers: Seq<bool>,
    pub did_execute: bool,
    pub proposer: Pubkey,
    pub created_at: i64,
}

impl View for MultiSigTransaction {
    type V = MultiSigTransactionView;

    open spec fn view(&self) -> MultiSigTransactionView {
        MultiSigTransactionView {
            multisig: self.multisig,
            program_id: self.program_id,
            accounts: self.accounts@,
            data: self.data@,
            signers: self.signers@,
            did_execute: self.did_execute,
            proposer: self.proposer,
            created_at: self.created_at,
        }
    }
}

/// The vault as a mathematical value.
pub struct VaultView {
    pub authority: Pubkey,
    pub bump: u8,
    pub emergency_admin: Pubkey,
    pub paused: bool,
    pub supported_tokens: Seq<SupportedToken>,
    pub token_balances: Seq<TokenBalance>,
    pub time_locks: Seq<TimeLock>,
    pub proposals: Seq<Proposal>,
    pub next_proposal_id: u64,
    pub fee_config: FeeConfig,
    pub total_value_locked: u64,
    pub total_fees_collected: u64,
    pub legacy_mint: Option<Pubkey>,
    pub legacy_total_deposited: u64,
    pub governance_config: Option<GovernanceConfig>,
    pub governance_proposals: Seq<GovernanceProposal>,
    pub next_governance_proposal_id: u64,
    pub vote_records: Seq<VoteRecord>,
    pub voter_registry: Seq<VoterRegistry>,
    pub multi_sig: Option<MultiSigView>,
    pub multi_sig_transactions: Seq<MultiSigTransactionView>,
    pub yield_strategies: Seq<YieldStrategyConfig>,
    pub emergency_logs: Seq<EmergencyActionLog>,
}

/// The view of each transaction of a list.
pub open spec fn transaction_views(txs: Seq<MultiSigTransaction>) -> Seq<MultiSigTransactionView> {
    txs.map_values(|t: MultiSigTransaction| t@)
}

/// The view of an optional multi-signature authority.
pub open spec fn multisig_view(m: Option<MultiSig>) -> Option<MultiSigView> {
    match m {
        Some(ms) => Some(ms@),
        None => None,
    }
}

impl View for Vault {
    type V = VaultView;

    open spec fn view(&self) -> VaultView {
        VaultView {
            authority: self.authority,
            bump: self.bump,
            emergency_admin: self.emergency_admin,
            paused: self.paused,
            supported_tokens: self.supported_tokens@,
            token_balances: self.token_balances@,
            time_locks: self.time_locks@,
            proposals: self.proposals@,
            next_proposal_id: self.next_proposal_id,
            fee_config: self.fee_config,
            total_value_locked: self.total_value_locked,
            total_fees_collected: self.total_fees_collected,
            legacy_mint: self.legacy_mint,
            legacy_total_deposited: self.legacy_total_deposited,
            governance_config: self.governance_config,
            governance_proposals: self.governance_proposals@,
            next_governance_proposal_id: self.next_governance_proposal_id,
            vote_records: self.vote_records@,
            voter_registry: self.voter_registry@,
            multi_sig: multisig_view(self.multi_sig),
            multi_sig_transactions: transaction_views(self.multi_sig_transactions@),
            yield_strategies: self.yield_strategies@,
            emergency_logs: self.emergency_logs@,
        }
    }
}

} // verus!
