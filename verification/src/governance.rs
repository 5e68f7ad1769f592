//! The governance proposal state machine.
//!
//! A proposal is created `Active` with a fixed voting window and execution
//! deadline. At or after the end of voting it is finalized against two
//! externally supplied conditional-market TWAP readings: it passes only if
//! the pass reading strictly exceeds the fail reading — a tie fails. Only
//! a passed proposal can be executed, only before its deadline, and
//! execution decodes the typed action payload for dispatch.

use vstd::prelude::*;

use crate::bytes::{le_u128_at, spec_le_u128_at};
use crate::constants::{
    MAX_ACTIVE_PROPOSALS, MIN_PROPOSAL_SHARES, PROPOSAL_EXECUTION_DEADLINE, PROPOSAL_VOTING_PERIOD,
};
use crate::errors::ErrorCode;
use crate::payload::{
    decode_lending_action, decode_perp_action, decode_swap_action, spec_is_swap_action,
    spec_lending_action, spec_perp_action, LendingActionData, PerpActionData, SwapActionData,
};
use crate::state::{ActionType, Fund, FundStatus, Proposal, ProposalStatus};

verus! {

/// Parameters of a new proposal: the action to authorize and its payload.
#[derive(Clone, Copy, Debug, PartialEq, Eq)]
pub struct CreateProposalParams {
    pub action_type: ActionType,
    pub action_data: [u8; 256],
}

/// The typed action a passed proposal authorizes, decoded from its
/// payload at execution time.
#[derive(Clone, Copy, Debug, PartialEq, Eq)]
pub enum ProposalAction {
    Swap(SwapActionData),
    OpenPerp(PerpActionData),
    ClosePerp(PerpActionData),
    DepositLending(LendingActionData),
    WithdrawLending(LendingActionData),
    Borrow(LendingActionData),
    Repay(LendingActionData),
    UpdateParam,
}

/// What it means for an executed proposal's result to be exactly the
/// action its payload encodes, selected by its action type: each variant
/// carries the decode of the payload bytes, and a parameter update
/// carries nothing.
pub open spec fn spec_action_decodes_to(
    action_type: ActionType,
    data: Seq<u8>,
    action: ProposalAction,
) -> bool
    recommends
        data.len() >= 80,
{
    match action_type {
        ActionType::Swap => action matches ProposalAction::Swap(a) && spec_is_swap_action(data, a),
        ActionType::OpenPerp => action == ProposalAction::OpenPerp(spec_perp_action(data)),
        ActionType::ClosePerp => action == ProposalAction::ClosePerp(spec_perp_action(data)),
        ActionType::DepositLending => action == ProposalAction::DepositLending(
            spec_lending_action(data),
        ),
        ActionType::WithdrawLending => action == ProposalAction::WithdrawLending(
            spec_lending_action(data),
        ),
        ActionType::Borrow => action == ProposalAction::Borrow(spec_lending_action(data)),
        ActionType::Repay => action == ProposalAction::Repay(spec_lending_action(data)),
        ActionType::UpdateParam => action == ProposalAction::UpdateParam,
    }
}

/// Create a proposal against an active fund.
///
/// Requires, in this order: an active fund (`FundPaused`), a free proposal
/// slot (`MaxActiveProposals`), and a proposer holding at least the
/// minimum share balance (`InsufficientShares`); the voting window and
/// execution deadline must be formable without clock overflow
/// (`MathOverflow`). On success the fund's proposal counters advance and
/// the new proposal is `Active`, indexed by the fund's running count,
/// with voting from `now` and execution allowed until the deadline. On
/// any failure the fund is unchanged.
pub fn create_proposal(
    fund: &mut Fund,
    params: CreateProposalParams,
    proposer_share_balance: u64,
    now: i64,
) -> (r: Result<Proposal, ErrorCode>)
    ensures
        old(fund).status != FundStatus::Active ==> r == Err::<Proposal, ErrorCode>(
            ErrorCode::FundPaused,
        ) && *final(fund) == *old(fund),
        old(fund).status == FundStatus::Active && old(fund).active_proposals
            >= MAX_ACTIVE_PROPOSALS ==> r == Err::<Proposal, ErrorCode>(ErrorCode::MaxActiveProposals)
            && *final(fund) == *old(fund),
        old(fund).status == FundStatus::Active && old(fund).active_proposals < MAX_ACTIVE_PROPOSALS
            && proposer_share_balance < MIN_PROPOSAL_SHARES ==> r == Err::<Proposal, ErrorCode>(
            ErrorCode::InsufficientShares,
        ) && *final(fund) == *old(fund),
        old(fund).status == FundStatus::Active && old(fund).active_proposals < MAX_ACTIVE_PROPOSALS
            && proposer_share_balance >= MIN_PROPOSAL_SHARES ==> {
            let voting_end = now + PROPOSAL_VOTING_PERIOD;
            let deadline = voting_end + PROPOSAL_EXECUTION_DEADLINE;
            if voting_end > i64::MAX || deadline > i64::MAX {
                r == Err::<Proposal, ErrorCode>(ErrorCode::MathOverflow) && *final(fund) == *old(
                    fund,
                )
            } else if old(fund).total_proposals + 1 > u64::MAX {
                r == Err::<Proposal, ErrorCode>(ErrorCode::MathOverflow) && *final(fund) == *old(
                    fund,
                )
            } else {
                &&& r == Ok::<Proposal, ErrorCode>(Proposal {
                    proposal_index: old(fund).total_proposals,
                    action_type: params.action_type,
                    action_data: params.action_data,
                    pass_twap: 0,
                    fail_twap: 0,
                    status: ProposalStatus::Active,
                    voting_start: now,
                    voting_end: voting_end as i64,
                    execution_deadline: deadline as i64,
                    executed_at: 0,
                })
                &&& *final(fund) == (Fund {
                    total_proposals: (old(fund).total_proposals + 1) as u64,
                    active_proposals: (old(fund).active_proposals + 1) as u8,
                    ..*old(fund)
                })
            }
        },
{
    if !matches!(fund.status, FundStatus::Active) {
        return Err(ErrorCode::FundPaused);
    }
    if fund.active_proposals >= MAX_ACTIVE_PROPOSALS {
        return Err(ErrorCode::MaxActiveProposals);
    }
    if proposer_share_balance < MIN_PROPOSAL_SHARES {
        return Err(ErrorCode::InsufficientShares);
    }
    let voting_end: i64 = match now.checked_add(PROPOSAL_VOTING_PERIOD) {
        Some(v) => v,
        None => {
            return Err(ErrorCode::MathOverflow);
        },
    };
    let execution_deadline: i64 = match voting_end.checked_add(PROPOSAL_EXECUTION_DEADLINE) {
        Some(v) => v,
        None => {
            return Err(ErrorCode::MathOverflow);
        },
    };
    let proposal_index: u64 = fund.total_proposals;
    let new_total: u64 = match fund.total_proposals.checked_add(1) {
        Some(v) => v,
        None => {
            return Err(ErrorCode::MathOverflow);
        },
    };
    let proposal = Proposal {
        proposal_index,
        action_type: params.action_type,
        action_data: params.action_data,
        pass_twap: 0,
        fail_twap: 0,
        status: ProposalStatus::Active,
        voting_start: now,
        voting_end,
        execution_deadline,
        executed_at: 0,
    };
    fund.total_proposals = new_total;
    fund.active_proposals = fund.active_proposals + 1;
    Ok(proposal)
}

/// Finalize an active proposal with two TWAP readings.
///
/// Only an `Active` proposal can be finalized (`ProposalNotActive`), and
/// only at or after the end of its voting window (`VotingPeriodNotEnded`).
/// The readings are recorded and the proposal passes exactly when the
/// pass reading strictly exceeds the fail reading — a tie fails. The
/// fund's active-proposal count drops by one, saturating at zero. On any
/// failure both records are unchanged.
pub fn finalize_proposal(
    fund: &mut Fund,
    proposal: &mut Proposal,
    pass_twap: u128,
    fail_twap: u128,
    now: i64,
) -> (r: Result<(), ErrorCode>)
    ensures
        old(proposal).status != ProposalStatus::Active ==> r == Err::<(), ErrorCode>(
            ErrorCode::ProposalNotActive,
        ) && *final(fund) == *old(fund) && *final(proposal) == *old(proposal),
        old(proposal).status == ProposalStatus::Active && now < old(proposal).voting_end ==> r
            == Err::<(), ErrorCode>(ErrorCode::VotingPeriodNotEnded) && *final(fund) == *old(fund)
            && *final(proposal) == *old(proposal),
        old(proposal).status == ProposalStatus::Active && now >= old(proposal).voting_end ==> {
            &&& r == Ok::<(), ErrorCode>(())
            &&& *final(proposal) == (Proposal {
                pass_twap,
                fail_twap,
                status: if pass_twap > fail_twap {
                    ProposalStatus::Passed
                } else {
                    ProposalStatus::Failed
                },
                ..*old(proposal)
            })
            &&& *final(fund) == (Fund {
                active_proposals: if old(fund).active_proposals > 0 {
                    (old(fund).active_proposals - 1) as u8
                } else {
                    0
                },
                ..*old(fund)
            })
        },
        final(proposal).status == ProposalStatus::Passed ==> final(proposal).pass_twap
            > final(proposal).fail_twap || old(proposal).status == ProposalStatus::Passed,
{
    if !matches!(proposal.status, ProposalStatus::Active) {
        return Err(ErrorCode::ProposalNotActive);
    }
    if now < proposal.voting_end {
        return Err(ErrorCode::VotingPeriodNotEnded);
    }
    let passed: bool = pass_twap > fail_twap;
    proposal.pass_twap = pass_twap;
    proposal.fail_twap = fail_twap;
    proposal.status = if passed {
        ProposalStatus::Passed
    } else {
        ProposalStatus::Failed
    };
    fund.active_proposals = if fund.active_proposals > 0 {
        fund.active_proposals - 1
    } else {
        0
    };
    Ok(())
}

/// Finalize an active proposal when no TWAP source is available.
///
/// Without readings a proposal can only be closed out once even its
/// execution deadline has passed (`InvalidParameter` before that); it is
/// then recorded as failed with zero readings.
pub fn finalize_proposal_without_readings(fund: &mut Fund, proposal: &mut Proposal, now: i64) -> (r:
    Result<(), ErrorCode>)
    ensures
        old(proposal).status != ProposalStatus::Active ==> r == Err::<(), ErrorCode>(
            ErrorCode::ProposalNotActive,
        ) && *final(fund) == *old(fund) && *final(proposal) == *old(proposal),
        old(proposal).status == ProposalStatus::Active && now < old(proposal).voting_end ==> r
            == Err::<(), ErrorCode>(ErrorCode::VotingPeriodNotEnded) && *final(fund) == *old(fund)
            && *final(proposal) == *old(proposal),
        old(proposal).status == ProposalStatus::Active && now >= old(proposal).voting_end && now
            <= old(proposal).execution_deadline ==> r == Err::<(), ErrorCode>(
            ErrorCode::InvalidParameter,
        ) && *final(fund) == *old(fund) && *final(proposal) == *old(proposal),
        old(proposal).status == ProposalStatus::Active && now >= old(proposal).voting_end && now
            > old(proposal).execution_deadline ==> {
            &&& r == Ok::<(), ErrorCode>(())
            &&& *final(proposal) == (Proposal {
                pass_twap: 0,
                fail_twap: 0,
                status: ProposalStatus::Failed,
                ..*old(proposal)
            })
            &&& *final(fund) == (Fund {
                active_proposals: if old(fund).active_proposals > 0 {
                    (old(fund).active_proposals - 1) as u8
                } else {
                    0
                },
                ..*old(fund)
            })
        },
{
    if !matches!(proposal.status, ProposalStatus::Active) {
        return Err(ErrorCode::ProposalNotActive);
    }
    if now < proposal.voting_end {
        return Err(ErrorCode::VotingPeriodNotEnded);
    }
    if now <= proposal.execution_deadline {
        return Err(ErrorCode::InvalidParameter);
    }
    proposal.pass_twap = 0;
    proposal.fail_twap = 0;
    proposal.status = ProposalStatus::Failed;
    fund.active_proposals = if fund.active_proposals > 0 {
        fund.active_proposals - 1
    } else {
        0
    };
    Ok(())
}

/// Execute a passed proposal before its deadline.
///
/// Only a `Passed` proposal can be executed (`ProposalNotPassed`), and
/// only while `now` has not passed the execution deadline
/// (`ProposalExpired`) — afterwards the proposal is terminally stale and
/// every attempt fails. The typed payload is decoded according to the
/// action type (`InvalidActionData` on a malformed perpetual payload);
/// on success the proposal is marked `Executed` at `now` and the result
/// is exactly the action the payload encodes under that type, ready for
/// dispatch. On any failure the proposal is unchanged.
pub fn execute_proposal(proposal: &mut Proposal, now: i64) -> (r: Result<
    ProposalAction,
    ErrorCode,
>)
    ensures
        old(proposal).status != ProposalStatus::Passed ==> r == Err::<ProposalAction, ErrorCode>(
            ErrorCode::ProposalNotPassed,
        ) && *final(proposal) == *old(proposal),
        old(proposal).status == ProposalStatus::Passed && now > old(proposal).execution_deadline
            ==> r == Err::<ProposalAction, ErrorCode>(ErrorCode::ProposalExpired)
            && *final(proposal) == *old(proposal),
        old(proposal).status == ProposalStatus::Passed && now <= old(proposal).execution_deadline
            ==> {
            if (old(proposal).action_type == ActionType::OpenPerp || old(proposal).action_type
                == ActionType::ClosePerp) && old(proposal).action_data@[2] > 1 {
                r == Err::<ProposalAction, ErrorCode>(ErrorCode::InvalidActionData)
                    && *final(proposal) == *old(proposal)
            } else {
                &&& r is Ok
                &&& spec_action_decodes_to(
                    old(proposal).action_type,
                    old(proposal).action_data@,
                    r->Ok_0,
                )
                &&& *final(proposal) == (Proposal {
                    status: ProposalStatus::Executed,
                    executed_at: now,
                    ..*old(proposal)
                })
            }
        },
        r is Ok ==> final(proposal).status == ProposalStatus::Executed,
{
    if !matches!(proposal.status, ProposalStatus::Passed) {
        return Err(ErrorCode::ProposalNotPassed);
    }
    if now > proposal.execution_deadline {
        return Err(ErrorCode::ProposalExpired);
    }
    let payload: &[u8] = proposal.action_data.as_slice();
    let action: ProposalAction = match proposal.action_type {
        ActionType::Swap => ProposalAction::Swap(decode_swap_action(payload)),
        ActionType::OpenPerp => {
            match decode_perp_action(payload) {
                Ok(a) => ProposalAction::OpenPerp(a),
                Err(e) => {
                    return Err(e);
                },
            }
        },
        ActionType::ClosePerp => {
            match decode_perp_action(payload) {
                Ok(a) => ProposalAction::ClosePerp(a),
                Err(e) => {
                    return Err(e);
                },
            }
        },
        ActionType::DepositLending => ProposalAction::DepositLending(
            decode_lending_action(payload),
        ),
        ActionType::WithdrawLending => ProposalAction::WithdrawLending(
            decode_lending_action(payload),
        ),
        ActionType::Borrow => ProposalAction::Borrow(decode_lending_action(payload)),
        ActionType::Repay => ProposalAction::Repay(decode_lending_action(payload)),
        ActionType::UpdateParam => ProposalAction::UpdateParam,
    };
    proposal.status = ProposalStatus::Executed;
    proposal.executed_at = now;
    Ok(action)
}

/// Read the time-weighted average price a conditional-market account
/// carries: a little-endian u128 at byte offset 208. A buffer too short
/// to hold it is rejected with `InvalidActionData`.
pub fn read_metadao_twap(data: &[u8]) -> (r: Result<u128, ErrorCode>)
    ensures
        data@.len() < 224 ==> r == Err::<u128, ErrorCode>(ErrorCode::InvalidActionData),
        data@.len() >= 224 ==> r == Ok::<u128, ErrorCode>(spec_le_u128_at(data@, 208) as u128),
{
    let n: usize = data.len();
    if n < 224 {
        return Err(ErrorCode::InvalidActionData);
    }
    Ok(le_u128_at(data, 208))
}

} // verus!
