use beethoven::errors::ErrorCode;
use beethoven::fund_ops::{initialize_fund, InitializeFundParams};
use beethoven::governance::{
    create_proposal, execute_proposal, finalize_proposal, finalize_proposal_without_readings,
    read_metadao_twap, CreateProposalParams, ProposalAction,
};
use beethoven::payload::{
    decode_lending_action, decode_perp_action, decode_swap_action, LendingActionData,
    PerpActionData,
};
use beethoven::state::{ActionType, Fund, ProposalStatus};

fn fund() -> Fund {
    initialize_fund(
        InitializeFundParams { performance_fee_bps: 1_000, management_fee_bps: 100 },
        100,
    )
    .unwrap()
}

fn swap_params() -> CreateProposalParams {
    CreateProposalParams { action_type: ActionType::Swap, action_data: [0u8; 256] }
}

#[test]
fn create_proposal_opens_the_voting_window() {
    let mut f = fund();
    let p = create_proposal(&mut f, swap_params(), 1_000_000, 100).unwrap();
    assert_eq!(p.status, ProposalStatus::Active);
    assert_eq!(p.proposal_index, 0);
    assert_eq!(p.voting_start, 100);
    assert_eq!(p.voting_end, 105);
    assert_eq!(p.execution_deadline, 165);
    assert_eq!(f.total_proposals, 1);
    assert_eq!(f.active_proposals, 1);
}

#[test]
fn create_proposal_checks_fund_state_and_shares() {
    let mut f = fund();
    f.status = beethoven::state::FundStatus::Paused;
    assert_eq!(
        create_proposal(&mut f, swap_params(), 1_000_000, 100),
        Err(ErrorCode::FundPaused)
    );
    f.status = beethoven::state::FundStatus::Active;
    f.active_proposals = 10;
    assert_eq!(
        create_proposal(&mut f, swap_params(), 1_000_000, 100),
        Err(ErrorCode::MaxActiveProposals)
    );
    f.active_proposals = 0;
    assert_eq!(
        create_proposal(&mut f, swap_params(), 999_999, 100),
        Err(ErrorCode::InsufficientShares)
    );
}

#[test]
fn a_tie_does_not_pass() {
    let mut f = fund();
    let mut p = create_proposal(&mut f, swap_params(), 1_000_000, 100).unwrap();
    assert_eq!(finalize_proposal(&mut f, &mut p, 100, 100, 105), Ok(()));
    assert_eq!(p.status, ProposalStatus::Failed);
    assert_eq!(p.pass_twap, 100);
    assert_eq!(p.fail_twap, 100);
    assert_eq!(f.active_proposals, 0);
}

#[test]
fn a_strictly_greater_pass_reading_passes() {
    let mut f = fund();
    let mut p = create_proposal(&mut f, swap_params(), 1_000_000, 100).unwrap();
    assert_eq!(finalize_proposal(&mut f, &mut p, 101, 100, 105), Ok(()));
    assert_eq!(p.status, ProposalStatus::Passed);
}

#[test]
fn finalize_waits_for_the_voting_window() {
    let mut f = fund();
    let mut p = create_proposal(&mut f, swap_params(), 1_000_000, 100).unwrap();
    assert_eq!(
        finalize_proposal(&mut f, &mut p, 101, 100, 104),
        Err(ErrorCode::VotingPeriodNotEnded)
    );
    // finalizing twice is rejected
    finalize_proposal(&mut f, &mut p, 101, 100, 105).unwrap();
    assert_eq!(
        finalize_proposal(&mut f, &mut p, 101, 100, 106),
        Err(ErrorCode::ProposalNotActive)
    );
}

#[test]
fn finalize_without_readings_only_after_the_deadline() {
    let mut f = fund();
    let mut p = create_proposal(&mut f, swap_params(), 1_000_000, 100).unwrap();
    assert_eq!(
        finalize_proposal_without_readings(&mut f, &mut p, 150),
        Err(ErrorCode::InvalidParameter)
    );
    assert_eq!(finalize_proposal_without_readings(&mut f, &mut p, 166), Ok(()));
    assert_eq!(p.status, ProposalStatus::Failed);
    assert_eq!(p.pass_twap, 0);
    assert_eq!(p.fail_twap, 0);
}

#[test]
fn execute_dispatches_the_decoded_action() {
    let mut f = fund();
    let mut data = [0u8; 256];
    data[0] = 3; // pool index 3
    data[2..10].copy_from_slice(&500u64.to_le_bytes());
    let params = CreateProposalParams { action_type: ActionType::DepositLending, action_data: data };
    let mut p = create_proposal(&mut f, params, 1_000_000, 100).unwrap();
    finalize_proposal(&mut f, &mut p, 101, 100, 105).unwrap();
    let action = execute_proposal(&mut p, 150).unwrap();
    assert_eq!(
        action,
        ProposalAction::DepositLending(LendingActionData { pool_index: 3, amount: 500 })
    );
    assert_eq!(p.status, ProposalStatus::Executed);
    assert_eq!(p.executed_at, 150);
}

#[test]
fn execute_requires_a_passed_proposal() {
    let mut f = fund();
    let mut p = create_proposal(&mut f, swap_params(), 1_000_000, 100).unwrap();
    assert_eq!(execute_proposal(&mut p, 110), Err(ErrorCode::ProposalNotPassed));
    finalize_proposal(&mut f, &mut p, 100, 100, 105).unwrap();
    // a failed proposal can never be executed
    assert_eq!(execute_proposal(&mut p, 110), Err(ErrorCode::ProposalNotPassed));
}

#[test]
fn execute_after_the_deadline_fails_permanently() {
    let mut f = fund();
    let mut p = create_proposal(&mut f, swap_params(), 1_000_000, 100).unwrap();
    finalize_proposal(&mut f, &mut p, 101, 100, 105).unwrap();
    assert_eq!(execute_proposal(&mut p, 166), Err(ErrorCode::ProposalExpired));
    // no retry succeeds later either
    assert_eq!(execute_proposal(&mut p, 200), Err(ErrorCode::ProposalExpired));
    assert_eq!(p.status, ProposalStatus::Passed);
}

#[test]
fn execute_rejects_a_malformed_perp_payload() {
    let mut f = fund();
    let mut data = [0u8; 256];
    data[2] = 7; // the side byte must be 0 or 1
    let params = CreateProposalParams { action_type: ActionType::OpenPerp, action_data: data };
    let mut p = create_proposal(&mut f, params, 1_000_000, 100).unwrap();
    finalize_proposal(&mut f, &mut p, 101, 100, 105).unwrap();
    assert_eq!(execute_proposal(&mut p, 150), Err(ErrorCode::InvalidActionData));
    assert_eq!(p.status, ProposalStatus::Passed);
}

#[test]
fn decode_swap_action_reads_all_fields() {
    let mut data = [0u8; 256];
    data[0] = 0xAA;
    data[32] = 0xBB;
    data[64..72].copy_from_slice(&1_234u64.to_le_bytes());
    data[72..80].copy_from_slice(&1_200u64.to_le_bytes());
    let a = decode_swap_action(&data);
    assert_eq!(a.input_mint[0], 0xAA);
    assert_eq!(a.output_mint[0], 0xBB);
    assert_eq!(a.amount_in, 1_234);
    assert_eq!(a.minimum_amount_out, 1_200);
}

#[test]
fn decode_perp_action_reads_all_fields() {
    let mut data = [0u8; 256];
    data[0..2].copy_from_slice(&7u16.to_le_bytes());
    data[2] = 1;
    data[3..11].copy_from_slice(&99u64.to_le_bytes());
    data[11..19].copy_from_slice(&55u64.to_le_bytes());
    assert_eq!(
        decode_perp_action(&data),
        Ok(PerpActionData { market_index: 7, is_long: true, size: 99, collateral: 55 })
    );
    data[2] = 2;
    assert_eq!(decode_perp_action(&data), Err(ErrorCode::InvalidActionData));
}

#[test]
fn decode_lending_action_reads_all_fields() {
    let mut data = [0u8; 256];
    data[0..2].copy_from_slice(&9u16.to_le_bytes());
    data[2..10].copy_from_slice(&777u64.to_le_bytes());
    let a = decode_lending_action(&data);
    assert_eq!(a.pool_index, 9);
    assert_eq!(a.amount, 777);
}

#[test]
fn metadao_twap_reads_at_its_offset() {
    let mut data = vec![0u8; 224];
    data[208..224].copy_from_slice(&777u128.to_le_bytes());
    assert_eq!(read_metadao_twap(&data), Ok(777));
    assert_eq!(
        read_metadao_twap(&vec![0u8; 223]),
        Err(ErrorCode::InvalidActionData)
    );
}

#[test]
fn execute_dispatches_a_swap_action_with_its_payload() {
    let mut f = fund();
    let mut data = [0u8; 256];
    data[0..32].copy_from_slice(&[0x11u8; 32]);
    data[32..64].copy_from_slice(&[0x22u8; 32]);
    data[64..72].copy_from_slice(&5_000u64.to_le_bytes());
    data[72..80].copy_from_slice(&4_900u64.to_le_bytes());
    let params = CreateProposalParams { action_type: ActionType::Swap, action_data: data };
    let mut p = create_proposal(&mut f, params, 1_000_000, 100).unwrap();
    finalize_proposal(&mut f, &mut p, 101, 100, 105).unwrap();
    match execute_proposal(&mut p, 150).unwrap() {
        ProposalAction::Swap(a) => {
            assert_eq!(a.input_mint, [0x11u8; 32]);
            assert_eq!(a.output_mint, [0x22u8; 32]);
            assert_eq!(a.amount_in, 5_000);
            assert_eq!(a.minimum_amount_out, 4_900);
        }
        other => panic!("expected a swap action, got {:?}", other),
    }
}

#[test]
fn execute_dispatches_a_perp_action_with_its_payload() {
    let mut f = fund();
    let mut data = [0u8; 256];
    data[0..2].copy_from_slice(&4u16.to_le_bytes());
    data[2] = 1;
    data[3..11].copy_from_slice(&250u64.to_le_bytes());
    data[11..19].copy_from_slice(&40u64.to_le_bytes());
    let params = CreateProposalParams { action_type: ActionType::ClosePerp, action_data: data };
    let mut p = create_proposal(&mut f, params, 1_000_000, 100).unwrap();
    finalize_proposal(&mut f, &mut p, 101, 100, 105).unwrap();
    let action = execute_proposal(&mut p, 150).unwrap();
    assert_eq!(
        action,
        ProposalAction::ClosePerp(PerpActionData {
            market_index: 4,
            is_long: true,
            size: 250,
            collateral: 40
        })
    );
}
