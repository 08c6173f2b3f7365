use escrow::custody::{derive_authority, AccountRef, TokenCall, ESCROW_SEED};
use escrow::deposit::{deposit_seed, plan_deposit_account, seed_from_digest, DepositAccounts};
use escrow::error::EscrowError;
use escrow::processor::{
    InitEscrowAccounts, Processor, RegisterEscrowAccounts, ReleaseEscrowAccounts,
};
use escrow::registry::EscrowRegistryState;
use escrow::state::EscrowState;

const DEPOSITOR: [u8; 32] = [11u8; 32];
const RECEIVER: [u8; 32] = [12u8; 32];
const HOLDING: [u8; 32] = [13u8; 32];
const DESTINATION: [u8; 32] = [14u8; 32];
const PROGRAM: [u8; 32] = [15u8; 32];

fn token_program() -> [u8; 32] {
    spl_token::id().to_bytes()
}

fn init_accounts(now: i64, wait_period: i64) -> InitEscrowAccounts {
    InitEscrowAccounts {
        initializer: DEPOSITOR,
        initializer_is_signer: true,
        caller: [16u8; 32],
        receiver: RECEIVER,
        temp_token_account: HOLDING,
        escrow_data: vec![0u8; 113],
        escrow_lamports: 2_000_000,
        rent_exempt_minimum: 1_000_000,
        now,
        wait_period,
        program_id: PROGRAM,
        token_program: token_program(),
    }
}

fn token_account_bytes(owner: [u8; 32]) -> Vec<u8> {
    let mut data = vec![0u8; 165];
    data[32..64].copy_from_slice(&owner);
    data[108] = 1;
    data
}

fn release_accounts(escrow_data: Vec<u8>, now: i64) -> ReleaseEscrowAccounts {
    ReleaseEscrowAccounts {
        taker: RECEIVER,
        taker_is_signer: true,
        receiver_token_account: DESTINATION,
        temp_token_account: HOLDING,
        initializer_main_account: DEPOSITOR,
        receiver_token_data: token_account_bytes(RECEIVER),
        escrow_data,
        now,
        program_id: PROGRAM,
        token_program: token_program(),
    }
}

fn initialized_data() -> Vec<u8> {
    Processor::process_init_escrow(&init_accounts(0, 2), 1000).unwrap().escrow_data
}

#[test]
fn init_writes_active_record() {
    let out = Processor::process_init_escrow(&init_accounts(100, 20000), 1000).unwrap();
    assert_eq!(
        out.record,
        EscrowState {
            is_initialized: true,
            caller_pubkey: None,
            initializer_pubkey: DEPOSITOR,
            receiver_pubkey: RECEIVER,
            temp_token_account_pubkey: HOLDING,
            escrow_amount: 1000,
            expire_date: 20100,
        }
    );
    assert_eq!(out.escrow_data, out.record.pack());
    let authority = derive_authority(&ESCROW_SEED, &PROGRAM).unwrap();
    assert_eq!(out.authority, authority);
    assert_ne!(authority.address, PROGRAM);
    assert_eq!(
        out.set_owner,
        TokenCall::SetOwner { account: HOLDING, new_owner: authority.address, owner: DEPOSITOR }
    );
    let ix = &out.set_owner_instruction;
    assert_eq!(ix.program_id, token_program());
    let mut data = vec![6u8, 2, 1];
    data.extend_from_slice(&authority.address);
    assert_eq!(ix.data, data);
    assert_eq!(
        ix.accounts,
        vec![
            AccountRef { address: HOLDING, is_signer: false, is_writable: true },
            AccountRef { address: DEPOSITOR, is_signer: false, is_writable: false },
            AccountRef { address: DEPOSITOR, is_signer: true, is_writable: false },
        ]
    );
}

#[test]
fn init_relayed_schema_binds_caller() {
    let mut acc = init_accounts(0, 2);
    acc.escrow_data = vec![0u8; 145];
    let out = Processor::process_init_escrow(&acc, 5).unwrap();
    assert_eq!(out.record.caller_pubkey, Some([16u8; 32]));
    assert_eq!(out.escrow_data.len(), 145);
}

#[test]
fn init_requires_signature() {
    let mut acc = init_accounts(0, 2);
    acc.initializer_is_signer = false;
    assert_eq!(Processor::process_init_escrow(&acc, 1000).err(), Some(EscrowError::MissingSignature));
}

#[test]
fn init_requires_viable_storage() {
    let mut acc = init_accounts(0, 2);
    acc.escrow_lamports = 999_999;
    assert_eq!(Processor::process_init_escrow(&acc, 1000).err(), Some(EscrowError::StorageNotViable));
}

#[test]
fn init_rejects_malformed_storage() {
    let mut acc = init_accounts(0, 2);
    acc.escrow_data = vec![0u8; 100];
    assert_eq!(Processor::process_init_escrow(&acc, 1000).err(), Some(EscrowError::MalformedRecord));
}

#[test]
fn second_init_is_rejected() {
    let mut acc = init_accounts(0, 2);
    acc.escrow_data = initialized_data();
    let before = acc.escrow_data.clone();
    assert_eq!(Processor::process_init_escrow(&acc, 77).err(), Some(EscrowError::AlreadyInitialized));
    assert_eq!(acc.escrow_data, before);
}

#[test]
fn init_rejects_zero_amount() {
    assert_eq!(
        Processor::process_init_escrow(&init_accounts(0, 2), 0).err(),
        Some(EscrowError::InvalidInstruction)
    );
}

#[test]
fn init_rejects_expiry_overflow() {
    assert_eq!(
        Processor::process_init_escrow(&init_accounts(i64::MAX - 1, 2), 1).err(),
        Some(EscrowError::ExpiryOverflow)
    );
}

#[test]
fn init_rejects_wrong_token_program() {
    let mut acc = init_accounts(0, 2);
    acc.token_program = [1u8; 32];
    assert_eq!(Processor::process_init_escrow(&acc, 1000).err(), Some(EscrowError::IncorrectProgramId));
}

#[test]
fn release_scenario_before_and_at_maturity() {
    let data = initialized_data();
    assert_eq!(
        Processor::process_release_escrow(&release_accounts(data.clone(), 1)).err(),
        Some(EscrowError::NotMatured)
    );
    let plan = Processor::process_release_escrow(&release_accounts(data.clone(), 2)).unwrap();
    let authority = derive_authority(&ESCROW_SEED, &PROGRAM).unwrap();
    assert_eq!(
        plan.transfer,
        TokenCall::Transfer {
            source: HOLDING,
            destination: DESTINATION,
            authority: authority.address,
            amount: 1000,
        }
    );
    assert_eq!(
        plan.close,
        TokenCall::Close { account: HOLDING, destination: DEPOSITOR, authority: authority.address }
    );
    assert_eq!(plan.authority, authority);
    assert_eq!(plan.transfer_instruction.data[0], 3);
    assert_eq!(&plan.transfer_instruction.data[1..9], &1000u64.to_le_bytes());
    assert_eq!(plan.transfer_instruction.data.len(), 9);
    let signer = AccountRef { address: authority.address, is_signer: true, is_writable: false };
    let readonly = AccountRef { address: authority.address, is_signer: false, is_writable: false };
    assert_eq!(
        plan.transfer_instruction.accounts,
        vec![
            AccountRef { address: HOLDING, is_signer: false, is_writable: true },
            AccountRef { address: DESTINATION, is_signer: false, is_writable: true },
            readonly,
            signer,
        ]
    );
    assert_eq!(plan.close_instruction.data, vec![9]);
    assert_eq!(
        plan.close_instruction.accounts,
        vec![
            AccountRef { address: HOLDING, is_signer: false, is_writable: true },
            AccountRef { address: DEPOSITOR, is_signer: false, is_writable: true },
            readonly,
            signer,
        ]
    );
    let settled = Processor::settle_release(500, 2_000_000, data.len()).unwrap();
    assert_eq!(settled.refund_lamports, 2_000_500);
    assert_eq!(settled.escrow_lamports, 0);
    assert_eq!(settled.escrow_data, vec![0u8; 113]);
    assert_eq!(
        Processor::process_release_escrow(&release_accounts(settled.escrow_data, 3)).err(),
        Some(EscrowError::NotInitialized)
    );
}

#[test]
fn release_requires_signature() {
    let mut acc = release_accounts(initialized_data(), 5);
    acc.taker_is_signer = false;
    assert_eq!(Processor::process_release_escrow(&acc).err(), Some(EscrowError::MissingSignature));
}

#[test]
fn release_rejects_wrong_receiver() {
    let mut acc = release_accounts(initialized_data(), 5);
    acc.receiver_token_data = token_account_bytes([99u8; 32]);
    assert_eq!(Processor::process_release_escrow(&acc).err(), Some(EscrowError::IdentityMismatch));
}

#[test]
fn release_rejects_unreadable_destination() {
    let mut acc = release_accounts(initialized_data(), 5);
    acc.receiver_token_data = vec![0u8; 165];
    assert_eq!(Processor::process_release_escrow(&acc).err(), Some(EscrowError::IdentityMismatch));
}

#[test]
fn release_rejects_wrong_holding_account() {
    let mut acc = release_accounts(initialized_data(), 5);
    acc.temp_token_account = [98u8; 32];
    assert_eq!(Processor::process_release_escrow(&acc).err(), Some(EscrowError::IdentityMismatch));
}

#[test]
fn release_rejects_wrong_refund_target() {
    let mut acc = release_accounts(initialized_data(), 5);
    acc.initializer_main_account = [97u8; 32];
    assert_eq!(Processor::process_release_escrow(&acc).err(), Some(EscrowError::IdentityMismatch));
}

#[test]
fn release_of_uninitialized_record_fails() {
    let acc = release_accounts(vec![0u8; 113], 5);
    assert_eq!(Processor::process_release_escrow(&acc).err(), Some(EscrowError::NotInitialized));
}

#[test]
fn release_of_malformed_record_fails() {
    let acc = release_accounts(vec![3u8; 113], 5);
    assert_eq!(Processor::process_release_escrow(&acc).err(), Some(EscrowError::MalformedRecord));
}

#[test]
fn release_rejects_wrong_token_program() {
    let mut acc = release_accounts(initialized_data(), 5);
    acc.token_program = [1u8; 32];
    assert_eq!(Processor::process_release_escrow(&acc).err(), Some(EscrowError::IncorrectProgramId));
}

#[test]
fn plan_release_with_given_owner() {
    let acc = release_accounts(initialized_data(), 5);
    assert!(Processor::plan_release(&acc, Some(RECEIVER)).is_ok());
    assert_eq!(Processor::plan_release(&acc, None).err(), Some(EscrowError::IdentityMismatch));
}

#[test]
fn settle_release_overflow() {
    assert_eq!(
        Processor::settle_release(u64::MAX - 10, 11, 113).err(),
        Some(EscrowError::AmountOverflow)
    );
    let ok = Processor::settle_release(u64::MAX - 10, 10, 113).unwrap();
    assert_eq!(ok.refund_lamports, u64::MAX);
}

#[test]
fn register_writes_registry_record() {
    let acc = RegisterEscrowAccounts {
        initializer: DEPOSITOR,
        initializer_is_signer: true,
        token_account: HOLDING,
        escrow_data: vec![0u8; 65],
        escrow_lamports: 10,
        rent_exempt_minimum: 10,
        program_id: PROGRAM,
        token_program: token_program(),
    };
    let out = Processor::process_register_escrow(&acc).unwrap();
    assert_eq!(
        out.record,
        EscrowRegistryState { is_initialized: true, initializer_pubkey: DEPOSITOR, token_account_pubkey: HOLDING }
    );
    let wallet_authority = derive_authority(&escrow::custody::ESCROW_WALLET_SEED, &PROGRAM).unwrap();
    assert_eq!(out.authority, wallet_authority);
    assert_ne!(wallet_authority.address, derive_authority(&ESCROW_SEED, &PROGRAM).unwrap().address);
    let again = RegisterEscrowAccounts { escrow_data: out.escrow_data.clone(), ..acc };
    assert_eq!(Processor::process_register_escrow(&again).err(), Some(EscrowError::AlreadyInitialized));
}

#[test]
fn echo_oracle_is_blank() {
    let r = Processor::process_echo_oracle();
    assert!(!r.is_initialized());
    assert_eq!(r.pack(), vec![0u8; 113]);
}

#[test]
fn deposit_seed_from_digest() {
    assert_eq!(deposit_seed(1_700_000_000, &std::array::from_fn(|i| i as u8)), b'8');
    assert_eq!(deposit_seed(0, &[0u8; 32]), b'2');
    let mut digest = [0u8; 32];
    digest[0] = 0xa7;
    assert_eq!(seed_from_digest(&digest), b'a');
}

#[test]
fn deposit_account_is_derived_from_seed() {
    let acc = DepositAccounts {
        seller: [0u8; 32],
        now: 0,
        mint: [20u8; 32],
        program_id: PROGRAM,
        token_program: token_program(),
    };
    let plan = plan_deposit_account(&acc).unwrap();
    assert_eq!(plan.seed, b'2');
    assert_eq!(plan.authority, derive_authority(&[b'2'], &PROGRAM).unwrap());
    let wallet = solana_program::pubkey::Pubkey::new_from_array(plan.authority.address);
    let mint = solana_program::pubkey::Pubkey::new_from_array([20u8; 32]);
    let expected = spl_associated_token_account::get_associated_token_address(&wallet, &mint);
    assert_eq!(plan.token_account, expected.to_bytes());
    assert_eq!(plan.instruction.program_id, spl_associated_token_account::id().to_bytes());
    assert_eq!(plan.instruction.data, vec![0]);
    assert_eq!(plan.instruction.accounts.len(), 6);
    assert_eq!(plan.instruction.accounts[1].address, plan.token_account);
    assert_eq!(plan.instruction.accounts[4].address, [0u8; 32]);
    assert!(plan.instruction.accounts[0].is_signer);
}

#[test]
fn token_account_owner_needs_initialized_state() {
    let mut acc = release_accounts(initialized_data(), 5);
    let mut data = token_account_bytes(RECEIVER);
    data[108] = 2;
    acc.receiver_token_data = data.clone();
    assert!(Processor::process_release_escrow(&acc).is_ok());
    data[72] = 2;
    acc.receiver_token_data = data;
    assert_eq!(Processor::process_release_escrow(&acc).err(), Some(EscrowError::IdentityMismatch));
}
