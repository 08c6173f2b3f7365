use vstd::prelude::*;
use crate::custody::{
    derive_authority, derived_authority, read_token_account_owner, token_account_owner,
    token_program_id, ProgramInstruction, Authority, TokenCall, ESCROW_SEED,
    ESCROW_WALLET_SEED,
};
use crate::error::EscrowError;
use crate::layout::{identity_view, same_identity, zero_identity, Identity};
use crate::registry::{decode_registry, EscrowRegistryState};
use crate::state::{decode_escrow, lemma_escrow_encoding_injective, EscrowState};

verus! {

/// What the host read for an `InitEscrow`.
pub struct InitEscrowAccounts {
    /// The depositor; must have signed.
    pub initializer: Identity,
    pub initializer_is_signer: bool,
    /// The relayer that funds the transaction; bound only by the relayed schema.
    pub caller: Identity,
    /// Who may claim the deposit once it matures.
    pub receiver: Identity,
    /// The token account that holds the deposit.
    pub temp_token_account: Identity,
    /// The current bytes of the record's storage.
    pub escrow_data: Vec<u8>,
    /// The storage's balance, and the least balance that keeps it alive.
    pub escrow_lamports: u64,
    pub rent_exempt_minimum: u64,
    /// The clock's current time, and how long the deposit stays locked.
    pub now: i64,
    pub wait_period: i64,
    pub program_id: Identity,
    pub token_program: Identity,
}

/// What an accepted `InitEscrow` asks of the host, in order: write
/// `escrow_data` to the record's storage, then run `set_owner`.
pub struct InitEscrowOutcome {
    pub record: EscrowState,
    pub escrow_data: Vec<u8>,
    pub authority: Authority,
    pub set_owner: TokenCall,
    pub set_owner_instruction: ProgramInstruction,
}

/// What the host read to register a wallet's token account.
pub struct RegisterEscrowAccounts {
    pub initializer: Identity,
    pub initializer_is_signer: bool,
    pub token_account: Identity,
    pub escrow_data: Vec<u8>,
    pub escrow_lamports: u64,
    pub rent_exempt_minimum: u64,
    pub program_id: Identity,
    pub token_program: Identity,
}

/// What an accepted registration asks of the host, in order.
pub struct RegisterEscrowOutcome {
    pub record: EscrowRegistryState,
    pub escrow_data: Vec<u8>,
    pub authority: Authority,
    pub set_owner: TokenCall,
    pub set_owner_instruction: ProgramInstruction,
}

/// What the host read for a `ReleaseEscrow`.
pub struct ReleaseEscrowAccounts {
    /// The claimant; must have signed.
    pub taker: Identity,
    pub taker_is_signer: bool,
    /// Where the escrowed tokens go.
    pub receiver_token_account: Identity,
    /// The token account holding the deposit, closed by the release.
    pub temp_token_account: Identity,
    /// The depositor's account, which gets the storage reserves back.
    pub initializer_main_account: Identity,
    /// The stored bytes of `receiver_token_account`, which name its owner.
    pub receiver_token_data: Vec<u8>,
    pub escrow_data: Vec<u8>,
    pub now: i64,
    pub program_id: Identity,
    pub token_program: Identity,
}

/// What an accepted release asks of the host, in order: run `transfer`,
/// run `close`, then settle the balances with `Processor::settle_release`.
pub struct ReleasePlan {
    pub record: EscrowState,
    pub authority: Authority,
    pub transfer: TokenCall,
    pub close: TokenCall,
    pub transfer_instruction: ProgramInstruction,
    pub close_instruction: ProgramInstruction,
}

/// The balances and bytes that end a release.
pub struct Settlement {
    pub refund_lamports: u64,
    pub escrow_lamports: u64,
    pub escrow_data: Vec<u8>,
}

/// The first check that an `InitEscrow` fails, if any, before the outside
/// calls: signer, storage reserve, record shape, record state, amount,
/// maturity time.
pub open spec fn init_rejection(acc: InitEscrowAccounts, amount: u64) -> Option<EscrowError> {
    let stored = decode_escrow(acc.escrow_data@);
    if !acc.initializer_is_signer {
        Some(EscrowError::MissingSignature)
    } else if acc.escrow_lamports < acc.rent_exempt_minimum {
        Some(EscrowError::StorageNotViable)
    } else if stored is None {
        Some(EscrowError::MalformedRecord)
    } else if stored->Some_0.is_initialized {
        Some(EscrowError::AlreadyInitialized)
    } else if amount == 0 {
        Some(EscrowError::InvalidInstruction)
    } else if !(i64::MIN <= acc.now + acc.wait_period <= i64::MAX) {
        Some(EscrowError::ExpiryOverflow)
    } else {
        None
    }
}

/// The record an accepted `InitEscrow` writes over `prior`, in its schema.
pub open spec fn initialized_record(
    acc: InitEscrowAccounts,
    amount: u64,
    prior: EscrowState,
) -> EscrowState {
    EscrowState {
        is_initialized: true,
        caller_pubkey: if prior.caller_pubkey is Some {
            Some(acc.caller)
        } else {
            None
        },
        initializer_pubkey: acc.initializer,
        receiver_pubkey: acc.receiver,
        temp_token_account_pubkey: acc.temp_token_account,
        escrow_amount: amount,
        expire_date: (acc.now + acc.wait_period) as i64,
    }
}

/// The first check that a registration fails, if any, before the outside
/// calls.
pub open spec fn register_rejection(acc: RegisterEscrowAccounts) -> Option<EscrowError> {
    let stored = decode_registry(acc.escrow_data@);
    if !acc.initializer_is_signer {
        Some(EscrowError::MissingSignature)
    } else if acc.escrow_lamports < acc.rent_exempt_minimum {
        Some(EscrowError::StorageNotViable)
    } else if stored is None {
        Some(EscrowError::MalformedRecord)
    } else if stored->Some_0.is_initialized {
        Some(EscrowError::AlreadyInitialized)
    } else {
        None
    }
}

/// The first check that a release fails, if any, before the outside calls:
/// signer, record shape, record state, maturity, then the three identities
/// bound in the record.  `destination_owner` is the owner of the account
/// that would receive the tokens, where that account could be read.
pub open spec fn release_rejection(
    acc: ReleaseEscrowAccounts,
    destination_owner: Option<Seq<u8>>,
) -> Option<EscrowError> {
    let stored = decode_escrow(acc.escrow_data@);
    if !acc.taker_is_signer {
        Some(EscrowError::MissingSignature)
    } else if stored is None {
        Some(EscrowError::MalformedRecord)
    } else if !stored->Some_0.is_initialized {
        Some(EscrowError::NotInitialized)
    } else if acc.now < stored->Some_0.expire_date {
        Some(EscrowError::NotMatured)
    } else if destination_owner != Some(stored->Some_0.receiver_pubkey@) {
        Some(EscrowError::IdentityMismatch)
    } else if acc.temp_token_account != stored->Some_0.temp_token_account_pubkey {
        Some(EscrowError::IdentityMismatch)
    } else if acc.initializer_main_account != stored->Some_0.initializer_pubkey {
        Some(EscrowError::IdentityMismatch)
    } else {
        None
    }
}

/// Whether `bytes` is all zeros.
pub open spec fn all_zero(bytes: Seq<u8>) -> bool {
    forall|i: int| 0 <= i < bytes.len() ==> bytes[i] == 0
}

/// The engine's operations.
pub struct Processor;

impl Processor {
    /// Starts an escrow.  Refuses with the first failing check of
    /// `init_rejection`; otherwise derives the keyless authority and builds
    /// the call that hands it the holding account, failing only where the
    /// derivation finds no address or the token program is not the real one.
    pub fn process_init_escrow(acc: &InitEscrowAccounts, amount: u64) -> (r: Result<
        InitEscrowOutcome,
        EscrowError,
    >)
        ensures
            init_rejection(*acc, amount) matches Some(e) ==> r matches Err(f) && f == e,
            init_rejection(*acc, amount) is None ==> match r {
                Ok(o) => {
                    &&& o.record == initialized_record(
                        *acc,
                        amount,
                        decode_escrow(acc.escrow_data@)->Some_0,
                    )
                    &&& o.escrow_data@ == o.record.encoded()
                    &&& o.escrow_data@.len() == acc.escrow_data@.len()
                    &&& derived_authority(ESCROW_SEED@, acc.program_id@) == Some(
                        (o.authority.address@, o.authority.bump),
                    )
                    &&& o.set_owner == (TokenCall::SetOwner {
                        account: acc.temp_token_account,
                        new_owner: o.authority.address,
                        owner: acc.initializer,
                    })
                    &&& o.set_owner.built_as(o.set_owner_instruction, acc.token_program)
                },
                Err(e) => {
                    ||| (e == EscrowError::AuthorityUnavailable && derived_authority(
                        ESCROW_SEED@,
                        acc.program_id@,
                    ) is None)
                    ||| (e == EscrowError::IncorrectProgramId && acc.token_program@
                        != token_program_id())
                },
            },
    {
        if !acc.initializer_is_signer {
            return Err(EscrowError::MissingSignature);
        }
        if acc.escrow_lamports < acc.rent_exempt_minimum {
            return Err(EscrowError::StorageNotViable);
        }
        let prior = EscrowState::unpack_from_slice(acc.escrow_data.as_slice())?;
        if prior.is_initialized() {
            return Err(EscrowError::AlreadyInitialized);
        }
        if amount == 0 {
            return Err(EscrowError::InvalidInstruction);
        }
        let expire_date = match acc.now.checked_add(acc.wait_period) {
            Some(t) => t,
            None => return Err(EscrowError::ExpiryOverflow),
        };
        let record = EscrowState {
            is_initialized: true,
            caller_pubkey: match prior.caller_pubkey {
                Some(_) => Some(acc.caller),
                None => None,
            },
            initializer_pubkey: acc.initializer,
            receiver_pubkey: acc.receiver,
            temp_token_account_pubkey: acc.temp_token_account,
            escrow_amount: amount,
            expire_date,
        };
        let escrow_data = record.pack();
        proof {
            lemma_escrow_encoding_injective(prior);
        }
        let authority = derive_authority(&ESCROW_SEED, &acc.program_id)?;
        let set_owner = TokenCall::SetOwner {
            account: acc.temp_token_account,
            new_owner: authority.address,
            owner: acc.initializer,
        };
        let set_owner_instruction = set_owner.to_instruction(&acc.token_program)?;
        Ok(InitEscrowOutcome { record, escrow_data, authority, set_owner, set_owner_instruction })
    }

    /// Registers a wallet's token account with the custody authority.
    /// Refuses with the first failing check of `register_rejection`;
    /// otherwise writes an active registry record and builds the call that
    /// hands the account to the wallet authority.
    pub fn process_register_escrow(acc: &RegisterEscrowAccounts) -> (r: Result<
        RegisterEscrowOutcome,
        EscrowError,
    >)
        ensures
            register_rejection(*acc) matches Some(e) ==> r matches Err(f) && f == e,
            register_rejection(*acc) is None ==> match r {
                Ok(o) => {
                    &&& o.record == (EscrowRegistryState {
                        is_initialized: true,
                        initializer_pubkey: acc.initializer,
                        token_account_pubkey: acc.token_account,
                    })
                    &&& o.escrow_data@ == o.record.encoded()
                    &&& derived_authority(ESCROW_WALLET_SEED@, acc.program_id@) == Some(
                        (o.authority.address@, o.authority.bump),
                    )
                    &&& o.set_owner == (TokenCall::SetOwner {
                        account: acc.token_account,
                        new_owner: o.authority.address,
                        owner: acc.initializer,
                    })
                    &&& o.set_owner.built_as(o.set_owner_instruction, acc.token_program)
                },
                Err(e) => {
                    ||| (e == EscrowError::AuthorityUnavailable && derived_authority(
                        ESCROW_WALLET_SEED@,
                        acc.program_id@,
                    ) is None)
                    ||| (e == EscrowError::IncorrectProgramId && acc.token_program@
                        != token_program_id())
                },
            },
    {
        if !acc.initializer_is_signer {
            return Err(EscrowError::MissingSignature);
        }
        if acc.escrow_lamports < acc.rent_exempt_minimum {
            return Err(EscrowError::StorageNotViable);
        }
        let prior = EscrowRegistryState::unpack_from_slice(acc.escrow_data.as_slice())?;
        if prior.is_initialized() {
            return Err(EscrowError::AlreadyInitialized);
        }
        let record = EscrowRegistryState {
            is_initialized: true,
            initializer_pubkey: acc.initializer,
            token_account_pubkey: acc.token_account,
        };
        let escrow_data = record.pack();
        let authority = derive_authority(&ESCROW_WALLET_SEED, &acc.program_id)?;
        let set_owner = TokenCall::SetOwner {
            account: acc.token_account,
            new_owner: authority.address,
            owner: acc.initializer,
        };
        let set_owner_instruction = set_owner.to_instruction(&acc.token_program)?;
        Ok(RegisterEscrowOutcome { record, escrow_data, authority, set_owner, set_owner_instruction })
    }

    /// Decides a release given the owner of the receiving account (`None`
    /// where that account could not be read).  Refuses with the first
    /// failing check of `release_rejection`; otherwise plans the transfer of
    /// the whole amount to the receiver and the closing of the holding
    /// account, both authorized by the keyless authority.
    pub fn plan_release(acc: &ReleaseEscrowAccounts, destination_owner: Option<Identity>) -> (r:
        Result<ReleasePlan, EscrowError>)
        ensures
            release_rejection(*acc, identity_view(destination_owner)) matches Some(e) ==> r matches Err(
                f,
            ) && f == e,
            release_rejection(*acc, identity_view(destination_owner)) is None ==> match r {
                Ok(p) => {
                    &&& Some(p.record) == decode_escrow(acc.escrow_data@)
                    &&& derived_authority(ESCROW_SEED@, acc.program_id@) == Some(
                        (p.authority.address@, p.authority.bump),
                    )
                    &&& p.transfer == (TokenCall::Transfer {
                        source: acc.temp_token_account,
                        destination: acc.receiver_token_account,
                        authority: p.authority.address,
                        amount: p.record.escrow_amount,
                    })
                    &&& p.close == (TokenCall::Close {
                        account: acc.temp_token_account,
                        destination: acc.initializer_main_account,
                        authority: p.authority.address,
                    })
                    &&& p.transfer.built_as(p.transfer_instruction, acc.token_program)
                    &&& p.close.built_as(p.close_instruction, acc.token_program)
                },
                Err(e) => {
                    ||| (e == EscrowError::AuthorityUnavailable && derived_authority(
                        ESCROW_SEED@,
                        acc.program_id@,
                    ) is None)
                    ||| (e == EscrowError::IncorrectProgramId && acc.token_program@
                        != token_program_id())
                },
            },
    {
        if !acc.taker_is_signer {
            return Err(EscrowError::MissingSignature);
        }
        let record = EscrowState::unpack_from_slice(acc.escrow_data.as_slice())?;
        if !record.is_initialized() {
            return Err(EscrowError::NotInitialized);
        }
        if acc.now < record.expire_date {
            return Err(EscrowError::NotMatured);
        }
        let owner_matches = match &destination_owner {
            Some(owner) => same_identity(owner, &record.receiver_pubkey),
            None => false,
        };
        if !owner_matches {
            return Err(EscrowError::IdentityMismatch);
        }
        if !same_identity(&acc.temp_token_account, &record.temp_token_account_pubkey) {
            return Err(EscrowError::IdentityMismatch);
        }
        if !same_identity(&acc.initializer_main_account, &record.initializer_pubkey) {
            return Err(EscrowError::IdentityMismatch);
        }
        let authority = derive_authority(&ESCROW_SEED, &acc.program_id)?;
        let transfer = TokenCall::Transfer {
            source: acc.temp_token_account,
            destination: acc.receiver_token_account,
            authority: authority.address,
            amount: record.escrow_amount,
        };
        let close = TokenCall::Close {
            account: acc.temp_token_account,
            destination: acc.initializer_main_account,
            authority: authority.address,
        };
        let transfer_instruction = transfer.to_instruction(&acc.token_program)?;
        let close_instruction = close.to_instruction(&acc.token_program)?;
        Ok(ReleasePlan { record, authority, transfer, close, transfer_instruction, close_instruction })
    }

    /// Releases a matured escrow: reads the owner of the receiving account
    /// from its stored bytes, then decides as `plan_release` does.
    pub fn process_release_escrow(acc: &ReleaseEscrowAccounts) -> (r: Result<ReleasePlan, EscrowError>)
        ensures
            release_rejection(*acc, token_account_owner(acc.receiver_token_data@)) matches Some(e)
                ==> r matches Err(f) && f == e,
            release_rejection(*acc, token_account_owner(acc.receiver_token_data@)) is None ==> match r {
                Ok(p) => {
                    &&& Some(p.record) == decode_escrow(acc.escrow_data@)
                    &&& derived_authority(ESCROW_SEED@, acc.program_id@) == Some(
                        (p.authority.address@, p.authority.bump),
                    )
                    &&& p.transfer == (TokenCall::Transfer {
                        source: acc.temp_token_account,
                        destination: acc.receiver_token_account,
                        authority: p.authority.address,
                        amount: p.record.escrow_amount,
                    })
                    &&& p.close == (TokenCall::Close {
                        account: acc.temp_token_account,
                        destination: acc.initializer_main_account,
                        authority: p.authority.address,
                    })
                    &&& p.transfer.built_as(p.transfer_instruction, acc.token_program)
                    &&& p.close.built_as(p.close_instruction, acc.token_program)
                },
                Err(e) => {
                    ||| (e == EscrowError::AuthorityUnavailable && derived_authority(
                        ESCROW_SEED@,
                        acc.program_id@,
                    ) is None)
                    ||| (e == EscrowError::IncorrectProgramId && acc.token_program@
                        != token_program_id())
                },
            },
    {
        let owner = read_token_account_owner(acc.receiver_token_data.as_slice());
        Self::plan_release(acc, owner)
    }

    /// Ends a release once both token calls have run: credits the
    /// depositor's account with the record storage's balance and empties
    /// that storage, leaving zeros of the same width.  Fails with
    /// `AmountOverflow`, and changes nothing, where the credit would exceed
    /// the largest balance.
    pub fn settle_release(refund_lamports: u64, escrow_lamports: u64, escrow_len: usize) -> (r:
        Result<Settlement, EscrowError>)
        ensures
            r is Ok <==> refund_lamports + escrow_lamports <= u64::MAX,
            r matches Ok(s) ==> {
                &&& s.refund_lamports == refund_lamports + escrow_lamports
                &&& s.escrow_lamports == 0
                &&& s.escrow_data@.len() == escrow_len
                &&& all_zero(s.escrow_data@)
            },
            r matches Err(e) ==> e == EscrowError::AmountOverflow,
    {
        let refund = match refund_lamports.checked_add(escrow_lamports) {
            Some(v) => v,
            None => return Err(EscrowError::AmountOverflow),
        };
        let mut escrow_data: Vec<u8> = Vec::new();
        let mut i: usize = 0;
        while i < escrow_len
            invariant
                i <= escrow_len,
                escrow_data@.len() == i,
                all_zero(escrow_data@),
            decreases escrow_len - i,
        {
            escrow_data.push(0u8);
            i = i + 1;
        }
        Ok(Settlement { refund_lamports: refund, escrow_lamports: 0, escrow_data })
    }

    /// The no-op acknowledgement: changes nothing and answers with a blank
    /// record.
    pub fn process_echo_oracle() -> (r: EscrowState)
        ensures
            r.is_blank(),
            r.caller_pubkey is None,
    {
        EscrowState {
            is_initialized: false,
            caller_pubkey: None,
            initializer_pubkey: zero_identity(),
            receiver_pubkey: zero_identity(),
            temp_token_account_pubkey: zero_identity(),
            escrow_amount: 0,
            expire_date: 0,
        }
    }
}

} // verus!
