use vstd::prelude::*;
use vstd::bytes::spec_u64_to_le_bytes;
use solana_program::program_pack::Pack;
use solana_program::pubkey::Pubkey;
use spl_token::instruction::AuthorityType;
use crate::error::EscrowError;
use crate::layout::{identity_view, Identity};

verus! {

/// The bytes of "escrow": seed of the keyless authority that holds
/// escrowed accounts.
pub const ESCROW_SEED: [u8; 6] = [101, 115, 99, 114, 111, 119];

/// The bytes of "escrow_w": seed of the keyless authority that holds
/// registered wallet accounts.
pub const ESCROW_WALLET_SEED: [u8; 8] = [101, 115, 99, 114, 111, 119, 95, 119];

/// The identity of the token program, the only program whose token
/// instructions this engine builds.
pub open spec fn token_program_id() -> Seq<u8> {
    seq![
        6u8, 221, 246, 225, 215, 101, 161, 147, 217, 203, 225, 70, 206, 235, 121, 172, 28, 180,
        133, 237, 95, 91, 55, 145, 58, 140, 245, 133, 126, 255, 0, 169,
    ]
}

/// One account that an instruction names, with its access.
#[derive(Clone, Copy, Debug, PartialEq, Eq)]
pub struct AccountRef {
    pub address: Identity,
    pub is_signer: bool,
    pub is_writable: bool,
}

/// An instruction for another program, as plain values: the program, the
/// accounts it names in order, and its data.
#[derive(Clone, Debug, PartialEq, Eq)]
pub struct ProgramInstruction {
    pub program_id: Identity,
    pub accounts: Vec<AccountRef>,
    pub data: Vec<u8>,
}

pub open spec fn meta(address: Identity, is_signer: bool, is_writable: bool) -> AccountRef {
    AccountRef { address, is_signer, is_writable }
}

/// The keyless address and bump that a program derives from one seed, if
/// the search finds one.
pub uninterp spec fn derived_authority(seed: Seq<u8>, program_id: Seq<u8>) -> Option<(Seq<u8>, u8)>;

/// Relies on `Pubkey::try_find_program_address`, which searches the bump
/// seeds deterministically: the result depends on the seed and the program
/// alone.
#[verifier::external_body]
fn try_find_program_address(seed: &[u8], program_id: &Identity) -> (r: Option<(Identity, u8)>)
    ensures
        derived_authority(seed@, program_id@) == (match r {
            Some((a, b)) => Some((a@, b)),
            None => None,
        }),
{
    match Pubkey::try_find_program_address(&[seed], &Pubkey::new_from_array(*program_id)) {
        Some((address, bump)) => Some((address.to_bytes(), bump)),
        None => None,
    }
}

/// Relies on `spl_token::instruction::set_authority` with the account-owner
/// authority type: it fails exactly when the program given is not the
/// token program, and otherwise names the account, then the owner twice
/// (once as signer), with data 6, 2, 1 and the new owner.
#[verifier::external_body]
fn set_owner_instruction(
    token_program: &Identity,
    account: &Identity,
    new_owner: &Identity,
    owner: &Identity,
) -> (r: Option<ProgramInstruction>)
    ensures
        r is Some <==> token_program@ == token_program_id(),
        r matches Some(ix) ==> {
            &&& ix.program_id == *token_program
            &&& ix.accounts@ == seq![meta(*account, false, true), meta(*owner, false, false), meta(*owner, true, false)]
            &&& ix.data@ == seq![6u8, 2u8, 1u8] + new_owner@
        },
{
    let (program, account, new_owner) = (Pubkey::new_from_array(*token_program), Pubkey::new_from_array(*account), Pubkey::new_from_array(*new_owner));
    let owner = Pubkey::new_from_array(*owner);
    spl_token::instruction::set_authority(&program, &account, Some(&new_owner), AuthorityType::AccountOwner, &owner, &[&owner])
        .ok()
        .map(|ix| ProgramInstruction {
            program_id: ix.program_id.to_bytes(),
            accounts: ix.accounts.iter().map(|m| AccountRef { address: m.pubkey.to_bytes(), is_signer: m.is_signer, is_writable: m.is_writable }).collect(),
            data: ix.data,
        })
}

/// Relies on `spl_token::instruction::transfer`: it fails exactly when the
/// program given is not the token program, and otherwise names source,
/// destination, then the authority twice (once as signer), with data 3
/// and the amount in little-endian bytes.
#[verifier::external_body]
fn transfer_instruction(
    token_program: &Identity,
    source: &Identity,
    destination: &Identity,
    authority: &Identity,
    amount: u64,
) -> (r: Option<ProgramInstruction>)
    ensures
        r is Some <==> token_program@ == token_program_id(),
        r matches Some(ix) ==> {
            &&& ix.program_id == *token_program
            &&& ix.accounts@ == seq![meta(*source, false, true), meta(*destination, false, true), meta(*authority, false, false), meta(*authority, true, false)]
            &&& ix.data@ == seq![3u8] + spec_u64_to_le_bytes(amount)
        },
{
    let (program, source, destination) = (Pubkey::new_from_array(*token_program), Pubkey::new_from_array(*source), Pubkey::new_from_array(*destination));
    let authority = Pubkey::new_from_array(*authority);
    spl_token::instruction::transfer(&program, &source, &destination, &authority, &[&authority], amount)
        .ok()
        .map(|ix| ProgramInstruction {
            program_id: ix.program_id.to_bytes(),
            accounts: ix.accounts.iter().map(|m| AccountRef { address: m.pubkey.to_bytes(), is_signer: m.is_signer, is_writable: m.is_writable }).collect(),
            data: ix.data,
        })
}

/// Relies on `spl_token::instruction::close_account`: it fails exactly
/// when the program given is not the token program, and otherwise names
/// the account, the destination, then the authority twice (once as
/// signer), with data 9.
#[verifier::external_body]
fn close_account_instruction(
    token_program: &Identity,
    account: &Identity,
    destination: &Identity,
    authority: &Identity,
) -> (r: Option<ProgramInstruction>)
    ensures
        r is Some <==> token_program@ == token_program_id(),
        r matches Some(ix) ==> {
            &&& ix.program_id == *token_program
            &&& ix.accounts@ == seq![meta(*account, false, true), meta(*destination, false, true), meta(*authority, false, false), meta(*authority, true, false)]
            &&& ix.data@ == seq![9u8]
        },
{
    let (program, account, destination) = (Pubkey::new_from_array(*token_program), Pubkey::new_from_array(*account), Pubkey::new_from_array(*destination));
    let authority = Pubkey::new_from_array(*authority);
    spl_token::instruction::close_account(&program, &account, &destination, &authority, &[&authority])
        .ok()
        .map(|ix| ProgramInstruction {
            program_id: ix.program_id.to_bytes(),
            accounts: ix.accounts.iter().map(|m| AccountRef { address: m.pubkey.to_bytes(), is_signer: m.is_signer, is_writable: m.is_writable }).collect(),
            data: ix.data,
        })
}

/// Whether the four bytes at `at` are a well-formed option tag: 1 or 0,
/// then three zeros.
pub open spec fn option_tag_ok(data: Seq<u8>, at: int) -> bool {
    &&& (data[at] == 0 || data[at] == 1)
    &&& data[at + 1] == 0
    &&& data[at + 2] == 0
    &&& data[at + 3] == 0
}

/// The owner that a token account's stored bytes name: they must be 165
/// bytes, in the initialized or frozen state, with well-formed delegate,
/// native and close-authority tags; the owner is bytes 32 to 64.
pub open spec fn token_account_owner(data: Seq<u8>) -> Option<Seq<u8>> {
    if data.len() == 165 && (data[108] == 1 || data[108] == 2) && option_tag_ok(data, 72)
        && option_tag_ok(data, 109) && option_tag_ok(data, 129) {
        Some(data.subrange(32, 64))
    } else {
        None
    }
}

/// Relies on `spl_token::state::Account::unpack`, which reads a token
/// account as `token_account_owner` states.
#[verifier::external_body]
pub(crate) fn read_token_account_owner(data: &[u8]) -> (r: Option<Identity>)
    ensures
        identity_view(r) == token_account_owner(data@),
{
    match spl_token::state::Account::unpack(data) {
        Ok(account) => Some(account.owner.to_bytes()),
        Err(_) => None,
    }
}

/// The keyless authority of this program for one seed: it signs for
/// the accounts it holds only through this program.
#[derive(Clone, Copy, Debug, PartialEq, Eq)]
pub struct Authority {
    pub address: Identity,
    pub bump: u8,
}

/// Derives the keyless authority of `program_id` for `seed`.  Fails with
/// `AuthorityUnavailable` exactly when the derivation finds no address.
pub fn derive_authority(seed: &[u8], program_id: &Identity) -> (r: Result<Authority, EscrowError>)
    ensures
        r matches Ok(a) ==> derived_authority(seed@, program_id@) == Some((a.address@, a.bump)),
        r matches Err(e) ==> derived_authority(seed@, program_id@) is None
            && e == EscrowError::AuthorityUnavailable,
{
    match try_find_program_address(seed, program_id) {
        Some((address, bump)) => Ok(Authority { address, bump }),
        None => Err(EscrowError::AuthorityUnavailable),
    }
}

/// One operation of the token ledger that the engine asks the host to run.
#[derive(Clone, Copy, Debug, PartialEq, Eq)]
pub enum TokenCall {
    /// Hands control of `account` from `owner`, who signs, to `new_owner`.
    SetOwner { account: Identity, new_owner: Identity, owner: Identity },
    /// Moves `amount` from `source` to `destination`, authorized by `authority`.
    Transfer { source: Identity, destination: Identity, authority: Identity, amount: u64 },
    /// Closes `account`, returning its reserve to `destination`.
    Close { account: Identity, destination: Identity, authority: Identity },
}

impl TokenCall {
    /// The accounts that the token program's instruction for this call names.
    pub open spec fn spec_accounts(self) -> Seq<AccountRef> {
        match self {
            TokenCall::SetOwner { account, new_owner, owner } => seq![
                meta(account, false, true),
                meta(owner, false, false),
                meta(owner, true, false),
            ],
            TokenCall::Transfer { source, destination, authority, amount } => seq![
                meta(source, false, true),
                meta(destination, false, true),
                meta(authority, false, false),
                meta(authority, true, false),
            ],
            TokenCall::Close { account, destination, authority } => seq![
                meta(account, false, true),
                meta(destination, false, true),
                meta(authority, false, false),
                meta(authority, true, false),
            ],
        }
    }

    /// The data of the token program's instruction for this call.
    pub open spec fn spec_data(self) -> Seq<u8> {
        match self {
            TokenCall::SetOwner { new_owner, .. } => seq![6u8, 2u8, 1u8] + new_owner@,
            TokenCall::Transfer { amount, .. } => seq![3u8] + spec_u64_to_le_bytes(amount),
            TokenCall::Close { .. } => seq![9u8],
        }
    }

    /// Whether `ix` is the token program's instruction for this call.
    pub open spec fn built_as(self, ix: ProgramInstruction, token_program: Identity) -> bool {
        &&& ix.program_id == token_program
        &&& ix.accounts@ == self.spec_accounts()
        &&& ix.data@ == self.spec_data()
    }

    /// Builds the token program's instruction for this call.  Fails with
    /// `IncorrectProgramId` exactly when `token_program` is not the token
    /// program.
    pub fn to_instruction(&self, token_program: &Identity) -> (r: Result<ProgramInstruction, EscrowError>)
        ensures
            r is Ok <==> token_program@ == token_program_id(),
            r matches Ok(ix) ==> self.built_as(ix, *token_program),
            r matches Err(e) ==> e == EscrowError::IncorrectProgramId,
    {
        let built = match self {
            TokenCall::SetOwner { account, new_owner, owner } => {
                set_owner_instruction(token_program, account, new_owner, owner)
            },
            TokenCall::Transfer { source, destination, authority, amount } => {
                transfer_instruction(token_program, source, destination, authority, *amount)
            },
            TokenCall::Close { account, destination, authority } => {
                close_account_instruction(token_program, account, destination, authority)
            },
        };
        match built {
            Some(ix) => Ok(ix),
            None => Err(EscrowError::IncorrectProgramId),
        }
    }
}

} // verus!
