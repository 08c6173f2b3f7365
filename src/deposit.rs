use vstd::prelude::*;
use vstd::bytes::u64_to_le_bytes;
use sha2::Digest;
use solana_program::pubkey::Pubkey;
use crate::custody::{derive_authority, derived_authority, meta, AccountRef, Authority, ProgramInstruction};
use crate::error::EscrowError;
use crate::layout::{identity_view, push_bytes, push_identity, Identity};
use crate::state::i64_bytes;

verus! {

/// The SHA-256 digest of a byte string.
pub uninterp spec fn sha256_of(data: Seq<u8>) -> Seq<u8>;

/// Relies on `sha2::Sha256::digest`: a 32-byte digest of the input alone.
#[verifier::external_body]
fn sha256(data: &[u8]) -> (r: [u8; 32])
    ensures
        r@ == sha256_of(data@),
{
    sha2::Sha256::digest(data).into()
}

/// The lowercase ASCII hex digit of a value below 16.
pub open spec fn hex_digit(n: u8) -> u8 {
    if n < 10 {
        (48 + n) as u8
    } else {
        (87 + n) as u8
    }
}

/// Lowercase hex text of a byte string, high digit first, as ASCII bytes.
pub open spec fn hex_ascii(b: Seq<u8>) -> Seq<u8>
    decreases b.len(),
{
    if b.len() == 0 {
        Seq::empty()
    } else {
        seq![hex_digit(b[0] / 16), hex_digit(b[0] % 16)] + hex_ascii(b.drop_first())
    }
}

/// Relies on `hex::encode`: two lowercase digits per byte, high digit first.
#[verifier::external_body]
fn hex_encode(b: &[u8]) -> (r: Vec<u8>)
    ensures
        r@ == hex_ascii(b@),
{
    hex::encode(b).into_bytes()
}

/// The identity of the associated token account program.
pub open spec fn associated_token_program_id() -> Seq<u8> {
    seq![
        140u8, 151, 37, 143, 78, 36, 137, 241, 187, 61, 16, 41, 20, 142, 13, 131, 11, 90, 19, 153,
        218, 255, 16, 132, 4, 142, 123, 216, 219, 233, 248, 89,
    ]
}

/// The identity of the system program: all zeros.
pub open spec fn system_program() -> Identity {
    vstd::array::spec_array_fill_for_copy_type::<u8, 32>(0u8)
}

/// The associated token account address of a wallet for a mint, if the
/// derivation finds one.
pub uninterp spec fn associated_address(wallet: Seq<u8>, mint: Seq<u8>, token_program: Seq<u8>) -> Option<Seq<u8>>;

/// Relies on `Pubkey::try_find_program_address` over the seeds wallet,
/// token program and mint under the associated token account program, the
/// derivation that program uses for its addresses; deterministic.
#[verifier::external_body]
fn find_associated_address(wallet: &Identity, mint: &Identity, token_program: &Identity) -> (r: Option<Identity>)
    ensures
        identity_view(r) == associated_address(wallet@, mint@, token_program@),
{
    let seeds: [&[u8]; 3] = [wallet, token_program, mint];
    match Pubkey::try_find_program_address(&seeds, &spl_associated_token_account::id()) {
        Some((address, _)) => Some(address.to_bytes()),
        None => None,
    }
}

/// Relies on `spl_associated_token_account::instruction::create_associated_token_account`:
/// where the associated address can be derived, it names the funding
/// account (signer), that address, the wallet, the mint, the system program
/// and the token program, with data 0; it panics where it cannot.
#[verifier::external_body]
fn create_token_account_instruction(
    funding: &Identity,
    wallet: &Identity,
    mint: &Identity,
    token_program: &Identity,
) -> (r: ProgramInstruction)
    requires
        associated_address(wallet@, mint@, token_program@) is Some,
    ensures
        r.program_id@ == associated_token_program_id(),
        r.accounts@ == seq![meta(*funding, true, true), meta(r.accounts@[1].address, false, true), meta(*wallet, false, false), meta(*mint, false, false), meta(system_program(), false, false), meta(*token_program, false, false)],
        associated_address(wallet@, mint@, token_program@) == Some(r.accounts@[1].address@),
        r.data@ == seq![0u8],
{
    let (funding, wallet) = (Pubkey::new_from_array(*funding), Pubkey::new_from_array(*wallet));
    let (mint, program) = (Pubkey::new_from_array(*mint), Pubkey::new_from_array(*token_program));
    let ix = spl_associated_token_account::instruction::create_associated_token_account(&funding, &wallet, &mint, &program);
    ProgramInstruction {
        program_id: ix.program_id.to_bytes(),
        accounts: ix.accounts.iter().map(|m| AccountRef { address: m.pubkey.to_bytes(), is_signer: m.is_signer, is_writable: m.is_writable }).collect(),
        data: ix.data,
    }
}

proof fn lemma_hex_first(b: Seq<u8>)
    requires
        b.len() > 0,
    ensures
        hex_ascii(b).len() >= 2,
        hex_ascii(b)[0] == hex_digit(b[0] / 16),
{
    reveal_with_fuel(hex_ascii, 2);
}

/// The seed byte of a deposit account: the first hex digit of the digest.
pub fn seed_from_digest(digest: &[u8; 32]) -> (r: u8)
    ensures
        r == hex_digit(digest@[0] / 16),
{
    let text = hex_encode(digest.as_slice());
    proof {
        lemma_hex_first(digest@);
    }
    text[0]
}

/// The message whose digest seeds a deposit account: the time in
/// little-endian bytes, then the seller.
pub open spec fn deposit_message(timestamp: i64, seller: Identity) -> Seq<u8> {
    i64_bytes(timestamp) + seller@
}

/// The seed byte of the deposit account that `seller` opens at `timestamp`.
pub fn deposit_seed(timestamp: i64, seller: &Identity) -> (r: u8)
    ensures
        r == deposit_seed_of(timestamp, *seller),
{
    let mut message: Vec<u8> = Vec::new();
    push_bytes(&mut message, &u64_to_le_bytes(timestamp as u64));
    push_identity(&mut message, seller);
    let digest = sha256(message.as_slice());
    seed_from_digest(&digest)
}

/// What the host read to open a deposit account for a seller.
pub struct DepositAccounts {
    pub seller: Identity,
    pub now: i64,
    /// The mint of the deposited token.
    pub mint: Identity,
    pub program_id: Identity,
    pub token_program: Identity,
}

/// The deposit account to open: the keyless address derived from the
/// one-byte seed, its associated token account, and the instruction that
/// creates that account, to be signed with that seed and bump.
pub struct DepositAccountPlan {
    pub seed: u8,
    pub authority: Authority,
    pub token_account: Identity,
    pub instruction: ProgramInstruction,
}

/// The seed byte of the deposit account that `seller` opens at `now`.
pub open spec fn deposit_seed_of(now: i64, seller: Identity) -> u8 {
    hex_digit(sha256_of(deposit_message(now, seller))[0] / 16)
}

/// Plans the token account that holds a seller's deposit.  The address is
/// derived from a seed byte taken from the digest of the time and the
/// seller, and its associated token account from that address and the
/// mint; this fails with `AuthorityUnavailable` exactly where either
/// derivation finds nothing.
pub fn plan_deposit_account(acc: &DepositAccounts) -> (r: Result<DepositAccountPlan, EscrowError>)
    ensures
        match r {
            Ok(p) => {
                &&& p.seed == deposit_seed_of(acc.now, acc.seller)
                &&& derived_authority(seq![p.seed], acc.program_id@) == Some(
                    (p.authority.address@, p.authority.bump),
                )
                &&& associated_address(p.authority.address@, acc.mint@, acc.token_program@)
                    == Some(p.token_account@)
                &&& p.instruction.program_id@ == associated_token_program_id()
                &&& p.instruction.accounts@ == seq![
                    meta(p.authority.address, true, true),
                    meta(p.token_account, false, true),
                    meta(p.authority.address, false, false),
                    meta(acc.mint, false, false),
                    meta(system_program(), false, false),
                    meta(acc.token_program, false, false),
                ]
                &&& p.instruction.data@ == seq![0u8]
            },
            Err(e) => e == EscrowError::AuthorityUnavailable && match derived_authority(
                seq![deposit_seed_of(acc.now, acc.seller)],
                acc.program_id@,
            ) {
                None => true,
                Some((address, _)) => associated_address(address, acc.mint@, acc.token_program@) is None,
            },
        },
{
    let seed = deposit_seed(acc.now, &acc.seller);
    let seeds: [u8; 1] = [seed];
    assert(seeds@ =~= seq![seed]);
    let authority = derive_authority(seeds.as_slice(), &acc.program_id)?;
    let token_account = match find_associated_address(&authority.address, &acc.mint, &acc.token_program) {
        Some(a) => a,
        None => return Err(EscrowError::AuthorityUnavailable),
    };
    let instruction = create_token_account_instruction(
        &authority.address,
        &authority.address,
        &acc.mint,
        &acc.token_program,
    );
    assert(instruction.accounts@[1].address@ == token_account@);
    assert(instruction.accounts@[1].address =~= token_account);
    Ok(DepositAccountPlan { seed, authority, token_account, instruction })
}

} // verus!
