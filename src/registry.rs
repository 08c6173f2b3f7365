use vstd::prelude::*;
use crate::error::EscrowError;
use crate::layout::{bool_tag, is_bool_tag, push_identity, read_identity, Identity};
use crate::state::read_flag;

verus! {

/// Width of a registry record: flag, initializer, token account.
pub const ESCROW_REGISTRY_STATE_LEN: usize = 65;

/// Width of a wallet escrow record: flag, initializer, receiver, token account.
pub const WALLET_ESCROW_STATE_LEN: usize = 97;

/// Binds a wallet's token account to the custody authority, without terms.
#[derive(Clone, Copy, Debug, PartialEq, Eq)]
pub struct EscrowRegistryState {
    pub is_initialized: bool,
    pub initializer_pubkey: Identity,
    pub token_account_pubkey: Identity,
}

/// A registry binding that also names the receiver.
#[derive(Clone, Copy, Debug, PartialEq, Eq)]
pub struct WalletEscrowState {
    pub is_initialized: bool,
    pub initializer_pubkey: Identity,
    pub receiver_pubkey: Identity,
    pub token_account_pubkey: Identity,
}

/// The registry record a buffer holds, if it holds one.
pub open spec fn decode_registry(s: Seq<u8>) -> Option<EscrowRegistryState> {
    if s.len() == ESCROW_REGISTRY_STATE_LEN && is_bool_tag(s[0]) {
        Some(choose|st: EscrowRegistryState| st.encoded() == s)
    } else {
        None
    }
}

/// The wallet escrow record a buffer holds, if it holds one.
pub open spec fn decode_wallet_escrow(s: Seq<u8>) -> Option<WalletEscrowState> {
    if s.len() == WALLET_ESCROW_STATE_LEN && is_bool_tag(s[0]) {
        Some(choose|st: WalletEscrowState| st.encoded() == s)
    } else {
        None
    }
}

impl EscrowRegistryState {
    pub open spec fn encoded(self) -> Seq<u8> {
        seq![bool_tag(self.is_initialized)] + self.initializer_pubkey@
            + self.token_account_pubkey@
    }

    pub fn is_initialized(&self) -> (r: bool)
        ensures
            r == self.is_initialized,
    {
        self.is_initialized
    }

    /// Decodes a registry record; `MalformedRecord` exactly where the
    /// width or the flag byte is wrong.
    pub fn unpack_from_slice(src: &[u8]) -> (r: Result<EscrowRegistryState, EscrowError>)
        ensures
            r is Ok <==> (src@.len() == ESCROW_REGISTRY_STATE_LEN && is_bool_tag(src@[0])),
            r matches Ok(st) ==> st.encoded() == src@ && Some(st) == decode_registry(src@),
            r matches Err(e) ==> e == EscrowError::MalformedRecord,
    {
        if src.len() != ESCROW_REGISTRY_STATE_LEN {
            return Err(EscrowError::MalformedRecord);
        }
        let is_initialized = match read_flag(src, 0) {
            Some(b) => b,
            None => return Err(EscrowError::MalformedRecord),
        };
        let st = EscrowRegistryState {
            is_initialized,
            initializer_pubkey: read_identity(src, 1),
            token_account_pubkey: read_identity(src, 33),
        };
        proof {
            assert(st.encoded() =~= src@);
            lemma_registry_encoding_injective(st);
        }
        Ok(st)
    }

    pub fn pack(&self) -> (r: Vec<u8>)
        ensures
            r@ == self.encoded(),
            r@.len() == ESCROW_REGISTRY_STATE_LEN,
    {
        let mut out: Vec<u8> = Vec::new();
        out.push(if self.is_initialized { 1u8 } else { 0u8 });
        push_identity(&mut out, &self.initializer_pubkey);
        push_identity(&mut out, &self.token_account_pubkey);
        proof {
            assert(out@ =~= self.encoded());
        }
        out
    }
}

impl WalletEscrowState {
    pub open spec fn encoded(self) -> Seq<u8> {
        seq![bool_tag(self.is_initialized)] + self.initializer_pubkey@ + self.receiver_pubkey@
            + self.token_account_pubkey@
    }

    pub fn is_initialized(&self) -> (r: bool)
        ensures
            r == self.is_initialized,
    {
        self.is_initialized
    }

    /// Decodes a wallet escrow record; `MalformedRecord` exactly where the
    /// width or the flag byte is wrong.
    pub fn unpack_from_slice(src: &[u8]) -> (r: Result<WalletEscrowState, EscrowError>)
        ensures
            r is Ok <==> (src@.len() == WALLET_ESCROW_STATE_LEN && is_bool_tag(src@[0])),
            r matches Ok(st) ==> st.encoded() == src@ && Some(st) == decode_wallet_escrow(src@),
            r matches Err(e) ==> e == EscrowError::MalformedRecord,
    {
        if src.len() != WALLET_ESCROW_STATE_LEN {
            return Err(EscrowError::MalformedRecord);
        }
        let is_initialized = match read_flag(src, 0) {
            Some(b) => b,
            None => return Err(EscrowError::MalformedRecord),
        };
        let st = WalletEscrowState {
            is_initialized,
            initializer_pubkey: read_identity(src, 1),
            receiver_pubkey: read_identity(src, 33),
            token_account_pubkey: read_identity(src, 65),
        };
        proof {
            assert(st.encoded() =~= src@);
            lemma_wallet_escrow_encoding_injective(st);
        }
        Ok(st)
    }

    pub fn pack(&self) -> (r: Vec<u8>)
        ensures
            r@ == self.encoded(),
            r@.len() == WALLET_ESCROW_STATE_LEN,
    {
        let mut out: Vec<u8> = Vec::new();
        out.push(if self.is_initialized { 1u8 } else { 0u8 });
        push_identity(&mut out, &self.initializer_pubkey);
        push_identity(&mut out, &self.receiver_pubkey);
        push_identity(&mut out, &self.token_account_pubkey);
        proof {
            assert(out@ =~= self.encoded());
        }
        out
    }
}

/// Decoding an encoded registry record gives back that record.
pub proof fn lemma_registry_encoding_injective(st: EscrowRegistryState)
    ensures
        st.encoded().len() == ESCROW_REGISTRY_STATE_LEN,
        forall|o: EscrowRegistryState| #[trigger] o.encoded() == st.encoded() ==> o == st,
        decode_registry(st.encoded()) == Some(st),
{
    let s = st.encoded();
    assert forall|o: EscrowRegistryState| #[trigger] o.encoded() == st.encoded() implies o
        == st by {
        assert(o.encoded()[0] == s[0]);
        assert(o.initializer_pubkey@ =~= s.subrange(1, 33));
        assert(st.initializer_pubkey@ =~= s.subrange(1, 33));
        assert(o.initializer_pubkey =~= st.initializer_pubkey);
        assert(o.token_account_pubkey@ =~= s.subrange(33, 65));
        assert(st.token_account_pubkey@ =~= s.subrange(33, 65));
        assert(o.token_account_pubkey =~= st.token_account_pubkey);
    };
}

/// Decoding an encoded wallet escrow record gives back that record.
pub proof fn lemma_wallet_escrow_encoding_injective(st: WalletEscrowState)
    ensures
        st.encoded().len() == WALLET_ESCROW_STATE_LEN,
        forall|o: WalletEscrowState| #[trigger] o.encoded() == st.encoded() ==> o == st,
        decode_wallet_escrow(st.encoded()) == Some(st),
{
    let s = st.encoded();
    assert forall|o: WalletEscrowState| #[trigger] o.encoded() == st.encoded() implies o
        == st by {
        assert(o.encoded()[0] == s[0]);
        assert(o.initializer_pubkey@ =~= s.subrange(1, 33));
        assert(st.initializer_pubkey@ =~= s.subrange(1, 33));
        assert(o.initializer_pubkey =~= st.initializer_pubkey);
        assert(o.receiver_pubkey@ =~= s.subrange(33, 65));
        assert(st.receiver_pubkey@ =~= s.subrange(33, 65));
        assert(o.receiver_pubkey =~= st.receiver_pubkey);
        assert(o.token_account_pubkey@ =~= s.subrange(65, 97));
        assert(st.token_account_pubkey@ =~= s.subrange(65, 97));
        assert(o.token_account_pubkey =~= st.token_account_pubkey);
    };
}

} // verus!
