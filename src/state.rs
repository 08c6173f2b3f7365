use vstd::prelude::*;
use vstd::bytes::{
    lemma_auto_spec_u64_to_from_le_bytes, spec_u64_from_le_bytes, spec_u64_to_le_bytes,
    u64_from_le_bytes, u64_to_le_bytes,
};
use vstd::slice::slice_subrange;
use crate::error::EscrowError;
use crate::layout::{bool_tag, is_bool_tag, push_bytes, push_identity, read_identity, Identity};

verus! {

/// Width of an escrow record: flag, initializer, receiver, holding account,
/// amount and maturity time.
pub const ESCROW_STATE_LEN: usize = 113;

/// Width of an escrow record that also binds the relayer that funded it.
pub const RELAYED_ESCROW_STATE_LEN: usize = 145;

/// The bytes of a signed time, stored as its two's-complement bits.
pub open spec fn i64_bytes(x: i64) -> Seq<u8> {
    spec_u64_to_le_bytes(x as u64)
}

/// The time that eight little-endian bytes hold.
pub open spec fn i64_of_bytes(s: Seq<u8>) -> i64 {
    spec_u64_from_le_bytes(s) as i64
}

/// The bytes of an optional relayer identity: absent in the plain schema.
pub open spec fn caller_bytes(c: Option<Identity>) -> Seq<u8> {
    match c {
        Some(id) => id@,
        None => Seq::empty(),
    }
}

/// A signed time survives the trip through its unsigned bits.
pub proof fn lemma_i64_bits(x: i64)
    ensures
        ((x as u64) as i64) == x,
{
    assert(((x as u64) as i64) == x) by (bit_vector);
}

/// Unsigned bits survive the trip through a signed time.
pub proof fn lemma_u64_bits(x: u64)
    ensures
        ((x as i64) as u64) == x,
{
    assert(((x as i64) as u64) == x) by (bit_vector);
}

/// Reads a little-endian `u64` at `off`.
pub fn read_u64(s: &[u8], off: usize) -> (r: u64)
    requires
        off + 8 <= s@.len(),
    ensures
        r == spec_u64_from_le_bytes(s@.subrange(off as int, off + 8)),
{
    let n: usize = s.len();
    assert(off + 8 <= n);
    u64_from_le_bytes(slice_subrange(s, off, off + 8))
}

/// Reads a little-endian `i64` at `off`.
pub fn read_i64(s: &[u8], off: usize) -> (r: i64)
    requires
        off + 8 <= s@.len(),
    ensures
        r == i64_of_bytes(s@.subrange(off as int, off + 8)),
{
    read_u64(s, off) as i64
}

/// Reads the flag byte at `off`; `None` where it is neither 0 nor 1.
pub fn read_flag(s: &[u8], off: usize) -> (r: Option<bool>)
    requires
        off < s@.len(),
    ensures
        r == (if is_bool_tag(s@[off as int]) { Some(s@[off as int] == 1) } else { None }),
{
    let t = s[off];
    if t == 0 {
        Some(false)
    } else if t == 1 {
        Some(true)
    } else {
        None
    }
}

/// One escrow record.  `caller_pubkey` is present exactly in the relayed
/// schema, which is told apart from the plain one by the record's width.
#[derive(Clone, Copy, Debug, PartialEq, Eq)]
pub struct EscrowState {
    pub is_initialized: bool,
    pub caller_pubkey: Option<Identity>,
    pub initializer_pubkey: Identity,
    pub receiver_pubkey: Identity,
    pub temp_token_account_pubkey: Identity,
    pub escrow_amount: u64,
    pub expire_date: i64,
}

/// Whether a buffer has the shape of an escrow record: one of the two
/// widths, and a flag byte of 0 or 1.
pub open spec fn escrow_layout_ok(s: Seq<u8>) -> bool {
    &&& (s.len() == ESCROW_STATE_LEN || s.len() == RELAYED_ESCROW_STATE_LEN)
    &&& is_bool_tag(s[0])
}

/// The record a buffer holds, if it holds one.
pub open spec fn decode_escrow(s: Seq<u8>) -> Option<EscrowState> {
    if escrow_layout_ok(s) {
        Some(choose|st: EscrowState| st.encoded() == s)
    } else {
        None
    }
}

impl EscrowState {
    /// The stored bytes of this record, fields in declaration order.
    pub open spec fn encoded(self) -> Seq<u8> {
        seq![bool_tag(self.is_initialized)] + caller_bytes(self.caller_pubkey)
            + self.initializer_pubkey@ + self.receiver_pubkey@
            + self.temp_token_account_pubkey@ + spec_u64_to_le_bytes(self.escrow_amount)
            + i64_bytes(self.expire_date)
    }

    /// The width of this record's schema.
    pub open spec fn width(self) -> nat {
        if self.caller_pubkey is Some {
            RELAYED_ESCROW_STATE_LEN as nat
        } else {
            ESCROW_STATE_LEN as nat
        }
    }

    /// The all-zero record of a schema: what an unused storage holds.
    pub open spec fn is_blank(self) -> bool {
        &&& !self.is_initialized
        &&& (self.caller_pubkey matches Some(c) ==> c@ == Seq::new(32, |i: int| 0u8))
        &&& self.initializer_pubkey@ == Seq::new(32, |i: int| 0u8)
        &&& self.receiver_pubkey@ == Seq::new(32, |i: int| 0u8)
        &&& self.temp_token_account_pubkey@ == Seq::new(32, |i: int| 0u8)
        &&& self.escrow_amount == 0
        &&& self.expire_date == 0
    }

    pub fn is_initialized(&self) -> (r: bool)
        ensures
            r == self.is_initialized,
    {
        self.is_initialized
    }

    /// Decodes a record.  Fails with `MalformedRecord` exactly where the
    /// buffer has neither width or its flag byte is not 0 or 1.
    pub fn unpack_from_slice(src: &[u8]) -> (r: Result<EscrowState, EscrowError>)
        ensures
            r is Ok <==> escrow_layout_ok(src@),
            r matches Ok(st) ==> st.encoded() == src@ && Some(st) == decode_escrow(src@),
            r matches Err(e) ==> e == EscrowError::MalformedRecord,
    {
        let n = src.len();
        if n != ESCROW_STATE_LEN && n != RELAYED_ESCROW_STATE_LEN {
            return Err(EscrowError::MalformedRecord);
        }
        let is_initialized = match read_flag(src, 0) {
            Some(b) => b,
            None => return Err(EscrowError::MalformedRecord),
        };
        let relayed = n == RELAYED_ESCROW_STATE_LEN;
        let base: usize = if relayed { 33 } else { 1 };
        let caller_pubkey = if relayed { Some(read_identity(src, 1)) } else { None };
        let st = EscrowState {
            is_initialized,
            caller_pubkey,
            initializer_pubkey: read_identity(src, base),
            receiver_pubkey: read_identity(src, base + 32),
            temp_token_account_pubkey: read_identity(src, base + 64),
            escrow_amount: read_u64(src, base + 96),
            expire_date: read_i64(src, base + 104),
        };
        proof {
            let s = src@;
            let b = base as int;
            lemma_auto_spec_u64_to_from_le_bytes();
            lemma_u64_bits(spec_u64_from_le_bytes(s.subrange(b + 104, b + 112)));
            assert(spec_u64_to_le_bytes(st.escrow_amount) == s.subrange(b + 96, b + 104));
            assert(i64_bytes(st.expire_date) == s.subrange(b + 104, b + 112));
            assert(caller_bytes(st.caller_pubkey) =~= s.subrange(1, b));
            assert(st.encoded() =~= s);
            lemma_escrow_encoding_injective(st);
        }
        Ok(st)
    }

    /// Encodes the record in its schema's width.
    pub fn pack(&self) -> (r: Vec<u8>)
        ensures
            r@ == self.encoded(),
            r@.len() == self.width(),
    {
        let mut out: Vec<u8> = Vec::new();
        out.push(if self.is_initialized { 1u8 } else { 0u8 });
        match &self.caller_pubkey {
            Some(c) => push_identity(&mut out, c),
            None => {},
        }
        push_identity(&mut out, &self.initializer_pubkey);
        push_identity(&mut out, &self.receiver_pubkey);
        push_identity(&mut out, &self.temp_token_account_pubkey);
        push_bytes(&mut out, &u64_to_le_bytes(self.escrow_amount));
        push_bytes(&mut out, &u64_to_le_bytes(self.expire_date as u64));
        proof {
            assert(out@ =~= self.encoded());
        }
        out
    }
}

/// An encoded record has its schema's width and a well-formed flag, and it
/// is the encoding of no other record: decoding gives back that record.
pub proof fn lemma_escrow_encoding_injective(st: EscrowState)
    ensures
        st.encoded().len() == st.width(),
        escrow_layout_ok(st.encoded()),
        forall|o: EscrowState| #[trigger] o.encoded() == st.encoded() ==> o == st,
        decode_escrow(st.encoded()) == Some(st),
{
    lemma_auto_spec_u64_to_from_le_bytes();
    let s = st.encoded();
    assert(s[0] == bool_tag(st.is_initialized));
    assert forall|o: EscrowState| #[trigger] o.encoded() == st.encoded() implies o == st by {
        let t = o.encoded();
        assert(o.width() == st.width());
        let b: int = if st.caller_pubkey is Some { 33 } else { 1 };
        assert(t[0] == s[0]);
        assert(o.is_initialized == st.is_initialized);
        assert(caller_bytes(o.caller_pubkey) =~= s.subrange(1, b));
        assert(caller_bytes(st.caller_pubkey) =~= s.subrange(1, b));
        if let Some(c) = st.caller_pubkey {
            let oc = o.caller_pubkey->Some_0;
            assert(oc =~= c);
        }
        assert(o.initializer_pubkey@ =~= s.subrange(b, b + 32));
        assert(st.initializer_pubkey@ =~= s.subrange(b, b + 32));
        assert(o.initializer_pubkey =~= st.initializer_pubkey);
        assert(o.receiver_pubkey@ =~= s.subrange(b + 32, b + 64));
        assert(st.receiver_pubkey@ =~= s.subrange(b + 32, b + 64));
        assert(o.receiver_pubkey =~= st.receiver_pubkey);
        assert(o.temp_token_account_pubkey@ =~= s.subrange(b + 64, b + 96));
        assert(st.temp_token_account_pubkey@ =~= s.subrange(b + 64, b + 96));
        assert(o.temp_token_account_pubkey =~= st.temp_token_account_pubkey);
        assert(spec_u64_to_le_bytes(o.escrow_amount) =~= s.subrange(b + 96, b + 104));
        assert(spec_u64_to_le_bytes(st.escrow_amount) =~= s.subrange(b + 96, b + 104));
        assert(i64_bytes(o.expire_date) =~= s.subrange(b + 104, b + 112));
        assert(i64_bytes(st.expire_date) =~= s.subrange(b + 104, b + 112));
        assert(spec_u64_from_le_bytes(spec_u64_to_le_bytes(o.expire_date as u64))
            == spec_u64_from_le_bytes(spec_u64_to_le_bytes(st.expire_date as u64)));
        lemma_i64_bits(o.expire_date);
        lemma_i64_bits(st.expire_date);
    };
}

/// Decoding an encoded record gives back that record.
pub proof fn lemma_escrow_round_trip(r: EscrowState)
    ensures
        decode_escrow(r.encoded()) == Some(r),
{
    lemma_escrow_encoding_injective(r);
}

/// A buffer of any other width, or with a flag byte other than 0 and 1,
/// holds no record.
pub proof fn lemma_escrow_rejects_malformed(s: Seq<u8>)
    requires
        s.len() != ESCROW_STATE_LEN && s.len() != RELAYED_ESCROW_STATE_LEN
            || (s.len() > 0 && !is_bool_tag(s[0])),
    ensures
        decode_escrow(s) is None,
{
}

} // verus!
