//! The payload codec contract: one typed record to and from a byte slice.
//!
//! Every command payload type implements [`Payload`]. The contract pins the
//! codec down exactly: `to_bytes` produces the record's unique encoding
//! (`enc`), and `from_bytes` succeeds on precisely the byte sequences that
//! `dec_ok` admits, returning exactly `dec_val`. The round-trip law — decoding
//! an encoding yields the record back — is a proof obligation of the trait, so
//! Verus checks it for every implementation.

use vstd::prelude::*;

verus! {

/// Why a payload failed to decode.
///
/// `InvalidFlags` and `InvalidEnum` carry the protocol name of the offending
/// field. All failures abort the enclosing record's decode: no partial record
/// is ever returned.
#[derive(Clone, Debug, PartialEq)]
pub enum PayloadParseError {
    /// A flags field in strict mode held a bit outside the declared set.
    InvalidFlags { name: String },
    /// An enumeration field held a value absent from the closed table.
    InvalidEnum { name: String },
    /// The buffer does not hold the exact number of bytes the record needs.
    InsufficientData,
}

/// A typed record that can be parsed from bytes and serialized back,
/// following the SimpleBGC wire layout.
pub trait Payload: Sized {
    /// The record's internal invariant: every flags field stays inside its
    /// declared bit set and every packed sub-field stays inside its width.
    /// Decoding only ever produces well-formed records, and encoding expects
    /// one.
    spec fn wf(&self) -> bool;

    /// The record's total declared byte size.
    spec fn spec_size() -> nat;

    /// The record's exact wire encoding: each field's bytes in declared
    /// order, concatenated without padding.
    spec fn enc(&self) -> Seq<u8>;

    /// Whether `bs` decodes successfully: the exact declared length, and
    /// every flags and enumeration field valid.
    spec fn dec_ok(bs: Seq<u8>) -> bool;

    /// The record that `bs` decodes to, meaningful when `dec_ok(bs)` holds.
    spec fn dec_val(bs: Seq<u8>) -> Self;

    /// Whether `e` is the error decoding `bs` yields: the first field error
    /// in declared field order, with the offending field's protocol name.
    /// Stated as a predicate because the name travels as a `String`, which a
    /// spec function cannot construct; the predicate pins the variant and
    /// the name's characters.
    spec fn dec_err(bs: Seq<u8>, e: PayloadParseError) -> bool;

    /// Only buffers of the exact declared size decode.
    proof fn lemma_dec_ok_len(bs: Seq<u8>)
        ensures
            Self::dec_ok(bs) ==> bs.len() == Self::spec_size(),
    ;

    /// A well-formed record encodes to exactly its declared size.
    proof fn lemma_enc_size(&self)
        requires
            self.wf(),
        ensures
            self.enc().len() == Self::spec_size(),
    ;

    /// Round trip: decoding the encoding of any well-formed record accepts
    /// and yields the record back.
    proof fn lemma_round_trip(&self)
        requires
            self.wf(),
        ensures
            Self::dec_ok(self.enc()),
            Self::dec_val(self.enc()) == *self,
    ;

    /// Parses this payload from bytes according to the SimpleBGC spec.
    ///
    /// Succeeds exactly on the buffers `dec_ok` admits, returning exactly the
    /// record `dec_val` names; fails with `InsufficientData` exactly when the
    /// buffer is not the record's declared size, and otherwise with exactly
    /// the first failing field's error, `dec_err`.
    fn from_bytes(b: &[u8]) -> (r: Result<Self, PayloadParseError>)
        ensures
            r is Ok <==> Self::dec_ok(b@),
            (r matches Ok(v) ==> v == Self::dec_val(b@) && v.wf()),
            (r matches Err(e) ==> ((e is InsufficientData) <==> b@.len() != Self::spec_size())),
            (r matches Err(e) ==> Self::dec_err(b@, e)),
    ;

    /// Converts this payload to bytes according to the SimpleBGC spec.
    fn to_bytes(&self) -> (r: Vec<u8>)
        requires
            self.wf(),
        ensures
            r@ == self.enc(),
    ;
}

/// Builds the error for an enumeration field whose stored value is not in
/// the enumeration's table.
pub fn invalid_enum(name: &str) -> (e: PayloadParseError)
    ensures
        (e matches PayloadParseError::InvalidEnum { name: n } && n@ == name@),
{
    PayloadParseError::InvalidEnum { name: name.to_string() }
}

/// Builds the error for a strict flags field whose stored value has a bit
/// outside the declared set.
pub fn invalid_flags(name: &str) -> (e: PayloadParseError)
    ensures
        (e matches PayloadParseError::InvalidFlags { name: n } && n@ == name@),
{
    PayloadParseError::InvalidFlags { name: name.to_string() }
}

/// Strict flags decode for an 8-bit field: rejects any bit outside `mask`.
pub fn check_flags_u8(v: u8, mask: u8, name: &str) -> (r: Result<u8, PayloadParseError>)
    ensures
        r is Ok <==> (v & !mask) == 0,
        (r matches Ok(bits) ==> bits == v),
        (r matches Err(e) ==> (e matches PayloadParseError::InvalidFlags { name: n } && n@
            == name@)),
{
    if v & !mask == 0 {
        Ok(v)
    } else {
        Err(invalid_flags(name))
    }
}

/// Strict flags decode for a 16-bit field: rejects any bit outside `mask`.
pub fn check_flags_u16(v: u16, mask: u16, name: &str) -> (r: Result<u16, PayloadParseError>)
    ensures
        r is Ok <==> (v & !mask) == 0,
        (r matches Ok(bits) ==> bits == v),
        (r matches Err(e) ==> (e matches PayloadParseError::InvalidFlags { name: n } && n@
            == name@)),
{
    if v & !mask == 0 {
        Ok(v)
    } else {
        Err(invalid_flags(name))
    }
}

/// Truncating flags decode for an 8-bit field: drops unknown bits, so the
/// result always lies inside `mask`.
pub fn truncate_flags_u8(v: u8, mask: u8) -> (r: u8)
    ensures
        r == v & mask,
        r & !mask == 0,
{
    proof {
        lemma_mask_absorb_u8(v, mask);
    }
    v & mask
}

/// Masking with `m` leaves no bit outside `m`.
pub proof fn lemma_mask_absorb_u8(v: u8, m: u8)
    ensures
        ((v & m) & !m) == 0,
{
    assert(((v & m) & !m) == 0) by (bit_vector);
}

impl Payload for u8 {
    open spec fn wf(&self) -> bool {
        true
    }

    open spec fn spec_size() -> nat {
        1
    }

    open spec fn enc(&self) -> Seq<u8> {
        seq![*self]
    }

    open spec fn dec_ok(bs: Seq<u8>) -> bool {
        bs.len() == 1
    }

    open spec fn dec_val(bs: Seq<u8>) -> Self {
        bs[0]
    }

    open spec fn dec_err(bs: Seq<u8>, e: PayloadParseError) -> bool {
        bs.len() != 1 && e == PayloadParseError::InsufficientData
    }

    proof fn lemma_dec_ok_len(bs: Seq<u8>) {
    }

    proof fn lemma_enc_size(&self) {
    }

    proof fn lemma_round_trip(&self) {
    }

    fn from_bytes(b: &[u8]) -> (r: Result<Self, PayloadParseError>) {
        if b.len() != 1 {
            return Err(PayloadParseError::InsufficientData);
        }
        Ok(b[0])
    }

    fn to_bytes(&self) -> (r: Vec<u8>) {
        let mut out: Vec<u8> = Vec::new();
        out.push(*self);
        assert(out@ =~= self.enc());
        out
    }
}

impl Payload for i8 {
    open spec fn wf(&self) -> bool {
        true
    }

    open spec fn spec_size() -> nat {
        1
    }

    open spec fn enc(&self) -> Seq<u8> {
        crate::wire::enc_i8(*self)
    }

    open spec fn dec_ok(bs: Seq<u8>) -> bool {
        bs.len() == 1
    }

    open spec fn dec_val(bs: Seq<u8>) -> Self {
        crate::wire::i8_of_u8(bs[0])
    }

    open spec fn dec_err(bs: Seq<u8>, e: PayloadParseError) -> bool {
        bs.len() != 1 && e == PayloadParseError::InsufficientData
    }

    proof fn lemma_dec_ok_len(bs: Seq<u8>) {
    }

    proof fn lemma_enc_size(&self) {
    }

    proof fn lemma_round_trip(&self) {
        crate::wire::lemma_i8_round_trip(*self);
    }

    fn from_bytes(b: &[u8]) -> (r: Result<Self, PayloadParseError>) {
        if b.len() != 1 {
            return Err(PayloadParseError::InsufficientData);
        }
        Ok(crate::wire::read_i8(b, 0))
    }

    fn to_bytes(&self) -> (r: Vec<u8>) {
        let mut out: Vec<u8> = Vec::new();
        crate::wire::push_i8(&mut out, *self);
        out
    }
}

} // verus!
