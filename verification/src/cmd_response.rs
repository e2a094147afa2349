//! Confirmation and error payloads a controller sends back.

use crate::payload::{Payload, PayloadParseError};
use crate::wire;
use vstd::prelude::*;

verus! {

broadcast use vstd::array::group_array_axioms;

/// The optional data a confirmation carries: none, one byte, or one 16-bit
/// value.
#[derive(Copy, Clone, Debug, PartialEq)]
pub enum DataType {
    DataU8(u8),
    DataU16(u16),
}

/// Confirmation of an executed command: the confirmed command id plus
/// optional data whose width is told by the payload length alone.
#[derive(Copy, Clone, Debug, PartialEq)]
pub struct Confirm {
    pub cmd_id: u8,
    pub data: Option<DataType>,
}

impl Confirm {
    /// The confirmation's exact wire encoding: command id, then the data in
    /// its own width (16-bit data little-endian).
    pub open spec fn enc(&self) -> Seq<u8> {
        seq![self.cmd_id] + match self.data {
            None => seq![],
            Some(DataType::DataU8(v)) => seq![v],
            Some(DataType::DataU16(v)) => wire::enc_u16(v),
        }
    }

    /// A confirmation decodes from exactly the buffers of length 1, 2 or 3.
    pub open spec fn dec_ok(bs: Seq<u8>) -> bool {
        1 <= bs.len() <= 3
    }

    /// The confirmation a buffer decodes to: the payload length alone selects
    /// the data width.
    pub open spec fn dec_val(bs: Seq<u8>) -> Confirm {
        Confirm {
            cmd_id: bs[0],
            data: if bs.len() == 1 {
                None
            } else if bs.len() == 2 {
                Some(DataType::DataU8(bs[1]))
            } else {
                Some(DataType::DataU16(wire::u16_le_of(bs[1], bs[2])))
            },
        }
    }

    /// Round trip: decoding the encoding of any confirmation accepts and
    /// yields it back.
    pub proof fn lemma_round_trip(&self)
        ensures
            Confirm::dec_ok(self.enc()),
            Confirm::dec_val(self.enc()) == *self,
    {
        if let Some(DataType::DataU16(v)) = self.data {
            wire::lemma_u16_round_trip(v);
        }
    }

    /// Parses a confirmation; the buffer must hold exactly the id byte plus
    /// zero, one or two data bytes.
    pub fn from_bytes(b: &[u8]) -> (r: Result<Confirm, PayloadParseError>)
        ensures
            r is Ok <==> Confirm::dec_ok(b@),
            (r matches Ok(v) ==> v == Confirm::dec_val(b@)),
            (r matches Err(e) ==> e is InsufficientData),
    {
        if b.len() < 1 || b.len() > 3 {
            return Err(PayloadParseError::InsufficientData);
        }
        let cmd_id: u8 = b[0];
        let data: Option<DataType> = if b.len() == 1 {
            None
        } else if b.len() == 2 {
            Some(DataType::DataU8(b[1]))
        } else {
            Some(DataType::DataU16(wire::read_u16_le(b, 1)))
        };
        Ok(Confirm { cmd_id, data })
    }

    /// Serializes a confirmation to its exact wire encoding.
    pub fn to_bytes(&self) -> (r: Vec<u8>)
        ensures
            r@ == self.enc(),
    {
        let mut out: Vec<u8> = Vec::new();
        out.push(self.cmd_id);
        match self.data {
            None => {},
            Some(DataType::DataU8(v)) => {
                out.push(v);
            },
            Some(DataType::DataU16(v)) => {
                wire::push_u16_le(&mut out, v);
            },
        }
        assert(out@ =~= self.enc());
        out
    }
}

/// The error report payload: an error code plus four bytes of context.
#[derive(Copy, Clone, Debug, PartialEq)]
pub struct Error {
    pub error_code: u8,
    pub error_data: [u8; 4],
}

impl Payload for Error {
    open spec fn wf(&self) -> bool {
        true
    }

    open spec fn spec_size() -> nat {
        5
    }

    open spec fn enc(&self) -> Seq<u8> {
        seq![self.error_code] + self.error_data@
    }

    open spec fn dec_ok(bs: Seq<u8>) -> bool {
        bs.len() == 5
    }

    open spec fn dec_val(bs: Seq<u8>) -> Self {
        Error { error_code: bs[0], error_data: (choose|a: [u8; 4]| a@ == bs.subrange(1, 5)) }
    }

    open spec fn dec_err(bs: Seq<u8>, e: PayloadParseError) -> bool {
        bs.len() != 5 && e == PayloadParseError::InsufficientData
    }

    proof fn lemma_dec_ok_len(bs: Seq<u8>) {
    }

    proof fn lemma_enc_size(&self) {
    }

    proof fn lemma_round_trip(&self) {
        let e = self.enc();
        assert(e.subrange(1, 5) =~= self.error_data@);
        let c = choose|a: [u8; 4]| a@ == e.subrange(1, 5);
        assert(c@ =~= self.error_data@);
        assert(c == self.error_data);
    }

    fn from_bytes(b: &[u8]) -> (r: Result<Self, PayloadParseError>) {
        if b.len() != 5 {
            return Err(PayloadParseError::InsufficientData);
        }
        let error_code: u8 = b[0];
        let error_data: [u8; 4] = wire::read_array::<4>(b, 1);
        proof {
            let c = choose|a: [u8; 4]| a@ == b@.subrange(1, 5);
            assert(c@ =~= error_data@);
            assert(c == error_data);
        }
        Ok(Error { error_code, error_data })
    }

    fn to_bytes(&self) -> (r: Vec<u8>) {
        let mut out: Vec<u8> = Vec::new();
        out.push(self.error_code);
        wire::push_array::<4>(&mut out, &self.error_data);
        assert(out@ =~= self.enc());
        out
    }
}

} // verus!
