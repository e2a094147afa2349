//! The data-stream-interval payload: how often and against what clock a
//! streamed command is emitted.

use crate::payload::{invalid_enum, Payload, PayloadParseError};
use crate::wire;
use vstd::prelude::*;

verus! {

broadcast use vstd::array::group_array_axioms;

/// The event a data stream is synchronized to.
#[derive(Copy, Clone, Debug, PartialEq)]
pub enum SyncToData {
    ImuAttitude,
}

impl SyncToData {
    /// The wire value of this choice.
    pub open spec fn spec_to_u8(self) -> u8 {
        1
    }

    /// The choice a wire value names, if any.
    pub open spec fn spec_from_u8(v: u8) -> Option<SyncToData> {
        if v == 1 {
            Some(SyncToData::ImuAttitude)
        } else {
            None
        }
    }

    /// The wire value of this choice.
    pub fn to_u8(self) -> (r: u8)
        ensures
            r == self.spec_to_u8(),
    {
        1
    }

    /// Looks a wire value up in the table.
    pub fn from_u8(v: u8) -> (r: Option<SyncToData>)
        ensures
            r == Self::spec_from_u8(v),
    {
        if v == 1 {
            Some(SyncToData::ImuAttitude)
        } else {
            None
        }
    }
}

/// Request payload that registers a streamed command.
#[derive(Copy, Clone, Debug, PartialEq)]
pub struct DataStreamInterval {
    pub cmd_id: u8,
    pub interval_ms: u16,
    pub config: [u8; 8],
    pub sync_to_data: SyncToData,
    pub reserved: [u8; 9],
}

impl Payload for DataStreamInterval {
    open spec fn wf(&self) -> bool {
        true
    }

    open spec fn spec_size() -> nat {
        21
    }

    open spec fn enc(&self) -> Seq<u8> {
        seq![self.cmd_id] + wire::enc_u16(self.interval_ms) + self.config@ + seq![
            self.sync_to_data.spec_to_u8(),
        ] + self.reserved@
    }

    open spec fn dec_ok(bs: Seq<u8>) -> bool {
        &&& bs.len() == 21
        &&& SyncToData::spec_from_u8(bs[11]) is Some
    }

    open spec fn dec_val(bs: Seq<u8>) -> Self {
        DataStreamInterval {
            cmd_id: bs[0],
            interval_ms: wire::u16_le_of(bs[1], bs[2]),
            config: (choose|a: [u8; 8]| a@ == bs.subrange(3, 11)),
            sync_to_data: SyncToData::spec_from_u8(bs[11]).unwrap(),
            reserved: (choose|a: [u8; 9]| a@ == bs.subrange(12, 21)),
        }
    }

    open spec fn dec_err(bs: Seq<u8>, e: PayloadParseError) -> bool {
        if bs.len() != 21 {
            e == PayloadParseError::InsufficientData
        } else if SyncToData::spec_from_u8(bs[11]) is None {
            e matches PayloadParseError::InvalidEnum { name } && name@ == "SYNC_TO_DATA"@
        } else {
            false
        }
    }

    proof fn lemma_dec_ok_len(bs: Seq<u8>) {
    }

    proof fn lemma_enc_size(&self) {
    }

    proof fn lemma_round_trip(&self) {
        let e = self.enc();
        wire::lemma_u16_round_trip(self.interval_ms);
        assert(e.subrange(3, 11) =~= self.config@);
        assert(e.subrange(12, 21) =~= self.reserved@);
        let c1 = choose|a: [u8; 8]| a@ == e.subrange(3, 11);
        assert(c1@ =~= self.config@);
        assert(c1 == self.config);
        let c2 = choose|a: [u8; 9]| a@ == e.subrange(12, 21);
        assert(c2@ =~= self.reserved@);
        assert(c2 == self.reserved);
    }

    fn from_bytes(b: &[u8]) -> (r: Result<Self, PayloadParseError>) {
        if b.len() != 21 {
            return Err(PayloadParseError::InsufficientData);
        }
        let cmd_id: u8 = b[0];
        let interval_ms: u16 = wire::read_u16_le(b, 1);
        let config: [u8; 8] = wire::read_array::<8>(b, 3);
        let sync_to_data: SyncToData = match SyncToData::from_u8(b[11]) {
            Some(v) => v,
            None => {
                return Err(invalid_enum("SYNC_TO_DATA"));
            },
        };
        let reserved: [u8; 9] = wire::read_array::<9>(b, 12);
        proof {
            let c1 = choose|a: [u8; 8]| a@ == b@.subrange(3, 11);
            assert(c1@ =~= config@);
            assert(c1 == config);
            let c2 = choose|a: [u8; 9]| a@ == b@.subrange(12, 21);
            assert(c2@ =~= reserved@);
            assert(c2 == reserved);
        }
        Ok(DataStreamInterval { cmd_id, interval_ms, config, sync_to_data, reserved })
    }

    fn to_bytes(&self) -> (r: Vec<u8>) {
        let mut out: Vec<u8> = Vec::new();
        out.push(self.cmd_id);
        wire::push_u16_le(&mut out, self.interval_ms);
        wire::push_array::<8>(&mut out, &self.config);
        out.push(self.sync_to_data.to_u8());
        wire::push_array::<9>(&mut out, &self.reserved);
        assert(out@ =~= self.enc());
        out
    }
}

} // verus!
