//! A value replicated across the three physical axes, in fixed axis order
//! roll, pitch, yaw.
//!
//! Wherever a command carries one value per axis, its payload stores the three
//! axis sub-records contiguously in this order. That composite is itself a
//! payload, so [`RollPitchYaw`] implements [`Payload`] for any axis type that
//! does.

use crate::payload::{Payload, PayloadParseError};
use vstd::prelude::*;

verus! {

/// One value for each of the three gimbal axes.
#[derive(Copy, Clone, Debug, PartialEq)]
pub struct RollPitchYaw<T> {
    pub roll: T,
    pub pitch: T,
    pub yaw: T,
}

impl<T> RollPitchYaw<T> {
    /// Pairs each axis value with the corresponding value of `other`.
    pub fn combine<U>(self, other: RollPitchYaw<U>) -> (r: RollPitchYaw<(T, U)>)
        ensures
            r.roll == (self.roll, other.roll),
            r.pitch == (self.pitch, other.pitch),
            r.yaw == (self.yaw, other.yaw),
    {
        RollPitchYaw { roll: (self.roll, other.roll), pitch: (self.pitch, other.pitch), yaw: (
            self.yaw,
            other.yaw,
        ) }
    }

    /// Pairs each axis value with the corresponding value of `other`, by
    /// reference.
    pub fn combine_ref<'a, U>(&self, other: &'a RollPitchYaw<U>) -> (r: RollPitchYaw<
        (&T, &'a U),
    >)
        ensures
            *r.roll.0 == self.roll && *r.roll.1 == other.roll,
            *r.pitch.0 == self.pitch && *r.pitch.1 == other.pitch,
            *r.yaw.0 == self.yaw && *r.yaw.1 == other.yaw,
    {
        RollPitchYaw { roll: (&self.roll, &other.roll), pitch: (&self.pitch, &other.pitch), yaw: (
            &self.yaw,
            &other.yaw,
        ) }
    }

    /// Pairs each axis value with the corresponding value of `other`, by
    /// mutable reference.
    pub fn combine_mut<'a, U>(&mut self, other: &'a mut RollPitchYaw<U>) -> (r: RollPitchYaw<
        (&mut T, &'a mut U),
    >)
        ensures
            *r.roll.0 == old(self).roll && *r.roll.1 == old(other).roll,
            *r.pitch.0 == old(self).pitch && *r.pitch.1 == old(other).pitch,
            *r.yaw.0 == old(self).yaw && *r.yaw.1 == old(other).yaw,
            *final(self) == (RollPitchYaw {
                roll: *final(r.roll.0),
                pitch: *final(r.pitch.0),
                yaw: *final(r.yaw.0),
            }),
            *final(other) == (RollPitchYaw {
                roll: *final(r.roll.1),
                pitch: *final(r.pitch.1),
                yaw: *final(r.yaw.1),
            }),
    {
        RollPitchYaw { roll: (&mut self.roll, &mut other.roll), pitch: (
            &mut self.pitch,
            &mut other.pitch,
        ), yaw: (&mut self.yaw, &mut other.yaw) }
    }

    /// Applies `op` to each axis value, in axis order.
    pub fn map<U, F: Fn(T) -> U>(self, op: F) -> (r: RollPitchYaw<U>)
        requires
            call_requires(op, (self.roll,)),
            call_requires(op, (self.pitch,)),
            call_requires(op, (self.yaw,)),
    ensures
            call_ensures(op, (self.roll,), r.roll),
            call_ensures(op, (self.pitch,), r.pitch),
            call_ensures(op, (self.yaw,), r.yaw),
    {
        RollPitchYaw { roll: op(self.roll), pitch: op(self.pitch), yaw: op(self.yaw) }
    }

    /// Applies `op` to each axis value through a mutable reference, in axis
    /// order, collecting the results.
    ///
    /// No postcondition relates the results or the final axis values to
    /// `op`: the verifier does not yet expose a closure's contract for a
    /// call whose argument is a mutable reference, so nothing of the kind
    /// can currently be stated or proved here.
    pub fn update<U, F: Fn(&mut T) -> U>(&mut self, op: F) -> (r: RollPitchYaw<U>)
        requires
            forall|t: &mut T| call_requires(op, (t,)),
    {
        RollPitchYaw {
            roll: op(&mut self.roll),
            pitch: op(&mut self.pitch),
            yaw: op(&mut self.yaw),
        }
    }

    /// Applies `op` to each axis value in axis order, discarding the
    /// results.
    ///
    /// There is nothing to state of the outcome: the results are dropped,
    /// and a `Fn` closure captures immutably, so the calls leave no trace a
    /// contract could mention.
    pub fn exec<U, F: Fn(&T) -> U>(&self, op: F)
        requires
            call_requires(op, (&self.roll,)),
            call_requires(op, (&self.pitch,)),
            call_requires(op, (&self.yaw,)),
    {
        op(&self.roll);
        op(&self.pitch);
        op(&self.yaw);
    }
}

impl<T> From<(T, T, T)> for RollPitchYaw<T> {
    /// Reads a roll, pitch, yaw triple in axis order.
    fn from(t: (T, T, T)) -> (r: RollPitchYaw<T>) {
        RollPitchYaw { roll: t.0, pitch: t.1, yaw: t.2 }
    }
}

impl<T> vstd::std_specs::convert::FromSpecImpl<(T, T, T)> for RollPitchYaw<T> {
    open spec fn obeys_from_spec() -> bool {
        true
    }

    open spec fn from_spec(t: (T, T, T)) -> RollPitchYaw<T> {
        RollPitchYaw { roll: t.0, pitch: t.1, yaw: t.2 }
    }
}

impl<T: Payload> Payload for RollPitchYaw<T> {
    open spec fn wf(&self) -> bool {
        self.roll.wf() && self.pitch.wf() && self.yaw.wf()
    }

    open spec fn spec_size() -> nat {
        3 * T::spec_size()
    }

    open spec fn enc(&self) -> Seq<u8> {
        self.roll.enc() + self.pitch.enc() + self.yaw.enc()
    }

    open spec fn dec_ok(bs: Seq<u8>) -> bool {
        let s = T::spec_size() as int;
        &&& bs.len() == 3 * s
        &&& T::dec_ok(bs.subrange(0, s))
        &&& T::dec_ok(bs.subrange(s, 2 * s))
        &&& T::dec_ok(bs.subrange(2 * s, 3 * s))
    }

    open spec fn dec_val(bs: Seq<u8>) -> Self {
        let s = T::spec_size() as int;
        RollPitchYaw {
            roll: T::dec_val(bs.subrange(0, s)),
            pitch: T::dec_val(bs.subrange(s, 2 * s)),
            yaw: T::dec_val(bs.subrange(2 * s, 3 * s)),
        }
    }

    open spec fn dec_err(bs: Seq<u8>, e: PayloadParseError) -> bool {
        let s = T::spec_size() as int;
        if bs.len() != 3 * s {
            e == PayloadParseError::InsufficientData
        } else if !T::dec_ok(bs.subrange(0, s)) {
            T::dec_err(bs.subrange(0, s), e)
        } else if !T::dec_ok(bs.subrange(s, 2 * s)) {
            T::dec_err(bs.subrange(s, 2 * s), e)
        } else if !T::dec_ok(bs.subrange(2 * s, 3 * s)) {
            T::dec_err(bs.subrange(2 * s, 3 * s), e)
        } else {
            false
        }
    }

    proof fn lemma_dec_ok_len(bs: Seq<u8>) {
    }

    proof fn lemma_enc_size(&self) {
        self.roll.lemma_enc_size();
        self.pitch.lemma_enc_size();
        self.yaw.lemma_enc_size();
    }

    proof fn lemma_round_trip(&self) {
        let s = T::spec_size() as int;
        self.roll.lemma_enc_size();
        self.pitch.lemma_enc_size();
        self.yaw.lemma_enc_size();
        self.roll.lemma_round_trip();
        self.pitch.lemma_round_trip();
        self.yaw.lemma_round_trip();
        let e = self.enc();
        assert(e.subrange(0, s) =~= self.roll.enc());
        assert(e.subrange(s, 2 * s) =~= self.pitch.enc());
        assert(e.subrange(2 * s, 3 * s) =~= self.yaw.enc());
    }

    fn from_bytes(b: &[u8]) -> (r: Result<Self, PayloadParseError>) {
        let n: usize = b.len();
        let third: usize = n / 3;
        proof {
            assert(third * 3 <= n && n - third * 3 < 3) by (nonlinear_arith)
                requires
                    third == n / 3,
            ;
            let s = T::spec_size();
            assert(n == 3 * s ==> third == s) by (nonlinear_arith)
                requires
                    third == n / 3,
            ;
        }
        if n != third * 3 {
            return Err(PayloadParseError::InsufficientData);
        }
        proof {
            T::lemma_dec_ok_len(b@.subrange(0, third as int));
            T::lemma_dec_ok_len(b@.subrange(third as int, 2 * third as int));
            T::lemma_dec_ok_len(b@.subrange(2 * third as int, 3 * third as int));
        }
        let roll: T = match T::from_bytes(&b[0..third]) {
            Ok(v) => v,
            Err(e) => {
                return Err(e);
            },
        };
        let pitch: T = match T::from_bytes(&b[third..third + third]) {
            Ok(v) => v,
            Err(e) => {
                return Err(e);
            },
        };
        let yaw: T = match T::from_bytes(&b[third + third..n]) {
            Ok(v) => v,
            Err(e) => {
                return Err(e);
            },
        };
        Ok(RollPitchYaw { roll, pitch, yaw })
    }

    fn to_bytes(&self) -> (r: Vec<u8>) {
        let mut out: Vec<u8> = self.roll.to_bytes();
        let mut mid: Vec<u8> = self.pitch.to_bytes();
        let mut tail: Vec<u8> = self.yaw.to_bytes();
        out.append(&mut mid);
        out.append(&mut tail);
        out
    }
}

} // verus!
