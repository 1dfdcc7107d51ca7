//! The Fleece encoder as a record of calls, and the values that write themselves into it.
use vstd::prelude::*;
use vstd::utf8::encode_utf8;
use std::marker::PhantomData;
use crate::fleece_error::{Error, ErrorV, FlError};
use crate::fleece_ser::{EncoderOp, OpV, SerdeValue, ops_view, spec_ops, write_value, str_utf8};
use crate::fl_slice::FLSliceResult;

verus! {

/// A Fleece encoder: the calls made on it since it was last reset.
pub struct FlEncoder {
    pub ops: Vec<EncoderOp>,
}

/// A use of an encoder that is reset when the session ends.
pub struct FlEncoderSession<'a> {
    pub inner: &'a mut FlEncoder,
}

/// A non-null address of a value of type `T`.
pub struct NonNullConst<T> {
    addr: usize,
    marker: PhantomData<T>,
}

impl<T> NonNullConst<T> {
    #[verifier::type_invariant]
    spec fn inv(self) -> bool {
        self.addr != 0
    }

    /// The address.
    pub closed spec fn spec_addr(self) -> usize {
        self.addr
    }

    /// `Some` exactly for a non-null address.
    pub fn new(p: usize) -> (r: Option<NonNullConst<T>>)
        ensures
            p == 0 ==> r is None,
            p != 0 ==> (r matches Some(x) && x.spec_addr() == p),
    {
        if p != 0 {
            Some(NonNullConst { addr: p, marker: PhantomData })
        } else {
            None
        }
    }

    /// Wraps an address known to be non-null.
    pub fn new_unchecked(p: usize) -> (r: NonNullConst<T>)
        requires
            p != 0,
        ensures
            r.spec_addr() == p,
    {
        NonNullConst { addr: p, marker: PhantomData }
    }

    /// The address.
    pub fn as_ptr(&self) -> (r: usize)
        ensures
            r == self.spec_addr(),
            r != 0,
    {
        proof {
            use_type_invariant(self);
        }
        self.addr
    }

    /// The same address, read as one of a value of type `U`.
    pub fn cast<U>(self) -> (r: NonNullConst<U>)
        ensures
            r.spec_addr() == self.spec_addr(),
    {
        proof {
            use_type_invariant(&self);
        }
        NonNullConst { addr: self.addr, marker: PhantomData }
    }
}

impl FlEncoder {
    /// An encoder with no call made yet.
    pub fn new() -> (r: FlEncoder)
        ensures
            r.ops@.len() == 0,
    {
        FlEncoder { ops: Vec::new() }
    }

    /// Forgets the calls made so far.
    pub fn reset(&mut self)
        ensures
            final(self).ops@.len() == 0,
    {
        self.ops.clear();
    }
}

impl<'a> FlEncoderSession<'a> {
    /// A session on `inner`.
    pub fn new(inner: &'a mut FlEncoder) -> (r: FlEncoderSession<'a>)
        ensures
            *r.inner == *old(inner),
    {
        FlEncoderSession { inner }
    }
}

/// Writes `value` into `encoder`, after the calls already made on it.
pub fn encode_into(value: &SerdeValue, encoder: &mut FlEncoder) -> (r: Result<(), Error>)
    ensures
        r is Ok ==> spec_ops(value@) is Ok && ops_view(final(encoder).ops@) == ops_view(
            old(encoder).ops@,
        ) + spec_ops(value@)->Ok_0,
        r matches Err(e) ==> spec_ops(value@) == Err::<Seq<OpV>, ErrorV>(e@),
{
    write_value(value, &mut encoder.ops)
}

/// The outcome of finishing an encoder: the encoded data, or, when
/// it is empty, the error that the encoder reported.
pub fn finish_result(data: FLSliceResult, err: FlError) -> (r: Result<FLSliceResult, Error>)
    ensures
        data.bytes@.len() != 0 ==> (r matches Ok(d) && d.bytes@ == data.bytes@),
        data.bytes@.len() == 0 ==> (r matches Err(e) && e@ == ErrorV::Fleece(err)),
{
    if !data.is_empty() {
        Ok(data)
    } else {
        Err(Error::from_fl_error(err))
    }
}

/// The outcome of one call on an encoder: nothing when it succeeded, else the error that
/// the encoder reported.
pub fn encoder_call_result(ok: bool, err: FlError) -> (r: Result<(), Error>)
    ensures
        ok ==> r is Ok,
        !ok ==> (r matches Err(e) && e@ == ErrorV::Fleece(err)),
{
    if ok {
        Ok(())
    } else {
        Err(Error::from_fl_error(err))
    }
}

/// The outcome of creating an encoder: a missing one means that memory ran out.
pub fn new_encoder_result(created: bool) -> (r: Result<FlEncoder, Error>)
    ensures
        created ==> (r matches Ok(e) && e.ops@.len() == 0),
        !created ==> (r matches Err(e) && e@ == ErrorV::Fleece(FlError::MemoryError)),
{
    if created {
        Ok(FlEncoder::new())
    } else {
        Err(Error::from_fl_error(FlError::MemoryError))
    }
}

/// Marks the types that write themselves into an encoder.
pub trait Sealed {
}

/// A value that writes itself into an encoder with one call.
pub trait EncodeValue: Sealed {
    /// The call that writes the value.
    spec fn spec_op(&self) -> OpV;

    /// Writes the value.
    fn encode(&self, enc: &mut FlEncoder) -> (r: bool)
        ensures
            r,
            ops_view(final(enc).ops@) == ops_view(old(enc).ops@).push(self.spec_op()),
    ;
}

fn push_call(enc: &mut FlEncoder, op: EncoderOp)
    ensures
        ops_view(final(enc).ops@) == ops_view(old(enc).ops@).push(op@),
{
    enc.ops.push(op);
    assert(ops_view(enc.ops@) =~= ops_view(old(enc).ops@).push(op@));
}

impl<'s> Sealed for &'s str {
}

impl<'s> EncodeValue for &'s str {
    open spec fn spec_op(&self) -> OpV {
        OpV::WriteString(encode_utf8((*self)@))
    }

    fn encode(&self, enc: &mut FlEncoder) -> (r: bool) {
        push_call(enc, EncoderOp::WriteString(str_utf8(*self)));
        true
    }
}

impl Sealed for String {
}

impl EncodeValue for String {
    open spec fn spec_op(&self) -> OpV {
        OpV::WriteString(encode_utf8(self@))
    }

    fn encode(&self, enc: &mut FlEncoder) -> (r: bool) {
        push_call(enc, EncoderOp::WriteString(str_utf8(self.as_str())));
        true
    }
}

impl Sealed for i64 {
}

impl EncodeValue for i64 {
    open spec fn spec_op(&self) -> OpV {
        OpV::WriteInt(*self)
    }

    fn encode(&self, enc: &mut FlEncoder) -> (r: bool) {
        push_call(enc, EncoderOp::WriteInt(*self));
        true
    }
}

impl Sealed for bool {
}

impl EncodeValue for bool {
    open spec fn spec_op(&self) -> OpV {
        OpV::WriteBool(*self)
    }

    fn encode(&self, enc: &mut FlEncoder) -> (r: bool) {
        push_call(enc, EncoderOp::WriteBool(*self));
        true
    }
}

} // verus!
