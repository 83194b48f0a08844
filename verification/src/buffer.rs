//! The byte buffer that a connection reads into, as the codec sees it.
//!
//! The buffer is a `bytes::BytesMut`. Verus does not look inside it: what it holds is
//! given a name, [`buffer_bytes`], and the few operations the codec needs are specified
//! over that name. Verus proves none of these specifications. It takes each on trust, as
//! it was read off the source of the `bytes` crate.
use vstd::prelude::*;

verus! {

/// `bytes::BytesMut`, carried through verified code as an opaque value.
#[verifier::external_type_specification]
#[verifier::external_body]
pub struct ExBytesMut(bytes::BytesMut);

/// The bytes that a buffer holds, first to last: the slice that `BytesMut` derefs to.
pub uninterp spec fn buffer_bytes(buf: bytes::BytesMut) -> Seq<u8>;

/// `BytesMut::len`: the number of bytes the buffer holds.
pub assume_specification[ bytes::BytesMut::len ](buf: &bytes::BytesMut) -> (len: usize)
    ensures
        len == buffer_bytes(*buf).len(),
;

/// `BytesMut::clear`: truncates the buffer to length zero, so that it holds nothing.
pub assume_specification[ bytes::BytesMut::clear ](buf: &mut bytes::BytesMut)
    ensures
        buffer_bytes(*final(buf)) == Seq::<u8>::empty(),
;

/// `Deref` of `BytesMut`: the held bytes as a slice.
pub assume_specification<'a>[ <bytes::BytesMut as core::ops::Deref>::deref ](
    buf: &'a bytes::BytesMut,
) -> (held: &'a [u8])
    ensures
        held@ == buffer_bytes(*buf),
;

/// `Extend<u8>` of `BytesMut`, fed a whole vector: reserves room for it and appends its
/// bytes in order behind those already held. Reserving panics when asked for more than
/// an allocation can hold, which the bound on the joint length keeps out.
#[verifier::external_body]
pub(crate) fn buffer_extend(buf: &mut bytes::BytesMut, data: Vec<u8>)
    requires
        buffer_bytes(*old(buf)).len() + data@.len() <= isize::MAX,
    ensures
        buffer_bytes(*final(buf)) == buffer_bytes(*old(buf)) + data@,
{
    buf.extend(data);
}

} // verus!
