//! The body converter.
//!
//! Lossless, bidirectional conversion between the abstract message body (empty,
//! fully buffered, or a streaming source) and the sandbox's byte-body
//! representation. Conversion never partially drains a body: either all of its
//! bytes cross the boundary, or, for a body that declares no byte content, an
//! empty native body is produced.

use vstd::prelude::*;

verus! {

/// The abstract message body: empty, fully buffered bytes, or a streaming
/// source. The streaming form is modelled by the bytes the source will
/// deliver when fully drained; converting it materializes them all.
#[derive(PartialEq, Eq, Debug)]
pub enum AbstractBody {
    Empty,
    Buffered(Vec<u8>),
    Streaming(Vec<u8>),
}

/// The sandbox's body representation: a plain buffer of bytes.
#[derive(PartialEq, Eq, Debug)]
pub struct NativeBody {
    pub bytes: Vec<u8>,
}

impl AbstractBody {
    /// The bytes this body holds or will deliver; an empty body holds none.
    pub open spec fn byte_content(&self) -> Seq<u8> {
        match self {
            AbstractBody::Empty => Seq::empty(),
            AbstractBody::Buffered(bytes) => bytes@,
            AbstractBody::Streaming(bytes) => bytes@,
        }
    }
}

impl NativeBody {
    pub open spec fn byte_content(&self) -> Seq<u8> {
        self.bytes@
    }
}

/// Converts an abstract body into the sandbox's representation. An empty
/// body yields an empty native body; a buffered or streaming body is fully
/// materialized, no byte dropped and none added.
pub fn to_native(body: AbstractBody) -> (native: NativeBody)
    ensures
        native.byte_content() == body.byte_content(),
{
    match body {
        AbstractBody::Empty => {
            let bytes: Vec<u8> = Vec::new();
            proof {
                assert(bytes@ =~= Seq::<u8>::empty());
            }
            NativeBody { bytes }
        },
        AbstractBody::Buffered(bytes) => NativeBody { bytes },
        AbstractBody::Streaming(bytes) => NativeBody { bytes },
    }
}

/// Converts a native body back into an abstract one, extracting all bytes
/// into a fully buffered body; a native body with no bytes yields the empty
/// abstract body.
pub fn from_native(native: NativeBody) -> (body: AbstractBody)
    ensures
        body.byte_content() == native.byte_content(),
        native.byte_content().len() == 0 ==> body is Empty,
        native.byte_content().len() > 0 ==> body is Buffered,
{
    if native.bytes.len() == 0 {
        proof {
            assert(native.bytes@ =~= Seq::<u8>::empty());
        }
        AbstractBody::Empty
    } else {
        AbstractBody::Buffered(native.bytes)
    }
}

/// The round trip through the sandbox's representation reproduces a body's
/// bytes exactly: a non-empty body comes back fully buffered with the same
/// bytes, and an empty body comes back empty.
pub fn round_trip(body: AbstractBody) -> (back: AbstractBody)
    ensures
        back.byte_content() == body.byte_content(),
        body.byte_content().len() == 0 ==> back is Empty,
        body.byte_content().len() > 0 ==> back is Buffered,
{
    from_native(to_native(body))
}

} // verus!
