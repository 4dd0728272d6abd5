//! A safe, verified model of a multi-interface object adapter in the style of
//! a shell thumbnail handler: one composite object exposes three capability
//! records (base, stream-initialization, thumbnail-provider), shares one
//! lifetime counter across them, holds at most one input source, and maps
//! typed generation failures to native status codes.

use vstd::prelude::*;

pub mod guid;
pub mod laws;
pub mod status;
pub mod stream;
pub mod wrapper;

verus! {

/// Requested output size for a generated thumbnail.
#[derive(Debug, Copy, Clone, PartialEq, Eq, Structural)]
pub struct Dimensions {
    pub width: u32,
    pub height: u32,
}

/// A generated thumbnail image, modeled by the data the adapter carries:
/// its pixel dimensions and its raw pixel bytes.
pub struct Thumbnail {
    pub width: u32,
    pub height: u32,
    pub pixels: Vec<u8>,
}

/// The contract the adapter requires from the wrapped implementation: one
/// operation that produces a thumbnail from a sequential byte source and a
/// requested size, or fails with a typed error.
///
/// The adapter promises nothing about what an implementation returns; its
/// own contracts hold for every possible outcome of this call. The
/// implementation, in turn, may consume the reader but not exchange the
/// source the bridge wraps: the bridge's identity, contents and status stay
/// what they were, which is all that reading through
/// [`stream::StreamReader::read`] can touch anyway.
pub trait ThumbnailProvider {
    fn get_thumbnail(
        &self,
        input: &mut stream::StreamReader,
        desired_dimensions: Dimensions,
    ) -> (thumbnail: Result<Thumbnail, status::ThumbnailError>)
        requires
            old(input).stream.wf(),
        ensures
            final(input).stream.id == old(input).stream.id,
            final(input).stream.data == old(input).stream.data,
            final(input).stream.read_status == old(input).stream.read_status,
            final(input).stream.wf(),
    ;
}

} // verus!
