//! The object adapter: one composite object whose fixed-order prefix
//! presents three capability records, sharing a single lifetime counter and
//! a single held-input-source slot.
//!
//! Foreign callers only ever hold the address of one capability record, so
//! every operation first recovers the composite's base address from that
//! record's fixed offset within the prefix ("typed relative offset, applied
//! in reverse"). The model keeps that arithmetic explicit: a composite
//! remembers the base address the host placed it at, a capability pointer is
//! a plain address, and recovery is verified subtraction.

use vstd::prelude::*;
use crate::guid::{Guid, spec_iid_unknown, spec_iid_thumbnail_provider, spec_iid_initialize_with_stream};
use crate::guid::{iid_unknown, iid_thumbnail_provider, iid_initialize_with_stream};
use crate::status::{S_OK, E_NOINTERFACE, E_UNEXPECTED, ThumbnailError, spec_hresult, get_hresult};
use crate::stream::{ComStream, StreamAction, StreamReader, spec_handoff_actions, spec_release_actions};
use crate::{Dimensions, Thumbnail, ThumbnailProvider};

verus! {

/// Offset, in bytes, of the base capability record within the composite
/// prefix: the first pointer-sized slot.
pub const OFFSET_UNKNOWN: usize = 0;

/// Offset, in bytes, of the stream-initialization capability record: the
/// second pointer-sized slot.
pub const OFFSET_STREAM: usize = 8;

/// Offset, in bytes, of the thumbnail-provider capability record: the third
/// pointer-sized slot.
pub const OFFSET_THUMBNAIL: usize = 16;

/// The address of one capability record, as a foreign caller holds it.
#[derive(Debug, Copy, Clone, PartialEq, Eq, Structural)]
pub struct CapPtr {
    pub addr: usize,
}

/// One entry of a dispatch table: which adapter operation the table routes
/// the call to. The tables are pure data shared by every composite of a
/// wrapped-implementation type; the operations themselves are the free
/// functions of this module.
#[derive(Debug, Copy, Clone, PartialEq, Eq, Structural)]
pub enum ComFn {
    UnknownQueryInterface,
    UnknownAddRef,
    UnknownRelease,
    StreamQueryInterface,
    StreamAddRef,
    StreamRelease,
    StreamInitialize,
    ThumbnailQueryInterface,
    ThumbnailAddRef,
    ThumbnailRelease,
    ThumbnailGetThumbnail,
}

/// The dispatch table of the base capability: lifetime and discovery only.
#[derive(Debug, Copy, Clone, PartialEq, Eq, Structural)]
pub struct UnknownVtbl {
    pub query_interface: ComFn,
    pub add_ref: ComFn,
    pub release: ComFn,
}

/// The dispatch table of the stream-initialization capability: the three
/// universal operations plus the stream handoff.
#[derive(Debug, Copy, Clone, PartialEq, Eq, Structural)]
pub struct InitializeWithStreamVtbl {
    pub query_interface: ComFn,
    pub add_ref: ComFn,
    pub release: ComFn,
    pub initialize: ComFn,
}

/// The dispatch table of the thumbnail-provider capability: the three
/// universal operations plus thumbnail generation.
#[derive(Debug, Copy, Clone, PartialEq, Eq, Structural)]
pub struct ThumbnailProviderVtbl {
    pub query_interface: ComFn,
    pub add_ref: ComFn,
    pub release: ComFn,
    pub get_thumbnail: ComFn,
}

/// The base capability's dispatch table, as a value: lifetime and
/// discovery routed to the base-record entries.
pub open spec fn spec_unknown_vtable() -> UnknownVtbl {
    UnknownVtbl {
        query_interface: ComFn::UnknownQueryInterface,
        add_ref: ComFn::UnknownAddRef,
        release: ComFn::UnknownRelease,
    }
}

/// The stream-initialization capability's dispatch table, as a value.
pub open spec fn spec_initialize_with_stream_vtable() -> InitializeWithStreamVtbl {
    InitializeWithStreamVtbl {
        query_interface: ComFn::StreamQueryInterface,
        add_ref: ComFn::StreamAddRef,
        release: ComFn::StreamRelease,
        initialize: ComFn::StreamInitialize,
    }
}

/// The thumbnail-provider capability's dispatch table, as a value.
pub open spec fn spec_thumbnail_provider_vtable() -> ThumbnailProviderVtbl {
    ThumbnailProviderVtbl {
        query_interface: ComFn::ThumbnailQueryInterface,
        add_ref: ComFn::ThumbnailAddRef,
        release: ComFn::ThumbnailRelease,
        get_thumbnail: ComFn::ThumbnailGetThumbnail,
    }
}

/// The one dispatch table every base capability record points to.
pub fn unknown_vtable() -> (v: UnknownVtbl)
    ensures
        v == spec_unknown_vtable(),
{
    UnknownVtbl {
        query_interface: ComFn::UnknownQueryInterface,
        add_ref: ComFn::UnknownAddRef,
        release: ComFn::UnknownRelease,
    }
}

/// The one dispatch table every stream-initialization capability record
/// points to.
pub fn initialize_with_stream_vtable() -> (v: InitializeWithStreamVtbl)
    ensures
        v == spec_initialize_with_stream_vtable(),
{
    InitializeWithStreamVtbl {
        query_interface: ComFn::StreamQueryInterface,
        add_ref: ComFn::StreamAddRef,
        release: ComFn::StreamRelease,
        initialize: ComFn::StreamInitialize,
    }
}

/// The one dispatch table every thumbnail-provider capability record points
/// to.
pub fn thumbnail_provider_vtable() -> (v: ThumbnailProviderVtbl)
    ensures
        v == spec_thumbnail_provider_vtable(),
{
    ThumbnailProviderVtbl {
        query_interface: ComFn::ThumbnailQueryInterface,
        add_ref: ComFn::ThumbnailAddRef,
        release: ComFn::ThumbnailRelease,
        get_thumbnail: ComFn::ThumbnailGetThumbnail,
    }
}

/// The composite adapter object: three capability records in a fixed-order
/// prefix (modeled by `base` and the fixed offsets), one shared lifetime
/// counter, at most one held input source, and the wrapped implementation.
pub struct Wrapper<P> {
    /// The capability-record prefix: the base record's pointer to its
    /// dispatch table, at [`OFFSET_UNKNOWN`] within the composite.
    pub unknown_vtable: UnknownVtbl,
    /// The stream-initialization record's table pointer, at
    /// [`OFFSET_STREAM`].
    pub stream_vtable: InitializeWithStreamVtbl,
    /// The thumbnail-provider record's table pointer, at
    /// [`OFFSET_THUMBNAIL`].
    pub thumbnail_vtable: ThumbnailProviderVtbl,
    /// The address the host placed the composite at; every capability record
    /// address is `base` plus that record's fixed offset.
    pub base: usize,
    /// The shared lifetime counter, one per composite, starting at 1.
    pub ref_count: u32,
    /// The held input source: at most one outstanding foreign stream.
    pub stream: Option<ComStream>,
    /// The wrapped implementation, owned exclusively by the composite.
    pub provider: P,
}

/// A composite with `count` in place of its lifetime counter, other state
/// unchanged.
pub open spec fn spec_with_count<P>(w: Wrapper<P>, count: u32) -> Wrapper<P> {
    Wrapper { ref_count: count, ..w }
}

/// A composite with `stream` in place of its held input source, other state
/// unchanged.
pub open spec fn spec_with_stream<P>(w: Wrapper<P>, stream: Option<ComStream>) -> Wrapper<P> {
    Wrapper { stream, ..w }
}

/// What release does to a live composite, as seen by the caller.
pub enum ReleaseOutcome<P> {
    /// The counter stayed above zero: the composite lives on with the
    /// post-decrement count.
    Alive { wrapper: Wrapper<P>, count: u32 },
    /// The counter reached zero: the composite was destroyed. The wrapped
    /// implementation is handed back to be dropped, together with the
    /// release owed on any residual held input source.
    Destroyed { provider: P, actions: Vec<StreamAction> },
}

/// What release leaves behind: the post-decrement count convention. With a
/// pre-count above 1 the composite stays alive at count minus one; with a
/// pre-count of exactly 1 it is destroyed, its implementation value is
/// returned exactly once, and any residual held source is released.
pub open spec fn spec_release_post<P>(pre: Wrapper<P>, r: ReleaseOutcome<P>) -> bool {
    &&& pre.ref_count > 1 ==> (r matches ReleaseOutcome::Alive { wrapper, count }
        && wrapper == spec_with_count(pre, ((pre.ref_count - 1) as u32))
        && count == pre.ref_count - 1)
    &&& pre.ref_count == 1 ==> (r matches ReleaseOutcome::Destroyed { provider, actions }
        && provider == pre.provider
        && actions@ == spec_release_actions(pre.stream))
}

/// What discovery answers for an identifier: each of the three supported
/// identifiers yields success and the address of its capability record
/// within this composite's prefix; any other identifier yields
/// "not supported" and no pointer.
pub open spec fn spec_query_post<P>(pre: Wrapper<P>, g: Guid, r: (i32, Option<CapPtr>)) -> bool {
    &&& g == spec_iid_unknown() ==> (r.1 matches Some(p) && r.0 == S_OK
        && p.addr == pre.base + OFFSET_UNKNOWN)
    &&& g == spec_iid_thumbnail_provider() ==> (r.1 matches Some(p) && r.0 == S_OK
        && p.addr == pre.base + OFFSET_THUMBNAIL)
    &&& g == spec_iid_initialize_with_stream() ==> (r.1 matches Some(p) && r.0 == S_OK
        && p.addr == pre.base + OFFSET_STREAM)
    &&& (g != spec_iid_unknown() && g != spec_iid_thumbnail_provider()
        && g != spec_iid_initialize_with_stream()) ==> (r.0 == E_NOINTERFACE && r.1 is None)
}

impl<P> Wrapper<P> {
    /// A composite is well formed when its prefix fits in the address space,
    /// its lifetime counter is positive (it exists, so someone holds a
    /// reference), any held source is internally consistent, and each
    /// capability record still points at its one shared dispatch table
    /// (they are set at construction and never reassigned).
    pub open spec fn wf(&self) -> bool {
        &&& self.base + OFFSET_THUMBNAIL <= usize::MAX
        &&& self.ref_count >= 1
        &&& (self.stream matches Some(s) ==> s.wf())
        &&& self.unknown_vtable == spec_unknown_vtable()
        &&& self.stream_vtable == spec_initialize_with_stream_vtable()
        &&& self.thumbnail_vtable == spec_thumbnail_provider_vtable()
    }

    /// Recovers the composite's base address from the address of its base
    /// capability record.
    pub fn from_unknown(p: CapPtr) -> (base: usize)
        requires
            p.addr >= OFFSET_UNKNOWN,
        ensures
            base == p.addr - OFFSET_UNKNOWN,
    {
        p.addr - OFFSET_UNKNOWN
    }

    /// Recovers the composite's base address from the address of its
    /// stream-initialization capability record.
    pub fn from_initialize_with_stream(p: CapPtr) -> (base: usize)
        requires
            p.addr >= OFFSET_STREAM,
        ensures
            base == p.addr - OFFSET_STREAM,
    {
        p.addr - OFFSET_STREAM
    }

    /// Recovers the composite's base address from the address of its
    /// thumbnail-provider capability record.
    pub fn from_thumbnail_provider(p: CapPtr) -> (base: usize)
        requires
            p.addr >= OFFSET_THUMBNAIL,
        ensures
            base == p.addr - OFFSET_THUMBNAIL,
    {
        p.addr - OFFSET_THUMBNAIL
    }

    /// The wrapped implementation value.
    pub fn inner(&self) -> (p: &P)
        ensures
            *p == self.provider,
    {
        &self.provider
    }

    /// The address of this composite's base capability record.
    pub fn as_unknown(&self) -> (p: CapPtr)
        requires
            self.wf(),
        ensures
            p.addr == self.base + OFFSET_UNKNOWN,
    {
        CapPtr { addr: self.base + OFFSET_UNKNOWN }
    }

    /// The address of this composite's stream-initialization capability
    /// record.
    pub fn as_initialize_with_stream(&self) -> (p: CapPtr)
        requires
            self.wf(),
        ensures
            p.addr == self.base + OFFSET_STREAM,
    {
        CapPtr { addr: self.base + OFFSET_STREAM }
    }

    /// The address of this composite's thumbnail-provider capability record.
    pub fn as_thumbnail_provider(&self) -> (p: CapPtr)
        requires
            self.wf(),
        ensures
            p.addr == self.base + OFFSET_THUMBNAIL,
    {
        CapPtr { addr: self.base + OFFSET_THUMBNAIL }
    }

    /// Capability discovery, callable from any capability view: a supported
    /// identifier yields success and the address of the matching record; an
    /// unsupported one yields [`E_NOINTERFACE`] and no pointer (the null
    /// output of the call contract). Discovery never touches the lifetime
    /// counter: the caller already holds a counted reference.
    pub fn query_interface(&self, guid: &Guid) -> (r: (i32, Option<CapPtr>))
        requires
            self.wf(),
        ensures
            spec_query_post(*self, *guid, r),
    {
        let base_iid = iid_unknown();
        let thumbnail_iid = iid_thumbnail_provider();
        let stream_iid = iid_initialize_with_stream();
        if *guid == base_iid {
            (S_OK, Some(self.as_unknown()))
        } else if *guid == thumbnail_iid {
            (S_OK, Some(self.as_thumbnail_provider()))
        } else if *guid == stream_iid {
            (S_OK, Some(self.as_initialize_with_stream()))
        } else {
            (E_NOINTERFACE, None)
        }
    }

    /// Acquire: increments the shared lifetime counter and returns the new
    /// count. Valid from any capability view; there is exactly one counter.
    pub fn add_ref(&mut self) -> (count: u32)
        requires
            old(self).wf(),
            old(self).ref_count < u32::MAX,
        ensures
            final(self).wf(),
            *final(self) == spec_with_count(*old(self), ((old(self).ref_count + 1) as u32)),
            count == old(self).ref_count + 1,
    {
        self.ref_count = self.ref_count + 1;
        self.ref_count
    }

    /// Release: decrements the shared lifetime counter and reports the
    /// post-decrement count. When the count reaches zero the composite is
    /// destroyed here and now: the wrapped implementation is handed back to
    /// be dropped exactly once, and any residual held source is released.
    /// Consuming the composite makes release-after-destroy unrepresentable,
    /// which is the calling discipline the binary contract demands.
    pub fn release(self) -> (r: ReleaseOutcome<P>)
        requires
            self.wf(),
        ensures
            spec_release_post(self, r),
            r matches ReleaseOutcome::Alive { wrapper, .. } ==> wrapper.wf(),
    {
        if self.ref_count > 1 {
            let count = self.ref_count - 1;
            let wrapper = Wrapper { ref_count: count, ..self };
            ReleaseOutcome::Alive { wrapper, count }
        } else {
            let Wrapper {
                unknown_vtable: _,
                stream_vtable: _,
                thumbnail_vtable: _,
                base: _,
                ref_count: _,
                stream,
                provider,
            } = self;
            let mut actions: Vec<StreamAction> = Vec::new();
            match stream {
                Some(s) => {
                    actions.push(StreamAction::Release(s.id));
                    proof {
                        assert(actions@ =~= spec_release_actions(self.stream));
                    }
                },
                None => {
                    proof {
                        assert(actions@ =~= spec_release_actions(self.stream));
                    }
                },
            }
            ReleaseOutcome::Destroyed { provider, actions }
        }
    }
}

/// The alpha-channel disposition the adapter reports with every successful
/// generation: the pixel format carries an alpha channel.
pub const ALPHA_ARGB: i32 = 2;

/// A native bitmap handle, modeled by the image data it stands for.
pub struct Bitmap {
    pub width: u32,
    pub height: u32,
    pub pixels: Vec<u8>,
}

/// Converts a generated thumbnail into a native bitmap handle. The native
/// conversion itself is an external collaborator of the adapter; the model
/// carries the image data through unchanged and always succeeds.
pub fn to_bitmap(image: Thumbnail) -> (r: Result<Bitmap, ThumbnailError>)
    ensures
        r matches Ok(b) && b.width == image.width && b.height == image.height
            && b.pixels == image.pixels,
{
    Ok(Bitmap { width: image.width, height: image.height, pixels: image.pixels })
}

/// What a generation call reports back to the host: the status, the two
/// output slots (bitmap handle and alpha disposition, each written only on
/// success), and the release owed on the consumed source.
pub struct GenerateOutcome {
    pub hr: i32,
    pub bitmap: Option<Bitmap>,
    pub alpha: Option<i32>,
    pub actions: Vec<StreamAction>,
}

/// The call-return boundary of generation, for each possible outcome of the
/// wrapped implementation: a thumbnail becomes a bitmap handle, success
/// status and the fixed alpha disposition; a typed failure becomes its
/// mapped status code with both output slots left null.
pub fn finish_generation(outcome: Result<Thumbnail, ThumbnailError>) -> (r: (
    i32,
    Option<Bitmap>,
    Option<i32>,
))
    ensures
        outcome matches Ok(t) ==> (r.1 matches Some(b) && r.0 == S_OK && b.width == t.width
            && b.height == t.height && b.pixels == t.pixels && r.2 == Some(ALPHA_ARGB)),
        outcome matches Err(e) ==> r.0 == spec_hresult(e) && r.1 is None && r.2 is None,
{
    match outcome {
        Ok(img) => match to_bitmap(img) {
            Ok(b) => (S_OK, Some(b), Some(ALPHA_ARGB)),
            Err(e) => (get_hresult(&e), None, None),
        },
        Err(e) => (get_hresult(&e), None, None),
    }
}

/// What a stream handoff leaves behind: it always reports success, the slot
/// holds exactly the incoming source afterwards, and the retain/release
/// traffic is the incoming source retained first, then the previously held
/// source released.
pub open spec fn spec_handoff_post<P>(
    pre: Wrapper<P>,
    post: Wrapper<P>,
    pstream: Option<ComStream>,
    r: (i32, Vec<StreamAction>),
) -> bool {
    &&& post == spec_with_stream(pre, pstream)
    &&& r.0 == S_OK
    &&& r.1@ == spec_handoff_actions(pre.stream, pstream)
}

/// What a generation call leaves behind, for every possible outcome of the
/// wrapped implementation. With no source held it reports the fatal
/// precondition deterministically: status [`E_UNEXPECTED`], both output
/// slots null, nothing released, nothing changed. With a held source, the
/// slot is empty afterwards whatever happened, the consumed source is
/// released exactly once, a bitmap is handed out only with success status,
/// and the alpha slot is written exactly when the bitmap slot is.
pub open spec fn spec_generate_post<P>(
    pre: Wrapper<P>,
    post: Wrapper<P>,
    r: GenerateOutcome,
) -> bool {
    &&& pre.stream is None ==> (post == pre && r.hr == E_UNEXPECTED && r.bitmap is None
        && r.alpha is None && r.actions@ == Seq::<StreamAction>::empty())
    &&& pre.stream is Some ==> {
        &&& post == spec_with_stream(pre, None)
        &&& r.actions@ == spec_release_actions(pre.stream)
        &&& (r.bitmap matches Some(b) ==> r.hr == S_OK && r.alpha == Some(ALPHA_ARGB))
        &&& (r.bitmap is None ==> r.alpha is None)
    }
}

impl<P: ThumbnailProvider> Wrapper<P> {
    /// Stream handoff: takes ownership of the incoming source (retaining it
    /// first), swaps it into the held-input-source slot, and releases
    /// whatever was previously held. The mode flag of the call contract is
    /// ignored, and the call always reports success. An incoming null
    /// (`None`) simply clears the slot.
    pub fn initialize(&mut self, pstream: Option<ComStream>, _mode: u32) -> (r: (
        i32,
        Vec<StreamAction>,
    ))
        requires
            old(self).wf(),
            pstream matches Some(s) ==> s.wf(),
        ensures
            final(self).wf(),
            spec_handoff_post(*old(self), *final(self), pstream, r),
    {
        let mut actions: Vec<StreamAction> = Vec::new();
        match &pstream {
            Some(s) => actions.push(StreamAction::Retain(s.id)),
            None => (),
        }
        let old_stream = self.stream.take();
        self.stream = pstream;
        match old_stream {
            Some(s) => actions.push(StreamAction::Release(s.id)),
            None => (),
        }
        proof {
            assert(actions@ =~= spec_handoff_actions(old(self).stream, self.stream));
        }
        (S_OK, actions)
    }

    /// Thumbnail generation: atomically takes the held source (the slot is
    /// empty afterwards in every case), bridges it into a sequential
    /// reader, drives the wrapped implementation at square dimensions, and
    /// maps the outcome across the call-return boundary. The consumed
    /// source is released exactly once, on the success and on the failure
    /// path alike. With no source held, the documented fatal-precondition
    /// status is reported and nothing else happens.
    pub fn get_thumbnail(&mut self, width: u32) -> (r: GenerateOutcome)
        requires
            old(self).wf(),
        ensures
            final(self).wf(),
            spec_generate_post(*old(self), *final(self), r),
    {
        let dims = Dimensions { width, height: width };
        let taken = self.stream.take();
        match taken {
            None => GenerateOutcome {
                hr: E_UNEXPECTED,
                bitmap: None,
                alpha: None,
                actions: Vec::new(),
            },
            Some(s) => {
                let mut reader = StreamReader::new(s);
                let outcome = self.provider.get_thumbnail(&mut reader, dims);
                let release = reader.into_release_action();
                let mut actions: Vec<StreamAction> = Vec::new();
                actions.push(release);
                proof {
                    assert(actions@ =~= spec_release_actions(old(self).stream));
                }
                let (hr, bitmap, alpha) = finish_generation(outcome);
                GenerateOutcome { hr, bitmap, alpha, actions }
            },
        }
    }

    /// A fresh composite wrapping one implementation value, placed by the
    /// host at `base` (which must leave room for the three-record prefix),
    /// with a lifetime count of 1 and no held source.
    pub fn new(provider: P, base: usize) -> (w: Wrapper<P>)
        requires
            base + OFFSET_THUMBNAIL <= usize::MAX,
        ensures
            w.base == base,
            w.ref_count == 1,
            w.stream is None,
            w.provider == provider,
            w.wf(),
    {
        Wrapper {
            unknown_vtable: unknown_vtable(),
            stream_vtable: initialize_with_stream_vtable(),
            thumbnail_vtable: thumbnail_provider_vtable(),
            base,
            ref_count: 1,
            stream: None,
            provider,
        }
    }

    /// Creation entry point: a fresh composite together with the address of
    /// its base capability record, which is what the host receives.
    pub fn new_unknown(provider: P, base: usize) -> (r: (Wrapper<P>, CapPtr))
        requires
            base + OFFSET_THUMBNAIL <= usize::MAX,
        ensures
            r.0.base == base,
            r.0.ref_count == 1,
            r.0.stream is None,
            r.0.provider == provider,
            r.0.wf(),
            r.1.addr == base + OFFSET_UNKNOWN,
    {
        let w = Wrapper::new(provider, base);
        let p = w.as_unknown();
        (w, p)
    }
}

// The dispatch-table entry points. A foreign caller holds only the address
// of one capability record; the host hands the call to the entry the record's
// table names, and the entry recovers the composite's base address from the
// record address before doing any work. The model passes the composite
// alongside the address; the precondition that the address really is that
// composite's record is the binary contract's calling discipline (a foreign caller
// never invents pointers).

/// Acquire through the base capability record.
pub fn unknown_add_ref<P>(w: &mut Wrapper<P>, this: CapPtr) -> (count: u32)
    requires
        old(w).wf(),
        old(w).ref_count < u32::MAX,
        this.addr == old(w).base + OFFSET_UNKNOWN,
    ensures
        final(w).wf(),
        *final(w) == spec_with_count(*old(w), ((old(w).ref_count + 1) as u32)),
        count == old(w).ref_count + 1,
{
    let base = Wrapper::<P>::from_unknown(this);
    proof {
        assert(base == w.base);
    }
    w.add_ref()
}

/// Release through the base capability record.
pub fn unknown_release<P>(w: Wrapper<P>, this: CapPtr) -> (r: ReleaseOutcome<P>)
    requires
        w.wf(),
        this.addr == w.base + OFFSET_UNKNOWN,
    ensures
        spec_release_post(w, r),
        r matches ReleaseOutcome::Alive { wrapper, .. } ==> wrapper.wf(),
{
    let base = Wrapper::<P>::from_unknown(this);
    proof {
        assert(base == w.base);
    }
    w.release()
}

/// Discovery through the base capability record.
pub fn unknown_query_interface<P>(w: &Wrapper<P>, this: CapPtr, guid: &Guid) -> (r: (
    i32,
    Option<CapPtr>,
))
    requires
        w.wf(),
        this.addr == w.base + OFFSET_UNKNOWN,
    ensures
        spec_query_post(*w, *guid, r),
{
    let base = Wrapper::<P>::from_unknown(this);
    proof {
        assert(base == w.base);
    }
    w.query_interface(guid)
}

/// Acquire through the stream-initialization capability record.
pub fn init_with_stream_add_ref<P>(w: &mut Wrapper<P>, this: CapPtr) -> (count: u32)
    requires
        old(w).wf(),
        old(w).ref_count < u32::MAX,
        this.addr == old(w).base + OFFSET_STREAM,
    ensures
        final(w).wf(),
        *final(w) == spec_with_count(*old(w), ((old(w).ref_count + 1) as u32)),
        count == old(w).ref_count + 1,
{
    let base = Wrapper::<P>::from_initialize_with_stream(this);
    proof {
        assert(base == w.base);
    }
    w.add_ref()
}

/// Release through the stream-initialization capability record.
pub fn init_with_stream_release<P>(w: Wrapper<P>, this: CapPtr) -> (r: ReleaseOutcome<P>)
    requires
        w.wf(),
        this.addr == w.base + OFFSET_STREAM,
    ensures
        spec_release_post(w, r),
        r matches ReleaseOutcome::Alive { wrapper, .. } ==> wrapper.wf(),
{
    let base = Wrapper::<P>::from_initialize_with_stream(this);
    proof {
        assert(base == w.base);
    }
    w.release()
}

/// Discovery through the stream-initialization capability record.
pub fn init_with_stream_query_interface<P>(w: &Wrapper<P>, this: CapPtr, guid: &Guid) -> (r: (
    i32,
    Option<CapPtr>,
))
    requires
        w.wf(),
        this.addr == w.base + OFFSET_STREAM,
    ensures
        spec_query_post(*w, *guid, r),
{
    let base = Wrapper::<P>::from_initialize_with_stream(this);
    proof {
        assert(base == w.base);
    }
    w.query_interface(guid)
}

/// Stream handoff through the stream-initialization capability record.
pub fn init_with_stream_initialize<P: ThumbnailProvider>(
    w: &mut Wrapper<P>,
    this: CapPtr,
    pstream: Option<ComStream>,
    mode: u32,
) -> (r: (i32, Vec<StreamAction>))
    requires
        old(w).wf(),
        this.addr == old(w).base + OFFSET_STREAM,
        pstream matches Some(s) ==> s.wf(),
    ensures
        final(w).wf(),
        spec_handoff_post(*old(w), *final(w), pstream, r),
{
    let base = Wrapper::<P>::from_initialize_with_stream(this);
    proof {
        assert(base == w.base);
    }
    w.initialize(pstream, mode)
}

/// Acquire through the thumbnail-provider capability record.
pub fn thumbnail_provider_add_ref<P>(w: &mut Wrapper<P>, this: CapPtr) -> (count: u32)
    requires
        old(w).wf(),
        old(w).ref_count < u32::MAX,
        this.addr == old(w).base + OFFSET_THUMBNAIL,
    ensures
        final(w).wf(),
        *final(w) == spec_with_count(*old(w), ((old(w).ref_count + 1) as u32)),
        count == old(w).ref_count + 1,
{
    let base = Wrapper::<P>::from_thumbnail_provider(this);
    proof {
        assert(base == w.base);
    }
    w.add_ref()
}

/// Release through the thumbnail-provider capability record.
pub fn thumbnail_provider_release<P>(w: Wrapper<P>, this: CapPtr) -> (r: ReleaseOutcome<P>)
    requires
        w.wf(),
        this.addr == w.base + OFFSET_THUMBNAIL,
    ensures
        spec_release_post(w, r),
        r matches ReleaseOutcome::Alive { wrapper, .. } ==> wrapper.wf(),
{
    let base = Wrapper::<P>::from_thumbnail_provider(this);
    proof {
        assert(base == w.base);
    }
    w.release()
}

/// Discovery through the thumbnail-provider capability record.
pub fn thumbnail_provider_query_interface<P>(w: &Wrapper<P>, this: CapPtr, guid: &Guid) -> (r: (
    i32,
    Option<CapPtr>,
))
    requires
        w.wf(),
        this.addr == w.base + OFFSET_THUMBNAIL,
    ensures
        spec_query_post(*w, *guid, r),
{
    let base = Wrapper::<P>::from_thumbnail_provider(this);
    proof {
        assert(base == w.base);
    }
    w.query_interface(guid)
}

/// Thumbnail generation through the thumbnail-provider capability record.
pub fn thumbnail_provider_get_thumbnail<P: ThumbnailProvider>(
    w: &mut Wrapper<P>,
    this: CapPtr,
    width: u32,
) -> (r: GenerateOutcome)
    requires
        old(w).wf(),
        this.addr == old(w).base + OFFSET_THUMBNAIL,
    ensures
        final(w).wf(),
        spec_generate_post(*old(w), *final(w), r),
{
    let base = Wrapper::<P>::from_thumbnail_provider(this);
    proof {
        assert(base == w.base);
    }
    w.get_thumbnail(width)
}

} // verus!
