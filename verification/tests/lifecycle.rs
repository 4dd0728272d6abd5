use std::sync::atomic::{AtomicBool, AtomicUsize, Ordering};
use std::sync::Arc;

use thumbnail_adapter::guid::{iid_unknown, Guid};
use thumbnail_adapter::status::{ThumbnailError, E_NOINTERFACE, S_OK};
use thumbnail_adapter::stream::StreamReader;
use thumbnail_adapter::wrapper::{
    initialize_with_stream_vtable, thumbnail_provider_vtable, unknown_add_ref,
    unknown_query_interface, unknown_release, unknown_vtable, ComFn, ReleaseOutcome, Wrapper,
    OFFSET_STREAM, OFFSET_THUMBNAIL, OFFSET_UNKNOWN,
};
use thumbnail_adapter::{Dimensions, Thumbnail, ThumbnailProvider};

struct DropCheck(Arc<AtomicBool>);

impl ThumbnailProvider for DropCheck {
    fn get_thumbnail(
        &self,
        _reader: &mut StreamReader,
        _desired_dimensions: Dimensions,
    ) -> Result<Thumbnail, ThumbnailError> {
        panic!("not invoked by this test");
    }
}

impl Drop for DropCheck {
    fn drop(&mut self) {
        self.0.store(true, Ordering::SeqCst);
    }
}

struct DummyProvider;

impl ThumbnailProvider for DummyProvider {
    fn get_thumbnail(
        &self,
        _reader: &mut StreamReader,
        _desired_dimensions: Dimensions,
    ) -> Result<Thumbnail, ThumbnailError> {
        panic!("not invoked by this test");
    }
}

#[test]
fn release_actually_drops_the_object() {
    let deleted = Arc::new(AtomicBool::new(false));

    let (wrapper, cap) = Wrapper::new_unknown(DropCheck(Arc::clone(&deleted)), 4096);
    assert_eq!(wrapper.ref_count, 1);

    let release = wrapper.unknown_vtable.release;
    assert_eq!(release, ComFn::UnknownRelease);

    match unknown_release(wrapper, cap) {
        ReleaseOutcome::Destroyed { provider, actions } => {
            assert!(actions.is_empty());
            drop(provider);
        }
        ReleaseOutcome::Alive { .. } => panic!("count 1 must destroy on release"),
    }

    let was_actually_released = deleted.load(Ordering::SeqCst);
    assert!(was_actually_released);
}

#[test]
fn wrapper_from_unknown() {
    let (wrapper, cap) = Wrapper::new_unknown(DummyProvider, 512);

    let got = Wrapper::<DummyProvider>::from_unknown(cap);
    assert_eq!(got, wrapper.base);
    assert_eq!(got, 512);
    assert_eq!(cap.addr, 512 + OFFSET_UNKNOWN);
}

#[test]
fn query_interface_gets_unknown() {
    let (wrapper, cap) = Wrapper::new_unknown(DummyProvider, 2048);

    let query_interface = wrapper.unknown_vtable.query_interface;
    assert_eq!(query_interface, ComFn::UnknownQueryInterface);

    let (result, place) = unknown_query_interface(&wrapper, cap, &iid_unknown());
    assert_eq!(result, S_OK);
    assert_eq!(place.expect("base capability must be discoverable").addr, cap.addr);
}

#[test]
fn increment_the_ref_count() {
    let (mut wrapper, cap) = Wrapper::new_unknown(DummyProvider, 64);
    assert_eq!(wrapper.ref_count, 1);

    let add_ref = wrapper.unknown_vtable.add_ref;
    assert_eq!(add_ref, ComFn::UnknownAddRef);

    let new_ref_count = unknown_add_ref(&mut wrapper, cap);
    assert_eq!(new_ref_count, 2);
}

struct DropCount(Arc<AtomicUsize>);

impl ThumbnailProvider for DropCount {
    fn get_thumbnail(
        &self,
        _reader: &mut StreamReader,
        _desired_dimensions: Dimensions,
    ) -> Result<Thumbnail, ThumbnailError> {
        panic!("not invoked by this test");
    }
}

impl Drop for DropCount {
    fn drop(&mut self) {
        self.0.fetch_add(1, Ordering::SeqCst);
    }
}

#[test]
fn acquire_then_two_releases_destroys_once() {
    let drops = Arc::new(AtomicUsize::new(0));

    let mut wrapper = Wrapper::new(DropCount(Arc::clone(&drops)), 256);
    let observed = wrapper.add_ref();
    assert_eq!(observed, 2);

    let wrapper = match wrapper.release() {
        ReleaseOutcome::Alive { wrapper, count } => {
            assert_eq!(count, 1);
            wrapper
        }
        ReleaseOutcome::Destroyed { .. } => panic!("count 2 must survive one release"),
    };
    assert_eq!(drops.load(Ordering::SeqCst), 0);

    match wrapper.release() {
        ReleaseOutcome::Destroyed { provider, actions } => {
            assert!(actions.is_empty());
            drop(provider);
        }
        ReleaseOutcome::Alive { .. } => panic!("count 1 must destroy on release"),
    }
    assert_eq!(drops.load(Ordering::SeqCst), 1);
}

#[test]
fn discovery_round_trips_all_three_identifiers() {
    let wrapper = Wrapper::new(DummyProvider, 9000);

    let (hr_u, p_u) = wrapper.query_interface(&thumbnail_adapter::guid::iid_unknown());
    assert_eq!(hr_u, S_OK);
    let p_u = p_u.expect("base capability supported");
    assert_eq!(Wrapper::<DummyProvider>::from_unknown(p_u), 9000);

    let (hr_t, p_t) =
        wrapper.query_interface(&thumbnail_adapter::guid::iid_thumbnail_provider());
    assert_eq!(hr_t, S_OK);
    let p_t = p_t.expect("thumbnail capability supported");
    assert_eq!(p_t.addr, 9000 + OFFSET_THUMBNAIL);
    assert_eq!(Wrapper::<DummyProvider>::from_thumbnail_provider(p_t), 9000);

    let (hr_s, p_s) =
        wrapper.query_interface(&thumbnail_adapter::guid::iid_initialize_with_stream());
    assert_eq!(hr_s, S_OK);
    let p_s = p_s.expect("stream capability supported");
    assert_eq!(p_s.addr, 9000 + OFFSET_STREAM);
    assert_eq!(Wrapper::<DummyProvider>::from_initialize_with_stream(p_s), 9000);
}

#[test]
fn discovery_rejects_unknown_identifier() {
    let wrapper = Wrapper::new(DummyProvider, 128);
    let stranger = Guid::new(0x12345678, 0x9abc, 0xdef0, [1, 2, 3, 4, 5, 6, 7, 8]);

    let (hr, place) = wrapper.query_interface(&stranger);
    assert_eq!(hr, E_NOINTERFACE);
    assert!(place.is_none());
}

#[test]
fn capability_views_share_one_counter() {
    let mut wrapper = Wrapper::new(DummyProvider, 0);
    let stream_cap = wrapper.as_initialize_with_stream();
    let thumb_cap = wrapper.as_thumbnail_provider();

    let c1 = thumbnail_adapter::wrapper::init_with_stream_add_ref(&mut wrapper, stream_cap);
    assert_eq!(c1, 2);
    let c2 = thumbnail_adapter::wrapper::thumbnail_provider_add_ref(&mut wrapper, thumb_cap);
    assert_eq!(c2, 3);
    assert_eq!(wrapper.ref_count, 3);
}

#[test]
fn discovery_works_from_every_capability_view() {
    let wrapper = Wrapper::new(DummyProvider, 4000);
    let stream_cap = wrapper.as_initialize_with_stream();
    let thumb_cap = wrapper.as_thumbnail_provider();

    let (hr_s, found_s) = thumbnail_adapter::wrapper::init_with_stream_query_interface(
        &wrapper,
        stream_cap,
        &iid_unknown(),
    );
    assert_eq!(hr_s, S_OK);
    assert_eq!(found_s.expect("discoverable from the stream view").addr, 4000);

    let (hr_t, found_t) = thumbnail_adapter::wrapper::thumbnail_provider_query_interface(
        &wrapper,
        thumb_cap,
        &thumbnail_adapter::guid::iid_initialize_with_stream(),
    );
    assert_eq!(hr_t, S_OK);
    assert_eq!(
        found_t.expect("discoverable from the thumbnail view").addr,
        4000 + OFFSET_STREAM
    );
}

#[test]
fn dispatch_tables_route_to_their_interface() {
    let wrapper = Wrapper::new(DummyProvider, 0);
    assert_eq!(wrapper.unknown_vtable, unknown_vtable());
    assert_eq!(wrapper.stream_vtable, initialize_with_stream_vtable());
    assert_eq!(wrapper.thumbnail_vtable, thumbnail_provider_vtable());

    let stream_table = initialize_with_stream_vtable();
    assert_eq!(stream_table.query_interface, ComFn::StreamQueryInterface);
    assert_eq!(stream_table.add_ref, ComFn::StreamAddRef);
    assert_eq!(stream_table.release, ComFn::StreamRelease);
    assert_eq!(stream_table.initialize, ComFn::StreamInitialize);

    let thumb_table = thumbnail_provider_vtable();
    assert_eq!(thumb_table.query_interface, ComFn::ThumbnailQueryInterface);
    assert_eq!(thumb_table.add_ref, ComFn::ThumbnailAddRef);
    assert_eq!(thumb_table.release, ComFn::ThumbnailRelease);
    assert_eq!(thumb_table.get_thumbnail, ComFn::ThumbnailGetThumbnail);
}
