use thumbnail_adapter::status::{
    get_hresult, succeeded, ThumbnailError, E_FAIL, E_UNEXPECTED, S_OK,
};
use thumbnail_adapter::stream::{ComStream, StreamAction, StreamReader};
use thumbnail_adapter::wrapper::{ReleaseOutcome, Wrapper, ALPHA_ARGB};
use thumbnail_adapter::{Dimensions, Thumbnail, ThumbnailProvider};

fn retains_of(actions: &[StreamAction], id: u64) -> usize {
    actions
        .iter()
        .filter(|a| matches!(a, StreamAction::Retain(x) if *x == id))
        .count()
}

fn releases_of(actions: &[StreamAction], id: u64) -> usize {
    actions
        .iter()
        .filter(|a| matches!(a, StreamAction::Release(x) if *x == id))
        .count()
}

struct NeverProvider;

impl ThumbnailProvider for NeverProvider {
    fn get_thumbnail(
        &self,
        _reader: &mut StreamReader,
        _desired_dimensions: Dimensions,
    ) -> Result<Thumbnail, ThumbnailError> {
        panic!("not invoked by this test");
    }
}

/// Reads the whole source through the bridge and echoes the bytes back as
/// the pixel data of a thumbnail at the requested dimensions.
struct EchoProvider;

impl ThumbnailProvider for EchoProvider {
    fn get_thumbnail(
        &self,
        reader: &mut StreamReader,
        desired_dimensions: Dimensions,
    ) -> Result<Thumbnail, ThumbnailError> {
        let mut pixels = Vec::new();
        loop {
            match reader.read(4) {
                Ok(chunk) => {
                    if chunk.is_empty() {
                        break;
                    }
                    pixels.extend_from_slice(&chunk);
                }
                Err(code) => return Err(ThumbnailError::Os { code }),
            }
        }
        Ok(Thumbnail {
            width: desired_dimensions.width,
            height: desired_dimensions.height,
            pixels,
        })
    }
}

struct FailingProvider;

impl ThumbnailProvider for FailingProvider {
    fn get_thumbnail(
        &self,
        _reader: &mut StreamReader,
        _desired_dimensions: Dimensions,
    ) -> Result<Thumbnail, ThumbnailError> {
        Err(ThumbnailError::Wrapped {
            inner: Box::new(ThumbnailError::Wrapped {
                inner: Box::new(ThumbnailError::Os { code: 1117 }),
            }),
        })
    }
}

#[test]
fn handoff_net_retains_exactly_one_reference() {
    let mut wrapper = Wrapper::new(NeverProvider, 0);

    let (hr_a, acts_a) = wrapper.initialize(Some(ComStream::new(1, vec![9])), 0);
    assert_eq!(hr_a, S_OK);
    assert_eq!(acts_a, vec![StreamAction::Retain(1)]);

    let (hr_b, acts_b) = wrapper.initialize(Some(ComStream::new(2, vec![8])), 0);
    assert_eq!(hr_b, S_OK);
    assert_eq!(acts_b, vec![StreamAction::Retain(2), StreamAction::Release(1)]);

    let all: Vec<StreamAction> = acts_a.iter().chain(acts_b.iter()).copied().collect();
    assert_eq!(retains_of(&all, 2) as i64 - releases_of(&all, 2) as i64, 1);
    assert_eq!(retains_of(&all, 1) as i64 - releases_of(&all, 1) as i64, 0);
}

#[test]
fn handoff_retains_before_releasing_the_same_source() {
    let mut wrapper = Wrapper::new(NeverProvider, 0);
    let (_, _) = wrapper.initialize(Some(ComStream::new(5, vec![1])), 0);

    // Handing the held source off again must retain it before releasing it,
    // so its reference count never touches zero in between.
    let (_, acts) = wrapper.initialize(Some(ComStream::new(5, vec![1])), 0);
    assert_eq!(acts, vec![StreamAction::Retain(5), StreamAction::Release(5)]);
}

#[test]
fn handoff_of_null_clears_the_slot() {
    let mut wrapper = Wrapper::new(NeverProvider, 0);
    let (_, _) = wrapper.initialize(Some(ComStream::new(5, vec![])), 0);

    let (hr, acts) = wrapper.initialize(None, 0);
    assert_eq!(hr, S_OK);
    assert_eq!(acts, vec![StreamAction::Release(5)]);
    assert!(wrapper.stream.is_none());
}

#[test]
fn generation_without_source_signals_the_fatal_path() {
    let mut wrapper = Wrapper::new(NeverProvider, 0);

    let outcome = wrapper.get_thumbnail(32);

    assert_eq!(outcome.hr, E_UNEXPECTED);
    assert!(outcome.bitmap.is_none());
    assert!(outcome.alpha.is_none());
    assert!(outcome.actions.is_empty());
}

#[test]
fn generation_maps_a_nested_os_code_exactly() {
    let mut wrapper = Wrapper::new(FailingProvider, 0);
    let (_, _) = wrapper.initialize(Some(ComStream::new(3, vec![1, 2, 3])), 0);

    let outcome = wrapper.get_thumbnail(32);

    assert_eq!(outcome.hr, 1117);
    assert!(outcome.bitmap.is_none());
    assert!(outcome.alpha.is_none());
    assert_eq!(outcome.actions, vec![StreamAction::Release(3)]);
}

#[test]
fn round_trip_consumes_the_second_stream() {
    let mut wrapper = Wrapper::new(EchoProvider, 0);

    let (_, acts_a) = wrapper.initialize(Some(ComStream::new(10, vec![0xaa])), 0);
    let (_, acts_b) = wrapper.initialize(Some(ComStream::new(11, vec![0xbb, 0xbc])), 0);
    let outcome = wrapper.get_thumbnail(16);

    // B's bytes came out, so B was the consumed stream.
    assert_eq!(outcome.hr, S_OK);
    assert_eq!(outcome.bitmap.as_ref().expect("success yields a bitmap").pixels, vec![0xbb, 0xbc]);

    // A was released exactly once, at the second handoff, never at generate.
    assert_eq!(releases_of(&acts_a, 10), 0);
    assert_eq!(releases_of(&acts_b, 10), 1);
    assert_eq!(releases_of(&outcome.actions, 10), 0);
    assert_eq!(outcome.actions, vec![StreamAction::Release(11)]);
}

#[test]
fn successful_generation_writes_both_output_slots() {
    let mut wrapper = Wrapper::new(EchoProvider, 0);
    let (_, _) = wrapper.initialize(Some(ComStream::new(4, vec![1, 2, 3, 4, 5])), 0);

    let outcome = wrapper.get_thumbnail(64);

    assert_eq!(outcome.hr, S_OK);
    let bitmap = outcome.bitmap.expect("success yields a bitmap");
    assert_eq!(bitmap.width, 64);
    assert_eq!(bitmap.height, 64);
    assert_eq!(bitmap.pixels, vec![1, 2, 3, 4, 5]);
    assert_eq!(outcome.alpha, Some(ALPHA_ARGB));
    assert!(wrapper.stream.is_none());
}

#[test]
fn failed_read_surfaces_the_foreign_status() {
    let mut source = ComStream::new(6, vec![1, 2, 3]);
    source.read_status = E_FAIL;
    let mut wrapper = Wrapper::new(EchoProvider, 0);
    let (_, _) = wrapper.initialize(Some(source), 0);

    let outcome = wrapper.get_thumbnail(8);

    // EchoProvider wraps the failed read's status as its own failure.
    assert_eq!(outcome.hr, E_FAIL);
    assert!(outcome.bitmap.is_none());
    assert_eq!(outcome.actions, vec![StreamAction::Release(6)]);
}

#[test]
fn destruction_releases_a_residual_source() {
    let mut wrapper = Wrapper::new(NeverProvider, 0);
    let (_, _) = wrapper.initialize(Some(ComStream::new(12, vec![])), 0);

    match wrapper.release() {
        ReleaseOutcome::Destroyed { actions, .. } => {
            assert_eq!(actions, vec![StreamAction::Release(12)]);
        }
        ReleaseOutcome::Alive { .. } => panic!("count 1 must destroy on release"),
    }
}

#[test]
fn reader_reads_in_chunks_to_the_end() {
    let mut reader = StreamReader::new(ComStream::new(20, vec![1, 2, 3, 4, 5]));

    assert_eq!(reader.read(2).expect("read succeeds"), vec![1, 2]);
    assert_eq!(reader.read(2).expect("read succeeds"), vec![3, 4]);
    assert_eq!(reader.read(2).expect("read succeeds"), vec![5]);
    assert_eq!(reader.read(2).expect("read succeeds"), Vec::<u8>::new());

    assert_eq!(reader.into_release_action(), StreamAction::Release(20));
}

#[test]
fn reader_surfaces_a_failing_source_verbatim() {
    let mut source = ComStream::new(21, vec![1]);
    source.read_status = -2147287035;
    let mut reader = StreamReader::new(source);

    assert_eq!(reader.read(1), Err(-2147287035));
    assert_eq!(reader.into_release_action(), StreamAction::Release(21));
}

#[test]
fn status_mapping_walks_the_cause_chain() {
    let two_deep = ThumbnailError::Wrapped {
        inner: Box::new(ThumbnailError::Wrapped {
            inner: Box::new(ThumbnailError::Os { code: 5 }),
        }),
    };
    assert_eq!(get_hresult(&two_deep), 5);

    let direct = ThumbnailError::Os { code: -2147024894 };
    assert_eq!(get_hresult(&direct), -2147024894);
}

#[test]
fn status_mapping_fails_closed_without_a_code() {
    let codeless = ThumbnailError::Wrapped {
        inner: Box::new(ThumbnailError::Unspecified),
    };
    assert_eq!(get_hresult(&codeless), E_FAIL);
    assert!(!succeeded(E_FAIL));
    assert!(succeeded(S_OK));
}
