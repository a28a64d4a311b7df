use ncnn_rs::error::status_result;
use ncnn_rs::{
    check_normalize, check_pixel_data, native_thread_count, stub_read, stub_scan,
    thread_count_from_native, CallbackSlots, Error, GraphState, MatPixelType, SessionInputs,
    ValidationError,
};

type Scan = fn() -> i32;
type Read = fn(&mut [u8]) -> usize;

fn stub_slots() -> CallbackSlots<Scan, Read> {
    CallbackSlots::with(stub_scan as Scan, stub_read as Read)
}

#[test]
fn pixel_strides_and_codes() {
    assert_eq!(MatPixelType::BGR.stride(), 3);
    assert_eq!(MatPixelType::RGB.stride(), 3);
    assert_eq!(MatPixelType::BGRA.stride(), 4);
    assert_eq!(MatPixelType::RGBA.stride(), 4);
    assert_eq!(MatPixelType::GRAY.stride(), 1);
    assert_eq!(MatPixelType::RGB.to_int(), 1);
    assert_eq!(MatPixelType::BGR.to_int(), 2);
    assert_eq!(MatPixelType::GRAY.to_int(), 3);
    assert_eq!(MatPixelType::RGBA.to_int(), 4);
    assert_eq!(MatPixelType::BGRA.to_int(), 5);
}

#[test]
fn pixel_data_of_exact_length_is_accepted() {
    assert_eq!(check_pixel_data(4 * 2 * 3, MatPixelType::BGR, 4, 2), Ok(12));
    assert_eq!(check_pixel_data(224 * 224 * 4, MatPixelType::RGBA, 224, 224), Ok(896));
    assert_eq!(check_pixel_data(5 * 7, MatPixelType::GRAY, 5, 7), Ok(5));
    assert_eq!(check_pixel_data(0, MatPixelType::BGRA, 0, 9), Ok(0));
}

#[test]
fn pixel_data_of_wrong_length_is_rejected() {
    assert_eq!(
        check_pixel_data(23, MatPixelType::RGB, 4, 2),
        Err(Error::Validation(ValidationError::PixelDataLength { expected: 24, actual: 23 }))
    );
    assert_eq!(
        check_pixel_data(25, MatPixelType::BGR, 4, 2),
        Err(Error::Validation(ValidationError::PixelDataLength { expected: 24, actual: 25 }))
    );
    assert_eq!(
        check_pixel_data(8, MatPixelType::GRAY, -2, 4),
        Err(Error::Validation(ValidationError::PixelDataLength { expected: -8, actual: 8 }))
    );
}

#[test]
fn pixel_length_does_not_overflow_at_extremes() {
    let expected = i32::MAX as i128 * i32::MAX as i128 * 4;
    assert_eq!(
        check_pixel_data(usize::MAX, MatPixelType::RGBA, i32::MAX, i32::MAX),
        Err(Error::Validation(ValidationError::PixelDataLength { expected, actual: usize::MAX }))
    );
}

#[test]
fn normalize_needs_one_value_per_channel() {
    assert_eq!(check_normalize(3, 3, 3), Ok(()));
    assert_eq!(check_normalize(0, 0, 0), Ok(()));
    assert_eq!(
        check_normalize(3, 2, 3),
        Err(Error::Validation(ValidationError::ChannelCount { channels: 3, mean_len: 2, norm_len: 3 }))
    );
    assert_eq!(
        check_normalize(3, 3, 4),
        Err(Error::Validation(ValidationError::ChannelCount { channels: 3, mean_len: 3, norm_len: 4 }))
    );
    assert!(check_normalize(-1, 0, 0).is_err());
}

#[test]
fn stub_callbacks_report_success_and_zero_fill() {
    assert_eq!(stub_scan(), 0);
    let mut buf = vec![7u8, 1, 255, 3];
    assert_eq!(stub_read(&mut buf), 4);
    assert_eq!(buf, vec![0u8, 0, 0, 0]);
    let mut empty: Vec<u8> = Vec::new();
    assert_eq!(stub_read(&mut empty), 0);
}

#[test]
fn stub_reads_are_repeatable() {
    let mut first = vec![9u8; 16];
    let mut second = vec![42u8; 16];
    assert_eq!(stub_read(&mut first), stub_read(&mut second));
    assert_eq!(first, second);
}

#[test]
fn callback_slots_need_both_callbacks() {
    let mut slots: CallbackSlots<Scan, Read> = CallbackSlots::unset();
    assert!(!slots.is_complete());
    assert_eq!(
        slots.check_complete(),
        Err(Error::Validation(ValidationError::IncompleteStreamSource))
    );
    slots.set_scan(Some(stub_scan as Scan));
    assert!(slots.scan().is_some());
    assert!(slots.read().is_none());
    assert!(!slots.is_complete());
    slots.set_read(Some(stub_read as Read));
    assert_eq!(slots.check_complete(), Ok(()));
    slots.set_scan(None);
    assert!(slots.scan().is_none());
    assert!(slots.read().is_some());
    assert!(!slots.is_complete());
    assert_eq!(stub_slots().check_complete(), Ok(()));
}

#[test]
fn graph_lifecycle_reaches_ready() {
    let mut g = GraphState::new();
    assert_eq!(g, GraphState::Empty);
    assert_eq!(g.check_create_session(), Err(Error::Validation(ValidationError::GraphNotReady)));
    assert_eq!(g.check_load_weights(), Err(Error::Load));
    assert_eq!(g.check_load_topology(), Ok(()));
    assert_eq!(g.record_topology(0), Ok(()));
    assert_eq!(g, GraphState::TopologyLoaded);
    assert_eq!(g.check_load_topology(), Err(Error::Load));
    assert_eq!(g.check_load_weights_from(&stub_slots()), Ok(()));
    assert_eq!(g.record_weights(0), Ok(()));
    assert_eq!(g, GraphState::Ready);
    assert_eq!(g.check_create_session(), Ok(()));
    assert_eq!(g.check_create_session(), Ok(()));
    assert_eq!(g.check_load_weights(), Err(Error::Load));
}

#[test]
fn failed_topology_load_blocks_weights() {
    let mut g = GraphState::new();
    assert_eq!(g.record_topology(-1), Err(Error::Load));
    assert_eq!(g, GraphState::Failed);
    assert_eq!(g.check_load_weights(), Err(Error::Load));
    assert_eq!(g.check_load_weights_from(&stub_slots()), Err(Error::Load));
    assert_eq!(g.check_load_topology(), Err(Error::Load));
    assert_eq!(g.check_create_session(), Err(Error::Validation(ValidationError::GraphNotReady)));
}

#[test]
fn failed_weight_load_is_terminal() {
    let mut g = GraphState::new();
    assert_eq!(g.record_topology(0), Ok(()));
    assert_eq!(g.record_weights(100), Err(Error::Load));
    assert_eq!(g, GraphState::Failed);
    assert_eq!(g.check_load_weights(), Err(Error::Load));
    assert_eq!(g.check_create_session(), Err(Error::Validation(ValidationError::GraphNotReady)));
}

#[test]
fn incomplete_source_is_refused_before_loading() {
    let mut g = GraphState::new();
    assert_eq!(g.record_topology(0), Ok(()));
    let mut slots = stub_slots();
    slots.set_read(None);
    assert_eq!(
        g.check_load_weights_from(&slots),
        Err(Error::Validation(ValidationError::IncompleteStreamSource))
    );
    assert_eq!(g, GraphState::TopologyLoaded);
}

#[test]
fn session_inputs_survive_refused_calls() {
    let mut s = SessionInputs::new();
    assert_eq!(s.len(), 0);
    assert_eq!(s.record_input("data", 0), Ok(()));
    assert!(s.is_bound("data"));
    assert_eq!(s.record_input("no_such_input", -1), Err(Error::Bind));
    assert!(!s.is_bound("no_such_input"));
    assert!(s.is_bound("data"));
    assert_eq!(s.len(), 1);
    assert_eq!(s.record_extract(-1), Err(Error::Extract));
    assert!(s.is_bound("data"));
    assert_eq!(s.len(), 1);
}

#[test]
fn session_rebinding_a_name_keeps_one_entry() {
    let mut s = SessionInputs::new();
    assert_eq!(s.record_input("data", 0), Ok(()));
    assert_eq!(s.record_input("mask", 0), Ok(()));
    assert_eq!(s.record_input("data", 0), Ok(()));
    assert_eq!(s.len(), 2);
    assert!(s.is_bound("mask"));
    assert_eq!(s.record_extract(0), Ok(()));
}

#[test]
fn end_to_end_lifecycle_with_stub_source() {
    assert_eq!(native_thread_count(1), 1);
    let mut g = GraphState::new();
    assert_eq!(g.check_load_topology(), Ok(()));
    assert_eq!(g.record_topology(0), Ok(()));
    assert_eq!(g.check_load_weights_from(&stub_slots()), Ok(()));
    assert_eq!(g.record_weights(0), Ok(()));
    assert_eq!(g.check_create_session(), Ok(()));
    let mut s = SessionInputs::new();
    assert_eq!(s.record_input("data", 0), Ok(()));
    assert_eq!(s.record_extract(0), Ok(()));
}

#[test]
fn thread_counts_convert_both_ways() {
    assert_eq!(native_thread_count(4), 4);
    assert_eq!(native_thread_count(0), 0);
    assert_eq!(native_thread_count(u32::MAX), i32::MAX);
    assert_eq!(thread_count_from_native(4), 4);
    assert_eq!(thread_count_from_native(-3), 0);
    assert_eq!(thread_count_from_native(native_thread_count(8)), 8);
}

#[test]
fn status_codes_map_to_errors() {
    assert_eq!(status_result(0, Error::Load), Ok(()));
    assert_eq!(status_result(-100, Error::Load), Err(Error::Load));
    assert_eq!(status_result(1, Error::Bind), Err(Error::Bind));
}
