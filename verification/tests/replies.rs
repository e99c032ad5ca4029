use fmod_dsp::dsp::{from_ptr, get_ffi};
use fmod_dsp::native::{DspType, FmodMemoryUsageDetails, Float32, NativeCall};
use fmod_dsp::reply::{
    connection, count, defaults, dsp_type, flag, info, memory_info, neighbour, parameter,
    parameter_info,
};
use fmod_dsp::status::{Status, OK_CODE};

fn float(x: f32) -> Float32 {
    Float32::from_bits(x.to_bits())
}

fn refused() -> Status {
    Status::from_code(37)
}

#[test]
fn the_success_sentinel_is_code_zero() {
    assert_eq!(OK_CODE, 0);
    assert_eq!(Status::ok().code, 0);
    assert!(Status::ok().is_ok());
    assert!(Status::from_code(0).is_ok());
    assert!(!Status::from_code(1).is_ok());
    assert!(!Status::from_code(-1).is_ok());
    assert_eq!(Status::from_code(37).code, 37);
}

#[test]
fn count_gives_the_number_on_success() {
    assert_eq!(count(Status::ok(), 3), Ok(3));
    assert_eq!(count(Status::ok(), 0), Ok(0));
    assert_eq!(count(Status::ok(), -1), Ok(-1));
}

#[test]
fn count_gives_the_status_on_failure() {
    assert_eq!(count(refused(), 3), Err(refused()));
}

#[test]
fn flag_is_on_for_one_alone() {
    assert_eq!(flag(Status::ok(), 1), Ok(true));
    assert_eq!(flag(Status::ok(), 0), Ok(false));
    assert_eq!(flag(Status::ok(), 2), Ok(false));
    assert_eq!(flag(Status::ok(), -1), Ok(false));
}

#[test]
fn flag_gives_the_status_on_failure() {
    assert_eq!(flag(refused(), 1), Err(refused()));
}

#[test]
fn a_switch_reads_back_as_it_was_set() {
    let node = from_ptr(3);
    for on in [true, false] {
        match node.set_active(on) {
            NativeCall::SetActive { active, .. } => assert_eq!(flag(Status::ok(), active), Ok(on)),
            other => panic!("{:?}", other),
        }
        match node.set_bypass(on) {
            NativeCall::SetBypass { bypass, .. } => assert_eq!(flag(Status::ok(), bypass), Ok(on)),
            other => panic!("{:?}", other),
        }
    }
}

#[test]
fn connection_wraps_the_handle() {
    let edge = connection(Status::ok(), 0x77).unwrap();
    assert_eq!(fmod_dsp::dsp_connection::get_ffi(&edge), 0x77);
    assert_eq!(edge, fmod_dsp::dsp_connection::from_ptr(0x77));
}

#[test]
fn connection_gives_the_status_on_failure() {
    assert_eq!(connection(refused(), 0x77), Err(refused()));
}

#[test]
fn neighbour_gives_a_borrowed_node_and_its_connection() {
    let (mut node, edge) = neighbour(Status::ok(), 0x40, 0x77).unwrap();
    assert_eq!(get_ffi(&node), 0x40);
    assert_eq!(fmod_dsp::dsp_connection::get_ffi(&edge), 0x77);
    assert_eq!(node.release(), None);
    assert_eq!(node.release_reply(Status::ok()), Status::ok());
    assert_eq!(get_ffi(&node), 0x40);
}

#[test]
fn neighbour_gives_the_status_on_failure() {
    match neighbour(refused(), 0x40, 0x77) {
        Err(status) => assert_eq!(status, refused()),
        Ok(_) => panic!("a failed query gave a node"),
    }
}

#[test]
fn parameter_gives_the_value_and_the_text() {
    let (value, text) = parameter(Status::ok(), float(12.5), b"12.5 dB\0\0\0\0", 32).unwrap();
    assert_eq!(f32::from_bits(value.to_bits()), 12.5);
    assert_eq!(text, "12.5 dB");
}

#[test]
fn parameter_cuts_the_text_to_the_capacity() {
    let storage = b"12.5 dB\0";
    for capacity in 0..12u32 {
        let (_, text) = parameter(Status::ok(), float(12.5), storage, capacity).unwrap();
        assert!(text.len() <= capacity as usize);
    }
    assert_eq!(parameter(Status::ok(), float(12.5), storage, 4).unwrap().1, "12.5");
    assert_eq!(parameter(Status::ok(), float(12.5), storage, 0).unwrap().1, "");
}

#[test]
fn parameter_gives_the_status_on_failure() {
    assert_eq!(parameter(refused(), float(12.5), b"12.5 dB\0", 32), Err(refused()));
}

#[test]
fn parameter_info_cuts_each_text_for_itself() {
    let found = parameter_info(
        Status::ok(),
        b"Cutoff frequency\0",
        6,
        b"hz\0",
        16,
        b"Frequency above which the signal is attenuated\0",
        9,
        float(100.0),
        float(22050.0),
    )
    .unwrap();
    assert_eq!(found.name, "Cutoff");
    assert_eq!(found.label, "hz");
    assert_eq!(found.description, "Frequency");
    assert_eq!(f32::from_bits(found.min.to_bits()), 100.0);
    assert_eq!(f32::from_bits(found.max.to_bits()), 22050.0);
}

#[test]
fn parameter_info_gives_the_status_on_failure() {
    let result = parameter_info(
        refused(),
        b"Cutoff\0",
        16,
        b"hz\0",
        16,
        b"\0",
        16,
        float(100.0),
        float(22050.0),
    );
    assert_eq!(result, Err(refused()));
}

#[test]
fn info_gives_the_numbers_and_the_name() {
    let found = info(Status::ok(), b"Lowpass\0", 32, 0x0001_0002, 2, 320, 200).unwrap();
    assert_eq!(found.name, "Lowpass");
    assert_eq!(found.version, 0x0001_0002);
    assert_eq!(found.channels, 2);
    assert_eq!(found.config_width, 320);
    assert_eq!(found.config_height, 200);
    assert_eq!(info(Status::ok(), b"Lowpass\0", 3, 1, 2, 3, 4).unwrap().name, "Low");
}

#[test]
fn info_gives_the_status_on_failure() {
    assert_eq!(info(refused(), b"Lowpass\0", 32, 1, 2, 3, 4), Err(refused()));
}

#[test]
fn dsp_type_is_unknown_where_none_was_reported() {
    assert_eq!(dsp_type(Status::ok(), None), Ok(DspType::unknown()));
    assert_eq!(DspType::unknown().token, 0);
}

#[test]
fn dsp_type_gives_the_tag_that_was_reported() {
    assert_eq!(dsp_type(Status::ok(), Some(DspType { token: 14 })), Ok(DspType { token: 14 }));
}

#[test]
fn dsp_type_gives_the_status_on_failure() {
    assert_eq!(dsp_type(refused(), Some(DspType { token: 14 })), Err(refused()));
    assert_eq!(dsp_type(refused(), None), Err(refused()));
}

#[test]
fn defaults_come_as_they_are() {
    assert_eq!(
        defaults(Status::ok(), float(44100.0), float(1.0), float(-0.5), 128),
        Ok((float(44100.0), float(1.0), float(-0.5), 128))
    );
    assert_eq!(
        defaults(refused(), float(44100.0), float(1.0), float(-0.5), 128),
        Err(refused())
    );
}

#[test]
fn memory_info_comes_as_it_is() {
    let details = FmodMemoryUsageDetails { bytes_per_category: vec![0, 4096, 12, 0, 1 << 20] };
    let (used, found) = memory_info(Status::ok(), 1_052_684, details).unwrap();
    assert_eq!(used, 1_052_684);
    assert_eq!(found.bytes_per_category, vec![0, 4096, 12, 0, 1 << 20]);
}

#[test]
fn memory_info_gives_the_status_on_failure() {
    let details = FmodMemoryUsageDetails { bytes_per_category: Vec::new() };
    assert_eq!(memory_info(refused(), 0, details), Err(refused()));
}
