use fmod_dsp::dsp::{from_ptr, from_ptr_first, get_ffi, NULL_HANDLE};
use fmod_dsp::native::{
    FmodEventMemoryBits, FmodMemoryBits, Float32, NativeCall, Speaker,
};
use fmod_dsp::status::Status;

fn float(x: f32) -> Float32 {
    Float32::from_bits(x.to_bits())
}

#[test]
fn from_ptr_keeps_the_handle() {
    assert_eq!(get_ffi(&from_ptr(0x40)), 0x40);
    assert_eq!(get_ffi(&from_ptr_first(0x50)), 0x50);
}

#[test]
fn an_owned_node_is_released_by_one_native_call() {
    let mut node = from_ptr_first(0x50);
    assert_eq!(node.release(), Some(NativeCall::Release { dsp: 0x50 }));
    assert_eq!(node.release_reply(Status::ok()), Status::ok());
    assert_eq!(get_ffi(&node), NULL_HANDLE);
}

#[test]
fn a_second_release_asks_for_no_native_call_and_succeeds() {
    let mut node = from_ptr_first(0x50);
    assert!(node.release().is_some());
    assert!(node.release_reply(Status::ok()).is_ok());
    assert_eq!(node.release(), None);
    assert_eq!(node.release_reply(Status::from_code(36)), Status::ok());
    assert_eq!(node.release(), None);
    assert_eq!(get_ffi(&node), NULL_HANDLE);
}

#[test]
fn a_failed_release_keeps_the_handle_and_can_be_tried_again() {
    let mut node = from_ptr_first(0x50);
    let refused = Status::from_code(36);
    assert_eq!(node.release(), Some(NativeCall::Release { dsp: 0x50 }));
    assert_eq!(node.release_reply(refused), refused);
    assert_eq!(get_ffi(&node), 0x50);
    assert_eq!(node.release(), Some(NativeCall::Release { dsp: 0x50 }));
    assert_eq!(node.release_reply(Status::ok()), Status::ok());
    assert_eq!(get_ffi(&node), NULL_HANDLE);
}

#[test]
fn a_borrowed_node_is_never_released() {
    let mut node = from_ptr(0x40);
    assert_eq!(node.release(), None);
    assert_eq!(node.release_reply(Status::ok()), Status::ok());
    assert_eq!(node.release_reply(Status::from_code(12)), Status::ok());
    assert_eq!(get_ffi(&node), 0x40);
    assert_eq!(node.release(), None);
}

#[test]
fn an_owned_node_without_a_unit_has_nothing_to_release() {
    let mut node = from_ptr_first(NULL_HANDLE);
    assert_eq!(node.release(), None);
    assert_eq!(node.release_reply(Status::from_code(12)), Status::ok());
}

#[test]
fn graph_edits_name_both_ends() {
    let node = from_ptr_first(1);
    let other = from_ptr(2);
    assert_eq!(node.add_input(&other), NativeCall::AddInput { dsp: 1, target: 2 });
    assert_eq!(node.disconnect_from(&other), NativeCall::DisconnectFrom { dsp: 1, target: 2 });
    assert_eq!(other.add_input(&node), NativeCall::AddInput { dsp: 2, target: 1 });
    assert_eq!(node.remove(), NativeCall::Remove { dsp: 1 });
}

#[test]
fn disconnect_all_maps_each_side_to_one_or_zero() {
    let node = from_ptr(3);
    assert_eq!(
        node.disconnect_all(true, false),
        NativeCall::DisconnectAll { dsp: 3, inputs: 1, outputs: 0 }
    );
    assert_eq!(
        node.disconnect_all(false, true),
        NativeCall::DisconnectAll { dsp: 3, inputs: 0, outputs: 1 }
    );
    assert_eq!(
        node.disconnect_all(true, true),
        NativeCall::DisconnectAll { dsp: 3, inputs: 1, outputs: 1 }
    );
    assert_eq!(
        node.disconnect_all(false, false),
        NativeCall::DisconnectAll { dsp: 3, inputs: 0, outputs: 0 }
    );
}

#[test]
fn queries_of_the_graph_name_the_node_and_the_position() {
    let node = from_ptr(3);
    assert_eq!(node.get_num_inputs(), NativeCall::GetNumInputs { dsp: 3 });
    assert_eq!(node.get_num_outputs(), NativeCall::GetNumOutputs { dsp: 3 });
    assert_eq!(node.get_input(0), NativeCall::GetInput { dsp: 3, index: 0 });
    assert_eq!(node.get_input(-1), NativeCall::GetInput { dsp: 3, index: -1 });
    assert_eq!(node.get_output(5), NativeCall::GetOutput { dsp: 3, index: 5 });
}

#[test]
fn switches_go_out_as_one_or_zero() {
    let node = from_ptr(3);
    let front_left = Speaker { token: 0 };
    let back_right = Speaker { token: 5 };
    assert_eq!(node.set_active(true), NativeCall::SetActive { dsp: 3, active: 1 });
    assert_eq!(node.set_active(false), NativeCall::SetActive { dsp: 3, active: 0 });
    assert_eq!(node.set_bypass(true), NativeCall::SetBypass { dsp: 3, bypass: 1 });
    assert_eq!(node.set_bypass(false), NativeCall::SetBypass { dsp: 3, bypass: 0 });
    assert_eq!(
        node.set_speaker_active(back_right, true),
        NativeCall::SetSpeakerActive { dsp: 3, speaker: back_right, active: 1 }
    );
    assert_eq!(
        node.set_speaker_active(front_left, false),
        NativeCall::SetSpeakerActive { dsp: 3, speaker: front_left, active: 0 }
    );
    assert_eq!(node.is_active(), NativeCall::GetActive { dsp: 3 });
    assert_eq!(node.get_bypass(), NativeCall::GetBypass { dsp: 3 });
    assert_eq!(
        node.get_speaker_active(back_right),
        NativeCall::GetSpeakerActive { dsp: 3, speaker: back_right }
    );
}

#[test]
fn parameters_go_out_unchecked() {
    let node = from_ptr(3);
    assert_eq!(node.reset(), NativeCall::Reset { dsp: 3 });
    assert_eq!(
        node.set_parameter(-4, float(f32::NAN)),
        NativeCall::SetParameter { dsp: 3, index: -4, value: float(f32::NAN) }
    );
    assert_eq!(
        node.get_parameter(2, 32),
        NativeCall::GetParameter { dsp: 3, index: 2, value_str_len: 32 }
    );
    assert_eq!(node.get_num_parameters(), NativeCall::GetNumParameters { dsp: 3 });
    assert_eq!(
        node.get_parameter_info(2, 16, 8, 256),
        NativeCall::GetParameterInfo {
            dsp: 3,
            index: 2,
            name_len: 16,
            label_len: 8,
            description_len: 256
        }
    );
    assert_eq!(node.get_info(32), NativeCall::GetInfo { dsp: 3, name_len: 32 });
    assert_eq!(
        node.set_defaults(float(44100.0), float(1.0), float(-0.5), 128),
        NativeCall::SetDefaults {
            dsp: 3,
            frequency: float(44100.0),
            volume: float(1.0),
            pan: float(-0.5),
            priority: 128
        }
    );
    assert_eq!(node.get_type(), NativeCall::GetType { dsp: 3 });
    assert_eq!(node.get_defaults(), NativeCall::GetDefaults { dsp: 3 });
}

#[test]
fn get_memory_info_hands_both_masks_on() {
    let node = from_ptr(3);
    assert_eq!(
        node.get_memory_info(FmodMemoryBits(0x0000_4001), FmodEventMemoryBits(0xffff_ffff)),
        NativeCall::GetMemoryInfo { dsp: 3, memory_bits: 0x0000_4001, event_memory_bits: 0xffff_ffff }
    );
}

#[test]
fn a_released_node_still_says_which_call_to_make() {
    let mut node = from_ptr_first(9);
    node.release();
    node.release_reply(Status::ok());
    assert_eq!(node.get_num_inputs(), NativeCall::GetNumInputs { dsp: NULL_HANDLE });
}

#[test]
fn descriptors_can_be_named_from_the_node_module() {
    let desc = fmod_dsp::dsp::new_parameter();
    let native = fmod_dsp::dsp::get_parameter_ffi(&desc);
    assert_eq!(native.name, vec![0]);
    assert_eq!(fmod_dsp::dsp::from_parameter_ptr(&native), desc);
    let plugin = fmod_dsp::dsp::new_description();
    let native = fmod_dsp::dsp::get_description_ffi(&plugin);
    assert_eq!(fmod_dsp::dsp::from_description_ptr(&native), plugin);
}
