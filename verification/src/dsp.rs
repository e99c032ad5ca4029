//! A node of the native DSP graph: its handle, who has to release it, and the
//! native call that each operation on it comes to.
//!
//! A node is owned or borrowed. An owned node was handed out by the native
//! subsystem to be released here, exactly once. A borrowed node was found by
//! a query of the graph and belongs to someone else: it is never released
//! here. Once an owned node has been released its handle is empty, and
//! releasing it again asks nothing of the native subsystem.
//!
//! No method of [`Dsp`] reaches the native subsystem. Each returns the call to
//! make; what the call hands back goes to the function of [`crate::reply`]
//! that belongs to it, or, for a release, to [`Dsp::release_reply`].
//!
//! The descriptors of plugins and parameters live in [`crate::descriptor`]
//! and can be named from here as well.

use vstd::prelude::*;
pub use crate::descriptor::{
    from_description_ptr, from_parameter_ptr, get_description_ffi, get_parameter_ffi,
    new_description, new_parameter, DspDescription, DspParameterDesc,
};
use crate::native::{
    native_flag, FmodEventMemoryBits, FmodMemoryBits, Float32, NativeCall, Speaker,
};
use crate::status::Status;

verus! {

/// The handle that stands for no unit at all.
pub const NULL_HANDLE: usize = 0;

/// A node of the native graph. It cannot be copied: handing an owned node on
/// is a move, so that no two values are bound to release one unit.
#[derive(Debug)]
pub struct Dsp {
    dsp: usize,
    can_be_deleted: bool,
}

/// What a node is made of: the native handle, empty once the unit has been
/// released, and whether the node is owned.
pub struct DspState {
    pub handle: usize,
    pub owned: bool,
}

impl DspState {
    /// Whether releasing this node has to reach the native subsystem: it is
    /// owned and its handle is not empty.
    pub open spec fn holds_unit(self) -> bool {
        self.owned && self.handle != NULL_HANDLE
    }

    /// The native call that releasing this node comes to, if any.
    pub open spec fn release_call(self) -> Option<NativeCall> {
        if self.holds_unit() {
            Some(NativeCall::Release { dsp: self.handle })
        } else {
            None
        }
    }

    /// The node after a release to which the native subsystem answered
    /// `status`. The handle is emptied where the native release was due and
    /// succeeded; in every other case the node is as it was.
    pub open spec fn after_release(self, status: Status) -> DspState {
        if self.holds_unit() && status.is_ok() {
            DspState { handle: NULL_HANDLE, owned: self.owned }
        } else {
            self
        }
    }

    /// What a release reports to which the native subsystem answered
    /// `status`: that status where the native release was due, success where
    /// there was nothing to release.
    pub open spec fn release_result(self, status: Status) -> Status {
        if self.holds_unit() {
            status
        } else {
            Status::ok()
        }
    }
}

impl View for Dsp {
    type V = DspState;

    closed spec fn view(&self) -> DspState {
        DspState { handle: self.dsp, owned: self.can_be_deleted }
    }
}

/// A borrowed node for a handle that a query of the graph gave. It is never
/// released here.
pub fn from_ptr(dsp: usize) -> (node: Dsp)
    ensures
        node@ == (DspState { handle: dsp, owned: false }),
{
    Dsp { dsp: dsp, can_be_deleted: false }
}

/// An owned node for a handle that the native subsystem handed out to be
/// released here.
pub fn from_ptr_first(dsp: usize) -> (node: Dsp)
    ensures
        node@ == (DspState { handle: dsp, owned: true }),
{
    Dsp { dsp: dsp, can_be_deleted: true }
}

/// The native handle of a node; empty once the node has been released.
pub fn get_ffi(dsp: &Dsp) -> (handle: usize)
    ensures
        handle == dsp@.handle,
{
    dsp.dsp
}

impl Dsp {
    /// Begins the release of the node. An owned node whose handle is not
    /// empty is released by the native call that is returned, and the status
    /// of that call goes to [`Dsp::release_reply`]. For any other node there
    /// is nothing to call: the release has succeeded as it stands.
    pub fn release(&self) -> (call: Option<NativeCall>)
        ensures
            call == self@.release_call(),
    {
        if self.can_be_deleted && self.dsp != NULL_HANDLE {
            Some(NativeCall::Release { dsp: self.dsp })
        } else {
            None
        }
    }

    /// Ends the release of the node with the status of the native call that
    /// [`Dsp::release`] asked for, and returns the outcome of the release.
    /// On success the handle is emptied, so that a later release asks for no
    /// call. On failure the node is as it was and the release can be tried
    /// again. Where no call was due the status is not looked at: the node is
    /// as it was and the outcome is success.
    pub fn release_reply(&mut self, status: Status) -> (result: Status)
        ensures
            final(self)@ == old(self)@.after_release(status),
            result == old(self)@.release_result(status),
    {
        if self.can_be_deleted && self.dsp != NULL_HANDLE {
            if status.is_ok() {
                self.dsp = NULL_HANDLE;
            }
            status
        } else {
            Status::ok()
        }
    }

    /// Attaches `target` as an input of this node. The reply goes to
    /// [`crate::reply::connection`].
    pub fn add_input(&self, target: &Dsp) -> (call: NativeCall)
        ensures
            call == (NativeCall::AddInput { dsp: self@.handle, target: target@.handle }),
    {
        NativeCall::AddInput { dsp: self.dsp, target: target.dsp }
    }

    /// Removes the edge between this node and `target`.
    pub fn disconnect_from(&self, target: &Dsp) -> (call: NativeCall)
        ensures
            call == (NativeCall::DisconnectFrom { dsp: self@.handle, target: target@.handle }),
    {
        NativeCall::DisconnectFrom { dsp: self.dsp, target: target.dsp }
    }

    /// Removes all edges of this node on the sides that are switched on.
    pub fn disconnect_all(&self, inputs: bool, outputs: bool) -> (call: NativeCall)
        ensures
            call == (NativeCall::DisconnectAll {
                dsp: self@.handle,
                inputs: native_flag(inputs),
                outputs: native_flag(outputs),
            }),
    {
        let t_inputs: i32 = if inputs { 1 } else { 0 };
        let t_outputs: i32 = if outputs { 1 } else { 0 };
        NativeCall::DisconnectAll { dsp: self.dsp, inputs: t_inputs, outputs: t_outputs }
    }

    /// Takes the node out of the graph without releasing it.
    pub fn remove(&self) -> (call: NativeCall)
        ensures
            call == (NativeCall::Remove { dsp: self@.handle }),
    {
        NativeCall::Remove { dsp: self.dsp }
    }

    /// Asks for the number of inputs. The reply goes to
    /// [`crate::reply::count`].
    pub fn get_num_inputs(&self) -> (call: NativeCall)
        ensures
            call == (NativeCall::GetNumInputs { dsp: self@.handle }),
    {
        NativeCall::GetNumInputs { dsp: self.dsp }
    }

    /// Asks for the number of outputs. The reply goes to
    /// [`crate::reply::count`].
    pub fn get_num_outputs(&self) -> (call: NativeCall)
        ensures
            call == (NativeCall::GetNumOutputs { dsp: self@.handle }),
    {
        NativeCall::GetNumOutputs { dsp: self.dsp }
    }

    /// Asks for the input at a position, and the edge to it. The reply goes
    /// to [`crate::reply::neighbour`].
    pub fn get_input(&self, index: i32) -> (call: NativeCall)
        ensures
            call == (NativeCall::GetInput { dsp: self@.handle, index }),
    {
        NativeCall::GetInput { dsp: self.dsp, index }
    }

    /// Asks for the output at a position, and the edge to it. The reply goes
    /// to [`crate::reply::neighbour`].
    pub fn get_output(&self, index: i32) -> (call: NativeCall)
        ensures
            call == (NativeCall::GetOutput { dsp: self@.handle, index }),
    {
        NativeCall::GetOutput { dsp: self.dsp, index }
    }

    /// Switches the node on or off.
    pub fn set_active(&self, active: bool) -> (call: NativeCall)
        ensures
            call == (NativeCall::SetActive { dsp: self@.handle, active: native_flag(active) }),
    {
        let t_active: i32 = if active { 1 } else { 0 };
        NativeCall::SetActive { dsp: self.dsp, active: t_active }
    }

    /// Asks whether the node is switched on. The reply goes to
    /// [`crate::reply::flag`].
    pub fn is_active(&self) -> (call: NativeCall)
        ensures
            call == (NativeCall::GetActive { dsp: self@.handle }),
    {
        NativeCall::GetActive { dsp: self.dsp }
    }

    /// Switches the bypass of the node on or off.
    pub fn set_bypass(&self, bypass: bool) -> (call: NativeCall)
        ensures
            call == (NativeCall::SetBypass { dsp: self@.handle, bypass: native_flag(bypass) }),
    {
        let t_bypass: i32 = if bypass { 1 } else { 0 };
        NativeCall::SetBypass { dsp: self.dsp, bypass: t_bypass }
    }

    /// Asks whether the node is bypassed. The reply goes to
    /// [`crate::reply::flag`].
    pub fn get_bypass(&self) -> (call: NativeCall)
        ensures
            call == (NativeCall::GetBypass { dsp: self@.handle }),
    {
        NativeCall::GetBypass { dsp: self.dsp }
    }

    /// Switches one output channel of the node on or off.
    pub fn set_speaker_active(&self, speaker: Speaker, active: bool) -> (call: NativeCall)
        ensures
            call == (NativeCall::SetSpeakerActive {
                dsp: self@.handle,
                speaker,
                active: native_flag(active),
            }),
    {
        let t_active: i32 = if active { 1 } else { 0 };
        NativeCall::SetSpeakerActive { dsp: self.dsp, speaker, active: t_active }
    }

    /// Asks whether one output channel of the node is switched on. The reply
    /// goes to [`crate::reply::flag`].
    pub fn get_speaker_active(&self, speaker: Speaker) -> (call: NativeCall)
        ensures
            call == (NativeCall::GetSpeakerActive { dsp: self@.handle, speaker }),
    {
        NativeCall::GetSpeakerActive { dsp: self.dsp, speaker }
    }

    /// Clears the history that the node keeps of what it processed, so that
    /// it can be used again without clicks.
    pub fn reset(&self) -> (call: NativeCall)
        ensures
            call == (NativeCall::Reset { dsp: self@.handle }),
    {
        NativeCall::Reset { dsp: self.dsp }
    }

    /// Sets a parameter of the node. Index and value are not checked here.
    pub fn set_parameter(&self, index: i32, value: Float32) -> (call: NativeCall)
        ensures
            call == (NativeCall::SetParameter { dsp: self@.handle, index, value }),
    {
        NativeCall::SetParameter { dsp: self.dsp, index, value }
    }

    /// Asks for the value of a parameter and for its display text, of which
    /// at most `value_str_len` bytes are wanted. The reply goes to
    /// [`crate::reply::parameter`].
    pub fn get_parameter(&self, index: i32, value_str_len: u32) -> (call: NativeCall)
        ensures
            call == (NativeCall::GetParameter { dsp: self@.handle, index, value_str_len }),
    {
        NativeCall::GetParameter { dsp: self.dsp, index, value_str_len }
    }

    /// Asks for the number of parameters. The reply goes to
    /// [`crate::reply::count`].
    pub fn get_num_parameters(&self) -> (call: NativeCall)
        ensures
            call == (NativeCall::GetNumParameters { dsp: self@.handle }),
    {
        NativeCall::GetNumParameters { dsp: self.dsp }
    }

    /// Asks for the range of a parameter and for its name, label and
    /// description, of each of which at most the given number of bytes is
    /// wanted. The reply goes to [`crate::reply::parameter_info`].
    pub fn get_parameter_info(
        &self,
        index: i32,
        name_len: u32,
        label_len: u32,
        description_len: u32,
    ) -> (call: NativeCall)
        ensures
            call == (NativeCall::GetParameterInfo {
                dsp: self@.handle,
                index,
                name_len,
                label_len,
                description_len,
            }),
    {
        NativeCall::GetParameterInfo { dsp: self.dsp, index, name_len, label_len, description_len }
    }

    /// Asks for the version, the number of channels and the size of the
    /// configuration dialog of the node, and for its name, of which at most
    /// `name_len` bytes are wanted. The reply goes to [`crate::reply::info`].
    pub fn get_info(&self, name_len: u32) -> (call: NativeCall)
        ensures
            call == (NativeCall::GetInfo { dsp: self@.handle, name_len }),
    {
        NativeCall::GetInfo { dsp: self.dsp, name_len }
    }

    /// Sets the defaults of the node. The values are not checked here.
    pub fn set_defaults(
        &self,
        frequency: Float32,
        volume: Float32,
        pan: Float32,
        priority: i32,
    ) -> (call: NativeCall)
        ensures
            call == (NativeCall::SetDefaults {
                dsp: self@.handle,
                frequency,
                volume,
                pan,
                priority,
            }),
    {
        NativeCall::SetDefaults { dsp: self.dsp, frequency, volume, pan, priority }
    }

    /// Asks for the type of the node. The reply goes to
    /// [`crate::reply::dsp_type`].
    pub fn get_type(&self) -> (call: NativeCall)
        ensures
            call == (NativeCall::GetType { dsp: self@.handle }),
    {
        NativeCall::GetType { dsp: self.dsp }
    }

    /// Asks for the defaults of the node. The reply goes to
    /// [`crate::reply::defaults`].
    pub fn get_defaults(&self) -> (call: NativeCall)
        ensures
            call == (NativeCall::GetDefaults { dsp: self@.handle }),
    {
        NativeCall::GetDefaults { dsp: self.dsp }
    }

    /// Asks how much memory the node uses in the categories that the two
    /// masks select. Nothing is changed by it. The reply goes to
    /// [`crate::reply::memory_info`].
    pub fn get_memory_info(
        &self,
        memory_bits: FmodMemoryBits,
        event_memory_bits: FmodEventMemoryBits,
    ) -> (call: NativeCall)
        ensures
            call == (NativeCall::GetMemoryInfo {
                dsp: self@.handle,
                memory_bits: memory_bits.0,
                event_memory_bits: event_memory_bits.0,
            }),
    {
        NativeCall::GetMemoryInfo {
            dsp: self.dsp,
            memory_bits: memory_bits.0,
            event_memory_bits: event_memory_bits.0,
        }
    }
}

/// After a release that succeeded, a further release asks for no native
/// call, succeeds whatever status is offered to it, and leaves the node as
/// it is.
pub proof fn lemma_release_is_idempotent(node: DspState, status: Status)
    ensures
        node.after_release(Status::ok()).release_call() is None,
        node.after_release(Status::ok()).release_result(status) == Status::ok(),
        node.after_release(Status::ok()).after_release(status) == node.after_release(
            Status::ok(),
        ),
{
}

/// A release that the native subsystem refused leaves the node as it was, so
/// that the same release is asked for again.
pub proof fn lemma_failed_release_can_be_retried(node: DspState, status: Status)
    requires
        !status.is_ok(),
    ensures
        node.after_release(status) == node,
        node.after_release(status).release_call() == node.release_call(),
        node.holds_unit() ==> node.release_result(status) == status,
{
}

/// A borrowed node is never released: a release of it asks for no native
/// call, succeeds, and leaves it as it is.
pub proof fn lemma_borrowed_is_never_released(node: DspState, status: Status)
    requires
        !node.owned,
    ensures
        node.release_call() is None,
        node.release_result(status) == Status::ok(),
        node.after_release(status) == node,
{
}

} // verus!
