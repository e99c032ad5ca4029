//! Descriptors of plugins and of their parameters, and their passage to and
//! from the fixed-capacity form that the native subsystem reads and fills.
//!
//! Numbers and callback references pass unchanged in both directions. Text is
//! cut to the capacity of its native field on the way out, without notice,
//! and comes back exactly where it fitted.

use vstd::prelude::*;
use vstd::utf8::*;
use crate::native::Float32;
use crate::text::{
    export_text, export_text_within, exported, exported_within, import_text, import_text_within,
    has_no_nul, imported, imported_within, lemma_export_then_import, lemma_export_truncates, NUL,
};

verus! {

/// The number of bytes of text that the name and the label of a parameter
/// may hold, the terminator not counted.
pub const PARAMETER_TEXT_CAPACITY: usize = 16;

/// The number of bytes of text that the name of a plugin may hold, the
/// terminator not counted.
pub const PLUGIN_NAME_CAPACITY: usize = 32;

/// The description of one parameter of a unit.
#[derive(Debug, PartialEq, Eq)]
pub struct DspParameterDesc {
    /// Minimum value of the parameter.
    pub min: Float32,
    /// Maximum value of the parameter.
    pub max: Float32,
    /// Default value of the parameter.
    pub default_val: Float32,
    /// Name of the parameter, for display.
    pub name: String,
    /// Short text that names the unit of the value, to be put next to it.
    pub label: String,
    /// Help text for the parameter.
    pub description: String,
}

/// A parameter description as mathematics sees it.
pub struct DspParameterDescView {
    pub min: Float32,
    pub max: Float32,
    pub default_val: Float32,
    pub name: Seq<char>,
    pub label: Seq<char>,
    pub description: Seq<char>,
}

impl View for DspParameterDesc {
    type V = DspParameterDescView;

    open spec fn view(&self) -> DspParameterDescView {
        DspParameterDescView {
            min: self.min,
            max: self.max,
            default_val: self.default_val,
            name: self.name@,
            label: self.label@,
            description: self.description@,
        }
    }
}

/// A parameter description in the form of the native subsystem: the three
/// numbers, and each text as a C string.
#[derive(Debug, PartialEq, Eq)]
pub struct NativeParameterDesc {
    pub min: Float32,
    pub max: Float32,
    pub default_val: Float32,
    pub name: Vec<u8>,
    pub label: Vec<u8>,
    pub description: Vec<u8>,
}

/// A native parameter description as mathematics sees it.
pub struct NativeParameterDescView {
    pub min: Float32,
    pub max: Float32,
    pub default_val: Float32,
    pub name: Seq<u8>,
    pub label: Seq<u8>,
    pub description: Seq<u8>,
}

impl View for NativeParameterDesc {
    type V = NativeParameterDescView;

    open spec fn view(&self) -> NativeParameterDescView {
        NativeParameterDescView {
            min: self.min,
            max: self.max,
            default_val: self.default_val,
            name: self.name@,
            label: self.label@,
            description: self.description@,
        }
    }
}

/// Whether `buf` is a C string that fits a field of the given capacity: it
/// ends in the terminator and is no longer than the capacity and the
/// terminator.
pub open spec fn fits_field(buf: Seq<u8>, capacity: nat) -> bool {
    &&& 1 <= buf.len() <= capacity + 1
    &&& buf.last() == NUL
}

impl NativeParameterDescView {
    /// Whether each text is terminated and the name and the label fit their
    /// fields.
    pub open spec fn wf(self) -> bool {
        &&& fits_field(self.name, PARAMETER_TEXT_CAPACITY as nat)
        &&& fits_field(self.label, PARAMETER_TEXT_CAPACITY as nat)
        &&& self.description.len() >= 1
        &&& self.description.last() == NUL
    }
}

/// The native form of a parameter description: the numbers unchanged, the
/// name and the label cut to the capacity of their fields, the description
/// whole, each text terminated.
pub open spec fn exported_parameter(desc: DspParameterDescView) -> NativeParameterDescView {
    NativeParameterDescView {
        min: desc.min,
        max: desc.max,
        default_val: desc.default_val,
        name: exported_within(desc.name, PARAMETER_TEXT_CAPACITY as nat),
        label: exported_within(desc.label, PARAMETER_TEXT_CAPACITY as nat),
        description: exported(desc.description),
    }
}

/// The parameter description that a native one stands for: the numbers
/// unchanged, each text read up to its terminator, the name and the label
/// held to the capacity of their fields.
pub open spec fn imported_parameter(native: NativeParameterDescView) -> DspParameterDescView {
    DspParameterDescView {
        min: native.min,
        max: native.max,
        default_val: native.default_val,
        name: imported_within(native.name, PARAMETER_TEXT_CAPACITY as nat),
        label: imported_within(native.label, PARAMETER_TEXT_CAPACITY as nat),
        description: imported(native.description),
    }
}

/// Whether `text` passes through a field of the given capacity unharmed: it
/// fits, and holds no NUL character.
pub open spec fn survives(text: Seq<char>, capacity: nat) -> bool {
    &&& encode_utf8(text).len() <= capacity
    &&& has_no_nul(text)
}

/// Reads a parameter description out of its native form.
pub fn from_parameter_ptr(dsp_parameter: &NativeParameterDesc) -> (desc: DspParameterDesc)
    ensures
        desc@ == imported_parameter(dsp_parameter@),
        encode_utf8(desc.name@).len() <= PARAMETER_TEXT_CAPACITY,
        encode_utf8(desc.label@).len() <= PARAMETER_TEXT_CAPACITY,
{
    DspParameterDesc {
        min: dsp_parameter.min,
        max: dsp_parameter.max,
        default_val: dsp_parameter.default_val,
        name: import_text_within(dsp_parameter.name.as_slice(), PARAMETER_TEXT_CAPACITY),
        label: import_text_within(dsp_parameter.label.as_slice(), PARAMETER_TEXT_CAPACITY),
        description: import_text(dsp_parameter.description.as_slice()),
    }
}

/// Puts a parameter description into its native form. A name or a label of
/// more than 16 bytes is cut to its first 16 bytes, without notice.
pub fn get_parameter_ffi(dsp_parameter: &DspParameterDesc) -> (native: NativeParameterDesc)
    ensures
        native@ == exported_parameter(dsp_parameter@),
        native@.wf(),
{
    NativeParameterDesc {
        min: dsp_parameter.min,
        max: dsp_parameter.max,
        default_val: dsp_parameter.default_val,
        name: export_text_within(dsp_parameter.name.as_str(), PARAMETER_TEXT_CAPACITY),
        label: export_text_within(dsp_parameter.label.as_str(), PARAMETER_TEXT_CAPACITY),
        description: export_text(dsp_parameter.description.as_str()),
    }
}

/// A parameter description with every number zero and every text empty.
pub fn new_parameter() -> (desc: DspParameterDesc)
    ensures
        desc@ == (DspParameterDescView {
            min: Float32::zero(),
            max: Float32::zero(),
            default_val: Float32::zero(),
            name: Seq::<char>::empty(),
            label: Seq::<char>::empty(),
            description: Seq::<char>::empty(),
        }),
{
    DspParameterDesc {
        min: Float32::zero(),
        max: Float32::zero(),
        default_val: Float32::zero(),
        name: String::new(),
        label: String::new(),
        description: String::new(),
    }
}

/// A name or a label that fits its field and holds no NUL character is the
/// same after it has gone to the native form and come back; so is a
/// description that holds no NUL character, whatever its length. The numbers
/// are the same in any case.
pub proof fn lemma_parameter_round_trip(desc: DspParameterDescView)
    ensures
        survives(desc.name, PARAMETER_TEXT_CAPACITY as nat) ==> imported_parameter(
            exported_parameter(desc),
        ).name == desc.name,
        survives(desc.label, PARAMETER_TEXT_CAPACITY as nat) ==> imported_parameter(
            exported_parameter(desc),
        ).label == desc.label,
        has_no_nul(desc.description) ==> imported_parameter(
            exported_parameter(desc),
        ).description == desc.description,
        imported_parameter(exported_parameter(desc)).min == desc.min,
        imported_parameter(exported_parameter(desc)).max == desc.max,
        imported_parameter(exported_parameter(desc)).default_val == desc.default_val,
{
    if survives(desc.name, PARAMETER_TEXT_CAPACITY as nat) {
        lemma_export_then_import(desc.name, PARAMETER_TEXT_CAPACITY as nat);
    }
    if survives(desc.label, PARAMETER_TEXT_CAPACITY as nat) {
        lemma_export_then_import(desc.label, PARAMETER_TEXT_CAPACITY as nat);
    }
    if has_no_nul(desc.description) {
        lemma_export_then_import(desc.description, encode_utf8(desc.description).len());
    }
}

/// A name or a label of more than 16 bytes goes out as exactly its first 16
/// bytes, then the terminator.
pub proof fn lemma_parameter_truncation(desc: DspParameterDescView)
    ensures
        encode_utf8(desc.name).len() > PARAMETER_TEXT_CAPACITY ==> exported_parameter(desc).name
            == encode_utf8(desc.name).subrange(0, PARAMETER_TEXT_CAPACITY as int).push(NUL),
        encode_utf8(desc.label).len() > PARAMETER_TEXT_CAPACITY ==> exported_parameter(desc).label
            == encode_utf8(desc.label).subrange(0, PARAMETER_TEXT_CAPACITY as int).push(NUL),
{
    if encode_utf8(desc.name).len() > PARAMETER_TEXT_CAPACITY {
        lemma_export_truncates(desc.name, PARAMETER_TEXT_CAPACITY as nat);
    }
    if encode_utf8(desc.label).len() > PARAMETER_TEXT_CAPACITY {
        lemma_export_truncates(desc.label, PARAMETER_TEXT_CAPACITY as nat);
    }
}

/// A reference to a callback that the native subsystem calls while it
/// processes. Nothing here calls it or looks at it: it is stored and handed
/// on.
#[derive(Clone, Copy, Debug, PartialEq, Eq, Structural)]
pub struct CallbackRef {
    pub address: usize,
}

/// The callbacks of a plugin, each of which may be missing.
#[derive(Clone, Copy, Debug, PartialEq, Eq, Structural)]
pub struct DspCallbacks {
    /// Called when the unit is created.
    pub create: Option<CallbackRef>,
    /// Called just before the unit is freed.
    pub release: Option<CallbackRef>,
    /// Called to clear the unit's history buffers.
    pub reset: Option<CallbackRef>,
    /// Called to process a block of samples.
    pub read: Option<CallbackRef>,
    /// Called to move the unit's position without processing.
    pub set_position: Option<CallbackRef>,
    /// Called when a parameter is set.
    pub set_parameter: Option<CallbackRef>,
    /// Called when a parameter is read.
    pub get_parameter: Option<CallbackRef>,
    /// Called to show the configuration dialog.
    pub config: Option<CallbackRef>,
}

impl DspCallbacks {
    /// No callback at all.
    pub open spec fn spec_none() -> DspCallbacks {
        DspCallbacks {
            create: None,
            release: None,
            reset: None,
            read: None,
            set_position: None,
            set_parameter: None,
            get_parameter: None,
            config: None,
        }
    }

    /// No callback at all.
    #[verifier::when_used_as_spec(spec_none)]
    pub fn none() -> (callbacks: DspCallbacks)
        ensures
            callbacks == DspCallbacks::spec_none(),
    {
        DspCallbacks {
            create: None,
            release: None,
            reset: None,
            read: None,
            set_position: None,
            set_parameter: None,
            get_parameter: None,
            config: None,
        }
    }
}

/// The description of a plugin.
#[derive(Debug, PartialEq, Eq)]
pub struct DspDescription {
    /// Name of the unit, for display.
    pub name: String,
    /// Version number that the plugin's writer gave it.
    pub version: u32,
    /// Number of channels; 0 to process whatever number the network has.
    pub channels: i32,
    /// The callbacks of the plugin.
    pub callbacks: DspCallbacks,
    /// Number of parameters of the unit.
    pub num_parameters: i32,
    /// The description of its parameters.
    pub param_desc: DspParameterDesc,
    /// Width of the configuration dialog, 0 if there is none.
    pub config_width: i32,
    /// Height of the configuration dialog, 0 if there is none.
    pub config_height: i32,
    /// A reference to data of the user's that is attached to the unit when
    /// it is created; 0 for none.
    pub user_data: usize,
}

/// A plugin description as mathematics sees it.
pub struct DspDescriptionView {
    pub name: Seq<char>,
    pub version: u32,
    pub channels: i32,
    pub callbacks: DspCallbacks,
    pub num_parameters: i32,
    pub param_desc: DspParameterDescView,
    pub config_width: i32,
    pub config_height: i32,
    pub user_data: usize,
}

impl View for DspDescription {
    type V = DspDescriptionView;

    open spec fn view(&self) -> DspDescriptionView {
        DspDescriptionView {
            name: self.name@,
            version: self.version,
            channels: self.channels,
            callbacks: self.callbacks,
            num_parameters: self.num_parameters,
            param_desc: self.param_desc@,
            config_width: self.config_width,
            config_height: self.config_height,
            user_data: self.user_data,
        }
    }
}

/// A plugin description in the form of the native subsystem.
#[derive(Debug, PartialEq, Eq)]
pub struct NativeDescription {
    pub name: Vec<u8>,
    pub version: u32,
    pub channels: i32,
    pub callbacks: DspCallbacks,
    pub num_parameters: i32,
    pub param_desc: NativeParameterDesc,
    pub config_width: i32,
    pub config_height: i32,
    pub user_data: usize,
}

/// A native plugin description as mathematics sees it.
pub struct NativeDescriptionView {
    pub name: Seq<u8>,
    pub version: u32,
    pub channels: i32,
    pub callbacks: DspCallbacks,
    pub num_parameters: i32,
    pub param_desc: NativeParameterDescView,
    pub config_width: i32,
    pub config_height: i32,
    pub user_data: usize,
}

impl View for NativeDescription {
    type V = NativeDescriptionView;

    open spec fn view(&self) -> NativeDescriptionView {
        NativeDescriptionView {
            name: self.name@,
            version: self.version,
            channels: self.channels,
            callbacks: self.callbacks,
            num_parameters: self.num_parameters,
            param_desc: self.param_desc@,
            config_width: self.config_width,
            config_height: self.config_height,
            user_data: self.user_data,
        }
    }
}

impl NativeDescriptionView {
    /// Whether the name fits its field and the parameter description is well
    /// formed.
    pub open spec fn wf(self) -> bool {
        &&& fits_field(self.name, PLUGIN_NAME_CAPACITY as nat)
        &&& self.param_desc.wf()
    }
}

/// The native form of a plugin description: the name cut to the capacity of
/// its field and terminated, the parameter description in its native form,
/// everything else unchanged.
pub open spec fn exported_description(desc: DspDescriptionView) -> NativeDescriptionView {
    NativeDescriptionView {
        name: exported_within(desc.name, PLUGIN_NAME_CAPACITY as nat),
        version: desc.version,
        channels: desc.channels,
        callbacks: desc.callbacks,
        num_parameters: desc.num_parameters,
        param_desc: exported_parameter(desc.param_desc),
        config_width: desc.config_width,
        config_height: desc.config_height,
        user_data: desc.user_data,
    }
}

/// The plugin description that a native one stands for: the name read up to
/// its terminator and held to the capacity of its field, the parameter
/// description read likewise, everything else unchanged.
pub open spec fn imported_description(native: NativeDescriptionView) -> DspDescriptionView {
    DspDescriptionView {
        name: imported_within(native.name, PLUGIN_NAME_CAPACITY as nat),
        version: native.version,
        channels: native.channels,
        callbacks: native.callbacks,
        num_parameters: native.num_parameters,
        param_desc: imported_parameter(native.param_desc),
        config_width: native.config_width,
        config_height: native.config_height,
        user_data: native.user_data,
    }
}

/// A plugin description with every number zero, every text empty, no callback
/// and no user data.
pub fn new_description() -> (desc: DspDescription)
    ensures
        desc@ == (DspDescriptionView {
            name: Seq::<char>::empty(),
            version: 0,
            channels: 0,
            callbacks: DspCallbacks::none(),
            num_parameters: 0,
            param_desc: DspParameterDescView {
                min: Float32::zero(),
                max: Float32::zero(),
                default_val: Float32::zero(),
                name: Seq::<char>::empty(),
                label: Seq::<char>::empty(),
                description: Seq::<char>::empty(),
            },
            config_width: 0,
            config_height: 0,
            user_data: 0,
        }),
{
    DspDescription {
        name: String::new(),
        version: 0u32,
        channels: 0i32,
        callbacks: DspCallbacks::none(),
        num_parameters: 0i32,
        param_desc: new_parameter(),
        config_width: 0i32,
        config_height: 0i32,
        user_data: 0usize,
    }
}

/// Reads a plugin description out of its native form.
pub fn from_description_ptr(dsp_description: &NativeDescription) -> (desc: DspDescription)
    ensures
        desc@ == imported_description(dsp_description@),
        encode_utf8(desc.name@).len() <= PLUGIN_NAME_CAPACITY,
{
    DspDescription {
        name: import_text_within(dsp_description.name.as_slice(), PLUGIN_NAME_CAPACITY),
        version: dsp_description.version,
        channels: dsp_description.channels,
        callbacks: dsp_description.callbacks,
        num_parameters: dsp_description.num_parameters,
        param_desc: from_parameter_ptr(&dsp_description.param_desc),
        config_width: dsp_description.config_width,
        config_height: dsp_description.config_height,
        user_data: dsp_description.user_data,
    }
}

/// Puts a plugin description into its native form. A name of more than 32
/// bytes is cut to its first 32 bytes, without notice.
pub fn get_description_ffi(dsp_description: &DspDescription) -> (native: NativeDescription)
    ensures
        native@ == exported_description(dsp_description@),
        native@.wf(),
{
    NativeDescription {
        name: export_text_within(dsp_description.name.as_str(), PLUGIN_NAME_CAPACITY),
        version: dsp_description.version,
        channels: dsp_description.channels,
        callbacks: dsp_description.callbacks,
        num_parameters: dsp_description.num_parameters,
        param_desc: get_parameter_ffi(&dsp_description.param_desc),
        config_width: dsp_description.config_width,
        config_height: dsp_description.config_height,
        user_data: dsp_description.user_data,
    }
}

/// A plugin description whose texts fit their fields and hold no NUL
/// character is the same after it has gone to the native form and come back.
/// Numbers, callbacks and user data are the same in any case.
pub proof fn lemma_description_round_trip(desc: DspDescriptionView)
    ensures
        survives(desc.name, PLUGIN_NAME_CAPACITY as nat) ==> imported_description(
            exported_description(desc),
        ).name == desc.name,
        imported_description(exported_description(desc)).callbacks == desc.callbacks,
        imported_description(exported_description(desc)).user_data == desc.user_data,
        imported_description(exported_description(desc)).version == desc.version,
        imported_description(exported_description(desc)).channels == desc.channels,
        imported_description(exported_description(desc)).num_parameters == desc.num_parameters,
        imported_description(exported_description(desc)).config_width == desc.config_width,
        imported_description(exported_description(desc)).config_height == desc.config_height,
        ({
            &&& survives(desc.name, PLUGIN_NAME_CAPACITY as nat)
            &&& survives(desc.param_desc.name, PARAMETER_TEXT_CAPACITY as nat)
            &&& survives(desc.param_desc.label, PARAMETER_TEXT_CAPACITY as nat)
            &&& has_no_nul(desc.param_desc.description)
        }) ==> imported_description(exported_description(desc)) == desc,
{
    lemma_parameter_round_trip(desc.param_desc);
    if survives(desc.name, PLUGIN_NAME_CAPACITY as nat) {
        lemma_export_then_import(desc.name, PLUGIN_NAME_CAPACITY as nat);
    }
}

} // verus!
