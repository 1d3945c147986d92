//! The frontend's answers to the core's environment commands: which
//! commands are handled, the constants handed back, and the decisions that
//! do not touch the core's pointers.

use vstd::prelude::*;
use crate::common::text::{chars_of, eq_ignore_ascii_case, range_eq_ignore_case};
use crate::minarch::config::{sets_option_value, OptionList};
use crate::minarch::controls::{
    apply_core_descriptors, default_button_mapping, is_default_entry, mapped_by_core, ButtonMapping,
    InputDescriptor,
};
use crate::minarch::libretro::{
    RETRO_ENVIRONMENT_GET_AUDIO_VIDEO_ENABLE,
    RETRO_ENVIRONMENT_GET_CAN_DUPE,
    RETRO_ENVIRONMENT_GET_CORE_OPTIONS_VERSION,
    RETRO_ENVIRONMENT_GET_CURRENT_SOFTWARE_FRAMEBUFFER,
    RETRO_ENVIRONMENT_GET_DISK_CONTROL_INTERFACE_VERSION,
    RETRO_ENVIRONMENT_GET_INPUT_BITMASKS,
    RETRO_ENVIRONMENT_GET_INPUT_DEVICE_CAPABILITIES,
    RETRO_ENVIRONMENT_GET_LOG_INTERFACE,
    RETRO_ENVIRONMENT_GET_OVERSCAN,
    RETRO_ENVIRONMENT_GET_RUMBLE_INTERFACE,
    RETRO_ENVIRONMENT_GET_SAVE_DIRECTORY,
    RETRO_ENVIRONMENT_GET_SYSTEM_DIRECTORY,
    RETRO_ENVIRONMENT_GET_VARIABLE,
    RETRO_ENVIRONMENT_GET_VARIABLE_UPDATE,
    RETRO_ENVIRONMENT_SET_AUDIO_CALLBACK,
    RETRO_ENVIRONMENT_SET_CONTENT_INFO_OVERRIDE,
    RETRO_ENVIRONMENT_SET_CONTROLLER_INFO,
    RETRO_ENVIRONMENT_SET_CORE_OPTIONS,
    RETRO_ENVIRONMENT_SET_CORE_OPTIONS_DISPLAY,
    RETRO_ENVIRONMENT_SET_CORE_OPTIONS_INTL,
    RETRO_ENVIRONMENT_SET_DISK_CONTROL_EXT_INTERFACE,
    RETRO_ENVIRONMENT_SET_DISK_CONTROL_INTERFACE,
    RETRO_ENVIRONMENT_SET_FRAME_TIME_CALLBACK,
    RETRO_ENVIRONMENT_SET_INPUT_DESCRIPTORS,
    RETRO_ENVIRONMENT_SET_MESSAGE,
    RETRO_ENVIRONMENT_SET_PERFORMANCE_LEVEL,
    RETRO_ENVIRONMENT_SET_PIXEL_FORMAT,
    RETRO_ENVIRONMENT_SET_SUPPORT_NO_GAME,
    RETRO_ENVIRONMENT_SET_VARIABLE,
    RETRO_ENVIRONMENT_SET_VARIABLES,
    RETRO_PIXEL_FORMAT_RGB565,
};

verus! {

/// How the frontend handles an environment command.
#[derive(Debug, Clone, Copy, PartialEq, Eq, Structural)]
pub enum EnvCommand {
    /// Write `true` to the `bool` the core passes.
    AnswerTrue,
    /// Print the core's message.
    Message,
    /// Accept without doing anything.
    Accept,
    /// Hand out the BIOS directory.
    SystemDirectory,
    /// Check that the core asks for RGB565.
    PixelFormat,
    /// Write the supported device types.
    DeviceCapabilities,
    /// Refuse: the frontend offers no log interface.
    LogInterface,
    /// Hand out the save directory.
    SaveDirectory,
    /// Write the audio/video enable bits.
    AudioVideoEnable,
    /// Write interface version 1.
    InterfaceVersion,
    /// Look a core option up.
    GetVariable,
    /// Replace the core options from variables.
    SetVariables,
    /// Report and clear the options' change flag.
    VariableUpdate,
    /// Replace the core options from definitions.
    SetCoreOptions,
    /// Replace the core options from the US-English definitions.
    SetCoreOptionsIntl,
    /// Set one core option.
    SetVariable,
    /// Rebuild the button mapping from the core's descriptors.
    InputDescriptors,
    /// Take the disc control interface.
    DiskControl,
    /// Take the extended disc control interface.
    DiskControlExt,
    /// Hand out the rumble interface.
    RumbleInterface,
    /// Look for a DualShock controller type.
    ControllerInfo,
    /// Not handled.
    Unknown,
}

/// The handling of each command number.
pub open spec fn command_of(cmd: u32) -> EnvCommand {
    if cmd == RETRO_ENVIRONMENT_GET_OVERSCAN || cmd == RETRO_ENVIRONMENT_GET_CAN_DUPE || cmd
        == RETRO_ENVIRONMENT_GET_INPUT_BITMASKS {
        EnvCommand::AnswerTrue
    } else if cmd == RETRO_ENVIRONMENT_SET_MESSAGE {
        EnvCommand::Message
    } else if cmd == RETRO_ENVIRONMENT_SET_PERFORMANCE_LEVEL || cmd
        == RETRO_ENVIRONMENT_SET_SUPPORT_NO_GAME || cmd
        == RETRO_ENVIRONMENT_SET_FRAME_TIME_CALLBACK || cmd == RETRO_ENVIRONMENT_SET_AUDIO_CALLBACK
        || cmd == RETRO_ENVIRONMENT_GET_CURRENT_SOFTWARE_FRAMEBUFFER || cmd
        == RETRO_ENVIRONMENT_SET_CORE_OPTIONS_DISPLAY || cmd
        == RETRO_ENVIRONMENT_SET_CONTENT_INFO_OVERRIDE {
        EnvCommand::Accept
    } else if cmd == RETRO_ENVIRONMENT_GET_SYSTEM_DIRECTORY {
        EnvCommand::SystemDirectory
    } else if cmd == RETRO_ENVIRONMENT_SET_PIXEL_FORMAT {
        EnvCommand::PixelFormat
    } else if cmd == RETRO_ENVIRONMENT_GET_INPUT_DEVICE_CAPABILITIES {
        EnvCommand::DeviceCapabilities
    } else if cmd == RETRO_ENVIRONMENT_GET_LOG_INTERFACE {
        EnvCommand::LogInterface
    } else if cmd == RETRO_ENVIRONMENT_GET_SAVE_DIRECTORY {
        EnvCommand::SaveDirectory
    } else if cmd == RETRO_ENVIRONMENT_GET_AUDIO_VIDEO_ENABLE {
        EnvCommand::AudioVideoEnable
    } else if cmd == RETRO_ENVIRONMENT_GET_CORE_OPTIONS_VERSION || cmd
        == RETRO_ENVIRONMENT_GET_DISK_CONTROL_INTERFACE_VERSION {
        EnvCommand::InterfaceVersion
    } else if cmd == RETRO_ENVIRONMENT_GET_VARIABLE {
        EnvCommand::GetVariable
    } else if cmd == RETRO_ENVIRONMENT_SET_VARIABLES {
        EnvCommand::SetVariables
    } else if cmd == RETRO_ENVIRONMENT_GET_VARIABLE_UPDATE {
        EnvCommand::VariableUpdate
    } else if cmd == RETRO_ENVIRONMENT_SET_CORE_OPTIONS {
        EnvCommand::SetCoreOptions
    } else if cmd == RETRO_ENVIRONMENT_SET_CORE_OPTIONS_INTL {
        EnvCommand::SetCoreOptionsIntl
    } else if cmd == RETRO_ENVIRONMENT_SET_VARIABLE {
        EnvCommand::SetVariable
    } else if cmd == RETRO_ENVIRONMENT_SET_INPUT_DESCRIPTORS {
        EnvCommand::InputDescriptors
    } else if cmd == RETRO_ENVIRONMENT_SET_DISK_CONTROL_INTERFACE {
        EnvCommand::DiskControl
    } else if cmd == RETRO_ENVIRONMENT_SET_DISK_CONTROL_EXT_INTERFACE {
        EnvCommand::DiskControlExt
    } else if cmd == RETRO_ENVIRONMENT_GET_RUMBLE_INTERFACE {
        EnvCommand::RumbleInterface
    } else if cmd == RETRO_ENVIRONMENT_SET_CONTROLLER_INFO {
        EnvCommand::ControllerInfo
    } else {
        EnvCommand::Unknown
    }
}

/// Each handling is taken by exactly the commands named for it: the BIOS
/// directory is handed out only for `GET_SYSTEM_DIRECTORY`, the save
/// directory only for `GET_SAVE_DIRECTORY`, and so on for every command the
/// frontend handles; every other number is unknown.
pub proof fn lemma_command_handlings(cmd: u32)
    ensures
        (command_of(cmd) == EnvCommand::SystemDirectory) <==> cmd
            == RETRO_ENVIRONMENT_GET_SYSTEM_DIRECTORY,
        (command_of(cmd) == EnvCommand::SaveDirectory) <==> cmd
            == RETRO_ENVIRONMENT_GET_SAVE_DIRECTORY,
        (command_of(cmd) == EnvCommand::Message) <==> cmd == RETRO_ENVIRONMENT_SET_MESSAGE,
        (command_of(cmd) == EnvCommand::PixelFormat) <==> cmd == RETRO_ENVIRONMENT_SET_PIXEL_FORMAT,
        (command_of(cmd) == EnvCommand::DeviceCapabilities) <==> cmd
            == RETRO_ENVIRONMENT_GET_INPUT_DEVICE_CAPABILITIES,
        (command_of(cmd) == EnvCommand::LogInterface) <==> cmd
            == RETRO_ENVIRONMENT_GET_LOG_INTERFACE,
        (command_of(cmd) == EnvCommand::AudioVideoEnable) <==> cmd
            == RETRO_ENVIRONMENT_GET_AUDIO_VIDEO_ENABLE,
        (command_of(cmd) == EnvCommand::InterfaceVersion) <==> (cmd
            == RETRO_ENVIRONMENT_GET_CORE_OPTIONS_VERSION || cmd
            == RETRO_ENVIRONMENT_GET_DISK_CONTROL_INTERFACE_VERSION),
        (command_of(cmd) == EnvCommand::GetVariable) <==> cmd == RETRO_ENVIRONMENT_GET_VARIABLE,
        (command_of(cmd) == EnvCommand::SetVariables) <==> cmd == RETRO_ENVIRONMENT_SET_VARIABLES,
        (command_of(cmd) == EnvCommand::VariableUpdate) <==> cmd
            == RETRO_ENVIRONMENT_GET_VARIABLE_UPDATE,
        (command_of(cmd) == EnvCommand::SetCoreOptions) <==> cmd
            == RETRO_ENVIRONMENT_SET_CORE_OPTIONS,
        (command_of(cmd) == EnvCommand::SetCoreOptionsIntl) <==> cmd
            == RETRO_ENVIRONMENT_SET_CORE_OPTIONS_INTL,
        (command_of(cmd) == EnvCommand::SetVariable) <==> cmd == RETRO_ENVIRONMENT_SET_VARIABLE,
        (command_of(cmd) == EnvCommand::InputDescriptors) <==> cmd
            == RETRO_ENVIRONMENT_SET_INPUT_DESCRIPTORS,
        (command_of(cmd) == EnvCommand::DiskControl) <==> cmd
            == RETRO_ENVIRONMENT_SET_DISK_CONTROL_INTERFACE,
        (command_of(cmd) == EnvCommand::DiskControlExt) <==> cmd
            == RETRO_ENVIRONMENT_SET_DISK_CONTROL_EXT_INTERFACE,
        (command_of(cmd) == EnvCommand::RumbleInterface) <==> cmd
            == RETRO_ENVIRONMENT_GET_RUMBLE_INTERFACE,
        (command_of(cmd) == EnvCommand::ControllerInfo) <==> cmd
            == RETRO_ENVIRONMENT_SET_CONTROLLER_INFO,
        (command_of(cmd) == EnvCommand::AnswerTrue) <==> (cmd == RETRO_ENVIRONMENT_GET_OVERSCAN
            || cmd == RETRO_ENVIRONMENT_GET_CAN_DUPE || cmd == RETRO_ENVIRONMENT_GET_INPUT_BITMASKS),
        (command_of(cmd) == EnvCommand::Accept) <==> (cmd == RETRO_ENVIRONMENT_SET_PERFORMANCE_LEVEL
            || cmd == RETRO_ENVIRONMENT_SET_SUPPORT_NO_GAME || cmd
            == RETRO_ENVIRONMENT_SET_FRAME_TIME_CALLBACK || cmd
            == RETRO_ENVIRONMENT_SET_AUDIO_CALLBACK || cmd
            == RETRO_ENVIRONMENT_GET_CURRENT_SOFTWARE_FRAMEBUFFER || cmd
            == RETRO_ENVIRONMENT_SET_CORE_OPTIONS_DISPLAY || cmd
            == RETRO_ENVIRONMENT_SET_CONTENT_INFO_OVERRIDE),
        RETRO_ENVIRONMENT_GET_SYSTEM_DIRECTORY == 9 && RETRO_ENVIRONMENT_GET_SAVE_DIRECTORY == 31,
{
}

/// Classifies an environment command.
pub fn environment_command(cmd: u32) -> (r: EnvCommand)
    ensures
        r == command_of(cmd),
{
    if cmd == RETRO_ENVIRONMENT_GET_OVERSCAN || cmd == RETRO_ENVIRONMENT_GET_CAN_DUPE || cmd
        == RETRO_ENVIRONMENT_GET_INPUT_BITMASKS {
        EnvCommand::AnswerTrue
    } else if cmd == RETRO_ENVIRONMENT_SET_MESSAGE {
        EnvCommand::Message
    } else if cmd == RETRO_ENVIRONMENT_SET_PERFORMANCE_LEVEL || cmd
        == RETRO_ENVIRONMENT_SET_SUPPORT_NO_GAME || cmd
        == RETRO_ENVIRONMENT_SET_FRAME_TIME_CALLBACK || cmd == RETRO_ENVIRONMENT_SET_AUDIO_CALLBACK
        || cmd == RETRO_ENVIRONMENT_GET_CURRENT_SOFTWARE_FRAMEBUFFER || cmd
        == RETRO_ENVIRONMENT_SET_CORE_OPTIONS_DISPLAY || cmd
        == RETRO_ENVIRONMENT_SET_CONTENT_INFO_OVERRIDE {
        EnvCommand::Accept
    } else if cmd == RETRO_ENVIRONMENT_GET_SYSTEM_DIRECTORY {
        EnvCommand::SystemDirectory
    } else if cmd == RETRO_ENVIRONMENT_SET_PIXEL_FORMAT {
        EnvCommand::PixelFormat
    } else if cmd == RETRO_ENVIRONMENT_GET_INPUT_DEVICE_CAPABILITIES {
        EnvCommand::DeviceCapabilities
    } else if cmd == RETRO_ENVIRONMENT_GET_LOG_INTERFACE {
        EnvCommand::LogInterface
    } else if cmd == RETRO_ENVIRONMENT_GET_SAVE_DIRECTORY {
        EnvCommand::SaveDirectory
    } else if cmd == RETRO_ENVIRONMENT_GET_AUDIO_VIDEO_ENABLE {
        EnvCommand::AudioVideoEnable
    } else if cmd == RETRO_ENVIRONMENT_GET_CORE_OPTIONS_VERSION || cmd
        == RETRO_ENVIRONMENT_GET_DISK_CONTROL_INTERFACE_VERSION {
        EnvCommand::InterfaceVersion
    } else if cmd == RETRO_ENVIRONMENT_GET_VARIABLE {
        EnvCommand::GetVariable
    } else if cmd == RETRO_ENVIRONMENT_SET_VARIABLES {
        EnvCommand::SetVariables
    } else if cmd == RETRO_ENVIRONMENT_GET_VARIABLE_UPDATE {
        EnvCommand::VariableUpdate
    } else if cmd == RETRO_ENVIRONMENT_SET_CORE_OPTIONS {
        EnvCommand::SetCoreOptions
    } else if cmd == RETRO_ENVIRONMENT_SET_CORE_OPTIONS_INTL {
        EnvCommand::SetCoreOptionsIntl
    } else if cmd == RETRO_ENVIRONMENT_SET_VARIABLE {
        EnvCommand::SetVariable
    } else if cmd == RETRO_ENVIRONMENT_SET_INPUT_DESCRIPTORS {
        EnvCommand::InputDescriptors
    } else if cmd == RETRO_ENVIRONMENT_SET_DISK_CONTROL_INTERFACE {
        EnvCommand::DiskControl
    } else if cmd == RETRO_ENVIRONMENT_SET_DISK_CONTROL_EXT_INTERFACE {
        EnvCommand::DiskControlExt
    } else if cmd == RETRO_ENVIRONMENT_GET_RUMBLE_INTERFACE {
        EnvCommand::RumbleInterface
    } else if cmd == RETRO_ENVIRONMENT_SET_CONTROLLER_INFO {
        EnvCommand::ControllerInfo
    } else {
        EnvCommand::Unknown
    }
}

/// What the callback returns for a command (the pixel format check aside,
/// which refuses formats other than RGB565): input descriptors and
/// controller info are handled but answered `false`, as are the log
/// interface and unknown commands.
pub open spec fn command_result(c: EnvCommand) -> bool {
    !(c == EnvCommand::LogInterface || c == EnvCommand::InputDescriptors || c
        == EnvCommand::ControllerInfo || c == EnvCommand::Unknown)
}

/// The callback's answer for a handled command.
pub fn command_answer(c: EnvCommand) -> (r: bool)
    ensures
        r == command_result(c),
{
    match c {
        EnvCommand::LogInterface => false,
        EnvCommand::InputDescriptors => false,
        EnvCommand::ControllerInfo => false,
        EnvCommand::Unknown => false,
        _ => true,
    }
}

/// Device types the frontend supports: joypad and analog.
pub const DEVICE_CAPABILITIES: u32 = 0x22;

/// Audio and video are both enabled.
pub const AUDIO_VIDEO_ENABLED: i32 = 3;

/// Version of the core option and disc control interfaces.
pub const INTERFACE_VERSION: u32 = 1;

/// The core's pixel format is accepted: only RGB565.
pub fn pixel_format_ok(format: u32) -> (r: bool)
    ensures
        r == (format == RETRO_PIXEL_FORMAT_RGB565),
{
    format == RETRO_PIXEL_FORMAT_RGB565
}

/// Reports whether the core options changed since the last report, and
/// clears the flag.
pub fn take_variable_update(options: &mut OptionList) -> (r: bool)
    ensures
        r == old(options).changed,
        !final(options).changed,
        final(options).options@ == old(options).options@,
{
    let r = options.changed;
    options.changed = false;
    r
}

/// A controller description names a DualShock (any ASCII case).
pub open spec fn is_dualshock(desc: Seq<char>) -> bool {
    eq_ignore_ascii_case(desc, "dualshock"@)
}

/// A controller type's description, if any, names a DualShock.
pub open spec fn desc_is_dualshock(o: Option<String>) -> bool {
    match o {
        Some(d) => is_dualshock(d@),
        None => false,
    }
}

/// Whether one of the controller types the core reports is a DualShock;
/// types without a description are skipped.
pub fn has_dualshock(descriptions: &Vec<Option<String>>) -> (r: bool)
    ensures
        r == exists|i: int|
            0 <= i < descriptions@.len() && desc_is_dualshock(#[trigger] descriptions@[i]),
{
    let target = chars_of("dualshock");
    let mut i: usize = 0;
    while i < descriptions.len()
        invariant
            0 <= i <= descriptions@.len(),
            target@ == "dualshock"@,
            forall|j: int| 0 <= j < i ==> !desc_is_dualshock(#[trigger] descriptions@[j]),
        decreases descriptions@.len() - i,
    {
        match &descriptions[i] {
            Some(d) => {
                let c = chars_of(d.as_str());
                if c.len() == target.len() {
                    if range_eq_ignore_case(&c, 0, &target, 0, c.len()) {
                        assert(c@.subrange(0, c@.len() as int) =~= c@);
                        assert(target@.subrange(0, target@.len() as int) =~= target@);
                        assert(desc_is_dualshock(descriptions@[i as int]));
                        return true;
                    }
                    assert(c@.subrange(0, c@.len() as int) =~= c@);
                    assert(target@.subrange(0, target@.len() as int) =~= target@);
                }
            },
            None => {},
        }
        i = i + 1;
    }
    false
}

/// The state the environment commands change: the core's options, the
/// button mapping after the core's descriptors, and whether the core
/// offers a DualShock controller.
pub struct EnvRuntime {
    /// The core's options.
    pub core_options: OptionList,
    /// The button mapping after the core's descriptors.
    pub controls_mapping: Vec<ButtonMapping>,
    /// The core offers a DualShock controller.
    pub has_custom_controllers: bool,
}

/// What a command's payload brings to the runtime state, as read from the
/// core's data.
pub enum EnvPayload {
    /// No payload, or one that changes nothing here.
    Nothing,
    /// A whole new list of core options.
    Options(OptionList),
    /// A value for one core option.
    Variable {
        /// The option's key.
        key: String,
        /// The value, as written.
        value: String,
    },
    /// The core's input descriptors (none when it gave no list).
    Descriptors(Vec<InputDescriptor>),
    /// The descriptions of the controller types the core offers.
    ControllerTypes(Vec<Option<String>>),
}

/// The commands that replace the whole list of core options.
pub open spec fn replaces_options(c: EnvCommand) -> bool {
    c == EnvCommand::SetVariables || c == EnvCommand::SetCoreOptions || c
        == EnvCommand::SetCoreOptionsIntl
}

/// `r` is entry `i` of the default table under the descriptors `ds`.
pub open spec fn default_mapped(i: int, ds: Seq<InputDescriptor>, r: ButtonMapping) -> bool {
    exists|m: ButtonMapping| #[trigger] is_default_entry(m, i) && mapped_by_core(m, ds, r)
}

/// The button mapping is the default table under the descriptors `ds`.
pub open spec fn maps_defaults(mapping: Seq<ButtonMapping>, ds: Seq<InputDescriptor>) -> bool {
    &&& mapping.len() == 16
    &&& forall|i: int| 0 <= i < 16 ==> default_mapped(i, ds, #[trigger] mapping[i])
}

/// What a command with its payload does to the runtime state, and the
/// flag handed back (only for `VariableUpdate`). A payload that does not
/// belong to the command, and every other command, changes nothing.
pub open spec fn env_applied(
    c: EnvCommand,
    p: EnvPayload,
    before: EnvRuntime,
    after: EnvRuntime,
    r: Option<bool>,
) -> bool {
    let same_options = after.core_options.options@ == before.core_options.options@
        && after.core_options.changed == before.core_options.changed;
    let same_mapping = after.controls_mapping@ == before.controls_mapping@;
    let same_custom = after.has_custom_controllers == before.has_custom_controllers;
    if c == EnvCommand::VariableUpdate {
        &&& r == Some(before.core_options.changed)
        &&& after.core_options.options@ == before.core_options.options@
        &&& !after.core_options.changed
        &&& same_mapping && same_custom
    } else {
        &&& r is None
        &&& match p {
            EnvPayload::Options(l) if replaces_options(c) => after.core_options == l && same_mapping
                && same_custom,
            EnvPayload::Variable { key, value } if c == EnvCommand::SetVariable => sets_option_value(
                before.core_options,
                after.core_options,
                key@,
                value@,
            ) && same_mapping && same_custom,
            EnvPayload::Descriptors(ds) if c == EnvCommand::InputDescriptors => maps_defaults(
                after.controls_mapping@,
                ds@,
            ) && same_options && same_custom,
            EnvPayload::ControllerTypes(t) if c == EnvCommand::ControllerInfo => same_options
                && same_mapping && after.has_custom_controllers == (before.has_custom_controllers
                || exists|i: int| 0 <= i < t@.len() && desc_is_dualshock(#[trigger] t@[i])),
            _ => same_options && same_mapping && same_custom,
        }
    }
}

/// Applies a command and its payload to the runtime state: replaces the
/// core options, sets one of them, reports and clears their change flag,
/// rebuilds the button mapping from the default table and the core's
/// descriptors, or notes a DualShock controller. Returns the change flag
/// for `VariableUpdate`, `None` otherwise.
pub fn apply_env_command(c: EnvCommand, p: EnvPayload, rt: &mut EnvRuntime) -> (r: Option<bool>)
    ensures
        env_applied(c, p, *old(rt), *final(rt), r),
{
    if c == EnvCommand::VariableUpdate {
        return Some(take_variable_update(&mut rt.core_options));
    }
    match p {
        EnvPayload::Options(l) => {
            if c == EnvCommand::SetVariables || c == EnvCommand::SetCoreOptions || c
                == EnvCommand::SetCoreOptionsIntl {
                rt.core_options = l;
            }
        },
        EnvPayload::Variable { key, value } => {
            if c == EnvCommand::SetVariable {
                rt.core_options.set_option_value(key.as_str(), value.as_str());
            }
        },
        EnvPayload::Descriptors(ds) => {
            if c == EnvCommand::InputDescriptors {
                let defaults = default_button_mapping();
                let mapping = apply_core_descriptors(defaults.as_slice(), ds.as_slice());
                assert forall|i: int| 0 <= i < 16 implies default_mapped(i, ds@, #[trigger] mapping@[i]) by {
                    assert(is_default_entry(defaults@[i], i));
                    assert(mapped_by_core(defaults@[i], ds@, mapping@[i]));
                }
                assert(maps_defaults(mapping@, ds@));
                rt.controls_mapping = mapping;
            }
        },
        EnvPayload::ControllerTypes(t) => {
            if c == EnvCommand::ControllerInfo {
                if has_dualshock(&t) {
                    rt.has_custom_controllers = true;
                }
            }
        },
        EnvPayload::Nothing => {},
    }
    None
}

} // verus!
