//! The operation tag set: an ordered, append-only catalogue of operations.
//!
//! Hosts dispatch by raw ordinal, never by name, so the integer position of
//! every entry is itself part of the wire contract: ordinals are assigned in
//! publication order and are never reused or reassigned.  Retired operations
//! keep their slot as a reserved placeholder (the variants whose name starts
//! with an underscore) that accepts dispatch and performs nothing, so every
//! later operation keeps its original number.

use vstd::prelude::*;

verus! {

/// One operation of the protocol.
///
/// The doc comment of each variant says which of the four generic argument
/// slots the operation reads (`index`, `value`, `opt`, `ptr`) and what its
/// integer result means; a slot that is not mentioned carries no meaning for
/// that operation and is ignored.
#[allow(non_camel_case_types)]
#[derive(Clone, Copy, Debug, PartialEq, Eq, Structural)]
pub enum OpCode {
    /// Allocate resources and prepare the instance for use; the first operation of a session.
    Initialize,
    /// Release all resources; legal in any state.
    Shutdown,
    /// `value`: preset number to change to.
    ChangePreset,
    /// `return`: current preset number.
    GetCurrentPresetNum,
    /// `ptr`: text buffer with the new preset name, at most `MAX_PRESET_NAME_LEN` bytes.
    SetCurrentPresetName,
    /// `ptr`: text buffer receiving the current preset name, at most `MAX_PRESET_NAME_LEN` bytes.
    GetCurrentPresetName,
    /// `ptr`: text buffer for the parameter label (e.g. "db", "ms").
    GetParameterLabel,
    /// `ptr`: text buffer for the parameter display (e.g. "0.5", "ROOM").
    GetParameterDisplay,
    /// `ptr`: text buffer for the parameter name (e.g. "Release", "Gain").
    GetParameterName,
    /// Retired operation; its slot stays reserved so later ordinals are unaffected.
    _GetVu,
    /// `opt`: new sample rate.
    SetSampleRate,
    /// `value`: new maximum block size.
    SetBlockSize,
    /// `value`: 1 when the plugin is enabled, 0 when disabled.
    StateChanged,
    /// `ptr`: receives a pointer to the editor size.
    EditorGetRect,
    /// `ptr`: system-dependent window handle the editor attaches to.
    EditorOpen,
    /// Close the editor.  No arguments.
    EditorClose,
    /// Retired operation; its slot stays reserved so later ordinals are unaffected.
    _EditorDraw,
    /// Retired operation; its slot stays reserved so later ordinals are unaffected.
    _EditorMouse,
    /// Retired operation; its slot stays reserved so later ordinals are unaffected.
    _EditorKey,
    /// Idle call from the host while the editor is open.
    EditorIdle,
    /// Retired operation; its slot stays reserved so later ordinals are unaffected.
    _EditorTop,
    /// Retired operation; its slot stays reserved so later ordinals are unaffected.
    _EditorSleep,
    /// Retired operation; its slot stays reserved so later ordinals are unaffected.
    _EditorIdentify,
    /// `ptr`: receives the chunk data.  `index`: 0 for bank, 1 for preset.
    GetData,
    /// `ptr`: chunk data.  `value`: byte size.  `index`: 0 for bank, 1 for preset.
    SetData,
    /// `ptr`: events for the render path.
    ProcessEvents,
    /// `index`: parameter index.  `return`: 1 = true, 0 = false.
    CanBeAutomated,
    /// `index`: parameter index.  `ptr`: parameter text.  `return`: true for success.
    StringToParameter,
    /// Retired operation; its slot stays reserved so later ordinals are unaffected.
    _GetNumCategories,
    /// `index`: preset number.  `ptr`: text buffer for the name, at most `MAX_PRESET_NAME_LEN` bytes.  `return`: true for success.
    GetPresetName,
    /// Retired operation; its slot stays reserved so later ordinals are unaffected.
    _CopyPreset,
    /// Retired operation; its slot stays reserved so later ordinals are unaffected.
    _ConnectIn,
    /// Retired operation; its slot stays reserved so later ordinals are unaffected.
    _ConnectOut,
    /// `index`: input index.  `ptr`: pin properties.  `return`: 1 if supported.
    GetInputInfo,
    /// `index`: output index.  `ptr`: pin properties.  `return`: 1 if supported.
    GetOutputInfo,
    /// `return`: the plugin's `Category`, as its taxonomy ordinal.
    GetCategory,
    /// Retired operation; its slot stays reserved so later ordinals are unaffected.
    _GetCurrentPosition,
    /// Retired operation; its slot stays reserved so later ordinals are unaffected.
    _GetDestinationBuffer,
    /// `ptr`: audio file list.  `value`: count.  `index`: start flag.  Announces an offline batch.
    OfflineNotify,
    /// `ptr`: offline task list.  `value`: count.  Prepares the announced batch.
    OfflinePrepare,
    /// `ptr`: offline task list.  `value`: count.  Runs the prepared batch.
    OfflineRun,
    /// `ptr`: variable I/O description, used for offline processing such as time-stretching.
    ProcessVarIo,
    /// `value`: input arrangement.  `ptr`: output arrangement.
    SetSpeakerArrangement,
    /// Retired operation; its slot stays reserved so later ordinals are unaffected.
    _SetBlocksizeAndSampleRate,
    /// Soft bypass (automatable).  `value`: 1 = bypass, 0 = no bypass.
    SoftBypass,
    /// `ptr`: text buffer for the effect name, at most `MAX_EFFECT_NAME_LEN` bytes.
    GetEffectName,
    /// Retired operation; its slot stays reserved so later ordinals are unaffected.
    _GetErrorText,
    /// `ptr`: text buffer for the vendor name, at most `MAX_VENDOR_STR_LEN` bytes.
    GetVendorName,
    /// `ptr`: text buffer for the product name, at most `MAX_PRODUCT_STR_LEN` bytes.
    GetProductName,
    /// `return`: vendor-specific version.
    GetVendorVersion,
    /// No published definition; vendor specific.
    VendorSpecific,
    /// `ptr`: capability query text.  `return`: 1 = yes, 0 = maybe, -1 = no.
    CanDo,
    /// `return`: tail size (e.g. reverb time); 0 is the default, 1 means no tail.
    GetTailSize,
    /// Retired operation; its slot stays reserved so later ordinals are unaffected.
    _Idle,
    /// Retired operation; its slot stays reserved so later ordinals are unaffected.
    _GetIcon,
    /// Retired operation; its slot stays reserved so later ordinals are unaffected.
    _SetVewPosition,
    /// `index`: parameter index.  `ptr`: parameter properties.  `return`: 1 if supported.
    GetParamInfo,
    /// Retired operation; its slot stays reserved so later ordinals are unaffected.
    _KeysRequired,
    /// `return`: `API_VERSION`.  Legal in any state.
    GetApiVersion,
    /// `index`: ASCII character.  `value`: key code.  `opt`: modifier bitmask.  `return`: 1 if used.
    EditorKeyDown,
    /// `index`: ASCII character.  `value`: key code.  `opt`: modifier bitmask.  `return`: 1 if used.
    EditorKeyUp,
    /// `value`: 0 = circular, 1 = circular relative, 2 = linear.
    EditorSetKnobMode,
    /// `index`: MIDI channel.  `ptr`: program name record.  `return`: number of used programs, 0 = unsupported.
    GetMidiProgramName,
    /// `index`: MIDI channel.  `ptr`: program name record.  `return`: index of the current program.
    GetCurrentMidiProgram,
    /// `index`: MIDI channel.  `ptr`: program category record.  `return`: number of used categories.
    GetMidiProgramCategory,
    /// `index`: MIDI channel.  `return`: 1 if the program names have changed.
    HasMidiProgramsChanged,
    /// `index`: MIDI channel.  `ptr`: key name record.  `return`: 1 = supported, 0 = not.
    GetMidiKeyName,
    /// Called before a preset is loaded.
    BeginSetPreset,
    /// Called after a preset is loaded.
    EndSetPreset,
    /// `value`: input arrangement.  `ptr`: output arrangement.
    GetSpeakerArrangement,
    /// `ptr`: text buffer for the sub-plugin name, at most `MAX_PRODUCT_STR_LEN` bytes.  `return`: next plugin's unique ID.
    ShellGetNextPlugin,
    /// No arguments.  Called once before the render path is invoked repeatedly without interruption.
    StartProcess,
    /// No arguments.  Called after the render path stops.
    StopProcess,
    /// `value`: number of samples to process; called in offline mode before processing.
    SetTotalSampleToProcess,
    /// `value`: pan law kind.  `opt`: gain.
    SetPanLaw,
    /// `ptr`: patch chunk header.  `return`: -1 = bank cannot be loaded, 1 = can be loaded, 0 = unsupported.
    BeginLoadBank,
    /// `ptr`: patch chunk header.  `return`: -1 = preset cannot be loaded, 1 = can be loaded, 0 = unsupported.
    BeginLoadPreset,
    /// `value`: 0 for 32-bit sample buffers, anything else for 64-bit.
    SetPrecision,
    /// `return`: number of used MIDI inputs, 0 = unsupported.
    GetNumMidiInputs,
    /// `return`: number of used MIDI outputs, 0 = unsupported.
    GetNumMidiOutputs,
}

/// The ordinal of the last published slot; greater ordinals are unknown
/// operations and dispatch to them is a harmless no-op.
pub const LAST_OPCODE_ORDINAL: i32 = 79;

impl OpCode {
    /// The fixed, historical position of this operation in the catalogue.
    pub open spec fn ordinal_spec(self) -> int {
        match self {
            OpCode::Initialize => 0,
            OpCode::Shutdown => 1,
            OpCode::ChangePreset => 2,
            OpCode::GetCurrentPresetNum => 3,
            OpCode::SetCurrentPresetName => 4,
            OpCode::GetCurrentPresetName => 5,
            OpCode::GetParameterLabel => 6,
            OpCode::GetParameterDisplay => 7,
            OpCode::GetParameterName => 8,
            OpCode::_GetVu => 9,
            OpCode::SetSampleRate => 10,
            OpCode::SetBlockSize => 11,
            OpCode::StateChanged => 12,
            OpCode::EditorGetRect => 13,
            OpCode::EditorOpen => 14,
            OpCode::EditorClose => 15,
            OpCode::_EditorDraw => 16,
            OpCode::_EditorMouse => 17,
            OpCode::_EditorKey => 18,
            OpCode::EditorIdle => 19,
            OpCode::_EditorTop => 20,
            OpCode::_EditorSleep => 21,
            OpCode::_EditorIdentify => 22,
            OpCode::GetData => 23,
            OpCode::SetData => 24,
            OpCode::ProcessEvents => 25,
            OpCode::CanBeAutomated => 26,
            OpCode::StringToParameter => 27,
            OpCode::_GetNumCategories => 28,
            OpCode::GetPresetName => 29,
            OpCode::_CopyPreset => 30,
            OpCode::_ConnectIn => 31,
            OpCode::_ConnectOut => 32,
            OpCode::GetInputInfo => 33,
            OpCode::GetOutputInfo => 34,
            OpCode::GetCategory => 35,
            OpCode::_GetCurrentPosition => 36,
            OpCode::_GetDestinationBuffer => 37,
            OpCode::OfflineNotify => 38,
            OpCode::OfflinePrepare => 39,
            OpCode::OfflineRun => 40,
            OpCode::ProcessVarIo => 41,
            OpCode::SetSpeakerArrangement => 42,
            OpCode::_SetBlocksizeAndSampleRate => 43,
            OpCode::SoftBypass => 44,
            OpCode::GetEffectName => 45,
            OpCode::_GetErrorText => 46,
            OpCode::GetVendorName => 47,
            OpCode::GetProductName => 48,
            OpCode::GetVendorVersion => 49,
            OpCode::VendorSpecific => 50,
            OpCode::CanDo => 51,
            OpCode::GetTailSize => 52,
            OpCode::_Idle => 53,
            OpCode::_GetIcon => 54,
            OpCode::_SetVewPosition => 55,
            OpCode::GetParamInfo => 56,
            OpCode::_KeysRequired => 57,
            OpCode::GetApiVersion => 58,
            OpCode::EditorKeyDown => 59,
            OpCode::EditorKeyUp => 60,
            OpCode::EditorSetKnobMode => 61,
            OpCode::GetMidiProgramName => 62,
            OpCode::GetCurrentMidiProgram => 63,
            OpCode::GetMidiProgramCategory => 64,
            OpCode::HasMidiProgramsChanged => 65,
            OpCode::GetMidiKeyName => 66,
            OpCode::BeginSetPreset => 67,
            OpCode::EndSetPreset => 68,
            OpCode::GetSpeakerArrangement => 69,
            OpCode::ShellGetNextPlugin => 70,
            OpCode::StartProcess => 71,
            OpCode::StopProcess => 72,
            OpCode::SetTotalSampleToProcess => 73,
            OpCode::SetPanLaw => 74,
            OpCode::BeginLoadBank => 75,
            OpCode::BeginLoadPreset => 76,
            OpCode::SetPrecision => 77,
            OpCode::GetNumMidiInputs => 78,
            OpCode::GetNumMidiOutputs => 79,
        }
    }

    /// The wire value of this operation.
    pub fn ordinal(self) -> (r: i32)
        ensures
            r as int == self.ordinal_spec(),
    {
        match self {
            OpCode::Initialize => 0,
            OpCode::Shutdown => 1,
            OpCode::ChangePreset => 2,
            OpCode::GetCurrentPresetNum => 3,
            OpCode::SetCurrentPresetName => 4,
            OpCode::GetCurrentPresetName => 5,
            OpCode::GetParameterLabel => 6,
            OpCode::GetParameterDisplay => 7,
            OpCode::GetParameterName => 8,
            OpCode::_GetVu => 9,
            OpCode::SetSampleRate => 10,
            OpCode::SetBlockSize => 11,
            OpCode::StateChanged => 12,
            OpCode::EditorGetRect => 13,
            OpCode::EditorOpen => 14,
            OpCode::EditorClose => 15,
            OpCode::_EditorDraw => 16,
            OpCode::_EditorMouse => 17,
            OpCode::_EditorKey => 18,
            OpCode::EditorIdle => 19,
            OpCode::_EditorTop => 20,
            OpCode::_EditorSleep => 21,
            OpCode::_EditorIdentify => 22,
            OpCode::GetData => 23,
            OpCode::SetData => 24,
            OpCode::ProcessEvents => 25,
            OpCode::CanBeAutomated => 26,
            OpCode::StringToParameter => 27,
            OpCode::_GetNumCategories => 28,
            OpCode::GetPresetName => 29,
            OpCode::_CopyPreset => 30,
            OpCode::_ConnectIn => 31,
            OpCode::_ConnectOut => 32,
            OpCode::GetInputInfo => 33,
            OpCode::GetOutputInfo => 34,
            OpCode::GetCategory => 35,
            OpCode::_GetCurrentPosition => 36,
            OpCode::_GetDestinationBuffer => 37,
            OpCode::OfflineNotify => 38,
            OpCode::OfflinePrepare => 39,
            OpCode::OfflineRun => 40,
            OpCode::ProcessVarIo => 41,
            OpCode::SetSpeakerArrangement => 42,
            OpCode::_SetBlocksizeAndSampleRate => 43,
            OpCode::SoftBypass => 44,
            OpCode::GetEffectName => 45,
            OpCode::_GetErrorText => 46,
            OpCode::GetVendorName => 47,
            OpCode::GetProductName => 48,
            OpCode::GetVendorVersion => 49,
            OpCode::VendorSpecific => 50,
            OpCode::CanDo => 51,
            OpCode::GetTailSize => 52,
            OpCode::_Idle => 53,
            OpCode::_GetIcon => 54,
            OpCode::_SetVewPosition => 55,
            OpCode::GetParamInfo => 56,
            OpCode::_KeysRequired => 57,
            OpCode::GetApiVersion => 58,
            OpCode::EditorKeyDown => 59,
            OpCode::EditorKeyUp => 60,
            OpCode::EditorSetKnobMode => 61,
            OpCode::GetMidiProgramName => 62,
            OpCode::GetCurrentMidiProgram => 63,
            OpCode::GetMidiProgramCategory => 64,
            OpCode::HasMidiProgramsChanged => 65,
            OpCode::GetMidiKeyName => 66,
            OpCode::BeginSetPreset => 67,
            OpCode::EndSetPreset => 68,
            OpCode::GetSpeakerArrangement => 69,
            OpCode::ShellGetNextPlugin => 70,
            OpCode::StartProcess => 71,
            OpCode::StopProcess => 72,
            OpCode::SetTotalSampleToProcess => 73,
            OpCode::SetPanLaw => 74,
            OpCode::BeginLoadBank => 75,
            OpCode::BeginLoadPreset => 76,
            OpCode::SetPrecision => 77,
            OpCode::GetNumMidiInputs => 78,
            OpCode::GetNumMidiOutputs => 79,
        }
    }

    /// The operation bound to a given ordinal, if the ordinal is published.
    pub open spec fn from_ordinal_spec(n: int) -> Option<OpCode> {
        if n == 0 {
            Some(OpCode::Initialize)
        } else if n == 1 {
            Some(OpCode::Shutdown)
        } else if n == 2 {
            Some(OpCode::ChangePreset)
        } else if n == 3 {
            Some(OpCode::GetCurrentPresetNum)
        } else if n == 4 {
            Some(OpCode::SetCurrentPresetName)
        } else if n == 5 {
            Some(OpCode::GetCurrentPresetName)
        } else if n == 6 {
            Some(OpCode::GetParameterLabel)
        } else if n == 7 {
            Some(OpCode::GetParameterDisplay)
        } else if n == 8 {
            Some(OpCode::GetParameterName)
        } else if n == 9 {
            Some(OpCode::_GetVu)
        } else if n == 10 {
            Some(OpCode::SetSampleRate)
        } else if n == 11 {
            Some(OpCode::SetBlockSize)
        } else if n == 12 {
            Some(OpCode::StateChanged)
        } else if n == 13 {
            Some(OpCode::EditorGetRect)
        } else if n == 14 {
            Some(OpCode::EditorOpen)
        } else if n == 15 {
            Some(OpCode::EditorClose)
        } else if n == 16 {
            Some(OpCode::_EditorDraw)
        } else if n == 17 {
            Some(OpCode::_EditorMouse)
        } else if n == 18 {
            Some(OpCode::_EditorKey)
        } else if n == 19 {
            Some(OpCode::EditorIdle)
        } else if n == 20 {
            Some(OpCode::_EditorTop)
        } else if n == 21 {
            Some(OpCode::_EditorSleep)
        } else if n == 22 {
            Some(OpCode::_EditorIdentify)
        } else if n == 23 {
            Some(OpCode::GetData)
        } else if n == 24 {
            Some(OpCode::SetData)
        } else if n == 25 {
            Some(OpCode::ProcessEvents)
        } else if n == 26 {
            Some(OpCode::CanBeAutomated)
        } else if n == 27 {
            Some(OpCode::StringToParameter)
        } else if n == 28 {
            Some(OpCode::_GetNumCategories)
        } else if n == 29 {
            Some(OpCode::GetPresetName)
        } else if n == 30 {
            Some(OpCode::_CopyPreset)
        } else if n == 31 {
            Some(OpCode::_ConnectIn)
        } else if n == 32 {
            Some(OpCode::_ConnectOut)
        } else if n == 33 {
            Some(OpCode::GetInputInfo)
        } else if n == 34 {
            Some(OpCode::GetOutputInfo)
        } else if n == 35 {
            Some(OpCode::GetCategory)
        } else if n == 36 {
            Some(OpCode::_GetCurrentPosition)
        } else if n == 37 {
            Some(OpCode::_GetDestinationBuffer)
        } else if n == 38 {
            Some(OpCode::OfflineNotify)
        } else if n == 39 {
            Some(OpCode::OfflinePrepare)
        } else if n == 40 {
            Some(OpCode::OfflineRun)
        } else if n == 41 {
            Some(OpCode::ProcessVarIo)
        } else if n == 42 {
            Some(OpCode::SetSpeakerArrangement)
        } else if n == 43 {
            Some(OpCode::_SetBlocksizeAndSampleRate)
        } else if n == 44 {
            Some(OpCode::SoftBypass)
        } else if n == 45 {
            Some(OpCode::GetEffectName)
        } else if n == 46 {
            Some(OpCode::_GetErrorText)
        } else if n == 47 {
            Some(OpCode::GetVendorName)
        } else if n == 48 {
            Some(OpCode::GetProductName)
        } else if n == 49 {
            Some(OpCode::GetVendorVersion)
        } else if n == 50 {
            Some(OpCode::VendorSpecific)
        } else if n == 51 {
            Some(OpCode::CanDo)
        } else if n == 52 {
            Some(OpCode::GetTailSize)
        } else if n == 53 {
            Some(OpCode::_Idle)
        } else if n == 54 {
            Some(OpCode::_GetIcon)
        } else if n == 55 {
            Some(OpCode::_SetVewPosition)
        } else if n == 56 {
            Some(OpCode::GetParamInfo)
        } else if n == 57 {
            Some(OpCode::_KeysRequired)
        } else if n == 58 {
            Some(OpCode::GetApiVersion)
        } else if n == 59 {
            Some(OpCode::EditorKeyDown)
        } else if n == 60 {
            Some(OpCode::EditorKeyUp)
        } else if n == 61 {
            Some(OpCode::EditorSetKnobMode)
        } else if n == 62 {
            Some(OpCode::GetMidiProgramName)
        } else if n == 63 {
            Some(OpCode::GetCurrentMidiProgram)
        } else if n == 64 {
            Some(OpCode::GetMidiProgramCategory)
        } else if n == 65 {
            Some(OpCode::HasMidiProgramsChanged)
        } else if n == 66 {
            Some(OpCode::GetMidiKeyName)
        } else if n == 67 {
            Some(OpCode::BeginSetPreset)
        } else if n == 68 {
            Some(OpCode::EndSetPreset)
        } else if n == 69 {
            Some(OpCode::GetSpeakerArrangement)
        } else if n == 70 {
            Some(OpCode::ShellGetNextPlugin)
        } else if n == 71 {
            Some(OpCode::StartProcess)
        } else if n == 72 {
            Some(OpCode::StopProcess)
        } else if n == 73 {
            Some(OpCode::SetTotalSampleToProcess)
        } else if n == 74 {
            Some(OpCode::SetPanLaw)
        } else if n == 75 {
            Some(OpCode::BeginLoadBank)
        } else if n == 76 {
            Some(OpCode::BeginLoadPreset)
        } else if n == 77 {
            Some(OpCode::SetPrecision)
        } else if n == 78 {
            Some(OpCode::GetNumMidiInputs)
        } else if n == 79 {
            Some(OpCode::GetNumMidiOutputs)
        } else {
            None
        }
    }

    /// Decode an operation ordinal received from the host.
    pub fn from_ordinal(n: i32) -> (r: Option<OpCode>)
        ensures
            r == OpCode::from_ordinal_spec(n as int),
    {
        if n == 0 {
            Some(OpCode::Initialize)
        } else if n == 1 {
            Some(OpCode::Shutdown)
        } else if n == 2 {
            Some(OpCode::ChangePreset)
        } else if n == 3 {
            Some(OpCode::GetCurrentPresetNum)
        } else if n == 4 {
            Some(OpCode::SetCurrentPresetName)
        } else if n == 5 {
            Some(OpCode::GetCurrentPresetName)
        } else if n == 6 {
            Some(OpCode::GetParameterLabel)
        } else if n == 7 {
            Some(OpCode::GetParameterDisplay)
        } else if n == 8 {
            Some(OpCode::GetParameterName)
        } else if n == 9 {
            Some(OpCode::_GetVu)
        } else if n == 10 {
            Some(OpCode::SetSampleRate)
        } else if n == 11 {
            Some(OpCode::SetBlockSize)
        } else if n == 12 {
            Some(OpCode::StateChanged)
        } else if n == 13 {
            Some(OpCode::EditorGetRect)
        } else if n == 14 {
            Some(OpCode::EditorOpen)
        } else if n == 15 {
            Some(OpCode::EditorClose)
        } else if n == 16 {
            Some(OpCode::_EditorDraw)
        } else if n == 17 {
            Some(OpCode::_EditorMouse)
        } else if n == 18 {
            Some(OpCode::_EditorKey)
        } else if n == 19 {
            Some(OpCode::EditorIdle)
        } else if n == 20 {
            Some(OpCode::_EditorTop)
        } else if n == 21 {
            Some(OpCode::_EditorSleep)
        } else if n == 22 {
            Some(OpCode::_EditorIdentify)
        } else if n == 23 {
            Some(OpCode::GetData)
        } else if n == 24 {
            Some(OpCode::SetData)
        } else if n == 25 {
            Some(OpCode::ProcessEvents)
        } else if n == 26 {
            Some(OpCode::CanBeAutomated)
        } else if n == 27 {
            Some(OpCode::StringToParameter)
        } else if n == 28 {
            Some(OpCode::_GetNumCategories)
        } else if n == 29 {
            Some(OpCode::GetPresetName)
        } else if n == 30 {
            Some(OpCode::_CopyPreset)
        } else if n == 31 {
            Some(OpCode::_ConnectIn)
        } else if n == 32 {
            Some(OpCode::_ConnectOut)
        } else if n == 33 {
            Some(OpCode::GetInputInfo)
        } else if n == 34 {
            Some(OpCode::GetOutputInfo)
        } else if n == 35 {
            Some(OpCode::GetCategory)
        } else if n == 36 {
            Some(OpCode::_GetCurrentPosition)
        } else if n == 37 {
            Some(OpCode::_GetDestinationBuffer)
        } else if n == 38 {
            Some(OpCode::OfflineNotify)
        } else if n == 39 {
            Some(OpCode::OfflinePrepare)
        } else if n == 40 {
            Some(OpCode::OfflineRun)
        } else if n == 41 {
            Some(OpCode::ProcessVarIo)
        } else if n == 42 {
            Some(OpCode::SetSpeakerArrangement)
        } else if n == 43 {
            Some(OpCode::_SetBlocksizeAndSampleRate)
        } else if n == 44 {
            Some(OpCode::SoftBypass)
        } else if n == 45 {
            Some(OpCode::GetEffectName)
        } else if n == 46 {
            Some(OpCode::_GetErrorText)
        } else if n == 47 {
            Some(OpCode::GetVendorName)
        } else if n == 48 {
            Some(OpCode::GetProductName)
        } else if n == 49 {
            Some(OpCode::GetVendorVersion)
        } else if n == 50 {
            Some(OpCode::VendorSpecific)
        } else if n == 51 {
            Some(OpCode::CanDo)
        } else if n == 52 {
            Some(OpCode::GetTailSize)
        } else if n == 53 {
            Some(OpCode::_Idle)
        } else if n == 54 {
            Some(OpCode::_GetIcon)
        } else if n == 55 {
            Some(OpCode::_SetVewPosition)
        } else if n == 56 {
            Some(OpCode::GetParamInfo)
        } else if n == 57 {
            Some(OpCode::_KeysRequired)
        } else if n == 58 {
            Some(OpCode::GetApiVersion)
        } else if n == 59 {
            Some(OpCode::EditorKeyDown)
        } else if n == 60 {
            Some(OpCode::EditorKeyUp)
        } else if n == 61 {
            Some(OpCode::EditorSetKnobMode)
        } else if n == 62 {
            Some(OpCode::GetMidiProgramName)
        } else if n == 63 {
            Some(OpCode::GetCurrentMidiProgram)
        } else if n == 64 {
            Some(OpCode::GetMidiProgramCategory)
        } else if n == 65 {
            Some(OpCode::HasMidiProgramsChanged)
        } else if n == 66 {
            Some(OpCode::GetMidiKeyName)
        } else if n == 67 {
            Some(OpCode::BeginSetPreset)
        } else if n == 68 {
            Some(OpCode::EndSetPreset)
        } else if n == 69 {
            Some(OpCode::GetSpeakerArrangement)
        } else if n == 70 {
            Some(OpCode::ShellGetNextPlugin)
        } else if n == 71 {
            Some(OpCode::StartProcess)
        } else if n == 72 {
            Some(OpCode::StopProcess)
        } else if n == 73 {
            Some(OpCode::SetTotalSampleToProcess)
        } else if n == 74 {
            Some(OpCode::SetPanLaw)
        } else if n == 75 {
            Some(OpCode::BeginLoadBank)
        } else if n == 76 {
            Some(OpCode::BeginLoadPreset)
        } else if n == 77 {
            Some(OpCode::SetPrecision)
        } else if n == 78 {
            Some(OpCode::GetNumMidiInputs)
        } else if n == 79 {
            Some(OpCode::GetNumMidiOutputs)
        } else {
            None
        }
    }

    /// Whether this slot is a reserved placeholder for a retired operation.
    /// Dispatching to one succeeds, performs nothing and returns 0.
    pub open spec fn is_reserved_spec(self) -> bool {
        match self {
            OpCode::_GetVu
            | OpCode::_EditorDraw
            | OpCode::_EditorMouse
            | OpCode::_EditorKey
            | OpCode::_EditorTop
            | OpCode::_EditorSleep
            | OpCode::_EditorIdentify
            | OpCode::_GetNumCategories
            | OpCode::_CopyPreset
            | OpCode::_ConnectIn
            | OpCode::_ConnectOut
            | OpCode::_GetCurrentPosition
            | OpCode::_GetDestinationBuffer
            | OpCode::_SetBlocksizeAndSampleRate
            | OpCode::_GetErrorText
            | OpCode::_Idle
            | OpCode::_GetIcon
            | OpCode::_SetVewPosition
            | OpCode::_KeysRequired
            => true,
            _ => false,
        }
    }

    /// Runtime check for a reserved placeholder slot.
    pub fn is_reserved(self) -> (r: bool)
        ensures
            r == self.is_reserved_spec(),
    {
        match self {
            OpCode::_GetVu
            | OpCode::_EditorDraw
            | OpCode::_EditorMouse
            | OpCode::_EditorKey
            | OpCode::_EditorTop
            | OpCode::_EditorSleep
            | OpCode::_EditorIdentify
            | OpCode::_GetNumCategories
            | OpCode::_CopyPreset
            | OpCode::_ConnectIn
            | OpCode::_ConnectOut
            | OpCode::_GetCurrentPosition
            | OpCode::_GetDestinationBuffer
            | OpCode::_SetBlocksizeAndSampleRate
            | OpCode::_GetErrorText
            | OpCode::_Idle
            | OpCode::_GetIcon
            | OpCode::_SetVewPosition
            | OpCode::_KeysRequired
            => true,
            _ => false,
        }
    }
}

/// Decoding the ordinal of an operation gives that operation back: each
/// published slot is bound to exactly one operation.
pub proof fn lemma_opcode_round_trip(op: OpCode)
    ensures
        OpCode::from_ordinal_spec(op.ordinal_spec()) == Some(op),
{
}

/// No two operations share an ordinal.
pub proof fn lemma_opcode_ordinal_injective(a: OpCode, b: OpCode)
    requires
        a.ordinal_spec() == b.ordinal_spec(),
    ensures
        a == b,
{
    lemma_opcode_round_trip(a);
    lemma_opcode_round_trip(b);
}

/// Exactly the ordinals `0 ..= LAST_OPCODE_ORDINAL` are published; the
/// catalogue has no gaps and ends at the last published slot.
pub proof fn lemma_opcode_ordinal_range(n: int)
    ensures
        OpCode::from_ordinal_spec(n) is Some <==> 0 <= n <= LAST_OPCODE_ORDINAL,
{
}

} // verus!
