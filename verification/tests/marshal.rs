use vst_protocol::category::Category;
use vst_protocol::dispatch::{PluginState, API_VERSION};
use vst_protocol::info::Info;
use vst_protocol::opcode::OpCode;
use vst_protocol::text::{
    MAX_EFFECT_NAME_LEN, MAX_PARAM_STR_LEN, MAX_PRESET_NAME_LEN, MAX_PRODUCT_STR_LEN,
    MAX_VENDOR_STR_LEN,
};

fn plugin_with(info: Info, presets: Vec<&str>, params: Vec<&str>) -> PluginState {
    let mut p = PluginState::new(
        info,
        presets.iter().map(|s| s.as_bytes().to_vec()).collect(),
        params.iter().map(|s| s.as_bytes().to_vec()).collect(),
    );
    let mut buf: Vec<u8> = Vec::new();
    p.dispatch(OpCode::Initialize.ordinal(), 0, 0, 0, &mut buf);
    p
}

fn text_op(p: &mut PluginState, op: OpCode, index: i32) -> (i64, Vec<u8>) {
    let mut buf: Vec<u8> = Vec::new();
    let r = p.dispatch(op.ordinal(), index, 0, 0, &mut buf);
    (r, buf)
}

#[test]
fn unknown_ordinal_is_neutral_and_has_no_effect() {
    let mut info = Info::default();
    info.presets = 2;
    info.preset_chunks = true;
    let mut p = plugin_with(info, vec!["A", "B"], vec![]);
    let stage_before = p.life.stage;
    let mut buf: Vec<u8> = vec![1, 2, 3];
    assert_eq!(p.dispatch(80, 7, 9, 3, &mut buf), 0);
    assert_eq!(p.dispatch(12345, 0, 1, 0, &mut buf), 0);
    assert_eq!(p.dispatch(-1, 0, 1, 0, &mut buf), 0);
    assert_eq!(buf, vec![1, 2, 3]);
    assert_eq!(p.life.stage, stage_before);
    assert_eq!(p.current_preset, 0);
}

#[test]
fn reserved_slot_accepts_dispatch_and_returns_zero() {
    let mut p = plugin_with(Info::default(), vec!["Default"], vec![]);
    let mut buf: Vec<u8> = vec![42];
    // the retired slot at ordinal 9 (between GetParameterName and SetSampleRate)
    assert_eq!(p.dispatch(9, 1, 2, 3, &mut buf), 0);
    assert_eq!(buf, vec![42]);
    assert_eq!(p.life.stage, vst_protocol::lifecycle::Stage::Initialized);
}

#[test]
fn change_preset_and_query_it() {
    let mut info = Info::default();
    info.presets = 3;
    let mut p = plugin_with(info, vec!["One", "Two", "Three"], vec![]);
    let mut buf: Vec<u8> = Vec::new();
    assert_eq!(p.dispatch(OpCode::GetCurrentPresetNum.ordinal(), 0, 0, 0, &mut buf), 0);
    assert_eq!(p.dispatch(OpCode::ChangePreset.ordinal(), 0, 2, 0, &mut buf), 0);
    assert_eq!(p.dispatch(OpCode::GetCurrentPresetNum.ordinal(), 0, 0, 0, &mut buf), 2);
    // out of range: rejected, selection unchanged
    assert_eq!(p.dispatch(OpCode::ChangePreset.ordinal(), 0, 3, 0, &mut buf), 0);
    assert_eq!(p.current_preset, 2);
    assert_eq!(p.dispatch(OpCode::ChangePreset.ordinal(), 0, -1, 0, &mut buf), 0);
    assert_eq!(p.current_preset, 2);
}

#[test]
fn current_preset_name_round_trip() {
    let mut p = plugin_with(Info::default(), vec!["Default"], vec![]);
    let mut buf: Vec<u8> = b"Warm Hall\0".to_vec();
    assert_eq!(p.dispatch(OpCode::SetCurrentPresetName.ordinal(), 0, 0, 0, &mut buf), 0);
    let (r, out) = text_op(&mut p, OpCode::GetCurrentPresetName, 0);
    assert_eq!(r, 0);
    assert_eq!(out, b"Warm Hall\0\0".to_vec());
    assert!(out.len() <= MAX_PRESET_NAME_LEN);
}

#[test]
fn preset_name_at_boundary_length_is_truncated_within_bounds() {
    let mut p = plugin_with(Info::default(), vec!["Default"], vec![]);
    // 30 bytes of name: more than the 24-byte buffer can hold
    let long = b"ABCDEFGHIJKLMNOPQRSTUVWXYZ0123".to_vec();
    assert_eq!(long.len(), 30);
    let mut buf = long.clone();
    p.dispatch(OpCode::SetCurrentPresetName.ordinal(), 0, 0, 0, &mut buf);
    let (_, out) = text_op(&mut p, OpCode::GetCurrentPresetName, 0);
    assert_eq!(out.len(), MAX_PRESET_NAME_LEN);
    assert_eq!(*out.last().unwrap(), 0);
    assert_eq!(&out[..MAX_PRESET_NAME_LEN - 1], &long[..MAX_PRESET_NAME_LEN - 1]);
}

#[test]
fn get_preset_name_by_index() {
    let mut info = Info::default();
    info.presets = 2;
    let mut p = plugin_with(info, vec!["Clean", "Crunch"], vec![]);
    let (r, out) = text_op(&mut p, OpCode::GetPresetName, 1);
    assert_eq!(r, 1);
    assert_eq!(out, b"Crunch\0".to_vec());
    // invalid index: neutral result, buffer untouched
    let mut buf: Vec<u8> = vec![9, 9];
    assert_eq!(p.dispatch(OpCode::GetPresetName.ordinal(), 5, 0, 0, &mut buf), 0);
    assert_eq!(buf, vec![9, 9]);
}

#[test]
fn parameter_name_is_bounded_by_its_documented_maximum() {
    let mut info = Info::default();
    info.parameters = 2;
    let mut p = plugin_with(info, vec!["Default"], vec!["Gain", "Release Time"]);
    let (_, out) = text_op(&mut p, OpCode::GetParameterName, 0);
    assert_eq!(out, b"Gain\0".to_vec());
    let (_, long) = text_op(&mut p, OpCode::GetParameterName, 1);
    assert_eq!(long.len(), MAX_PARAM_STR_LEN);
    assert_eq!(long, b"Release\0".to_vec());
    let (_, label) = text_op(&mut p, OpCode::GetParameterLabel, 0);
    assert_eq!(label, b"\0".to_vec());
    let (_, display) = text_op(&mut p, OpCode::GetParameterDisplay, 0);
    assert_eq!(display, b"\0".to_vec());
}

#[test]
fn can_be_automated_checks_the_parameter_index() {
    let mut info = Info::default();
    info.parameters = 2;
    let mut p = plugin_with(info, vec!["Default"], vec!["A", "B"]);
    let mut buf: Vec<u8> = Vec::new();
    assert_eq!(p.dispatch(OpCode::CanBeAutomated.ordinal(), 0, 0, 0, &mut buf), 1);
    assert_eq!(p.dispatch(OpCode::CanBeAutomated.ordinal(), 1, 0, 0, &mut buf), 1);
    assert_eq!(p.dispatch(OpCode::CanBeAutomated.ordinal(), 2, 0, 0, &mut buf), 0);
    assert_eq!(p.dispatch(OpCode::CanBeAutomated.ordinal(), -1, 0, 0, &mut buf), 0);
}

#[test]
fn product_and_vendor_names_are_bounded_at_the_boundary() {
    let mut info = Info::default();
    // 69 characters: longer than the 64-byte product/vendor buffers
    info.name = "ABCDEFGHIJKLMNOPQRSTUVWXYZabcdefghijklmnopqrstuvwxyz0123456789ABCDEFG".to_string();
    info.vendor = info.name.clone();
    assert_eq!(info.name.len(), 69);
    let mut p = plugin_with(info.clone(), vec!["Default"], vec![]);

    let (r, product) = text_op(&mut p, OpCode::GetProductName, 0);
    assert_eq!(r, 1);
    assert_eq!(product.len(), MAX_PRODUCT_STR_LEN);
    assert_eq!(*product.last().unwrap(), 0);
    assert_eq!(&product[..MAX_PRODUCT_STR_LEN - 1], &info.name.as_bytes()[..MAX_PRODUCT_STR_LEN - 1]);

    let (_, vendor) = text_op(&mut p, OpCode::GetVendorName, 0);
    assert_eq!(vendor.len(), MAX_VENDOR_STR_LEN);
    assert_eq!(*vendor.last().unwrap(), 0);

    let (_, effect) = text_op(&mut p, OpCode::GetEffectName, 0);
    assert_eq!(effect.len(), MAX_EFFECT_NAME_LEN);
    assert_eq!(*effect.last().unwrap(), 0);
    assert_eq!(&effect[..MAX_EFFECT_NAME_LEN - 1], &info.name.as_bytes()[..MAX_EFFECT_NAME_LEN - 1]);
}

#[test]
fn short_names_are_terminated_within_bounds() {
    let mut p = plugin_with(Info::default(), vec!["Default"], vec![]);
    let (_, product) = text_op(&mut p, OpCode::GetProductName, 0);
    assert_eq!(product, b"VST\0".to_vec());
    let (_, vendor) = text_op(&mut p, OpCode::GetVendorName, 0);
    assert_eq!(vendor, b"\0".to_vec());
}

#[test]
fn can_do_returns_only_tri_state_values() {
    let mut p = plugin_with(Info::default(), vec!["Default"], vec![]);
    let queries: Vec<&[u8]> = vec![
        b"bypass",
        b"offline",
        b"sendVstEvents",
        b"receiveVstMidiEvent",
        b"",
        b"\0",
    ];
    for q in queries {
        let mut buf = q.to_vec();
        let r = p.dispatch(OpCode::CanDo.ordinal(), 0, 0, 0, &mut buf);
        assert!(r == -1 || r == 0 || r == 1);
    }
}

#[test]
fn can_do_answers_from_the_descriptor() {
    let mut p = plugin_with(Info::default(), vec!["Default"], vec![]);
    let mut buf = b"bypass".to_vec();
    assert_eq!(p.dispatch(OpCode::CanDo.ordinal(), 0, 0, 0, &mut buf), 1);
    let mut buf = b"bypass\0".to_vec();
    assert_eq!(p.dispatch(OpCode::CanDo.ordinal(), 0, 0, 0, &mut buf), 1);
    let mut buf = b"offline".to_vec();
    assert_eq!(p.dispatch(OpCode::CanDo.ordinal(), 0, 0, 0, &mut buf), -1);
    let mut buf = b"something else".to_vec();
    assert_eq!(p.dispatch(OpCode::CanDo.ordinal(), 0, 0, 0, &mut buf), 0);

    let mut info = Info::default();
    info.category = Category::OfflineProcess;
    let mut offline_plugin = plugin_with(info, vec!["Default"], vec![]);
    let mut buf = b"offline".to_vec();
    assert_eq!(offline_plugin.dispatch(OpCode::CanDo.ordinal(), 0, 0, 0, &mut buf), 1);
}

#[test]
fn api_version_and_category_queries() {
    let mut info = Info::default();
    info.category = Category::Generator;
    info.version = 1283;
    let mut p = plugin_with(info, vec!["Default"], vec![]);
    let mut buf: Vec<u8> = Vec::new();
    assert_eq!(p.dispatch(OpCode::GetApiVersion.ordinal(), 0, 0, 0, &mut buf), API_VERSION);
    assert_eq!(p.dispatch(OpCode::GetApiVersion.ordinal(), 0, 0, 0, &mut buf), 2400);
    assert_eq!(p.dispatch(OpCode::GetCategory.ordinal(), 0, 0, 0, &mut buf), 11);
    assert_eq!(p.dispatch(OpCode::GetVendorVersion.ordinal(), 0, 0, 0, &mut buf), 1283);
    assert_eq!(p.dispatch(OpCode::GetTailSize.ordinal(), 0, 0, 0, &mut buf), 0);
}

#[test]
fn chunk_persistence_round_trip() {
    let mut info = Info::default();
    info.preset_chunks = true;
    let mut p = plugin_with(info, vec!["Default"], vec![]);
    let payload = vec![0xde, 0xad, 0xbe, 0xef, 0x01];
    let mut buf = payload.clone();
    assert_eq!(
        p.dispatch(OpCode::SetData.ordinal(), 0, payload.len() as i64, 0, &mut buf),
        0
    );
    let mut out: Vec<u8> = Vec::new();
    let r = p.dispatch(OpCode::GetData.ordinal(), 0, 0, 0, &mut out);
    assert_eq!(r, payload.len() as i64);
    assert_eq!(out, payload);
    // the preset chunk (index 1) is independent of the bank chunk (index 0)
    let mut out1: Vec<u8> = vec![7];
    assert_eq!(p.dispatch(OpCode::GetData.ordinal(), 1, 0, 0, &mut out1), 0);
    assert!(out1.is_empty());
}

#[test]
fn chunks_are_refused_without_the_descriptor_flag() {
    let mut p = plugin_with(Info::default(), vec!["Default"], vec![]);
    let mut buf = vec![1, 2, 3];
    assert_eq!(p.dispatch(OpCode::SetData.ordinal(), 0, 3, 0, &mut buf), 0);
    let mut out = vec![9];
    assert_eq!(p.dispatch(OpCode::GetData.ordinal(), 0, 0, 0, &mut out), 0);
    assert_eq!(out, vec![9]);
    assert!(p.bank_chunk.is_empty());
}

#[test]
fn set_data_takes_the_declared_byte_size() {
    let mut info = Info::default();
    info.preset_chunks = true;
    let mut p = plugin_with(info, vec!["Default"], vec![]);
    let mut buf = vec![1, 2, 3, 4, 5];
    // declared size smaller than the buffer: only that prefix is kept
    assert_eq!(p.dispatch(OpCode::SetData.ordinal(), 1, 2, 0, &mut buf), 0);
    assert_eq!(p.preset_chunk, vec![1, 2]);
    // a negative size is malformed and ignored
    assert_eq!(p.dispatch(OpCode::SetData.ordinal(), 1, -4, 0, &mut buf), 0);
    assert_eq!(p.preset_chunk, vec![1, 2]);
}

#[test]
fn processing_configuration_setters() {
    let mut p = plugin_with(Info::default(), vec!["Default"], vec![]);
    let mut buf: Vec<u8> = Vec::new();
    let rate_bits = 48000.0f32.to_bits();
    assert_eq!(p.dispatch(OpCode::SetSampleRate.ordinal(), 0, 0, rate_bits, &mut buf), 0);
    assert_eq!(p.sample_rate_bits, rate_bits);
    assert_eq!(f32::from_bits(p.sample_rate_bits), 48000.0f32);

    assert_eq!(p.dispatch(OpCode::SetBlockSize.ordinal(), 0, 1024, 0, &mut buf), 0);
    assert_eq!(p.block_size, 1024);
    assert_eq!(p.dispatch(OpCode::SetBlockSize.ordinal(), 0, 0, 0, &mut buf), 0);
    assert_eq!(p.block_size, 1024);

    assert_eq!(p.dispatch(OpCode::SoftBypass.ordinal(), 0, 1, 0, &mut buf), 1);
    assert!(p.soft_bypass);
    assert_eq!(p.dispatch(OpCode::SoftBypass.ordinal(), 0, 0, 0, &mut buf), 1);
    assert!(!p.soft_bypass);

    assert_eq!(p.dispatch(OpCode::EditorSetKnobMode.ordinal(), 0, 2, 0, &mut buf), 0);
    assert_eq!(p.knob_mode, 2);
    assert_eq!(p.dispatch(OpCode::EditorSetKnobMode.ordinal(), 0, 5, 0, &mut buf), 0);
    assert_eq!(p.knob_mode, 2);

    assert_eq!(p.dispatch(OpCode::SetTotalSampleToProcess.ordinal(), 0, 44100, 0, &mut buf), 44100);
    assert_eq!(p.total_samples, 44100);
}

#[test]
fn set_precision_respects_the_descriptor() {
    let mut p = plugin_with(Info::default(), vec!["Default"], vec![]);
    let mut buf: Vec<u8> = Vec::new();
    // single precision is always accepted
    assert_eq!(p.dispatch(OpCode::SetPrecision.ordinal(), 0, 0, 0, &mut buf), 1);
    assert!(!p.double_precision);
    // double precision is refused unless the descriptor declares it
    assert_eq!(p.dispatch(OpCode::SetPrecision.ordinal(), 0, 1, 0, &mut buf), 0);
    assert!(!p.double_precision);

    let mut info = Info::default();
    info.f64_precision = true;
    let mut q = plugin_with(info, vec!["Default"], vec![]);
    assert_eq!(q.dispatch(OpCode::SetPrecision.ordinal(), 0, 1, 0, &mut buf), 1);
    assert!(q.double_precision);
}

#[test]
fn unsupported_operations_answer_neutrally() {
    let mut p = plugin_with(Info::default(), vec!["Default"], vec![]);
    let mut buf: Vec<u8> = vec![5];
    for op in [
        OpCode::EditorGetRect,
        OpCode::ProcessEvents,
        OpCode::StringToParameter,
        OpCode::GetInputInfo,
        OpCode::GetOutputInfo,
        OpCode::ProcessVarIo,
        OpCode::SetSpeakerArrangement,
        OpCode::VendorSpecific,
        OpCode::GetParamInfo,
        OpCode::EditorKeyDown,
        OpCode::EditorKeyUp,
        OpCode::GetMidiProgramName,
        OpCode::GetCurrentMidiProgram,
        OpCode::GetMidiProgramCategory,
        OpCode::HasMidiProgramsChanged,
        OpCode::GetMidiKeyName,
        OpCode::GetSpeakerArrangement,
        OpCode::ShellGetNextPlugin,
        OpCode::SetPanLaw,
        OpCode::BeginLoadBank,
        OpCode::BeginLoadPreset,
        OpCode::GetNumMidiInputs,
        OpCode::GetNumMidiOutputs,
    ] {
        assert_eq!(p.dispatch(op.ordinal(), 0, 0, 0, &mut buf), 0);
        assert_eq!(buf, vec![5]);
    }
}

#[test]
fn a_plugin_without_presets_answers_preset_queries_defensively() {
    let mut info = Info::default();
    info.presets = 0;
    let mut p = plugin_with(info, vec![], vec![]);
    let mut buf: Vec<u8> = Vec::new();
    assert_eq!(p.dispatch(OpCode::ChangePreset.ordinal(), 0, 0, 0, &mut buf), 0);
    assert_eq!(p.current_preset, 0);
    assert_eq!(p.dispatch(OpCode::GetCurrentPresetNum.ordinal(), 0, 0, 0, &mut buf), 0);
    let mut name = b"Anything".to_vec();
    assert_eq!(p.dispatch(OpCode::SetCurrentPresetName.ordinal(), 0, 0, 0, &mut name), 0);
    let (_, out) = text_op(&mut p, OpCode::GetCurrentPresetName, 0);
    assert_eq!(out, b"\0".to_vec());
}
