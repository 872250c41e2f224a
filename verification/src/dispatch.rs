//! The dispatcher and the per-operation argument marshaling contract.
//!
//! A host request is one operation ordinal plus four generic argument
//! slots: a secondary integer `index`, a pointer-width integer `value`, a
//! 32-bit floating option carried here as its raw bit pattern `opt_bits`,
//! and a payload buffer standing for the host-supplied memory behind the
//! pointer slot.  Which slots carry meaning is decided solely by the
//! operation; unused slots are ignored.  The dispatcher decodes the
//! ordinal, checks the request against the lifecycle state, applies the
//! operation's protocol-level effect and returns a single integer result.
//!
//! Misuse is never fatal: an unknown ordinal, a reserved slot, an
//! operation outside its lifecycle window or a malformed argument all
//! leave the instance unchanged and return the neutral result 0.
//!
//! Operations whose payload layout the historical reference leaves to
//! external collaborators (editor window geometry, pin properties, speaker
//! arrangements, MIDI program records, patch chunk headers, event streams)
//! are answered as unsupported: the neutral result and no effect.

use vstd::prelude::*;
use vstd::string::StrSliceExecFns;
use vstd::utf8::encode_utf8;
use crate::category::Category;
use crate::info::Info;
use crate::lifecycle::{advance, life_result, life_step, LifecycleState, Stage};
use crate::opcode::OpCode;
use crate::text::{
    c_text, clip_bytes, clipped, copy_bytes, spells, spells_word, write_c_string,
    MAX_EFFECT_NAME_LEN, MAX_PARAM_STR_LEN, MAX_PRESET_NAME_LEN, MAX_PRODUCT_STR_LEN,
    MAX_VENDOR_STR_LEN,
};

verus! {

/// API version reported by `GetApiVersion`: protocol revision 2.4.
pub const API_VERSION: i64 = 2400;

/// Upper bound on the byte size of an opaque persistence chunk, so that a
/// chunk length always fits the integer result slot.
pub const MAX_CHUNK_LEN: usize = 0x7fffffff;

/// A plugin instance as the dispatch layer sees it: the immutable static
/// descriptor plus every piece of state that dispatch calls may mutate.
pub struct PluginState {
    /// The static descriptor, immutable for the life of the instance.
    pub info: Info,
    /// Lifecycle state, mutated exclusively by dispatch calls.
    pub life: LifecycleState,
    /// Index of the currently selected preset.
    pub current_preset: usize,
    /// One name per preset; preset contents themselves are vendor logic
    /// and stay outside this layer.
    pub preset_names: Vec<Vec<u8>>,
    /// One name per parameter, plugin-authored like the descriptor.
    pub param_names: Vec<Vec<u8>>,
    /// Opaque bank persistence chunk (meaningful when the descriptor
    /// declares chunk persistence).
    pub bank_chunk: Vec<u8>,
    /// Opaque preset persistence chunk.
    pub preset_chunk: Vec<u8>,
    /// Bit pattern of the 32-bit sample rate most recently set by the host.
    pub sample_rate_bits: u32,
    /// Maximum processing block size set by the host.
    pub block_size: i64,
    /// Whether soft bypass is engaged.
    pub soft_bypass: bool,
    /// Whether the host switched the instance to double-precision buffers.
    pub double_precision: bool,
    /// Editor knob mode: 0 = circular, 1 = circular relative, 2 = linear.
    pub knob_mode: i64,
    /// Total samples to process, announced before offline processing.
    pub total_samples: i64,
}

/// The mathematical value of a table of names: each entry as its bytes.
pub open spec fn names_model(v: Seq<Vec<u8>>) -> Seq<Seq<u8>> {
    Seq::new(v.len(), |i: int| v[i]@)
}

/// The mathematical value of the mutable part of a `PluginState`.
#[verifier::ext_equal]
pub ghost struct DynState {
    pub life: LifecycleState,
    pub current_preset: int,
    pub preset_names: Seq<Seq<u8>>,
    pub param_names: Seq<Seq<u8>>,
    pub bank_chunk: Seq<u8>,
    pub preset_chunk: Seq<u8>,
    pub sample_rate_bits: u32,
    pub block_size: i64,
    pub soft_bypass: bool,
    pub double_precision: bool,
    pub knob_mode: i64,
    pub total_samples: i64,
}

impl PluginState {
    /// The model of this instance's mutable state.
    pub open spec fn dyn_of(self) -> DynState {
        DynState {
            life: self.life,
            current_preset: self.current_preset as int,
            preset_names: names_model(self.preset_names@),
            param_names: names_model(self.param_names@),
            bank_chunk: self.bank_chunk@,
            preset_chunk: self.preset_chunk@,
            sample_rate_bits: self.sample_rate_bits,
            block_size: self.block_size,
            soft_bypass: self.soft_bypass,
            double_precision: self.double_precision,
            knob_mode: self.knob_mode,
            total_samples: self.total_samples,
        }
    }

    /// Well-formedness: the name tables agree with the descriptor's counts,
    /// the selected preset exists (or is 0 where there are no presets), and
    /// chunks stay within the published size bound.
    pub open spec fn wf(self) -> bool {
        &&& self.info.wf()
        &&& self.preset_names@.len() == self.info.presets as int
        &&& self.param_names@.len() == self.info.parameters as int
        &&& (self.preset_names@.len() == 0 ==> self.current_preset == 0)
        &&& (self.preset_names@.len() > 0 ==> (self.current_preset as int) < self.preset_names@.len())
        &&& self.bank_chunk@.len() <= MAX_CHUNK_LEN
        &&& self.preset_chunk@.len() <= MAX_CHUNK_LEN
    }

    /// Create a fresh, uninitialized instance from its descriptor and its
    /// plugin-authored preset and parameter names.
    pub fn new(info: Info, preset_names: Vec<Vec<u8>>, param_names: Vec<Vec<u8>>) -> (r: PluginState)
        requires
            info.wf(),
            preset_names@.len() == info.presets as int,
            param_names@.len() == info.parameters as int,
        ensures
            r.wf(),
            r.info == info,
            r.life == LifecycleState::initial_spec(),
            r.current_preset == 0,
            r.preset_names@ == preset_names@,
            r.param_names@ == param_names@,
            r.bank_chunk@ == Seq::<u8>::empty(),
            r.preset_chunk@ == Seq::<u8>::empty(),
            r.sample_rate_bits == 0u32,
            r.block_size == 0i64,
            r.soft_bypass == false,
            r.double_precision == false,
            r.knob_mode == 0i64,
            r.total_samples == 0i64,
    {
        PluginState {
            info,
            life: LifecycleState::initial(),
            current_preset: 0,
            preset_names,
            param_names,
            bank_chunk: Vec::new(),
            preset_chunk: Vec::new(),
            sample_rate_bits: 0,
            block_size: 0,
            soft_bypass: false,
            double_precision: false,
            knob_mode: 0,
            total_samples: 0,
        }
    }
}

/// Whether an operation is a metadata query in the broad sense: legal in
/// any lifecycle state, including before `Initialize`.
pub open spec fn is_metadata_op(op: OpCode) -> bool {
    match op {
        OpCode::Initialize
        | OpCode::Shutdown
        | OpCode::GetApiVersion
        | OpCode::GetEffectName
        | OpCode::GetVendorName
        | OpCode::GetProductName
        | OpCode::GetVendorVersion
        | OpCode::GetCategory
        | OpCode::CanDo => true,
        _ => false,
    }
}

/// Runtime check for a metadata operation.
pub fn check_metadata_op(op: OpCode) -> (r: bool)
    ensures
        r == is_metadata_op(op),
{
    matches!(
        op,
        OpCode::Initialize
        | OpCode::Shutdown
        | OpCode::GetApiVersion
        | OpCode::GetEffectName
        | OpCode::GetVendorName
        | OpCode::GetProductName
        | OpCode::GetVendorVersion
        | OpCode::GetCategory
        | OpCode::CanDo
    )
}

/// The capability word for soft bypass, which this layer handles itself.
pub open spec fn bypass_word() -> Seq<u8> {
    encode_utf8("bypass"@)
}

/// The capability word for offline processing.
pub open spec fn offline_word() -> Seq<u8> {
    encode_utf8("offline"@)
}

/// The published answer to a capability query: 1 (yes) for soft bypass,
/// which this layer implements for every plugin; yes or -1 (no) for offline
/// processing depending on the declared category; 0 (maybe) for any word
/// this layer does not know.
pub open spec fn can_do_spec(input: Seq<u8>, category: Category) -> i64 {
    if spells(input, bypass_word()) {
        1
    } else if spells(input, offline_word()) {
        if category is OfflineProcess {
            1
        } else {
            -1i64
        }
    } else {
        0
    }
}

/// Answer a capability query; the result is always one of -1, 0, 1.
pub fn can_do(input: &Vec<u8>, category: Category) -> (r: i64)
    ensures
        r == can_do_spec(input@, category),
        r == -1 || r == 0 || r == 1,
{
    let bypass = ("bypass").as_bytes_vec();
    if spells_word(input, &bypass) {
        1
    } else {
        let offline = ("offline").as_bytes_vec();
        if spells_word(input, &offline) {
            if matches!(category, Category::OfflineProcess) {
                1
            } else {
                -1
            }
        } else {
            0
        }
    }
}

/// The documented capacity of the text buffer an operation writes,
/// terminator included; 0 for operations that write no bounded text.
pub open spec fn text_capacity(op: OpCode) -> int {
    match op {
        OpCode::GetCurrentPresetName | OpCode::GetPresetName => MAX_PRESET_NAME_LEN as int,
        OpCode::GetParameterName | OpCode::GetParameterLabel | OpCode::GetParameterDisplay => (
            MAX_PARAM_STR_LEN as int
        ),
        OpCode::GetEffectName => MAX_EFFECT_NAME_LEN as int,
        OpCode::GetVendorName => MAX_VENDOR_STR_LEN as int,
        OpCode::GetProductName => MAX_PRODUCT_STR_LEN as int,
        _ => 0,
    }
}

/// Whether a request is turned away without effect: a reserved slot, or an
/// operation other than a metadata query before `Initialize`.
pub open spec fn rejected(m: DynState, op: OpCode) -> bool {
    op.is_reserved_spec() || (m.life.stage is Uninitialized && !is_metadata_op(op))
}

/// The mutable state after dispatching one decoded operation.
pub open spec fn next_model(
    info: Info,
    m: DynState,
    op: OpCode,
    index: i32,
    value: i64,
    opt_bits: u32,
    input: Seq<u8>,
) -> DynState {
    if rejected(m, op) {
        m
    } else {
        match op {
            OpCode::Initialize
            | OpCode::Shutdown
            | OpCode::StateChanged
            | OpCode::EditorOpen
            | OpCode::EditorClose
            | OpCode::EditorIdle
            | OpCode::BeginSetPreset
            | OpCode::EndSetPreset
            | OpCode::OfflineNotify
            | OpCode::OfflinePrepare
            | OpCode::OfflineRun
            | OpCode::StartProcess
            | OpCode::StopProcess => DynState { life: life_step(m.life, op, value), ..m },
            OpCode::ChangePreset => if 0 <= value && value < m.preset_names.len() {
                DynState { current_preset: value as int, ..m }
            } else {
                m
            },
            OpCode::SetCurrentPresetName => if m.preset_names.len() > 0 {
                DynState {
                    preset_names: m.preset_names.update(
                        m.current_preset,
                        clipped(input, MAX_PRESET_NAME_LEN as int - 1),
                    ),
                    ..m
                }
            } else {
                m
            },
            OpCode::SetSampleRate => DynState { sample_rate_bits: opt_bits, ..m },
            OpCode::SetBlockSize => if value >= 1 {
                DynState { block_size: value, ..m }
            } else {
                m
            },
            OpCode::SoftBypass => DynState { soft_bypass: value != 0, ..m },
            OpCode::SetPrecision => if value == 0 {
                DynState { double_precision: false, ..m }
            } else if info.f64_precision {
                DynState { double_precision: true, ..m }
            } else {
                m
            },
            OpCode::EditorSetKnobMode => if 0 <= value && value <= 2 {
                DynState { knob_mode: value, ..m }
            } else {
                m
            },
            OpCode::SetTotalSampleToProcess => if value >= 0 {
                DynState { total_samples: value, ..m }
            } else {
                m
            },
            OpCode::SetData => if info.preset_chunks && 0 <= value && value
                <= MAX_CHUNK_LEN as i64 && (index == 0 || index == 1) {
                if index == 0 {
                    DynState { bank_chunk: clipped(input, value as int), ..m }
                } else {
                    DynState { preset_chunk: clipped(input, value as int), ..m }
                }
            } else {
                m
            },
            _ => m,
        }
    }
}

/// The integer result of dispatching one decoded operation.
pub open spec fn result_of(
    info: Info,
    m: DynState,
    op: OpCode,
    index: i32,
    value: i64,
    input: Seq<u8>,
) -> i64 {
    if rejected(m, op) {
        0
    } else {
        match op {
            OpCode::Initialize
            | OpCode::Shutdown
            | OpCode::StateChanged
            | OpCode::EditorOpen
            | OpCode::EditorClose
            | OpCode::EditorIdle
            | OpCode::BeginSetPreset
            | OpCode::EndSetPreset
            | OpCode::OfflineNotify
            | OpCode::OfflinePrepare
            | OpCode::OfflineRun
            | OpCode::StartProcess
            | OpCode::StopProcess => life_result(m.life, op, value),
            OpCode::GetCurrentPresetNum => m.current_preset as i64,
            OpCode::GetPresetName => if 0 <= index && (index as int) < m.preset_names.len() {
                1
            } else {
                0
            },
            OpCode::CanBeAutomated => if 0 <= index && (index as int) < info.parameters as int {
                1
            } else {
                0
            },
            OpCode::GetCategory => info.category.ordinal_spec() as i64,
            OpCode::GetVendorVersion => info.version as i64,
            OpCode::GetApiVersion => API_VERSION,
            OpCode::CanDo => can_do_spec(input, info.category),
            OpCode::SoftBypass => 1,
            OpCode::SetPrecision => if value == 0 || info.f64_precision {
                1
            } else {
                0
            },
            OpCode::SetTotalSampleToProcess => if value >= 0 {
                value
            } else {
                0
            },
            OpCode::GetData => if info.preset_chunks && index == 0 {
                m.bank_chunk.len() as i64
            } else if info.preset_chunks && index == 1 {
                m.preset_chunk.len() as i64
            } else {
                0
            },
            OpCode::GetEffectName | OpCode::GetVendorName | OpCode::GetProductName => 1,
            _ => 0,
        }
    }
}

/// The payload buffer contents after dispatching one decoded operation;
/// operations that write nothing leave the buffer as the host filled it.
pub open spec fn output_of(
    info: Info,
    m: DynState,
    op: OpCode,
    index: i32,
    input: Seq<u8>,
) -> Seq<u8> {
    if rejected(m, op) {
        input
    } else {
        match op {
            OpCode::GetCurrentPresetName => if m.preset_names.len() > 0 {
                c_text(m.preset_names[m.current_preset], MAX_PRESET_NAME_LEN as int)
            } else {
                c_text(Seq::<u8>::empty(), MAX_PRESET_NAME_LEN as int)
            },
            OpCode::GetPresetName => if 0 <= index && (index as int) < m.preset_names.len() {
                c_text(m.preset_names[index as int], MAX_PRESET_NAME_LEN as int)
            } else {
                input
            },
            OpCode::GetParameterName => if 0 <= index && (index as int) < m.param_names.len() {
                c_text(m.param_names[index as int], MAX_PARAM_STR_LEN as int)
            } else {
                input
            },
            OpCode::GetParameterLabel | OpCode::GetParameterDisplay => c_text(
                Seq::<u8>::empty(),
                MAX_PARAM_STR_LEN as int,
            ),
            OpCode::GetEffectName => c_text(encode_utf8(info.name@), MAX_EFFECT_NAME_LEN as int),
            OpCode::GetVendorName => c_text(encode_utf8(info.vendor@), MAX_VENDOR_STR_LEN as int),
            OpCode::GetProductName => c_text(encode_utf8(info.name@), MAX_PRODUCT_STR_LEN as int),
            OpCode::GetData => if info.preset_chunks && index == 0 {
                m.bank_chunk
            } else if info.preset_chunks && index == 1 {
                m.preset_chunk
            } else {
                input
            },
            _ => input,
        }
    }
}

/// Updating one entry of a name table updates its model pointwise.
proof fn lemma_names_model_update(a: Seq<Vec<u8>>, b: Seq<Vec<u8>>, i: int)
    requires
        0 <= i < a.len(),
        b.len() == a.len(),
        forall|j: int| 0 <= j < a.len() && j != i ==> b[j] == a[j],
    ensures
        names_model(b) == names_model(a).update(i, b[i]@),
{
    assert forall|j: int|
        0 <= j < b.len() implies names_model(b)[j] == names_model(a).update(i, b[i]@)[j] by {
        if j != i {
            assert(b[j] == a[j]);
        }
    }
    assert(names_model(b) =~= names_model(a).update(i, b[i]@));
}

impl PluginState {
    /// Dispatch one decoded operation against this instance.
    ///
    /// The three `ensures` clauses over the model are the whole marshaling
    /// contract: how the mutable state moves, what the integer result is,
    /// and what the payload buffer holds afterwards.
    pub fn dispatch_op(
        &mut self,
        op: OpCode,
        index: i32,
        value: i64,
        opt_bits: u32,
        buffer: &mut Vec<u8>,
    ) -> (r: i64)
        requires
            old(self).wf(),
        ensures
            final(self).wf(),
            final(self).info == old(self).info,
            final(self).dyn_of() == next_model(
                old(self).info,
                old(self).dyn_of(),
                op,
                index,
                value,
                opt_bits,
                old(buffer)@,
            ),
            r == result_of(old(self).info, old(self).dyn_of(), op, index, value, old(buffer)@),
            final(buffer)@ == output_of(old(self).info, old(self).dyn_of(), op, index, old(buffer)@),
    {
        if op.is_reserved() {
            return 0;
        }
        if matches!(self.life.stage, Stage::Uninitialized) && !check_metadata_op(op) {
            return 0;
        }
        match op {
            OpCode::Initialize
            | OpCode::Shutdown
            | OpCode::StateChanged
            | OpCode::EditorOpen
            | OpCode::EditorClose
            | OpCode::EditorIdle
            | OpCode::BeginSetPreset
            | OpCode::EndSetPreset
            | OpCode::OfflineNotify
            | OpCode::OfflinePrepare
            | OpCode::OfflineRun
            | OpCode::StartProcess
            | OpCode::StopProcess => {
                let stepped = advance(self.life, op, value);
                self.life = stepped.0;
                stepped.1
            },
            OpCode::ChangePreset => {
                if 0 <= value && value < self.preset_names.len() as i64 {
                    self.current_preset = value as usize;
                }
                0
            },
            OpCode::GetCurrentPresetNum => self.current_preset as i64,
            OpCode::SetCurrentPresetName => {
                if self.preset_names.len() > 0 {
                    let fresh = clip_bytes(buffer, MAX_PRESET_NAME_LEN - 1);
                    let ghost pre = self.preset_names;
                    let idx = self.current_preset;
                    self.preset_names[idx] = fresh;
                    proof {
                        lemma_names_model_update(pre@, self.preset_names@, idx as int);
                    }
                }
                0
            },
            OpCode::GetCurrentPresetName => {
                if self.preset_names.len() > 0 {
                    let idx = self.current_preset;
                    write_c_string(buffer, &self.preset_names[idx], MAX_PRESET_NAME_LEN);
                } else {
                    let empty: Vec<u8> = Vec::new();
                    write_c_string(buffer, &empty, MAX_PRESET_NAME_LEN);
                }
                0
            },
            OpCode::GetPresetName => {
                if 0 <= index && (index as usize) < self.preset_names.len() {
                    write_c_string(buffer, &self.preset_names[index as usize], MAX_PRESET_NAME_LEN);
                    1
                } else {
                    0
                }
            },
            OpCode::GetParameterName => {
                if 0 <= index && (index as usize) < self.param_names.len() {
                    write_c_string(buffer, &self.param_names[index as usize], MAX_PARAM_STR_LEN);
                }
                0
            },
            OpCode::GetParameterLabel | OpCode::GetParameterDisplay => {
                let empty: Vec<u8> = Vec::new();
                write_c_string(buffer, &empty, MAX_PARAM_STR_LEN);
                0
            },
            OpCode::GetEffectName => {
                let text = self.info.name.as_str().as_bytes_vec();
                write_c_string(buffer, &text, MAX_EFFECT_NAME_LEN);
                1
            },
            OpCode::GetVendorName => {
                let text = self.info.vendor.as_str().as_bytes_vec();
                write_c_string(buffer, &text, MAX_VENDOR_STR_LEN);
                1
            },
            OpCode::GetProductName => {
                let text = self.info.name.as_str().as_bytes_vec();
                write_c_string(buffer, &text, MAX_PRODUCT_STR_LEN);
                1
            },
            OpCode::CanBeAutomated => {
                if 0 <= index && index < self.info.parameters {
                    1
                } else {
                    0
                }
            },
            OpCode::GetVendorVersion => self.info.version as i64,
            OpCode::GetCategory => {
                let c = self.info.category.ordinal();
                c as i64
            },
            OpCode::GetApiVersion => API_VERSION,
            OpCode::CanDo => can_do(buffer, self.info.category),
            OpCode::SetSampleRate => {
                self.sample_rate_bits = opt_bits;
                0
            },
            OpCode::SetBlockSize => {
                if value >= 1 {
                    self.block_size = value;
                }
                0
            },
            OpCode::SoftBypass => {
                self.soft_bypass = value != 0;
                1
            },
            OpCode::SetPrecision => {
                if value == 0 {
                    self.double_precision = false;
                    1
                } else if self.info.f64_precision {
                    self.double_precision = true;
                    1
                } else {
                    0
                }
            },
            OpCode::EditorSetKnobMode => {
                if 0 <= value && value <= 2 {
                    self.knob_mode = value;
                }
                0
            },
            OpCode::SetTotalSampleToProcess => {
                if value >= 0 {
                    self.total_samples = value;
                    value
                } else {
                    0
                }
            },
            OpCode::GetData => {
                if self.info.preset_chunks && index == 0 {
                    copy_bytes(buffer, &self.bank_chunk);
                    self.bank_chunk.len() as i64
                } else if self.info.preset_chunks && index == 1 {
                    copy_bytes(buffer, &self.preset_chunk);
                    self.preset_chunk.len() as i64
                } else {
                    0
                }
            },
            OpCode::SetData => {
                if self.info.preset_chunks && 0 <= value && value <= MAX_CHUNK_LEN as i64
                    && (index == 0 || index == 1) {
                    let data = clip_bytes(buffer, value as usize);
                    if index == 0 {
                        self.bank_chunk = data;
                    } else {
                        self.preset_chunk = data;
                    }
                }
                0
            },
            _ => 0,
        }
    }

    /// The single generic entry point: dispatch by raw operation ordinal.
    ///
    /// An ordinal outside the published range (beyond the last slot, or
    /// negative) returns the neutral result and causes no observable
    /// change of any kind.
    pub fn dispatch(
        &mut self,
        opcode: i32,
        index: i32,
        value: i64,
        opt_bits: u32,
        buffer: &mut Vec<u8>,
    ) -> (r: i64)
        requires
            old(self).wf(),
        ensures
            final(self).wf(),
            final(self).info == old(self).info,
            match OpCode::from_ordinal_spec(opcode as int) {
                Some(op) => {
                    &&& final(self).dyn_of() == next_model(
                        old(self).info,
                        old(self).dyn_of(),
                        op,
                        index,
                        value,
                        opt_bits,
                        old(buffer)@,
                    )
                    &&& r == result_of(
                        old(self).info,
                        old(self).dyn_of(),
                        op,
                        index,
                        value,
                        old(buffer)@,
                    )
                    &&& final(buffer)@ == output_of(
                        old(self).info,
                        old(self).dyn_of(),
                        op,
                        index,
                        old(buffer)@,
                    )
                },
                None => {
                    &&& *final(self) == *old(self)
                    &&& final(buffer)@ == old(buffer)@
                    &&& r == 0
                },
            },
    {
        match OpCode::from_ordinal(opcode) {
            Some(op) => self.dispatch_op(op, index, value, opt_bits, buffer),
            None => 0,
        }
    }
}

/// Reserved slots accept dispatch, perform nothing and return the neutral
/// result, whatever the arguments: retiring an operation only freezes its
/// ordinal.
pub proof fn lemma_reserved_slot_neutral(
    info: Info,
    m: DynState,
    op: OpCode,
    index: i32,
    value: i64,
    opt_bits: u32,
    input: Seq<u8>,
)
    requires
        op.is_reserved_spec(),
    ensures
        next_model(info, m, op, index, value, opt_bits, input) == m,
        result_of(info, m, op, index, value, input) == 0,
        output_of(info, m, op, index, input) == input,
{
}

/// Before `Initialize`, every operation that is not a metadata query is
/// rejected without any observable effect.
pub proof fn lemma_uninitialized_rejects(
    info: Info,
    m: DynState,
    op: OpCode,
    index: i32,
    value: i64,
    opt_bits: u32,
    input: Seq<u8>,
)
    requires
        m.life.stage is Uninitialized,
        !is_metadata_op(op),
    ensures
        next_model(info, m, op, index, value, opt_bits, input) == m,
        result_of(info, m, op, index, value, input) == 0,
        output_of(info, m, op, index, input) == input,
{
}

/// `StartProcess` before `Initialize` is illegal: the neutral result and no
/// state change.
pub proof fn lemma_start_process_needs_initialize(
    info: Info,
    m: DynState,
    index: i32,
    value: i64,
    opt_bits: u32,
    input: Seq<u8>,
)
    requires
        m.life.stage is Uninitialized,
    ensures
        next_model(info, m, OpCode::StartProcess, index, value, opt_bits, input) == m,
        result_of(info, m, OpCode::StartProcess, index, value, input) == 0,
{
}

/// `OfflineRun` without a completed `OfflineNotify`/`OfflinePrepare` for
/// the same batch is rejected: the neutral result, no state change, and in
/// particular the offline sequence does not move to `Running`.
pub proof fn lemma_offline_run_out_of_order(
    info: Info,
    m: DynState,
    index: i32,
    value: i64,
    opt_bits: u32,
    input: Seq<u8>,
)
    requires
        m.life.offline is Idle || m.life.offline is Notified,
    ensures
        next_model(info, m, OpCode::OfflineRun, index, value, opt_bits, input) == m,
        next_model(info, m, OpCode::OfflineRun, index, value, opt_bits, input).life.offline
            != crate::lifecycle::OfflineSeq::Running,
        result_of(info, m, OpCode::OfflineRun, index, value, input) == 0,
{
    assert(next_model(info, m, OpCode::OfflineRun, index, value, opt_bits, input) =~= m);
}

/// A capability query answers exactly one of -1 (no), 0 (maybe), 1 (yes),
/// whatever the query and whatever the state.
pub proof fn lemma_can_do_tri_state(
    info: Info,
    m: DynState,
    index: i32,
    value: i64,
    input: Seq<u8>,
)
    ensures
        ({
            let r = result_of(info, m, OpCode::CanDo, index, value, input);
            r == -1 || r == 0 || r == 1
        }),
{
}

/// Text-writing operations never write beyond the documented maximum
/// length of their buffer, terminator included, and whenever they write at
/// all, the terminator lands within bounds as the last byte.
pub proof fn lemma_text_writes_bounded(
    info: Info,
    m: DynState,
    op: OpCode,
    index: i32,
    input: Seq<u8>,
)
    requires
        text_capacity(op) >= 1,
    ensures
        ({
            let out = output_of(info, m, op, index, input);
            out == input || (1 <= out.len() <= text_capacity(op) && out.last() == 0u8)
        }),
{
}


} // verus!
