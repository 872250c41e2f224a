//! The static descriptor: plugin-authored, host-readable fixed metadata.
//!
//! Constructed once when a plugin instance is created and treated as
//! immutable by the dispatch layer; the unique identifier and the channel
//! counts in particular are part of the host-side identity of the plugin.

use vstd::prelude::*;
use crate::category::Category;

verus! {

/// A structure representing static plugin information.
#[derive(Clone, Debug)]
pub struct Info {
    /// Plugin name.
    pub name: String,
    /// Plugin vendor.
    pub vendor: String,
    /// Number of different presets.
    pub presets: i32,
    /// Number of parameters.
    pub parameters: i32,
    /// Number of inputs.
    pub inputs: i32,
    /// Number of outputs.
    pub outputs: i32,
    /// Unique plugin ID, used by hosts to identify the plugin during save and
    /// load of presets and projects; must be globally distinct per product.
    pub unique_id: i32,
    /// Packed plugin version (e.g. 0001 = v0.0.0.1, 1283 = v1.2.8.3).
    pub version: i32,
    /// Plugin category.
    pub category: Category,
    /// Initial processing latency in samples.
    pub initial_delay: i32,
    /// Whether preset data is handled in formatless chunks.  If false, the
    /// host saves and restores the plugin by transferring parameter values;
    /// if true, the plugin serializes presets itself as an opaque byte blob
    /// moved through the data-transfer operations.
    pub preset_chunks: bool,
    /// Whether this plugin also accepts double-precision sample buffers.
    pub f64_precision: bool,
}

impl Info {
    /// The descriptor invariant the dispatch layer relies on: counts are
    /// non-negative.
    pub open spec fn wf(self) -> bool {
        &&& self.presets >= 0
        &&& self.parameters >= 0
        &&& self.inputs >= 0
        &&& self.outputs >= 0
    }
}

impl Default for Info {
    /// The default descriptor: one preset, no parameters, stereo in and out,
    /// an effect, version v0.0.0.1, and a unique ID of 0 that every real
    /// plugin must replace.
    fn default() -> (r: Info)
        ensures
            r.name@ == "VST"@,
            r.vendor@ == Seq::<char>::empty(),
            r.presets == 1,
            r.parameters == 0,
            r.inputs == 2,
            r.outputs == 2,
            r.unique_id == 0,
            r.version == 1,
            r.category == Category::Effect,
            r.initial_delay == 0,
            r.preset_chunks == false,
            r.f64_precision == false,
            r.wf(),
    {
        Info {
            name: "VST".to_owned(),
            vendor: String::new(),
            presets: 1,
            parameters: 0,
            inputs: 2,
            outputs: 2,
            unique_id: 0,
            version: 1,
            category: Category::Effect,
            initial_delay: 0,
            preset_chunks: false,
            f64_precision: false,
        }
    }
}

} // verus!
