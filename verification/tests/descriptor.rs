use vst_protocol::category::Category;
use vst_protocol::info::Info;

#[test]
fn default_descriptor_values() {
    let info = Info::default();
    assert_eq!(info.name, "VST");
    assert_eq!(info.vendor, "");
    assert_eq!(info.presets, 1);
    assert_eq!(info.parameters, 0);
    assert_eq!(info.inputs, 2);
    assert_eq!(info.outputs, 2);
    assert_eq!(info.unique_id, 0);
    assert_eq!(info.version, 1);
    assert_eq!(info.category, Category::Effect);
    assert_eq!(info.initial_delay, 0);
    assert!(!info.preset_chunks);
    assert!(!info.f64_precision);
}

#[test]
fn descriptor_fields_are_plain_and_writable_by_the_plugin_author() {
    let info = Info {
        name: "Sine Synth".to_string(),
        vendor: "Example Audio".to_string(),
        presets: 3,
        parameters: 2,
        inputs: 0,
        outputs: 2,
        unique_id: 0x5153594e,
        version: 1203,
        category: Category::Synth,
        initial_delay: 64,
        preset_chunks: true,
        f64_precision: true,
    };
    assert_eq!(info.category.ordinal(), 2);
    assert_eq!(info.version, 1203);
    let copy = info.clone();
    assert_eq!(copy.name, info.name);
    assert_eq!(copy.unique_id, info.unique_id);
}
