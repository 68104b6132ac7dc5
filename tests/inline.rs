use base64::Engine;
use merkleized_metadata_sys::inline::{
    extend_types, first_step, inline_payload, loader_module, next_action, InlineAction,
    InlineStep, LOADER_HEAD, LOADER_MODULE_FILE, LOADER_TAIL, TYPES_ADDITION,
};
use merkleized_metadata_sys::manifest::{update_manifest, ManifestError};

fn embedded(module: &str) -> &str {
    assert!(module.starts_with(LOADER_HEAD));
    assert!(module.ends_with(LOADER_TAIL));
    &module[LOADER_HEAD.len()..module.len() - LOADER_TAIL.len()]
}

fn round_trip(bytes: &[u8]) {
    let module = inline_payload(bytes);
    let text = embedded(&module);
    assert_eq!(text.len(), 4 * ((bytes.len() + 2) / 3));
    let back = base64::engine::general_purpose::STANDARD.decode(text).unwrap();
    assert_eq!(back, bytes);
}

#[test]
fn base64_round_trip_empty() {
    round_trip(&[]);
}

#[test]
fn base64_round_trip_single_byte() {
    round_trip(&[0xfb]);
}

#[test]
fn base64_round_trip_several_kilobytes() {
    let bytes: Vec<u8> = (0..5000u32).map(|i| (i * 7 + 3) as u8).collect();
    round_trip(&bytes);
}

#[test]
fn payload_text_is_base64() {
    let module = inline_payload(b"hello");
    assert_eq!(embedded(&module), "aGVsbG8=");
}

#[test]
fn loader_module_embeds_text() {
    let module = loader_module("QUJD");
    assert_eq!(module, format!("{LOADER_HEAD}QUJD{LOADER_TAIL}"));
    assert!(module.contains("base64ToBytes(\"QUJD\")"));
}

#[test]
fn loader_module_instantiates_once() {
    let module = loader_module("AA==");
    assert_eq!(module.matches("WebAssembly.instantiate(").count(), 1);
    let guard = module.find("if (!initPromise)").unwrap();
    let call = module.find("WebAssembly.instantiate(").unwrap();
    assert!(guard < call);
    assert!(module.contains("return initPromise"));
    assert!(module.contains("export function init()"));
    assert!(module.contains("bg.__wbg_set_wasm(wasm.instance.exports)"));
    assert!(module.contains("export * from \"./merkleized_metadata_sys_bg.js\";"));
}

#[test]
fn types_keep_existing_declarations() {
    let existing = "export function f(): void;\n";
    let r = extend_types(existing);
    assert_eq!(r, format!("{existing}{TYPES_ADDITION}\n"));
    assert!(r.contains("export function init(): Promise<void>;"));
}

#[test]
fn manifest_is_patched() {
    let r = update_manifest(r#"{"name":"pkg","version":"1.0.0","type":"commonjs"}"#).unwrap();
    assert_eq!(
        r,
        r#"{"main":"merkleized_metadata_sys.js","name":"pkg","type":"module","version":"1.0.0"}"#
    );
}

#[test]
fn manifest_keeps_other_keys() {
    let r = update_manifest(r#"{"files":["a","b"],"dependencies":{"x":"1"}}"#).unwrap();
    let v: serde_json::Value = serde_json::from_str(&r).unwrap();
    assert_eq!(v["type"], "module");
    assert_eq!(v["main"], LOADER_MODULE_FILE);
    assert_eq!(v["files"][1], "b");
    assert_eq!(v["dependencies"]["x"], "1");
    assert_eq!(v.as_object().unwrap().len(), 4);
}

#[test]
fn manifest_that_is_no_object_is_rejected() {
    assert_eq!(update_manifest("[1, 2]"), Err(ManifestError::Parse));
}

#[test]
fn manifest_that_is_no_json_is_rejected() {
    assert_eq!(update_manifest("{\"name\": "), Err(ManifestError::Parse));
}

#[test]
fn steps_run_in_order() {
    let mut step = first_step();
    let mut seen = vec![step];
    loop {
        match next_action(step, true) {
            InlineAction::Run(s) => {
                seen.push(s);
                step = s;
            }
            InlineAction::Finish => break,
            InlineAction::Abort(_) => panic!("no step failed"),
        }
    }
    assert_eq!(
        seen,
        vec![
            InlineStep::ReadPayload,
            InlineStep::WriteLoader,
            InlineStep::DeletePayload,
            InlineStep::DeletePayloadTypes,
            InlineStep::AppendTypes,
            InlineStep::PatchManifest,
        ]
    );
}

#[test]
fn failed_read_aborts() {
    assert_eq!(first_step(), InlineStep::ReadPayload);
    assert_eq!(
        next_action(InlineStep::ReadPayload, false),
        InlineAction::Abort(InlineStep::ReadPayload)
    );
}

#[test]
fn failed_delete_aborts() {
    assert_eq!(
        next_action(InlineStep::DeletePayloadTypes, false),
        InlineAction::Abort(InlineStep::DeletePayloadTypes)
    );
}
