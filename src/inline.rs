//! Folding a compiled package into one module: the payload is embedded as
//! base64 text in a new loader, the type declarations gain the loader's
//! initialisation entry point, and the manifest is pointed at the loader.
use vstd::prelude::*;
use base64::Engine;

verus! {

/// The loader module's file name, which the manifest's entry point names.
pub const LOADER_MODULE_FILE: &'static str = "merkleized_metadata_sys.js";

/// The type declarations of the loader module.
pub const TYPES_FILE: &'static str = "merkleized_metadata_sys.d.ts";

/// The compiled payload, embedded and then removed.
pub const PAYLOAD_FILE: &'static str = "merkleized_metadata_sys_bg.wasm";

/// The payload's type declarations, removed.
pub const PAYLOAD_TYPES_FILE: &'static str = "merkleized_metadata_sys_bg.wasm.d.ts";

/// The package manifest.
pub const MANIFEST_FILE: &'static str = "package.json";

/// The loader module up to the embedded payload text: it imports the binding
/// module and defines the decoding helper.
pub const LOADER_HEAD: &'static str = "\n        import * as bg from \"./merkleized_metadata_sys_bg.js\";\n\n        function base64ToBytes(base64) {\n            const binString = atob(base64);\n            return Uint8Array.from(binString, (m) => m.codePointAt(0));\n        }\n\n        const wasmUintArray = base64ToBytes(\"";

/// The loader module after the embedded payload text: the memoised `init`,
/// which instantiates the payload once with the binding module as its imports
/// and hands the exports back to it, then the re-export of the binding module.
pub const LOADER_TAIL: &'static str = "\");\n\n        let initPromise = undefined;\n        export function init() {\n            if (!initPromise) {\n                let imports = {\n                    // the WASM file expects to be given access to a few functions from here:\n                    './merkleized_metadata_sys_bg.js': bg\n                }\n                initPromise = WebAssembly.instantiate(wasmUintArray, imports).then((wasm) => {\n                    // __wbg_set_wasm then expects to be given the exports from the instantiated WASM:\n                    bg.__wbg_set_wasm(wasm.instance.exports);\n                });\n            }\n            return initPromise\n        }\n\n        export * from \"./merkleized_metadata_sys_bg.js\";\n    ";

/// The declaration appended to the type declarations.
pub const TYPES_ADDITION: &'static str = "\n        export function init(): Promise<void>;\n    ";

/// The characters of the padded standard base64 alphabet.
pub open spec fn is_base64_char(c: char) -> bool {
    ('A' <= c && c <= 'Z') || ('a' <= c && c <= 'z') || ('0' <= c && c <= '9') || c == '+' || c
        == '/' || c == '='
}

/// The character of the standard base64 alphabet for `v`, below 64.
pub open spec fn base64_digit(v: nat) -> char {
    if v < 26 {
        (65 + v) as char
    } else if v < 52 {
        (71 + v) as char
    } else if v < 62 {
        (v - 4) as char
    } else if v == 62 {
        '+'
    } else {
        '/'
    }
}

/// The padded standard base64 text of `b`: each three bytes give four
/// characters of six bits each; a last group of one or two bytes is padded
/// with `=`.
pub open spec fn base64_of(b: Seq<u8>) -> Seq<char>
    decreases b.len(),
{
    if b.len() == 0 {
        seq![]
    } else if b.len() == 1 {
        seq![base64_digit((b[0] / 4) as nat), base64_digit(((b[0] % 4) * 16) as nat), '=', '=']
    } else if b.len() == 2 {
        seq![
            base64_digit((b[0] / 4) as nat),
            base64_digit(((b[0] % 4) * 16 + b[1] / 16) as nat),
            base64_digit(((b[1] % 16) * 4) as nat),
            '=',
        ]
    } else {
        seq![
            base64_digit((b[0] / 4) as nat),
            base64_digit(((b[0] % 4) * 16 + b[1] / 16) as nat),
            base64_digit(((b[1] % 16) * 4 + b[2] / 64) as nat),
            base64_digit((b[2] % 64) as nat),
        ] + base64_of(b.subrange(3, b.len() as int))
    }
}

/// Base64 text has four characters for each three bytes or part of three,
/// all of the padded alphabet.
pub proof fn lemma_base64_shape(b: Seq<u8>)
    ensures
        base64_of(b).len() == 4 * ((b.len() + 2) / 3),
        forall|i: int| 0 <= i < base64_of(b).len() ==> is_base64_char(#[trigger] base64_of(b)[i]),
    decreases b.len(),
{
    if b.len() >= 3 {
        let rest = b.subrange(3, b.len() as int);
        lemma_base64_shape(rest);
        assert forall|i: int| 0 <= i < base64_of(b).len() implies is_base64_char(
            #[trigger] base64_of(b)[i],
        ) by {
            if i >= 4 {
                assert(base64_of(b)[i] == base64_of(rest)[i - 4]);
            }
        }
    }
}

/// Relies on base64's `Engine::encode` for the standard alphabet with
/// padding. It panics only where the text's length overflows `usize`.
#[verifier::external_body]
pub(crate) fn encode_base64(b: &[u8]) -> (r: String)
    requires
        4 * ((b@.len() + 2) / 3) <= usize::MAX,
    ensures
        r@ == base64_of(b@),
{
    base64::engine::GeneralPurpose::new(
        &base64::alphabet::STANDARD,
        base64::engine::GeneralPurposeConfig::new(),
    ).encode(b)
}

/// The loader module that embeds `payload_text`.
pub fn loader_module(payload_text: &str) -> (r: String)
    ensures
        r@ == LOADER_HEAD@ + payload_text@ + LOADER_TAIL@,
{
    let mut r = String::from_str(LOADER_HEAD);
    r.append(payload_text);
    r.append(LOADER_TAIL);
    r
}

/// The loader module that embeds the payload `wasm` as base64 text. The text
/// holds no quote or backslash, so it stands as a string literal unchanged.
pub fn inline_payload(wasm: &[u8]) -> (r: String)
    requires
        4 * ((wasm@.len() + 2) / 3) <= usize::MAX,
    ensures
        r@ == LOADER_HEAD@ + base64_of(wasm@) + LOADER_TAIL@,
        base64_of(wasm@).len() == 4 * ((wasm@.len() + 2) / 3),
        forall|i: int|
            0 <= i < base64_of(wasm@).len() ==> is_base64_char(#[trigger] base64_of(wasm@)[i]),
        forall|i: int|
            0 <= i < base64_of(wasm@).len() ==> #[trigger] base64_of(wasm@)[i] != '"'
                && base64_of(wasm@)[i] != '\\',
{
    let text = encode_base64(wasm);
    proof {
        lemma_base64_shape(wasm@);
    }
    assert forall|i: int| 0 <= i < base64_of(wasm@).len() implies #[trigger] base64_of(wasm@)[i]
        != '"' && base64_of(wasm@)[i] != '\\' by {
        assert(is_base64_char(base64_of(wasm@)[i]));
    }
    loader_module(text.as_str())
}

/// The type declarations with the declaration of `init` appended: what was
/// there is kept as it was.
pub fn extend_types(existing: &str) -> (r: String)
    ensures
        r@ == existing@ + TYPES_ADDITION@ + seq!['\n'],
{
    let mut r = String::from_str(existing);
    r.append(TYPES_ADDITION);
    r.append("\n");
    proof {
        reveal_strlit("\n");
    }
    r
}

/// The steps of folding a package, each a piece of file work.
#[derive(Clone, Copy, Debug, PartialEq, Eq, Structural)]
pub enum InlineStep {
    /// Read the payload's bytes.
    ReadPayload,
    /// Write the loader module that embeds them.
    WriteLoader,
    /// Delete the payload.
    DeletePayload,
    /// Delete the payload's type declarations.
    DeletePayloadTypes,
    /// Append the declaration of `init` to the type declarations.
    AppendTypes,
    /// Set the module system and entry point in the manifest.
    PatchManifest,
}

/// What to do once a step has run.
#[derive(Clone, Copy, Debug, PartialEq, Eq, Structural)]
pub enum InlineAction {
    Run(InlineStep),
    /// Every step succeeded.
    Finish,
    /// This step failed: stop, and leave what is done as it is.
    Abort(InlineStep),
}

/// The steps in the order in which they run.
pub open spec fn inline_steps() -> Seq<InlineStep> {
    seq![
        InlineStep::ReadPayload,
        InlineStep::WriteLoader,
        InlineStep::DeletePayload,
        InlineStep::DeletePayloadTypes,
        InlineStep::AppendTypes,
        InlineStep::PatchManifest,
    ]
}

/// The step that runs first.
pub fn first_step() -> (r: InlineStep)
    ensures
        r == inline_steps()[0],
{
    InlineStep::ReadPayload
}

/// What follows step `done`, which succeeded or not: the next step in
/// `inline_steps()`, or the end; any failure aborts the run.
pub fn next_action(done: InlineStep, succeeded: bool) -> (r: InlineAction)
    ensures
        !succeeded ==> r == InlineAction::Abort(done),
        succeeded ==> forall|i: int|
            0 <= i < inline_steps().len() && #[trigger] inline_steps()[i] == done ==> r == if i + 1
                < inline_steps().len() {
                InlineAction::Run(inline_steps()[i + 1])
            } else {
                InlineAction::Finish
            },
{
    if !succeeded {
        return InlineAction::Abort(done);
    }
    match done {
        InlineStep::ReadPayload => InlineAction::Run(InlineStep::WriteLoader),
        InlineStep::WriteLoader => InlineAction::Run(InlineStep::DeletePayload),
        InlineStep::DeletePayload => InlineAction::Run(InlineStep::DeletePayloadTypes),
        InlineStep::DeletePayloadTypes => InlineAction::Run(InlineStep::AppendTypes),
        InlineStep::AppendTypes => InlineAction::Run(InlineStep::PatchManifest),
        InlineStep::PatchManifest => InlineAction::Finish,
    }
}

} // verus!
