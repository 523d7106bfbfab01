# auraw

The decision-making core of the AuRaw RAW editor, written in Verus: every
function in `src/` carries a `requires`/`ensures` contract that Verus proves,
and the properties that span several calls are stated as proof functions
(`lemma_*`) next to the code they describe.

## Layout

- `src/` — the verified library. Each module models one part of the editor
  as plain values and state machines: GPU error signalling (`gpu_errors`),
  compute workgroups and the compiled pass layout (`workgroup`,
  `render_graph`, `pass_plan`, `pipeline_plan`, `gpu_uploads`), preview
  density (`preview_quality`), the decoded-RAW cache (`raw_cache`), Discord
  presence (`discord_presence`), AI masks (`ai_masks::*`), mask editing
  (`mask_interaction`, `mask_gesture`), lens correction choices (`lens`),
  the library's batch refresh and paste (`library_refresh`,
  `adjustment_paste`), inpainting (`inpaint`), display colour management
  (`display_profile`), camera profiles, pickers, documents and settings
  feedback.
- `tests/` — ordinary Rust tests that run the library on concrete values.
- `app/` — the unverified platform glue: wgpu error hooks, the presence
  worker thread, files on disk, the serde form of the settings, worker
  threads, and the floating-point pixel helpers.

Calls into the standard library that vstd does not specify go through small
`#[verifier::external_body]` wrappers whose contracts restate the
documented behaviour (`str::to_lowercase`, `Path::parent`, `u64::to_string`, …).
