//! Sizing decisions taken before a GPU pipeline allocates anything: whether
//! compiled programs can be reused, the reduced tone-analysis extent, the
//! local-mask atlas, and the tone histogram's rectangle; and the synthetic
//! RAW on which programs are compiled ahead of time, with the slot that
//! hands the compiled programs over once.
use vstd::prelude::*;
use vstd::string::*;
use crate::gpu_uploads::MaskAtlas;
use crate::render_graph::{expected_pass_count, demosaic_pass_count, CfaKind, ProcessingQuality, COLOR_DENOISE_SCALES};
use crate::workgroup::{lemma_groups_covering, ComputeWorkgroupSize};

verus! {

/// What a set of compiled programs was built for.
#[derive(Clone, Copy, Debug, PartialEq, Eq, Structural)]
pub struct ProgramTemplateInfo {
    pub cfa_kind: CfaKind,
    pub quality: ProcessingQuality,
    pub workgroup_size: ComputeWorkgroupSize,
    pub pass_count: usize,
}

/// Programs can be reused only by a pipeline for the same sensor layout,
/// quality and workgroup shape, and only if the template is complete.
pub fn check_template_reuse(
    template: ProgramTemplateInfo,
    cfa_kind: CfaKind,
    quality: ProcessingQuality,
    workgroup_size: ComputeWorkgroupSize,
) -> (checked: Result<(), String>)
    ensures
        checked is Ok <==> (template.cfa_kind == cfa_kind && template.quality == quality
            && template.workgroup_size == workgroup_size && template.pass_count == 1
            + demosaic_pass_count(cfa_kind) + COLOR_DENOISE_SCALES + 4 + 13),
        checked matches Err(message) ==> message@ == "cannot reuse GPU programs from an incompatible pipeline"@,
{
    if template.cfa_kind != cfa_kind || template.quality != quality || template.workgroup_size
        != workgroup_size || template.pass_count != expected_pass_count(cfa_kind) {
        return Err(String::from_str("cannot reuse GPU programs from an incompatible pipeline"));
    }
    Ok(())
}

/// The extent of the reduced tone-analysis surfaces: each side divided by
/// `scale`, rounded up.
pub fn tone_extent(width: u32, height: u32, scale: u32) -> (extent: (u32, u32))
    requires
        scale > 0,
    ensures
        extent.0 == (width + scale - 1) / scale as int,
        extent.1 == (height + scale - 1) / scale as int,
{
    proof {
        lemma_groups_covering(width as nat, scale as nat);
        lemma_groups_covering(height as nat, scale as nat);
    }
    let w = width / scale + if width % scale == 0 { 0 } else { 1 };
    let h = height / scale + if height % scale == 0 { 0 } else { 1 };
    (w, h)
}

pub open spec fn clamp_nat(v: int, lo: int, hi: int) -> int {
    if v < lo {
        lo
    } else if v > hi {
        hi
    } else {
        v
    }
}

/// The local-mask atlas of a new pipeline. An explicit edge (detail and
/// export pipelines) is honoured, otherwise the interactive edge for the
/// image; either is kept between 64 and `edge_limit`. Pipelines with an
/// explicit edge allocate only the layers they sample (`requested_layers`,
/// at least one); the interactive pipeline reserves every layer.
pub fn plan_mask_atlas(
    explicit_edge: Option<u32>,
    interactive_edge: u32,
    edge_limit: u32,
    requested_layers: u32,
    max_layers: usize,
) -> (atlas: MaskAtlas)
    requires
        64 <= edge_limit,
        1 <= max_layers,
    ensures
        atlas.edge == clamp_nat(
            match explicit_edge {
                Some(edge) => edge as int,
                None => interactive_edge as int,
            },
            64,
            edge_limit as int,
        ),
        atlas.capacity == match explicit_edge {
            Some(_) => clamp_nat(requested_layers as int, 1, max_layers as int),
            None => max_layers as int,
        },
{
    let edge = match explicit_edge {
        Some(edge) => edge,
        None => interactive_edge,
    };
    let edge = if edge < 64 {
        64
    } else if edge > edge_limit {
        edge_limit
    } else {
        edge
    };
    let capacity = match explicit_edge {
        Some(_) => {
            let requested = requested_layers as u64;
            if requested < 1 {
                1
            } else if requested > max_layers as u64 {
                max_layers
            } else {
                requested_layers as usize
            }
        },
        None => max_layers,
    };
    MaskAtlas { edge, capacity }
}

/// The rectangle `[x0, y0, x1, y1]` the tone histogram reads: from the
/// origin to the far corner, which is clipped to the image.
pub fn tone_histogram_bounds(x: u32, y: u32, width: u32, height: u32, image_width: u32, image_height: u32) -> (bounds: [u32; 4])
    ensures
        bounds[0] == x,
        bounds[1] == y,
        bounds[2] == (if x + width < image_width { x + width } else { image_width as int }),
        bounds[3] == (if y + height < image_height { y + height } else { image_height as int }),
{
    let right = x.saturating_add(width);
    let bottom = y.saturating_add(height);
    [x, y, if right < image_width { right } else { image_width }, if bottom < image_height {
        bottom
    } else {
        image_height
    }]
}

/// Bytes of the camera-profile buffer for `words` four-float words.
pub fn profile_buffer_bytes(words: usize) -> (bytes: Result<u64, String>)
    ensures
        match bytes {
            Ok(n) => n == words * 16,
            Err(message) => words * 16 > usize::MAX && message@ == "GPU profile buffer size overflows"@,
        },
{
    if words > usize::MAX / 16 {
        return Err(String::from_str("GPU profile buffer size overflows"));
    }
    Ok((words * 16) as u64)
}

/// Checks a write of an output LUT of edge `lut_edge` and `lut_bytes` bytes
/// at `offset` into a profile buffer of `buffer_bytes` bytes laid out for
/// LUTs of edge `layout_edge`: the edges must agree, and the write must end
/// within the buffer (without overflowing).
pub fn check_output_lut_write(
    lut_edge: u32,
    layout_edge: u32,
    offset: u64,
    lut_bytes: u64,
    buffer_bytes: u64,
) -> (checked: Result<(), String>)
    ensures
        checked is Ok <==> (lut_edge == layout_edge && offset + lut_bytes <= buffer_bytes),
        checked matches Err(message) ==> message@ == (if lut_edge != layout_edge {
            "output ICC LUT edge does not match the GPU profile layout"@
        } else if offset + lut_bytes > u64::MAX {
            "output ICC LUT buffer range overflows"@
        } else {
            "output ICC LUT would write past the validated GPU profile buffer"@
        }),
{
    if lut_edge != layout_edge {
        return Err(String::from_str("output ICC LUT edge does not match the GPU profile layout"));
    }
    let end = match offset.checked_add(lut_bytes) {
        Some(end) => end,
        None => return Err(String::from_str("output ICC LUT buffer range overflows")),
    };
    if end > buffer_bytes {
        return Err(
            String::from_str("output ICC LUT would write past the validated GPU profile buffer"),
        );
    }
    Ok(())
}

/// Side of the synthetic RAW that program prewarming renders.
pub const PREWARM_EDGE: u32 = 16;

/// The colour of each site of one period of a sensor layout, row by row
/// (0 red, 1 green, 2 blue).
pub open spec fn spec_prewarm_pattern(cfa_kind: CfaKind) -> Seq<u8> {
    match cfa_kind {
        CfaKind::Bayer => seq![0u8, 1, 1, 2],
        CfaKind::XTrans => seq![
            0u8, 1, 0, 0, 1, 0,
            1, 2, 1, 2, 1, 2,
            0, 1, 0, 0, 1, 0,
            0, 1, 0, 0, 1, 0,
            1, 2, 1, 2, 1, 2,
            0, 1, 0, 0, 1, 0,
        ],
    }
}

/// Width and height of one period of a sensor layout.
pub open spec fn spec_prewarm_period(cfa_kind: CfaKind) -> (u32, u32) {
    match cfa_kind {
        CfaKind::Bayer => (2, 2),
        CfaKind::XTrans => (6, 6),
    }
}

/// The synthetic sensor layout that program prewarming renders.
pub struct PrewarmCfaLayout {
    pub period_width: u32,
    pub period_height: u32,
    pub pattern: Vec<u8>,
}

/// The repeating colour pattern of the synthetic RAW for `cfa_kind`.
pub fn prewarm_cfa_layout(cfa_kind: CfaKind) -> (layout: PrewarmCfaLayout)
    ensures
        (layout.period_width, layout.period_height) == spec_prewarm_period(cfa_kind),
        layout.pattern@ == spec_prewarm_pattern(cfa_kind),
{
    match cfa_kind {
        CfaKind::Bayer => {
            let pattern: Vec<u8> = vec![0u8, 1, 1, 2];
            proof {
                assert(pattern@ =~= spec_prewarm_pattern(cfa_kind));
            }
            PrewarmCfaLayout { period_width: 2, period_height: 2, pattern }
        },
        CfaKind::XTrans => {
            let pattern: Vec<u8> = vec![
                0u8, 1, 0, 0, 1, 0,
                1, 2, 1, 2, 1, 2,
                0, 1, 0, 0, 1, 0,
                0, 1, 0, 0, 1, 0,
                1, 2, 1, 2, 1, 2,
                0, 1, 0, 0, 1, 0,
            ];
            proof {
                assert(pattern@ =~= spec_prewarm_pattern(cfa_kind));
            }
            PrewarmCfaLayout { period_width: 6, period_height: 6, pattern }
        },
    }
}

/// A prewarm layout is well formed: one colour per site of the period, each
/// of the three colours, every colour present.
pub proof fn lemma_prewarm_layout_is_well_formed(cfa_kind: CfaKind)
    ensures
        spec_prewarm_pattern(cfa_kind).len() == spec_prewarm_period(cfa_kind).0
            * spec_prewarm_period(cfa_kind).1,
        forall|i: int|
            0 <= i < spec_prewarm_pattern(cfa_kind).len() ==> #[trigger] spec_prewarm_pattern(
                cfa_kind,
            )[i] < 3,
        forall|color: u8|
            color < 3 ==> #[trigger] spec_prewarm_pattern(cfa_kind).contains(color),
{
    let p = spec_prewarm_pattern(cfa_kind);
    assert(p[0] == 0u8 && p[1] == 1u8);
    match cfa_kind {
        CfaKind::Bayer => {
            assert(p.len() == 4);
            let (w, h) = spec_prewarm_period(cfa_kind);
            assert(w * h == 4) by (nonlinear_arith)
                requires
                    w == 2,
                    h == 2,
            ;
            assert(p[3] == 2u8);
        },
        CfaKind::XTrans => {
            assert(p.len() == 36);
            let (w, h) = spec_prewarm_period(cfa_kind);
            assert(w * h == 36) by (nonlinear_arith)
                requires
                    w == 6,
                    h == 6,
            ;
            assert(p[7] == 2u8);
        },
    }
    assert forall|i: int| 0 <= i < p.len() implies #[trigger] p[i] < 3 by {
        match cfa_kind {
            CfaKind::Bayer => assert(0 <= i < 4),
            CfaKind::XTrans => assert(0 <= i < 36),
        }
    }
    assert forall|color: u8| color < 3 implies #[trigger] p.contains(color) by {
        if color == 0 {
            assert(p[0] == color);
        } else if color == 1 {
            assert(p[1] == color);
        } else {
            match cfa_kind {
                CfaKind::Bayer => assert(p[3] == color),
                CfaKind::XTrans => assert(p[7] == color),
            }
        }
    }
}

/// The local-mask atlas edge for a prewarmed program template: the export
/// template keeps its atlas small, as its textures are never rendered.
pub fn prewarm_mask_atlas_edge_override(quality: ProcessingQuality) -> (edge: Option<u32>)
    ensures
        edge == (match quality {
            ProcessingQuality::High => Some(64u32),
            ProcessingQuality::Preview => None,
        }),
{
    match quality {
        ProcessingQuality::High => Some(64),
        ProcessingQuality::Preview => None,
    }
}

/// The slot's contents after publishing `result`: the first outcome stays.
pub open spec fn after_publish<T>(
    current: Option<Result<T, String>>,
    result: Result<T, String>,
) -> Option<Result<T, String>> {
    if current is None {
        Some(result)
    } else {
        current
    }
}

/// The outcome of compiling programs ahead of time, handed over once: the
/// first outcome published stays, and waiters read it.
pub struct PrewarmSlot<T> {
    pub result: Option<Result<T, String>>,
}

impl<T> PrewarmSlot<T> {
    /// Nothing published yet.
    pub fn new() -> (slot: Self)
        ensures
            slot.result is None,
    {
        PrewarmSlot { result: None }
    }

    /// Publishes `result` unless an outcome is already there. Returns
    /// whether it was stored, in which case the waiters are woken.
    pub fn publish(&mut self, result: Result<T, String>) -> (stored: bool)
        ensures
            stored == old(self).result is None,
            final(self).result == after_publish(old(self).result, result),
    {
        if self.result.is_none() {
            self.result = Some(result);
            true
        } else {
            false
        }
    }

    /// The published outcome, if any; a waiter keeps waiting while there is
    /// none.
    pub fn ready(&self) -> (ready: Option<&Result<T, String>>)
        ensures
            match (ready, self.result) {
                (Some(r), Some(s)) => *r == s,
                (None, None) => true,
                _ => false,
            },
    {
        self.result.as_ref()
    }
}

/// The first outcome published is the one every waiter reads: once a
/// publication is stored, later ones change nothing.
pub proof fn lemma_first_prewarm_outcome_wins<T>(
    current: Option<Result<T, String>>,
    first: Result<T, String>,
    second: Result<T, String>,
)
    ensures
        after_publish(after_publish(current, first), second) == after_publish(current, first),
        after_publish(after_publish(None, first), second) == Some(first),
{
}

/// Why compiling programs ahead of time failed.
pub enum PrewarmFailure {
    /// The GUI does not run on the GPU backend.
    NoGpuBackend,
    /// The preview programs failed to compile, with this error.
    Preview(String),
    /// The export programs failed to compile, with this error.
    Export(String),
    /// The prewarm thread could not start, with this error.
    ThreadStart(String),
}

/// The error that a prewarm failure is published as.
pub open spec fn spec_prewarm_error(failure: PrewarmFailure) -> Seq<char> {
    match failure {
        PrewarmFailure::NoGpuBackend => "eframe is not running with the wgpu backend"@,
        PrewarmFailure::Preview(error) => "GPU preview prewarm failed: "@ + error@,
        PrewarmFailure::Export(error) => "GPU export program prewarm failed: "@ + error@,
        PrewarmFailure::ThreadStart(error) => "GPU prewarm thread could not start: "@ + error@,
    }
}

/// The error that a prewarm failure is published as.
pub fn prewarm_error(failure: PrewarmFailure) -> (message: String)
    ensures
        message@ == spec_prewarm_error(failure),
{
    match failure {
        PrewarmFailure::NoGpuBackend => String::from_str("eframe is not running with the wgpu backend"),
        PrewarmFailure::Preview(error) => {
            let mut message = String::from_str("GPU preview prewarm failed: ");
            message.append(error.as_str());
            message
        },
        PrewarmFailure::Export(error) => {
            let mut message = String::from_str("GPU export program prewarm failed: ");
            message.append(error.as_str());
            message
        },
        PrewarmFailure::ThreadStart(error) => {
            let mut message = String::from_str("GPU prewarm thread could not start: ");
            message.append(error.as_str());
            message
        },
    }
}

} // verus!
