//! Static facts about the GPU render program: sensor layouts, processing
//! quality, the logical render graph and the compute pass count.
use vstd::prelude::*;
use vstd::string::*;
use crate::text::join;

verus! {

/// Colour-filter-array layout of a RAW sensor.
#[derive(Clone, Copy, Debug, PartialEq, Eq, Structural)]
pub enum CfaKind {
    Bayer,
    XTrans,
}

/// Precision of the GPU image intermediates.
#[derive(Clone, Copy, Debug, PartialEq, Eq, Structural)]
pub enum ProcessingQuality {
    /// Half-float image intermediates for lower memory use and faster previews.
    Preview,
    /// Full-float demosaic, scene, and highlight-reconstruction intermediates.
    High,
}

impl Default for ProcessingQuality {
    fn default() -> (quality: Self)
        ensures
            quality == ProcessingQuality::High,
    {
        ProcessingQuality::High
    }
}

/// Logical domains carried by the post-demosaic graph. Several adjacent
/// nodes may execute in one GPU pass, but a scene-domain edit never consumes
/// display-referred pixels.
#[derive(Clone, Copy, Debug, PartialEq, Eq, Structural)]
pub enum RenderDomain {
    CameraLinear,
    SceneLinear,
    LookAdjustedScene,
    DisplayLinear,
    OutputEncoded,
}

/// The nodes of the explicit render graph.
#[derive(Clone, Copy, Debug, PartialEq, Eq, Structural)]
pub enum RenderStage {
    CameraCharacterization,
    SceneEdits,
    OptionalLook,
    ViewTransform,
    DisplayBlackToe,
    OutputEncoding,
}

impl RenderStage {
    pub open spec fn spec_name(self) -> Seq<char> {
        match self {
            RenderStage::CameraCharacterization => "camera_characterization"@,
            RenderStage::SceneEdits => "scene_edits"@,
            RenderStage::OptionalLook => "optional_look"@,
            RenderStage::ViewTransform => "view_transform"@,
            RenderStage::DisplayBlackToe => "display_black_toe"@,
            RenderStage::OutputEncoding => "output_encoding"@,
        }
    }

    /// The stage's name in diagnostics.
    pub fn name(self) -> (name: &'static str)
        ensures
            name@ == self.spec_name(),
    {
        match self {
            RenderStage::CameraCharacterization => "camera_characterization",
            RenderStage::SceneEdits => "scene_edits",
            RenderStage::OptionalLook => "optional_look",
            RenderStage::ViewTransform => "view_transform",
            RenderStage::DisplayBlackToe => "display_black_toe",
            RenderStage::OutputEncoding => "output_encoding",
        }
    }
}

/// The domain a stage reads and the domain it produces.
#[derive(Clone, Copy, Debug, PartialEq, Eq, Structural)]
pub struct RenderStageContract {
    pub stage: RenderStage,
    pub input: RenderDomain,
    pub output: RenderDomain,
}

pub open spec fn stage_contract(stage: RenderStage, input: RenderDomain, output: RenderDomain) -> RenderStageContract {
    RenderStageContract { stage, input, output }
}

/// The explicit render graph, in execution order.
pub open spec fn spec_explicit_render_graph() -> Seq<RenderStageContract> {
    seq![
        stage_contract(RenderStage::CameraCharacterization, RenderDomain::CameraLinear, RenderDomain::SceneLinear),
        stage_contract(RenderStage::SceneEdits, RenderDomain::SceneLinear, RenderDomain::SceneLinear),
        stage_contract(RenderStage::OptionalLook, RenderDomain::SceneLinear, RenderDomain::LookAdjustedScene),
        stage_contract(RenderStage::ViewTransform, RenderDomain::LookAdjustedScene, RenderDomain::DisplayLinear),
        stage_contract(RenderStage::DisplayBlackToe, RenderDomain::DisplayLinear, RenderDomain::DisplayLinear),
        stage_contract(RenderStage::OutputEncoding, RenderDomain::DisplayLinear, RenderDomain::OutputEncoded),
    ]
}

/// Every stage consumes the domain its predecessor produces.
pub open spec fn graph_is_contiguous(graph: Seq<RenderStageContract>) -> bool {
    forall|i: int| 0 <= i < graph.len() - 1 ==> #[trigger] graph[i].output == graph[i + 1].input
}

/// The explicit render graph, in execution order.
pub fn explicit_render_graph() -> (graph: Vec<RenderStageContract>)
    ensures
        graph@ == spec_explicit_render_graph(),
{
    let graph = vec![
        RenderStageContract { stage: RenderStage::CameraCharacterization, input: RenderDomain::CameraLinear, output: RenderDomain::SceneLinear },
        RenderStageContract { stage: RenderStage::SceneEdits, input: RenderDomain::SceneLinear, output: RenderDomain::SceneLinear },
        RenderStageContract { stage: RenderStage::OptionalLook, input: RenderDomain::SceneLinear, output: RenderDomain::LookAdjustedScene },
        RenderStageContract { stage: RenderStage::ViewTransform, input: RenderDomain::LookAdjustedScene, output: RenderDomain::DisplayLinear },
        RenderStageContract { stage: RenderStage::DisplayBlackToe, input: RenderDomain::DisplayLinear, output: RenderDomain::DisplayLinear },
        RenderStageContract { stage: RenderStage::OutputEncoding, input: RenderDomain::DisplayLinear, output: RenderDomain::OutputEncoded },
    ];
    assert(graph@ =~= spec_explicit_render_graph());
    graph
}

/// Checks the render graph: stages chain domain to domain, camera
/// characterization comes first, and the view transform is the fourth stage.
pub fn explicit_render_graph_contracts_are_contiguous() -> (valid: bool)
    ensures
        valid == (graph_is_contiguous(spec_explicit_render_graph())
            && spec_explicit_render_graph()[0].stage == RenderStage::CameraCharacterization
            && spec_explicit_render_graph()[3].stage == RenderStage::ViewTransform),
{
    let graph = explicit_render_graph();
    let mut contiguous = true;
    let mut i: usize = 0;
    while i + 1 < graph.len()
        invariant
            graph@ == spec_explicit_render_graph(),
            i < graph.len(),
            contiguous == (forall|j: int| 0 <= j < i ==> #[trigger] graph@[j].output == graph@[j + 1].input),
        decreases graph.len() - i,
    {
        if graph[i].output != graph[i + 1].input {
            contiguous = false;
        }
        i += 1;
    }
    contiguous && graph[0].stage == RenderStage::CameraCharacterization && graph[3].stage
        == RenderStage::ViewTransform
}

/// The explicit render graph is contiguous, starts with camera
/// characterization and has the view transform as its fourth stage.
pub proof fn lemma_explicit_render_graph_is_contiguous()
    ensures
        graph_is_contiguous(spec_explicit_render_graph()),
        spec_explicit_render_graph()[0].stage == RenderStage::CameraCharacterization,
        spec_explicit_render_graph()[3].stage == RenderStage::ViewTransform,
{
    let g = spec_explicit_render_graph();
    assert forall|i: int| 0 <= i < g.len() - 1 implies #[trigger] g[i].output == g[i + 1].input by {
        if i == 0 {} else if i == 1 {} else if i == 2 {} else if i == 3 {} else {}
    }
}

/// Number of colour-denoise scales scheduled per frame.
pub const COLOR_DENOISE_SCALES: usize = 6;

/// Number of demosaic passes for a sensor layout.
pub open spec fn demosaic_pass_count(cfa_kind: CfaKind) -> nat {
    match cfa_kind {
        CfaKind::Bayer => 6,
        CfaKind::XTrans => 10,
    }
}

/// Compute passes in a complete program: one highlight reconstruction pass,
/// demosaic, six colour-denoise scales, four tone-analysis passes, and
/// thirteen adjustment and output passes.
pub fn expected_pass_count(cfa_kind: CfaKind) -> (count: usize)
    ensures
        count == 1 + demosaic_pass_count(cfa_kind) + COLOR_DENOISE_SCALES + 4 + 13,
{
    let demosaic_passes: usize = match cfa_kind {
        CfaKind::Bayer => 6,
        CfaKind::XTrans => 10,
    };
    1 + demosaic_passes + COLOR_DENOISE_SCALES + 4 + 13
}

/// The sensor layout whose preview program is compiled ahead of time.
pub fn gpu_preview_prewarm_cfa_kind() -> (kind: CfaKind)
    ensures
        kind == CfaKind::Bayer,
{
    CfaKind::Bayer
}

/// Concatenation of shader sources, each followed by a line break except the last.
pub open spec fn join_lines(parts: Seq<Seq<char>>) -> Seq<char> {
    join(parts, "\n"@)
}

/// The composed creative-effects stage: the stage's own source followed by
/// the effect implementations, one per line-separated block, in the order
/// given (shared helpers, lens blur, motion blur, radial blur, tilt-shift,
/// blur, edge glow, glow, neon, pixelate, light rays).
pub fn creative_effects_source(parts: &[&str]) -> (source: String)
    ensures
        source@ == join_lines(parts@.map_values(|part: &str| part@)),
{
    let ghost views = parts@.map_values(|part: &str| part@);
    let mut source = String::new();
    let mut i: usize = 0;
    while i < parts.len()
        invariant
            i <= parts.len(),
            views == parts@.map_values(|part: &str| part@),
            source@ == join_lines(views.subrange(0, i as int)),
        decreases parts.len() - i,
    {
        if i > 0 {
            source.append("\n");
        }
        source.append(parts[i]);
        proof {
            let next = views.subrange(0, i + 1);
            assert(next.drop_last() =~= views.subrange(0, i as int));
            if i == 0 {
                assert(views.subrange(0, 0) =~= Seq::<Seq<char>>::empty());
            }
        }
        i += 1;
    }
    assert(views.subrange(0, parts.len() as int) =~= views);
    source
}

} // verus!
