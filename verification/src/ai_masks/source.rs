//! Resolution of the canonical source image that AI masks are computed from,
//! and the checks made before it is rendered.
use vstd::prelude::*;
use crate::text::{occurs_in, str_contains};

verus! {

/// Longest edge of the canonical mask source.
pub const AI_MASK_SOURCE_MAX_EDGE: u32 = 4096;

/// Most pixels the canonical mask source may hold.
pub const AI_MASK_SOURCE_MAX_PIXELS: u64 = 12_000_000;

/// An image with longest edge `edge` and the given aspect ratio stays within
/// the pixel budget: `edge^2 * shortest <= MAX_PIXELS * longest`.
pub open spec fn within_pixel_budget(edge: nat, longest: nat, shortest: nat) -> bool {
    edge * edge * shortest <= AI_MASK_SOURCE_MAX_PIXELS * longest
}

/// Largest `n <= k` within the pixel budget.
pub open spec fn largest_within_budget(k: nat, longest: nat, shortest: nat) -> nat
    decreases k,
{
    if k == 0 {
        0
    } else if within_pixel_budget(k, longest, shortest) {
        k
    } else {
        largest_within_budget((k - 1) as nat, longest, shortest)
    }
}

/// The proxy edge of the canonical source for a `width` x `height` RAW: no
/// larger than the RAW, at most 4096 pixels long, and no larger than the
/// longest edge whose image (with the RAW's aspect ratio) fits in twelve
/// million pixels; never below one.
pub open spec fn spec_ai_mask_source_proxy_edge(width: u32, height: u32) -> nat {
    let longest = if width >= height { width } else { height };
    let longest = if longest >= 1 { longest as nat } else { 1 };
    let shortest = if width <= height { width } else { height };
    let shortest = if shortest >= 1 { shortest as nat } else { 1 };
    let budget = largest_within_budget(AI_MASK_SOURCE_MAX_EDGE as nat, longest, shortest);
    let budget = if budget >= 1 { budget } else { 1 };
    if longest <= budget { longest } else { budget }
}

pub fn ai_mask_source_proxy_edge(width: u32, height: u32) -> (edge: u32)
    ensures
        edge == spec_ai_mask_source_proxy_edge(width, height),
{
    let longest = if width >= height { width } else { height };
    let longest = if longest >= 1 { longest } else { 1 };
    let shortest = if width <= height { width } else { height };
    let shortest = if shortest >= 1 { shortest } else { 1 };
    let ghost l = longest as nat;
    let ghost s = shortest as nat;
    let budget_pixels = (AI_MASK_SOURCE_MAX_PIXELS as u128) * (longest as u128);
    let mut k: u32 = AI_MASK_SOURCE_MAX_EDGE;
    loop
        invariant
            k <= AI_MASK_SOURCE_MAX_EDGE,
            budget_pixels == AI_MASK_SOURCE_MAX_PIXELS * l,
            l == longest,
            s == shortest,
            1 <= shortest <= u32::MAX,
            largest_within_budget(k as nat, l, s) == largest_within_budget(
                AI_MASK_SOURCE_MAX_EDGE as nat,
                l,
                s,
            ),
        ensures
            largest_within_budget(k as nat, l, s) == k,
            largest_within_budget(k as nat, l, s) == largest_within_budget(
                AI_MASK_SOURCE_MAX_EDGE as nat,
                l,
                s,
            ),
        decreases k,
    {
        if k == 0 {
            break;
        }
        assert((k as u128) * (k as u128) <= 4096u128 * 4096u128) by (nonlinear_arith)
            requires
                k <= 4096,
        ;
        let square = (k as u128) * (k as u128);
        assert(square * (shortest as u128) <= 4096u128 * 4096u128 * 4294967295u128) by (nonlinear_arith)
            requires
                square <= 4096u128 * 4096u128,
                shortest <= 4294967295u32,
        ;
        if square * (shortest as u128) <= budget_pixels {
            break;
        }
        k = k - 1;
    }
    let budget = if k >= 1 { k } else { 1 };
    if longest <= budget { longest } else { budget }
}

/// The proxy the canonical source is built from for a `width` x `height`
/// RAW: `None` when the RAW itself fits (its longest edge is within the
/// proxy edge), else the proxy's longest edge.
pub fn mask_source_proxy(width: u32, height: u32) -> (proxy: Option<u32>)
    ensures
        ({
            let longest = if width >= height { width } else { height };
            match proxy {
                None => longest <= spec_ai_mask_source_proxy_edge(width, height),
                Some(edge) => longest > spec_ai_mask_source_proxy_edge(width, height) && edge
                    == spec_ai_mask_source_proxy_edge(width, height),
            }
        }),
{
    let edge = ai_mask_source_proxy_edge(width, height);
    let longest = if width >= height { width } else { height };
    if longest <= edge {
        None
    } else {
        Some(edge)
    }
}

/// What must exist before the canonical source is rendered from the
/// original RAW: the GPU, compiled preview programs, and the RAW. The
/// first one missing is reported.
pub open spec fn spec_source_prerequisites(
    gpu_available: bool,
    programs_available: bool,
    raw_available: bool,
) -> Result<(), Seq<char>> {
    if !gpu_available {
        Err("The GPU preview is not available."@)
    } else if !programs_available {
        Err("Open an image before creating this mask."@)
    } else if !raw_available {
        Err("The original RAW is not available."@)
    } else {
        Ok(())
    }
}

/// What must exist before the canonical source is read back from the
/// active preview: the GPU, the preview image, and its pipeline.
pub open spec fn spec_preview_source_prerequisites(
    gpu_available: bool,
    preview_available: bool,
    pipeline_available: bool,
) -> Result<(), Seq<char>> {
    if !gpu_available {
        Err("The GPU preview is not available."@)
    } else if !preview_available {
        Err("The preview image is not available yet."@)
    } else if !pipeline_available {
        Err("Open an image before creating this mask."@)
    } else {
        Ok(())
    }
}

/// The view of a check's outcome, its error taken as text.
pub open spec fn check_view(checked: Result<(), String>) -> Result<(), Seq<char>> {
    match checked {
        Ok(()) => Ok(()),
        Err(message) => Err(message@),
    }
}

/// Checks what rendering the canonical source from the original RAW needs.
pub fn source_prerequisites(
    gpu_available: bool,
    programs_available: bool,
    raw_available: bool,
) -> (checked: Result<(), String>)
    ensures
        check_view(checked) == spec_source_prerequisites(
            gpu_available,
            programs_available,
            raw_available,
        ),
{
    if !gpu_available {
        Err(String::from_str("The GPU preview is not available."))
    } else if !programs_available {
        Err(String::from_str("Open an image before creating this mask."))
    } else if !raw_available {
        Err(String::from_str("The original RAW is not available."))
    } else {
        Ok(())
    }
}

/// Checks what reading the canonical source back from the preview needs.
pub fn preview_source_prerequisites(
    gpu_available: bool,
    preview_available: bool,
    pipeline_available: bool,
) -> (checked: Result<(), String>)
    ensures
        check_view(checked) == spec_preview_source_prerequisites(
            gpu_available,
            preview_available,
            pipeline_available,
        ),
{
    if !gpu_available {
        Err(String::from_str("The GPU preview is not available."))
    } else if !preview_available {
        Err(String::from_str("The preview image is not available yet."))
    } else if !pipeline_available {
        Err(String::from_str("Open an image before creating this mask."))
    } else {
        Ok(())
    }
}

/// Text of the GPU budget error that a second pipeline meets while the
/// preview's pipeline holds its memory.
pub open spec fn budget_exceeded_marker() -> Seq<char> {
    "GPU pipelines already reserve"@
}

/// How a failure to build the dedicated source pipeline is handled.
#[derive(Debug, PartialEq, Eq)]
pub enum SourcePipelineFailure {
    /// Over the GPU budget: read the source back from the active preview.
    UseActivePreview,
    /// Any other failure ends the capture with this error.
    Fail(String),
}

/// Routes a failure, whose text is `error`, to build the dedicated source
/// pipeline.
pub fn source_pipeline_failure(error: &str) -> (routed: SourcePipelineFailure)
    ensures
        occurs_in(error@, budget_exceeded_marker()) ==> routed == SourcePipelineFailure::UseActivePreview,
        !occurs_in(error@, budget_exceeded_marker()) ==> (routed matches SourcePipelineFailure::Fail(
            message,
        ) && message@ == "Could not prepare the original RAW for masking: "@ + error@),
{
    if str_contains(error, "GPU pipelines already reserve") {
        SourcePipelineFailure::UseActivePreview
    } else {
        let mut message = String::from_str("Could not prepare the original RAW for masking: ");
        message.append(error);
        SourcePipelineFailure::Fail(message)
    }
}

/// The error when the source's pixels cannot be read back, for `error`.
pub fn source_readback_error(error: &str) -> (message: String)
    ensures
        message@ == "Could not read the original RAW for masking: "@ + error@,
{
    let mut message = String::from_str("Could not read the original RAW for masking: ");
    message.append(error);
    message
}

} // verus!
