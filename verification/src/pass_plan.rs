//! Where each compute pass sits in a compiled RAW program, and which passes
//! each kind of dispatch runs, in order.
use vstd::prelude::*;
use crate::render_graph::{demosaic_pass_count, CfaKind, COLOR_DENOISE_SCALES};

verus! {

/// The positions of the passes of a compiled program. Position 0 is the
/// highlight reconstruction; each `_start`/`_end` pair bounds a run of
/// passes (end excluded); `pass_count` is the number of passes.
#[derive(Clone, Copy, Debug, PartialEq, Eq, Structural)]
pub struct PassLayout {
    pub demosaic_start: usize,
    pub dual_start: usize,
    pub dual_end: usize,
    pub demosaic_finish: usize,
    pub color_denoise_start: usize,
    pub color_denoise_end: usize,
    pub tone_prepare: usize,
    pub tone_reduce: usize,
    pub tone_stage_end: usize,
    pub adjustment_prepare: usize,
    pub adjustment_tone: usize,
    pub adjustment_effects: usize,
    pub glow_prepare: usize,
    pub glow_blur_start: usize,
    pub glow_blur_end: usize,
    pub adjustment_creative: usize,
    pub adjustment_render: usize,
    pub pass_count: usize,
}

/// Passes of the first demosaic run: the directional, green and chroma
/// passes of RCD for Bayer sensors, seven Markesteijn passes for X-Trans.
pub open spec fn first_demosaic_run(cfa_kind: CfaKind) -> nat {
    match cfa_kind {
        CfaKind::Bayer => 3,
        CfaKind::XTrans => 7,
    }
}

/// The layout of the program compiled for `cfa_kind`.
pub open spec fn spec_pass_layout(cfa_kind: CfaKind) -> PassLayout {
    let demosaic_start = 1nat;
    let dual_start = demosaic_start + first_demosaic_run(cfa_kind);
    let dual_end = dual_start + 2;
    let demosaic_finish = dual_end;
    let color_denoise_start = demosaic_finish + 1;
    let color_denoise_end = color_denoise_start + COLOR_DENOISE_SCALES;
    let tone_prepare = color_denoise_end;
    let tone_stage_end = tone_prepare + 4;
    let adjustment_prepare = tone_stage_end;
    let glow_blur_start = adjustment_prepare + 6;
    let glow_blur_end = glow_blur_start + 5;
    PassLayout {
        demosaic_start: demosaic_start as usize,
        dual_start: dual_start as usize,
        dual_end: dual_end as usize,
        demosaic_finish: demosaic_finish as usize,
        color_denoise_start: color_denoise_start as usize,
        color_denoise_end: color_denoise_end as usize,
        tone_prepare: tone_prepare as usize,
        tone_reduce: (tone_prepare + 3) as usize,
        tone_stage_end: tone_stage_end as usize,
        adjustment_prepare: adjustment_prepare as usize,
        adjustment_tone: (adjustment_prepare + 1) as usize,
        adjustment_effects: (adjustment_prepare + 3) as usize,
        glow_prepare: (adjustment_prepare + 5) as usize,
        glow_blur_start: glow_blur_start as usize,
        glow_blur_end: glow_blur_end as usize,
        adjustment_creative: glow_blur_end as usize,
        adjustment_render: (glow_blur_end + 1) as usize,
        pass_count: (glow_blur_end + 2) as usize,
    }
}

/// The layout of the program compiled for `cfa_kind`. Its passes are as
/// many as `expected_pass_count` gives.
pub fn pass_layout(cfa_kind: CfaKind) -> (layout: PassLayout)
    ensures
        layout == spec_pass_layout(cfa_kind),
        layout.pass_count == 1 + demosaic_pass_count(cfa_kind) + COLOR_DENOISE_SCALES + 4 + 13,
{
    let first_run: usize = match cfa_kind {
        CfaKind::Bayer => 3,
        CfaKind::XTrans => 7,
    };
    let demosaic_start: usize = 1;
    let dual_start = demosaic_start + first_run;
    let dual_end = dual_start + 2;
    let demosaic_finish = dual_end;
    let color_denoise_start = demosaic_finish + 1;
    let color_denoise_end = color_denoise_start + COLOR_DENOISE_SCALES;
    let tone_prepare = color_denoise_end;
    let tone_stage_end = tone_prepare + 4;
    let adjustment_prepare = tone_stage_end;
    let glow_blur_start = adjustment_prepare + 6;
    let glow_blur_end = glow_blur_start + 5;
    PassLayout {
        demosaic_start,
        dual_start,
        dual_end,
        demosaic_finish,
        color_denoise_start,
        color_denoise_end,
        tone_prepare,
        tone_reduce: tone_prepare + 3,
        tone_stage_end,
        adjustment_prepare,
        adjustment_tone: adjustment_prepare + 1,
        adjustment_effects: adjustment_prepare + 3,
        glow_prepare: adjustment_prepare + 5,
        glow_blur_start,
        glow_blur_end,
        adjustment_creative: glow_blur_end,
        adjustment_render: glow_blur_end + 1,
        pass_count: glow_blur_end + 2,
    }
}

/// The positions from `start` up to `end` (excluded), in order.
pub open spec fn index_range(start: int, end: int) -> Seq<usize> {
    Seq::new((end - start) as nat, |i: int| (start + i) as usize)
}

/// Which of the optional passes a dispatch runs. The flags come from the
/// edit: the denoised scene replaces reconstruction and demosaic
/// (`ai_scene`), dual demosaic is selected, chroma denoise is on, an
/// intermediate adjustment (presence, colour, creative or local effect) is
/// active, and glow is active.
#[derive(Clone, Copy, Debug, PartialEq, Eq, Structural)]
pub struct PassOptions {
    pub ai_scene: bool,
    pub dual_demosaic: bool,
    pub color_denoise: bool,
    pub intermediate_adjustments: bool,
    pub glow: bool,
}

/// What is dispatched.
#[derive(Clone, Copy, Debug, PartialEq, Eq, Structural)]
pub enum Dispatch {
    /// Reconstruction, demosaic and chroma denoise.
    RawStage,
    /// Tone analysis: guide preparation, blurs and histogram reduction.
    ToneStage,
    /// Adjustments, effects and the view transform.
    OutputStage,
    /// The three stages in order.
    Complete,
    /// An export tile's contribution to the shared histogram.
    ExportToneTile,
    /// The reduction of the shared export histogram.
    ExportToneReduce,
    /// An export tile rendered with the shared statistics: its tone
    /// analysis skips the reduction.
    ExportTile,
}

/// The passes of the raw stage.
pub open spec fn raw_stage(layout: PassLayout, options: PassOptions) -> Seq<usize> {
    if options.ai_scene {
        Seq::empty()
    } else {
        seq![0usize] + index_range(layout.demosaic_start as int, layout.dual_start as int) + (
        if options.dual_demosaic {
            index_range(layout.dual_start as int, layout.dual_end as int)
        } else {
            Seq::empty()
        }) + seq![layout.demosaic_finish] + (if options.color_denoise {
            index_range(layout.color_denoise_start as int, layout.color_denoise_end as int)
        } else {
            Seq::empty()
        })
    }
}

/// The passes of the output stage.
pub open spec fn output_stage(layout: PassLayout, options: PassOptions) -> Seq<usize> {
    seq![layout.adjustment_prepare, layout.adjustment_tone] + (if options.intermediate_adjustments {
        seq![
            (layout.adjustment_effects - 1) as usize,
            layout.adjustment_effects,
            (layout.adjustment_effects + 1) as usize,
        ] + (if options.glow {
            seq![layout.glow_prepare] + index_range(
                layout.glow_blur_start as int,
                layout.glow_blur_end as int,
            )
        } else {
            Seq::empty()
        }) + seq![layout.adjustment_creative]
    } else {
        Seq::empty()
    }) + seq![layout.adjustment_render]
}

/// The passes that `dispatch` runs, in order.
pub open spec fn spec_dispatch_passes(
    layout: PassLayout,
    dispatch: Dispatch,
    options: PassOptions,
) -> Seq<usize> {
    match dispatch {
        Dispatch::RawStage => raw_stage(layout, options),
        Dispatch::ToneStage => index_range(layout.tone_prepare as int, layout.tone_stage_end as int),
        Dispatch::OutputStage => output_stage(layout, options),
        Dispatch::Complete => raw_stage(layout, options) + index_range(
            layout.tone_prepare as int,
            layout.tone_stage_end as int,
        ) + output_stage(layout, options),
        Dispatch::ExportToneTile => raw_stage(layout, options) + seq![layout.tone_prepare],
        Dispatch::ExportToneReduce => seq![layout.tone_reduce],
        Dispatch::ExportTile => raw_stage(layout, options) + index_range(
            layout.tone_prepare as int,
            layout.tone_reduce as int,
        ) + output_stage(layout, options),
    }
}

fn push_range(passes: &mut Vec<usize>, start: usize, end: usize)
    requires
        start <= end,
    ensures
        final(passes)@ == old(passes)@ + index_range(start as int, end as int),
{
    let ghost before = passes@;
    let mut index = start;
    while index < end
        invariant
            start <= index <= end,
            passes@ == before + index_range(start as int, index as int),
        decreases end - index,
    {
        passes.push(index);
        proof {
            assert(index_range(start as int, index + 1) =~= index_range(start as int, index as int).push(
                index,
            ));
            assert(before + index_range(start as int, index + 1) =~= (before + index_range(
                start as int,
                index as int,
            )).push(index));
        }
        index += 1;
    }
}

fn push_raw_stage(passes: &mut Vec<usize>, layout: PassLayout, options: PassOptions)
    requires
        layout == spec_pass_layout(CfaKind::Bayer) || layout == spec_pass_layout(CfaKind::XTrans),
    ensures
        final(passes)@ == old(passes)@ + raw_stage(layout, options),
{
    let ghost before = passes@;
    if options.ai_scene {
        assert(before + raw_stage(layout, options) =~= before);
        return;
    }
    passes.push(0);
    push_range(passes, layout.demosaic_start, layout.dual_start);
    if options.dual_demosaic {
        push_range(passes, layout.dual_start, layout.dual_end);
    }
    passes.push(layout.demosaic_finish);
    if options.color_denoise {
        push_range(passes, layout.color_denoise_start, layout.color_denoise_end);
    }
    assert(passes@ =~= before + raw_stage(layout, options));
}

fn push_output_stage(passes: &mut Vec<usize>, layout: PassLayout, options: PassOptions)
    requires
        layout == spec_pass_layout(CfaKind::Bayer) || layout == spec_pass_layout(CfaKind::XTrans),
    ensures
        final(passes)@ == old(passes)@ + output_stage(layout, options),
{
    let ghost before = passes@;
    passes.push(layout.adjustment_prepare);
    passes.push(layout.adjustment_tone);
    if options.intermediate_adjustments {
        passes.push(layout.adjustment_effects - 1);
        passes.push(layout.adjustment_effects);
        passes.push(layout.adjustment_effects + 1);
        if options.glow {
            passes.push(layout.glow_prepare);
            push_range(passes, layout.glow_blur_start, layout.glow_blur_end);
        }
        passes.push(layout.adjustment_creative);
    }
    passes.push(layout.adjustment_render);
    assert(passes@ =~= before + output_stage(layout, options));
}

/// The passes that `dispatch` runs on a program laid out as `layout`, in
/// the order they run.
pub fn dispatch_passes(layout: PassLayout, dispatch: Dispatch, options: PassOptions) -> (passes: Vec<
    usize,
>)
    requires
        layout == spec_pass_layout(CfaKind::Bayer) || layout == spec_pass_layout(CfaKind::XTrans),
    ensures
        passes@ == spec_dispatch_passes(layout, dispatch, options),
{
    let mut passes: Vec<usize> = Vec::new();
    match dispatch {
        Dispatch::RawStage => push_raw_stage(&mut passes, layout, options),
        Dispatch::ToneStage => push_range(&mut passes, layout.tone_prepare, layout.tone_stage_end),
        Dispatch::OutputStage => push_output_stage(&mut passes, layout, options),
        Dispatch::Complete => {
            push_raw_stage(&mut passes, layout, options);
            push_range(&mut passes, layout.tone_prepare, layout.tone_stage_end);
            push_output_stage(&mut passes, layout, options);
        },
        Dispatch::ExportToneTile => {
            push_raw_stage(&mut passes, layout, options);
            passes.push(layout.tone_prepare);
        },
        Dispatch::ExportToneReduce => passes.push(layout.tone_reduce),
        Dispatch::ExportTile => {
            push_raw_stage(&mut passes, layout, options);
            push_range(&mut passes, layout.tone_prepare, layout.tone_reduce);
            push_output_stage(&mut passes, layout, options);
        },
    }
    proof {
        assert(passes@ =~= spec_dispatch_passes(layout, dispatch, options));
    }
    passes
}

/// `passes` runs passes from `low` up to `high` (excluded) only, each after
/// the one before it.
pub open spec fn increasing_within(passes: Seq<usize>, low: int, high: int) -> bool {
    &&& forall|k: int| 0 <= k < passes.len() ==> low <= #[trigger] passes[k] < high
    &&& forall|a: int, b: int| 0 <= a < b < passes.len() ==> #[trigger] passes[a] < #[trigger] passes[b]
}

proof fn lemma_range_increasing(start: int, end: int)
    requires
        0 <= start <= end <= usize::MAX,
    ensures
        increasing_within(index_range(start, end), start, end),
{
}

proof fn lemma_single_increasing(pass: usize)
    ensures
        increasing_within(seq![pass], pass as int, pass + 1),
{
}

proof fn lemma_empty_increasing(low: int, high: int)
    ensures
        increasing_within(Seq::<usize>::empty(), low, high),
{
}

proof fn lemma_concat_increasing(first: Seq<usize>, second: Seq<usize>, low: int, middle: int, high: int)
    requires
        low <= middle <= high,
        increasing_within(first, low, middle),
        increasing_within(second, middle, high),
    ensures
        increasing_within(first + second, low, high),
{
    let both = first + second;
    assert forall|k: int| 0 <= k < both.len() implies low <= #[trigger] both[k] < high by {
        if k < first.len() {
            assert(both[k] == first[k]);
        } else {
            assert(both[k] == second[k - first.len()]);
        }
    }
    assert forall|a: int, b: int| 0 <= a < b < both.len() implies #[trigger] both[a] < #[trigger] both[b] by {
        if b < first.len() {
            assert(both[a] == first[a] && both[b] == first[b]);
        } else if a >= first.len() {
            assert(both[a] == second[a - first.len()] && both[b] == second[b - first.len()]);
        } else {
            assert(both[a] == first[a] && both[b] == second[b - first.len()]);
        }
    }
}

proof fn lemma_widen(passes: Seq<usize>, low: int, high: int, lower: int, higher: int)
    requires
        increasing_within(passes, low, high),
        lower <= low,
        high <= higher,
    ensures
        increasing_within(passes, lower, higher),
{
}

proof fn lemma_raw_stage_increasing(layout: PassLayout, options: PassOptions)
    requires
        layout == spec_pass_layout(CfaKind::Bayer) || layout == spec_pass_layout(CfaKind::XTrans),
    ensures
        increasing_within(raw_stage(layout, options), 0, layout.color_denoise_end as int),
{
    let l = layout;
    if options.ai_scene {
        lemma_empty_increasing(0, l.color_denoise_end as int);
        return;
    }
    lemma_single_increasing(0);
    lemma_range_increasing(l.demosaic_start as int, l.dual_start as int);
    lemma_concat_increasing(
        seq![0usize],
        index_range(l.demosaic_start as int, l.dual_start as int),
        0,
        1,
        l.dual_start as int,
    );
    let head = seq![0usize] + index_range(l.demosaic_start as int, l.dual_start as int);
    let dual = if options.dual_demosaic {
        index_range(l.dual_start as int, l.dual_end as int)
    } else {
        Seq::empty()
    };
    if options.dual_demosaic {
        lemma_range_increasing(l.dual_start as int, l.dual_end as int);
    } else {
        lemma_empty_increasing(l.dual_start as int, l.dual_end as int);
    }
    lemma_concat_increasing(head, dual, 0, l.dual_start as int, l.dual_end as int);
    lemma_single_increasing(l.demosaic_finish);
    lemma_concat_increasing(
        head + dual,
        seq![l.demosaic_finish],
        0,
        l.dual_end as int,
        l.color_denoise_start as int,
    );
    let denoise = if options.color_denoise {
        index_range(l.color_denoise_start as int, l.color_denoise_end as int)
    } else {
        Seq::empty()
    };
    if options.color_denoise {
        lemma_range_increasing(l.color_denoise_start as int, l.color_denoise_end as int);
    } else {
        lemma_empty_increasing(l.color_denoise_start as int, l.color_denoise_end as int);
    }
    lemma_concat_increasing(
        head + dual + seq![l.demosaic_finish],
        denoise,
        0,
        l.color_denoise_start as int,
        l.color_denoise_end as int,
    );
    assert(raw_stage(layout, options) == head + dual + seq![l.demosaic_finish] + denoise);
}

proof fn lemma_output_stage_increasing(layout: PassLayout, options: PassOptions)
    requires
        layout == spec_pass_layout(CfaKind::Bayer) || layout == spec_pass_layout(CfaKind::XTrans),
    ensures
        increasing_within(
            output_stage(layout, options),
            layout.adjustment_prepare as int,
            layout.pass_count as int,
        ),
{
    let l = layout;
    let p = l.adjustment_prepare as int;
    let head = seq![l.adjustment_prepare, l.adjustment_tone];
    assert(head =~= index_range(p, p + 2));
    lemma_range_increasing(p, p + 2);
    let middle = if options.intermediate_adjustments {
        seq![
            (l.adjustment_effects - 1) as usize,
            l.adjustment_effects,
            (l.adjustment_effects + 1) as usize,
        ] + (if options.glow {
            seq![l.glow_prepare] + index_range(l.glow_blur_start as int, l.glow_blur_end as int)
        } else {
            Seq::empty()
        }) + seq![l.adjustment_creative]
    } else {
        Seq::empty()
    };
    if options.intermediate_adjustments {
        let effects = seq![
            (l.adjustment_effects - 1) as usize,
            l.adjustment_effects,
            (l.adjustment_effects + 1) as usize,
        ];
        assert(effects =~= index_range(p + 2, p + 5));
        lemma_range_increasing(p + 2, p + 5);
        let glow = if options.glow {
            seq![l.glow_prepare] + index_range(l.glow_blur_start as int, l.glow_blur_end as int)
        } else {
            Seq::empty()
        };
        if options.glow {
            lemma_single_increasing(l.glow_prepare);
            lemma_range_increasing(l.glow_blur_start as int, l.glow_blur_end as int);
            lemma_concat_increasing(
                seq![l.glow_prepare],
                index_range(l.glow_blur_start as int, l.glow_blur_end as int),
                p + 5,
                p + 6,
                p + 11,
            );
        } else {
            lemma_empty_increasing(p + 5, p + 11);
        }
        lemma_concat_increasing(effects, glow, p + 2, p + 5, p + 11);
        lemma_single_increasing(l.adjustment_creative);
        lemma_concat_increasing(effects + glow, seq![l.adjustment_creative], p + 2, p + 11, p + 12);
    } else {
        lemma_empty_increasing(p + 2, p + 12);
    }
    lemma_concat_increasing(head, middle, p, p + 2, p + 12);
    lemma_single_increasing(l.adjustment_render);
    lemma_concat_increasing(head + middle, seq![l.adjustment_render], p, p + 12, p + 13);
    assert(output_stage(layout, options) == head + middle + seq![l.adjustment_render]);
}

/// Every dispatch runs existing passes only, in program order, each at
/// most once.
pub proof fn lemma_dispatch_runs_passes_in_order(
    cfa_kind: CfaKind,
    dispatch: Dispatch,
    options: PassOptions,
)
    ensures
        increasing_within(
            spec_dispatch_passes(spec_pass_layout(cfa_kind), dispatch, options),
            0,
            spec_pass_layout(cfa_kind).pass_count as int,
        ),
{
    let l = spec_pass_layout(cfa_kind);
    let count = l.pass_count as int;
    lemma_raw_stage_increasing(l, options);
    lemma_output_stage_increasing(l, options);
    let raw = raw_stage(l, options);
    let output = output_stage(l, options);
    match dispatch {
        Dispatch::RawStage => {
            lemma_widen(raw, 0, l.color_denoise_end as int, 0, count);
        },
        Dispatch::ToneStage => {
            lemma_range_increasing(l.tone_prepare as int, l.tone_stage_end as int);
            lemma_widen(
                index_range(l.tone_prepare as int, l.tone_stage_end as int),
                l.tone_prepare as int,
                l.tone_stage_end as int,
                0,
                count,
            );
        },
        Dispatch::OutputStage => {
            lemma_widen(output, l.adjustment_prepare as int, count, 0, count);
        },
        Dispatch::Complete => {
            let tone = index_range(l.tone_prepare as int, l.tone_stage_end as int);
            lemma_range_increasing(l.tone_prepare as int, l.tone_stage_end as int);
            lemma_concat_increasing(raw, tone, 0, l.tone_prepare as int, l.tone_stage_end as int);
            lemma_concat_increasing(raw + tone, output, 0, l.adjustment_prepare as int, count);
        },
        Dispatch::ExportToneTile => {
            lemma_single_increasing(l.tone_prepare);
            lemma_concat_increasing(
                raw,
                seq![l.tone_prepare],
                0,
                l.tone_prepare as int,
                l.tone_prepare + 1,
            );
            lemma_widen(raw + seq![l.tone_prepare], 0, l.tone_prepare + 1, 0, count);
        },
        Dispatch::ExportToneReduce => {
            lemma_single_increasing(l.tone_reduce);
            lemma_widen(seq![l.tone_reduce], l.tone_reduce as int, l.tone_reduce + 1, 0, count);
        },
        Dispatch::ExportTile => {
            let tone = index_range(l.tone_prepare as int, l.tone_reduce as int);
            lemma_range_increasing(l.tone_prepare as int, l.tone_reduce as int);
            lemma_concat_increasing(raw, tone, 0, l.tone_prepare as int, l.tone_reduce as int);
            lemma_widen(raw + tone, 0, l.tone_reduce as int, 0, l.adjustment_prepare as int);
            lemma_concat_increasing(raw + tone, output, 0, l.adjustment_prepare as int, count);
        },
    }
}

/// An export tile, rendered with the statistics that the export already
/// reduced, never runs the reduction pass that would overwrite them: it runs
/// the raw stage, the tone passes before the reduction, and the output stage.
pub proof fn lemma_export_tile_skips_tone_reduction(cfa_kind: CfaKind, options: PassOptions)
    ensures
        !spec_dispatch_passes(spec_pass_layout(cfa_kind), Dispatch::ExportTile, options).contains(
            spec_pass_layout(cfa_kind).tone_reduce,
        ),
        spec_dispatch_passes(spec_pass_layout(cfa_kind), Dispatch::ExportTile, options).contains(
            spec_pass_layout(cfa_kind).tone_prepare,
        ),
{
    let l = spec_pass_layout(cfa_kind);
    let raw = raw_stage(l, options);
    let tone = index_range(l.tone_prepare as int, l.tone_reduce as int);
    let output = output_stage(l, options);
    let passes = spec_dispatch_passes(l, Dispatch::ExportTile, options);
    lemma_raw_stage_increasing(l, options);
    lemma_range_increasing(l.tone_prepare as int, l.tone_reduce as int);
    lemma_concat_increasing(raw, tone, 0, l.tone_prepare as int, l.tone_reduce as int);
    lemma_output_stage_increasing(l, options);
    let before = raw + tone;
    assert(passes == before + output);
    assert forall|k: int| 0 <= k < passes.len() implies #[trigger] passes[k] != l.tone_reduce by {
        if k < before.len() {
            assert(passes[k] == before[k]);
        } else {
            assert(passes[k] == output[k - before.len()]);
        }
    }
    assert(passes[raw.len() as int] == tone[0]);
}

proof fn lemma_concat_contains(first: Seq<usize>, second: Seq<usize>, pass: usize)
    ensures
        (first + second).contains(pass) <==> first.contains(pass) || second.contains(pass),
{
    let both = first + second;
    if both.contains(pass) {
        let k = choose|k: int| 0 <= k < both.len() && both[k] == pass;
        if k < first.len() {
            assert(first[k] == pass);
        } else {
            assert(second[k - first.len()] == pass);
        }
    }
    if first.contains(pass) {
        let k = choose|k: int| 0 <= k < first.len() && first[k] == pass;
        assert(both[k] == pass);
    }
    if second.contains(pass) {
        let k = choose|k: int| 0 <= k < second.len() && second[k] == pass;
        assert(both[first.len() + k] == pass);
    }
}

proof fn lemma_range_contains(start: int, end: int, pass: usize)
    requires
        0 <= start <= end <= usize::MAX,
    ensures
        index_range(start, end).contains(pass) <==> start <= pass < end,
{
    if start <= pass < end {
        assert(index_range(start, end)[pass - start] == pass);
    }
}

proof fn lemma_within_excludes(passes: Seq<usize>, low: int, high: int, pass: usize)
    requires
        increasing_within(passes, low, high),
        !(low <= pass < high),
    ensures
        !passes.contains(pass),
{
}

/// Which of the dual demosaic and chroma denoise positions the raw stage
/// runs.
proof fn lemma_raw_stage_optional_runs(layout: PassLayout, options: PassOptions, pass: usize)
    requires
        layout == spec_pass_layout(CfaKind::Bayer) || layout == spec_pass_layout(CfaKind::XTrans),
    ensures
        layout.dual_start <= pass < layout.dual_end ==> (raw_stage(layout, options).contains(pass)
            <==> !options.ai_scene && options.dual_demosaic),
        layout.color_denoise_start <= pass < layout.color_denoise_end ==> (raw_stage(
            layout,
            options,
        ).contains(pass) <==> !options.ai_scene && options.color_denoise),
{
    let l = layout;
    if options.ai_scene {
        return;
    }
    let head = seq![0usize] + index_range(l.demosaic_start as int, l.dual_start as int);
    let dual = if options.dual_demosaic {
        index_range(l.dual_start as int, l.dual_end as int)
    } else {
        Seq::empty()
    };
    let denoise = if options.color_denoise {
        index_range(l.color_denoise_start as int, l.color_denoise_end as int)
    } else {
        Seq::empty()
    };
    assert(raw_stage(layout, options) == head + dual + seq![l.demosaic_finish] + denoise);
    lemma_concat_contains(head + dual + seq![l.demosaic_finish], denoise, pass);
    lemma_concat_contains(head + dual, seq![l.demosaic_finish], pass);
    lemma_concat_contains(head, dual, pass);
    lemma_concat_contains(seq![0usize], index_range(l.demosaic_start as int, l.dual_start as int), pass);
    lemma_range_contains(l.demosaic_start as int, l.dual_start as int, pass);
    lemma_range_contains(l.dual_start as int, l.dual_end as int, pass);
    lemma_range_contains(l.color_denoise_start as int, l.color_denoise_end as int, pass);
    assert(seq![0usize].contains(pass) ==> pass == 0) by {
        if seq![0usize].contains(pass) {
            let k = choose|k: int| 0 <= k < 1 && seq![0usize][k] == pass;
        }
    }
    assert(seq![l.demosaic_finish].contains(pass) ==> pass == l.demosaic_finish) by {
        if seq![l.demosaic_finish].contains(pass) {
            let k = choose|k: int| 0 <= k < 1 && seq![l.demosaic_finish][k] == pass;
        }
    }
    if !options.dual_demosaic {
        assert(!dual.contains(pass));
    }
    if !options.color_denoise {
        assert(!denoise.contains(pass));
    }
}

/// Every dispatch that runs the raw stage (a raw-stage, complete or export
/// tile render) runs the dual demosaic passes exactly when the denoised
/// scene is not used and dual demosaic is selected, whatever chroma denoise
/// is set to; and it runs the chroma denoise passes exactly when the
/// denoised scene is not used and chroma denoise is on, whatever the
/// demosaic choice.
pub proof fn lemma_raw_stage_runs_the_selected_optional_passes(
    cfa_kind: CfaKind,
    dispatch: Dispatch,
    options: PassOptions,
    pass: usize,
)
    requires
        dispatch is RawStage || dispatch is Complete || dispatch is ExportToneTile
            || dispatch is ExportTile,
    ensures
        spec_pass_layout(cfa_kind).dual_start <= pass < spec_pass_layout(cfa_kind).dual_end ==> (
        spec_dispatch_passes(spec_pass_layout(cfa_kind), dispatch, options).contains(pass) <==> (
        !options.ai_scene && options.dual_demosaic)),
        spec_pass_layout(cfa_kind).color_denoise_start <= pass < spec_pass_layout(
            cfa_kind,
        ).color_denoise_end ==> (spec_dispatch_passes(spec_pass_layout(cfa_kind), dispatch, options).contains(
            pass,
        ) <==> (!options.ai_scene && options.color_denoise)),
{
    let l = spec_pass_layout(cfa_kind);
    let raw = raw_stage(l, options);
    let output = output_stage(l, options);
    lemma_raw_stage_optional_runs(l, options, pass);
    lemma_output_stage_increasing(l, options);
    if pass < l.color_denoise_end {
        lemma_within_excludes(output, l.adjustment_prepare as int, l.pass_count as int, pass);
        match dispatch {
            Dispatch::RawStage => {},
            Dispatch::Complete => {
                let tone = index_range(l.tone_prepare as int, l.tone_stage_end as int);
                lemma_range_contains(l.tone_prepare as int, l.tone_stage_end as int, pass);
                lemma_concat_contains(raw, tone, pass);
                lemma_concat_contains(raw + tone, output, pass);
            },
            Dispatch::ExportToneTile => {
                lemma_concat_contains(raw, seq![l.tone_prepare], pass);
                assert(!seq![l.tone_prepare].contains(pass)) by {
                    if seq![l.tone_prepare].contains(pass) {
                        let k = choose|k: int| 0 <= k < 1 && seq![l.tone_prepare][k] == pass;
                    }
                }
            },
            Dispatch::ExportTile => {
                let tone = index_range(l.tone_prepare as int, l.tone_reduce as int);
                lemma_range_contains(l.tone_prepare as int, l.tone_reduce as int, pass);
                lemma_concat_contains(raw, tone, pass);
                lemma_concat_contains(raw + tone, output, pass);
            },
            _ => {},
        }
    }
}

/// A complete render with every optional pass enabled runs every pass of
/// the program exactly once, in order.
pub proof fn lemma_full_render_runs_every_pass(cfa_kind: CfaKind)
    ensures
        spec_dispatch_passes(
            spec_pass_layout(cfa_kind),
            Dispatch::Complete,
            PassOptions {
                ai_scene: false,
                dual_demosaic: true,
                color_denoise: true,
                intermediate_adjustments: true,
                glow: true,
            },
        ) == index_range(0, spec_pass_layout(cfa_kind).pass_count as int),
{
    let l = spec_pass_layout(cfa_kind);
    let options = PassOptions {
        ai_scene: false,
        dual_demosaic: true,
        color_denoise: true,
        intermediate_adjustments: true,
        glow: true,
    };
    assert(raw_stage(l, options) =~= index_range(0, l.color_denoise_end as int));
    assert(output_stage(l, options) =~= index_range(
        l.adjustment_prepare as int,
        l.pass_count as int,
    ));
    assert(spec_dispatch_passes(l, Dispatch::Complete, options) =~= index_range(
        0,
        l.pass_count as int,
    ));
}

} // verus!
