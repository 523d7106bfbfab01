//! What the AI-mask logic reads of a mask stack.
use std::collections::VecDeque;
use vstd::prelude::*;

verus! {

/// Kind of a mask component.
#[derive(Clone, Copy, Debug, PartialEq, Eq, Structural)]
pub enum MaskKind {
    Brush,
    Linear,
    Radial,
    Subject,
    Background,
    Object,
    Landscape,
    LuminanceRange,
    ColorRange,
    Fullscreen,
}

/// The parts of a component's geometry that decide whether it depends on
/// the canonical source image or on an AI model.
#[derive(Clone, Copy, Debug, PartialEq, Eq, Structural)]
pub enum GeometrySummary {
    /// A subject/background matte produced by the subject model.
    Ai,
    /// A prompted object selection; whether any positive stroke has points.
    Object { has_positive_stroke: bool },
    /// A semantic landscape region.
    Landscape,
    /// A luminance range; whether it has its own source image.
    LuminanceRange { has_source: bool },
    /// A colour range; whether it has its own source image.
    ColorRange { has_source: bool },
    /// Any purely geometric or painted mask.
    Other,
}

#[derive(Clone, Copy, Debug, PartialEq, Eq, Structural)]
pub struct MaskComponentSummary {
    pub kind: MaskKind,
    pub geometry: GeometrySummary,
}

/// A mask stack: the components of each mask, in order.
pub type MaskStackSummary = Vec<Vec<MaskComponentSummary>>;

pub open spec fn stack_view(masks: MaskStackSummary) -> Seq<Seq<MaskComponentSummary>> {
    masks@.map_values(|mask: Vec<MaskComponentSummary>| mask@)
}

pub open spec fn is_subject_target(c: MaskComponentSummary) -> bool {
    (c.kind == MaskKind::Subject || c.kind == MaskKind::Background) && c.geometry is Ai
}

pub open spec fn is_object_target(c: MaskComponentSummary) -> bool {
    c.kind == MaskKind::Object && c.geometry matches GeometrySummary::Object { has_positive_stroke: true }
}

pub open spec fn is_landscape_target(c: MaskComponentSummary) -> bool {
    c.kind == MaskKind::Landscape && c.geometry is Landscape
}

pub open spec fn is_range_geometry(g: GeometrySummary) -> bool {
    g is LuminanceRange || g is ColorRange
}

/// Needs the canonical source image: a range mask without its own source,
/// an object or a landscape mask.
pub open spec fn needs_canonical_source(g: GeometrySummary) -> bool {
    ||| g matches GeometrySummary::LuminanceRange { has_source: false }
    ||| g matches GeometrySummary::ColorRange { has_source: false }
    ||| g is Object
    ||| g is Landscape
}

/// Counted by a library refresh: subject mattes, prompted objects and
/// range masks of the matching kind.
pub open spec fn is_refresh_target(c: MaskComponentSummary) -> bool {
    ||| is_subject_target(c)
    ||| is_object_target(c)
    ||| (c.kind == MaskKind::LuminanceRange && c.geometry is LuminanceRange)
    ||| (c.kind == MaskKind::ColorRange && c.geometry is ColorRange)
}

pub open spec fn any_component(stack: Seq<Seq<MaskComponentSummary>>, p: spec_fn(MaskComponentSummary) -> bool) -> bool {
    exists|m: int, c: int| 0 <= m < stack.len() && 0 <= c < stack[m].len() && #[trigger] p(stack[m][c])
}

/// Components satisfying `p`, as (mask, component) positions in stack order.
pub open spec fn positions(stack: Seq<Seq<MaskComponentSummary>>, p: spec_fn(MaskComponentSummary) -> bool) -> Seq<(usize, usize)>
    decreases stack.len(),
{
    if stack.len() == 0 {
        Seq::empty()
    } else {
        let m = stack.len() - 1;
        positions(stack.drop_last(), p) + positions_in_mask(m as usize, stack[m], p)
    }
}

pub open spec fn positions_in_mask(mask_index: usize, mask: Seq<MaskComponentSummary>, p: spec_fn(MaskComponentSummary) -> bool) -> Seq<(usize, usize)>
    decreases mask.len(),
{
    if mask.len() == 0 {
        Seq::empty()
    } else {
        let c = mask.len() - 1;
        positions_in_mask(mask_index, mask.drop_last(), p) + if p(mask[c]) {
            seq![(mask_index, c as usize)]
        } else {
            Seq::empty()
        }
    }
}

/// Number of components satisfying `p`.
pub open spec fn count_components(stack: Seq<Seq<MaskComponentSummary>>, p: spec_fn(MaskComponentSummary) -> bool) -> nat {
    positions(stack, p).len()
}

/// Whether any mask component needs the canonical source image.
pub fn needs_canonical_mask_source(masks: &MaskStackSummary) -> (needed: bool)
    ensures
        needed == any_component(stack_view(*masks), |c: MaskComponentSummary| needs_canonical_source(c.geometry)),
{
    any_component_exec(masks, 0)
}

/// Whether any component is a luminance or colour range.
pub fn has_range_mask_targets(masks: &MaskStackSummary) -> (found: bool)
    ensures
        found == any_component(stack_view(*masks), |c: MaskComponentSummary| is_range_geometry(c.geometry)),
{
    any_component_exec(masks, 1)
}

/// Shared scan behind the two predicates: `which` 0 tests for a canonical
/// source dependency, 1 for a range geometry.
fn any_component_exec(masks: &MaskStackSummary, which: u8) -> (found: bool)
    requires
        which == 0 || which == 1,
    ensures
        which == 0 ==> found == any_component(stack_view(*masks), |c: MaskComponentSummary| needs_canonical_source(c.geometry)),
        which == 1 ==> found == any_component(stack_view(*masks), |c: MaskComponentSummary| is_range_geometry(c.geometry)),
{
    let ghost p = if which == 0 {
        |c: MaskComponentSummary| needs_canonical_source(c.geometry)
    } else {
        |c: MaskComponentSummary| is_range_geometry(c.geometry)
    };
    let ghost stack = stack_view(*masks);
    let mut m: usize = 0;
    while m < masks.len()
        invariant
            m <= masks.len(),
            stack == stack_view(*masks),
            stack.len() == masks.len(),
            which == 0 || which == 1,
            p == (if which == 0 {
                |c: MaskComponentSummary| needs_canonical_source(c.geometry)
            } else {
                |c: MaskComponentSummary| is_range_geometry(c.geometry)
            }),
            forall|i: int, j: int| 0 <= i < m && 0 <= j < stack[i].len() ==> !#[trigger] p(stack[i][j]),
        decreases masks.len() - m,
    {
        let mask = &masks[m];
        assert(stack[m as int] == mask@);
        let mut c: usize = 0;
        while c < mask.len()
            invariant
                c <= mask.len(),
                m < masks.len(),
                stack == stack_view(*masks),
                stack[m as int] == mask@,
                which == 0 || which == 1,
                p == (if which == 0 {
                    |c: MaskComponentSummary| needs_canonical_source(c.geometry)
                } else {
                    |c: MaskComponentSummary| is_range_geometry(c.geometry)
                }),
                forall|j: int| 0 <= j < c ==> !#[trigger] p(stack[m as int][j]),
            decreases mask.len() - c,
        {
            let geometry = mask[c].geometry;
            let hit = if which == 0 {
                match geometry {
                    GeometrySummary::LuminanceRange { has_source } => !has_source,
                    GeometrySummary::ColorRange { has_source } => !has_source,
                    GeometrySummary::Object { .. } => true,
                    GeometrySummary::Landscape => true,
                    _ => false,
                }
            } else {
                match geometry {
                    GeometrySummary::LuminanceRange { .. } => true,
                    GeometrySummary::ColorRange { .. } => true,
                    _ => false,
                }
            };
            if hit {
                assert(p(stack[m as int][c as int]));
                return true;
            }
            c += 1;
        }
        m += 1;
    }
    false
}

/// Gives every range mask without a source the canonical one.
pub fn install_missing_range_sources(masks: &mut MaskStackSummary)
    ensures
        final(masks)@.len() == old(masks)@.len(),
        forall|m: int| 0 <= m < final(masks)@.len() ==> #[trigger] final(masks)@[m]@.len() == old(masks)@[m]@.len(),
        forall|m: int, c: int| 0 <= m < final(masks)@.len() && 0 <= c < final(masks)@[m]@.len() ==> {
            let before = old(masks)@[m]@[c];
            let after = #[trigger] final(masks)@[m]@[c];
            &&& after.kind == before.kind
            &&& after.geometry == match before.geometry {
                GeometrySummary::LuminanceRange { .. } => GeometrySummary::LuminanceRange { has_source: true },
                GeometrySummary::ColorRange { .. } => GeometrySummary::ColorRange { has_source: true },
                other => other,
            }
        },
{
    let ghost original = *masks;
    let mut m: usize = 0;
    while m < masks.len()
        invariant
            m <= masks@.len(),
            masks@.len() == original@.len(),
            forall|i: int| 0 <= i < masks@.len() ==> #[trigger] masks@[i]@.len() == original@[i]@.len(),
            forall|i: int, j: int| 0 <= i < masks@.len() && 0 <= j < masks@[i]@.len() ==> {
                let before = original@[i]@[j];
                let after = #[trigger] masks@[i]@[j];
                &&& after.kind == before.kind
                &&& after.geometry == if i < m {
                    match before.geometry {
                        GeometrySummary::LuminanceRange { .. } => GeometrySummary::LuminanceRange { has_source: true },
                        GeometrySummary::ColorRange { .. } => GeometrySummary::ColorRange { has_source: true },
                        other => other,
                    }
                } else {
                    before.geometry
                }
            },
        decreases masks@.len() - m,
    {
        let ghost before_mask = original@[m as int]@;
        assert(masks@[m as int]@ == before_mask);
        let mut mask: Vec<MaskComponentSummary> = Vec::new();
        let mut c: usize = 0;
        while c < masks[m].len()
            invariant
                m < masks@.len(),
                masks@[m as int]@ == before_mask,
                c <= before_mask.len(),
                mask@.len() == c,
                forall|j: int| 0 <= j < c ==> {
                    let before = before_mask[j];
                    let after = #[trigger] mask@[j];
                    &&& after.kind == before.kind
                    &&& after.geometry == match before.geometry {
                        GeometrySummary::LuminanceRange { .. } => GeometrySummary::LuminanceRange { has_source: true },
                        GeometrySummary::ColorRange { .. } => GeometrySummary::ColorRange { has_source: true },
                        other => other,
                    }
                },
            decreases before_mask.len() - c,
        {
            let component = masks[m][c];
            let geometry = match component.geometry {
                GeometrySummary::LuminanceRange { .. } => GeometrySummary::LuminanceRange { has_source: true },
                GeometrySummary::ColorRange { .. } => GeometrySummary::ColorRange { has_source: true },
                other => other,
            };
            mask.push(MaskComponentSummary { kind: component.kind, geometry });
            c += 1;
        }
        masks.set(m, mask);
        m += 1;
    }
}

/// Which components a position scan collects.
#[derive(Clone, Copy, Debug, PartialEq, Eq, Structural)]
pub enum TargetClass {
    Subject,
    Object,
    Landscape,
    Refresh,
}

pub open spec fn class_predicate(class: TargetClass) -> spec_fn(MaskComponentSummary) -> bool {
    match class {
        TargetClass::Subject => |c: MaskComponentSummary| is_subject_target(c),
        TargetClass::Object => |c: MaskComponentSummary| is_object_target(c),
        TargetClass::Landscape => |c: MaskComponentSummary| is_landscape_target(c),
        TargetClass::Refresh => |c: MaskComponentSummary| is_refresh_target(c),
    }
}

fn component_in_class(component: MaskComponentSummary, class: TargetClass) -> (hit: bool)
    ensures
        hit == class_predicate(class)(component),
{
    let subject = (component.kind == MaskKind::Subject || component.kind == MaskKind::Background)
        && match component.geometry {
        GeometrySummary::Ai => true,
        _ => false,
    };
    let object = component.kind == MaskKind::Object && match component.geometry {
        GeometrySummary::Object { has_positive_stroke } => has_positive_stroke,
        _ => false,
    };
    match class {
        TargetClass::Subject => subject,
        TargetClass::Object => object,
        TargetClass::Landscape => component.kind == MaskKind::Landscape && match component.geometry {
            GeometrySummary::Landscape => true,
            _ => false,
        },
        TargetClass::Refresh => subject || object || (component.kind == MaskKind::LuminanceRange
            && match component.geometry {
            GeometrySummary::LuminanceRange { .. } => true,
            _ => false,
        }) || (component.kind == MaskKind::ColorRange && match component.geometry {
            GeometrySummary::ColorRange { .. } => true,
            _ => false,
        }),
    }
}

/// Positions of the components of `class`, in stack order.
pub fn target_positions(masks: &MaskStackSummary, class: TargetClass) -> (found: VecDeque<(usize, usize)>)
    ensures
        found@ == positions(stack_view(*masks), class_predicate(class)),
{
    let ghost p = class_predicate(class);
    let ghost stack = stack_view(*masks);
    let mut found: VecDeque<(usize, usize)> = VecDeque::new();
    let mut m: usize = 0;
    while m < masks.len()
        invariant
            m <= masks.len(),
            stack == stack_view(*masks),
            stack.len() == masks.len(),
            p == class_predicate(class),
            found@ == positions(stack.subrange(0, m as int), p),
        decreases masks.len() - m,
    {
        let ghost before = found@;
        let mask = &masks[m];
        assert(stack[m as int] == mask@);
        let mut c: usize = 0;
        while c < mask.len()
            invariant
                c <= mask.len(),
                m < masks.len(),
                stack == stack_view(*masks),
                stack[m as int] == mask@,
                p == class_predicate(class),
                found@ == before + positions_in_mask(m, mask@.subrange(0, c as int), p),
            decreases mask.len() - c,
        {
            let ghost prefix = mask@.subrange(0, c as int);
            assert(mask@.subrange(0, c + 1).drop_last() =~= prefix);
            if component_in_class(mask[c], class) {
                found.push_back((m, c));
            }
            proof {
                let next = mask@.subrange(0, c + 1);
                assert(next[next.len() - 1] == mask@[c as int]);
                if p(mask@[c as int]) {
                    assert(found@ =~= before + positions_in_mask(m, next, p));
                } else {
                    assert(found@ =~= before + positions_in_mask(m, next, p));
                }
            }
            c += 1;
        }
        proof {
            assert(mask@.subrange(0, mask@.len() as int) =~= mask@);
            let next = stack.subrange(0, m + 1);
            assert(next.drop_last() =~= stack.subrange(0, m as int));
            assert(next[next.len() - 1] == stack[m as int]);
        }
        m += 1;
    }
    assert(stack.subrange(0, masks.len() as int) =~= stack);
    found
}

/// Components an "update all" regenerates: whether any subject/background
/// matte exists, then the prompted objects and the landscape regions, in
/// stack order.
pub fn generated_ai_mask_targets(masks: &MaskStackSummary) -> (targets: (bool, VecDeque<(usize, usize)>, VecDeque<(usize, usize)>))
    ensures
        targets.0 == (positions(stack_view(*masks), class_predicate(TargetClass::Subject)).len() > 0),
        targets.1@ == positions(stack_view(*masks), class_predicate(TargetClass::Object)),
        targets.2@ == positions(stack_view(*masks), class_predicate(TargetClass::Landscape)),
{
    let subjects = target_positions(masks, TargetClass::Subject);
    let objects = target_positions(masks, TargetClass::Object);
    let landscapes = target_positions(masks, TargetClass::Landscape);
    (subjects.len() > 0, objects, landscapes)
}

/// Number of masks a library refresh regenerates for one image.
pub fn ai_mask_refresh_target_count(masks: &MaskStackSummary) -> (count: usize)
    ensures
        count == count_components(stack_view(*masks), class_predicate(TargetClass::Refresh)),
{
    target_positions(masks, TargetClass::Refresh).len()
}

proof fn lemma_positions_in_mask_members(
    mask_index: usize,
    mask: Seq<MaskComponentSummary>,
    p: spec_fn(MaskComponentSummary) -> bool,
)
    ensures
        forall|c: int|
            0 <= c < mask.len() && p(#[trigger] mask[c]) ==> positions_in_mask(mask_index, mask, p).contains(
                (mask_index, c as usize),
            ),
    decreases mask.len(),
{
    if mask.len() > 0 {
        let last = mask.len() - 1;
        let earlier = mask.drop_last();
        lemma_positions_in_mask_members(mask_index, earlier, p);
        let prefix = positions_in_mask(mask_index, earlier, p);
        let tail = if p(mask[last]) {
            seq![(mask_index, last as usize)]
        } else {
            Seq::empty()
        };
        let all = positions_in_mask(mask_index, mask, p);
        assert(all == prefix + tail);
        assert forall|c: int| 0 <= c < mask.len() && p(#[trigger] mask[c]) implies all.contains(
            (mask_index, c as usize),
        ) by {
            if c < last {
                assert(earlier[c] == mask[c]);
                assert(prefix.contains((mask_index, c as usize)));
                let k = choose|k: int| 0 <= k < prefix.len() && prefix[k] == (mask_index, c as usize);
                assert(all[k] == prefix[k]);
            } else {
                assert(all[prefix.len() as int] == tail[0]);
            }
        }
    }
}

/// The component that the `k`-th position of `mask` names.
proof fn lemma_position_in_mask_source(
    mask_index: usize,
    mask: Seq<MaskComponentSummary>,
    p: spec_fn(MaskComponentSummary) -> bool,
    k: int,
) -> (c: int)
    requires
        0 <= k < positions_in_mask(mask_index, mask, p).len(),
    ensures
        0 <= c < mask.len(),
        p(mask[c]),
        positions_in_mask(mask_index, mask, p)[k] == (mask_index, c as usize),
    decreases mask.len(),
{
    let last = mask.len() - 1;
    let earlier = mask.drop_last();
    let prefix = positions_in_mask(mask_index, earlier, p);
    let tail = if p(mask[last]) {
        seq![(mask_index, last as usize)]
    } else {
        Seq::empty()
    };
    assert(positions_in_mask(mask_index, mask, p) == prefix + tail);
    if k < prefix.len() {
        let c = lemma_position_in_mask_source(mask_index, earlier, p, k);
        assert(earlier[c] == mask[c]);
        c
    } else {
        last
    }
}

proof fn lemma_positions_members(
    stack: Seq<Seq<MaskComponentSummary>>,
    p: spec_fn(MaskComponentSummary) -> bool,
)
    ensures
        forall|m: int, c: int|
            0 <= m < stack.len() && 0 <= c < stack[m].len() && p(#[trigger] stack[m][c]) ==> positions(
                stack,
                p,
            ).contains((m as usize, c as usize)),
    decreases stack.len(),
{
    if stack.len() > 0 {
        let last = stack.len() - 1;
        let earlier = stack.drop_last();
        lemma_positions_members(earlier, p);
        lemma_positions_in_mask_members(last as usize, stack[last], p);
        let prefix = positions(earlier, p);
        let tail = positions_in_mask(last as usize, stack[last], p);
        let all = positions(stack, p);
        assert(all == prefix + tail);
        assert forall|m: int, c: int|
            0 <= m < stack.len() && 0 <= c < stack[m].len() && p(#[trigger] stack[m][c]) implies all.contains(
            (m as usize, c as usize),
        ) by {
            if m < last {
                assert(earlier[m] == stack[m]);
                assert(p(earlier[m][c]));
                let k = choose|k: int| 0 <= k < prefix.len() && prefix[k] == (m as usize, c as usize);
                assert(all[k] == prefix[k]);
            } else {
                assert(p(stack[last][c]));
                let k = choose|k: int| 0 <= k < tail.len() && tail[k] == (last as usize, c as usize);
                assert(all[prefix.len() + k] == tail[k]);
            }
        }
    }
}

/// The component that the `k`-th position of `stack` names.
proof fn lemma_position_source(
    stack: Seq<Seq<MaskComponentSummary>>,
    p: spec_fn(MaskComponentSummary) -> bool,
    k: int,
) -> (mc: (int, int))
    requires
        0 <= k < positions(stack, p).len(),
    ensures
        0 <= mc.0 < stack.len(),
        0 <= mc.1 < stack[mc.0].len(),
        p(stack[mc.0][mc.1]),
        positions(stack, p)[k] == (mc.0 as usize, mc.1 as usize),
    decreases stack.len(),
{
    let last = stack.len() - 1;
    let earlier = stack.drop_last();
    let prefix = positions(earlier, p);
    let tail = positions_in_mask(last as usize, stack[last], p);
    assert(positions(stack, p) == prefix + tail);
    if k < prefix.len() {
        let mc = lemma_position_source(earlier, p, k);
        assert(earlier[mc.0] == stack[mc.0]);
        mc
    } else {
        let c = lemma_position_in_mask_source(last as usize, stack[last], p, k - prefix.len());
        (last, c)
    }
}

/// Whether the component at (`m`, `c`) is an AI matte of the subject or of
/// the background.
pub open spec fn ai_matte_at(stack: Seq<Seq<MaskComponentSummary>>, m: int, c: int) -> bool {
    &&& 0 <= m < stack.len()
    &&& 0 <= c < stack[m].len()
    &&& stack[m][c].geometry is Ai
    &&& (stack[m][c].kind == MaskKind::Subject || stack[m][c].kind == MaskKind::Background)
}

/// "Update all" regenerates the subject when the stack holds an AI matte,
/// whether it masks the subject or the background, and only then; a library
/// refresh counts every such matte, every prompted object with a painted
/// stroke and every range mask of its own kind, and nothing else.
pub proof fn lemma_subject_and_background_mattes_are_regenerated(masks: MaskStackSummary)
    ensures
        (positions(stack_view(masks), class_predicate(TargetClass::Subject)).len() > 0) <==> exists|
            m: int,
            c: int,
        | #[trigger] ai_matte_at(stack_view(masks), m, c),
        forall|m: int, c: int|
            0 <= m < stack_view(masks).len() && 0 <= c < stack_view(masks)[m].len() ==> (positions(
                stack_view(masks),
                class_predicate(TargetClass::Refresh),
            ).contains((m as usize, c as usize)) <== {
                ||| ai_matte_at(stack_view(masks), m, c)
                ||| (#[trigger] stack_view(masks)[m][c]).kind == MaskKind::Object
                    && stack_view(masks)[m][c].geometry matches GeometrySummary::Object {
                    has_positive_stroke: true,
                }
                ||| stack_view(masks)[m][c].kind == MaskKind::LuminanceRange
                    && stack_view(masks)[m][c].geometry is LuminanceRange
                ||| stack_view(masks)[m][c].kind == MaskKind::ColorRange
                    && stack_view(masks)[m][c].geometry is ColorRange
            }),
        forall|k: int|
            #![trigger positions(stack_view(masks), class_predicate(TargetClass::Refresh))[k]]
            0 <= k < positions(stack_view(masks), class_predicate(TargetClass::Refresh)).len()
                ==> exists|m: int, c: int|
                #![trigger stack_view(masks)[m][c]]
                positions(stack_view(masks), class_predicate(TargetClass::Refresh))[k] == (
                    m as usize,
                    c as usize,
                ) && {
                    ||| ai_matte_at(stack_view(masks), m, c)
                    ||| 0 <= m < stack_view(masks).len() && 0 <= c < stack_view(masks)[m].len() && {
                        ||| stack_view(masks)[m][c].kind == MaskKind::Object
                            && stack_view(masks)[m][c].geometry matches GeometrySummary::Object {
                            has_positive_stroke: true,
                        }
                        ||| stack_view(masks)[m][c].kind == MaskKind::LuminanceRange
                            && stack_view(masks)[m][c].geometry is LuminanceRange
                        ||| stack_view(masks)[m][c].kind == MaskKind::ColorRange
                            && stack_view(masks)[m][c].geometry is ColorRange
                    }
                },
{
    let stack = stack_view(masks);
    let subject = class_predicate(TargetClass::Subject);
    let refresh = class_predicate(TargetClass::Refresh);
    lemma_positions_members(stack, subject);
    lemma_positions_members(stack, refresh);
    if exists|m: int, c: int| #[trigger] ai_matte_at(stack, m, c) {
        let (m, c) = choose|m: int, c: int| #[trigger] ai_matte_at(stack, m, c);
        assert(subject(stack[m][c]));
        assert(positions(stack, subject).contains((m as usize, c as usize)));
    }
    if positions(stack, subject).len() > 0 {
        let (m, c) = lemma_position_source(stack, subject, 0);
        assert(ai_matte_at(stack, m, c));
    }
    assert forall|k: int| #![trigger positions(stack, refresh)[k]] 0 <= k < positions(stack, refresh).len() implies exists|m: int, c: int|
        #![trigger stack[m][c]]
        positions(stack, refresh)[k] == (m as usize, c as usize) && {
            ||| ai_matte_at(stack, m, c)
            ||| 0 <= m < stack.len() && 0 <= c < stack[m].len() && {
                ||| stack[m][c].kind == MaskKind::Object
                    && stack[m][c].geometry matches GeometrySummary::Object { has_positive_stroke: true }
                ||| stack[m][c].kind == MaskKind::LuminanceRange && stack[m][c].geometry is LuminanceRange
                ||| stack[m][c].kind == MaskKind::ColorRange && stack[m][c].geometry is ColorRange
            }
        } by {
        let (m, c) = lemma_position_source(stack, refresh, k);
        assert(refresh(stack[m][c]));
    }
}

} // verus!
