//! Finding again the mask component an AI job was started for, after the
//! user may have edited the mask stack while the model ran.
use vstd::prelude::*;
use vstd::string::*;
use crate::ai_masks::targets::MaskKind;

verus! {

/// What resolution reads of one component: its kind, and whether its
/// geometry still equals the geometry the job was started with.
#[derive(Clone, Copy, Debug, PartialEq, Eq, Structural)]
pub struct ComponentMatch {
    pub kind: MaskKind,
    pub same_geometry: bool,
}

/// The component a job was started for: its kind and where it was.
#[derive(Clone, Copy, Debug, PartialEq, Eq, Structural)]
pub struct AiMaskTarget {
    pub mask_index: usize,
    pub component_index: usize,
    pub kind: MaskKind,
}

pub open spec fn match_view(stack: Vec<Vec<ComponentMatch>>) -> Seq<Seq<ComponentMatch>> {
    stack@.map_values(|mask: Vec<ComponentMatch>| mask@)
}

pub open spec fn is_match(c: ComponentMatch, kind: MaskKind) -> bool {
    c.kind == kind && c.same_geometry
}

/// Positions, in stack order, of the components of `kind` whose geometry is
/// unchanged.
pub open spec fn matching_positions(stack: Seq<Seq<ComponentMatch>>, kind: MaskKind) -> Seq<(usize, usize)>
    decreases stack.len(),
{
    if stack.len() == 0 {
        Seq::empty()
    } else {
        let m = stack.len() - 1;
        matching_positions(stack.drop_last(), kind) + matching_in_mask(m as usize, stack[m], kind)
    }
}

pub open spec fn matching_in_mask(mask_index: usize, mask: Seq<ComponentMatch>, kind: MaskKind) -> Seq<(usize, usize)>
    decreases mask.len(),
{
    if mask.len() == 0 {
        Seq::empty()
    } else {
        let c = mask.len() - 1;
        matching_in_mask(mask_index, mask.drop_last(), kind) + if is_match(mask[c], kind) {
            seq![(mask_index, c as usize)]
        } else {
            Seq::empty()
        }
    }
}

/// Why a job's component cannot be found: by what happened at its old
/// position.
pub open spec fn missing_target_message(stack: Seq<Seq<ComponentMatch>>, target: AiMaskTarget) -> Seq<char> {
    if target.mask_index >= stack.len() {
        "The target mask was deleted before inference completed."@
    } else if target.component_index >= stack[target.mask_index as int].len() {
        "The target mask component was deleted before inference completed."@
    } else if stack[target.mask_index as int][target.component_index as int].kind != target.kind {
        "The target component changed type before inference completed."@
    } else {
        "The target component changed before inference completed."@
    }
}

/// The message when more than one component could be the job's.
pub open spec fn ambiguous_target_message() -> Seq<char> {
    "The target component is ambiguous after editing; the stale result was discarded."@
}

/// Where the job's component is now: the one component of the job's kind
/// with unchanged geometry. None, or several, is an error that says why.
pub fn resolve_ai_mask_target_in_stack(stack: &Vec<Vec<ComponentMatch>>, target: AiMaskTarget) -> (location: Result<(usize, usize), String>)
    ensures
        ({
            let found = matching_positions(match_view(*stack), target.kind);
            match location {
                Ok(position) => found.len() == 1 && position == found[0],
                Err(message) => if found.len() == 0 {
                    message@ == missing_target_message(match_view(*stack), target)
                } else {
                    found.len() >= 2 && message@ == ambiguous_target_message()
                },
            }
        }),
{
    let ghost view = match_view(*stack);
    let mut found: Vec<(usize, usize)> = Vec::new();
    let mut m: usize = 0;
    while m < stack.len()
        invariant
            m <= stack.len(),
            view == match_view(*stack),
            view.len() == stack.len(),
            found@ == matching_positions(view.subrange(0, m as int), target.kind),
        decreases stack.len() - m,
    {
        let ghost before = found@;
        let mask = &stack[m];
        assert(view[m as int] == mask@);
        let mut c: usize = 0;
        while c < mask.len()
            invariant
                c <= mask.len(),
                m < stack.len(),
                view == match_view(*stack),
                view[m as int] == mask@,
                found@ == before + matching_in_mask(m, mask@.subrange(0, c as int), target.kind),
            decreases mask.len() - c,
        {
            let ghost prefix = mask@.subrange(0, c as int);
            assert(mask@.subrange(0, c + 1).drop_last() =~= prefix);
            let component = mask[c];
            if component.kind == target.kind && component.same_geometry {
                found.push((m, c));
            }
            proof {
                let next = mask@.subrange(0, c + 1);
                assert(next[next.len() - 1] == mask@[c as int]);
                assert(found@ =~= before + matching_in_mask(m, next, target.kind));
            }
            c += 1;
        }
        proof {
            assert(mask@.subrange(0, mask@.len() as int) =~= mask@);
            let next = view.subrange(0, m + 1);
            assert(next.drop_last() =~= view.subrange(0, m as int));
            assert(next[next.len() - 1] == view[m as int]);
        }
        m += 1;
    }
    assert(view.subrange(0, stack.len() as int) =~= view);
    if found.len() == 1 {
        return Ok(found[0]);
    }
    if found.len() > 1 {
        return Err(
            String::from_str(
                "The target component is ambiguous after editing; the stale result was discarded.",
            ),
        );
    }
    if target.mask_index >= stack.len() {
        return Err(String::from_str("The target mask was deleted before inference completed."));
    }
    let mask = &stack[target.mask_index];
    assert(view[target.mask_index as int] == mask@);
    if target.component_index >= mask.len() {
        return Err(
            String::from_str("The target mask component was deleted before inference completed."),
        );
    }
    if mask[target.component_index].kind != target.kind {
        return Err(
            String::from_str("The target component changed type before inference completed."),
        );
    }
    Err(String::from_str("The target component changed before inference completed."))
}

/// The target of a job started for component `component_index` of mask
/// `mask_index`, whose kinds are `kinds`; nothing when that component does
/// not exist.
pub fn capture_ai_mask_target(kinds: &Vec<Vec<MaskKind>>, mask_index: usize, component_index: usize) -> (target: Option<AiMaskTarget>)
    ensures
        match target {
            Some(t) => {
                &&& mask_index < kinds@.len()
                &&& component_index < kinds@[mask_index as int]@.len()
                &&& t == AiMaskTarget {
                    mask_index,
                    component_index,
                    kind: kinds@[mask_index as int]@[component_index as int],
                }
            },
            None => mask_index >= kinds@.len() || component_index >= kinds@[mask_index as int]@.len(),
        },
{
    if mask_index >= kinds.len() {
        return None;
    }
    if component_index >= kinds[mask_index].len() {
        return None;
    }
    Some(AiMaskTarget { mask_index, component_index, kind: kinds[mask_index][component_index] })
}

} // verus!
