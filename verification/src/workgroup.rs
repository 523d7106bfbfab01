//! Two-dimensional compute workgroup shapes and their WGSL specialization.
use crate::text::{decimal, decimal_text, lemma_replace_absent, replace_all, str_contains, str_replace};
use vstd::prelude::*;
use vstd::string::*;

verus! {

/// Two-dimensional compute workgroup shape used by image and tone-guide
/// shaders. The Z dimension remains one because every dispatch targets a 2D
/// texture. The default is 8x8.
#[derive(Clone, Copy, Debug, PartialEq, Eq, Hash, Structural)]
pub struct ComputeWorkgroupSize {
    pub x: u32,
    pub y: u32,
}

/// The device limits that bound a compute workgroup.
#[derive(Clone, Copy, Debug, PartialEq, Eq, Structural)]
pub struct ComputeLimits {
    pub max_compute_workgroup_size_x: u32,
    pub max_compute_workgroup_size_y: u32,
    pub max_compute_invocations_per_workgroup: u32,
}

/// Why a workgroup shape was refused.
#[derive(Clone, Copy, Debug, PartialEq, Eq, Structural)]
pub enum WorkgroupError {
    /// A dimension is zero.
    ZeroDimension,
    /// The invocation count `x * y` does not fit in `u32`.
    Overflow,
    /// The shape exceeds what the device supports.
    ExceedsLimits { x: u32, y: u32, limits: ComputeLimits },
}

/// The text that explains a refused workgroup shape.
pub open spec fn workgroup_error_message(error: WorkgroupError) -> Seq<char> {
    match error {
        WorkgroupError::ZeroDimension => "compute workgroup dimensions must be non-zero"@,
        WorkgroupError::Overflow => "compute workgroup dimensions overflow"@,
        WorkgroupError::ExceedsLimits { x, y, limits } => "compute workgroup "@ + decimal(x as nat)
            + "x"@ + decimal(y as nat) + " exceeds device limits ("@ + decimal(
            limits.max_compute_workgroup_size_x as nat,
        ) + "x"@ + decimal(limits.max_compute_workgroup_size_y as nat) + ", "@ + decimal(
            limits.max_compute_invocations_per_workgroup as nat,
        ) + " invocations)"@,
    }
}

impl WorkgroupError {
    /// Human-readable explanation of the refusal.
    pub fn message(&self) -> (text: String)
        ensures
            text@ == workgroup_error_message(*self),
    {
        match self {
            WorkgroupError::ZeroDimension => String::from_str(
                "compute workgroup dimensions must be non-zero",
            ),
            WorkgroupError::Overflow => String::from_str("compute workgroup dimensions overflow"),
            WorkgroupError::ExceedsLimits { x, y, limits } => {
                let mut text = String::from_str("compute workgroup ");
                text.append(decimal_text(*x as u64).as_str());
                text.append("x");
                text.append(decimal_text(*y as u64).as_str());
                text.append(" exceeds device limits (");
                text.append(decimal_text(limits.max_compute_workgroup_size_x as u64).as_str());
                text.append("x");
                text.append(decimal_text(limits.max_compute_workgroup_size_y as u64).as_str());
                text.append(", ");
                text.append(
                    decimal_text(limits.max_compute_invocations_per_workgroup as u64).as_str(),
                );
                text.append(" invocations)");
                text
            },
        }
    }
}

/// The WGSL attribute that every shader source declares for the default shape.
pub const DEFAULT_WORKGROUP_ATTRIBUTE: &'static str = "@workgroup_size(8, 8, 1)";

/// The WGSL attribute text for a shape.
pub open spec fn workgroup_attribute(x: u32, y: u32) -> Seq<char> {
    "@workgroup_size("@ + decimal(x as nat) + ", "@ + decimal(y as nat) + ", 1)"@
}

/// Smallest number of groups of `group` that covers `extent`.
pub open spec fn groups_covering(extent: nat, group: nat) -> nat
    recommends
        group > 0,
{
    ((extent + group - 1) / group as int) as nat
}

impl ComputeWorkgroupSize {
    /// The historical 8x8 shape.
    pub open spec fn spec_default() -> Self {
        ComputeWorkgroupSize { x: 8, y: 8 }
    }

    pub fn is_default(self) -> (default: bool)
        ensures
            default == (self == Self::spec_default()),
    {
        self.x == 8 && self.y == 8
    }

    pub open spec fn invocations(self) -> int {
        self.x * self.y
    }

    /// Accepts any shape with non-zero dimensions whose invocation count fits
    /// in `u32`.
    pub fn new(x: u32, y: u32) -> (result: Result<Self, WorkgroupError>)
        ensures
            result == (if x == 0 || y == 0 {
                Err(WorkgroupError::ZeroDimension)
            } else if x * y > u32::MAX {
                Err(WorkgroupError::Overflow)
            } else {
                Ok(ComputeWorkgroupSize { x, y })
            }),
    {
        if x == 0 || y == 0 {
            return Err(WorkgroupError::ZeroDimension);
        }
        if x.checked_mul(y).is_none() {
            return Err(WorkgroupError::Overflow);
        }
        Ok(ComputeWorkgroupSize { x, y })
    }

    /// Checks the shape against the device's compute limits.
    pub fn validate_for_limits(self, limits: &ComputeLimits) -> (result: Result<(), WorkgroupError>)
        ensures
            result == (if self.invocations() > u32::MAX {
                Err(WorkgroupError::Overflow)
            } else if self.x > limits.max_compute_workgroup_size_x || self.y
                > limits.max_compute_workgroup_size_y || self.invocations()
                > limits.max_compute_invocations_per_workgroup {
                Err(WorkgroupError::ExceedsLimits { x: self.x, y: self.y, limits: *limits })
            } else {
                Ok(())
            }),
    {
        let invocations = match self.x.checked_mul(self.y) {
            Some(invocations) => invocations,
            None => return Err(WorkgroupError::Overflow),
        };
        if self.x > limits.max_compute_workgroup_size_x || self.y
            > limits.max_compute_workgroup_size_y || invocations
            > limits.max_compute_invocations_per_workgroup {
            return Err(WorkgroupError::ExceedsLimits { x: self.x, y: self.y, limits: *limits });
        }
        Ok(())
    }

    /// Workgroup counts that cover a `width` x `height` texture.
    pub fn dispatch_for_extent(self, width: u32, height: u32) -> (groups: [u32; 3])
        requires
            self.x > 0,
            self.y > 0,
        ensures
            groups[0] == groups_covering(width as nat, self.x as nat),
            groups[1] == groups_covering(height as nat, self.y as nat),
            groups[2] == 1,
    {
        proof {
            lemma_groups_covering(width as nat, self.x as nat);
            lemma_groups_covering(height as nat, self.y as nat);
        }
        let gx = width / self.x + if width % self.x == 0 { 0 } else { 1 };
        let gy = height / self.y + if height % self.y == 0 { 0 } else { 1 };
        [gx, gy, 1]
    }
}

/// A dispatch covers its texture tightly: the workgroups along an axis
/// reach every texel, and the last of them still holds one.
pub proof fn lemma_dispatch_covers_extent(extent: nat, group: nat)
    requires
        group > 0,
    ensures
        groups_covering(extent, group) * group >= extent,
        extent > 0 ==> (groups_covering(extent, group) - 1) * group < extent,
{
    let n = groups_covering(extent, group);
    let t = extent + group - 1;
    assert(n == t / (group as int));
    assert(t == (group as int) * (t / (group as int)) + t % (group as int)) by (nonlinear_arith)
        requires
            group > 0,
    ;
    assert(0 <= t % (group as int) < group) by (nonlinear_arith)
        requires
            group > 0,
    ;
    assert(n * group >= extent) by (nonlinear_arith)
        requires
            t == (group as int) * n + t % (group as int),
            t % (group as int) < group,
            t == extent + group - 1,
    ;
    if extent > 0 {
        assert((n - 1) * group < extent) by (nonlinear_arith)
            requires
                t == (group as int) * n + t % (group as int),
                0 <= t % (group as int),
                t == extent + group - 1,
        ;
    }
}

/// Ceiling division agrees with quotient-plus-remainder form, and that form
/// stays within `u32`.
pub(crate) proof fn lemma_groups_covering(extent: nat, group: nat)
    requires
        group > 0,
        extent <= u32::MAX,
    ensures
        groups_covering(extent, group) == extent / group + if extent % group == 0 {
            0nat
        } else {
            1nat
        },
        extent / group + (if extent % group == 0 { 0nat } else { 1nat }) <= u32::MAX,
{
    let q = extent / group;
    let r = extent % group;
    vstd::arithmetic::div_mod::lemma_fundamental_div_mod(extent as int, group as int);
    assert(extent == group * q + r);
    assert(q * group == group * q) by (nonlinear_arith);
    if r == 0 {
        vstd::arithmetic::div_mod::lemma_fundamental_div_mod_converse(
            (extent + group - 1) as int,
            group as int,
            q as int,
            (group - 1) as int,
        );
    } else {
        assert((q + 1) * group == q * group + group) by (nonlinear_arith);
        vstd::arithmetic::div_mod::lemma_fundamental_div_mod_converse(
            (extent + group - 1) as int,
            group as int,
            (q + 1) as int,
            (r - 1) as int,
        );
        assert(group >= 2);
        assert(q * 2 <= q * group) by (nonlinear_arith)
            requires
                group >= 2,
        ;
        assert(q < u32::MAX);
    }
}

impl Default for ComputeWorkgroupSize {
    fn default() -> (size: Self)
        ensures
            size == ComputeWorkgroupSize::spec_default(),
    {
        ComputeWorkgroupSize { x: 8, y: 8 }
    }
}

/// The WGSL attribute for `size`.
pub fn workgroup_attribute_text(size: ComputeWorkgroupSize) -> (text: String)
    ensures
        text@ == workgroup_attribute(size.x, size.y),
{
    let mut text = String::from_str("@workgroup_size(");
    let x = decimal_text(size.x as u64);
    let y = decimal_text(size.y as u64);
    text.append(x.as_str());
    text.append(", ");
    text.append(y.as_str());
    text.append(", 1)");
    text
}

/// The shader source specialized to `workgroup_size`: the default shape
/// leaves it untouched; any other shape replaces every default workgroup
/// attribute with its own.
pub fn specialize_compute_workgroup_size(source: &str, workgroup_size: ComputeWorkgroupSize) -> (specialized: String)
    ensures
        specialized@ == (if workgroup_size == ComputeWorkgroupSize::spec_default() {
            source@
        } else {
            replace_all(source@, DEFAULT_WORKGROUP_ATTRIBUTE@, workgroup_attribute(workgroup_size.x, workgroup_size.y))
        }),
{
    proof {
        reveal_strlit("@workgroup_size(8, 8, 1)");
    }
    if workgroup_size.is_default() || !str_contains(
        source,
        DEFAULT_WORKGROUP_ATTRIBUTE,
    ) {
        proof {
            if workgroup_size != ComputeWorkgroupSize::spec_default() {
                lemma_replace_absent(source@, DEFAULT_WORKGROUP_ATTRIBUTE@, workgroup_attribute(workgroup_size.x, workgroup_size.y));
            }
        }
        return String::from_str(source);
    }
    let attribute = workgroup_attribute_text(workgroup_size);
    str_replace(source, DEFAULT_WORKGROUP_ATTRIBUTE, attribute.as_str())
}

} // verus!
