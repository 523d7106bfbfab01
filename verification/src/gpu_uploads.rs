//! Checks and geometry of texture uploads to a GPU pipeline: local-mask
//! layers in the mask atlas, the inpainting layer, export tiles, and the AI
//! sources the pipeline was built with.
use vstd::prelude::*;
use vstd::string::*;
use crate::render_graph::CfaKind;
use crate::text::{decimal, decimal_text};

verus! {

/// The local-mask atlas of a pipeline: square layers of `edge` samples a
/// side, `capacity` layers deep.
#[derive(Clone, Copy, Debug, PartialEq, Eq, Structural)]
pub struct MaskAtlas {
    pub edge: u32,
    pub capacity: usize,
}

proof fn lemma_u32_product(a: u32, b: u32)
    ensures
        a * b <= 0xffff_fffe_0000_0001,
{
    assert(a * b <= 0xffff_fffe_0000_0001) by (nonlinear_arith)
        requires
            a <= 0xffff_ffff,
            b <= 0xffff_ffff,
    ;
}

pub open spec fn layer_capacity_message(layer: nat, capacity: nat) -> Seq<char> {
    "local-mask layer "@ + decimal(layer) + " exceeds atlas capacity "@ + decimal(capacity)
}

fn layer_capacity_error(layer: usize, capacity: usize) -> (message: String)
    ensures
        message@ == layer_capacity_message(layer as nat, capacity as nat),
{
    let mut message = String::from_str("local-mask layer ");
    message.append(decimal_text(layer as u64).as_str());
    message.append(" exceeds atlas capacity ");
    message.append(decimal_text(capacity as u64).as_str());
    message
}

impl MaskAtlas {
    /// Checks an upload of a whole layer of `samples` half-float samples.
    pub fn check_layer_upload(&self, layer: usize, samples: usize) -> (checked: Result<(), String>)
        ensures
            match checked {
                Ok(_) => layer < self.capacity && samples == self.edge * self.edge,
                Err(message) => if layer >= self.capacity {
                    message@ == layer_capacity_message(layer as nat, self.capacity as nat)
                } else {
                    samples != self.edge * self.edge && message@ == "local-mask layer has "@
                        + decimal(samples as nat) + " samples, expected "@ + decimal(
                        (self.edge * self.edge) as nat,
                    )
                },
            },
    {
        if layer >= self.capacity {
            return Err(layer_capacity_error(layer, self.capacity));
        }
        proof {
            lemma_u32_product(self.edge, self.edge);
        }
        let expected: u64 = self.edge as u64 * self.edge as u64;
        if samples as u64 != expected {
            let mut message = String::from_str("local-mask layer has ");
            message.append(decimal_text(samples as u64).as_str());
            message.append(" samples, expected ");
            message.append(decimal_text(expected).as_str());
            return Err(message);
        }
        Ok(())
    }

    /// Checks an upload of a `width` by `height` region of a layer, given as
    /// `samples` half-float samples.
    pub fn check_region_upload(&self, layer: usize, width: u32, height: u32, samples: usize) -> (checked: Result<(), String>)
        ensures
            match checked {
                Ok(_) => layer < self.capacity && 0 < width <= self.edge && 0 < height <= self.edge
                    && samples == width * height,
                Err(message) => if layer >= self.capacity {
                    message@ == layer_capacity_message(layer as nat, self.capacity as nat)
                } else if width == 0 || height == 0 || width > self.edge || height > self.edge {
                    message@ == "local-mask region "@ + decimal(width as nat) + "x"@ + decimal(
                        height as nat,
                    ) + " exceeds "@ + decimal(self.edge as nat) + "x"@ + decimal(self.edge as nat)
                        + " atlas"@
                } else {
                    samples != width * height && message@ == "local-mask region has "@ + decimal(
                        samples as nat,
                    ) + " samples, expected "@ + decimal((width * height) as nat)
                },
            },
    {
        if layer >= self.capacity {
            return Err(layer_capacity_error(layer, self.capacity));
        }
        if width == 0 || height == 0 || width > self.edge || height > self.edge {
            let mut message = String::from_str("local-mask region ");
            message.append(decimal_text(width as u64).as_str());
            message.append("x");
            message.append(decimal_text(height as u64).as_str());
            message.append(" exceeds ");
            message.append(decimal_text(self.edge as u64).as_str());
            message.append("x");
            message.append(decimal_text(self.edge as u64).as_str());
            message.append(" atlas");
            return Err(message);
        }
        proof {
            lemma_u32_product(width, height);
        }
        let expected: u64 = width as u64 * height as u64;
        if samples as u64 != expected {
            let mut message = String::from_str("local-mask region has ");
            message.append(decimal_text(samples as u64).as_str());
            message.append(" samples, expected ");
            message.append(decimal_text(expected).as_str());
            return Err(message);
        }
        Ok(())
    }
}

/// Whether a pipeline built with the AI sources `has_ai_cfa` and
/// `has_ai_scene` serves a document of `cfa_kind` with AI denoising
/// `enabled`. The Bayer AI output replaces the mosaic upload, so it must
/// match exactly; the X-Trans AI scene may stay resident while disabled.
pub fn immutable_ai_source_matches(has_ai_cfa: bool, has_ai_scene: bool, cfa_kind: CfaKind, enabled: bool) -> (matches: bool)
    ensures
        matches == match cfa_kind {
            CfaKind::Bayer => has_ai_cfa == enabled,
            CfaKind::XTrans => !enabled || has_ai_scene,
        },
{
    match cfa_kind {
        CfaKind::Bayer => has_ai_cfa == enabled,
        CfaKind::XTrans => !enabled || has_ai_scene,
    }
}

/// Number of half-float elements of the RGBA inpainting layer of a
/// `width` by `height` pipeline, when it fits in memory addressing.
pub fn inpaint_upload_elements(width: u32, height: u32) -> (elements: Result<usize, String>)
    ensures
        match elements {
            Ok(n) => n == width * height * 4,
            Err(message) => width * height * 4 > usize::MAX && message@
                == "GPU inpaint upload element count overflows"@,
        },
{
    proof {
        lemma_u32_product(width, height);
    }
    let pixels: u64 = width as u64 * height as u64;
    if pixels > u64::MAX / 4 {
        return Err(String::from_str("GPU inpaint upload element count overflows"));
    }
    let count: u64 = pixels * 4;
    if count > usize::MAX as u64 {
        return Err(String::from_str("GPU inpaint upload element count overflows"));
    }
    Ok(count as usize)
}

/// A healed patch: a rectangle in its own source raster.
#[derive(Clone, Copy, Debug, PartialEq, Eq, Structural)]
pub struct PatchRect {
    pub x: u32,
    pub y: u32,
    pub width: u32,
    pub height: u32,
    pub source_width: u32,
    pub source_height: u32,
}

/// The pixels a pipeline covers: a `width` by `height` tile at `origin` in
/// a `full_width` by `full_height` image.
#[derive(Clone, Copy, Debug, PartialEq, Eq, Structural)]
pub struct TileSpace {
    pub origin_x: i32,
    pub origin_y: i32,
    pub width: u32,
    pub height: u32,
    pub full_width: u32,
    pub full_height: u32,
}

pub open spec fn clamp(v: int, lo: int, hi: int) -> int {
    if v < lo {
        lo
    } else if v > hi {
        hi
    } else {
        v
    }
}

/// `v` reduced into the signed 64-bit range, as two's-complement
/// arithmetic wraps it (for `v` within one wrap of the range).
pub open spec fn wrap_i64(v: int) -> int {
    if v > i64::MAX {
        v - 0x1_0000_0000_0000_0000
    } else if v < i64::MIN {
        v + 0x1_0000_0000_0000_0000
    } else {
        v
    }
}

/// A full-image edge `global` as a tile coordinate: converted to a signed
/// 64-bit value, shifted by the tile origin (both wrapping), and clamped to
/// the tile.
pub open spec fn tile_coordinate(global: int, origin: int, extent: nat) -> int {
    clamp(wrap_i64(wrap_i64(global) - origin), 0, extent as int)
}

/// The first tile pixel a patch edge at `p` (source raster) reaches.
pub open spec fn project_start(p: nat, full: nat, source: nat, origin: int, extent: nat) -> int {
    tile_coordinate((p * full) as int / source as int, origin, extent)
}

/// The tile pixel after the last one a patch edge at `q` reaches.
pub open spec fn project_end(q: nat, full: nat, source: nat, origin: int, extent: nat) -> int {
    tile_coordinate((q * full + source - 1) as int / source as int, origin, extent)
}

/// The tile rectangle `(x0, y0, x1, y1)` (end exclusive) that a patch
/// covers once scaled from its source raster to the full image: its start
/// rounded down, its end rounded up. An empty full image has no
/// coordinate space and a patch that is not valid (`patch_valid`, the
/// patch's own check) is refused, before the patch's extent is checked.
/// The projected edges are signed 64-bit values: an edge beyond that range
/// (only possible for a patch reaching far outside its source raster)
/// wraps, and so does its shift by the tile origin.
pub fn project_inpaint_patch(patch: PatchRect, tile: TileSpace, patch_valid: bool) -> (rect: Result<
    (u32, u32, u32, u32),
    String,
>)
    requires
        patch_valid && tile.full_width > 0 && tile.full_height > 0 ==> {
            &&& patch.source_width > 0
            &&& patch.source_height > 0
        },
    ensures
        match rect {
            Ok((x0, y0, x1, y1)) => {
                &&& tile.full_width > 0
                &&& tile.full_height > 0
                &&& patch_valid
                &&& patch.x + patch.width <= u32::MAX
                &&& patch.y + patch.height <= u32::MAX
                &&& x0 == project_start(
                    patch.x as nat,
                    tile.full_width as nat,
                    patch.source_width as nat,
                    tile.origin_x as int,
                    tile.width as nat,
                )
                &&& y0 == project_start(
                    patch.y as nat,
                    tile.full_height as nat,
                    patch.source_height as nat,
                    tile.origin_y as int,
                    tile.height as nat,
                )
                &&& x1 == project_end(
                    (patch.x + patch.width) as nat,
                    tile.full_width as nat,
                    patch.source_width as nat,
                    tile.origin_x as int,
                    tile.width as nat,
                )
                &&& y1 == project_end(
                    (patch.y + patch.height) as nat,
                    tile.full_height as nat,
                    patch.source_height as nat,
                    tile.origin_y as int,
                    tile.height as nat,
                )
            },
            Err(message) => if tile.full_width == 0 || tile.full_height == 0 {
                message@ == "invalid inpaint coordinate space for GPU upload"@
            } else if !patch_valid {
                message@ == "invalid inpaint patch for GPU upload"@
            } else if patch.x + patch.width > u32::MAX {
                message@ == "inpaint patch horizontal extent overflows"@
            } else {
                patch.y + patch.height > u32::MAX && message@
                    == "inpaint patch vertical extent overflows"@
            },
        },
{
    if tile.full_width == 0 || tile.full_height == 0 {
        return Err(String::from_str("invalid inpaint coordinate space for GPU upload"));
    }
    if !patch_valid {
        return Err(String::from_str("invalid inpaint patch for GPU upload"));
    }
    if patch.width > u32::MAX - patch.x {
        return Err(String::from_str("inpaint patch horizontal extent overflows"));
    }
    if patch.height > u32::MAX - patch.y {
        return Err(String::from_str("inpaint patch vertical extent overflows"));
    }
    let right: u64 = (patch.x + patch.width) as u64;
    let bottom: u64 = (patch.y + patch.height) as u64;
    let full_w: u64 = tile.full_width as u64;
    let full_h: u64 = tile.full_height as u64;
    let source_w: u64 = patch.source_width as u64;
    let source_h: u64 = patch.source_height as u64;
    proof {
        assert(patch.x as u64 * full_w <= 0xffff_ffffu64 * 0xffff_ffffu64) by (nonlinear_arith)
            requires
                patch.x <= 0xffff_ffffu32,
                full_w <= 0xffff_ffffu64,
        ;
        assert(patch.y as u64 * full_h <= 0xffff_ffffu64 * 0xffff_ffffu64) by (nonlinear_arith)
            requires
                patch.y <= 0xffff_ffffu32,
                full_h <= 0xffff_ffffu64,
        ;
        assert(right * full_w <= 0xffff_ffffu64 * 0xffff_ffffu64) by (nonlinear_arith)
            requires
                right <= 0xffff_ffffu64,
                full_w <= 0xffff_ffffu64,
        ;
        assert(bottom * full_h <= 0xffff_ffffu64 * 0xffff_ffffu64) by (nonlinear_arith)
            requires
                bottom <= 0xffff_ffffu64,
                full_h <= 0xffff_ffffu64,
        ;
    }
    let gx0: u64 = (patch.x as u64 * full_w) / source_w;
    let gy0: u64 = (patch.y as u64 * full_h) / source_h;
    let gx1: u64 = (right * full_w + source_w - 1) / source_w;
    let gy1: u64 = (bottom * full_h + source_h - 1) / source_h;
    let x0 = clamp_to_tile(gx0, tile.origin_x, tile.width);
    let y0 = clamp_to_tile(gy0, tile.origin_y, tile.height);
    let x1 = clamp_to_tile(gx1, tile.origin_x, tile.width);
    let y1 = clamp_to_tile(gy1, tile.origin_y, tile.height);
    Ok((x0, y0, x1, y1))
}

/// `v` reduced into the signed 64-bit range.
fn wrap_to_i64(v: i128) -> (wrapped: i128)
    requires
        -0x1_8000_0000_0000_0000 <= v < 0x1_8000_0000_0000_0000,
    ensures
        wrapped == wrap_i64(v as int),
        i64::MIN <= wrapped <= i64::MAX,
{
    if v > i64::MAX as i128 {
        v - 0x1_0000_0000_0000_0000i128
    } else if v < i64::MIN as i128 {
        v + 0x1_0000_0000_0000_0000i128
    } else {
        v
    }
}

/// A full-image coordinate as a tile coordinate, clamped to the tile.
fn clamp_to_tile(global: u64, origin: i32, extent: u32) -> (local: u32)
    ensures
        local == tile_coordinate(global as int, origin as int, extent as nat),
{
    let converted = wrap_to_i64(global as i128);
    let shifted = wrap_to_i64(converted - origin as i128);
    if shifted < 0 {
        0
    } else if shifted > extent as i128 {
        extent
    } else {
        shifted as u32
    }
}

/// The error for a tile of `tile` size sent to a pipeline of `pipeline`
/// size.
pub open spec fn tile_mismatch_message(tile: (u32, u32), pipeline: (u32, u32)) -> Seq<char> {
    "tile dimensions "@ + decimal(tile.0 as nat) + "x"@ + decimal(tile.1 as nat)
        + " do not match reusable pipeline "@ + decimal(pipeline.0 as nat) + "x"@ + decimal(
        pipeline.1 as nat,
    )
}

/// A reusable export pipeline takes only tiles of its own size.
pub fn check_tile_dimensions(tile: (u32, u32), pipeline: (u32, u32)) -> (checked: Result<(), String>)
    ensures
        checked is Ok <==> tile == pipeline,
        checked matches Err(message) ==> message@ == tile_mismatch_message(tile, pipeline),
{
    if tile.0 == pipeline.0 && tile.1 == pipeline.1 {
        return Ok(());
    }
    let mut message = String::from_str("tile dimensions ");
    message.append(decimal_text(tile.0 as u64).as_str());
    message.append("x");
    message.append(decimal_text(tile.1 as u64).as_str());
    message.append(" do not match reusable pipeline ");
    message.append(decimal_text(pipeline.0 as u64).as_str());
    message.append("x");
    message.append(decimal_text(pipeline.1 as u64).as_str());
    Err(message)
}

/// Whether a region of `source_width` x `source_height` at (`source_x`,
/// `source_y`), resized to `output_width` x `output_height`, can be read from
/// a working scene of `scene` size: nothing is empty and the region lies
/// inside the scene.
pub open spec fn resize_rectangle_fits(
    scene: (u32, u32),
    source_x: u32,
    source_y: u32,
    source_width: u32,
    source_height: u32,
    output_width: u32,
    output_height: u32,
) -> bool {
    &&& source_width > 0 && source_height > 0
    &&& output_width > 0 && output_height > 0
    &&& source_x + source_width <= scene.0
    &&& source_y + source_height <= scene.1
}

/// Checks the rectangle of an inpainting resize read from a working scene
/// of `scene` size (see `resize_rectangle_fits`).
pub fn check_inpaint_resize_rectangle(
    scene: (u32, u32),
    source_x: u32,
    source_y: u32,
    source_width: u32,
    source_height: u32,
    output_width: u32,
    output_height: u32,
) -> (checked: Result<(), String>)
    ensures
        checked is Ok <==> resize_rectangle_fits(
            scene,
            source_x,
            source_y,
            source_width,
            source_height,
            output_width,
            output_height,
        ),
        checked matches Err(message) ==> message@ == "invalid inpainting resize rectangle"@,
{
    let right = source_x.checked_add(source_width);
    let bottom = source_y.checked_add(source_height);
    let outside = match (right, bottom) {
        (Some(right), Some(bottom)) => right > scene.0 || bottom > scene.1,
        _ => true,
    };
    if source_width == 0 || source_height == 0 || output_width == 0 || output_height == 0 || outside {
        return Err(String::from_str("invalid inpainting resize rectangle"));
    }
    Ok(())
}

/// A developed thumbnail is read back only for a non-zero longest edge.
pub fn check_thumbnail_edge(maximum_edge: u32) -> (checked: Result<(), String>)
    ensures
        checked is Ok <==> maximum_edge > 0,
        checked matches Err(message) ==> message@ == "thumbnail edge must be non-zero"@,
{
    if maximum_edge == 0 {
        return Err(String::from_str("thumbnail edge must be non-zero"));
    }
    Ok(())
}

} // verus!
