use vstd::prelude::*;

use crate::config::{ColorMode, MonitorIdentity, MonitorTarget};

verus! {

/// DXGI format code of a 16-bit float RGBA back buffer (HDR).
pub const DXGI_FORMAT_R16G16B16A16_FLOAT: u32 = 10;

/// DXGI format code of an 8-bit BGRA back buffer (SDR).
pub const DXGI_FORMAT_B8G8R8A8_UNORM: u32 = 87;

/// The back-buffer formats the LUT pass can draw into.
#[derive(Debug, Clone, Copy, PartialEq, Eq, Structural)]
pub enum BackBufferFormat {
    Bgra8Unorm,
    Rgba16Float,
}

pub open spec fn format_from_dxgi(format: u32) -> Option<BackBufferFormat> {
    if format == DXGI_FORMAT_B8G8R8A8_UNORM {
        Some(BackBufferFormat::Bgra8Unorm)
    } else if format == DXGI_FORMAT_R16G16B16A16_FLOAT {
        Some(BackBufferFormat::Rgba16Float)
    } else {
        None
    }
}

pub open spec fn format_color_mode(format: BackBufferFormat) -> ColorMode {
    match format {
        BackBufferFormat::Bgra8Unorm => ColorMode::Sdr,
        BackBufferFormat::Rgba16Float => ColorMode::Hdr,
    }
}

impl BackBufferFormat {
    /// The format a DXGI format code stands for, if the LUT pass supports it.
    pub fn from_dxgi_format(format: u32) -> (r: Option<BackBufferFormat>)
        ensures
            r == format_from_dxgi(format),
    {
        if format == DXGI_FORMAT_B8G8R8A8_UNORM {
            Some(BackBufferFormat::Bgra8Unorm)
        } else if format == DXGI_FORMAT_R16G16B16A16_FLOAT {
            Some(BackBufferFormat::Rgba16Float)
        } else {
            None
        }
    }

    /// Whether the format carries HDR (scRGB float) content.
    pub fn is_hdr(self) -> (r: bool)
        ensures
            r == (self == BackBufferFormat::Rgba16Float),
    {
        match self {
            BackBufferFormat::Rgba16Float => true,
            BackBufferFormat::Bgra8Unorm => false,
        }
    }

    /// The colour mode whose LUT applies to this format.
    pub fn color_mode(self) -> (r: ColorMode)
        ensures
            r == format_color_mode(self),
    {
        match self {
            BackBufferFormat::Bgra8Unorm => ColorMode::Sdr,
            BackBufferFormat::Rgba16Float => ColorMode::Hdr,
        }
    }
}

/// The composition clip box of an overlay context.
#[derive(Debug, Clone, Copy, PartialEq, Eq, Structural)]
pub struct ClipBox {
    pub left: i32,
    pub top: i32,
    pub right: i32,
    pub bottom: i32,
}

/// A rectangle of a frame that changed since the previous present.
#[derive(Debug, Clone, Copy, PartialEq, Eq, Structural)]
pub struct DirtyRect {
    pub left: i32,
    pub top: i32,
    pub right: i32,
    pub bottom: i32,
}

/// A LUT loaded for a monitor and colour mode: its target and its edge size.
/// The LUT's domain and texels stay with the renderer, found again by the
/// LUT's index in the pipeline.
#[derive(Debug, Clone, Copy, PartialEq, Eq, Structural)]
pub struct LoadedLut {
    pub target: MonitorTarget,
    pub size: u32,
}

/// The integer shader constants of a LUT draw: the LUT edge size and whether
/// the frame is HDR (1) or SDR (0).
#[derive(Debug, Clone, Copy, PartialEq, Eq, Structural)]
pub struct ShaderConstants {
    pub lut_size: u32,
    pub hdr: u32,
}

/// Entry points and profiles of the LUT shader program.
#[derive(Debug, Clone, PartialEq, Eq)]
pub struct LutShaderProgram {
    pub source: &'static str,
    pub vertex_entry: &'static str,
    pub pixel_entry: &'static str,
    pub vertex_profile: &'static str,
    pub pixel_profile: &'static str,
}

impl LutShaderProgram {
    /// The program built from the given shader source: vertex entry `VS`,
    /// pixel entry `PS`, shader model 5.0 profiles.
    pub fn embedded(source: &'static str) -> (p: LutShaderProgram)
        ensures
            p.source == source,
            p.vertex_entry@ == "VS"@,
            p.pixel_entry@ == "PS"@,
            p.vertex_profile@ == "vs_5_0"@,
            p.pixel_profile@ == "ps_5_0"@,
    {
        LutShaderProgram {
            source,
            vertex_entry: "VS",
            pixel_entry: "PS",
            vertex_profile: "vs_5_0",
            pixel_profile: "ps_5_0",
        }
    }
}

/// The LUTs of the current payload, in payload order, and the shader that draws them.
#[derive(Debug, Clone, PartialEq, Eq)]
pub struct LutPipeline {
    pub luts: Vec<LoadedLut>,
    pub shader: LutShaderProgram,
}

/// How many LUTs a pipeline holds and its pixel shader profile.
#[derive(Debug, Clone, PartialEq, Eq)]
pub struct LutPipelineSummary {
    pub lut_count: usize,
    pub shader_profile: &'static str,
}

/// What drawing one present with a LUT takes.
#[derive(Debug, Clone, PartialEq, Eq)]
pub struct LutRenderPlan {
    pub format: BackBufferFormat,
    pub clip_box: ClipBox,
    pub dirty_rects: Vec<DirtyRect>,
    pub lut_index: usize,
    pub shader_constants: ShaderConstants,
}

/// Whether LUT `lut` is the one for `identity` in `mode`.
pub open spec fn lut_matches(lut: LoadedLut, identity: MonitorIdentity, mode: ColorMode) -> bool {
    lut.target.identity == identity && lut.target.color_mode == mode
}

/// Index of the first LUT for `identity` in `mode`, if any.
pub open spec fn first_matching_lut(luts: Seq<LoadedLut>, identity: MonitorIdentity, mode: ColorMode) -> Option<int> {
    if exists|i: int| 0 <= i < luts.len() && lut_matches(luts[i], identity, mode) {
        Some(
            choose|i: int|
                0 <= i < luts.len() && lut_matches(luts[i], identity, mode) && forall|j: int|
                    0 <= j < i ==> !lut_matches(luts[j], identity, mode),
        )
    } else {
        None
    }
}

/// The plan for drawing LUT `index` in `format`.
pub open spec fn plan_for_index(
    luts: Seq<LoadedLut>,
    clip_box: ClipBox,
    format: BackBufferFormat,
    dirty_rects: Seq<DirtyRect>,
    index: int,
    plan: LutRenderPlan,
) -> bool {
    &&& plan.format == format
    &&& plan.clip_box == clip_box
    &&& plan.dirty_rects@ == dirty_rects
    &&& plan.lut_index == index
    &&& plan.shader_constants.lut_size == luts[index].size
    &&& plan.shader_constants.hdr == (if format == BackBufferFormat::Rgba16Float {
        1u32
    } else {
        0u32
    })
}

/// What a present on monitor `identity` is drawn with: the plan for the first
/// LUT of that monitor in the frame's colour mode, or nothing where the frame
/// format is not supported or the monitor has no such LUT.
pub open spec fn monitor_plan_outcome(
    luts: Seq<LoadedLut>,
    identity: MonitorIdentity,
    clip_box: ClipBox,
    dxgi_format: u32,
    dirty_rects: Seq<DirtyRect>,
    r: Option<LutRenderPlan>,
) -> bool {
    match r {
        Some(plan) => {
            &&& format_from_dxgi(dxgi_format) is Some
            &&& first_matching_lut(
                luts,
                identity,
                format_color_mode(format_from_dxgi(dxgi_format).unwrap()),
            ) == Some(plan.lut_index as int)
            &&& plan_for_index(
                luts,
                clip_box,
                format_from_dxgi(dxgi_format).unwrap(),
                dirty_rects,
                plan.lut_index as int,
                plan,
            )
        },
        None => format_from_dxgi(dxgi_format) is None || first_matching_lut(
            luts,
            identity,
            format_color_mode(format_from_dxgi(dxgi_format).unwrap()),
        ) is None,
    }
}

/// What a present is drawn with when the LUT is chosen by index: the plan
/// for LUT `lut_index` where it exists and belongs to the colour mode of a
/// supported frame format, else nothing.
pub open spec fn lut_index_plan_outcome(
    luts: Seq<LoadedLut>,
    clip_box: ClipBox,
    dxgi_format: u32,
    dirty_rects: Seq<DirtyRect>,
    lut_index: usize,
    r: Option<LutRenderPlan>,
) -> bool {
    match r {
        Some(plan) => {
            &&& format_from_dxgi(dxgi_format) is Some
            &&& lut_index < luts.len()
            &&& luts[lut_index as int].target.color_mode == format_color_mode(
                format_from_dxgi(dxgi_format).unwrap(),
            )
            &&& plan_for_index(
                luts,
                clip_box,
                format_from_dxgi(dxgi_format).unwrap(),
                dirty_rects,
                lut_index as int,
                plan,
            )
        },
        None => format_from_dxgi(dxgi_format) is None || lut_index >= luts.len()
            || luts[lut_index as int].target.color_mode != format_color_mode(
            format_from_dxgi(dxgi_format).unwrap(),
        ),
    }
}

/// Position of the first LUT for `identity` in `mode`.
pub fn find_lut(luts: &Vec<LoadedLut>, identity: MonitorIdentity, mode: ColorMode) -> (r: Option<usize>)
    ensures
        match r {
            Some(i) => first_matching_lut(luts@, identity, mode) == Some(i as int) && i < luts@.len(),
            None => first_matching_lut(luts@, identity, mode) is None,
        },
{
    let mut i: usize = 0;
    while i < luts.len()
        invariant
            i <= luts@.len(),
            forall|j: int| 0 <= j < i ==> !lut_matches(#[trigger] luts@[j], identity, mode),
        decreases luts@.len() - i,
    {
        let lut = luts[i];
        if lut.target.identity == identity && lut.target.color_mode == mode {
            proof {
                let s = luts@;
                assert(lut_matches(s[i as int], identity, mode));
                let k = choose|k: int|
                    0 <= k < s.len() && lut_matches(s[k], identity, mode) && forall|j: int|
                        0 <= j < k ==> !lut_matches(s[j], identity, mode);
                assert(k == i) by {
                    if k < i {
                        assert(!lut_matches(s[k], identity, mode));
                    }
                    if k > i {
                        assert(!lut_matches(s[i as int], identity, mode));
                    }
                }
            }
            return Some(i);
        }
        i = i + 1;
    }
    None
}

fn copy_rects(rects: &[DirtyRect]) -> (v: Vec<DirtyRect>)
    ensures
        v@ == rects@,
{
    let mut v: Vec<DirtyRect> = Vec::new();
    let mut i: usize = 0;
    while i < rects.len()
        invariant
            i <= rects@.len(),
            v@ == rects@.subrange(0, i as int),
        decreases rects@.len() - i,
    {
        v.push(rects[i]);
        i = i + 1;
        assert(v@ =~= rects@.subrange(0, i as int));
    }
    assert(rects@.subrange(0, i as int) =~= rects@);
    v
}

impl LutPipeline {
    /// A pipeline over the given LUTs and shader program.
    pub fn new(luts: Vec<LoadedLut>, shader: LutShaderProgram) -> (p: LutPipeline)
        ensures
            p.luts@ == luts@,
            p.shader == shader,
    {
        LutPipeline { luts, shader }
    }

    /// The LUT count and pixel shader profile.
    pub fn summary(&self) -> (s: LutPipelineSummary)
        ensures
            s.lut_count == self.luts@.len(),
            s.shader_profile == self.shader.pixel_profile,
    {
        LutPipelineSummary { lut_count: self.luts.len(), shader_profile: self.shader.pixel_profile }
    }

    /// Index of the first LUT assigned to `identity` for the colour mode of `format`.
    pub fn select_lut_index_for_monitor_identity(
        &self,
        identity: MonitorIdentity,
        format: BackBufferFormat,
    ) -> (r: Option<usize>)
        ensures
            match r {
                Some(i) => first_matching_lut(self.luts@, identity, format_color_mode(format))
                    == Some(i as int) && i < self.luts@.len(),
                None => first_matching_lut(self.luts@, identity, format_color_mode(format)) is None,
            },
    {
        let mode = format.color_mode();
        find_lut(&self.luts, identity, mode)
    }

    /// The plan for a present on the monitor `identity`: the frame format must
    /// be supported and a LUT must be assigned to the monitor for the
    /// format's colour mode; the first such LUT is used.
    pub fn build_present_plan_for_monitor_identity(
        &self,
        identity: MonitorIdentity,
        clip_box: ClipBox,
        dxgi_format: u32,
        dirty_rects: &[DirtyRect],
    ) -> (r: Option<LutRenderPlan>)
        ensures
            monitor_plan_outcome(self.luts@, identity, clip_box, dxgi_format, dirty_rects@, r),
    {
        let format = match BackBufferFormat::from_dxgi_format(dxgi_format) {
            Some(f) => f,
            None => return None,
        };
        let lut_index = match self.select_lut_index_for_monitor_identity(identity, format) {
            Some(i) => i,
            None => return None,
        };
        self.build_present_plan_for_index(clip_box, format, dirty_rects, lut_index)
    }

    /// The plan for drawing LUT `lut_index`, which must exist and belong to
    /// the colour mode of the frame format.
    pub fn build_present_plan_for_lut_index(
        &self,
        clip_box: ClipBox,
        dxgi_format: u32,
        dirty_rects: &[DirtyRect],
        lut_index: usize,
    ) -> (r: Option<LutRenderPlan>)
        ensures
            lut_index_plan_outcome(self.luts@, clip_box, dxgi_format, dirty_rects@, lut_index, r),
    {
        let format = match BackBufferFormat::from_dxgi_format(dxgi_format) {
            Some(f) => f,
            None => return None,
        };
        if lut_index >= self.luts.len() {
            return None;
        }
        if self.luts[lut_index].target.color_mode != format.color_mode() {
            return None;
        }
        self.build_present_plan_for_index(clip_box, format, dirty_rects, lut_index)
    }

    fn build_present_plan_for_index(
        &self,
        clip_box: ClipBox,
        format: BackBufferFormat,
        dirty_rects: &[DirtyRect],
        lut_index: usize,
    ) -> (r: Option<LutRenderPlan>)
        requires
            lut_index < self.luts@.len(),
        ensures
            r matches Some(plan) && plan_for_index(
                self.luts@,
                clip_box,
                format,
                dirty_rects@,
                lut_index as int,
                plan,
            ),
    {
        let hdr: u32 = if format.is_hdr() {
            1
        } else {
            0
        };
        Some(
            LutRenderPlan {
                format,
                clip_box,
                dirty_rects: copy_rects(dirty_rects),
                lut_index,
                shader_constants: ShaderConstants { lut_size: self.luts[lut_index].size, hdr },
            },
        )
    }
}


/// `v` limited to at most `max`.
pub open spec fn at_most(v: int, max: int) -> int {
    if v > max {
        max
    } else {
        v
    }
}

/// Where a cube of `size` entries per axis keeps the texel at (`red`,
/// `green`, `blue`), each coordinate clamped into the cube: red varies
/// fastest and blue slowest.
pub open spec fn texel_position(size: int, red: int, green: int, blue: int) -> int {
    at_most(blue, size - 1) * size * size + at_most(green, size - 1) * size + at_most(red, size - 1)
}

proof fn lemma_texel_position_in_cube(s: int, r: int, g: int, b: int)
    requires
        0 < s,
        0 <= r < s,
        0 <= g < s,
        0 <= b < s,
    ensures
        0 <= b * s * s + g * s + r < s * s * s,
        0 <= b * s <= s * s,
        0 <= b * s * s <= s * s * s,
        g * s <= s * s,
{
    assert(b * s * s + g * s + r < s * s * s) by (nonlinear_arith)
        requires
            0 < s,
            0 <= r < s,
            0 <= g < s,
            0 <= b < s,
    ;
    assert(0 <= b * s <= s * s) by (nonlinear_arith)
        requires
            0 < s,
            0 <= b < s,
    ;
    assert(0 <= b * s * s <= s * s * s) by (nonlinear_arith)
        requires
            0 < s,
            0 <= b < s,
    ;
    assert(0 <= g * s <= s * s) by (nonlinear_arith)
        requires
            0 < s,
            0 <= g < s,
    ;
    assert(0 <= b * s * s + g * s + r) by (nonlinear_arith)
        requires
            0 < s,
            0 <= r,
            0 <= g,
            0 <= b,
    ;
}

/// The index, in a cube's list of `size`³ values, of the texel at (`red`,
/// `green`, `blue`) clamped into the cube.
pub fn cube_texel_index(size: u32, red: u32, green: u32, blue: u32) -> (i: usize)
    requires
        0 < size,
        size * size * size <= usize::MAX,
    ensures
        i == texel_position(size as int, red as int, green as int, blue as int),
        i < size * size * size,
{
    let max = size - 1;
    let red = if red > max {
        max
    } else {
        red
    };
    let green = if green > max {
        max
    } else {
        green
    };
    let blue = if blue > max {
        max
    } else {
        blue
    };
    proof {
        lemma_texel_position_in_cube(size as int, red as int, green as int, blue as int);
        assert(size * size <= size * size * size) by (nonlinear_arith)
            requires
                0 < size,
        ;
    }
    let s = size as usize;
    let plane = (blue as usize) * s;
    let plane = plane * s;
    let row = (green as usize) * s;
    plane + row + red as usize
}

} // verus!
