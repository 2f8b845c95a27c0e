use vstd::prelude::*;

use crate::binding::{correction_signature, correction_signature_spec, Access, BindingSlot, ResourceKind};
use crate::dispatch::{ceil_div, workgroup_count, WORKGROUP_SIZE};

verus! {

/// An error found while putting a stage together; never retried.
#[derive(Clone, Copy, Debug, PartialEq, Eq, Structural)]
pub enum ConfigError {
    /// The supplied resources do not match the kernel's declared slots, kinds and access modes.
    BindingMismatch,
    /// Two bound images differ in width or height.
    ShapeMismatch,
    /// A histogram was asked for with no bins to count into.
    NoBins,
}

/// One entry of a command recording, in the order the device will execute it.
#[derive(Clone, Copy, Debug, PartialEq, Eq, Structural)]
pub enum Command {
    /// Write the device clock into slot `query` of the timestamp query set.
    WriteTimestamp { query: u32 },
    /// Make `kernel` the current compute kernel.
    SetKernel { kernel: u32 },
    /// Bind the resource set `group` at bind-group index `index`.
    SetBindGroup { index: u32, group: u32 },
    /// Launch an `x` by `y` by `z` grid of workgroups.
    Dispatch { x: u64, y: u32, z: u32 },
}

/// A concrete resource wired into one slot. `width` and `height` are the extent of an image;
/// for other kinds they are not read.
#[derive(Clone, Copy, Debug, PartialEq, Eq, Structural)]
pub struct BoundResource {
    pub binding: BindingSlot,
    pub handle: u32,
    pub width: u32,
    pub height: u32,
}

pub open spec fn is_image(k: ResourceKind) -> bool {
    k == ResourceKind::SampledImage || k == ResourceKind::StorageImage
}

/// The binding signature that a list of resources presents.
pub open spec fn bindings_of(rs: Seq<BoundResource>) -> Seq<BindingSlot> {
    rs.map_values(|r: BoundResource| r.binding)
}

/// Every two images among `rs` have the same width and height.
pub open spec fn shapes_agree(rs: Seq<BoundResource>) -> bool {
    forall|i: int, j: int|
        0 <= i < rs.len() && 0 <= j < rs.len() && is_image(#[trigger] rs[i].binding.kind) && is_image(
            #[trigger] rs[j].binding.kind,
        ) ==> rs[i].width == rs[j].width && rs[i].height == rs[j].height
}

/// `(w, h)` is the shape of the images among `rs`, or `(0, 0)` where there is none.
pub open spec fn surface_shape_is(rs: Seq<BoundResource>, w: u32, h: u32) -> bool {
    &&& forall|i: int|
        0 <= i < rs.len() && is_image(#[trigger] rs[i].binding.kind) ==> rs[i].width == w
            && rs[i].height == h
    &&& (forall|i: int| 0 <= i < rs.len() ==> !is_image(#[trigger] rs[i].binding.kind)) ==> w == 0
        && h == 0
}

/// The commands that one dispatch of `kernel` with bind group `group` over a `w` by `h`
/// surface appends to a recording.
pub open spec fn stage_commands(kernel: u32, group: u32, w: u32, h: u32) -> Seq<Command> {
    seq![
        Command::SetKernel { kernel },
        Command::SetBindGroup { index: 0, group },
        Command::Dispatch {
            x: ceil_div(w as int * h as int, WORKGROUP_SIZE as int) as u64,
            y: 1,
            z: 1,
        },
    ]
}

/// A correction kernel together with its declared layout and the resources bound to it.
/// Built once, with every resource checked against the layout; not changed afterwards.
pub struct CorrectionStage {
    pub kernel: u32,
    pub bind_group: u32,
    pub layout: Vec<BindingSlot>,
    pub resources: Vec<BoundResource>,
    pub params: Vec<u8>,
    pub width: u32,
    pub height: u32,
}

/// Checks that all images among `rs` share one shape, and returns that shape
/// (`(0, 0)` where `rs` holds no image).
fn common_shape(rs: &Vec<BoundResource>) -> (r: Option<(u32, u32)>)
    ensures
        r.is_some() == shapes_agree(rs@),
        r matches Some((w, h)) ==> surface_shape_is(rs@, w, h),
{
    let mut shape: Option<(u32, u32)> = None;
    let ghost mut first: int = 0;
    let mut i: usize = 0;
    while i < rs.len()
        invariant
            i <= rs@.len(),
            shape is None <==> (forall|j: int| 0 <= j < i ==> !is_image(#[trigger] rs@[j].binding.kind)),
            shape matches Some((w, h)) ==> {
                &&& 0 <= first < i
                &&& is_image(rs@[first].binding.kind)
                &&& forall|j: int|
                    0 <= j < i && is_image(#[trigger] rs@[j].binding.kind) ==> rs@[j].width == w
                        && rs@[j].height == h
            },
        decreases rs@.len() - i,
    {
        let r = rs[i];
        if r.binding.kind == ResourceKind::SampledImage || r.binding.kind == ResourceKind::StorageImage {
            match shape {
                None => {
                    shape = Some((r.width, r.height));
                    proof {
                        first = i as int;
                    }
                },
                Some((w, h)) => {
                    if r.width != w || r.height != h {
                        assert(!shapes_agree(rs@)) by {
                            assert(is_image(rs@[first].binding.kind) && is_image(rs@[i as int].binding.kind));
                        }
                        return None;
                    }
                },
            }
        }
        i = i + 1;
    }
    match shape {
        None => Some((0, 0)),
        Some((w, h)) => Some((w, h)),
    }
}

impl CorrectionStage {
    /// The stage's resources match its layout and agree on one surface shape.
    pub open spec fn wf(&self) -> bool {
        &&& self.layout@ == bindings_of(self.resources@)
        &&& shapes_agree(self.resources@)
        &&& surface_shape_is(self.resources@, self.width, self.height)
    }

    /// Number of samples of the surface the stage writes.
    pub open spec fn element_count(&self) -> int {
        self.width as int * self.height as int
    }

    /// What `record` appends.
    pub open spec fn commands(&self) -> Seq<Command> {
        stage_commands(self.kernel, self.bind_group, self.width, self.height)
    }

    /// Pairs `kernel`, whose declared signature is `layout`, with the resources that fill it.
    /// Fails with `BindingMismatch` unless the resources present exactly the layout, slot for
    /// slot, and then with `ShapeMismatch` unless all bound images share one shape.
    pub fn build(
        kernel: u32,
        bind_group: u32,
        layout: Vec<BindingSlot>,
        resources: Vec<BoundResource>,
        params: Vec<u8>,
    ) -> (r: Result<CorrectionStage, ConfigError>)
        ensures
            layout@ != bindings_of(resources@) ==> r == Err::<CorrectionStage, ConfigError>(
                ConfigError::BindingMismatch,
            ),
            layout@ == bindings_of(resources@) && !shapes_agree(resources@) ==> r == Err::<
                CorrectionStage,
                ConfigError,
            >(ConfigError::ShapeMismatch),
            layout@ == bindings_of(resources@) && shapes_agree(resources@) ==> r is Ok,
            r matches Ok(s) ==> {
                &&& s.wf()
                &&& s.kernel == kernel
                &&& s.bind_group == bind_group
                &&& s.layout@ == layout@
                &&& s.resources@ == resources@
                &&& s.params@ == params@
            },
    {
        let mut supplied: Vec<BindingSlot> = Vec::new();
        let mut i: usize = 0;
        while i < resources.len()
            invariant
                i <= resources@.len(),
                supplied@ == bindings_of(resources@.take(i as int)),
            decreases resources@.len() - i,
        {
            supplied.push(resources[i].binding);
            i = i + 1;
            assert(bindings_of(resources@.take(i as int)) =~= bindings_of(
                resources@.take(i - 1 as int),
            ).push(resources@[i - 1 as int].binding));
        }
        assert(resources@.take(resources@.len() as int) =~= resources@);
        if !crate::binding::signatures_match(&layout, &supplied) {
            return Err(ConfigError::BindingMismatch);
        }
        match common_shape(&resources) {
            None => Err(ConfigError::ShapeMismatch),
            Some((width, height)) => Ok(
                CorrectionStage { kernel, bind_group, layout, resources, params, width, height },
            ),
        }
    }

    /// Appends to an open recording: select the kernel, bind the resource set at index 0, and
    /// dispatch `ceil(width * height / 256)` workgroups. Nothing runs until the recording is
    /// submitted.
    pub fn record(&self, rec: &mut Vec<Command>)
        ensures
            final(rec)@ == old(rec)@ + self.commands(),
    {
        assert(self.width as int * self.height as int <= 0xffff_ffff * 0xffff_ffff) by (nonlinear_arith)
            requires
                self.width <= 0xffff_ffff,
                self.height <= 0xffff_ffff,
        ;
        let elements = self.width as u64 * self.height as u64;
        let x = workgroup_count(elements);
        rec.push(Command::SetKernel { kernel: self.kernel });
        rec.push(Command::SetBindGroup { index: 0, group: self.bind_group });
        rec.push(Command::Dispatch { x, y: 1, z: 1 });
        assert(rec@ =~= old(rec)@ + self.commands());
    }
}

/// One slot whose number, kind or access mode differs from the declared layout is enough for
/// the resources not to present that layout, so that `build` fails with `BindingMismatch`.
pub proof fn lemma_one_mismatched_slot(layout: Seq<BindingSlot>, resources: Seq<BoundResource>, i: int)
    requires
        0 <= i < layout.len(),
        layout.len() == resources.len(),
        resources[i].binding != layout[i],
    ensures
        layout != bindings_of(resources),
{
    assert(bindings_of(resources)[i] == resources[i].binding);
}

/// An image surface as a stage sees it: a handle and its extent.
#[derive(Clone, Copy, Debug, PartialEq, Eq, Structural)]
pub struct Surface {
    pub handle: u32,
    pub width: u32,
    pub height: u32,
}

/// The resources of a correction kernel, in slot order: input image, correction map, output
/// image, parameter block.
pub open spec fn correction_resources_spec(
    image: Surface,
    map: Surface,
    output: Surface,
    uniform: u32,
) -> Seq<BoundResource> {
    seq![
        BoundResource {
            binding: BindingSlot { slot: 0, kind: ResourceKind::SampledImage, access: Access::ReadOnly },
            handle: image.handle,
            width: image.width,
            height: image.height,
        },
        BoundResource {
            binding: BindingSlot { slot: 1, kind: ResourceKind::SampledImage, access: Access::ReadOnly },
            handle: map.handle,
            width: map.width,
            height: map.height,
        },
        BoundResource {
            binding: BindingSlot { slot: 2, kind: ResourceKind::StorageImage, access: Access::WriteOnly },
            handle: output.handle,
            width: output.width,
            height: output.height,
        },
        BoundResource {
            binding: BindingSlot { slot: 3, kind: ResourceKind::UniformBlock, access: Access::ReadOnly },
            handle: uniform,
            width: 0,
            height: 0,
        },
    ]
}

pub open spec fn same_shape(a: Surface, b: Surface) -> bool {
    a.width == b.width && a.height == b.height
}

/// Builds a correction stage over three surfaces and a parameter block. Fails with
/// `ShapeMismatch` exactly when the surfaces differ in width or height.
pub fn correction_stage(
    kernel: u32,
    bind_group: u32,
    image: Surface,
    map: Surface,
    output: Surface,
    uniform: u32,
    params: Vec<u8>,
) -> (r: Result<CorrectionStage, ConfigError>)
    ensures
        !(same_shape(image, map) && same_shape(image, output)) ==> r == Err::<
            CorrectionStage,
            ConfigError,
        >(ConfigError::ShapeMismatch),
        same_shape(image, map) && same_shape(image, output) ==> (r matches Ok(s) && s.wf()
            && s.kernel == kernel && s.bind_group == bind_group && s.width == image.width
            && s.height == image.height && s.layout@ == correction_signature_spec()
            && s.resources@ == correction_resources_spec(image, map, output, uniform)
            && s.params@ == params@),
{
    let resources = vec![
        BoundResource {
            binding: BindingSlot { slot: 0, kind: ResourceKind::SampledImage, access: Access::ReadOnly },
            handle: image.handle,
            width: image.width,
            height: image.height,
        },
        BoundResource {
            binding: BindingSlot { slot: 1, kind: ResourceKind::SampledImage, access: Access::ReadOnly },
            handle: map.handle,
            width: map.width,
            height: map.height,
        },
        BoundResource {
            binding: BindingSlot { slot: 2, kind: ResourceKind::StorageImage, access: Access::WriteOnly },
            handle: output.handle,
            width: output.width,
            height: output.height,
        },
        BoundResource {
            binding: BindingSlot { slot: 3, kind: ResourceKind::UniformBlock, access: Access::ReadOnly },
            handle: uniform,
            width: 0,
            height: 0,
        },
    ];
    let ghost rs = correction_resources_spec(image, map, output, uniform);
    assert(resources@ =~= rs);
    assert(bindings_of(rs) =~= correction_signature_spec());
    assert(is_image(rs[0].binding.kind) && is_image(rs[1].binding.kind) && is_image(rs[2].binding.kind));
    assert(!is_image(rs[3].binding.kind));
    proof {
        if !(same_shape(image, map) && same_shape(image, output)) {
            assert(!shapes_agree(rs));
        }
    }
    let layout = correction_signature();
    CorrectionStage::build(kernel, bind_group, layout, resources, params)
}

/// Gain correction: each sample scaled by its entry of a gain map.
pub struct GainCorrectionCompute {
    pub stage: CorrectionStage,
}

impl GainCorrectionCompute {
    /// The gain stage over `image`, `gain_map` and `output`, with `params` as its parameter
    /// block (lowest and highest sample value); `ShapeMismatch` where the surfaces differ.
    pub fn new(
        kernel: u32,
        bind_group: u32,
        image: Surface,
        gain_map: Surface,
        output: Surface,
        uniform: u32,
        params: Vec<u8>,
    ) -> (r: Result<GainCorrectionCompute, ConfigError>)
        ensures
            !(same_shape(image, gain_map) && same_shape(image, output)) ==> r == Err::<
                GainCorrectionCompute,
                ConfigError,
            >(ConfigError::ShapeMismatch),
            same_shape(image, gain_map) && same_shape(image, output) ==> (r matches Ok(g)
                && g.stage.wf() && g.stage.kernel == kernel && g.stage.bind_group == bind_group
                && g.stage.width == image.width && g.stage.height == image.height
                && g.stage.resources@ == correction_resources_spec(image, gain_map, output, uniform)
                && g.stage.params@ == params@),
    {
        match correction_stage(kernel, bind_group, image, gain_map, output, uniform, params) {
            Ok(stage) => Ok(GainCorrectionCompute { stage }),
            Err(e) => Err(e),
        }
    }

    /// Records the stage's dispatch.
    pub fn run(&self, rec: &mut Vec<Command>)
        ensures
            final(rec)@ == old(rec)@ + self.stage.commands(),
    {
        self.stage.record(rec);
    }
}

/// Dark correction: each sample less its entry of a dark map, plus an offset.
pub struct DarkCorrectionCompute {
    pub stage: CorrectionStage,
}

impl DarkCorrectionCompute {
    /// The dark stage over `image`, `dark_map` and `output`, with `params` as its parameter
    /// block (the offset); `ShapeMismatch` where the surfaces differ.
    pub fn new(
        kernel: u32,
        bind_group: u32,
        image: Surface,
        dark_map: Surface,
        output: Surface,
        uniform: u32,
        params: Vec<u8>,
    ) -> (r: Result<DarkCorrectionCompute, ConfigError>)
        ensures
            !(same_shape(image, dark_map) && same_shape(image, output)) ==> r == Err::<
                DarkCorrectionCompute,
                ConfigError,
            >(ConfigError::ShapeMismatch),
            same_shape(image, dark_map) && same_shape(image, output) ==> (r matches Ok(d)
                && d.stage.wf() && d.stage.kernel == kernel && d.stage.bind_group == bind_group
                && d.stage.width == image.width && d.stage.height == image.height
                && d.stage.resources@ == correction_resources_spec(image, dark_map, output, uniform)
                && d.stage.params@ == params@),
    {
        match correction_stage(kernel, bind_group, image, dark_map, output, uniform, params) {
            Ok(stage) => Ok(DarkCorrectionCompute { stage }),
            Err(e) => Err(e),
        }
    }

    /// Records the stage's dispatch.
    pub fn run(&self, rec: &mut Vec<Command>)
        ensures
            final(rec)@ == old(rec)@ + self.stage.commands(),
    {
        self.stage.record(rec);
    }
}

/// A sample less its dark value plus `offset`, held within the range of a sample.
pub open spec fn dark_subtract(sample: u16, dark: u16, offset: u16) -> u16 {
    let v = sample as int - dark as int + offset as int;
    if v < 0 {
        0
    } else if v > u16::MAX {
        u16::MAX
    } else {
        v as u16
    }
}

/// The output that dark correction gives, sample by sample, for surfaces held in host memory.
pub fn dark_correct(image: &Vec<u16>, dark: &Vec<u16>, offset: u16) -> (r: Vec<u16>)
    requires
        image@.len() == dark@.len(),
    ensures
        r@.len() == image@.len(),
        forall|i: int| 0 <= i < r@.len() ==> #[trigger] r@[i] == dark_subtract(image@[i], dark@[i], offset),
{
    let mut out: Vec<u16> = Vec::new();
    let mut i: usize = 0;
    while i < image.len()
        invariant
            image@.len() == dark@.len(),
            i <= image@.len(),
            out@.len() == i,
            forall|k: int| 0 <= k < i ==> #[trigger] out@[k] == dark_subtract(image@[k], dark@[k], offset),
        decreases image@.len() - i,
    {
        let v: i32 = image[i] as i32 - dark[i] as i32 + offset as i32;
        let c: u16 = if v < 0 {
            0
        } else if v > 0xffff {
            0xffff
        } else {
            v as u16
        };
        out.push(c);
        i = i + 1;
    }
    out
}

} // verus!
