//! Render-state model and the pipeline resolver.
//!
//! A [`PipelineDescriptor`] holds the render state that batch compositing
//! reads and derives: stencil configuration, the depth-stencil write flag,
//! the color-write mask and the blend function. Resolution never mutates a
//! descriptor in place: each derivation copies the base and modifies the
//! copy, and returns `None` when the base can be used unchanged.

use vstd::prelude::*;

verus! {

/// What the stencil buffer does with a fragment's stencil value.
#[derive(Clone, Copy, Debug, PartialEq, Eq, Structural)]
pub enum StencilAction {
    Keep,
    Zero,
    Replace,
    Increment,
    IncrementWrap,
    Decrement,
    DecrementWrap,
    Invert,
}

/// Stencil and depth comparison function.
#[derive(Clone, Copy, Debug, PartialEq, Eq, Structural)]
pub enum CompareMode {
    Disabled,
    Less,
    Equal,
    LEqual,
    Greater,
    NotEqual,
    GEqual,
    Always,
}

/// A source or destination blend factor.
#[derive(Clone, Copy, Debug, PartialEq, Eq, Structural)]
pub enum BlendFactor {
    Zero,
    One,
    SourceColor,
    InverseSourceColor,
    DestinationColor,
    InverseDestinationColor,
    SourceAlpha,
    InverseSourceAlpha,
    DestinationAlpha,
    InverseDestinationAlpha,
}

/// The equation combining the source and destination factors.
#[derive(Clone, Copy, Debug, PartialEq, Eq, Structural)]
pub enum BlendOperation {
    Add,
    Subtract,
    ReverseSubtract,
    Min,
    Max,
}

/// The blend function combining a new fragment with the framebuffer.
#[derive(Clone, Copy, Debug, PartialEq, Eq, Structural)]
pub struct BlendMode {
    pub src: BlendFactor,
    pub dst: BlendFactor,
    pub op: BlendOperation,
}

impl BlendMode {
    /// The usual alpha blend: source alpha over inverse source alpha.
    pub fn normal() -> (r: BlendMode)
        ensures
            r == spec_blend_normal(),
    {
        BlendMode {
            src: BlendFactor::SourceAlpha,
            dst: BlendFactor::InverseSourceAlpha,
            op: BlendOperation::Add,
        }
    }

    /// Additive blend.
    pub fn add_blend() -> (r: BlendMode)
        ensures
            r == spec_blend_add(),
    {
        BlendMode { src: BlendFactor::One, dst: BlendFactor::One, op: BlendOperation::Add }
    }
}

/// The usual alpha blend mode as a specification value.
pub open spec fn spec_blend_normal() -> BlendMode {
    BlendMode {
        src: BlendFactor::SourceAlpha,
        dst: BlendFactor::InverseSourceAlpha,
        op: BlendOperation::Add,
    }
}

/// The additive blend mode as a specification value.
pub open spec fn spec_blend_add() -> BlendMode {
    BlendMode { src: BlendFactor::One, dst: BlendFactor::One, op: BlendOperation::Add }
}

/// Which color channels a draw call may write.
#[derive(Clone, Copy, Debug, PartialEq, Eq, Structural)]
pub struct ColorMask {
    pub r: bool,
    pub g: bool,
    pub b: bool,
    pub a: bool,
}

/// Full stencil-test configuration.
#[derive(Clone, Copy, Debug, PartialEq, Eq, Structural)]
pub struct StencilConfig {
    pub stencil_fail: StencilAction,
    pub depth_fail: StencilAction,
    pub pass: StencilAction,
    pub compare: CompareMode,
    pub read_mask: u32,
    pub write_mask: u32,
    pub reference: u32,
}

/// The render state read and derived during batch compositing. `id`
/// identifies the underlying geometry/shader pipeline, which derivation
/// never changes: a derived descriptor is the same pipeline with different
/// render-state options.
#[derive(Clone, Copy, Debug, PartialEq, Eq)]
pub struct PipelineDescriptor {
    pub id: u64,
    pub stencil: Option<StencilConfig>,
    pub depth_write: bool,
    pub color_mask: ColorMask,
    pub color_blend: Option<BlendMode>,
}

/// Color writes enabled on every channel.
pub open spec fn color_mask_all() -> ColorMask {
    ColorMask { r: true, g: true, b: true, a: true }
}

/// Color writes disabled on every channel.
pub open spec fn color_mask_none() -> ColorMask {
    ColorMask { r: false, g: false, b: false, a: false }
}

/// Stencil state for a mask-authoring batch: the test always passes and
/// stamps the reference value into the full write mask; only the stencil
/// buffer is affected, never the framebuffer.
pub open spec fn mask_stencil() -> StencilConfig {
    StencilConfig {
        stencil_fail: StencilAction::Keep,
        depth_fail: StencilAction::Keep,
        pass: StencilAction::Replace,
        compare: CompareMode::Always,
        read_mask: 0xff,
        write_mask: 0xff,
        reference: 1,
    }
}

/// Stencil state for a batch clipped against an established mask: the test
/// requires equality with the reference value and writes nothing back to the
/// stencil buffer.
pub open spec fn masking_stencil() -> StencilConfig {
    StencilConfig {
        stencil_fail: StencilAction::Keep,
        depth_fail: StencilAction::Keep,
        pass: StencilAction::Replace,
        compare: CompareMode::Equal,
        read_mask: 0xff,
        write_mask: 0x00,
        reference: 1,
    }
}

/// The mask-authoring variant of a descriptor.
pub open spec fn spec_mask_variant(pip: PipelineDescriptor) -> PipelineDescriptor {
    PipelineDescriptor {
        stencil: Some(mask_stencil()),
        depth_write: false,
        color_mask: color_mask_none(),
        ..pip
    }
}

/// The mask-consuming (clipped drawing) variant of a descriptor.
pub open spec fn spec_masking_variant(pip: PipelineDescriptor) -> PipelineDescriptor {
    PipelineDescriptor {
        stencil: Some(masking_stencil()),
        depth_write: true,
        color_mask: color_mask_all(),
        ..pip
    }
}

/// Stencil derivation: `Some` replacement descriptor when the batch takes
/// part in masking, `None` when the base passes through unchanged.
pub open spec fn spec_masked(pip: PipelineDescriptor, is_mask: bool, masking: bool) -> Option<
    PipelineDescriptor,
> {
    if is_mask {
        Some(spec_mask_variant(pip))
    } else if masking {
        Some(spec_masking_variant(pip))
    } else {
        None
    }
}

/// Blend derivation: `Some` replacement exactly when the descriptor has an
/// active blend configuration different from the requested mode.
pub open spec fn spec_blended(pip: PipelineDescriptor, blend_mode: BlendMode) -> Option<
    PipelineDescriptor,
> {
    match pip.color_blend {
        Some(bm) => if bm != blend_mode {
            Some(PipelineDescriptor { color_blend: Some(blend_mode), ..pip })
        } else {
            None
        },
        None => None,
    }
}

/// Full resolution for one batch: stencil derivation first, then blend
/// derivation on top of its result, each step passing the value through
/// unchanged when it has nothing to do.
pub open spec fn spec_resolved(
    pip: PipelineDescriptor,
    is_mask: bool,
    masking: bool,
    blend_mode: BlendMode,
) -> PipelineDescriptor {
    let after_mask = match spec_masked(pip, is_mask, masking) {
        Some(p) => p,
        None => pip,
    };
    match spec_blended(after_mask, blend_mode) {
        Some(p) => p,
        None => after_mask,
    }
}

/// Derives the stencil variant a batch's mask flags require, or `None` when
/// the pipeline can be used unchanged. The base descriptor is only read;
/// every derivation works on a copy.
pub fn override_pipeline_options(pipeline: &PipelineDescriptor, is_mask: bool, masking: bool) -> (r:
    Option<PipelineDescriptor>)
    ensures
        r == spec_masked(*pipeline, is_mask, masking),
        is_mask ==> r == Some(spec_mask_variant(*pipeline)),
        !is_mask && masking ==> r == Some(spec_masking_variant(*pipeline)),
        !is_mask && !masking ==> r is None,
{
    if is_mask {
        let mut pip = *pipeline;
        pip.stencil = Some(
            StencilConfig {
                stencil_fail: StencilAction::Keep,
                depth_fail: StencilAction::Keep,
                pass: StencilAction::Replace,
                compare: CompareMode::Always,
                read_mask: 0xff,
                write_mask: 0xff,
                reference: 1,
            },
        );
        pip.depth_write = false;
        pip.color_mask = ColorMask { r: false, g: false, b: false, a: false };
        return Some(pip);
    }
    if masking {
        let mut pip = *pipeline;
        pip.stencil = Some(
            StencilConfig {
                stencil_fail: StencilAction::Keep,
                depth_fail: StencilAction::Keep,
                pass: StencilAction::Replace,
                compare: CompareMode::Equal,
                read_mask: 0xff,
                write_mask: 0x00,
                reference: 1,
            },
        );
        pip.depth_write = true;
        pip.color_mask = ColorMask { r: true, g: true, b: true, a: true };
        return Some(pip);
    }
    None
}

/// Stencil derivation under its compositing name.
pub fn masked_pip(pip: &PipelineDescriptor, is_mask: bool, masking: bool) -> (r: Option<
    PipelineDescriptor,
>)
    ensures
        r == spec_masked(*pip, is_mask, masking),
{
    override_pipeline_options(pip, is_mask, masking)
}

/// Blend derivation: replaces the active blend function when, and only when,
/// it differs from the requested mode. A descriptor without an active blend
/// configuration, or one already in the requested mode, passes through.
pub fn blended_pip(pip: &PipelineDescriptor, blend_mode: BlendMode) -> (r: Option<
    PipelineDescriptor,
>)
    ensures
        r == spec_blended(*pip, blend_mode),
        (r is None) <==> (pip.color_blend is None || pip.color_blend == Some(blend_mode)),
{
    match pip.color_blend {
        Some(bm) => {
            if bm != blend_mode {
                let mut blend_pip = *pip;
                blend_pip.color_blend = Some(blend_mode);
                Some(blend_pip)
            } else {
                None
            }
        },
        None => None,
    }
}

/// Resolves the pipeline for one batch: the stencil step first, then the
/// blend step on its result. Returns the descriptor to bind.
pub fn resolve_pipeline(
    base: &PipelineDescriptor,
    is_mask: bool,
    masking: bool,
    blend_mode: BlendMode,
) -> (r: PipelineDescriptor)
    ensures
        r == spec_resolved(*base, is_mask, masking, blend_mode),
{
    let masked = masked_pip(base, is_mask, masking);
    let pip_to_use = match &masked {
        Some(p) => p,
        None => base,
    };
    let blended = blended_pip(pip_to_use, blend_mode);
    match blended {
        Some(p) => p,
        None => *pip_to_use,
    }
}

/// The two stencil derivations are mutually exclusive outputs for a single
/// batch: a mask-authoring batch always derives a full stencil write mask
/// with all color writes disabled, a clipped batch always derives an empty
/// stencil write mask with all color writes enabled, and no batch receives
/// both derivations.
pub proof fn lemma_stencil_derivations_exclusive(
    pip: PipelineDescriptor,
    is_mask: bool,
    masking: bool,
)
    ensures
        is_mask ==> spec_masked(pip, is_mask, masking) == Some(spec_mask_variant(pip))
            && spec_mask_variant(pip).stencil.unwrap().write_mask == 0xff && spec_mask_variant(
            pip,
        ).color_mask == color_mask_none(),
        !is_mask && masking ==> spec_masked(pip, is_mask, masking) == Some(
            spec_masking_variant(pip),
        ) && spec_masking_variant(pip).stencil.unwrap().write_mask == 0x00 && spec_masking_variant(
            pip,
        ).color_mask == color_mask_all(),
        spec_mask_variant(pip) != spec_masking_variant(pip),
{
    assert(spec_mask_variant(pip).color_mask != spec_masking_variant(pip).color_mask);
}

} // verus!
