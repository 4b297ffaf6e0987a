use notan_draw::batch::{Batch, BatchType, Draw, PainterKind};
use notan_draw::events::DrawEvent;
use notan_draw::manager::DrawManager;
use notan_draw::pipeline::{
    BlendMode, ColorMask, CompareMode, PipelineDescriptor, StencilAction, StencilConfig,
};
use notan_graphics::color::Color;

fn normal_blend() -> BlendMode {
    BlendMode::normal()
}

fn default_descriptor(id: u64) -> PipelineDescriptor {
    PipelineDescriptor {
        id,
        stencil: None,
        depth_write: true,
        color_mask: ColorMask { r: true, g: true, b: true, a: true },
        color_blend: Some(normal_blend()),
    }
}

fn mask_stencil() -> StencilConfig {
    StencilConfig {
        stencil_fail: StencilAction::Keep,
        depth_fail: StencilAction::Keep,
        pass: StencilAction::Replace,
        compare: CompareMode::Always,
        read_mask: 0xff,
        write_mask: 0xff,
        reference: 1,
    }
}

fn masking_stencil() -> StencilConfig {
    StencilConfig {
        stencil_fail: StencilAction::Keep,
        depth_fail: StencilAction::Keep,
        pass: StencilAction::Replace,
        compare: CompareMode::Equal,
        read_mask: 0xff,
        write_mask: 0x00,
        reference: 1,
    }
}

fn mask_variant(base: PipelineDescriptor) -> PipelineDescriptor {
    PipelineDescriptor {
        stencil: Some(mask_stencil()),
        depth_write: false,
        color_mask: ColorMask { r: false, g: false, b: false, a: false },
        ..base
    }
}

fn masking_variant(base: PipelineDescriptor) -> PipelineDescriptor {
    PipelineDescriptor {
        stencil: Some(masking_stencil()),
        depth_write: true,
        color_mask: ColorMask { r: true, g: true, b: true, a: true },
        ..base
    }
}

fn manager() -> DrawManager {
    // shape, image, pattern, text
    DrawManager::new(
        default_descriptor(1),
        default_descriptor(2),
        default_descriptor(3),
        default_descriptor(4),
    )
}

fn batch(typ: BatchType, is_mask: bool, masking: bool) -> Batch {
    Batch {
        typ,
        is_mask,
        masking,
        blend_mode: normal_blend(),
        pipeline: None,
        uniform_buffers: None,
    }
}

#[test]
fn end_to_end_mask_scenario() {
    let mut m = manager();
    let clear = Color::new(0.1, 0.2, 0.3, 1.0);
    let mut draw = Draw::new(800, 600);
    draw.clear_color = Some(clear);
    draw.batches.push(batch(BatchType::Shape, false, false));
    draw.batches.push(batch(BatchType::Image { texture: 10 }, true, false));
    draw.batches.push(batch(BatchType::Shape, false, true));
    draw.batches.push(batch(BatchType::Image { texture: 11 }, false, false));
    m.process_draw(&draw);

    let shape_default = default_descriptor(1);
    let image_default = default_descriptor(2);
    let expected = vec![
        DrawEvent::Begin { clear_color: Some(clear) },
        DrawEvent::BindPipeline { pipeline: shape_default },
        DrawEvent::Paint { kind: PainterKind::Shape },
        DrawEvent::End,
        DrawEvent::BindPipeline { pipeline: mask_variant(image_default) },
        DrawEvent::Paint { kind: PainterKind::Image },
        // the first non-mask batch leaves mask authoring: close and reopen
        DrawEvent::End,
        DrawEvent::Begin { clear_color: None },
        DrawEvent::BindPipeline { pipeline: masking_variant(shape_default) },
        DrawEvent::Paint { kind: PainterKind::Shape },
        DrawEvent::BindPipeline { pipeline: image_default },
        DrawEvent::Paint { kind: PainterKind::Image },
        DrawEvent::End,
        DrawEvent::Upload { kind: PainterKind::Image, batches: 2 },
        DrawEvent::Upload { kind: PainterKind::Shape, batches: 2 },
        DrawEvent::Upload { kind: PainterKind::Pattern, batches: 0 },
        DrawEvent::Upload { kind: PainterKind::Text, batches: 0 },
    ];
    assert_eq!(*m.commands(), expected);
}

#[test]
fn current_batch_only_still_frames_one_pass() {
    let mut m = manager();
    let clear = Color::new(0.0, 0.0, 0.0, 1.0);
    let mut draw = Draw::new(640, 480);
    draw.clear_color = Some(clear);
    draw.current_batch = Some(batch(BatchType::Pattern { texture: 5 }, false, false));
    m.process_draw(&draw);

    let expected = vec![
        DrawEvent::Begin { clear_color: Some(clear) },
        DrawEvent::BindPipeline { pipeline: default_descriptor(3) },
        DrawEvent::Paint { kind: PainterKind::Pattern },
        DrawEvent::End,
        DrawEvent::Upload { kind: PainterKind::Image, batches: 0 },
        DrawEvent::Upload { kind: PainterKind::Shape, batches: 0 },
        DrawEvent::Upload { kind: PainterKind::Pattern, batches: 1 },
        DrawEvent::Upload { kind: PainterKind::Text, batches: 0 },
    ];
    assert_eq!(*m.commands(), expected);
    let begins = m.commands().iter().filter(|e| matches!(e, DrawEvent::Begin { .. })).count();
    let ends = m.commands().iter().filter(|e| matches!(e, DrawEvent::End)).count();
    assert_eq!(begins, 1);
    assert_eq!(ends, 1);
}

#[test]
fn no_mask_batches_open_and_close_once() {
    let mut m = manager();
    let mut draw = Draw::new(100, 100);
    draw.clear_color = Some(Color::new(1.0, 1.0, 1.0, 1.0));
    draw.batches.push(batch(BatchType::Shape, false, false));
    draw.batches.push(batch(BatchType::Image { texture: 1 }, false, false));
    draw.batches.push(batch(BatchType::Text { sections: vec![3] }, false, false));
    m.process_draw(&draw);

    let begins = m.commands().iter().filter(|e| matches!(e, DrawEvent::Begin { .. })).count();
    let ends = m.commands().iter().filter(|e| matches!(e, DrawEvent::End)).count();
    assert_eq!(begins, 1);
    assert_eq!(ends, 1);
}

#[test]
fn consecutive_mask_flags_produce_exact_boundaries() {
    let mut m = manager();
    let mut draw = Draw::new(100, 100);
    draw.batches.push(batch(BatchType::Shape, false, false));
    draw.batches.push(batch(BatchType::Shape, true, false));
    draw.batches.push(batch(BatchType::Shape, true, false));
    draw.batches.push(batch(BatchType::Shape, false, true));
    m.process_draw(&draw);

    let shape_default = default_descriptor(1);
    let expected = vec![
        DrawEvent::Begin { clear_color: None },
        DrawEvent::BindPipeline { pipeline: shape_default },
        DrawEvent::Paint { kind: PainterKind::Shape },
        // normal -> masking: one close, no reopen
        DrawEvent::End,
        DrawEvent::BindPipeline { pipeline: mask_variant(shape_default) },
        DrawEvent::Paint { kind: PainterKind::Shape },
        // masking -> masking: no boundary
        DrawEvent::BindPipeline { pipeline: mask_variant(shape_default) },
        DrawEvent::Paint { kind: PainterKind::Shape },
        // masking -> normal: close and reopen without re-clearing
        DrawEvent::End,
        DrawEvent::Begin { clear_color: None },
        DrawEvent::BindPipeline { pipeline: masking_variant(shape_default) },
        DrawEvent::Paint { kind: PainterKind::Shape },
        DrawEvent::End,
        DrawEvent::Upload { kind: PainterKind::Image, batches: 0 },
        DrawEvent::Upload { kind: PainterKind::Shape, batches: 4 },
        DrawEvent::Upload { kind: PainterKind::Pattern, batches: 0 },
        DrawEvent::Upload { kind: PainterKind::Text, batches: 0 },
    ];
    assert_eq!(*m.commands(), expected);
}

#[test]
fn pipeline_override_binds_uniform_buffers() {
    let mut m = manager();
    let custom = PipelineDescriptor { id: 99, ..default_descriptor(0) };
    let mut draw = Draw::new(100, 100);
    let mut b = batch(BatchType::Shape, false, false);
    b.pipeline = Some(custom);
    b.uniform_buffers = Some(vec![7, 8]);
    draw.batches.push(b);
    m.process_draw(&draw);

    let expected = vec![
        DrawEvent::Begin { clear_color: None },
        DrawEvent::BindPipeline { pipeline: custom },
        DrawEvent::BindBuffer { buffer: 7 },
        DrawEvent::BindBuffer { buffer: 8 },
        DrawEvent::Paint { kind: PainterKind::Shape },
        DrawEvent::End,
        DrawEvent::Upload { kind: PainterKind::Image, batches: 0 },
        DrawEvent::Upload { kind: PainterKind::Shape, batches: 1 },
        DrawEvent::Upload { kind: PainterKind::Pattern, batches: 0 },
        DrawEvent::Upload { kind: PainterKind::Text, batches: 0 },
    ];
    assert_eq!(*m.commands(), expected);
}

#[test]
fn uniform_buffers_bound_without_override_too() {
    let mut m = manager();
    let mut draw = Draw::new(100, 100);
    let mut b = batch(BatchType::Shape, false, false);
    b.uniform_buffers = Some(vec![7]);
    draw.batches.push(b);
    m.process_draw(&draw);

    let expected = vec![
        DrawEvent::Begin { clear_color: None },
        DrawEvent::BindPipeline { pipeline: default_descriptor(1) },
        DrawEvent::BindBuffer { buffer: 7 },
        DrawEvent::Paint { kind: PainterKind::Shape },
        DrawEvent::End,
        DrawEvent::Upload { kind: PainterKind::Image, batches: 0 },
        DrawEvent::Upload { kind: PainterKind::Shape, batches: 1 },
        DrawEvent::Upload { kind: PainterKind::Pattern, batches: 0 },
        DrawEvent::Upload { kind: PainterKind::Text, batches: 0 },
    ];
    assert_eq!(*m.commands(), expected);
}

#[test]
fn uploads_happen_once_per_draw() {
    let mut m = manager();
    let mut draw = Draw::new(100, 100);
    draw.batches.push(batch(BatchType::Shape, false, false));
    draw.batches.push(batch(BatchType::Shape, false, false));
    m.process_draw(&draw);
    assert_eq!(m.image_painter.uploads, 1);
    assert_eq!(m.shape_painter.uploads, 1);
    assert_eq!(m.pattern_painter.uploads, 1);
    assert_eq!(m.text_painter.uploads, 1);
    let uploads = m.commands().iter().filter(|e| matches!(e, DrawEvent::Upload { .. })).count();
    assert_eq!(uploads, 4);

    let empty = Draw::new(100, 100);
    m.process_draw(&empty);
    assert_eq!(m.image_painter.uploads, 2);
    assert_eq!(m.shape_painter.uploads, 2);
    assert_eq!(m.pattern_painter.uploads, 2);
    assert_eq!(m.text_painter.uploads, 2);
    let uploads = m.commands().iter().filter(|e| matches!(e, DrawEvent::Upload { .. })).count();
    assert_eq!(uploads, 4);
}

#[test]
fn masking_state_resets_between_draws() {
    let mut m = manager();
    let mut first = Draw::new(100, 100);
    first.batches.push(batch(BatchType::Shape, true, false));
    m.process_draw(&first);

    let mut second = Draw::new(100, 100);
    second.batches.push(batch(BatchType::Shape, false, false));
    m.process_draw(&second);

    let shape_default = default_descriptor(1);
    let expected = vec![
        DrawEvent::Begin { clear_color: None },
        DrawEvent::BindPipeline { pipeline: shape_default },
        DrawEvent::Paint { kind: PainterKind::Shape },
        DrawEvent::End,
        DrawEvent::Upload { kind: PainterKind::Image, batches: 0 },
        DrawEvent::Upload { kind: PainterKind::Shape, batches: 1 },
        DrawEvent::Upload { kind: PainterKind::Pattern, batches: 0 },
        DrawEvent::Upload { kind: PainterKind::Text, batches: 0 },
    ];
    assert_eq!(*m.commands(), expected);
}

#[test]
fn create_draw_is_empty() {
    let m = manager();
    let draw = m.create_draw(320, 200);
    assert_eq!(draw.width, 320);
    assert_eq!(draw.height, 200);
    assert!(draw.clear_color.is_none());
    assert!(draw.projection.is_none());
    assert!(draw.batches.is_empty());
    assert!(draw.current_batch.is_none());
    assert!(draw.text_batch_indices.is_none());
}

#[test]
fn projection_is_carried_through_untouched() {
    let m = manager();
    let mut draw = m.create_draw(320, 200);
    draw.projection = Some(notan_math::Mat4::IDENTITY);
    assert_eq!(draw.projection, Some(notan_math::Mat4::IDENTITY));
}
