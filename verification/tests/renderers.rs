use pixels::renderers::binding_layout;
use pixels::renderers::frame_commands;
use pixels::renderers::pipeline_config;
use pixels::renderers::plan_renderer;
use pixels::renderers::sampler_config;
use pixels::renderers::shader_entry_point;
use pixels::renderers::AddressMode;
use pixels::renderers::BindingKind;
use pixels::renderers::BlendMode;
use pixels::renderers::Cmd;
use pixels::renderers::Filter;
use pixels::renderers::FrontFace;
use pixels::renderers::Stage;
use pixels::renderers::TargetFormat;
use pixels::renderers::Topology;
use pixels::spirv::read_le_words;

#[test]
fn sampler_is_nearest_and_clamped() {
    let c = sampler_config();
    assert_eq!(c.address_u, AddressMode::ClampToEdge);
    assert_eq!(c.address_v, AddressMode::ClampToEdge);
    assert_eq!(c.address_w, AddressMode::ClampToEdge);
    assert_eq!(c.mag, Filter::Nearest);
    assert_eq!(c.min, Filter::Nearest);
    assert_eq!(c.mipmap, Filter::Nearest);
}

#[test]
fn layout_is_texture_then_sampler_for_fragment() {
    let entries = binding_layout();
    assert_eq!(entries.len(), 2);
    assert_eq!(entries[0].binding, 0);
    assert_eq!(entries[0].visibility, Stage::Fragment);
    assert_eq!(entries[0].kind, BindingKind::Texture2d { multisampled: false });
    assert_eq!(entries[1].binding, 1);
    assert_eq!(entries[1].visibility, Stage::Fragment);
    assert_eq!(entries[1].kind, BindingKind::Sampler);
}

#[test]
fn pipeline_is_fixed() {
    let p = pipeline_config();
    assert_eq!(p.topology, Topology::TriangleList);
    assert_eq!(p.front_face, FrontFace::Ccw);
    assert_eq!(p.cull, None);
    assert_eq!(p.target.format, TargetFormat::Bgra8UnormSrgb);
    assert_eq!(p.target.blend, BlendMode::Replace);
    assert!(p.target.write_mask.r);
    assert!(p.target.write_mask.g);
    assert!(p.target.write_mask.b);
    assert!(p.target.write_mask.a);
    assert!(!p.depth_stencil);
    assert_eq!(p.sample_count, 1);
    assert_eq!(p.sample_mask, u64::MAX);
    assert!(!p.alpha_to_coverage);
}

#[test]
fn entry_point_is_main() {
    assert_eq!(shader_entry_point(), "main");
}

#[test]
fn one_frame_is_clear_bind_draw_six() {
    let cmds = frame_commands();
    assert_eq!(
        cmds,
        vec![
            Cmd::BeginPass { clear_to_black: true, store: true },
            Cmd::SetPipeline,
            Cmd::SetBindGroup { index: 0 },
            Cmd::Draw { first_vertex: 0, vertex_count: 6, first_instance: 0, instance_count: 1 },
        ]
    );
}

#[test]
fn plan_decodes_both_shaders_and_fixes_the_configuration() {
    let vert = [0x03u8, 0x02, 0x23, 0x07, 0x00, 0x01, 0x00, 0x00];
    let frag = [0x03u8, 0x02, 0x23, 0x07, 0x10, 0x00, 0x00, 0x00];
    let plan = plan_renderer(&vert, &frag);
    assert_eq!(plan.vert_words, read_le_words(&vert));
    assert_eq!(plan.frag_words, read_le_words(&frag));
    assert_eq!(plan.vert_words, vec![0x0723_0203, 0x0000_0100]);
    assert_eq!(plan.frag_words, vec![0x0723_0203, 0x0000_0010]);
    assert_eq!(plan.sampler, sampler_config());
    assert_eq!(plan.bindings, binding_layout());
    assert_eq!(plan.pipeline, pipeline_config());
}
