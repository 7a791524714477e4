use cen::memory::GpuHandle;
use cen::memory::TeardownStep;
use cen::pipeline::BindPoint;
use cen::pipeline::ComputePipeline;
use cen::pipeline::GraphicsPipeline;
use cen::pipeline::Pipeline;
use cen::pipeline::PipelineErr;
use cen::pipeline::PushConstantRange;
use cen::pipeline_store::PipelineConfig;
use cen::pipeline_store::PipelineKey;
use cen::pipeline_store::PipelineStore;
use cen::shader_path::ShaderPath;
use slotmap::Key;
use std::collections::HashMap;

fn path(components: &[&str]) -> ShaderPath {
    ShaderPath::new(components.iter().map(|c| c.to_string()).collect())
}

fn config(components: &[&str], layouts: Vec<u64>) -> PipelineConfig {
    PipelineConfig {
        shader_path: path(components),
        descriptor_set_layouts: layouts,
        push_constant_ranges: vec![PushConstantRange { stage_flags: 0x20, offset: 0, size: 16 }],
        macros: HashMap::from([("N".to_string(), "4".to_string())]),
    }
}

fn built(resource: usize, raw: u64, layouts: Vec<u64>) -> ComputePipeline {
    ComputePipeline::new(resource, raw, raw + 1, layouts)
}

fn failed(report: &str) -> PipelineErr {
    PipelineErr::ShaderCompilation(report.to_string())
}

#[test]
fn new_store_is_empty() {
    let store = PipelineStore::new();
    assert_eq!(store.len(), 0);
    assert_eq!(store.get(PipelineKey { raw: 0 }), None);
    assert_eq!(store.get(PipelineKey { raw: 0x1_0000_0001 }), None);
    assert_eq!(store.reload_targets(&path(&["a.comp"])), vec![]);
}

#[test]
fn inserted_compute_pipeline_comes_back_by_its_key() {
    let mut store = PipelineStore::new();
    let key = store.insert(config(&["shaders", "sum.comp"], vec![70, 71]), Ok(built(0, 500, vec![70, 71]))).unwrap();
    let found = store.get(key).unwrap();
    assert_eq!(found.bind_point(), BindPoint::Compute);
    assert_eq!(found.bind_point().raw(), 1);
    assert_eq!(found.descriptor_set_layouts, vec![70, 71]);
    assert_eq!(found.handle(), 500);
    assert_eq!(found.layout(), 501);
    assert_eq!(found, built(0, 500, vec![70, 71]));
    let kept = store.config(key).unwrap();
    assert_eq!(kept.macros, HashMap::from([("N".to_string(), "4".to_string())]));
    assert_eq!(kept.descriptor_set_layouts, found.descriptor_set_layouts);
    assert_eq!(kept.shader_path, path(&["shaders", "sum.comp"]));
    assert_eq!(store.len(), 1);
}

#[test]
fn every_insert_gets_a_fresh_key() {
    let mut store = PipelineStore::new();
    let a = store.insert(config(&["a.comp"], vec![]), Ok(built(0, 100, vec![]))).unwrap();
    let b = store.insert(config(&["b.comp"], vec![]), Ok(built(1, 200, vec![]))).unwrap();
    let c = store.insert(config(&["a.comp"], vec![]), Ok(built(2, 300, vec![]))).unwrap();
    assert_ne!(a, b);
    assert_ne!(a, c);
    assert_ne!(b, c);
    assert_eq!(store.get(a).unwrap().pipeline, 100);
    assert_eq!(store.get(b).unwrap().pipeline, 200);
    assert_eq!(store.get(c).unwrap().pipeline, 300);
    assert_eq!(store.len(), 3);
}

#[test]
fn keys_carry_an_odd_version() {
    let mut store = PipelineStore::new();
    let key = store.insert(config(&["a.comp"], vec![]), Ok(built(0, 100, vec![]))).unwrap();
    assert_eq!(key.raw | 0x1_0000_0000, key.raw);
    let even = PipelineKey { raw: key.raw & !0x1_0000_0000 };
    assert_eq!(store.get(even), store.get(key));
}

#[test]
fn failed_build_registers_nothing() {
    let mut store = PipelineStore::new();
    assert_eq!(store.insert(config(&["a.comp"], vec![]), Err(failed("syntax error"))), Err(failed("syntax error")));
    assert_eq!(store.len(), 0);
    assert_eq!(store.reload_targets(&path(&["a.comp"])), vec![]);
}

#[test]
fn unknown_key_finds_nothing() {
    let mut store = PipelineStore::new();
    let key = store.insert(config(&["a.comp"], vec![]), Ok(built(0, 100, vec![]))).unwrap();
    assert_eq!(store.get(PipelineKey { raw: key.raw + 1 }), None);
    assert_eq!(store.get(PipelineKey { raw: key.raw + 0x2_0000_0000 }), None);
    assert_eq!(store.config(PipelineKey { raw: key.raw + 1 }), None);
    assert_eq!(store.get(PipelineKey { raw: u64::MAX }), None);
}

#[test]
fn reload_targets_are_the_pipelines_of_the_changed_file() {
    let mut store = PipelineStore::new();
    let a = store.insert(config(&["shaders", "a.comp"], vec![]), Ok(built(0, 100, vec![]))).unwrap();
    let b = store.insert(config(&["shaders", "b.comp"], vec![]), Ok(built(1, 200, vec![]))).unwrap();
    let c = store.insert(config(&["shaders", "a.comp"], vec![]), Ok(built(2, 300, vec![]))).unwrap();
    let changed = path(&["home", "me", "project", "shaders", "a.comp"]);
    assert_eq!(store.reload_targets(&changed), vec![a, c]);
    assert_eq!(store.reload_targets(&path(&["project", "shaders", "b.comp"])), vec![b]);
    assert_eq!(store.reload_targets(&path(&["a.comp"])), vec![]);
    assert_eq!(store.reload_targets(&path(&["other", "a.comp"])), vec![]);
}

#[test]
fn successful_reload_replaces_the_pipeline_under_the_same_key() {
    let mut store = PipelineStore::new();
    let key = store.insert(config(&["a.comp"], vec![70]), Ok(built(0, 100, vec![70]))).unwrap();
    let other = store.insert(config(&["b.comp"], vec![]), Ok(built(1, 200, vec![]))).unwrap();
    let before = store.get(key).unwrap();
    let (replaced, report) = store.reload(&path(&["src", "a.comp"]), vec![Ok(built(2, 900, vec![70]))]);
    assert_eq!(report, Ok(()));
    assert_eq!(replaced, vec![before.clone()]);
    let after = store.get(key).unwrap();
    assert_ne!(after, before);
    assert_eq!(after, built(2, 900, vec![70]));
    assert_eq!(before.pipeline, 100);
    assert_eq!(store.get(other).unwrap().pipeline, 200);
    assert_eq!(store.config(key).unwrap().shader_path, path(&["a.comp"]));
    assert_eq!(store.len(), 2);
}

#[test]
fn failed_reload_keeps_the_pipeline() {
    let mut store = PipelineStore::new();
    let key = store.insert(config(&["a.comp"], vec![70]), Ok(built(0, 100, vec![70]))).unwrap();
    let before = store.get(key).unwrap();
    let (replaced, report) = store.reload(&path(&["a.comp"]), vec![Err(failed("unexpected token"))]);
    assert_eq!(report, Err(failed("unexpected token")));
    assert_eq!(replaced, vec![]);
    assert_eq!(store.get(key).unwrap(), before);
}

#[test]
fn failed_build_keeps_no_other_pipeline_from_its_build() {
    let mut store = PipelineStore::new();
    let a = store.insert(config(&["a.comp"], vec![]), Ok(built(0, 100, vec![]))).unwrap();
    let b = store.insert(config(&["a.comp"], vec![]), Ok(built(1, 200, vec![]))).unwrap();
    let c = store.insert(config(&["a.comp"], vec![]), Ok(built(2, 300, vec![]))).unwrap();
    let (replaced, report) = store.reload(
        &path(&["a.comp"]),
        vec![Ok(built(3, 110, vec![])), Err(failed("bad")), Ok(built(4, 310, vec![]))],
    );
    assert_eq!(report, Err(failed("bad")));
    assert_eq!(replaced, vec![built(0, 100, vec![]), built(2, 300, vec![])]);
    assert_eq!(store.get(a).unwrap().pipeline, 110);
    assert_eq!(store.get(b).unwrap().pipeline, 200);
    assert_eq!(store.get(c).unwrap().pipeline, 310);
}

#[test]
fn second_pipeline_is_replaced_although_the_first_failed_to_build() {
    let mut store = PipelineStore::new();
    let mut first = config(&["shared.comp"], vec![]);
    first.macros.insert("N".to_string(), "4".to_string());
    let mut second = config(&["shared.comp"], vec![]);
    second.macros.insert("N".to_string(), "8".to_string());
    let k1 = store.insert(first, Ok(built(0, 100, vec![]))).unwrap();
    let k2 = store.insert(second, Ok(built(1, 200, vec![]))).unwrap();
    assert_eq!(store.reload_targets(&path(&["shared.comp"])), vec![k1, k2]);
    let (replaced, report) =
        store.reload(&path(&["shared.comp"]), vec![Err(failed("N too small")), Ok(built(2, 210, vec![]))]);
    assert_eq!(report, Err(failed("N too small")));
    assert_eq!(replaced, vec![built(1, 200, vec![])]);
    assert_eq!(store.get(k1), Some(built(0, 100, vec![])));
    assert_eq!(store.get(k2), Some(built(2, 210, vec![])));
}

#[test]
fn first_of_several_failures_is_reported() {
    let mut store = PipelineStore::new();
    let a = store.insert(config(&["a.comp"], vec![]), Ok(built(0, 100, vec![]))).unwrap();
    let b = store.insert(config(&["a.comp"], vec![]), Ok(built(1, 200, vec![]))).unwrap();
    let (replaced, report) = store.reload(&path(&["a.comp"]), vec![Err(failed("one")), Err(failed("two"))]);
    assert_eq!(report, Err(failed("one")));
    assert_eq!(replaced, vec![]);
    assert_eq!(store.get(a).unwrap().pipeline, 100);
    assert_eq!(store.get(b).unwrap().pipeline, 200);
}

#[test]
fn reload_of_an_unwatched_file_changes_nothing() {
    let mut store = PipelineStore::new();
    let key = store.insert(config(&["a.comp"], vec![]), Ok(built(0, 100, vec![]))).unwrap();
    let (replaced, report) = store.reload(&path(&["b.comp"]), vec![]);
    assert_eq!(report, Ok(()));
    assert_eq!(replaced, vec![]);
    assert_eq!(store.get(key).unwrap().pipeline, 100);
}

#[test]
fn reload_with_another_number_of_builds_than_targets_is_refused() {
    let mut store = PipelineStore::new();
    let a = store.insert(config(&["a.comp"], vec![]), Ok(built(0, 100, vec![]))).unwrap();
    let b = store.insert(config(&["a.comp"], vec![]), Ok(built(1, 200, vec![]))).unwrap();
    let (unused, report) = store.reload(&path(&["a.comp"]), vec![Ok(built(2, 110, vec![]))]);
    assert_eq!(report, Err(PipelineErr::BuildCountMismatch));
    assert_eq!(unused, vec![built(2, 110, vec![])]);
    assert_eq!(store.get(a).unwrap().pipeline, 100);
    assert_eq!(store.get(b).unwrap().pipeline, 200);
    let (unused, report) = store.reload(&path(&["a.comp"]), vec![]);
    assert_eq!(report, Err(PipelineErr::BuildCountMismatch));
    assert_eq!(unused, vec![]);
    let (unused, report) = store.reload(
        &path(&["b.comp"]),
        vec![Ok(built(3, 900, vec![])), Err(failed("x")), Ok(built(4, 901, vec![]))],
    );
    assert_eq!(report, Err(PipelineErr::BuildCountMismatch));
    assert_eq!(unused, vec![built(3, 900, vec![]), built(4, 901, vec![])]);
    assert_eq!(store.get(a).unwrap().pipeline, 100);
}

#[test]
fn replace_hands_the_old_pipeline_back() {
    let mut store = PipelineStore::new();
    let key = store.insert(config(&["a.comp"], vec![]), Ok(built(0, 100, vec![]))).unwrap();
    assert_eq!(store.replace(key, built(1, 900, vec![])), Ok(built(0, 100, vec![])));
    assert_eq!(store.get(key).unwrap().pipeline, 900);
    let unknown = PipelineKey { raw: key.raw + 1 };
    assert_eq!(store.replace(unknown, built(2, 950, vec![])), Err(built(2, 950, vec![])));
    assert_eq!(store.get(key).unwrap().pipeline, 900);
}

#[test]
fn snapshot_taken_before_a_reload_still_names_the_old_pipeline() {
    let mut store = PipelineStore::new();
    let key = store.insert(config(&["a.comp"], vec![]), Ok(built(0, 100, vec![]))).unwrap();
    let snapshot = store.get(key).unwrap();
    store.reload(&path(&["a.comp"]), vec![Ok(built(1, 900, vec![]))]);
    assert_eq!(snapshot.pipeline, 100);
    assert_eq!(snapshot.resource, 0);
    assert_eq!(store.get(key).unwrap().resource, 1);
}

#[test]
fn error_reports_are_kept() {
    assert_eq!(failed("x").message(), Some(&"x".to_string()));
    assert_eq!(PipelineErr::SourceUnavailable("gone".to_string()).message(), Some(&"gone".to_string()));
    assert_eq!(PipelineErr::StoreFull.message(), None);
    assert_eq!(PipelineErr::BuildCountMismatch.message(), None);
}

#[test]
fn compute_pipeline_requests_one_compute_stage() {
    let layout = ComputePipeline::layout_info(vec![70, 71], vec![PushConstantRange { stage_flags: 0x20, offset: 0, size: 8 }]);
    assert_eq!(layout.set_layouts, vec![70, 71]);
    assert_eq!(layout.push_constant_ranges.len(), 1);
    let info = ComputePipeline::create_info(55, 66);
    assert_eq!(info.stage.stage, 0x20);
    assert_eq!(info.stage.module, 55);
    assert_eq!(info.layout, 66);
}

#[test]
fn pipelines_go_before_their_layouts() {
    assert_eq!(
        built(0, 100, vec![]).teardown(),
        vec![TeardownStep::DestroyPipeline(100), TeardownStep::DestroyPipelineLayout(101)]
    );
    let graphics = GraphicsPipeline::new(1, 300, 301);
    assert_eq!(graphics.bind_point(), BindPoint::Graphics);
    assert_eq!(graphics.bind_point().raw(), 0);
    assert_eq!(graphics.handle(), 300);
    assert_eq!(graphics.layout(), 301);
    assert_eq!(
        graphics.teardown(),
        vec![TeardownStep::DestroyPipeline(300), TeardownStep::DestroyPipelineLayout(301)]
    );
}

#[test]
fn graphics_state_draws_opaque_triangles() {
    let state = GraphicsPipeline::state(1, 2, 3, 4);
    assert_eq!(state.vertex_stage.stage, 0x1);
    assert_eq!(state.vertex_stage.module, 1);
    assert_eq!(state.fragment_stage.stage, 0x10);
    assert_eq!(state.fragment_stage.module, 2);
    assert_eq!(state.render_pass, 3);
    assert_eq!(state.layout, 4);
    assert_eq!(state.rasterization_samples, 1);
    assert_eq!(state.initial_area.width, 512);
    assert_eq!(state.initial_area.height, 512);
    assert_eq!(state.topology, 3);
    assert!(!state.primitive_restart_enable);
    assert_eq!(state.polygon_mode, 0);
    assert_eq!(state.cull_mode, 2);
    assert_eq!(state.front_face, 1);
    assert_eq!(state.line_width_bits, 1.0f32.to_bits());
    assert!(!state.color_blend.blend_enable);
    assert_eq!(state.color_blend.color_write_mask, 0xf);
    assert_eq!(state.color_blend.src_color_blend_factor, 1);
    assert_eq!(state.color_blend.dst_color_blend_factor, 0);
    assert_eq!(state.color_blend.logic_op, 3);
    assert!(!state.depth_stencil.depth_test_enable);
    assert_eq!(state.depth_stencil.depth_compare_op, 7);
    assert!(state.dynamic_viewport);
    assert!(state.dynamic_scissor);
}

#[test]
fn null_key_is_the_slot_maps_null_key_and_names_nothing() {
    let null = slotmap::DefaultKey::null();
    assert_eq!(PipelineKey::null().raw, null.data().as_ffi());
    assert_eq!(PipelineKey::default(), PipelineKey::null());
    assert!(PipelineKey::null().is_null());
    assert!(null.is_null());
    let mut store = PipelineStore::new();
    let key = store.insert(config(&["a.comp"], vec![]), Ok(built(0, 100, vec![]))).unwrap();
    assert!(!key.is_null());
    assert_eq!(store.get(PipelineKey::null()), None);
    assert_eq!(store.config(PipelineKey::default()), None);
}
