use wgpu_3dgs_viewer::{
    preprocess_dispatches, CropBoundsPod, ModelSizeExceedsDeviceLimit, MultiModelViewerAccessError,
    MultiModelViewerModels, PreprocessDispatch, PreprocessPass, ViewportSelectorState,
    ViewportSelectorType, ViewportSelectorWrites,
};

fn models_abc() -> MultiModelViewerModels<String, u32> {
    let mut models = MultiModelViewerModels::new();
    assert_eq!(models.insert_model("a".to_string(), 1), None);
    assert_eq!(models.insert_model("b".to_string(), 2), None);
    assert_eq!(models.insert_model("c".to_string(), 3), None);
    models
}

#[test]
fn new_models_are_empty() {
    let models: MultiModelViewerModels<String, u32> = MultiModelViewerModels::new();
    assert!(models.models.is_empty());
    assert_eq!(models.model(&"a".to_string()), Err(MultiModelViewerAccessError::ModelNotFound));
}

#[test]
fn insert_returns_previous_model() {
    let mut models = models_abc();
    assert_eq!(models.insert_model("b".to_string(), 20), Some(2));
    assert_eq!(models.model(&"b".to_string()), Ok(&20));
    assert_eq!(models.model(&"a".to_string()), Ok(&1));
    assert_eq!(models.models.len(), 3);
}

#[test]
fn remove_returns_model_and_forgets_key() {
    let mut models = models_abc();
    assert_eq!(models.remove_model(&"a".to_string()), Some(1));
    assert_eq!(models.remove_model(&"a".to_string()), None);
    assert_eq!(models.model(&"a".to_string()), Err(MultiModelViewerAccessError::ModelNotFound));
    assert_eq!(models.model(&"c".to_string()), Ok(&3));
}

#[test]
fn remove_undoes_insert_of_new_key() {
    let mut models = models_abc();
    models.insert_model("d".to_string(), 4);
    assert_eq!(models.remove_model(&"d".to_string()), Some(4));
    assert_eq!(models.models.len(), 3);
    assert_eq!(models.model(&"d".to_string()), Err(MultiModelViewerAccessError::ModelNotFound));
}

#[test]
fn model_mut_updates_in_place() {
    let mut models = models_abc();
    {
        let m = models.model_mut(&"b".to_string()).expect("stored");
        assert_eq!(*m, 2);
        *m = 42;
    }
    assert_eq!(models.model(&"b".to_string()), Ok(&42));
    assert_eq!(models.model(&"a".to_string()), Ok(&1));
    assert_eq!(models.models.len(), 3);
}

#[test]
fn model_mut_of_missing_key_fails_and_changes_nothing() {
    let mut models = models_abc();
    assert!(matches!(
        models.model_mut(&"z".to_string()),
        Err(MultiModelViewerAccessError::ModelNotFound)
    ));
    assert_eq!(models.models.len(), 3);
    assert_eq!(models.model(&"c".to_string()), Ok(&3));
}

#[test]
fn models_to_render_follow_key_order() {
    let models = models_abc();
    let (a, b, c) = ("a".to_string(), "b".to_string(), "c".to_string());
    let order = models.models_to_render(&[&c, &a, &b, &a]).expect("all present");
    assert_eq!(order, vec![&3, &1, &2, &1]);
}

#[test]
fn models_to_render_of_no_keys_is_empty() {
    let models = models_abc();
    assert_eq!(models.models_to_render(&[]), Ok(vec![]));
}

#[test]
fn models_to_render_is_all_or_nothing() {
    let models = models_abc();
    let (a, z) = ("a".to_string(), "z".to_string());
    assert_eq!(
        models.models_to_render(&[&a, &z]),
        Err(MultiModelViewerAccessError::ModelNotFound)
    );
    assert_eq!(
        models.models_to_render(&[&z, &a]),
        Err(MultiModelViewerAccessError::ModelNotFound)
    );
}

#[test]
fn models_with_integer_keys() {
    let mut models: MultiModelViewerModels<u64, &str> = MultiModelViewerModels::new();
    models.insert_model(7, "seven");
    assert_eq!(models.model(&7), Ok(&"seven"));
    assert_eq!(models.model(&8), Err(MultiModelViewerAccessError::ModelNotFound));
}

#[test]
fn access_error_message() {
    assert_eq!(
        MultiModelViewerAccessError::ModelNotFound.message(),
        "model with the given key does not exist"
    );
}

#[test]
fn model_size_within_limit_is_accepted() {
    assert_eq!(ModelSizeExceedsDeviceLimit::check(100, 200), Ok(()));
    assert_eq!(ModelSizeExceedsDeviceLimit::check(200, 200), Ok(()));
    assert_eq!(ModelSizeExceedsDeviceLimit::check(0, 0), Ok(()));
}

#[test]
fn model_size_over_limit_is_refused() {
    assert_eq!(
        ModelSizeExceedsDeviceLimit::check(201, 200),
        Err(ModelSizeExceedsDeviceLimit { model_size: 201, device_limit: 200 })
    );
    assert_eq!(
        ModelSizeExceedsDeviceLimit::check(u64::MAX, 134_217_728),
        Err(ModelSizeExceedsDeviceLimit { model_size: u64::MAX, device_limit: 134_217_728 })
    );
}

#[test]
fn crop_bounds_pod_enabled() {
    let pod = CropBoundsPod::new([-1.0f32, -2.0, -3.0], [1.0f32, 2.0, 3.0], true);
    assert_eq!(pod.min, [-1.0, -2.0, -3.0]);
    assert_eq!(pod.max, [1.0, 2.0, 3.0]);
    assert_eq!(pod.enabled, 1);
    assert_eq!(pod._padding, 0);
}

#[test]
fn crop_bounds_pod_disabled() {
    let pod = CropBoundsPod::new([0u32; 3], [5u32; 3], false);
    assert_eq!(pod.enabled, 0);
    assert_eq!(pod._padding, 0);
    assert_eq!(pod.min, [0, 0, 0]);
    assert_eq!(pod.max, [5, 5, 5]);
}

#[test]
fn preprocess_dispatch_order() {
    assert_eq!(
        preprocess_dispatches(1000),
        [
            PreprocessDispatch { pass: PreprocessPass::Pre, invocations: 1 },
            PreprocessDispatch { pass: PreprocessPass::Main, invocations: 1000 },
            PreprocessDispatch { pass: PreprocessPass::Post, invocations: 1 },
        ]
    );
    assert_eq!(preprocess_dispatches(0)[1].invocations, 0);
}

#[test]
fn selector_type_defaults_to_rectangle() {
    assert_eq!(ViewportSelectorType::default(), ViewportSelectorType::Rectangle);
}

#[test]
fn new_selector_is_idle() {
    let s: ViewportSelectorState<(f32, f32), f32> = ViewportSelectorState::new(50.0);
    assert_eq!(s.start_pos, None);
    assert_eq!(s.end_pos, None);
    assert_eq!(s.brush_radius, 50.0);
    assert_eq!(s.selector_type, ViewportSelectorType::Rectangle);
}

#[test]
fn start_sets_both_positions() {
    let mut s = ViewportSelectorState::new(50.0f32);
    let w = s.start((10.0f32, 20.0f32));
    assert_eq!(w, ViewportSelectorWrites { start: Some((10.0, 20.0)), end: (10.0, 20.0) });
    assert_eq!(s.start_pos, Some((10.0, 20.0)));
    assert_eq!(s.end_pos, Some((10.0, 20.0)));
}

#[test]
fn rectangle_update_moves_end_corner_only() {
    let mut s = ViewportSelectorState::new(50.0f32);
    s.start((1.0f32, 1.0f32));
    let w = s.update((5.0, 6.0));
    assert_eq!(w, ViewportSelectorWrites { start: None, end: (5.0, 6.0) });
    let w = s.update((7.0, 8.0));
    assert_eq!(w, ViewportSelectorWrites { start: None, end: (7.0, 8.0) });
    assert_eq!(s.start_pos, Some((1.0, 1.0)));
    assert_eq!(s.end_pos, Some((7.0, 8.0)));
}

#[test]
fn brush_update_chains_segments() {
    let mut s = ViewportSelectorState::new(50.0f32);
    s.selector_type = ViewportSelectorType::Brush;
    s.start((0.0f32, 0.0f32));
    let w = s.update((1.0, 0.0));
    assert_eq!(w, ViewportSelectorWrites { start: Some((0.0, 0.0)), end: (1.0, 0.0) });
    let w = s.update((2.0, 0.0));
    assert_eq!(w, ViewportSelectorWrites { start: Some((1.0, 0.0)), end: (2.0, 0.0) });
    assert_eq!(s.start_pos, Some((1.0, 0.0)));
    assert_eq!(s.end_pos, Some((2.0, 0.0)));
}

#[test]
fn brush_update_without_start_begins_at_position() {
    let mut s = ViewportSelectorState::new(50.0f32);
    s.selector_type = ViewportSelectorType::Brush;
    let w = s.update((3.0f32, 4.0f32));
    assert_eq!(w, ViewportSelectorWrites { start: Some((3.0, 4.0)), end: (3.0, 4.0) });
    assert_eq!(s.start_pos, None);
    assert_eq!(s.end_pos, Some((3.0, 4.0)));
}

#[test]
fn rectangle_update_without_start_sets_end_only() {
    let mut s = ViewportSelectorState::new(50.0f32);
    let w = s.update((3.0f32, 4.0f32));
    assert_eq!(w, ViewportSelectorWrites { start: None, end: (3.0, 4.0) });
    assert_eq!(s.start_pos, None);
    assert_eq!(s.end_pos, Some((3.0, 4.0)));
}

#[test]
fn set_brush_radius_keeps_positions() {
    let mut s = ViewportSelectorState::new(50.0f32);
    s.start((1u32, 2u32));
    s.set_brush_radius(12.5);
    assert_eq!(s.brush_radius, 12.5);
    assert_eq!(s.start_pos, Some((1, 2)));
    assert_eq!(s.end_pos, Some((1, 2)));
}
