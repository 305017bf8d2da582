use usls::{ConfigIssue, Error, MinOptMax, Options, ResizeMode};

#[test]
fn shape_range_from_triple() {
    let r = MinOptMax::new(1, 2, 4).unwrap();
    assert_eq!(r.min(), 1);
    assert_eq!(r.opt(), 2);
    assert_eq!(r.max(), 4);
}

#[test]
fn shape_range_rejects_unordered_triple() {
    let r = MinOptMax::new(10, 5, 20);
    assert!(matches!(
        r,
        Err(Error::ConfigurationError(ConfigIssue::InvalidShapeRange { min: 10, opt: 5, max: 20 }))
    ));
}

#[test]
fn shape_range_rejects_zero_min() {
    assert!(MinOptMax::new(0, 1, 2).is_err());
}

#[test]
fn shape_range_from_scalar() {
    let r = MinOptMax::from_scalar(288);
    assert_eq!((r.min(), r.opt(), r.max()), (288, 288, 288));
    let lifted = MinOptMax::from_scalar(0);
    assert_eq!((lifted.min(), lifted.opt(), lifted.max()), (1, 1, 1));
}

#[test]
fn shape_range_contains_bounds() {
    let r = MinOptMax::new(2, 3, 5).unwrap();
    assert!(r.contains(2));
    assert!(r.contains(3));
    assert!(r.contains(5));
    assert!(!r.contains(1));
    assert!(!r.contains(6));
}

#[test]
fn options_builder_sets_fields() {
    let o = Options::default()
        .with_model("dinov2-s14.onnx")
        .with_resize_mode(ResizeMode::Stretch)
        .with_resize_filter("Triangle")
        .with_confs(&[150])
        .with_saveout("out")
        .with_profile(true)
        .with_normalize(false);
    assert_eq!(o.onnx_path, "dinov2-s14.onnx");
    assert_eq!(o.resize_mode, ResizeMode::Stretch);
    assert_eq!(o.resize_filter, "Triangle");
    assert_eq!(o.confs, vec![150]);
    assert_eq!(o.saveout.as_deref(), Some("out"));
    assert!(o.profile);
    assert!(!o.normalize);
}

#[test]
fn options_axis_map_grows_and_overrides() {
    let o = Options::default()
        .with_model_ixx(0, 2, MinOptMax::from_scalar(224))
        .with_model_ixx(0, 2, MinOptMax::from_scalar(288));
    assert_eq!(o.model_ixx.len(), 1);
    assert_eq!(o.model_ixx[0].len(), 3);
    assert!(o.model_ixx[0][0].is_none());
    assert!(o.model_ixx[0][1].is_none());
    assert_eq!(o.model_ixx[0][2].unwrap().opt(), 288);
}

#[test]
fn glass_preset_values() {
    let o = Options::glass();
    assert_eq!(o.model_ixx.len(), 1);
    assert_eq!(o.model_ixx[0].len(), 4);
    let dims: Vec<i64> = o.model_ixx[0].iter().map(|r| r.unwrap().opt()).collect();
    assert_eq!(dims, vec![1, 3, 288, 288]);
    assert_eq!(o.resize_mode, ResizeMode::FitAdaptive);
    assert_eq!(o.resize_filter, "CatmullRom");
    assert_eq!(o.image_mean, vec![485, 456, 406]);
    assert_eq!(o.image_std, vec![229, 224, 225]);
    assert!(o.normalize);
    assert_eq!(o.onnx_path, "");
}
