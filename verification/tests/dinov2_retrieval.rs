use usls::{Dinov2, Error, MinOptMax, Options};

fn dinov2_options(path: &str) -> Options {
    Options::default()
        .with_model(path)
        .with_model_ixx(0, 0, MinOptMax::new(1, 1, 4).unwrap())
        .with_model_ixx(0, 1, MinOptMax::from_scalar(3))
        .with_model_ixx(0, 2, MinOptMax::from_scalar(518))
        .with_model_ixx(0, 3, MinOptMax::from_scalar(518))
}

#[test]
fn dinov2_resolves_base_variant() {
    let d = Dinov2::new(&dinov2_options("weights/dinov2-b14.onnx")).unwrap();
    assert_eq!(d.hidden_size, 768);
    assert_eq!(d.batch.opt(), 1);
    assert_eq!(d.height.opt(), 518);
    assert_eq!(d.width.opt(), 518);
}

#[test]
fn dinov2_resolves_small_variant() {
    let d = Dinov2::new(&dinov2_options("weights/dinov2-s14.onnx")).unwrap();
    assert_eq!(d.hidden_size, 384);
}

#[test]
fn dinov2_base_marker_wins_over_small() {
    let d = Dinov2::new(&dinov2_options("s14-then-b14.onnx")).unwrap();
    assert_eq!(d.hidden_size, 768);
}

#[test]
fn dinov2_rejects_unknown_variant() {
    let r = Dinov2::new(&dinov2_options("weights/dinov2-giant.onnx"));
    assert!(matches!(r, Err(Error::ModelLoadError)));
}

#[test]
fn dinov2_rejects_low_rank_input() {
    let o = Options::default()
        .with_model("dinov2-s14.onnx")
        .with_model_ixx(0, 0, MinOptMax::from_scalar(1))
        .with_model_ixx(0, 1, MinOptMax::from_scalar(3))
        .with_model_ixx(0, 2, MinOptMax::from_scalar(518));
    assert!(matches!(Dinov2::new(&o), Err(Error::ModelLoadError)));
}

#[test]
fn dinov2_engine_enforces_negotiated_batch() {
    let d = Dinov2::new(&dinov2_options("dinov2-s14.onnx")).unwrap();
    assert!(d.engine.validate_shapes(&vec![vec![4, 3, 518, 518]]).is_ok());
    assert!(matches!(
        d.engine.validate_shapes(&vec![vec![5, 3, 518, 518]]),
        Err(Error::ShapeMismatch { input: 0, axis: 0 })
    ));
}

#[test]
fn embedding_shape_checked_against_variant() {
    let d = Dinov2::new(&dinov2_options("dinov2-s14.onnx")).unwrap();
    assert!(d.check_embedding_shape(2, &vec![2, 384]).is_ok());
    assert!(matches!(
        d.check_embedding_shape(2, &vec![2, 768]),
        Err(Error::DimensionMismatch { expected: 384, actual: 768 })
    ));
    assert!(matches!(
        d.check_embedding_shape(2, &vec![3, 384]),
        Err(Error::ExecutionError)
    ));
    assert!(matches!(
        d.check_embedding_shape(2, &vec![2, 384, 1]),
        Err(Error::ExecutionError)
    ));
}

#[test]
fn matches_map_back_to_paths() {
    let paths: Vec<String> = ["a.jpg", "b.jpg", "c.jpg"].iter().map(|s| s.to_string()).collect();
    let keys: Vec<u64> = vec![2, 0, 1];
    let scores: Vec<u32> = vec![10, 20, 30];
    let out = usls::dinov2::collect_matches(&keys, &scores, &paths).unwrap();
    assert_eq!(out.len(), 3);
    assert_eq!(out[0], (2, 10, "c.jpg".to_string()));
    assert_eq!(out[1], (0, 20, "a.jpg".to_string()));
    assert_eq!(out[2], (1, 30, "b.jpg".to_string()));
}

#[test]
fn matches_reject_unknown_key() {
    let paths: Vec<String> = vec!["a.jpg".to_string()];
    let r = usls::dinov2::collect_matches(&vec![1u64], &vec![0u32], &paths);
    assert!(matches!(r, Err(Error::IndexError)));
}

#[test]
fn matches_reject_uneven_answer() {
    let paths: Vec<String> = vec!["a.jpg".to_string()];
    let r = usls::dinov2::collect_matches(&vec![0u64], &vec![], &paths);
    assert!(matches!(r, Err(Error::IndexError)));
}

#[test]
fn retrieval_ranks_known_gallery_by_cosine() {
    // gallery of three known embeddings indexed under the cosine metric,
    // queried with the first one: best match is vector 0 (similarity ~1),
    // then vector 2, and worst vector 1 (similarity ~0)
    let options = usearch::ffi::IndexOptions {
        metric: usearch::ffi::MetricKind::Cos,
        dimensions: 2,
        quantization: usearch::ffi::ScalarKind::F32,
        ..Default::default()
    };
    let index = usearch::new_index(&options).unwrap();
    let gallery: Vec<Vec<f32>> = vec![vec![1.0, 0.0], vec![0.0, 1.0], vec![0.9, 0.1]];
    let paths: Vec<String> = ["a.jpg", "b.jpg", "c.jpg"].iter().map(|s| s.to_string()).collect();
    index.reserve(gallery.len()).unwrap();
    for (id, v) in gallery.iter().enumerate() {
        index.add(id as u64, v).unwrap();
    }
    let found = index.search(&[1.0f32, 0.0], index.size()).unwrap();
    let scores: Vec<u32> = found.distances.iter().map(|d| d.to_bits()).collect();
    let ranked = usls::dinov2::collect_matches(&found.keys, &scores, &paths).unwrap();
    assert_eq!(ranked.len(), 3);
    assert_eq!(ranked[0].0, 0);
    assert_eq!(ranked[0].2, "a.jpg");
    assert_eq!(ranked[1].0, 2);
    assert_eq!(ranked[1].2, "c.jpg");
    assert_eq!(ranked[2].0, 1);
    assert_eq!(ranked[2].2, "b.jpg");
    // cosine distances: ~0 for the identical vector, ~1 for the orthogonal one
    let best = f32::from_bits(ranked[0].1);
    let worst = f32::from_bits(ranked[2].1);
    assert!(best.abs() < 1e-3);
    assert!((worst - 1.0).abs() < 1e-3);
}
