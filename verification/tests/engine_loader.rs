use usls::{ConfigIssue, DataLoader, Error, MinOptMax, Options, OrtEngine};

fn dyn_batch_options() -> Options {
    Options::default()
        .with_model_ixx(0, 0, MinOptMax::new(1, 2, 4).unwrap())
        .with_model_ixx(0, 1, MinOptMax::from_scalar(3))
        .with_model_ixx(0, 2, MinOptMax::from_scalar(288))
        .with_model_ixx(0, 3, MinOptMax::from_scalar(288))
}

#[test]
fn engine_resolves_ranges_from_axis_map() {
    let e = OrtEngine::new(&Options::glass()).unwrap();
    let inputs = e.inputs_minoptmax();
    assert_eq!(inputs.len(), 1);
    assert_eq!(inputs[0].len(), 4);
    assert_eq!(inputs[0][0].opt(), 1);
    assert_eq!(inputs[0][1].opt(), 3);
    assert_eq!(inputs[0][2].opt(), 288);
    assert_eq!(inputs[0][3].opt(), 288);
}

#[test]
fn engine_rejects_empty_axis_map() {
    let r = OrtEngine::new(&Options::default());
    assert!(matches!(r, Err(Error::ConfigurationError(ConfigIssue::EmptyAxisMap))));
}

#[test]
fn engine_rejects_unbound_axis() {
    let o = Options::default()
        .with_model_ixx(0, 0, MinOptMax::from_scalar(1))
        .with_model_ixx(0, 2, MinOptMax::from_scalar(288));
    let r = OrtEngine::new(&o);
    assert!(matches!(
        r,
        Err(Error::ConfigurationError(ConfigIssue::MissingAxis { input: 0, axis: 1 }))
    ));
}

#[test]
fn dry_run_succeeds_twice_without_state_change() {
    let e = OrtEngine::new(&dyn_batch_options()).unwrap();
    let before: Vec<(i64, i64, i64)> =
        e.inputs_minoptmax()[0].iter().map(|r| (r.min(), r.opt(), r.max())).collect();
    assert!(e.dry_run().is_ok());
    assert!(e.dry_run().is_ok());
    let after: Vec<(i64, i64, i64)> =
        e.inputs_minoptmax()[0].iter().map(|r| (r.min(), r.opt(), r.max())).collect();
    assert_eq!(before, after);
}

#[test]
fn run_shape_enforced_on_batch_axis() {
    let e = OrtEngine::new(&dyn_batch_options()).unwrap();
    // below min and above max fail, naming the batch axis of input 0
    for bad in [0i64, 5] {
        let r = e.validate_shapes(&vec![vec![bad, 3, 288, 288]]);
        assert!(matches!(r, Err(Error::ShapeMismatch { input: 0, axis: 0 })), "batch {bad}");
    }
    // exactly min, opt and max succeed
    for good in [1i64, 2, 4] {
        assert!(e.validate_shapes(&vec![vec![good, 3, 288, 288]]).is_ok(), "batch {good}");
    }
}

#[test]
fn run_shape_names_first_offending_axis() {
    let e = OrtEngine::new(&dyn_batch_options()).unwrap();
    let r = e.validate_shapes(&vec![vec![2, 3, 640, 640]]);
    assert!(matches!(r, Err(Error::ShapeMismatch { input: 0, axis: 2 })));
}

#[test]
fn run_shape_rejects_wrong_rank_and_count() {
    let e = OrtEngine::new(&dyn_batch_options()).unwrap();
    let r = e.validate_shapes(&vec![vec![2, 3, 288]]);
    assert!(matches!(r, Err(Error::ShapeMismatch { input: 0, axis: 3 })));
    let r = e.validate_shapes(&vec![]);
    assert!(matches!(r, Err(Error::ShapeMismatch { input: 0, axis: 0 })));
    let r = e.validate_shapes(&vec![vec![2, 3, 288, 288], vec![1]]);
    assert!(matches!(r, Err(Error::ShapeMismatch { input: 1, axis: 0 })));
}

#[test]
fn loader_preserves_order_and_batch_sizes() {
    let names = ["a.jpg", "b.jpg", "c.jpg", "d.jpg", "e.jpg"];
    let mut dl = DataLoader::default().with_batch(2);
    for n in names {
        dl.push_source(n.to_string());
    }
    assert_eq!(dl.len(), 5);
    assert_eq!(dl.num_batches(), 3);
    let mut seen: Vec<String> = Vec::new();
    let mut sizes: Vec<usize> = Vec::new();
    let mut starts: Vec<usize> = Vec::new();
    while let Some((start, batch)) = dl.next_batch() {
        starts.push(start);
        sizes.push(batch.len());
        seen.extend(batch);
    }
    assert_eq!(seen, names.iter().map(|s| s.to_string()).collect::<Vec<_>>());
    assert_eq!(sizes, vec![2, 2, 1]);
    assert_eq!(starts, vec![0, 2, 4]);
    assert!(dl.next_batch().is_none());
}

#[test]
fn loader_last_batch_full_on_exact_division() {
    let mut dl = DataLoader::default().with_batch(2);
    for n in ["a", "b", "c", "d"] {
        dl.push_source(n.to_string());
    }
    assert_eq!(dl.num_batches(), 2);
    let mut sizes: Vec<usize> = Vec::new();
    while let Some((_, batch)) = dl.next_batch() {
        sizes.push(batch.len());
    }
    assert_eq!(sizes, vec![2, 2]);
}

#[test]
fn enumeration_id_crosses_batch_boundaries() {
    // gallery [a.jpg, b.jpg, c.jpg] at batch size 2: b.jpg gets id 1
    let mut dl = DataLoader::default().with_batch(2);
    for n in ["a.jpg", "b.jpg", "c.jpg"] {
        dl.push_source(n.to_string());
    }
    let mut id_of_b = None;
    while let Some((start, batch)) = dl.next_batch() {
        for (off, p) in batch.iter().enumerate() {
            if p == "b.jpg" {
                id_of_b = Some(start + off);
            }
        }
    }
    assert_eq!(id_of_b, Some(1));
}

#[test]
fn corrupt_source_fails_whole_batch_naming_path() {
    let paths: Vec<String> =
        ["ok0", "ok1", "bad", "ok3", "ok4"].iter().map(|s| s.to_string()).collect();
    let items: Vec<Option<u8>> = vec![Some(0), Some(1), None, Some(3), Some(4)];
    let r = usls::dataloader::collect_batch(items, &paths);
    match r {
        Err(Error::SourceReadError(p)) => assert_eq!(p, "bad"),
        other => panic!("expected SourceReadError, got {:?}", other.is_ok()),
    }
}

#[test]
fn complete_batch_collects_in_order() {
    let paths: Vec<String> = ["x", "y", "z"].iter().map(|s| s.to_string()).collect();
    let items: Vec<Option<u32>> = vec![Some(7), Some(8), Some(9)];
    let r = usls::dataloader::collect_batch(items, &paths).unwrap();
    assert_eq!(r, vec![7, 8, 9]);
}
