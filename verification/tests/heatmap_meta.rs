use usls::{Error, HeatMap};

#[test]
fn heatmap_from_exact_buffer() {
    let buf: Vec<u8> = (0u8..12).collect();
    let h = HeatMap::new(&buf, 4, 3).unwrap();
    assert_eq!(h.width(), 4);
    assert_eq!(h.height(), 3);
    assert_eq!(h.dimensions(), (4, 3));
    assert_eq!(h.to_vec(), buf);
}

#[test]
fn heatmap_rejects_short_buffer() {
    let buf = vec![0u8; 11];
    let r = HeatMap::new(&buf, 4, 3);
    assert!(matches!(r, Err(Error::DimensionMismatch { expected: 12, actual: 11 })));
}

#[test]
fn heatmap_accepts_oversized_buffer() {
    let buf = vec![0u8; 20];
    assert!(HeatMap::new(&buf, 4, 3).is_ok());
}

#[test]
fn heatmap_metadata_builders() {
    let buf = vec![0u8; 4];
    let h = HeatMap::new(&buf, 2, 2)
        .unwrap()
        .with_uid(7)
        .with_id(3)
        .with_name("scratch")
        .with_confidence(0.75f32.to_bits());
    assert_eq!(h.uid(), 7);
    assert_eq!(h.id(), Some(3));
    assert_eq!(h.name(), Some("scratch"));
    assert_eq!(h.confidence().map(f32::from_bits), Some(0.75));
}

#[test]
fn heatmap_equality_ignores_metadata() {
    let a = HeatMap::new(&[1, 2, 3, 4], 2, 2).unwrap().with_uid(1);
    let b = HeatMap::new(&[1, 2, 3, 4], 2, 2).unwrap().with_uid(9).with_name("x");
    assert_eq!(a, b);
    let c = HeatMap::new(&[1, 2, 3, 5], 2, 2).unwrap();
    assert_ne!(a, c);
    let d = HeatMap::new(&[1, 2, 3, 4], 4, 1).unwrap();
    assert_ne!(a, d);
}

#[test]
fn heatmap_metadata_starts_empty() {
    let h = HeatMap::new(&[0u8; 1], 1, 1).unwrap();
    assert_eq!(h.uid(), 0);
    assert_eq!(h.id(), None);
    assert_eq!(h.name(), None);
    assert_eq!(h.confidence(), None);
}
