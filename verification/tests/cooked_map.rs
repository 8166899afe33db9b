use openstrike::cooked_map::{DrawBatch, MapBatches};

#[test]
fn neighbouring_triangles_share_a_batch_only_when_drawn_alike() {
    let mut batches = MapBatches::new();
    assert_eq!(batches.add_triangle(0, 1, 0), 0);
    assert_eq!(batches.add_triangle(0, 1, 0), 3);
    assert_eq!(batches.add_triangle(2, 1, 0), 6);
    assert_eq!(batches.add_triangle(0, 1, 0), 9);
    assert_eq!(batches.add_triangle(0, 1, 1), 12);
    assert_eq!(batches.add_triangle(0, 2, 1), 15);
    assert_eq!(batches.add_triangle(0, 2, 1), 18);
    let drawn = batches.into_batches();
    let batch = |texture, kind, lm_page, first_index, index_count| DrawBatch {
        texture,
        kind,
        lm_page,
        first_index,
        index_count,
    };
    assert_eq!(
        drawn,
        vec![
            batch(0, 1, 0, 0, 6),
            batch(2, 1, 0, 6, 3),
            batch(0, 1, 0, 9, 3),
            batch(0, 1, 1, 12, 3),
            batch(0, 2, 1, 15, 6),
        ]
    );
    assert!(MapBatches::new().into_batches().is_empty());
}
