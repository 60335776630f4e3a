use wm_scrolling::{
    default_tiling_size, full_tiling_size, tiling_sizes_for_scrolling, tiling_sizes_for_tiling,
    TilingSize,
};

fn as_f32(sizes: &[TilingSize]) -> Vec<f32> {
    sizes
        .iter()
        .map(|s| s.numerator as f32 / s.denominator as f32)
        .collect()
}

#[test]
fn test_tiling_sizes_for_scrolling() {
    assert_eq!(as_f32(&tiling_sizes_for_scrolling(3)), vec![0.5, 0.5, 0.5]);
    assert_eq!(as_f32(&tiling_sizes_for_scrolling(0)), Vec::<f32>::new());
}

#[test]
fn test_tiling_sizes_for_tiling() {
    let sizes = as_f32(&tiling_sizes_for_tiling(4));
    assert_eq!(sizes.len(), 4);
    for s in &sizes {
        assert!((s - 0.25).abs() < f32::EPSILON);
    }
    assert_eq!(as_f32(&tiling_sizes_for_tiling(0)), Vec::<f32>::new());
}

#[test]
fn tiling_sizes_are_exact_fractions() {
    assert_eq!(
        tiling_sizes_for_scrolling(2),
        vec![TilingSize { numerator: 1, denominator: 2 }; 2]
    );
    assert_eq!(
        tiling_sizes_for_tiling(3),
        vec![TilingSize { numerator: 1, denominator: 3 }; 3]
    );
    assert_eq!(
        tiling_sizes_for_tiling(1),
        vec![TilingSize { numerator: 1, denominator: 1 }]
    );
}

#[test]
fn tiling_shares_fill_the_space() {
    for n in 1..10usize {
        let sizes = tiling_sizes_for_tiling(n);
        let sum: usize = sizes.iter().map(|s| s.numerator).sum();
        assert!(sizes.iter().all(|s| s.denominator == n));
        assert_eq!(sum, n);
    }
}

#[test]
fn default_and_full_sizes() {
    assert_eq!(default_tiling_size(), TilingSize { numerator: 1, denominator: 2 });
    assert_eq!(full_tiling_size(), TilingSize { numerator: 1, denominator: 1 });
}
