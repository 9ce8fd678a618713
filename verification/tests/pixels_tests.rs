use mandelbrot::pixels::{pixel_color, pixel_grid, WIN_X, WIN_Y};

#[test]
fn grid_walks_columns_top_to_bottom() {
    assert_eq!(pixel_grid(3, 2), vec![(0, 0), (0, 1), (1, 0), (1, 1), (2, 0), (2, 1)]);
}

#[test]
fn empty_grids() {
    assert!(pixel_grid(0, 5).is_empty());
    assert!(pixel_grid(5, 0).is_empty());
}

#[test]
fn window_grid_holds_every_pixel_once() {
    assert_eq!((WIN_X, WIN_Y), (700, 700));
    let g = pixel_grid(WIN_X, WIN_Y);
    assert_eq!(g.len(), 490_000);
    assert_eq!(g[0], (0, 0));
    assert_eq!(g[699], (0, 699));
    assert_eq!(g[700], (1, 0));
    assert_eq!(g[3 * 700 + 17], (3, 17));
    assert_eq!(g[489_999], (699, 699));
    let mut seen = vec![false; 490_000];
    for (x, y) in g {
        let k = (x * WIN_Y + y) as usize;
        assert!(!seen[k]);
        seen[k] = true;
    }
    assert!(seen.iter().all(|b| *b));
}

#[test]
fn colour_is_black_at_the_iteration_limit() {
    let grad = vec![[10u8, 20, 30], [40u8, 50, 60], [70u8, 80, 90]];
    assert_eq!(pixel_color(3, 3, &grad), [0, 0, 0]);
    assert_eq!(pixel_color(0, 0, &[]), [0, 0, 0]);
}

#[test]
fn colour_comes_from_the_gradient_below_the_limit() {
    let grad = vec![[10u8, 20, 30], [40u8, 50, 60], [70u8, 80, 90]];
    assert_eq!(pixel_color(0, 3, &grad), [10, 20, 30]);
    assert_eq!(pixel_color(2, 3, &grad), [70, 80, 90]);
    assert_eq!(pixel_color(1, 100, &grad), [40, 50, 60]);
}
