use vstd::prelude::*;

verus! {

/// Width of the window, in pixels.
pub const WIN_X: u32 = 700;

/// Height of the window, in pixels.
pub const WIN_Y: u32 = WIN_X;

/// The colour of points that never escape: black.
pub open spec fn black() -> [u8; 3] {
    [0u8, 0u8, 0u8]
}

/// The pixel visited `k`-th when a grid `height` pixels high is walked
/// column by column, each column from top to bottom.
pub open spec fn grid_entry(height: int, k: int) -> (u32, u32) {
    ((k / height) as u32, (k % height) as u32)
}

/// The colour of a pixel whose orbit stopped after `i` iterations: black when
/// it used up the whole iteration limit, else the `i`-th gradient colour.
pub open spec fn color_of(i: usize, nb_iterations: u32, grad: Seq<[u8; 3]>) -> [u8; 3] {
    if i as u32 == nb_iterations {
        black()
    } else {
        grad[i as int]
    }
}

/// A pixel whose orbit used up the whole iteration limit is black, whatever
/// the gradient; any other pixel takes the gradient colour at its count.
pub proof fn lemma_color_rule(i: usize, nb_iterations: u32, grad: Seq<[u8; 3]>)
    ensures
        i as u32 == nb_iterations ==> color_of(i, nb_iterations, grad) == [0u8, 0u8, 0u8],
        i as u32 != nb_iterations ==> color_of(i, nb_iterations, grad) == grad[i as int],
{
}

/// The `k`-th pixel of the walk lies in column `k / height`, row `k % height`.
pub proof fn lemma_grid_entry_position(height: int, k: int)
    requires
        0 < height <= u32::MAX + 1,
        0 <= k,
        k / height <= u32::MAX,
    ensures
        grid_entry(height, k).0 == k / height,
        grid_entry(height, k).1 == k % height,
{
    vstd::arithmetic::div_mod::lemma_mod_pos_bound(k, height);
}

/// Column `x`, row `y` of a grid `height` high sits at index `x * height + y`
/// of the walk.
pub proof fn lemma_grid_index(height: int, x: int, y: int)
    requires
        0 <= x,
        0 <= y < height,
    ensures
        (x * height + y) / height == x,
        (x * height + y) % height == y,
{
    vstd::arithmetic::div_mod::lemma_fundamental_div_mod_converse(x * height + y, height, x, y);
}

/// The walk over a `width` by `height` grid visits every pixel of the grid:
/// pixel `(x, y)` comes at index `x * height + y`, inside the walk.
pub proof fn lemma_grid_covers(width: int, height: int, x: int, y: int)
    requires
        0 <= x < width,
        0 <= y < height,
        height <= u32::MAX + 1,
        width <= u32::MAX + 1,
    ensures
        0 <= x * height + y < width * height,
        grid_entry(height, x * height + y) == (x as u32, y as u32),
{
    lemma_grid_index(height, x, y);
    assert(x * height + y < width * height) by (nonlinear_arith)
        requires
            0 <= x < width,
            0 <= y < height,
    ;
    assert(0 <= x * height) by (nonlinear_arith)
        requires
            0 <= x,
            0 <= height,
    ;
}

/// The walk never visits a pixel twice: distinct indices of a grid whose
/// height fits in `u32` give distinct pixels.
pub proof fn lemma_grid_no_repeat(height: int, k1: int, k2: int)
    requires
        0 < height <= u32::MAX + 1,
        0 <= k1,
        0 <= k2,
        k1 != k2,
        k1 / height <= u32::MAX,
        k2 / height <= u32::MAX,
    ensures
        grid_entry(height, k1) != grid_entry(height, k2),
{
    vstd::arithmetic::div_mod::lemma_fundamental_div_mod(k1, height);
    vstd::arithmetic::div_mod::lemma_fundamental_div_mod(k2, height);
    if grid_entry(height, k1) == grid_entry(height, k2) {
        assert(k1 / height == k2 / height);
        assert(k1 % height == k2 % height);
        assert(k1 == height * (k1 / height) + k1 % height);
        assert(k2 == height * (k2 / height) + k2 % height);
    }
}

/// Every pixel of a `width` by `height` grid, column by column, each column
/// from top to bottom.
pub fn pixel_grid(width: u32, height: u32) -> (v: Vec<(u32, u32)>)
    requires
        width * height <= usize::MAX,
    ensures
        v.len() == width * height,
        forall|k: int| 0 <= k < v.len() ==> #[trigger] v[k] == grid_entry(height as int, k),
        forall|k: int|
            0 <= k < v.len() ==> #[trigger] v[k].0 == k / (height as int) && v[k].1 == k % (
            height as int),
{
    let mut v: Vec<(u32, u32)> = Vec::new();
    let mut x: u32 = 0;
    while x < width
        invariant
            x <= width,
            width * height <= usize::MAX,
            v.len() == x * height,
            forall|k: int| 0 <= k < v.len() ==> #[trigger] v[k] == grid_entry(height as int, k),
            forall|k: int|
                0 <= k < v.len() ==> #[trigger] v[k].0 == k / (height as int) && v[k].1 == k % (
                height as int),
        decreases width - x,
    {
        let mut y: u32 = 0;
        while y < height
            invariant
                x < width,
                y <= height,
                width * height <= usize::MAX,
                v.len() == x * height + y,
                forall|k: int| 0 <= k < v.len() ==> #[trigger] v[k] == grid_entry(height as int, k),
                forall|k: int|
                    0 <= k < v.len() ==> #[trigger] v[k].0 == k / (height as int) && v[k].1 == k
                        % (height as int),
            decreases height - y,
        {
            proof {
                lemma_grid_index(height as int, x as int, y as int);
                assert(x * height + y < width * height) by (nonlinear_arith)
                    requires
                        x < width,
                        y < height,
                ;
            }
            v.push((x, y));
            y = y + 1;
        }
        proof {
            assert(x * height + height == (x + 1) * height) by (nonlinear_arith);
        }
        x = x + 1;
    }
    v
}

/// The colour of a pixel whose orbit stopped after `i` iterations.
pub fn pixel_color(i: usize, nb_iterations: u32, grad: &[[u8; 3]]) -> (c: [u8; 3])
    requires
        i as u32 == nb_iterations || i < grad@.len(),
    ensures
        c == color_of(i, nb_iterations, grad@),
{
    if i as u32 == nb_iterations {
        [0u8, 0u8, 0u8]
    } else {
        grad[i]
    }
}

} // verus!
