//! Layout of the radar cube tensor and the reordering applied before it is
//! published: the doppler axis is rotated so that zero doppler sits in the
//! middle, and the range axis is inverted.
use vstd::prelude::*;

verus! {

/// One complex 16-bit radar cube sample.
#[derive(Debug, Clone, Copy, PartialEq, Eq, Structural)]
pub struct Complex16 {
    pub re: i16,
    pub im: i16,
}

/// Position of `(i, j)` in a row-major matrix with rows of `w` elements.
pub open spec fn flat(i: int, j: int, w: int) -> int {
    i * w + j
}

/// Position of `[s, r, x, d]` in a row-major tensor of shape
/// `[_, nr, nx, nd]`.
pub open spec fn idx4(s: int, r: int, x: int, d: int, nr: int, nx: int, nd: int) -> int {
    ((s * nr + r) * nx + x) * nd + d
}

/// `(d + n / 2) mod n` for `0 <= d < n`: the doppler bin that lands at `d`
/// once the two halves of an axis of `n` bins are swapped.
pub open spec fn rot(d: int, n: int) -> int {
    if d + n / 2 < n { d + n / 2 } else { d + n / 2 - n }
}

proof fn lemma_flat_bound(i: int, j: int, rows: int, w: int)
    requires
        0 <= i < rows,
        0 <= j < w,
    ensures
        0 <= flat(i, j, w) < rows * w,
{
    assert((i + 1) * w <= rows * w) by (nonlinear_arith)
        requires
            i + 1 <= rows,
            0 <= w,
    ;
    assert(i * w + w == (i + 1) * w) by (nonlinear_arith);
    assert(0 <= i * w) by (nonlinear_arith)
        requires
            0 <= i,
            0 <= w,
    ;
}

proof fn lemma_flat_before(i2: int, j2: int, i: int, w: int)
    requires
        0 <= i2 < i,
        0 <= j2 < w,
    ensures
        flat(i2, j2, w) < i * w,
{
    assert(i2 * w + j2 < i * w) by (nonlinear_arith)
        requires
            0 <= i2 < i,
            0 <= j2 < w,
    ;
}

/// Builds `out` with `out[i * width + j] == src[rows[i] * width + cols[j]]`.
fn gather(src: &Vec<Complex16>, nrows: usize, width: usize, rows: &Vec<usize>, cols: &Vec<usize>) -> (out: Vec<Complex16>)
    requires
        src@.len() == nrows * width,
        cols@.len() == width,
        forall|i: int| 0 <= i < rows@.len() ==> rows@[i] < nrows,
        forall|j: int| 0 <= j < cols@.len() ==> cols@[j] < width,
    ensures
        out@.len() == rows@.len() * width,
        forall|i: int, j: int|
            0 <= i < rows@.len() && 0 <= j < width ==> out@[#[trigger] flat(i, j, width as int)]
                == src@[flat(rows@[i] as int, cols@[j] as int, width as int)],
{
    let n = src.len();
    let mut out: Vec<Complex16> = Vec::new();
    let mut i: usize = 0;
    while i < rows.len()
        invariant
            i <= rows@.len(),
            src@.len() == nrows * width,
            n == src@.len(),
            cols@.len() == width,
            forall|i: int| 0 <= i < rows@.len() ==> rows@[i] < nrows,
            forall|j: int| 0 <= j < cols@.len() ==> cols@[j] < width,
            out@.len() == i * width,
            forall|i2: int, j2: int|
                0 <= i2 < i && 0 <= j2 < width ==> out@[#[trigger] flat(i2, j2, width as int)]
                    == src@[flat(rows@[i2] as int, cols@[j2] as int, width as int)],
        decreases rows@.len() - i,
    {
        let row = rows[i];
        let mut j: usize = 0;
        while j < width
            invariant
                i < rows@.len(),
                j <= width,
                row == rows@[i as int],
                row < nrows,
                src@.len() == nrows * width,
                n == src@.len(),
                cols@.len() == width,
                forall|j: int| 0 <= j < cols@.len() ==> cols@[j] < width,
                out@.len() == i * width + j,
                forall|i2: int, j2: int|
                    0 <= i2 < i && 0 <= j2 < width ==> out@[#[trigger] flat(i2, j2, width as int)]
                        == src@[flat(rows@[i2] as int, cols@[j2] as int, width as int)],
                forall|j2: int|
                    0 <= j2 < j ==> out@[#[trigger] flat(i as int, j2, width as int)]
                        == src@[flat(row as int, cols@[j2] as int, width as int)],
            decreases width - j,
        {
            let col = cols[j];
            proof {
                lemma_flat_bound(row as int, col as int, nrows as int, width as int);
            }
            let v = src[row * width + col];
            let ghost before = out@;
            out.push(v);
            proof {
                assert forall|i2: int, j2: int|
                    0 <= i2 < i && 0 <= j2 < width implies out@[#[trigger] flat(
                        i2,
                        j2,
                        width as int,
                    )] == src@[flat(rows@[i2] as int, cols@[j2] as int, width as int)] by {
                    lemma_flat_before(i2, j2, i as int, width as int);
                }
                assert forall|j2: int|
                    0 <= j2 < j + 1 implies out@[#[trigger] flat(i as int, j2, width as int)]
                        == src@[flat(row as int, cols@[j2] as int, width as int)] by {
                    if j2 < j {
                        assert(out@[flat(i as int, j2, width as int)] == before[flat(
                            i as int,
                            j2,
                            width as int,
                        )]);
                    }
                }
            }
            j = j + 1;
        }
        proof {
            assert((i + 1) * width == i * width + width) by (nonlinear_arith);
        }
        i = i + 1;
    }
    out
}


/// `[0, 1, ..., n - 1]`.
fn iota(n: usize) -> (v: Vec<usize>)
    ensures
        v@.len() == n,
        forall|i: int| 0 <= i < n ==> v@[i] == i,
{
    let mut v: Vec<usize> = Vec::new();
    let mut i: usize = 0;
    while i < n
        invariant
            i <= n,
            v@.len() == i,
            forall|k: int| 0 <= k < i ==> v@[k] == k,
        decreases n - i,
    {
        v.push(i);
        i = i + 1;
    }
    v
}

/// The doppler bin that lands at each position once the halves of an axis of
/// `n` bins are swapped.
fn rot_table(n: usize) -> (v: Vec<usize>)
    ensures
        v@.len() == n,
        forall|d: int| 0 <= d < n ==> #[trigger] v@[d] == rot(d, n as int),
        forall|d: int| 0 <= d < v@.len() ==> #[trigger] v@[d] < n,
{
    let half = n / 2;
    let mut v: Vec<usize> = Vec::new();
    let mut d: usize = 0;
    while d < n
        invariant
            d <= n,
            half == n / 2,
            v@.len() == d,
            forall|k: int| 0 <= k < d ==> #[trigger] v@[k] == rot(k, n as int),
            forall|k: int| 0 <= k < d ==> #[trigger] v@[k] < n,
        decreases n - d,
    {
        if d < n - half {
            v.push(d + half);
        } else {
            v.push(d - (n - half));
        }
        d = d + 1;
    }
    v
}

/// For a matrix of `ns` by `nr` rows, the row that lands at each position
/// once the order of the rows within each group of `nr` is reversed.
fn flip_table(ns: usize, nr: usize) -> (v: Vec<usize>)
    requires
        ns * nr <= usize::MAX,
    ensures
        v@.len() == ns * nr,
        forall|s: int, r: int|
            0 <= s < ns && 0 <= r < nr ==> v@[#[trigger] flat(s, r, nr as int)] == flat(
                s,
                nr - 1 - r,
                nr as int,
            ),
        forall|q: int| 0 <= q < v@.len() ==> v@[q] < ns * nr,
{
    let mut v: Vec<usize> = Vec::new();
    let mut s: usize = 0;
    while s < ns
        invariant
            s <= ns,
            ns * nr <= usize::MAX,
            v@.len() == s * nr,
            forall|s2: int, r2: int|
                0 <= s2 < s && 0 <= r2 < nr ==> v@[#[trigger] flat(s2, r2, nr as int)] == flat(
                    s2,
                    nr - 1 - r2,
                    nr as int,
                ),
            forall|q: int| 0 <= q < v@.len() ==> v@[q] < ns * nr,
        decreases ns - s,
    {
        let mut r: usize = 0;
        while r < nr
            invariant
                s < ns,
                r <= nr,
                ns * nr <= usize::MAX,
                v@.len() == s * nr + r,
                forall|s2: int, r2: int|
                    0 <= s2 < s && 0 <= r2 < nr ==> v@[#[trigger] flat(s2, r2, nr as int)]
                        == flat(s2, nr - 1 - r2, nr as int),
                forall|r2: int|
                    0 <= r2 < r ==> v@[#[trigger] flat(s as int, r2, nr as int)] == flat(
                        s as int,
                        nr - 1 - r2,
                        nr as int,
                    ),
                forall|q: int| 0 <= q < v@.len() ==> v@[q] < ns * nr,
            decreases nr - r,
        {
            proof {
                lemma_flat_bound(s as int, (nr - 1 - r) as int, ns as int, nr as int);
            }
            let ghost before = v@;
            v.push(s * nr + (nr - 1 - r));
            proof {
                assert forall|s2: int, r2: int|
                    0 <= s2 < s && 0 <= r2 < nr implies v@[#[trigger] flat(s2, r2, nr as int)]
                        == flat(s2, nr - 1 - r2, nr as int) by {
                    lemma_flat_before(s2, r2, s as int, nr as int);
                }
                assert forall|r2: int|
                    0 <= r2 < r + 1 implies v@[#[trigger] flat(s as int, r2, nr as int)] == flat(
                        s as int,
                        nr - 1 - r2,
                        nr as int,
                    ) by {
                    if r2 < r {
                        assert(v@[flat(s as int, r2, nr as int)] == before[flat(
                            s as int,
                            r2,
                            nr as int,
                        )]);
                    }
                }
            }
            r = r + 1;
        }
        proof {
            assert((s + 1) * nr == s * nr + nr) by (nonlinear_arith);
        }
        s = s + 1;
    }
    v
}

/// Number of elements of a tensor of shape `dims`.
pub open spec fn volume(dims: Seq<usize>) -> int {
    dims[0] * dims[1] * dims[2] * dims[3]
}

proof fn lemma_idx4_split(s: int, r: int, x: int, d: int, nr: int, nx: int, nd: int)
    ensures
        idx4(s, r, x, d, nr, nx, nd) == flat(flat(s, r, nr), flat(x, d, nd), nx * nd),
        idx4(s, r, x, d, nr, nx, nd) == flat(flat(flat(s, r, nr), x, nx), d, nd),
{
    assert(((s * nr + r) * nx + x) * nd + d == (s * nr + r) * (nx * nd) + (x * nd + d))
        by (nonlinear_arith);
}

proof fn lemma_volume_parts(a: int, b: int, c: int, d: int)
    requires
        a >= 1,
        b >= 1,
        c >= 1,
        d >= 1,
    ensures
        a * b <= a * b * c * d,
        a * b * c <= a * b * c * d,
        c * d <= a * b * c * d,
        (a * b) * (c * d) == a * b * c * d,
        a * b * c * d == (a * b * c) * d,
{
    assert(a * b <= a * b * c * d && a * b * c <= a * b * c * d && c * d <= a * b * c * d) by (nonlinear_arith)
        requires
            a >= 1,
            b >= 1,
            c >= 1,
            d >= 1,
    ;
    assert((a * b) * (c * d) == a * b * c * d) by (nonlinear_arith);
}

/// Reorders a cube of shape `[s, r, x, d]` for publishing: the two halves of
/// the doppler axis are swapped so that zero doppler sits in the middle, and
/// the range axis is inverted.
pub fn center_doppler_invert_range(src: &Vec<Complex16>, dims: [usize; 4]) -> (out: Vec<Complex16>)
    requires
        src@.len() == volume(dims@),
    ensures
        out@.len() == src@.len(),
        forall|s: int, r: int, x: int, d: int|
            0 <= s < dims[0] && 0 <= r < dims[1] && 0 <= x < dims[2] && 0 <= d < dims[3]
                ==> out@[#[trigger] idx4(s, r, x, d, dims[1] as int, dims[2] as int, dims[3] as int)]
                == src@[idx4(
                s,
                dims[1] - 1 - r,
                x,
                rot(d, dims[3] as int),
                dims[1] as int,
                dims[2] as int,
                dims[3] as int,
            )],
{
    let ns = dims[0];
    let nr = dims[1];
    let nx = dims[2];
    let nd = dims[3];
    let n = src.len();
    if ns == 0 || nr == 0 || nx == 0 || nd == 0 {
        proof {
            let (a, b, c, d) = (ns as int, nr as int, nx as int, nd as int);
            assert(a * b * c * d == 0) by (nonlinear_arith)
                requires
                    a == 0 || b == 0 || c == 0 || d == 0,
            ;
        }
        return Vec::new();
    }
    proof {
        lemma_volume_parts(ns as int, nr as int, nx as int, nd as int);
    }
    let nrows = ns * nr * nx;
    let rows = iota(nrows);
    let cols = rot_table(nd);
    let centered = gather(src, nrows, nd, &rows, &cols);
    let nq = ns * nr;
    let width = nx * nd;
    let flips = flip_table(ns, nr);
    let keep = iota(width);
    let out = gather(&centered, nq, width, &flips, &keep);
    proof {
        assert forall|s: int, r: int, x: int, d: int|
            0 <= s < ns && 0 <= r < nr && 0 <= x < nx && 0 <= d < nd implies out@[#[trigger] idx4(
            s,
            r,
            x,
            d,
            nr as int,
            nx as int,
            nd as int,
        )] == src@[idx4(s, nr - 1 - r, x, rot(d, nd as int), nr as int, nx as int, nd as int)] by {
            lemma_idx4_split(s, r, x, d, nr as int, nx as int, nd as int);
            lemma_idx4_split(s, nr - 1 - r, x, d, nr as int, nx as int, nd as int);
            lemma_idx4_split(s, nr - 1 - r, x, rot(d, nd as int), nr as int, nx as int, nd as int);
            lemma_flat_bound(s, r, ns as int, nr as int);
            lemma_flat_bound(x, d, nx as int, nd as int);
            lemma_flat_bound(s, nr - 1 - r, ns as int, nr as int);
            lemma_flat_bound(flat(s, nr - 1 - r, nr as int), x, nq as int, nx as int);
            let q = flat(s, r, nr as int);
            let k = flat(x, d, nd as int);
            assert(out@[flat(q, k, width as int)] == centered@[flat(
                flips@[q] as int,
                keep@[k] as int,
                width as int,
            )]);
            let row = flat(flat(s, nr - 1 - r, nr as int), x, nx as int);
            assert(centered@[flat(row, d, nd as int)] == src@[flat(
                rows@[row] as int,
                cols@[d] as int,
                nd as int,
            )]);
        }
    }
    out
}


/// The samples as the published `i16` sequence: real and imaginary part of
/// each sample in turn.
pub fn interleave(data: &Vec<Complex16>) -> (out: Vec<i16>)
    ensures
        out@.len() == 2 * data@.len(),
        forall|i: int|
            0 <= i < data@.len() ==> out@[2 * i] == #[trigger] data@[i].re && out@[2 * i + 1]
                == data@[i].im,
{
    let mut out: Vec<i16> = Vec::new();
    let mut i: usize = 0;
    while i < data.len()
        invariant
            i <= data@.len(),
            out@.len() == 2 * i,
            forall|k: int|
                0 <= k < i ==> out@[2 * k] == #[trigger] data@[k].re && out@[2 * k + 1]
                    == data@[k].im,
        decreases data@.len() - i,
    {
        let c = data[i];
        out.push(c.re);
        out.push(c.im);
        i = i + 1;
    }
    out
}

/// The published shape of a cube of shape `dims`: the doppler axis counts
/// real and imaginary parts apart, so it is doubled.  `None` when a
/// dimension does not fit in 16 bits.
pub fn message_shape(dims: [usize; 4]) -> (r: Option<[u16; 4]>)
    ensures
        r is Some <==> (dims[0] <= u16::MAX && dims[1] <= u16::MAX && dims[2] <= u16::MAX && 2
            * dims[3] <= u16::MAX),
        r matches Some(sh) ==> sh@ == seq![
            dims[0] as u16,
            dims[1] as u16,
            dims[2] as u16,
            (2 * dims[3]) as u16,
        ],
{
    if dims[0] > 0xFFFF || dims[1] > 0xFFFF || dims[2] > 0xFFFF || dims[3] > 0x7FFF {
        return None;
    }
    let sh = [dims[0] as u16, dims[1] as u16, dims[2] as u16, (2 * dims[3]) as u16];
    assert(sh@ =~= seq![dims[0] as u16, dims[1] as u16, dims[2] as u16, (2 * dims[3]) as u16]);
    Some(sh)
}

} // verus!
