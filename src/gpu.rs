//! The matrix backend's rules: operand shapes and the checks on them, the
//! dispatch sizes of the kernels, the host-side layout of operands and
//! results, and the kernels' algorithms over integer elements.
use vstd::prelude::*;

verus! {

/// Side of the square output tiles of the matrix-multiply kernel.
pub const TILE_SIZE: u32 = 16;

/// Lanes per group of the vector-matrix kernel.
pub const LANES_PER_GROUP: u32 = 64;

/// The shape of a matrix as the kernels read it: its number of rows and the
/// length of its first row.
#[derive(Clone, Copy, PartialEq, Eq, Structural)]
pub struct MatrixHeader {
    pub long: u32,
    pub width: u32,
}

/// Why a kernel refused its operands before any device work.
#[derive(PartialEq, Eq, Structural)]
pub enum GpuError {
    /// The operands' shapes do not fit together.
    DimensionMismatch,
    /// The result would not fit a device buffer.
    TooLarge,
    /// The operands of an element-wise kernel differ in length.
    LengthMismatch,
}

/// The text of each error.
pub open spec fn gpu_error_text(e: GpuError) -> Seq<char> {
    match e {
        GpuError::DimensionMismatch => "Matrix A's width must equal Matrix B's height."@,
        GpuError::TooLarge => "Result does not fit a device buffer."@,
        GpuError::LengthMismatch => "Input length mismatch"@,
    }
}

impl GpuError {
    pub fn message(&self) -> (r: String)
        ensures
            r@ == gpu_error_text(*self),
    {
        proof {
            reveal_strlit("Matrix A's width must equal Matrix B's height.");
            reveal_strlit("Result does not fit a device buffer.");
            reveal_strlit("Input length mismatch");
        }
        match self {
            GpuError::DimensionMismatch => "Matrix A's width must equal Matrix B's height.".to_owned(),
            GpuError::TooLarge => "Result does not fit a device buffer.".to_owned(),
            GpuError::LengthMismatch => "Input length mismatch".to_owned(),
        }
    }
}

/// Number of rows of a matrix.
pub open spec fn rows<T>(m: Seq<Vec<T>>) -> nat {
    m.len()
}

/// Width of a matrix: the length of its first row, zero when it has none.
pub open spec fn width<T>(m: Seq<Vec<T>>) -> nat {
    if m.len() == 0 {
        0
    } else {
        m[0]@.len()
    }
}

/// The shape of a matrix, or `TooLarge` when its height or width does not
/// fit the device's 32-bit header.
pub fn matrix_header<T>(m: &Vec<Vec<T>>) -> (r: Result<MatrixHeader, GpuError>)
    ensures
        rows(m@) <= u32::MAX && width(m@) <= u32::MAX ==> r == Ok::<MatrixHeader, GpuError>(
            MatrixHeader { long: rows(m@) as u32, width: width(m@) as u32 },
        ),
        !(rows(m@) <= u32::MAX && width(m@) <= u32::MAX) ==> r == Err::<MatrixHeader, GpuError>(
            GpuError::TooLarge,
        ),
{
    let width: usize = if m.len() == 0 { 0 } else { m[0].len() };
    if m.len() > u32::MAX as usize || width > u32::MAX as usize {
        return Err(GpuError::TooLarge);
    }
    Ok(MatrixHeader { long: m.len() as u32, width: width as u32 })
}

/// `ceil(n / d)`.
pub open spec fn groups_for(n: nat, d: nat) -> nat
    recommends
        d > 0,
{
    ((n + d - 1) / d as int) as nat
}

proof fn lemma_in_some_group(n: nat, d: nat, i: nat)
    requires
        d > 0,
        i < n,
    ensures
        i / d < groups_for(n, d),
{
    let (ii, dd, nn) = (i as int, d as int, n as int);
    assert((ii + dd) / dd == ii / dd + 1) by (nonlinear_arith)
        requires
            dd > 0,
    ;
    assert((ii + dd) / dd <= (nn + dd - 1) / dd) by (nonlinear_arith)
        requires
            dd > 0,
            ii + dd <= nn + dd - 1,
    ;
}

/// The planned groups cover the whole result: element `(row, col)` of an
/// `long × width` result falls in group `(col / 16, row / 16)`, which lies
/// within `ceil(width / 16) × ceil(long / 16)`; and lane `j` of a
/// `width`-lane result falls in group `j / 64`, within `ceil(width / 64)`.
pub proof fn dispatch_covers_result(long: nat, width: nat, row: nat, col: nat)
    requires
        row < long,
        col < width,
    ensures
        col / (TILE_SIZE as nat) < groups_for(width, TILE_SIZE as nat),
        row / (TILE_SIZE as nat) < groups_for(long, TILE_SIZE as nat),
        col / (LANES_PER_GROUP as nat) < groups_for(width, LANES_PER_GROUP as nat),
{
    lemma_in_some_group(width, TILE_SIZE as nat, col);
    lemma_in_some_group(long, TILE_SIZE as nat, row);
    lemma_in_some_group(width, LANES_PER_GROUP as nat, col);
}

/// What a matrix-multiply dispatch needs: the operands' headers, the
/// length of the result buffer, and the group counts along the result's
/// columns (x) and rows (y).
pub struct MatmulPlan {
    pub a_header: MatrixHeader,
    pub b_header: MatrixHeader,
    pub out_len: u32,
    pub groups_x: u32,
    pub groups_y: u32,
}

/// Plans `A × B` for operands of shapes `a` and `b`: the width of `A` must
/// equal the height of `B`. The result has `a.long × b.width` elements,
/// covered by `ceil(b.width / 16) × ceil(a.long / 16)` groups.
pub fn plan_matrix_multiply(a: MatrixHeader, b: MatrixHeader) -> (r: Result<MatmulPlan, GpuError>)
    ensures
        a.width != b.long ==> r == Err::<MatmulPlan, GpuError>(GpuError::DimensionMismatch),
        a.width == b.long && a.long * b.width * 4 > u32::MAX ==> r == Err::<MatmulPlan, GpuError>(
            GpuError::TooLarge,
        ),
        a.width == b.long && a.long * b.width * 4 <= u32::MAX ==> (r matches Ok(p) && p.a_header == a
            && p.b_header == b && p.out_len == a.long * b.width && p.groups_x == groups_for(
            b.width as nat,
            TILE_SIZE as nat,
        ) && p.groups_y == groups_for(a.long as nat, TILE_SIZE as nat)),
{
    if a.width != b.long {
        return Err(GpuError::DimensionMismatch);
    }
    assert((a.long as int) * (b.width as int) <= 0xffff_ffff * 0xffff_ffff) by (nonlinear_arith)
        requires
            a.long <= 0xffff_ffff,
            b.width <= 0xffff_ffff,
    ;
    let out_len: u64 = a.long as u64 * b.width as u64;
    if out_len > u32::MAX as u64 / 4 {
        return Err(GpuError::TooLarge);
    }
    let groups_x: u32 = ((b.width as u64 + 15) / 16) as u32;
    let groups_y: u32 = ((a.long as u64 + 15) / 16) as u32;
    Ok(MatmulPlan { a_header: a, b_header: b, out_len: out_len as u32, groups_x, groups_y })
}

/// What a vector-matrix dispatch needs: the matrix header, the length of
/// the result, and the number of 64-lane groups.
pub struct VecMatPlan {
    pub b_header: MatrixHeader,
    pub out_len: u32,
    pub groups_x: u32,
}

/// Plans `v × B` for a vector of length `v_len` and a matrix of shape `b`:
/// the vector's length must equal the height of `B`. The result has
/// `b.width` lanes, covered by `ceil(b.width / 64)` groups.
pub fn plan_vec_matrix_multiply(v_len: usize, b: MatrixHeader) -> (r: Result<VecMatPlan, GpuError>)
    ensures
        v_len != b.long ==> r == Err::<VecMatPlan, GpuError>(GpuError::DimensionMismatch),
        v_len == b.long && b.width * 4 > u32::MAX ==> r == Err::<VecMatPlan, GpuError>(
            GpuError::TooLarge,
        ),
        v_len == b.long && b.width * 4 <= u32::MAX ==> (r matches Ok(p) && p.b_header == b
            && p.out_len == b.width && p.groups_x == groups_for(
            b.width as nat,
            LANES_PER_GROUP as nat,
        )),
{
    if v_len != b.long as usize {
        return Err(GpuError::DimensionMismatch);
    }
    if b.width as u64 * 4 > u32::MAX as u64 {
        return Err(GpuError::TooLarge);
    }
    let groups_x: u32 = ((b.width as u64 + 63) / 64) as u32;
    Ok(VecMatPlan { b_header: b, out_len: b.width, groups_x })
}

/// Plans the element-wise sum of two vectors: one single-lane group per
/// element; the operands must have equal lengths.
pub fn plan_add(a_len: usize, b_len: usize) -> (r: Result<u32, GpuError>)
    ensures
        a_len != b_len ==> r == Err::<u32, GpuError>(GpuError::LengthMismatch),
        a_len == b_len && a_len * 4 > u32::MAX ==> r == Err::<u32, GpuError>(GpuError::TooLarge),
        a_len == b_len && a_len * 4 <= u32::MAX ==> r == Ok::<u32, GpuError>(a_len as u32),
{
    if a_len != b_len {
        return Err(GpuError::LengthMismatch);
    }
    if a_len > u32::MAX as usize / 4 {
        return Err(GpuError::TooLarge);
    }
    Ok(a_len as u32)
}

/// The kernels of the compute module.
#[derive(Clone, Copy, PartialEq, Eq, Structural)]
pub enum Kernel {
    AddU32,
    Add,
    MatrixMultiply,
    VectorMatrixMultiply,
}

/// The entry point of each kernel in the compute module.
pub open spec fn kernel_name(k: Kernel) -> Seq<char> {
    match k {
        Kernel::AddU32 => "add_u32"@,
        Kernel::Add => "add"@,
        Kernel::MatrixMultiply => "matrix_multiply"@,
        Kernel::VectorMatrixMultiply => "vector_matrix_multiply"@,
    }
}

/// The bindings of each kernel's storage buffers, inputs first and the
/// result last.
pub open spec fn kernel_bindings(k: Kernel) -> Seq<u32> {
    match k {
        Kernel::AddU32 => seq![0u32, 1, 2],
        Kernel::Add => seq![3u32, 4, 5],
        Kernel::MatrixMultiply => seq![6u32, 7, 8, 9, 10],
        Kernel::VectorMatrixMultiply => seq![11u32, 12, 13, 14],
    }
}

/// One storage binding of a kernel's layout.
#[derive(Clone, Copy, PartialEq, Eq, Structural)]
pub struct BindingSlot {
    pub binding: u32,
    pub read_only: bool,
}

impl Kernel {
    pub fn name(&self) -> (r: &'static str)
        ensures
            r@ == kernel_name(*self),
    {
        proof {
            reveal_strlit("add_u32");
            reveal_strlit("add");
            reveal_strlit("matrix_multiply");
            reveal_strlit("vector_matrix_multiply");
        }
        match self {
            Kernel::AddU32 => "add_u32",
            Kernel::Add => "add",
            Kernel::MatrixMultiply => "matrix_multiply",
            Kernel::VectorMatrixMultiply => "vector_matrix_multiply",
        }
    }

    /// The kernel's binding layout: every buffer is read-only storage but
    /// the last one, which receives the result.
    pub fn layout(&self) -> (r: Vec<BindingSlot>)
        ensures
            r@.len() == kernel_bindings(*self).len(),
            forall|i: int| 0 <= i < r@.len() ==> (#[trigger] r@[i]).binding == kernel_bindings(*self)[i]
                && r@[i].read_only == (i != r@.len() - 1),
    {
        let bindings: Vec<u32> = match self {
            Kernel::AddU32 => vec![0u32, 1, 2],
            Kernel::Add => vec![3u32, 4, 5],
            Kernel::MatrixMultiply => vec![6u32, 7, 8, 9, 10],
            Kernel::VectorMatrixMultiply => vec![11u32, 12, 13, 14],
        };
        assert(bindings@ =~= kernel_bindings(*self));
        let last: usize = bindings.len() - 1;
        let mut out: Vec<BindingSlot> = Vec::new();
        let mut i: usize = 0;
        while i < bindings.len()
            invariant
                bindings@ == kernel_bindings(*self),
                last == bindings@.len() - 1,
                i <= bindings@.len(),
                out@.len() == i,
                forall|j: int| 0 <= j < i ==> (#[trigger] out@[j]).binding == bindings@[j] && out@[j].read_only
                    == (j != last),
            decreases bindings@.len() - i,
        {
            out.push(BindingSlot { binding: bindings[i], read_only: i != last });
            i = i + 1;
        }
        out
    }
}

/// The rows of a matrix laid end to end.
pub open spec fn flat<T>(m: Seq<Vec<T>>) -> Seq<T>
    decreases m.len(),
{
    if m.len() == 0 {
        seq![]
    } else {
        flat(m.drop_last()) + m.last()@
    }
}

/// Lays the rows of a matrix end to end, as the device buffers hold them.
pub fn flatten<T: Copy>(m: &Vec<Vec<T>>) -> (r: Vec<T>)
    ensures
        r@ == flat(m@),
{
    let mut out: Vec<T> = Vec::new();
    let mut i: usize = 0;
    while i < m.len()
        invariant
            i <= m@.len(),
            out@ == flat(m@.subrange(0, i as int)),
        decreases m@.len() - i,
    {
        let row = &m[i];
        let ghost before = out@;
        let mut j: usize = 0;
        while j < row.len()
            invariant
                j <= row@.len(),
                out@ == before + row@.subrange(0, j as int),
            decreases row@.len() - j,
        {
            out.push(row[j]);
            j = j + 1;
            assert(row@.subrange(0, j as int) =~= row@.subrange(0, j - 1 as int).push(row@[j - 1]));
        }
        assert(row@.subrange(0, row@.len() as int) =~= row@);
        assert(m@.subrange(0, i + 1 as int).drop_last() =~= m@.subrange(0, i as int));
        i = i + 1;
    }
    assert(m@.subrange(0, m@.len() as int) =~= m@);
    out
}

/// Row `i` of a flat buffer cut into rows of `w` elements, the last one
/// possibly shorter.
pub open spec fn chunk<T>(s: Seq<T>, w: nat, i: int) -> Seq<T> {
    let start = i * w;
    let end = if start + w <= s.len() { start + w } else { s.len() as int };
    s.subrange(start, end)
}

/// Cuts a flat result buffer into rows of `w` elements (the last one may be
/// shorter); a zero width gives no rows.
pub fn reshape<T: Copy>(flat: &Vec<T>, w: usize) -> (r: Vec<Vec<T>>)
    ensures
        w == 0 ==> r@.len() == 0,
        w > 0 ==> r@.len() == groups_for(flat@.len(), w as nat),
        w > 0 ==> forall|i: int| 0 <= i < r@.len() ==> (#[trigger] r@[i])@ == chunk(flat@, w as nat, i),
{
    let mut out: Vec<Vec<T>> = Vec::new();
    if w == 0 {
        return out;
    }
    let mut start: usize = 0;
    proof {
        if flat@.len() == 0 {
            assert(groups_for(0, w as nat) == 0) by (nonlinear_arith)
                requires
                    w > 0,
                    groups_for(0, w as nat) == (w - 1) / w as int,
            ;
        } else {
            lemma_groups_step(flat@.len(), w as nat, 0);
        }
    }
    while start < flat.len()
        invariant
            w > 0,
            start <= flat@.len(),
            start < flat@.len() ==> start == out@.len() * w,
            out@.len() <= groups_for(flat@.len(), w as nat),
            start < flat@.len() ==> out@.len() < groups_for(flat@.len(), w as nat),
            start >= flat@.len() ==> out@.len() == groups_for(flat@.len(), w as nat),
            forall|i: int| 0 <= i < out@.len() ==> (#[trigger] out@[i])@ == chunk(flat@, w as nat, i),
        decreases flat@.len() - start,
    {
        let end: usize = if flat.len() - start >= w { start + w } else { flat.len() };
        let mut row: Vec<T> = Vec::new();
        let mut j: usize = start;
        while j < end
            invariant
                start <= j <= end <= flat@.len(),
                row@ == flat@.subrange(start as int, j as int),
            decreases end - j,
        {
            row.push(flat[j]);
            j = j + 1;
            assert(flat@.subrange(start as int, j as int) =~= flat@.subrange(start as int, j - 1 as int).push(flat@[j - 1]));
        }
        let ghost k = out@.len();
        assert(row@ == chunk(flat@, w as nat, k as int));
        out.push(row);
        start = end;
        proof {
            lemma_groups_step(flat@.len(), w as nat, k);
        }
    }
    out
}

proof fn lemma_groups_step(n: nat, w: nat, k: nat)
    requires
        w > 0,
        k * w < n,
    ensures
        (k + 1) * w == k * w + w,
        k < groups_for(n, w),
        (k + 1) * w < n ==> k + 1 < groups_for(n, w),
        (k + 1) * w >= n ==> k + 1 == groups_for(n, w),
{
    assert((k + 1) * w == k * w + w) by (nonlinear_arith);
    let g = groups_for(n, w);
    assert(g == (n + w - 1) / w as int);
    assert(k < g) by (nonlinear_arith)
        requires
            w > 0,
            k * w < n,
            g == (n + w - 1) / w as int,
    ;
    if (k + 1) * w < n {
        assert(k + 1 < g) by (nonlinear_arith)
            requires
                w > 0,
                (k + 1) * w < n,
                g == (n + w - 1) / w as int,
        ;
    } else {
        assert(k + 1 == g) by (nonlinear_arith)
            requires
                w > 0,
                k * w < n,
                (k + 1) * w >= n,
                g == (n + w - 1) / w as int,
        ;
    }
}

/// Whether every row of `m` has `w` elements.
pub open spec fn is_rect<T>(m: Seq<Vec<T>>, w: nat) -> bool {
    forall|i: int| 0 <= i < m.len() ==> (#[trigger] m[i])@.len() == w
}

/// The `k`-th term of the dot product that gives element `(i, j)` of `A × B`.
pub open spec fn mm_term(a: Seq<Vec<i64>>, b: Seq<Vec<i64>>, i: int, j: int, k: int) -> int {
    a[i]@[k] * b[k]@[j]
}

/// The sum of the first `k` terms of element `(i, j)` of `A × B`.
pub open spec fn mm_prefix(a: Seq<Vec<i64>>, b: Seq<Vec<i64>>, i: int, j: int, k: nat) -> int
    decreases k,
{
    if k == 0 {
        0
    } else {
        mm_prefix(a, b, i, j, (k - 1) as nat) + mm_term(a, b, i, j, k - 1)
    }
}

/// Whether an `i64` holds `x`.
pub open spec fn fits_i64(x: int) -> bool {
    i64::MIN <= x <= i64::MAX
}

/// Whether every term and every partial sum of every element of `A × B`
/// fits an `i64`.
pub open spec fn mm_fits(a: Seq<Vec<i64>>, b: Seq<Vec<i64>>) -> bool {
    &&& forall|i: int, j: int, k: int|
        0 <= i < rows(a) && 0 <= j < width(b) && 0 <= k < width(a) ==> fits_i64(
            #[trigger] mm_term(a, b, i, j, k),
        )
    &&& forall|i: int, j: int, k: nat|
        0 <= i < rows(a) && 0 <= j < width(b) && k <= width(a) ==> fits_i64(
            #[trigger] mm_prefix(a, b, i, j, k),
        )
}

/// Shapes that both kernels take: rectangular operands whose sizes fit the
/// device's 32-bit headers.
pub open spec fn kernel_shape<T>(m: Seq<Vec<T>>) -> bool {
    &&& is_rect(m, width(m))
    &&& rows(m) <= u32::MAX
    &&& width(m) <= u32::MAX
}

/// Element `(row, col)` of `A × B`, accumulated as the kernel does: over
/// `ceil(wa / 16)` tile phases of 16 terms each, terms past the shared
/// dimension being zero.
fn tiled_entry(a: &Vec<Vec<i64>>, b: &Vec<Vec<i64>>, row: usize, col: usize) -> (r: i64)
    requires
        kernel_shape(a@),
        kernel_shape(b@),
        width(a@) == rows(b@),
        mm_fits(a@, b@),
        row < rows(a@),
        col < width(b@),
    ensures
        r == mm_prefix(a@, b@, row as int, col as int, width(a@)),
{
    let wa: u64 = if a.len() == 0 { 0 } else { a[0].len() as u64 };
    let tiles: u64 = (wa + 15) / 16;
    let mut sum: i64 = 0;
    let mut t: u64 = 0;
    while t < tiles
        invariant
            kernel_shape(a@),
            kernel_shape(b@),
            width(a@) == rows(b@),
            mm_fits(a@, b@),
            row < rows(a@),
            col < width(b@),
            wa == width(a@),
            tiles == (wa + 15) / 16,
            t <= tiles,
            sum == mm_prefix(a@, b@, row as int, col as int, if t * 16 <= wa { (t * 16) as nat } else { wa as nat }),
        decreases tiles - t,
    {
        let mut l: u64 = 0;
        while l < 16
            invariant
                kernel_shape(a@),
                kernel_shape(b@),
                width(a@) == rows(b@),
                mm_fits(a@, b@),
                row < rows(a@),
                col < width(b@),
                wa == width(a@),
                tiles == (wa + 15) / 16,
                t < tiles,
                l <= 16,
                sum == mm_prefix(a@, b@, row as int, col as int, if t * 16 + l <= wa { (t * 16 + l) as nat } else { wa as nat }),
            decreases 16 - l,
        {
            let k: u64 = t * 16 + l;
            if k < wa {
                let av = a[row][k as usize];
                let bv = b[k as usize][col];
                assert(a@[row as int]@.len() == wa);
                assert(b@[k as int]@.len() == width(b@));
                assert(fits_i64(mm_term(a@, b@, row as int, col as int, k as int)));
                assert(fits_i64(mm_prefix(a@, b@, row as int, col as int, (k + 1) as nat)));
                sum = sum + av * bv;
            }
            l = l + 1;
        }
        t = t + 1;
    }
    sum
}

/// Reference form of the tiled matrix-multiply kernel, over integer
/// elements: `A × B`, each element accumulated in the kernel's order (tile
/// phases of 16 terms, zero past the shared dimension). The device runs the
/// kernel in WGSL on `f32`; this function is not what runs there, it states
/// and proves what the kernel computes. The width of `A` must equal the
/// height of `B`; the result has the height of `A` and the width of `B`.
pub fn matrix_multiply_tiled(a: &Vec<Vec<i64>>, b: &Vec<Vec<i64>>) -> (r: Result<Vec<Vec<i64>>, GpuError>)
    requires
        kernel_shape(a@),
        kernel_shape(b@),
        width(a@) == rows(b@) ==> mm_fits(a@, b@),
    ensures
        width(a@) != rows(b@) ==> r == Err::<Vec<Vec<i64>>, GpuError>(GpuError::DimensionMismatch),
        width(a@) == rows(b@) ==> (r matches Ok(c) && c@.len() == rows(a@) && (forall|i: int|
            0 <= i < rows(a@) ==> (#[trigger] c@[i])@.len() == width(b@)) && (forall|i: int, j: int|
            0 <= i < rows(a@) && 0 <= j < width(b@) ==> #[trigger] c@[i]@[j] == mm_prefix(
            a@,
            b@,
            i,
            j,
            width(a@),
        ))),
{
    let wa: usize = if a.len() == 0 { 0 } else { a[0].len() };
    let wb: usize = if b.len() == 0 { 0 } else { b[0].len() };
    if wa != b.len() {
        return Err(GpuError::DimensionMismatch);
    }
    let mut out: Vec<Vec<i64>> = Vec::new();
    let mut row: usize = 0;
    while row < a.len()
        invariant
            kernel_shape(a@),
            kernel_shape(b@),
            width(a@) == rows(b@),
            mm_fits(a@, b@),
            wb == width(b@),
            row <= rows(a@),
            out@.len() == row,
            forall|i: int| 0 <= i < row ==> (#[trigger] out@[i])@.len() == wb,
            forall|i: int, j: int|
                0 <= i < row && 0 <= j < wb ==> #[trigger] out@[i]@[j] == mm_prefix(a@, b@, i, j, width(a@)),
        decreases rows(a@) - row,
    {
        let mut line: Vec<i64> = Vec::new();
        let mut col: usize = 0;
        while col < wb
            invariant
                kernel_shape(a@),
                kernel_shape(b@),
                width(a@) == rows(b@),
                mm_fits(a@, b@),
                wb == width(b@),
                row < rows(a@),
                col <= wb,
                line@.len() == col,
                forall|j: int| 0 <= j < col ==> line@[j] == mm_prefix(a@, b@, row as int, j, width(a@)),
            decreases wb - col,
        {
            line.push(tiled_entry(a, b, row, col));
            col = col + 1;
        }
        out.push(line);
        row = row + 1;
    }
    Ok(out)
}

/// The `k`-th term of lane `j` of `v × B`.
pub open spec fn vm_term(v: Seq<i64>, b: Seq<Vec<i64>>, j: int, k: int) -> int {
    v[k] * b[k]@[j]
}

/// The sum of the first `k` terms of lane `j` of `v × B`.
pub open spec fn vm_prefix(v: Seq<i64>, b: Seq<Vec<i64>>, j: int, k: nat) -> int
    decreases k,
{
    if k == 0 {
        0
    } else {
        vm_prefix(v, b, j, (k - 1) as nat) + vm_term(v, b, j, k - 1)
    }
}

/// Whether every term and every partial sum of every lane of `v × B` fits
/// an `i64`.
pub open spec fn vm_fits(v: Seq<i64>, b: Seq<Vec<i64>>) -> bool {
    &&& forall|j: int, k: int| 0 <= j < width(b) && 0 <= k < rows(b) ==> fits_i64(#[trigger] vm_term(v, b, j, k))
    &&& forall|j: int, k: nat| 0 <= j < width(b) && k <= rows(b) ==> fits_i64(#[trigger] vm_prefix(v, b, j, k))
}

/// Reference form of the vector-matrix kernel, over integer elements:
/// `v × B`, each lane `j` accumulating `v[row] * B[row][j]` over the rows in
/// order. The device runs the kernel in WGSL on `f32`; this function is not
/// what runs there, it states and proves what the kernel computes. The
/// vector's length must equal the height of `B`.
pub fn vec_matrix_multiply_lanes(v: &Vec<i64>, b: &Vec<Vec<i64>>) -> (r: Result<Vec<i64>, GpuError>)
    requires
        kernel_shape(b@),
        v@.len() == rows(b@) ==> vm_fits(v@, b@),
    ensures
        v@.len() != rows(b@) ==> r == Err::<Vec<i64>, GpuError>(GpuError::DimensionMismatch),
        v@.len() == rows(b@) ==> (r matches Ok(c) && c@.len() == width(b@) && (forall|j: int|
            0 <= j < width(b@) ==> c@[j] == vm_prefix(v@, b@, j, rows(b@)))),
{
    if v.len() != b.len() {
        return Err(GpuError::DimensionMismatch);
    }
    let wb: usize = if b.len() == 0 { 0 } else { b[0].len() };
    let mut out: Vec<i64> = Vec::new();
    let mut lane: usize = 0;
    while lane < wb
        invariant
            kernel_shape(b@),
            v@.len() == rows(b@),
            vm_fits(v@, b@),
            wb == width(b@),
            lane <= wb,
            out@.len() == lane,
            forall|j: int| 0 <= j < lane ==> out@[j] == vm_prefix(v@, b@, j, rows(b@)),
        decreases wb - lane,
    {
        let mut sum: i64 = 0;
        let mut row: usize = 0;
        while row < b.len()
            invariant
                kernel_shape(b@),
                v@.len() == rows(b@),
                vm_fits(v@, b@),
                wb == width(b@),
                lane < wb,
                row <= rows(b@),
                sum == vm_prefix(v@, b@, lane as int, row as nat),
            decreases rows(b@) - row,
        {
            assert(b@[row as int]@.len() == wb);
            assert(fits_i64(vm_term(v@, b@, lane as int, row as int)));
            assert(fits_i64(vm_prefix(v@, b@, lane as int, (row + 1) as nat)));
            sum = sum + v[row] * b[row][lane];
            row = row + 1;
        }
        out.push(sum);
        lane = lane + 1;
    }
    Ok(out)
}

} // verus!
