//! The array tool: its command line, and the largest sum along the diagonals
//! parallel to the main one of a matrix read from text.
use vstd::prelude::*;
use crate::number::{i32_of, parse_i32};

verus! {

/// What the array tool can fail on.
#[derive(Debug, Clone, Copy, PartialEq, Eq, Structural)]
pub enum LabError {
    NotEnough,
    TooMany,
    FirstIsNan,
    FirstOutOfRange,
    CannotInterpret,
    /// The largest diagonal sum does not fit in an `i32`; the sums are
    /// computed exactly rather than left to overflow.
    SumOutOfRange,
}

impl LabError {
    /// The line that reports this error.
    pub fn message(&self) -> (r: &'static str)
        ensures
            r@ == match self {
                LabError::NotEnough => "Not enough arguments"@,
                LabError::TooMany => "Too many arguments"@,
                LabError::FirstIsNan => "First parameter is not a number"@,
                LabError::FirstOutOfRange => "First parameter is out of range"@,
                LabError::CannotInterpret => "Cannot interpret file contents as array"@,
                LabError::SumOutOfRange => "Diagonal sum does not fit in 32 bits"@,
            },
    {
        match self {
            LabError::NotEnough => "Not enough arguments",
            LabError::TooMany => "Too many arguments",
            LabError::FirstIsNan => "First parameter is not a number",
            LabError::FirstOutOfRange => "First parameter is out of range",
            LabError::CannotInterpret => "Cannot interpret file contents as array",
            LabError::SumOutOfRange => "Diagonal sum does not fit in 32 bits",
        }
    }
}

/// The array tool's settings: 1 for the fixed-size buffer, 2 for the growing
/// one, and the input and output file names.
#[derive(Debug)]
pub struct Config {
    pub mode: i32,
    pub input: String,
    pub output: String,
}

/// What `build` makes of the command line `args` (program name first).
pub open spec fn build_result(args: Seq<Seq<char>>) -> Result<(i32, Seq<char>, Seq<char>), LabError> {
    if args.len() < 2 {
        Err(LabError::NotEnough)
    } else if i32_of(args[1]) is None {
        Err(LabError::FirstIsNan)
    } else if !(i32_of(args[1])->0 == 1 || i32_of(args[1])->0 == 2) {
        Err(LabError::FirstOutOfRange)
    } else if args.len() < 4 {
        Err(LabError::NotEnough)
    } else if args.len() > 4 {
        Err(LabError::TooMany)
    } else {
        Ok((i32_of(args[1])->0, args[2], args[3]))
    }
}

impl Config {
    /// Reads the mode, the input and the output from the command line `args`,
    /// whose first entry is the program name.
    pub fn build(args: Vec<String>) -> (r: Result<Config, LabError>)
        ensures
            match (r, build_result(args@.map_values(|a: String| a@))) {
                (Ok(c), Ok((mode, input, output))) => c.mode == mode && c.input@ == input
                    && c.output@ == output,
                (Err(e), Err(f)) => e == f,
                _ => false,
            },
    {
        let ghost v = args@.map_values(|a: String| a@);
        if args.len() < 2 {
            return Err(LabError::NotEnough);
        }
        assert(v[1] == args@[1]@);
        let mode = match parse_i32(args[1].as_str()) {
            Some(m) => m,
            None => {
                return Err(LabError::FirstIsNan);
            },
        };
        if !(mode == 1 || mode == 2) {
            return Err(LabError::FirstOutOfRange);
        }
        if args.len() < 4 {
            return Err(LabError::NotEnough);
        }
        if args.len() > 4 {
            return Err(LabError::TooMany);
        }
        assert(v[2] == args@[2]@);
        assert(v[3] == args@[3]@);
        Ok(Config { mode, input: args[2].clone(), output: args[3].clone() })
    }
}

/// The first index `i` on diagonal `d`, whose elements are those at
/// `i * rows + i + d` in the matrix as the tool lays it out.
pub open spec fn diag_lo(d: int) -> int {
    if d < 0 {
        -d
    } else {
        0
    }
}

/// The last index `i` on diagonal `d`.
pub open spec fn diag_hi(rows: int, cols: int, d: int) -> int {
    if cols - 1 < rows - 1 - d {
        cols - 1
    } else {
        rows - 1 - d
    }
}

/// The sum of the elements `i * rows + i + d` of `a` for `lo <= i < hi`.
pub open spec fn diag_sum(a: Seq<i32>, rows: int, d: int, lo: int, hi: int) -> int
    decreases hi - lo,
{
    if hi <= lo {
        0
    } else {
        diag_sum(a, rows, d, lo, hi - 1) + a[(hi - 1) * rows + (hi - 1) + d] as int
    }
}

/// The largest sum over the non-empty diagonals `d` with `1 - cols <= d < e`,
/// and `i32::MIN` where there is none.
pub open spec fn best_upto(a: Seq<i32>, rows: int, cols: int, e: int) -> int
    decreases e + cols,
{
    if e <= 1 - cols {
        i32::MIN as int
    } else {
        let prev = best_upto(a, rows, cols, e - 1);
        let d = e - 1;
        if diag_lo(d) > diag_hi(rows, cols, d) {
            prev
        } else {
            let s = diag_sum(a, rows, d, diag_lo(d), diag_hi(rows, cols, d) + 1);
            if s > prev {
                s
            } else {
                prev
            }
        }
    }
}

/// The largest diagonal sum of the `rows` by `cols` matrix `a`.
pub open spec fn max_diagonal_sum(a: Seq<i32>, rows: int, cols: int) -> int {
    best_upto(a, rows, cols, rows)
}

/// Every token writes an `i32`.
pub open spec fn all_i32(toks: Seq<Seq<char>>) -> bool {
    forall|k: int| 0 <= k < toks.len() ==> i32_of(#[trigger] toks[k]) is Some
}

/// The `i32` values that the tokens write.
pub open spec fn values_of(toks: Seq<Seq<char>>) -> Seq<i32> {
    toks.map_values(|t: Seq<char>| i32_of(t)->0)
}

/// The answer of the array tool for the tokens `toks` of a `rows` by `cols`
/// matrix.
pub open spec fn diagonal_result(toks: Seq<Seq<char>>, rows: int, cols: int) -> Result<i32, LabError> {
    if !all_i32(toks) || toks.len() != rows * cols {
        Err(LabError::CannotInterpret)
    } else if max_diagonal_sum(values_of(toks), rows, cols) > i32::MAX {
        Err(LabError::SumOutOfRange)
    } else {
        Ok(max_diagonal_sum(values_of(toks), rows, cols) as i32)
    }
}

const SUM_BOUND: i128 = 0x1_0000_0000_0000_0000_0000_0000;

/// The largest diagonal sum of the matrix held in the first `rows * cols`
/// elements of `a`.
fn max_diagonal(a: &[i32], rows: usize, cols: usize) -> (r: i128)
    requires
        rows * cols <= a@.len(),
    ensures
        r == max_diagonal_sum(a@.take(rows * cols), rows as int, cols as int),
        i32::MIN <= r <= SUM_BOUND,
{
    let ghost m = a@.take(rows * cols);
    let len = a.len();
    let r: i128 = rows as i128;
    let c: i128 = cols as i128;
    let mut best: i128 = i32::MIN as i128;
    let mut d: i128 = 1 - c;
    while d < r
        invariant
            m == a@.take(rows * cols),
            len == a@.len(),
            r == rows,
            c == cols,
            rows * cols <= len,
            1 - c <= d,
            d <= r || d == 1 - c,
            best == best_upto(m, r as int, c as int, d as int),
            i32::MIN <= best <= SUM_BOUND,
        decreases r - d,
    {
        let lo: i128 = if d < 0 {
            -d
        } else {
            0
        };
        let hi: i128 = if c - 1 < r - 1 - d {
            c - 1
        } else {
            r - 1 - d
        };
        if lo <= hi {
            let mut cur: i128 = 0;
            let mut i: i128 = lo;
            while i <= hi
                invariant
                    m == a@.take(rows * cols),
                    len == a@.len(),
                    r == rows,
                    c == cols,
                    rows * cols <= len,
                    lo == diag_lo(d as int),
                    hi == diag_hi(r as int, c as int, d as int),
                    lo <= i <= hi + 1,
                    cur == diag_sum(m, r as int, d as int, lo as int, i as int),
                    -(i - lo) * 2147483648 <= cur <= (i - lo) * 2147483648,
                decreases hi + 1 - i,
            {
                proof {
                    assert(i * r <= (c - 1) * r) by (nonlinear_arith)
                        requires
                            i <= c - 1,
                            r >= 0,
                    ;
                    assert((c - 1) * r + r == rows * cols) by (nonlinear_arith)
                        requires
                            c == cols,
                            r == rows,
                    ;
                    assert(0 <= i * r) by (nonlinear_arith)
                        requires
                            i >= 0,
                            r >= 0,
                    ;
                }
                let idx: i128 = i * r + i + d;
                let x = a[idx as usize];
                assert(m[idx as int] == x);
                cur = cur + x as i128;
                i = i + 1;
            }
            if cur > best {
                best = cur;
            }
        }
        d = d + 1;
    }
    best
}

/// The answer for a matrix whose values are `m`, when they are as many as
/// `rows * cols`.
fn answer(m: &[i32], rows: usize, cols: usize, count: usize) -> (r: Result<i32, LabError>)
    requires
        count <= m@.len(),
    ensures
        count != rows * cols ==> r == Err::<i32, LabError>(LabError::CannotInterpret),
        count == rows * cols ==> r == (if max_diagonal_sum(m@.take(count as int), rows as int, cols as int)
            > i32::MAX {
            Err::<i32, LabError>(LabError::SumOutOfRange)
        } else {
            Ok(max_diagonal_sum(m@.take(count as int), rows as int, cols as int) as i32)
        }),
{
    match rows.checked_mul(cols) {
        Some(cells) => if cells != count {
            return Err(LabError::CannotInterpret);
        },
        None => {
            return Err(LabError::CannotInterpret);
        },
    }
    let best = max_diagonal(m, rows, cols);
    if best > i32::MAX as i128 {
        Err(LabError::SumOutOfRange)
    } else {
        Ok(best as i32)
    }
}

/// The largest sum along the diagonals of the `rows` by `cols` matrix whose
/// elements `input` writes, read into a buffer of fixed size.
pub fn stack_array(rows: usize, cols: usize, input: Vec<&str>) -> (r: Result<i32, LabError>)
    requires
        input@.len() <= 10000,
    ensures
        r == diagonal_result(input@.map_values(|t: &str| t@), rows as int, cols as int),
{
    let ghost toks = input@.map_values(|t: &str| t@);
    let mut buf = [0i32; 10000];
    let mut size: usize = 0;
    while size < input.len()
        invariant
            toks == input@.map_values(|t: &str| t@),
            size <= input@.len() <= 10000,
            buf@.len() == 10000,
            forall|k: int| 0 <= k < size ==> i32_of(#[trigger] toks[k]) is Some,
            forall|k: int| 0 <= k < size ==> buf@[k] == i32_of(#[trigger] toks[k])->0,
        decreases input@.len() - size,
    {
        assert(toks[size as int] == input@[size as int]@);
        match parse_i32(input[size]) {
            Some(number) => {
                buf[size] = number;
            },
            None => {
                return Err(LabError::CannotInterpret);
            },
        }
        size = size + 1;
    }
    assert(buf@.take(size as int) =~= values_of(toks));
    answer(buf.as_slice(), rows, cols, size)
}

/// The largest sum along the diagonals of the `rows` by `cols` matrix whose
/// elements `input` writes, read into a growing vector.
pub fn dynamic_array(rows: usize, cols: usize, input: Vec<&str>) -> (r: Result<i32, LabError>)
    ensures
        r == diagonal_result(input@.map_values(|t: &str| t@), rows as int, cols as int),
{
    let ghost toks = input@.map_values(|t: &str| t@);
    let mut values: Vec<i32> = Vec::new();
    let mut k: usize = 0;
    while k < input.len()
        invariant
            toks == input@.map_values(|t: &str| t@),
            k <= input@.len(),
            values@.len() == k,
            forall|j: int| 0 <= j < k ==> i32_of(#[trigger] toks[j]) is Some,
            forall|j: int| 0 <= j < k ==> values@[j] == i32_of(#[trigger] toks[j])->0,
        decreases input@.len() - k,
    {
        assert(toks[k as int] == input@[k as int]@);
        match parse_i32(input[k]) {
            Some(number) => {
                values.push(number);
            },
            None => {
                return Err(LabError::CannotInterpret);
            },
        }
        k = k + 1;
    }
    assert(values@.take(k as int) =~= values_of(toks));
    answer(values.as_slice(), rows, cols, k)
}

} // verus!
