//! What a run is asked to do: the output layout, the spatial reference, the
//! text dumps; and reading the EPSG code from its argument.
use vstd::prelude::*;
use vstd::string::StrSliceExecFns;

verus! {

/// How the output is laid out.
#[derive(Debug, Clone, PartialEq, Eq)]
pub enum OutputMode {
    /// One shapefile for the whole directory, one feature per LAS file, with
    /// the fields `name` (the file's name) and `path` (its full path).
    Aggregate,
    /// One shapefile per LAS file, named after it, with one feature whose
    /// field `Name` holds `label`.
    PerFile { label: String },
}

/// The settings of one run.
#[derive(Debug, Clone, PartialEq, Eq)]
pub struct RunConfig {
    pub mode: OutputMode,
    /// The EPSG code of the coordinate system given to the output, if any.
    pub epsg: Option<u32>,
    /// Whether a text file with each LAS file's bounds is written beside it.
    pub dump_text: bool,
}

/// The value that the per-file layout puts in the `Name` field unless told otherwise.
pub fn placeholder_label() -> (r: String)
    ensures
        r@ == "BBOX"@,
{
    String::from_str("BBOX")
}

/// Whether `c` is an ASCII decimal digit.
pub open spec fn is_digit(c: char) -> bool {
    '0' <= c && c <= '9'
}

/// The value of the decimal digit `c`.
pub open spec fn digit_value(c: char) -> int {
    c as int - '0' as int
}

/// The number that the decimal digits `s` write.
pub open spec fn digits_value(s: Seq<char>) -> int
    decreases s.len(),
{
    if s.len() == 0 {
        0
    } else {
        digits_value(s.drop_last()) * 10 + digit_value(s.last())
    }
}

/// The digits of an unsigned number's text: without one leading `'+'`.
pub open spec fn unsigned_digits(s: Seq<char>) -> Seq<char> {
    if s.len() > 0 && s[0] == '+' {
        s.drop_first()
    } else {
        s
    }
}

/// The `u32` that the text `s` writes in decimal, if it writes one: an
/// optional `'+'`, then at least one digit and nothing else, of a value that
/// fits in 32 bits.
pub open spec fn u32_of(s: Seq<char>) -> Option<u32> {
    let d = unsigned_digits(s);
    if d.len() > 0 && (forall|i: int| 0 <= i < d.len() ==> is_digit(#[trigger] d[i]))
        && digits_value(d) <= u32::MAX {
        Some(digits_value(d) as u32)
    } else {
        None
    }
}

proof fn lemma_digits_value_grows(s: Seq<char>, k: int)
    requires
        0 <= k <= s.len(),
        forall|i: int| 0 <= i < s.len() ==> is_digit(#[trigger] s[i]),
    ensures
        0 <= digits_value(s.subrange(0, k)) <= digits_value(s),
    decreases s.len(),
{
    if s.len() > 0 {
        let init = s.drop_last();
        if k == s.len() {
            assert(s.subrange(0, k) =~= s);
            lemma_digits_value_grows(init, init.len() as int);
            assert(init.subrange(0, init.len() as int) =~= init);
        } else {
            lemma_digits_value_grows(init, k);
            assert(init.subrange(0, k) =~= s.subrange(0, k));
            lemma_digits_value_grows(init, init.len() as int);
            assert(init.subrange(0, init.len() as int) =~= init);
        }
    }
}

/// Reads an EPSG code: the `u32` that `s` writes in decimal, or `None` where
/// `s` writes none.
pub fn parse_epsg(s: &str) -> (r: Option<u32>)
    ensures
        r == u32_of(s@),
{
    let n = s.unicode_len();
    let start: usize = if n > 0 && s.get_char(0) == '+' {
        1
    } else {
        0
    };
    let ghost d = unsigned_digits(s@);
    assert(d =~= s@.subrange(start as int, n as int));
    if start == n {
        return None;
    }
    let mut acc: u64 = 0;
    let mut i: usize = start;
    while i < n
        invariant
            start <= i <= n == s@.len(),
            d == unsigned_digits(s@),
            d == s@.subrange(start as int, n as int),
            forall|j: int| 0 <= j < i - start ==> is_digit(#[trigger] d[j]),
            acc == digits_value(d.subrange(0, i - start)),
            acc <= u32::MAX,
        decreases n - i,
    {
        let c = s.get_char(i);
        assert(d[i - start] == c);
        if !('0' <= c && c <= '9') {
            assert(!is_digit(d[i - start]));
            return None;
        }
        let ghost pre = d.subrange(0, i - start);
        assert(d.subrange(0, i + 1 - start).drop_last() =~= pre);
        assert(digits_value(d.subrange(0, i + 1 - start)) == digits_value(pre) * 10 + digit_value(
            c,
        ));
        acc = acc * 10 + (c as u64 - '0' as u64);
        if acc > u32::MAX as u64 {
            proof {
                if forall|j: int| 0 <= j < d.len() ==> is_digit(#[trigger] d[j]) {
                    lemma_digits_value_grows(d, i + 1 - start);
                }
            }
            return None;
        }
        i = i + 1;
    }
    assert(d.subrange(0, n - start) =~= d);
    Some(acc as u32)
}

} // verus!
