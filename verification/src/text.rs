//! Small verified text helpers: decimal rendering of counters, string
//! equality over views, and path joining for destination layout.

use vstd::prelude::*;

verus! {

/// The character for one decimal digit.
pub open spec fn spec_digit(d: int) -> char {
    if d == 0 {
        '0'
    } else if d == 1 {
        '1'
    } else if d == 2 {
        '2'
    } else if d == 3 {
        '3'
    } else if d == 4 {
        '4'
    } else if d == 5 {
        '5'
    } else if d == 6 {
        '6'
    } else if d == 7 {
        '7'
    } else if d == 8 {
        '8'
    } else {
        '9'
    }
}

/// The usual decimal rendering of a non-negative integer, no leading zeros.
pub open spec fn spec_dec(n: nat) -> Seq<char>
    decreases n,
{
    if n < 10 {
        seq![spec_digit(n as int)]
    } else {
        spec_dec(n / 10) + seq![spec_digit((n % 10) as int)]
    }
}

/// Appends the character of one decimal digit to `s`.
fn push_digit(s: &mut String, d: u64)
    requires
        d < 10,
    ensures
        final(s)@ == old(s)@ + seq![spec_digit(d as int)],
{
    proof {
        reveal_strlit("0");
        reveal_strlit("1");
        reveal_strlit("2");
        reveal_strlit("3");
        reveal_strlit("4");
        reveal_strlit("5");
        reveal_strlit("6");
        reveal_strlit("7");
        reveal_strlit("8");
        reveal_strlit("9");
    }
    match d {
        0 => s.append("0"),
        1 => s.append("1"),
        2 => s.append("2"),
        3 => s.append("3"),
        4 => s.append("4"),
        5 => s.append("5"),
        6 => s.append("6"),
        7 => s.append("7"),
        8 => s.append("8"),
        _ => s.append("9"),
    }
    proof {
        assert(final(s)@ =~= old(s)@ + seq![spec_digit(d as int)]);
    }
}

/// Appends the decimal rendering of `n` to `s`.
pub fn append_u64(s: &mut String, n: u64)
    ensures
        final(s)@ == old(s)@ + spec_dec(n as nat),
    decreases n,
{
    if n < 10 {
        push_digit(s, n);
    } else {
        append_u64(s, n / 10);
        push_digit(s, n % 10);
        proof {
            assert(old(s)@ + spec_dec((n / 10) as nat) + seq![spec_digit((n % 10) as int)]
                =~= old(s)@ + spec_dec(n as nat));
        }
    }
}

/// The decimal rendering of `n` as a fresh string.
pub fn u64_to_string(n: u64) -> (s: String)
    ensures
        s@ == spec_dec(n as nat),
{
    let mut s = String::new();
    append_u64(&mut s, n);
    proof {
        assert(s@ =~= spec_dec(n as nat));
    }
    s
}

/// Character-wise equality of two string slices.
pub fn str_eq(a: &str, b: &str) -> (r: bool)
    ensures
        r == (a@ == b@),
{
    let alen = a.unicode_len();
    let blen = b.unicode_len();
    if alen != blen {
        proof {
            assert(a@.len() != b@.len());
        }
        return false;
    }
    let mut i: usize = 0;
    while i < alen
        invariant
            i <= alen,
            alen == a@.len(),
            alen == b@.len(),
            forall|j: int| 0 <= j < i ==> a@[j] == b@[j],
        decreases alen - i,
    {
        if a.get_char(i) != b.get_char(i) {
            return false;
        }
        i += 1;
    }
    proof {
        assert(a@ =~= b@);
    }
    true
}

/// `base` and `name` joined with a single separating slash.
pub open spec fn spec_join(base: Seq<char>, name: Seq<char>) -> Seq<char> {
    base + "/"@ + name
}

/// Joins a directory and an entry name with a slash, as the daemon lays out
/// `<backup_root>/<label>/<timestamp>` and `<destination>/<relative path>`.
pub fn join_path(base: &str, name: &str) -> (r: String)
    ensures
        r@ == spec_join(base@, name@),
{
    let mut s = base.to_owned();
    s.append("/");
    s.append(name);
    s
}

/// Blank characters: space, tab, and the line-break and page-break bytes.
pub open spec fn spec_is_space(b: u8) -> bool {
    b == 32 || b == 9 || b == 10 || b == 13 || b == 11 || b == 12
}

/// ASCII decimal digit.
pub open spec fn spec_is_digit(b: u8) -> bool {
    48 <= b <= 57
}

/// Digit or the comma used to group thousands.
pub open spec fn spec_is_numcomma(b: u8) -> bool {
    spec_is_digit(b) || b == 44
}

/// End of the blank run starting at `i`.
pub open spec fn spec_space_end(line: Seq<u8>, i: int) -> int
    decreases line.len() - i,
{
    if 0 <= i < line.len() && spec_is_space(line[i]) {
        spec_space_end(line, i + 1)
    } else {
        i
    }
}

/// End of the digit-or-comma run starting at `i`.
pub open spec fn spec_numcomma_end(line: Seq<u8>, i: int) -> int
    decreases line.len() - i,
{
    if 0 <= i < line.len() && spec_is_numcomma(line[i]) {
        spec_numcomma_end(line, i + 1)
    } else {
        i
    }
}

/// End of the digit run starting at `i`.
pub open spec fn spec_digit_end(line: Seq<u8>, i: int) -> int
    decreases line.len() - i,
{
    if 0 <= i < line.len() && spec_is_digit(line[i]) {
        spec_digit_end(line, i + 1)
    } else {
        i
    }
}

/// The number a digit run denotes, with grouping commas skipped.
pub open spec fn spec_num_value(s: Seq<u8>) -> int
    decreases s.len(),
{
    if s.len() == 0 {
        0
    } else {
        let rest = spec_num_value(s.drop_last());
        if spec_is_digit(s.last()) {
            rest * 10 + (s.last() - 48)
        } else {
            rest
        }
    }
}

/// The value of a run never shrinks as the run grows.
proof fn lemma_num_value_nonneg(s: Seq<u8>)
    ensures
        spec_num_value(s) >= 0,
    decreases s.len(),
{
    if s.len() > 0 {
        lemma_num_value_nonneg(s.drop_last());
    }
}

/// Executable mirror of `spec_is_space`.
pub fn is_space_byte(b: u8) -> (r: bool)
    ensures
        r == spec_is_space(b),
{
    b == 32 || b == 9 || b == 10 || b == 13 || b == 11 || b == 12
}

/// Executable mirror of `spec_is_numcomma`.
pub fn is_numcomma_byte(b: u8) -> (r: bool)
    ensures
        r == spec_is_numcomma(b),
{
    (48 <= b && b <= 57) || b == 44
}

/// Advances `cur` to the end of its blank run.
pub fn scan_spaces(line: &[u8], start: usize) -> (r: usize)
    requires
        start <= line@.len(),
    ensures
        start <= r <= line@.len(),
        r == spec_space_end(line@, start as int),
{
    let mut cur = start;
    while cur < line.len() && is_space_byte(line[cur])
        invariant
            start <= cur <= line@.len(),
            spec_space_end(line@, start as int) == spec_space_end(line@, cur as int),
        decreases line@.len() - cur,
    {
        cur += 1;
    }
    cur
}

/// Advances `cur` to the end of its digit-or-comma run.
pub fn scan_numcommas(line: &[u8], start: usize) -> (r: usize)
    requires
        start <= line@.len(),
    ensures
        start <= r <= line@.len(),
        r == spec_numcomma_end(line@, start as int),
{
    let mut cur = start;
    while cur < line.len() && is_numcomma_byte(line[cur])
        invariant
            start <= cur <= line@.len(),
            spec_numcomma_end(line@, start as int) == spec_numcomma_end(line@, cur as int),
        decreases line@.len() - cur,
    {
        cur += 1;
    }
    cur
}

/// Advances `cur` to the end of its digit run.
pub fn scan_digits(line: &[u8], start: usize) -> (r: usize)
    requires
        start <= line@.len(),
    ensures
        start <= r <= line@.len(),
        r == spec_digit_end(line@, start as int),
{
    let mut cur = start;
    while cur < line.len() && 48 <= line[cur] && line[cur] <= 57
        invariant
            start <= cur <= line@.len(),
            spec_digit_end(line@, start as int) == spec_digit_end(line@, cur as int),
        decreases line@.len() - cur,
    {
        cur += 1;
    }
    cur
}

/// End of the non-blank run starting at `i`.
pub open spec fn spec_field_end(line: Seq<u8>, i: int) -> int
    decreases line.len() - i,
{
    if 0 <= i < line.len() && !spec_is_space(line[i]) {
        spec_field_end(line, i + 1)
    } else {
        i
    }
}

/// Advances `cur` to the end of its non-blank run.
pub fn scan_field(line: &[u8], start: usize) -> (r: usize)
    requires
        start <= line@.len(),
    ensures
        start <= r <= line@.len(),
        r == spec_field_end(line@, start as int),
{
    let mut cur = start;
    while cur < line.len() && !is_space_byte(line[cur])
        invariant
            start <= cur <= line@.len(),
            spec_field_end(line@, start as int) == spec_field_end(line@, cur as int),
        decreases line@.len() - cur,
    {
        cur += 1;
    }
    cur
}

/// Byte-wise equality of two byte slices.
pub fn bytes_eq(a: &[u8], b: &[u8]) -> (r: bool)
    ensures
        r == (a@ == b@),
{
    if a.len() != b.len() {
        return false;
    }
    let mut i: usize = 0;
    while i < a.len()
        invariant
            i <= a@.len(),
            a@.len() == b@.len(),
            forall|j: int| 0 <= j < i ==> a@[j] == b@[j],
        decreases a@.len() - i,
    {
        if a[i] != b[i] {
            return false;
        }
        i += 1;
    }
    proof {
        assert(a@ =~= b@);
    }
    true
}

/// Reads the number of the digit run `line[from..to]`, or nothing when it
/// does not fit a `u64`.
pub fn parse_u64_digits(line: &[u8], from: usize, to: usize) -> (r: Option<u64>)
    requires
        from <= to <= line@.len(),
    ensures
        r is Some <==> spec_num_value(line@.subrange(from as int, to as int)) <= u64::MAX,
        r matches Some(v) ==> v == spec_num_value(line@.subrange(from as int, to as int)),
{
    let mut acc: u64 = 0;
    let mut over: bool = false;
    let mut cur = from;
    while cur < to
        invariant
            from <= cur <= to <= line@.len(),
            !over ==> acc == spec_num_value(line@.subrange(from as int, cur as int)),
            over ==> spec_num_value(line@.subrange(from as int, cur as int)) > u64::MAX,
        decreases to - cur,
    {
        let b = line[cur];
        proof {
            assert(line@.subrange(from as int, cur + 1).drop_last() =~= line@.subrange(
                from as int,
                cur as int,
            ));
            lemma_num_value_nonneg(line@.subrange(from as int, cur as int));
        }
        if 48 <= b && b <= 57 {
            if !over {
                let wide: u128 = (acc as u128) * 10 + ((b - 48) as u128);
                if wide > u64::MAX as u128 {
                    over = true;
                } else {
                    acc = wide as u64;
                }
            }
        }
        cur += 1;
    }
    if over {
        None
    } else {
        Some(acc)
    }
}

/// Reads the number of the run `line[from..to]`, commas skipped; a value
/// that does not fit `bound` reads as zero.
pub fn read_number(line: &[u8], from: usize, to: usize, bound: u64) -> (r: u64)
    requires
        from <= to <= line@.len(),
    ensures
        r == (if spec_num_value(line@.subrange(from as int, to as int)) <= bound {
            spec_num_value(line@.subrange(from as int, to as int))
        } else {
            0int
        }),
        r <= bound,
{
    let mut acc: u64 = 0;
    let mut over: bool = false;
    let mut cur = from;
    while cur < to
        invariant
            from <= cur <= to <= line@.len(),
            !over ==> acc == spec_num_value(line@.subrange(from as int, cur as int)) && acc
                <= bound,
            over ==> spec_num_value(line@.subrange(from as int, cur as int)) > bound,
        decreases to - cur,
    {
        let b = line[cur];
        proof {
            assert(line@.subrange(from as int, cur + 1).drop_last() =~= line@.subrange(
                from as int,
                cur as int,
            ));
            lemma_num_value_nonneg(line@.subrange(from as int, cur as int));
        }
        if 48 <= b && b <= 57 {
            if !over {
                let wide: u128 = (acc as u128) * 10 + ((b - 48) as u128);
                if wide > bound as u128 {
                    over = true;
                } else {
                    acc = wide as u64;
                }
            }
        }
        cur += 1;
    }
    if over {
        0
    } else {
        acc
    }
}


} // verus!
