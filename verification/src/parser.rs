use vstd::prelude::*;
use crate::clock::Timestamp;
use crate::cpu::Counters;
use crate::cpu::CpuId;
use crate::error::StatError;
use crate::monitor::StatSnapshot;

verus! {

/// The byte `0`, the first of the ten digits.
pub const DIGIT_ZERO: u8 = 48;

/// The byte `9`, the last of the ten digits.
pub const DIGIT_NINE: u8 = 57;

/// The space.
pub const SPACE: u8 = 32;

/// The tab, the first of five whitespace bytes in a row.
pub const TAB: u8 = 9;

/// The carriage return, the last of five whitespace bytes in a row.
pub const CARRIAGE_RETURN: u8 = 13;

/// The byte `c`.
pub const LETTER_C: u8 = 99;

/// The byte `p`.
pub const LETTER_P: u8 = 112;

/// The byte `u`.
pub const LETTER_U: u8 = 117;

/// An ASCII decimal digit.
pub open spec fn is_digit(b: u8) -> bool {
    DIGIT_ZERO <= b <= DIGIT_NINE
}

/// An ASCII whitespace byte: space, tab, line feed, vertical tab, form feed
/// or carriage return.
pub open spec fn is_space(b: u8) -> bool {
    b == SPACE || TAB <= b <= CARRIAGE_RETURN
}

/// What a digit counts for.
pub open spec fn digit_value(b: u8) -> nat {
    if is_digit(b) {
        (b - DIGIT_ZERO) as nat
    } else {
        0
    }
}

/// The number that a decimal numeral denotes; leading zeros count for
/// nothing, and the empty numeral denotes zero.
pub open spec fn decimal_value(numeral: Seq<u8>) -> nat
    decreases numeral.len(),
{
    if numeral.len() == 0 {
        0
    } else {
        decimal_value(numeral.drop_last()) * 10 + digit_value(numeral.last())
    }
}

/// The end of the longest run of digits that begins at `from`.
pub open spec fn digits_end(s: Seq<u8>, from: int) -> int
    decreases s.len() - from,
{
    if 0 <= from < s.len() && is_digit(s[from]) {
        digits_end(s, from + 1)
    } else {
        from
    }
}

/// The end of the longest run of whitespace that begins at `from`.
pub open spec fn spaces_end(s: Seq<u8>, from: int) -> int
    decreases s.len() - from,
{
    if 0 <= from < s.len() && is_space(s[from]) {
        spaces_end(s, from + 1)
    } else {
        from
    }
}

/// Where the whitespace before counter `k` begins: behind the label for the
/// first counter, behind the counter before it for the others.
pub open spec fn gap_start(s: Seq<u8>, k: int) -> int
    decreases k,
{
    if k <= 0 {
        digits_end(s, 3)
    } else {
        digits_end(s, spaces_end(s, gap_start(s, k - 1)))
    }
}

/// Where the numeral of counter `k` begins.
pub open spec fn field_start(s: Seq<u8>, k: int) -> int {
    spaces_end(s, gap_start(s, k))
}

/// Where the numeral of counter `k` ends.
pub open spec fn field_end(s: Seq<u8>, k: int) -> int {
    digits_end(s, field_start(s, k))
}

/// Counter `k` is there: some whitespace, then at least one digit.
pub open spec fn field_present(s: Seq<u8>, k: int) -> bool {
    gap_start(s, k) < field_start(s, k) < field_end(s, k)
}

/// The numeral of counter `k`.
pub open spec fn numeral(s: Seq<u8>, k: int) -> Seq<u8> {
    s.subrange(field_start(s, k), field_end(s, k))
}

/// The digits that follow `cpu` directly: none on the line of all cores
/// together, the index of the core on the others.
pub open spec fn index_digits(s: Seq<u8>) -> Seq<u8> {
    s.subrange(3, digits_end(s, 3))
}

/// The line begins with `cpu`.
pub open spec fn has_cpu_prefix(s: Seq<u8>) -> bool {
    s.len() >= 3 && s[0] == LETTER_C && s[1] == LETTER_P && s[2] == LETTER_U
}

/// The line has the shape of a counter line: `cpu`, directly followed by
/// the digits of a core index or by none, then seven counters, each a run of
/// whitespace followed by a run of digits. What follows the seventh counter
/// does not matter.
pub open spec fn has_line_shape(s: Seq<u8>) -> bool {
    &&& has_cpu_prefix(s)
    &&& field_present(s, 0)
    &&& field_present(s, 1)
    &&& field_present(s, 2)
    &&& field_present(s, 3)
    &&& field_present(s, 4)
    &&& field_present(s, 5)
    &&& field_present(s, 6)
}

/// The core index and the seven counters all fit their 32 bits.
pub open spec fn values_fit(s: Seq<u8>) -> bool {
    &&& decimal_value(index_digits(s)) <= u32::MAX
    &&& decimal_value(numeral(s, 0)) <= u32::MAX
    &&& decimal_value(numeral(s, 1)) <= u32::MAX
    &&& decimal_value(numeral(s, 2)) <= u32::MAX
    &&& decimal_value(numeral(s, 3)) <= u32::MAX
    &&& decimal_value(numeral(s, 4)) <= u32::MAX
    &&& decimal_value(numeral(s, 5)) <= u32::MAX
    &&& decimal_value(numeral(s, 6)) <= u32::MAX
}

/// The line can be read as a snapshot.
pub open spec fn is_counter_line(s: Seq<u8>) -> bool {
    has_line_shape(s) && values_fit(s)
}

/// The processor that a counter line is about.
pub open spec fn line_cpu_id(s: Seq<u8>) -> CpuId {
    if index_digits(s).len() == 0 {
        CpuId::Aggregate
    } else {
        CpuId::Core(decimal_value(index_digits(s)) as u32)
    }
}

/// The counters of a counter line, in the order of the line.
pub open spec fn line_counters(s: Seq<u8>) -> Counters {
    Counters {
        user: decimal_value(numeral(s, 0)) as u32,
        nice: decimal_value(numeral(s, 1)) as u32,
        system: decimal_value(numeral(s, 2)) as u32,
        idle: decimal_value(numeral(s, 3)) as u32,
        iowait: decimal_value(numeral(s, 4)) as u32,
        irq: decimal_value(numeral(s, 5)) as u32,
        softirq: decimal_value(numeral(s, 6)) as u32,
    }
}

/// What reading a line at the time `time` gives.
pub open spec fn parse_line(s: Seq<u8>, time: Timestamp) -> Result<StatSnapshot, StatError> {
    if is_counter_line(s) {
        Ok(StatSnapshot { time, cpu_id: line_cpu_id(s), counters: line_counters(s) })
    } else {
        Err(StatError::FormatError)
    }
}

/// A numeral denotes at least what any of its beginnings denotes.
pub proof fn lemma_value_of_prefix(numeral: Seq<u8>, n: int)
    requires
        0 <= n <= numeral.len(),
    ensures
        decimal_value(numeral.subrange(0, n)) <= decimal_value(numeral),
    decreases numeral.len() - n,
{
    if n == numeral.len() {
        assert(numeral.subrange(0, n) =~= numeral);
    } else {
        lemma_value_of_prefix(numeral.drop_last(), n);
        assert(numeral.drop_last().subrange(0, n) =~= numeral.subrange(0, n));
    }
}

fn is_digit_byte(b: u8) -> (r: bool)
    ensures
        r == is_digit(b),
{
    b >= DIGIT_ZERO && b <= DIGIT_NINE
}

fn is_space_byte(b: u8) -> (r: bool)
    ensures
        r == is_space(b),
{
    b == SPACE || (b >= TAB && b <= CARRIAGE_RETURN)
}

fn skip_digits(line: &[u8], from: usize) -> (end: usize)
    requires
        from <= line.len(),
    ensures
        from <= end <= line.len(),
        end == digits_end(line@, from as int),
        forall|i: int| from <= i < end ==> is_digit(#[trigger] line@[i]),
{
    let mut i: usize = from;
    while i < line.len() && is_digit_byte(line[i])
        invariant
            from <= i <= line.len(),
            digits_end(line@, from as int) == digits_end(line@, i as int),
            forall|j: int| from <= j < i ==> is_digit(#[trigger] line@[j]),
        decreases line.len() - i,
    {
        i += 1;
    }
    i
}

fn skip_spaces(line: &[u8], from: usize) -> (end: usize)
    requires
        from <= line.len(),
    ensures
        from <= end <= line.len(),
        end == spaces_end(line@, from as int),
{
    let mut i: usize = from;
    while i < line.len() && is_space_byte(line[i])
        invariant
            from <= i <= line.len(),
            spaces_end(line@, from as int) == spaces_end(line@, i as int),
        decreases line.len() - i,
    {
        i += 1;
    }
    i
}

/// Reads the numeral `line[start..end]`, unless it denotes more than fits.
fn read_numeral(line: &[u8], start: usize, end: usize) -> (r: Option<u32>)
    requires
        start <= end <= line.len(),
        forall|i: int| start <= i < end ==> is_digit(#[trigger] line@[i]),
    ensures
        match r {
            Some(v) => v == decimal_value(line@.subrange(start as int, end as int)),
            None => decimal_value(line@.subrange(start as int, end as int)) > u32::MAX,
        },
{
    let ghost whole = line@.subrange(start as int, end as int);
    let mut value: u32 = 0;
    let mut i: usize = start;
    while i < end
        invariant
            start <= i <= end <= line.len(),
            whole == line@.subrange(start as int, end as int),
            value == decimal_value(line@.subrange(start as int, i as int)),
            forall|j: int| start <= j < end ==> is_digit(#[trigger] line@[j]),
        decreases end - i,
    {
        let digit: u32 = (line[i] - DIGIT_ZERO) as u32;
        proof {
            let longer = line@.subrange(start as int, i + 1);
            assert(longer.drop_last() =~= line@.subrange(start as int, i as int));
            assert(longer.last() == line@[i as int]);
            assert(decimal_value(longer) == value * 10 + digit);
            assert(whole.subrange(0, i + 1 - start) =~= longer);
            lemma_value_of_prefix(whole, i + 1 - start);
        }
        if value > (u32::MAX - digit) / 10 {
            return None;
        }
        value = value * 10 + digit;
        i += 1;
    }
    Some(value)
}

/// Reads counter `k`, whose gap begins at `at`: the counter and where its
/// numeral ends, unless the counter is not there or is too large.
fn read_counter(line: &[u8], at: usize, Ghost(k): Ghost<int>) -> (r: Option<(u32, usize)>)
    requires
        0 <= k,
        at <= line.len(),
        at == gap_start(line@, k),
    ensures
        match r {
            Some((value, end)) => {
                &&& field_present(line@, k)
                &&& value == decimal_value(numeral(line@, k))
                &&& end == gap_start(line@, k + 1)
                &&& end <= line.len()
            },
            None => !field_present(line@, k) || decimal_value(numeral(line@, k)) > u32::MAX,
        },
{
    let start = skip_spaces(line, at);
    let end = skip_digits(line, start);
    if start == at || end == start {
        return None;
    }
    match read_numeral(line, start, end) {
        Some(value) => Some((value, end)),
        None => None,
    }
}

/// Reads the label, which ends at `end`: the processor, unless the index
/// of the core is too large.
fn read_cpu_id(line: &[u8], end: usize) -> (r: Option<CpuId>)
    requires
        3 <= end <= line.len(),
        end == digits_end(line@, 3),
        forall|i: int| 3 <= i < end ==> is_digit(#[trigger] line@[i]),
    ensures
        match r {
            Some(id) => id == line_cpu_id(line@) && decimal_value(index_digits(line@)) <= u32::MAX,
            None => decimal_value(index_digits(line@)) > u32::MAX,
        },
{
    if end == 3 {
        assert(decimal_value(index_digits(line@)) == 0);
        Some(CpuId::Aggregate)
    } else {
        match read_numeral(line, 3, end) {
            Some(index) => Some(CpuId::Core(index)),
            None => None,
        }
    }
}

/// Reads one line of cumulative counters as the snapshot taken at `time`.
///
/// The line is `cpu`, directly followed by the index of a core or by nothing
/// for all cores together, then seven counters, each after some whitespace.
/// Whatever follows the seventh counter is ignored. Any other line, and a
/// line with a number that does not fit 32 bits, is refused.
pub fn parse_cpu_line(line: &[u8], time: Timestamp) -> (r: Result<StatSnapshot, StatError>)
    ensures
        r == parse_line(line@, time),
{
    if line.len() < 3 || line[0] != LETTER_C || line[1] != LETTER_P || line[2] != LETTER_U {
        return Err(StatError::FormatError);
    }
    let label_end = skip_digits(line, 3);
    let cpu_id = match read_cpu_id(line, label_end) {
        Some(id) => id,
        None => { return Err(StatError::FormatError); },
    };
    let (user, at) = match read_counter(line, label_end, Ghost(0)) {
        Some(found) => found,
        None => { return Err(StatError::FormatError); },
    };
    let (nice, at) = match read_counter(line, at, Ghost(1)) {
        Some(found) => found,
        None => { return Err(StatError::FormatError); },
    };
    let (system, at) = match read_counter(line, at, Ghost(2)) {
        Some(found) => found,
        None => { return Err(StatError::FormatError); },
    };
    let (idle, at) = match read_counter(line, at, Ghost(3)) {
        Some(found) => found,
        None => { return Err(StatError::FormatError); },
    };
    let (iowait, at) = match read_counter(line, at, Ghost(4)) {
        Some(found) => found,
        None => { return Err(StatError::FormatError); },
    };
    let (irq, at) = match read_counter(line, at, Ghost(5)) {
        Some(found) => found,
        None => { return Err(StatError::FormatError); },
    };
    let (softirq, _) = match read_counter(line, at, Ghost(6)) {
        Some(found) => found,
        None => { return Err(StatError::FormatError); },
    };
    Ok(
        StatSnapshot {
            time,
            cpu_id,
            counters: Counters { user, nice, system, idle, iowait, irq, softirq },
        },
    )
}

} // verus!
