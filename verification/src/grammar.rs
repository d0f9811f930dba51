use vstd::prelude::*;
use crate::clock::Timestamp;
use crate::cpu::Counters;
use crate::cpu::CpuId;
use crate::error::StatError;
use crate::monitor::StatSnapshot;
use crate::parser::decimal_value;
use crate::parser::digits_end;
use crate::parser::field_end;
use crate::parser::field_present;
use crate::parser::field_start;
use crate::parser::gap_start;
use crate::parser::has_cpu_prefix;
use crate::parser::has_line_shape;
use crate::parser::index_digits;
use crate::parser::is_digit;
use crate::parser::is_space;
use crate::parser::line_counters;
use crate::parser::numeral;
use crate::parser::parse_line;
use crate::parser::spaces_end;
use crate::parser::DIGIT_ZERO;
use crate::parser::LETTER_C;
use crate::parser::LETTER_P;
use crate::parser::LETTER_U;

verus! {

/// Every byte is a digit.
pub open spec fn all_digits(s: Seq<u8>) -> bool {
    forall|i: int| 0 <= i < s.len() ==> is_digit(#[trigger] s[i])
}

/// Every byte is whitespace.
pub open spec fn all_spaces(s: Seq<u8>) -> bool {
    forall|i: int| 0 <= i < s.len() ==> is_space(#[trigger] s[i])
}

/// The text of the counters from counter `k` on, each behind its gap, and of
/// what follows the last one.
pub open spec fn counters_text(
    gaps: Seq<Seq<u8>>,
    numerals: Seq<Seq<u8>>,
    rest: Seq<u8>,
    k: int,
) -> Seq<u8>
    decreases 7 - k,
{
    if 0 <= k < 7 {
        gaps[k] + numerals[k] + counters_text(gaps, numerals, rest, k + 1)
    } else {
        rest
    }
}

/// The line written from its parts: `cpu`, the digits of the core index,
/// then gap and numeral seven times, then the rest.
pub open spec fn counter_line(
    index: Seq<u8>,
    gaps: Seq<Seq<u8>>,
    numerals: Seq<Seq<u8>>,
    rest: Seq<u8>,
) -> Seq<u8> {
    seq![LETTER_C, LETTER_P, LETTER_U] + index + counters_text(gaps, numerals, rest, 0)
}

/// Gaps of a counter line: seven runs of whitespace, none of them empty.
pub open spec fn are_gaps(gaps: Seq<Seq<u8>>) -> bool {
    &&& gaps.len() == 7
    &&& forall|k: int| 0 <= k < 7 ==> (#[trigger] gaps[k]).len() > 0 && all_spaces(gaps[k])
}

/// Numerals of a counter line: seven runs of digits, none of them empty.
pub open spec fn are_numerals(numerals: Seq<Seq<u8>>) -> bool {
    &&& numerals.len() == 7
    &&& forall|k: int|
        0 <= k < 7 ==> (#[trigger] numerals[k]).len() > 0 && all_digits(numerals[k])
}

/// The text behind the seventh counter does not go on with a digit: it
/// would belong to the counter.
pub open spec fn is_rest(rest: Seq<u8>) -> bool {
    rest.len() == 0 || !is_digit(rest[0])
}

/// The parts are those of a counter line: the index is made of digits or is
/// empty, there are seven gaps and seven numerals, and a rest.
pub open spec fn are_line_parts(
    index: Seq<u8>,
    gaps: Seq<Seq<u8>>,
    numerals: Seq<Seq<u8>>,
    rest: Seq<u8>,
) -> bool {
    &&& all_digits(index)
    &&& are_gaps(gaps)
    &&& are_numerals(numerals)
    &&& is_rest(rest)
}

/// A run of digits that something else ends is the longest one.
pub proof fn lemma_digits_run(s: Seq<u8>, from: int, to: int)
    requires
        0 <= from <= to <= s.len(),
        forall|i: int| from <= i < to ==> is_digit(#[trigger] s[i]),
        to == s.len() || !is_digit(s[to]),
    ensures
        digits_end(s, from) == to,
    decreases to - from,
{
    if from < to {
        lemma_digits_run(s, from + 1, to);
    }
}

/// A run of whitespace that something else ends is the longest one.
pub proof fn lemma_spaces_run(s: Seq<u8>, from: int, to: int)
    requires
        0 <= from <= to <= s.len(),
        forall|i: int| from <= i < to ==> is_space(#[trigger] s[i]),
        to == s.len() || !is_space(s[to]),
    ensures
        spaces_end(s, from) == to,
    decreases to - from,
{
    if from < to {
        lemma_spaces_run(s, from + 1, to);
    }
}

/// What follows counter `k - 1` in a line written from its parts does not go
/// on with a digit.
proof fn lemma_counters_text_start(
    gaps: Seq<Seq<u8>>,
    numerals: Seq<Seq<u8>>,
    rest: Seq<u8>,
    k: int,
)
    requires
        are_gaps(gaps),
        are_numerals(numerals),
        is_rest(rest),
        0 <= k <= 7,
    ensures
        ({
            let text = counters_text(gaps, numerals, rest, k);
            text.len() == 0 || !is_digit(text[0])
        }),
{
    if k < 7 {
        let text = counters_text(gaps, numerals, rest, k);
        assert(text[0] == gaps[k][0]);
        assert(is_space(gaps[k][0]));
    }
}

/// In a line that continues behind `prefix` with the counters from `k` on,
/// where the gap of counter `k` begins right behind `prefix`, a counter `j`
/// from `k` on is found, with the numeral it was written with.
proof fn lemma_scan_counters(
    s: Seq<u8>,
    prefix: Seq<u8>,
    gaps: Seq<Seq<u8>>,
    numerals: Seq<Seq<u8>>,
    rest: Seq<u8>,
    k: int,
    j: int,
)
    requires
        are_gaps(gaps),
        are_numerals(numerals),
        is_rest(rest),
        0 <= k <= j < 7,
        s == prefix + counters_text(gaps, numerals, rest, k),
        gap_start(s, k) == prefix.len(),
    ensures
        field_present(s, j),
        numeral(s, j) == numerals[j],
    decreases 7 - k,
{
    {
        let g = gaps[k];
        let n = numerals[k];
        let t = counters_text(gaps, numerals, rest, k + 1);
        let p = prefix.len() as int;
        let a = p + g.len();
        let b = a + n.len();
        assert(counters_text(gaps, numerals, rest, k) == g + n + t);
        assert(s.len() == b + t.len());
        assert forall|i: int| p <= i < a implies is_space(#[trigger] s[i]) by {
            assert(s[i] == g[i - p]);
        }
        assert forall|i: int| a <= i < b implies is_digit(#[trigger] s[i]) by {
            assert(s[i] == n[i - a]);
        }
        assert(is_digit(s[a]));
        lemma_spaces_run(s, p, a);
        lemma_counters_text_start(gaps, numerals, rest, k + 1);
        if t.len() > 0 {
            assert(s[b] == t[0]);
        }
        lemma_digits_run(s, a, b);
        assert(field_start(s, k) == a);
        assert(field_end(s, k) == b);
        assert(numeral(s, k) =~= n);
        assert(gap_start(s, k + 1) == b);
        if k < j {
            assert(s =~= (prefix + g + n) + t);
            lemma_scan_counters(s, prefix + g + n, gaps, numerals, rest, k + 1, j);
        }
    }
}

/// A line written from the parts of a counter line has the shape of one, and
/// reading it finds the parts it was written from.
pub proof fn lemma_counter_line_scans(
    index: Seq<u8>,
    gaps: Seq<Seq<u8>>,
    numerals: Seq<Seq<u8>>,
    rest: Seq<u8>,
)
    requires
        are_line_parts(index, gaps, numerals, rest),
    ensures
        has_line_shape(counter_line(index, gaps, numerals, rest)),
        index_digits(counter_line(index, gaps, numerals, rest)) == index,
        forall|k: int|
            0 <= k < 7 ==> #[trigger] numeral(counter_line(index, gaps, numerals, rest), k)
                == numerals[k],
{
    let s = counter_line(index, gaps, numerals, rest);
    let prefix = seq![LETTER_C, LETTER_P, LETTER_U] + index;
    let text = counters_text(gaps, numerals, rest, 0);
    let end = 3 + index.len() as int;
    assert(has_cpu_prefix(s));
    assert forall|i: int| 3 <= i < end implies is_digit(#[trigger] s[i]) by {
        assert(s[i] == index[i - 3]);
    }
    assert(text[0] == gaps[0][0]);
    assert(is_space(gaps[0][0]));
    assert(s[end] == text[0]);
    lemma_digits_run(s, 3, end);
    assert(index_digits(s) =~= index);
    lemma_scan_counters(s, prefix, gaps, numerals, rest, 0, 0);
    lemma_scan_counters(s, prefix, gaps, numerals, rest, 0, 1);
    lemma_scan_counters(s, prefix, gaps, numerals, rest, 0, 2);
    lemma_scan_counters(s, prefix, gaps, numerals, rest, 0, 3);
    lemma_scan_counters(s, prefix, gaps, numerals, rest, 0, 4);
    lemma_scan_counters(s, prefix, gaps, numerals, rest, 0, 5);
    lemma_scan_counters(s, prefix, gaps, numerals, rest, 0, 6);
}

/// The counters that seven numerals denote, in their order.
pub open spec fn counters_of(numerals: Seq<Seq<u8>>) -> Counters {
    Counters {
        user: decimal_value(numerals[0]) as u32,
        nice: decimal_value(numerals[1]) as u32,
        system: decimal_value(numerals[2]) as u32,
        idle: decimal_value(numerals[3]) as u32,
        iowait: decimal_value(numerals[4]) as u32,
        irq: decimal_value(numerals[5]) as u32,
        softirq: decimal_value(numerals[6]) as u32,
    }
}

/// Each of the seven numerals denotes a number that fits 32 bits.
pub open spec fn numerals_fit(numerals: Seq<Seq<u8>>) -> bool {
    forall|k: int| 0 <= k < 7 ==> decimal_value(#[trigger] numerals[k]) <= u32::MAX
}

/// Every counter line without a core index is read as a reading of all
/// cores together, with exactly the counters that its numerals denote, in
/// the order of the line.
pub proof fn lemma_aggregate_line_is_read(
    gaps: Seq<Seq<u8>>,
    numerals: Seq<Seq<u8>>,
    rest: Seq<u8>,
    time: Timestamp,
)
    requires
        are_line_parts(Seq::empty(), gaps, numerals, rest),
        numerals_fit(numerals),
    ensures
        parse_line(counter_line(Seq::empty(), gaps, numerals, rest), time) == Ok::<
            StatSnapshot,
            StatError,
        >(StatSnapshot { time, cpu_id: CpuId::Aggregate, counters: counters_of(numerals) }),
{
    let s = counter_line(Seq::empty(), gaps, numerals, rest);
    lemma_counter_line_scans(Seq::empty(), gaps, numerals, rest);
    assert(decimal_value(index_digits(s)) == 0);
    lemma_numerals_are_read(s, numerals);
}

/// Every counter line with the core index `K` is read as a reading of core
/// `K`, with exactly the counters that its numerals denote, in the order of
/// the line.
pub proof fn lemma_core_line_is_read(
    index: Seq<u8>,
    gaps: Seq<Seq<u8>>,
    numerals: Seq<Seq<u8>>,
    rest: Seq<u8>,
    time: Timestamp,
)
    requires
        are_line_parts(index, gaps, numerals, rest),
        index.len() > 0,
        decimal_value(index) <= u32::MAX,
        numerals_fit(numerals),
    ensures
        parse_line(counter_line(index, gaps, numerals, rest), time) == Ok::<
            StatSnapshot,
            StatError,
        >(
            StatSnapshot {
                time,
                cpu_id: CpuId::Core(decimal_value(index) as u32),
                counters: counters_of(numerals),
            },
        ),
{
    let s = counter_line(index, gaps, numerals, rest);
    lemma_counter_line_scans(index, gaps, numerals, rest);
    lemma_numerals_are_read(s, numerals);
}

/// Where reading a line finds the seven numerals `numerals`, and they fit,
/// the counters of the line are what they denote.
proof fn lemma_numerals_are_read(s: Seq<u8>, numerals: Seq<Seq<u8>>)
    requires
        numerals.len() == 7,
        numerals_fit(numerals),
        forall|k: int| 0 <= k < 7 ==> #[trigger] numeral(s, k) == numerals[k],
    ensures
        line_counters(s) == counters_of(numerals),
        decimal_value(numeral(s, 0)) <= u32::MAX,
        decimal_value(numeral(s, 1)) <= u32::MAX,
        decimal_value(numeral(s, 2)) <= u32::MAX,
        decimal_value(numeral(s, 3)) <= u32::MAX,
        decimal_value(numeral(s, 4)) <= u32::MAX,
        decimal_value(numeral(s, 5)) <= u32::MAX,
        decimal_value(numeral(s, 6)) <= u32::MAX,
{
    assert(numeral(s, 0) == numerals[0]);
    assert(numeral(s, 1) == numerals[1]);
    assert(numeral(s, 2) == numerals[2]);
    assert(numeral(s, 3) == numerals[3]);
    assert(numeral(s, 4) == numerals[4]);
    assert(numeral(s, 5) == numerals[5]);
    assert(numeral(s, 6) == numerals[6]);
}

/// The decimal numeral of a number, without leading zeros.
pub open spec fn decimal_digits(n: nat) -> Seq<u8>
    decreases n,
{
    if n < 10 {
        seq![(DIGIT_ZERO + n) as u8]
    } else {
        decimal_digits(n / 10).push((DIGIT_ZERO + n % 10) as u8)
    }
}

/// The decimal numeral of a number is made of digits, at least one, and
/// denotes that number.
pub proof fn lemma_decimal_digits(n: nat)
    ensures
        decimal_digits(n).len() > 0,
        all_digits(decimal_digits(n)),
        decimal_value(decimal_digits(n)) == n,
    decreases n,
{
    if n < 10 {
        let d = decimal_digits(n);
        assert(d.drop_last() =~= Seq::<u8>::empty());
        assert(decimal_value(d.drop_last()) == 0);
    } else {
        lemma_decimal_digits(n / 10);
        let d = decimal_digits(n);
        assert(d.drop_last() =~= decimal_digits(n / 10));
    }
}

/// The digits of the core index with which a processor is written: none
/// for all cores together.
pub open spec fn index_of(cpu_id: CpuId) -> Seq<u8> {
    match cpu_id {
        CpuId::Aggregate => Seq::empty(),
        CpuId::Core(k) => decimal_digits(k as nat),
    }
}

/// The seven numerals with which counters are written.
pub open spec fn numerals_of(counters: Counters) -> Seq<Seq<u8>> {
    seq![
        decimal_digits(counters.user as nat),
        decimal_digits(counters.nice as nat),
        decimal_digits(counters.system as nat),
        decimal_digits(counters.idle as nat),
        decimal_digits(counters.iowait as nat),
        decimal_digits(counters.irq as nat),
        decimal_digits(counters.softirq as nat),
    ]
}

/// The numerals with which counters are written are numerals of a counter
/// line, and denote these counters.
proof fn lemma_numerals_of(counters: Counters)
    ensures
        are_numerals(numerals_of(counters)),
        numerals_fit(numerals_of(counters)),
        counters_of(numerals_of(counters)) == counters,
{
    let numerals = numerals_of(counters);
    lemma_decimal_digits(counters.user as nat);
    lemma_decimal_digits(counters.nice as nat);
    lemma_decimal_digits(counters.system as nat);
    lemma_decimal_digits(counters.idle as nat);
    lemma_decimal_digits(counters.iowait as nat);
    lemma_decimal_digits(counters.irq as nat);
    lemma_decimal_digits(counters.softirq as nat);
    assert(numerals[0] == decimal_digits(counters.user as nat));
    assert(numerals[1] == decimal_digits(counters.nice as nat));
    assert(numerals[2] == decimal_digits(counters.system as nat));
    assert(numerals[3] == decimal_digits(counters.idle as nat));
    assert(numerals[4] == decimal_digits(counters.iowait as nat));
    assert(numerals[5] == decimal_digits(counters.irq as nat));
    assert(numerals[6] == decimal_digits(counters.softirq as nat));
    assert forall|k: int| 0 <= k < 7 implies (#[trigger] numerals[k]).len() > 0 && all_digits(
        numerals[k],
    ) && decimal_value(numerals[k]) <= u32::MAX by {
        if k == 0 {
        } else if k == 1 {
        } else if k == 2 {
        } else if k == 3 {
        } else if k == 4 {
        } else if k == 5 {
        } else {
        }
    }
}

/// A line that writes a processor and seven counters in decimal, with any
/// whitespace between them and any rest that does not go on with a digit, is
/// read as exactly that processor and those counters.
pub proof fn lemma_written_line_is_read(
    cpu_id: CpuId,
    counters: Counters,
    gaps: Seq<Seq<u8>>,
    rest: Seq<u8>,
    time: Timestamp,
)
    requires
        are_gaps(gaps),
        is_rest(rest),
    ensures
        parse_line(counter_line(index_of(cpu_id), gaps, numerals_of(counters), rest), time) == Ok::<
            StatSnapshot,
            StatError,
        >(StatSnapshot { time, cpu_id, counters }),
{
    let numerals = numerals_of(counters);
    lemma_numerals_of(counters);
    match cpu_id {
        CpuId::Aggregate => {
            lemma_aggregate_line_is_read(gaps, numerals, rest, time);
        },
        CpuId::Core(k) => {
            lemma_decimal_digits(k as nat);
            lemma_core_line_is_read(decimal_digits(k as nat), gaps, numerals, rest, time);
        },
    }
}

/// The longest run of digits from `from` lies within the line, holds digits
/// only, and is ended by the end of the line or by a byte that is no digit.
pub proof fn lemma_digits_end(s: Seq<u8>, from: int)
    requires
        0 <= from <= s.len(),
    ensures
        from <= digits_end(s, from) <= s.len(),
        forall|i: int| from <= i < digits_end(s, from) ==> is_digit(#[trigger] s[i]),
        digits_end(s, from) == s.len() || !is_digit(s[digits_end(s, from)]),
    decreases s.len() - from,
{
    if from < s.len() && is_digit(s[from]) {
        lemma_digits_end(s, from + 1);
    }
}

/// The longest run of whitespace from `from` lies within the line, holds
/// whitespace only, and is ended by the end of the line or by a byte that is
/// no whitespace.
pub proof fn lemma_spaces_end(s: Seq<u8>, from: int)
    requires
        0 <= from <= s.len(),
    ensures
        from <= spaces_end(s, from) <= s.len(),
        forall|i: int| from <= i < spaces_end(s, from) ==> is_space(#[trigger] s[i]),
        spaces_end(s, from) == s.len() || !is_space(s[spaces_end(s, from)]),
    decreases s.len() - from,
{
    if from < s.len() && is_space(s[from]) {
        lemma_spaces_end(s, from + 1);
    }
}

/// The gaps that reading a line finds before its seven counters.
pub open spec fn gaps_in(s: Seq<u8>) -> Seq<Seq<u8>> {
    Seq::new(7, |k: int| s.subrange(gap_start(s, k), field_start(s, k)))
}

/// The numerals that reading a line finds for its seven counters.
pub open spec fn numerals_in(s: Seq<u8>) -> Seq<Seq<u8>> {
    Seq::new(7, |k: int| numeral(s, k))
}

/// What follows the seventh counter of a line.
pub open spec fn rest_in(s: Seq<u8>) -> Seq<u8> {
    s.subrange(field_end(s, 6), s.len() as int)
}

/// In a line of at least three bytes, the gap and the numeral of each
/// counter lie within the line, one behind the other.
proof fn lemma_fields_in_order(s: Seq<u8>, k: int)
    requires
        3 <= s.len(),
        0 <= k,
    ensures
        3 <= gap_start(s, k) <= field_start(s, k) <= field_end(s, k) <= s.len(),
        field_end(s, k) == gap_start(s, k + 1),
        all_spaces(s.subrange(gap_start(s, k), field_start(s, k))),
        all_digits(numeral(s, k)),
        field_end(s, k) == s.len() || !is_digit(s[field_end(s, k)]),
    decreases k,
{
    if k == 0 {
        lemma_digits_end(s, 3);
    } else {
        lemma_fields_in_order(s, k - 1);
    }
    lemma_spaces_end(s, gap_start(s, k));
    lemma_digits_end(s, field_start(s, k));
}

/// From the gap of counter `k` on, a line is the text of the counters that
/// reading it finds from `k` on.
proof fn lemma_line_is_counters_text(s: Seq<u8>, k: int)
    requires
        3 <= s.len(),
        0 <= k <= 7,
    ensures
        s.subrange(gap_start(s, k), s.len() as int) == counters_text(
            gaps_in(s),
            numerals_in(s),
            rest_in(s),
            k,
        ),
    decreases 7 - k,
{
    if k < 7 {
        lemma_fields_in_order(s, k);
        lemma_line_is_counters_text(s, k + 1);
        assert(s.subrange(gap_start(s, k), s.len() as int) =~= s.subrange(
            gap_start(s, k),
            field_start(s, k),
        ) + numeral(s, k) + s.subrange(gap_start(s, k + 1), s.len() as int));
    } else {
        lemma_fields_in_order(s, 6);
    }
}

/// The gaps that reading a counter line finds are gaps of one.
proof fn lemma_gaps_in(s: Seq<u8>)
    requires
        has_line_shape(s),
    ensures
        are_gaps(gaps_in(s)),
{
    assert forall|k: int| 0 <= k < 7 implies (#[trigger] gaps_in(s)[k]).len() > 0 && all_spaces(
        gaps_in(s)[k],
    ) by {
        lemma_fields_in_order(s, k);
        lemma_field_is_present(s, k);
    }
}

/// The numerals that reading a counter line finds are numerals of one.
proof fn lemma_numerals_in(s: Seq<u8>)
    requires
        has_line_shape(s),
    ensures
        are_numerals(numerals_in(s)),
{
    assert forall|k: int| 0 <= k < 7 implies (#[trigger] numerals_in(s)[k]).len() > 0
        && all_digits(numerals_in(s)[k]) by {
        lemma_fields_in_order(s, k);
        lemma_field_is_present(s, k);
    }
}

/// What follows the seventh counter of a counter line does not go on with
/// a digit.
proof fn lemma_rest_in(s: Seq<u8>)
    requires
        has_line_shape(s),
    ensures
        is_rest(rest_in(s)),
{
    lemma_fields_in_order(s, 6);
    if rest_in(s).len() > 0 {
        assert(rest_in(s)[0] == s[field_end(s, 6)]);
    }
}

/// A line that has the shape of a counter line is written from the parts
/// that reading it finds: nothing but counter lines has that shape.
pub proof fn lemma_line_shape_has_parts(s: Seq<u8>)
    requires
        has_line_shape(s),
    ensures
        are_line_parts(index_digits(s), gaps_in(s), numerals_in(s), rest_in(s)),
        counter_line(index_digits(s), gaps_in(s), numerals_in(s), rest_in(s)) == s,
{
    lemma_digits_end(s, 3);
    assert(all_digits(index_digits(s)));
    lemma_gaps_in(s);
    lemma_numerals_in(s);
    lemma_rest_in(s);
    lemma_line_is_counters_text(s, 0);
    let tail = s.subrange(gap_start(s, 0), s.len() as int);
    assert(tail == counters_text(gaps_in(s), numerals_in(s), rest_in(s), 0));
    assert(s =~= seq![LETTER_C, LETTER_P, LETTER_U] + index_digits(s) + tail);
}

/// In a line that has the shape of a counter line, each of the seven
/// counters is there.
proof fn lemma_field_is_present(s: Seq<u8>, k: int)
    requires
        has_line_shape(s),
        0 <= k < 7,
    ensures
        field_present(s, k),
{
    if k == 0 {
    } else if k == 1 {
    } else if k == 2 {
    } else if k == 3 {
    } else if k == 4 {
    } else if k == 5 {
    } else {
    }
}

} // verus!
