//! The names of nodes and lanes.

use vstd::prelude::*;
use vstd::string::*;

use crate::ids::{id_text, Uuid};
use crate::text::{all_digits, begins_with, chars_of, decimal, decimal_digits, decimal_injective};
use crate::text::{decimal_int, digits_value, is_at, show_i64, show_usize, string_of};

verus! {

/// A text with every occurrence of `from`, taken from the left, replaced by
/// `to`.
pub open spec fn replaced_text(s: Seq<char>, from: Seq<char>, to: Seq<char>) -> Seq<char>
    decreases s.len(),
{
    if s.len() == 0 || from.len() == 0 {
        s
    } else if begins_with(s, from) {
        to + replaced_text(s.skip(from.len() as int), from, to)
    } else {
        seq![s[0]] + replaced_text(s.drop_first(), from, to)
    }
}

/// The string with every occurrence of `from` replaced by `to`.
pub fn replace_text(s: &str, from: &str, to: &str) -> (r: String)
    requires
        from@.len() > 0,
    ensures
        r@ == replaced_text(s@, from@, to@),
{
    let chars = chars_of(s);
    let pattern = chars_of(from);
    let mut out = String::new();
    let mut i: usize = 0;
    assert(chars@.skip(0) =~= chars@);
    assert(out@ + replaced_text(s@, from@, to@) =~= replaced_text(s@, from@, to@));
    while i < chars.len()
        invariant
            i <= chars@.len(),
            chars@ == s@,
            pattern@ == from@,
            from@.len() > 0,
            out@ + replaced_text(chars@.skip(i as int), from@, to@) == replaced_text(
                s@,
                from@,
                to@,
            ),
        decreases chars.len() - i,
    {
        let ghost rest = chars@.skip(i as int);
        let ghost whole = replaced_text(s@, from@, to@);
        let found = is_at(chars.as_slice(), pattern.as_slice(), i);
        assert(found == begins_with(rest, from@)) by {
            if i + from@.len() <= chars@.len() {
                assert(chars@.subrange(i as int, i + from@.len()) =~= rest.subrange(
                    0,
                    from@.len() as int,
                ));
            }
        }
        if found {
            assert(rest.skip(from@.len() as int) =~= chars@.skip(i + from@.len()));
            assert((out@ + to@) + replaced_text(chars@.skip(i + from@.len()), from@, to@) =~= out@ + (
            to@ + replaced_text(chars@.skip(i + from@.len()), from@, to@)));
            out.append(to);
            i += pattern.len();
        } else {
            assert(rest.drop_first() =~= chars@.skip(i + 1));
            assert(out@.push(chars@[i as int]) + replaced_text(chars@.skip(i + 1), from@, to@)
                =~= out@ + (seq![rest[0]] + replaced_text(chars@.skip(i + 1), from@, to@)));
            out.push(chars[i]);
            i += 1;
        }
    }
    assert(chars@.skip(i as int) =~= Seq::<char>::empty());
    assert(out@ + Seq::<char>::empty() =~= out@);
    out
}

/// The candidate whose consensus a gate computes.
pub open spec fn gate_candidate(gate: Seq<char>) -> Seq<char> {
    replaced_text(gate, "consensus_c"@, "candidate_"@)
}

/// The candidate whose consensus a gate computes.
pub fn candidate_of_gate(gate: &str) -> (r: String)
    ensures
        r@ == gate_candidate(gate@),
{
    proof {
        reveal_strlit("consensus_c");
    }
    replace_text(gate, "consensus_c", "candidate_")
}

/// The number of leading characters that are `c`.
pub open spec fn run_of(s: Seq<char>, c: char) -> nat
    decreases s.len(),
{
    if s.len() > 0 && s[0] == c {
        1 + run_of(s.drop_first(), c)
    } else {
        0
    }
}

/// The number of leading decimal digits.
pub open spec fn digit_run(s: Seq<char>) -> nat
    decreases s.len(),
{
    if s.len() > 0 && '0' <= s[0] <= '9' {
        1 + digit_run(s.drop_first())
    } else {
        0
    }
}

/// The leading decimal digits.
pub open spec fn leading_digits(s: Seq<char>) -> Seq<char> {
    s.take(digit_run(s) as int)
}

/// The number that the leading digits spell; zero where there are none or the
/// number is too large.
pub open spec fn leading_number(s: Seq<char>) -> int {
    let digits = leading_digits(s);
    if digits.len() > 0 && digits_value(digits) <= i64::MAX {
        digits_value(digits) as int
    } else {
        0
    }
}

/// The consensus round that an evaluator node belongs to, by its name:
/// `evaluator_1` belongs to round 0, `evaluator_r1_1` to round 1.
pub open spec fn round_of(node: Seq<char>) -> int {
    let prefix = "evaluator_"@;
    if begins_with(node, prefix) && node.skip(prefix.len() as int).len() > 0 && node.skip(
        prefix.len() as int,
    )[0] == 'r' {
        let rest = node.skip(prefix.len() as int);
        leading_number(rest.skip(run_of(rest, 'r') as int))
    } else {
        0
    }
}

proof fn run_of_bound(s: Seq<char>, c: char)
    ensures
        run_of(s, c) <= s.len(),
    decreases s.len(),
{
    if s.len() > 0 && s[0] == c {
        run_of_bound(s.drop_first(), c);
    }
}

proof fn digit_run_bound(s: Seq<char>)
    ensures
        digit_run(s) <= s.len(),
        all_digits(leading_digits(s)),
    decreases s.len(),
{
    if s.len() > 0 && '0' <= s[0] <= '9' {
        let rest = s.drop_first();
        digit_run_bound(rest);
        assert forall|i: int| 0 <= i < leading_digits(s).len() implies '0' <= #[trigger] leading_digits(
            s,
        )[i] <= '9' by {
            if i > 0 {
                assert(leading_digits(s)[i] == leading_digits(rest)[i - 1]);
            }
        }
    }
}

fn skip_run(chars: &Vec<char>, from: usize, c: char) -> (r: usize)
    requires
        from <= chars@.len(),
    ensures
        r == from + run_of(chars@.skip(from as int), c),
        r <= chars@.len(),
{
    let mut i: usize = from;
    let ghost total = run_of(chars@.skip(from as int), c);
    while i < chars.len() && chars[i] == c
        invariant
            from <= i <= chars@.len(),
            total == (i - from) + run_of(chars@.skip(i as int), c),
        decreases chars.len() - i,
    {
        assert(chars@.skip(i as int).drop_first() =~= chars@.skip(i + 1));
        i += 1;
    }
    i
}

fn skip_digits(chars: &Vec<char>, from: usize) -> (r: usize)
    requires
        from <= chars@.len(),
    ensures
        r == from + digit_run(chars@.skip(from as int)),
        r <= chars@.len(),
{
    let mut i: usize = from;
    let ghost total = digit_run(chars@.skip(from as int));
    while i < chars.len() && '0' <= chars[i] && chars[i] <= '9'
        invariant
            from <= i <= chars@.len(),
            total == (i - from) + digit_run(chars@.skip(i as int)),
        decreases chars.len() - i,
    {
        assert(chars@.skip(i as int).drop_first() =~= chars@.skip(i + 1));
        i += 1;
    }
    i
}

/// The consensus fix round an evaluator node belongs to, derived from its
/// stable node id: `evaluator_1` → 0, `evaluator_r1_1` → 1.
pub fn evaluator_round(node_id: &str) -> (r: i64)
    ensures
        r == round_of(node_id@),
{
    let chars = chars_of(node_id);
    let prefix = chars_of("evaluator_");
    if !is_at(chars.as_slice(), prefix.as_slice(), 0) {
        return 0;
    }
    let start: usize = prefix.len();
    let ghost rest = node_id@.skip(start as int);
    if start >= chars.len() || chars[start] != 'r' {
        assert(start < chars@.len() ==> rest[0] == chars@[start as int]);
        return 0;
    }
    assert(rest[0] == chars@[start as int]);
    let from = skip_run(&chars, start, 'r');
    let to = skip_digits(&chars, from);
    let ghost tail = rest.skip(run_of(rest, 'r') as int);
    assert(tail =~= chars@.skip(from as int));
    let digits = string_of(chars.as_slice(), from, to);
    proof {
        digit_run_bound(tail);
        assert(digits@ =~= leading_digits(tail));
        if digits@.len() > 0 {
            assert('0' <= digits@[0] <= '9');
        }
    }
    match crate::text::parse_number(digits.as_str(), i64::MAX as u64) {
        Some(n) => n as i64,
        None => 0,
    }
}

proof fn decimal_value(n: nat)
    ensures
        digits_value(decimal(n)) == n,
        all_digits(decimal(n)),
        decimal(n).len() > 0,
    decreases n,
{
    decimal_digits(n);
    if n < 10 {
        let d = decimal(n);
        assert(d.drop_last() =~= Seq::<char>::empty());
        assert(digits_value(d.drop_last()) == 0);
        assert(d.last() as nat - '0' as nat == n);
    } else {
        decimal_value(n / 10);
        let d = decimal(n);
        assert(d.drop_last() =~= decimal(n / 10));
        assert(d.last() as nat - '0' as nat == n % 10);
    }
}

proof fn digit_run_of(digits: Seq<char>, rest: Seq<char>)
    requires
        all_digits(digits),
        rest.len() > 0 ==> !('0' <= rest[0] <= '9'),
    ensures
        digit_run(digits + rest) == digits.len(),
        leading_digits(digits + rest) == digits,
    decreases digits.len(),
{
    let s = digits + rest;
    if digits.len() == 0 {
        assert(s =~= rest);
    } else {
        let tail = digits.drop_first();
        assert(s.drop_first() =~= tail + rest);
        assert(s[0] == digits[0]);
        assert(all_digits(tail)) by {
            assert forall|i: int| 0 <= i < tail.len() implies '0' <= #[trigger] tail[i] <= '9' by {
                assert(tail[i] == digits[i + 1]);
            }
        }
        digit_run_of(tail, rest);
    }
    assert(s.take(digits.len() as int) =~= digits);
}

/// The name of an evaluator of the first round.
pub open spec fn evaluator_name(i: nat) -> Seq<char> {
    "evaluator_"@ + decimal(i)
}

/// The name of an evaluator of a fix round.
pub open spec fn round_evaluator_name(round: int, i: nat) -> Seq<char> {
    "evaluator_r"@ + decimal_int(round) + "_"@ + decimal(i)
}

/// The round of an evaluator can be read off its name.
pub proof fn evaluator_round_is_named(round: int, i: nat)
    requires
        0 <= round <= i64::MAX,
    ensures
        round_of(evaluator_name(i)) == 0,
        round_of(round_evaluator_name(round, i)) == round,
{
    reveal_strlit("evaluator_");
    reveal_strlit("evaluator_r");
    reveal_strlit("_");
    let n = round as nat;
    decimal_value(i);
    decimal_value(n);
    let a = evaluator_name(i);
    assert(a.skip(10) =~= decimal(i));
    assert(a.skip(10)[0] == decimal(i)[0]);
    assert('0' <= decimal(i)[0] <= '9');
    let b = round_evaluator_name(round, i);
    let rest = b.skip(10);
    let tail = decimal(n) + ("_"@ + decimal(i));
    assert("evaluator_r"@.take(10) =~= "evaluator_"@);
    assert(b.subrange(0, 10) =~= "evaluator_"@);
    assert(rest =~= seq!['r'] + tail);
    assert(rest[0] == 'r');
    assert(rest.drop_first() =~= tail);
    assert(tail[0] == decimal(n)[0]);
    assert('0' <= decimal(n)[0] <= '9');
    assert(run_of(tail, 'r') == 0);
    assert(run_of(rest, 'r') == 1);
    assert(rest.skip(1) =~= tail);
    assert(("_"@ + decimal(i))[0] == '_');
    digit_run_of(decimal(n), "_"@ + decimal(i));
}

/// The name of an evaluator of the first round.
pub fn evaluator_node(i: usize) -> (r: String)
    ensures
        r@ == evaluator_name(i as nat),
{
    "evaluator_".to_owned().concat(show_usize(i).as_str())
}

/// The name of an evaluator of a fix round.
pub fn round_evaluator_node(round: i64, i: usize) -> (r: String)
    ensures
        r@ == round_evaluator_name(round as int, i as nat),
{
    "evaluator_r".to_owned().concat(show_i64(round).as_str()).concat("_").concat(
        show_usize(i).as_str(),
    )
}

/// The position of the first underscore; the length where there is none.
pub open spec fn first_underscore(s: Seq<char>) -> nat
    decreases s.len(),
{
    if s.len() == 0 || s[0] == '_' {
        0
    } else {
        1 + first_underscore(s.drop_first())
    }
}

/// The part of a name between its first two underscores.
pub open spec fn second_part(s: Seq<char>) -> Seq<char> {
    let rest = s.skip(first_underscore(s) as int + 1);
    rest.take(first_underscore(rest) as int)
}

/// The candidate that a competition evaluator evaluates, by its name.
pub open spec fn evaluated_candidate(node: Seq<char>) -> Seq<char> {
    let part = second_part(node);
    "candidate_"@ + part.skip(run_of(part, 'c') as int)
}

proof fn first_underscore_bound(s: Seq<char>)
    ensures
        first_underscore(s) <= s.len(),
    decreases s.len(),
{
    if s.len() > 0 && s[0] != '_' {
        first_underscore_bound(s.drop_first());
    }
}

fn find_underscore(chars: &Vec<char>, from: usize) -> (r: usize)
    requires
        from <= chars@.len(),
    ensures
        r == from + first_underscore(chars@.skip(from as int)),
        r <= chars@.len(),
{
    let mut i: usize = from;
    let ghost total = first_underscore(chars@.skip(from as int));
    while i < chars.len() && chars[i] != '_'
        invariant
            from <= i <= chars@.len(),
            total == (i - from) + first_underscore(chars@.skip(i as int)),
        decreases chars.len() - i,
    {
        assert(chars@.skip(i as int).drop_first() =~= chars@.skip(i + 1));
        i += 1;
    }
    i
}

/// The candidate that a competition evaluator evaluates, by its name.
pub fn candidate_of_evaluator(node_id: &str) -> (r: String)
    requires
        begins_with(node_id@, "eval_c"@),
    ensures
        r@ == evaluated_candidate(node_id@),
{
    let chars = chars_of(node_id);
    assert(chars@.skip(0) =~= chars@);
    let first = find_underscore(&chars, 0);
    proof {
        reveal_strlit("eval_c");
        eval_prefix_underscore(node_id@);
    }
    let from = first + 1;
    let to = find_underscore(&chars, from);
    let ghost part = second_part(node_id@);
    let mut i: usize = from;
    let ghost total = run_of(part, 'c');
    assert(part =~= chars@.subrange(from as int, to as int));
    assert(part.skip(0) =~= part);
    while i < to && chars[i] == 'c'
        invariant
            from <= i <= to <= chars@.len(),
            part == chars@.subrange(from as int, to as int),
            total == (i - from) + run_of(part.skip(i - from), 'c'),
        decreases to - i,
    {
        assert(part.skip(i - from).drop_first() =~= part.skip(i - from + 1));
        assert(part.skip(i - from)[0] == chars@[i as int]);
        i += 1;
    }
    proof {
        if i < to {
            assert(part.skip(i - from)[0] == chars@[i as int]);
        }
        assert(run_of(part.skip(i - from), 'c') == 0);
    }
    let number = string_of(chars.as_slice(), i, to);
    assert(number@ =~= part.skip(run_of(part, 'c') as int));
    "candidate_".to_owned().concat(number.as_str())
}

proof fn eval_prefix_underscore(s: Seq<char>)
    requires
        begins_with(s, "eval_c"@),
    ensures
        first_underscore(s) == 4,
        s.len() >= 6,
{
    reveal_strlit("eval_c");
    reveal_with_fuel(first_underscore, 6);
    assert(s.subrange(0, 6)[0] == s[0]);
    assert(s.subrange(0, 6)[1] == s[1]);
    assert(s.subrange(0, 6)[2] == s[2]);
    assert(s.subrange(0, 6)[3] == s[3]);
    assert(s.subrange(0, 6)[4] == s[4]);
    let a = s.drop_first();
    let b = a.drop_first();
    let c = b.drop_first();
    let d = c.drop_first();
    assert(d[0] == s[4]);
}

/// The name of a candidate.
pub open spec fn candidate_name(c: nat) -> Seq<char> {
    "candidate_"@ + decimal(c)
}

/// The session lane of a candidate.
pub open spec fn candidate_lane_name(c: nat) -> Seq<char> {
    "candidate:candidate_"@ + decimal(c)
}

/// The name of an evaluator of a candidate.
pub open spec fn candidate_evaluator_name(c: nat, e: nat) -> Seq<char> {
    "eval_c"@ + decimal(c) + "_"@ + decimal(e)
}

/// The session lane of an evaluator of a candidate: its own, named after the
/// competition, the candidate and the evaluator node.
pub open spec fn evaluation_lane_name(group: Uuid, candidate: Seq<char>, node: Seq<char>) -> Seq<char> {
    "evaluation:"@ + id_text(group.bits) + ":"@ + candidate + ":"@ + node
}

/// The name of a candidate.
pub fn candidate_node(c: usize) -> (r: String)
    ensures
        r@ == candidate_name(c as nat),
{
    "candidate_".to_owned().concat(show_usize(c).as_str())
}

/// The session lane of a candidate.
pub fn candidate_lane(c: usize) -> (r: String)
    ensures
        r@ == candidate_lane_name(c as nat),
{
    "candidate:candidate_".to_owned().concat(show_usize(c).as_str())
}

/// The name of an evaluator of a candidate.
pub fn candidate_evaluator_node(c: usize, e: usize) -> (r: String)
    ensures
        r@ == candidate_evaluator_name(c as nat, e as nat),
{
    "eval_c".to_owned().concat(show_usize(c).as_str()).concat("_").concat(show_usize(e).as_str())
}

/// The session lane of an evaluator of a candidate.
pub fn evaluation_lane(group: Uuid, candidate: &str, node: &str) -> (r: String)
    ensures
        r@ == evaluation_lane_name(group, candidate@, node@),
{
    "evaluation:".to_owned().concat(group.to_text().as_str()).concat(":").concat(candidate).concat(
        ":",
    ).concat(node)
}

/// A candidate's consensus node names it.
pub proof fn gate_names_candidate(c: nat)
    ensures
        gate_candidate("consensus_c"@ + decimal(c)) == candidate_name(c),
{
    reveal_strlit("consensus_c");
    let gate = "consensus_c"@ + decimal(c);
    assert(gate.subrange(0, 11) =~= "consensus_c"@);
    assert(gate.skip(11) =~= decimal(c));
    decimal_value(c);
    digits_are_kept(decimal(c));
    assert(gate_candidate(gate) =~= candidate_name(c));
}

proof fn digits_are_kept(digits: Seq<char>)
    requires
        all_digits(digits),
    ensures
        replaced_text(digits, "consensus_c"@, "candidate_"@) == digits,
    decreases digits.len(),
{
    reveal_strlit("consensus_c");
    if digits.len() > 0 {
        if begins_with(digits, "consensus_c"@) {
            assert(digits.subrange(0, 11)[0] == digits[0]);
            assert("consensus_c"@[0] == 'c');
        }
        let rest = digits.drop_first();
        assert forall|i: int| 0 <= i < rest.len() implies '0' <= #[trigger] rest[i] <= '9' by {
            assert(rest[i] == digits[i + 1]);
        }
        digits_are_kept(rest);
        assert(replaced_text(digits, "consensus_c"@, "candidate_"@) =~= digits);
    }
}

/// An evaluator of a candidate names it.
pub proof fn evaluator_names_candidate(c: nat, e: nat)
    ensures
        begins_with(candidate_evaluator_name(c, e), "eval_c"@),
        evaluated_candidate(candidate_evaluator_name(c, e)) == candidate_name(c),
{
    reveal_strlit("eval_c");
    reveal_strlit("_");
    let s = candidate_evaluator_name(c, e);
    assert(s.subrange(0, 6) =~= "eval_c"@);
    eval_prefix_underscore(s);
    decimal_value(c);
    let rest = s.skip(5);
    let tail = "_"@ + decimal(e);
    assert(rest =~= seq!['c'] + decimal(c) + tail);
    assert(rest[0] == 'c');
    assert(rest.drop_first() =~= decimal(c) + tail);
    underscore_after_digits(decimal(c), tail);
    assert(first_underscore(rest) == 1 + decimal(c).len());
    let part = second_part(s);
    assert(part =~= seq!['c'] + decimal(c));
    assert(part.drop_first() =~= decimal(c));
    assert('0' <= decimal(c)[0] <= '9');
    assert(run_of(decimal(c), 'c') == 0);
    assert(run_of(part, 'c') == 1);
    assert(part.skip(1) =~= decimal(c));
}

proof fn underscore_after_digits(digits: Seq<char>, tail: Seq<char>)
    requires
        all_digits(digits),
        tail.len() > 0,
        tail[0] == '_',
    ensures
        first_underscore(digits + tail) == digits.len(),
    decreases digits.len(),
{
    let s = digits + tail;
    if digits.len() == 0 {
        assert(s =~= tail);
    } else {
        let rest = digits.drop_first();
        assert(s.drop_first() =~= rest + tail);
        assert(s[0] == digits[0]);
        assert forall|i: int| 0 <= i < rest.len() implies '0' <= #[trigger] rest[i] <= '9' by {
            assert(rest[i] == digits[i + 1]);
        }
        underscore_after_digits(rest, tail);
    }
}

/// Every candidate and every evaluator of a competition has a session lane of
/// its own.
pub proof fn lanes_are_distinct(group: Uuid, c: nat, e: nat, d: nat, f: nat)
    ensures
        candidate_lane_name(c) == candidate_lane_name(d) ==> c == d,
        evaluation_lane_name(group, candidate_name(c), candidate_evaluator_name(c, e))
            == evaluation_lane_name(group, candidate_name(d), candidate_evaluator_name(d, f)) ==> c
            == d && e == f,
        candidate_lane_name(c) != evaluation_lane_name(
            group,
            candidate_name(d),
            candidate_evaluator_name(d, f),
        ),
{
    if candidate_lane_name(c) == candidate_lane_name(d) {
        same_head("candidate:candidate_"@, decimal(c), decimal(d));
        decimal_injective(c, d);
    }
    let x = evaluation_lane_name(group, candidate_name(c), candidate_evaluator_name(c, e));
    let y = evaluation_lane_name(group, candidate_name(d), candidate_evaluator_name(d, f));
    if x == y {
        evaluation_lane_parts(group, c, e);
        evaluation_lane_parts(group, d, f);
        same_head(lane_head(group), decimal(c) + lane_tail(c, e), decimal(d) + lane_tail(d, f));
        lane_tail_start(c, e);
        lane_tail_start(d, f);
        decimal_value(c);
        decimal_value(d);
        digit_run_of(decimal(c), lane_tail(c, e));
        digit_run_of(decimal(d), lane_tail(d, f));
        decimal_injective(c, d);
        same_head(decimal(c), lane_tail(c, e), lane_tail(d, f));
        same_head(":"@ + "eval_c"@ + decimal(c) + "_"@, decimal(e), decimal(f));
        decimal_injective(e, f);
    }
    lane_starts(group, c, d, f);
}

proof fn same_head(head: Seq<char>, a: Seq<char>, b: Seq<char>)
    requires
        head + a == head + b,
    ensures
        a == b,
{
    assert((head + a).skip(head.len() as int) =~= a);
    assert((head + b).skip(head.len() as int) =~= b);
}

spec fn lane_head(group: Uuid) -> Seq<char> {
    "evaluation:"@ + id_text(group.bits) + ":"@ + "candidate_"@
}

spec fn lane_tail(c: nat, e: nat) -> Seq<char> {
    ":"@ + "eval_c"@ + decimal(c) + "_"@ + decimal(e)
}

proof fn evaluation_lane_parts(group: Uuid, c: nat, e: nat)
    ensures
        evaluation_lane_name(group, candidate_name(c), candidate_evaluator_name(c, e)) == lane_head(
            group,
        ) + (decimal(c) + lane_tail(c, e)),
{
    assert(evaluation_lane_name(group, candidate_name(c), candidate_evaluator_name(c, e))
        =~= lane_head(group) + (decimal(c) + lane_tail(c, e)));
}

proof fn lane_tail_start(c: nat, e: nat)
    ensures
        lane_tail(c, e).len() > 0,
        lane_tail(c, e)[0] == ':',
{
    reveal_strlit(":");
    assert(":"@[0] == ':');
}

proof fn lane_starts(group: Uuid, c: nat, d: nat, f: nat)
    ensures
        candidate_lane_name(c) != evaluation_lane_name(
            group,
            candidate_name(d),
            candidate_evaluator_name(d, f),
        ),
{
    reveal_strlit("candidate:candidate_");
    reveal_strlit("evaluation:");
    assert(candidate_lane_name(c)[0] == 'c');
    assert(evaluation_lane_name(group, candidate_name(d), candidate_evaluator_name(d, f))[0] == 'e');
}

/// A replacement puts the new text for each occurrence of the old one, from the
/// left, and keeps every other character.
pub proof fn replacement_keeps_the_rest(
    s: Seq<char>,
    c: char,
    from: Seq<char>,
    to: Seq<char>,
)
    requires
        from.len() > 0,
    ensures
        replaced_text(Seq::empty(), from, to).len() == 0,
        replaced_text(from + s, from, to) == to + replaced_text(s, from, to),
        !begins_with(seq![c] + s, from) ==> replaced_text(seq![c] + s, from, to) == seq![c]
            + replaced_text(s, from, to),
{
    let whole = from + s;
    assert(whole.subrange(0, from.len() as int) =~= from);
    assert(whole.skip(from.len() as int) =~= s);
    assert((seq![c] + s).drop_first() =~= s);
}

/// A node that is no evaluator's, or that names no round, is of the first round.
pub proof fn unnamed_rounds_are_the_first(node: Seq<char>)
    ensures
        !begins_with(node, "evaluator_"@) ==> round_of(node) == 0,
        begins_with(node, "evaluator_"@) && (node.len() == "evaluator_"@.len()
            || node["evaluator_"@.len() as int] != 'r') ==> round_of(node) == 0,
{
}

/// The names of nodes and lanes: each begins with what it names and ends with
/// its number.
pub proof fn names_carry_their_numbers(c: nat, e: nat, round: nat)
    ensures
        evaluator_name(e) == "evaluator_"@ + decimal(e),
        round_evaluator_name(round as int, e) == "evaluator_r"@ + decimal(round) + "_"@ + decimal(e),
        candidate_name(c) == "candidate_"@ + decimal(c),
        candidate_evaluator_name(c, e) == "eval_c"@ + decimal(c) + "_"@ + decimal(e),
        candidate_lane_name(c) == "candidate:"@ + candidate_name(c),
{
    reveal_strlit("candidate:candidate_");
    reveal_strlit("candidate:");
    reveal_strlit("candidate_");
    assert("candidate:candidate_"@ =~= "candidate:"@ + "candidate_"@);
    assert(candidate_lane_name(c) =~= "candidate:"@ + candidate_name(c));
}

} // verus!
