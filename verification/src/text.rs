//! Building text: numbers, joined lists, string literals.

use vstd::prelude::*;
use vstd::string::*;

verus! {

/// The decimal digit `d`.
pub open spec fn digit(d: nat) -> Seq<char> {
    if d == 0 {
        "0"@
    } else if d == 1 {
        "1"@
    } else if d == 2 {
        "2"@
    } else if d == 3 {
        "3"@
    } else if d == 4 {
        "4"@
    } else if d == 5 {
        "5"@
    } else if d == 6 {
        "6"@
    } else if d == 7 {
        "7"@
    } else if d == 8 {
        "8"@
    } else {
        "9"@
    }
}

/// The number `n` in decimal notation, without leading zeros.
pub open spec fn decimal(n: nat) -> Seq<char>
    decreases n,
{
    if n < 10 {
        digit(n)
    } else {
        decimal(n / 10) + digit(n % 10)
    }
}

/// The SQL parameter `$n`.
pub open spec fn param(n: nat) -> Seq<char> {
    "$"@ + decimal(n)
}

/// The parts in order, with `sep` between neighbours.
pub open spec fn joined(parts: Seq<Seq<char>>, sep: Seq<char>) -> Seq<char>
    decreases parts.len(),
{
    if parts.len() == 0 {
        Seq::empty()
    } else if parts.len() == 1 {
        parts[0]
    } else {
        joined(parts.drop_last(), sep) + sep + parts.last()
    }
}

/// The parts in order, each with `end` behind it.
pub open spec fn ended(parts: Seq<Seq<char>>, end: Seq<char>) -> Seq<char>
    decreases parts.len(),
{
    if parts.len() == 0 {
        Seq::empty()
    } else {
        ended(parts.drop_last(), end) + parts.last() + end
    }
}

/// How the character `c` is written inside a string literal.
pub open spec fn escaped_char(c: char) -> Seq<char> {
    if c == '"' {
        "\\\""@
    } else if c == '\\' {
        "\\\\"@
    } else if c == '\n' {
        "\\n"@
    } else if c == '\r' {
        "\\r"@
    } else if c == '\t' {
        "\\t"@
    } else {
        seq![c]
    }
}

/// How the text `s` is written inside a string literal.
pub open spec fn escaped(s: Seq<char>) -> Seq<char>
    decreases s.len(),
{
    if s.len() == 0 {
        Seq::empty()
    } else {
        escaped(s.drop_last()) + escaped_char(s.last())
    }
}

/// The string literal that denotes `s`.
pub open spec fn literal(s: Seq<char>) -> Seq<char> {
    "\""@ + escaped(s) + "\""@
}

/// The part of `s` behind its last `.`, or all of it where it has none.
pub open spec fn last_component(s: Seq<char>) -> Seq<char>
    decreases s.len(),
{
    if s.len() == 0 || s.last() == '.' {
        Seq::empty()
    } else {
        last_component(s.drop_last()).push(s.last())
    }
}

/// `s` where `c` holds, and nothing otherwise.
pub open spec fn only_if(c: bool, s: Seq<char>) -> Seq<char> {
    if c {
        s
    } else {
        Seq::empty()
    }
}

/// What the text between the quotes of a string literal denotes, or nothing
/// where it ends within an escape, holds one that is not known, or holds a
/// quote that would end the literal.
pub open spec fn denoted(t: Seq<char>) -> Option<Seq<char>>
    decreases t.len(),
{
    if t.len() == 0 {
        Some(Seq::empty())
    } else if t[0] == '"' {
        None
    } else if t[0] != '\\' {
        match denoted(t.skip(1)) {
            Some(rest) => Some(seq![t[0]] + rest),
            None => None,
        }
    } else if t.len() == 1 {
        None
    } else {
        match (escaped_as(t[1]), denoted(t.skip(2))) {
            (Some(c), Some(rest)) => Some(seq![c] + rest),
            _ => None,
        }
    }
}

/// The character that is written as a backslash and `c`.
pub open spec fn escaped_as(c: char) -> Option<char> {
    if c == '"' || c == '\\' {
        Some(c)
    } else if c == 'n' {
        Some('\n')
    } else if c == 'r' {
        Some('\r')
    } else if c == 't' {
        Some('\t')
    } else {
        None
    }
}

/// One character more in front, as it is written inside a string literal.
proof fn denoted_char(c: char, t: Seq<char>)
    requires
        denoted(t) is Some,
    ensures
        denoted(escaped_char(c) + t) == Some(seq![c] + denoted(t)->0),
{
    reveal_strlit("\\\"");
    reveal_strlit("\\\\");
    reveal_strlit("\\n");
    reveal_strlit("\\r");
    reveal_strlit("\\t");
    let e = escaped_char(c);
    if e.len() == 1 {
        assert((e + t).skip(1) =~= t);
    } else {
        assert((e + t).skip(2) =~= t);
    }
}

proof fn denoted_text(s: Seq<char>, t: Seq<char>)
    requires
        denoted(t) is Some,
    ensures
        denoted(escaped(s) + t) == Some(s + denoted(t)->0),
    decreases s.len(),
{
    if s.len() == 0 {
        assert(escaped(s) + t =~= t);
        assert(s + denoted(t)->0 =~= denoted(t)->0);
    } else {
        let c = s.last();
        denoted_char(c, t);
        denoted_text(s.drop_last(), escaped_char(c) + t);
        assert(escaped(s) + t =~= escaped(s.drop_last()) + (escaped_char(c) + t));
        assert(s.drop_last() + (seq![c] + denoted(t)->0) =~= s + denoted(t)->0);
    }
}

/// A string literal denotes the text that it was made of.
pub proof fn literal_denotes(s: Seq<char>)
    ensures
        literal(s).len() >= 2,
        literal(s)[0] == '"',
        literal(s).last() == '"',
        denoted(literal(s).subrange(1, literal(s).len() - 1)) == Some(s),
{
    reveal_strlit("\"");
    denoted_text(s, Seq::empty());
    assert(escaped(s) + Seq::<char>::empty() =~= escaped(s));
    assert(s + Seq::<char>::empty() =~= s);
    assert(literal(s).subrange(1, literal(s).len() - 1) =~= escaped(s));
}

/// The number that a text in decimal notation denotes.
pub open spec fn number(t: Seq<char>) -> nat
    decreases t.len(),
{
    if t.len() == 0 {
        0
    } else {
        number(t.drop_last()) * 10 + (t.last() as nat - '0' as nat) as nat
    }
}

pub proof fn digit_denotes(d: nat)
    requires
        d < 10,
    ensures
        digit(d).len() == 1,
        digit(d)[0] as nat == '0' as nat + d,
{
    reveal_strlit("0");
    reveal_strlit("1");
    reveal_strlit("2");
    reveal_strlit("3");
    reveal_strlit("4");
    reveal_strlit("5");
    reveal_strlit("6");
    reveal_strlit("7");
    reveal_strlit("8");
    reveal_strlit("9");
}

/// The decimal notation of a number denotes it.
pub proof fn decimal_denotes(n: nat)
    ensures
        number(decimal(n)) == n,
    decreases n,
{
    let d = n % 10;
    digit_denotes(d);
    if n < 10 {
        assert(decimal(n).drop_last() =~= Seq::empty());
        assert(number(decimal(n).drop_last()) == 0);
    } else {
        decimal_denotes(n / 10);
        assert(decimal(n).drop_last() =~= decimal(n / 10));
    }
}

/// Different parameters are written differently.
pub proof fn params_differ(a: nat, b: nat)
    requires
        a != b,
    ensures
        param(a) != param(b),
{
    decimal_denotes(a);
    decimal_denotes(b);
    if param(a) == param(b) {
        let n = "$"@.len();
        assert(param(a).skip(n as int) =~= decimal(a));
        assert(param(b).skip(n as int) =~= decimal(b));
    }
}

/// Whether `part` stands somewhere in `text`.
pub open spec fn occurs(text: Seq<char>, part: Seq<char>) -> bool {
    exists|before: Seq<char>, after: Seq<char>| text == #[trigger] (before + part + after)
}

/// Whether `first` stands somewhere in `text`, and `second` behind it.
pub open spec fn in_order(text: Seq<char>, first: Seq<char>, second: Seq<char>) -> bool {
    exists|before: Seq<char>, after: Seq<char>|
        text == #[trigger] (before + second + after) && occurs(before, first)
}

/// What stands in a text stands in a longer one.
pub broadcast proof fn occurs_extended(text: Seq<char>, more: Seq<char>, part: Seq<char>)
    requires
        occurs(text, part) || more == part,
    ensures
        #[trigger] occurs(text + more, part),
{
    if occurs(text, part) {
        let (before, after) = choose|before: Seq<char>, after: Seq<char>|
            text == #[trigger] (before + part + after);
        assert(text + more =~= before + part + (after + more));
    } else {
        assert(text + more =~= text + part + Seq::<char>::empty());
    }
}

/// What stands in a text stands in one that it is put behind.
pub broadcast proof fn occurs_behind(text: Seq<char>, more: Seq<char>, part: Seq<char>)
    requires
        occurs(more, part),
    ensures
        #[trigger] occurs(text + more, part),
{
    let (before, after) = choose|before: Seq<char>, after: Seq<char>|
        more == #[trigger] (before + part + after);
    assert(text + more =~= (text + before) + part + after);
}

/// What stands in a text in an order stands in a longer one in that order; and
/// so does what is put behind a text that holds the first.
pub broadcast proof fn in_order_extended(
    text: Seq<char>,
    more: Seq<char>,
    first: Seq<char>,
    second: Seq<char>,
)
    requires
        in_order(text, first, second) || (occurs(text, first) && more == second),
    ensures
        #[trigger] in_order(text + more, first, second),
{
    if in_order(text, first, second) {
        let (before, after) = choose|before: Seq<char>, after: Seq<char>|
            text == #[trigger] (before + second + after) && occurs(before, first);
        assert(text + more =~= before + second + (after + more));
    } else {
        assert(text + more =~= text + second + Seq::<char>::empty());
    }
}

/// What stands in a text comes before what stands in one that is put behind it.
pub proof fn in_order_joined(
    text: Seq<char>,
    more: Seq<char>,
    first: Seq<char>,
    second: Seq<char>,
)
    requires
        occurs(text, first),
        occurs(more, second),
    ensures
        in_order(text + more, first, second),
{
    let (before, after) = choose|before: Seq<char>, after: Seq<char>|
        more == #[trigger] (before + second + after);
    occurs_extended(text, before, first);
    assert(text + more =~= (text + before) + second + after);
}

/// What stands in a part of a text stands in the text.
pub proof fn occurs_within(text: Seq<char>, part: Seq<char>, inner: Seq<char>)
    requires
        occurs(text, part),
        occurs(part, inner),
    ensures
        occurs(text, inner),
{
    let (before, after) = choose|before: Seq<char>, after: Seq<char>|
        text == #[trigger] (before + part + after);
    occurs_behind(before, part, inner);
    occurs_extended(before + part, after, inner);
}

/// What stands in two parts of a text that are in an order is in that order.
pub proof fn in_order_within(
    text: Seq<char>,
    first: Seq<char>,
    second: Seq<char>,
    a: Seq<char>,
    b: Seq<char>,
)
    requires
        in_order(text, first, second),
        occurs(first, a),
        occurs(second, b),
    ensures
        in_order(text, a, b),
{
    let (before, after) = choose|before: Seq<char>, after: Seq<char>|
        text == #[trigger] (before + second + after) && occurs(before, first);
    let (x, y) = choose|x: Seq<char>, y: Seq<char>| second == #[trigger] (x + b + y);
    occurs_within(before, first, a);
    occurs_extended(before, x, a);
    assert(text =~= (before + x) + b + (y + after));
}

/// What stands in an order in a part of a text stands in that order in the text.
pub proof fn in_order_inside(
    text: Seq<char>,
    part: Seq<char>,
    first: Seq<char>,
    second: Seq<char>,
)
    requires
        occurs(text, part),
        in_order(part, first, second),
    ensures
        in_order(text, first, second),
{
    let (before, after) = choose|before: Seq<char>, after: Seq<char>|
        text == #[trigger] (before + part + after);
    let (x, y) = choose|x: Seq<char>, y: Seq<char>|
        part == #[trigger] (x + second + y) && occurs(x, first);
    occurs_behind(before, x, first);
    assert(text =~= (before + x) + second + (y + after));
}

/// A text stands in itself.
pub proof fn occurs_itself(text: Seq<char>)
    ensures
        occurs(text, text),
{
    let none = Seq::<char>::empty();
    assert(text =~= none + text + none);
}

/// Each of the parts stands in what they are joined to, and so does each in front
/// of those behind it.
pub proof fn joined_holds(parts: Seq<Seq<char>>, sep: Seq<char>, i: int)
    requires
        0 <= i < parts.len(),
    ensures
        occurs(joined(parts, sep), parts[i]),
        forall|j: int|
            i < j < parts.len() ==> in_order(joined(parts, sep), parts[i], #[trigger] parts[j]),
    decreases parts.len(),
{
    let front = parts.drop_last();
    let all = joined(parts, sep);
    if parts.len() == 1 {
        occurs_itself(parts[0]);
    } else {
        let rest = joined(front, sep) + sep;
        assert(all == rest + parts.last());
        if i < front.len() {
            joined_holds(front, sep, i);
            occurs_extended(joined(front, sep), sep, parts[i]);
            occurs_extended(rest, parts.last(), parts[i]);
            assert forall|j: int| i < j < parts.len() implies in_order(
                all,
                parts[i],
                #[trigger] parts[j],
            ) by {
                if j < front.len() {
                    assert(front[j] == parts[j]);
                    in_order_extended(joined(front, sep), sep, parts[i], parts[j]);
                    in_order_extended(rest, parts.last(), parts[i], parts[j]);
                } else {
                    in_order_extended(rest, parts.last(), parts[i], parts[j]);
                }
            }
        } else {
            occurs_extended(rest, parts.last(), parts[i]);
        }
    }
}

/// Each of the parts stands in the text of them all, and so does each in front of
/// those behind it.
pub proof fn ended_holds(parts: Seq<Seq<char>>, end: Seq<char>, i: int)
    requires
        0 <= i < parts.len(),
    ensures
        occurs(ended(parts, end), parts[i]),
        forall|j: int|
            i < j < parts.len() ==> in_order(ended(parts, end), parts[i], #[trigger] parts[j]),
    decreases parts.len(),
{
    let front = parts.drop_last();
    let all = ended(parts, end);
    let before = ended(front, end);
    let with = before + parts.last();
    if i < front.len() {
        ended_holds(front, end, i);
        occurs_extended(before, parts.last(), parts[i]);
        occurs_extended(with, end, parts[i]);
        assert forall|j: int| i < j < parts.len() implies in_order(
            all,
            parts[i],
            #[trigger] parts[j],
        ) by {
            if j < front.len() {
                assert(front[j] == parts[j]);
            }
            in_order_extended(before, parts.last(), parts[i], parts[j]);
            in_order_extended(with, end, parts[i], parts[j]);
        }
    } else {
        occurs_extended(before, parts.last(), parts[i]);
        occurs_extended(with, end, parts[i]);
    }
}

/// Whether two texts are equal.
pub fn same(a: &str, b: &str) -> (res: bool)
    ensures
        res == (a@ == b@),
{
    a.to_string() == b.to_string()
}

fn digit_text(d: usize) -> (res: &'static str)
    requires
        d < 10,
    ensures
        res@ == digit(d as nat),
{
    match d {
        0 => "0",
        1 => "1",
        2 => "2",
        3 => "3",
        4 => "4",
        5 => "5",
        6 => "6",
        7 => "7",
        8 => "8",
        _ => "9",
    }
}

/// `s` where `c` holds, and nothing otherwise.
pub fn given(c: bool, s: &str) -> (res: String)
    ensures
        res@ == only_if(c, s@),
{
    if c {
        s.to_string()
    } else {
        String::new()
    }
}

/// The number `n` in decimal notation.
pub fn decimal_text(n: usize) -> (res: String)
    ensures
        res@ == decimal(n as nat),
    decreases n,
{
    if n < 10 {
        digit_text(n).to_string()
    } else {
        decimal_text(n / 10).concat(digit_text(n % 10))
    }
}

/// The SQL parameter `$n`.
pub fn param_text(n: usize) -> (res: String)
    ensures
        res@ == param(n as nat),
{
    "$".to_string().concat(decimal_text(n).as_str())
}

/// The parts in order, with `sep` between neighbours.
pub fn join(parts: &Vec<String>, sep: &str) -> (res: String)
    ensures
        res@ == joined(parts.deep_view(), sep@),
{
    let mut res = String::new();
    let mut i: usize = 0;
    let ghost all = parts.deep_view();
    while i < parts.len()
        invariant
            i <= parts.len(),
            all == parts.deep_view(),
            all.len() == parts.len(),
            res@ == joined(all.take(i as int), sep@),
        decreases parts.len() - i,
    {
        proof {
            let next = all.take(i + 1);
            assert(next.drop_last() =~= all.take(i as int));
            assert(next.last() == parts@[i as int]@);
            assert(res@ + parts@[i as int]@ =~= parts@[i as int]@ || i > 0);
        }
        if i > 0 {
            res.append(sep);
        }
        res.append(parts[i].as_str());
        i = i + 1;
    }
    assert(all.take(all.len() as int) =~= all);
    res
}

/// The parts in order, each with `end` behind it.
pub fn end_each(parts: &Vec<String>, end: &str) -> (res: String)
    ensures
        res@ == ended(parts.deep_view(), end@),
{
    let mut res = String::new();
    let mut i: usize = 0;
    let ghost all = parts.deep_view();
    while i < parts.len()
        invariant
            i <= parts.len(),
            all == parts.deep_view(),
            all.len() == parts.len(),
            res@ == ended(all.take(i as int), end@),
        decreases parts.len() - i,
    {
        proof {
            let next = all.take(i + 1);
            assert(next.drop_last() =~= all.take(i as int));
            assert(next.last() == parts@[i as int]@);
        }
        res.append(parts[i].as_str());
        res.append(end);
        i = i + 1;
    }
    assert(all.take(all.len() as int) =~= all);
    res
}

/// The string literal that denotes `s`.
pub fn quote(s: &str) -> (res: String)
    ensures
        res@ == literal(s@),
{
    let n = s.unicode_len();
    let mut body = String::new();
    let mut i: usize = 0;
    while i < n
        invariant
            i <= n,
            n == s@.len(),
            body@ == escaped(s@.take(i as int)),
        decreases n - i,
    {
        let c = s.get_char(i);
        proof {
            let next = s@.take(i + 1);
            assert(next.drop_last() =~= s@.take(i as int));
            assert(next.last() == c);
        }
        if c == '"' {
            body.append("\\\"");
        } else if c == '\\' {
            body.append("\\\\");
        } else if c == '\n' {
            body.append("\\n");
        } else if c == '\r' {
            body.append("\\r");
        } else if c == '\t' {
            body.append("\\t");
        } else {
            let same = s.substring_char(i, i + 1);
            assert(same@ =~= seq![c]);
            body.append(same);
        }
        i = i + 1;
    }
    assert(s@.take(n as int) =~= s@);
    "\"".to_string().concat(body.as_str()).concat("\"")
}

/// The part of `s` behind its last `.`, or all of it where it has none.
pub fn component_after_last_dot(s: &str) -> (res: &str)
    ensures
        res@ == last_component(s@),
{
    let n = s.unicode_len();
    let mut i: usize = n;
    assert(s@.take(n as int) =~= s@);
    while i > 0 && s.get_char(i - 1) != '.'
        invariant
            i <= n,
            n == s@.len(),
            last_component(s@) == last_component(s@.take(i as int)) + s@.skip(i as int),
        decreases i,
    {
        proof {
            let now = s@.take(i as int);
            assert(now.drop_last() =~= s@.take(i - 1));
            assert(last_component(now) + s@.skip(i as int) =~= last_component(s@.take(i - 1))
                + s@.skip(i - 1));
        }
        i = i - 1;
    }
    let res = s.substring_char(i, n);
    assert(res@ =~= last_component(s@.take(i as int)) + s@.skip(i as int));
    res
}

} // verus!
