//! The parameters that a statement mentions, in the order of the text.

use vstd::prelude::*;
use vstd::string::*;

use crate::text::{decimal, decimal_denotes, digit, digit_denotes, joined, number, param};

verus! {

/// Whether a character is a decimal digit.
pub open spec fn is_digit(c: char) -> bool {
    '0' as nat <= c as nat <= '9' as nat
}

/// How many digits a text starts with.
pub open spec fn leading_digits(s: Seq<char>) -> nat
    decreases s.len(),
{
    if s.len() > 0 && is_digit(s[0]) {
        1 + leading_digits(s.drop_first())
    } else {
        0
    }
}

/// The numbers of the parameters that a text mentions: `$` and all the digits
/// behind it.
pub open spec fn placeholders(s: Seq<char>) -> Seq<nat>
    decreases s.len(),
{
    if s.len() == 0 {
        Seq::empty()
    } else {
        let rest = s.drop_first();
        let n = leading_digits(rest);
        if s[0] == '$' && 0 < n <= rest.len() {
            seq![number(rest.take(n as int))] + placeholders(rest.skip(n as int))
        } else {
            placeholders(rest)
        }
    }
}

/// Whether a text mentions no parameter, nor a part of one.
pub open spec fn plain(s: Seq<char>) -> bool {
    forall|i: int| 0 <= i < s.len() ==> #[trigger] s[i] != '$'
}

/// Whether no `$` in a text has a digit behind it.
pub open spec fn unnumbered(s: Seq<char>) -> bool {
    forall|i: int| 0 <= i < s.len() - 1 && #[trigger] s[i] == '$' ==> !is_digit(s[i + 1])
}

/// Whether the end of a text and the start of another one do not make up a
/// parameter between them.
pub open spec fn apart(a: Seq<char>, b: Seq<char>) -> bool {
    ||| a.len() == 0
    ||| b.len() == 0
    ||| !is_digit(b[0])
    ||| !is_digit(a.last()) && a.last() != '$'
}

proof fn digits_are_within(s: Seq<char>)
    ensures
        leading_digits(s) <= s.len(),
        leading_digits(s) > 0 && leading_digits(s) == s.len() ==> is_digit(s.last()),
    decreases s.len(),
{
    if s.len() > 0 && is_digit(s[0]) {
        digits_are_within(s.drop_first());
    }
}

/// The digits that a text starts with are its own where the one behind it does
/// not go on with them.
proof fn digits_of_both(a: Seq<char>, b: Seq<char>)
    requires
        b.len() == 0 || !is_digit(b[0]) || (a.len() > 0 && !is_digit(a.last())),
    ensures
        leading_digits(a + b) == leading_digits(a),
    decreases a.len(),
{
    if a.len() == 0 {
        assert(a + b =~= b);
    } else if is_digit(a[0]) {
        assert((a + b).drop_first() =~= a.drop_first() + b);
        digits_of_both(a.drop_first(), b);
    }
}

/// Texts that stand apart mention what each of them mentions.
pub broadcast proof fn placeholders_of_both(a: Seq<char>, b: Seq<char>)
    requires
        apart(a, b),
    ensures
        #[trigger] placeholders(a + b) == placeholders(a) + placeholders(b),
    decreases a.len(),
{
    if a.len() == 0 {
        assert(a + b =~= b);
        assert(placeholders(a) + placeholders(b) =~= placeholders(b));
    } else {
        let rest = a.drop_first();
        assert((a + b).drop_first() =~= rest + b);
        if a[0] == '$' {
            digits_of_both(rest, b);
            digits_are_within(rest);
            digits_are_within(rest + b);
            let n = leading_digits(rest) as int;
            if n > 0 {
                assert((rest + b).take(n) =~= rest.take(n));
                assert((rest + b).skip(n) =~= rest.skip(n) + b);
                placeholders_of_both(rest.skip(n), b);
                assert(placeholders(a + b) =~= placeholders(a) + placeholders(b));
            } else {
                placeholders_of_both(rest, b);
            }
        } else {
            placeholders_of_both(rest, b);
        }
    }
}

/// A plain text mentions no parameter.
pub broadcast proof fn plain_mentions_none(s: Seq<char>)
    requires
        plain(s),
    ensures
        #[trigger] placeholders(s) == Seq::<nat>::empty(),
    decreases s.len(),
{
    if s.len() > 0 {
        assert forall|i: int| 0 <= i < s.drop_first().len() implies #[trigger] s.drop_first()[i]
            != '$' by {
            assert(s[i + 1] != '$');
        }
        plain_mentions_none(s.drop_first());
    }
}

/// A text without a number behind a `$` mentions no parameter.
pub broadcast proof fn unnumbered_mentions_none(s: Seq<char>)
    requires
        unnumbered(s),
    ensures
        #[trigger] placeholders(s) == Seq::<nat>::empty(),
    decreases s.len(),
{
    if s.len() > 0 {
        let rest = s.drop_first();
        assert forall|i: int|
            0 <= i < rest.len() - 1 && #[trigger] rest[i] == '$' implies !is_digit(rest[i + 1]) by {
            assert(s[i + 1] == '$');
        }
        unnumbered_mentions_none(rest);
        if s[0] == '$' && rest.len() > 0 {
            assert(!is_digit(s[0int + 1]));
            assert(leading_digits(rest) == 0);
        }
    }
}

proof fn decimal_is_digits(n: nat)
    ensures
        decimal(n).len() > 0,
        leading_digits(decimal(n)) == decimal(n).len(),
        forall|i: int| 0 <= i < decimal(n).len() ==> is_digit(#[trigger] decimal(n)[i]),
    decreases n,
{
    let last = digit(n % 10);
    digit_denotes(n % 10);
    assert(is_digit(last[0]));
    if n >= 10 {
        let front = decimal(n / 10);
        decimal_is_digits(n / 10);
        assert(decimal(n) == front + last);
        assert forall|i: int| 0 <= i < decimal(n).len() implies is_digit(
            #[trigger] decimal(n)[i],
        ) by {
            if i < front.len() {
                assert(is_digit(front[i]));
            }
        }
    } else {
        assert(decimal(n) == last);
    }
    all_digits_lead(decimal(n));
}

proof fn all_digits_lead(s: Seq<char>)
    requires
        forall|i: int| 0 <= i < s.len() ==> is_digit(#[trigger] s[i]),
    ensures
        leading_digits(s) == s.len(),
    decreases s.len(),
{
    if s.len() > 0 {
        assert forall|i: int| 0 <= i < s.drop_first().len() implies is_digit(
            #[trigger] s.drop_first()[i],
        ) by {
            assert(is_digit(s[i + 1]));
        }
        all_digits_lead(s.drop_first());
    }
}

/// A parameter mentions itself.
pub broadcast proof fn param_mentions_itself(n: nat)
    ensures
        #[trigger] placeholders(param(n)) == seq![n],
        param(n).len() > 0,
        param(n)[0] == '$',
{
    reveal_strlit("$");
    decimal_is_digits(n);
    decimal_denotes(n);
    let rest = param(n).drop_first();
    assert(rest =~= decimal(n));
    assert(rest.take(rest.len() as int) =~= rest);
    assert(rest.skip(rest.len() as int) =~= Seq::<char>::empty());
    assert(placeholders(Seq::<char>::empty()) =~= Seq::<nat>::empty());
    assert(placeholders(param(n)) =~= seq![n]);
}

/// Whether a text mentions no parameter, and makes up none with what stands
/// around it.
pub open spec fn inert(s: Seq<char>) -> bool {
    &&& s.len() > 0
    &&& plain(s)
    &&& !is_digit(s[0])
    &&& !is_digit(s.last())
}

/// An inert text between two others adds no parameter.
pub broadcast proof fn inert_between(a: Seq<char>, s: Seq<char>, b: Seq<char>)
    requires
        inert(s),
    ensures
        #[trigger] placeholders(a + s + b) == placeholders(a) + placeholders(b),
{
    placeholders_of_both(a, s);
    placeholders_of_both(a + s, b);
    plain_mentions_none(s);
    assert(placeholders(a) + Seq::<nat>::empty() =~= placeholders(a));
}

/// An inert text behind another one adds no parameter.
pub broadcast proof fn inert_behind(a: Seq<char>, s: Seq<char>)
    requires
        inert(s),
    ensures
        #[trigger] placeholders(a + s) == placeholders(a),
{
    placeholders_of_both(a, s);
    plain_mentions_none(s);
    assert(placeholders(a) + Seq::<nat>::empty() =~= placeholders(a));
}

/// An inert text before another one adds no parameter.
pub broadcast proof fn inert_before(s: Seq<char>, a: Seq<char>)
    requires
        inert(s),
    ensures
        #[trigger] placeholders(s + a) == placeholders(a),
{
    placeholders_of_both(s, a);
    plain_mentions_none(s);
    assert(Seq::<nat>::empty() + placeholders(a) =~= placeholders(a));
}

/// Whether a text mentions a parameter.
pub open spec fn mentions(s: Seq<char>, n: nat) -> bool {
    placeholders(s).contains(n)
}

/// Whether the first mention of a parameter in a text stands in that part of it.
pub open spec fn first_mentioned_in(text: Seq<char>, part: Seq<char>, n: nat) -> bool {
    exists|before: Seq<char>, after: Seq<char>|
        text == #[trigger] (before + part + after) && apart(before, part + after) && !mentions(
            before,
            n,
        ) && mentions(part, n)
}

/// What stands before an inert text and behind it mentions what both mention.
pub broadcast proof fn mentioned_around(a: Seq<char>, s: Seq<char>, b: Seq<char>, n: nat)
    requires
        inert(s),
    ensures
        #[trigger] mentions(a + s + b, n) <==> mentions(a, n) || mentions(b, n),
{
    inert_between(a, s, b);
    both_contain(placeholders(a), placeholders(b), n);
}

/// What an inert text stands behind mentions all that is mentioned.
pub broadcast proof fn mentioned_before(a: Seq<char>, s: Seq<char>, n: nat)
    requires
        inert(s),
    ensures
        #[trigger] mentions(a + s, n) <==> mentions(a, n),
{
    inert_behind(a, s);
}

/// What stands behind an inert text mentions all that is mentioned.
pub broadcast proof fn mentioned_behind(s: Seq<char>, a: Seq<char>, n: nat)
    requires
        inert(s),
    ensures
        #[trigger] mentions(s + a, n) <==> mentions(a, n),
{
    inert_before(s, a);
}

/// A plain text mentions nothing.
pub broadcast proof fn plain_is_not_mentioning(s: Seq<char>, n: nat)
    requires
        plain(s),
    ensures
        !#[trigger] mentions(s, n),
{
    plain_mentions_none(s);
}

/// A parameter mentions itself, and no other.
pub broadcast proof fn param_mentions(a: nat, n: nat)
    ensures
        #[trigger] mentions(param(a), n) <==> a == n,
{
    param_mentions_itself(a);
    if a == n {
        assert(seq![a][0] == n);
    }
}

proof fn both_contain(a: Seq<nat>, b: Seq<nat>, n: nat)
    ensures
        (a + b).contains(n) <==> a.contains(n) || b.contains(n),
{
    if a.contains(n) {
        let i = choose|i: int| 0 <= i < a.len() && a[i] == n;
        assert((a + b)[i] == n);
    }
    if b.contains(n) {
        let i = choose|i: int| 0 <= i < b.len() && b[i] == n;
        assert((a + b)[a.len() + i] == n);
    }
}

/// Texts that are joined by an inert one mention what one of them mentions.
pub proof fn joined_mentions(parts: Seq<Seq<char>>, sep: Seq<char>, n: nat)
    requires
        inert(sep),
    ensures
        mentions(joined(parts, sep), n) <==> exists|i: int|
            0 <= i < parts.len() && mentions(#[trigger] parts[i], n),
    decreases parts.len(),
{
    if parts.len() == 0 {
        plain_is_not_mentioning(joined(parts, sep), n);
    } else if parts.len() > 1 {
        let front = parts.drop_last();
        joined_mentions(front, sep, n);
        mentioned_around(joined(front, sep), sep, parts.last(), n);
        if mentions(joined(front, sep), n) {
            let i = choose|i: int| 0 <= i < front.len() && mentions(#[trigger] front[i], n);
            assert(mentions(parts[i], n));
        }
        if exists|i: int| 0 <= i < parts.len() && mentions(#[trigger] parts[i], n) {
            let i = choose|i: int| 0 <= i < parts.len() && mentions(#[trigger] parts[i], n);
            if i < front.len() {
                assert(mentions(front[i], n));
            }
        }
        assert(mentions(parts.last(), n) ==> mentions(parts[parts.len() - 1], n));
    } else {
        assert(mentions(parts[0], n) <==> mentions(joined(parts, sep), n));
    }
}

/// What stands before a part of joined texts.
pub open spec fn joined_before(parts: Seq<Seq<char>>, sep: Seq<char>) -> Seq<char> {
    if parts.len() == 0 {
        Seq::empty()
    } else {
        joined(parts, sep) + sep
    }
}

/// Joined texts are what stands before one of them, that one, and the rest.
pub proof fn joined_at(parts: Seq<Seq<char>>, sep: Seq<char>, i: int) -> (rest: Seq<char>)
    requires
        0 <= i < parts.len(),
    ensures
        joined(parts, sep) == joined_before(parts.take(i), sep) + parts[i] + rest,
    decreases parts.len(),
{
    let front = parts.drop_last();
    if i == parts.len() - 1 {
        assert(parts.take(i) =~= front);
        assert(joined(parts, sep) =~= joined_before(front, sep) + parts[i] + Seq::<char>::empty());
        Seq::empty()
    } else {
        let rest = joined_at(front, sep, i);
        assert(front.take(i) =~= parts.take(i));
        let more = rest + sep + parts.last();
        assert(joined(parts, sep) =~= joined_before(parts.take(i), sep) + parts[i] + more);
        more
    }
}

} // verus!
