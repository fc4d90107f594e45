//! Format strings with open input slots, and what they write once the slots
//! are known.
//!
//! In a format string `{}` stands for the next argument, written as a
//! decimal numeral; `{{` and `}}` stand for one brace each; every other
//! character stands for itself. A brace that is neither doubled nor part of
//! `{}` makes the string malformed.

use vstd::prelude::*;
use crate::text::decimal;
use crate::text::digit_char;
use crate::text::push_decimal;

verus! {

/// Whether a character is a brace.
pub open spec fn is_brace(c: char) -> bool {
    c == '{' || c == '}'
}

/// Whether a text holds no brace.
pub open spec fn brace_free(s: Seq<char>) -> bool {
    forall|i: int| 0 <= i < s.len() ==> !is_brace(#[trigger] s[i])
}

/// Whether a format string starts with a pair of braces that stands for
/// something: `{}`, `{{` or `}}`.
pub open spec fn starts_with_pair(format: Seq<char>) -> bool {
    format.len() >= 2 && is_brace(format[0]) && (format[1] == format[0] || (format[0] == '{'
        && format[1] == '}'))
}

/// Whether a format string is well formed.
pub open spec fn closed(format: Seq<char>) -> bool
    decreases format.len(),
{
    if format.len() == 0 {
        true
    } else if is_brace(format[0]) {
        starts_with_pair(format) && closed(format.skip(2))
    } else {
        closed(format.skip(1))
    }
}

/// The number of arguments that a well-formed format string takes.
pub open spec fn holes(format: Seq<char>) -> nat
    decreases format.len(),
{
    if format.len() == 0 {
        0
    } else if starts_with_pair(format) {
        holes(format.skip(2)) + if format[1] == format[0] {
            0nat
        } else {
            1nat
        }
    } else {
        holes(format.skip(1))
    }
}

/// What a well-formed format string writes for its arguments.
pub open spec fn resolved(format: Seq<char>, args: Seq<u32>) -> Seq<char>
    decreases format.len(),
{
    if format.len() == 0 {
        Seq::empty()
    } else if starts_with_pair(format) {
        if format[1] == format[0] {
            seq![format[0]] + resolved(format.skip(2), args)
        } else if args.len() > 0 {
            decimal(args[0] as nat) + resolved(format.skip(2), args.skip(1))
        } else {
            resolved(format.skip(2), args)
        }
    } else {
        seq![format[0]] + resolved(format.skip(1), args)
    }
}

/// A text without braces is a well-formed format string that takes no
/// argument and writes itself.
pub proof fn lemma_brace_free(text: Seq<char>, args: Seq<u32>)
    requires
        brace_free(text),
    ensures
        closed(text),
        holes(text) == 0,
        resolved(text, args) == text,
    decreases text.len(),
{
    if text.len() > 0 {
        let rest = text.skip(1);
        assert forall|i: int| 0 <= i < rest.len() implies !is_brace(#[trigger] rest[i]) by {
            assert(rest[i] == text[i + 1]);
        }
        lemma_brace_free(rest, args);
        assert(!is_brace(text[0]));
        assert(seq![text[0]] + rest =~= text);
    }
}

/// Two well-formed format strings, one after the other, are well formed;
/// they take the arguments of the first and then those of the second, and
/// write what the first writes and then what the second writes.
pub proof fn lemma_resolved_concat(
    first: Seq<char>,
    second: Seq<char>,
    first_args: Seq<u32>,
    second_args: Seq<u32>,
)
    requires
        closed(first),
        holes(first) == first_args.len(),
    ensures
        closed(first + second) == closed(second),
        holes(first + second) == holes(first) + holes(second),
        resolved(first + second, first_args + second_args) == resolved(first, first_args)
            + resolved(second, second_args),
    decreases first.len(),
{
    let both = first + second;
    if first.len() == 0 {
        assert(both =~= second);
        assert(first_args + second_args =~= second_args);
        assert(resolved(first, first_args) + resolved(second, second_args) =~= resolved(
            second,
            second_args,
        ));
    } else if is_brace(first[0]) {
        assert(starts_with_pair(first));
        assert(both[0] == first[0] && both[1] == first[1]);
        assert(starts_with_pair(both));
        assert(both.skip(2) =~= first.skip(2) + second);
        if first[1] == first[0] {
            lemma_resolved_concat(first.skip(2), second, first_args, second_args);
            assert(resolved(both, first_args + second_args) =~= resolved(first, first_args)
                + resolved(second, second_args));
        } else {
            assert(first_args.len() > 0);
            lemma_resolved_concat(first.skip(2), second, first_args.skip(1), second_args);
            assert((first_args + second_args).skip(1) =~= first_args.skip(1) + second_args);
            assert((first_args + second_args)[0] == first_args[0]);
            assert(resolved(both, first_args + second_args) =~= resolved(first, first_args)
                + resolved(second, second_args));
        }
    } else {
        assert(both[0] == first[0]);
        assert(!starts_with_pair(first));
        assert(!starts_with_pair(both));
        assert(both.skip(1) =~= first.skip(1) + second);
        lemma_resolved_concat(first.skip(1), second, first_args, second_args);
        assert(resolved(both, first_args + second_args) =~= resolved(first, first_args)
            + resolved(second, second_args));
    }
}

/// A text of at most twelve characters holds no brace if none of its
/// characters is one.
pub proof fn lemma_short_text(text: Seq<char>)
    requires
        text.len() <= 12,
        text.len() > 0 ==> !is_brace(text[0]),
        text.len() > 1 ==> !is_brace(text[1]),
        text.len() > 2 ==> !is_brace(text[2]),
        text.len() > 3 ==> !is_brace(text[3]),
        text.len() > 4 ==> !is_brace(text[4]),
        text.len() > 5 ==> !is_brace(text[5]),
        text.len() > 6 ==> !is_brace(text[6]),
        text.len() > 7 ==> !is_brace(text[7]),
        text.len() > 8 ==> !is_brace(text[8]),
        text.len() > 9 ==> !is_brace(text[9]),
        text.len() > 10 ==> !is_brace(text[10]),
        text.len() > 11 ==> !is_brace(text[11]),
    ensures
        brace_free(text),
{
    assert forall|i: int| 0 <= i < text.len() implies !is_brace(#[trigger] text[i]) by {
        if i == 0 {
        } else if i == 1 {
        } else if i == 2 {
        } else if i == 3 {
        } else if i == 4 {
        } else if i == 5 {
        } else if i == 6 {
        } else if i == 7 {
        } else if i == 8 {
        } else if i == 9 {
        } else if i == 10 {
        } else {
        }
    }
}

/// No decimal numeral holds a brace.
pub proof fn lemma_decimal_brace_free(n: nat)
    ensures
        brace_free(decimal(n)),
    decreases n,
{
    if n >= 10 {
        lemma_decimal_brace_free(n / 10);
        assert(!is_brace(digit_char(n % 10)));
    } else {
        assert(!is_brace(digit_char(n)));
    }
}

/// Writes what a format string writes for its arguments, or nothing if the
/// string is malformed or takes another number of arguments.
pub fn resolve(format: &str, args: &Vec<u32>) -> (r: Option<String>)
    ensures
        r is Some <==> closed(format@) && holes(format@) == args@.len(),
        r matches Some(text) ==> text@ == resolved(format@, args@),
{
    let n = format.unicode_len();
    let mut out = String::new();
    let mut i: usize = 0;
    let mut k: usize = 0;
    assert(format@.skip(0) =~= format@);
    assert(args@.skip(0) =~= args@);
    while i < n
        invariant
            i <= n,
            n == format@.len(),
            k <= args@.len(),
            closed(format@) == closed(format@.skip(i as int)),
            closed(format@.skip(i as int)) ==> holes(format@) == k + holes(format@.skip(i as int)),
            resolved(format@, args@) == out@ + resolved(
                format@.skip(i as int),
                args@.skip(k as int),
            ),
        decreases n - i,
    {
        let ghost rest = format@.skip(i as int);
        let ghost rest_args = args@.skip(k as int);
        let c = format.get_char(i);
        assert(rest[0] == c);
        if c == '{' || c == '}' {
            if i + 1 >= n {
                assert(!starts_with_pair(rest));
                return None;
            }
            let d = format.get_char(i + 1);
            assert(rest[1] == d);
            if d == c {
                out.append(format.substring_char(i, i + 1));
                assert(format@.subrange(i as int, i + 1) =~= seq![c]);
                assert(rest.skip(2) =~= format@.skip(i + 2));
                i = i + 2;
            } else if c == '{' && d == '}' {
                assert(rest.skip(2) =~= format@.skip(i + 2));
                if k >= args.len() {
                    return None;
                }
                assert(rest_args[0] == args@[k as int]);
                assert(rest_args.skip(1) =~= args@.skip(k + 1));
                push_decimal(&mut out, args[k] as usize);
                k = k + 1;
                i = i + 2;
            } else {
                assert(!starts_with_pair(rest));
                return None;
            }
        } else {
            out.append(format.substring_char(i, i + 1));
            assert(format@.subrange(i as int, i + 1) =~= seq![c]);
            assert(rest.skip(1) =~= format@.skip(i + 1));
            i = i + 1;
        }
    }
    assert(format@.skip(i as int) =~= Seq::<char>::empty());
    if k != args.len() {
        return None;
    }
    assert(args@.skip(k as int) =~= Seq::<u32>::empty());
    assert(out@ + Seq::<char>::empty() =~= out@);
    Some(out)
}

/// A well-formed format string followed by a text without braces is well
/// formed, takes the same arguments, and writes the text behind what it
/// wrote.
pub proof fn lemma_append_brace_free(format: Seq<char>, text: Seq<char>, args: Seq<u32>)
    requires
        closed(format),
        holes(format) == args.len(),
        brace_free(text),
    ensures
        closed(format + text),
        holes(format + text) == args.len(),
        resolved(format + text, args) == resolved(format, args) + text,
{
    lemma_brace_free(text, Seq::empty());
    lemma_resolved_concat(format, text, args, Seq::empty());
    assert(args + Seq::<u32>::empty() =~= args);
}

/// The placeholder takes one argument and writes its numeral; a doubled
/// brace takes none and writes one brace.
pub proof fn lemma_pairs(location: u32)
    ensures
        closed("{}"@) && holes("{}"@) == 1,
        resolved("{}"@, seq![location]) == decimal(location as nat),
        closed("{{"@) && holes("{{"@) == 0,
        resolved("{{"@, Seq::empty()) == "{"@,
        closed("}}"@) && holes("}}"@) == 0,
        resolved("}}"@, Seq::empty()) == "}"@,
{
    reveal_strlit("{}");
    reveal_strlit("{{");
    reveal_strlit("}}");
    reveal_strlit("{");
    reveal_strlit("}");
    let hole = "{}"@;
    let open = "{{"@;
    let close = "}}"@;
    assert(hole.skip(2) =~= Seq::<char>::empty());
    assert(open.skip(2) =~= Seq::<char>::empty());
    assert(close.skip(2) =~= Seq::<char>::empty());
    assert(starts_with_pair(hole) && hole[1] != hole[0]);
    assert(starts_with_pair(open) && open[1] == open[0]);
    assert(starts_with_pair(close) && close[1] == close[0]);
    assert(closed(hole.skip(2)) && closed(open.skip(2)) && closed(close.skip(2)));
    assert(holes(hole.skip(2)) == 0);
    assert(seq![location].skip(1) =~= Seq::<u32>::empty());
    let args = seq![location];
    assert(args.len() == 1 && args[0] == location);
    assert(hole.skip(2).len() == 0);
    assert(resolved(hole.skip(2), args.skip(1)) =~= Seq::<char>::empty());
    assert(resolved(hole, args) == decimal(args[0] as nat) + resolved(
        hole.skip(2),
        args.skip(1),
    ));
    assert(resolved(hole, seq![location]) =~= decimal(location as nat));
    assert(resolved(open, Seq::empty()) =~= "{"@);
    assert(resolved(close, Seq::empty()) =~= "}"@);
}

} // verus!
