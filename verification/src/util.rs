//! Reading the raw argument vector, and writing a duration.

use vstd::prelude::*;
use vstd::string::StringExecFns;
use crate::error::{Fault, OffloadError};
use crate::numeral::{decimal, decimal3, push_decimal, push_decimal3};
use crate::text::{
    chars_of, copy_range, copy_texts, count_char, first_index, first_where, lemma_first_index_is,
    lemma_first_where_is, push_char, text_between, text_eq, texts,
};

verus! {

/// Whether an argument selects a toolchain: it begins with a plus sign.
pub open spec fn is_selector(arg: Seq<char>) -> bool {
    arg.len() > 0 && arg[0] == '+'
}

/// A string without its leading plus signs.
pub open spec fn without_plus(s: Seq<char>) -> Seq<char>
    decreases s.len(),
{
    if s.len() > 0 && s[0] == '+' {
        without_plus(s.drop_first())
    } else {
        s
    }
}

/// The toolchain that the first selector among `args` names, if there is one.
pub open spec fn selected_toolchain(args: Seq<Seq<char>>) -> Option<Seq<char>> {
    let at = first_where(args, |a: Seq<char>| is_selector(a));
    if at < args.len() {
        Some(without_plus(args[at]))
    } else {
        None
    }
}

/// The arguments without their first selector.
pub open spec fn without_selector(args: Seq<Seq<char>>) -> Seq<Seq<char>> {
    let at = first_where(args, |a: Seq<char>| is_selector(a));
    if at < args.len() {
        args.remove(at)
    } else {
        args
    }
}

/// The arguments in front of the first `--`, or all of them without one.
pub open spec fn build_part(args: Seq<Seq<char>>) -> Seq<Seq<char>> {
    args.take(first_where(args, |a: Seq<char>| a == "--"@))
}

/// The arguments behind the first `--`; none without one.
pub open spec fn run_part(args: Seq<Seq<char>>) -> Seq<Seq<char>> {
    let at = first_where(args, |a: Seq<char>| a == "--"@);
    if at < args.len() {
        args.skip(at + 1)
    } else {
        Seq::empty()
    }
}

/// The string of `chars` without its leading plus signs.
fn strip_plus(chars: &Vec<char>) -> (r: String)
    ensures
        r@ == without_plus(chars@),
{
    let mut i: usize = 0;
    assert(chars@.skip(0) =~= chars@);
    while i < chars.len() && chars[i] == '+'
        invariant
            i <= chars.len(),
            without_plus(chars@) == without_plus(chars@.skip(i as int)),
        decreases chars.len() - i,
    {
        assert(chars@.skip(i as int).drop_first() =~= chars@.skip(i + 1));
        i += 1;
    }
    assert(chars@.skip(i as int) =~= chars@.subrange(i as int, chars.len() as int));
    text_between(chars, i, chars.len())
}

/// Takes the first `+toolchain` token out of the raw argument vector. Gives
/// the toolchain it names and the arguments that are left, in order.
pub fn parse_cargo_style_args(raw_args: Vec<String>) -> (r: (Option<String>, Vec<String>))
    ensures
        match selected_toolchain(texts(raw_args@)) {
            Some(t) => r.0 matches Some(found) && found@ == t,
            None => r.0 is None,
        },
        texts(r.1@) == without_selector(texts(raw_args@)),
{
    let ghost all = texts(raw_args@);
    let ghost pred = |a: Seq<char>| is_selector(a);
    let mut i: usize = 0;
    while i < raw_args.len()
        invariant
            i <= raw_args.len(),
            all == texts(raw_args@),
            pred == |a: Seq<char>| is_selector(a),
            forall|j: int| 0 <= j < i ==> !pred(#[trigger] all[j]),
        decreases raw_args.len() - i,
    {
        let chars = chars_of(raw_args[i].as_str());
        if chars.len() > 0 && chars[0] == '+' {
            proof {
                assert(pred(all[i as int]));
                lemma_first_where_is(all, pred, i as int);
            }
            let toolchain = strip_plus(&chars);
            let mut rest = copy_range(raw_args.as_slice(), 0, i);
            let mut tail = copy_range(raw_args.as_slice(), i + 1, raw_args.len());
            let ghost head = rest@;
            let ghost back = tail@;
            rest.append(&mut tail);
            assert(texts(rest@) =~= texts(head) + texts(back));
            assert(texts(rest@) =~= all.remove(i as int));
            return (Some(toolchain), rest);
        }
        assert(!pred(all[i as int]));
        i += 1;
    }
    proof {
        lemma_first_where_is(all, pred, raw_args.len() as int);
    }
    (None, raw_args)
}

/// Splits the arguments at the first `--`: what stands before it is for the
/// build, what stands behind it for the program that is run.
pub fn separate_run_args_from_raw(raw_args: &[String]) -> (r: (Vec<String>, Vec<String>))
    ensures
        texts(r.0@) == build_part(texts(raw_args@)),
        texts(r.1@) == run_part(texts(raw_args@)),
{
    let ghost all = texts(raw_args@);
    let ghost pred = |a: Seq<char>| a == "--"@;
    let mut i: usize = 0;
    while i < raw_args.len()
        invariant
            i <= raw_args.len(),
            all == texts(raw_args@),
            pred == |a: Seq<char>| a == "--"@,
            forall|j: int| 0 <= j < i ==> !pred(#[trigger] all[j]),
        decreases raw_args.len() - i,
    {
        if text_eq(raw_args[i].as_str(), "--") {
            proof {
                assert(pred(all[i as int]));
                lemma_first_where_is(all, pred, i as int);
            }
            let build = copy_range(raw_args, 0, i);
            let run = copy_range(raw_args, i + 1, raw_args.len());
            return (build, run);
        }
        assert(!pred(all[i as int]));
        i += 1;
    }
    proof {
        lemma_first_where_is(all, pred, raw_args.len() as int);
        assert(all.take(raw_args.len() as int) =~= all);
    }
    (copy_texts(raw_args), Vec::new())
}

/// Whether an argument begins with two dashes.
pub open spec fn is_long_flag(arg: Seq<char>) -> bool {
    arg.len() >= 2 && arg[0] == '-' && arg[1] == '-'
}

/// What the argument `arg`, with `next` behind it, says about the flag
/// `name`: nothing (`None`), a value, or a failure.
///
/// `--name=value` gives `value`, whenever what follows the dashes holds
/// exactly one equals sign. `--name` gives `next`, unless `next` begins with a
/// dash: that is refused as a missing value.
pub open spec fn flag_at(arg: Seq<char>, next: Seq<char>, name: Seq<char>) -> Option<
    Result<Seq<char>, Fault>,
> {
    if !is_long_flag(arg) {
        None
    } else {
        let body = arg.skip(2);
        if count_char(body, '=') == 1 {
            let eq = first_index(body, '=');
            if body.take(eq) == name {
                Some(Ok(body.skip(eq + 1)))
            } else {
                None
            }
        } else if body == name {
            if next.len() > 0 && next[0] == '-' {
                Some(Err(Fault::InvalidArgument { flag: body, value: next }))
            } else {
                Some(Ok(next))
            }
        } else {
            None
        }
    }
}

/// The value of the flag `name` among `args[from..]`. The last argument is
/// never looked at as a flag: nothing stands behind it.
pub open spec fn flag_from(args: Seq<Seq<char>>, name: Seq<char>, from: int) -> Result<
    Option<Seq<char>>,
    Fault,
>
    decreases args.len() - from,
{
    if from < 0 || from + 1 >= args.len() {
        Ok(None)
    } else {
        match flag_at(args[from], args[from + 1], name) {
            Some(Ok(v)) => Ok(Some(v)),
            Some(Err(e)) => Err(e),
            None => flag_from(args, name, from + 1),
        }
    }
}

/// The value of the flag `name` among `args`.
pub open spec fn flag_value(args: Seq<Seq<char>>, name: Seq<char>) -> Result<
    Option<Seq<char>>,
    Fault,
> {
    flag_from(args, name, 0)
}

/// Whether `chars[from..to]` equals `other`.
fn range_eq(chars: &Vec<char>, from: usize, to: usize, other: &Vec<char>) -> (r: bool)
    requires
        from <= to <= chars.len(),
    ensures
        r == (chars@.subrange(from as int, to as int) == other@),
{
    let ghost part = chars@.subrange(from as int, to as int);
    if to - from != other.len() {
        return false;
    }
    let mut i: usize = 0;
    while i < other.len()
        invariant
            i <= other.len(),
            from <= to <= chars.len(),
            to - from == other.len(),
            part == chars@.subrange(from as int, to as int),
            forall|j: int| 0 <= j < i ==> part[j] == other@[j],
        decreases other.len() - i,
    {
        if chars[from + i] != other[i] {
            assert(part[i as int] != other@[i as int]);
            return false;
        }
        i += 1;
    }
    assert(part =~= other@);
    true
}

/// What one argument, with its successor, says about the flag `name`.
fn inspect_flag(arg: &str, next: &String, name: &Vec<char>) -> (r: Option<
    Result<String, OffloadError>,
>)
    ensures
        match flag_at(arg@, next@, name@) {
            Some(Ok(v)) => r matches Some(Ok(s)) && s@ == v,
            Some(Err(f)) => r matches Some(Err(e)) && e@ == f,
            None => r is None,
        },
{
    let chars = chars_of(arg);
    if !(chars.len() >= 2 && chars[0] == '-' && chars[1] == '-') {
        return None;
    }
    let ghost body = chars@.skip(2);
    let mut count: usize = 0;
    let mut first: usize = chars.len();
    let mut i: usize = 2;
    while i < chars.len()
        invariant
            2 <= i <= chars.len(),
            body == chars@.skip(2),
            count == count_char(body.take(i - 2), '='),
            count <= i - 2,
            count == 0 ==> first == chars.len(),
            count > 0 ==> 2 <= first < i && chars@[first as int] == '=',
            forall|j: int| 2 <= j < i && j < first ==> chars@[j] != '=',
        decreases chars.len() - i,
    {
        let ghost seen = body.take(i - 2);
        let ghost next_seen = body.take(i - 1);
        assert(next_seen.drop_last() =~= seen);
        assert(next_seen.last() == chars@[i as int]);
        if chars[i] == '=' {
            if count == 0 {
                first = i;
            }
            count += 1;
        }
        i += 1;
    }
    assert(body.take(chars.len() - 2) =~= body);
    if count == 1 {
        proof {
            assert forall|j: int| 0 <= j < first - 2 implies body[j] != '=' by {
                assert(body[j] == chars@[j + 2]);
            }
            lemma_first_index_is(body, '=', first - 2);
            assert(body.take(first - 2) =~= chars@.subrange(2, first as int));
            assert(body.skip(first - 1) =~= chars@.subrange(first + 1, chars.len() as int));
        }
        if range_eq(&chars, 2, first, name) {
            Some(Ok(text_between(&chars, first + 1, chars.len())))
        } else {
            None
        }
    } else {
        assert(body =~= chars@.subrange(2, chars.len() as int));
        if range_eq(&chars, 2, chars.len(), name) {
            let value = chars_of(next.as_str());
            if value.len() > 0 && value[0] == '-' {
                Some(
                    Err(
                        OffloadError::InvalidArgument {
                            flag: text_between(&chars, 2, chars.len()),
                            value: next.clone(),
                        },
                    ),
                )
            } else {
                Some(Ok(next.clone()))
            }
        } else {
            None
        }
    }
}

/// Looks for the flag `arg` among `args`, written `--arg value` or
/// `--arg=value`, and gives its value. The first argument that speaks of the
/// flag decides.
pub fn parse_flag(args: &[String], arg: &str) -> (r: Result<Option<String>, OffloadError>)
    ensures
        match flag_value(texts(args@), arg@) {
            Ok(Some(v)) => r matches Ok(Some(s)) && s@ == v,
            Ok(None) => r matches Ok(None),
            Err(f) => r matches Err(e) && e@ == f,
        },
{
    let ghost all = texts(args@);
    let name = chars_of(arg);
    let mut i: usize = 0;
    while i < args.len() && i + 1 < args.len()
        invariant
            i <= args.len(),
            all == texts(args@),
            name@ == arg@,
            flag_value(all, arg@) == flag_from(all, arg@, i as int),
        decreases args.len() - i,
    {
        match inspect_flag(args[i].as_str(), &args[i + 1], &name) {
            Some(Ok(v)) => {
                return Ok(Some(v));
            },
            Some(Err(e)) => {
                return Err(e);
            },
            None => {},
        }
        i += 1;
    }
    Ok(None)
}

/// The text of a duration of `secs` whole seconds and `millis` milliseconds:
/// minutes, when there are any, then seconds with three decimal places.
pub open spec fn elapsed_text(secs: nat, millis: nat) -> Seq<char> {
    let tail = decimal(secs % 60) + seq!['.'] + decimal3(millis) + seq!['s'];
    if secs / 60 > 0 {
        decimal(secs / 60) + seq!['m', ' '] + tail
    } else {
        tail
    }
}

/// The text of a duration of `secs` whole seconds and `millis` milliseconds
/// beyond them, such as `2m 5.030s` or `0.250s`.
pub fn format_duration(secs: u64, millis: u32) -> (r: String)
    ensures
        r@ == elapsed_text(secs as nat, millis as nat),
{
    let minutes = secs / 60;
    let seconds = secs % 60;
    let mut out = String::new();
    if minutes > 0 {
        push_decimal(&mut out, minutes);
        push_char(&mut out, 'm');
        push_char(&mut out, ' ');
    }
    push_decimal(&mut out, seconds);
    push_char(&mut out, '.');
    push_decimal3(&mut out, millis as u64);
    push_char(&mut out, 's');
    assert(out@ =~= elapsed_text(secs as nat, millis as nat));
    out
}

} // verus!
