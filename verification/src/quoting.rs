//! Environment assignments on the remote command line: which values are
//! quoted, how, and the proof that the remote shell reads a quoted value
//! back as it was.

use vstd::prelude::*;
use vstd::string::StringExecFns;
use crate::text::{
    char_is_whitespace, chars_of, find_char, first_index, is_whitespace, join, lemma_first_index,
    lemma_first_index_is, opt_string, push_char, text_between, texts,
};

verus! {

// What is written

/// A character that forces the value around it into quotes.
pub open spec fn forces_quotes(c: char) -> bool {
    is_whitespace(c) || c == '"' || c == '\'' || c == '$' || c == '&' || c == '|'
}

/// Whether a value has to be quoted.
pub open spec fn needs_quoting(value: Seq<char>) -> bool {
    exists|i: int| 0 <= i < value.len() && forces_quotes(#[trigger] value[i])
}

/// What one character of a value becomes between single quotes: a single
/// quote closes the quotes, stands escaped, and opens them again.
pub open spec fn escaped_char(c: char) -> Seq<char> {
    if c == '\'' {
        seq!['\'', '\\', '\'', '\'']
    } else {
        seq![c]
    }
}

/// A value with each of its single quotes escaped.
pub open spec fn escaped(value: Seq<char>) -> Seq<char>
    decreases value.len(),
{
    if value.len() == 0 {
        Seq::empty()
    } else {
        escaped(value.drop_last()) + escaped_char(value.last())
    }
}

/// A value between single quotes.
pub open spec fn quoted(value: Seq<char>) -> Seq<char> {
    seq!['\''] + escaped(value) + seq!['\'']
}

/// An environment assignment as it is written on the remote command line:
/// `NAME=VALUE` with `VALUE` quoted where it has to be, and anything without
/// an equals sign as it is.
pub open spec fn quoted_assignment(var: Seq<char>) -> Seq<char> {
    let eq = first_index(var, '=');
    if eq < var.len() && needs_quoting(var.skip(eq + 1)) {
        var.take(eq + 1) + quoted(var.skip(eq + 1))
    } else {
        var
    }
}

/// The assignments in front of the remote command: each quoted, joined by
/// spaces and followed by one; nothing at all when there are none.
pub open spec fn env_prefix(vars: Seq<Seq<char>>) -> Seq<char> {
    if vars.len() == 0 {
        Seq::empty()
    } else {
        join(vars.map_values(|v: Seq<char>| quoted_assignment(v)), seq![' ']) + seq![' ']
    }
}

// Writing it

/// Whether `c` forces the value around it into quotes.
pub fn char_forces_quotes(c: char) -> (r: bool)
    ensures
        r == forces_quotes(c),
{
    char_is_whitespace(c) || c == '"' || c == '\'' || c == '$' || c == '&' || c == '|'
}

/// One environment assignment as it is written on the remote command line.
pub fn quote_assignment(var: &str) -> (r: String)
    ensures
        r@ == quoted_assignment(var@),
{
    let chars = chars_of(var);
    let eq = match find_char(&chars, '=') {
        Some(eq) => eq,
        None => {
            return text_between(&chars, 0, chars.len());
        },
    };
    let ghost value = chars@.skip(eq + 1);
    let mut needs = false;
    let mut i: usize = eq + 1;
    while i < chars.len()
        invariant
            eq < i <= chars.len(),
            value == chars@.skip(eq + 1),
            needs == needs_quoting(value.take(i - eq - 1)),
        decreases chars.len() - i,
    {
        let ghost seen = value.take(i - eq - 1);
        let ghost next = value.take(i - eq);
        let hit = char_forces_quotes(chars[i]);
        assert(next.len() == seen.len() + 1);
        assert(next[i - eq - 1] == chars@[i as int]);
        assert(needs_quoting(next) == (needs_quoting(seen) || hit)) by {
            if needs_quoting(seen) {
                let k = choose|k: int| 0 <= k < seen.len() && forces_quotes(#[trigger] seen[k]);
                assert(forces_quotes(next[k]));
            }
            if hit {
                assert(forces_quotes(next[i - eq - 1]));
            }
            if needs_quoting(next) {
                let k = choose|k: int| 0 <= k < next.len() && forces_quotes(#[trigger] next[k]);
                if k < seen.len() {
                    assert(forces_quotes(seen[k]));
                }
            }
        }
        needs = needs || hit;
        i += 1;
    }
    assert(value.take(chars.len() - eq - 1) =~= value);
    if !needs {
        return text_between(&chars, 0, chars.len());
    }
    let mut out = text_between(&chars, 0, eq + 1);
    let ghost name = out@;
    push_char(&mut out, '\'');
    let mut j: usize = eq + 1;
    while j < chars.len()
        invariant
            eq < j <= chars.len(),
            value == chars@.skip(eq + 1),
            out@ == name + seq!['\''] + escaped(value.take(j - eq - 1)),
        decreases chars.len() - j,
    {
        let ghost seen = value.take(j - eq - 1);
        let ghost next = value.take(j - eq);
        assert(next.drop_last() =~= seen);
        assert(next.last() == chars@[j as int]);
        let c = chars[j];
        if c == '\'' {
            push_char(&mut out, '\'');
            push_char(&mut out, '\\');
            push_char(&mut out, '\'');
            push_char(&mut out, '\'');
        } else {
            push_char(&mut out, c);
        }
        assert(out@ =~= name + seq!['\''] + escaped(next));
        j += 1;
    }
    push_char(&mut out, '\'');
    assert(out@ =~= name + quoted(value));
    out
}

/// The assignments in front of the remote command.
pub fn build_env_prefix(env_vars: &[String]) -> (r: String)
    ensures
        r@ == env_prefix(texts(env_vars@)),
{
    let ghost vars = texts(env_vars@);
    let ghost each = vars.map_values(|v: Seq<char>| quoted_assignment(v));
    let mut out = String::new();
    let mut i: usize = 0;
    while i < env_vars.len()
        invariant
            i <= env_vars.len(),
            vars == texts(env_vars@),
            each == vars.map_values(|v: Seq<char>| quoted_assignment(v)),
            out@ == join(each.take(i as int), seq![' ']),
        decreases env_vars.len() - i,
    {
        let ghost before = each.take(i as int);
        let ghost after = each.take(i + 1);
        assert(after.drop_last() =~= before);
        assert(after.last() == quoted_assignment(vars[i as int]));
        if i > 0 {
            push_char(&mut out, ' ');
        }
        let one = quote_assignment(env_vars[i].as_str());
        out.append(one.as_str());
        assert(out@ =~= join(after, seq![' ']));
        i += 1;
    }
    assert(each.take(env_vars.len() as int) =~= each);
    if env_vars.len() > 0 {
        push_char(&mut out, ' ');
    }
    out
}

// What the shell reads

/// `Some(v, t)` as `Some(v + t)`.
pub open spec fn prepend(head: Seq<char>, tail: Option<Seq<char>>) -> Option<Seq<char>> {
    match tail {
        Some(t) => Some(head + t),
        None => None,
    }
}

/// The single token that a POSIX shell reads from `word`, for words made of
/// single-quoted stretches, backslash-escaped characters and plain
/// characters. `None` where `word` is not one complete token of that kind: a
/// quote is left open, a backslash ends the word, or a blank or another
/// special character stands outside quotes.
pub open spec fn shell_word(word: Seq<char>) -> Option<Seq<char>>
    decreases word.len(),
{
    if word.len() == 0 {
        Some(Seq::empty())
    } else if word[0] == '\'' {
        let rest = word.drop_first();
        let close = first_index(rest, '\'');
        if 0 <= close < rest.len() {
            prepend(rest.take(close), shell_word(rest.skip(close + 1)))
        } else {
            None
        }
    } else if word[0] == '\\' {
        if word.len() >= 2 {
            prepend(seq![word[1]], shell_word(word.skip(2)))
        } else {
            None
        }
    } else if forces_quotes(word[0]) {
        None
    } else {
        prepend(seq![word[0]], shell_word(word.drop_first()))
    }
}

/// Escaping distributes over concatenation.
pub proof fn lemma_escaped_concat(a: Seq<char>, b: Seq<char>)
    ensures
        escaped(a + b) == escaped(a) + escaped(b),
    decreases b.len(),
{
    if b.len() == 0 {
        assert(a + b =~= a);
        assert(escaped(a) + escaped(b) =~= escaped(a));
    } else {
        lemma_escaped_concat(a, b.drop_last());
        assert((a + b).drop_last() =~= a + b.drop_last());
        assert((a + b).last() == b.last());
        assert(escaped(a + b) =~= escaped(a) + escaped(b));
    }
}

/// A value without single quotes is escaped to itself.
pub proof fn lemma_escaped_plain(value: Seq<char>)
    requires
        !value.contains('\''),
    ensures
        escaped(value) == value,
    decreases value.len(),
{
    if value.len() > 0 {
        let front = value.drop_last();
        assert forall|i: int| 0 <= i < front.len() implies front[i] != '\'' by {
            assert(front[i] == value[i]);
            assert(value.contains(value[i]));
        }
        lemma_escaped_plain(front);
        assert(value.contains(value.last()));
        assert(escaped(value) =~= value);
    }
}

/// A single character is escaped to its own escape.
pub proof fn lemma_escaped_one(c: char)
    ensures
        escaped(seq![c]) == escaped_char(c),
{
    let one = seq![c];
    assert(one.drop_last() =~= Seq::<char>::empty());
    assert(escaped(one.drop_last()) =~= Seq::<char>::empty());
    assert(one.last() == c);
    assert(escaped(one) =~= escaped_char(c));
}

/// A value splits at its first single quote, and so does its escaped form.
pub proof fn lemma_escaped_split(value: Seq<char>)
    requires
        first_index(value, '\'') < value.len(),
    ensures
        escaped(value) == value.take(first_index(value, '\'')) + seq!['\'', '\\', '\'', '\'']
            + escaped(value.skip(first_index(value, '\'') + 1)),
{
    let q = first_index(value, '\'');
    lemma_first_index(value, '\'');
    let plain = value.take(q);
    let after = value.skip(q + 1);
    assert forall|i: int| 0 <= i < plain.len() implies plain[i] != '\'' by {
        assert(plain[i] == value[i]);
    }
    lemma_escaped_plain(plain);
    assert(value =~= (plain + seq!['\'']) + after);
    lemma_escaped_concat(plain + seq!['\''], after);
    lemma_escaped_concat(plain, seq!['\'']);
    lemma_escaped_one('\'');
}

/// Reading a word that opens with a quote: up to the next quote the
/// characters are taken as they are.
pub proof fn lemma_read_quoted(plain: Seq<char>, rest: Seq<char>)
    requires
        !plain.contains('\''),
    ensures
        shell_word(seq!['\''] + plain + seq!['\''] + rest) == prepend(plain, shell_word(rest)),
{
    let word = seq!['\''] + plain + seq!['\''] + rest;
    let inner = word.drop_first();
    let q = plain.len() as int;
    assert(word[0] == '\'');
    assert(inner =~= plain + seq!['\''] + rest);
    assert forall|j: int| 0 <= j < q implies inner[j] != '\'' by {
        assert(inner[j] == plain[j]);
        assert(plain.contains(plain[j]));
    }
    assert(inner[q] == '\'');
    lemma_first_index_is(inner, '\'', q);
    assert(inner.take(q) =~= plain);
    assert(inner.skip(q + 1) =~= rest);
}

/// Reading a word that opens with an escaped single quote.
pub proof fn lemma_read_escaped_quote(rest: Seq<char>)
    ensures
        shell_word(seq!['\\', '\''] + rest) == prepend(seq!['\''], shell_word(rest)),
{
    let word = seq!['\\', '\''] + rest;
    assert(word[0] == '\\');
    assert(word[1] == '\'');
    assert(word.skip(2) =~= rest);
}

/// A quoted value at the front of a word is read back as the value, and the
/// reading goes on behind the closing quote.
pub proof fn lemma_quoted_prefix(value: Seq<char>, rest: Seq<char>)
    ensures
        shell_word(quoted(value) + rest) == prepend(value, shell_word(rest)),
    decreases value.len(),
{
    let q = first_index(value, '\'');
    lemma_first_index(value, '\'');
    let plain = value.take(q);
    assert forall|i: int| 0 <= i < plain.len() implies plain[i] != '\'' by {
        assert(plain[i] == value[i]);
    }
    if q == value.len() {
        assert(plain =~= value);
        lemma_escaped_plain(value);
        assert(quoted(value) + rest =~= seq!['\''] + value + seq!['\''] + rest);
        lemma_read_quoted(value, rest);
    } else {
        let after = value.skip(q + 1);
        lemma_escaped_split(value);
        let tail = quoted(after) + rest;
        let escape = seq!['\\', '\''] + tail;
        assert(quoted(value) + rest =~= seq!['\''] + plain + seq!['\''] + escape);
        lemma_read_quoted(plain, escape);
        lemma_read_escaped_quote(tail);
        lemma_quoted_prefix(after, rest);
        match shell_word(rest) {
            Some(t) => {
                assert(plain + (seq!['\''] + (after + t)) =~= value + t);
            },
            None => {},
        }
    }
}

/// Reading on after a piece that is read already.
pub proof fn lemma_prepend_twice(a: Seq<char>, b: Seq<char>, tail: Option<Seq<char>>)
    ensures
        prepend(a, prepend(b, tail)) == prepend(a + b, tail),
{
    match tail {
        Some(t) => {
            assert(a + (b + t) =~= (a + b) + t);
        },
        None => {},
    }
}

/// Reads `word` as the remote shell does: the token that it stands for, or
/// nothing where it is not one complete token.
pub fn read_shell_word(word: &str) -> (r: Option<String>)
    ensures
        opt_string(r) == shell_word(word@),
{
    let chars = chars_of(word);
    let mut out = String::new();
    let mut i: usize = 0;
    proof {
        assert(chars@.skip(0) =~= chars@);
        if let Some(t) = shell_word(chars@) {
            assert(Seq::<char>::empty() + t =~= t);
        }
    }
    while i < chars.len()
        invariant
            i <= chars.len(),
            chars@ == word@,
            shell_word(chars@) == prepend(out@, shell_word(chars@.skip(i as int))),
        decreases chars.len() - i,
    {
        let ghost rest = chars@.skip(i as int);
        let ghost read = out@;
        let c = chars[i];
        assert(rest[0] == c);
        if c == '\'' {
            let ghost inner = rest.drop_first();
            assert(inner =~= chars@.skip(i + 1));
            let mut j: usize = i + 1;
            while j < chars.len() && chars[j] != '\''
                invariant
                    i < j <= chars.len(),
                    inner == chars@.skip(i + 1),
                    out@ == read + inner.take(j - i - 1),
                    forall|k: int| 0 <= k < j - i - 1 ==> inner[k] != '\'',
                decreases chars.len() - j,
            {
                push_char(&mut out, chars[j]);
                assert(inner.take(j - i) =~= inner.take(j - i - 1).push(chars@[j as int]));
                j += 1;
            }
            proof {
                lemma_first_index_is(inner, '\'', j - i - 1);
            }
            if j == chars.len() {
                return None;
            }
            proof {
                assert(inner.skip(j - i) =~= chars@.skip(j + 1));
                lemma_prepend_twice(read, inner.take(j - i - 1), shell_word(chars@.skip(j + 1)));
            }
            i = j + 1;
        } else if c == '\\' {
            if i + 1 >= chars.len() {
                return None;
            }
            push_char(&mut out, chars[i + 1]);
            proof {
                assert(rest[1] == chars@[i + 1]);
                assert(rest.skip(2) =~= chars@.skip(i + 2));
                lemma_prepend_twice(read, seq![rest[1]], shell_word(chars@.skip(i + 2)));
                assert(read + seq![rest[1]] =~= read.push(rest[1]));
            }
            i += 2;
        } else if char_forces_quotes(c) {
            return None;
        } else {
            push_char(&mut out, c);
            proof {
                assert(rest.drop_first() =~= chars@.skip(i + 1));
                lemma_prepend_twice(read, seq![c], shell_word(chars@.skip(i + 1)));
                assert(read + seq![c] =~= read.push(c));
            }
            i += 1;
        }
    }
    proof {
        assert(chars@.skip(chars.len() as int) =~= Seq::<char>::empty());
        assert(out@ + Seq::<char>::empty() =~= out@);
    }
    Some(out)
}

/// The quoted form of a value reaches the remote command as that value, in
/// one token.
pub proof fn law_quoted_value_round_trips(value: Seq<char>)
    ensures
        shell_word(quoted(value)) == Some(value),
{
    lemma_quoted_prefix(value, Seq::empty());
    assert(quoted(value) + Seq::<char>::empty() =~= quoted(value));
    assert(value + Seq::<char>::empty() =~= value);
}

/// An assignment whose value holds a blank or one of `" ' $ & |` is written
/// as its name, the equals sign and the quoted value, which the shell reads
/// back as the value.
pub proof fn law_assignment_round_trips(name: Seq<char>, value: Seq<char>)
    requires
        !name.contains('='),
        needs_quoting(value),
    ensures
        quoted_assignment(name + seq!['='] + value) == name + seq!['='] + quoted(value),
        shell_word(quoted(value)) == Some(value),
{
    let var = name + seq!['='] + value;
    let eq = name.len() as int;
    assert forall|j: int| 0 <= j < eq implies var[j] != '=' by {
        assert(var[j] == name[j]);
        assert(name.contains(name[j]));
    }
    lemma_first_index_is(var, '=', eq);
    assert(var.skip(eq + 1) =~= value);
    assert(var.take(eq + 1) =~= name + seq!['=']);
    law_quoted_value_round_trips(value);
}

} // verus!
