//! Which toolchain to ask the remote machine for.
//!
//! The sources, in order of precedence: what the user named with a
//! `+toolchain` argument, what the local build tool reports as its version,
//! the channel of a structured toolchain file, and a plain-text toolchain
//! file. A source that is absent or cannot be read passes the question on to
//! the next.

use vstd::prelude::*;
use vstd::string::StringExecFns;
use crate::text::{
    after_first_word, chars_of, first_word, lemma_word_len, opt_str, opt_string, skip_whitespace,
    skip_word, text_between, text_eq, trim, trimmed,
};

verus! {

/// `toml::Value`, a value of a TOML document: a string, a table of values by
/// key, or something else. Nothing is known of what is inside one but
/// through the functions below.
#[verifier::external_type_specification]
#[verifier::external_body]
pub struct ExTomlValue(toml::Value);

/// The strings that a TOML value holds, each under the path of table keys
/// that leads to it. A string value holds itself under the empty path; a
/// table holds what its entries hold, each path lengthened at the front by
/// the entry's key; any other value holds nothing.
pub uninterp spec fn value_strings(value: toml::Value) -> Map<Seq<Seq<char>>, Seq<char>>;

/// The strings of the TOML document that `text` is written as, or `None`
/// where `text` is no TOML document.
pub uninterp spec fn document_strings(text: Seq<char>) -> Option<Map<Seq<Seq<char>>, Seq<char>>>;

/// The strings that `strings` holds under paths that begin with `key`, each
/// under the rest of its path.
pub open spec fn strings_under(strings: Map<Seq<Seq<char>>, Seq<char>>, key: Seq<char>) -> Map<
    Seq<Seq<char>>,
    Seq<char>,
> {
    Map::new(
        |path: Seq<Seq<char>>| strings.contains_key(seq![key] + path),
        |path: Seq<Seq<char>>| strings[seq![key] + path],
    )
}

/// Reads a TOML document with `toml::from_str`. The result is a function of
/// the text alone: the value read holds the strings that `document_strings`
/// names for the text, and nothing is read exactly where it names none.
#[verifier::external_body]
fn read_document(text: &str) -> (r: Option<toml::Value>)
    ensures
        match r {
            Some(value) => document_strings(text@) == Some(value_strings(value)),
            None => document_strings(text@) is None,
        },
{
    toml::from_str::<toml::Value>(text).ok()
}

/// Looks a key up with `toml::Value::get`. For a table that has the key the
/// result is the entry, which holds what the table holds under that key.
/// There is no result for a missing key and for a value that is no table, and
/// such a value holds nothing under the key.
#[verifier::external_body]
fn entry<'a>(value: &'a toml::Value, key: &str) -> (r: Option<&'a toml::Value>)
    ensures
        match r {
            Some(child) => value_strings(*child) == strings_under(value_strings(*value), key@),
            None => strings_under(value_strings(*value), key@) == Map::<
                Seq<Seq<char>>,
                Seq<char>,
            >::empty(),
        },
{
    value.get(key)
}

/// Reads a string with `toml::Value::as_str`. A string value gives its text,
/// which is what it holds under the empty path; any other value gives
/// nothing and holds nothing there.
#[verifier::external_body]
fn as_text<'a>(value: &'a toml::Value) -> (r: Option<&'a str>)
    ensures
        match r {
            Some(s) => value_strings(*value).contains_key(Seq::empty()) && value_strings(
                *value,
            )[Seq::empty()] == s@,
            None => !value_strings(*value).contains_key(Seq::empty()),
        },
{
    value.as_str()
}

/// The path of the channel in a structured toolchain file.
pub open spec fn channel_path() -> Seq<Seq<char>> {
    seq!["toolchain"@, "channel"@]
}

/// The channel among the strings of a document: the string under
/// `toolchain.channel`, if there is one.
pub open spec fn channel_among(strings: Map<Seq<Seq<char>>, Seq<char>>) -> Option<Seq<char>> {
    if strings.contains_key(channel_path()) {
        Some(strings[channel_path()])
    } else {
        None
    }
}

/// The channel that a structured toolchain file declares. A file that is no
/// TOML document declares none.
pub open spec fn declared_channel(text: Seq<char>) -> Option<Seq<char>> {
    match document_strings(text) {
        Some(strings) => channel_among(strings),
        None => None,
    }
}

/// The toolchain that a plain-text toolchain file names: its contents
/// without the white space around them, unless nothing is left.
pub open spec fn plain_channel(text: Seq<char>) -> Option<Seq<char>> {
    if trimmed(text).len() > 0 {
        Some(trimmed(text))
    } else {
        None
    }
}

/// The toolchain that the project's files declare: the channel of the
/// structured file, else that of the plain file.
pub open spec fn file_toolchain(structured: Option<Seq<char>>, plain: Option<Seq<char>>) -> Option<
    Seq<char>,
> {
    let first = match structured {
        Some(text) => declared_channel(text),
        None => None,
    };
    if first is Some {
        first
    } else {
        match plain {
            Some(text) => plain_channel(text),
            None => None,
        }
    }
}

/// The toolchain that the output of the build tool's version command names:
/// its second word, provided that the first is `cargo`.
pub open spec fn cargo_toolchain(output: Seq<char>) -> Option<Seq<char>> {
    let second = first_word(after_first_word(output));
    if first_word(output) == "cargo"@ && second.len() > 0 {
        Some(second)
    } else {
        None
    }
}

/// The first of the three that is there.
pub open spec fn first_of(
    a: Option<Seq<char>>,
    b: Option<Seq<char>>,
    c: Option<Seq<char>>,
) -> Option<Seq<char>> {
    if a is Some {
        a
    } else if b is Some {
        b
    } else {
        c
    }
}

/// The channel that a parsed toolchain document declares.
pub fn channel_of_document(document: &toml::Value) -> (r: Option<String>)
    ensures
        opt_string(r) == channel_among(value_strings(*document)),
{
    let ghost strings = value_strings(*document);
    let ghost inner = strings_under(strings, "toolchain"@);
    let ghost leaf = strings_under(inner, "channel"@);
    proof {
        assert(seq!["toolchain"@] + (seq!["channel"@] + Seq::<Seq<char>>::empty())
            =~= channel_path());
        assert(seq!["channel"@] + Seq::<Seq<char>>::empty() =~= seq!["channel"@]);
        assert(leaf.contains_key(Seq::empty()) == strings.contains_key(channel_path()));
        assert(leaf.contains_key(Seq::empty()) ==> leaf[Seq::empty()] == strings[channel_path()]);
    }
    let table = match entry(document, "toolchain") {
        Some(table) => table,
        None => {
            assert(!inner.contains_key(seq!["channel"@]));
            return None;
        },
    };
    let channel = match entry(table, "channel") {
        Some(channel) => channel,
        None => {
            assert(!leaf.contains_key(Seq::empty()));
            return None;
        },
    };
    match as_text(channel) {
        Some(s) => Some(String::from_str(s)),
        None => None,
    }
}

/// The toolchain that the output of `cargo --version` names, such as
/// `1.87.0` for `cargo 1.87.0 (99624be96 2025-05-06)`.
pub fn detect_toolchain_from_cargo(version_output: &str) -> (r: Option<String>)
    ensures
        opt_string(r) == cargo_toolchain(version_output@),
{
    let chars = chars_of(version_output);
    assert(chars@.skip(0) =~= chars@);
    let start = skip_whitespace(&chars, 0);
    let end = skip_word(&chars, start);
    let ghost rest = chars@.skip(end as int);
    proof {
        let t = chars@.skip(start as int);
        lemma_word_len(t);
        assert(t.take(end - start) =~= chars@.subrange(start as int, end as int));
        assert(t.skip(end - start) =~= rest);
    }
    let first = text_between(&chars, start, end);
    if !text_eq(first.as_str(), "cargo") {
        return None;
    }
    let next = skip_whitespace(&chars, end);
    let stop = skip_word(&chars, next);
    proof {
        let t = chars@.skip(next as int);
        lemma_word_len(t);
        assert(t.take(stop - next) =~= chars@.subrange(next as int, stop as int));
    }
    if stop == next {
        return None;
    }
    Some(text_between(&chars, next, stop))
}

/// The toolchain that the project's toolchain files declare, given the
/// contents of the structured file and of the plain one, each where it
/// exists. The structured file is asked first; where it is absent, is no
/// TOML document or declares no channel, the plain file decides.
pub fn detect_toolchain_from_files(structured: Option<&str>, plain: Option<&str>) -> (r: Option<
    String,
>)
    ensures
        opt_string(r) == file_toolchain(opt_str(structured), opt_str(plain)),
{
    if let Some(text) = structured {
        if let Some(document) = read_document(text) {
            if let Some(channel) = channel_of_document(&document) {
                return Some(channel);
            }
        }
    }
    if let Some(text) = plain {
        let name = trim(text);
        if name.as_str().unicode_len() > 0 {
            return Some(name);
        }
    }
    None
}

/// The toolchain to ask for: the one the user named, else the one the build
/// tool reports, else the one the project's files declare, else none.
pub fn resolve_toolchain(
    explicit: Option<String>,
    version_output: Option<&str>,
    structured: Option<&str>,
    plain: Option<&str>,
) -> (r: Option<String>)
    ensures
        opt_string(r) == first_of(
            opt_string(explicit),
            match version_output {
                Some(output) => cargo_toolchain(output@),
                None => None,
            },
            file_toolchain(opt_str(structured), opt_str(plain)),
        ),
{
    if explicit.is_some() {
        return explicit;
    }
    if let Some(output) = version_output {
        let probed = detect_toolchain_from_cargo(output);
        if probed.is_some() {
            return probed;
        }
    }
    detect_toolchain_from_files(structured, plain)
}

/// The order of the sources is strict and total: a toolchain that the user
/// named always wins; without one, the toolchain that the build tool
/// reports wins; without either, the project's files decide, the structured
/// file before the plain one; and with nothing anywhere there is none.
pub proof fn law_precedence(
    explicit: Option<Seq<char>>,
    probed: Option<Seq<char>>,
    structured: Option<Seq<char>>,
    plain: Option<Seq<char>>,
)
    ensures
        explicit is Some ==> first_of(explicit, probed, file_toolchain(structured, plain))
            == explicit,
        explicit is None && probed is Some ==> first_of(
            explicit,
            probed,
            file_toolchain(structured, plain),
        ) == probed,
        explicit is None && probed is None ==> first_of(
            explicit,
            probed,
            file_toolchain(structured, plain),
        ) == file_toolchain(structured, plain),
        structured is Some && declared_channel(structured->0) is Some ==> file_toolchain(
            structured,
            plain,
        ) == declared_channel(structured->0),
        structured is None && plain is None ==> file_toolchain(structured, plain) is None,
{
}

} // verus!
