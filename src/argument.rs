//! Resolution of a named command-line argument into a typed value, taken
//! either from the literal text bound to the name or from the contents of
//! the file that the text names.

use vstd::prelude::*;
use vstd::string::*;

verus! {

/// Whether `c` is an ASCII decimal digit.
pub open spec fn is_digit(c: char) -> bool {
    '0' <= c && c <= '9'
}

/// The value of the decimal digit `c`.
pub open spec fn digit_value(c: char) -> nat {
    (c as u32 - '0' as u32) as nat
}

/// The value of a run of decimal digits, most significant first.
pub open spec fn digits_value(s: Seq<char>) -> nat
    decreases s.len(),
{
    if s.len() == 0 {
        0
    } else {
        digits_value(s.drop_last()) * 10 + digit_value(s.last())
    }
}

/// The digits of an unsigned number's text: one leading `+` is dropped.
pub open spec fn unsigned_digits(s: Seq<char>) -> Seq<char> {
    if s.len() > 0 && s[0] == '+' {
        s.drop_first()
    } else {
        s
    }
}

/// Whether `s` is the text of an unsigned decimal number: an optional `+`
/// followed by at least one digit and nothing else (no blank, no sign `-`).
pub open spec fn is_unsigned_text(s: Seq<char>) -> bool {
    let d = unsigned_digits(s);
    d.len() > 0 && forall|i: int| 0 <= i < d.len() ==> is_digit(#[trigger] d[i])
}

/// The number that an unsigned decimal text denotes.
pub open spec fn unsigned_value(s: Seq<char>) -> nat {
    digits_value(unsigned_digits(s))
}

/// A longer prefix of a digit run is worth at least as much as a shorter one.
pub proof fn lemma_digits_value_prefix(d: Seq<char>, k: int, m: int)
    requires
        0 <= k <= m <= d.len(),
    ensures
        digits_value(d.subrange(0, k)) <= digits_value(d.subrange(0, m)),
    decreases m - k,
{
    if k < m {
        lemma_digits_value_prefix(d, k, m - 1);
        assert(d.subrange(0, m).drop_last() =~= d.subrange(0, m - 1));
    }
}

/// Parses the text of an unsigned decimal number no larger than `max`.
pub fn parse_unsigned(text: &str, max: u64) -> (r: Option<u64>)
    ensures
        r is Some <==> is_unsigned_text(text@) && unsigned_value(text@) <= max,
        r matches Some(v) ==> v == unsigned_value(text@),
{
    let n = text.unicode_len();
    let start: usize = if n > 0 && text.get_char(0) == '+' {
        1
    } else {
        0
    };
    let ghost d = unsigned_digits(text@);
    assert(d =~= text@.subrange(start as int, n as int));
    if start == n {
        return None;
    }
    let mut acc: u64 = 0;
    let mut i: usize = start;
    while i < n
        invariant
            start <= i <= n,
            n == text@.len(),
            d == text@.subrange(start as int, n as int),
            d == unsigned_digits(text@),
            acc <= max,
            acc == digits_value(d.subrange(0, i - start)),
            forall|j: int| 0 <= j < i - start ==> is_digit(#[trigger] d[j]),
        decreases n - i,
    {
        let c = text.get_char(i);
        if c < '0' || c > '9' {
            assert(d[i - start] == text@[i as int]);
            assert(!is_digit(d[i - start]));
            return None;
        }
        let dv = (c as u32 - '0' as u32) as u64;
        let k: usize = i - start;
        assert(d.subrange(0, k + 1).drop_last() =~= d.subrange(0, k as int));
        assert(digits_value(d.subrange(0, k + 1)) == acc * 10 + dv);
        if dv > max || acc > (max - dv) / 10 {
            assert(acc * 10 + dv > max) by (nonlinear_arith)
                requires
                    dv > max || acc > (max - dv) / 10,
            ;
            proof {
                lemma_digits_value_prefix(d, k + 1, d.len() as int);
                assert(d.subrange(0, d.len() as int) =~= d);
                assert(unsigned_value(text@) > max);
            }
            return None;
        }
        assert(acc * 10 + dv <= max) by (nonlinear_arith)
            requires
                dv <= max,
                acc <= (max - dv) / 10,
        ;
        acc = acc * 10 + dv;
        i = i + 1;
    }
    assert(d.subrange(0, n - start) =~= d);
    Some(acc)
}

/// A type that an argument's text can be parsed into.
pub trait ArgumentValue: Sized {
    /// Whether `text` is a valid rendering of some value of the type.
    spec fn accepts(text: Seq<char>) -> bool;

    /// Whether `v` is the value that `text` denotes.
    spec fn parses_to(text: Seq<char>, v: Self) -> bool;

    fn parse_text(text: &str) -> (r: Option<Self>)
        ensures
            r is Some <==> Self::accepts(text@),
            r matches Some(v) ==> Self::parses_to(text@, v),
    ;
}

impl ArgumentValue for u64 {
    open spec fn accepts(text: Seq<char>) -> bool {
        is_unsigned_text(text) && unsigned_value(text) <= u64::MAX
    }

    open spec fn parses_to(text: Seq<char>, v: u64) -> bool {
        v == unsigned_value(text)
    }

    fn parse_text(text: &str) -> (r: Option<u64>) {
        parse_unsigned(text, u64::MAX)
    }
}

impl ArgumentValue for u32 {
    open spec fn accepts(text: Seq<char>) -> bool {
        is_unsigned_text(text) && unsigned_value(text) <= u32::MAX
    }

    open spec fn parses_to(text: Seq<char>, v: u32) -> bool {
        v == unsigned_value(text)
    }

    fn parse_text(text: &str) -> (r: Option<u32>) {
        match parse_unsigned(text, u32::MAX as u64) {
            Some(v) => Some(v as u32),
            None => None,
        }
    }
}

impl ArgumentValue for String {
    open spec fn accepts(text: Seq<char>) -> bool {
        true
    }

    open spec fn parses_to(text: Seq<char>, v: String) -> bool {
        v@ == text
    }

    fn parse_text(text: &str) -> (r: Option<String>) {
        Some(String::from_str(text))
    }
}

/// Where a resolved value came from.
#[derive(Clone, Copy, Debug, PartialEq, Eq, Structural)]
pub enum Provenance {
    Literal,
    File,
}

/// What the command line bound to an argument, as the caller found it:
/// the literal text, or, in file mode, the path that the text names with
/// the file's full contents (`None` where the file could not be read).
#[derive(Debug)]
pub enum ArgumentSource {
    Literal(String),
    File { path: String, contents: Option<String> },
}

/// A typed value with the place it was taken from.
#[derive(Debug)]
pub struct ResolvedArgument<T> {
    pub value: T,
    pub provenance: Provenance,
}

/// Why an argument could not be resolved. Each names the offending
/// argument or path.
#[derive(Debug)]
pub enum ArgumentError {
    Missing { name: String },
    Unreadable { path: String },
    Invalid { name: String, text: String },
}

/// Builds the source of an argument from the command line: the literal
/// text, or the file it names with what reading that file gave.
pub fn argument_source(raw: String, file_mode: bool, contents: Option<String>) -> (r:
    ArgumentSource)
    ensures
        !file_mode ==> (r matches ArgumentSource::Literal(t) && t@ == raw@),
        file_mode ==> (r matches ArgumentSource::File { path, contents: c } && path@ == raw@
            && c == contents),
{
    if file_mode {
        ArgumentSource::File { path: raw, contents }
    } else {
        ArgumentSource::Literal(raw)
    }
}

/// The text to parse out of a source, if there is one.
pub open spec fn source_text(source: ArgumentSource) -> Option<Seq<char>> {
    match source {
        ArgumentSource::Literal(t) => Some(t@),
        ArgumentSource::File { contents: Some(c), .. } => Some(c@),
        ArgumentSource::File { contents: None, .. } => None,
    }
}

/// The provenance of a value taken from a source.
pub open spec fn source_provenance(source: ArgumentSource) -> Provenance {
    match source {
        ArgumentSource::Literal(_) => Provenance::Literal,
        ArgumentSource::File { .. } => Provenance::File,
    }
}

/// Whether `r` is the outcome of resolving the argument `name` from a
/// supplied `source`: the parsed value, or the error that names the
/// unreadable path or the argument and its unparsable text.
pub open spec fn resolved_from<T: ArgumentValue>(
    name: Seq<char>,
    source: ArgumentSource,
    r: Result<ResolvedArgument<T>, ArgumentError>,
) -> bool {
    match source_text(source) {
        None => r matches Err(ArgumentError::Unreadable { path }) && source matches
            ArgumentSource::File { path: p, .. } && path@ == p@,
        Some(t) => if T::accepts(t) {
            r matches Ok(a) && T::parses_to(t, a.value) && a.provenance == source_provenance(
                source,
            )
        } else {
            r matches Err(ArgumentError::Invalid { name: n, text }) && n@ == name && text@ == t
        },
    }
}

fn resolve_source<T: ArgumentValue>(name: &str, source: ArgumentSource) -> (r: Result<
    ResolvedArgument<T>,
    ArgumentError,
>)
    ensures
        resolved_from(name@, source, r),
{
    let provenance = match &source {
        ArgumentSource::Literal(_) => Provenance::Literal,
        ArgumentSource::File { .. } => Provenance::File,
    };
    let text = match source {
        ArgumentSource::Literal(t) => t,
        ArgumentSource::File { path, contents } => match contents {
            Some(c) => c,
            None => {
                return Err(ArgumentError::Unreadable { path });
            },
        },
    };
    match T::parse_text(text.as_str()) {
        Some(value) => Ok(ResolvedArgument { value, provenance }),
        None => Err(ArgumentError::Invalid { name: String::from_str(name), text }),
    }
}

/// Resolves a required argument: an error names it where nothing was
/// bound to it, or where its text does not parse; an unreadable file is
/// an error that names the path.
pub fn resolve_argument<T: ArgumentValue>(name: &str, source: Option<ArgumentSource>) -> (r:
    Result<ResolvedArgument<T>, ArgumentError>)
    ensures
        source is None ==> (r matches Err(ArgumentError::Missing { name: n }) && n@ == name@),
        source matches Some(s) ==> resolved_from(name@, s, r),
{
    match source {
        None => Err(ArgumentError::Missing { name: String::from_str(name) }),
        Some(s) => resolve_source(name, s),
    }
}

/// Resolves an optional argument: absent only where nothing was bound to
/// it; a supplied one is resolved as a required one is.
pub fn resolve_optional_argument<T: ArgumentValue>(
    name: &str,
    source: Option<ArgumentSource>,
) -> (r: Result<Option<ResolvedArgument<T>>, ArgumentError>)
    ensures
        source is None ==> r matches Ok(None),
        source matches Some(s) ==> match r {
            Ok(Some(a)) => resolved_from(name@, s, Ok::<ResolvedArgument<T>, ArgumentError>(a)),
            Ok(None) => false,
            Err(e) => resolved_from(name@, s, Err::<ResolvedArgument<T>, ArgumentError>(e)),
        },
{
    match source {
        None => Ok(None),
        Some(s) => match resolve_source(name, s) {
            Ok(a) => Ok(Some(a)),
            Err(e) => Err(e),
        },
    }
}

/// A flag's value: what was given, or `false` where it was not.
pub fn resolve_bool_argument(flag: Option<bool>) -> (r: bool)
    ensures
        r == (flag == Some(true)),
{
    match flag {
        Some(v) => v,
        None => false,
    }
}

} // verus!
