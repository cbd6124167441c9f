//! Rules for reading one row of a batch file of matches: columns are found
//! by header name regardless of ASCII case, and agent kinds are read
//! regardless of case.

use vstd::prelude::*;
use crate::text::same_text;
use vstd::utf8::encode_utf8;

verus! {

/// The backend behind an agent.
#[derive(Clone, Copy, Debug, PartialEq, Eq, Structural)]
pub enum AgentKind {
    OpenAI,
    Anthropic,
    Ollama,
}

/// The result of `str::to_uppercase`: Unicode upper-case mapping of each character.
pub uninterp spec fn upper_of(s: Seq<char>) -> Seq<char>;

/// Relies on `str::to_uppercase`: its result depends on the characters alone.
#[verifier::external_body]
fn uppercase(s: &str) -> (r: String)
    ensures
        r@ == upper_of(s@),
{
    s.to_uppercase()
}

/// The kind an upper-case name stands for.
pub open spec fn kind_named(s: Seq<char>) -> Option<AgentKind> {
    if s == "OPENAI"@ {
        Some(AgentKind::OpenAI)
    } else if s == "ANTHROPIC"@ {
        Some(AgentKind::Anthropic)
    } else if s == "OLLAMA"@ {
        Some(AgentKind::Ollama)
    } else {
        None
    }
}

/// The message of an unknown agent kind.
pub open spec fn invalid_kind_message(value: Seq<char>) -> Seq<char> {
    "Invalid agent kind: "@ + value + ". Must be OpenAI, Anthropic, or Ollama"@
}

/// Reads an agent kind, regardless of case.
pub fn parse_agent_kind(value: &str) -> (r: Result<AgentKind, String>)
    ensures
        kind_named(upper_of(value@)) matches Some(k) ==> r == Ok::<AgentKind, String>(k),
        kind_named(upper_of(value@)) is None ==> (r matches Err(m) && m@ == invalid_kind_message(value@)),
{
    let upper = uppercase(value);
    if same_text(upper.as_str(), "OPENAI") {
        Ok(AgentKind::OpenAI)
    } else if same_text(upper.as_str(), "ANTHROPIC") {
        Ok(AgentKind::Anthropic)
    } else if same_text(upper.as_str(), "OLLAMA") {
        Ok(AgentKind::Ollama)
    } else {
        Err(String::from_str("Invalid agent kind: ").concat(value).concat(". Must be OpenAI, Anthropic, or Ollama"))
    }
}

/// A byte with ASCII upper-case letters mapped to lower case.
pub open spec fn ascii_lower(b: u8) -> u8 {
    if 65 <= b <= 90 {
        (b + 32) as u8
    } else {
        b
    }
}

/// Two byte strings are equal once ASCII letters are folded to lower case.
pub open spec fn same_ignoring_ascii_case(a: Seq<u8>, b: Seq<u8>) -> bool {
    &&& a.len() == b.len()
    &&& forall|i: int| 0 <= i < a.len() ==> #[trigger] ascii_lower(a[i]) == ascii_lower(b[i])
}

/// Compares two texts, folding ASCII letters to lower case.
pub fn eq_ignore_ascii_case(a: &str, b: &str) -> (r: bool)
    ensures
        r == same_ignoring_ascii_case(encode_utf8(a@), encode_utf8(b@)),
{
    let x = a.as_bytes();
    let y = b.as_bytes();
    if x.len() != y.len() {
        return false;
    }
    let mut i: usize = 0;
    while i < x.len()
        invariant
            x@ == encode_utf8(a@),
            y@ == encode_utf8(b@),
            x@.len() == y@.len(),
            i <= x@.len(),
            forall|k: int| 0 <= k < i ==> #[trigger] ascii_lower(x@[k]) == ascii_lower(y@[k]),
        decreases x@.len() - i,
    {
        let p = if 65 <= x[i] && x[i] <= 90 { x[i] + 32 } else { x[i] };
        let q = if 65 <= y[i] && y[i] <= 90 { y[i] + 32 } else { y[i] };
        if p != q {
            assert(ascii_lower(x@[i as int]) != ascii_lower(y@[i as int]));
            return false;
        }
        i = i + 1;
    }
    true
}

/// A header names the column `name`, regardless of ASCII case.
pub open spec fn names_column(header: Seq<char>, name: Seq<char>) -> bool {
    same_ignoring_ascii_case(encode_utf8(header), encode_utf8(name))
}

/// The first column whose header names `name`.
pub fn field_index(headers: &Vec<String>, name: &str) -> (r: Option<usize>)
    ensures
        r matches Some(i) ==> i < headers@.len() && names_column(headers@[i as int]@, name@),
        r matches Some(i) ==> forall|j: int| 0 <= j < i ==> !names_column(#[trigger] headers@[j]@, name@),
        r is None ==> forall|j: int| 0 <= j < headers@.len() ==> !names_column(#[trigger] headers@[j]@, name@),
{
    let mut i: usize = 0;
    while i < headers.len()
        invariant
            i <= headers@.len(),
            forall|j: int| 0 <= j < i ==> !names_column(#[trigger] headers@[j]@, name@),
        decreases headers@.len() - i,
    {
        if eq_ignore_ascii_case(headers[i].as_str(), name) {
            return Some(i);
        }
        i = i + 1;
    }
    None
}

/// The message of a column that the headers lack.
pub open spec fn missing_column_message(name: Seq<char>) -> Seq<char> {
    "Missing required field: "@ + name
}

/// The value of a column that must be present: an error when no header
/// names it; empty when the row is too short to hold it.
pub fn required_field(headers: &Vec<String>, record: &Vec<String>, name: &str) -> (r: Result<String, String>)
    ensures
        r matches Err(m) ==> m@ == missing_column_message(name@),
        r is Err <==> forall|j: int| 0 <= j < headers@.len() ==> !names_column(#[trigger] headers@[j]@, name@),
        r matches Ok(v) ==> exists|i: int|
            {
                &&& 0 <= i < headers@.len()
                &&& names_column(headers@[i]@, name@)
                &&& forall|j: int| 0 <= j < i ==> !names_column(#[trigger] headers@[j]@, name@)
                &&& v@ == if i < record@.len() { record@[i]@ } else { Seq::<char>::empty() }
            },
{
    match field_index(headers, name) {
        None => Err(String::from_str("Missing required field: ").concat(name)),
        Some(i) => {
            if i < record.len() {
                Ok(record[i].clone())
            } else {
                Ok(String::new())
            }
        },
    }
}

/// The value of a column that may be absent: none when no header names it,
/// the row is too short, or the value is empty.
pub fn optional_field(headers: &Vec<String>, record: &Vec<String>, name: &str) -> (r: Option<String>)
    ensures
        r matches Some(v) ==> v@.len() > 0 && exists|i: int|
            {
                &&& 0 <= i < headers@.len() && i < record@.len()
                &&& names_column(headers@[i]@, name@)
                &&& forall|j: int| 0 <= j < i ==> !names_column(#[trigger] headers@[j]@, name@)
                &&& v@ == record@[i]@
            },
        r is None ==> forall|i: int|
            0 <= i < headers@.len() && names_column(headers@[i]@, name@) && (forall|j: int|
                0 <= j < i ==> !names_column(#[trigger] headers@[j]@, name@)) ==> i >= record@.len()
                || record@[i]@.len() == 0,
{
    match field_index(headers, name) {
        None => None,
        Some(i) => {
            if i < record.len() && record[i].as_str().unicode_len() > 0 {
                Some(record[i].clone())
            } else {
                None
            }
        },
    }
}

/// An ASCII decimal digit.
pub open spec fn is_digit(c: u8) -> bool {
    48 <= c <= 57
}

/// The number that a run of decimal digits writes.
pub open spec fn digits_value(d: Seq<u8>) -> nat
    decreases d.len(),
{
    if d.len() == 0 {
        0
    } else {
        digits_value(d.drop_last()) * 10 + (d.last() - 48) as nat
    }
}

/// The digits of an unsigned number: the text without one leading `+`.
pub open spec fn unsigned_digits(b: Seq<u8>) -> Seq<u8> {
    if b.len() > 0 && b[0] == 43 {
        b.drop_first()
    } else {
        b
    }
}

/// The number an unsigned decimal text writes, as integer parsing reads it:
/// an optional `+`, then one or more ASCII digits.
pub open spec fn decimal_reading(b: Seq<u8>) -> Option<nat> {
    let d = unsigned_digits(b);
    if d.len() > 0 && forall|i: int| 0 <= i < d.len() ==> #[trigger] is_digit(d[i]) {
        Some(digits_value(d))
    } else {
        None
    }
}

proof fn lemma_digits_grow(d: Seq<u8>, c: u8)
    requires
        is_digit(c),
    ensures
        digits_value(d.push(c)) >= digits_value(d),
        digits_value(d.push(c)) == digits_value(d) * 10 + (c - 48) as nat,
{
    assert(d.push(c).drop_last() =~= d);
}

/// Reads an unsigned decimal number no greater than `max`; none when the
/// text is no such number or the number is greater.
pub fn parse_unsigned(text: &str, max: u64) -> (r: Option<u64>)
    ensures
        match decimal_reading(encode_utf8(text@)) {
            Some(n) => if n <= max {
                r == Some(n as u64)
            } else {
                r is None
            },
            None => r is None,
        },
{
    let b = text.as_bytes();
    let ghost d = unsigned_digits(b@);
    let start: usize = if b.len() > 0 && b[0] == 43 { 1 } else { 0 };
    assert(d =~= b@.subrange(start as int, b@.len() as int));
    if start >= b.len() {
        assert(d.len() == 0);
        assert(b@ == encode_utf8(text@));
        assert(decimal_reading(encode_utf8(text@)) is None);
        return None;
    }
    let mut value: u64 = 0;
    let mut over = false;
    let mut i: usize = start;
    while i < b.len()
        invariant
            b@ == encode_utf8(text@),
            d == unsigned_digits(encode_utf8(text@)),
            d == b@.subrange(start as int, b@.len() as int),
            start <= i <= b@.len(),
            forall|k: int| start <= k < i ==> #[trigger] is_digit(b@[k]),
            !over ==> value == digits_value(b@.subrange(start as int, i as int)) && value <= max,
            over ==> digits_value(b@.subrange(start as int, i as int)) > max,
        decreases b@.len() - i,
    {
        let c = b[i];
        if c < 48 || c > 57 {
            assert(!is_digit(d[i - start]));
            return None;
        }
        let ghost prefix = b@.subrange(start as int, i as int);
        assert(b@.subrange(start as int, i + 1) =~= prefix.push(c));
        proof {
            lemma_digits_grow(prefix, c);
        }
        if !over {
            let digit = (c - 48) as u64;
            if digit > max || value > (max - digit) / 10 {
                assert(value * 10 + digit > max) by (nonlinear_arith)
                    requires
                        digit > max || value > (max - digit) / 10,
                        value >= 0,
                ;
                over = true;
            } else {
                assert(value * 10 + digit <= max) by (nonlinear_arith)
                    requires
                        value <= (max - digit) / 10,
                        digit <= 9,
                ;
                value = value * 10 + digit;
            }
        }
        i = i + 1;
    }
    assert(b@.subrange(start as int, b@.len() as int) == d);
    if over {
        None
    } else {
        Some(value)
    }
}

/// The number a text holds if it is no greater than `max`, else `default`.
pub open spec fn number_in(text: Seq<char>, max: u64, default: u64) -> u64 {
    match decimal_reading(encode_utf8(text)) {
        Some(n) => if n <= max {
            n as u64
        } else {
            default
        },
        None => default,
    }
}

/// Column `i` is the first whose header names `name`.
pub open spec fn first_column(headers: Seq<String>, name: Seq<char>, i: int) -> bool {
    &&& 0 <= i < headers.len()
    &&& names_column(headers[i]@, name)
    &&& forall|j: int| 0 <= j < i ==> !names_column(#[trigger] headers[j]@, name)
}

/// The number in column `name`, no greater than `max`; `default` when the
/// column is missing or holds no such number.
pub fn number_or(headers: &Vec<String>, record: &Vec<String>, name: &str, max: u64, default: u64) -> (r: u64)
    ensures
        (forall|j: int| 0 <= j < headers@.len() ==> !names_column(#[trigger] headers@[j]@, name@)) ==> r == default,
        forall|i: int|
            #[trigger] first_column(headers@, name@, i) ==> r == number_in(
                if i < record@.len() {
                    record@[i]@
                } else {
                    Seq::<char>::empty()
                },
                max,
                default,
            ),
{
    match field_index(headers, name) {
        None => default,
        Some(i) => {
            let text = if i < record.len() {
                record[i].clone()
            } else {
                String::new()
            };
            proof {
                assert forall|k: int| #[trigger] first_column(headers@, name@, k) implies k == i by {
                    if k < i {
                        assert(!names_column(headers@[k]@, name@));
                    } else if k > i {
                        assert(!names_column(headers@[i as int]@, name@));
                    }
                }
            }
            match parse_unsigned(text.as_str(), max) {
                Some(n) => n,
                None => default,
            }
        },
    }
}

} // verus!
