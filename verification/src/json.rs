use vstd::prelude::*;
use vstd::string::*;

verus! {

// ---------------------------------------------------------------------------
// Decimal numbers
// ---------------------------------------------------------------------------

/// The character of a decimal digit `d` (`d < 10`).
pub open spec fn digit_char(d: nat) -> char {
    if d == 0 {
        '0'
    } else if d == 1 {
        '1'
    } else if d == 2 {
        '2'
    } else if d == 3 {
        '3'
    } else if d == 4 {
        '4'
    } else if d == 5 {
        '5'
    } else if d == 6 {
        '6'
    } else if d == 7 {
        '7'
    } else if d == 8 {
        '8'
    } else {
        '9'
    }
}

/// The shortest decimal writing of `n`, as a JSON number is written.
pub open spec fn decimal(n: nat) -> Seq<char>
    decreases n,
{
    if n < 10 {
        seq![digit_char(n)]
    } else {
        decimal(n / 10) + seq![digit_char(n % 10)]
    }
}

/// The text of one decimal digit.
fn digit_text(d: u32) -> (text: &'static str)
    requires
        d < 10,
    ensures
        text@ == seq![digit_char(d as nat)],
{
    match d {
        0 => {
            proof { reveal_strlit("0"); }
            "0"
        },
        1 => {
            proof { reveal_strlit("1"); }
            "1"
        },
        2 => {
            proof { reveal_strlit("2"); }
            "2"
        },
        3 => {
            proof { reveal_strlit("3"); }
            "3"
        },
        4 => {
            proof { reveal_strlit("4"); }
            "4"
        },
        5 => {
            proof { reveal_strlit("5"); }
            "5"
        },
        6 => {
            proof { reveal_strlit("6"); }
            "6"
        },
        7 => {
            proof { reveal_strlit("7"); }
            "7"
        },
        8 => {
            proof { reveal_strlit("8"); }
            "8"
        },
        _ => {
            proof { reveal_strlit("9"); }
            "9"
        },
    }
}

/// Appends the decimal writing of `n` to `out`.
pub fn append_decimal(out: &mut String, n: u32)
    ensures
        final(out)@ == old(out)@ + decimal(n as nat),
    decreases n,
{
    if n >= 10 {
        append_decimal(out, n / 10);
    }
    let digit = digit_text(n % 10);
    out.append(digit);
    proof {
        assert(final(out)@ =~= old(out)@ + decimal(n as nat));
    }
}

// ---------------------------------------------------------------------------
// JSON string literals
// ---------------------------------------------------------------------------

/// A lower-case hexadecimal digit (`d < 16`).
pub open spec fn hex_digit(d: nat) -> char {
    if d < 10 {
        digit_char(d)
    } else if d == 10 {
        'a'
    } else if d == 11 {
        'b'
    } else if d == 12 {
        'c'
    } else if d == 13 {
        'd'
    } else if d == 14 {
        'e'
    } else {
        'f'
    }
}

/// How one character is written inside a JSON string: `"` and `\` after a
/// backslash; backspace, tab, line feed, form feed and carriage return as
/// `\b`, `\t`, `\n`, `\f`, `\r`; any other character below 0x20 as `\u00`
/// and two lower-case hexadecimal digits; every other character as itself.
pub open spec fn json_escape_char(c: char) -> Seq<char> {
    let code = c as nat;
    if c == '"' {
        seq!['\\', '"']
    } else if c == '\\' {
        seq!['\\', '\\']
    } else if code == 0x08 {
        seq!['\\', 'b']
    } else if code == 0x09 {
        seq!['\\', 't']
    } else if code == 0x0a {
        seq!['\\', 'n']
    } else if code == 0x0c {
        seq!['\\', 'f']
    } else if code == 0x0d {
        seq!['\\', 'r']
    } else if code < 0x20 {
        seq!['\\', 'u', '0', '0', hex_digit(code / 16), hex_digit(code % 16)]
    } else {
        seq![c]
    }
}

/// The characters of `text`, each written as inside a JSON string.
pub open spec fn json_escaped(text: Seq<char>) -> Seq<char>
    decreases text.len(),
{
    if text.len() == 0 {
        Seq::empty()
    } else {
        json_escape_char(text[0]) + json_escaped(text.drop_first())
    }
}

/// The JSON string literal of `text`, as serde_json writes it: the escaped
/// characters between double quotes.
pub open spec fn json_string_literal(text: Seq<char>) -> Seq<char> {
    seq!['"'] + json_escaped(text) + seq!['"']
}

/// The value of a hexadecimal digit of either case, or -1 for any other
/// character.
pub open spec fn hex_value(c: char) -> int {
    if '0' <= c && c <= '9' {
        c as int - '0' as int
    } else if 'a' <= c && c <= 'f' {
        c as int - 'a' as int + 10
    } else if 'A' <= c && c <= 'F' {
        c as int - 'A' as int + 10
    } else {
        -1
    }
}

/// The character that an escape at the start of `text` (a backslash and
/// what follows) stands for, and how many characters the escape takes.
pub open spec fn read_json_escape(text: Seq<char>) -> Option<(char, nat)> {
    if text.len() < 2 || text[0] != '\\' {
        None
    } else {
        let e = text[1];
        if e == '"' {
            Some(('"', 2))
        } else if e == '\\' {
            Some(('\\', 2))
        } else if e == '/' {
            Some(('/', 2))
        } else if e == 'b' {
            Some(((8u32) as char, 2))
        } else if e == 't' {
            Some(((9u32) as char, 2))
        } else if e == 'n' {
            Some(((10u32) as char, 2))
        } else if e == 'f' {
            Some(((12u32) as char, 2))
        } else if e == 'r' {
            Some(((13u32) as char, 2))
        } else if e == 'u' && text.len() >= 6 && hex_value(text[2]) >= 0 && hex_value(text[3]) >= 0
            && hex_value(text[4]) >= 0 && hex_value(text[5]) >= 0 {
            let code = hex_value(text[2]) * 4096 + hex_value(text[3]) * 256 + hex_value(text[4])
                * 16 + hex_value(text[5]);
            Some(((code as u32) as char, 6))
        } else {
            None
        }
    }
}

/// Reads a JSON string from just after its opening quote up to and with its
/// closing quote: the characters it stands for and how many characters were
/// read, or `None` where the text is no JSON string.
pub open spec fn read_json_string(text: Seq<char>) -> Option<(Seq<char>, nat)>
    decreases text.len(),
{
    if text.len() == 0 {
        None
    } else if text[0] == '"' {
        Some((Seq::empty(), 1))
    } else if text[0] == '\\' {
        match read_json_escape(text) {
            Some((c, n)) => if 0 < n <= text.len() {
                match read_json_string(text.skip(n as int)) {
                    Some((rest, k)) => Some((seq![c] + rest, n + k)),
                    None => None,
                }
            } else {
                None
            },
            None => None,
        }
    } else if (text[0] as int) < 0x20 {
        None
    } else {
        match read_json_string(text.drop_first()) {
            Some((rest, k)) => Some((seq![text[0]] + rest, k + 1)),
            None => None,
        }
    }
}

/// Calls `serde_json::to_string` on a string slice. The contract claims what
/// serde_json's source shows: the call succeeds, since a `str` is written into
/// a `Vec<u8>` and neither step can fail, and the text is the JSON string
/// literal stated above.
#[verifier::external_body]
pub(crate) fn quote_json(text: &str) -> (quoted: Result<String, serde_json::Error>)
    ensures
        quoted is Ok,
        quoted matches Ok(q) ==> q@ == json_string_literal(text@),
{
    serde_json::to_string(text)
}

// ---------------------------------------------------------------------------
// JSON `null`
// ---------------------------------------------------------------------------

/// The characters that JSON counts as white space.
pub open spec fn is_json_ws(c: char) -> bool {
    c == ' ' || c == '\n' || c == '\t' || c == '\r'
}

/// `text` without the white space at its start.
pub open spec fn skip_json_ws(text: Seq<char>) -> Seq<char>
    decreases text.len(),
{
    if text.len() > 0 && is_json_ws(text[0]) {
        skip_json_ws(text.drop_first())
    } else {
        text
    }
}

/// `text` is the JSON value `null`, with white space around it or none.
pub open spec fn is_json_null(text: Seq<char>) -> bool {
    let rest = skip_json_ws(text);
    &&& rest.len() >= 4
    &&& rest.take(4) == seq!['n', 'u', 'l', 'l']
    &&& skip_json_ws(rest.skip(4)).len() == 0
}

} // verus!

verus! {

/// serde_json's error type, carried through as an opaque value.
#[verifier::external_type_specification]
#[verifier::external_body]
pub struct ExJsonError(serde_json::Error);

/// The message of serde_json's error for a text that is not JSON `null`
/// (the kind of error and the line and column where it was found).
pub uninterp spec fn json_null_error_message(text: Seq<char>) -> Seq<char>;

/// Calls `serde_json::from_str::<()>` and gives the error's message where it
/// fails. The contract claims what serde_json's source shows for the unit
/// type: the text is accepted exactly when, after JSON white space, it holds
/// `null` followed by nothing but white space; and the message, which depends
/// on the text alone, is the one named above.
#[verifier::external_body]
pub(crate) fn decode_unit(text: &str) -> (decoded: Result<(), String>)
    ensures
        decoded is Ok <==> is_json_null(text@),
        decoded matches Err(message) ==> message@ == json_null_error_message(text@),
{
    match serde_json::from_str::<()>(text) {
        Ok(()) => Ok(()),
        Err(error) => Err(error.to_string()),
    }
}

} // verus!
