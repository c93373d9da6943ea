//! Assembly of one completion request: prompt preparation, the JSON
//! payload carrying model, prompt and generation parameters, and the
//! bearer authorization header.

use vstd::prelude::*;
use vstd::string::*;
use crate::sanitize::{escape_quotes, escape_quotes_seq, push_char};

verus! {

/// The sequence without its last element; an empty sequence unchanged.
pub open spec fn drop_last_seq(s: Seq<char>) -> Seq<char> {
    if s.len() > 0 {
        s.take(s.len() - 1)
    } else {
        s
    }
}

/// The prompt as sent on the wire: the trailing character the line
/// editor leaves attached is dropped, quotation marks are escaped, and
/// a literal two-character `\n` escape is appended twice to encourage
/// conversational continuation.
pub open spec fn prepared_prompt_seq(s: Seq<char>) -> Seq<char> {
    escape_quotes_seq(drop_last_seq(s)) + seq!['\\', 'n', '\\', 'n']
}

/// Prepares a raw prompt line for inclusion in the request payload.
pub fn prepare_prompt(prompt: &str) -> (r: String)
    ensures
        r@ == prepared_prompt_seq(prompt@),
{
    let len = prompt.unicode_len();
    let trimmed = if len > 0 {
        prompt.substring_char(0, len - 1)
    } else {
        prompt
    };
    proof {
        assert(trimmed@ =~= drop_last_seq(prompt@));
    }
    let mut out = escape_quotes(trimmed);
    out.append("\\n\\n");
    proof {
        reveal_strlit("\\n\\n");
        assert("\\n\\n"@ =~= seq!['\\', 'n', '\\', 'n']);
    }
    out
}

/// The authorization header value for the given credential.
pub fn bearer_token(api_key: &str) -> (r: String)
    ensures
        r@ == "Bearer "@ + api_key@,
{
    let mut out = String::from_str("Bearer ");
    out.append(api_key);
    out
}

/// The fixed completions endpoint the request is sent to.
pub fn completions_uri() -> (r: &'static str)
    ensures
        r@ == "https://api.openai.com/v1/completions"@,
{
    "https://api.openai.com/v1/completions"
}

/// The lower-case hexadecimal digit for a value below sixteen.
pub open spec fn hex_digit(d: int) -> char {
    if d == 0 { '0' }
    else if d == 1 { '1' }
    else if d == 2 { '2' }
    else if d == 3 { '3' }
    else if d == 4 { '4' }
    else if d == 5 { '5' }
    else if d == 6 { '6' }
    else if d == 7 { '7' }
    else if d == 8 { '8' }
    else if d == 9 { '9' }
    else if d == 10 { 'a' }
    else if d == 11 { 'b' }
    else if d == 12 { 'c' }
    else if d == 13 { 'd' }
    else if d == 14 { 'e' }
    else { 'f' }
}

fn hex_digit_char(d: u32) -> (r: char)
    requires
        d < 16,
    ensures
        r == hex_digit(d as int),
{
    match d {
        0 => '0',
        1 => '1',
        2 => '2',
        3 => '3',
        4 => '4',
        5 => '5',
        6 => '6',
        7 => '7',
        8 => '8',
        9 => '9',
        10 => 'a',
        11 => 'b',
        12 => 'c',
        13 => 'd',
        14 => 'e',
        _ => 'f',
    }
}

/// How one character is written inside a JSON string: quotation marks,
/// backslashes and control characters are escaped, every other
/// character stands for itself.
pub open spec fn json_escape_char(c: char) -> Seq<char> {
    if c == '"' { seq!['\\', '"'] }
    else if c == '\\' { seq!['\\', '\\'] }
    else if c == '\u{8}' { seq!['\\', 'b'] }
    else if c == '\t' { seq!['\\', 't'] }
    else if c == '\n' { seq!['\\', 'n'] }
    else if c == '\u{c}' { seq!['\\', 'f'] }
    else if c == '\r' { seq!['\\', 'r'] }
    else if (c as u32) < 0x20 {
        seq!['\\', 'u', '0', '0', hex_digit(c as u32 as int / 16), hex_digit(c as u32 as int % 16)]
    } else {
        seq![c]
    }
}

/// A sequence escaped for inclusion between the quotation marks of a
/// JSON string.
pub open spec fn json_escape_seq(s: Seq<char>) -> Seq<char>
    decreases s.len(),
{
    if s.len() == 0 {
        Seq::<char>::empty()
    } else {
        json_escape_char(s[0]) + json_escape_seq(s.skip(1))
    }
}

/// Escapes a text for inclusion in a JSON string.
pub fn json_escape(text: &str) -> (r: String)
    ensures
        r@ == json_escape_seq(text@),
{
    let len = text.unicode_len();
    let mut out = String::new();
    let mut i: usize = 0;
    proof {
        assert(text@.skip(0) =~= text@);
        assert(out@ + json_escape_seq(text@) =~= json_escape_seq(text@));
    }
    while i < len
        invariant
            0 <= i <= len,
            len == text@.len(),
            json_escape_seq(text@) == out@ + json_escape_seq(text@.skip(i as int)),
        decreases len - i,
    {
        let c = text.get_char(i);
        if c == '"' {
            push_char(&mut out, '\\');
            push_char(&mut out, '"');
        } else if c == '\\' {
            push_char(&mut out, '\\');
            push_char(&mut out, '\\');
        } else if c == '\u{8}' {
            push_char(&mut out, '\\');
            push_char(&mut out, 'b');
        } else if c == '\t' {
            push_char(&mut out, '\\');
            push_char(&mut out, 't');
        } else if c == '\n' {
            push_char(&mut out, '\\');
            push_char(&mut out, 'n');
        } else if c == '\u{c}' {
            push_char(&mut out, '\\');
            push_char(&mut out, 'f');
        } else if c == '\r' {
            push_char(&mut out, '\\');
            push_char(&mut out, 'r');
        } else if (c as u32) < 0x20 {
            let code: u32 = c as u32;
            push_char(&mut out, '\\');
            push_char(&mut out, 'u');
            push_char(&mut out, '0');
            push_char(&mut out, '0');
            push_char(&mut out, hex_digit_char(code / 16));
            push_char(&mut out, hex_digit_char(code % 16));
        } else {
            push_char(&mut out, c);
        }
        proof {
            assert(text@.skip(i as int).skip(1) =~= text@.skip(i as int + 1));
            assert(out@ + json_escape_seq(text@.skip(i as int + 1))
                =~= json_escape_seq(text@));
        }
        i = i + 1;
    }
    proof {
        assert(text@.skip(len as int) =~= Seq::<char>::empty());
        assert(out@ =~= json_escape_seq(text@));
    }
    out
}

/// The decimal digit character for a value below ten.
pub open spec fn dec_digit(d: int) -> char {
    if d == 0 { '0' }
    else if d == 1 { '1' }
    else if d == 2 { '2' }
    else if d == 3 { '3' }
    else if d == 4 { '4' }
    else if d == 5 { '5' }
    else if d == 6 { '6' }
    else if d == 7 { '7' }
    else if d == 8 { '8' }
    else { '9' }
}

fn dec_digit_char(d: u64) -> (r: char)
    requires
        d < 10,
    ensures
        r == dec_digit(d as int),
{
    match d {
        0 => '0',
        1 => '1',
        2 => '2',
        3 => '3',
        4 => '4',
        5 => '5',
        6 => '6',
        7 => '7',
        8 => '8',
        _ => '9',
    }
}

/// The decimal digits of a non-negative integer, most significant
/// first, with no sign and no leading zero.
pub open spec fn dec_digits(n: int) -> Seq<char>
    decreases n,
{
    if n < 10 {
        seq![dec_digit(n)]
    } else {
        dec_digits(n / 10).push(dec_digit(n % 10))
    }
}

/// The decimal notation of an integer: a minus sign for a negative
/// value, then the digits of its magnitude.
pub open spec fn dec_int(n: int) -> Seq<char> {
    if n < 0 {
        seq!['-'] + dec_digits(-n)
    } else {
        dec_digits(n)
    }
}

fn u64_to_dec(n: u64) -> (r: Vec<char>)
    ensures
        r@ == dec_digits(n as int),
{
    let mut digits: Vec<char> = Vec::new();
    let mut m: u64 = n;
    while m >= 10
        invariant
            dec_digits(n as int) == dec_digits(m as int) + digits@,
        decreases m,
    {
        let c = dec_digit_char(m % 10);
        digits.insert(0, c);
        proof {
            assert(dec_digits(m as int) == dec_digits(m as int / 10).push(dec_digit(m as int % 10)));
            assert(dec_digits(m as int / 10) + digits@
                =~= dec_digits(m as int) + digits@.skip(1));
        }
        m = m / 10;
    }
    let c = dec_digit_char(m);
    digits.insert(0, c);
    proof {
        assert(seq![dec_digit(m as int)] + digits@.skip(1) =~= digits@);
    }
    digits
}

/// Writes an integer in decimal notation.
pub fn int_to_decimal(n: i64) -> (r: String)
    ensures
        r@ == dec_int(n as int),
{
    if n >= 0 {
        let digits = u64_to_dec(n as u64);
        chars_to_string(&digits)
    } else {
        let mag: u64 = ((-(n + 1)) as u64) + 1;
        assert(mag as int == -(n as int));
        let digits = u64_to_dec(mag);
        let mut out = String::from_str("-");
        let tail = chars_to_string(&digits);
        out.append(tail.as_str());
        proof {
            reveal_strlit("-");
            assert("-"@ =~= seq!['-']);
        }
        out
    }
}

/// Builds a string from a vector of characters.
pub fn chars_to_string(chars: &Vec<char>) -> (r: String)
    ensures
        r@ == chars@,
{
    let mut out = String::new();
    let mut i: usize = 0;
    while i < chars.len()
        invariant
            0 <= i <= chars@.len(),
            out@ == chars@.take(i as int),
        decreases chars@.len() - i,
    {
        push_char(&mut out, chars[i]);
        proof {
            assert(chars@.take(i as int).push(chars@[i as int]) =~= chars@.take(i as int + 1));
        }
        i = i + 1;
    }
    proof {
        assert(chars@.take(chars@.len() as int) =~= chars@);
    }
    out
}

/// The JSON payload of one completion request, with its keys in the
/// fixed alphabetical order the wire format uses.
pub open spec fn request_body_seq(
    model: Seq<char>,
    prompt: Seq<char>,
    max_tokens: int,
    temperature: int,
) -> Seq<char> {
    "{\"max_tokens\":"@ + dec_int(max_tokens)
        + ",\"model\":\""@ + json_escape_seq(model)
        + "\",\"prompt\":\""@ + json_escape_seq(prompt)
        + "\",\"temperature\":"@ + dec_int(temperature)
        + "}"@
}

/// Serializes one completion request into its JSON payload. The prompt
/// is expected to have been prepared already.
pub fn request_body(model: &str, prompt: &str, max_tokens: i64, temperature: i64) -> (r: String)
    ensures
        r@ == request_body_seq(model@, prompt@, max_tokens as int, temperature as int),
{
    let mut out = String::from_str("{\"max_tokens\":");
    let max_tokens_text = int_to_decimal(max_tokens);
    out.append(max_tokens_text.as_str());
    out.append(",\"model\":\"");
    let model_text = json_escape(model);
    out.append(model_text.as_str());
    out.append("\",\"prompt\":\"");
    let prompt_text = json_escape(prompt);
    out.append(prompt_text.as_str());
    out.append("\",\"temperature\":");
    let temperature_text = int_to_decimal(temperature);
    out.append(temperature_text.as_str());
    out.append("}");
    proof {
        assert(out@ =~= request_body_seq(model@, prompt@, max_tokens as int, temperature as int));
    }
    out
}

} // verus!
