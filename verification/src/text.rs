//! Log-line formatting: decimal rendering and the tagged messages that the
//! bootstrap emits.
//!
//! Lines coming from the companion server are forwarded with a `[server]` or
//! `[server:err]` tag; the host application's own messages carry a `[tauri]`
//! tag. Attempt counts and exit codes are rendered in decimal here so that
//! every emitted line is pinned down character for character.

use vstd::prelude::*;

verus! {

/// The character sequences of a sequence of owned strings.
pub open spec fn lines_of(v: Seq<String>) -> Seq<Seq<char>> {
    v.map_values(|s: String| s@)
}

/// The decimal digit character for a value below ten.
pub open spec fn digit_char(d: nat) -> char {
    if d == 0 {
        '0'
    } else if d == 1 {
        '1'
    } else if d == 2 {
        '2'
    } else if d == 3 {
        '3'
    } else if d == 4 {
        '4'
    } else if d == 5 {
        '5'
    } else if d == 6 {
        '6'
    } else if d == 7 {
        '7'
    } else if d == 8 {
        '8'
    } else {
        '9'
    }
}

/// The decimal digits of `n`, most significant first, with no leading zeros
/// (zero itself is the single digit `0`).
pub open spec fn dec_digits(n: nat) -> Seq<char>
    decreases n,
{
    if n < 10 {
        seq![digit_char(n)]
    } else {
        dec_digits(n / 10) + seq![digit_char(n % 10)]
    }
}

/// A signed value in decimal: a leading minus sign for negative values.
pub open spec fn int_text(v: int) -> Seq<char> {
    if v >= 0 {
        dec_digits(v as nat)
    } else {
        "-"@ + dec_digits((-v) as nat)
    }
}

/// An optional exit code or signal number, rendered as the host application
/// logs it: `None`, or `Some(` followed by the value and `)`.
pub open spec fn option_code_text(code: Option<i32>) -> Seq<char> {
    match code {
        Option::None => "None"@,
        Option::Some(v) => "Some("@ + int_text(v as int) + ")"@,
    }
}

/// A companion stdout line as it reaches the normal log sink.
pub open spec fn server_tagged(line: Seq<char>) -> Seq<char> {
    "[server] "@ + line
}

/// A companion stderr line as it reaches the error log sink.
pub open spec fn server_err_tagged(line: Seq<char>) -> Seq<char> {
    "[server:err] "@ + line
}

/// The one success line the Startup Gate may log.
pub open spec fn success_text(attempt: nat) -> Seq<char> {
    "[tauri] Server ready after "@ + dec_digits(attempt) + " attempts"@
}

/// The one failure line the Startup Gate logs when every attempt failed.
pub open spec fn timeout_text() -> Seq<char> {
    "[tauri] Server failed to start within 30 seconds"@
}

/// The notice logged when the companion process terminates.
pub open spec fn termination_text(code: Option<i32>, signal: Option<i32>) -> Seq<char> {
    "[server] terminated with code "@ + option_code_text(code) + ", signal "@
        + option_code_text(signal)
}

/// One decimal digit as a string slice.
fn digit_str(d: u64) -> (r: &'static str)
    requires
        d < 10,
    ensures
        r@ == seq![digit_char(d as nat)],
{
    proof {
        reveal_strlit("0");
        reveal_strlit("1");
        reveal_strlit("2");
        reveal_strlit("3");
        reveal_strlit("4");
        reveal_strlit("5");
        reveal_strlit("6");
        reveal_strlit("7");
        reveal_strlit("8");
        reveal_strlit("9");
    }
    let r: &'static str = if d == 0 {
        "0"
    } else if d == 1 {
        "1"
    } else if d == 2 {
        "2"
    } else if d == 3 {
        "3"
    } else if d == 4 {
        "4"
    } else if d == 5 {
        "5"
    } else if d == 6 {
        "6"
    } else if d == 7 {
        "7"
    } else if d == 8 {
        "8"
    } else {
        "9"
    };
    proof {
        assert(r@ =~= seq![digit_char(d as nat)]);
    }
    r
}

/// Renders an unsigned value in decimal.
pub fn u64_dec(n: u64) -> (r: String)
    ensures
        r@ == dec_digits(n as nat),
    decreases n,
{
    if n < 10 {
        digit_str(n).to_owned()
    } else {
        let mut prefix = u64_dec(n / 10);
        let digit = digit_str(n % 10);
        prefix.append(digit);
        prefix
    }
}

/// Renders a signed value in decimal, with a minus sign when negative.
pub fn i32_dec(v: i32) -> (r: String)
    ensures
        r@ == int_text(v as int),
{
    if v >= 0 {
        u64_dec(v as u64)
    } else {
        let magnitude: u64 = (-(v as i64)) as u64;
        let mut r = "-".to_owned();
        let digits = u64_dec(magnitude);
        r.append(digits.as_str());
        r
    }
}

/// Renders an optional exit code or signal number.
pub fn option_code_str(code: &Option<i32>) -> (r: String)
    ensures
        r@ == option_code_text(*code),
{
    match code {
        Option::None => "None".to_owned(),
        Option::Some(v) => {
            let mut r = "Some(".to_owned();
            let digits = i32_dec(*v);
            r.append(digits.as_str());
            r.append(")");
            r
        },
    }
}

/// Tags a companion stdout line for the normal log sink.
pub fn tag_server_line(line: &str) -> (r: String)
    ensures
        r@ == server_tagged(line@),
{
    let mut r = "[server] ".to_owned();
    r.append(line);
    r
}

/// Tags a companion stderr line for the error log sink.
pub fn tag_server_err_line(line: &str) -> (r: String)
    ensures
        r@ == server_err_tagged(line@),
{
    let mut r = "[server:err] ".to_owned();
    r.append(line);
    r
}

/// The Startup Gate's success line for the given attempt number.
pub fn success_message(attempt: u32) -> (r: String)
    ensures
        r@ == success_text(attempt as nat),
{
    let mut r = "[tauri] Server ready after ".to_owned();
    let count = u64_dec(attempt as u64);
    r.append(count.as_str());
    r.append(" attempts");
    r
}

/// The Startup Gate's timeout line.
pub fn timeout_message() -> (r: String)
    ensures
        r@ == timeout_text(),
{
    "[tauri] Server failed to start within 30 seconds".to_owned()
}

/// The Output Relay's termination notice for the given exit code and signal.
pub fn termination_message(code: &Option<i32>, signal: &Option<i32>) -> (r: String)
    ensures
        r@ == termination_text(*code, *signal),
{
    let mut r = "[server] terminated with code ".to_owned();
    let code_part = option_code_str(code);
    r.append(code_part.as_str());
    r.append(", signal ");
    let signal_part = option_code_str(signal);
    r.append(signal_part.as_str());
    r
}

} // verus!
