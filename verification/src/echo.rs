//! The echo command with backslash-escape handling: named escapes,
//! octal and hexadecimal character values, and early termination.

use vstd::prelude::*;
use crate::util::{numeral_body, push_char};

verus! {

/// The parsed echo command line.
pub struct EchoCommand {
    pub disable_new_line: bool,
    pub enable_escaping: bool,
    pub value: String,
}

/// The text echo writes to standard output.
pub struct EchoCommandResult {
    pub echo_val: String,
}

impl EchoCommandResult {
    pub fn new(echo_val: String) -> (r: Self)
        ensures
            r.echo_val == echo_val,
    {
        Self { echo_val }
    }
}

/// A collected escape value that does not read as a number of its base,
/// or does not fit in one byte.
#[derive(Clone, Copy, Debug, PartialEq, Eq, Structural)]
pub enum EchoError {
    InvalidEscapeValue,
}

/// Whether a character is a digit of the base: octal digits for base
/// eight; decimal digits and both letter cases for base sixteen.
pub open spec fn radix_digit_ok(c: char, radix: u32) -> bool {
    if radix == 8 {
        48 <= c as int <= 55
    } else {
        (48 <= c as int <= 57) || (97 <= c as int <= 102) || (65 <= c as int <= 70)
    }
}

/// The value of one digit character, letters read as ten to fifteen.
pub open spec fn radix_digit_val(c: char) -> int {
    if 48 <= c as int <= 57 {
        c as int - 48
    } else if 97 <= c as int <= 102 {
        c as int - 87
    } else {
        c as int - 55
    }
}

/// Every character of the sequence is a digit of the base.
pub open spec fn all_radix_digits(s: Seq<char>, radix: u32) -> bool {
    forall|i: int| 0 <= i < s.len() ==> radix_digit_ok(#[trigger] s[i], radix)
}

/// The value of a digit sequence read in the given base.
pub open spec fn radix_value(s: Seq<char>, radix: u32) -> int
    decreases s.len(),
{
    if s.len() == 0 {
        0
    } else {
        radix_value(s.drop_last(), radix) * radix + radix_digit_val(s.last())
    }
}

/// Whether a string reads as one byte in the given base: after an
/// optional plus sign, one or more digits whose value fits in a byte.
pub open spec fn parses_to_u8(s: Seq<char>, radix: u32) -> bool {
    let b = numeral_body(s);
    b.len() > 0 && all_radix_digits(b, radix) && radix_value(b, radix) <= 255
}

/// The byte a string reads as in the given base.
pub open spec fn u8_radix_value(s: Seq<char>, radix: u32) -> int {
    radix_value(numeral_body(s), radix)
}

/// The value of a digit sequence is never negative.
proof fn lemma_radix_value_nonneg(s: Seq<char>, radix: u32)
    requires
        all_radix_digits(s, radix),
        radix == 8 || radix == 16,
    ensures
        radix_value(s, radix) >= 0,
    decreases s.len(),
{
    if s.len() > 0 {
        assert(all_radix_digits(s.drop_last(), radix));
        lemma_radix_value_nonneg(s.drop_last(), radix);
    }
}

/// Reading more digits never shrinks the value.
proof fn lemma_radix_value_mono(s: Seq<char>, radix: u32, i: int)
    requires
        all_radix_digits(s, radix),
        radix == 8 || radix == 16,
        0 <= i <= s.len(),
    ensures
        radix_value(s.take(i), radix) <= radix_value(s, radix),
    decreases s.len() - i,
{
    if i < s.len() {
        assert(all_radix_digits(s.take(i), radix));
        lemma_radix_value_nonneg(s.take(i), radix);
        assert(s.take(i + 1).drop_last() =~= s.take(i));
        assert(radix_digit_ok(s[i], radix));
        lemma_radix_value_mono(s, radix, i + 1);
    } else {
        assert(s.take(i) =~= s);
    }
}

/// Reads one byte written in base eight or sixteen, with an optional
/// leading plus sign; `None` on anything else and on overflow.
fn parse_u8_radix(s: &str, radix: u32) -> (r: Option<u8>)
    requires
        radix == 8 || radix == 16,
    ensures
        (r is Some) == parses_to_u8(s@, radix),
        r matches Some(v) ==> v == u8_radix_value(s@, radix),
{
    let n = s.unicode_len();
    if n == 0 {
        return None;
    }
    let first = s.get_char(0);
    let start: usize = if first == '+' {
        1
    } else {
        0
    };
    let ghost body = numeral_body(s@);
    proof {
        assert(body =~= s@.subrange(start as int, n as int));
    }
    if n == start {
        return None;
    }
    let mut acc: u32 = 0;
    let mut i: usize = start;
    while i < n
        invariant
            start <= i <= n,
            n == s@.len(),
            radix == 8 || radix == 16,
            body == numeral_body(s@),
            body == s@.subrange(start as int, n as int),
            body.len() == n - start,
            all_radix_digits(body.take(i - start), radix),
            acc == radix_value(body.take(i - start), radix),
            acc <= 255,
        decreases n - i,
    {
        let c = s.get_char(i);
        let v = c as u32;
        let d: u32 = if 48 <= v && v <= 55 {
            v - 48
        } else if radix == 16 && 56 <= v && v <= 57 {
            v - 48
        } else if radix == 16 && 97 <= v && v <= 102 {
            v - 87
        } else if radix == 16 && 65 <= v && v <= 70 {
            v - 55
        } else {
            proof {
                assert(body[i - start] == s@[i as int]);
                assert(!radix_digit_ok(body[i - start], radix));
            }
            return None;
        };
        acc = acc * radix + d;
        proof {
            assert(body.take(i + 1 - start).drop_last() =~= body.take(i - start));
            assert(body.take(i + 1 - start).last() == s@[i as int]);
        }
        if acc > 255 {
            proof {
                if all_radix_digits(body, radix) {
                    lemma_radix_value_mono(body, radix, i + 1 - start);
                }
            }
            return None;
        }
        i = i + 1;
    }
    proof {
        assert(body.take(n - start) =~= body);
    }
    Some(acc as u8)
}

/// What one collected escape value does to the output: the byte it
/// reads as, appended as a character, or a failure that leaves both
/// strings as they were.
pub open spec fn flush_escape(out: Seq<char>, acc: Seq<char>, radix: u32) -> Result<
    Seq<char>,
    EchoError,
> {
    if parses_to_u8(acc, radix) {
        Ok(out.push((u8_radix_value(acc, radix) as u8) as char))
    } else {
        Err(EchoError::InvalidEscapeValue)
    }
}

/// The interpreter's mode between characters: plain copying, just
/// after a backslash, or collecting an octal or hexadecimal value.
/// Once a value collector starts it runs to the end of the input,
/// flushing every third (octal) or second (hexadecimal) character.
pub enum EscapeMode {
    Plain,
    Backslash,
    Octal(Seq<char>),
    Hex(Seq<char>),
}

/// One run of the escape interpreter from position `i` on, with the
/// text written so far: the final text and an early-stop mark (`\c`
/// stops the run and suppresses the trailing newline), or a failure on
/// a bad collected value.
pub open spec fn echo_run(s: Seq<char>, i: int, mode: EscapeMode, out: Seq<char>) -> Result<
    (Seq<char>, bool),
    EchoError,
>
    decreases s.len() - i,
{
    if i < 0 || i >= s.len() {
        match mode {
            EscapeMode::Plain => Ok((out, false)),
            EscapeMode::Backslash => Ok((out, false)),
            EscapeMode::Octal(acc) => {
                if acc.len() >= 1 {
                    match flush_escape(out, acc, 8) {
                        Ok(o2) => Ok((o2, false)),
                        Err(e) => Err(e),
                    }
                } else {
                    Ok((out + "\\0"@, false))
                }
            },
            EscapeMode::Hex(acc) => {
                if acc.len() >= 1 {
                    match flush_escape(out, acc, 16) {
                        Ok(o2) => Ok((o2, false)),
                        Err(e) => Err(e),
                    }
                } else {
                    Ok((out + "\\x"@, false))
                }
            },
        }
    } else {
        let c = s[i];
        match mode {
            EscapeMode::Octal(acc) => {
                let acc2 = acc.push(c);
                if acc2.len() >= 3 {
                    match flush_escape(out, acc2, 8) {
                        Ok(o2) => echo_run(s, i + 1, EscapeMode::Octal(Seq::empty()), o2),
                        Err(e) => Err(e),
                    }
                } else {
                    echo_run(s, i + 1, EscapeMode::Octal(acc2), out)
                }
            },
            EscapeMode::Hex(acc) => {
                let acc2 = acc.push(c);
                if acc2.len() >= 2 {
                    match flush_escape(out, acc2, 16) {
                        Ok(o2) => echo_run(s, i + 1, EscapeMode::Hex(Seq::empty()), o2),
                        Err(e) => Err(e),
                    }
                } else {
                    echo_run(s, i + 1, EscapeMode::Hex(acc2), out)
                }
            },
            EscapeMode::Backslash => {
                if c == 'c' {
                    Ok((out, true))
                } else if c == '0' {
                    echo_run(s, i + 1, EscapeMode::Octal(Seq::empty()), out)
                } else if c == 'x' {
                    echo_run(s, i + 1, EscapeMode::Hex(Seq::empty()), out)
                } else {
                    let o2 = if c == 'a' {
                        out.push('\u{7}')
                    } else if c == 'b' {
                        out.push('\u{8}')
                    } else if c == 'e' {
                        out.push('\u{1b}')
                    } else if c == 'f' {
                        out.push('\u{a}')
                    } else if c == 'n' {
                        out.push('\n')
                    } else if c == 'r' {
                        out.push('\r')
                    } else if c == 't' {
                        out.push('\t')
                    } else if c == 'v' {
                        out.push('\u{b}')
                    } else {
                        out.push('\\').push(c)
                    };
                    echo_run(s, i + 1, EscapeMode::Plain, o2)
                }
            },
            EscapeMode::Plain => {
                if c == '\\' {
                    echo_run(s, i + 1, EscapeMode::Backslash, out)
                } else {
                    echo_run(s, i + 1, EscapeMode::Plain, out.push(c))
                }
            },
        }
    }
}

/// The whole command's output text: the escape interpretation of the
/// argument, then a newline unless one was asked away or the run
/// stopped early.
pub open spec fn echo_output(value: Seq<char>, disable_new_line: bool) -> Result<
    Seq<char>,
    EchoError,
> {
    match echo_run(value, 0, EscapeMode::Plain, Seq::empty()) {
        Ok((txt, early)) => Ok(
            if early || disable_new_line {
                txt
            } else {
                txt.push('\n')
            },
        ),
        Err(e) => Err(e),
    }
}

/// The interpreter mode the four loop flags of the implementation
/// stand for, in the order the implementation tests them.
spec fn interp_mode(
    octal: bool,
    hex: bool,
    previous_backslash: bool,
    octal_acc: Seq<char>,
    hex_acc: Seq<char>,
) -> EscapeMode {
    if octal {
        EscapeMode::Octal(octal_acc)
    } else if hex {
        EscapeMode::Hex(hex_acc)
    } else if previous_backslash {
        EscapeMode::Backslash
    } else {
        EscapeMode::Plain
    }
}

impl EchoCommand {
    /// Reads the collected octal value, appends the character it names
    /// and clears the collector; a malformed value fails and leaves
    /// both strings untouched.
    pub fn parse_octal(output_str: &mut String, octal_val: &mut String) -> (r: Result<
        (),
        EchoError,
    >)
        ensures
            match r {
                Ok(_) => {
                    &&& Ok::<Seq<char>, EchoError>(final(output_str)@) == flush_escape(
                        old(output_str)@,
                        old(octal_val)@,
                        8,
                    )
                    &&& final(octal_val)@.len() == 0
                },
                Err(e) => {
                    &&& Err::<Seq<char>, EchoError>(e) == flush_escape(
                        old(output_str)@,
                        old(octal_val)@,
                        8,
                    )
                    &&& *final(output_str) == *old(output_str)
                    &&& *final(octal_val) == *old(octal_val)
                },
            },
    {
        match parse_u8_radix(octal_val.as_str(), 8) {
            Some(ch) => {
                push_char(output_str, ch as char);
                *octal_val = String::new();
                Ok(())
            },
            None => Err(EchoError::InvalidEscapeValue),
        }
    }

    /// Reads the collected hexadecimal value, appends the character it
    /// names and clears the collector; a malformed value fails and
    /// leaves both strings untouched.
    pub fn parse_hex(output_str: &mut String, hex_val: &mut String) -> (r: Result<(), EchoError>)
        ensures
            match r {
                Ok(_) => {
                    &&& Ok::<Seq<char>, EchoError>(final(output_str)@) == flush_escape(
                        old(output_str)@,
                        old(hex_val)@,
                        16,
                    )
                    &&& final(hex_val)@.len() == 0
                },
                Err(e) => {
                    &&& Err::<Seq<char>, EchoError>(e) == flush_escape(
                        old(output_str)@,
                        old(hex_val)@,
                        16,
                    )
                    &&& *final(output_str) == *old(output_str)
                    &&& *final(hex_val) == *old(hex_val)
                },
            },
    {
        match parse_u8_radix(hex_val.as_str(), 16) {
            Some(ch) => {
                push_char(output_str, ch as char);
                *hex_val = String::new();
                Ok(())
            },
            None => Err(EchoError::InvalidEscapeValue),
        }
    }

    /// Interprets the argument's backslash escapes and appends the
    /// trailing newline unless one was asked away; fails on a collected
    /// octal or hexadecimal value that does not read as one byte.
    #[verifier::loop_isolation(false)]
    pub fn exec(&self) -> (r: Result<EchoCommandResult, EchoError>)
        ensures
            (match r {
                Ok(res) => echo_output(self.value@, self.disable_new_line) matches Ok(t) && t
                    == res.echo_val@,
                Err(e) => echo_output(self.value@, self.disable_new_line) matches Err(e2) && e2
                    == e,
            }),
    {
        let s = self.value.as_str();
        let n = s.unicode_len();
        let ghost full = echo_run(self.value@, 0, EscapeMode::Plain, Seq::empty());
        let mut output_str = String::new();
        let mut previous_backslash = false;
        let mut octal = false;
        let mut octal_val = String::new();
        let mut hex = false;
        let mut hex_val = String::new();
        let mut i: usize = 0;
        while i < n
            invariant
                i <= n,
                !(octal && hex),
                !octal ==> octal_val@ == Seq::<char>::empty(),
                !hex ==> hex_val@ == Seq::<char>::empty(),
                full == echo_run(
                    self.value@,
                    i as int,
                    interp_mode(octal, hex, previous_backslash, octal_val@, hex_val@),
                    output_str@,
                ),
            decreases n - i,
        {
            let c = s.get_char(i);
            if octal {
                push_char(&mut octal_val, c);
                if octal_val.as_str().unicode_len() >= 3 {
                    match Self::parse_octal(&mut output_str, &mut octal_val) {
                        Ok(_) => {
                            proof {
                                assert(octal_val@ =~= Seq::<char>::empty());
                            }
                        },
                        Err(e) => {
                            return Err(e);
                        },
                    }
                }
            } else if hex {
                push_char(&mut hex_val, c);
                if hex_val.as_str().unicode_len() >= 2 {
                    match Self::parse_hex(&mut output_str, &mut hex_val) {
                        Ok(_) => {
                            proof {
                                assert(hex_val@ =~= Seq::<char>::empty());
                            }
                        },
                        Err(e) => {
                            return Err(e);
                        },
                    }
                }
            } else if previous_backslash {
                previous_backslash = false;
                if c == 'c' {
                    return Ok(EchoCommandResult::new(output_str));
                } else if c == '0' {
                    octal = true;
                } else if c == 'x' {
                    hex = true;
                } else if c == 'a' {
                    push_char(&mut output_str, '\u{7}');
                } else if c == 'b' {
                    push_char(&mut output_str, '\u{8}');
                } else if c == 'e' {
                    push_char(&mut output_str, '\u{1b}');
                } else if c == 'f' {
                    push_char(&mut output_str, '\u{a}');
                } else if c == 'n' {
                    push_char(&mut output_str, '\n');
                } else if c == 'r' {
                    push_char(&mut output_str, '\r');
                } else if c == 't' {
                    push_char(&mut output_str, '\t');
                } else if c == 'v' {
                    push_char(&mut output_str, '\u{b}');
                } else {
                    push_char(&mut output_str, '\\');
                    push_char(&mut output_str, c);
                }
            } else if c == '\\' {
                previous_backslash = true;
            } else {
                push_char(&mut output_str, c);
            }
            proof {
                reveal_with_fuel(echo_run, 2);
                assert(full == echo_run(
                    self.value@,
                    i + 1,
                    interp_mode(octal, hex, previous_backslash, octal_val@, hex_val@),
                    output_str@,
                ));
            }
            i = i + 1;
        }
        if octal {
            if octal_val.as_str().unicode_len() >= 1 {
                match Self::parse_octal(&mut output_str, &mut octal_val) {
                    Ok(_) => {},
                    Err(e) => {
                        return Err(e);
                    },
                }
            } else {
                output_str.append("\\0");
            }
        }
        if hex {
            if hex_val.as_str().unicode_len() >= 1 {
                match Self::parse_hex(&mut output_str, &mut hex_val) {
                    Ok(_) => {},
                    Err(e) => {
                        return Err(e);
                    },
                }
            } else {
                output_str.append("\\x");
            }
        }
        if !self.disable_new_line {
            push_char(&mut output_str, '\n');
        }
        Ok(EchoCommandResult::new(output_str))
    }
}

} // verus!
