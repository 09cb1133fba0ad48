//! The program that installs the hook from a process of its own.

use crate::injector::{dll_for, InjectError, OverlayDll};
use crate::text::{decimal, digit, law_digit, law_digits_read_back, number_of};
use vstd::prelude::*;

verus! {

/// How long the helper waits for the target's window, and again for the server, in seconds.
pub const TIMEOUT_SECS: u64 = 60;

/// Exit code of a helper whose overlay is up.
pub const EXIT_SUCCESS: u8 = 0;

/// Exit code of a helper that failed.
pub const EXIT_FAILURE: u8 = 1;

/// Whether a character is a decimal digit.
pub open spec fn is_digit(c: char) -> bool {
    '0' <= c && c <= '9'
}

/// The number that digits are.
pub open spec fn digits_value(s: Seq<char>) -> nat
    decreases s.len(),
{
    if s.len() == 0 {
        0
    } else {
        digits_value(s.drop_last()) * 10 + (s.last() as nat - '0' as nat) as nat
    }
}

/// What is left without a leading plus sign.
pub open spec fn unsigned_part(s: Seq<char>) -> Seq<char> {
    if s.len() > 0 && s[0] == '+' {
        s.drop_first()
    } else {
        s
    }
}

/// The number that a text is: digits, at least one, after a plus sign or not, that are no more
/// than fits.
pub open spec fn parsed(s: Seq<char>) -> Option<u32> {
    let digits = unsigned_part(s);
    if digits.len() > 0 && (forall|i: int| 0 <= i < digits.len() ==> is_digit(digits[i]))
        && digits_value(digits) <= u32::MAX {
        Some(digits_value(digits) as u32)
    } else {
        None
    }
}

/// Reads a number with `str::parse`: an optional plus sign followed by digits only, the number no
/// larger than fits. Everything else is an error.
#[verifier::external_body]
fn parse_u32(s: &str) -> (r: Option<u32>)
    ensures
        r == parsed(s@),
{
    s.parse::<u32>().ok()
}

/// Why the helper's arguments are no good.
#[derive(Debug, Clone, Copy, PartialEq, Eq, Structural)]
pub enum ArgsError {
    Usage,
    Pid,
}

impl ArgsError {
    pub open spec fn text(self) -> Seq<char> {
        match self {
            ArgsError::Usage => "usage: injector-helper <pid> <dll-path>"@,
            ArgsError::Pid => "invalid pid"@,
        }
    }

    /// What is wrong.
    pub fn message(&self) -> (r: &'static str)
        ensures
            r@ == self.text(),
    {
        match self {
            ArgsError::Usage => "usage: injector-helper <pid> <dll-path>",
            ArgsError::Pid => "invalid pid",
        }
    }
}

/// The target's pid, or what is wrong with the arguments.
pub open spec fn args_read(pid: Option<Seq<char>>, has_path: bool) -> Result<u32, ArgsError> {
    match pid {
        None => Err(ArgsError::Usage),
        Some(text) => match parsed(text) {
            None => Err(ArgsError::Pid),
            Some(pid) => if has_path {
                Ok(pid)
            } else {
                Err(ArgsError::Usage)
            },
        },
    }
}

/// Reads the target's pid from the first argument, and says whether there is a second, the DLL's
/// path. Further arguments do not matter.
pub fn parse_args(pid: Option<&str>, has_path: bool) -> (r: Result<u32, ArgsError>)
    ensures
        r == (match pid {
            None => Err(ArgsError::Usage),
            Some(text) => match parsed(text@) {
                None => Err(ArgsError::Pid),
                Some(pid) => if has_path {
                    Ok(pid)
                } else {
                    Err(ArgsError::Usage)
                },
            },
        }),
        r == args_read(
            match pid {
                Some(text) => Some(text@),
                None => None,
            },
            has_path,
        ),
{
    match pid {
        None => Err(ArgsError::Usage),
        Some(text) => match parse_u32(text) {
            None => Err(ArgsError::Pid),
            Some(pid) => if has_path {
                Ok(pid)
            } else {
                Err(ArgsError::Usage)
            },
        },
    }
}

/// The same DLL for every architecture: the helper has the architecture of its target, and only
/// the DLL for that is used.
pub fn helper_dll<P: Copy>(path: P) -> (r: OverlayDll<P>)
    ensures
        r == (OverlayDll { x64: Some(path), x86: Some(path), arm64: Some(path) }),
{
    OverlayDll { x64: Some(path), x86: Some(path), arm64: Some(path) }
}

/// A helper never lacks a DLL: if one can be injected at all, it is the one it was given.
pub proof fn law_helper_dll<P>(current: u16, target: u16, path: P)
    ensures
        ({
            let dll = OverlayDll { x64: Some(path), x86: Some(path), arm64: Some(path) };
            match dll_for(current, target, dll) {
                Ok(chosen) => chosen == path,
                Err(err) => err == (InjectError::CrossArch { injector: current, target }) || err
                    == InjectError::UnsupportedArch(current),
            }
        }),
{
}

/// The exit code of a helper.
pub fn exit_code(ok: bool) -> (r: u8)
    ensures
        r == (if ok {
            EXIT_SUCCESS
        } else {
            EXIT_FAILURE
        }),
{
    if ok {
        EXIT_SUCCESS
    } else {
        EXIT_FAILURE
    }
}

proof fn lemma_digits_value(s: Seq<char>)
    requires
        forall|i: int| 0 <= i < s.len() ==> is_digit(s[i]),
    ensures
        digits_value(s) == number_of(s, 10),
    decreases s.len(),
{
    if s.len() > 0 {
        lemma_digits_value(s.drop_last());
    }
}

proof fn lemma_decimal_digits(n: nat)
    ensures
        forall|i: int| 0 <= i < decimal(n).len() ==> is_digit(decimal(n)[i]),
        decimal(n).len() > 0,
    decreases n,
{
    if n < 10 {
        law_digit(n);
    } else {
        lemma_decimal_digits(n / 10);
        law_digit(n % 10);
        assert(decimal(n) =~= decimal(n / 10).push(digit(n % 10)));
    }
}

/// A pid that is written out is read back, with a plus sign before it or not; a number that no pid
/// can be is not read.
pub proof fn law_pid_reads_back(n: nat)
    ensures
        n <= u32::MAX ==> parsed(decimal(n)) == Some(n as u32),
        n <= u32::MAX ==> parsed(seq!['+'] + decimal(n)) == Some(n as u32),
        n > u32::MAX ==> parsed(decimal(n)) is None,
{
    lemma_decimal_digits(n);
    lemma_digits_value(decimal(n));
    law_digits_read_back(n, 10);
    assert(is_digit(decimal(n)[0]));
    assert((seq!['+'] + decimal(n)).drop_first() =~= decimal(n));
}

/// Only digits, after at most one plus sign, are read as a pid.
pub proof fn law_only_digits_are_a_pid(s: Seq<char>, i: int)
    requires
        parsed(s) is Some,
        0 <= i < s.len(),
    ensures
        '0' <= s[i] && s[i] <= '9' || i == 0 && s[i] == '+' && s.len() > 1,
{
    if s[0] == '+' && i > 0 {
        assert(unsigned_part(s)[i - 1] == s[i]);
    }
}

/// An argument that is there and is no pid is told as such, whatever follows it; otherwise an
/// argument that is not there is told how the helper is used; and where both are there the pid is
/// read.
pub proof fn law_args_read(pid: Option<Seq<char>>, has_path: bool)
    ensures
        args_read(pid, has_path) == Err::<u32, ArgsError>(ArgsError::Pid) <==> pid is Some
            && parsed(pid->0) is None,
        args_read(pid, has_path) == Err::<u32, ArgsError>(ArgsError::Usage) <==> pid is None || (
        parsed(pid->0) is Some && !has_path),
        args_read(pid, has_path) matches Ok(number) ==> has_path && parsed(pid->0) == Some(number),
{
}

} // verus!
