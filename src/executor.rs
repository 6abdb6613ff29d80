//! The decisions around running a command on a host: where to connect and how
//! the command's exit status and output streams become a result.
use crate::text::concat2;
use vstd::prelude::*;
use vstd::string::*;

verus! {

/// The decimal digit of `d`.
pub open spec fn digit_char(d: nat) -> char {
    if d == 0 { '0' }
    else if d == 1 { '1' }
    else if d == 2 { '2' }
    else if d == 3 { '3' }
    else if d == 4 { '4' }
    else if d == 5 { '5' }
    else if d == 6 { '6' }
    else if d == 7 { '7' }
    else if d == 8 { '8' }
    else { '9' }
}

/// The decimal numeral of `n`, without leading zeros.
pub open spec fn decimal(n: nat) -> Seq<char>
    decreases n,
{
    if n < 10 {
        seq![digit_char(n)]
    } else {
        decimal(n / 10) + seq![digit_char(n % 10)]
    }
}

/// The decimal numeral of a signed `n`.
pub open spec fn signed_decimal(n: int) -> Seq<char> {
    if n < 0 {
        "-"@ + decimal((-n) as nat)
    } else {
        decimal(n as nat)
    }
}

fn digit_str(d: u64) -> (r: &'static str)
    requires
        d < 10,
    ensures
        r@ == seq![digit_char(d as nat)],
{
    proof {
        reveal_strlit("0");
        reveal_strlit("1");
        reveal_strlit("2");
        reveal_strlit("3");
        reveal_strlit("4");
        reveal_strlit("5");
        reveal_strlit("6");
        reveal_strlit("7");
        reveal_strlit("8");
        reveal_strlit("9");
    }
    if d == 0 {
        "0"
    } else if d == 1 {
        "1"
    } else if d == 2 {
        "2"
    } else if d == 3 {
        "3"
    } else if d == 4 {
        "4"
    } else if d == 5 {
        "5"
    } else if d == 6 {
        "6"
    } else if d == 7 {
        "7"
    } else if d == 8 {
        "8"
    } else {
        "9"
    }
}

/// Writes `n` in decimal.
pub fn decimal_text(n: u64) -> (r: String)
    ensures
        r@ == decimal(n as nat),
    decreases n,
{
    if n < 10 {
        String::from_str(digit_str(n))
    } else {
        let mut s = decimal_text(n / 10);
        s.append(digit_str(n % 10));
        s
    }
}

/// Writes a signed `n` in decimal.
pub fn signed_text(n: i64) -> (r: String)
    ensures
        r@ == signed_decimal(n as int),
{
    if n < 0 {
        let m: u64 = if n == i64::MIN {
            9223372036854775808u64
        } else {
            (-n) as u64
        };
        concat2("-", decimal_text(m).as_str())
    } else {
        decimal_text(n as u64)
    }
}

/// What running a command yielded: its output, or why it failed.
pub open spec fn outcome_of(status: int, stdout: Seq<char>, stderr: Seq<char>) -> Result<
    Seq<char>,
    Seq<char>,
> {
    if status != 0 {
        Err(
            "Command exited with status "@ + signed_decimal(status) + ".\nStdout: "@ + stdout
                + "\nStderr: "@ + stderr,
        )
    } else if stdout.len() == 0 && stderr.len() > 0 {
        Ok("(stderr): "@ + stderr)
    } else {
        Ok(stdout)
    }
}

/// Runs shell commands on managed hosts over SSH.
pub struct SshExecutor;

impl SshExecutor {
    /// The `host:port` address to connect to.
    pub fn address(ip_address: &str, port: u16) -> (r: String)
        ensures
            r@ == ip_address@ + ":"@ + decimal(port as nat),
    {
        let mut s = concat2(ip_address, ":");
        s.append(decimal_text(port as u64).as_str());
        s
    }

    /// The result of a command from its exit status and its two output streams:
    /// a failure for a non-zero status, the error stream where only it has text,
    /// and the output otherwise.
    pub fn outcome(status: i32, stdout: String, stderr: String) -> (r: Result<String, String>)
        ensures
            match (r, outcome_of(status as int, stdout@, stderr@)) {
                (Ok(a), Ok(b)) => a@ == b,
                (Err(a), Err(b)) => a@ == b,
                _ => false,
            },
    {
        if status != 0 {
            let mut s = concat2("Command exited with status ", signed_text(status as i64).as_str());
            s.append(".\nStdout: ");
            s.append(stdout.as_str());
            s.append("\nStderr: ");
            s.append(stderr.as_str());
            Err(s)
        } else if stdout.unicode_len() == 0 && stderr.unicode_len() > 0 {
            Ok(concat2("(stderr): ", stderr.as_str()))
        } else {
            Ok(stdout)
        }
    }
}

} // verus!
