//! Process termination statuses and the panic report.
//!
//! A program's outcome is reduced to a hardware-friendly exit code
//! through [`Termination`]. When a program panics instead, the console
//! shows a report: a red heading, the source location in blue and the
//! panic message, each on a line of its own, positioned by the console's
//! escape sequences. Building that report is pure text work and is done
//! — and specified exactly — here; putting it on screen is the console
//! driver's business.

use vstd::prelude::*;
use vstd::string::StringExecFns;

verus! {

/// A type that can be returned from a program's entry point and turned
/// into an exit status.
pub trait Termination {
    /// The status this outcome stands for.
    spec fn spec_status(&self) -> i32;

    /// Reports the status of this outcome.
    fn status(&self) -> (r: i32)
        ensures
            r == self.spec_status(),
    ;
}

/// The two portable exit statuses: success and failure.
#[derive(Debug, Clone, Copy, PartialEq, Eq, Structural)]
pub enum Status {
    Success,
    Failure,
}

/// The exit code each [`Status`] stands for.
pub open spec fn status_code(s: Status) -> i32 {
    match s {
        Status::Success => 0,
        Status::Failure => 1,
    }
}

impl Status {
    /// The exit code this status stands for: 0 for success, 1 for
    /// failure.
    pub fn code(self) -> (r: i32)
        ensures
            r == status_code(self),
    {
        match self {
            Status::Success => 0,
            Status::Failure => 1,
        }
    }
}

impl From<Status> for i32 {
    fn from(status: Status) -> (r: i32) {
        status.code()
    }
}

impl vstd::std_specs::convert::FromSpecImpl<Status> for i32 {
    open spec fn obeys_from_spec() -> bool {
        true
    }

    open spec fn from_spec(status: Status) -> i32 {
        status_code(status)
    }
}

impl Termination for () {
    open spec fn spec_status(&self) -> i32 {
        status_code(Status::Success)
    }

    fn status(&self) -> i32 {
        Status::Success.code()
    }
}

impl<T: Termination, E> Termination for Result<T, E> {
    open spec fn spec_status(&self) -> i32 {
        match self {
            Ok(t) => t.spec_status(),
            Err(_) => status_code(Status::Failure),
        }
    }

    fn status(&self) -> i32 {
        match self {
            Ok(t) => t.status(),
            Err(_) => Status::Failure.code(),
        }
    }
}

/// The character for one decimal digit.
pub open spec fn digit_char(d: nat) -> char {
    if d == 0 {
        '0'
    } else if d == 1 {
        '1'
    } else if d == 2 {
        '2'
    } else if d == 3 {
        '3'
    } else if d == 4 {
        '4'
    } else if d == 5 {
        '5'
    } else if d == 6 {
        '6'
    } else if d == 7 {
        '7'
    } else if d == 8 {
        '8'
    } else {
        '9'
    }
}

/// The decimal notation of `n`, most significant digit first, with no
/// leading zero except for `n == 0` itself.
pub open spec fn decimal(n: nat) -> Seq<char>
    decreases n,
{
    if n < 10 {
        seq![digit_char(n)]
    } else {
        decimal(n / 10).push(digit_char(n % 10))
    }
}

/// One decimal digit as text.
fn digit_str(d: u32) -> (r: &'static str)
    requires
        d < 10,
    ensures
        r@ == seq![digit_char(d as nat)],
{
    match d {
        0 => {
            proof {
                reveal_strlit("0");
                assert("0"@ =~= seq![digit_char(0)]);
            }
            "0"
        },
        1 => {
            proof {
                reveal_strlit("1");
                assert("1"@ =~= seq![digit_char(1)]);
            }
            "1"
        },
        2 => {
            proof {
                reveal_strlit("2");
                assert("2"@ =~= seq![digit_char(2)]);
            }
            "2"
        },
        3 => {
            proof {
                reveal_strlit("3");
                assert("3"@ =~= seq![digit_char(3)]);
            }
            "3"
        },
        4 => {
            proof {
                reveal_strlit("4");
                assert("4"@ =~= seq![digit_char(4)]);
            }
            "4"
        },
        5 => {
            proof {
                reveal_strlit("5");
                assert("5"@ =~= seq![digit_char(5)]);
            }
            "5"
        },
        6 => {
            proof {
                reveal_strlit("6");
                assert("6"@ =~= seq![digit_char(6)]);
            }
            "6"
        },
        7 => {
            proof {
                reveal_strlit("7");
                assert("7"@ =~= seq![digit_char(7)]);
            }
            "7"
        },
        8 => {
            proof {
                reveal_strlit("8");
                assert("8"@ =~= seq![digit_char(8)]);
            }
            "8"
        },
        _ => {
            proof {
                reveal_strlit("9");
                assert("9"@ =~= seq![digit_char(9)]);
            }
            "9"
        },
    }
}

/// Appends the decimal notation of `n` to `out`.
pub fn push_decimal(out: &mut String, n: u32)
    ensures
        final(out)@ == old(out)@ + decimal(n as nat),
    decreases n,
{
    if n < 10 {
        out.append(digit_str(n));
    } else {
        push_decimal(out, n / 10);
        out.append(digit_str(n % 10));
        proof {
            assert(old(out)@ + decimal(n as nat) =~= (old(out)@ + decimal(n as nat / 10)) + seq![
                digit_char(n as nat % 10),
            ]);
        }
    }
}

/// The views of an optional source location.
pub open spec fn location_view(location: Option<(&str, u32)>) -> Option<(Seq<char>, nat)> {
    match location {
        Some((file, line)) => Some((file@, line as nat)),
        None => None,
    }
}

/// The panic report shown on the console: a red `Panic!` heading pinned
/// to the top-left corner, then — when the location is known — the file
/// and line in blue, then the panic message, each line ended and the
/// console colors restored.
pub open spec fn report(location: Option<(Seq<char>, nat)>, message: Seq<char>) -> Seq<char> {
    "\x1b[0;0H\x1b[31mPanic!\x1b[39;0m\n"@ + (match location {
        Some((file, line)) => "\x1b[34m"@ + file + ":"@ + decimal(line) + "\x1b[39;0m\n"@,
        None => Seq::empty(),
    }) + message + "\n"@
}

/// Builds the panic report for the given source location and message.
pub fn panic_report(location: Option<(&str, u32)>, message: &str) -> (r: String)
    ensures
        r@ == report(location_view(location), message@),
{
    let mut out = String::new();
    out.append("\x1b[0;0H\x1b[31mPanic!\x1b[39;0m\n");
    match location {
        Some((file, line)) => {
            out.append("\x1b[34m");
            out.append(file);
            out.append(":");
            push_decimal(&mut out, line);
            out.append("\x1b[39;0m\n");
        },
        None => {},
    }
    out.append(message);
    out.append("\n");
    proof {
        assert(out@ =~= report(location_view(location), message@));
    }
    out
}

} // verus!
