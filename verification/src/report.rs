//! Translation of a run's outcome into process-visible behaviour: the exit
//! code and the single line, if any, for standard output or standard error.

use vstd::prelude::*;
use vstd::string::StringExecFns;

verus! {

/// The digit character for a value below ten.
pub open spec fn digit_char(d: nat) -> char {
    if d == 0 {
        '0'
    } else if d == 1 {
        '1'
    } else if d == 2 {
        '2'
    } else if d == 3 {
        '3'
    } else if d == 4 {
        '4'
    } else if d == 5 {
        '5'
    } else if d == 6 {
        '6'
    } else if d == 7 {
        '7'
    } else if d == 8 {
        '8'
    } else {
        '9'
    }
}

/// The decimal representation of `n`: most significant digit first, no
/// leading zeros, no surrounding whitespace.
pub open spec fn decimal_rep(n: nat) -> Seq<char>
    decreases n,
{
    if n < 10 {
        seq![digit_char(n)]
    } else {
        decimal_rep(n / 10).push(digit_char(n % 10))
    }
}

/// Whether `c` is one of the ten decimal digit characters.
pub open spec fn is_digit_char(c: char) -> bool {
    c == '0' || c == '1' || c == '2' || c == '3' || c == '4' || c == '5' || c == '6' || c == '7'
        || c == '8' || c == '9'
}

/// The value of a decimal digit character.
pub open spec fn digit_val(c: char) -> nat {
    if c == '1' {
        1
    } else if c == '2' {
        2
    } else if c == '3' {
        3
    } else if c == '4' {
        4
    } else if c == '5' {
        5
    } else if c == '6' {
        6
    } else if c == '7' {
        7
    } else if c == '8' {
        8
    } else if c == '9' {
        9
    } else {
        0
    }
}

/// The value that a sequence of digit characters denotes in base ten, read
/// most significant digit first.
pub open spec fn decimal_val(s: Seq<char>) -> nat
    decreases s.len(),
{
    if s.len() == 0 {
        0
    } else {
        decimal_val(s.drop_last()) * 10 + digit_val(s.last())
    }
}

/// The decimal representation is well formed: at least one character, every
/// character a decimal digit, and no leading zero (a lone `'0'` stands for
/// zero itself).
pub proof fn lemma_decimal_rep_shape(n: nat)
    ensures
        decimal_rep(n).len() >= 1,
        forall|i: int| 0 <= i < decimal_rep(n).len() ==> is_digit_char(#[trigger] decimal_rep(n)[i]),
        n > 0 ==> decimal_rep(n)[0] != '0',
    decreases n,
{
    if n >= 10 {
        lemma_decimal_rep_shape(n / 10);
    }
}

/// The decimal representation of `n` denotes `n`.
pub proof fn lemma_decimal_rep_value(n: nat)
    ensures
        decimal_val(decimal_rep(n)) == n,
    decreases n,
{
    if n < 10 {
        assert(decimal_rep(n).drop_last() =~= Seq::<char>::empty());
        assert(decimal_val(decimal_rep(n)) == decimal_val(decimal_rep(n).drop_last()) * 10
            + digit_val(decimal_rep(n).last()));
    } else {
        lemma_decimal_rep_value(n / 10);
        assert(decimal_rep(n).drop_last() =~= decimal_rep(n / 10));
        assert(decimal_val(decimal_rep(n)) == decimal_val(decimal_rep(n).drop_last()) * 10
            + digit_val(decimal_rep(n).last()));
        assert(n == (n / 10) * 10 + n % 10) by (nonlinear_arith);
    }
}

fn digit_str(d: usize) -> (s: &'static str)
    requires
        d < 10,
    ensures
        s@ == seq![digit_char(d as nat)],
{
    match d {
        0 => {
            proof {
                reveal_strlit("0");
                assert("0"@ =~= seq![digit_char(0)]);
            }
            "0"
        },
        1 => {
            proof {
                reveal_strlit("1");
                assert("1"@ =~= seq![digit_char(1)]);
            }
            "1"
        },
        2 => {
            proof {
                reveal_strlit("2");
                assert("2"@ =~= seq![digit_char(2)]);
            }
            "2"
        },
        3 => {
            proof {
                reveal_strlit("3");
                assert("3"@ =~= seq![digit_char(3)]);
            }
            "3"
        },
        4 => {
            proof {
                reveal_strlit("4");
                assert("4"@ =~= seq![digit_char(4)]);
            }
            "4"
        },
        5 => {
            proof {
                reveal_strlit("5");
                assert("5"@ =~= seq![digit_char(5)]);
            }
            "5"
        },
        6 => {
            proof {
                reveal_strlit("6");
                assert("6"@ =~= seq![digit_char(6)]);
            }
            "6"
        },
        7 => {
            proof {
                reveal_strlit("7");
                assert("7"@ =~= seq![digit_char(7)]);
            }
            "7"
        },
        8 => {
            proof {
                reveal_strlit("8");
                assert("8"@ =~= seq![digit_char(8)]);
            }
            "8"
        },
        _ => {
            proof {
                reveal_strlit("9");
                assert("9"@ =~= seq![digit_char(9)]);
            }
            "9"
        },
    }
}

/// The decimal text of `n`.
pub fn decimal_string(n: usize) -> (s: String)
    ensures
        s@ == decimal_rep(n as nat),
    decreases n,
{
    let d = digit_str(n % 10);
    if n < 10 {
        proof {
            assert(seq![digit_char((n % 10) as nat)] =~= decimal_rep(n as nat));
        }
        String::from_str(d)
    } else {
        let prefix = decimal_string(n / 10);
        let s = prefix.concat(d);
        proof {
            assert(decimal_rep((n / 10) as nat) + seq![digit_char((n % 10) as nat)]
                =~= decimal_rep(n as nat));
        }
        s
    }
}

/// The three terminal outcomes of a run: a match at a byte offset, a clean
/// "no match", or a failure carrying a diagnostic message.
#[derive(Debug, PartialEq, Eq)]
pub enum Outcome {
    Matched(usize),
    NotMatched,
    Failed(String),
}

impl Outcome {
    /// The outcome that reports a search result: the offset of the leftmost
    /// match, or "no match".
    pub fn of_search(r: Option<usize>) -> (o: Outcome)
        ensures
            r matches Some(n) ==> o == Outcome::Matched(n),
            r is None ==> o == Outcome::NotMatched,
    {
        match r {
            Some(n) => Outcome::Matched(n),
            None => Outcome::NotMatched,
        }
    }

    /// The process exit code: `0` for a match; `1` for "no match" and for
    /// failure.
    pub fn exit_code(&self) -> (c: i32)
        ensures
            c == (if *self is Matched {
                0int
            } else {
                1int
            }),
    {
        match self {
            Outcome::Matched(_) => 0,
            _ => 1,
        }
    }

    /// The single line for standard output: the decimal offset of a match,
    /// and nothing in every other outcome.
    pub fn stdout_line(&self) -> (r: Option<String>)
        ensures
            *self matches Outcome::Matched(n) ==> r is Some && r->0@ == decimal_rep(n as nat),
            !(*self is Matched) ==> r is None,
    {
        match self {
            Outcome::Matched(n) => Some(decimal_string(*n)),
            _ => None,
        }
    }

    /// The single line for standard error: the diagnostic prefixed with
    /// "error: " on failure, and nothing in every other outcome.
    pub fn stderr_line(&self) -> (r: Option<String>)
        ensures
            *self matches Outcome::Failed(m) ==> r is Some && r->0@ == "error: "@ + m@,
            !(*self is Failed) ==> r is None,
    {
        match self {
            Outcome::Failed(m) => {
                let prefix = String::from_str("error: ");
                Some(prefix.concat(m.as_str()))
            },
            _ => None,
        }
    }
}

} // verus!
