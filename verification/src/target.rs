//! Discovered targets and the line of text each one is reported as.

use vstd::prelude::*;
use vstd::string::StringExecFns;

verus! {

/// A function that takes fuzzable input, found in a source file. One is
/// reported for every fuzzable parameter of the function.
#[derive(Clone, Debug, PartialEq, Eq)]
pub struct Target {
    /// The name the function is declared with.
    pub name: String,
    /// The path of the file that holds the declaration.
    pub file_path: String,
    /// The line of the function's name, counted from 1.
    pub line: usize,
}

/// A function found by a search: another name for a [`Target`].
pub type FoundFunction = Target;

/// Mathematical value of a [`Target`].
pub struct TargetView {
    pub name: Seq<char>,
    pub file_path: Seq<char>,
    pub line: nat,
}

impl View for Target {
    type V = TargetView;

    open spec fn view(&self) -> TargetView {
        TargetView { name: self.name@, file_path: self.file_path@, line: self.line as nat }
    }
}

impl DeepView for Target {
    type V = TargetView;

    open spec fn deep_view(&self) -> TargetView {
        self@
    }
}

/// The character that stands for the digit `d`, for `d` below ten.
pub open spec fn digit_char(d: nat) -> char {
    if d == 0 {
        '0'
    } else if d == 1 {
        '1'
    } else if d == 2 {
        '2'
    } else if d == 3 {
        '3'
    } else if d == 4 {
        '4'
    } else if d == 5 {
        '5'
    } else if d == 6 {
        '6'
    } else if d == 7 {
        '7'
    } else if d == 8 {
        '8'
    } else {
        '9'
    }
}

/// The digits of `n` in base ten, most significant first, without leading
/// zeros; `0` is written as the single digit `0`.
pub open spec fn decimal(n: nat) -> Seq<char>
    decreases n,
{
    if n < 10 {
        seq![digit_char(n)]
    } else {
        decimal(n / 10).push(digit_char(n % 10))
    }
}

/// The one-line rendering of a target: `<file_path>:<line>: <name>`.
pub open spec fn rendered(target: TargetView) -> Seq<char> {
    target.file_path + seq![':'] + decimal(target.line) + seq![':', ' '] + target.name
}

fn digit_str(d: usize) -> (r: &'static str)
    requires
        d < 10,
    ensures
        r@ == seq![digit_char(d as nat)],
{
    proof {
        reveal_strlit("0");
        reveal_strlit("1");
        reveal_strlit("2");
        reveal_strlit("3");
        reveal_strlit("4");
        reveal_strlit("5");
        reveal_strlit("6");
        reveal_strlit("7");
        reveal_strlit("8");
        reveal_strlit("9");
    }
    let r = match d {
        0 => "0",
        1 => "1",
        2 => "2",
        3 => "3",
        4 => "4",
        5 => "5",
        6 => "6",
        7 => "7",
        8 => "8",
        _ => "9",
    };
    r
}

/// Writes `n` in base ten.
pub fn decimal_string(n: usize) -> (r: String)
    ensures
        r@ == decimal(n as nat),
    decreases n,
{
    if n < 10 {
        String::from_str(digit_str(n))
    } else {
        let mut digits = decimal_string(n / 10);
        digits.append(digit_str(n % 10));
        digits
    }
}

impl Target {
    /// Renders the target on one line, as `<file_path>:<line>: <name>`.
    pub fn to_string(&self) -> (r: String)
        ensures
            r@ == rendered(self@),
    {
        proof {
            reveal_strlit(":");
            reveal_strlit(": ");
        }
        let mut line = self.file_path.clone();
        line.append(":");
        line.append(decimal_string(self.line).as_str());
        line.append(": ");
        line.append(self.name.as_str());
        line
    }
}

} // verus!
