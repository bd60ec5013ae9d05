//! User configuration and the decisions of a correction run: whether to run
//! a fix at once, ask for confirmation, or let the user pick one.

use vstd::prelude::*;
use crate::decimal::{parse_usize, usize_of};
use crate::text::{chars_of, trim_bounds, trimmed};

verus! {

/// The user's settings.
pub struct Config {
    /// Run a suggested fix without asking.
    pub auto_execute: Option<bool>,
}

impl Config {
    /// The settings when there is no configuration file.
    pub fn empty() -> (r: Config)
        ensures
            r.auto_execute is None,
    {
        Config { auto_execute: None }
    }

    /// Whether fixes run without asking: the command-line flag, or the setting.
    pub fn auto_execute_with(&self, flag: bool) -> (r: bool)
        ensures
            r == (flag || self.auto_execute == Some(true)),
    {
        flag || match self.auto_execute {
            Some(b) => b,
            None => false,
        }
    }
}

/// What a correction run does with the fixes it got.
#[derive(PartialEq, Eq, Structural)]
pub enum Correction {
    /// There is none: say so.
    NoFix,
    /// Dry run: show the fixes and stop.
    ShowOnly,
    /// Show the only fix and run it once the user presses Enter.
    ConfirmThenRun,
    /// Run the fix with this index at once.
    Run(usize),
    /// List the fixes and let the user pick one.
    AskChoice,
}

pub open spec fn correction_spec(n: nat, dry_run: bool, auto_execute: bool) -> Correction {
    if n == 0 {
        Correction::NoFix
    } else if dry_run {
        Correction::ShowOnly
    } else if auto_execute {
        Correction::Run(0)
    } else if n == 1 {
        Correction::ConfirmThenRun
    } else {
        Correction::AskChoice
    }
}

/// Decides what to do with `n` fixes.
pub fn correction_step(n: usize, dry_run: bool, auto_execute: bool) -> (r: Correction)
    ensures
        r == correction_spec(n as nat, dry_run, auto_execute),
{
    if n == 0 {
        Correction::NoFix
    } else if dry_run {
        Correction::ShowOnly
    } else if auto_execute {
        Correction::Run(0)
    } else if n == 1 {
        Correction::ConfirmThenRun
    } else {
        Correction::AskChoice
    }
}

/// The fix that the user's answer picks among `n`: the number typed,
/// counted from 1 (1 when the answer is no number), kept within the list.
pub open spec fn pick_spec(answer: Seq<char>, n: nat) -> nat {
    let k: nat = match usize_of(trimmed(answer)) {
        Some(v) => v as nat,
        None => 1,
    };
    let i: nat = if k == 0 {
        0
    } else {
        (k - 1) as nat
    };
    if i < n {
        i
    } else {
        (n - 1) as nat
    }
}

/// Index of the fix that the user's answer picks among `n >= 1`.
pub fn pick_index(answer: &str, n: usize) -> (r: usize)
    requires
        n >= 1,
    ensures
        r as nat == pick_spec(answer@, n as nat),
        r < n,
{
    let v = chars_of(answer);
    let (lo, hi) = trim_bounds(&v);
    let k = match parse_usize(&v, lo, hi) {
        Some(k) => k,
        None => 1,
    };
    let i = if k == 0 {
        0
    } else {
        k - 1
    };
    if i < n {
        i
    } else {
        n - 1
    }
}

} // verus!
