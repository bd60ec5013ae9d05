//! The edit-operation language: a model answers with a short operation
//! (`REPLACE old new`, `FLAG f`, `PREPEND t`, `FULL cmd`, `NONE`), which is
//! parsed into an [`EditOp`] and applied to the failed command.

use vstd::prelude::*;
use vstd::string::*;
use crate::text::{
    chars_of, find, find_from, index_from, index_of, line_at, line_bounds, lines, lines_from, matches_at,
    occurs_at, push_part, starts_with, trim_bounds, trimmed,
};

verus! {

/// A parsed edit operation.
pub enum EditOp {
    /// Replace the first occurrence of `old` by `new`.
    Replace { old: String, new: String },
    /// Insert `flag` right after the program name.
    Flag { flag: String },
    /// Put `token` in front of the command.
    Prepend { token: String },
    /// Replace the whole command.
    Full { command: String },
    /// No fix: `NONE`, or text that is no operation.
    NoFix,
}

/// Mathematical form of an [`EditOp`].
pub enum EditOpModel {
    Replace(Seq<char>, Seq<char>),
    Flag(Seq<char>),
    Prepend(Seq<char>),
    Full(Seq<char>),
    NoFix,
}

impl View for EditOp {
    type V = EditOpModel;

    open spec fn view(&self) -> EditOpModel {
        match self {
            EditOp::Replace { old, new } => EditOpModel::Replace(old@, new@),
            EditOp::Flag { flag } => EditOpModel::Flag(flag@),
            EditOp::Prepend { token } => EditOpModel::Prepend(token@),
            EditOp::Full { command } => EditOpModel::Full(command@),
            EditOp::NoFix => EditOpModel::NoFix,
        }
    }
}

pub open spec fn kw_replace() -> Seq<char> {
    seq!['R', 'E', 'P', 'L', 'A', 'C', 'E']
}

pub open spec fn kw_flag() -> Seq<char> {
    seq!['F', 'L', 'A', 'G']
}

pub open spec fn kw_prepend() -> Seq<char> {
    seq!['P', 'R', 'E', 'P', 'E', 'N', 'D']
}

pub open spec fn kw_full() -> Seq<char> {
    seq!['F', 'U', 'L', 'L']
}

/// The operation that `op` denotes. The text is cut at its first two spaces
/// into a keyword, a first argument and the rest; `FULL` takes everything
/// after the keyword, `REPLACE` needs both arguments, `FLAG` and `PREPEND`
/// use the first.
pub open spec fn parse_spec(op: Seq<char>) -> EditOpModel {
    let s1 = index_from(op, ' ', 0);
    let head = op.subrange(0, s1);
    if s1 >= op.len() {
        if head == kw_full() {
            EditOpModel::Full(Seq::empty())
        } else {
            EditOpModel::NoFix
        }
    } else {
        let s2 = index_from(op, ' ', s1 + 1);
        let arg = op.subrange(s1 + 1, s2);
        if head == kw_replace() {
            if s2 < op.len() {
                EditOpModel::Replace(arg, op.subrange(s2 + 1, op.len() as int))
            } else {
                EditOpModel::NoFix
            }
        } else if head == kw_flag() {
            EditOpModel::Flag(arg)
        } else if head == kw_prepend() {
            EditOpModel::Prepend(arg)
        } else if head == kw_full() {
            EditOpModel::Full(op.subrange(s1 + 1, op.len() as int))
        } else {
            EditOpModel::NoFix
        }
    }
}

/// The command that applying `op` to `command` gives, if any.
pub open spec fn apply_spec(command: Seq<char>, op: EditOpModel) -> Option<Seq<char>> {
    match op {
        EditOpModel::Replace(old, new) => match find_from(command, old, 0) {
            Some(i) => Some(
                command.subrange(0, i) + new + command.subrange(i + old.len(), command.len() as int),
            ),
            None => None,
        },
        EditOpModel::Flag(flag) => {
            let s = index_from(command, ' ', 0);
            if s < command.len() {
                Some(
                    command.subrange(0, s) + seq![' '] + flag + seq![' '] + command.subrange(
                        s + 1,
                        command.len() as int,
                    ),
                )
            } else {
                Some(command + seq![' '] + flag)
            }
        },
        EditOpModel::Prepend(token) => Some(token + seq![' '] + command),
        EditOpModel::Full(c) => Some(c),
        EditOpModel::NoFix => None,
    }
}

/// The failed command recorded in a prompt: the rest of its first line that
/// begins with `"$ "`, or nothing.
pub open spec fn first_command(ls: Seq<Seq<char>>) -> Seq<char>
    decreases ls.len(),
{
    if ls.len() == 0 {
        Seq::empty()
    } else if starts_with(ls[0], seq!['$', ' ']) {
        ls[0].subrange(2, ls[0].len() as int)
    } else {
        first_command(ls.drop_first())
    }
}

/// The fixes that operation text `op` yields for `prompt`: none or one.
pub open spec fn fixes_spec(prompt: Seq<char>, op: Seq<char>) -> Seq<Seq<char>> {
    match apply_spec(first_command(lines(prompt)), parse_spec(trimmed(op))) {
        Some(fix) => seq![fix],
        None => Seq::empty(),
    }
}

/// Whether `v[from..to]` is exactly `kw`.
fn is_word(v: &Vec<char>, from: usize, to: usize, kw: &Vec<char>) -> (r: bool)
    requires
        from <= to <= v@.len(),
    ensures
        r == (v@.subrange(from as int, to as int) == kw@),
{
    if to - from != kw.len() {
        return false;
    }
    let r = matches_at(v, kw, from);
    assert(r ==> v@.subrange(from as int, to as int) =~= kw@);
    r
}

/// A fresh string holding `s[from..to]`.
fn part(s: &str, from: usize, to: usize) -> (r: String)
    requires
        from <= to <= s@.len(),
    ensures
        r@ == s@.subrange(from as int, to as int),
{
    let mut r = String::new();
    push_part(&mut r, s, from, to);
    assert(r@ =~= s@.subrange(from as int, to as int));
    r
}

/// Parses operation text.
pub fn parse_op(op: &str) -> (r: EditOp)
    ensures
        r@ == parse_spec(op@),
{
    let v = chars_of(op);
    let n = v.len();
    let s1 = index_of(&v, ' ', 0);
    let full = chars_of("FULL");
    proof {
        reveal_strlit("FULL");
        assert(full@ =~= kw_full());
    }
    if s1 >= n {
        if is_word(&v, 0, s1, &full) {
            return EditOp::Full { command: String::new() };
        }
        return EditOp::NoFix;
    }
    let s2 = index_of(&v, ' ', s1 + 1);
    let replace = chars_of("REPLACE");
    let flag = chars_of("FLAG");
    let prepend = chars_of("PREPEND");
    proof {
        reveal_strlit("REPLACE");
        reveal_strlit("FLAG");
        reveal_strlit("PREPEND");
        assert(replace@ =~= kw_replace());
        assert(flag@ =~= kw_flag());
        assert(prepend@ =~= kw_prepend());
    }
    if is_word(&v, 0, s1, &replace) {
        if s2 < n {
            EditOp::Replace { old: part(op, s1 + 1, s2), new: part(op, s2 + 1, n) }
        } else {
            EditOp::NoFix
        }
    } else if is_word(&v, 0, s1, &flag) {
        EditOp::Flag { flag: part(op, s1 + 1, s2) }
    } else if is_word(&v, 0, s1, &prepend) {
        EditOp::Prepend { token: part(op, s1 + 1, s2) }
    } else if is_word(&v, 0, s1, &full) {
        EditOp::Full { command: part(op, s1 + 1, n) }
    } else {
        EditOp::NoFix
    }
}

/// Applies a parsed operation to `command`.
pub fn apply(command: &str, op: &EditOp) -> (r: Option<String>)
    ensures
        match r {
            Some(s) => apply_spec(command@, op@) == Some(s@),
            None => apply_spec(command@, op@) is None,
        },
{
    proof {
        reveal_strlit(" ");
    }
    match op {
        EditOp::Replace { old, new } => {
            let cv = chars_of(command);
            let ov = chars_of(old.as_str());
            match find(&cv, &ov) {
                Some(i) => {
                    proof {
                        lemma_find_from_bounds(cv@, ov@, 0);
                    }
                    assert(i + ov@.len() <= cv@.len());
                    let n = cv.len();
                    let mut out = part(command, 0, i);
                    out.append(new.as_str());
                    push_part(&mut out, command, i + ov.len(), cv.len());
                    Some(out)
                },
                None => None,
            }
        },
        EditOp::Flag { flag } => {
            let cv = chars_of(command);
            let s = index_of(&cv, ' ', 0);
            if s < cv.len() {
                let mut out = part(command, 0, s);
                out.append(" ");
                out.append(flag.as_str());
                out.append(" ");
                push_part(&mut out, command, s + 1, cv.len());
                Some(out)
            } else {
                let mut out = part(command, 0, cv.len());
                assert(command@.subrange(0, cv@.len() as int) =~= command@);
                out.append(" ");
                out.append(flag.as_str());
                Some(out)
            }
        },
        EditOp::Prepend { token } => {
            let mut out = token.clone();
            out.append(" ");
            out.append(command);
            Some(out)
        },
        EditOp::Full { command: c } => Some(c.clone()),
        EditOp::NoFix => None,
    }
}

pub proof fn lemma_find_from_bounds(s: Seq<char>, p: Seq<char>, i: int)
    requires
        0 <= i,
    ensures
        find_from(s, p, i) is Some ==> i <= find_from(s, p, i)->0 && occurs_at(
            s,
            p,
            find_from(s, p, i)->0,
        ),
    decreases s.len() + 1 - i,
{
    if i + p.len() <= s.len() && !occurs_at(s, p, i) {
        lemma_find_from_bounds(s, p, i + 1);
    }
}

/// Applies the operation written as text `op` to `command`.
pub fn apply_op(command: &str, op: &str) -> (r: Option<String>)
    ensures
        match r {
            Some(s) => apply_spec(command@, parse_spec(op@)) == Some(s@),
            None => apply_spec(command@, parse_spec(op@)) is None,
        },
{
    let parsed = parse_op(op);
    apply(command, &parsed)
}

/// The failed command recorded in `prompt` (see [`first_command`]).
pub fn command_of(prompt: &str) -> (r: String)
    ensures
        r@ == first_command(lines(prompt@)),
{
    let v = chars_of(prompt);
    let n = v.len();
    let mut start: usize = 0;
    while start < n
        invariant
            n == v@.len(),
            v@ == prompt@,
            start <= n,
            first_command(lines(prompt@)) == first_command(lines_from(prompt@, start as int)),
        decreases n - start,
    {
        let (te, e) = line_bounds(&v, start);
        let ghost line = line_at(prompt@, start as int);
        let ghost rest = lines_from(prompt@, e + 1);
        assert((seq![line] + rest)[0] == line);
        assert((seq![line] + rest).drop_first() =~= rest);
        if te - start >= 2 && v[start] == '$' && v[start + 1] == ' ' {
            assert(line.subrange(0, 2) =~= seq!['$', ' ']);
            let r = part(prompt, start + 2, te);
            assert(r@ =~= line.subrange(2, line.len() as int));
            return r;
        }
        if te - start >= 2 {
            assert(line.subrange(0, 2) != seq!['$', ' ']) by {
                if v[start as int] != '$' {
                    assert(line.subrange(0, 2)[0] != seq!['$', ' '][0]);
                } else {
                    assert(line.subrange(0, 2)[1] != seq!['$', ' '][1]);
                }
            }
        }
        if e >= n {
            assert(first_command(rest) == Seq::<char>::empty());
            return String::new();
        }
        start = e + 1;
    }
    String::new()
}

/// The fixes for `prompt` that operation text `op` yields: none or one.
pub fn infer_from_op(prompt: &str, op: &str) -> (r: Vec<String>)
    ensures
        r@.map_values(|s: String| s@) == fixes_spec(prompt@, op@),
{
    let command = command_of(prompt);
    let v = chars_of(op);
    let (lo, hi) = trim_bounds(&v);
    let t = part(op, lo, hi);
    let mut r: Vec<String> = Vec::new();
    match apply_op(command.as_str(), t.as_str()) {
        Some(fix) => {
            r.push(fix);
            assert(r@.map_values(|s: String| s@) =~= fixes_spec(prompt@, op@));
        },
        None => {
            assert(r@.map_values(|s: String| s@) =~= fixes_spec(prompt@, op@));
        },
    }
    r
}

} // verus!
