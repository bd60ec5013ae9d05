//! The failed command as the shell integration records it, and the prompt
//! that the model is given for it.

use vstd::prelude::*;
use vstd::string::*;
use crate::decimal::{i32_of, parse_i32};
use crate::text::{chars_of, line_at, line_bounds, lines, lines_from, push_part};

verus! {

/// A failed shell invocation.
pub struct CommandContext {
    pub command: String,
    pub exit_code: i32,
    pub stderr: String,
}

/// Each line quoted as `"> line\n"`.
pub open spec fn quoted(ls: Seq<Seq<char>>) -> Seq<char>
    decreases ls.len(),
{
    if ls.len() == 0 {
        Seq::empty()
    } else {
        seq!['>', ' '] + ls[0] + seq!['\n'] + quoted(ls.drop_first())
    }
}

/// The prompt for a failed command: `"$ command\n"`, each line of its error
/// output as `"> line\n"`, then `"OP:"`.
pub open spec fn prompt_spec(command: Seq<char>, stderr: Seq<char>) -> Seq<char> {
    seq!['$', ' '] + command + seq!['\n'] + quoted(lines(stderr)) + seq!['O', 'P', ':']
}

/// The lines joined with `'\n'` between them.
pub open spec fn joined(ls: Seq<Seq<char>>) -> Seq<char>
    decreases ls.len(),
{
    if ls.len() == 0 {
        Seq::empty()
    } else if ls.len() == 1 {
        ls[0]
    } else {
        joined(ls.drop_last()) + seq!['\n'] + ls.last()
    }
}

/// Builds the model's prompt for a failed command.
pub fn format_prompt(ctx: &CommandContext) -> (r: String)
    ensures
        r@ == prompt_spec(ctx.command@, ctx.stderr@),
{
    proof {
        reveal_strlit("$ ");
        reveal_strlit("\n");
        reveal_strlit("> ");
        reveal_strlit("OP:");
        assert("> "@ =~= seq!['>', ' ']);
        assert("\n"@ =~= seq!['\n']);
        assert("$ "@ =~= seq!['$', ' ']);
        assert("OP:"@ =~= seq!['O', 'P', ':']);
    }
    let mut out = String::new();
    out.append("$ ");
    out.append(ctx.command.as_str());
    out.append("\n");
    let ghost head = out@;
    assert(head =~= seq!['$', ' '] + ctx.command@ + seq!['\n']);
    let err = ctx.stderr.as_str();
    let v = chars_of(err);
    let n = v.len();
    let mut start: usize = 0;
    while start < n
        invariant
            n == v@.len(),
            v@ == err@,
            err@ == ctx.stderr@,
            start <= n,
            out@ + quoted(lines_from(v@, start as int)) == head + quoted(lines(v@)),
        decreases n - start,
    {
        let (te, e) = line_bounds(&v, start);
        let ghost line = line_at(v@, start as int);
        let ghost rest = lines_from(v@, e + 1);
        let ghost before = out@;
        proof {
            reveal_strlit("> ");
            reveal_strlit("\n");
            assert("> "@ =~= seq!['>', ' ']);
            assert("\n"@ =~= seq!['\n']);
        }
        assert((seq![line] + rest)[0] == line);
        assert((seq![line] + rest).drop_first() =~= rest);
        out.append("> ");
        push_part(&mut out, err, start, te);
        out.append("\n");
        assert(out@ =~= before + seq!['>', ' '] + line + seq!['\n']);
        assert(quoted(lines_from(v@, start as int)) == seq!['>', ' '] + line + seq!['\n'] + quoted(
            rest,
        ));
        assert(out@ + quoted(rest) =~= before + quoted(lines_from(v@, start as int)));
        if e >= n {
            start = n;
            assert(lines_from(v@, start as int).len() == 0);
            assert(quoted(lines_from(v@, start as int)) =~= quoted(rest));
        } else {
            start = e + 1;
        }
    }
    assert(lines_from(v@, start as int).len() == 0);
    assert(out@ =~= head + quoted(lines(v@)));
    out.append("OP:");
    assert(out@ =~= prompt_spec(ctx.command@, ctx.stderr@));
    out
}

/// The context that a record written by the shell integration holds: the
/// command on its first line, the exit code on its second (1 where it is
/// missing or no `i32`), the error output on the lines after.
pub open spec fn context_spec(contents: Seq<char>) -> (Seq<char>, i32, Seq<char>) {
    let ls = lines(contents);
    let command = if ls.len() > 0 {
        ls[0]
    } else {
        Seq::empty()
    };
    let code = if ls.len() > 1 {
        match i32_of(ls[1]) {
            Some(c) => c,
            None => 1,
        }
    } else {
        1
    };
    let stderr = if ls.len() > 2 {
        joined(ls.subrange(2, ls.len() as int))
    } else {
        Seq::empty()
    };
    (command, code, stderr)
}

/// Reads a record written by the shell integration.
pub fn parse_command_context(contents: &str) -> (r: CommandContext)
    ensures
        (r.command@, r.exit_code, r.stderr@) == context_spec(contents@),
{
    proof {
        reveal_strlit("\n");
        assert("\n"@ =~= seq!['\n']);
    }
    let v = chars_of(contents);
    let n = v.len();
    let mut command = String::new();
    let mut exit_code: i32 = 1;
    let mut stderr = String::new();
    let mut count: usize = 0;
    let ghost mut done: Seq<Seq<char>> = Seq::empty();
    let mut start: usize = 0;
    while start < n
        invariant
            n == v@.len(),
            v@ == contents@,
            start <= n,
            count == (if done.len() < 3 {
                done.len()
            } else {
                3
            }),
            lines(v@) == done + lines_from(v@, start as int),
            command@ == (if done.len() > 0 {
                done[0]
            } else {
                Seq::empty()
            }),
            exit_code == (if done.len() > 1 {
                match i32_of(done[1]) {
                    Some(c) => c,
                    None => 1,
                }
            } else {
                1
            }),
            stderr@ == (if done.len() > 2 {
                joined(done.subrange(2, done.len() as int))
            } else {
                Seq::empty()
            }),
        decreases n - start,
    {
        let (te, e) = line_bounds(&v, start);
        let ghost line = line_at(v@, start as int);
        let ghost old_done = done;
        proof {
            done = done.push(line);
            assert(old_done + lines_from(v@, start as int) =~= done + lines_from(v@, e + 1));
        }
        if count == 0 {
            push_part(&mut command, contents, start, te);
            assert(command@ =~= done[0]);
        } else if count == 1 {
            exit_code = match parse_i32(&v, start, te) {
                Some(c) => c,
                None => 1,
            };
        } else {
            let ghost prev = stderr@;
            proof {
                reveal_strlit("\n");
                assert("\n"@ =~= seq!['\n']);
            }
            if count > 2 {
                stderr.append("\n");
            }
            push_part(&mut stderr, contents, start, te);
            let ghost tail = done.subrange(2, done.len() as int);
            assert(tail.drop_last() =~= old_done.subrange(2, old_done.len() as int));
            assert(tail.last() == line);
            assert(count == 2 ==> tail.len() == 1);
            assert(stderr@ =~= joined(tail));
        }
        if count < 3 {
            count = count + 1;
        }
        if e >= n {
            start = n;
        } else {
            start = e + 1;
        }
    }
    assert(done + lines_from(v@, start as int) =~= done);
    CommandContext { command, exit_code, stderr }
}

} // verus!
