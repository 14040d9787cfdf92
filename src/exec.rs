//! Composing external command lines, and settling their outcome.
use vstd::prelude::*;

use crate::text::{join_words, joined, owned};

verus! {

/// What a composed command is: the program, its arguments in order, and the
/// two presentation switches.
pub ghost struct CommandView {
    pub program: Seq<char>,
    pub args: Seq<Seq<char>>,
    pub show: bool,
    pub inherit: bool,
}

impl CommandView {
    /// This command with `a` appended to its arguments.
    pub open spec fn push_arg(self, a: Seq<char>) -> CommandView {
        CommandView { args: self.args.push(a), ..self }
    }

    /// This command with the words `w` appended to its arguments.
    pub open spec fn push_args(self, w: Seq<Seq<char>>) -> CommandView {
        CommandView { args: self.args + w, ..self }
    }

    /// This command with `a` appended when `cond` holds, and unchanged otherwise.
    pub open spec fn push_arg_if(self, cond: bool, a: Seq<char>) -> CommandView {
        if cond {
            self.push_arg(a)
        } else {
            self
        }
    }

    /// The program followed by its arguments.
    pub open spec fn words(self) -> Seq<Seq<char>> {
        seq![self.program] + self.args
    }
}

/// A command with no arguments, echoed and run on the terminal.
pub open spec fn command(program: Seq<char>) -> CommandView {
    CommandView { program, args: Seq::empty(), show: true, inherit: true }
}

/// A command with the given arguments, echoed and run on the terminal.
pub open spec fn command_with(program: Seq<char>, args: Seq<Seq<char>>) -> CommandView {
    CommandView { program, args, show: true, inherit: true }
}

/// The views of a list of strings.
pub open spec fn views(v: Seq<String>) -> Seq<Seq<char>> {
    v.map_values(|s: String| s@)
}

/// The views of a list of string slices.
pub open spec fn str_views(v: Seq<&str>) -> Seq<Seq<char>> {
    v.map_values(|s: &str| s@)
}

/// The view of an optional string.
pub open spec fn opt_view(o: Option<String>) -> Option<Seq<char>> {
    match o {
        Some(s) => Some(s@),
        None => None,
    }
}

/// `flag` followed by `v` when there is a value, and nothing otherwise.
pub open spec fn opt_pair(flag: Seq<char>, v: Option<Seq<char>>) -> Seq<Seq<char>> {
    match v {
        Some(x) => seq![flag, x],
        None => Seq::empty(),
    }
}

/// Builder for an external command: a program and its arguments in order.
///
/// Each method takes the builder by value and hands back the changed one, so a
/// composed command is used by exactly one terminal call.
#[derive(Debug)]
pub struct CommandRunner {
    pub program: String,
    pub args: Vec<String>,
    pub show_command: bool,
    pub inherit_stdio: bool,
}

impl View for CommandRunner {
    type V = CommandView;

    open spec fn view(&self) -> CommandView {
        CommandView {
            program: self.program@,
            args: views(self.args@),
            show: self.show_command,
            inherit: self.inherit_stdio,
        }
    }
}

impl CommandRunner {
    /// A command for `program` with no arguments, echoed before it runs and
    /// attached to the terminal.
    pub fn new(program: &str) -> (r: Self)
        ensures
            r@ == command(program@),
    {
        let r = CommandRunner {
            program: owned(program),
            args: Vec::new(),
            show_command: true,
            inherit_stdio: true,
        };
        assert(r@.args =~= Seq::<Seq<char>>::empty());
        r
    }

    /// Appends each of `items`, in order.
    pub fn args(self, items: &[&str]) -> (r: Self)
        ensures
            r@ == self@.push_args(str_views(items@)),
    {
        let mut r = self;
        let mut i: usize = 0;
        while i < items.len()
            invariant
                i <= items@.len(),
                r@ == self@.push_args(str_views(items@.subrange(0, i as int))),
            decreases items@.len() - i,
        {
            r = r.arg(items[i]);
            assert(str_views(items@.subrange(0, i + 1)) =~= str_views(
                items@.subrange(0, i as int),
            ).push(items@[i as int]@));
            i += 1;
        }
        assert(items@.subrange(0, items@.len() as int) =~= items@);
        r
    }

    /// Appends each of `items`, in order.
    pub fn args_owned(self, items: &Vec<String>) -> (r: Self)
        ensures
            r@ == self@.push_args(views(items@)),
    {
        let mut r = self;
        let mut i: usize = 0;
        while i < items.len()
            invariant
                i <= items@.len(),
                r@ == self@.push_args(views(items@.subrange(0, i as int))),
            decreases items@.len() - i,
        {
            r = r.arg(items[i].as_str());
            assert(views(items@.subrange(0, i + 1)) =~= views(items@.subrange(0, i as int)).push(
                items@[i as int]@,
            ));
            i += 1;
        }
        assert(items@.subrange(0, items@.len() as int) =~= items@);
        r
    }

    /// Appends `a`.
    pub fn arg(self, a: &str) -> (r: Self)
        ensures
            r@ == self@.push_arg(a@),
    {
        let mut r = self;
        r.args.push(owned(a));
        assert(r@.args =~= self@.args.push(a@));
        r
    }

    /// Appends each of `items` when `condition` holds; otherwise changes nothing.
    pub fn args_if(self, condition: bool, items: &[&str]) -> (r: Self)
        ensures
            condition ==> r@ == self@.push_args(str_views(items@)),
            !condition ==> r@ == self@,
    {
        if condition {
            self.args(items)
        } else {
            self
        }
    }

    /// Appends `a` when `condition` holds; otherwise changes nothing.
    pub fn arg_if(self, condition: bool, a: &str) -> (r: Self)
        ensures
            r@ == self@.push_arg_if(condition, a@),
    {
        if condition {
            self.arg(a)
        } else {
            self
        }
    }

    /// Appends `flag` and then `value` when there is a value; otherwise changes nothing.
    pub fn arg_pair(self, flag: &str, value: &Option<String>) -> (r: Self)
        ensures
            r@ == self@.push_args(opt_pair(flag@, opt_view(*value))),
    {
        match value {
            Some(v) => {
                let r = self.arg(flag).arg(v.as_str());
                assert(r@.args =~= self@.args + opt_pair(flag@, opt_view(*value)));
                r
            },
            None => {
                assert(self@.args + opt_pair(flag@, opt_view(*value)) =~= self@.args);
                self
            },
        }
    }

    /// Sets whether the command line is echoed before the command runs.
    pub fn show_command(self, show: bool) -> (r: Self)
        ensures
            r@ == (CommandView { show, ..self@ }),
    {
        let mut r = self;
        r.show_command = show;
        r
    }

    /// Sets whether the command shares the terminal (otherwise its output is captured).
    pub fn inherit_stdio(self, inherit: bool) -> (r: Self)
        ensures
            r@ == (CommandView { inherit, ..self@ }),
    {
        let mut r = self;
        r.inherit_stdio = inherit;
        r
    }

    /// The program and its arguments joined by spaces, for display; no quoting
    /// is applied.
    pub fn command_string(&self) -> (r: String)
        ensures
            r@ == joined(self@.words()),
    {
        let mut w: Vec<String> = Vec::new();
        w.push(owned(self.program.as_str()));
        let mut i: usize = 0;
        while i < self.args.len()
            invariant
                i <= self.args@.len(),
                views(w@) == seq![self.program@] + views(self.args@.subrange(0, i as int)),
            decreases self.args@.len() - i,
        {
            let ghost before = views(w@);
            w.push(owned(self.args[i].as_str()));
            assert(views(w@) =~= before.push(self.args@[i as int]@));
            assert(views(self.args@.subrange(0, i + 1)) =~= views(self.args@.subrange(0, i as int)).push(self.args@[i as int]@));
            assert(views(w@) =~= seq![self.program@] + views(self.args@.subrange(0, i + 1)));
            i += 1;
        }
        assert(self.args@.subrange(0, self.args@.len() as int) =~= self.args@);
        proof { reveal_strlit(" "); }
        assert(" "@ =~= seq![' ']);
        join_words(&w, " ")
    }

    /// Settles the command from what its process reported: success exactly
    /// when it exited with code 0.
    pub fn run(self, outcome: ProcessOutcome) -> (r: Result<(), ExecError>)
        ensures
            match outcome {
                ProcessOutcome::NotStarted => r matches Err(ExecError::SpawnFailed { program })
                    && program@ == self@.program,
                ProcessOutcome::Exited(0) => r == Ok::<(), ExecError>(()),
                ProcessOutcome::Exited(c) => r == Err::<(), ExecError>(
                    ExecError::NonZeroExit { code: Some(c), stderr: None },
                ),
                ProcessOutcome::Killed => r == Err::<(), ExecError>(
                    ExecError::NonZeroExit { code: None, stderr: None },
                ),
            },
    {
        match outcome {
            ProcessOutcome::NotStarted => Err(ExecError::SpawnFailed { program: self.program }),
            ProcessOutcome::Exited(code) => {
                if code == 0 {
                    Ok(())
                } else {
                    Err(ExecError::NonZeroExit { code: Some(code), stderr: None })
                }
            },
            ProcessOutcome::Killed => Err(ExecError::NonZeroExit { code: None, stderr: None }),
        }
    }

    /// Settles a command whose output was captured. `stdout` and `stderr` are
    /// the captured text, `None` where it was not valid UTF-8; `stderr_excerpt`
    /// is the error output as far as it could be read, for the failure report.
    pub fn run_output(
        self,
        outcome: ProcessOutcome,
        stdout: Option<String>,
        stderr: Option<String>,
        stderr_excerpt: &str,
    ) -> (r: Result<(String, String), ExecError>)
        ensures
            match outcome {
                ProcessOutcome::NotStarted => r matches Err(ExecError::SpawnFailed { program })
                    && program@ == self@.program,
                ProcessOutcome::Exited(0) => match (stdout, stderr) {
                    (Some(o), Some(e)) => r == Ok::<(String, String), ExecError>((o, e)),
                    _ => r == Err::<(String, String), ExecError>(ExecError::InvalidOutputEncoding),
                },
                ProcessOutcome::Exited(c) => r matches Err(ExecError::NonZeroExit { code, stderr: Some(x) })
                    && code == Some(c) && x@ == crate::text::trimmed(stderr_excerpt@),
                ProcessOutcome::Killed => r matches Err(ExecError::NonZeroExit { code, stderr: Some(x) })
                    && code == None::<i32> && x@ == crate::text::trimmed(stderr_excerpt@),
            },
    {
        let code = match outcome {
            ProcessOutcome::NotStarted => {
                return Err(ExecError::SpawnFailed { program: self.program });
            },
            ProcessOutcome::Exited(c) => Some(c),
            ProcessOutcome::Killed => None,
        };
        if code != Some(0i32) {
            let excerpt = owned(crate::text::trim(stderr_excerpt));
            return Err(ExecError::NonZeroExit { code, stderr: Some(excerpt) });
        }
        match (stdout, stderr) {
            (Some(o), Some(e)) => Ok((o, e)),
            _ => Err(ExecError::InvalidOutputEncoding),
        }
    }
}

/// What became of a child process.
#[derive(Debug, Clone, Copy, PartialEq, Eq)]
pub enum ProcessOutcome {
    /// It could not be started (program missing, permission denied, ...).
    NotStarted,
    /// It exited with this code.
    Exited(i32),
    /// It ended without an exit code (killed by a signal).
    Killed,
}

/// Why running an external command failed.
#[derive(Debug, PartialEq, Eq)]
pub enum ExecError {
    /// The program could not be started at all.
    SpawnFailed { program: String },
    /// It ran and exited with a non-zero code, or without one (`None`); for
    /// captured output, the trimmed error output comes along.
    NonZeroExit { code: Option<i32>, stderr: Option<String> },
    /// Captured output was not valid UTF-8.
    InvalidOutputEncoding,
}

/// The values that a chain of conditional appends adds: those whose condition
/// holds, in the order of the calls.
pub open spec fn kept(calls: Seq<(bool, Seq<char>)>) -> Seq<Seq<char>>
    decreases calls.len(),
{
    if calls.len() == 0 {
        Seq::empty()
    } else {
        kept(calls.drop_last()) + if calls.last().0 { seq![calls.last().1] } else { Seq::empty() }
    }
}

/// A command after the conditional appends `calls` (`arg_if`), made in order.
pub open spec fn after_arg_ifs(c: CommandView, calls: Seq<(bool, Seq<char>)>) -> CommandView
    decreases calls.len(),
{
    if calls.len() == 0 {
        c
    } else {
        after_arg_ifs(c, calls.drop_last()).push_arg_if(calls.last().0, calls.last().1)
    }
}

/// What a chain of calls keeps is what its two parts keep, one after the other.
pub proof fn lemma_kept_append(a: Seq<(bool, Seq<char>)>, b: Seq<(bool, Seq<char>)>)
    ensures
        kept(a + b) == kept(a) + kept(b),
    decreases b.len(),
{
    if b.len() == 0 {
        assert(a + b =~= a);
        assert(kept(a) + kept(b) =~= kept(a));
    } else {
        lemma_kept_append(a, b.drop_last());
        assert((a + b).drop_last() =~= a + b.drop_last());
        let t = if b.last().0 { seq![b.last().1] } else { Seq::<Seq<char>>::empty() };
        assert(kept(a) + kept(b.drop_last()) + t =~= kept(a) + (kept(b.drop_last()) + t));
    }
}

/// A chain of conditional appends adds exactly the values whose condition
/// holds, after the arguments already there and in the order of the calls; so a
/// value appended under a true condition sits at the position it was added at.
pub proof fn law_arg_if_chain(c: CommandView, calls: Seq<(bool, Seq<char>)>)
    ensures
        after_arg_ifs(c, calls) == c.push_args(kept(calls)),
        forall|k: int| 0 <= k < calls.len() && (#[trigger] calls[k]).0 ==>
            after_arg_ifs(c, calls).args[(c.args.len() + kept(calls.subrange(0, k)).len()) as int] == calls[k].1,
    decreases calls.len(),
{
    if calls.len() == 0 {
        assert(c.args + kept(calls) =~= c.args);
    } else {
        law_arg_if_chain(c, calls.drop_last());
        let t = if calls.last().0 { seq![calls.last().1] } else { Seq::<Seq<char>>::empty() };
        assert(c.args + kept(calls.drop_last()) + t =~= c.args + kept(calls));
        assert(after_arg_ifs(c, calls).args =~= c.args + kept(calls));
    }
    assert forall|k: int| 0 <= k < calls.len() && (#[trigger] calls[k]).0 implies
        after_arg_ifs(c, calls).args[(c.args.len() + kept(calls.subrange(0, k)).len()) as int] == calls[k].1 by {
        reveal_with_fuel(kept, 2);
        let pre = calls.subrange(0, k);
        let post = calls.subrange(k + 1, calls.len() as int);
        assert(calls =~= pre + seq![calls[k]] + post);
        lemma_kept_append(pre, seq![calls[k]]);
        lemma_kept_append(pre + seq![calls[k]], post);
        assert(seq![calls[k]].drop_last() =~= Seq::<(bool, Seq<char>)>::empty());
        assert(kept(seq![calls[k]]) =~= seq![calls[k].1]);
    }
}

/// A conditional append under a false condition changes nothing: the chain
/// gives the same command as the chain without that call.
pub proof fn law_arg_if_false_is_noop(c: CommandView, calls: Seq<(bool, Seq<char>)>, k: int)
    requires
        0 <= k < calls.len(),
        !calls[k].0,
    ensures
        after_arg_ifs(c, calls) == after_arg_ifs(c, calls.remove(k)),
{
    reveal_with_fuel(kept, 2);
    let pre = calls.subrange(0, k);
    let post = calls.subrange(k + 1, calls.len() as int);
    assert(calls =~= pre + seq![calls[k]] + post);
    assert(calls.remove(k) =~= pre + post);
    lemma_kept_append(pre, seq![calls[k]]);
    lemma_kept_append(pre + seq![calls[k]], post);
    lemma_kept_append(pre, post);
    assert(seq![calls[k]].drop_last() =~= Seq::<(bool, Seq<char>)>::empty());
    assert(kept(seq![calls[k]]) =~= Seq::<Seq<char>>::empty());
    assert(kept(pre) + kept(seq![calls[k]]) =~= kept(pre));
    law_arg_if_chain(c, calls);
    law_arg_if_chain(c, calls.remove(k));
}

} // verus!
