//! The command template and the command line built from it for one path.

use vstd::prelude::*;
use vstd::string::*;
use crate::text::chars_of;

verus! {

/// `arg` with every occurrence of the placeholder `{}` replaced by `path`,
/// read from left to right; the path is put in as it is.
pub open spec fn substituted(arg: Seq<char>, path: Seq<char>) -> Seq<char>
    decreases arg.len(),
{
    if arg.len() == 0 {
        arg
    } else if arg.len() >= 2 && arg[0] == '{' && arg[1] == '}' {
        path + substituted(arg.skip(2), path)
    } else {
        seq![arg[0]] + substituted(arg.skip(1), path)
    }
}

/// Each argument of the template with the placeholder replaced by `path`.
pub open spec fn substituted_all(args: Seq<Seq<char>>, path: Seq<char>) -> Seq<Seq<char>> {
    Seq::new(args.len(), |i: int| substituted(args[i], path))
}

/// Whether the placeholder occurs in `arg`.
pub open spec fn has_placeholder(arg: Seq<char>) -> bool {
    exists|i: int| 0 <= i && i + 1 < arg.len() && arg[i] == '{' && #[trigger] arg[i + 1] == '}'
}

/// An argument without the placeholder is passed through unchanged.
pub proof fn substituted_without_placeholder(arg: Seq<char>, path: Seq<char>)
    requires
        !has_placeholder(arg),
    ensures
        substituted(arg, path) == arg,
    decreases arg.len(),
{
    if arg.len() > 0 {
        if arg.len() >= 2 {
            assert(!(arg[0int] == '{' && arg[0int + 1] == '}'));
        }
        let rest = arg.skip(1);
        assert forall|i: int| 0 <= i && i + 1 < rest.len() implies !(rest[i] == '{'
            && #[trigger] rest[i + 1] == '}') by {
            assert(!(arg[i + 1] == '{' && arg[(i + 1) + 1] == '}'));
        }
        substituted_without_placeholder(rest, path);
        assert(seq![arg[0]] + rest =~= arg);
    }
}

/// A program and the arguments it is started with.
#[derive(Debug, PartialEq, Eq)]
pub struct CommandLine {
    pub program: String,
    pub args: Vec<String>,
}

/// A `CommandLine` as plain values.
pub struct CommandLineView {
    pub program: Seq<char>,
    pub args: Seq<Seq<char>>,
}

impl CommandLineView {
    /// The whole argument vector: the program, then its arguments.
    pub open spec fn argv(self) -> Seq<Seq<char>> {
        seq![self.program] + self.args
    }
}

impl View for CommandLine {
    type V = CommandLineView;

    open spec fn view(&self) -> CommandLineView {
        CommandLineView { program: self.program@, args: self.args.deep_view() }
    }
}

impl CommandLine {
    /// The whole argument vector: the program, then its arguments.
    pub fn argv(&self) -> (argv: Vec<String>)
        ensures
            argv.deep_view() == self@.argv(),
    {
        let mut argv: Vec<String> = Vec::new();
        argv.push(self.program.clone());
        let mut i: usize = 0;
        assert(argv.deep_view() =~= seq![self.program@] + self.args.deep_view().take(0));
        while i < self.args.len()
            invariant
                i <= self.args.len(),
                argv.deep_view() == seq![self.program@] + self.args.deep_view().take(i as int),
            decreases self.args.len() - i,
        {
            let ghost done = argv.deep_view();
            argv.push(self.args[i].clone());
            assert(argv.deep_view() =~= done.push(self.args[i as int]@));
            assert(self.args.deep_view().take(i + 1) =~= self.args.deep_view().take(i as int).push(
                self.args[i as int]@,
            ));
            i += 1;
        }
        assert(self.args.deep_view().take(i as int) =~= self.args.deep_view());
        argv
    }
}

/// `arg` with every `{}` replaced by `path`.
pub fn substitute(arg: &str, path: &str) -> (out: String)
    ensures
        out@ == substituted(arg@, path@),
{
    let v = chars_of(arg);
    let mut out = String::new();
    let mut i: usize = 0;
    assert(v@.skip(0) =~= v@);
    while i < v.len()
        invariant
            i <= v.len(),
            v@ == arg@,
            substituted(arg@, path@) == out@ + substituted(v@.skip(i as int), path@),
        decreases v.len() - i,
    {
        let ghost rest = v@.skip(i as int);
        let ghost done = out@;
        if v[i] == '{' && i + 1 < v.len() && v[i + 1] == '}' {
            assert(rest.skip(2) =~= v@.skip(i + 2));
            out.append(path);
            assert(out@ + substituted(v@.skip(i + 2), path@) =~= done + substituted(rest, path@));
            i += 2;
        } else {
            assert(rest.skip(1) =~= v@.skip(i + 1));
            out.push(v[i]);
            assert(out@ + substituted(v@.skip(i + 1), path@) =~= done + substituted(rest, path@));
            i += 1;
        }
    }
    assert(out@ + Seq::<char>::empty() =~= out@);
    out
}

/// The command line for `path`: the program as it is, and each argument of
/// the template with the placeholder replaced.
pub fn build(program: &String, args: &Vec<String>, path: &str) -> (command: CommandLine)
    ensures
        command@.program == program@,
        command@.args == substituted_all(args.deep_view(), path@),
{
    let mut built: Vec<String> = Vec::new();
    let mut i: usize = 0;
    while i < args.len()
        invariant
            i <= args.len(),
            built.len() == i,
            forall|j: int|
                0 <= j < i ==> (#[trigger] built[j])@ == substituted(args[j]@, path@),
        decreases args.len() - i,
    {
        built.push(substitute(args[i].as_str(), path));
        i += 1;
    }
    assert(built.deep_view() =~= substituted_all(args.deep_view(), path@));
    CommandLine { program: program.clone(), args: built }
}

} // verus!
