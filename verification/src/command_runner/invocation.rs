//! One argv invocation of an Android command.
use vstd::prelude::*;

verus! {

/// What an invocation is: the program path and its arguments.
pub struct InvocationView {
    pub program: Seq<char>,
    pub args: Seq<Seq<char>>,
}

/// An argv call that is never expanded by a shell.
#[derive(Debug, Clone, PartialEq, Eq)]
pub struct CommandInvocation {
    program: String,
    args: Vec<String>,
}

impl View for CommandInvocation {
    type V = InvocationView;

    closed spec fn view(&self) -> InvocationView {
        InvocationView { program: self.program@, args: self.args.deep_view() }
    }
}

/// The invocation of `program` with `args`.
pub open spec fn invocation(program: Seq<char>, args: Seq<Seq<char>>) -> InvocationView {
    InvocationView { program, args }
}

/// The character sequences of a list of string slices.
pub open spec fn strs_view(args: Seq<&str>) -> Seq<Seq<char>> {
    args.map_values(|a: &str| a@)
}

/// Owned copies of `args`, in order.
pub fn owned_strings(args: &[&str]) -> (r: Vec<String>)
    ensures
        r.deep_view() == strs_view(args@),
{
    let mut v: Vec<String> = Vec::new();
    let mut i: usize = 0;
    while i < args.len()
        invariant
            i <= args@.len(),
            v.deep_view() =~= strs_view(args@.take(i as int)),
        decreases args@.len() - i,
    {
        let ghost before = v.deep_view();
        let s = args[i].to_owned();
        v.push(s);
        proof {
            assert(v.deep_view() =~= before.push(args@[i as int]@));
            assert(args@.take(i + 1) =~= args@.take(i as int).push(args@[i as int]));
        }
        i = i + 1;
    }
    assert(args@.take(args@.len() as int) =~= args@);
    v
}

/// A copy of a list of strings.
pub fn copy_strings(args: &Vec<String>) -> (r: Vec<String>)
    ensures
        r.deep_view() == args.deep_view(),
{
    let mut v: Vec<String> = Vec::new();
    let mut i: usize = 0;
    while i < args.len()
        invariant
            i <= args@.len(),
            v.deep_view() =~= args.deep_view().take(i as int),
        decreases args@.len() - i,
    {
        let ghost before = v.deep_view();
        let s = args[i].clone();
        v.push(s);
        proof {
            assert(v.deep_view() =~= before.push(args@[i as int]@));
        }
        i = i + 1;
    }
    v
}

impl CommandInvocation {
    /// An argv call of `program` with `args`.
    pub fn new(program: &str, args: &[&str]) -> (r: Self)
        ensures
            r@ == invocation(program@, strs_view(args@)),
    {
        CommandInvocation { program: program.to_owned(), args: owned_strings(args) }
    }

    /// An argv call of `program` with already owned `args`.
    pub fn from_parts(program: String, args: Vec<String>) -> (r: Self)
        ensures
            r@ == invocation(program@, args.deep_view()),
    {
        CommandInvocation { program, args }
    }

    /// The absolute path of the command.
    pub fn program(&self) -> (r: &str)
        ensures
            r@ == self@.program,
    {
        self.program.as_str()
    }

    /// The arguments.
    pub fn args(&self) -> (r: &[String])
        ensures
            r@.map_values(|a: String| a@) == self@.args,
    {
        self.args.as_slice()
    }

    /// The whole argv: the program followed by the arguments.
    pub fn argv(&self) -> (r: Vec<String>)
        ensures
            r.deep_view() == seq![self@.program] + self@.args,
    {
        let mut argv: Vec<String> = Vec::new();
        argv.push(self.program.clone());
        let mut i: usize = 0;
        while i < self.args.len()
            invariant
                i <= self.args@.len(),
                argv.deep_view() =~= seq![self.program@] + self.args.deep_view().take(i as int),
            decreases self.args@.len() - i,
        {
            let ghost before = argv.deep_view();
            argv.push(self.args[i].clone());
            proof {
                assert(argv.deep_view() =~= before.push(self.args@[i as int]@));
            }
            i = i + 1;
        }
        argv
    }

    /// A copy with the same program and arguments.
    pub fn duplicate(&self) -> (r: Self)
        ensures
            r@ == self@,
    {
        CommandInvocation { program: self.program.clone(), args: copy_strings(&self.args) }
    }
}

} // verus!
