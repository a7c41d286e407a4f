mod format;

pub use format::OutputFormat;
pub use format::lemma_lib_idempotent;
pub use format::lemma_pic_idempotent;
pub use format::lemma_stat_idempotent;

use vstd::prelude::*;

verus! {

/// The abstract value of a command line: the program to run and its
/// arguments so far, in order.
pub ghost struct CmdView {
    /// The name of the program to run.
    pub program: Seq<char>,
    /// The arguments accumulated so far, in the order they will be
    /// handed to the process.
    pub args: Seq<Seq<char>>,
}

/// What a sequence of argument strings says: each argument as a
/// sequence of characters, in the same order.
pub open spec fn args_view(args: Seq<String>) -> Seq<Seq<char>> {
    args.map_values(|s: String| s@)
}

/// Appending one argument appends its characters' view and moves
/// nothing else.
pub proof fn lemma_args_view_push(args: Seq<String>, s: String)
    ensures
        args_view(args.push(s)) == args_view(args).push(s@),
{
    assert(args_view(args.push(s)) =~= args_view(args).push(s@));
}

/// The in-progress description of the process to run: the program name
/// and the argument list, filled incrementally by the builder and its
/// backend. It is a plain record; nothing here interprets the
/// arguments.
#[derive(Clone, Debug, PartialEq, Eq)]
pub struct Cmd {
    /// The name of the program to run.
    pub program: String,
    /// The arguments accumulated so far, in order.
    pub args: Vec<String>,
}

impl View for Cmd {
    type V = CmdView;

    open spec fn view(&self) -> CmdView {
        CmdView { program: self.program@, args: args_view(self.args@) }
    }
}

impl Cmd {
    /// A fresh command for the given program, with no arguments yet.
    pub fn new(program: &str) -> (c: Cmd)
        ensures
            c@.program == program@,
            c@.args == Seq::<Seq<char>>::empty(),
    {
        let c = Cmd { program: program.to_owned(), args: Vec::new() };
        proof {
            assert(c@.args =~= Seq::<Seq<char>>::empty());
        }
        c
    }

    /// Append one argument at the end of the list.
    pub fn arg(&mut self, a: &str)
        ensures
            final(self)@.program == old(self)@.program,
            final(self)@.args == old(self)@.args.push(a@),
    {
        let owned: String = a.to_owned();
        proof {
            lemma_args_view_push(self.args@, owned);
        }
        self.args.push(owned);
    }
}

/// The contract a concrete linker adapter satisfies. A backend declares,
/// as spec functions, which argument group each abstract operation
/// produces for its linker's syntax, and its executable operations
/// append exactly that group to the passed-in command and touch nothing
/// else. The builder never reorders or repeats the calls it delegates.
pub trait Linker: Sized {
    /// The name of the linker executable this backend drives.
    spec fn program_name(&self) -> Seq<char>;

    /// The bootstrap arguments every invocation of this linker starts
    /// with.
    spec fn bootstrap_args(&self) -> Seq<Seq<char>>;

    /// The destination this backend chooses when the caller sets none.
    spec fn default_dest(&self) -> Seq<char>;

    /// The arguments that select the given output format.
    spec fn format_group(&self, f: OutputFormat) -> Seq<Seq<char>>;

    /// The arguments that add one object file.
    spec fn obj_group(&self, path: Seq<char>) -> Seq<Seq<char>>;

    /// The arguments that set the output destination.
    spec fn output_group(&self, path: Seq<char>) -> Seq<Seq<char>>;

    /// The arguments that add one dynamic library reference.
    spec fn dylib_group(&self, name: Seq<char>) -> Seq<Seq<char>>;

    /// The arguments that add one static library reference.
    spec fn staticlib_group(&self, name: Seq<char>) -> Seq<Seq<char>>;

    /// The arguments that add one library search path.
    spec fn path_group(&self, path: Seq<char>) -> Seq<Seq<char>>;

    /// Return the initialized command: the linker executable and its
    /// bootstrap arguments.
    fn cmd(&self) -> (c: Cmd)
        ensures
            c@.program == self.program_name(),
            c@.args == self.bootstrap_args(),
    ;

    /// Set the output format.
    fn format(&self, cmd: &mut Cmd, format: OutputFormat)
        ensures
            final(cmd)@.program == old(cmd)@.program,
            final(cmd)@.args == old(cmd)@.args + self.format_group(format),
    ;

    /// Add an object. The common behaviour appends the path verbatim,
    /// with one call of [`Cmd::arg`].
    fn obj(&self, cmd: &mut Cmd, path: &str)
        ensures
            final(cmd)@.program == old(cmd)@.program,
            final(cmd)@.args == old(cmd)@.args + self.obj_group(path@),
    ;

    /// Set the output file. (like `ld -o`)
    fn output(&self, cmd: &mut Cmd, path: &str)
        ensures
            final(cmd)@.program == old(cmd)@.program,
            final(cmd)@.args == old(cmd)@.args + self.output_group(path@),
    ;

    /// Add a dynamic library. (like `ld -Bdynamic -l`)
    fn dylib(&self, cmd: &mut Cmd, name: &str)
        ensures
            final(cmd)@.program == old(cmd)@.program,
            final(cmd)@.args == old(cmd)@.args + self.dylib_group(name@),
    ;

    /// Add a static library. (like `ld -Bstatic -l`)
    fn staticlib(&self, cmd: &mut Cmd, name: &str)
        ensures
            final(cmd)@.program == old(cmd)@.program,
            final(cmd)@.args == old(cmd)@.args + self.staticlib_group(name@),
    ;

    /// Add a library searching path. (like `ld -L`)
    fn path(&self, cmd: &mut Cmd, path: &str)
        ensures
            final(cmd)@.program == old(cmd)@.program,
            final(cmd)@.args == old(cmd)@.args + self.path_group(path@),
    ;

    /// The destination the builder starts with before the caller sets
    /// one.
    fn default_output(&self) -> (r: String)
        ensures
            r@ == self.default_dest(),
    ;
}

} // verus!
