use vstd::prelude::*;

use crate::error::{CmdOutput, IoError, LinkError, LinkResult};
use crate::linker::{args_view, Cmd, Linker, OutputFormat};

verus! {

/// The arguments a backend produces for a run of object files, one
/// group per file, in order.
pub open spec fn objs_groups<L: Linker>(l: L, paths: Seq<Seq<char>>) -> Seq<Seq<char>>
    decreases paths.len(),
{
    if paths.len() == 0 {
        Seq::empty()
    } else {
        objs_groups(l, paths.drop_last()) + l.obj_group(paths.last())
    }
}

/// The arguments a backend produces for a run of library search paths,
/// one group per path, in order.
pub open spec fn paths_groups<L: Linker>(l: L, paths: Seq<Seq<char>>) -> Seq<Seq<char>>
    decreases paths.len(),
{
    if paths.len() == 0 {
        Seq::empty()
    } else {
        paths_groups(l, paths.drop_last()) + l.path_group(paths.last())
    }
}

/// The arguments that select an output format: the backend's group for
/// it when one was chosen, nothing when none was.
pub open spec fn fmt_groups<L: Linker>(l: L, f: Option<OutputFormat>) -> Seq<Seq<char>> {
    match f {
        Some(g) => l.format_group(g),
        None => Seq::empty(),
    }
}

/// The resolved paths in a sequence of resolution outcomes.
pub open spec fn ok_views(rs: Seq<Result<String, IoError>>) -> Seq<Seq<char>> {
    rs.map_values(|r: Result<String, IoError>| r->Ok_0@)
}

/// How many outcomes succeeded before the first failure: the length of
/// the longest all-successful prefix.
pub open spec fn oks_len(rs: Seq<Result<String, IoError>>) -> int
    decreases rs.len(),
{
    if rs.len() == 0 || rs[0] is Err {
        0
    } else {
        1 + oks_len(rs.drop_first())
    }
}

/// `oks_len` names the first failure: everything before it succeeded,
/// and the outcome there, if any, failed.
pub proof fn lemma_oks_len(rs: Seq<Result<String, IoError>>)
    ensures
        0 <= oks_len(rs) <= rs.len(),
        forall|j: int| 0 <= j < oks_len(rs) ==> rs[j] is Ok,
        oks_len(rs) < rs.len() ==> rs[oks_len(rs)] is Err,
    decreases rs.len(),
{
    if rs.len() != 0 && rs[0] is Ok {
        lemma_oks_len(rs.drop_first());
        assert(forall|j: int| 0 <= j < oks_len(rs) ==> rs[j] is Ok) by {
            assert(forall|j: int| 1 <= j < oks_len(rs) ==> rs[j] == rs.drop_first()[j - 1]);
        }
        if oks_len(rs) < rs.len() {
            assert(rs[oks_len(rs)] == rs.drop_first()[oks_len(rs.drop_first())]);
        }
    }
}

/// A run whose first `i` outcomes succeeded and whose `i`-th, if any,
/// failed has exactly `i` as its all-successful prefix length.
pub proof fn lemma_oks_len_from_prefix(rs: Seq<Result<String, IoError>>, i: int)
    requires
        0 <= i <= rs.len(),
        forall|j: int| 0 <= j < i ==> rs[j] is Ok,
        i < rs.len() ==> rs[i] is Err,
    ensures
        oks_len(rs) == i,
    decreases rs.len(),
{
    if rs.len() != 0 && rs[0] is Ok {
        assert(forall|j: int| 0 <= j < i - 1 ==> rs.drop_first()[j] == rs[j + 1]);
        if i - 1 < rs.drop_first().len() {
            assert(rs.drop_first()[i - 1] == rs[i]);
        }
        lemma_oks_len_from_prefix(rs.drop_first(), i - 1);
    }
}

/// Taking in one more path appends exactly one more group.
proof fn lemma_objs_groups_snoc<L: Linker>(l: L, paths: Seq<Seq<char>>, i: int)
    requires
        0 <= i < paths.len(),
    ensures
        objs_groups(l, paths.take(i + 1)) == objs_groups(l, paths.take(i)) + l.obj_group(
            paths[i],
        ),
{
    assert(paths.take(i + 1).drop_last() =~= paths.take(i));
    assert(paths.take(i + 1).last() == paths[i]);
}

/// Taking in one more search path appends exactly one more group.
proof fn lemma_paths_groups_snoc<L: Linker>(l: L, paths: Seq<Seq<char>>, i: int)
    requires
        0 <= i < paths.len(),
    ensures
        paths_groups(l, paths.take(i + 1)) == paths_groups(l, paths.take(i)) + l.path_group(
            paths[i],
        ),
{
    assert(paths.take(i + 1).drop_last() =~= paths.take(i));
    assert(paths.take(i + 1).last() == paths[i]);
}

/// The general linker interface: the orchestrator that owns one backend
/// and one in-progress command, accumulates link requests in call
/// order, and finalizes the command exactly once.
///
/// Resolving filesystem paths and running the finished command are the
/// caller's collaborators: each object path and the destination arrive
/// here as the outcome of the caller's canonicalization, and the
/// finished command goes back to the caller to spawn, whose outcome
/// [`conclude`] then judges.
pub struct GenLink<L> {
    linker: L,
    dest: String,
    fmt: Option<OutputFormat>,
    command: Cmd,
}

impl<L> GenLink<L> {
    /// The backend this builder owns.
    pub closed spec fn spec_linker(&self) -> L {
        self.linker
    }

    /// The destination the terminal operation will use.
    pub closed spec fn spec_dest(&self) -> Seq<char> {
        self.dest@
    }

    /// The output format chosen so far, if any.
    pub closed spec fn spec_format(&self) -> Option<OutputFormat> {
        self.fmt
    }

    /// The program the accumulated command will run.
    pub closed spec fn spec_program(&self) -> Seq<char> {
        self.command@.program
    }

    /// The arguments accumulated so far, in order.
    pub closed spec fn spec_args(&self) -> Seq<Seq<char>> {
        self.command@.args
    }

    /// The raw destination set so far; the caller resolves it before
    /// the terminal operation.
    pub fn destination(&self) -> (r: &String)
        ensures
            r@ == self.spec_dest(),
    {
        &self.dest
    }

    /// The accumulated command: what the caller spawns once
    /// [`GenLink::finalize`] has succeeded.
    pub fn command_ref(&self) -> (c: &Cmd)
        ensures
            c@.program == self.spec_program(),
            c@.args == self.spec_args(),
    {
        &self.command
    }
}

impl<L: Linker> GenLink<L> {
    /// Create a new instance: take ownership of the backend, let it
    /// initialize the command, and start from its default destination.
    pub fn new(linker: L) -> (g: Self)
        ensures
            g.spec_linker() == linker,
            g.spec_program() == linker.program_name(),
            g.spec_args() == linker.bootstrap_args(),
            g.spec_dest() == linker.default_dest(),
            g.spec_format() == Option::<OutputFormat>::None,
    {
        let command = linker.cmd();
        let dest = linker.default_output();
        GenLink { linker, dest, fmt: None, command }
    }

    /// Set the output file. Overwrites any earlier choice and never
    /// fails.
    pub fn output(&mut self, path: String)
        ensures
            final(self).spec_dest() == path@,
            final(self).spec_linker() == old(self).spec_linker(),
            final(self).spec_program() == old(self).spec_program(),
            final(self).spec_args() == old(self).spec_args(),
            final(self).spec_format() == old(self).spec_format(),
    {
        self.dest = path;
    }

    /// Choose the output format. Overwrites any earlier choice and
    /// never fails; the format is encoded once, by the terminal
    /// operation.
    pub fn format(&mut self, format: OutputFormat)
        ensures
            final(self).spec_format() == Some(format),
            final(self).spec_linker() == old(self).spec_linker(),
            final(self).spec_program() == old(self).spec_program(),
            final(self).spec_args() == old(self).spec_args(),
            final(self).spec_dest() == old(self).spec_dest(),
    {
        self.fmt = Some(format);
    }

    /// Add an object file, given the outcome of the caller's resolution
    /// of its path. A resolved path is handed to the backend; a failed
    /// resolution is returned as an IO error and changes nothing.
    pub fn obj(&mut self, resolved: Result<String, IoError>) -> (r: LinkResult<()>)
        ensures
            match resolved {
                Ok(p) => {
                    &&& r == Ok::<(), LinkError>(())
                    &&& final(self).spec_args() == old(self).spec_args() + old(
                        self,
                    ).spec_linker().obj_group(p@)
                    &&& final(self).spec_linker() == old(self).spec_linker()
                    &&& final(self).spec_program() == old(self).spec_program()
                    &&& final(self).spec_dest() == old(self).spec_dest()
                    &&& final(self).spec_format() == old(self).spec_format()
                },
                Err(e) => {
                    &&& r == Err::<(), LinkError>(LinkError::IO(e))
                    &&& *final(self) == *old(self)
                },
            },
    {
        match resolved {
            Ok(p) => {
                self.linker.obj(&mut self.command, p.as_str());
                Ok(())
            },
            Err(e) => Err(LinkError::IO(e)),
        }
    }

    /// Add object files, each given as the outcome of the caller's
    /// resolution, in order, stopping at the first failed one: the
    /// groups of every resolved path before it are appended, the
    /// failure is returned as an IO error, and nothing after it is
    /// looked at.
    #[verifier::loop_isolation(false)]
    pub fn objs(&mut self, resolved: Vec<Result<String, IoError>>) -> (r: LinkResult<()>)
        ensures
            final(self).spec_args() == old(self).spec_args() + objs_groups(
                old(self).spec_linker(),
                ok_views(resolved@).take(oks_len(resolved@)),
            ),
            oks_len(resolved@) == resolved@.len() ==> r == Ok::<(), LinkError>(()),
            oks_len(resolved@) < resolved@.len() ==> r == Err::<(), LinkError>(
                LinkError::IO(resolved@[oks_len(resolved@)]->Err_0),
            ),
            final(self).spec_linker() == old(self).spec_linker(),
            final(self).spec_program() == old(self).spec_program(),
            final(self).spec_dest() == old(self).spec_dest(),
            final(self).spec_format() == old(self).spec_format(),
    {
        let ghost rs = resolved@;
        let ghost l = self.spec_linker();
        let ghost args0 = self.spec_args();
        let mut rest = resolved;
        let ghost mut i: int = 0;
        proof {
            assert(ok_views(rs).take(0) =~= Seq::<Seq<char>>::empty());
            assert(args0 + objs_groups(l, ok_views(rs).take(0)) =~= args0);
        }
        while rest.len() != 0
            invariant
                0 <= i <= rs.len(),
                rest@ =~= rs.skip(i),
                forall|j: int| 0 <= j < i ==> rs[j] is Ok,
                self.spec_args() == args0 + objs_groups(l, ok_views(rs).take(i)),
                self.spec_linker() == l,
                self.spec_program() == old(self).spec_program(),
                self.spec_dest() == old(self).spec_dest(),
                self.spec_format() == old(self).spec_format(),
                args0 == old(self).spec_args(),
            decreases rs.len() - i,
        {
            let item = rest.remove(0);
            proof {
                assert(item == rs[i]);
            }
            match self.obj(item) {
                Ok(_) => {
                    proof {
                        assert(ok_views(rs)[i] == rs[i]->Ok_0@);
                        lemma_objs_groups_snoc(l, ok_views(rs), i);
                        assert(self.spec_args() =~= args0 + objs_groups(
                            l,
                            ok_views(rs).take(i + 1),
                        ));
                        assert(rest@ =~= rs.skip(i + 1));
                        i = i + 1;
                    }
                },
                Err(e) => {
                    proof {
                        lemma_oks_len_from_prefix(rs, i);
                    }
                    return Err(e);
                },
            }
        }
        proof {
            assert(rs.skip(i).len() == 0);
            lemma_oks_len_from_prefix(rs, i);
        }
        Ok(())
    }

    /// Add a dynamic library by name. Names are not filesystem paths:
    /// nothing is resolved and the call never fails.
    pub fn dylib(&mut self, name: &str)
        ensures
            final(self).spec_args() == old(self).spec_args() + old(
                self,
            ).spec_linker().dylib_group(name@),
            final(self).spec_linker() == old(self).spec_linker(),
            final(self).spec_program() == old(self).spec_program(),
            final(self).spec_dest() == old(self).spec_dest(),
            final(self).spec_format() == old(self).spec_format(),
    {
        self.linker.dylib(&mut self.command, name);
    }

    /// Add a static library by name. Names are not filesystem paths:
    /// nothing is resolved and the call never fails.
    pub fn staticlib(&mut self, name: &str)
        ensures
            final(self).spec_args() == old(self).spec_args() + old(
                self,
            ).spec_linker().staticlib_group(name@),
            final(self).spec_linker() == old(self).spec_linker(),
            final(self).spec_program() == old(self).spec_program(),
            final(self).spec_dest() == old(self).spec_dest(),
            final(self).spec_format() == old(self).spec_format(),
    {
        self.linker.staticlib(&mut self.command, name);
    }

    /// Add a library search path. Never fails: the path need not exist
    /// at call time.
    pub fn path(&mut self, path: &str)
        ensures
            final(self).spec_args() == old(self).spec_args() + old(self).spec_linker().path_group(
                path@,
            ),
            final(self).spec_linker() == old(self).spec_linker(),
            final(self).spec_program() == old(self).spec_program(),
            final(self).spec_dest() == old(self).spec_dest(),
            final(self).spec_format() == old(self).spec_format(),
    {
        self.linker.path(&mut self.command, path);
    }

    /// Add library search paths, in iteration order.
    #[verifier::loop_isolation(false)]
    pub fn paths(&mut self, paths: Vec<String>)
        ensures
            final(self).spec_args() == old(self).spec_args() + paths_groups(
                old(self).spec_linker(),
                args_view(paths@),
            ),
            final(self).spec_linker() == old(self).spec_linker(),
            final(self).spec_program() == old(self).spec_program(),
            final(self).spec_dest() == old(self).spec_dest(),
            final(self).spec_format() == old(self).spec_format(),
    {
        let ghost vs = args_view(paths@);
        let ghost l = self.spec_linker();
        let ghost args0 = self.spec_args();
        let mut rest = paths;
        let ghost mut i: int = 0;
        proof {
            assert(vs.take(0) =~= Seq::<Seq<char>>::empty());
            assert(args0 + paths_groups(l, vs.take(0)) =~= args0);
        }
        while rest.len() != 0
            invariant
                0 <= i <= vs.len(),
                rest@.len() == vs.len() - i,
                args_view(rest@) =~= vs.skip(i),
                self.spec_args() == args0 + paths_groups(l, vs.take(i)),
                self.spec_linker() == l,
                self.spec_program() == old(self).spec_program(),
                self.spec_dest() == old(self).spec_dest(),
                self.spec_format() == old(self).spec_format(),
                args0 == old(self).spec_args(),
            decreases vs.len() - i,
        {
            let ghost pre = rest@;
            let item = rest.remove(0);
            proof {
                assert(item == pre[0]);
                assert(args_view(pre)[0] == pre[0]@);
                assert(item@ == vs.skip(i)[0]);
                assert(item@ == vs[i]);
            }
            self.path(item.as_str());
            proof {
                lemma_paths_groups_snoc(l, vs, i);
                assert(self.spec_args() =~= args0 + paths_groups(l, vs.take(i + 1)));
                assert forall|j: int| 0 <= j < rest@.len() implies args_view(rest@)[j] == vs.skip(
                    i + 1,
                )[j] by {
                    assert(rest@[j] == pre[j + 1]);
                    assert(args_view(rest@)[j] == rest@[j]@);
                    assert(args_view(pre)[j + 1] == pre[j + 1]@);
                    assert(vs.skip(i)[j + 1] == vs[i + 1 + j]);
                }
                assert(args_view(rest@) =~= vs.skip(i + 1));
                i = i + 1;
            }
        }
        proof {
            assert(vs.take(vs.len() as int) =~= vs);
        }
    }

    /// The terminal preparation: given the outcome of the caller's
    /// resolution of the destination, append the output-format encoding
    /// (when one was chosen) and the destination encoding, and hand the
    /// resolved destination back; the command is then ready to spawn. A
    /// failed resolution is returned as an IO error and changes
    /// nothing.
    pub fn finalize(&mut self, resolved_dest: Result<String, IoError>) -> (r: LinkResult<String>)
        ensures
            match resolved_dest {
                Ok(d) => {
                    &&& r == Ok::<String, LinkError>(d)
                    &&& final(self).spec_args() == old(self).spec_args() + fmt_groups(
                        old(self).spec_linker(),
                        old(self).spec_format(),
                    ) + old(self).spec_linker().output_group(d@)
                    &&& final(self).spec_linker() == old(self).spec_linker()
                    &&& final(self).spec_program() == old(self).spec_program()
                    &&& final(self).spec_dest() == old(self).spec_dest()
                    &&& final(self).spec_format() == old(self).spec_format()
                },
                Err(e) => {
                    &&& r == Err::<String, LinkError>(LinkError::IO(e))
                    &&& *final(self) == *old(self)
                },
            },
    {
        match resolved_dest {
            Ok(d) => {
                let ghost args0 = self.spec_args();
                let ghost l = self.spec_linker();
                match self.fmt {
                    Some(f) => {
                        self.linker.format(&mut self.command, f);
                    },
                    None => {
                        proof {
                            assert(args0 + fmt_groups(l, self.spec_format()) =~= args0);
                        }
                    },
                }
                self.linker.output(&mut self.command, d.as_str());
                Ok(d)
            },
            Err(e) => Err(LinkError::IO(e)),
        }
    }
}

/// The verdict of the one spawn the caller performed on the finalized
/// command: a failed spawn surfaces as an IO error, an unsuccessful
/// exit as a command error carrying the captured result, and a
/// successful exit hands back the resolved destination.
pub fn conclude(dest: String, spawned: Result<CmdOutput, IoError>) -> (r: LinkResult<String>)
    ensures
        match spawned {
            Err(e) => r == Err::<String, LinkError>(LinkError::IO(e)),
            Ok(out) => (if out.spec_success() {
                r == Ok::<String, LinkError>(dest)
            } else {
                r == Err::<String, LinkError>(LinkError::Cmd(out))
            }),
        },
{
    match spawned {
        Err(e) => Err(LinkError::IO(e)),
        Ok(out) => {
            if out.success() {
                Ok(dest)
            } else {
                Err(LinkError::Cmd(out))
            }
        },
    }
}

} // verus!
