use vstd::prelude::*;

use crate::linker::{Cmd, Linker, OutputFormat};

verus! {

/// A minimal backend for a Unix-style linker invoked as `ld`. It keeps
/// to the plainest conventions — objects verbatim, `-o` for the
/// destination, `-L` for search paths, `-Bdynamic -l` and `-Bstatic
/// -l` for libraries — and serves both as the reference implementation
/// of the [`Linker`] contract and as the backend the test suite drives.
#[derive(Clone, Copy, Debug)]
pub struct Ld;

impl Linker for Ld {
    open spec fn program_name(&self) -> Seq<char> {
        "ld"@
    }

    open spec fn bootstrap_args(&self) -> Seq<Seq<char>> {
        Seq::empty()
    }

    open spec fn default_dest(&self) -> Seq<char> {
        "a.out"@
    }

    open spec fn format_group(&self, f: OutputFormat) -> Seq<Seq<char>> {
        match f {
            OutputFormat::DynamicExe => Seq::empty(),
            OutputFormat::DynamicPicExe => seq!["-pie"@],
            OutputFormat::StaticExe => seq!["-static"@],
            OutputFormat::StaticPicExe => seq!["-static"@, "-pie"@],
            OutputFormat::DynamicDyLib => seq!["-shared"@],
            OutputFormat::StaticDyLib => seq!["-static"@, "-shared"@],
        }
    }

    open spec fn obj_group(&self, path: Seq<char>) -> Seq<Seq<char>> {
        seq![path]
    }

    open spec fn output_group(&self, path: Seq<char>) -> Seq<Seq<char>> {
        seq!["-o"@, path]
    }

    open spec fn dylib_group(&self, name: Seq<char>) -> Seq<Seq<char>> {
        seq!["-Bdynamic"@, "-l"@, name]
    }

    open spec fn staticlib_group(&self, name: Seq<char>) -> Seq<Seq<char>> {
        seq!["-Bstatic"@, "-l"@, name]
    }

    open spec fn path_group(&self, path: Seq<char>) -> Seq<Seq<char>> {
        seq!["-L"@, path]
    }

    fn cmd(&self) -> (c: Cmd) {
        Cmd::new("ld")
    }

    fn format(&self, cmd: &mut Cmd, format: OutputFormat) {
        match format {
            OutputFormat::DynamicExe => {},
            OutputFormat::DynamicPicExe => {
                cmd.arg("-pie");
            },
            OutputFormat::StaticExe => {
                cmd.arg("-static");
            },
            OutputFormat::StaticPicExe => {
                cmd.arg("-static");
                cmd.arg("-pie");
            },
            OutputFormat::DynamicDyLib => {
                cmd.arg("-shared");
            },
            OutputFormat::StaticDyLib => {
                cmd.arg("-static");
                cmd.arg("-shared");
            },
        }
        proof {
            assert(cmd@.args =~= old(cmd)@.args + self.format_group(format));
        }
    }

    fn obj(&self, cmd: &mut Cmd, path: &str) {
        cmd.arg(path);
        proof {
            assert(cmd@.args =~= old(cmd)@.args + self.obj_group(path@));
        }
    }

    fn output(&self, cmd: &mut Cmd, path: &str) {
        cmd.arg("-o");
        cmd.arg(path);
        proof {
            assert(cmd@.args =~= old(cmd)@.args + self.output_group(path@));
        }
    }

    fn dylib(&self, cmd: &mut Cmd, name: &str) {
        cmd.arg("-Bdynamic");
        cmd.arg("-l");
        cmd.arg(name);
        proof {
            assert(cmd@.args =~= old(cmd)@.args + self.dylib_group(name@));
        }
    }

    fn staticlib(&self, cmd: &mut Cmd, name: &str) {
        cmd.arg("-Bstatic");
        cmd.arg("-l");
        cmd.arg(name);
        proof {
            assert(cmd@.args =~= old(cmd)@.args + self.staticlib_group(name@));
        }
    }

    fn path(&self, cmd: &mut Cmd, path: &str) {
        cmd.arg("-L");
        cmd.arg(path);
        proof {
            assert(cmd@.args =~= old(cmd)@.args + self.path_group(path@));
        }
    }

    fn default_output(&self) -> (r: String) {
        let r = "a.out".to_owned();
        r
    }
}

} // verus!
