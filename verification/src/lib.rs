//! A uniform interface for driving native linker executables.
//!
//! A pluggable [`Linker`] backend translates abstract link requests
//! (objects, libraries, search paths, an output destination, an
//! [`OutputFormat`]) into one concrete command line, and the
//! [`GenLink`] builder accumulates those requests in call order and
//! hands back the finished command. Running the command and resolving
//! filesystem paths are left to the caller, who reports their outcomes
//! back to the builder.

mod error;
mod genlink;
mod ld;
mod linker;

pub use crate::error::{CmdOutput, IoError, LinkError, LinkResult};
pub use crate::genlink::{
    conclude, fmt_groups, lemma_oks_len, lemma_oks_len_from_prefix, objs_groups, ok_views,
    oks_len, paths_groups, GenLink,
};
pub use crate::ld::Ld;
pub use crate::linker::{
    args_view, lemma_args_view_push, lemma_lib_idempotent, lemma_pic_idempotent,
    lemma_stat_idempotent, Cmd, CmdView, Linker, OutputFormat,
};
