//! Build orchestration for the vendored gpgrt (libgpg-error) source tree.
//!
//! The library decides; the caller acts. It lays out a private workspace,
//! plans the copy of the source tree into it, composes every toolchain
//! invocation, tracks the strictly sequential pipeline, and derives the
//! artifact descriptor and the metadata a linking stage reads.
//!
//! A workspace belongs to one build at a time: two builds under the same
//! output root clear each other's trees.

mod path;
mod options;
mod artifacts;
mod workspace;
mod pipeline;
mod error_code;

pub use path::{join_path, join_all, path_join, path_join_all, under};
pub use options::{
    Toggle, OptionKind, BuildOptions, option_name, enable_flag, disable_flag, prefix_flag,
    toggle_flags, occurrences, lemma_configure_flag_counts,
};
pub use artifacts::{
    ArtifactDescriptor, resolve, resolved, rerun_if_changed_line, rerun_line, strings_view,
    search_line, link_line, include_line, lib_line, link_lines,
};
pub use workspace::{
    Workspace, SourceEntry, FsOp, FsOpView, vcs_dir, ops_view, entry_ops, copy_ops, kept,
    apply_op, apply_ops, subtree, lemma_copy_skips_vcs, lemma_prepare_idempotent,
};
pub use pipeline::{
    Step, Invocation, InvocationView, BuildError, Build, steps, produced_lib, source_name,
    command_line_spec, lemma_failure_stops_pipeline, lemma_success_finishes,
};
pub use error_code::{Error, GPG_ERR_NO_ERROR, digit_char, decimal, describe_spec, to_decimal};
