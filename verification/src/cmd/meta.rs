//! The kinds of information that the `info` command gives.

use vstd::prelude::*;

verus! {

/// What the user asks to be told.
pub struct KubieInfo {
    pub kind: KubieInfoKind,
}

/// The kind of information that the user asks for.
#[derive(Clone, Copy, Debug, PartialEq, Eq, Structural)]
pub enum KubieInfoKind {
    /// The name of the context of the shell.
    Context,
    /// The name of the namespace of the shell.
    Namespace,
    /// How deeply the shell is nested.
    Depth,
}

} // verus!
