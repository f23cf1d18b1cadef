//! Telling the user about the shell that a command runs in.

use crate::cmd::meta::{KubieInfo, KubieInfoKind};
use crate::kubeconfig::{KubeConfig, KubeConfigView};
use crate::text::{decimal, decimal_string};
use vstd::prelude::*;

verus! {

/// What `info` prints: the current context of the configuration, or
/// nothing where none is marked; the namespace of its context, or nothing
/// where none is set; the depth.
pub open spec fn info_text(kind: KubieInfoKind, config: KubeConfigView, depth: u32) -> Seq<char> {
    match kind {
        KubieInfoKind::Context => match config.current_context {
            Some(name) => name,
            None => Seq::empty(),
        },
        KubieInfoKind::Namespace => match config.contexts[0].context.namespace {
            Some(namespace) => namespace,
            None => Seq::empty(),
        },
        KubieInfoKind::Depth => decimal(depth as nat),
    }
}

/// What is printed for `info`, given the configuration of the shell and
/// its depth.
pub fn info(asked: &KubieInfo, config: &KubeConfig, depth: u32) -> (r: String)
    requires
        asked.kind == KubieInfoKind::Namespace ==> config.contexts@.len() > 0,
    ensures
        r@ == info_text(asked.kind, config@, depth),
{
    match asked.kind {
        KubieInfoKind::Context => match &config.current_context {
            Some(name) => name.clone(),
            None => String::new(),
        },
        KubieInfoKind::Namespace => match &config.contexts[0].context.namespace {
            Some(namespace) => namespace.clone(),
            None => String::new(),
        },
        KubieInfoKind::Depth => decimal_string(depth),
    }
}

} // verus!
