//! The namespace configuration requested at process-creation time.
//!
//! The launcher asks for four isolation domains — user, UTS (hostname),
//! PID and mount — and the design's guarantee holds only when all four are
//! requested together: without a new mount namespace, for example, mounting
//! inside the container would leak to the host.

use vstd::prelude::*;

verus! {

/// The set of isolation flags handed to process creation.
#[derive(Clone, Copy, PartialEq, Eq, Structural, Debug)]
pub struct NamespaceConfig {
    /// A new user namespace (identity mapping applies to it).
    pub user: bool,
    /// A new UTS namespace (hostname changes stay inside).
    pub uts: bool,
    /// A new PID namespace (the spawned process becomes pid 1 in it).
    pub pid: bool,
    /// A new mount namespace (mounts stay inside).
    pub mount: bool,
}

impl NamespaceConfig {
    /// The configuration invariant: all four domains are requested together.
    pub open spec fn is_complete(self) -> bool {
        self.user && self.uts && self.pid && self.mount
    }

    /// The one configuration this launcher ever uses.
    pub open spec fn spec_full_isolation() -> NamespaceConfig {
        NamespaceConfig { user: true, uts: true, pid: true, mount: true }
    }

    /// Builds the full-isolation configuration.
    pub fn full_isolation() -> (c: NamespaceConfig)
        ensures
            c == NamespaceConfig::spec_full_isolation(),
            c.is_complete(),
    {
        NamespaceConfig { user: true, uts: true, pid: true, mount: true }
    }
}

/// The fixed label `container` in ASCII: the hostname set inside the new UTS
/// namespace, never visible on the host.
pub open spec fn spec_hostname_label() -> Seq<u8> {
    seq![99u8, 111u8, 110u8, 116u8, 97u8, 105u8, 110u8, 101u8, 114u8]
}

/// The namespace-local hostname this launcher always sets.
pub fn hostname_label() -> (r: Vec<u8>)
    ensures
        r@ == spec_hostname_label(),
{
    let mut out: Vec<u8> = Vec::new();
    out.push(99);
    out.push(111);
    out.push(110);
    out.push(116);
    out.push(97);
    out.push(105);
    out.push(110);
    out.push(101);
    out.push(114);
    proof {
        assert(out@ =~= spec_hostname_label());
    }
    out
}

} // verus!
