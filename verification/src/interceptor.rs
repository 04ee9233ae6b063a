//! A single swappable transformation hook.
//!
//! A server may install one transformation that is run over values (such
//! as packets) passing through it. Until one is set, the hook is the
//! identity.

use vstd::prelude::*;

verus! {

/// A pure transformation of one value, implemented by the surrounding
/// application and installed into an [`Interceptor`]. `spec_apply` says
/// what the transformation computes; `apply` is bound to it.
pub trait Transform {
    type Item;

    /// The value the transformation maps `t` to.
    spec fn spec_apply(&self, t: Self::Item) -> Self::Item;

    /// Applies the transformation.
    fn apply(&self, t: Self::Item) -> (r: Self::Item)
        ensures
            r == self.spec_apply(t),
    ;
}

/// A transformation that leaves every packet as it is; what an
/// interceptor slot behaves like until something real is installed.
pub struct PassTransform {}

impl Transform for PassTransform {
    type Item = crate::proto::Packet;

    open spec fn spec_apply(&self, t: crate::proto::Packet) -> crate::proto::Packet {
        t
    }

    fn apply(&self, t: crate::proto::Packet) -> (r: crate::proto::Packet) {
        t
    }
}

/// A settable transformation slot: the identity until a transformation
/// is installed, then whatever was installed last.
pub struct Interceptor<F: Transform> {
    pub transform: Option<F>,
}

impl<F: Transform> Interceptor<F> {
    /// What running the interceptor on `t` yields.
    pub open spec fn spec_run(self, t: F::Item) -> F::Item {
        match self.transform {
            Some(f) => f.spec_apply(t),
            None => t,
        }
    }

    /// A fresh interceptor; runs as the identity.
    pub fn new() -> (r: Interceptor<F>)
        ensures
            r.transform is None,
    {
        Interceptor { transform: None }
    }

    /// Installs `cb`, replacing whatever was installed before.
    pub fn set(&mut self, cb: F)
        ensures
            final(self).transform == Some(cb),
    {
        self.transform = Some(cb);
    }

    /// Runs the installed transformation, or returns `t` unchanged if
    /// none is installed.
    pub fn run(&self, t: F::Item) -> (r: F::Item)
        ensures
            r == self.spec_run(t),
    {
        match &self.transform {
            Some(f) => f.apply(t),
            None => t,
        }
    }
}

} // verus!
