//! The write-ahead-log namespace handle: a plain named handle, cheap to clone
//! and share.

use std::sync::Arc;
use vstd::prelude::*;

verus! {

#[derive(Debug)]
struct LocalNamespaceInner {
    name: String,
}

/// A named log namespace; copies share one inner allocation.
#[derive(Debug, Clone)]
pub struct LocalNamespace {
    inner: Arc<LocalNamespaceInner>,
}

impl LocalNamespace {
    /// The name this namespace was created with.
    pub closed spec fn name_spec(&self) -> Seq<char> {
        self.inner.name@
    }

    /// A namespace of the given name.
    pub fn new(name: &str) -> (r: LocalNamespace)
        ensures
            r.name_spec() == name@,
    {
        let inner = Arc::new(LocalNamespaceInner { name: name.to_owned() });
        LocalNamespace { inner }
    }

    /// The namespace's name.
    pub fn name(&self) -> (s: &str)
        ensures
            s@ == self.name_spec(),
    {
        self.inner.name.as_str()
    }
}

impl Default for LocalNamespace {
    /// The anonymous namespace: its name is empty.
    fn default() -> (r: Self)
        ensures
            r.name_spec() == Seq::<char>::empty(),
    {
        let r = LocalNamespace::new("");
        proof {
            reveal_strlit("");
            assert(r.name_spec() =~= Seq::<char>::empty());
        }
        r
    }
}

} // verus!
