//! The linker: a registry of host functions by `(module, name)` and by the
//! reserved index the bytecode calls them with. The callable itself lives
//! with the embedder; the linker stores the handle the embedder assigned it.

use vstd::prelude::*;

use crate::utils::Index;

verus! {

/// One registered host function: its import name, the embedder's handle for
/// the callable, and the reserved index the bytecode uses.
pub struct HostFuncEntry {
    pub module: String,
    pub name: String,
    pub host_fn: usize,
    pub fn_index: Index,
}

/// The handle of the last entry registered under `fn_index`.
pub open spec fn spec_resolve(entries: Seq<HostFuncEntry>, fn_index: Index) -> Option<usize>
    decreases entries.len(),
{
    if entries.len() == 0 {
        None
    } else if entries.last().fn_index == fn_index {
        Some(entries.last().host_fn)
    } else {
        spec_resolve(entries.drop_last(), fn_index)
    }
}

/// Maps reserved host-call indices to the embedder's host functions.
pub struct Linker {
    pub host_functions: Vec<HostFuncEntry>,
}

impl Linker {
    /// An empty linker.
    pub fn new() -> (r: Self)
        ensures
            r.host_functions@ =~= Seq::<HostFuncEntry>::empty(),
    {
        Self { host_functions: Vec::new() }
    }

    /// Registers a host function under its import name and reserved index.
    /// A later registration under the same index wins.
    pub fn define_function(&mut self, module: String, name: String, host_fn: usize, fn_index: Index)
        ensures
            final(self).host_functions@.len() == old(self).host_functions@.len() + 1,
            final(self).host_functions@.last().module == module,
            final(self).host_functions@.last().name == name,
            final(self).host_functions@.last().host_fn == host_fn,
            final(self).host_functions@.last().fn_index == fn_index,
            final(self).host_functions@.drop_last() =~= old(self).host_functions@,
    {
        self.host_functions.push(HostFuncEntry { module, name, host_fn, fn_index });
    }

    /// The handle of the host function registered under `fn_index`, if any.
    pub fn resolve_function(&self, fn_index: Index) -> (r: Option<usize>)
        ensures
            r == spec_resolve(self.host_functions@, fn_index),
    {
        let n = self.host_functions.len();
        let mut i: usize = n;
        proof {
            assert(self.host_functions@.take(n as int) =~= self.host_functions@);
        }
        while i > 0
            invariant
                i <= n,
                n == self.host_functions@.len(),
                spec_resolve(self.host_functions@, fn_index) == spec_resolve(
                    self.host_functions@.take(i as int),
                    fn_index,
                ),
            decreases i,
        {
            i = i - 1;
            let entry = &self.host_functions[i];
            if entry.fn_index.0 == fn_index.0 {
                proof {
                    assert(self.host_functions@.take(i + 1).last() == self.host_functions@[
                        i as int
                    ]);
                }
                return Some(entry.host_fn);
            }
            proof {
                assert(self.host_functions@.take(i + 1).drop_last() =~= self.host_functions@.take(
                    i as int,
                ));
            }
        }
        proof {
            assert(self.host_functions@.take(0) =~= Seq::<HostFuncEntry>::empty());
        }
        None
    }
}

} // verus!
