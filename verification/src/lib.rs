//! Building blocks of a Kubernetes controller for SFTPGo: the resource
//! definitions, the management-API client model and the reconciliation
//! rules.

use vstd::prelude::*;

pub mod client;
pub mod crds;
pub mod kubernetes;
pub mod operator;
pub mod string_map;
pub mod text;

verus! {

/// The default value of a type, as the type's own `default` gives it.
pub fn default<T: Default>() -> (r: T)
    ensures
        call_ensures(T::default, (), r),
{
    Default::default()
}

} // verus!
