//! Trusted bindings to the Soroban host types.
//!
//! The contract's values (strings and vectors of strings) live in the host
//! environment and are opaque handles on this side. Each is modelled by the
//! plain contents it stores: a host string by the sequence of bytes it holds,
//! a host vector of strings by the sequence of its items' bytes. The wrappers
//! below state, over those models, what the host operations do.

use vstd::prelude::*;

verus! {

use vstd::string::StringSliceAdditionalSpecFns;

#[verifier::external_type_specification]
#[verifier::external_body]
pub struct ExEnv(soroban_sdk::Env);

#[verifier::external_type_specification]
#[verifier::external_body]
pub struct ExString(soroban_sdk::String);

#[verifier::external_type_specification]
#[verifier::external_body]
#[verifier::reject_recursive_types(T)]
pub struct ExVec<T>(soroban_sdk::Vec<T>);

/// The bytes that a host string stores.
pub uninterp spec fn host_string_bytes(s: soroban_sdk::String) -> Seq<u8>;

/// The items that a host vector of strings stores, each as its bytes.
pub uninterp spec fn host_vec_model(v: soroban_sdk::Vec<soroban_sdk::String>) -> Seq<Seq<u8>>;

/// Relies on soroban_sdk::String::from_str: the new host string holds the
/// UTF-8 bytes of the given slice.
#[verifier::external_body]
pub(crate) fn host_string_from_str(env: &soroban_sdk::Env, s: &str) -> (r: soroban_sdk::String)
    ensures
        host_string_bytes(r) == s.spec_bytes(),
{
    soroban_sdk::String::from_str(env, s)
}

/// Relies on soroban_sdk::Vec::new: the new vector is empty.
#[verifier::external_body]
pub(crate) fn host_vec_new(env: &soroban_sdk::Env) -> (r: soroban_sdk::Vec<soroban_sdk::String>)
    ensures
        host_vec_model(r) == Seq::<Seq<u8>>::empty(),
{
    soroban_sdk::Vec::new(env)
}

/// Relies on soroban_sdk::Vec::push_back: the item is appended at the back
/// and everything already stored stays in place.
#[verifier::external_body]
pub(crate) fn host_vec_push_back(v: &mut soroban_sdk::Vec<soroban_sdk::String>, x: soroban_sdk::String)
    ensures
        host_vec_model(*final(v)) == host_vec_model(*old(v)).push(host_string_bytes(x)),
{
    v.push_back(x)
}

} // verus!
