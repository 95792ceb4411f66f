//! A greeting contract: one stateless entry point that turns a name into the
//! two-element sequence `["Hello", name]`, allocated in the host environment.

use vstd::prelude::*;

pub mod host;

verus! {

use vstd::string::StringSliceAdditionalSpecFns;
use crate::host::host_string_bytes;
use crate::host::host_string_from_str;
use crate::host::host_vec_model;
use crate::host::host_vec_new;
use crate::host::host_vec_push_back;

/// The bytes of the fixed greeting literal.
pub open spec fn greeting_bytes() -> Seq<u8> {
    "Hello".spec_bytes()
}

/// What a greeting sequence is: exactly two items, the fixed greeting first
/// and the given name second, byte for byte.
pub open spec fn is_greeting(r: Seq<Seq<u8>>, name: Seq<u8>) -> bool {
    &&& r.len() == 2
    &&& r[0] == greeting_bytes()
    &&& r[1] == name
}

/// The contract type; it carries the single entry point and no state.
pub struct Contract;

impl Contract {
    /// Returns the sequence `["Hello", name]`. The environment is used only
    /// to allocate the result; the name is passed through unchanged, whatever
    /// bytes it holds.
    pub fn hello(env: soroban_sdk::Env, name: soroban_sdk::String) -> (r: soroban_sdk::Vec<
        soroban_sdk::String,
    >)
        ensures
            is_greeting(host_vec_model(r), host_string_bytes(name)),
    {
        let greeting = host_string_from_str(&env, "Hello");
        let mut v = host_vec_new(&env);
        host_vec_push_back(&mut v, greeting);
        host_vec_push_back(&mut v, name);
        v
    }
}

/// The greeting is determined by the name alone: two greeting sequences for
/// the same name are equal, element for element, whichever environments
/// produced them.
pub proof fn lemma_greeting_deterministic(r1: Seq<Seq<u8>>, r2: Seq<Seq<u8>>, name: Seq<u8>)
    requires
        is_greeting(r1, name),
        is_greeting(r2, name),
    ensures
        r1 == r2,
{
    assert(r1 =~= r2);
}

} // verus!
