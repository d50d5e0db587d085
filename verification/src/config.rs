//! The server's settings, read from a list of environment variables.

use vstd::prelude::*;

verus! {

/// Whether some pair of `vars` has the key `key`.
pub open spec fn has_key(vars: Seq<(String, String)>, key: Seq<char>) -> bool {
    exists|i: int| 0 <= i < vars.len() && (#[trigger] vars[i]).0@ == key
}

/// Whether pair `i` is the first pair of `vars` with the key `key`.
pub open spec fn is_first_with_key(vars: Seq<(String, String)>, key: Seq<char>, i: int) -> bool {
    &&& 0 <= i < vars.len()
    &&& vars[i].0@ == key
    &&& forall|j: int| 0 <= j < i ==> (#[trigger] vars[j]).0@ != key
}

/// The value of the first pair of `vars` with the key `key`.
pub open spec fn value_of(vars: Seq<(String, String)>, key: Seq<char>) -> Seq<char>
    recommends
        has_key(vars, key),
{
    vars[choose|i: int| is_first_with_key(vars, key, i)].1@
}

/// The value of the first pair with the key `key_search`.
pub fn find_key(iteration: &[(String, String)], key_search: &'static str) -> (value: String)
    requires
        has_key(iteration@, key_search@),
    ensures
        value@ == value_of(iteration@, key_search@),
{
    let wanted = key_search.to_owned();
    let mut i: usize = 0;
    while !(iteration[i].0 == wanted)
        invariant
            wanted@ == key_search@,
            exists|k: int| i <= k < iteration@.len() && (#[trigger] iteration@[k]).0@ == key_search@,
            forall|j: int| 0 <= j < i ==> (#[trigger] iteration@[j]).0@ != key_search@,
        decreases iteration@.len() - i,
    {
        i = i + 1;
    }
    assert(is_first_with_key(iteration@, key_search@, i as int));
    iteration[i].1.clone()
}

/// The server's settings.
#[derive(Debug)]
pub struct Config {
    pub in_production: bool,
    pub server_addr: String,
}

/// Whether `vars` hold what the settings are made from: a port under
/// `IMAGE_API_PORT`, and `development` or `production` under `NODE_ENV`.
pub open spec fn configures(vars: Seq<(String, String)>) -> bool {
    &&& has_key(vars, "IMAGE_API_PORT"@)
    &&& has_key(vars, "NODE_ENV"@)
    &&& (value_of(vars, "NODE_ENV"@) == "development"@ || value_of(vars, "NODE_ENV"@)
        == "production"@)
}

impl Config {
    /// The settings that the environment variables ask for. In production
    /// the server listens on every address, else on the local one.
    pub fn new(environment_vars: &[(String, String)]) -> (config: Config)
        requires
            configures(environment_vars@),
        ensures
            config.in_production == (value_of(environment_vars@, "NODE_ENV"@) == "production"@),
            config.server_addr@ == (if config.in_production {
                "0.0.0.0:"@
            } else {
                "127.0.0.1:"@
            }) + value_of(environment_vars@, "IMAGE_API_PORT"@),
    {
        let mode = find_key(environment_vars, "NODE_ENV");
        let in_production = mode == "production".to_owned();
        let port = find_key(environment_vars, "IMAGE_API_PORT");
        let server_addr = if in_production {
            "0.0.0.0:".to_owned().concat(port.as_str())
        } else {
            "127.0.0.1:".to_owned().concat(port.as_str())
        };
        Config { in_production, server_addr }
    }
}

} // verus!
