//! Connection settings persisted by the surrounding application: credentials,
//! the API domain, the dataset identifier, and the last query text.

use vstd::prelude::*;

verus! {

/// Settings the application reads at startup and saves on every fetch.
pub struct Config {
    pub username: String,
    pub password: String,
    pub domain: String,
    pub dataset: String,
    pub query: String,
}

/// Holds when every field of the configuration is the empty string.
pub open spec fn config_is_empty(c: &Config) -> bool {
    &&& c.username@ == Seq::<char>::empty()
    &&& c.password@ == Seq::<char>::empty()
    &&& c.domain@ == Seq::<char>::empty()
    &&& c.dataset@ == Seq::<char>::empty()
    &&& c.query@ == Seq::<char>::empty()
}

impl Default for Config {
    /// The fallback used when no stored configuration can be read.
    fn default() -> (c: Self)
        ensures
            config_is_empty(&c),
    {
        Config {
            username: String::new(),
            password: String::new(),
            domain: String::new(),
            dataset: String::new(),
            query: String::new(),
        }
    }
}

} // verus!
