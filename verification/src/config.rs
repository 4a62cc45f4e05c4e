use vstd::prelude::*;

verus! {

/// Immutable connection settings for one remote server: the base URL that
/// endpoint paths are joined to, the account name, the (pre-hashed)
/// credential, and the per-call timeout in seconds. Built once at startup and
/// never mutated afterwards.
#[derive(Debug, Clone)]
pub struct IikoConfig {
    pub base_url: String,
    pub login: String,
    pub password: String,
    pub timeout_secs: u64,
}

impl IikoConfig {
    /// A configuration with the given connection data and the default
    /// timeout of 30 seconds.
    pub fn new(base_url: String, login: String, password: String) -> (r: Self)
        ensures
            r.base_url@ == base_url@,
            r.login@ == login@,
            r.password@ == password@,
            r.timeout_secs == 30u64,
    {
        Self { base_url, login, password, timeout_secs: 30 }
    }

    /// The same configuration with the timeout replaced.
    pub fn with_timeout(self, timeout_secs: u64) -> (r: Self)
        ensures
            r.base_url@ == self.base_url@,
            r.login@ == self.login@,
            r.password@ == self.password@,
            r.timeout_secs == timeout_secs,
    {
        Self { timeout_secs, ..self }
    }
}

impl Default for IikoConfig {
    /// An empty account against a local default server, with the default
    /// timeout of 30 seconds.
    fn default() -> (r: Self)
        ensures
            r.base_url@ == "http://localhost:8080/resto/api"@,
            r.login@ == Seq::<char>::empty(),
            r.password@ == Seq::<char>::empty(),
            r.timeout_secs == 30u64,
    {
        Self {
            base_url: "http://localhost:8080/resto/api".to_string(),
            login: String::new(),
            password: String::new(),
            timeout_secs: 30,
        }
    }
}

} // verus!
