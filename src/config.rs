//! The resolved configuration that the control loop reads, the command-line
//! options that may override it, and the configuration error.
//!
//! Reading and merging YAML files and parsing the command line happen around
//! the library; it receives the resolved values.
use vstd::prelude::*;

verus! {

/// Replaces the value behind `left` with `right`.
pub fn overwrite_x<T>(left: &mut T, right: T)
    ensures
        *final(left) == right,
{
    *left = right;
}

/// An error met while resolving the configuration.
#[derive(Clone, Debug)]
pub struct ConfigErr {
    err: String,
}

impl ConfigErr {
    /// The error's message.
    pub closed spec fn spec_message(&self) -> Seq<char> {
        self.err@
    }

    /// An error with the given message.
    pub fn new(err: &str) -> (r: Box<ConfigErr>)
        ensures
            r.spec_message() == err@,
    {
        Box::new(ConfigErr { err: err.to_owned() })
    }

    /// The error's message.
    pub fn message(&self) -> (r: String)
        ensures
            r@ == self.spec_message(),
    {
        self.err.clone()
    }
}

/// The resolved configuration.
#[derive(Clone, Debug, PartialEq, Eq)]
pub struct Config {
    /// The configuration format's version.
    pub version: usize,
    /// Whether to run this process in the background.
    pub daemon: bool,
    /// The pacing period, in seconds.
    pub interval: u64,
    /// The notional of each order, in the quote currency.
    pub order_size_usd: u64,
    /// The number of open/cancel cycles after which the loop ends.
    pub max_order_count: u64,
    pub symbol: String,
    pub api_key: String,
    pub api_sec: String,
}

/// Command-line options that override the configuration.
#[derive(Clone, Debug)]
pub struct Opt {
    /// Run in the background.
    pub daemon: bool,
    /// Test mode.
    pub test: bool,
    /// The configuration files, merged in order.
    pub conf: Vec<String>,
}

impl Config {
    /// Every field but the version holds its default value.
    pub open spec fn has_default_values(&self) -> bool {
        &&& !self.daemon
        &&& self.interval == 1
        &&& self.order_size_usd == 10
        &&& self.max_order_count == 2
        &&& self.symbol@.len() == 0
        &&& self.api_key@.len() == 0
        &&& self.api_sec@.len() == 0
    }

    /// The default configuration with the given version.
    pub fn with_version(version: usize) -> (r: Config)
        ensures
            r.has_default_values(),
            r.version == version,
    {
        Config {
            version,
            daemon: false,
            interval: 1,
            order_size_usd: 10,
            max_order_count: 2,
            symbol: String::new(),
            api_key: String::new(),
            api_sec: String::new(),
        }
    }

    /// The configuration that a document holding only `version: 1` resolves
    /// to: version 1 and every other field at its default.
    pub fn new() -> (r: Option<Config>)
        ensures
            r is Some,
            r->Some_0.has_default_values(),
            r->Some_0.version == 1,
    {
        Some(Config::with_version(1))
    }

    /// As `new`, with `daemon` set where the options ask for it.
    pub fn new_with_opt_override(opt: &Opt) -> (r: Option<Config>)
        ensures
            r is Some,
            r->Some_0.daemon == opt.daemon,
            r->Some_0.interval == 1,
            r->Some_0.order_size_usd == 10,
            r->Some_0.max_order_count == 2,
            r->Some_0.symbol@.len() == 0,
            r->Some_0.api_key@.len() == 0,
            r->Some_0.api_sec@.len() == 0,
            r->Some_0.version == 1,
    {
        let conf = Config::new();
        match conf {
            Some(mut c) => {
                if opt.daemon {
                    c.daemon = true;
                }
                Some(c)
            },
            None => None,
        }
    }

    /// Accepts every configuration as it is.
    pub fn validate(self) -> (r: Result<Config, Box<ConfigErr>>)
        ensures
            r == Ok::<Config, Box<ConfigErr>>(self),
    {
        Ok(self)
    }
}

impl Default for Config {
    fn default() -> (r: Config)
        ensures
            r.has_default_values(),
            r.version == 0,
    {
        Config::with_version(0)
    }
}

} // verus!
