//! The on-disk configuration schema: an ordered list of endpoint
//! descriptors, versioned so later schema revisions can coexist. The
//! embedding program does the (de)serialisation; these are the plain
//! values it hands over.
use vstd::prelude::*;

verus! {

/// One configured endpoint: how to reach it and what to call its tab.
#[derive(Debug)]
pub struct RedisServerConf {
    pub name: String,
    pub host: String,
    pub port: usize,
}

/// The schema revisions a configuration file may carry.
#[derive(Debug)]
pub enum DBVersions {
    V1_0,
}

/// The first configuration schema: a version tag and the endpoint list.
#[allow(non_camel_case_types)]
#[derive(Debug)]
pub struct DB_V1_0 {
    pub version: DBVersions,
    pub server_configs: Vec<RedisServerConf>,
}

/// A configuration file of any known schema revision.
#[allow(non_camel_case_types)]
#[derive(Debug)]
pub enum DB {
    DB_V1_0(DB_V1_0),
}

impl RedisServerConf {
    pub fn new(name: String, host: String, port: usize) -> (r: RedisServerConf)
        ensures
            r.name == name,
            r.host == host,
            r.port == port,
    {
        RedisServerConf { name, host, port }
    }
}

} // verus!
