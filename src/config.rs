use vstd::prelude::*;

use crate::error::{LostLoveError, Result};

verus! {

/// Server configuration; the file format is read outside the library.
#[derive(Debug, Clone)]
pub struct Config {
    pub server: ServerConfig,
    pub network: NetworkConfig,
    pub limits: LimitsConfig,
    pub monitoring: MonitoringConfig,
}

#[derive(Debug, Clone)]
pub struct ServerConfig {
    pub bind_address: String,
    pub port: u16,
    pub protocol: String,
    pub max_connections: usize,
    pub worker_threads: usize,
}

#[derive(Debug, Clone)]
pub struct NetworkConfig {
    pub tun_name: String,
    pub tun_address: String,
    pub mtu: usize,
    pub enable_ipv6: bool,
}

#[derive(Debug, Clone)]
pub struct LimitsConfig {
    pub rate_limit_per_user: u64,
    pub max_streams_per_connection: usize,
    pub connection_timeout: u64,
}

#[derive(Debug, Clone)]
pub struct MonitoringConfig {
    pub enable_metrics: bool,
    pub metrics_port: u16,
    pub log_level: String,
}

/// Smallest accepted MTU.
pub const MIN_MTU: usize = 576;

/// Largest accepted MTU.
pub const MAX_MTU: usize = 9000;

pub fn default_bind_address() -> (r: String)
    ensures
        r@ == "0.0.0.0"@,
{
    "0.0.0.0".to_owned()
}

pub fn default_port() -> (r: u16)
    ensures
        r == 8443,
{
    8443
}

pub fn default_protocol() -> (r: String)
    ensures
        r@ == "tcp"@,
{
    "tcp".to_owned()
}

pub fn default_max_connections() -> (r: usize)
    ensures
        r == 1000,
{
    1000
}

/// Zero lets the runtime pick the number of worker threads.
pub fn default_worker_threads() -> (r: usize)
    ensures
        r == 0,
{
    0
}

pub fn default_tun_name() -> (r: String)
    ensures
        r@ == "hfp0"@,
{
    "hfp0".to_owned()
}

pub fn default_tun_address() -> (r: String)
    ensures
        r@ == "10.8.0.1/24"@,
{
    "10.8.0.1/24".to_owned()
}

pub fn default_mtu() -> (r: usize)
    ensures
        r == 1400,
{
    1400
}

/// Bytes per second.
pub fn default_rate_limit() -> (r: u64)
    ensures
        r == 100_000_000,
{
    100_000_000
}

pub fn default_max_streams() -> (r: usize)
    ensures
        r == 256,
{
    256
}

/// Seconds.
pub fn default_connection_timeout() -> (r: u64)
    ensures
        r == 300,
{
    300
}

pub fn default_true() -> (r: bool)
    ensures
        r,
{
    true
}

pub fn default_metrics_port() -> (r: u16)
    ensures
        r == 9090,
{
    9090
}

pub fn default_log_level() -> (r: String)
    ensures
        r@ == "info"@,
{
    "info".to_owned()
}

impl Default for LimitsConfig {
    fn default() -> (r: LimitsConfig)
        ensures
            r.rate_limit_per_user == 100_000_000,
            r.max_streams_per_connection == 256,
            r.connection_timeout == 300,
    {
        LimitsConfig {
            rate_limit_per_user: default_rate_limit(),
            max_streams_per_connection: default_max_streams(),
            connection_timeout: default_connection_timeout(),
        }
    }
}

impl Default for MonitoringConfig {
    fn default() -> (r: MonitoringConfig)
        ensures
            r.enable_metrics,
            r.metrics_port == 9090,
            r.log_level@ == "info"@,
    {
        MonitoringConfig {
            enable_metrics: default_true(),
            metrics_port: default_metrics_port(),
            log_level: default_log_level(),
        }
    }
}

/// The transport protocols a server can be configured for.
pub open spec fn known_protocol(p: Seq<char>) -> bool {
    p == "tcp"@ || p == "udp"@ || p == "both"@
}

fn text_is(s: &String, literal: &str) -> (r: bool)
    ensures
        r == (s@ == literal@),
{
    *s == literal.to_owned()
}

impl Config {
    /// A configuration passes when the bind address is not empty, the port
    /// is not zero, the protocol is tcp, udp or both, and the MTU lies in
    /// [576, 9000].
    pub open spec fn is_valid(&self) -> bool {
        &&& self.server.bind_address@.len() > 0
        &&& self.server.port != 0
        &&& known_protocol(self.server.protocol@)
        &&& MIN_MTU <= self.network.mtu <= MAX_MTU
    }

    /// Checks the configuration; the error names the first check that fails.
    pub fn validate(&self) -> (r: Result<()>)
        ensures
            r is Ok <==> self.is_valid(),
            r is Err ==> r->Err_0 is Config,
    {
        if self.server.bind_address.as_str().is_empty() {
            return Err(LostLoveError::Config("bind_address cannot be empty".to_string()));
        }
        if self.server.port == 0 {
            return Err(LostLoveError::Config("port must be greater than 0".to_string()));
        }
        if !(text_is(&self.server.protocol, "tcp") || text_is(&self.server.protocol, "udp")
            || text_is(&self.server.protocol, "both")) {
            return Err(LostLoveError::Config("protocol must be one of: tcp, udp, both".to_string()));
        }
        if self.network.mtu < MIN_MTU || self.network.mtu > MAX_MTU {
            return Err(LostLoveError::Config("MTU must be between 576 and 9000".to_string()));
        }
        Ok(())
    }

    /// A valid configuration for local tests: loopback, port 8443, tcp, at
    /// most 100 connections, 2 workers, MTU 1400, default limits and monitoring.
    pub fn default_for_testing() -> (r: Config)
        ensures
            r.is_valid(),
            r.server.bind_address@ == "127.0.0.1"@,
            r.server.port == 8443,
            r.server.protocol@ == "tcp"@,
            r.server.max_connections == 100,
            r.server.worker_threads == 2,
            r.network.tun_name@ == "hfp0"@,
            r.network.tun_address@ == "10.8.0.1/24"@,
            r.network.mtu == 1400,
            !r.network.enable_ipv6,
            r.limits.rate_limit_per_user == 100_000_000,
            r.limits.max_streams_per_connection == 256,
            r.limits.connection_timeout == 300,
            r.monitoring.enable_metrics,
            r.monitoring.metrics_port == 9090,
            r.monitoring.log_level@ == "info"@,
    {
        let r = Config {
            server: ServerConfig {
                bind_address: "127.0.0.1".to_owned(),
                port: 8443,
                protocol: "tcp".to_owned(),
                max_connections: 100,
                worker_threads: 2,
            },
            network: NetworkConfig {
                tun_name: "hfp0".to_owned(),
                tun_address: "10.8.0.1/24".to_owned(),
                mtu: 1400,
                enable_ipv6: false,
            },
            limits: LimitsConfig::default(),
            monitoring: MonitoringConfig::default(),
        };
        proof {
            reveal_strlit("127.0.0.1");
        }
        r
    }
}

} // verus!
