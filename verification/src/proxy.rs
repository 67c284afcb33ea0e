//! The system proxy setting as it is reported to the host.

use vstd::prelude::*;

verus! {

/// The proxy that the operating system is configured to use.
#[derive(Debug, Clone)]
pub struct Sysproxy {
    /// Whether the proxy is switched on.
    pub enable: bool,
    pub host: String,
    pub port: u16,
    /// The hosts that are reached without the proxy, as the system lists them.
    pub bypass: String,
}

/// What a `Sysproxy` holds, as mathematical values.
pub struct SysproxyView {
    pub enable: bool,
    pub host: Seq<char>,
    pub port: u16,
    pub bypass: Seq<char>,
}

impl View for Sysproxy {
    type V = SysproxyView;

    open spec fn view(&self) -> SysproxyView {
        SysproxyView {
            enable: self.enable,
            host: self.host@,
            port: self.port,
            bypass: self.bypass@,
        }
    }
}

impl Default for Sysproxy {
    /// No proxy: switched off, with empty host and bypass list and port 0.
    fn default() -> (proxy: Sysproxy)
        ensures
            proxy@ == (SysproxyView {
                enable: false,
                host: Seq::<char>::empty(),
                port: 0,
                bypass: Seq::<char>::empty(),
            }),
    {
        Sysproxy { enable: false, host: String::new(), port: 0, bypass: String::new() }
    }
}

} // verus!
