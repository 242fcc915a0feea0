use vstd::prelude::*;

verus! {

/// How traffic is routed through the proxy.
#[derive(Clone, Copy, PartialEq, Eq, Structural, Debug)]
pub enum ProxyMode {
    /// Unprivileged: the OS proxy settings point applications at a local port.
    SystemProxy,
    /// Privileged: a virtual interface captures all traffic.
    TunProxy,
}

impl Default for ProxyMode {
    fn default() -> (r: ProxyMode)
        ensures
            r == ProxyMode::SystemProxy,
    {
        ProxyMode::SystemProxy
    }
}

/// The operating system whose conventions the adapter follows.
#[derive(Clone, Copy, PartialEq, Eq, Structural, Debug)]
pub enum Platform {
    Linux,
    MacOS,
    Windows,
}

impl Platform {
    /// Unix-like systems deliver signals and elevate through `sudo`.
    pub open spec fn spec_is_unix(self) -> bool {
        self != Platform::Windows
    }

    pub fn is_unix(self) -> (r: bool)
        ensures
            r == self.spec_is_unix(),
    {
        match self {
            Platform::Windows => false,
            _ => true,
        }
    }
}

} // verus!
