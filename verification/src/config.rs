//! Configuration: image output, bind addresses and port, operating
//! flags, and the choice of the address to advertise in URLs.

use vstd::prelude::*;

use crate::net::{copy_addrs, get_first_net, spec_first_global, HostAddr};

verus! {

/// Allowed image formats for the QR code produced at startup: a PNG
/// file, an SVG file, or no image at all.
#[derive(Clone, Copy, Debug, PartialEq, Eq, Structural)]
pub enum ImageOptions {
    Png,
    Svg,
    NoImage,
}

/// The name of each image format, as it is written in configuration.
pub open spec fn spec_image_text(o: ImageOptions) -> Seq<char> {
    match o {
        ImageOptions::Png => "png"@,
        ImageOptions::Svg => "svg"@,
        ImageOptions::NoImage => "none"@,
    }
}

impl ImageOptions {
    /// The configuration name of this format.
    pub fn text(&self) -> (r: String)
        ensures
            r@ == spec_image_text(*self),
    {
        match self {
            ImageOptions::Png => String::from_str("png"),
            ImageOptions::Svg => String::from_str("svg"),
            ImageOptions::NoImage => String::from_str("none"),
        }
    }
}

/// Options for interface bindings: the bound host addresses, empty
/// meaning all available addresses of both families, and the port,
/// absent meaning an arbitrary available one.
#[derive(Debug)]
pub struct BindOptions {
    pub hosts: Vec<HostAddr>,
    pub port: Option<u16>,
}

/// The unspecified IPv4 address.
pub open spec fn spec_unspecified_v4() -> HostAddr {
    HostAddr::V4 { a: 0, b: 0, c: 0, d: 0 }
}

/// The unspecified IPv6 address.
pub open spec fn spec_unspecified_v6() -> HostAddr {
    HostAddr::V6 { s: [0, 0, 0, 0, 0, 0, 0, 0] }
}

impl BindOptions {
    /// The port to bind, zero (an ephemeral port) when none was set.
    pub open spec fn spec_port(self) -> u16 {
        match self.port {
            Some(p) => p,
            None => 0,
        }
    }

    /// The addresses the service listens on: the configured ones, or
    /// the unspecified address of both families when none were set.
    pub open spec fn spec_effective_hosts(self) -> Seq<HostAddr> {
        if self.hosts@.len() == 0 {
            seq![spec_unspecified_v4(), spec_unspecified_v6()]
        } else {
            self.hosts@
        }
    }

    /// The single address advertised in outward-facing URLs: the first
    /// configured address, else the first globally routable interface
    /// address, else the unspecified IPv4 address.
    pub open spec fn spec_primary_host(self, interfaces: Seq<HostAddr>) -> HostAddr {
        if self.hosts@.len() > 0 {
            self.hosts@[0]
        } else {
            match spec_first_global(interfaces) {
                Some(h) => h,
                None => spec_unspecified_v4(),
            }
        }
    }

    /// The unspecified addresses of both families, used when no host
    /// was configured.
    pub fn default_hosts() -> (r: Vec<HostAddr>)
        ensures
            r@ == seq![spec_unspecified_v4(), spec_unspecified_v6()],
    {
        let mut v: Vec<HostAddr> = Vec::new();
        v.push(HostAddr::V4 { a: 0, b: 0, c: 0, d: 0 });
        v.push(HostAddr::V6 { s: [0, 0, 0, 0, 0, 0, 0, 0] });
        proof {
            assert(v@ =~= seq![spec_unspecified_v4(), spec_unspecified_v6()]);
        }
        v
    }

    /// Get the bound port, defaulting to zero.
    pub fn port(&self) -> (r: u16)
        ensures
            r == self.spec_port(),
    {
        match self.port {
            Some(p) => p,
            None => 0,
        }
    }

    /// The addresses to listen on, materialized.
    pub fn hosts_iter(&self) -> (r: Vec<HostAddr>)
        ensures
            r@ == self.spec_effective_hosts(),
    {
        if self.hosts.len() == 0 {
            BindOptions::default_hosts()
        } else {
            copy_addrs(&self.hosts)
        }
    }

    /// Pick the address to advertise in URLs, given the enumerated
    /// addresses of the local interfaces.
    pub fn primary_host(&self, interfaces: &Vec<HostAddr>) -> (r: HostAddr)
        ensures
            r == self.spec_primary_host(interfaces@),
    {
        if self.hosts.len() > 0 {
            self.hosts[0]
        } else {
            match get_first_net(interfaces) {
                Some(h) => h,
                None => HostAddr::V4 { a: 0, b: 0, c: 0, d: 0 },
            }
        }
    }
}

impl Default for BindOptions {
    /// No hosts configured and no port configured.
    fn default() -> (r: BindOptions)
        ensures
            r.hosts@.len() == 0,
            r.port is None,
    {
        BindOptions { hosts: Vec::new(), port: None }
    }
}

/// The configuration: image options, quiet and strict flags, and the
/// bind options.
#[derive(Debug)]
pub struct Config {
    pub image: Option<ImageOptions>,
    pub quiet: Option<bool>,
    pub strict: Option<bool>,
    pub bind: BindOptions,
}

impl Config {
    /// The selected image format, defaulting to PNG.
    pub open spec fn spec_image(self) -> ImageOptions {
        match self.image {
            Some(o) => o,
            None => ImageOptions::Png,
        }
    }

    /// Whether strict mode is on: any failure in path resolution stops
    /// startup.
    pub open spec fn spec_strict(self) -> bool {
        self.strict == Some(true)
    }

    /// Whether warnings about unreadable input paths are suppressed.
    pub open spec fn spec_quiet(self) -> bool {
        self.quiet == Some(true)
    }

    /// Get the image format, defaulting to PNG.
    pub fn image(&self) -> (r: ImageOptions)
        ensures
            r == self.spec_image(),
    {
        match self.image {
            Some(o) => o,
            None => ImageOptions::Png,
        }
    }

    /// Whether strict mode is on.
    pub fn is_strict(&self) -> (r: bool)
        ensures
            r == self.spec_strict(),
    {
        match self.strict {
            Some(b) => b,
            None => false,
        }
    }

    /// Whether quiet mode is on.
    pub fn is_quiet(&self) -> (r: bool)
        ensures
            r == self.spec_quiet(),
    {
        match self.quiet {
            Some(b) => b,
            None => false,
        }
    }
}

impl Default for Config {
    /// Nothing configured: every option left to its default.
    fn default() -> (r: Config)
        ensures
            r.image is None,
            r.quiet is None,
            r.strict is None,
            r.bind.hosts@.len() == 0,
            r.bind.port is None,
    {
        Config { image: None, quiet: None, strict: None, bind: BindOptions::default() }
    }
}

} // verus!
