use vstd::prelude::*;
use vstd::string::StringSliceAdditionalSpecFns;

verus! {

/// The marker value a configuration may name to boot the entry saved by an
/// earlier run.
#[derive(Clone, Copy, Debug, PartialEq, Eq, Structural)]
pub struct SavedTag;

impl SavedTag {
    /// Recognize the marker string.  Accepts exactly the seven-bit text
    /// `@saved`.
    pub fn parse(s: &str) -> (r: Option<SavedTag>)
        ensures
            r is Some <==> s.spec_bytes() =~= seq![0x40u8, 0x73u8, 0x61u8, 0x76u8, 0x65u8, 0x64u8],
    {
        let b = s.as_bytes_vec();
        if b.len() == 6 && b[0] == 0x40 && b[1] == 0x73 && b[2] == 0x61 && b[3] == 0x76 && b[4]
            == 0x65 && b[5] == 0x64 {
            Some(SavedTag)
        } else {
            None
        }
    }
}

/// Which entry the menu starts on: a saved choice, or a fixed index.
#[derive(Clone, Copy, Debug, PartialEq, Eq, Structural)]
pub enum Default {
    /// The entry saved by an earlier run.
    Saved(SavedTag),
    /// The entry at this index.
    Index(usize),
}

/// How a boot entry's kernel expects to be started.
#[derive(Clone, Copy, Debug, PartialEq, Eq, Structural)]
pub enum Protocol {
    /// The Canicula kernel handoff implemented by this library.
    Canicula,
    /// The Linux EFI-stub path.
    Linux,
}

impl Protocol {
    /// The protocol's configuration name.
    pub fn as_str(&self) -> (r: &'static str)
        ensures
            self is Canicula ==> r@ == "canicula"@,
            self is Linux ==> r@ == "linux"@,
    {
        match self {
            Protocol::Canicula => "canicula",
            Protocol::Linux => "linux",
        }
    }
}

/// What a configured file is for.
#[derive(Clone, Copy, Debug, PartialEq, Eq, Structural)]
pub enum FileType {
    /// The kernel image itself.
    Kernel,
    /// An initial ramdisk, possibly one of several.
    Initrd,
    /// The kernel command line.
    Cmdline,
}

/// Where a configured file is found.
#[derive(Clone, Copy, Debug, PartialEq, Eq, Structural)]
pub enum SearchMethod {
    /// On the EFI system partition.
    Esp,
    /// Downloaded over HTTPS.
    Https,
    /// Written inline in the configuration.
    Inline,
}

/// How to pick among several matching remote files.
#[derive(Clone, Copy, Debug, PartialEq, Eq, Structural)]
pub enum SelectStrategy {
    /// Take the newest.
    Latest,
}

/// How the network is configured.
#[derive(Clone, Copy, Debug, PartialEq, Eq, Structural)]
pub enum NetworkType {
    /// Addresses come from DHCP.
    Dhcp,
}

/// One file a boot entry needs.
#[derive(Clone, Debug)]
pub struct BootFile {
    /// What the file is for.
    pub file_type: FileType,
    /// Where to find it.
    pub search: SearchMethod,
    /// Its path or URL, where the search method takes one.
    pub file: Option<String>,
    /// Its inline content, where the search method is inline.
    pub content: Option<String>,
    /// How to pick among several matches.
    pub select: Option<SelectStrategy>,
}

/// How this machine identifies itself to a boot server.
#[derive(Clone, Debug)]
pub struct Identity {
    /// The configured host name.
    pub hostname: Option<String>,
    /// The configured machine identifier.
    pub uuid: Option<String>,
    /// The network interface to prefer, as a hardware address string.
    pub mac: Option<String>,
    /// An access token for the boot server.
    pub token: Option<String>,
}

/// Network settings.
#[derive(Clone, Debug)]
pub struct Network {
    /// The hardware address of the interface to bind to.
    pub bind: Option<String>,
    /// How addresses are assigned.
    pub network_type: Option<NetworkType>,
}

/// One bootable entry of the menu.
#[derive(Clone, Debug)]
pub struct Entry {
    /// The name shown in the menu.
    pub name: String,
    /// How the entry's kernel is started.
    pub protocol: Protocol,
    /// Identity overrides for this entry.
    pub identity: Option<Identity>,
    /// The files the entry needs.
    pub files: Vec<BootFile>,
}

/// The loader's whole configuration.
#[derive(Clone, Debug)]
pub struct Config {
    /// Which entry the menu starts on.
    pub default: Default,
    /// Seconds before the highlighted entry boots on its own.
    pub timeout: usize,
    /// Whether the menu offers a shutdown item.
    pub shutdown: bool,
    /// Whether the menu offers a reboot-to-firmware item.
    pub firmware: bool,
    /// Background images to try.
    pub backgrounds: Vec<String>,
    /// Driver images to load before networking.
    pub drivers: Vec<String>,
    /// The machine's identity.
    pub identity: Option<Identity>,
    /// Network settings.
    pub network: Option<Network>,
    /// The bootable entries.
    pub entry: Vec<Entry>,
}

impl Config {
    /// The entry index the menu starts on: the configured index, or zero
    /// for a saved choice.
    pub fn default_entry_index(&self) -> (r: usize)
        ensures
            self.default matches Default::Index(i) ==> r == i,
            self.default is Saved ==> r == 0,
    {
        match &self.default {
            Default::Index(i) => *i,
            Default::Saved(_) => 0,
        }
    }
}

impl core::default::Default for Config {
    /// The configuration used when none can be read: first entry, a
    /// three-second timeout, no extras.
    fn default() -> (r: Config)
        ensures
            r.default == Default::Index(0usize),
            r.timeout == 3,
            !r.shutdown,
            !r.firmware,
            r.backgrounds@.len() == 0,
            r.drivers@.len() == 0,
            r.identity is None,
            r.network is None,
            r.entry@.len() == 0,
    {
        Config {
            default: Default::Index(0),
            timeout: 3,
            shutdown: false,
            firmware: false,
            backgrounds: Vec::new(),
            drivers: Vec::new(),
            identity: None,
            network: None,
            entry: Vec::new(),
        }
    }
}

} // verus!
