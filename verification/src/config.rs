//! Plain-value model of a USB configuration descriptor.
//!
//! A configuration holds interfaces; each interface holds alternate-setting
//! descriptors; each alternate setting holds endpoints.  Endpoint discovery
//! walks this tree in order, so the model also defines that walk as a flat
//! sequence of (interface number, endpoint) entries.

use vstd::prelude::*;

verus! {

/// The transfer type a USB endpoint is configured for.
#[derive(Clone, Copy, Debug, PartialEq, Eq, Structural)]
pub enum TransferKind {
    Control,
    Isochronous,
    Bulk,
    Interrupt,
}

/// The direction of a USB endpoint, seen from the host.
#[derive(Clone, Copy, Debug, PartialEq, Eq, Structural)]
pub enum EndpointDir {
    In,
    Out,
}

/// One endpoint of an alternate-setting descriptor.
#[derive(Clone, Copy, Debug, PartialEq, Eq, Structural)]
pub struct EndpointDesc {
    /// The endpoint address byte from the descriptor.
    pub address: u8,
    pub direction: EndpointDir,
    pub transfer: TransferKind,
}

/// One alternate-setting descriptor of an interface.
#[derive(Clone, Debug, PartialEq)]
pub struct AltSetting {
    pub endpoints: Vec<EndpointDesc>,
}

/// One interface of a configuration, with its alternate settings.
#[derive(Clone, Debug, PartialEq)]
pub struct InterfaceDesc {
    /// The interface number used when claiming the interface.
    pub number: u8,
    pub alt_settings: Vec<AltSetting>,
}

/// The active configuration descriptor of a device.
#[derive(Clone, Debug, PartialEq)]
pub struct ConfigDesc {
    pub interfaces: Vec<InterfaceDesc>,
}

/// One step of the endpoint walk: an endpoint together with the number of
/// the interface that owns it.
#[derive(Clone, Copy, Debug, PartialEq, Eq, Structural)]
pub struct WalkEntry {
    pub interface_number: u8,
    pub endpoint: EndpointDesc,
}

/// The first `n` walk entries contributed by one alternate setting of the
/// interface numbered `number`.
pub open spec fn alt_entries_prefix(number: u8, alt: AltSetting, n: int) -> Seq<WalkEntry>
    decreases n,
{
    if n <= 0 {
        Seq::empty()
    } else {
        alt_entries_prefix(number, alt, n - 1).push(
            WalkEntry { interface_number: number, endpoint: alt.endpoints@[n - 1] },
        )
    }
}

/// All walk entries of one alternate setting.
pub open spec fn alt_entries(number: u8, alt: AltSetting) -> Seq<WalkEntry> {
    alt_entries_prefix(number, alt, alt.endpoints@.len() as int)
}

/// The walk entries contributed by the first `n` alternate settings of an
/// interface.
pub open spec fn iface_entries_prefix(iface: InterfaceDesc, n: int) -> Seq<WalkEntry>
    decreases n,
{
    if n <= 0 {
        Seq::empty()
    } else {
        iface_entries_prefix(iface, n - 1) + alt_entries(iface.number, iface.alt_settings@[n - 1])
    }
}

/// All walk entries of one interface.
pub open spec fn iface_entries(iface: InterfaceDesc) -> Seq<WalkEntry> {
    iface_entries_prefix(iface, iface.alt_settings@.len() as int)
}

/// The walk entries contributed by the first `n` interfaces of a
/// configuration.
pub open spec fn config_entries_prefix(config: ConfigDesc, n: int) -> Seq<WalkEntry>
    decreases n,
{
    if n <= 0 {
        Seq::empty()
    } else {
        config_entries_prefix(config, n - 1) + iface_entries(config.interfaces@[n - 1])
    }
}

/// The full endpoint walk of a configuration: every endpoint of every
/// alternate setting of every interface, in descriptor order.
pub open spec fn config_entries(config: ConfigDesc) -> Seq<WalkEntry> {
    config_entries_prefix(config, config.interfaces@.len() as int)
}

/// Flattens a configuration into its endpoint walk.
pub fn collect_entries(config: &ConfigDesc) -> (entries: Vec<WalkEntry>)
    ensures
        entries@ == config_entries(*config),
{
    let mut entries: Vec<WalkEntry> = Vec::new();
    let mut i: usize = 0;
    while i < config.interfaces.len()
        invariant
            i <= config.interfaces.len(),
            entries@ == config_entries_prefix(*config, i as int),
        decreases config.interfaces.len() - i,
    {
        let iface = &config.interfaces[i];
        let mut j: usize = 0;
        while j < iface.alt_settings.len()
            invariant
                i < config.interfaces.len(),
                j <= iface.alt_settings.len(),
                iface == &config.interfaces@[i as int],
                entries@ == config_entries_prefix(*config, i as int)
                    + iface_entries_prefix(*iface, j as int),
            decreases iface.alt_settings.len() - j,
        {
            let alt = &iface.alt_settings[j];
            let mut k: usize = 0;
            while k < alt.endpoints.len()
                invariant
                    i < config.interfaces.len(),
                    j < iface.alt_settings.len(),
                    k <= alt.endpoints.len(),
                    iface == &config.interfaces@[i as int],
                    alt == &iface.alt_settings@[j as int],
                    entries@ == config_entries_prefix(*config, i as int)
                        + iface_entries_prefix(*iface, j as int)
                        + alt_entries_prefix(iface.number, *alt, k as int),
                decreases alt.endpoints.len() - k,
            {
                let entry = WalkEntry {
                    interface_number: iface.number,
                    endpoint: alt.endpoints[k],
                };
                entries.push(entry);
                k = k + 1;
            }
            assert(alt_entries_prefix(iface.number, *alt, alt.endpoints@.len() as int)
                == alt_entries(iface.number, *alt));
            j = j + 1;
        }
        assert(iface_entries_prefix(*iface, iface.alt_settings@.len() as int)
            == iface_entries(*iface));
        i = i + 1;
    }
    entries
}

} // verus!
