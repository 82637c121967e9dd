//! What is known of the network and the power that a device recovers on.

use crate::recovery_plan::{RecoveryNetworkClass, RecoveryPowerSource};
use crate::text::{decimal, push_decimal};
use vstd::prelude::*;

verus! {

/// The interface type that IANA assigns to Ethernet.
pub const IANA_ETHERNET_CSMACD: u32 = 6;

/// The interface type that IANA assigns to wireless networks.
pub const IANA_IEEE80211: u32 = 71;

/// The first interface type that IANA assigns to mobile broadband.
pub const IANA_WWANPP: u32 = 243;

/// The second interface type that IANA assigns to mobile broadband.
pub const IANA_WWANPP2: u32 = 244;

/// Where a platform context comes from.
#[derive(Clone, Copy, Debug, PartialEq, Eq, Structural)]
pub enum RecoveryPlatformContextSource {
    CallerSupplied,
    WindowsNative,
    UnsupportedPlatform,
}

impl RecoveryPlatformContextSource {
    /// The name of the value.
    pub open spec fn label(self) -> Seq<char> {
        match self {
            RecoveryPlatformContextSource::CallerSupplied => "caller-supplied"@,
            RecoveryPlatformContextSource::WindowsNative => "windows-native"@,
            RecoveryPlatformContextSource::UnsupportedPlatform => "unsupported-platform"@,
        }
    }

    /// The name of the value.
    pub fn as_str(self) -> (r: &'static str)
        ensures
            r@ == self.label(),
    {
        match self {
            RecoveryPlatformContextSource::CallerSupplied => "caller-supplied",
            RecoveryPlatformContextSource::WindowsNative => "windows-native",
            RecoveryPlatformContextSource::UnsupportedPlatform => "unsupported-platform",
        }
    }
}

/// Whether a probe told what a policy needs.
#[derive(Clone, Copy, Debug, PartialEq, Eq, Structural)]
pub enum RecoveryProbeStatus {
    Available,
    Unavailable,
    CallerSupplied,
}

impl RecoveryProbeStatus {
    /// The name of the value.
    pub open spec fn label(self) -> Seq<char> {
        match self {
            RecoveryProbeStatus::Available => "available"@,
            RecoveryProbeStatus::Unavailable => "unavailable"@,
            RecoveryProbeStatus::CallerSupplied => "caller-supplied"@,
        }
    }

    /// The name of the value.
    pub fn as_str(self) -> (r: &'static str)
        ensures
            r@ == self.label(),
    {
        match self {
            RecoveryProbeStatus::Available => "available",
            RecoveryProbeStatus::Unavailable => "unavailable",
            RecoveryProbeStatus::CallerSupplied => "caller-supplied",
        }
    }
}

/// What traffic on a network costs.
#[derive(Clone, Copy, Debug, PartialEq, Eq, Structural)]
pub enum RecoveryNetworkCost {
    Unrestricted,
    Fixed,
    Variable,
    Unknown,
}

impl RecoveryNetworkCost {
    /// The name of the value.
    pub open spec fn label(self) -> Seq<char> {
        match self {
            RecoveryNetworkCost::Unrestricted => "unrestricted"@,
            RecoveryNetworkCost::Fixed => "fixed"@,
            RecoveryNetworkCost::Variable => "variable"@,
            RecoveryNetworkCost::Unknown => "unknown"@,
        }
    }

    /// The name of the value.
    pub fn as_str(self) -> (r: &'static str)
        ensures
            r@ == self.label(),
    {
        match self {
            RecoveryNetworkCost::Unrestricted => "unrestricted",
            RecoveryNetworkCost::Fixed => "fixed",
            RecoveryNetworkCost::Variable => "variable",
            RecoveryNetworkCost::Unknown => "unknown",
        }
    }

    /// Whether the traffic is metered, where that is known.
    pub fn is_metered(self) -> (r: Option<bool>)
        ensures
            r == self.metered(),
    {
        match self {
            RecoveryNetworkCost::Unrestricted => Some(false),
            RecoveryNetworkCost::Fixed => Some(true),
            RecoveryNetworkCost::Variable => Some(true),
            RecoveryNetworkCost::Unknown => None,
        }
    }

    /// Whether the traffic is metered, where that is known.
    pub open spec fn metered(self) -> Option<bool> {
        match self {
            RecoveryNetworkCost::Unknown => None,
            _ => Some(self != RecoveryNetworkCost::Unrestricted),
        }
    }
}

/// How far a network reaches.
#[derive(Clone, Copy, Debug, PartialEq, Eq, Structural)]
pub enum RecoveryConnectivity {
    Disconnected,
    Local,
    Constrained,
    Internet,
    Unknown,
}

impl RecoveryConnectivity {
    /// The name of the value.
    pub open spec fn label(self) -> Seq<char> {
        match self {
            RecoveryConnectivity::Disconnected => "none"@,
            RecoveryConnectivity::Local => "local"@,
            RecoveryConnectivity::Constrained => "constrained"@,
            RecoveryConnectivity::Internet => "internet"@,
            RecoveryConnectivity::Unknown => "unknown"@,
        }
    }

    /// The name of the value.
    pub fn as_str(self) -> (r: &'static str)
        ensures
            r@ == self.label(),
    {
        match self {
            RecoveryConnectivity::Disconnected => "none",
            RecoveryConnectivity::Local => "local",
            RecoveryConnectivity::Constrained => "constrained",
            RecoveryConnectivity::Internet => "internet",
            RecoveryConnectivity::Unknown => "unknown",
        }
    }
}

/// A yes or no that may be unknown.
#[derive(Clone, Copy, Debug, PartialEq, Eq, Structural)]
pub enum RecoveryTruth {
    Yes,
    No,
    Unknown,
}

impl RecoveryTruth {
    /// The name of the value.
    pub open spec fn label(self) -> Seq<char> {
        match self {
            RecoveryTruth::Yes => "true"@,
            RecoveryTruth::No => "false"@,
            RecoveryTruth::Unknown => "unknown"@,
        }
    }

    /// The name of the value.
    pub fn as_str(self) -> (r: &'static str)
        ensures
            r@ == self.label(),
    {
        match self {
            RecoveryTruth::Yes => "true",
            RecoveryTruth::No => "false",
            RecoveryTruth::Unknown => "unknown",
        }
    }

    /// What an optional answer says.
    pub open spec fn of(value: Option<bool>) -> RecoveryTruth {
        match value {
            Some(yes) => if yes {
                RecoveryTruth::Yes
            } else {
                RecoveryTruth::No
            },
            None => RecoveryTruth::Unknown,
        }
    }

    /// What an optional answer says.
    pub fn from_option(value: Option<bool>) -> (r: RecoveryTruth)
        ensures
            r == RecoveryTruth::of(value),
    {
        match value {
            Some(true) => RecoveryTruth::Yes,
            Some(false) => RecoveryTruth::No,
            None => RecoveryTruth::Unknown,
        }
    }
}

/// What a battery is doing.
#[derive(Clone, Copy, Debug, PartialEq, Eq, Structural)]
pub enum RecoveryBatteryStatus {
    NotPresent,
    Discharging,
    Idle,
    Charging,
    Unknown,
}

impl RecoveryBatteryStatus {
    /// The name of the value.
    pub open spec fn label(self) -> Seq<char> {
        match self {
            RecoveryBatteryStatus::NotPresent => "not-present"@,
            RecoveryBatteryStatus::Discharging => "discharging"@,
            RecoveryBatteryStatus::Idle => "idle"@,
            RecoveryBatteryStatus::Charging => "charging"@,
            RecoveryBatteryStatus::Unknown => "unknown"@,
        }
    }

    /// The name of the value.
    pub fn as_str(self) -> (r: &'static str)
        ensures
            r@ == self.label(),
    {
        match self {
            RecoveryBatteryStatus::NotPresent => "not-present",
            RecoveryBatteryStatus::Discharging => "discharging",
            RecoveryBatteryStatus::Idle => "idle",
            RecoveryBatteryStatus::Charging => "charging",
            RecoveryBatteryStatus::Unknown => "unknown",
        }
    }
}

/// Whether a power supply suffices.
#[derive(Clone, Copy, Debug, PartialEq, Eq, Structural)]
pub enum RecoveryPowerSupplyStatus {
    NotPresent,
    Inadequate,
    Adequate,
    Unknown,
}

impl RecoveryPowerSupplyStatus {
    /// The name of the value.
    pub open spec fn label(self) -> Seq<char> {
        match self {
            RecoveryPowerSupplyStatus::NotPresent => "not-present"@,
            RecoveryPowerSupplyStatus::Inadequate => "inadequate"@,
            RecoveryPowerSupplyStatus::Adequate => "adequate"@,
            RecoveryPowerSupplyStatus::Unknown => "unknown"@,
        }
    }

    /// The name of the value.
    pub fn as_str(self) -> (r: &'static str)
        ensures
            r@ == self.label(),
    {
        match self {
            RecoveryPowerSupplyStatus::NotPresent => "not-present",
            RecoveryPowerSupplyStatus::Inadequate => "inadequate",
            RecoveryPowerSupplyStatus::Adequate => "adequate",
            RecoveryPowerSupplyStatus::Unknown => "unknown",
        }
    }
}

/// Whether energy is being saved.
#[derive(Clone, Copy, Debug, PartialEq, Eq, Structural)]
pub enum RecoveryEnergySaverStatus {
    Disabled,
    Off,
    On,
    Unknown,
}

impl RecoveryEnergySaverStatus {
    /// The name of the value.
    pub open spec fn label(self) -> Seq<char> {
        match self {
            RecoveryEnergySaverStatus::Disabled => "disabled"@,
            RecoveryEnergySaverStatus::Off => "off"@,
            RecoveryEnergySaverStatus::On => "on"@,
            RecoveryEnergySaverStatus::Unknown => "unknown"@,
        }
    }

    /// The name of the value.
    pub fn as_str(self) -> (r: &'static str)
        ensures
            r@ == self.label(),
    {
        match self {
            RecoveryEnergySaverStatus::Disabled => "disabled",
            RecoveryEnergySaverStatus::Off => "off",
            RecoveryEnergySaverStatus::On => "on",
            RecoveryEnergySaverStatus::Unknown => "unknown",
        }
    }
}

/// What is known of a device's network and power.
#[derive(Clone, Copy, Debug, PartialEq, Eq, Structural)]
pub struct RecoveryPlatformContext {
    pub source: RecoveryPlatformContextSource,
    pub network_probe_status: RecoveryProbeStatus,
    pub power_probe_status: RecoveryProbeStatus,
    pub interface_class: RecoveryNetworkClass,
    pub network_class: RecoveryNetworkClass,
    pub connectivity: RecoveryConnectivity,
    pub network_cost: RecoveryNetworkCost,
    pub roaming: RecoveryTruth,
    pub over_data_limit: RecoveryTruth,
    pub approaching_data_limit: RecoveryTruth,
    pub background_data_restricted: RecoveryTruth,
    pub power_source: RecoveryPowerSource,
    pub power_supply_status: RecoveryPowerSupplyStatus,
    pub battery_status: RecoveryBatteryStatus,
    pub energy_saver_status: RecoveryEnergySaverStatus,
    pub remaining_charge_percent: Option<u8>,
}

impl RecoveryPlatformContext {
    /// A context of which only the source, the probe status, the network and the power are
    /// known.
    pub open spec fn bare(
        source: RecoveryPlatformContextSource,
        status: RecoveryProbeStatus,
        network: RecoveryNetworkClass,
        power: RecoveryPowerSource,
    ) -> RecoveryPlatformContext {
        RecoveryPlatformContext {
            source,
            network_probe_status: status,
            power_probe_status: status,
            interface_class: network,
            network_class: network,
            connectivity: RecoveryConnectivity::Unknown,
            network_cost: RecoveryNetworkCost::Unknown,
            roaming: RecoveryTruth::Unknown,
            over_data_limit: RecoveryTruth::Unknown,
            approaching_data_limit: RecoveryTruth::Unknown,
            background_data_restricted: RecoveryTruth::Unknown,
            power_source: power,
            power_supply_status: RecoveryPowerSupplyStatus::Unknown,
            battery_status: RecoveryBatteryStatus::Unknown,
            energy_saver_status: RecoveryEnergySaverStatus::Unknown,
            remaining_charge_percent: None,
        }
    }

    /// The context of a platform that offers no probe: nothing is known.
    pub open spec fn of_unsupported_platform() -> RecoveryPlatformContext {
        RecoveryPlatformContext::bare(
            RecoveryPlatformContextSource::UnsupportedPlatform,
            RecoveryProbeStatus::Unavailable,
            RecoveryNetworkClass::Unknown,
            RecoveryPowerSource::Unknown,
        )
    }

    /// The network that the policy is held against.
    pub fn network_class(self) -> (r: RecoveryNetworkClass)
        ensures
            r == self.network_class,
    {
        self.network_class
    }

    /// The power source that the policy is held against.
    pub fn power_source(self) -> (r: RecoveryPowerSource)
        ensures
            r == self.power_source,
    {
        self.power_source
    }

    /// The context as it is now: what the user supplied stays, anything else is probed again.
    pub fn refreshed(self) -> (r: RecoveryPlatformContext)
        ensures
            r == self.renewed(RecoveryPlatformContext::of_unsupported_platform()),
    {
        self.refreshed_from(system_recovery_platform_context())
    }

    /// What follows a new probe of the system.
    pub open spec fn renewed(self, probed: RecoveryPlatformContext) -> RecoveryPlatformContext {
        if self.source == RecoveryPlatformContextSource::CallerSupplied {
            self
        } else {
            probed
        }
    }

    /// What follows a new probe of the system.
    pub fn refreshed_from(self, probed: RecoveryPlatformContext) -> (r: RecoveryPlatformContext)
        ensures
            r == self.renewed(probed),
    {
        match self.source {
            RecoveryPlatformContextSource::CallerSupplied => self,
            RecoveryPlatformContextSource::WindowsNative => probed,
            RecoveryPlatformContextSource::UnsupportedPlatform => probed,
        }
    }

    /// The context that the user supplied.
    pub fn caller_supplied(network: RecoveryNetworkClass, power: RecoveryPowerSource) -> (r:
        RecoveryPlatformContext)
        ensures
            r == RecoveryPlatformContext::bare(
                RecoveryPlatformContextSource::CallerSupplied,
                RecoveryProbeStatus::CallerSupplied,
                network,
                power,
            ),
    {
        RecoveryPlatformContext {
            source: RecoveryPlatformContextSource::CallerSupplied,
            network_probe_status: RecoveryProbeStatus::CallerSupplied,
            power_probe_status: RecoveryProbeStatus::CallerSupplied,
            interface_class: network,
            network_class: network,
            power_source: power,
            ..RecoveryPlatformContext::unsupported()
        }
    }

    /// The context of a platform that offers no probe.
    pub fn unsupported() -> (r: RecoveryPlatformContext)
        ensures
            r == RecoveryPlatformContext::of_unsupported_platform(),
    {
        RecoveryPlatformContext {
            source: RecoveryPlatformContextSource::UnsupportedPlatform,
            network_probe_status: RecoveryProbeStatus::Unavailable,
            power_probe_status: RecoveryProbeStatus::Unavailable,
            interface_class: RecoveryNetworkClass::Unknown,
            network_class: RecoveryNetworkClass::Unknown,
            connectivity: RecoveryConnectivity::Unknown,
            network_cost: RecoveryNetworkCost::Unknown,
            roaming: RecoveryTruth::Unknown,
            over_data_limit: RecoveryTruth::Unknown,
            approaching_data_limit: RecoveryTruth::Unknown,
            background_data_restricted: RecoveryTruth::Unknown,
            power_source: RecoveryPowerSource::Unknown,
            power_supply_status: RecoveryPowerSupplyStatus::Unknown,
            battery_status: RecoveryBatteryStatus::Unknown,
            energy_saver_status: RecoveryEnergySaverStatus::Unknown,
            remaining_charge_percent: None,
        }
    }
}

/// Why no platform context is resolved: of the network and the power only one was supplied.
#[derive(Clone, Copy, Debug, PartialEq, Eq, Structural)]
pub struct IncompleteContext {
    pub network_supplied: bool,
}

/// How a wait for a change of the platform ended.
#[derive(Clone, Copy, Debug, PartialEq, Eq, Structural)]
pub enum RecoveryPlatformChangeWait {
    Changed,
    TimedOut,
}

/// How often the platform changed.
#[derive(Clone, Copy, Debug, PartialEq, Eq, Structural)]
pub struct RecoveryPlatformChangeSignal {
    pub sequence: u64,
}

impl RecoveryPlatformChangeSignal {
    /// No change yet.
    pub fn new() -> (r: RecoveryPlatformChangeSignal)
        ensures
            r.sequence == 0,
    {
        RecoveryPlatformChangeSignal { sequence: 0 }
    }

    /// The number of changes, modulo 2^64.
    pub fn sequence(&self) -> (r: u64)
        ensures
            r == self.sequence,
    {
        self.sequence
    }

    /// Counts a change.
    pub fn changed(&mut self)
        ensures
            final(self).sequence == if old(self).sequence == u64::MAX {
                0
            } else {
                old(self).sequence + 1
            },
    {
        self.sequence = self.sequence.wrapping_add(1);
    }

    /// Whether a wait is over before it starts: the platform changed after `observed_sequence`.
    pub open spec fn changed_since(self, observed_sequence: u64) -> bool {
        self.sequence != observed_sequence
    }

    /// Whether to wait at all. It is asked before registering for notifications and again
    /// afterwards, so that a change in between is seen.
    pub fn must_wait(&self, observed_sequence: u64) -> (r: bool)
        ensures
            r == !self.changed_since(observed_sequence),
    {
        self.sequence == observed_sequence
    }

    /// How a wait ended: `registered` is the signal once notifications were asked for, and
    /// `notified` tells whether one came in time.
    pub fn wait(
        &self,
        observed_sequence: u64,
        registered: &RecoveryPlatformChangeSignal,
        notified: bool,
    ) -> (r: RecoveryPlatformChangeWait)
        ensures
            r == if self.changed_since(observed_sequence) || registered.changed_since(
                observed_sequence,
            ) || notified {
                RecoveryPlatformChangeWait::Changed
            } else {
                RecoveryPlatformChangeWait::TimedOut
            },
    {
        if !self.must_wait(observed_sequence) {
            return RecoveryPlatformChangeWait::Changed;
        }
        if !registered.must_wait(observed_sequence) {
            return RecoveryPlatformChangeWait::Changed;
        }
        if notified {
            RecoveryPlatformChangeWait::Changed
        } else {
            RecoveryPlatformChangeWait::TimedOut
        }
    }
}

impl Default for RecoveryPlatformChangeSignal {
    fn default() -> (r: RecoveryPlatformChangeSignal)
        ensures
            r.sequence == 0,
    {
        RecoveryPlatformChangeSignal::new()
    }
}

/// The context of this platform as a probe finds it, where there is no native one.
pub fn system_probe() -> (r: RecoveryPlatformContext)
    ensures
        r == RecoveryPlatformContext::of_unsupported_platform(),
{
    RecoveryPlatformContext::unsupported()
}

/// The context of this platform, where there is no native probe.
pub fn system_recovery_platform_context() -> (r: RecoveryPlatformContext)
    ensures
        r == RecoveryPlatformContext::of_unsupported_platform(),
{
    system_recovery_platform_context_from(None)
}

/// The context that a run starts with, where `probed` is what the system tells: the user
/// supplies both values or neither.
pub open spec fn resolved_context(
    network: Option<RecoveryNetworkClass>,
    power: Option<RecoveryPowerSource>,
    probed: RecoveryPlatformContext,
) -> Result<RecoveryPlatformContext, IncompleteContext> {
    match (network, power) {
        (Some(network), Some(power)) => Ok(
            RecoveryPlatformContext::bare(
                RecoveryPlatformContextSource::CallerSupplied,
                RecoveryProbeStatus::CallerSupplied,
                network,
                power,
            ),
        ),
        (None, None) => Ok(probed),
        _ => Err(IncompleteContext { network_supplied: network is Some }),
    }
}

/// The context that a run starts with, where there is no native probe.
pub fn resolve_recovery_platform_context(
    network: Option<RecoveryNetworkClass>,
    power: Option<RecoveryPowerSource>,
) -> (r: Result<RecoveryPlatformContext, IncompleteContext>)
    ensures
        r == resolved_context(network, power, RecoveryPlatformContext::of_unsupported_platform()),
{
    resolve_recovery_platform_context_from(network, power, system_recovery_platform_context())
}

/// The context that a run starts with, where `probed` is what the system tells.
pub fn resolve_recovery_platform_context_from(
    network: Option<RecoveryNetworkClass>,
    power: Option<RecoveryPowerSource>,
    probed: RecoveryPlatformContext,
) -> (r: Result<RecoveryPlatformContext, IncompleteContext>)
    ensures
        r == resolved_context(network, power, probed),
{
    match (network, power) {
        (Some(network), Some(power)) => Ok(RecoveryPlatformContext::caller_supplied(network, power)),
        (None, None) => Ok(probed),
        (Some(_), None) => Err(IncompleteContext { network_supplied: true }),
        (None, Some(_)) => Err(IncompleteContext { network_supplied: false }),
    }
}

/// The network that a policy is held against: unknown where the cost or the roaming is
/// unknown, mobile where the traffic is metered or roaming, and else the interface's.
pub open spec fn effective_class(
    interface_class: RecoveryNetworkClass,
    cost: RecoveryNetworkCost,
    roaming: RecoveryTruth,
) -> RecoveryNetworkClass {
    if cost.metered() is None || roaming == RecoveryTruth::Unknown {
        RecoveryNetworkClass::Unknown
    } else if cost.metered() == Some(true) || roaming == RecoveryTruth::Yes {
        RecoveryNetworkClass::Mobile
    } else {
        interface_class
    }
}

/// The network that a policy is held against.
pub fn effective_network_class(
    interface_class: RecoveryNetworkClass,
    cost: RecoveryNetworkCost,
    roaming: RecoveryTruth,
) -> (r: RecoveryNetworkClass)
    ensures
        r == effective_class(interface_class, cost, roaming),
{
    if cost == RecoveryNetworkCost::Unknown || roaming == RecoveryTruth::Unknown {
        return RecoveryNetworkClass::Unknown;
    }
    if cost == RecoveryNetworkCost::Fixed || cost == RecoveryNetworkCost::Variable || roaming
        == RecoveryTruth::Yes {
        return RecoveryNetworkClass::Mobile;
    }
    interface_class
}

/// The network of an interface: what it says of itself, unless it claims to be both wireless
/// and mobile, and else its IANA type.
pub open spec fn interface_class(
    is_wlan: Option<bool>,
    is_wwan: Option<bool>,
    iana_interface_type: Option<u32>,
) -> RecoveryNetworkClass {
    if is_wlan == Some(true) && is_wwan == Some(true) {
        RecoveryNetworkClass::Unknown
    } else if is_wwan == Some(true) {
        RecoveryNetworkClass::Mobile
    } else if is_wlan == Some(true) {
        RecoveryNetworkClass::Wifi
    } else if iana_interface_type == Some(IANA_ETHERNET_CSMACD) {
        RecoveryNetworkClass::Ethernet
    } else if iana_interface_type == Some(IANA_IEEE80211) {
        RecoveryNetworkClass::Wifi
    } else if iana_interface_type == Some(IANA_WWANPP) || iana_interface_type == Some(
        IANA_WWANPP2,
    ) {
        RecoveryNetworkClass::Mobile
    } else {
        RecoveryNetworkClass::Unknown
    }
}

/// The network of an interface.
pub fn interface_network_class(
    is_wlan: Option<bool>,
    is_wwan: Option<bool>,
    iana_interface_type: Option<u32>,
) -> (r: RecoveryNetworkClass)
    ensures
        r == interface_class(is_wlan, is_wwan, iana_interface_type),
{
    match (is_wlan, is_wwan) {
        (Some(true), Some(true)) => return RecoveryNetworkClass::Unknown,
        (_, Some(true)) => return RecoveryNetworkClass::Mobile,
        (Some(true), _) => return RecoveryNetworkClass::Wifi,
        _ => {},
    }
    match iana_interface_type {
        Some(kind) => if kind == IANA_ETHERNET_CSMACD {
            RecoveryNetworkClass::Ethernet
        } else if kind == IANA_IEEE80211 {
            RecoveryNetworkClass::Wifi
        } else if kind == IANA_WWANPP || kind == IANA_WWANPP2 {
            RecoveryNetworkClass::Mobile
        } else {
            RecoveryNetworkClass::Unknown
        },
        None => RecoveryNetworkClass::Unknown,
    }
}

/// What powers a device: an adequate supply counts as external power, a battery that
/// discharges or idles as battery power, and nothing else is known.
pub open spec fn powered_by(
    supply: RecoveryPowerSupplyStatus,
    battery: RecoveryBatteryStatus,
) -> RecoveryPowerSource {
    if supply == RecoveryPowerSupplyStatus::Adequate {
        RecoveryPowerSource::External
    } else if battery == RecoveryBatteryStatus::Discharging || battery
        == RecoveryBatteryStatus::Idle {
        RecoveryPowerSource::Battery
    } else {
        RecoveryPowerSource::Unknown
    }
}

/// What powers a device.
pub fn classify_power_source(
    supply: RecoveryPowerSupplyStatus,
    battery: RecoveryBatteryStatus,
) -> (r: RecoveryPowerSource)
    ensures
        r == powered_by(supply, battery),
{
    if supply == RecoveryPowerSupplyStatus::Adequate {
        return RecoveryPowerSource::External;
    }
    if battery == RecoveryBatteryStatus::Discharging || battery == RecoveryBatteryStatus::Idle {
        return RecoveryPowerSource::Battery;
    }
    RecoveryPowerSource::Unknown
}

/// What a connection profile of the system told, each answer where there was one.
#[derive(Clone, Copy, Debug, PartialEq, Eq, Structural)]
pub struct ProfileReadings {
    pub is_wlan: Option<bool>,
    pub is_wwan: Option<bool>,
    pub iana_interface_type: Option<u32>,
    pub connectivity: RecoveryConnectivity,
    pub cost: RecoveryNetworkCost,
    pub roaming: Option<bool>,
    pub over_data_limit: Option<bool>,
    pub approaching_data_limit: Option<bool>,
    pub background_data_restricted: Option<bool>,
}

/// What is known of a network.
#[derive(Clone, Copy, Debug, PartialEq, Eq, Structural)]
pub struct NetworkProbe {
    pub status: RecoveryProbeStatus,
    pub interface_class: RecoveryNetworkClass,
    pub network_class: RecoveryNetworkClass,
    pub connectivity: RecoveryConnectivity,
    pub cost: RecoveryNetworkCost,
    pub roaming: RecoveryTruth,
    pub over_data_limit: RecoveryTruth,
    pub approaching_data_limit: RecoveryTruth,
    pub background_data_restricted: RecoveryTruth,
}

impl NetworkProbe {
    /// A probe that told nothing.
    pub open spec fn nothing_known() -> NetworkProbe {
        NetworkProbe {
            status: RecoveryProbeStatus::Unavailable,
            interface_class: RecoveryNetworkClass::Unknown,
            network_class: RecoveryNetworkClass::Unknown,
            connectivity: RecoveryConnectivity::Unknown,
            cost: RecoveryNetworkCost::Unknown,
            roaming: RecoveryTruth::Unknown,
            over_data_limit: RecoveryTruth::Unknown,
            approaching_data_limit: RecoveryTruth::Unknown,
            background_data_restricted: RecoveryTruth::Unknown,
        }
    }

    /// What a profile's answers say: its network counts only where it is connected, and the
    /// probe is available only where the network is known.
    pub open spec fn of_profile(readings: ProfileReadings) -> NetworkProbe {
        let class = interface_class(
            readings.is_wlan,
            readings.is_wwan,
            readings.iana_interface_type,
        );
        let network_class = if readings.connectivity == RecoveryConnectivity::Disconnected
            || readings.connectivity == RecoveryConnectivity::Unknown {
            RecoveryNetworkClass::Unknown
        } else {
            effective_class(class, readings.cost, RecoveryTruth::of(readings.roaming))
        };
        NetworkProbe {
            status: if network_class == RecoveryNetworkClass::Unknown {
                RecoveryProbeStatus::Unavailable
            } else {
                RecoveryProbeStatus::Available
            },
            interface_class: class,
            network_class,
            connectivity: readings.connectivity,
            cost: readings.cost,
            roaming: RecoveryTruth::of(readings.roaming),
            over_data_limit: RecoveryTruth::of(readings.over_data_limit),
            approaching_data_limit: RecoveryTruth::of(readings.approaching_data_limit),
            background_data_restricted: RecoveryTruth::of(readings.background_data_restricted),
        }
    }

    /// Whether the probe is of a known interface that reaches the internet.
    pub open spec fn reaches_internet(self) -> bool {
        self.interface_class != RecoveryNetworkClass::Unknown && self.connectivity
            == RecoveryConnectivity::Internet
    }

    /// Whether the probe is of a known interface that reaches less than the internet.
    pub open spec fn reaches_less(self) -> bool {
        self.interface_class != RecoveryNetworkClass::Unknown && (self.connectivity
            == RecoveryConnectivity::Local || self.connectivity
            == RecoveryConnectivity::Constrained)
    }

    /// Whether the system's own choice is used as it is.
    pub open spec fn settles(self) -> bool {
        self.interface_class != RecoveryNetworkClass::Unknown && self.status
            == RecoveryProbeStatus::Available
    }
}

/// A probe that told nothing.
pub fn unavailable_network() -> (r: NetworkProbe)
    ensures
        r == NetworkProbe::nothing_known(),
{
    NetworkProbe {
        status: RecoveryProbeStatus::Unavailable,
        interface_class: RecoveryNetworkClass::Unknown,
        network_class: RecoveryNetworkClass::Unknown,
        connectivity: RecoveryConnectivity::Unknown,
        cost: RecoveryNetworkCost::Unknown,
        roaming: RecoveryTruth::Unknown,
        over_data_limit: RecoveryTruth::Unknown,
        approaching_data_limit: RecoveryTruth::Unknown,
        background_data_restricted: RecoveryTruth::Unknown,
    }
}

/// What a profile's answers say.
pub fn probe_profile(readings: &ProfileReadings) -> (r: NetworkProbe)
    ensures
        r == NetworkProbe::of_profile(*readings),
{
    let interface_class = interface_network_class(
        readings.is_wlan,
        readings.is_wwan,
        readings.iana_interface_type,
    );
    let roaming = RecoveryTruth::from_option(readings.roaming);
    let network_class = if readings.connectivity == RecoveryConnectivity::Disconnected
        || readings.connectivity == RecoveryConnectivity::Unknown {
        RecoveryNetworkClass::Unknown
    } else {
        effective_network_class(interface_class, readings.cost, roaming)
    };
    let critical_available = network_class != RecoveryNetworkClass::Unknown && readings.cost
        != RecoveryNetworkCost::Unknown && roaming != RecoveryTruth::Unknown;
    NetworkProbe {
        status: if critical_available {
            RecoveryProbeStatus::Available
        } else {
            RecoveryProbeStatus::Unavailable
        },
        interface_class,
        network_class,
        connectivity: readings.connectivity,
        cost: readings.cost,
        roaming,
        over_data_limit: RecoveryTruth::from_option(readings.over_data_limit),
        approaching_data_limit: RecoveryTruth::from_option(readings.approaching_data_limit),
        background_data_restricted: RecoveryTruth::from_option(readings.background_data_restricted),
    }
}

/// The probes of some profiles, in order.
pub open spec fn probes_of(profiles: Seq<ProfileReadings>) -> Seq<NetworkProbe> {
    profiles.map_values(|readings: ProfileReadings| NetworkProbe::of_profile(readings))
}

/// The probes of the profiles that reach the internet.
pub open spec fn internet_probes(profiles: Seq<ProfileReadings>) -> Seq<NetworkProbe> {
    probes_of(profiles).filter(|probe: NetworkProbe| probe.reaches_internet())
}

/// The probes of the profiles that reach less than the internet.
pub open spec fn local_probes(profiles: Seq<ProfileReadings>) -> Seq<NetworkProbe> {
    probes_of(profiles).filter(|probe: NetworkProbe| probe.reaches_less())
}

/// The network that counts: the one that the system chose, where it is known; else the only
/// one that reaches the internet; else, where none does, the only one that reaches anything;
/// else what the system chose, known or not.
pub open spec fn chosen_network(
    primary: Option<ProfileReadings>,
    profiles: Seq<ProfileReadings>,
) -> NetworkProbe {
    let internet = internet_probes(profiles);
    let local = local_probes(profiles);
    if primary is Some && NetworkProbe::of_profile(primary->0).settles() {
        NetworkProbe::of_profile(primary->0)
    } else if internet.len() == 1 {
        internet[0]
    } else if internet.len() == 0 && local.len() == 1 {
        local[0]
    } else if primary is Some {
        NetworkProbe::of_profile(primary->0)
    } else {
        NetworkProbe::nothing_known()
    }
}

/// Sorts the probes of profiles by how far they reach.
fn partition_profiles(profiles: &[ProfileReadings]) -> (r: (Vec<NetworkProbe>, Vec<NetworkProbe>))
    ensures
        r.0@ == internet_probes(profiles@),
        r.1@ == local_probes(profiles@),
{
    let mut internet: Vec<NetworkProbe> = Vec::new();
    let mut local: Vec<NetworkProbe> = Vec::new();
    let mut i: usize = 0;
    proof {
        reveal(Seq::filter);
        assert(probes_of(profiles@.take(0)) =~= Seq::empty());
    }
    while i < profiles.len()
        invariant
            i <= profiles@.len(),
            internet@ == internet_probes(profiles@.take(i as int)),
            local@ == local_probes(profiles@.take(i as int)),
        decreases profiles@.len() - i,
    {
        let probe = probe_profile(&profiles[i]);
        proof {
            reveal(Seq::filter);
            let before = probes_of(profiles@.take(i as int));
            let after = probes_of(profiles@.take(i + 1));
            assert(after.len() == i + 1);
            assert(after.drop_last() =~= before);
            assert(after.last() == probe);
        }
        if probe.interface_class != RecoveryNetworkClass::Unknown {
            match probe.connectivity {
                RecoveryConnectivity::Internet => internet.push(probe),
                RecoveryConnectivity::Local => local.push(probe),
                RecoveryConnectivity::Constrained => local.push(probe),
                RecoveryConnectivity::Disconnected => {},
                RecoveryConnectivity::Unknown => {},
            }
        }
        i += 1;
    }
    proof {
        assert(profiles@.take(i as int) =~= profiles@);
    }
    (internet, local)
}

/// The network that counts, given the profile that the system chose and all of its profiles.
pub fn probe_network(primary: Option<ProfileReadings>, profiles: &[ProfileReadings]) -> (r:
    NetworkProbe)
    ensures
        r == chosen_network(primary, profiles@),
{
    let primary_probe = match primary {
        Some(readings) => Some(probe_profile(&readings)),
        None => None,
    };
    if let Some(probe) = primary_probe {
        if probe.interface_class != RecoveryNetworkClass::Unknown && probe.status
            == RecoveryProbeStatus::Available {
            return probe;
        }
    }
    let (internet, local) = partition_profiles(profiles);
    if internet.len() == 1 {
        return internet[0];
    }
    if internet.len() == 0 && local.len() == 1 {
        return local[0];
    }
    match primary_probe {
        Some(probe) => probe,
        None => unavailable_network(),
    }
}

/// What is known of a device's power.
#[derive(Clone, Copy, Debug, PartialEq, Eq, Structural)]
pub struct PowerProbe {
    pub status: RecoveryProbeStatus,
    pub power_source: RecoveryPowerSource,
    pub supply: RecoveryPowerSupplyStatus,
    pub battery: RecoveryBatteryStatus,
    pub energy_saver: RecoveryEnergySaverStatus,
    pub remaining_charge_percent: Option<u8>,
}

/// What is known of a device's power, given what the system told: a charge counts only where
/// there is a battery and the charge is a percentage.
pub fn probe_power(
    supply: RecoveryPowerSupplyStatus,
    battery: RecoveryBatteryStatus,
    energy_saver: RecoveryEnergySaverStatus,
    remaining_charge_percent: Option<i32>,
) -> (r: PowerProbe)
    ensures
        r == (PowerProbe {
            status: if supply == RecoveryPowerSupplyStatus::Unknown || battery
                == RecoveryBatteryStatus::Unknown {
                RecoveryProbeStatus::Unavailable
            } else {
                RecoveryProbeStatus::Available
            },
            power_source: powered_by(supply, battery),
            supply,
            battery,
            energy_saver,
            remaining_charge_percent: match remaining_charge_percent {
                Some(percent) => if battery != RecoveryBatteryStatus::NotPresent && 0 <= percent
                    <= 100 {
                    Some(percent as u8)
                } else {
                    None
                },
                None => None,
            },
        }),
{
    let remaining_charge_percent = match remaining_charge_percent {
        Some(percent) => if battery != RecoveryBatteryStatus::NotPresent && percent >= 0 && percent
            <= 100 {
            Some(percent as u8)
        } else {
            None
        },
        None => None,
    };
    PowerProbe {
        status: if supply != RecoveryPowerSupplyStatus::Unknown && battery
            != RecoveryBatteryStatus::Unknown {
            RecoveryProbeStatus::Available
        } else {
            RecoveryProbeStatus::Unavailable
        },
        power_source: classify_power_source(supply, battery),
        supply,
        battery,
        energy_saver,
        remaining_charge_percent,
    }
}

/// The context that a native probe of the network and the power gives.
pub open spec fn native_context(network: NetworkProbe, power: PowerProbe) -> RecoveryPlatformContext {
    RecoveryPlatformContext {
        source: RecoveryPlatformContextSource::WindowsNative,
        network_probe_status: network.status,
        power_probe_status: power.status,
        interface_class: network.interface_class,
        network_class: network.network_class,
        connectivity: network.connectivity,
        network_cost: network.cost,
        roaming: network.roaming,
        over_data_limit: network.over_data_limit,
        approaching_data_limit: network.approaching_data_limit,
        background_data_restricted: network.background_data_restricted,
        power_source: power.power_source,
        power_supply_status: power.supply,
        battery_status: power.battery,
        energy_saver_status: power.energy_saver,
        remaining_charge_percent: power.remaining_charge_percent,
    }
}

/// The context that a native probe of the network and the power gives.
pub fn native_system_probe(network: &NetworkProbe, power: &PowerProbe) -> (r:
    RecoveryPlatformContext)
    ensures
        r == native_context(*network, *power),
{
    RecoveryPlatformContext {
        source: RecoveryPlatformContextSource::WindowsNative,
        network_probe_status: network.status,
        power_probe_status: power.status,
        interface_class: network.interface_class,
        network_class: network.network_class,
        connectivity: network.connectivity,
        network_cost: network.cost,
        roaming: network.roaming,
        over_data_limit: network.over_data_limit,
        approaching_data_limit: network.approaching_data_limit,
        background_data_restricted: network.background_data_restricted,
        power_source: power.power_source,
        power_supply_status: power.supply,
        battery_status: power.battery,
        energy_saver_status: power.energy_saver,
        remaining_charge_percent: power.remaining_charge_percent,
    }
}

/// The context of a platform, given what its native probe told of the network and the power, if
/// it has one.
pub fn system_recovery_platform_context_from(native: Option<(NetworkProbe, PowerProbe)>) -> (r:
    RecoveryPlatformContext)
    ensures
        r == match native {
            Some((network, power)) => native_context(network, power),
            None => RecoveryPlatformContext::of_unsupported_platform(),
        },
{
    match native {
        Some((network, power)) => native_system_probe(&network, &power),
        None => system_probe(),
    }
}

/// A line of a report: a name and a value.
pub struct ReportLine {
    pub name: &'static str,
    pub value: String,
}

impl View for ReportLine {
    type V = (Seq<char>, Seq<char>);

    open spec fn view(&self) -> (Seq<char>, Seq<char>) {
        (self.name@, self.value@)
    }
}

/// A report line of fixed texts.
fn report_line(name: &'static str, value: &'static str) -> (r: ReportLine)
    ensures
        r@ == (name@, value@),
{
    ReportLine { name, value: String::from_str(value) }
}

/// What is reported of the network.
pub open spec fn network_report(context: RecoveryPlatformContext) -> Seq<(Seq<char>, Seq<char>)> {
    seq![
        ("history_recovery_platform_context_source"@, context.source.label()),
        ("history_recovery_network_context_source"@, context.source.label()),
        ("history_recovery_network_probe_status"@, context.network_probe_status.label()),
        ("history_recovery_power_probe_status"@, context.power_probe_status.label()),
        ("history_recovery_interface_network_class"@, context.interface_class.label()),
        ("history_recovery_current_network_class"@, context.network_class.label()),
        ("history_recovery_network_connectivity"@, context.connectivity.label()),
        ("history_recovery_network_cost"@, context.network_cost.label()),
        (
            "history_recovery_network_metered"@,
            RecoveryTruth::of(context.network_cost.metered()).label(),
        ),
        ("history_recovery_network_roaming"@, context.roaming.label()),
        ("history_recovery_network_over_data_limit"@, context.over_data_limit.label()),
        (
            "history_recovery_network_approaching_data_limit"@,
            context.approaching_data_limit.label(),
        ),
        (
            "history_recovery_network_background_data_restricted"@,
            context.background_data_restricted.label(),
        ),
    ]
}

/// What is reported of the power.
pub open spec fn power_report(context: RecoveryPlatformContext) -> Seq<(Seq<char>, Seq<char>)> {
    seq![
        ("history_recovery_current_power_source"@, context.power_source.label()),
        ("history_recovery_power_supply_status"@, context.power_supply_status.label()),
        ("history_recovery_battery_status"@, context.battery_status.label()),
        ("history_recovery_energy_saver_status"@, context.energy_saver_status.label()),
        (
            "history_recovery_remaining_charge_percent"@,
            match context.remaining_charge_percent {
                Some(percent) => decimal(percent as nat),
                None => "unknown"@,
            },
        ),
    ]
}

/// What some report lines say.
pub open spec fn said(lines: Seq<ReportLine>) -> Seq<(Seq<char>, Seq<char>)> {
    lines.map_values(|line: ReportLine| line@)
}

/// What is reported of a context, line by line.
pub fn print_recovery_platform_context(context: &RecoveryPlatformContext) -> (r: Vec<ReportLine>)
    ensures
        said(r@) == network_report(*context) + power_report(*context),
{
    let mut lines: Vec<ReportLine> = Vec::new();
    lines.push(report_line("history_recovery_platform_context_source", context.source.as_str()));
    lines.push(report_line("history_recovery_network_context_source", context.source.as_str()));
    lines.push(
        report_line("history_recovery_network_probe_status", context.network_probe_status.as_str()),
    );
    lines.push(
        report_line("history_recovery_power_probe_status", context.power_probe_status.as_str()),
    );
    lines.push(
        report_line("history_recovery_interface_network_class", context.interface_class.as_str()),
    );
    lines.push(
        report_line("history_recovery_current_network_class", context.network_class.as_str()),
    );
    lines.push(report_line("history_recovery_network_connectivity", context.connectivity.as_str()));
    lines.push(report_line("history_recovery_network_cost", context.network_cost.as_str()));
    lines.push(
        report_line(
            "history_recovery_network_metered",
            RecoveryTruth::from_option(context.network_cost.is_metered()).as_str(),
        ),
    );
    lines.push(report_line("history_recovery_network_roaming", context.roaming.as_str()));
    lines.push(
        report_line("history_recovery_network_over_data_limit", context.over_data_limit.as_str()),
    );
    lines.push(
        report_line(
            "history_recovery_network_approaching_data_limit",
            context.approaching_data_limit.as_str(),
        ),
    );
    lines.push(
        report_line(
            "history_recovery_network_background_data_restricted",
            context.background_data_restricted.as_str(),
        ),
    );
    proof {
        assert(said(lines@) =~= network_report(*context));
    }
    push_power_report(&mut lines, context);
    lines
}

fn push_power_report(lines: &mut Vec<ReportLine>, context: &RecoveryPlatformContext)
    ensures
        said(final(lines)@) == said(old(lines)@) + power_report(*context),
{
    lines.push(report_line("history_recovery_current_power_source", context.power_source.as_str()));
    lines.push(
        report_line("history_recovery_power_supply_status", context.power_supply_status.as_str()),
    );
    lines.push(report_line("history_recovery_battery_status", context.battery_status.as_str()));
    lines.push(
        report_line("history_recovery_energy_saver_status", context.energy_saver_status.as_str()),
    );
    let value = match context.remaining_charge_percent {
        Some(percent) => {
            let mut text = String::from_str("");
            proof {
                reveal_strlit("");
            }
            push_decimal(&mut text, percent as u64);
            proof {
                assert(text@ =~= decimal(percent as nat));
            }
            text
        },
        None => String::from_str("unknown"),
    };
    lines.push(ReportLine { name: "history_recovery_remaining_charge_percent", value });
    proof {
        assert(said(lines@) =~= said(old(lines)@) + power_report(*context));
    }
}

/// A metered or roaming network never counts as Ethernet or wireless, whatever its interface
/// is, and one whose cost or roaming is unknown does not count as any.
pub proof fn metered_networks_count_as_mobile(readings: ProfileReadings)
    ensures
        ({
            let class = NetworkProbe::of_profile(readings).network_class;
            (class == RecoveryNetworkClass::Ethernet || class == RecoveryNetworkClass::Wifi)
                ==> readings.cost == RecoveryNetworkCost::Unrestricted && readings.roaming == Some(
                false,
            ) && class == interface_class(
                readings.is_wlan,
                readings.is_wwan,
                readings.iana_interface_type,
            )
        }),
        readings.cost == RecoveryNetworkCost::Unknown || readings.roaming is None
            ==> NetworkProbe::of_profile(readings).network_class == RecoveryNetworkClass::Unknown,
{
}

/// A network that counts as anything is one that some profile told of.
pub proof fn chosen_network_is_a_profile(
    primary: Option<ProfileReadings>,
    profiles: Seq<ProfileReadings>,
)
    ensures
        ({
            let chosen = chosen_network(primary, profiles);
            ||| chosen == NetworkProbe::nothing_known()
            ||| primary is Some && chosen == NetworkProbe::of_profile(primary->0)
            ||| probes_of(profiles).contains(chosen)
        }),
{
    broadcast use Seq::lemma_filter_contains_rev;

    assert(internet_probes(profiles).len() == 1 ==> internet_probes(profiles).contains(
        internet_probes(profiles)[0],
    ));
    assert(local_probes(profiles).len() == 1 ==> local_probes(profiles).contains(
        local_probes(profiles)[0],
    ));
}

/// No change is lost: a wait that starts from an observed state ends as changed where the
/// platform changes before the notifications are asked for.
pub proof fn change_before_registration_is_seen(
    observed: RecoveryPlatformChangeSignal,
    registered: RecoveryPlatformChangeSignal,
)
    requires
        registered.sequence == if observed.sequence == u64::MAX {
            0
        } else {
            observed.sequence + 1
        },
    ensures
        registered.changed_since(observed.sequence),
{
}

/// Each label names one value and no other.
pub proof fn platform_context_source_labels_are_distinct(value: RecoveryPlatformContextSource)
    ensures
        value.label() == "caller-supplied"@ <==> value is CallerSupplied,
        value.label() == "windows-native"@ <==> value is WindowsNative,
        value.label() == "unsupported-platform"@ <==> value is UnsupportedPlatform,
{
    reveal_strlit("caller-supplied");
    reveal_strlit("windows-native");
    reveal_strlit("unsupported-platform");
    assert("caller-supplied"@.len() != "windows-native"@.len());
    assert("caller-supplied"@.len() != "unsupported-platform"@.len());
    assert("windows-native"@.len() != "unsupported-platform"@.len());
}

/// Each label names one value and no other.
pub proof fn probe_status_labels_are_distinct(value: RecoveryProbeStatus)
    ensures
        value.label() == "available"@ <==> value is Available,
        value.label() == "unavailable"@ <==> value is Unavailable,
        value.label() == "caller-supplied"@ <==> value is CallerSupplied,
{
    reveal_strlit("available");
    reveal_strlit("unavailable");
    reveal_strlit("caller-supplied");
    assert("available"@.len() != "unavailable"@.len());
    assert("available"@.len() != "caller-supplied"@.len());
    assert("unavailable"@.len() != "caller-supplied"@.len());
}

/// Each label names one value and no other.
pub proof fn network_cost_labels_are_distinct(value: RecoveryNetworkCost)
    ensures
        value.label() == "unrestricted"@ <==> value is Unrestricted,
        value.label() == "fixed"@ <==> value is Fixed,
        value.label() == "variable"@ <==> value is Variable,
        value.label() == "unknown"@ <==> value is Unknown,
{
    reveal_strlit("unrestricted");
    reveal_strlit("fixed");
    reveal_strlit("variable");
    reveal_strlit("unknown");
    assert("unrestricted"@.len() != "fixed"@.len());
    assert("unrestricted"@.len() != "variable"@.len());
    assert("unrestricted"@.len() != "unknown"@.len());
    assert("fixed"@.len() != "variable"@.len());
    assert("fixed"@.len() != "unknown"@.len());
    assert("variable"@.len() != "unknown"@.len());
}

/// Each label names one value and no other.
pub proof fn connectivity_labels_are_distinct(value: RecoveryConnectivity)
    ensures
        value.label() == "none"@ <==> value is Disconnected,
        value.label() == "local"@ <==> value is Local,
        value.label() == "constrained"@ <==> value is Constrained,
        value.label() == "internet"@ <==> value is Internet,
        value.label() == "unknown"@ <==> value is Unknown,
{
    reveal_strlit("none");
    reveal_strlit("local");
    reveal_strlit("constrained");
    reveal_strlit("internet");
    reveal_strlit("unknown");
    assert("none"@.len() != "local"@.len());
    assert("none"@.len() != "constrained"@.len());
    assert("none"@.len() != "internet"@.len());
    assert("none"@.len() != "unknown"@.len());
    assert("local"@.len() != "constrained"@.len());
    assert("local"@.len() != "internet"@.len());
    assert("local"@.len() != "unknown"@.len());
    assert("constrained"@.len() != "internet"@.len());
    assert("constrained"@.len() != "unknown"@.len());
    assert("internet"@.len() != "unknown"@.len());
}

/// Each label names one value and no other.
pub proof fn truth_labels_are_distinct(value: RecoveryTruth)
    ensures
        value.label() == "true"@ <==> value is Yes,
        value.label() == "false"@ <==> value is No,
        value.label() == "unknown"@ <==> value is Unknown,
{
    reveal_strlit("true");
    reveal_strlit("false");
    reveal_strlit("unknown");
    assert("true"@.len() != "false"@.len());
    assert("true"@.len() != "unknown"@.len());
    assert("false"@.len() != "unknown"@.len());
}

/// Each label names one value and no other.
pub proof fn battery_status_labels_are_distinct(value: RecoveryBatteryStatus)
    ensures
        value.label() == "not-present"@ <==> value is NotPresent,
        value.label() == "discharging"@ <==> value is Discharging,
        value.label() == "idle"@ <==> value is Idle,
        value.label() == "charging"@ <==> value is Charging,
        value.label() == "unknown"@ <==> value is Unknown,
{
    reveal_strlit("not-present");
    reveal_strlit("discharging");
    reveal_strlit("idle");
    reveal_strlit("charging");
    reveal_strlit("unknown");
    assert("not-present"@[0] != "discharging"@[0]);
    assert("not-present"@.len() != "idle"@.len());
    assert("not-present"@.len() != "charging"@.len());
    assert("not-present"@.len() != "unknown"@.len());
    assert("discharging"@.len() != "idle"@.len());
    assert("discharging"@.len() != "charging"@.len());
    assert("discharging"@.len() != "unknown"@.len());
    assert("idle"@.len() != "charging"@.len());
    assert("idle"@.len() != "unknown"@.len());
    assert("charging"@.len() != "unknown"@.len());
}

/// Each label names one value and no other.
pub proof fn power_supply_status_labels_are_distinct(value: RecoveryPowerSupplyStatus)
    ensures
        value.label() == "not-present"@ <==> value is NotPresent,
        value.label() == "inadequate"@ <==> value is Inadequate,
        value.label() == "adequate"@ <==> value is Adequate,
        value.label() == "unknown"@ <==> value is Unknown,
{
    reveal_strlit("not-present");
    reveal_strlit("inadequate");
    reveal_strlit("adequate");
    reveal_strlit("unknown");
    assert("not-present"@.len() != "inadequate"@.len());
    assert("not-present"@.len() != "adequate"@.len());
    assert("not-present"@.len() != "unknown"@.len());
    assert("inadequate"@.len() != "adequate"@.len());
    assert("inadequate"@.len() != "unknown"@.len());
    assert("adequate"@.len() != "unknown"@.len());
}

/// Each label names one value and no other.
pub proof fn energy_saver_status_labels_are_distinct(value: RecoveryEnergySaverStatus)
    ensures
        value.label() == "disabled"@ <==> value is Disabled,
        value.label() == "off"@ <==> value is Off,
        value.label() == "on"@ <==> value is On,
        value.label() == "unknown"@ <==> value is Unknown,
{
    reveal_strlit("disabled");
    reveal_strlit("off");
    reveal_strlit("on");
    reveal_strlit("unknown");
    assert("disabled"@.len() != "off"@.len());
    assert("disabled"@.len() != "on"@.len());
    assert("disabled"@.len() != "unknown"@.len());
    assert("off"@.len() != "on"@.len());
    assert("off"@.len() != "unknown"@.len());
    assert("on"@.len() != "unknown"@.len());
}

/// A reading that was made is told as yes or no, and one that was not as unknown; a cost is metered
/// exactly where it is known and not unrestricted.
pub proof fn unknown_readings_stay_unknown(value: Option<bool>, cost: RecoveryNetworkCost)
    ensures
        RecoveryTruth::of(value) == RecoveryTruth::Yes <==> value == Some(true),
        RecoveryTruth::of(value) == RecoveryTruth::No <==> value == Some(false),
        RecoveryTruth::of(value) == RecoveryTruth::Unknown <==> value is None,
        cost.metered() == Some(true) <==> cost == RecoveryNetworkCost::Fixed || cost
            == RecoveryNetworkCost::Variable,
        cost.metered() == Some(false) <==> cost == RecoveryNetworkCost::Unrestricted,
        cost.metered() is None <==> cost == RecoveryNetworkCost::Unknown,
{
}

/// A network counts as its interface exactly where it is known to cost nothing and not to roam, as
/// mobile where it is known to cost or to roam, and as unknown where one of the two is not known.
pub proof fn network_counts_by_cost_and_roaming(
    interface: RecoveryNetworkClass,
    cost: RecoveryNetworkCost,
    roaming: RecoveryTruth,
)
    ensures
        ({
            let class = effective_class(interface, cost, roaming);
            let free = cost == RecoveryNetworkCost::Unrestricted;
            let unknown = cost == RecoveryNetworkCost::Unknown || roaming == RecoveryTruth::Unknown;
            &&& unknown ==> class == RecoveryNetworkClass::Unknown
            &&& !unknown && (!free || roaming == RecoveryTruth::Yes) ==> class
                == RecoveryNetworkClass::Mobile
            &&& free && roaming == RecoveryTruth::No ==> class == interface
        }),
{
}

/// The class of an interface follows from what it says to be, wireless or mobile, and only else
/// from its registered type; one that says to be both is unknown.
pub proof fn interface_is_what_it_says(
    is_wlan: Option<bool>,
    is_wwan: Option<bool>,
    iana_interface_type: Option<u32>,
)
    ensures
        ({
            let class = interface_class(is_wlan, is_wwan, iana_interface_type);
            let (wlan, wwan) = (is_wlan == Some(true), is_wwan == Some(true));
            let silent = !wlan && !wwan;
            let registered = iana_interface_type->0;
            &&& class == RecoveryNetworkClass::Ethernet <==> silent && iana_interface_type is Some
                && registered == 6
            &&& class == RecoveryNetworkClass::Wifi <==> (wlan && !wwan) || (silent
                && iana_interface_type is Some && registered == 71)
            &&& class == RecoveryNetworkClass::Mobile <==> (wwan && !wlan) || (silent
                && iana_interface_type is Some && (registered == 243 || registered == 244))
        }),
{
}

/// Power comes from outside exactly where the supply is adequate, and from the battery exactly
/// where it is not and the battery is in use or idle.
pub proof fn power_comes_from_its_source(
    supply: RecoveryPowerSupplyStatus,
    battery: RecoveryBatteryStatus,
)
    ensures
        powered_by(supply, battery) == RecoveryPowerSource::External <==> supply
            == RecoveryPowerSupplyStatus::Adequate,
        powered_by(supply, battery) == RecoveryPowerSource::Battery <==> supply
            != RecoveryPowerSupplyStatus::Adequate && (battery == RecoveryBatteryStatus::Discharging
            || battery == RecoveryBatteryStatus::Idle),
{
}

/// A profile gives what was read of it, a network class exactly where it is connected and its cost
/// and roaming are known, and is available exactly where it gives a class.
pub proof fn profile_gives_what_was_read(readings: ProfileReadings)
    ensures
        ({
            let probe = NetworkProbe::of_profile(readings);
            let class = interface_class(
                readings.is_wlan,
                readings.is_wwan,
                readings.iana_interface_type,
            );
            let connected = readings.connectivity != RecoveryConnectivity::Disconnected
                && readings.connectivity != RecoveryConnectivity::Unknown;
            &&& probe.interface_class == class
            &&& probe.connectivity == readings.connectivity
            &&& probe.cost == readings.cost
            &&& probe.roaming == RecoveryTruth::of(readings.roaming)
            &&& probe.over_data_limit == RecoveryTruth::of(readings.over_data_limit)
            &&& probe.approaching_data_limit == RecoveryTruth::of(readings.approaching_data_limit)
            &&& probe.background_data_restricted == RecoveryTruth::of(
                readings.background_data_restricted,
            )
            &&& !connected ==> probe.network_class == RecoveryNetworkClass::Unknown
            &&& connected ==> probe.network_class == effective_class(
                class,
                readings.cost,
                probe.roaming,
            )
            &&& probe.status == RecoveryProbeStatus::Available <==> probe.network_class
                != RecoveryNetworkClass::Unknown
            &&& probe.status == RecoveryProbeStatus::Unavailable <==> probe.network_class
                == RecoveryNetworkClass::Unknown
        }),
{
}

/// Profile `at` has an interface of a known class and reaches the internet.
pub open spec fn is_internet_profile(profiles: Seq<ProfileReadings>, at: int) -> bool {
    &&& 0 <= at < profiles.len()
    &&& profiles[at].connectivity == RecoveryConnectivity::Internet
    &&& interface_class(
        profiles[at].is_wlan,
        profiles[at].is_wwan,
        profiles[at].iana_interface_type,
    ) != RecoveryNetworkClass::Unknown
}

/// Profile `at` has an interface of a known class and reaches less than the internet.
pub open spec fn is_local_profile(profiles: Seq<ProfileReadings>, at: int) -> bool {
    &&& 0 <= at < profiles.len()
    &&& profiles[at].connectivity == RecoveryConnectivity::Local || profiles[at].connectivity
        == RecoveryConnectivity::Constrained
    &&& interface_class(
        profiles[at].is_wlan,
        profiles[at].is_wwan,
        profiles[at].iana_interface_type,
    ) != RecoveryNetworkClass::Unknown
}

proof fn lemma_filter_none(s: Seq<NetworkProbe>, keep: spec_fn(NetworkProbe) -> bool)
    requires
        forall|i: int| 0 <= i < s.len() ==> !keep(#[trigger] s[i]),
    ensures
        s.filter(keep).len() == 0,
    decreases s.len(),
{
    reveal(Seq::filter);
    if s.len() > 0 {
        let rest = s.drop_last();
        assert forall|i: int| 0 <= i < rest.len() implies !keep(#[trigger] rest[i]) by {
            assert(!keep(s[i]));
        }
        assert(!keep(s[s.len() - 1]));
        lemma_filter_none(rest, keep);
    }
}

proof fn lemma_filter_one(s: Seq<NetworkProbe>, keep: spec_fn(NetworkProbe) -> bool, at: int)
    requires
        0 <= at < s.len(),
        keep(s[at]),
    ensures
        s.filter(keep).len() >= 1,
        (forall|i: int| 0 <= i < s.len() && i != at ==> !keep(#[trigger] s[i])) ==> s.filter(keep)
            == seq![s[at]],
        (exists|i: int| 0 <= i < s.len() && i != at && keep(#[trigger] s[i])) ==> s.filter(
            keep,
        ).len() >= 2,
    decreases s.len(),
{
    reveal(Seq::filter);
    let rest = s.drop_last();
    assert(forall|i: int| 0 <= i < rest.len() ==> #[trigger] rest[i] == s[i]);
    if at < s.len() - 1 {
        lemma_filter_one(rest, keep, at);
        if exists|i: int| 0 <= i < s.len() && i != at && keep(#[trigger] s[i]) {
            let i = choose|i: int| 0 <= i < s.len() && i != at && keep(#[trigger] s[i]);
            if i < rest.len() {
                assert(keep(rest[i]));
            }
        }
        if forall|i: int| 0 <= i < s.len() && i != at ==> !keep(#[trigger] s[i]) {
            assert(!keep(s[s.len() - 1]));
            assert forall|i: int| 0 <= i < rest.len() && i != at implies !keep(
                #[trigger] rest[i],
            ) by {
                assert(!keep(s[i]));
            }
        }
    } else {
        if forall|i: int| 0 <= i < s.len() && i != at ==> !keep(#[trigger] s[i]) {
            assert forall|i: int| 0 <= i < rest.len() implies !keep(#[trigger] rest[i]) by {
                assert(!keep(s[i]));
            }
            lemma_filter_none(rest, keep);
            assert(s.filter(keep) =~= seq![s[at]]);
        }
        if exists|i: int| 0 <= i < s.len() && i != at && keep(#[trigger] s[i]) {
            let i = choose|i: int| 0 <= i < s.len() && i != at && keep(#[trigger] s[i]);
            assert(rest[i] == s[i]);
            lemma_filter_one(rest, keep, i);
        }
    }
}

/// A primary profile that settles the matter is chosen. Else the only profile that reaches the
/// internet is; else, where none does, the only one that reaches less. Where there are several, or
/// none at all, what is known of the primary one is kept, and nothing where there is none.
pub proof fn only_profile_is_chosen(
    primary: Option<ProfileReadings>,
    profiles: Seq<ProfileReadings>,
    at: int,
    other: int,
)
    ensures
        ({
            let chosen = chosen_network(primary, profiles);
            let first = NetworkProbe::of_profile(primary->0);
            let settled = primary is Some && first.interface_class != RecoveryNetworkClass::Unknown
                && first.network_class != RecoveryNetworkClass::Unknown;
            let kept = if primary is Some {
                first
            } else {
                NetworkProbe::nothing_known()
            };
            let no_internet = forall|i: int| !(#[trigger] is_internet_profile(profiles, i));
            &&& settled ==> chosen == first
            &&& !settled && is_internet_profile(profiles, at) && (forall|i: int|
                i != at ==> !(#[trigger] is_internet_profile(profiles, i))) ==> chosen
                == NetworkProbe::of_profile(profiles[at])
            &&& !settled && at != other && is_internet_profile(profiles, at) && is_internet_profile(
                profiles,
                other,
            ) ==> chosen == kept
            &&& !settled && no_internet && is_local_profile(profiles, at) && (forall|i: int|
                i != at ==> !(#[trigger] is_local_profile(profiles, i))) ==> chosen
                == NetworkProbe::of_profile(profiles[at])
            &&& !settled && no_internet && at != other && is_local_profile(profiles, at)
                && is_local_profile(profiles, other) ==> chosen == kept
            &&& !settled && no_internet && (forall|i: int|
                !(#[trigger] is_local_profile(profiles, i))) ==> chosen == kept
        }),
{
    let probes = probes_of(profiles);
    let internet = |probe: NetworkProbe| probe.reaches_internet();
    let less = |probe: NetworkProbe| probe.reaches_less();
    assert(probes.len() == profiles.len());
    assert forall|i: int| 0 <= i < probes.len() implies internet(#[trigger] probes[i])
        == is_internet_profile(profiles, i) && less(probes[i]) == is_local_profile(
        profiles,
        i,
    ) by {
        assert(probes[i] == NetworkProbe::of_profile(profiles[i]));
    }
    if is_internet_profile(profiles, at) {
        assert(internet(probes[at]));
        lemma_filter_one(probes, internet, at);
        if at != other && is_internet_profile(profiles, other) {
            assert(internet(probes[other]));
        }
    }
    if forall|i: int| !(#[trigger] is_internet_profile(profiles, i)) {
        assert forall|i: int| 0 <= i < probes.len() implies !internet(#[trigger] probes[i]) by {
            assert(!is_internet_profile(profiles, i));
        }
        lemma_filter_none(probes, internet);
    }
    if is_local_profile(profiles, at) {
        assert(less(probes[at]));
        lemma_filter_one(probes, less, at);
        if at != other && is_local_profile(profiles, other) {
            assert(less(probes[other]));
        }
    }
    if forall|i: int| !(#[trigger] is_local_profile(profiles, i)) {
        assert forall|i: int| 0 <= i < probes.len() implies !less(#[trigger] probes[i]) by {
            assert(!is_local_profile(profiles, i));
        }
        lemma_filter_none(probes, less);
    }
}

/// The context of the platform is what the two probes found.
pub proof fn native_context_is_what_was_probed(network: NetworkProbe, power: PowerProbe)
    ensures
        ({
            let context = native_context(network, power);
            &&& context.source == RecoveryPlatformContextSource::WindowsNative
            &&& context.network_probe_status == network.status
            &&& context.power_probe_status == power.status
            &&& context.interface_class == network.interface_class
            &&& context.network_class == network.network_class
            &&& context.connectivity == network.connectivity
            &&& context.network_cost == network.cost
            &&& context.roaming == network.roaming
            &&& context.over_data_limit == network.over_data_limit
            &&& context.approaching_data_limit == network.approaching_data_limit
            &&& context.background_data_restricted == network.background_data_restricted
            &&& context.power_source == power.power_source
            &&& context.power_supply_status == power.supply
            &&& context.battery_status == power.battery
            &&& context.energy_saver_status == power.energy_saver
            &&& context.remaining_charge_percent == power.remaining_charge_percent
        }),
{
}

/// A context is complete exactly where network and power are both given or neither is: given ones
/// stand as they were given, with nothing else known, and else the platform is asked. A context
/// that was given stays, and any other is renewed.
pub proof fn given_context_stands(
    network: Option<RecoveryNetworkClass>,
    power: Option<RecoveryPowerSource>,
    probed: RecoveryPlatformContext,
    later: RecoveryPlatformContext,
)
    ensures
        ({
            let resolved = resolved_context(network, power, probed);
            &&& resolved is Err <==> network is Some != power is Some
            &&& resolved matches Err(incomplete) ==> (incomplete.network_supplied <==> network
                is Some)
            &&& network is None && power is None ==> resolved->Ok_0 == probed
            &&& network is Some && power is Some ==> {
                let context = resolved->Ok_0;
                &&& context.source == RecoveryPlatformContextSource::CallerSupplied
                &&& context.network_class == network->0 && context.interface_class == network->0
                &&& context.power_source == power->0
                &&& context.network_probe_status == RecoveryProbeStatus::CallerSupplied
                &&& context.power_probe_status == RecoveryProbeStatus::CallerSupplied
                &&& context.connectivity == RecoveryConnectivity::Unknown
                &&& context.network_cost == RecoveryNetworkCost::Unknown
                &&& context.remaining_charge_percent is None
                &&& context.renewed(later) == context
            }
            &&& probed.source != RecoveryPlatformContextSource::CallerSupplied ==> probed.renewed(
                later,
            ) == later
        }),
{
}

/// A signal has changed exactly where it is not the one that was observed.
pub proof fn signal_changes_with_its_sequence(
    signal: RecoveryPlatformChangeSignal,
    observed_sequence: u64,
)
    ensures
        signal.changed_since(observed_sequence) <==> observed_sequence != signal.sequence,
{
}

/// The report of a network shows each field of the context in its line.
pub proof fn network_report_shows_the_context(context: RecoveryPlatformContext)
    ensures
        ({
            let report = network_report(context);
            &&& report.len() == 13
            &&& report[0].1 == context.source.label()
            &&& report[1].1 == context.source.label()
            &&& report[2].1 == context.network_probe_status.label()
            &&& report[3].1 == context.power_probe_status.label()
            &&& report[4].1 == context.interface_class.label()
            &&& report[5].1 == context.network_class.label()
            &&& report[6].1 == context.connectivity.label()
            &&& report[7].1 == context.network_cost.label()
            &&& report[8].1 == RecoveryTruth::of(context.network_cost.metered()).label()
            &&& report[9].1 == context.roaming.label()
            &&& report[10].1 == context.over_data_limit.label()
            &&& report[11].1 == context.approaching_data_limit.label()
            &&& report[12].1 == context.background_data_restricted.label()
        }),
{
}

/// The report of the power shows each field of the context in its line, and a charge as its
/// number.
pub proof fn power_report_shows_the_context(context: RecoveryPlatformContext)
    ensures
        ({
            let report = power_report(context);
            &&& report.len() == 5
            &&& report[0].1 == context.power_source.label()
            &&& report[1].1 == context.power_supply_status.label()
            &&& report[2].1 == context.battery_status.label()
            &&& report[3].1 == context.energy_saver_status.label()
            &&& context.remaining_charge_percent is None ==> report[4].1 == "unknown"@
            &&& context.remaining_charge_percent matches Some(percent)
                ==> crate::text::decimal_value(
                report[4].1,
            ) == percent && crate::text::all_digits(report[4].1)
        }),
{
    crate::text::decimal_reads_back(context.remaining_charge_percent->0 as nat);
}

/// Where nothing can be read of the platform, nothing is known: no network class that a policy
/// would take for another than unknown, and no power.
pub proof fn unreadable_platform_is_unknown()
    ensures
        ({
            let context = RecoveryPlatformContext::of_unsupported_platform();
            let probe = NetworkProbe::nothing_known();
            &&& context.source == RecoveryPlatformContextSource::UnsupportedPlatform
            &&& context.network_probe_status == RecoveryProbeStatus::Unavailable
            &&& context.power_probe_status == RecoveryProbeStatus::Unavailable
            &&& context.network_class == RecoveryNetworkClass::Unknown
            &&& context.interface_class == RecoveryNetworkClass::Unknown
            &&& context.power_source == RecoveryPowerSource::Unknown
            &&& context.connectivity == RecoveryConnectivity::Unknown
            &&& context.network_cost == RecoveryNetworkCost::Unknown
            &&& context.roaming == RecoveryTruth::Unknown
            &&& context.power_supply_status == RecoveryPowerSupplyStatus::Unknown
            &&& context.battery_status == RecoveryBatteryStatus::Unknown
            &&& context.energy_saver_status == RecoveryEnergySaverStatus::Unknown
            &&& context.remaining_charge_percent is None
            &&& probe.status == RecoveryProbeStatus::Unavailable
            &&& probe.network_class == RecoveryNetworkClass::Unknown
            &&& probe.interface_class == RecoveryNetworkClass::Unknown
            &&& probe.connectivity == RecoveryConnectivity::Unknown
            &&& probe.cost == RecoveryNetworkCost::Unknown
            &&& probe.roaming == RecoveryTruth::Unknown
            &&& probe.over_data_limit == RecoveryTruth::Unknown
            &&& probe.approaching_data_limit == RecoveryTruth::Unknown
            &&& probe.background_data_restricted == RecoveryTruth::Unknown
        }),
{
}

} // verus!
