use kilogram_cli::recovery_plan::{RecoveryNetworkClass, RecoveryPowerSource};
use kilogram_cli::recovery_platform::{
    classify_power_source, effective_network_class, interface_network_class, native_system_probe,
    print_recovery_platform_context, probe_network, probe_power, probe_profile,
    resolve_recovery_platform_context, resolve_recovery_platform_context_from, system_probe,
    system_recovery_platform_context, system_recovery_platform_context_from, unavailable_network,
    IncompleteContext, ProfileReadings,
    RecoveryBatteryStatus, RecoveryConnectivity, RecoveryEnergySaverStatus, RecoveryNetworkCost,
    RecoveryPlatformChangeSignal, RecoveryPlatformChangeWait, RecoveryPlatformContext,
    RecoveryPlatformContextSource, RecoveryPowerSupplyStatus, RecoveryProbeStatus, RecoveryTruth,
    IANA_ETHERNET_CSMACD, IANA_IEEE80211, IANA_WWANPP, IANA_WWANPP2,
};

fn readings(connectivity: RecoveryConnectivity) -> ProfileReadings {
    ProfileReadings {
        is_wlan: Some(true),
        is_wwan: Some(false),
        iana_interface_type: Some(IANA_IEEE80211),
        connectivity,
        cost: RecoveryNetworkCost::Unrestricted,
        roaming: Some(false),
        over_data_limit: Some(false),
        approaching_data_limit: None,
        background_data_restricted: Some(true),
    }
}

#[test]
fn platform_change_signal_observes_changes_without_losing_wakeups() {
    let mut signal = RecoveryPlatformChangeSignal::new();
    let observed = signal.sequence();
    let before = signal;
    signal.changed();
    assert_eq!(
        signal.wait(observed, &signal, false),
        RecoveryPlatformChangeWait::Changed
    );
    assert_eq!(
        before.wait(observed, &signal, false),
        RecoveryPlatformChangeWait::Changed
    );
    assert_eq!(
        signal.wait(signal.sequence(), &signal, false),
        RecoveryPlatformChangeWait::TimedOut
    );
    assert_eq!(
        signal.wait(signal.sequence(), &signal, true),
        RecoveryPlatformChangeWait::Changed
    );
    let mut last = RecoveryPlatformChangeSignal { sequence: u64::MAX };
    last.changed();
    assert_eq!(last.sequence(), 0);
    assert!(!last.must_wait(u64::MAX));
}

#[test]
fn metered_or_roaming_networks_use_the_mobile_policy_bucket() {
    assert_eq!(
        effective_network_class(
            RecoveryNetworkClass::Wifi,
            RecoveryNetworkCost::Fixed,
            RecoveryTruth::No,
        ),
        RecoveryNetworkClass::Mobile
    );
    assert_eq!(
        effective_network_class(
            RecoveryNetworkClass::Ethernet,
            RecoveryNetworkCost::Unrestricted,
            RecoveryTruth::Yes,
        ),
        RecoveryNetworkClass::Mobile
    );
    assert_eq!(
        effective_network_class(
            RecoveryNetworkClass::Ethernet,
            RecoveryNetworkCost::Unknown,
            RecoveryTruth::No,
        ),
        RecoveryNetworkClass::Unknown
    );
}

#[test]
fn interface_classification_is_exact_and_fails_closed() {
    assert_eq!(
        interface_network_class(Some(true), Some(false), Some(IANA_IEEE80211)),
        RecoveryNetworkClass::Wifi
    );
    assert_eq!(
        interface_network_class(Some(false), Some(false), Some(IANA_ETHERNET_CSMACD)),
        RecoveryNetworkClass::Ethernet
    );
    assert_eq!(
        interface_network_class(Some(false), Some(false), Some(131)),
        RecoveryNetworkClass::Unknown
    );
    assert_eq!(
        interface_network_class(Some(true), Some(true), Some(IANA_IEEE80211)),
        RecoveryNetworkClass::Unknown
    );
}

#[test]
fn mobile_interfaces_are_told_by_their_type() {
    assert_eq!(
        interface_network_class(None, None, Some(IANA_WWANPP)),
        RecoveryNetworkClass::Mobile
    );
    assert_eq!(
        interface_network_class(None, None, Some(IANA_WWANPP2)),
        RecoveryNetworkClass::Mobile
    );
    assert_eq!(
        interface_network_class(None, Some(true), Some(IANA_ETHERNET_CSMACD)),
        RecoveryNetworkClass::Mobile
    );
    assert_eq!(
        interface_network_class(None, None, None),
        RecoveryNetworkClass::Unknown
    );
}

#[test]
fn power_classification_requires_an_adequate_supply_or_present_battery() {
    assert_eq!(
        classify_power_source(
            RecoveryPowerSupplyStatus::Adequate,
            RecoveryBatteryStatus::Charging,
        ),
        RecoveryPowerSource::External
    );
    assert_eq!(
        classify_power_source(
            RecoveryPowerSupplyStatus::NotPresent,
            RecoveryBatteryStatus::Discharging,
        ),
        RecoveryPowerSource::Battery
    );
    assert_eq!(
        classify_power_source(
            RecoveryPowerSupplyStatus::Inadequate,
            RecoveryBatteryStatus::Charging,
        ),
        RecoveryPowerSource::Unknown
    );
}

#[test]
fn manual_context_requires_both_values() -> Result<(), IncompleteContext> {
    let context = resolve_recovery_platform_context(
        Some(RecoveryNetworkClass::Wifi),
        Some(RecoveryPowerSource::Battery),
    )?;
    assert_eq!(
        context.source,
        RecoveryPlatformContextSource::CallerSupplied
    );
    assert_eq!(context.network_class(), RecoveryNetworkClass::Wifi);
    assert_eq!(context.power_source(), RecoveryPowerSource::Battery);
    assert!(resolve_recovery_platform_context(Some(RecoveryNetworkClass::Wifi), None).is_err());
    assert!(resolve_recovery_platform_context(None, Some(RecoveryPowerSource::Battery)).is_err());
    Ok(())
}

#[test]
fn unsupported_system_probe_is_explicit_and_unknown() {
    let context = system_recovery_platform_context();
    assert_eq!(
        context.source,
        RecoveryPlatformContextSource::UnsupportedPlatform
    );
    assert_eq!(context.network_class(), RecoveryNetworkClass::Unknown);
    assert_eq!(context.power_source(), RecoveryPowerSource::Unknown);
}

#[test]
fn only_probed_contexts_are_refreshed() {
    let supplied = RecoveryPlatformContext::caller_supplied(
        RecoveryNetworkClass::Ethernet,
        RecoveryPowerSource::External,
    );
    assert_eq!(supplied.refreshed(), supplied);
    assert_eq!(RecoveryPlatformContext::unsupported().refreshed(), system_probe());
    let network = probe_profile(&readings(RecoveryConnectivity::Internet));
    let power = probe_power(
        RecoveryPowerSupplyStatus::Adequate,
        RecoveryBatteryStatus::Idle,
        RecoveryEnergySaverStatus::Off,
        Some(80),
    );
    let native = native_system_probe(&network, &power);
    assert_eq!(system_recovery_platform_context_from(Some((network, power))), native);
    assert_eq!(system_recovery_platform_context_from(None), system_probe());
    assert_eq!(system_probe().refreshed_from(native), native);
    assert_eq!(supplied.refreshed_from(native), supplied);
    assert_eq!(
        resolve_recovery_platform_context_from(None, None, native),
        Ok(native)
    );
    assert_eq!(native.network_class(), RecoveryNetworkClass::Wifi);
    assert_eq!(native.power_source(), RecoveryPowerSource::External);
    assert_eq!(native.remaining_charge_percent, Some(80));
}

#[test]
fn network_probe_prefers_the_only_connected_profile() {
    let internet = readings(RecoveryConnectivity::Internet);
    let local = readings(RecoveryConnectivity::Local);
    let offline = readings(RecoveryConnectivity::Disconnected);
    let mut mobile = internet;
    mobile.cost = RecoveryNetworkCost::Variable;
    assert_eq!(probe_network(None, &[]), unavailable_network());
    assert_eq!(
        probe_network(Some(internet), &[mobile]),
        probe_profile(&internet)
    );
    assert_eq!(
        probe_network(Some(offline), &[offline, internet, local]),
        probe_profile(&internet)
    );
    assert_eq!(
        probe_network(None, &[offline, local]),
        probe_profile(&local)
    );
    assert_eq!(
        probe_network(Some(offline), &[internet, mobile]),
        probe_profile(&offline)
    );
    assert_eq!(
        probe_network(None, &[internet, mobile]),
        unavailable_network()
    );
    assert_eq!(
        probe_profile(&mobile).network_class,
        RecoveryNetworkClass::Mobile
    );
    assert_eq!(
        probe_profile(&offline).status,
        RecoveryProbeStatus::Unavailable
    );
}

#[test]
fn power_probe_keeps_only_percentages_of_present_batteries() {
    let probe = |battery: RecoveryBatteryStatus, percent: Option<i32>| {
        probe_power(
            RecoveryPowerSupplyStatus::NotPresent,
            battery,
            RecoveryEnergySaverStatus::On,
            percent,
        )
    };
    assert_eq!(
        probe(RecoveryBatteryStatus::Idle, Some(100)).remaining_charge_percent,
        Some(100)
    );
    assert_eq!(
        probe(RecoveryBatteryStatus::Idle, Some(101)).remaining_charge_percent,
        None
    );
    assert_eq!(
        probe(RecoveryBatteryStatus::Idle, Some(-1)).remaining_charge_percent,
        None
    );
    assert_eq!(
        probe(RecoveryBatteryStatus::NotPresent, Some(50)).remaining_charge_percent,
        None
    );
    assert_eq!(
        probe(RecoveryBatteryStatus::Unknown, None).status,
        RecoveryProbeStatus::Unavailable
    );
}

#[test]
fn context_report_names_every_value() {
    let network = probe_profile(&readings(RecoveryConnectivity::Constrained));
    let power = probe_power(
        RecoveryPowerSupplyStatus::Inadequate,
        RecoveryBatteryStatus::Charging,
        RecoveryEnergySaverStatus::Disabled,
        Some(7),
    );
    let lines: Vec<String> = print_recovery_platform_context(&native_system_probe(&network, &power))
        .into_iter()
        .map(|line| format!("{}={}", line.name, line.value))
        .collect();
    assert_eq!(lines.len(), 18);
    assert_eq!(
        lines[0],
        "history_recovery_platform_context_source=windows-native"
    );
    assert_eq!(lines[4], "history_recovery_interface_network_class=wifi");
    assert_eq!(lines[6], "history_recovery_network_connectivity=constrained");
    assert_eq!(lines[8], "history_recovery_network_metered=false");
    assert_eq!(
        lines[11],
        "history_recovery_network_approaching_data_limit=unknown"
    );
    assert_eq!(
        lines[12],
        "history_recovery_network_background_data_restricted=true"
    );
    assert_eq!(lines[14], "history_recovery_power_supply_status=inadequate");
    assert_eq!(lines[16], "history_recovery_energy_saver_status=disabled");
    assert_eq!(lines[17], "history_recovery_remaining_charge_percent=7");
    let unknown = print_recovery_platform_context(&system_probe());
    assert_eq!(unknown[17].value, "unknown");
    assert_eq!(unknown[1].value, "unsupported-platform");
    assert_eq!(RecoveryNetworkCost::Unknown.is_metered(), None);
    assert_eq!(RecoveryNetworkCost::Variable.is_metered(), Some(true));
    assert_eq!(RecoveryTruth::from_option(None).as_str(), "unknown");
}
