use pdcan::types::{
    CapabilityFlags, CarrierBinding, CarrierPolicy, CarrierProfile, HardwareRevision,
    InvalidCarrierPolicy, InvalidNodeDescriptor, InvalidPdLimits, InvalidTemperatureReading,
    NodeDescriptor, NodeRole, NodeUid, PdLimits, SampleStatus, SlotIndex, TemperatureReading,
    TemperatureSensorId, UpdateImpact,
};

fn updateable() -> CapabilityFlags {
    CapabilityFlags::FIRMWARE_UPDATE().union(CapabilityFlags::INTERNAL_TEMPERATURE())
}

fn sw3538_descriptor() -> NodeDescriptor {
    NodeDescriptor {
        role: NodeRole::Carrier,
        carrier_profile: Some(CarrierProfile::Sw3538),
        hardware_revision: HardwareRevision::REV_A(),
        capabilities: updateable()
            .union(CapabilityFlags::SWITCHABLE_OUTPUT())
            .union(CapabilityFlags::LOAD_MONITORING())
            .union(CapabilityFlags::USB_PD_CONTROL())
            .union(CapabilityFlags::USB_PD_STATUS())
            .union(CapabilityFlags::USER_BUTTON()),
        update_impact: UpdateImpact::Interrupt,
        output_count: 1,
        fan_count: 0,
        external_temperature_capacity: 0,
    }
}

#[test]
fn finalized_profiles_are_distinct_and_sw3538_interrupts_on_activation() {
    let descriptor = sw3538_descriptor();
    assert_eq!(descriptor.validate(), Ok(descriptor));
    assert_eq!(descriptor.update_impact, UpdateImpact::Interrupt);
    assert_eq!(descriptor.carrier_profile, Some(CarrierProfile::Sw3538));
    assert!(descriptor.capabilities.contains(CapabilityFlags::FIRMWARE_UPDATE()));
}

#[test]
fn role_and_profile_relationship_is_strict() {
    let invalid = NodeDescriptor {
        role: NodeRole::Backplane,
        carrier_profile: Some(CarrierProfile::Accessory),
        ..sw3538_descriptor()
    };
    assert_eq!(invalid.validate(), Err(InvalidNodeDescriptor::BackplaneHasCarrierProfile));
}

#[test]
fn sw3538_policy_enforces_the_current_hardware_ceiling() {
    let valid = CarrierPolicy { enabled: true, pd_limits: Some(PdLimits::SW3538_SAFE_MAX()) };
    assert_eq!(valid.validate_for(sw3538_descriptor(), Some(PdLimits::SW3538_SAFE_MAX())), Ok(valid));

    let excessive = CarrierPolicy {
        pd_limits: Some(PdLimits { max_power_mw: 100_001, ..PdLimits::SW3538_SAFE_MAX() }),
        ..valid
    };
    assert_eq!(
        excessive.validate_for(sw3538_descriptor(), Some(PdLimits::SW3538_SAFE_MAX())),
        Err(InvalidCarrierPolicy::Limits(InvalidPdLimits::Power))
    );
}

#[test]
fn temperature_identity_and_validity_cannot_be_conflated() {
    let valid = TemperatureReading {
        sensor: TemperatureSensorId::one_wire(0x28AA_0102_0304_056B),
        sequence: 3,
        status: SampleStatus::Valid,
        temperature_centi_c: Some(2_550),
    };
    assert_eq!(valid.validate(), Ok(valid));

    let missing = TemperatureReading { temperature_centi_c: None, ..valid };
    assert_eq!(missing.validate(), Err(InvalidTemperatureReading::ValueMissing));
    assert!(TemperatureSensorId::one_wire(0).validate().is_err());
}

#[test]
fn binding_uses_a_full_uid_and_zero_based_slot() {
    let binding = CarrierBinding {
        backplane_uid: NodeUid::from_bytes([0xA5; 12]),
        slot: SlotIndex::new(0).unwrap(),
    };
    assert_eq!(binding.slot.get(), 0);
    assert!(SlotIndex::new(0xFF).is_err());
}

#[test]
fn node_uid_comparison_is_bytewise() {
    let a = NodeUid::from_bytes([1; 12]);
    let mut bytes = [1; 12];
    assert!(a.same_as(&NodeUid::from_bytes(bytes)));
    bytes[11] = 2;
    assert!(!a.same_as(&NodeUid::from_bytes(bytes)));
}
