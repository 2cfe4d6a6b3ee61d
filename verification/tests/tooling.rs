use pdcan::protocol::definitions::MESSAGE_DEFINITIONS;
use pdcan::protocol::{Header, MessageClass};
use pdcan::artifact::Bundle;
use pdcan::tooling::{
    build_bundle, bundle_manifest, check_firmware_size, describe_image, parse_version, render_dbc,
    BundleBuildError, FirmwareTarget, SizeError, SizeReport, UnsupportedTarget, VersionError,
};
use pdcan::types::{
    CarrierProfile, FirmwareVersion, HardwareRevision, NodeRole, RequesterId, Sha256Digest,
};
use sha2::{Digest, Sha256};

#[test]
fn generated_dbc_contains_every_gen2_definition_and_no_backpack_node() {
    let dbc = render_dbc().unwrap();
    for definition in MESSAGE_DEFINITIONS() {
        assert!(dbc.contains(&format!("PDCAN_{}:", definition.name)));
    }
    assert!(dbc.contains("BU_: Node Host"));
    assert!(!dbc.contains("Backpack"));
}

#[test]
fn dbc_entries_use_representative_extended_identifiers() {
    let dbc = render_dbc().unwrap();
    let emergency = Header::new(0, MessageClass::Control, 1, 15, RequesterId::PDCAN_DEFAULT(), 0)
        .unwrap()
        .encode()
        .get();
    let expected = format!(
        "BO_ {} PDCAN_EMERGENCY_DISABLE: 8 Host\n SG_ RequestId : 0|64@1+ (1,0) [0|1.8446744073709552e+19] \"\" Vector__XXX\n\n",
        emergency | 0x8000_0000
    );
    assert!(dbc.contains(&expected));
    let node_state = Header::new(3, MessageClass::State, 1, 15, RequesterId::PROTOCOL(), 0)
        .unwrap()
        .encode()
        .get();
    assert!(dbc.contains(&format!("BO_ {} PDCAN_NODE_STATE: 16 Node\n\n", node_state | 0x8000_0000)));
    assert!(dbc.starts_with("VERSION \"PDCAN Gen-2; generated by cargo xtask dbc\"\n\nNS_ :\n\nBS_:\n\nBU_: Node Host\n\n"));
    assert_eq!(dbc.matches("BO_ ").count(), MESSAGE_DEFINITIONS().len());
}

#[test]
fn all_three_finalized_firmware_targets_are_buildable_names() {
    assert_eq!(FirmwareTarget::ALL().len(), 3);
    assert_eq!(FirmwareTarget::parse("backplane"), Ok(FirmwareTarget::Backplane));
    assert_eq!(FirmwareTarget::parse("carrier"), Ok(FirmwareTarget::Carrier));
    assert_eq!(FirmwareTarget::parse("bootloader"), Ok(FirmwareTarget::Bootloader));
    assert_eq!(FirmwareTarget::parse("backpack"), Err(UnsupportedTarget));
}

#[test]
fn firmware_targets_name_their_packages_binaries_and_features() {
    let packages: Vec<_> = FirmwareTarget::ALL().iter().map(|target| target.package()).collect();
    assert_eq!(packages, ["backplane-firmware", "carrier-firmware", "pdcan-bootloader"]);
    assert_eq!(FirmwareTarget::Bootloader.binary(), "pdcan-bootloader");
    assert_eq!(FirmwareTarget::Carrier.name(), "carrier");
    assert_eq!(FirmwareTarget::Backplane.features(), Some("firmware-bin"));
    assert_eq!(FirmwareTarget::Bootloader.features(), None);
}

#[test]
fn versions_are_exactly_three_sixteen_bit_components() {
    assert_eq!(parse_version("1.2.3"), Ok(FirmwareVersion { major: 1, minor: 2, patch: 3 }));
    assert_eq!(
        parse_version("65535.0.+7"),
        Ok(FirmwareVersion { major: 65535, minor: 0, patch: 7 })
    );
    assert_eq!(parse_version("1.2"), Err(VersionError::Shape));
    assert_eq!(parse_version("1.2.3.4"), Err(VersionError::Shape));
    assert_eq!(parse_version("1..3"), Err(VersionError::Component));
    assert_eq!(parse_version("65536.0.0"), Err(VersionError::Component));
    assert_eq!(parse_version("v1"), Err(VersionError::Component));
    assert_eq!(parse_version(""), Err(VersionError::Component));
}

#[test]
fn firmware_sizes_are_held_to_partition_and_budgets() {
    assert_eq!(
        check_firmware_size(FirmwareTarget::Carrier, 90_000, 1_000, 10_000),
        Ok(SizeReport { flash: 91_000, ram: 11_000, flash_limit: 112_640, flash_budget: 102_400 })
    );
    assert_eq!(
        check_firmware_size(FirmwareTarget::Backplane, 110_000, 5_000, 0),
        Err(SizeError::FlashPartition { flash: 115_000, limit: 112_640 })
    );
    assert_eq!(
        check_firmware_size(FirmwareTarget::Backplane, 103_000, 0, 0),
        Err(SizeError::FlashBudget { flash: 103_000, budget: 102_400 })
    );
    assert_eq!(
        check_firmware_size(FirmwareTarget::Bootloader, 16_000, 385, 0),
        Err(SizeError::FlashPartition { flash: 16_385, limit: 16_384 })
    );
    assert_eq!(
        check_firmware_size(FirmwareTarget::Carrier, 1_000, 10, 27_639),
        Err(SizeError::RamBudget { ram: 27_649, budget: 27_648 })
    );
    assert_eq!(
        check_firmware_size(FirmwareTarget::Carrier, u64::MAX, 1, 0),
        Err(SizeError::FlashPartition { flash: u64::MAX, limit: 112_640 })
    );
}

#[test]
fn bundles_describe_their_image_and_refuse_bootloaders() {
    let image = vec![0x11u8; 300];
    let version = FirmwareVersion { major: 2, minor: 0, patch: 1 };
    let bytes = build_bundle(FirmwareTarget::Carrier, version, &image).unwrap();
    let bundle = Bundle::parse(&bytes).unwrap();
    assert_eq!(bundle.image, &image[..]);
    assert_eq!(bundle.manifest.version, version);
    assert_eq!(bundle.manifest.target.role, NodeRole::Carrier);
    assert_eq!(bundle.manifest.target.carrier_profile, Some(CarrierProfile::Sw3538));
    let digest: [u8; 32] = Sha256::digest(&image).into();
    assert_eq!(bundle.manifest.digest, Sha256Digest::from_bytes(digest));

    let manifest = bundle_manifest(FirmwareTarget::Backplane, version, &image).unwrap();
    assert_eq!(manifest.target.role, NodeRole::Backplane);
    assert_eq!(manifest.target.carrier_profile, None);
    assert_eq!(manifest.target.hardware_revision, HardwareRevision::REV_A());
    assert_eq!(manifest.image_size, 300);

    assert_eq!(
        build_bundle(FirmwareTarget::Bootloader, version, &image),
        Err(BundleBuildError::Bootloader)
    );
    assert_eq!(
        build_bundle(FirmwareTarget::Carrier, version, &vec![0; 112_641]),
        Err(BundleBuildError::TooLarge)
    );
}

#[test]
fn an_image_is_described_by_its_length_and_given_digest() {
    let version = FirmwareVersion { major: 3, minor: 1, patch: 4 };
    let manifest = describe_image(FirmwareTarget::Carrier, version, 1024, [0xAB; 32]).unwrap();
    assert_eq!(manifest.image_size, 1024);
    assert_eq!(manifest.digest, Sha256Digest::from_bytes([0xAB; 32]));
    assert_eq!(manifest.target.partition_layout, 1);
    assert_eq!(manifest.version, version);
    assert_eq!(
        describe_image(FirmwareTarget::Bootloader, version, 1024, [0; 32]),
        Err(BundleBuildError::Bootloader)
    );
    assert_eq!(
        describe_image(FirmwareTarget::Backplane, version, 112_641, [0; 32]),
        Err(BundleBuildError::TooLarge)
    );
}
