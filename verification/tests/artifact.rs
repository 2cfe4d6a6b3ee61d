use pdcan::artifact::{build_unsigned, Bundle, BundleError, SignatureAlgorithm};
use pdcan::types::{
    CarrierProfile, FirmwareVersion, HardwareRevision, ImageTarget, NodeRole, Sha256Digest,
    UpdateManifest,
};
use sha2::{Digest, Sha256};

fn manifest(image: &[u8]) -> UpdateManifest {
    let digest: [u8; 32] = Sha256::digest(image).into();
    UpdateManifest {
        target: ImageTarget {
            role: NodeRole::Carrier,
            carrier_profile: Some(CarrierProfile::Sw3538),
            hardware_revision: HardwareRevision::REV_A(),
            partition_layout: 1,
        },
        version: FirmwareVersion { major: 1, minor: 2, patch: 3 },
        image_size: u32::try_from(image.len()).unwrap(),
        digest: Sha256Digest::from_bytes(digest),
    }
}

#[test]
fn unsigned_bundle_round_trip_preserves_manifest_and_image() {
    let image = b"application image";
    let expected = manifest(image);
    let bytes = build_unsigned(expected, image).unwrap();
    let parsed = Bundle::parse(&bytes).unwrap();
    assert_eq!(parsed.manifest, expected);
    assert_eq!(parsed.image, image);
    assert_eq!(parsed.signature.algorithm, SignatureAlgorithm::Unsigned);
}

#[test]
fn corruption_is_detected_before_staging() {
    let image = b"application image";
    let mut bytes = build_unsigned(manifest(image), image).unwrap();
    *bytes.last_mut().unwrap() ^= 1;
    assert_eq!(Bundle::parse(&bytes), Err(BundleError::Digest));
}

#[test]
fn signature_fields_are_reserved_for_ed25519_without_enforcing_it_yet() {
    let image = b"signed later";
    let mut bytes = build_unsigned(manifest(image), image).unwrap();
    bytes[22] = SignatureAlgorithm::Ed25519.code();
    bytes[23] = 3;
    bytes[28..30].copy_from_slice(&64_u16.to_le_bytes());
    bytes[64..67].copy_from_slice(b"dev");
    bytes[80..144].fill(0xA5);
    let parsed = Bundle::parse(&bytes).unwrap();
    assert_eq!(parsed.signature.algorithm, SignatureAlgorithm::Ed25519);
    assert_eq!(parsed.signature.key_id, b"dev");
    assert_eq!(parsed.signature.signature.len(), 64);
}

#[test]
fn bundle_header_rules_are_checked_in_order() {
    let image = b"abc";
    let good = build_unsigned(manifest(image), image).unwrap();
    assert_eq!(&good[..8], b"PDCANFW\0");
    assert_eq!(good.len(), 160 + 3);
    assert_eq!(Bundle::parse(&good[..100]), Err(BundleError::TooShort));
    let mut bad = good.clone();
    bad[0] = b'X';
    assert_eq!(Bundle::parse(&bad), Err(BundleError::Magic));
    let mut bad = good.clone();
    bad[8] = 2;
    assert_eq!(Bundle::parse(&bad), Err(BundleError::FormatVersion(2)));
    let mut bad = good.clone();
    bad[12] = 9;
    assert_eq!(Bundle::parse(&bad), Err(BundleError::Role(9)));
    let mut bad = good.clone();
    bad[150] = 1;
    assert_eq!(Bundle::parse(&bad), Err(BundleError::Reserved));
    let mut bad = good.clone();
    bad[23] = 1;
    assert_eq!(Bundle::parse(&bad), Err(BundleError::SignatureShape));
    let mut bad = good.clone();
    bad.push(0);
    assert_eq!(Bundle::parse(&bad), Err(BundleError::Length));
    let mut wrong = manifest(image);
    wrong.image_size = 4;
    assert_eq!(build_unsigned(wrong, image), Err(BundleError::Length));
    let mut wrong = manifest(image);
    wrong.digest = Sha256Digest::from_bytes([0; 32]);
    assert_eq!(build_unsigned(wrong, image), Err(BundleError::Digest));
}

#[test]
fn bundle_inspection_accepts_a_valid_signed_ready_artifact() {
    let image = b"firmware";
    let digest: [u8; 32] = Sha256::digest(image).into();
    let manifest = UpdateManifest {
        target: ImageTarget {
            role: NodeRole::Carrier,
            carrier_profile: Some(CarrierProfile::Sw3538),
            hardware_revision: HardwareRevision::REV_A(),
            partition_layout: 1,
        },
        version: FirmwareVersion { major: 1, minor: 0, patch: 0 },
        image_size: u32::try_from(image.len()).unwrap(),
        digest: Sha256Digest::from_bytes(digest),
    };
    let artifact = build_unsigned(manifest, image).unwrap();
    let parsed = Bundle::parse(&artifact).unwrap();
    assert_eq!(parsed.manifest, manifest);
}
