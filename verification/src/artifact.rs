//! The firmware bundle file: a 160-byte little-endian header (magic, format,
//! image target, version, signature shape, image length and SHA-256 digest)
//! followed by the application image.
use vstd::prelude::*;
use sha2::Digest;
use crate::types::{
    group_type_lemmas, CarrierProfile, FirmwareVersion, HardwareRevision, ImageTarget, NodeRole,
    Sha256Digest, UpdateManifest,
};
use crate::wire::{
    first_nonzero, find_nonzero, lemma_first_nonzero_none, lemma_rd_put16, lemma_rd_put32, put16,
    put32, put_bytes, put_slice, put_u16, put_u32, rd16, rd32, rd_u16, rd_u32, zeros,
};
use crate::protocol::{
    lemma_rd_digest, lemma_rd_put_version, put_version, rd_digest, rd_version, read_digest,
    read_version, write_version,
};
use crate::telemetry::profile_byte;

verus! {

broadcast use group_type_lemmas;

pub const FORMAT_VERSION: u16 = 1;
pub const HEADER_BYTES: usize = 160;
pub const MAX_KEY_ID_BYTES: usize = 16;
pub const MAX_SIGNATURE_BYTES: usize = 64;

/// The eight bytes that open every bundle: `PDCANFW` and a zero.
pub open spec fn magic_bytes() -> Seq<u8> {
    seq![0x50u8, 0x44, 0x43, 0x41, 0x4E, 0x46, 0x57, 0x00]
}

/// The eight bytes that open every bundle: `PDCANFW` and a zero.
#[allow(non_snake_case)]
pub fn MAGIC() -> (r: [u8; 8])
    ensures
        r@ == magic_bytes(),
{
    let r = [0x50u8, 0x44, 0x43, 0x41, 0x4E, 0x46, 0x57, 0x00];
    assert(r@ =~= magic_bytes());
    r
}

// ---------------------------------------------------------------------------
// SHA-256
// ---------------------------------------------------------------------------

/// The SHA-256 digest of `data`, as the `sha2` crate computes it.
pub uninterp spec fn sha256_of(data: Seq<u8>) -> Seq<u8>;

/// Calls `sha2::Sha256::digest`. Trusted: the result is the 32-byte digest,
/// a function of the input bytes alone, named `sha256_of`.
#[verifier::external_body]
pub(crate) fn sha256(data: &[u8]) -> (r: [u8; 32])
    ensures
        r@ == sha256_of(data@),
{
    sha2::Sha256::digest(data).into()
}

#[derive(Clone, Copy, Debug, PartialEq, Eq, Structural)]
pub enum SignatureAlgorithm {
    Unsigned,
    Ed25519,
}

impl SignatureAlgorithm {
    pub open spec fn spec_code(self) -> u8 {
        match self {
            SignatureAlgorithm::Unsigned => 0,
            SignatureAlgorithm::Ed25519 => 1,
        }
    }

    pub fn code(self) -> (r: u8)
        ensures
            r == self.spec_code(),
    {
        match self {
            SignatureAlgorithm::Unsigned => 0,
            SignatureAlgorithm::Ed25519 => 1,
        }
    }

    pub fn try_from(value: u8) -> (r: Result<SignatureAlgorithm, BundleError>)
        ensures
            r == (if value == 0 {
                Ok::<SignatureAlgorithm, BundleError>(SignatureAlgorithm::Unsigned)
            } else if value == 1 {
                Ok(SignatureAlgorithm::Ed25519)
            } else {
                Err(BundleError::SignatureAlgorithm(value))
            }),
    {
        match value {
            0 => Ok(SignatureAlgorithm::Unsigned),
            1 => Ok(SignatureAlgorithm::Ed25519),
            _ => Err(BundleError::SignatureAlgorithm(value)),
        }
    }
}

#[derive(Clone, Copy, Debug, PartialEq, Eq)]
pub struct SignatureRecord<'a> {
    pub algorithm: SignatureAlgorithm,
    pub key_id: &'a [u8],
    pub signature: &'a [u8],
}

#[derive(Clone, Copy, Debug, PartialEq, Eq)]
pub struct Bundle<'a> {
    pub manifest: UpdateManifest,
    pub signature: SignatureRecord<'a>,
    pub image: &'a [u8],
}

#[derive(Clone, Copy, Debug, PartialEq, Eq, Structural)]
pub enum BundleError {
    TooShort,
    Magic,
    FormatVersion(u16),
    HeaderLength(u16),
    Length,
    Role(u8),
    CarrierProfile(u8),
    HardwareRevision(u8),
    ImageTarget,
    SignatureAlgorithm(u8),
    SignatureShape,
    Reserved,
    Digest,
    ImageTooLarge,
}

/// What a well-formed header declares.
pub struct BundleHeader {
    pub manifest: UpdateManifest,
    pub algorithm: SignatureAlgorithm,
    pub key_id_length: nat,
    pub signature_length: nat,
}

/// The image target that header bytes 12..16 name, or the first error in them.
pub open spec fn spec_header_target(b: Seq<u8>) -> Result<ImageTarget, BundleError> {
    match NodeRole::from_code(b[12]) {
        None => Err(BundleError::Role(b[12])),
        Some(role) => if b[13] != 0 && CarrierProfile::from_code(b[13]) is None {
            Err(BundleError::CarrierProfile(b[13]))
        } else if !HardwareRevision::valid_raw(b[14]) {
            Err(BundleError::HardwareRevision(b[14]))
        } else {
            let target = ImageTarget {
                role,
                carrier_profile: if b[13] == 0 {
                    None
                } else {
                    CarrierProfile::from_code(b[13])
                },
                hardware_revision: HardwareRevision::spec_new(b[14]),
                partition_layout: b[15],
            };
            if target.spec_is_valid() {
                Ok(target)
            } else {
                Err(BundleError::ImageTarget)
            }
        },
    }
}

/// Every reserved header byte is zero: 30..32, the unused tail of the key
/// identifier and of the signature, and 144..160.
pub open spec fn reserved_clear(b: Seq<u8>, key_id_length: int, signature_length: int) -> bool {
    &&& first_nonzero(b, 30, 32) is None
    &&& first_nonzero(b, 64 + key_id_length, 80) is None
    &&& first_nonzero(b, 80 + signature_length, 144) is None
    &&& first_nonzero(b, 144, 160) is None
}

/// An unsigned bundle names no key and carries no signature; an Ed25519
/// bundle names a key and carries a 64-byte signature.
pub open spec fn signature_shape_ok(algorithm: SignatureAlgorithm, key_id_length: int, signature_length: int) -> bool {
    match algorithm {
        SignatureAlgorithm::Unsigned => key_id_length == 0 && signature_length == 0,
        SignatureAlgorithm::Ed25519 => key_id_length > 0 && signature_length == 64,
    }
}

/// The header that `b` declares, or the first rule it breaks, in the order
/// the rules are checked. The digest is not compared here.
pub open spec fn spec_parse_header(b: Seq<u8>) -> Result<BundleHeader, BundleError> {
    if b.len() < 160 {
        Err(BundleError::TooShort)
    } else if b.subrange(0, 8) != magic_bytes() {
        Err(BundleError::Magic)
    } else if rd16(b, 8) != 1 {
        Err(BundleError::FormatVersion(rd16(b, 8)))
    } else if rd16(b, 10) != 160 {
        Err(BundleError::HeaderLength(rd16(b, 10)))
    } else {
        match spec_header_target(b) {
            Err(e) => Err(e),
            Ok(target) => if b[22] > 1 {
                Err(BundleError::SignatureAlgorithm(b[22]))
            } else {
                let algorithm = if b[22] == 0 {
                    SignatureAlgorithm::Unsigned
                } else {
                    SignatureAlgorithm::Ed25519
                };
                let key_id_length = b[23] as int;
                let signature_length = rd16(b, 28) as int;
                if key_id_length > 16 || signature_length > 64 {
                    Err(BundleError::SignatureShape)
                } else if !reserved_clear(b, key_id_length, signature_length) {
                    Err(BundleError::Reserved)
                } else if !signature_shape_ok(algorithm, key_id_length, signature_length) {
                    Err(BundleError::SignatureShape)
                } else if b.len() != 160 + rd32(b, 24) {
                    Err(BundleError::Length)
                } else {
                    Ok(
                        BundleHeader {
                            manifest: UpdateManifest {
                                target,
                                version: rd_version(b, 16),
                                image_size: rd32(b, 24),
                                digest: rd_digest(b, 32),
                            },
                            algorithm,
                            key_id_length: key_id_length as nat,
                            signature_length: signature_length as nat,
                        },
                    )
                }
            },
        }
    }
}

/// Whether `bundle` is the bundle that header `h` of bytes `b` describes.
pub open spec fn bundle_matches(bundle: Bundle, h: BundleHeader, b: Seq<u8>) -> bool {
    &&& bundle.manifest == h.manifest
    &&& bundle.signature.algorithm == h.algorithm
    &&& bundle.signature.key_id@ == b.subrange(64, 64 + h.key_id_length as int)
    &&& bundle.signature.signature@ == b.subrange(80, 80 + h.signature_length as int)
    &&& bundle.image@ == b.subrange(160, b.len() as int)
}

/// The result of comparing a computed digest with the one a manifest declares.
pub open spec fn spec_check_digest(actual: Seq<u8>, expected: Sha256Digest) -> Result<(), BundleError> {
    if actual == expected.spec_bytes() {
        Ok(())
    } else {
        Err(BundleError::Digest)
    }
}

/// Compares a computed image digest with the declared one.
pub fn check_digest(actual: &[u8; 32], expected: Sha256Digest) -> (r: Result<(), BundleError>)
    ensures
        r == spec_check_digest(actual@, expected),
{
    let bytes = expected.as_bytes();
    let mut i: usize = 0;
    while i < 32
        invariant
            i <= 32,
            bytes@ == expected.spec_bytes(),
            forall|j: int| 0 <= j < i ==> actual@[j] == bytes@[j],
        decreases 32 - i,
    {
        if actual[i] != bytes[i] {
            return Err(BundleError::Digest);
        }
        i = i + 1;
    }
    assert(actual@ =~= bytes@);
    Ok(())
}

fn magic_matches(bytes: &[u8]) -> (r: bool)
    requires
        bytes@.len() >= 8,
    ensures
        r == (bytes@.subrange(0, 8) == magic_bytes()),
{
    let magic = MAGIC();
    let mut i: usize = 0;
    while i < 8
        invariant
            i <= 8,
            bytes@.len() >= 8,
            magic@ == magic_bytes(),
            forall|j: int| 0 <= j < i ==> bytes@[j] == magic@[j],
        decreases 8 - i,
    {
        if bytes[i] != magic[i] {
            assert(bytes@.subrange(0, 8)[i as int] != magic_bytes()[i as int]);
            return false;
        }
        i = i + 1;
    }
    assert(bytes@.subrange(0, 8) =~= magic_bytes());
    true
}

fn header_target(bytes: &[u8]) -> (r: Result<ImageTarget, BundleError>)
    requires
        bytes@.len() >= 160,
    ensures
        r == spec_header_target(bytes@),
{
    let role = match NodeRole::try_from(bytes[12]) {
        Ok(role) => role,
        Err(_) => {
            return Err(BundleError::Role(bytes[12]));
        },
    };
    let carrier_profile = if bytes[13] == 0 {
        None
    } else {
        match CarrierProfile::try_from(bytes[13]) {
            Ok(profile) => Some(profile),
            Err(_) => {
                return Err(BundleError::CarrierProfile(bytes[13]));
            },
        }
    };
    let hardware_revision = match HardwareRevision::new(bytes[14]) {
        Ok(revision) => revision,
        Err(_) => {
            return Err(BundleError::HardwareRevision(bytes[14]));
        },
    };
    let target = ImageTarget { role, carrier_profile, hardware_revision, partition_layout: bytes[15] };
    if target.validate().is_err() {
        return Err(BundleError::ImageTarget);
    }
    Ok(target)
}

impl<'a> Bundle<'a> {
    /// Parses a bundle and checks its image against the declared digest.
    pub fn parse(bytes: &'a [u8]) -> (r: Result<Self, BundleError>)
        ensures
            match spec_parse_header(bytes@) {
                Err(e) => r == Err::<Bundle, BundleError>(e),
                Ok(h) => match spec_check_digest(
                    sha256_of(bytes@.subrange(160, bytes@.len() as int)),
                    h.manifest.digest,
                ) {
                    Err(e) => r == Err::<Bundle, BundleError>(e),
                    Ok(_) => r matches Ok(bundle) && bundle_matches(bundle, h, bytes@),
                },
            },
    {
        let bundle = Bundle::parse_header(bytes)?;
        bundle.verify_digest()?;
        Ok(bundle)
    }

    /// Parses a bundle's header and borrows its key identifier, signature
    /// and image, without computing the image's digest.
    fn parse_header(bytes: &'a [u8]) -> (r: Result<Self, BundleError>)
        ensures
            match spec_parse_header(bytes@) {
                Err(e) => r == Err::<Bundle, BundleError>(e),
                Ok(h) => r matches Ok(bundle) && bundle_matches(bundle, h, bytes@),
            },
    {
        if bytes.len() < HEADER_BYTES {
            return Err(BundleError::TooShort);
        }
        if !magic_matches(bytes) {
            return Err(BundleError::Magic);
        }
        let format = rd_u16(bytes, 8);
        if format != FORMAT_VERSION {
            return Err(BundleError::FormatVersion(format));
        }
        let header_length = rd_u16(bytes, 10);
        if header_length as usize != HEADER_BYTES {
            return Err(BundleError::HeaderLength(header_length));
        }
        let target = header_target(bytes)?;
        let algorithm = SignatureAlgorithm::try_from(bytes[22])?;
        let key_id_length = bytes[23] as usize;
        let image_size = rd_u32(bytes, 24);
        let image_length = image_size as usize;
        let signature_length = rd_u16(bytes, 28) as usize;
        if key_id_length > MAX_KEY_ID_BYTES || signature_length > MAX_SIGNATURE_BYTES {
            return Err(BundleError::SignatureShape);
        }
        if find_nonzero(bytes, 30, 32).is_some() || find_nonzero(bytes, 64 + key_id_length, 80).is_some()
            || find_nonzero(bytes, 80 + signature_length, 144).is_some() || find_nonzero(
            bytes,
            144,
            HEADER_BYTES,
        ).is_some() {
            return Err(BundleError::Reserved);
        }
        let shape_ok = match algorithm {
            SignatureAlgorithm::Unsigned => key_id_length == 0 && signature_length == 0,
            SignatureAlgorithm::Ed25519 => key_id_length > 0 && signature_length == 64,
        };
        if !shape_ok {
            return Err(BundleError::SignatureShape);
        }
        if bytes.len() - HEADER_BYTES != image_length {
            return Err(BundleError::Length);
        }
        let digest = read_digest(bytes, 32);
        let version = read_version(bytes, 16);
        Ok(
            Bundle {
                manifest: UpdateManifest { target, version, image_size, digest },
                signature: SignatureRecord {
                    algorithm,
                    key_id: vstd::slice::slice_subrange(bytes, 64, 64 + key_id_length),
                    signature: vstd::slice::slice_subrange(bytes, 80, 80 + signature_length),
                },
                image: vstd::slice::slice_subrange(bytes, HEADER_BYTES, bytes.len()),
            },
        )
    }

    /// Checks the image against the digest its manifest declares.
    pub fn verify_digest(&self) -> (r: Result<(), BundleError>)
        ensures
            r == spec_check_digest(sha256_of(self.image@), self.manifest.digest),
    {
        let actual = sha256(self.image);
        check_digest(&actual, self.manifest.digest)
    }
}

/// The 160-byte header of an unsigned bundle for `m`.
pub open spec fn spec_unsigned_header(m: UpdateManifest) -> Seq<u8> {
    let t = m.target;
    put_bytes(
        put32(
            put_version(
                put16(put16(put_bytes(zeros(160), 0, magic_bytes()), 8, 1), 10, 160).update(
                    12,
                    t.role.spec_code(),
                ).update(13, profile_byte(t.carrier_profile)).update(
                    14,
                    t.hardware_revision.spec_get(),
                ).update(15, t.partition_layout),
                16,
                m.version,
            ),
            24,
            m.image_size,
        ),
        32,
        m.digest.spec_bytes(),
    )
}

/// Writes the unsigned bundle for `manifest` and `image`: its header, then the image.
fn write_unsigned_bundle(manifest: UpdateManifest, image: &[u8]) -> (r: Vec<u8>)
    requires
        image@.len() + 160 <= usize::MAX,
    ensures
        r@ == spec_unsigned_header(manifest) + image@,
{
    let mut header = vec![0u8; HEADER_BYTES];
    assert(header@ =~= zeros(160));
    let magic = MAGIC();
    put_slice(&mut header, 0, &magic);
    put_u16(&mut header, 8, FORMAT_VERSION);
    put_u16(&mut header, 10, 160);
    header.set(12, manifest.target.role.code());
    header.set(
        13,
        match manifest.target.carrier_profile {
            Some(profile) => profile.code(),
            None => 0,
        },
    );
    header.set(14, manifest.target.hardware_revision.get());
    header.set(15, manifest.target.partition_layout);
    write_version(manifest.version, &mut header, 16);
    header.set(22, SignatureAlgorithm::Unsigned.code());
    put_u32(&mut header, 24, manifest.image_size);
    put_slice(&mut header, 32, manifest.digest.as_bytes());
    assert(header@ == spec_unsigned_header(manifest));
    let mut output = header;
    let mut i: usize = 0;
    while i < image.len()
        invariant
            i <= image@.len(),
            image@.len() + 160 <= usize::MAX,
            output@ == spec_unsigned_header(manifest) + image@.subrange(0, i as int),
        decreases image@.len() - i,
    {
        output.push(image[i]);
        i = i + 1;
        assert(output@ =~= spec_unsigned_header(manifest) + image@.subrange(0, i as int));
    }
    assert(image@.subrange(0, image@.len() as int) =~= image@);
    output
}

/// The result of building an unsigned bundle, given the image's actual digest.
pub open spec fn spec_build_unsigned(manifest: UpdateManifest, image: Seq<u8>, actual: Seq<u8>) -> Result<
    Seq<u8>,
    BundleError,
> {
    if !manifest.target.spec_is_valid() {
        Err(BundleError::ImageTarget)
    } else if image.len() > u32::MAX {
        Err(BundleError::ImageTooLarge)
    } else if manifest.image_size != image.len() {
        Err(BundleError::Length)
    } else if actual != manifest.digest.spec_bytes() {
        Err(BundleError::Digest)
    } else {
        Ok(spec_unsigned_header(manifest) + image)
    }
}

/// Builds an unsigned bundle after checking the manifest against the image.
pub fn build_unsigned(manifest: UpdateManifest, image: &[u8]) -> (r: Result<Vec<u8>, BundleError>)
    requires
        image@.len() + 160 <= usize::MAX,
    ensures
        match spec_build_unsigned(manifest, image@, sha256_of(image@)) {
            Ok(bytes) => r matches Ok(v) && v@ == bytes,
            Err(e) => r == Err::<Vec<u8>, BundleError>(e),
        },
{
    if manifest.target.validate().is_err() {
        return Err(BundleError::ImageTarget);
    }
    if image.len() > 0xFFFF_FFFF {
        return Err(BundleError::ImageTooLarge);
    }
    let image_size = image.len() as u32;
    if manifest.image_size != image_size {
        return Err(BundleError::Length);
    }
    let actual = sha256(image);
    assemble_unsigned(manifest, image, &actual)
}

/// Writes the unsigned bundle for `manifest` and `image` once the image's
/// computed digest `actual` matches the declared one.
pub fn assemble_unsigned(manifest: UpdateManifest, image: &[u8], actual: &[u8; 32]) -> (r: Result<
    Vec<u8>,
    BundleError,
>)
    requires
        image@.len() + 160 <= usize::MAX,
    ensures
        match spec_check_digest(actual@, manifest.digest) {
            Ok(_) => r matches Ok(v) && v@ == spec_unsigned_header(manifest) + image@,
            Err(e) => r == Err::<Vec<u8>, BundleError>(e),
        },
{
    check_digest(actual, manifest.digest)?;
    Ok(write_unsigned_bundle(manifest, image))
}

/// An unsigned bundle built for a valid manifest parses back to the same
/// manifest and image, with no key or signature; the digest that parsing
/// compares is the one that building compared.
pub proof fn lemma_unsigned_bundle_round_trip(manifest: UpdateManifest, image: Seq<u8>)
    requires
        manifest.target.spec_is_valid(),
        HardwareRevision::valid_raw(manifest.target.hardware_revision.spec_get()),
        manifest.image_size == image.len(),
    ensures
        ({
            let b = spec_unsigned_header(manifest) + image;
            &&& spec_parse_header(b) matches Ok(h) && h.manifest == manifest && h.algorithm
                == SignatureAlgorithm::Unsigned && h.key_id_length == 0 && h.signature_length == 0
            &&& b.subrange(160, b.len() as int) == image
        }),
{
    let t = manifest.target;
    let s0 = put_bytes(zeros(160), 0, magic_bytes());
    let s1 = put16(s0, 8, 1);
    let s2 = put16(s1, 10, 160);
    let s3 = s2.update(12, t.role.spec_code()).update(13, profile_byte(t.carrier_profile)).update(
        14,
        t.hardware_revision.spec_get(),
    ).update(15, t.partition_layout);
    let s4 = put_version(s3, 16, manifest.version);
    let s5 = put32(s4, 24, manifest.image_size);
    let h = spec_unsigned_header(manifest);
    let b = h + image;
    lemma_rd_put16(s0, 8, 1);
    lemma_rd_put16(s1, 10, 160);
    lemma_rd_put_version(s3, 16, manifest.version);
    lemma_rd_put32(s4, 24, manifest.image_size);
    assert(h.len() == 160);
    assert(forall|i: int| 0 <= i < 160 ==> b[i] == h[i]);
    assert(forall|i: int| 0 <= i < 32 ==> h[i] == s5[i]);
    assert(forall|i: int| 0 <= i < 24 ==> s5[i] == s4[i]);
    assert(forall|i: int| 0 <= i < 16 ==> s4[i] == s3[i]);
    assert(forall|i: int| 0 <= i < 12 ==> s2[i] == s3[i]);
    assert(forall|i: int| 0 <= i < 10 ==> s1[i] == s2[i]);
    assert(forall|i: int| 0 <= i < 8 ==> s0[i] == s1[i]);
    assert(b.subrange(0, 8) =~= magic_bytes());
    assert(rd16(b, 8) == rd16(s1, 8));
    assert(rd16(b, 10) == rd16(s2, 10));
    assert(rd_version(b, 16) == rd_version(s4, 16));
    assert(rd32(b, 24) == rd32(s5, 24));
    assert(b.subrange(32, 64) =~= manifest.digest.spec_bytes());
    lemma_rd_digest(b, 32, manifest.digest);
    lemma_first_nonzero_none(b, 30, 32);
    lemma_first_nonzero_none(b, 64, 80);
    lemma_first_nonzero_none(b, 80, 144);
    lemma_first_nonzero_none(b, 144, 160);
    assert(s4[28] == 0 && s4[29] == 0);
    assert(s5[28] == 0 && s5[29] == 0);
    assert(b[28] == 0 && b[29] == 0);
    assert(((0u8 as u16) | ((0u8 as u16) << 8u16)) == 0u16) by (bit_vector);
    assert(rd16(b, 28) == 0);
    assert(b.subrange(160, b.len() as int) =~= image);
}

/// A bundle that `build_unsigned` produced is accepted by `Bundle::parse`:
/// its header gives back the manifest, unsigned with no key or signature,
/// its image is the image it was built from, and the digest check that
/// parsing makes (over that same image) passes, because building made it.
pub proof fn lemma_built_bundle_parses(manifest: UpdateManifest, image: Seq<u8>)
    requires
        HardwareRevision::valid_raw(manifest.target.hardware_revision.spec_get()),
        spec_build_unsigned(manifest, image, sha256_of(image)) is Ok,
    ensures
        ({
            let b = spec_build_unsigned(manifest, image, sha256_of(image))->Ok_0;
            &&& spec_parse_header(b) matches Ok(h) && h.manifest == manifest && h.algorithm
                == SignatureAlgorithm::Unsigned && h.key_id_length == 0 && h.signature_length == 0
                && spec_check_digest(sha256_of(b.subrange(160, b.len() as int)), h.manifest.digest) is Ok
            &&& b.subrange(160, b.len() as int) == image
        }),
{
    lemma_unsigned_bundle_round_trip(manifest, image);
}

} // verus!