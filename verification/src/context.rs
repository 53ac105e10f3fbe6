//! Context binding: capability keys that exist only in the environment
//! they were issued for.
//!
//! A context signature is a fingerprint of the environment: digests of the
//! hardware attestation, of the software state and of the operational
//! parameters, and a validity window. A capability key is derived from the
//! master key with the signature's digest as salt. It is never stored. To
//! check a capability, the environment is measured again and the key is
//! derived again: if anything has drifted, another key comes out.

use vstd::prelude::*;
use vstd::bytes::{spec_u64_to_le_bytes, u64_to_le_bytes};
use crate::crypto::{constant_time_eq, hkdf_sha256, hkdf_sha256_expand, sha256, sha256_digest};
use crate::error::SentinelError;
use crate::text::{push_bytes, utf8};

verus! {

/// The bytes that are hashed for a context: the three digests and the
/// window's two ends as eight little-endian bytes each, in the order
/// hardware, software, start, end, parameters.
pub open spec fn context_preimage(
    hardware: Seq<u8>,
    software: Seq<u8>,
    valid_from: u64,
    valid_until: u64,
    parameters: Seq<u8>,
) -> Seq<u8> {
    hardware + software + spec_u64_to_le_bytes(valid_from) + spec_u64_to_le_bytes(valid_until)
        + parameters
}

/// The composite digest of a context.
pub open spec fn context_digest(
    hardware: Seq<u8>,
    software: Seq<u8>,
    valid_from: u64,
    valid_until: u64,
    parameters: Seq<u8>,
) -> Seq<u8> {
    sha256(context_preimage(hardware, software, valid_from, valid_until, parameters))
}

/// The capability key for a context with the given digest: HKDF-SHA256
/// with the digest as salt and the master key as input key material.
pub open spec fn capability_key(master_key: Seq<u8>, context_digest: Seq<u8>, info: Seq<u8>) -> Seq<
    u8,
> {
    hkdf_sha256(context_digest, master_key, info)
}

/// The hardware measurement of the reference build.
pub open spec fn reference_hardware() -> Seq<u8> {
    sha256(utf8("hardware_attestation_placeholder"@))
}

/// The software measurement of the reference build.
pub open spec fn reference_software() -> Seq<u8> {
    sha256(utf8("software_state_placeholder"@))
}

/// A fingerprint of the environment that a capability is bound to.
#[derive(Debug, Clone, PartialEq, Eq)]
pub struct ContextSignature {
    /// Digest of the hardware attestation.
    pub hardware_attestation: [u8; 32],
    /// Digest of the software state.
    pub software_state: [u8; 32],
    /// First second of validity, in seconds since the Unix epoch.
    pub valid_from: u64,
    /// Last second of validity.
    pub valid_until: u64,
    /// Digest of the operational parameters.
    pub parameters: [u8; 32],
}

impl ContextSignature {
    /// The validity window does not end before it begins.
    pub open spec fn wf(self) -> bool {
        self.valid_from <= self.valid_until
    }

    /// The bytes that are hashed for this signature.
    pub open spec fn preimage(self) -> Seq<u8> {
        context_preimage(
            self.hardware_attestation@,
            self.software_state@,
            self.valid_from,
            self.valid_until,
            self.parameters@,
        )
    }

    /// The signature's composite digest.
    pub open spec fn digest(self) -> Seq<u8> {
        sha256(self.preimage())
    }

    /// The validity window holds `time`.
    pub open spec fn valid_at(self, time: u64) -> bool {
        self.valid_from <= time <= self.valid_until
    }

    /// A signature from its measurements and its window.
    pub fn new(
        hardware_attestation: [u8; 32],
        software_state: [u8; 32],
        valid_from: u64,
        valid_until: u64,
        parameters: [u8; 32],
    ) -> (signature: ContextSignature)
        requires
            valid_from <= valid_until,
        ensures
            signature.wf(),
            signature.hardware_attestation == hardware_attestation,
            signature.software_state == software_state,
            signature.valid_from == valid_from,
            signature.valid_until == valid_until,
            signature.parameters == parameters,
    {
        ContextSignature {
            hardware_attestation,
            software_state,
            valid_from,
            valid_until,
            parameters,
        }
    }

    /// The composite digest.
    pub fn compute_hash(&self) -> (hash: [u8; 32])
        ensures
            hash@ == self.digest(),
    {
        let mut preimage: Vec<u8> = Vec::new();
        push_bytes(&mut preimage, self.hardware_attestation.as_slice());
        push_bytes(&mut preimage, self.software_state.as_slice());
        let from = u64_to_le_bytes(self.valid_from);
        push_bytes(&mut preimage, from.as_slice());
        let until = u64_to_le_bytes(self.valid_until);
        push_bytes(&mut preimage, until.as_slice());
        push_bytes(&mut preimage, self.parameters.as_slice());
        assert(preimage@ =~= self.preimage());
        sha256_digest(preimage.as_slice())
    }

    /// Whether the validity window holds `current_time`, both of its ends
    /// included.
    pub fn is_temporally_valid(&self, current_time: u64) -> (valid: bool)
        ensures
            valid == self.valid_at(current_time),
            valid == (self.valid_from <= current_time <= self.valid_until),
    {
        current_time >= self.valid_from && current_time <= self.valid_until
    }
}

/// A key derived for one context.
#[derive(Debug, Clone)]
pub struct CapabilityKey {
    key: [u8; 32],
}

impl View for CapabilityKey {
    type V = Seq<u8>;

    closed spec fn view(&self) -> Seq<u8> {
        self.key@
    }
}

impl CapabilityKey {
    /// Derives the key for `context` from the master key.
    pub fn derive(master_key: &[u8; 32], context: &ContextSignature, info: &[u8]) -> (r: Result<
        CapabilityKey,
        SentinelError,
    >)
        ensures
            r is Ok,
            r matches Ok(key) ==> key@ == capability_key(master_key@, context.digest(), info@),
            r matches Err(e) ==> e is KeyDerivationFailed,
    {
        let salt: [u8; 32] = context.compute_hash();
        match hkdf_sha256_expand(&salt, master_key, info) {
            Ok(key) => Ok(CapabilityKey { key }),
            Err(_) => Err(SentinelError::KeyDerivationFailed),
        }
    }

    /// The key's bytes.
    pub fn as_bytes(&self) -> (bytes: &[u8; 32])
        ensures
            bytes@ == self@,
    {
        &self.key
    }

    /// Whether this is the key for `current_context`: the key is derived
    /// again and compared.
    pub fn verify_context(
        &self,
        master_key: &[u8; 32],
        current_context: &ContextSignature,
        info: &[u8],
    ) -> (same: bool)
        ensures
            same == (self@ == capability_key(master_key@, current_context.digest(), info@)),
    {
        match CapabilityKey::derive(master_key, current_context, info) {
            Ok(derived) => constant_time_eq(&derived.key, &self.key),
            Err(_) => false,
        }
    }
}

/// Measures the environment and issues and checks capabilities.
pub struct ContextEvaluator {
    master_key: [u8; 32],
}

impl ContextEvaluator {
    /// The master key.
    pub closed spec fn master(&self) -> Seq<u8> {
        self.master_key@
    }

    /// An evaluator that derives from `master_key`.
    pub fn new(master_key: [u8; 32]) -> (evaluator: ContextEvaluator)
        ensures
            evaluator.master() == master_key@,
    {
        ContextEvaluator { master_key }
    }

    /// The hardware measurement. The reference build has no attestation
    /// device to ask and returns the digest of a fixed string.
    pub fn measure_hardware(&self) -> (digest: [u8; 32])
        ensures
            digest@ == reference_hardware(),
    {
        sha256_digest("hardware_attestation_placeholder".as_bytes())
    }

    /// The software measurement. The reference build returns the digest of
    /// a fixed string.
    pub fn measure_software(&self) -> (digest: [u8; 32])
        ensures
            digest@ == reference_software(),
    {
        sha256_digest("software_state_placeholder".as_bytes())
    }

    /// The digest of the operational parameters.
    pub fn measure_parameters(&self, params: &[u8]) -> (digest: [u8; 32])
        ensures
            digest@ == sha256(params@),
    {
        sha256_digest(params)
    }

    /// The context for the given measurements of hardware and software,
    /// the given window and the given parameters.
    pub fn capture_measured(
        &self,
        hardware: [u8; 32],
        software: [u8; 32],
        valid_from: u64,
        valid_until: u64,
        params: &[u8],
    ) -> (context: ContextSignature)
        requires
            valid_from <= valid_until,
        ensures
            context.wf(),
            context.hardware_attestation == hardware,
            context.software_state == software,
            context.valid_from == valid_from,
            context.valid_until == valid_until,
            context.parameters@ == sha256(params@),
    {
        ContextSignature::new(
            hardware,
            software,
            valid_from,
            valid_until,
            self.measure_parameters(params),
        )
    }

    /// The context as measured now, for the given window and parameters.
    pub fn capture_context(&self, valid_from: u64, valid_until: u64, params: &[u8]) -> (context:
        ContextSignature)
        requires
            valid_from <= valid_until,
        ensures
            context.wf(),
            context.hardware_attestation@ == reference_hardware(),
            context.software_state@ == reference_software(),
            context.valid_from == valid_from,
            context.valid_until == valid_until,
            context.parameters@ == sha256(params@),
    {
        self.capture_measured(
            self.measure_hardware(),
            self.measure_software(),
            valid_from,
            valid_until,
            params,
        )
    }

    /// Captures the context and derives the capability key for it.
    pub fn issue_capability(
        &self,
        valid_from: u64,
        valid_until: u64,
        params: &[u8],
        info: &[u8],
    ) -> (r: Result<(ContextSignature, CapabilityKey), SentinelError>)
        requires
            valid_from <= valid_until,
        ensures
            r is Ok,
            r matches Ok((context, key)) ==> {
                &&& context.wf()
                &&& context.hardware_attestation@ == reference_hardware()
                &&& context.software_state@ == reference_software()
                &&& context.valid_from == valid_from
                &&& context.valid_until == valid_until
                &&& context.parameters@ == sha256(params@)
                &&& key@ == capability_key(self.master(), context.digest(), info@)
            },
            r matches Err(e) ==> e is KeyDerivationFailed,
    {
        let context = self.capture_context(valid_from, valid_until, params);
        match CapabilityKey::derive(&self.master_key, &context, info) {
            Ok(key) => Ok((context, key)),
            Err(e) => Err(e),
        }
    }

    /// Checks a capability against the given measurements of hardware and
    /// software. Outside the expected window the answer is no. Inside it,
    /// the context is put together from the two measurements, the expected
    /// window and the expected parameters digest, and the capability must
    /// be the key for that context. So the check comes down to the
    /// hardware and the software: with both as they were at issuance, the
    /// key that was issued for the expected context verifies.
    pub fn verify_capability_measured(
        &self,
        expected_context: &ContextSignature,
        capability: &CapabilityKey,
        info: &[u8],
        current_time: u64,
        hardware: [u8; 32],
        software: [u8; 32],
    ) -> (valid: bool)
        ensures
            valid == (expected_context.valid_at(current_time) && capability@ == capability_key(
                self.master(),
                context_digest(
                    hardware@,
                    software@,
                    expected_context.valid_from,
                    expected_context.valid_until,
                    expected_context.parameters@,
                ),
                info@,
            )),
            hardware@ == expected_context.hardware_attestation@ && software@
                == expected_context.software_state@ ==> valid == (expected_context.valid_at(
                current_time,
            ) && capability@ == capability_key(self.master(), expected_context.digest(), info@)),
    {
        if !expected_context.is_temporally_valid(current_time) {
            return false;
        }
        let current_context = ContextSignature::new(
            hardware,
            software,
            expected_context.valid_from,
            expected_context.valid_until,
            expected_context.parameters,
        );
        capability.verify_context(&self.master_key, &current_context, info)
    }

    /// Checks a capability against the environment as measured now.
    pub fn verify_capability(
        &self,
        expected_context: &ContextSignature,
        capability: &CapabilityKey,
        info: &[u8],
        current_time: u64,
    ) -> (r: Result<bool, SentinelError>)
        ensures
            r is Ok,
            r matches Ok(valid) ==> valid == (expected_context.valid_at(current_time) && capability@
                == capability_key(
                self.master(),
                context_digest(
                    reference_hardware(),
                    reference_software(),
                    expected_context.valid_from,
                    expected_context.valid_until,
                    expected_context.parameters@,
                ),
                info@,
            )),
            r matches Ok(valid) ==> (expected_context.hardware_attestation@ == reference_hardware()
                && expected_context.software_state@ == reference_software() ==> valid == (
                expected_context.valid_at(current_time) && capability@ == capability_key(
                    self.master(),
                    expected_context.digest(),
                    info@,
                ))),
    {
        Ok(
            self.verify_capability_measured(
                expected_context,
                capability,
                info,
                current_time,
                self.measure_hardware(),
                self.measure_software(),
            ),
        )
    }
}

/// What is issued verifies: with the hardware and software measurements
/// of a context, its window and its parameters digest, the check derives
/// from the context's own digest, so the key that was derived for the
/// context is the key that the check asks for.
pub proof fn lemma_issued_capability_verifies(
    master_key: Seq<u8>,
    context: ContextSignature,
    info: Seq<u8>,
)
    ensures
        context_digest(
            context.hardware_attestation@,
            context.software_state@,
            context.valid_from,
            context.valid_until,
            context.parameters@,
        ) == context.digest(),
        capability_key(
            master_key,
            context_digest(
                context.hardware_attestation@,
                context.software_state@,
                context.valid_from,
                context.valid_until,
                context.parameters@,
            ),
            info,
        ) == capability_key(master_key, context.digest(), info),
{
}

/// The digest of a signature depends on nothing but its five fields:
/// signatures with equal fields have equal digests.
pub proof fn lemma_context_hash_deterministic(a: ContextSignature, b: ContextSignature)
    requires
        a.hardware_attestation@ == b.hardware_attestation@,
        a.software_state@ == b.software_state@,
        a.valid_from == b.valid_from,
        a.valid_until == b.valid_until,
        a.parameters@ == b.parameters@,
    ensures
        a.digest() == b.digest(),
{
}

/// The key for a context depends on nothing but the master key, the
/// context's fields and the info: equal inputs derive equal keys.
pub proof fn lemma_capability_deterministic(
    master_a: Seq<u8>,
    master_b: Seq<u8>,
    a: ContextSignature,
    b: ContextSignature,
    info_a: Seq<u8>,
    info_b: Seq<u8>,
)
    requires
        master_a == master_b,
        info_a == info_b,
        a.hardware_attestation@ == b.hardware_attestation@,
        a.software_state@ == b.software_state@,
        a.valid_from == b.valid_from,
        a.valid_until == b.valid_until,
        a.parameters@ == b.parameters@,
    ensures
        capability_key(master_a, a.digest(), info_a) == capability_key(
            master_b,
            b.digest(),
            info_b,
        ),
{
}

/// No two contexts are hashed from the same bytes: signatures whose
/// preimages are equal agree in every field. So a change to any field
/// changes what goes into the digest, and two different contexts share a
/// key only through a collision in SHA-256 or in HKDF.
pub proof fn lemma_context_preimage_injective(a: ContextSignature, b: ContextSignature)
    requires
        a.preimage() == b.preimage(),
    ensures
        a.hardware_attestation@ == b.hardware_attestation@,
        a.software_state@ == b.software_state@,
        a.valid_from == b.valid_from,
        a.valid_until == b.valid_until,
        a.parameters@ == b.parameters@,
{
    vstd::bytes::lemma_auto_spec_u64_to_from_le_bytes();
    let pa = a.preimage();
    let pb = b.preimage();
    assert(spec_u64_to_le_bytes(a.valid_from).len() == 8);
    assert(spec_u64_to_le_bytes(a.valid_until).len() == 8);
    assert(spec_u64_to_le_bytes(b.valid_from).len() == 8);
    assert(spec_u64_to_le_bytes(b.valid_until).len() == 8);
    assert(a.hardware_attestation@ =~= pa.subrange(0, 32));
    assert(b.hardware_attestation@ =~= pb.subrange(0, 32));
    assert(a.software_state@ =~= pa.subrange(32, 64));
    assert(b.software_state@ =~= pb.subrange(32, 64));
    assert(spec_u64_to_le_bytes(a.valid_from) =~= pa.subrange(64, 72));
    assert(spec_u64_to_le_bytes(b.valid_from) =~= pb.subrange(64, 72));
    assert(spec_u64_to_le_bytes(a.valid_until) =~= pa.subrange(72, 80));
    assert(spec_u64_to_le_bytes(b.valid_until) =~= pb.subrange(72, 80));
    assert(a.parameters@ =~= pa.subrange(80, 112));
    assert(b.parameters@ =~= pb.subrange(80, 112));
}

} // verus!
