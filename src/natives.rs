//! Gas parameters of the framework's native functions.
use vstd::prelude::*;

verus! {
/// Native failure code: a struct type tag was expected but could not be parsed.
pub const NFE_EXPECTED_STRUCT_TYPE_TAG: u64 = 0x1;

/// Native failure code: an address could not be parsed (most likely a wrong length).
pub const NFE_UNABLE_TO_PARSE_ADDRESS: u64 = 0x2;

#[derive(Debug, Clone)]
pub struct CreateAddressGasParameters {
    pub base_cost: u64,
}

impl CreateAddressGasParameters {
    /// Every cost in this table is zero.
    pub open spec fn is_zero(&self) -> bool {
        self.base_cost == 0
    }
}

#[derive(Debug, Clone)]
pub struct CreateSignerGasParameters {
    pub base_cost: u64,
}

impl CreateSignerGasParameters {
    /// Every cost in this table is zero.
    pub open spec fn is_zero(&self) -> bool {
        self.base_cost == 0
    }
}

#[derive(Debug, Clone)]
pub struct Bls12381GasParameters {
    pub base_cost: u64,
    pub per_pubkey_deserialize_cost: u64,
    pub per_pubkey_aggregate_cost: u64,
    pub per_pubkey_subgroup_check_cost: u64,
    pub per_sig_deserialize_cost: u64,
    pub per_sig_aggregate_cost: u64,
    pub per_sig_subgroup_check_cost: u64,
    pub per_sig_verify_cost: u64,
    pub per_pop_verify_cost: u64,
    pub per_pairing_cost: u64,
    pub per_msg_hashing_cost: u64,
    pub per_byte_hashing_cost: u64,
}

impl Bls12381GasParameters {
    /// Every cost in this table is zero.
    pub open spec fn is_zero(&self) -> bool {
        self.base_cost == 0
        && self.per_pubkey_deserialize_cost == 0
        && self.per_pubkey_aggregate_cost == 0
        && self.per_pubkey_subgroup_check_cost == 0
        && self.per_sig_deserialize_cost == 0
        && self.per_sig_aggregate_cost == 0
        && self.per_sig_subgroup_check_cost == 0
        && self.per_sig_verify_cost == 0
        && self.per_pop_verify_cost == 0
        && self.per_pairing_cost == 0
        && self.per_msg_hashing_cost == 0
        && self.per_byte_hashing_cost == 0
    }
}

#[derive(Debug, Clone)]
pub struct LittleEndianBitVectorFromByteVectorGasParams {
    pub base_cost: u64,
    pub per_byte_cost: u64,
}

impl LittleEndianBitVectorFromByteVectorGasParams {
    /// Every cost in this table is zero.
    pub open spec fn is_zero(&self) -> bool {
        self.base_cost == 0
        && self.per_byte_cost == 0
    }
}

#[derive(Debug, Clone)]
pub struct BigEndianBitVectorFromByteVectorGasParams {
    pub base_cost: u64,
    pub per_byte_cost: u64,
}

impl BigEndianBitVectorFromByteVectorGasParams {
    /// Every cost in this table is zero.
    pub open spec fn is_zero(&self) -> bool {
        self.base_cost == 0
        && self.per_byte_cost == 0
    }
}

#[derive(Debug, Clone)]
pub struct PointIsCanonicalGasParameters {
    pub base_cost: u64,
    pub is_canonical_cost: u64,
}

impl PointIsCanonicalGasParameters {
    /// Every cost in this table is zero.
    pub open spec fn is_zero(&self) -> bool {
        self.base_cost == 0
        && self.is_canonical_cost == 0
    }
}

#[derive(Debug, Clone)]
pub struct PointIdentityGasParameters {
    pub base_cost: u64,
}

impl PointIdentityGasParameters {
    /// Every cost in this table is zero.
    pub open spec fn is_zero(&self) -> bool {
        self.base_cost == 0
    }
}

#[derive(Debug, Clone)]
pub struct PointDecompressGasParameters {
    pub base_cost: u64,
    pub decompress_cost: u64,
}

impl PointDecompressGasParameters {
    /// Every cost in this table is zero.
    pub open spec fn is_zero(&self) -> bool {
        self.base_cost == 0
        && self.decompress_cost == 0
    }
}

#[derive(Debug, Clone)]
pub struct PointCompressGasParameters {
    pub base_cost: u64,
}

impl PointCompressGasParameters {
    /// Every cost in this table is zero.
    pub open spec fn is_zero(&self) -> bool {
        self.base_cost == 0
    }
}

#[derive(Debug, Clone)]
pub struct PointMulGasParameters {
    pub base_cost: u64,
}

impl PointMulGasParameters {
    /// Every cost in this table is zero.
    pub open spec fn is_zero(&self) -> bool {
        self.base_cost == 0
    }
}

#[derive(Debug, Clone)]
pub struct PointEqualsGasParameters {
    pub base_cost: u64,
}

impl PointEqualsGasParameters {
    /// Every cost in this table is zero.
    pub open spec fn is_zero(&self) -> bool {
        self.base_cost == 0
    }
}

#[derive(Debug, Clone)]
pub struct PointNegGasParameters {
    pub base_cost: u64,
}

impl PointNegGasParameters {
    /// Every cost in this table is zero.
    pub open spec fn is_zero(&self) -> bool {
        self.base_cost == 0
    }
}

#[derive(Debug, Clone)]
pub struct PointAddGasParameters {
    pub base_cost: u64,
}

impl PointAddGasParameters {
    /// Every cost in this table is zero.
    pub open spec fn is_zero(&self) -> bool {
        self.base_cost == 0
    }
}

#[derive(Debug, Clone)]
pub struct PointSubGasParameters {
    pub base_cost: u64,
}

impl PointSubGasParameters {
    /// Every cost in this table is zero.
    pub open spec fn is_zero(&self) -> bool {
        self.base_cost == 0
    }
}

#[derive(Debug, Clone)]
pub struct ScalarIsCanonicalGasParameters {
    pub base_cost: u64,
    pub per_scalar_deserialize_cost: u64,
}

impl ScalarIsCanonicalGasParameters {
    /// Every cost in this table is zero.
    pub open spec fn is_zero(&self) -> bool {
        self.base_cost == 0
        && self.per_scalar_deserialize_cost == 0
    }
}

#[derive(Debug, Clone)]
pub struct ScalarInvertGasParameters {
    pub base_cost: u64,
    pub per_scalar_invert_cost: u64,
}

impl ScalarInvertGasParameters {
    /// Every cost in this table is zero.
    pub open spec fn is_zero(&self) -> bool {
        self.base_cost == 0
        && self.per_scalar_invert_cost == 0
    }
}

#[derive(Debug, Clone)]
pub struct ScalarFromSha512GasParameters {
    pub base_cost: u64,
    pub per_hash_sha512_cost: u64,
    pub per_byte_sha512_cost: u64,
}

impl ScalarFromSha512GasParameters {
    /// Every cost in this table is zero.
    pub open spec fn is_zero(&self) -> bool {
        self.base_cost == 0
        && self.per_hash_sha512_cost == 0
        && self.per_byte_sha512_cost == 0
    }
}

#[derive(Debug, Clone)]
pub struct ScalarMulGasParameters {
    pub base_cost: u64,
    pub mul_cost: u64,
}

impl ScalarMulGasParameters {
    /// Every cost in this table is zero.
    pub open spec fn is_zero(&self) -> bool {
        self.base_cost == 0
        && self.mul_cost == 0
    }
}

#[derive(Debug, Clone)]
pub struct ScalarAddGasParameters {
    pub base_cost: u64,
    pub add_cost: u64,
}

impl ScalarAddGasParameters {
    /// Every cost in this table is zero.
    pub open spec fn is_zero(&self) -> bool {
        self.base_cost == 0
        && self.add_cost == 0
    }
}

#[derive(Debug, Clone)]
pub struct ScalarSubGasParameters {
    pub base_cost: u64,
    pub sub_cost: u64,
}

impl ScalarSubGasParameters {
    /// Every cost in this table is zero.
    pub open spec fn is_zero(&self) -> bool {
        self.base_cost == 0
        && self.sub_cost == 0
    }
}

#[derive(Debug, Clone)]
pub struct ScalarNegGasParameters {
    pub base_cost: u64,
    pub neg_cost: u64,
}

impl ScalarNegGasParameters {
    /// Every cost in this table is zero.
    pub open spec fn is_zero(&self) -> bool {
        self.base_cost == 0
        && self.neg_cost == 0
    }
}

#[derive(Debug, Clone)]
pub struct ScalarFromU64GasParameters {
    pub base_cost: u64,
    pub from_u64_cost: u64,
}

impl ScalarFromU64GasParameters {
    /// Every cost in this table is zero.
    pub open spec fn is_zero(&self) -> bool {
        self.base_cost == 0
        && self.from_u64_cost == 0
    }
}

#[derive(Debug, Clone)]
pub struct ScalarFromU128GasParameters {
    pub base_cost: u64,
    pub from_u128_cost: u64,
}

impl ScalarFromU128GasParameters {
    /// Every cost in this table is zero.
    pub open spec fn is_zero(&self) -> bool {
        self.base_cost == 0
        && self.from_u128_cost == 0
    }
}

#[derive(Debug, Clone)]
pub struct ScalarFrom256BitsGasParameters {
    pub base_cost: u64,
    pub from_256_bits_cost: u64,
}

impl ScalarFrom256BitsGasParameters {
    /// Every cost in this table is zero.
    pub open spec fn is_zero(&self) -> bool {
        self.base_cost == 0
        && self.from_256_bits_cost == 0
    }
}

#[derive(Debug, Clone)]
pub struct ScalarFrom512BitsGasParameters {
    pub base_cost: u64,
    pub from_512_bits_cost: u64,
}

impl ScalarFrom512BitsGasParameters {
    /// Every cost in this table is zero.
    pub open spec fn is_zero(&self) -> bool {
        self.base_cost == 0
        && self.from_512_bits_cost == 0
    }
}

#[derive(Debug, Clone)]
pub struct Ed25519ValidatePubkeyGasParameters {
    pub base_cost: u64,
    pub per_pubkey_deserialize_cost: u64,
    pub per_pubkey_small_order_check_cost: u64,
}

impl Ed25519ValidatePubkeyGasParameters {
    /// Every cost in this table is zero.
    pub open spec fn is_zero(&self) -> bool {
        self.base_cost == 0
        && self.per_pubkey_deserialize_cost == 0
        && self.per_pubkey_small_order_check_cost == 0
    }
}

#[derive(Debug, Clone)]
pub struct Ed25519VerifyGasParameters {
    pub base_cost: u64,
    pub per_pubkey_deserialize_cost: u64,
    pub per_sig_deserialize_cost: u64,
    pub per_sig_strict_verify_cost: u64,
    pub per_msg_hashing_base_cost: u64,
    pub per_msg_byte_hashing_cost: u64,
}

impl Ed25519VerifyGasParameters {
    /// Every cost in this table is zero.
    pub open spec fn is_zero(&self) -> bool {
        self.base_cost == 0
        && self.per_pubkey_deserialize_cost == 0
        && self.per_sig_deserialize_cost == 0
        && self.per_sig_strict_verify_cost == 0
        && self.per_msg_hashing_base_cost == 0
        && self.per_msg_byte_hashing_cost == 0
    }
}

#[derive(Debug, Clone)]
pub struct Secp256k1ECDSARecoverGasParameters {
    pub base_cost: u64,
}

impl Secp256k1ECDSARecoverGasParameters {
    /// Every cost in this table is zero.
    pub open spec fn is_zero(&self) -> bool {
        self.base_cost == 0
    }
}

#[derive(Debug, Clone)]
pub struct SipHashGasParameters {
    pub base_cost: u64,
    pub unit_cost: u64,
}

impl SipHashGasParameters {
    /// Every cost in this table is zero.
    pub open spec fn is_zero(&self) -> bool {
        self.base_cost == 0
        && self.unit_cost == 0
    }
}

#[derive(Debug, Clone)]
pub struct TypeOfGasParameters {
    pub base_cost: u64,
    pub unit_cost: u64,
}

impl TypeOfGasParameters {
    /// Every cost in this table is zero.
    pub open spec fn is_zero(&self) -> bool {
        self.base_cost == 0
        && self.unit_cost == 0
    }
}

#[derive(Debug, Clone)]
pub struct TypeNameGasParameters {
    pub base_cost: u64,
    pub unit_cost: u64,
}

impl TypeNameGasParameters {
    /// Every cost in this table is zero.
    pub open spec fn is_zero(&self) -> bool {
        self.base_cost == 0
        && self.unit_cost == 0
    }
}

#[derive(Debug, Clone)]
pub struct FromBytesGasParameters {
    pub base_cost: u64,
    pub unit_cost: u64,
}

impl FromBytesGasParameters {
    /// Every cost in this table is zero.
    pub open spec fn is_zero(&self) -> bool {
        self.base_cost == 0
        && self.unit_cost == 0
    }
}

#[derive(Debug, Clone)]
pub struct GetScriptHashGasParameters {
    pub base_cost: u64,
}

impl GetScriptHashGasParameters {
    /// Every cost in this table is zero.
    pub open spec fn is_zero(&self) -> bool {
        self.base_cost == 0
    }
}

#[derive(Debug, Clone)]
pub struct RequestPublishGasParameters {
    pub base_cost: u64,
    pub unit_cost: u64,
}

impl RequestPublishGasParameters {
    /// Every cost in this table is zero.
    pub open spec fn is_zero(&self) -> bool {
        self.base_cost == 0
        && self.unit_cost == 0
    }
}

#[derive(Debug, Clone)]
pub struct WriteToEventStoreGasParameters {
    pub unit_cost: u64,
}

impl WriteToEventStoreGasParameters {
    /// Every cost in this table is zero.
    pub open spec fn is_zero(&self) -> bool {
        self.unit_cost == 0
    }
}

#[derive(Debug, Clone)]
pub struct AccountGasParameters {
    pub create_address: CreateAddressGasParameters,
    pub create_signer: CreateSignerGasParameters,
}

impl AccountGasParameters {
    /// Every cost in this table is zero.
    pub open spec fn is_zero(&self) -> bool {
        self.create_address.is_zero()
        && self.create_signer.is_zero()
    }
}

#[derive(Debug, Clone)]
pub struct BitVectorGasParameters {
    pub little_endian_bitvector_from_byte_vector: LittleEndianBitVectorFromByteVectorGasParams,
    pub big_endian_bitvector_from_byte_vector: BigEndianBitVectorFromByteVectorGasParams,
}

impl BitVectorGasParameters {
    /// Every cost in this table is zero.
    pub open spec fn is_zero(&self) -> bool {
        self.little_endian_bitvector_from_byte_vector.is_zero()
        && self.big_endian_bitvector_from_byte_vector.is_zero()
    }
}

#[derive(Debug, Clone)]
pub struct Ristretto255GasParameters {
    pub point_is_canonical: PointIsCanonicalGasParameters,
    pub point_identity: PointIdentityGasParameters,
    pub point_decompress: PointDecompressGasParameters,
    pub point_compress: PointCompressGasParameters,
    pub point_mul: PointMulGasParameters,
    pub point_equals: PointEqualsGasParameters,
    pub point_neg: PointNegGasParameters,
    pub point_add: PointAddGasParameters,
    pub point_sub: PointSubGasParameters,
    pub scalar_is_canonical: ScalarIsCanonicalGasParameters,
    pub scalar_invert: ScalarInvertGasParameters,
    pub scalar_from_sha512: ScalarFromSha512GasParameters,
    pub scalar_mul: ScalarMulGasParameters,
    pub scalar_add: ScalarAddGasParameters,
    pub scalar_sub: ScalarSubGasParameters,
    pub scalar_neg: ScalarNegGasParameters,
    pub scalar_from_u64: ScalarFromU64GasParameters,
    pub scalar_from_u128: ScalarFromU128GasParameters,
    pub scalar_from_256_bits: ScalarFrom256BitsGasParameters,
    pub scalar_from_512_bits: ScalarFrom512BitsGasParameters,
}

impl Ristretto255GasParameters {
    /// Every cost in this table is zero.
    pub open spec fn is_zero(&self) -> bool {
        self.point_is_canonical.is_zero()
        && self.point_identity.is_zero()
        && self.point_decompress.is_zero()
        && self.point_compress.is_zero()
        && self.point_mul.is_zero()
        && self.point_equals.is_zero()
        && self.point_neg.is_zero()
        && self.point_add.is_zero()
        && self.point_sub.is_zero()
        && self.scalar_is_canonical.is_zero()
        && self.scalar_invert.is_zero()
        && self.scalar_from_sha512.is_zero()
        && self.scalar_mul.is_zero()
        && self.scalar_add.is_zero()
        && self.scalar_sub.is_zero()
        && self.scalar_neg.is_zero()
        && self.scalar_from_u64.is_zero()
        && self.scalar_from_u128.is_zero()
        && self.scalar_from_256_bits.is_zero()
        && self.scalar_from_512_bits.is_zero()
    }
}

#[derive(Debug, Clone)]
pub struct SignatureGasParameters {
    pub ed25519_validate_pubkey: Ed25519ValidatePubkeyGasParameters,
    pub ed25519_verify: Ed25519VerifyGasParameters,
    pub secp256k1_ecdsa_recover: Secp256k1ECDSARecoverGasParameters,
}

impl SignatureGasParameters {
    /// Every cost in this table is zero.
    pub open spec fn is_zero(&self) -> bool {
        self.ed25519_validate_pubkey.is_zero()
        && self.ed25519_verify.is_zero()
        && self.secp256k1_ecdsa_recover.is_zero()
    }
}

#[derive(Debug, Clone)]
pub struct HashGasParameters {
    pub sip_hash: SipHashGasParameters,
}

impl HashGasParameters {
    /// Every cost in this table is zero.
    pub open spec fn is_zero(&self) -> bool {
        self.sip_hash.is_zero()
    }
}

#[derive(Debug, Clone)]
pub struct TypeInfoGasParameters {
    pub type_of: TypeOfGasParameters,
    pub name_of_type: TypeNameGasParameters,
}

impl TypeInfoGasParameters {
    /// Every cost in this table is zero.
    pub open spec fn is_zero(&self) -> bool {
        self.type_of.is_zero()
        && self.name_of_type.is_zero()
    }
}

#[derive(Debug, Clone)]
pub struct UtilGasParameters {
    pub from_bytes: FromBytesGasParameters,
}

impl UtilGasParameters {
    /// Every cost in this table is zero.
    pub open spec fn is_zero(&self) -> bool {
        self.from_bytes.is_zero()
    }
}

#[derive(Debug, Clone)]
pub struct TransactionContextGasParameters {
    pub get_script_hash: GetScriptHashGasParameters,
}

impl TransactionContextGasParameters {
    /// Every cost in this table is zero.
    pub open spec fn is_zero(&self) -> bool {
        self.get_script_hash.is_zero()
    }
}

#[derive(Debug, Clone)]
pub struct CodeGasParameters {
    pub request_publish: RequestPublishGasParameters,
}

impl CodeGasParameters {
    /// Every cost in this table is zero.
    pub open spec fn is_zero(&self) -> bool {
        self.request_publish.is_zero()
    }
}

#[derive(Debug, Clone)]
pub struct EventGasParameters {
    pub write_to_event_store: WriteToEventStoreGasParameters,
}

impl EventGasParameters {
    /// Every cost in this table is zero.
    pub open spec fn is_zero(&self) -> bool {
        self.write_to_event_store.is_zero()
    }
}

#[derive(Debug, Clone)]
pub struct GasParameters {
    pub account: AccountGasParameters,
    pub bit_vector: BitVectorGasParameters,
    pub signature: SignatureGasParameters,
    pub bls12381: Bls12381GasParameters,
    pub ristretto255: Ristretto255GasParameters,
    pub hash: HashGasParameters,
    pub type_info: TypeInfoGasParameters,
    pub util: UtilGasParameters,
    pub transaction_context: TransactionContextGasParameters,
    pub code: CodeGasParameters,
    pub event: EventGasParameters,
}

impl GasParameters {
    /// Every cost in this table is zero.
    pub open spec fn is_zero(&self) -> bool {
        self.account.is_zero()
        && self.bit_vector.is_zero()
        && self.signature.is_zero()
        && self.bls12381.is_zero()
        && self.ristretto255.is_zero()
        && self.hash.is_zero()
        && self.type_info.is_zero()
        && self.util.is_zero()
        && self.transaction_context.is_zero()
        && self.code.is_zero()
        && self.event.is_zero()
    }
}

impl GasParameters {
    /// A table in which every native function costs nothing.
    pub fn zeros() -> (r: Self)
        ensures
            r.is_zero(),
    {
        GasParameters {
            account: AccountGasParameters {
                create_address: CreateAddressGasParameters { base_cost: 0 },
                create_signer: CreateSignerGasParameters { base_cost: 0 },
            },
            bit_vector: BitVectorGasParameters {
                little_endian_bitvector_from_byte_vector: LittleEndianBitVectorFromByteVectorGasParams { base_cost: 0, per_byte_cost: 0 },
                big_endian_bitvector_from_byte_vector: BigEndianBitVectorFromByteVectorGasParams { base_cost: 0, per_byte_cost: 0 },
            },
            signature: SignatureGasParameters {
                ed25519_validate_pubkey: Ed25519ValidatePubkeyGasParameters { base_cost: 0, per_pubkey_deserialize_cost: 0, per_pubkey_small_order_check_cost: 0 },
                ed25519_verify: Ed25519VerifyGasParameters { base_cost: 0, per_pubkey_deserialize_cost: 0, per_sig_deserialize_cost: 0, per_sig_strict_verify_cost: 0, per_msg_hashing_base_cost: 0, per_msg_byte_hashing_cost: 0 },
                secp256k1_ecdsa_recover: Secp256k1ECDSARecoverGasParameters { base_cost: 0 },
            },
            bls12381: Bls12381GasParameters { base_cost: 0, per_pubkey_deserialize_cost: 0, per_pubkey_aggregate_cost: 0, per_pubkey_subgroup_check_cost: 0, per_sig_deserialize_cost: 0, per_sig_aggregate_cost: 0, per_sig_subgroup_check_cost: 0, per_sig_verify_cost: 0, per_pop_verify_cost: 0, per_pairing_cost: 0, per_msg_hashing_cost: 0, per_byte_hashing_cost: 0 },
            ristretto255: Ristretto255GasParameters {
                point_is_canonical: PointIsCanonicalGasParameters { base_cost: 0, is_canonical_cost: 0 },
                point_identity: PointIdentityGasParameters { base_cost: 0 },
                point_decompress: PointDecompressGasParameters { base_cost: 0, decompress_cost: 0 },
                point_compress: PointCompressGasParameters { base_cost: 0 },
                point_mul: PointMulGasParameters { base_cost: 0 },
                point_equals: PointEqualsGasParameters { base_cost: 0 },
                point_neg: PointNegGasParameters { base_cost: 0 },
                point_add: PointAddGasParameters { base_cost: 0 },
                point_sub: PointSubGasParameters { base_cost: 0 },
                scalar_is_canonical: ScalarIsCanonicalGasParameters { base_cost: 0, per_scalar_deserialize_cost: 0 },
                scalar_invert: ScalarInvertGasParameters { base_cost: 0, per_scalar_invert_cost: 0 },
                scalar_from_sha512: ScalarFromSha512GasParameters { base_cost: 0, per_hash_sha512_cost: 0, per_byte_sha512_cost: 0 },
                scalar_mul: ScalarMulGasParameters { base_cost: 0, mul_cost: 0 },
                scalar_add: ScalarAddGasParameters { base_cost: 0, add_cost: 0 },
                scalar_sub: ScalarSubGasParameters { base_cost: 0, sub_cost: 0 },
                scalar_neg: ScalarNegGasParameters { base_cost: 0, neg_cost: 0 },
                scalar_from_u64: ScalarFromU64GasParameters { base_cost: 0, from_u64_cost: 0 },
                scalar_from_u128: ScalarFromU128GasParameters { base_cost: 0, from_u128_cost: 0 },
                scalar_from_256_bits: ScalarFrom256BitsGasParameters { base_cost: 0, from_256_bits_cost: 0 },
                scalar_from_512_bits: ScalarFrom512BitsGasParameters { base_cost: 0, from_512_bits_cost: 0 },
            },
            hash: HashGasParameters {
                sip_hash: SipHashGasParameters { base_cost: 0, unit_cost: 0 },
            },
            type_info: TypeInfoGasParameters {
                type_of: TypeOfGasParameters { base_cost: 0, unit_cost: 0 },
                name_of_type: TypeNameGasParameters { base_cost: 0, unit_cost: 0 },
            },
            util: UtilGasParameters {
                from_bytes: FromBytesGasParameters { base_cost: 0, unit_cost: 0 },
            },
            transaction_context: TransactionContextGasParameters {
                get_script_hash: GetScriptHashGasParameters { base_cost: 0 },
            },
            code: CodeGasParameters {
                request_publish: RequestPublishGasParameters { base_cost: 0, unit_cost: 0 },
            },
            event: EventGasParameters {
                write_to_event_store: WriteToEventStoreGasParameters { unit_cost: 0 },
            },
        }
    }
}

} // verus!
