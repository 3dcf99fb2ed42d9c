//! Status codes and other numeric constants of the GlobalPlatform TEE
//! Internal Core API, as OP-TEE defines them.

use vstd::prelude::*;

verus! {

pub const TEE_SUCCESS: u32 = 0x0000_0000;
pub const TEE_ERROR_CORRUPT_OBJECT: u32 = 0xF010_0001;
pub const TEE_ERROR_CORRUPT_OBJECT_2: u32 = 0xF010_0002;
pub const TEE_ERROR_STORAGE_NOT_AVAILABLE: u32 = 0xF010_0003;
pub const TEE_ERROR_STORAGE_NOT_AVAILABLE_2: u32 = 0xF010_0004;
pub const TEE_ERROR_GENERIC: u32 = 0xFFFF_0000;
pub const TEE_ERROR_ACCESS_DENIED: u32 = 0xFFFF_0001;
pub const TEE_ERROR_CANCEL: u32 = 0xFFFF_0002;
pub const TEE_ERROR_ACCESS_CONFLICT: u32 = 0xFFFF_0003;
pub const TEE_ERROR_EXCESS_DATA: u32 = 0xFFFF_0004;
pub const TEE_ERROR_BAD_FORMAT: u32 = 0xFFFF_0005;
pub const TEE_ERROR_BAD_PARAMETERS: u32 = 0xFFFF_0006;
pub const TEE_ERROR_BAD_STATE: u32 = 0xFFFF_0007;
pub const TEE_ERROR_ITEM_NOT_FOUND: u32 = 0xFFFF_0008;
pub const TEE_ERROR_NOT_IMPLEMENTED: u32 = 0xFFFF_0009;
pub const TEE_ERROR_NOT_SUPPORTED: u32 = 0xFFFF_000A;
pub const TEE_ERROR_NO_DATA: u32 = 0xFFFF_000B;
pub const TEE_ERROR_OUT_OF_MEMORY: u32 = 0xFFFF_000C;
pub const TEE_ERROR_BUSY: u32 = 0xFFFF_000D;
pub const TEE_ERROR_COMMUNICATION: u32 = 0xFFFF_000E;
pub const TEE_ERROR_SECURITY: u32 = 0xFFFF_000F;
pub const TEE_ERROR_SHORT_BUFFER: u32 = 0xFFFF_0010;
pub const TEE_ERROR_EXTERNAL_CANCEL: u32 = 0xFFFF_0011;
pub const TEE_ERROR_OVERFLOW: u32 = 0xFFFF_300F;
pub const TEE_ERROR_TARGET_DEAD: u32 = 0xFFFF_3024;
pub const TEE_ERROR_STORAGE_NO_SPACE: u32 = 0xFFFF_3041;
pub const TEE_ERROR_MAC_INVALID: u32 = 0xFFFF_3071;
pub const TEE_ERROR_SIGNATURE_INVALID: u32 = 0xFFFF_3072;
pub const TEE_ERROR_TIME_NOT_SET: u32 = 0xFFFF_5000;
pub const TEE_ERROR_TIME_NEEDS_RESET: u32 = 0xFFFF_5001;

pub const TEE_ORIGIN_API: u32 = 0x0000_0001;
pub const TEE_ORIGIN_COMMS: u32 = 0x0000_0002;
pub const TEE_ORIGIN_TEE: u32 = 0x0000_0003;
pub const TEE_ORIGIN_TRUSTED_APP: u32 = 0x0000_0004;

pub const TEE_LOGIN_PUBLIC: u32 = 0x0000_0000;
pub const TEE_LOGIN_USER: u32 = 0x0000_0001;
pub const TEE_LOGIN_GROUP: u32 = 0x0000_0002;
pub const TEE_LOGIN_APPLICATION: u32 = 0x0000_0004;
pub const TEE_LOGIN_APPLICATION_USER: u32 = 0x0000_0005;
pub const TEE_LOGIN_APPLICATION_GROUP: u32 = 0x0000_0006;
pub const TEE_LOGIN_TRUSTED_APP: u32 = 0xF000_0000;

/// The timeout that makes a call wait for ever.
pub const TEE_TIMEOUT_INFINITE: u32 = 0xFFFF_FFFF;

pub const TEE_ISOCKET_ERROR_PROTOCOL: u32 = 0xF100_7001;
pub const TEE_ISOCKET_ERROR_REMOTE_CLOSED: u32 = 0xF100_7002;
pub const TEE_ISOCKET_ERROR_TIMEOUT: u32 = 0xF100_7003;
pub const TEE_ISOCKET_ERROR_OUT_OF_RESOURCES: u32 = 0xF100_7004;
pub const TEE_ISOCKET_ERROR_LARGE_BUFFER: u32 = 0xF100_7005;
pub const TEE_ISOCKET_WARNING_PROTOCOL: u32 = 0xF100_7006;
pub const TEE_ISOCKET_ERROR_HOSTNAME: u32 = 0xF100_7007;

pub const TA_FLAG_SINGLE_INSTANCE: u32 = 4;
pub const TA_FLAG_MULTI_SESSION: u32 = 8;
pub const TA_FLAG_INSTANCE_KEEP_ALIVE: u32 = 16;

/// The algorithm identifiers of the cryptographic operations.
pub const TEE_ALG_AES_ECB_NOPAD: u32 = 0x1000_0010;
pub const TEE_ALG_AES_CBC_NOPAD: u32 = 0x1000_0110;
pub const TEE_ALG_AES_CTR: u32 = 0x1000_0210;
pub const TEE_ALG_AES_CTS: u32 = 0x1000_0310;
pub const TEE_ALG_AES_XTS: u32 = 0x1000_0410;
pub const TEE_ALG_AES_CBC_MAC_NOPAD: u32 = 0x3000_0110;
pub const TEE_ALG_AES_CBC_MAC_PKCS5: u32 = 0x3000_0510;
pub const TEE_ALG_AES_CMAC: u32 = 0x3000_0610;
pub const TEE_ALG_AES_CCM: u32 = 0x4000_0710;
pub const TEE_ALG_AES_GCM: u32 = 0x4000_0810;
pub const TEE_ALG_DES_ECB_NOPAD: u32 = 0x1000_0011;
pub const TEE_ALG_DES_CBC_NOPAD: u32 = 0x1000_0111;
pub const TEE_ALG_DES_CBC_MAC_NOPAD: u32 = 0x3000_0111;
pub const TEE_ALG_DES_CBC_MAC_PKCS5: u32 = 0x3000_0511;
pub const TEE_ALG_DES3_ECB_NOPAD: u32 = 0x1000_0013;
pub const TEE_ALG_DES3_CBC_NOPAD: u32 = 0x1000_0113;
pub const TEE_ALG_DES3_CBC_MAC_NOPAD: u32 = 0x3000_0113;
pub const TEE_ALG_DES3_CBC_MAC_PKCS5: u32 = 0x3000_0513;
pub const TEE_ALG_RSASSA_PKCS1_V1_5: u32 = 0xF000_0830;
pub const TEE_ALG_RSASSA_PKCS1_V1_5_MD5: u32 = 0x7000_1830;
pub const TEE_ALG_RSASSA_PKCS1_V1_5_SHA1: u32 = 0x7000_2830;
pub const TEE_ALG_RSASSA_PKCS1_V1_5_SHA224: u32 = 0x7000_3830;
pub const TEE_ALG_RSASSA_PKCS1_V1_5_SHA256: u32 = 0x7000_4830;
pub const TEE_ALG_RSASSA_PKCS1_V1_5_SHA384: u32 = 0x7000_5830;
pub const TEE_ALG_RSASSA_PKCS1_V1_5_SHA512: u32 = 0x7000_6830;
pub const TEE_ALG_RSASSA_PKCS1_V1_5_MD5SHA1: u32 = 0x7000_F830;
pub const TEE_ALG_RSASSA_PKCS1_PSS_MGF1_MD5: u32 = 0xF011_1930;
pub const TEE_ALG_RSASSA_PKCS1_PSS_MGF1_SHA1: u32 = 0x7021_2930;
pub const TEE_ALG_RSASSA_PKCS1_PSS_MGF1_SHA224: u32 = 0x7031_3930;
pub const TEE_ALG_RSASSA_PKCS1_PSS_MGF1_SHA256: u32 = 0x7041_4930;
pub const TEE_ALG_RSASSA_PKCS1_PSS_MGF1_SHA384: u32 = 0x7051_5930;
pub const TEE_ALG_RSASSA_PKCS1_PSS_MGF1_SHA512: u32 = 0x7061_6930;
pub const TEE_ALG_RSAES_PKCS1_V1_5: u32 = 0x6000_0130;
pub const TEE_ALG_RSAES_PKCS1_OAEP_MGF1_MD5: u32 = 0xF011_0230;
pub const TEE_ALG_RSAES_PKCS1_OAEP_MGF1_SHA1: u32 = 0x6021_0230;
pub const TEE_ALG_RSAES_PKCS1_OAEP_MGF1_SHA224: u32 = 0x6031_0230;
pub const TEE_ALG_RSAES_PKCS1_OAEP_MGF1_SHA256: u32 = 0x6041_0230;
pub const TEE_ALG_RSAES_PKCS1_OAEP_MGF1_SHA384: u32 = 0x6051_0230;
pub const TEE_ALG_RSAES_PKCS1_OAEP_MGF1_SHA512: u32 = 0x6061_0230;
pub const TEE_ALG_RSA_NOPAD: u32 = 0x6000_0030;
pub const TEE_ALG_DSA_SHA1: u32 = 0x7000_2131;
pub const TEE_ALG_DSA_SHA224: u32 = 0x7000_3131;
pub const TEE_ALG_DSA_SHA256: u32 = 0x7000_4131;
pub const TEE_ALG_DH_DERIVE_SHARED_SECRET: u32 = 0x8000_0032;
pub const TEE_ALG_ECDH_DERIVE_SHARED_SECRET: u32 = 0x8000_0042;
pub const TEE_ALG_ECDSA_SHA1: u32 = 0x7000_1042;
pub const TEE_ALG_ECDSA_SHA224: u32 = 0x7000_2042;
pub const TEE_ALG_ECDSA_SHA256: u32 = 0x7000_3042;
pub const TEE_ALG_ECDSA_SHA384: u32 = 0x7000_4042;
pub const TEE_ALG_ECDSA_SHA512: u32 = 0x7000_5042;
pub const TEE_ALG_ED25519: u32 = 0x7000_6043;
pub const TEE_ALG_X25519: u32 = 0x8000_0044;
pub const TEE_ALG_MD5: u32 = 0x5000_0001;
pub const TEE_ALG_SHA1: u32 = 0x5000_0002;
pub const TEE_ALG_SHA224: u32 = 0x5000_0003;
pub const TEE_ALG_SHA256: u32 = 0x5000_0004;
pub const TEE_ALG_SHA384: u32 = 0x5000_0005;
pub const TEE_ALG_SHA512: u32 = 0x5000_0006;
pub const TEE_ALG_MD5SHA1: u32 = 0x5000_000F;
pub const TEE_ALG_HMAC_MD5: u32 = 0x3000_0001;
pub const TEE_ALG_HMAC_SHA1: u32 = 0x3000_0002;
pub const TEE_ALG_HMAC_SHA224: u32 = 0x3000_0003;
pub const TEE_ALG_HMAC_SHA256: u32 = 0x3000_0004;
pub const TEE_ALG_HMAC_SHA384: u32 = 0x3000_0005;
pub const TEE_ALG_HMAC_SHA512: u32 = 0x3000_0006;
pub const TEE_ALG_ILLEGAL_VALUE: u32 = 0xEFFF_FFFF;

} // verus!
