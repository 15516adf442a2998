//! The symmetric definition of an object: which cipher, if any, wraps key
//! material, with what key size and in what mode.
//!
//! The module knows a definition as three 16-bit numbers. Every definition has
//! exactly one such form, and reading that form gives the definition back.
use vstd::prelude::*;
use crate::error::{Error, WrapperErrorKind};

verus! {

/// The module's numbers for the block ciphers and for "none".
pub const TPM2_ALG_AES: u16 = 0x0006;

pub const TPM2_ALG_NULL: u16 = 0x0010;

pub const TPM2_ALG_SM4: u16 = 0x0013;

pub const TPM2_ALG_CAMELLIA: u16 = 0x0026;

/// The module's numbers for the modes of operation.
pub const TPM2_ALG_CTR: u16 = 0x0040;

pub const TPM2_ALG_OFB: u16 = 0x0041;

pub const TPM2_ALG_CBC: u16 = 0x0042;

pub const TPM2_ALG_CFB: u16 = 0x0043;

pub const TPM2_ALG_ECB: u16 = 0x0044;

/// The mode in which a block cipher is run.
#[derive(Clone, Copy, Debug, PartialEq, Eq, Hash, Structural)]
pub enum SymmetricMode {
    Ctr,
    Ofb,
    Cbc,
    Cfb,
    Ecb,
    Null,
}

/// The key sizes of AES.
#[derive(Clone, Copy, Debug, PartialEq, Eq, Hash, Structural)]
pub enum AesKeyBits {
    Aes128,
    Aes192,
    Aes256,
}

/// The key size of SM4.
#[derive(Clone, Copy, Debug, PartialEq, Eq, Hash, Structural)]
pub enum Sm4KeyBits {
    Sm4128,
}

/// The key sizes of Camellia.
#[derive(Clone, Copy, Debug, PartialEq, Eq, Hash, Structural)]
pub enum CamelliaKeyBits {
    Camellia128,
    Camellia192,
    Camellia256,
}

/// The inner symmetric wrapper of duplicated key material: none, or a cipher
/// with its key size and mode.
#[derive(Clone, Copy, Debug, PartialEq, Eq, Hash, Structural)]
#[allow(inconsistent_fields)]
pub enum SymmetricDefinitionObject {
    Aes { key_bits: AesKeyBits, mode: SymmetricMode },
    Sm4 { key_bits: Sm4KeyBits, mode: SymmetricMode },
    Camellia { key_bits: CamelliaKeyBits, mode: SymmetricMode },
    /// No inner wrapper.
    Null,
}

/// The module's shape of a symmetric definition.
#[derive(Clone, Copy, Debug, PartialEq, Eq, Hash, Structural)]
pub struct NativeSymmetricDefinition {
    pub algorithm: u16,
    pub key_bits: u16,
    pub mode: u16,
}

impl SymmetricMode {
    /// The module's number for the mode.
    pub open spec fn spec_id(self) -> u16 {
        match self {
            SymmetricMode::Ctr => TPM2_ALG_CTR,
            SymmetricMode::Ofb => TPM2_ALG_OFB,
            SymmetricMode::Cbc => TPM2_ALG_CBC,
            SymmetricMode::Cfb => TPM2_ALG_CFB,
            SymmetricMode::Ecb => TPM2_ALG_ECB,
            SymmetricMode::Null => TPM2_ALG_NULL,
        }
    }

    /// The module's number for the mode.
    #[verifier::when_used_as_spec(spec_id)]
    pub fn id(self) -> (id: u16)
        ensures
            id == self.spec_id(),
    {
        match self {
            SymmetricMode::Ctr => TPM2_ALG_CTR,
            SymmetricMode::Ofb => TPM2_ALG_OFB,
            SymmetricMode::Cbc => TPM2_ALG_CBC,
            SymmetricMode::Cfb => TPM2_ALG_CFB,
            SymmetricMode::Ecb => TPM2_ALG_ECB,
            SymmetricMode::Null => TPM2_ALG_NULL,
        }
    }

    /// The mode with the given number, if there is one.
    pub open spec fn spec_from_id(id: u16) -> Option<SymmetricMode> {
        if id == TPM2_ALG_CTR {
            Some(SymmetricMode::Ctr)
        } else if id == TPM2_ALG_OFB {
            Some(SymmetricMode::Ofb)
        } else if id == TPM2_ALG_CBC {
            Some(SymmetricMode::Cbc)
        } else if id == TPM2_ALG_CFB {
            Some(SymmetricMode::Cfb)
        } else if id == TPM2_ALG_ECB {
            Some(SymmetricMode::Ecb)
        } else if id == TPM2_ALG_NULL {
            Some(SymmetricMode::Null)
        } else {
            None
        }
    }

    /// The mode with the given number, if there is one.
    #[verifier::when_used_as_spec(spec_from_id)]
    pub fn from_id(id: u16) -> (mode: Option<Self>)
        ensures
            mode == Self::spec_from_id(id),
            match mode {
                Some(mode) => mode.spec_id() == id,
                None => forall|other: SymmetricMode| other.spec_id() != id,
            },
    {
        if id == TPM2_ALG_CTR {
            Some(SymmetricMode::Ctr)
        } else if id == TPM2_ALG_OFB {
            Some(SymmetricMode::Ofb)
        } else if id == TPM2_ALG_CBC {
            Some(SymmetricMode::Cbc)
        } else if id == TPM2_ALG_CFB {
            Some(SymmetricMode::Cfb)
        } else if id == TPM2_ALG_ECB {
            Some(SymmetricMode::Ecb)
        } else if id == TPM2_ALG_NULL {
            Some(SymmetricMode::Null)
        } else {
            None
        }
    }
}

impl AesKeyBits {
    /// The key size in bits.
    pub open spec fn spec_bits(self) -> u16 {
        match self {
            AesKeyBits::Aes128 => 128,
            AesKeyBits::Aes192 => 192,
            AesKeyBits::Aes256 => 256,
        }
    }

    /// The key size in bits.
    #[verifier::when_used_as_spec(spec_bits)]
    pub fn bits(self) -> (bits: u16)
        ensures
            bits == self.spec_bits(),
    {
        match self {
            AesKeyBits::Aes128 => 128,
            AesKeyBits::Aes192 => 192,
            AesKeyBits::Aes256 => 256,
        }
    }

    /// The key size of that many bits, if AES has it.
    pub open spec fn spec_from_bits(bits: u16) -> Option<AesKeyBits> {
        if bits == 128 {
            Some(AesKeyBits::Aes128)
        } else if bits == 192 {
            Some(AesKeyBits::Aes192)
        } else if bits == 256 {
            Some(AesKeyBits::Aes256)
        } else {
            None
        }
    }

    /// The key size of that many bits, if AES has it.
    #[verifier::when_used_as_spec(spec_from_bits)]
    pub fn from_bits(bits: u16) -> (key_bits: Option<Self>)
        ensures
            key_bits == Self::spec_from_bits(bits),
            match key_bits {
                Some(key_bits) => key_bits.spec_bits() == bits,
                None => forall|other: AesKeyBits| other.spec_bits() != bits,
            },
    {
        if bits == 128 {
            Some(AesKeyBits::Aes128)
        } else if bits == 192 {
            Some(AesKeyBits::Aes192)
        } else if bits == 256 {
            Some(AesKeyBits::Aes256)
        } else {
            None
        }
    }
}

impl Sm4KeyBits {
    /// The key size in bits.
    pub open spec fn spec_bits(self) -> u16 {
        128
    }

    /// The key size in bits.
    #[verifier::when_used_as_spec(spec_bits)]
    pub fn bits(self) -> (bits: u16)
        ensures
            bits == self.spec_bits(),
    {
        128
    }

    /// The key size of that many bits, if SM4 has it.
    pub open spec fn spec_from_bits(bits: u16) -> Option<Sm4KeyBits> {
        if bits == 128 {
            Some(Sm4KeyBits::Sm4128)
        } else {
            None
        }
    }

    /// The key size of that many bits, if SM4 has it.
    #[verifier::when_used_as_spec(spec_from_bits)]
    pub fn from_bits(bits: u16) -> (key_bits: Option<Self>)
        ensures
            key_bits == Self::spec_from_bits(bits),
            match key_bits {
                Some(key_bits) => key_bits.spec_bits() == bits,
                None => forall|other: Sm4KeyBits| other.spec_bits() != bits,
            },
    {
        if bits == 128 {
            Some(Sm4KeyBits::Sm4128)
        } else {
            None
        }
    }
}

impl CamelliaKeyBits {
    /// The key size in bits.
    pub open spec fn spec_bits(self) -> u16 {
        match self {
            CamelliaKeyBits::Camellia128 => 128,
            CamelliaKeyBits::Camellia192 => 192,
            CamelliaKeyBits::Camellia256 => 256,
        }
    }

    /// The key size in bits.
    #[verifier::when_used_as_spec(spec_bits)]
    pub fn bits(self) -> (bits: u16)
        ensures
            bits == self.spec_bits(),
    {
        match self {
            CamelliaKeyBits::Camellia128 => 128,
            CamelliaKeyBits::Camellia192 => 192,
            CamelliaKeyBits::Camellia256 => 256,
        }
    }

    /// The key size of that many bits, if Camellia has it.
    pub open spec fn spec_from_bits(bits: u16) -> Option<CamelliaKeyBits> {
        if bits == 128 {
            Some(CamelliaKeyBits::Camellia128)
        } else if bits == 192 {
            Some(CamelliaKeyBits::Camellia192)
        } else if bits == 256 {
            Some(CamelliaKeyBits::Camellia256)
        } else {
            None
        }
    }

    /// The key size of that many bits, if Camellia has it.
    #[verifier::when_used_as_spec(spec_from_bits)]
    pub fn from_bits(bits: u16) -> (key_bits: Option<Self>)
        ensures
            key_bits == Self::spec_from_bits(bits),
            match key_bits {
                Some(key_bits) => key_bits.spec_bits() == bits,
                None => forall|other: CamelliaKeyBits| other.spec_bits() != bits,
            },
    {
        if bits == 128 {
            Some(CamelliaKeyBits::Camellia128)
        } else if bits == 192 {
            Some(CamelliaKeyBits::Camellia192)
        } else if bits == 256 {
            Some(CamelliaKeyBits::Camellia256)
        } else {
            None
        }
    }
}

impl NativeSymmetricDefinition {
    /// Whether this is a native form of `definition`. A cipher has one form,
    /// which names it, its key size and its mode. "None" is named by the
    /// algorithm alone: what the other two fields hold is not looked at.
    pub open spec fn denotes(self, definition: SymmetricDefinitionObject) -> bool {
        match definition {
            SymmetricDefinitionObject::Null => self.algorithm == TPM2_ALG_NULL,
            _ => self == definition.spec_to_native(),
        }
    }

    /// What reading this gives: a cipher with its key size and mode where all
    /// three numbers are known and go together, "none" where the algorithm is
    /// the module's number for none, and an error otherwise.
    pub open spec fn spec_decode(self) -> Result<SymmetricDefinitionObject, Error> {
        let mode = SymmetricMode::spec_from_id(self.mode);
        let invalid = Err::<SymmetricDefinitionObject, Error>(
            Error::WrapperError(WrapperErrorKind::InvalidParam),
        );
        if self.algorithm == TPM2_ALG_NULL {
            Ok(SymmetricDefinitionObject::Null)
        } else if self.algorithm == TPM2_ALG_AES {
            match (AesKeyBits::spec_from_bits(self.key_bits), mode) {
                (Some(key_bits), Some(mode)) => Ok(
                    SymmetricDefinitionObject::Aes { key_bits, mode },
                ),
                _ => invalid,
            }
        } else if self.algorithm == TPM2_ALG_SM4 {
            match (Sm4KeyBits::spec_from_bits(self.key_bits), mode) {
                (Some(key_bits), Some(mode)) => Ok(
                    SymmetricDefinitionObject::Sm4 { key_bits, mode },
                ),
                _ => invalid,
            }
        } else if self.algorithm == TPM2_ALG_CAMELLIA {
            match (CamelliaKeyBits::spec_from_bits(self.key_bits), mode) {
                (Some(key_bits), Some(mode)) => Ok(
                    SymmetricDefinitionObject::Camellia { key_bits, mode },
                ),
                _ => invalid,
            }
        } else {
            invalid
        }
    }
}

impl SymmetricDefinitionObject {
    /// The native form that the module is handed.
    pub open spec fn spec_to_native(self) -> NativeSymmetricDefinition {
        match self {
            SymmetricDefinitionObject::Aes { key_bits, mode } => NativeSymmetricDefinition {
                algorithm: TPM2_ALG_AES,
                key_bits: key_bits.spec_bits(),
                mode: mode.spec_id(),
            },
            SymmetricDefinitionObject::Sm4 { key_bits, mode } => NativeSymmetricDefinition {
                algorithm: TPM2_ALG_SM4,
                key_bits: key_bits.spec_bits(),
                mode: mode.spec_id(),
            },
            SymmetricDefinitionObject::Camellia { key_bits, mode } => NativeSymmetricDefinition {
                algorithm: TPM2_ALG_CAMELLIA,
                key_bits: key_bits.spec_bits(),
                mode: mode.spec_id(),
            },
            SymmetricDefinitionObject::Null => NativeSymmetricDefinition {
                algorithm: TPM2_ALG_NULL,
                key_bits: 0,
                mode: 0,
            },
        }
    }

    /// The native form, to hand to the module.
    #[verifier::when_used_as_spec(spec_to_native)]
    pub fn to_native(self) -> (native: NativeSymmetricDefinition)
        ensures
            native == self.spec_to_native(),
    {
        match self {
            SymmetricDefinitionObject::Aes { key_bits, mode } => NativeSymmetricDefinition {
                algorithm: TPM2_ALG_AES,
                key_bits: key_bits.bits(),
                mode: mode.id(),
            },
            SymmetricDefinitionObject::Sm4 { key_bits, mode } => NativeSymmetricDefinition {
                algorithm: TPM2_ALG_SM4,
                key_bits: key_bits.bits(),
                mode: mode.id(),
            },
            SymmetricDefinitionObject::Camellia { key_bits, mode } => NativeSymmetricDefinition {
                algorithm: TPM2_ALG_CAMELLIA,
                key_bits: key_bits.bits(),
                mode: mode.id(),
            },
            SymmetricDefinitionObject::Null => NativeSymmetricDefinition {
                algorithm: TPM2_ALG_NULL,
                key_bits: 0,
                mode: 0,
            },
        }
    }

    /// Reads a native value: the definition that it denotes, or
    /// [`WrapperErrorKind::InvalidParam`] where it names an unknown cipher,
    /// key size or mode.
    pub fn from_native(native: NativeSymmetricDefinition) -> (result: Result<Self, Error>)
        ensures
            result == native.spec_decode(),
            match result {
                Ok(definition) => native.denotes(definition),
                Err(error) => error == Error::WrapperError(WrapperErrorKind::InvalidParam)
                    && forall|definition: SymmetricDefinitionObject|
                        !#[trigger] native.denotes(definition),
            },
    {
        proof {
            lemma_symmetric_definition_read_is_inverse(native);
        }
        if native.algorithm == TPM2_ALG_NULL {
            return Ok(SymmetricDefinitionObject::Null);
        }
        let mode = match SymmetricMode::from_id(native.mode) {
            Some(mode) => mode,
            None => {
                return Err(Error::WrapperError(WrapperErrorKind::InvalidParam));
            },
        };
        if native.algorithm == TPM2_ALG_AES {
            match AesKeyBits::from_bits(native.key_bits) {
                Some(key_bits) => Ok(SymmetricDefinitionObject::Aes { key_bits, mode }),
                None => Err(Error::WrapperError(WrapperErrorKind::InvalidParam)),
            }
        } else if native.algorithm == TPM2_ALG_SM4 {
            match Sm4KeyBits::from_bits(native.key_bits) {
                Some(key_bits) => Ok(SymmetricDefinitionObject::Sm4 { key_bits, mode }),
                None => Err(Error::WrapperError(WrapperErrorKind::InvalidParam)),
            }
        } else if native.algorithm == TPM2_ALG_CAMELLIA {
            match CamelliaKeyBits::from_bits(native.key_bits) {
                Some(key_bits) => Ok(SymmetricDefinitionObject::Camellia { key_bits, mode }),
                None => Err(Error::WrapperError(WrapperErrorKind::InvalidParam)),
            }
        } else {
            Err(Error::WrapperError(WrapperErrorKind::InvalidParam))
        }
    }
}

/// Reading the native form of a definition gives that definition back,
/// whichever definition it is.
pub proof fn lemma_symmetric_definition_round_trip(definition: SymmetricDefinitionObject)
    ensures
        definition.spec_to_native().spec_decode() == Ok::<SymmetricDefinitionObject, Error>(
            definition,
        ),
{
}

/// Reading is the inverse of writing: a native value reads as a definition
/// exactly where it is a native form of that definition, and reading fails
/// exactly where it is a native form of none.
pub proof fn lemma_symmetric_definition_read_is_inverse(native: NativeSymmetricDefinition)
    ensures
        forall|definition: SymmetricDefinitionObject|
            native.spec_decode() == Ok::<SymmetricDefinitionObject, Error>(definition)
                <==> #[trigger] native.denotes(definition),
        native.spec_decode() is Err <==> forall|definition: SymmetricDefinitionObject|
            !#[trigger] native.denotes(definition),
        native.spec_decode() is Err ==> native.spec_decode() == Err::<
            SymmetricDefinitionObject,
            Error,
        >(Error::WrapperError(WrapperErrorKind::InvalidParam)),
{
    assert forall|definition: SymmetricDefinitionObject|
        native.spec_decode() == Ok::<SymmetricDefinitionObject, Error>(definition)
            <==> #[trigger] native.denotes(definition) by {
        match definition {
            SymmetricDefinitionObject::Aes { key_bits, mode } => {},
            SymmetricDefinitionObject::Sm4 { key_bits, mode } => {},
            SymmetricDefinitionObject::Camellia { key_bits, mode } => {},
            SymmetricDefinitionObject::Null => {},
        }
    }
    if native.spec_decode() is Ok {
        assert(native.denotes(native.spec_decode()->Ok_0));
    }
}

} // verus!
