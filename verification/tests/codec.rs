use tpm_duplication::buffers::{
    Data, EncryptedSecret, NativeBuffer, Private, DATA_MAX_SIZE, ENCRYPTED_SECRET_MAX_SIZE,
    PRIVATE_MAX_SIZE,
};
use tpm_duplication::error::{Error, WrapperErrorKind};
use tpm_duplication::symmetric::{
    AesKeyBits, CamelliaKeyBits, NativeSymmetricDefinition, Sm4KeyBits, SymmetricDefinitionObject,
    SymmetricMode,
};

const TOO_LARGE: Error = Error::WrapperError(WrapperErrorKind::WrongParamSize);

const INVALID: Error = Error::WrapperError(WrapperErrorKind::InvalidParam);

fn modes() -> [SymmetricMode; 6] {
    [
        SymmetricMode::Ctr,
        SymmetricMode::Ofb,
        SymmetricMode::Cbc,
        SymmetricMode::Cfb,
        SymmetricMode::Ecb,
        SymmetricMode::Null,
    ]
}

fn all_definitions() -> Vec<SymmetricDefinitionObject> {
    let mut all = vec![SymmetricDefinitionObject::Null];
    for mode in modes() {
        for key_bits in [AesKeyBits::Aes128, AesKeyBits::Aes192, AesKeyBits::Aes256] {
            all.push(SymmetricDefinitionObject::Aes { key_bits, mode });
        }
        all.push(SymmetricDefinitionObject::Sm4 { key_bits: Sm4KeyBits::Sm4128, mode });
        for key_bits in [
            CamelliaKeyBits::Camellia128,
            CamelliaKeyBits::Camellia192,
            CamelliaKeyBits::Camellia256,
        ] {
            all.push(SymmetricDefinitionObject::Camellia { key_bits, mode });
        }
    }
    all
}

#[test]
fn symmetric_definition_round_trips() {
    let all = all_definitions();
    assert_eq!(all.len(), 43);
    for definition in all {
        assert_eq!(SymmetricDefinitionObject::from_native(definition.to_native()), Ok(definition));
    }
}

#[test]
fn symmetric_definitions_have_distinct_native_forms() {
    let all = all_definitions();
    for (i, first) in all.iter().enumerate() {
        for (j, second) in all.iter().enumerate() {
            assert_eq!(i == j, first.to_native() == second.to_native());
        }
    }
}

#[test]
fn symmetric_definition_native_values() {
    assert_eq!(
        SymmetricDefinitionObject::Null.to_native(),
        NativeSymmetricDefinition { algorithm: 0x0010, key_bits: 0, mode: 0 }
    );
    assert_eq!(
        SymmetricDefinitionObject::Aes { key_bits: AesKeyBits::Aes128, mode: SymmetricMode::Cfb }
            .to_native(),
        NativeSymmetricDefinition { algorithm: 0x0006, key_bits: 128, mode: 0x0043 }
    );
    assert_eq!(
        SymmetricDefinitionObject::Sm4 { key_bits: Sm4KeyBits::Sm4128, mode: SymmetricMode::Cbc }
            .to_native(),
        NativeSymmetricDefinition { algorithm: 0x0013, key_bits: 128, mode: 0x0042 }
    );
    assert_eq!(
        SymmetricDefinitionObject::Camellia {
            key_bits: CamelliaKeyBits::Camellia192,
            mode: SymmetricMode::Ctr,
        }
        .to_native(),
        NativeSymmetricDefinition { algorithm: 0x0026, key_bits: 192, mode: 0x0040 }
    );
}

#[test]
fn symmetric_mode_ids() {
    let ids: [u16; 6] = [0x0040, 0x0041, 0x0042, 0x0043, 0x0044, 0x0010];
    for (mode, id) in modes().into_iter().zip(ids) {
        assert_eq!(mode.id(), id);
        assert_eq!(SymmetricMode::from_id(id), Some(mode));
    }
    assert_eq!(SymmetricMode::from_id(0), None);
    assert_eq!(SymmetricMode::from_id(0x0045), None);
    assert_eq!(SymmetricMode::from_id(0x0006), None);
}

#[test]
fn key_bits_values() {
    assert_eq!(AesKeyBits::Aes128.bits(), 128);
    assert_eq!(AesKeyBits::Aes192.bits(), 192);
    assert_eq!(AesKeyBits::Aes256.bits(), 256);
    assert_eq!(Sm4KeyBits::Sm4128.bits(), 128);
    assert_eq!(CamelliaKeyBits::Camellia128.bits(), 128);
    assert_eq!(CamelliaKeyBits::Camellia192.bits(), 192);
    assert_eq!(CamelliaKeyBits::Camellia256.bits(), 256);
    assert_eq!(AesKeyBits::from_bits(192), Some(AesKeyBits::Aes192));
    assert_eq!(AesKeyBits::from_bits(512), None);
    assert_eq!(Sm4KeyBits::from_bits(128), Some(Sm4KeyBits::Sm4128));
    assert_eq!(Sm4KeyBits::from_bits(256), None);
    assert_eq!(CamelliaKeyBits::from_bits(256), Some(CamelliaKeyBits::Camellia256));
    assert_eq!(CamelliaKeyBits::from_bits(0), None);
}

#[test]
fn symmetric_definition_null_ignores_the_other_fields() {
    let native = NativeSymmetricDefinition { algorithm: 0x0010, key_bits: 777, mode: 0xBEEF };
    assert_eq!(SymmetricDefinitionObject::from_native(native), Ok(SymmetricDefinitionObject::Null));
}

#[test]
fn symmetric_definition_rejects_unknown_algorithm() {
    let native = NativeSymmetricDefinition { algorithm: 0x0003, key_bits: 128, mode: 0x0043 };
    assert_eq!(SymmetricDefinitionObject::from_native(native), Err(INVALID));
    let zero = NativeSymmetricDefinition { algorithm: 0, key_bits: 0, mode: 0 };
    assert_eq!(SymmetricDefinitionObject::from_native(zero), Err(INVALID));
}

#[test]
fn symmetric_definition_rejects_unknown_key_size() {
    let aes = NativeSymmetricDefinition { algorithm: 0x0006, key_bits: 100, mode: 0x0043 };
    assert_eq!(SymmetricDefinitionObject::from_native(aes), Err(INVALID));
    let sm4 = NativeSymmetricDefinition { algorithm: 0x0013, key_bits: 256, mode: 0x0043 };
    assert_eq!(SymmetricDefinitionObject::from_native(sm4), Err(INVALID));
    let camellia = NativeSymmetricDefinition { algorithm: 0x0026, key_bits: 64, mode: 0x0043 };
    assert_eq!(SymmetricDefinitionObject::from_native(camellia), Err(INVALID));
}

#[test]
fn symmetric_definition_rejects_unknown_mode() {
    let native = NativeSymmetricDefinition { algorithm: 0x0006, key_bits: 128, mode: 0x0006 };
    assert_eq!(SymmetricDefinitionObject::from_native(native), Err(INVALID));
}

#[test]
fn data_from_native_checks_the_declared_size() {
    let at_limit: NativeBuffer<DATA_MAX_SIZE> = NativeBuffer { size: 64, buffer: [7u8; 64] };
    assert_eq!(Data::from_native(&at_limit).unwrap().as_bytes(), &[7u8; 64]);
    let beyond: NativeBuffer<DATA_MAX_SIZE> = NativeBuffer { size: 65, buffer: [7u8; 64] };
    assert_eq!(Data::from_native(&beyond), Err(TOO_LARGE));
    let far_beyond: NativeBuffer<DATA_MAX_SIZE> =
        NativeBuffer { size: u16::MAX, buffer: [7u8; 64] };
    assert_eq!(Data::from_native(&far_beyond), Err(TOO_LARGE));
}

#[test]
fn private_from_native_checks_the_declared_size() {
    let at_limit: NativeBuffer<PRIVATE_MAX_SIZE> = NativeBuffer { size: 1550, buffer: [8u8; 1550] };
    assert_eq!(Private::from_native(&at_limit).unwrap().as_bytes(), &[8u8; 1550]);
    let beyond: NativeBuffer<PRIVATE_MAX_SIZE> = NativeBuffer { size: 1551, buffer: [8u8; 1550] };
    assert_eq!(Private::from_native(&beyond), Err(TOO_LARGE));
}

#[test]
fn encrypted_secret_from_native_checks_the_declared_size() {
    let at_limit: NativeBuffer<ENCRYPTED_SECRET_MAX_SIZE> =
        NativeBuffer { size: 512, buffer: [9u8; 512] };
    assert_eq!(EncryptedSecret::from_native(&at_limit).unwrap().as_bytes(), &[9u8; 512]);
    let beyond: NativeBuffer<ENCRYPTED_SECRET_MAX_SIZE> =
        NativeBuffer { size: 513, buffer: [9u8; 512] };
    assert_eq!(EncryptedSecret::from_native(&beyond), Err(TOO_LARGE));
}

#[test]
fn native_buffer_decode_copies_the_declared_prefix() {
    let mut buffer = [0u8; 8];
    buffer[0] = 1;
    buffer[1] = 2;
    buffer[2] = 3;
    let native: NativeBuffer<8> = NativeBuffer { size: 2, buffer };
    assert_eq!(native.decode(), Ok(vec![1u8, 2]));
    let whole: NativeBuffer<8> = NativeBuffer { size: 8, buffer };
    assert_eq!(whole.decode(), Ok(vec![1u8, 2, 3, 0, 0, 0, 0, 0]));
    let beyond: NativeBuffer<8> = NativeBuffer { size: 9, buffer };
    assert_eq!(beyond.decode(), Err(TOO_LARGE));
    let none: NativeBuffer<0> = NativeBuffer::empty();
    assert_eq!(none.decode(), Ok(Vec::new()));
}

#[test]
fn native_buffer_empty_is_all_zero() {
    let empty: NativeBuffer<16> = NativeBuffer::empty();
    assert_eq!(empty.size, 0);
    assert_eq!(empty.buffer, [0u8; 16]);
}

#[test]
fn data_from_bytes_checks_the_length() {
    assert_eq!(Data::from_bytes(vec![1u8; 64]).unwrap().as_bytes().len(), 64);
    assert_eq!(Data::from_bytes(vec![1u8; 65]), Err(TOO_LARGE));
    assert_eq!(Data::from_bytes(Vec::new()), Ok(Data::empty()));
}

#[test]
fn private_from_bytes_checks_the_length() {
    assert_eq!(Private::from_bytes(vec![1u8; 1550]).unwrap().as_bytes().len(), 1550);
    assert_eq!(Private::from_bytes(vec![1u8; 1551]), Err(TOO_LARGE));
}

#[test]
fn encrypted_secret_from_bytes_checks_the_length() {
    assert_eq!(EncryptedSecret::from_bytes(vec![1u8; 512]).unwrap().as_bytes().len(), 512);
    assert_eq!(EncryptedSecret::from_bytes(vec![1u8; 513]), Err(TOO_LARGE));
}

#[test]
fn data_round_trips_through_its_native_form() {
    let data = Data::from_bytes(vec![0xA1, 0xB2, 0xC3]).unwrap();
    let native = data.to_native();
    assert_eq!(native.size, 3);
    assert_eq!(&native.buffer[..3], &[0xA1, 0xB2, 0xC3]);
    assert!(native.buffer[3..].iter().all(|byte| *byte == 0));
    assert_eq!(Data::from_native(&native), Ok(data));
    let full = Data::from_bytes(vec![0xEE; 64]).unwrap();
    assert_eq!(full.to_native().size, 64);
    assert_eq!(full.to_native().buffer, [0xEE; 64]);
}

#[test]
fn empty_native_key_decodes_to_empty_data() {
    let native: NativeBuffer<DATA_MAX_SIZE> = NativeBuffer::empty();
    let data = Data::from_native(&native).unwrap();
    assert_eq!(data, Data::empty());
    assert!(data.as_bytes().is_empty());
    assert_eq!(Data::empty().to_native(), native);
}

#[test]
fn buffers_clone_to_equal_values() {
    let data = Data::from_bytes(vec![1, 2, 3]).unwrap();
    assert_eq!(data.clone(), data);
    let private = Private::from_bytes(vec![4, 5]).unwrap();
    assert_eq!(private.clone(), private);
    let secret = EncryptedSecret::from_bytes(vec![6]).unwrap();
    assert_eq!(secret.clone(), secret);
}
