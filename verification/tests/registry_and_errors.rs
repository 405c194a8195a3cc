//! Tests of the variant registry, the key-derivation function, the error
//! kinds, and end-to-end round trips through the builder.

use encrypted_box::encrypted_box::EncryptedBox;
use encrypted_box::encrypted_box_builder::EncryptedBoxBuilder;
use encrypted_box::kdf;
use encrypted_box::openssl_aes::defs::{openssl_index_to_enum, OpenSslVariants};
use encrypted_box::openssl_aes::errors::ErrorKind;
use encrypted_box::openssl_aes::wrapper::OpensslAesWrapper;

#[test]
fn from_index_maps_the_declared_order() {
    assert!(matches!(openssl_index_to_enum(0), Ok(OpenSslVariants::Aes128Ecb)));
    assert!(matches!(openssl_index_to_enum(1), Ok(OpenSslVariants::Aes128Cbc)));
    assert!(matches!(openssl_index_to_enum(8), Ok(OpenSslVariants::Aes192Ecb)));
    assert!(matches!(openssl_index_to_enum(22), Ok(OpenSslVariants::Aes256Ofb)));
}

#[test]
fn from_index_rejects_out_of_range_indices() {
    for index in [23u32, 24, 100, 500, u32::MAX] {
        match openssl_index_to_enum(index) {
            Ok(_) => assert!(false),
            Err(e) => {
                assert!(matches!(e.kind(), ErrorKind::UnsupportedScheme { index: i } if *i == index));
            }
        }
    }
}

#[test]
fn iterator_is_finite_ordered_and_restartable() {
    let first = OpenSslVariants::iterator();
    let second = OpenSslVariants::iterator();
    assert_eq!(first.len(), 23);
    assert_eq!(first, second);
    assert_eq!(first[0], OpenSslVariants::Aes128Ecb);
    assert_eq!(first[22], OpenSslVariants::Aes256Ofb);
}

#[test]
fn kdf_truncates_the_sha512_digest() {
    // SHA-512("abc") begins dd af 35 a1 93 61 7a ba cc 41 73 49 ae 20 41 31.
    let key = kdf::derive_key_from_password(&String::from("abc"), 16);
    assert_eq!(
        key,
        vec![
            0xdd, 0xaf, 0x35, 0xa1, 0x93, 0x61, 0x7a, 0xba, 0xcc, 0x41, 0x73, 0x49, 0xae, 0x20,
            0x41, 0x31
        ]
    );
}

#[test]
fn kdf_is_deterministic_and_never_pads() {
    let password = String::from("password");
    let once = kdf::derive_key_from_password(&password, 32);
    let again = kdf::derive_key_from_password(&password, 32);
    assert_eq!(once, again);
    assert_eq!(once.len(), 32);
    // a shorter key is a prefix of a longer one
    let short = kdf::derive_key_from_password(&password, 16);
    assert_eq!(&once[..16], &short[..]);
    // the digest holds 64 bytes; asking for more yields those 64 and no more
    let all = kdf::derive_key_from_password(&password, 64);
    let over = kdf::derive_key_from_password(&password, 100);
    assert_eq!(all.len(), 64);
    assert_eq!(all, over);
}

#[test]
fn iv_lengths_follow_the_mode() {
    assert_eq!(OpensslAesWrapper::new(&OpenSslVariants::Aes128Ecb).get_iv_length(), None);
    assert_eq!(OpensslAesWrapper::new(&OpenSslVariants::Aes256Ecb).get_iv_length(), None);
    assert_eq!(OpensslAesWrapper::new(&OpenSslVariants::Aes128Cbc).get_iv_length(), Some(16));
    assert_eq!(OpensslAesWrapper::new(&OpenSslVariants::Aes256Xts).get_iv_length(), Some(16));
    assert_eq!(OpensslAesWrapper::new(&OpenSslVariants::Aes192Ctr).get_iv_length(), Some(16));
}

#[test]
fn key_length_error_reports_expected_and_got() {
    let wrapper = OpensslAesWrapper::new(&OpenSslVariants::Aes128Cbc);
    let key = [0u8; 15];
    let msg = [1u8; 4];
    match wrapper.encrypt(&key, &msg) {
        Ok(_) => assert!(false),
        Err(e) => {
            assert!(matches!(
                e.kind(),
                ErrorKind::KeyLengthError { expected: 16, got: 15 }
            ));
        }
    }
    match wrapper.decrypt(&key, &msg) {
        Ok(_) => assert!(false),
        Err(e) => {
            assert!(matches!(
                e.kind(),
                ErrorKind::KeyLengthError { expected: 16, got: 15 }
            ));
        }
    }
}

#[test]
fn malformed_ciphertext_gives_a_decryption_error() {
    let wrapper = OpensslAesWrapper::new(&OpenSslVariants::Aes128Cbc);
    let key = kdf::derive_key_from_password(&String::from("password"), wrapper.get_key_length());
    // five bytes are no multiple of the block size, so CBC rejects them
    match wrapper.decrypt(&key[..], &[1u8, 2, 3, 4, 5]) {
        Ok(_) => assert!(false),
        Err(e) => assert!(matches!(e.kind(), ErrorKind::DecryptionError(_))),
    }
}

#[test]
fn rejected_plaintext_gives_an_encryption_error() {
    // XTS cannot encrypt less than one block
    let wrapper = OpensslAesWrapper::new(&OpenSslVariants::Aes128Xts);
    let key = kdf::derive_key_from_password(&String::from("password"), wrapper.get_key_length());
    match wrapper.encrypt(&key[..], &[7u8]) {
        Ok(_) => assert!(false),
        Err(e) => assert!(matches!(e.kind(), ErrorKind::EncryptionError(_))),
    }
}

#[test]
fn build_succeeds_with_zero_fields_after_set_password() {
    let mut ebb = EncryptedBoxBuilder::new(OpensslAesWrapper::new(&OpenSslVariants::Aes128Ofb));
    ebb.set_password(String::from("password"));
    let eb = ebb.build().expect("build failed");
    assert_eq!(eb.fields().len(), 0);
}

#[test]
fn build_error_names_the_missing_key() {
    let ebb = EncryptedBoxBuilder::new(OpensslAesWrapper::new(&OpenSslVariants::Aes128Ofb));
    match ebb.build() {
        Ok(_) => assert!(false),
        Err(e) => assert_eq!(e.cause().as_str(), "cannot build an encrypted box with no key"),
    }
}

#[test]
fn round_trip_recovers_the_concatenated_fields_for_every_variant() {
    let password = String::from("round trip password");
    for variant in OpenSslVariants::iterator() {
        let scheme = OpensslAesWrapper::new(&variant);
        let mut ebb = EncryptedBoxBuilder::new(scheme);
        ebb.set_password(password.clone());
        // the concatenation spans more than one block, so every mode
        // (XTS included) accepts it
        ebb.add_fields(&[String::from("alpha"), String::from("beta"), String::from("42"), String::from(" and a tail that fills the block")]);
        let eb = ebb.build().expect("build failed");
        let enc = eb.encrypt().expect("encryption failed");
        let dec = EncryptedBox::decrypt(password.clone(), &enc[..], variant)
            .expect("decryption failed");
        assert_eq!(&dec.fields()[..], b"alphabeta42 and a tail that fills the block");
    }
}

// Distinct variants of equal key length are only guaranteed to produce
// distinct ciphertexts for long enough plaintexts: with the same key and
// the same fixed IV, the CTR, OFB and CFB128 modes all encrypt the first
// block as the plaintext XORed with the encrypted IV, so for a one-block
// message their ciphertexts coincide byte for byte. Tests of variant
// sensitivity therefore use a plaintext spanning many blocks.
#[test]
fn stream_modes_share_the_first_keystream_block() {
    let password = String::from("password");
    let msg = b"sixteen since 16";
    let mut ciphertexts = Vec::new();
    for variant in [
        OpenSslVariants::Aes128Ctr,
        OpenSslVariants::Aes128Ofb,
        OpenSslVariants::Aes128Cfb128,
    ] {
        let wrapper = OpensslAesWrapper::new(&variant);
        let key = kdf::derive_key_from_password(&password, wrapper.get_key_length());
        ciphertexts.push(wrapper.encrypt(&key[..], msg).expect("encryption failed"));
    }
    assert_eq!(ciphertexts[0], ciphertexts[1]);
    assert_eq!(ciphertexts[0], ciphertexts[2]);
}

#[test]
fn encryption_is_deterministic_for_every_variant() {
    let password = String::from("determinism password");
    for variant in OpenSslVariants::iterator() {
        let scheme = OpensslAesWrapper::new(&variant);
        let mut ebb = EncryptedBoxBuilder::new(scheme);
        ebb.set_password(password.clone());
        ebb.add_field("the very same plaintext");
        let eb1 = ebb.build().expect("build failed");
        let eb2 = ebb.build().expect("build failed");
        let c1 = eb1.encrypt().expect("encryption failed");
        let c2 = eb1.encrypt().expect("encryption failed");
        let c3 = eb2.encrypt().expect("encryption failed");
        assert_eq!(c1, c2);
        assert_eq!(c1, c3);
    }
}
