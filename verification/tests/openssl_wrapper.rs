//! Tests of the AES wrapper: round trips across every scheme, wrong-key
//! behavior, and key-length validation on both paths.

use encrypted_box::kdf;
use encrypted_box::openssl_aes::defs::OpenSslVariants;
use encrypted_box::openssl_aes::wrapper::OpensslAesWrapper;

const MSG: [u8; 17] = [
    84, 104, 105, 115, 32, 105, 115, 32, 97, 32, 109, 101, 115, 115, 97, 103, 101,
];
const PASSWORD: &str = "password";

#[test]
fn encrypt_decrypt_all_schemes() {
    for variant in OpenSslVariants::iterator() {
        let wrapper = OpensslAesWrapper::new(&variant);
        let key = kdf::derive_key_from_password(&String::from(PASSWORD), wrapper.get_key_length());
        let enc = wrapper.encrypt(&key[..], &MSG).expect("encryption failed");
        let dec = wrapper.decrypt(&key[..], &enc[..]).expect("decryption failed");
        assert_eq!(dec, MSG);
    }
}

// when running the following test one must notice that in some of the schemes the
// decryption with a different key panics, and in some simply returns a value
// somewhat inconsistent behavior, I'm assuming from there being a difference between the schemes
#[test]
fn decrypt_with_different_key_should_mismatch() {
    let wrapper = OpensslAesWrapper::new(&OpenSslVariants::Aes128Ctr);
    let mut key = kdf::derive_key_from_password(&String::from(PASSWORD), wrapper.get_key_length());
    let enc = wrapper.encrypt(&key[..], &MSG).expect("encryption failed");
    key.pop();
    key.push(10);
    let dec = wrapper.decrypt(&key[..], &enc[..]).expect("decryption failed");
    assert_ne!(&MSG[..], &dec[..]);
}

#[test]
fn error_on_encrypt_key_length_too_short() {
    let wrapper = OpensslAesWrapper::new(&OpenSslVariants::Aes128Ctr);
    let key = kdf::derive_key_from_password(&String::from(PASSWORD), wrapper.get_key_length() - 1);
    let enc = wrapper.encrypt(&key[..], &MSG);
    match enc {
        Ok(_) => assert!(false),
        Err(_) => assert!(true),
    }
}

#[test]
fn error_on_encrypt_key_length_too_long() {
    let wrapper = OpensslAesWrapper::new(&OpenSslVariants::Aes128Ctr);
    let key = kdf::derive_key_from_password(&String::from(PASSWORD), wrapper.get_key_length() + 1);
    let enc = wrapper.encrypt(&key[..], &MSG);
    match enc {
        Ok(_) => assert!(false),
        Err(_) => assert!(true),
    }
}

#[test]
fn error_on_decrypt_key_length_too_short() {
    let wrapper = OpensslAesWrapper::new(&OpenSslVariants::Aes128Ctr);
    let key = kdf::derive_key_from_password(&String::from(PASSWORD), wrapper.get_key_length());
    let enc = wrapper.encrypt(&key[..], &MSG).expect("encryption failed");
    let short_key_len = wrapper.get_key_length() - 1;
    let dec = wrapper.decrypt(&key[..short_key_len], &enc[..]);
    match dec {
        Ok(_) => assert!(false),
        Err(_) => assert!(true),
    }
}

#[test]
fn error_on_decrypt_key_length_too_long() {
    let wrapper = OpensslAesWrapper::new(&OpenSslVariants::Aes128Ctr);
    let mut key = kdf::derive_key_from_password(&String::from(PASSWORD), wrapper.get_key_length());
    let enc = wrapper.encrypt(&key[..], &MSG).expect("encryption failed");
    key.push(10);
    let dec = wrapper.decrypt(&key[..], &enc[..]);
    match dec {
        Ok(_) => assert!(false),
        Err(_) => assert!(true),
    }
}
