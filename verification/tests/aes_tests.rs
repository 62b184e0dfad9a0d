use ptstd::aes::{AESCipher, AESCryptor};
use ptstd::hash::bytes_to_string;

#[test]
fn aes_test1() {
    let text = "a".to_string().repeat(15);
    println!("text len = {}", text.len());
    let mut cipher = AESCryptor::try_new().ok().unwrap();
    let r = cipher.encode(text.as_bytes()).unwrap();
    println!("len = {}", r.len());
    println!("{}", bytes_to_string(&r).unwrap());

    let r = cipher.decode(&r).unwrap();
    println!("{}", String::from_utf8(r).unwrap());

    println!("{:?}", cipher.to_key_iv_bytes());
}

#[test]
fn test2() {
    let text1 = "123";
    let text2 = "abc";
    let mut cipher = AESCryptor::try_new().ok().unwrap();
    let mut c2 = AESCryptor::try_from_key_iv(&cipher.to_key_iv_bytes()).ok().unwrap();
    let enc1 = cipher.encode(text1.as_bytes()).unwrap();
    let enc2 = cipher.encode(text2.as_bytes()).unwrap();
    println!("len1 = {}, len2 = {}", enc1.len(), enc2.len());

    let dec2 = c2.decode(&enc2).unwrap();
    let dec1 = c2.decode(&enc1).unwrap();
    let dec2_text = String::from_utf8(dec2).unwrap();
    let dec1_text = String::from_utf8(dec1).unwrap();
    println!("len = {}, c = {}", dec1_text.len(), dec1_text);
    println!("len = {}, c = {}", dec2_text.len(), dec2_text);
}

#[test]
fn fixed_key_round_trip() {
    let key = [7u8; 32];
    let iv = [9u8; 16];
    let mut cipher = AESCryptor::try_new_with(&key, &iv).ok().unwrap();
    let plain = b"sixteen byte msg";
    let sealed = cipher.encode(plain).unwrap();
    // PKCS padding always adds a block, and the bytes must really be
    // transformed
    assert_eq!(sealed.len(), 32);
    assert_ne!(&sealed[..16], &plain[..]);
    let opened = cipher.decode(&sealed).unwrap();
    assert_eq!(opened, plain.to_vec());
}

#[test]
fn parameter_sizes_are_checked() {
    let err = AESCryptor::try_new_with(&[0u8; 31], &[0u8; 16]).err().unwrap();
    assert_eq!(err, "key is not 256 bits");
    let err = AESCryptor::try_new_with(&[0u8; 32], &[0u8; 15]).err().unwrap();
    assert_eq!(err, "iv is not 128 bits");
    let err = AESCryptor::try_from_key_iv(&[0u8; 47]).err().unwrap();
    assert_eq!(err, "the len of key_iv is not 48");
    assert!(AESCryptor::try_new_with(&[0u8; 32], &[0u8; 16]).is_ok());
}

#[test]
fn key_iv_bytes_round_trip() {
    let key: Vec<u8> = (0u8..32).collect();
    let iv: Vec<u8> = (100u8..116).collect();
    let cipher = AESCryptor::try_new_with(&key, &iv).ok().unwrap();
    let packed = cipher.to_key_iv_bytes();
    assert_eq!(&packed[0..32], &key[..]);
    assert_eq!(&packed[32..48], &iv[..]);
    let mut reborn = AESCryptor::try_from_key_iv(&packed).ok().unwrap();
    let mut original = AESCryptor::try_new_with(&key, &iv).ok().unwrap();
    let a = original.encode(b"same parameters").unwrap();
    let b = reborn.encode(b"same parameters").unwrap();
    assert_eq!(a, b);
}

#[test]
fn invalid_padding_is_rejected() {
    // encrypt a block of 0x20 bytes: the first ciphertext block alone,
    // raw-decrypted, ends in a pad byte of 32, wider than a block — a
    // forged ciphertext that must be refused, not trusted
    let key = [1u8; 32];
    let iv = [2u8; 16];
    let mut cipher = AESCryptor::try_new_with(&key, &iv).ok().unwrap();
    let sealed = cipher.encode(&[0x20u8; 16]).unwrap();
    assert_eq!(sealed.len(), 32);
    let forged = &sealed[..16];
    assert_eq!(cipher.decode(forged).unwrap_err(), "can't decrypt");
}

#[test]
fn partial_block_is_rejected() {
    let key = [1u8; 32];
    let iv = [2u8; 16];
    let mut cipher = AESCryptor::try_new_with(&key, &iv).ok().unwrap();
    // a ciphertext that is no whole number of blocks cannot decode
    assert_eq!(cipher.decode(&[0u8; 15]).unwrap_err(), "can't decrypt");
    assert_eq!(cipher.decode(&[0u8; 17]).unwrap_err(), "can't decrypt");
}

#[test]
fn empty_message_round_trip() {
    let key = [3u8; 32];
    let iv = [4u8; 16];
    let mut cipher = AESCryptor::try_new_with(&key, &iv).ok().unwrap();
    let sealed = cipher.encode(&[]).unwrap();
    assert_eq!(sealed, Vec::<u8>::new());
    assert_eq!(cipher.decode(&sealed).unwrap(), Vec::<u8>::new());
}
