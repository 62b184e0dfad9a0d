use ptstd::rsa_keys::RSAKeyPair;

#[test]
fn rsa_test1() {
    let keys = RSAKeyPair::new().ok().unwrap();

    let pk = keys.public_key_bytes().ok().unwrap();
    println!("pub_key: {}", pk);

    let data = b"a".repeat(245);
    println!("data len = {}", data.len());
    let pk = RSAKeyPair::from_public_key_pem(&pk).ok().unwrap();
    let enc_data = pk.encrypt(&data).ok().unwrap();
    println!("len = {}", enc_data.len());
    println!("{:?}", enc_data);

    let dec_data = keys.decrypt(&enc_data).ok().unwrap();
    assert_eq!(dec_data, data);
    println!("{}", String::from_utf8(dec_data).unwrap());
}

#[test]
fn rsa_requires_private_key() {
    let keys = RSAKeyPair::new().ok().unwrap();
    assert!(keys.has_private());
    let pem = keys.public_key_bytes().ok().unwrap();
    assert!(pem.starts_with("-----BEGIN PUBLIC KEY-----"));

    let public_only = RSAKeyPair::from_public_key_pem(&pem).ok().unwrap();
    assert!(!public_only.has_private());
    let sealed = public_only.encrypt(b"secret").ok().unwrap();
    // only the private half can open it
    assert!(public_only.decrypt(&sealed).is_err());
    assert_eq!(keys.decrypt(&sealed).ok().unwrap(), b"secret".to_vec());

    // 2048-bit PKCS#1 v1.5 carries at most 245 bytes
    assert!(public_only.encrypt(&[0u8; 246]).is_err());
    // and a PEM text that is no key at all is rejected
    assert!(RSAKeyPair::from_public_key_pem("not a key").is_err());
}
