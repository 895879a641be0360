use juus::keys::{KeyError, PublicKey, SecretKey, KEY_LENGTH};

fn hex(text: &str) -> Vec<u8> {
    let digits: Vec<u32> = text.chars().map(|c| c.to_digit(16).unwrap()).collect();
    digits.chunks(2).map(|pair| (pair[0] * 16 + pair[1]) as u8).collect()
}

fn array(bytes: &[u8]) -> [u8; 32] {
    let mut out = [0u8; 32];
    out.copy_from_slice(bytes);
    out
}

#[test]
fn key_length_is_32() {
    assert_eq!(KEY_LENGTH, 32);
}

#[test]
fn secret_key_round_trips_through_bytes() {
    let bytes = array(&hex("000102030405060708090a0b0c0d0e0f101112131415161718191a1b1c1d1e1f"));
    let key = SecretKey::from_bytes(&bytes);
    assert_eq!(key.to_bytes(), bytes);
    assert_eq!(key.clone().to_bytes(), bytes);
}

#[test]
fn public_key_matches_known_answer() {
    let secret = array(&hex("9d61b19deffd5a60ba844af492ec2cc44449c5697b326919703bac031cae7f60"));
    let expected = array(&hex("d75a980182b10ab7d54bfed3c964073a0ee172f3daa62325af021a68f707511a"));
    let public = SecretKey::from_bytes(&secret).public();
    assert_eq!(*public.as_bytes(), expected);
    assert_ne!(*public.as_bytes(), secret);
}

#[test]
fn second_known_answer() {
    let secret = array(&hex("4ccd089b28ff96da9db6c346ec114e0f5b8a319f35aba624da8cf6ed4fb8a6fb"));
    let expected = array(&hex("3d4017c3e843895a92b70aa74d1b7ebc9c982ccf2ec4968cc0cd55f12af4660c"));
    assert_eq!(*SecretKey::from_bytes(&secret).public().as_bytes(), expected);
}

#[test]
fn public_key_is_deterministic() {
    for seed in 0u8..16 {
        let secret = [seed; 32];
        let first = SecretKey::from_bytes(&secret).public();
        let second = SecretKey::from_bytes(&secret).public();
        assert_eq!(first.as_bytes(), second.as_bytes());
    }
}

#[test]
fn public_key_agrees_with_iroh() {
    for seed in 0u8..16 {
        let secret = [seed.wrapping_mul(17).wrapping_add(3); 32];
        let ours = SecretKey::from_bytes(&secret).public();
        let theirs = iroh::SecretKey::from_bytes(&secret).public();
        assert_eq!(ours.as_bytes(), theirs.as_bytes());
    }
}

#[test]
fn generated_keys_differ() {
    let first = SecretKey::generate();
    let second = SecretKey::generate();
    assert_ne!(first.to_bytes(), second.to_bytes());
    assert_ne!(first.to_bytes(), [0u8; 32]);
}

#[test]
fn stored_key_needs_32_bytes() {
    assert!(SecretKey::from_stored(&[]).is_none());
    assert!(SecretKey::from_stored(&[7u8; 31]).is_none());
    let exact: Vec<u8> = (0u8..32).collect();
    assert_eq!(SecretKey::from_stored(&exact).unwrap().to_bytes(), array(&exact));
}

#[test]
fn stored_key_is_the_first_32_bytes() {
    let longer: Vec<u8> = (100u8..140).collect();
    let key = SecretKey::from_stored(&longer).unwrap();
    assert_eq!(key.to_bytes(), array(&longer[..32]));
}

#[test]
fn derived_public_key_parses_back() {
    let public = SecretKey::from_bytes(&[42u8; 32]).public();
    let parsed = PublicKey::from_bytes(public.as_bytes());
    assert!(parsed.is_ok());
    assert_eq!(parsed.ok().unwrap().as_bytes(), public.as_bytes());
}

#[test]
fn parsing_agrees_with_iroh() {
    let mut accepted = 0;
    let mut rejected = 0;
    for first in 0u8..=255 {
        let mut bytes = [0u8; 32];
        bytes[0] = first;
        bytes[5] = first.wrapping_mul(3);
        let ours = PublicKey::from_bytes(&bytes);
        let theirs = iroh::PublicKey::from_bytes(&bytes);
        match (ours, theirs) {
            (Ok(key), Ok(other)) => {
                assert_eq!(key.as_bytes(), &bytes);
                assert_eq!(key.as_bytes(), other.as_bytes());
                accepted += 1;
            }
            (Err(reason), Err(_)) => {
                assert_eq!(reason, KeyError::InvalidKeyData);
                rejected += 1;
            }
            _ => panic!("the library and iroh disagree on {:?}", bytes),
        }
    }
    assert!(accepted > 0);
    assert!(rejected > 0);
}

#[test]
fn slices_of_the_wrong_length_are_no_keys() {
    let public = SecretKey::from_bytes(&[9u8; 32]).public();
    let bytes = *public.as_bytes();
    assert!(matches!(PublicKey::from_slice(&[]), Err(KeyError::InvalidLength)));
    assert!(matches!(PublicKey::from_slice(&bytes[..31]), Err(KeyError::InvalidLength)));
    let mut longer = bytes.to_vec();
    longer.push(0);
    assert!(matches!(PublicKey::from_slice(&longer), Err(KeyError::InvalidLength)));
    assert_eq!(PublicKey::from_slice(&bytes).ok().unwrap().as_bytes(), &bytes);
}

#[test]
fn slices_of_32_bytes_that_are_no_point_are_no_keys() {
    let mut found = false;
    for first in 0u8..=255 {
        let mut bytes = [1u8; 32];
        bytes[0] = first;
        if iroh::PublicKey::from_bytes(&bytes).is_err() {
            assert!(matches!(PublicKey::from_slice(&bytes), Err(KeyError::InvalidKeyData)));
            found = true;
        }
    }
    assert!(found);
}
