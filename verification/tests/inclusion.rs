use ct_monitor::inclusion::{leaf_hash, DIGEST_LEN};

fn hex(text: &str) -> Vec<u8> {
    (0..text.len() / 2)
        .map(|at| u8::from_str_radix(&text[2 * at..2 * at + 2], 16).unwrap())
        .collect()
}

#[test]
fn leaf_hash_of_nothing() {
    assert_eq!(
        leaf_hash(b""),
        hex("e3b0c44298fc1c149afbf4c8996fb92427ae41e4649b934ca495991b7852b855")
    );
}

#[test]
fn leaf_hash_of_abc() {
    assert_eq!(
        leaf_hash(b"abc"),
        hex("ba7816bf8f01cfea414140de5dae2223b00361a396177a9cb410ff61f20015ad")
    );
}

#[test]
fn leaf_hash_is_thirty_two_bytes() {
    assert_eq!(DIGEST_LEN, 32);
    assert_eq!(leaf_hash(&[0u8; 1000]).len(), 32);
    assert_eq!(leaf_hash(&[0u8; 32]).len(), 32);
    assert_ne!(leaf_hash(&[0u8; 32]), vec![0u8; 32]);
}

#[test]
fn leaf_hash_depends_on_the_data_alone() {
    assert_eq!(leaf_hash(b"sct"), leaf_hash(b"sct"));
    assert_ne!(leaf_hash(b"sct"), leaf_hash(b"sct "));
}
