use state_reconstruct::account::address_key;
use state_reconstruct::address::{address_from_hash, contract_address};

fn hex20(text: &str) -> [u8; 20] {
    let bytes = hex::decode(text).expect("hex");
    let mut out = [0u8; 20];
    out.copy_from_slice(&bytes);
    out
}

#[test]
fn contract_address_of_known_sender_and_nonce() {
    let sender = hex20("6ac7ea33f8831ea9dcc53393aaa88b25a785dbf0");
    assert_eq!(contract_address(&sender, 0), hex20("cd234a471b72ba2f1ccf0a70fcaba648a5eecd8d"));
    assert_eq!(contract_address(&sender, 1), hex20("343c43a37d37dff08ae8c4a11544c718abb4fcf8"));
    assert_eq!(contract_address(&sender, 2), hex20("f778b86fa74e846c4f0a1fbd1335fe81c00a0c91"));
    assert_eq!(
        contract_address(&[0xaa; 20], 7),
        hex20("b4d293619826c77f6bc9d2a3668d40de5332906a")
    );
}

#[test]
fn contract_address_depends_on_sender_and_nonce_alone() {
    let sender = [0xaa; 20];
    assert_eq!(contract_address(&sender, 0), hex20("3c952d36207c0d52743a646e7ac2649009bd358e"));
    assert_eq!(contract_address(&sender, 0), contract_address(&sender, 0));
    assert_ne!(contract_address(&sender, 0), contract_address(&sender, 1));
    assert_ne!(contract_address(&sender, 0), contract_address(&[0xab; 20], 0));
}

#[test]
fn address_is_the_tail_of_the_hash() {
    let mut hash = [0u8; 32];
    for (i, byte) in hash.iter_mut().enumerate() {
        *byte = i as u8;
    }
    let address = address_from_hash(&hash);
    let expected: Vec<u8> = (12u8..32).collect();
    assert_eq!(address.to_vec(), expected);
}

#[test]
fn store_key_pads_the_address_on_the_left() {
    let key = address_key(&[0xcd; 20]);
    assert_eq!(&key[..12], &[0u8; 12]);
    assert_eq!(&key[12..], &[0xcd; 20]);
}

#[test]
fn nonce_is_encoded_without_leading_zeros() {
    let sender = hex20("6ac7ea33f8831ea9dcc53393aaa88b25a785dbf0");
    // 127 is its own encoding; 128 and 255 take a length header; 256 is
    // two bytes.
    assert_eq!(contract_address(&sender, 127), hex20("06d9a77f5e4b311bae8d559db9cdb4df94104aa0"));
    assert_eq!(contract_address(&sender, 128), hex20("08e190dcb7b73f5fcdabb43e102215c83659a76d"));
    assert_eq!(contract_address(&sender, 255), hex20("3ef7c1a519e4b4431e317d7839340e3139b03c65"));
    assert_eq!(contract_address(&sender, 256), hex20("3837c1ae70354f670550c746580199ac6a73cb0a"));
    assert_eq!(
        contract_address(&sender, 0x0102_0304_0506_0708),
        hex20("cce8001f528ccb2ca4b6f184c56151d01fcd58fa")
    );
    assert_eq!(
        contract_address(&sender, u64::MAX),
        hex20("9bc924993b60399df164c3763a964301d3db95ca")
    );
    assert_eq!(contract_address(&[0u8; 20], 0), hex20("bd770416a3345f91e4b34576cb804a576fa48eb1"));
}
