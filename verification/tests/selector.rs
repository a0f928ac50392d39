use oracle_callback::selector::{
    get_sighash, selector_from_digest, selector_preimage, GLOBAL_NAMESPACE, SEPARATOR,
};

#[test]
fn known_vector_for_the_callback() {
    assert_eq!(
        get_sighash("global", "receive_answer"),
        [114, 68, 93, 170, 241, 5, 46, 79]
    );
}

#[test]
fn known_vector_for_another_entry_point() {
    assert_eq!(
        get_sighash("global", "initialize"),
        [175, 175, 109, 31, 13, 152, 155, 237]
    );
}

#[test]
fn selector_is_the_same_on_every_call() {
    let first = get_sighash("global", "receive_answer");
    let second = get_sighash("global", "receive_answer");
    assert_eq!(first, second);
    let owned_namespace = String::from("global");
    let owned_name = String::from("receive_answer");
    assert_eq!(get_sighash(&owned_namespace, &owned_name), first);
}

#[test]
fn different_names_give_different_selectors() {
    assert_ne!(
        get_sighash("global", "receive_answer"),
        get_sighash("global", "initialize")
    );
    assert_ne!(
        get_sighash("global", "receive_answer"),
        get_sighash("global", "receive_answers")
    );
}

#[test]
fn different_namespaces_give_different_selectors() {
    assert_ne!(
        get_sighash("global", "receive_answer"),
        get_sighash("state", "receive_answer")
    );
}

#[test]
fn selector_is_not_a_piece_of_the_input() {
    let selector = get_sighash("global", "receive_answer");
    assert_ne!(&selector[..], &b"global:receive_answer"[..8]);
}

#[test]
fn empty_strings_hash_the_lone_separator() {
    assert_eq!(get_sighash("", ""), [231, 172, 7, 134, 102, 142, 15, 240]);
    assert_eq!(get_sighash("global", ""), [193, 76, 24, 19, 16, 206, 80, 69]);
    assert_eq!(
        get_sighash("", "receive_answer"),
        [171, 206, 251, 9, 91, 148, 156, 70]
    );
}

#[test]
fn strings_are_hashed_as_utf8() {
    assert_eq!(
        get_sighash("gl\u{f6}bal", "na\u{ef}ve"),
        [112, 97, 203, 191, 105, 213, 109, 133]
    );
}

#[test]
fn preimage_is_namespace_colon_name() {
    assert_eq!(
        selector_preimage("global", "receive_answer"),
        vec![
            103, 108, 111, 98, 97, 108, 58, 114, 101, 99, 101, 105, 118, 101, 95, 97, 110, 115,
            119, 101, 114
        ]
    );
    assert_eq!(selector_preimage("", ""), vec![SEPARATOR]);
    assert_eq!(selector_preimage("a", ""), vec![97, 58]);
    assert_eq!(selector_preimage("", "b"), vec![58, 98]);
}

#[test]
fn preimage_tells_names_apart() {
    assert_ne!(
        selector_preimage("global", "ask"),
        selector_preimage("global", "ask_oracle")
    );
    assert_ne!(selector_preimage("ab", "c"), selector_preimage("a", "bc"));
}

#[test]
fn selector_is_the_head_of_the_digest() {
    let digest: [u8; 32] = [
        114, 68, 93, 170, 241, 5, 46, 79, 47, 94, 36, 215, 92, 169, 246, 10, 51, 8, 171, 58, 177,
        43, 80, 4, 193, 152, 230, 94, 150, 135, 242, 219,
    ];
    assert_eq!(selector_from_digest(&digest), [114, 68, 93, 170, 241, 5, 46, 79]);
    let mut counting = [0u8; 32];
    for (i, byte) in counting.iter_mut().enumerate() {
        *byte = i as u8;
    }
    assert_eq!(selector_from_digest(&counting), [0, 1, 2, 3, 4, 5, 6, 7]);
}

#[test]
fn global_namespace_is_spelled_out() {
    assert_eq!(GLOBAL_NAMESPACE, "global");
    assert_eq!(SEPARATOR, b':');
}
