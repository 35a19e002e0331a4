use luxor_fs::algo::fnv1a::{FNV1a, FNV1aIterator};

#[test]
fn create_new() {
    let instance = FNV1a::create_new();
    assert_eq!(
        instance.state(),
        0xcbf29ce484222325,
        "Expect a new FNV1a instance to be initialized with FNV1a::OFFSET_BASIS"
    );
}

#[test]
fn create_init() {
    let instance = FNV1a::create_init(1337);
    assert_eq!(instance.state(), 1337);
}

#[test]
fn iterate_i32() {
    let mut instance = FNV1a::create_new();
    1337i32.fnv1a_iterate(&mut instance);
    assert_eq!(instance.state(), 0x9358f934873276db);
}

#[test]
fn iterate_u32() {
    let mut instance = FNV1a::create_new();
    1337u32.fnv1a_iterate(&mut instance);
    assert_eq!(instance.state(), 0x9358f934873276db);
}

#[test]
fn iterate_i64() {
    let mut instance = FNV1a::create_new();
    1337i64.fnv1a_iterate(&mut instance);
    assert_eq!(instance.state(), 0x41ff8641d035260b);
}

#[test]
fn iterate_u64() {
    let mut instance = FNV1a::create_new();
    1337u64.fnv1a_iterate(&mut instance);
    assert_eq!(instance.state(), 0x41ff8641d035260b);
}

#[test]
fn iterate_bool() {
    let b = false;
    let mut instance = FNV1a::create_new();

    b.fnv1a_iterate(&mut instance);
    assert_eq!(instance.state(), 0x4b91cd1c0e0a959c);
}

#[test]
fn iterate_bytes() {
    let bytes = [b'd', b'e', b'a', b'd', b'b', b'e', b'e', b'f'];
    let mut instance = FNV1a::create_new();

    bytes[..].fnv1a_iterate(&mut instance);
    assert_eq!(instance.state(), 0xcd4f3b6f56d93515);
}

#[test]
fn iterate_negative_i32() {
    let mut forward = FNV1a::create_new();
    (-1i32).fnv1a_iterate(&mut forward);

    // The two's-complement pattern of -1 is four 0xff bytes.
    let mut expected = FNV1a::create_new();
    [0xffu8, 0xff, 0xff, 0xff][..].fnv1a_iterate(&mut expected);

    assert_eq!(forward.state(), expected.state());
}

#[test]
fn iterate_single_byte_changes_state() {
    let mut instance = FNV1a::create_init(0);
    instance.iterate(&0u8);
    // One round from state 0 over byte 0 multiplies nothing but keeps the
    // prime factor visible: (0 ^ 0) * 0x100000001b3 mod 2^64 == 0.
    assert_eq!(instance.state(), 0);

    let mut nonzero = FNV1a::create_init(1);
    nonzero.iterate(&0u8);
    assert_eq!(nonzero.state(), 0x100000001b3);
}
