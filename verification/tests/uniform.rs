use bevy_dog::uniform::{pack, pack_words, store_words, Field};

#[test]
fn scalars_are_packed_densely() {
    let fields = vec![Field::Scalar(1), Field::Scalar(2), Field::Scalar(3)];
    assert_eq!(pack_words(&fields), vec![1, 2, 3]);
}

#[test]
fn pair_starts_on_an_eight_byte_boundary() {
    let fields = vec![Field::Scalar(1), Field::Vec2(2, 3)];
    assert_eq!(pack_words(&fields), vec![1, 0, 2, 3]);
    let fields = vec![Field::Scalar(1), Field::Scalar(9), Field::Vec2(2, 3)];
    assert_eq!(pack_words(&fields), vec![1, 9, 2, 3]);
}

#[test]
fn triple_starts_on_a_sixteen_byte_boundary_and_leaves_a_word() {
    let fields = vec![Field::Scalar(1), Field::Vec3(2, 3, 4), Field::Scalar(5)];
    assert_eq!(pack_words(&fields), vec![1, 0, 0, 0, 2, 3, 4, 5]);
    let fields = vec![Field::Vec3(2, 3, 4), Field::Vec3(5, 6, 7)];
    assert_eq!(pack_words(&fields), vec![2, 3, 4, 0, 5, 6, 7, 0]);
}

#[test]
fn quadruple_starts_on_a_sixteen_byte_boundary() {
    let fields = vec![Field::Vec2(1, 2), Field::Scalar(3), Field::Vec4(4, 5, 6, 7)];
    assert_eq!(pack_words(&fields), vec![1, 2, 3, 0, 4, 5, 6, 7]);
}

#[test]
fn block_ends_on_its_strictest_alignment() {
    let fields = vec![Field::Vec4(1, 2, 3, 4), Field::Scalar(5)];
    assert_eq!(pack_words(&fields), vec![1, 2, 3, 4, 5, 0, 0, 0]);
    let fields = vec![Field::Vec2(1, 2), Field::Scalar(5)];
    assert_eq!(pack_words(&fields), vec![1, 2, 5, 0]);
    assert_eq!(pack_words(&Vec::new()), Vec::<u32>::new());
    assert_eq!(Field::Vec3(0, 0, 0).alignment(), 4);
    assert_eq!(Field::Vec2(0, 0).alignment(), 2);
    assert_eq!(Field::Scalar(0).alignment(), 1);
}

#[test]
fn words_are_stored_least_significant_byte_first() {
    assert_eq!(store_words(&vec![0x0403_0201]), vec![1, 2, 3, 4]);
    assert_eq!(
        store_words(&vec![0xffff_ffff, 0, 0x8000_0000, 256]),
        vec![255, 255, 255, 255, 0, 0, 0, 0, 0, 0, 0, 128, 0, 1, 0, 0]
    );
    assert_eq!(store_words(&vec![0x1234_5678]), 0x1234_5678u32.to_le_bytes().to_vec());
}

#[test]
fn pack_lays_out_and_stores() {
    let fields = vec![Field::Scalar(0x0102_0304), Field::Vec2(5, 0x0600_0000)];
    assert_eq!(pack(&fields), vec![4, 3, 2, 1, 0, 0, 0, 0, 5, 0, 0, 0, 0, 0, 0, 6]);
}
