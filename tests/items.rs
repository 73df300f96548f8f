use doable::items::shirt::Size;
use doable::items::{create_large_shirt, Shirt};

#[test]
fn large_shirt_has_colour_and_size() {
    let shirt = create_large_shirt("red".to_string());
    assert_eq!(shirt.color, "red");
    assert_eq!(shirt.size, 2);
    assert_eq!(shirt.size(), Size::Large);
}

#[test]
fn default_shirt_is_small_and_colourless() {
    let shirt = Shirt::default();
    assert_eq!(shirt.color, "");
    assert_eq!(shirt.size, 0);
    assert_eq!(shirt.size(), Size::Small);
}

#[test]
fn unknown_size_number_reads_as_small() {
    let shirt = Shirt { color: "blue".to_string(), size: 7 };
    assert_eq!(shirt.size(), Size::Small);
}

#[test]
fn size_numbers() {
    assert_eq!(Size::Medium.as_i32(), 1);
    assert_eq!(Size::from_i32(2), Some(Size::Large));
    assert_eq!(Size::from_i32(-1), None);
    let mut shirt = Shirt::default();
    shirt.set_size(Size::Medium);
    assert_eq!(shirt.size, 1);
}

#[test]
fn large_red_shirt_bytes() {
    let shirt = create_large_shirt("red".to_string());
    assert_eq!(shirt.encode_to_vec(), vec![0x0a, 3, b'r', b'e', b'd', 0x10, 2]);
}

#[test]
fn default_shirt_encodes_to_nothing() {
    assert!(Shirt::default().encode_to_vec().is_empty());
}

#[test]
fn negative_size_takes_ten_bytes() {
    let shirt = Shirt { color: String::new(), size: -1 };
    let mut expected = vec![0x10];
    expected.extend(std::iter::repeat(0xff).take(9));
    expected.push(0x01);
    assert_eq!(shirt.encode_to_vec(), expected);
}

#[test]
fn long_colour_length_is_a_two_byte_varint() {
    let colour = "é".repeat(100);
    let shirt = Shirt { color: colour.clone(), size: 0 };
    let bytes = shirt.encode_to_vec();
    assert_eq!(&bytes[..3], &[0x0a, 0xc8, 0x01]);
    assert_eq!(&bytes[3..], colour.as_bytes());
}
