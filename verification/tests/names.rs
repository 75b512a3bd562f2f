use atdir::Name;

#[test]
fn a_name_takes_bytes_without_a_zero() {
    assert_eq!(Name::new(b"file").unwrap().as_bytes(), b"file");
    assert_eq!(Name::new(b"a/b/../c").unwrap().as_bytes(), b"a/b/../c");
    assert_eq!(Name::new(b"").unwrap().as_bytes(), b"");
    assert_eq!(Name::new(&[1, 255, 128]).unwrap().as_bytes(), &[1, 255, 128]);
}

#[test]
fn a_name_refuses_a_zero_wherever_it_stands() {
    assert_eq!(Name::new(b"\0"), None);
    assert_eq!(Name::new(b"\0file"), None);
    assert_eq!(Name::new(b"fi\0le"), None);
    assert_eq!(Name::new(b"file\0"), None);
    assert_eq!(Name::new(&[0, 0, 0]), None);
}

#[test]
fn names_compare_by_their_bytes() {
    let text = String::from("file");
    assert_eq!(Name::new(b"file"), Name::new(text.as_bytes()));
    assert_ne!(Name::new(b"file"), Name::new(b"File"));
    assert_ne!(Name::new(b"file"), Name::new(b"files"));
}

#[test]
fn a_long_name_is_read_to_its_end() {
    let mut bytes = vec![b'x'; 5000];
    assert_eq!(Name::new(&bytes).unwrap().as_bytes().len(), 5000);
    bytes[4999] = 0;
    assert_eq!(Name::new(&bytes), None);
    bytes[4999] = b'x';
    bytes[0] = 0;
    assert_eq!(Name::new(&bytes), None);
}
