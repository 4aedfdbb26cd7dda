use oxis::name::{candidate, name_of_draw, random_name, render, ENTROPY_LEN, NAME_LEN};
use oxis::random::{fill, settle, RandomError};

fn is_hex(byte: u8) -> bool {
    (b'0'..=b'9').contains(&byte) || (b'a'..=b'f').contains(&byte)
}

#[test]
fn bytes_render_as_lower_case_hexadecimal() {
    assert_eq!(render(&vec![0x00, 0xff, 0x1a]), b"00ff1a".to_vec());
    assert_eq!(render(&vec![0x09, 0x0a, 0x90, 0xa0]), b"090a90a0".to_vec());
    assert_eq!(render(&Vec::new()), Vec::<u8>::new());
    assert_eq!(render(&vec![0x01, 0x23, 0x45, 0x67, 0x89, 0xab, 0xcd, 0xef]), b"0123456789abcdef".to_vec());
}

#[test]
fn every_byte_renders_to_its_own_two_digits() {
    let mut seen = std::collections::BTreeSet::new();
    for byte in 0..=255u8 {
        let text = render(&vec![byte]);
        assert_eq!(text.len(), 2);
        assert!(text.iter().all(|&b| is_hex(b)));
        assert_eq!(format!("{:02x}", byte).into_bytes(), text);
        assert!(seen.insert(text));
    }
}

#[test]
fn name_has_the_fixed_length() {
    assert_eq!(ENTROPY_LEN, 32);
    assert_eq!(NAME_LEN, 64);
    assert_eq!(render(&vec![7u8; ENTROPY_LEN]).len(), NAME_LEN);
}

#[test]
fn candidate_is_the_rendered_entropy() {
    let entropy = vec![0xabu8; 32];
    let name = candidate(&entropy, &b"dir/file".to_vec());
    assert_eq!(name, Some(render(&entropy)));
}

#[test]
fn candidate_never_is_the_name_the_file_has() {
    let entropy = vec![0x5cu8; 32];
    let mut path = b"dir/".to_vec();
    path.extend_from_slice(&render(&entropy));
    assert_eq!(candidate(&entropy, &path), None);
    assert_eq!(candidate(&entropy, &render(&entropy)), None);
    let other = vec![0x5du8; 32];
    assert_eq!(candidate(&other, &path), Some(render(&other)));
}

#[test]
fn failed_draw_gives_no_name() {
    let entropy = vec![0x11u8; 32];
    let path = b"dir/file".to_vec();
    assert_eq!(name_of_draw(Err(RandomError {}), &entropy, &path), Err(RandomError {}));
    assert_eq!(name_of_draw(Ok(()), &entropy, &path), Ok(render(&entropy)));
    assert_eq!(name_of_draw(Ok(()), &entropy, &render(&entropy)), Err(RandomError {}));
}

#[test]
fn random_name_is_sixty_four_digits() {
    let name = random_name(&b"dir/file".to_vec()).unwrap();
    assert_eq!(name.len(), 64);
    assert!(name.iter().all(|&b| is_hex(b)));
    assert!(!name.contains(&b'/'));
}

#[test]
fn random_names_never_repeat_and_never_reuse_the_original() {
    let initial = render(&vec![0u8; 32]);
    let mut path = b"some/dir/".to_vec();
    path.extend_from_slice(&initial);
    let mut seen = std::collections::HashSet::new();
    for _ in 0..10_000 {
        let name = random_name(&path).unwrap();
        assert_ne!(name, initial);
        assert_ne!(name, b"file".to_vec());
        assert!(seen.insert(name));
    }
    assert_eq!(seen.len(), 10_000);
}

#[test]
fn fill_replaces_the_bytes_and_keeps_the_length() {
    let mut buffer = vec![0u8; 64];
    assert_eq!(fill(&mut buffer), Ok(()));
    assert_eq!(buffer.len(), 64);
    assert_ne!(buffer, vec![0u8; 64]);
    let first = buffer.clone();
    assert_eq!(fill(&mut buffer), Ok(()));
    assert_ne!(buffer, first);
}

#[test]
fn fill_of_nothing_succeeds() {
    let mut buffer: Vec<u8> = Vec::new();
    assert_eq!(fill(&mut buffer), Ok(()));
    assert!(buffer.is_empty());
}

#[test]
fn source_outcome_is_passed_on() {
    assert_eq!(settle(Ok(())), Ok(()));
    assert_eq!(settle(Err(getrandom::Error::UNSUPPORTED)), Err(RandomError {}));
    assert_eq!(settle(Err(getrandom::Error::UNEXPECTED)), Err(RandomError {}));
}
