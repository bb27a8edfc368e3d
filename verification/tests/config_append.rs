use kernel_builder::config::append_block;

#[test]
fn appending_twice_keeps_both_blocks() {
    let base = b"CONFIG_A=y\n".to_vec();
    let first = b"CONFIG_B=y\n";
    let second = b"CONFIG_C=n\n# comment\n";

    let mut content = base.clone();
    append_block(&mut content, first);
    append_block(&mut content, second);

    let mut expected = base.clone();
    expected.extend_from_slice(first);
    expected.extend_from_slice(second);
    assert_eq!(content, expected);

    assert!(content.starts_with(&base));
    assert_eq!(&content[base.len()..base.len() + first.len()], first);
    assert_eq!(&content[base.len() + first.len()..], second);
}

#[test]
fn appending_to_empty_content() {
    let mut content: Vec<u8> = Vec::new();
    append_block(&mut content, b"CONFIG_X=y\n");
    assert_eq!(content, b"CONFIG_X=y\n");
}

#[test]
fn appending_empty_block_changes_nothing() {
    let mut content = b"CONFIG_A=y\n".to_vec();
    append_block(&mut content, b"");
    assert_eq!(content, b"CONFIG_A=y\n");
}
