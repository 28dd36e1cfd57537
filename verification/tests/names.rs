use vk_bootstrap::names::{contains_all_names, contains_name, read_cstr, validation_layer};

fn owned(names: &[&str]) -> Vec<String> {
    names.iter().map(|n| n.to_string()).collect()
}

#[test]
fn validation_layer_has_its_name() {
    assert_eq!(validation_layer(), "VK_LAYER_KHRONOS_validation");
}

#[test]
fn names_are_found_by_equality() {
    let list = owned(&["alpha", "beta", "gamma"]);
    assert!(contains_name(&list, &"beta".to_string()));
    assert!(contains_name(&list, &"alpha".to_string()));
    assert!(contains_name(&list, &"gamma".to_string()));
    assert!(!contains_name(&list, &"bet".to_string()));
    assert!(!contains_name(&list, &"".to_string()));
    assert!(!contains_name(&vec![], &"alpha".to_string()));
    assert!(contains_all_names(&list, &owned(&["gamma", "alpha"])));
    assert!(contains_all_names(&list, &vec![]));
    assert!(!contains_all_names(&list, &owned(&["alpha", "delta"])));
    assert!(!contains_all_names(&vec![], &owned(&["alpha"])));
}

#[test]
fn c_string_ends_at_the_first_nul() {
    let buf: [i8; 8] = [86, 75, 0, 88, 0, 0, 0, 0];
    assert_eq!(read_cstr(&buf), Some(vec![86u8, 75]));
}

#[test]
fn c_string_may_be_empty() {
    assert_eq!(read_cstr(&[0i8, 65, 66]), Some(vec![]));
}

#[test]
fn c_string_without_nul_is_none() {
    assert_eq!(read_cstr(&[65i8, 66, 67]), None);
    assert_eq!(read_cstr(&[]), None);
}

#[test]
fn c_string_keeps_the_bit_pattern_of_negative_chars() {
    let buf: [i8; 5] = [-1, -128, 127, 1, 0];
    assert_eq!(read_cstr(&buf), Some(vec![255u8, 128, 127, 1]));
}

#[test]
fn c_string_reads_an_extension_name_buffer() {
    let mut buf = [0i8; 256];
    for (i, b) in b"VK_KHR_swapchain".iter().enumerate() {
        buf[i] = *b as i8;
    }
    let name = read_cstr(&buf).unwrap();
    assert_eq!(String::from_utf8(name).unwrap(), "VK_KHR_swapchain");
}
