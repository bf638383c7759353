use audio_ingest::fonts::{choose_face, encode_checked, sorted_unique, Face};

fn names(list: &[&str]) -> Vec<String> {
    list.iter().map(|n| n.to_string()).collect()
}

fn face(normal_style: bool, normal_weight: bool) -> Option<Face> {
    Some(Face { normal_style, normal_weight })
}

#[test]
fn family_names_are_sorted_and_listed_once() {
    let got = sorted_unique(names(&["Noto Sans", "Arial", "noto sans", "Arial", "宋体", "Arial Black", "Arial"]));
    assert_eq!(got, names(&["Arial", "Arial Black", "Noto Sans", "noto sans", "宋体"]));
    assert_eq!(sorted_unique(Vec::new()), Vec::<String>::new());
    assert_eq!(sorted_unique(names(&["b", "a", "", "a"])), names(&["", "a", "b"]));
}

#[test]
fn sorting_agrees_with_sort_and_dedup() {
    let input = names(&["z", "é", "e", "E", "ee", "", "z", "Z", "e", "10", "9", "é"]);
    let mut expected = input.clone();
    expected.sort();
    expected.dedup();
    assert_eq!(sorted_unique(input), expected);
}

#[test]
fn the_first_regular_face_is_chosen() {
    let faces = vec![None, face(false, true), face(true, false), face(true, true), face(true, true)];
    assert_eq!(choose_face(&faces), Some(3));
    assert_eq!(choose_face(&vec![face(true, true), face(false, false)]), Some(0));
}

#[test]
fn without_a_regular_face_the_first_that_loads_is_chosen() {
    let faces = vec![None, None, face(false, true), face(true, false)];
    assert_eq!(choose_face(&faces), Some(2));
}

#[test]
fn a_family_without_a_face_that_loads_has_no_choice() {
    assert_eq!(choose_face(&vec![None, None]), None);
    assert_eq!(choose_face(&Vec::new()), None);
}

#[test]
fn bytes_are_encoded_in_base64() {
    assert_eq!(encode_checked(b"hello world~"), Some("aGVsbG8gd29ybGR+".to_string()));
    assert_eq!(encode_checked(&[]), Some(String::new()));
    assert_eq!(encode_checked(&[0, 1]), Some("AAE=".to_string()));
}
