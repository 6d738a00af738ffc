use genorm::calculate_output_dir;

#[test]
fn no_root_no_dir() {
    assert_eq!(calculate_output_dir(&None, &None).unwrap(), "");
}

#[test]
fn no_root_with_dir() {
    let dir = Some(String::from("generated/orm/"));
    assert_eq!(calculate_output_dir(&None, &dir).unwrap(), "generated/orm/");
}

#[test]
fn recognized_root_resolves_to_placeholder() {
    let root = Some(String::from("repository-root"));
    assert_eq!(calculate_output_dir(&root, &None).unwrap(), "./");
    let dir = Some(String::from("gen/"));
    assert_eq!(calculate_output_dir(&root, &dir).unwrap(), "./gen/");
}

#[test]
fn unknown_root_rejected() {
    let root = Some(String::from("HOME"));
    assert_eq!(calculate_output_dir(&root, &None).unwrap_err(), "Unknown root");
    let root = Some(String::from(""));
    let dir = Some(String::from("gen/"));
    assert_eq!(calculate_output_dir(&root, &dir).unwrap_err(), "Unknown root");
}
