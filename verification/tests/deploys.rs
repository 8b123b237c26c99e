use rustcontainer::deploy::{base_name, bytes_eq, deploy_destination, StagingArea};

#[test]
fn base_name_is_the_part_after_the_last_slash() {
    assert_eq!(base_name(&b"app".to_vec()), Some(b"app".to_vec()));
    assert_eq!(base_name(&b"dir/app".to_vec()), Some(b"app".to_vec()));
    assert_eq!(base_name(&b"/a/b/c/app".to_vec()), Some(b"app".to_vec()));
}

#[test]
fn paths_naming_no_file_have_no_base_name() {
    assert_eq!(base_name(&b"".to_vec()), None);
    assert_eq!(base_name(&b"dir/".to_vec()), None);
    assert_eq!(base_name(&b"/".to_vec()), None);
}

#[test]
fn destination_is_the_fixed_staging_bin_path() {
    assert_eq!(deploy_destination(&b"app".to_vec()), Some(b"newroot/bin/app".to_vec()));
    assert_eq!(
        deploy_destination(&b"/home/user/target/app".to_vec()),
        Some(b"newroot/bin/app".to_vec())
    );
    assert_eq!(deploy_destination(&b"target/".to_vec()), None);
}

#[test]
fn deploying_into_an_empty_area_leaves_exactly_one_identical_file() {
    let area = StagingArea::empty();
    assert_eq!(area.file_count(), 0);
    let content = b"\x7fELF-some-binary-bytes".to_vec();
    let area = area.deploy_file(b"app".to_vec(), content.clone());
    assert_eq!(area.file_count(), 1);
    let found = area.content_of(&b"app".to_vec()).expect("the deployed file is present");
    assert_eq!(*found, content);
}

#[test]
fn deploying_again_replaces_the_content_and_adds_no_file() {
    let area = StagingArea::empty();
    let area = area.deploy_file(b"app".to_vec(), b"first".to_vec());
    let area = area.deploy_file(b"app".to_vec(), b"second".to_vec());
    assert_eq!(area.file_count(), 1);
    let found = area.content_of(&b"app".to_vec()).expect("the deployed file is present");
    assert_eq!(*found, b"second".to_vec());
}

#[test]
fn distinct_names_are_kept_apart() {
    let area = StagingArea::empty();
    let area = area.deploy_file(b"app".to_vec(), b"one".to_vec());
    let area = area.deploy_file(b"tool".to_vec(), b"two".to_vec());
    assert_eq!(area.file_count(), 2);
    assert_eq!(*area.content_of(&b"app".to_vec()).expect("app is present"), b"one".to_vec());
    assert_eq!(*area.content_of(&b"tool".to_vec()).expect("tool is present"), b"two".to_vec());
    assert!(area.content_of(&b"other".to_vec()).is_none());
}

#[test]
fn bytes_eq_compares_contents() {
    assert!(bytes_eq(&b"abc".to_vec(), &b"abc".to_vec()));
    assert!(!bytes_eq(&b"abc".to_vec(), &b"abd".to_vec()));
    assert!(!bytes_eq(&b"abc".to_vec(), &b"ab".to_vec()));
    assert!(bytes_eq(&b"".to_vec(), &b"".to_vec()));
}
