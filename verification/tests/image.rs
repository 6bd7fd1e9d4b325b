use prun::image::resolve_image_path;

#[test]
fn relative_image_joins_under_base() {
    let base = b"/srv/images".to_vec();
    let image = b"alpine".to_vec();
    assert_eq!(resolve_image_path(&base, &image), b"/srv/images/alpine".to_vec());
}

#[test]
fn trailing_separator_is_not_doubled() {
    let base = b"/srv/images/".to_vec();
    let image = b"alpine".to_vec();
    assert_eq!(resolve_image_path(&base, &image), b"/srv/images/alpine".to_vec());
}

#[test]
fn absolute_image_replaces_base() {
    let base = b"/srv/images".to_vec();
    let image = b"/srv/rootfs".to_vec();
    assert_eq!(resolve_image_path(&base, &image), b"/srv/rootfs".to_vec());
}

#[test]
fn empty_base_keeps_image() {
    let base = Vec::new();
    let image = b"alpine".to_vec();
    assert_eq!(resolve_image_path(&base, &image), b"alpine".to_vec());
}
