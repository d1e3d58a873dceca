use dockctl::records::{
    normalize_container, normalize_containers, normalize_image, normalize_images,
    normalize_inspection, ContainerRecord, ImageRecord, InspectRecord, RecordError,
};
use dockctl::text::{decimal_text, digits_text, join_texts, leading_text};

fn image(id: &str, size: i64, tags: &[&str]) -> ImageRecord {
    ImageRecord {
        id: id.to_string(),
        size,
        repo_tags: tags.iter().map(|t| t.to_string()).collect(),
    }
}

fn container(
    id: Option<&str>,
    names: Option<&[&str]>,
    image: Option<&str>,
    state: Option<&str>,
) -> ContainerRecord {
    ContainerRecord {
        id: id.map(|s| s.to_string()),
        names: names.map(|ns| ns.iter().map(|n| n.to_string()).collect()),
        image: image.map(|s| s.to_string()),
        state: state.map(|s| s.to_string()),
    }
}

fn names_row(names: Option<&[&str]>) -> String {
    normalize_container(&container(None, names, None, None)).name
}

#[test]
fn image_row_takes_twelve_chars_after_prefix() {
    let rec = image(
        "sha256:abcdef1234567890abcdef1234567890",
        2048000,
        &["app:latest", "app:v1"],
    );
    let row = normalize_image(&rec).ok().unwrap();
    assert_eq!(row.id, "abcdef123456");
    assert_eq!(row.tag, "app:latest");
    assert_eq!(row.size_kb, "2000");
}

#[test]
fn image_size_rounds_down_to_kilobytes() {
    let id = "sha256:0123456789ab";
    assert_eq!(normalize_image(&image(id, 1023, &["a"])).ok().unwrap().size_kb, "0");
    assert_eq!(normalize_image(&image(id, 1024, &["a"])).ok().unwrap().size_kb, "1");
    assert_eq!(normalize_image(&image(id, 0, &["a"])).ok().unwrap().size_kb, "0");
    assert_eq!(normalize_image(&image(id, -1, &["a"])).ok().unwrap().size_kb, "-1");
    assert_eq!(normalize_image(&image(id, -1025, &["a"])).ok().unwrap().size_kb, "-2");
}

#[test]
fn image_identifier_of_exactly_prefix_and_twelve() {
    let row = normalize_image(&image("sha256:0123456789ab", 5, &["x:y"])).ok().unwrap();
    assert_eq!(row.id, "0123456789ab");
}

#[test]
fn image_without_prefix_is_malformed() {
    let r = normalize_image(&image("abcdef1234567890abcdef", 10, &["a:b"]));
    assert_eq!(r.err(), Some(RecordError::MissingDigestPrefix));
    let r = normalize_image(&image("sha512:abcdef1234567890", 10, &["a:b"]));
    assert_eq!(r.err(), Some(RecordError::MissingDigestPrefix));
    let r = normalize_image(&image("", 10, &["a:b"]));
    assert_eq!(r.err(), Some(RecordError::MissingDigestPrefix));
}

#[test]
fn image_with_short_identifier_is_malformed() {
    let r = normalize_image(&image("sha256:abc", 10, &["a:b"]));
    assert_eq!(r.err(), Some(RecordError::ShortIdentifier));
}

#[test]
fn image_without_tags_is_malformed() {
    let r = normalize_image(&image("sha256:111111222222333333", 1024, &[]));
    assert_eq!(r.err(), Some(RecordError::NoTags));
}

#[test]
fn images_fail_on_first_malformed_record() {
    let recs = vec![
        image("sha256:abcdef123456aaaa", 2048000, &["app:latest"]),
        image("nohash", 1, &[]),
        image("sha256:111111222222", 1024, &[]),
    ];
    assert_eq!(normalize_images(&recs).err(), Some(RecordError::MissingDigestPrefix));
}

#[test]
fn images_keep_order() {
    let recs = vec![
        image("sha256:aaaaaaaaaaaa0000", 4096, &["a:1"]),
        image("sha256:bbbbbbbbbbbb1111", 1024, &["b:2"]),
    ];
    let rows = normalize_images(&recs).ok().unwrap();
    assert_eq!(rows.len(), 2);
    assert_eq!(rows[0].id, "aaaaaaaaaaaa");
    assert_eq!(rows[0].size_kb, "4");
    assert_eq!(rows[1].tag, "b:2");
}

#[test]
fn single_slash_name_is_stripped() {
    assert_eq!(names_row(Some(&["/web-1"])), "web-1");
}

#[test]
fn missing_or_empty_names_give_placeholder() {
    assert_eq!(names_row(Some(&[])), "n/a");
    assert_eq!(names_row(None), "n/a");
}

#[test]
fn several_names_strip_only_leading_slash() {
    assert_eq!(names_row(Some(&["/a", "/b"])), "a, /b");
}

#[test]
fn name_without_slash_is_kept() {
    assert_eq!(names_row(Some(&["web"])), "web");
}

#[test]
fn container_fields_default_to_empty() {
    let row = normalize_container(&container(None, None, None, None));
    assert_eq!(row.id, "");
    assert_eq!(row.name, "n/a");
    assert_eq!(row.image, "");
    assert_eq!(row.state, "");
}

#[test]
fn container_id_is_truncated_to_twelve() {
    let row = normalize_container(&container(
        Some("0123456789abcdef0123"),
        Some(&["/db"]),
        Some("postgres:16"),
        Some("running"),
    ));
    assert_eq!(row.id, "0123456789ab");
    assert_eq!(row.name, "db");
    assert_eq!(row.image, "postgres:16");
    assert_eq!(row.state, "running");
}

#[test]
fn short_container_id_is_kept_whole() {
    let row = normalize_container(&container(Some("abc"), None, None, None));
    assert_eq!(row.id, "abc");
}

#[test]
fn containers_keep_order_and_count() {
    let recs = vec![
        container(Some("111111111111111"), Some(&["/one"]), None, Some("running")),
        container(None, None, Some("img"), None),
    ];
    let rows = normalize_containers(&recs);
    assert_eq!(rows.len(), 2);
    assert_eq!(rows[0].id, "111111111111");
    assert_eq!(rows[0].name, "one");
    assert_eq!(rows[1].image, "img");
}

#[test]
fn inspection_row_from_full_record() {
    let rec = InspectRecord {
        id: Some("abcdef".to_string()),
        name: Some("/web".to_string()),
        image: Some("sha256:ffff".to_string()),
        size_root_fs: Some(123456),
        status: Some("running".to_string()),
    };
    let row = normalize_inspection(&rec).ok().unwrap();
    assert_eq!(row.id, "abcdef");
    assert_eq!(row.name, "/web");
    assert_eq!(row.image, "sha256:ffff");
    assert_eq!(row.size, "123456");
    assert_eq!(row.status, "running");
}

#[test]
fn inspection_without_size_shows_dash() {
    let rec = InspectRecord {
        id: None,
        name: None,
        image: None,
        size_root_fs: None,
        status: Some("paused".to_string()),
    };
    let row = normalize_inspection(&rec).ok().unwrap();
    assert_eq!(row.size, "-");
    assert_eq!(row.id, "");
}

#[test]
fn inspection_without_status_fails() {
    let rec = InspectRecord {
        id: Some("x".to_string()),
        name: None,
        image: None,
        size_root_fs: Some(1),
        status: None,
    };
    assert_eq!(normalize_inspection(&rec).err(), Some(RecordError::MissingStatus));
}

#[test]
fn decimal_text_matches_display() {
    for n in [0i64, 7, 10, 99, 100, 2000, -1, -10, i64::MAX, i64::MIN] {
        assert_eq!(decimal_text(n), n.to_string());
    }
    assert_eq!(digits_text(u64::MAX), u64::MAX.to_string());
}

#[test]
fn join_and_leading_texts() {
    let parts = vec!["x".to_string(), "y".to_string(), "z".to_string()];
    assert_eq!(join_texts(&parts, "--"), "x--y--z");
    assert_eq!(join_texts(&Vec::new(), ", "), "");
    assert_eq!(leading_text("héllo", 2), "hé");
    assert_eq!(leading_text("hi", 12), "hi");
}

#[test]
fn inspection_table_has_header_and_one_row() {
    let rec = InspectRecord {
        id: Some("abc".to_string()),
        name: Some("/n".to_string()),
        image: Some("img".to_string()),
        size_root_fs: Some(-3),
        status: Some("exited".to_string()),
    };
    let row = normalize_inspection(&rec).ok().unwrap();
    let t = dockctl::command::inspection_table(&row);
    assert_eq!(t.header, vec!["ID", "Container Name", "Image ID", "Container Size", "State"]);
    assert_eq!(t.rows, vec![vec!["abc", "/n", "img", "-3", "exited"]]);
}
