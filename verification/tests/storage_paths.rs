use pixiv_platform_backend::storage::names_file_path;
use pixiv_platform_backend::images::preview_url_for;
use pixiv_platform_backend::storage::StoragePlanner;

#[test]
fn req_img_004_preview_url_encodes_image_id_without_local_path() {
    assert_eq!(
        preview_url_for("pixiv:144920810:p0"),
        "/api/images/pixiv%3A144920810%3Ap0/file"
    );
}

#[test]
fn req_dl_006_plans_grouped_original_path() {
    let planner = StoragePlanner::new("/tmp/pixiv_downloads");
    let path = planner.original_path("123456", 2, Some("jpg")).unwrap();
    assert_eq!(path, "/tmp/pixiv_downloads/originals/123456/123456_p2.jpg");
}

#[test]
fn req_sec_002_rejects_unsafe_pixiv_id_path_segments() {
    let planner = StoragePlanner::new("/tmp/pixiv_downloads");
    let error = planner.original_path("../123", 0, Some("jpg")).unwrap_err();
    assert_eq!(error.code.as_str(), "VALIDATION_ERROR");
}

#[test]
fn only_paths_with_a_file_name_get_a_temporary_sibling() {
    assert!(names_file_path("/root/a.jpg"));
    assert!(!names_file_path("/root/"));
    assert!(!names_file_path("/root/.."));
    assert!(!names_file_path("."));
    assert!(names_file_path("file"));
}

#[test]
fn planned_paths_stay_below_the_root() {
    let planner = StoragePlanner::new("/srv/pixiv");
    let path = planner.original_path("987", 12, Some(".PNG")).unwrap();
    assert_eq!(path, "/srv/pixiv/originals/987/987_p12.png");
    assert!(path.starts_with("/srv/pixiv/"));
    assert!(!path.contains(".."));
    assert!(planner.original_path("98.7", 0, None).is_err());
    assert!(planner.original_path("987", 0, Some("p/ng")).is_err());
}
