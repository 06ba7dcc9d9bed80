use find_id::classify::{classify_file_name, FileCategories, FileKind};

#[test]
fn classify_each_suffix() {
    assert_eq!(classify_file_name("app_zh-CN.xtb"), FileKind::ZhCn);
    assert_eq!(classify_file_name("app_en-US.xtb"), FileKind::EnUs);
    assert_eq!(classify_file_name("app_en-GB.xtb"), FileKind::EnGb);
    assert_eq!(classify_file_name("resources.grd"), FileKind::Grd);
    assert_eq!(classify_file_name("part.grdp"), FileKind::Grdp);
    assert_eq!(classify_file_name("app_fr.xtb"), FileKind::Other);
    assert_eq!(classify_file_name("readme.txt"), FileKind::Other);
}

#[test]
fn classify_bare_suffix() {
    assert_eq!(classify_file_name("zh-CN.xtb"), FileKind::ZhCn);
    assert_eq!(classify_file_name(".grd"), FileKind::Grd);
}

#[test]
fn add_path_partitions() {
    let mut c = FileCategories::new();
    c.add_path("a_zh-CN.xtb", "/r/a_zh-CN.xtb".to_string());
    c.add_path("a_en-US.xtb", "/r/a_en-US.xtb".to_string());
    c.add_path("a_en-GB.xtb", "/r/a_en-GB.xtb".to_string());
    c.add_path("res.grd", "/r/res.grd".to_string());
    c.add_path("part.grdp", "/r/part.grdp".to_string());
    c.add_path("notes.md", "/r/notes.md".to_string());
    assert_eq!(c.zh_cn_files, vec!["/r/a_zh-CN.xtb".to_string()]);
    assert_eq!(c.en_us_files, vec!["/r/a_en-US.xtb".to_string()]);
    assert_eq!(c.en_gb_files, vec!["/r/a_en-GB.xtb".to_string()]);
    assert_eq!(c.grd_files, vec!["/r/res.grd".to_string()]);
    assert_eq!(c.grdp_files, vec!["/r/part.grdp".to_string()]);
}

#[test]
fn add_path_keeps_order() {
    let mut c = FileCategories::new();
    c.add_path("b_zh-CN.xtb", "b".to_string());
    c.add_path("a_zh-CN.xtb", "a".to_string());
    assert_eq!(c.zh_cn_files, vec!["b".to_string(), "a".to_string()]);
}
