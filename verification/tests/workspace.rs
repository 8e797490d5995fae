use roc_desk_sql::error::AppError;
use roc_desk_sql::workspace_cache::{
    guard_decision, path_is_within, sanitize_filename_component, schema_ddl_file_name,
    tab_file_rel_path, unavailable_root_error, GuardedPath, SqlWorkspaceCache,
};
use uuid::Uuid;

fn path(parts: &[&str]) -> Vec<String> {
    parts.iter().map(|p| p.to_string()).collect()
}

const ID: u128 = 0x0123_4567_89ab_cdef_0011_2233_4455_6677;

#[test]
fn directories_of_a_data_source() {
    let cache = SqlWorkspaceCache::new(path(&["home", "cache"]));
    let id_text = Uuid::from_u128(ID).hyphenated().to_string();
    assert_eq!(cache.data_source_root(ID), path(&["home", "cache", "sql", &id_text]));
    assert_eq!(cache.queries_dir(ID), path(&["home", "cache", "sql", &id_text, "queries"]));
    assert_eq!(cache.schema_cache_dir(ID), path(&["home", "cache", "sql", &id_text, "schema_cache"]));
    assert_eq!(cache.exports_dir(ID), path(&["home", "cache", "sql", &id_text, "exports"]));
    assert_eq!(tab_file_rel_path(ID), format!("queries/{}.sql", id_text));
}

#[test]
fn file_names_are_sanitised() {
    assert_eq!(sanitize_filename_component("a b/c:d"), "a_b_c_d");
    assert_eq!(sanitize_filename_component("ok_name-1"), "ok_name-1");
    assert_eq!(sanitize_filename_component("表名"), "表名");
    assert_eq!(schema_ddl_file_name("public", "my table"), "public__my_table.ddl.sql");
}

#[test]
fn containment_is_by_whole_components() {
    let root = path(&["r", "sql", "x"]);
    assert!(path_is_within(&root, &path(&["r", "sql", "x"])));
    assert!(path_is_within(&root, &path(&["r", "sql", "x", "queries", "a.sql"])));
    assert!(!path_is_within(&root, &path(&["r", "sql", "xy"])));
    assert!(!path_is_within(&root, &path(&["r", "sql"])));
}

#[test]
fn the_guard_keeps_accesses_inside_the_root() {
    let root = path(&["r", "ds"]);
    assert_eq!(
        guard_decision("queries/a.sql", &root, Some(path(&["r", "ds", "queries", "a.sql"])), None).unwrap(),
        GuardedPath::Canonical
    );
    match guard_decision("../other", &root, Some(path(&["r", "other"])), None) {
        Err(AppError::PermissionDenied(m)) => assert_eq!(m, "路径 ../other 越界，拒绝访问"),
        other => panic!("unexpected {:?}", other),
    }
    assert_eq!(
        guard_decision("queries/new.sql", &root, None, Some(Some(path(&["r", "ds", "queries"])))).unwrap(),
        GuardedPath::Joined
    );
    assert!(matches!(
        guard_decision("../x/new.sql", &root, None, Some(Some(path(&["r", "x"])))),
        Err(AppError::PermissionDenied(_))
    ));
    match guard_decision("missing/new.sql", &root, None, Some(None)) {
        Err(AppError::PermissionDenied(m)) => assert_eq!(m, "非法路径：missing/new.sql"),
        other => panic!("unexpected {:?}", other),
    }
    assert!(matches!(guard_decision("", &root, None, None), Err(AppError::PermissionDenied(_))));
    match unavailable_root_error("gone") {
        AppError::Internal(m) => assert_eq!(m, "SQL 工作区目录不可用：gone"),
        other => panic!("unexpected {:?}", other),
    }
}
