use roc_desk_sql::model::{DataSourceInput, DataSourceProfile, DbKind, WorkspaceTab};
use roc_desk_sql::repo::{
    db_kind_from_str, db_kind_to_str, history_from_row, history_row, profile_from_row, profile_to_row,
    read_id, tab_from_row, tab_to_row, SqlDataSourcesRepo, SqlQueryHistoryRepo, SqlWorkspaceTabsRepo,
};
use roc_desk_sql::service::{
    credential_key, effective_database, new_profile, plan_create_credential, plan_update_credential,
    resolve_profile, updated_profile, with_database, SqlDataSourceService,
};
use roc_desk_sql::text::uuid_string;
use uuid::Uuid;

fn profile(id: u128) -> DataSourceProfile {
    DataSourceProfile {
        id,
        name: "local-pg".into(),
        db_kind: DbKind::Postgres,
        host: "127.0.0.1".into(),
        port: Some(5432),
        database_name: Some("postgres".into()),
        default_schema: Some("public".into()),
        username: Some("postgres".into()),
        credential_ref: None,
        environment: "dev".into(),
        group_name: None,
        readonly: true,
        ssl_required: false,
        created_at: "2026-01-01T00:00:00Z".into(),
        updated_at: "2026-01-01T00:00:00Z".into(),
        last_used_at: None,
    }
}

fn input(kind: DbKind, port: Option<u16>, password: Option<&str>) -> DataSourceInput {
    DataSourceInput {
        name: "n".into(),
        db_kind: kind,
        host: "h".into(),
        port,
        database_name: Some("db".into()),
        default_schema: None,
        username: Some("u".into()),
        password: password.map(|p| p.to_string()),
        environment: "prod".into(),
        group_name: Some("g".into()),
        readonly: false,
        ssl_required: true,
    }
}

#[test]
fn uuid_text_matches_the_uuid_crate() {
    for _ in 0..20 {
        let u = Uuid::new_v4();
        assert_eq!(uuid_string(u.as_u128()), u.to_string());
        assert_eq!(read_id(&u.to_string()), u.as_u128());
    }
    assert_eq!(uuid_string(0), "00000000-0000-0000-0000-000000000000");
    assert_eq!(read_id("not a uuid"), 0);
}

#[test]
fn db_kinds_round_trip_through_their_names() {
    for k in [DbKind::Mysql, DbKind::Tdsql, DbKind::Postgres, DbKind::Opengauss, DbKind::SqlServer, DbKind::Oracle] {
        assert_eq!(db_kind_from_str(db_kind_to_str(k)), k);
    }
    assert_eq!(db_kind_to_str(DbKind::SqlServer), "sqlserver");
    assert_eq!(db_kind_from_str("unknown"), DbKind::Postgres);
}

#[test]
fn profiles_round_trip_through_rows() {
    let id = Uuid::new_v4().as_u128();
    let p = profile(id);
    let row = profile_to_row(&p);
    assert_eq!(row.id, Uuid::from_u128(id).to_string());
    assert_eq!(row.db_kind, "postgres");
    assert_eq!(row.port, Some(5432));
    assert_eq!(row.readonly, 1);
    assert_eq!(row.ssl_required, 0);
    let back = profile_from_row(&row);
    assert_eq!(back.id, id);
    assert_eq!(back.name, "local-pg");
    assert_eq!(back.db_kind, DbKind::Postgres);
    assert_eq!(back.port, Some(5432));
    assert!(back.readonly && !back.ssl_required);
    assert_eq!(back.database_name.as_deref(), Some("postgres"));
}

#[test]
fn history_and_tabs_round_trip_through_rows() {
    let ds = Uuid::new_v4().as_u128();
    let entry_id = Uuid::new_v4().as_u128();
    let row = history_row(entry_id, ds, "SELECT 1", "finished", Some(5), Some(1), None, "2026-01-01");
    let e = history_from_row(&row);
    assert_eq!(e.id, entry_id);
    assert_eq!(e.data_source_id, ds);
    assert_eq!(e.sql_text, "SELECT 1");
    assert_eq!(e.status, "finished");
    assert_eq!(e.duration_ms, Some(5));
    assert!(e.title.is_none() && e.error_message.is_none());
    let tab = WorkspaceTab {
        id: 7,
        data_source_id: ds,
        title: "q".into(),
        file_path: "queries/x.sql".into(),
        result_view_mode: "grid".into(),
        cursor_json: Some("{}".into()),
        sort_order: 3,
        updated_at: "now".into(),
    };
    let back = tab_from_row(&tab_to_row(&tab));
    assert_eq!(back.id, 7);
    assert_eq!(back.data_source_id, ds);
    assert_eq!(back.cursor_json.as_deref(), Some("{}"));
    assert_eq!(back.sort_order, 3);
}

#[test]
fn repositories_hold_their_pool() {
    assert_eq!(*SqlDataSourcesRepo::new(41u8).pool(), 41);
    assert_eq!(*SqlQueryHistoryRepo::new("p").pool(), "p");
    assert_eq!(*SqlWorkspaceTabsRepo::new(3i32).pool(), 3);
    let svc = SqlDataSourceService::new(1u8, 2u8);
    assert_eq!((*svc.repo(), *svc.credential_store()), (1, 2));
}

#[test]
fn credentials_are_kept_under_the_right_key() {
    let id = Uuid::new_v4().as_u128();
    let key = credential_key(id);
    assert_eq!(key, format!("sql:{}:password", Uuid::from_u128(id)));
    let p = plan_create_credential(id, &Some("secret".into()));
    assert_eq!(p.store_under.as_deref(), Some(key.as_str()));
    assert_eq!(p.credential_ref.as_deref(), Some(key.as_str()));
    let none = plan_create_credential(id, &Some(String::new()));
    assert!(none.store_under.is_none() && none.credential_ref.is_none());
    let keep = plan_update_credential(id, &Some("old-key".into()), &None);
    assert!(keep.store_under.is_none());
    assert_eq!(keep.credential_ref.as_deref(), Some("old-key"));
    let replace = plan_update_credential(id, &Some("old-key".into()), &Some("new".into()));
    assert_eq!(replace.store_under.as_deref(), Some("old-key"));
    let fresh = plan_update_credential(id, &None, &Some("new".into()));
    assert_eq!(fresh.credential_ref.as_deref(), Some(key.as_str()));
}

#[test]
fn profiles_from_input() {
    let p = new_profile(9, input(DbKind::Tdsql, None, None), None, "t0");
    assert_eq!(p.port, Some(15300));
    assert_eq!(p.created_at, "t0");
    assert_eq!(p.updated_at, "t0");
    assert!(p.last_used_at.is_none());
    let mut existing = profile(9);
    existing.last_used_at = Some("t1".into());
    let u = updated_profile(&existing, input(DbKind::SqlServer, Some(1500), None), Some("k".into()), "t2");
    assert_eq!(u.id, 9);
    assert_eq!(u.port, Some(1500));
    assert_eq!(u.created_at, existing.created_at);
    assert_eq!(u.updated_at, "t2");
    assert_eq!(u.last_used_at.as_deref(), Some("t1"));
    assert_eq!(u.credential_ref.as_deref(), Some("k"));
}

#[test]
fn resolution_fills_the_port_and_database() {
    let mut p = profile(1);
    p.port = None;
    p.db_kind = DbKind::SqlServer;
    let r = resolve_profile(p, Some("pw".into()));
    assert_eq!(r.port, 1433);
    assert_eq!(r.password.as_deref(), Some("pw"));
    let switched = with_database(r, &Some("other".into()));
    assert_eq!(switched.database_name.as_deref(), Some("other"));
    assert_eq!(effective_database(&None, &Some("a".into())).as_deref(), Some("a"));
    assert_eq!(effective_database(&Some("b".into()), &Some("a".into())).as_deref(), Some("b"));
}
