use roc_desk_sql::id_map::{poll_step, IdMap, PollStep};
use roc_desk_sql::model::{DbKind, ResolvedProfile};
use roc_desk_sql::service::DatabaseOverrides;

#[test]
fn a_registered_entry_is_found_until_taken() {
    let mut m: IdMap<&str> = IdMap::new();
    assert!(matches!(poll_step(&mut m, 7, true), PollStep::Unknown));
    m.insert(7, "job");
    assert!(m.contains(7));
    assert_eq!(m.get(7), Some(&"job"));
    assert!(matches!(poll_step(&mut m, 7, false), PollStep::Running));
    assert!(m.contains(7));
    match poll_step(&mut m, 7, true) {
        PollStep::Taken(v) => assert_eq!(v, "job"),
        _ => panic!("expected the entry"),
    }
    assert!(!m.contains(7));
    assert!(matches!(poll_step(&mut m, 7, true), PollStep::Unknown));
}

#[test]
fn ids_list_every_entry_once() {
    let mut m: IdMap<u32> = IdMap::new();
    m.insert(3, 30);
    m.insert(1, 10);
    m.insert(3, 31);
    let mut ids = m.ids();
    ids.sort();
    assert_eq!(ids, vec![1, 3]);
    assert_eq!(m.remove(3), Some(31));
    assert_eq!(m.remove(3), None);
    assert_eq!(m.ids(), vec![1]);
}

fn profile(id: u128, db: Option<&str>) -> ResolvedProfile {
    ResolvedProfile {
        id,
        db_kind: DbKind::Postgres,
        host: "h".into(),
        port: 5432,
        database_name: db.map(|s| s.to_string()),
        default_schema: None,
        username: None,
        password: None,
        ssl_required: false,
        readonly: false,
    }
}

#[test]
fn the_last_database_switch_wins() {
    let mut o = DatabaseOverrides::new();
    let own = Some("app".to_string());
    assert_eq!(o.current_database(1, &own), own);
    assert_eq!(o.switched_to(1), None);
    o.switch_database(1, "reports".into());
    o.switch_database(1, "archive".into());
    assert_eq!(o.current_database(1, &own), Some("archive".to_string()));
    assert_eq!(o.current_database(2, &own), own);
    assert_eq!(o.session_profile(profile(1, Some("app"))).database_name.as_deref(), Some("archive"));
    assert_eq!(o.session_profile(profile(2, None)).database_name, None);
}
