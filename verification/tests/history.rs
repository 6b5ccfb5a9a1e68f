use alinkwise::alinkwise::uplink_history::{
    delete_expired, delete_for_device, get_count, history_union_sql, list, row_to_item,
    search_pattern, Deletion, DeletionStep, Filters, HistoryDeletion, HistoryRow, HISTORY_TABLES,
};
use alinkwise::alinkwise::{setup, Cleanup, CleanupOutcome, CleanupStep};

fn filters(search: &str, f_port: Option<u32>) -> Filters {
    Filters {
        dev_eui: "0102030405060708".to_string(),
        event_type: "up".to_string(),
        search: search.to_string(),
        f_port,
    }
}

fn run(mut deletion: HistoryDeletion, rows: &[u64]) -> (Vec<String>, Vec<String>, u64) {
    let mut statements = Vec::new();
    let mut contexts = Vec::new();
    for n in 0..100 {
        match deletion.step() {
            DeletionStep::Execute(statement) => {
                statements.push(statement.sql);
                contexts.push(statement.context);
                deletion.executed(rows[n]);
            }
            DeletionStep::Finished { deleted } => return (statements, contexts, deleted),
        }
    }
    panic!()
}

#[test]
fn pattern_of_a_search() {
    assert_eq!(search_pattern(""), "");
    assert_eq!(search_pattern(" \t\n"), "");
    assert_eq!(search_pattern("\u{3000}\u{a0}"), "");
    assert_eq!(search_pattern("  a b\u{2003}"), "%a b%");
    assert_eq!(search_pattern("%"), "%%%");
    assert_eq!(search_pattern("\u{200b}"), "%\u{200b}%");
}

#[test]
fn count_statement() {
    let q = get_count(&filters(" x ", Some(7)));
    assert_eq!(
        q.sql,
        format!(
            r#"
        select count(*)::bigint
        from ({}) as event
        where (
            $2 = ''
            or event_type ilike $2
            or search_text ilike $2
        )
          and ($3 < 0 or f_port = $3)
          and ($4 = '' or event_type = $4)
        "#,
            history_union_sql()
        )
    );
    assert_eq!(q.filter.dev_eui, "0102030405060708");
    assert_eq!(q.filter.search, "%x%");
    assert_eq!(q.filter.f_port, 7);
    assert_eq!(q.filter.event_type, "up");
}

#[test]
fn list_statement() {
    let q = list(10, 20, &filters("", None));
    assert_eq!(
        q.sql,
        format!(
            r#"
        select
            deduplication_id,
            event_type,
            to_char(time at time zone 'UTC', 'YYYY-MM-DD"T"HH24:MI:SS.MS"Z"'),
            dev_addr,
            dr,
            f_cnt,
            f_port,
            confirmed,
            data_hex,
            object_json,
            rx_info_json,
            tx_info_json,
            tags_json,
            summary_json
        from ({}) as event
        where (
            $2 = ''
            or event_type ilike $2
            or search_text ilike $2
        )
          and ($3 < 0 or f_port = $3)
          and ($4 = '' or event_type = $4)
        order by time desc
        limit $5 offset $6
        "#,
            history_union_sql()
        )
    );
    assert_eq!(q.filter.search, "");
    assert_eq!(q.filter.f_port, -1);
    assert_eq!((q.limit, q.offset), (10, 20));
}

#[test]
fn union_has_every_table() {
    for table in HISTORY_TABLES {
        assert!(history_union_sql().contains(&format!("from {}\n        where dev_eui = $1", table)));
    }
    assert_eq!(history_union_sql().matches("union all").count(), 7);
}

#[test]
fn list_and_count_select_alike() {
    let f = filters("abc", Some(1));
    let (c, l) = (get_count(&f), list(1, 0, &f));
    let tail = c.sql.split("from (").nth(1).unwrap().to_string();
    assert!(l.sql.contains(&tail));
    assert_eq!(c.filter.search, l.filter.search);
    assert_eq!(c.filter.f_port, l.filter.f_port);
    assert_eq!(c.filter.dev_eui, l.filter.dev_eui);
    assert_eq!(c.filter.event_type, l.filter.event_type);
}

#[test]
fn page_is_bounded() {
    let f = filters("", None);
    let page = |limit, offset| {
        let q = list(limit, offset, &f);
        (q.limit, q.offset)
    };
    assert_eq!(page(0, 0), (1, 0));
    assert_eq!(page(-5, -1), (1, 0));
    assert_eq!(page(i64::MIN, i64::MIN), (1, 0));
    assert_eq!(page(1, 5), (1, 5));
    assert_eq!(page(100, 5), (100, 5));
    assert_eq!(page(101, 5), (100, 5));
    assert_eq!(page(i64::MAX, i64::MAX), (100, i64::MAX));
}

#[test]
fn port_beyond_the_range_selects_all() {
    assert_eq!(get_count(&filters("", Some(0))).filter.f_port, 0);
    assert_eq!(get_count(&filters("", Some(0x7fff_ffff))).filter.f_port, i32::MAX);
    assert_eq!(get_count(&filters("", Some(0x8000_0000))).filter.f_port, i32::MIN);
    assert_eq!(get_count(&filters("", Some(u32::MAX))).filter.f_port, -1);
}

fn row(dr: i32, f_port: i32) -> HistoryRow {
    HistoryRow {
        deduplication_id: "id".to_string(),
        event_type: "up".to_string(),
        time: "2024-01-01T00:00:00.000Z".to_string(),
        dev_addr: "01020304".to_string(),
        dr,
        f_cnt: "10".to_string(),
        f_port,
        confirmed: true,
        data_hex: "ff".to_string(),
        object_json: "{}".to_string(),
        rx_info_json: "[]".to_string(),
        tx_info_json: "{1}".to_string(),
        tags_json: "{2}".to_string(),
        summary_json: "{3}".to_string(),
    }
}

#[test]
fn row_becomes_an_event() {
    let item = row_to_item(row(5, 10));
    assert_eq!(item.deduplication_id, "id");
    assert_eq!(item.event_type, "up");
    assert_eq!(item.time, "2024-01-01T00:00:00.000Z");
    assert_eq!(item.dev_addr, "01020304");
    assert_eq!(item.dr, 5);
    assert_eq!(item.f_cnt, "10");
    assert_eq!(item.f_port, 10);
    assert!(item.confirmed);
    assert_eq!(item.data_hex, "ff");
    assert_eq!(item.object_json, "{}");
    assert_eq!(item.rx_info_json, "[]");
    assert_eq!(item.tx_info_json, "{1}");
    assert_eq!(item.tags_json, "{2}");
    assert_eq!(item.summary_json, "{3}");
}

#[test]
fn negative_numbers_become_zero() {
    let item = row_to_item(row(-1, i32::MIN));
    assert_eq!((item.dr, item.f_port), (0, 0));
    let item = row_to_item(row(0, i32::MAX));
    assert_eq!((item.dr, item.f_port), (0, 0x7fff_ffff));
}

#[test]
fn deletion_for_a_device() {
    let deletion = delete_for_device("0102");
    match deletion.deletion() {
        Deletion::Device { dev_eui } => assert_eq!(dev_eui, "0102"),
        _ => panic!(),
    }
    let (statements, contexts, deleted) = run(deletion, &[1, 2, 3, 4, 5, 6, 7, 8]);
    assert_eq!(deleted, 36);
    assert_eq!(statements.len(), 8);
    for n in 0..8 {
        assert_eq!(
            statements[n],
            format!(
                "delete from {} where lower(dev_eui::text) = lower($1)",
                HISTORY_TABLES[n]
            )
        );
        assert_eq!(contexts[n], format!("Delete device history from {}", HISTORY_TABLES[n]));
    }
}

#[test]
fn deletion_of_expired_events() {
    let deletion = delete_expired(30);
    assert!(matches!(deletion.deletion(), Deletion::Expired { retention_days: 30 }));
    let (statements, contexts, deleted) = run(deletion, &[0, 0, 0, 0, 0, 0, 0, 9]);
    assert_eq!(deleted, 9);
    for n in 0..8 {
        assert_eq!(
            statements[n],
            format!(
                "delete from {} where time < now() - make_interval(days => $1)",
                HISTORY_TABLES[n]
            )
        );
        assert_eq!(contexts[n], format!("Delete expired history from {}", HISTORY_TABLES[n]));
    }
}

#[test]
fn nothing_expires_without_a_retention() {
    assert!(matches!(delete_expired(0).step(), DeletionStep::Finished { deleted: 0 }));
}

#[test]
fn retention_wraps_around() {
    assert!(matches!(
        delete_expired(u32::MAX).deletion(),
        Deletion::Expired { retention_days: -1 }
    ));
}

#[test]
fn cleanup_runs_daily() {
    assert_eq!(setup(0), None);
    assert_eq!(setup(7), Some(Cleanup { period_seconds: 86_400, retention_days: 7 }));
}

#[test]
fn cleanup_goes_on_whatever_a_run_gave() {
    let cleanup = setup(7).unwrap();
    let mut step = cleanup.first();
    assert_eq!(step, CleanupStep::Wait { seconds: 0 });
    for outcome in [
        CleanupOutcome::Failed,
        CleanupOutcome::Deleted { count: 0 },
        CleanupOutcome::Deleted { count: 9 },
    ] {
        step = cleanup.next(step, CleanupOutcome::Due);
        assert_eq!(step, CleanupStep::Delete { retention_days: 7 });
        step = cleanup.next(step, outcome);
        assert_eq!(step, CleanupStep::Wait { seconds: 86_400 });
    }
}
