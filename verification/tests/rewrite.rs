use pglockanalyze::{RelfilenodeSnapshot, TableRewrite, TableRewrites};

fn snap(oid: u32, relname: &str, relfilenode: u32) -> RelfilenodeSnapshot {
    RelfilenodeSnapshot {
        oid,
        relname: relname.to_string(),
        relfilenode,
    }
}

#[test]
fn test_rewrite_detected() {
    let before = vec![snap(1, "products", 100)];
    let after = vec![snap(1, "products", 200)];
    let result = TableRewrites::compute(before, after);
    assert_eq!(
        result,
        TableRewrites(vec![TableRewrite {
            table: "products".to_string()
        }])
    );
}

#[test]
fn test_no_rewrite() {
    let before = vec![snap(1, "products", 100)];
    let after = vec![snap(1, "products", 100)];
    let result = TableRewrites::compute(before, after);
    assert_eq!(result, TableRewrites(Vec::new()));
}

#[test]
fn test_new_table_not_reported() {
    let before = vec![];
    let after = vec![snap(1, "products", 100)];
    let result = TableRewrites::compute(before, after);
    assert_eq!(result, TableRewrites(Vec::new()));
}

#[test]
fn test_dropped_table_not_reported() {
    let before = vec![snap(1, "products", 100)];
    let after = vec![];
    let result = TableRewrites::compute(before, after);
    assert_eq!(result, TableRewrites(Vec::new()));
}

#[test]
fn test_rename_not_reported_as_rewrite() {
    // oid stays the same, relname changes, relfilenode stays the same
    let before = vec![snap(1, "orders", 100)];
    let after = vec![snap(1, "orders_archive", 100)];
    let result = TableRewrites::compute(before, after);
    assert_eq!(result, TableRewrites(Vec::new()));
}

#[test]
fn test_multiple_tables_one_rewritten() {
    let before = vec![snap(1, "users", 100), snap(2, "products", 200)];
    let after = vec![snap(1, "users", 100), snap(2, "products", 300)];
    let result = TableRewrites::compute(before, after);
    assert_eq!(
        result,
        TableRewrites(vec![TableRewrite {
            table: "products".to_string()
        }])
    );
}

#[test]
fn test_display_no_rewrites() {
    let rewrites = TableRewrites(Vec::new());
    assert_eq!(rewrites.to_string(), "\t(no table rewrites)");
}

#[test]
fn test_display_with_rewrite() {
    let rewrites = TableRewrites(vec![TableRewrite {
        table: "products".to_string(),
    }]);
    assert_eq!(rewrites.to_string(), "\trewrote table `products`");
}

#[test]
fn rewrite_reported_under_new_name_when_renamed_and_rewritten() {
    let before = vec![snap(7, "orders", 100)];
    let after = vec![snap(7, "orders_archive", 101)];
    let result = TableRewrites::compute(before, after);
    assert_eq!(
        result,
        TableRewrites(vec![TableRewrite {
            table: "orders_archive".to_string()
        }])
    );
}

#[test]
fn rewrites_follow_the_order_of_after() {
    let before = vec![snap(1, "a", 10), snap(2, "b", 20), snap(3, "c", 30)];
    let after = vec![snap(3, "c", 31), snap(2, "b", 20), snap(1, "a", 11)];
    let result = TableRewrites::compute(before, after);
    assert_eq!(
        result,
        TableRewrites(vec![
            TableRewrite { table: "c".to_string() },
            TableRewrite { table: "a".to_string() },
        ])
    );
}

#[test]
fn later_before_snapshot_wins_for_repeated_oid() {
    let before = vec![snap(1, "t", 10), snap(1, "t", 20)];
    let after = vec![snap(1, "t", 20)];
    assert_eq!(TableRewrites::compute(before, after), TableRewrites(Vec::new()));
    let before = vec![snap(1, "t", 20), snap(1, "t", 10)];
    let after = vec![snap(1, "t", 20)];
    assert_eq!(
        TableRewrites::compute(before, after),
        TableRewrites(vec![TableRewrite { table: "t".to_string() }])
    );
}

#[test]
fn new_and_dropped_tables_beside_a_rewrite() {
    let before = vec![snap(1, "kept", 10), snap(2, "dropped", 20)];
    let after = vec![snap(1, "kept", 11), snap(3, "created", 30)];
    assert_eq!(
        TableRewrites::compute(before, after),
        TableRewrites(vec![TableRewrite { table: "kept".to_string() }])
    );
}

#[test]
fn unchanged_catalog_reports_nothing() {
    let snaps = vec![snap(1, "a", 10), snap(2, "b", 20), snap(3, "c", 30)];
    assert_eq!(
        TableRewrites::compute(snaps.clone(), snaps),
        TableRewrites(Vec::new())
    );
}

#[test]
fn empty_snapshots_report_nothing() {
    assert_eq!(TableRewrites::compute(vec![], vec![]), TableRewrites(Vec::new()));
}

#[test]
fn display_of_one_rewrite() {
    let rewrite = TableRewrite {
        table: "users".to_string(),
    };
    assert_eq!(rewrite.to_string(), "rewrote table `users`");
}

#[test]
fn display_of_several_rewrites() {
    let rewrites = TableRewrites(vec![
        TableRewrite { table: "a".to_string() },
        TableRewrite { table: "b".to_string() },
        TableRewrite { table: "c".to_string() },
    ]);
    assert_eq!(
        rewrites.to_string(),
        "\trewrote table `a`\n\trewrote table `b`\n\trewrote table `c`"
    );
}

#[test]
fn default_has_no_rewrites() {
    let rewrites = TableRewrites::default();
    assert_eq!(rewrites, TableRewrites(Vec::new()));
    assert_eq!(rewrites.to_string(), "\t(no table rewrites)");
}
