use pglockanalyze::{Location, RelfilenodeSnapshot, Statement, TableRewrite, TableRewrites};

fn snap(oid: u32, relname: &str, relfilenode: u32) -> RelfilenodeSnapshot {
    RelfilenodeSnapshot {
        oid,
        relname: relname.to_string(),
        relfilenode,
    }
}

#[test]
fn statement_from_observations_computes_rewrites() {
    let stmt = Statement::from_observations(
        "ALTER TABLE test_data DROP COLUMN status".to_string(),
        "\tacquired `AccessExclusive` lock on relation `test_data` (oid=16386)".to_string(),
        vec![snap(16386, "test_data", 16386)],
        vec![snap(16386, "test_data", 16402)],
        Location {
            start_line: 1,
            end_line: 2,
        },
    );
    assert_eq!(stmt.sql, "ALTER TABLE test_data DROP COLUMN status");
    assert_eq!(
        stmt.table_rewrites,
        TableRewrites(vec![TableRewrite {
            table: "test_data".to_string()
        }])
    );
    assert_eq!(
        stmt.location,
        Location {
            start_line: 1,
            end_line: 2
        }
    );
}

#[test]
fn statement_display() {
    let stmt = Statement::from_observations(
        "ALTER TABLE users ALTER COLUMN name SET NOT NULL".to_string(),
        "\tacquired `AccessExclusive` lock on relation `users` (oid=16386)".to_string(),
        vec![snap(16386, "users", 16386)],
        vec![snap(16386, "users", 16386)],
        Location {
            start_line: 3,
            end_line: 3,
        },
    );
    assert_eq!(
        stmt.to_string(),
        "ALTER TABLE users ALTER COLUMN name SET NOT NULL\n\tacquired `AccessExclusive` lock on relation `users` (oid=16386)\n\t(no table rewrites)"
    );
}
