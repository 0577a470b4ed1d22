use crate::rewrite::{
    RelfilenodeSnapshot, TableRewrites, law_report_names_every_table, rewrites_report,
    rewritten_tables,
};
use vstd::prelude::*;

verus! {

/// Starting and ending lines in the original input where a statement appears
#[derive(Debug, PartialEq, Eq, Structural)]
pub struct Location {
    pub start_line: u64,
    pub end_line: u64,
}

/// The analysis of one statement: its SQL text, the report of the locks it
/// acquired, the tables it rewrote and where it stands in the input.
#[derive(Debug, PartialEq)]
pub struct Statement {
    pub sql: String,
    pub locks_acquired: String,
    pub table_rewrites: TableRewrites,
    pub location: Location,
}

/// The report of a statement: its SQL, the locks it acquired and the tables it
/// rewrote, one part per line.
pub open spec fn statement_report(
    sql: Seq<char>,
    locks_acquired: Seq<char>,
    rewrites: Seq<Seq<char>>,
) -> Seq<char> {
    sql + "\n"@ + locks_acquired + "\n"@ + rewrites_report(rewrites)
}

impl Statement {
    /// Assembles the analysis of a statement from what was observed around its
    /// execution: the relfilenode snapshots taken before and after it run.
    pub fn from_observations(
        sql: String,
        locks_acquired: String,
        relfilenodes_before: Vec<RelfilenodeSnapshot>,
        relfilenodes_after: Vec<RelfilenodeSnapshot>,
        location: Location,
    ) -> (res: Statement)
        ensures
            res.sql@ == sql@,
            res.locks_acquired@ == locks_acquired@,
            res.table_rewrites@ == rewritten_tables(relfilenodes_before@, relfilenodes_after@),
            res.location == location,
    {
        let table_rewrites = TableRewrites::compute(relfilenodes_before, relfilenodes_after);
        Statement { sql, locks_acquired, table_rewrites, location }
    }

    /// Renders the statement, the locks it acquired and its table rewrites,
    /// one part per line.
    pub fn to_string(&self) -> (s: String)
        ensures
            s@ == statement_report(self.sql@, self.locks_acquired@, self.table_rewrites@),
            s@ == self.sql@ + "\n"@ + self.locks_acquired@ + "\n"@ + rewrites_report(
                self.table_rewrites@,
            ),
    {
        let mut s = String::from_str(self.sql.as_str());
        s.append("\n");
        s.append(self.locks_acquired.as_str());
        s.append("\n");
        let rewrites = self.table_rewrites.to_string();
        s.append(rewrites.as_str());
        s
    }
}


/// A statement's report starts with its SQL and the locks report, and ends
/// with the report of its own rewrites.
pub proof fn law_statement_report_ends_with_rewrites(
    sql: Seq<char>,
    locks_acquired: Seq<char>,
    rewrites: Seq<Seq<char>>,
)
    ensures
        ({
            let report = statement_report(sql, locks_acquired, rewrites);
            let tail = rewrites_report(rewrites);
            &&& report.len() == sql.len() + locks_acquired.len() + 2 + tail.len()
            &&& report.take(sql.len() as int) == sql
            &&& report.subrange(report.len() - tail.len(), report.len() as int) == tail
        }),
{
    reveal_strlit("\n");
    let report = statement_report(sql, locks_acquired, rewrites);
    let tail = rewrites_report(rewrites);
    let head = sql + "\n"@ + locks_acquired + "\n"@;
    assert(report =~= head + tail);
    assert(report.take(sql.len() as int) =~= sql);
    assert(report.subrange(report.len() - tail.len(), report.len() as int) =~= tail);
}

/// A statement's report names every table that the statement rewrote.
pub proof fn law_statement_report_names_every_table(
    sql: Seq<char>,
    locks_acquired: Seq<char>,
    rewrites: Seq<Seq<char>>,
    k: int,
)
    requires
        0 <= k < rewrites.len(),
    ensures
        exists|p: int|
            0 <= p && p + rewrites[k].len() <= statement_report(sql, locks_acquired, rewrites).len()
                && #[trigger] statement_report(sql, locks_acquired, rewrites).subrange(
                p,
                p + rewrites[k].len(),
            ) == rewrites[k],
{
    let report = statement_report(sql, locks_acquired, rewrites);
    let tail = rewrites_report(rewrites);
    let head = sql + "\n"@ + locks_acquired + "\n"@;
    assert(report =~= head + tail);
    law_report_names_every_table(rewrites, k);
    let q = choose|q: int|
        0 <= q && q + rewrites[k].len() <= tail.len() && #[trigger] tail.subrange(
            q,
            q + rewrites[k].len(),
        ) == rewrites[k];
    let p = head.len() + q;
    assert(report.subrange(p, p + rewrites[k].len()) =~= tail.subrange(q, q + rewrites[k].len()));
}

} // verus!
