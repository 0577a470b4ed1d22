use std::collections::HashMap;
use vstd::prelude::*;

verus! {

broadcast use vstd::std_specs::hash::group_hash_axioms;

/// A snapshot of a table's relfilenode from pg_class.
#[derive(Debug, Clone)]
pub struct RelfilenodeSnapshot {
    pub oid: u32,
    pub relname: String,
    pub relfilenode: u32,
}

/// A detected table rewrite event.
#[derive(Debug, Clone, PartialEq, Eq)]
pub struct TableRewrite {
    pub table: String,
}

impl View for TableRewrite {
    type V = Seq<char>;

    /// The name of the rewritten table.
    open spec fn view(&self) -> Seq<char> {
        self.table@
    }
}

/// Collection of table rewrites detected for a single statement.
#[derive(Debug, Clone, PartialEq, Eq)]
pub struct TableRewrites(pub Vec<TableRewrite>);

impl View for TableRewrites {
    type V = Seq<Seq<char>>;

    /// The names of the rewritten tables, in the order they were detected.
    open spec fn view(&self) -> Seq<Seq<char>> {
        self.0@.map_values(|r: TableRewrite| r@)
    }
}

/// The relfilenode that the `before` snapshots record for each oid. Where an
/// oid occurs more than once, the later snapshot wins.
pub open spec fn relfilenode_index(before: Seq<RelfilenodeSnapshot>) -> Map<u32, u32>
    decreases before.len(),
{
    if before.len() == 0 {
        Map::empty()
    } else {
        relfilenode_index(before.drop_last()).insert(
            before.last().oid,
            before.last().relfilenode,
        )
    }
}

/// A snapshot shows a rewrite when its table was known before under the same
/// oid with another relfilenode.
pub open spec fn is_rewritten(index: Map<u32, u32>, snap: RelfilenodeSnapshot) -> bool {
    index.contains_key(snap.oid) && index[snap.oid] != snap.relfilenode
}

/// The snapshots of `after` that show a rewrite against `before`, in order.
pub open spec fn rewritten_snapshots(
    before: Seq<RelfilenodeSnapshot>,
    after: Seq<RelfilenodeSnapshot>,
) -> Seq<RelfilenodeSnapshot> {
    let index = relfilenode_index(before);
    after.filter(|s: RelfilenodeSnapshot| is_rewritten(index, s))
}

/// The names, as of `after`, of the tables that were rewritten between the two
/// snapshots.
pub open spec fn rewritten_tables(
    before: Seq<RelfilenodeSnapshot>,
    after: Seq<RelfilenodeSnapshot>,
) -> Seq<Seq<char>> {
    rewritten_snapshots(before, after).map_values(|s: RelfilenodeSnapshot| s.relname@)
}

impl TableRewrites {
    /// Compare before/after relfilenode snapshots to find rewrites.
    ///
    /// Joins on `oid` (not `relname`) so that table renames are correctly
    /// identified as non-rewrites.
    ///
    /// Only reports rewrites for tables that exist in both snapshots with a
    /// changed relfilenode. New tables and dropped tables are omitted.
    pub fn compute(before: Vec<RelfilenodeSnapshot>, after: Vec<RelfilenodeSnapshot>) -> (res:
        Self)
        ensures
            res@ == rewritten_tables(before@, after@),
    {
        let mut before_map: HashMap<u32, u32> = HashMap::new();
        let mut i: usize = 0;
        while i < before.len()
            invariant
                i <= before.len(),
                before_map@ == relfilenode_index(before@.take(i as int)),
            decreases before.len() - i,
        {
            let snap = &before[i];
            before_map.insert(snap.oid, snap.relfilenode);
            proof {
                assert(before@.take(i + 1).drop_last() == before@.take(i as int));
            }
            i = i + 1;
        }
        assert(before@.take(before.len() as int) == before@);
        let ghost index = relfilenode_index(before@);
        let ghost pred = |s: RelfilenodeSnapshot| is_rewritten(index, s);

        let mut rewrites: Vec<TableRewrite> = Vec::new();
        let mut j: usize = 0;
        while j < after.len()
            invariant
                j <= after.len(),
                before_map@ == index,
                pred == (|s: RelfilenodeSnapshot| is_rewritten(index, s)),
                rewrites@.map_values(|r: TableRewrite| r@) == after@.take(j as int).filter(
                    pred,
                ).map_values(|s: RelfilenodeSnapshot| s.relname@),
            decreases after.len() - j,
        {
            let after_snap = &after[j];
            proof {
                reveal_with_fuel(Seq::filter, 1);
                assert(after@.take(j + 1).drop_last() == after@.take(j as int));
                assert(after@.take(j + 1).last() == after@[j as int]);
            }
            let ghost old_rewrites = rewrites@;
            match before_map.get(&after_snap.oid) {
                Some(before_relfilenode) => {
                    if *before_relfilenode != after_snap.relfilenode {
                        rewrites.push(TableRewrite { table: after_snap.relname.clone() });
                        assert(rewrites@.map_values(|r: TableRewrite| r@) == old_rewrites.map_values(
                            |r: TableRewrite| r@,
                        ).push(after_snap.relname@));
                    }
                },
                None => {},
            }
            j = j + 1;
        }
        assert(after@.take(after.len() as int) == after@);
        TableRewrites(rewrites)
    }
}


/// The text that reports one rewrite.
pub open spec fn rewrite_text(table: Seq<char>) -> Seq<char> {
    "rewrote table `"@ + table + "`"@
}

/// The lines that report the given rewrites, one tab-indented line each,
/// joined by newlines.
pub open spec fn rewrite_lines(tables: Seq<Seq<char>>) -> Seq<char>
    decreases tables.len(),
{
    if tables.len() == 0 {
        Seq::empty()
    } else if tables.len() == 1 {
        "\t"@ + rewrite_text(tables[0])
    } else {
        rewrite_lines(tables.drop_last()) + "\n"@ + "\t"@ + rewrite_text(tables.last())
    }
}

/// The report of the rewrites of one statement.
pub open spec fn rewrites_report(tables: Seq<Seq<char>>) -> Seq<char> {
    if tables.len() == 0 {
        "\t(no table rewrites)"@
    } else {
        rewrite_lines(tables)
    }
}

impl Default for TableRewrites {
    /// No rewrites.
    fn default() -> (res: Self)
        ensures
            res@ == Seq::<Seq<char>>::empty(),
    {
        let res = TableRewrites(Vec::new());
        assert(res@ =~= Seq::<Seq<char>>::empty());
        res
    }
}

impl TableRewrite {
    /// Renders the rewrite as "rewrote table `<name>`".
    pub fn to_string(&self) -> (s: String)
        ensures
            s@ == rewrite_text(self@),
            s@ == "rewrote table `"@ + self.table@ + "`"@,
    {
        let mut s = String::from_str("rewrote table `");
        s.append(self.table.as_str());
        s.append("`");
        s
    }
}

impl TableRewrites {
    /// Renders the rewrites one per tab-indented line, or
    /// "\t(no table rewrites)" when there are none.
    pub fn to_string(&self) -> (s: String)
        ensures
            s@ == rewrites_report(self@),
    {
        let rewrites = &self.0;
        if rewrites.len() == 0 {
            return String::from_str("\t(no table rewrites)");
        }
        let mut s = String::new();
        let mut i: usize = 0;
        while i < rewrites.len()
            invariant
                i <= rewrites.len(),
                s@ == rewrite_lines(rewrites@.take(i as int).map_values(|r: TableRewrite| r@)),
            decreases rewrites.len() - i,
        {
            let ghost prefix = rewrites@.take(i as int).map_values(|r: TableRewrite| r@);
            let ghost next = rewrites@.take(i + 1).map_values(|r: TableRewrite| r@);
            proof {
                assert(next.drop_last() == prefix);
                assert(next.last() == rewrites@[i as int]@);
            }
            if i > 0 {
                s.append("\n");
            }
            s.append("\t");
            let line = rewrites[i].to_string();
            s.append(line.as_str());
            i = i + 1;
        }
        assert(rewrites@.take(rewrites.len() as int) == rewrites@);
        s
    }
}


/// The oid-to-relfilenode join: an oid is known exactly when some `before`
/// snapshot carries it, and it then maps to the relfilenode of the last such
/// snapshot.
pub proof fn lemma_relfilenode_index(before: Seq<RelfilenodeSnapshot>, oid: u32)
    ensures
        relfilenode_index(before).contains_key(oid) <==> exists|j: int|
            0 <= j < before.len() && #[trigger] before[j].oid == oid,
        relfilenode_index(before).contains_key(oid) ==> exists|j: int|
            0 <= j < before.len() && #[trigger] before[j].oid == oid
                && relfilenode_index(before)[oid] == before[j].relfilenode
                && forall|k: int| j < k < before.len() ==> before[k].oid != oid,
    decreases before.len(),
{
    if before.len() > 0 {
        let rest = before.drop_last();
        lemma_relfilenode_index(rest, oid);
        if before.last().oid != oid {
            if exists|j: int| 0 <= j < before.len() && #[trigger] before[j].oid == oid {
                let j = choose|j: int| 0 <= j < before.len() && #[trigger] before[j].oid == oid;
                assert(rest[j].oid == oid);
            }
            if relfilenode_index(before).contains_key(oid) {
                let j = choose|j: int|
                    0 <= j < rest.len() && #[trigger] rest[j].oid == oid
                        && relfilenode_index(rest)[oid] == rest[j].relfilenode
                        && forall|k: int| j < k < rest.len() ==> rest[k].oid != oid;
                assert forall|k: int| j < k < before.len() implies before[k].oid != oid by {
                    if k < rest.len() {
                        assert(rest[k] == before[k]);
                    }
                }
                assert(before[j].oid == oid);
            }
        } else {
            let j = before.len() - 1;
            assert(before[j].oid == oid);
            assert(relfilenode_index(before)[oid] == before[j].relfilenode);
            assert(forall|k: int| j < k < before.len() ==> before[k].oid != oid);
        }
    }
}

/// A rewrite is reported only for a table that stands in both snapshots under
/// one oid and whose relfilenode changed; it is reported under its name in
/// `after`.
pub proof fn law_rewrites_only_for_changed_tables(
    before: Seq<RelfilenodeSnapshot>,
    after: Seq<RelfilenodeSnapshot>,
    k: int,
)
    requires
        0 <= k < rewritten_tables(before, after).len(),
    ensures
        exists|i: int, j: int|
            0 <= i < after.len() && 0 <= j < before.len()
                && #[trigger] after[i].relname@ == rewritten_tables(before, after)[k]
                && #[trigger] before[j].oid == after[i].oid
                && before[j].relfilenode != after[i].relfilenode,
{
    broadcast use vstd::seq_lib::group_filter_ensures;
    let index = relfilenode_index(before);
    let pred = |s: RelfilenodeSnapshot| is_rewritten(index, s);
    let kept = after.filter(pred);
    let snap = kept[k];
    assert(pred(snap));
    assert(kept.contains(snap)) by {
        assert(kept[k] == snap);
    }
    lemma_filter_member(after, pred, k);
    let i = choose|i: int| 0 <= i < after.len() && after[i] == kept[k];
    lemma_relfilenode_index(before, snap.oid);
    let j = choose|j: int|
        0 <= j < before.len() && #[trigger] before[j].oid == snap.oid
            && index[snap.oid] == before[j].relfilenode
            && forall|k: int| j < k < before.len() ==> before[k].oid != snap.oid;
    assert(after[i].relname@ == rewritten_tables(before, after)[k]);
    assert(before[j].oid == after[i].oid);
}

/// Every member of a filtered sequence stands in the sequence itself.
proof fn lemma_filter_member<A>(s: Seq<A>, pred: spec_fn(A) -> bool, k: int)
    requires
        0 <= k < s.filter(pred).len(),
    ensures
        exists|i: int| 0 <= i < s.len() && s[i] == s.filter(pred)[k],
    decreases s.len(),
{
    reveal_with_fuel(Seq::filter, 1);
    let rest = s.drop_last().filter(pred);
    if k < rest.len() {
        lemma_filter_member(s.drop_last(), pred, k);
        let i = choose|i: int| 0 <= i < s.drop_last().len() && s.drop_last()[i] == rest[k];
        assert(s[i] == s.filter(pred)[k]);
    } else {
        assert(s[s.len() - 1] == s.filter(pred)[k]);
    }
}

/// Every table of `after` whose relfilenode differs from the one its oid had
/// in `before` is reported as rewritten.
pub proof fn law_every_changed_table_reported(
    before: Seq<RelfilenodeSnapshot>,
    after: Seq<RelfilenodeSnapshot>,
    i: int,
)
    requires
        0 <= i < after.len(),
        is_rewritten(relfilenode_index(before), after[i]),
    ensures
        rewritten_tables(before, after).contains(after[i].relname@),
{
    broadcast use vstd::seq_lib::group_filter_ensures;
    let index = relfilenode_index(before);
    let pred = |s: RelfilenodeSnapshot| is_rewritten(index, s);
    assert(pred(after[i]));
    let kept = after.filter(pred);
    assert(kept.contains(after[i]));
    let k = choose|k: int| 0 <= k < kept.len() && kept[k] == after[i];
    assert(rewritten_tables(before, after)[k] == after[i].relname@);
}

/// No more rewrites are reported than there are tables after the statement.
pub proof fn law_report_bounded_by_after(
    before: Seq<RelfilenodeSnapshot>,
    after: Seq<RelfilenodeSnapshot>,
)
    ensures
        rewritten_tables(before, after).len() <= after.len(),
{
    broadcast use vstd::seq_lib::group_filter_ensures;
    let index = relfilenode_index(before);
    let pred = |s: RelfilenodeSnapshot| is_rewritten(index, s);
    assert(after.filter(pred).len() <= after.len());
}

/// When every table keeps its oid and relfilenode across the statement, no
/// rewrite is reported, whatever the tables were renamed to. (Snapshots taken
/// from pg_class give each oid one relfilenode.)
pub proof fn law_unchanged_relfilenodes_report_nothing(
    before: Seq<RelfilenodeSnapshot>,
    after: Seq<RelfilenodeSnapshot>,
)
    requires
        before.len() == after.len(),
        forall|i: int|
            0 <= i < before.len() ==> #[trigger] before[i].oid == after[i].oid
                && before[i].relfilenode == after[i].relfilenode,
        forall|i: int, j: int|
            0 <= i < before.len() && 0 <= j < before.len() && #[trigger] before[i].oid
                == #[trigger] before[j].oid ==> before[i].relfilenode == before[j].relfilenode,
    ensures
        rewritten_tables(before, after) == Seq::<Seq<char>>::empty(),
{
    let index = relfilenode_index(before);
    let pred = |s: RelfilenodeSnapshot| is_rewritten(index, s);
    assert forall|i: int| 0 <= i < after.len() implies !pred(#[trigger] after[i]) by {
        lemma_relfilenode_index(before, after[i].oid);
        assert(before[i].oid == after[i].oid);
        if index.contains_key(after[i].oid) {
            let j = choose|j: int|
                0 <= j < before.len() && #[trigger] before[j].oid == after[i].oid
                    && index[after[i].oid] == before[j].relfilenode
                    && forall|k: int| j < k < before.len() ==> before[k].oid != after[i].oid;
            assert(before[j].oid == before[i].oid);
        }
    }
    lemma_filter_none(after, pred);
    assert(rewritten_tables(before, after) =~= Seq::<Seq<char>>::empty());
}

/// Filtering keeps nothing when no element satisfies the predicate.
proof fn lemma_filter_none<A>(s: Seq<A>, pred: spec_fn(A) -> bool)
    requires
        forall|i: int| 0 <= i < s.len() ==> !pred(#[trigger] s[i]),
    ensures
        s.filter(pred).len() == 0,
    decreases s.len(),
{
    reveal_with_fuel(Seq::filter, 1);
    if s.len() > 0 {
        let rest = s.drop_last();
        assert forall|i: int| 0 <= i < rest.len() implies !pred(#[trigger] rest[i]) by {
            assert(rest[i] == s[i]);
        }
        lemma_filter_none(rest, pred);
        assert(!pred(s[s.len() - 1]));
    }
}

/// A table created by the statement (its oid stands in no `before` snapshot)
/// adds nothing to the report.
pub proof fn law_new_table_not_reported(
    before: Seq<RelfilenodeSnapshot>,
    after: Seq<RelfilenodeSnapshot>,
    created: RelfilenodeSnapshot,
)
    requires
        forall|j: int| 0 <= j < before.len() ==> #[trigger] before[j].oid != created.oid,
    ensures
        rewritten_tables(before, after.push(created)) == rewritten_tables(before, after),
{
    reveal_with_fuel(Seq::filter, 1);
    lemma_relfilenode_index(before, created.oid);
    let index = relfilenode_index(before);
    let pred = |s: RelfilenodeSnapshot| is_rewritten(index, s);
    assert(after.push(created).drop_last() == after);
    assert(!pred(created));
    assert(after.push(created).filter(pred) == after.filter(pred));
}

/// A table dropped by the statement (its oid stands in no `after` snapshot nor
/// in any other `before` snapshot) changes nothing in the report.
pub proof fn law_dropped_table_not_reported(
    before: Seq<RelfilenodeSnapshot>,
    after: Seq<RelfilenodeSnapshot>,
    dropped: RelfilenodeSnapshot,
)
    requires
        forall|i: int| 0 <= i < after.len() ==> #[trigger] after[i].oid != dropped.oid,
    ensures
        rewritten_tables(before.push(dropped), after) == rewritten_tables(before, after),
{
    let index = relfilenode_index(before);
    let grown = relfilenode_index(before.push(dropped));
    assert(before.push(dropped).drop_last() == before);
    assert(grown == index.insert(dropped.oid, dropped.relfilenode));
    let pred = |s: RelfilenodeSnapshot| is_rewritten(index, s);
    let pred2 = |s: RelfilenodeSnapshot| is_rewritten(grown, s);
    lemma_filter_agree(after, pred, pred2);
}

/// Filters by two predicates that agree on every element keep the same
/// elements.
proof fn lemma_filter_agree<A>(s: Seq<A>, p: spec_fn(A) -> bool, q: spec_fn(A) -> bool)
    requires
        forall|i: int| 0 <= i < s.len() ==> p(#[trigger] s[i]) == q(s[i]),
    ensures
        s.filter(p) == s.filter(q),
    decreases s.len(),
{
    reveal_with_fuel(Seq::filter, 1);
    if s.len() > 0 {
        let rest = s.drop_last();
        assert forall|i: int| 0 <= i < rest.len() implies p(#[trigger] rest[i]) == q(rest[i]) by {
            assert(rest[i] == s[i]);
        }
        lemma_filter_agree(rest, p, q);
        assert(p(s[s.len() - 1]) == q(s[s.len() - 1]));
    }
}


/// Every table of `after` whose oid some `before` snapshot carries, and whose
/// relfilenode differs from the one recorded by the last such `before`
/// snapshot, is reported as rewritten under its `after` name.
pub proof fn law_changed_relfilenode_reported(
    before: Seq<RelfilenodeSnapshot>,
    after: Seq<RelfilenodeSnapshot>,
    i: int,
    j: int,
)
    requires
        0 <= i < after.len(),
        0 <= j < before.len(),
        before[j].oid == after[i].oid,
        forall|k: int| j < k < before.len() ==> #[trigger] before[k].oid != after[i].oid,
        before[j].relfilenode != after[i].relfilenode,
    ensures
        rewritten_tables(before, after).contains(after[i].relname@),
{
    lemma_relfilenode_index(before, after[i].oid);
    let index = relfilenode_index(before);
    assert(index.contains_key(after[i].oid));
    let j2 = choose|j2: int|
        0 <= j2 < before.len() && #[trigger] before[j2].oid == after[i].oid
            && index[after[i].oid] == before[j2].relfilenode
            && forall|k: int| j2 < k < before.len() ==> before[k].oid != after[i].oid;
    if j2 < j {
        assert(before[j].oid != after[i].oid);
    } else if j < j2 {
        assert(before[j2].oid != after[i].oid);
    }
    assert(is_rewritten(index, after[i]));
    law_every_changed_table_reported(before, after, i);
}

/// Every reported table is the `after` name of a snapshot whose oid was last
/// recorded in `before` with another relfilenode.
pub proof fn law_reported_table_had_relfilenode_changed(
    before: Seq<RelfilenodeSnapshot>,
    after: Seq<RelfilenodeSnapshot>,
    k: int,
)
    requires
        0 <= k < rewritten_tables(before, after).len(),
    ensures
        exists|i: int, j: int|
            0 <= i < after.len() && 0 <= j < before.len()
                && #[trigger] after[i].relname@ == rewritten_tables(before, after)[k]
                && #[trigger] before[j].oid == after[i].oid
                && (forall|m: int| j < m < before.len() ==> before[m].oid != after[i].oid)
                && before[j].relfilenode != after[i].relfilenode,
{
    broadcast use vstd::seq_lib::group_filter_ensures;
    let index = relfilenode_index(before);
    let pred = |s: RelfilenodeSnapshot| is_rewritten(index, s);
    let kept = after.filter(pred);
    let snap = kept[k];
    assert(pred(snap));
    lemma_filter_member(after, pred, k);
    let i = choose|i: int| 0 <= i < after.len() && after[i] == kept[k];
    lemma_relfilenode_index(before, snap.oid);
    let j = choose|j: int|
        0 <= j < before.len() && #[trigger] before[j].oid == snap.oid
            && index[snap.oid] == before[j].relfilenode
            && forall|m: int| j < m < before.len() ==> before[m].oid != snap.oid;
    assert(after[i].relname@ == rewritten_tables(before, after)[k]);
    assert(before[j].oid == after[i].oid);
}

/// The text of one rewrite is "rewrote table `", the whole table name, and a
/// closing backtick: the name is read back from it.
pub proof fn law_rewrite_text_holds_name(table: Seq<char>)
    ensures
        rewrite_text(table).len() == table.len() + 16,
        rewrite_text(table).take(15) == "rewrote table `"@,
        rewrite_text(table).subrange(15, rewrite_text(table).len() - 1) == table,
        rewrite_text(table).last() == '`',
{
    reveal_strlit("rewrote table `");
    reveal_strlit("`");
    let t = rewrite_text(table);
    assert(t.take(15) =~= "rewrote table `"@);
    assert(t.subrange(15, t.len() - 1) =~= table);
}

/// The report of one rewrite is its single tab-indented line.
pub proof fn law_report_of_one_rewrite(table: Seq<char>)
    ensures
        rewrites_report(seq![table]) == "\trewrote table `"@ + table + "`"@,
{
    reveal_strlit("\trewrote table `");
    reveal_strlit("\t");
    reveal_strlit("rewrote table `");
    assert(seq![table][0] == table);
    assert(rewrites_report(seq![table]) =~= "\trewrote table `"@ + table + "`"@);
}

/// The report of a list of rewrites joins the reports of any two non-empty
/// parts of it, in order, with a newline: every rewrite gets its own line.
pub proof fn law_report_of_concatenation(first: Seq<Seq<char>>, second: Seq<Seq<char>>)
    requires
        first.len() > 0,
        second.len() > 0,
    ensures
        rewrites_report(first + second) == rewrites_report(first) + "\n"@ + rewrites_report(
            second,
        ),
    decreases second.len(),
{
    let both = first + second;
    if second.len() == 1 {
        assert(both.drop_last() =~= first);
        assert(both.last() == second[0]);
        assert(rewrite_lines(both) =~= rewrite_lines(first) + "\n"@ + rewrite_lines(second));
    } else {
        let shorter = second.drop_last();
        law_report_of_concatenation(first, shorter);
        assert(both.drop_last() =~= first + shorter);
        assert(both.last() == second.last());
        assert(rewrite_lines(both) =~= rewrite_lines(first) + "\n"@ + rewrite_lines(second));
    }
}

/// Every rewritten table's name stands in the report of the rewrites.
pub proof fn law_report_names_every_table(tables: Seq<Seq<char>>, k: int)
    requires
        0 <= k < tables.len(),
    ensures
        exists|p: int|
            0 <= p && p + tables[k].len() <= rewrites_report(tables).len()
                && #[trigger] rewrites_report(tables).subrange(p, p + tables[k].len())
                == tables[k],
    decreases tables.len(),
{
    reveal_strlit("\t");
    reveal_strlit("\n");
    reveal_strlit("rewrote table `");
    let report = rewrites_report(tables);
    if k == tables.len() - 1 {
        let last = tables[k];
        let head: Seq<char> = if tables.len() == 1 {
            "\t"@ + "rewrote table `"@
        } else {
            rewrite_lines(tables.drop_last()) + "\n"@ + "\t"@ + "rewrote table `"@
        };
        assert(tables.len() == 1 ==> tables[0] == last);
        assert(report =~= head + last + "`"@);
        let p = head.len() as int;
        assert(report.subrange(p, p + last.len()) =~= last);
    } else {
        let shorter = tables.drop_last();
        law_report_names_every_table(shorter, k);
        assert(shorter[k] == tables[k]);
        let p = choose|p: int|
            0 <= p && p + shorter[k].len() <= rewrites_report(shorter).len()
                && #[trigger] rewrites_report(shorter).subrange(p, p + shorter[k].len())
                == shorter[k];
        let rest = "\n"@ + "\t"@ + rewrite_text(tables.last());
        assert(report =~= rewrites_report(shorter) + rest);
        assert(report.subrange(p, p + tables[k].len()) =~= rewrites_report(shorter).subrange(
            p,
            p + tables[k].len(),
        ));
    }
}

} // verus!
