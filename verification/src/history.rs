use vstd::prelude::*;

verus! {

/// The values of the rows that were read successfully, in order.
pub open spec fn parsed_values<R, E>(rows: Seq<Result<R, E>>) -> Seq<R>
    decreases rows.len(),
{
    if rows.len() == 0 {
        seq![]
    } else {
        let earlier = parsed_values(rows.drop_last());
        match rows.last() {
            Ok(v) => earlier.push(v),
            Err(_) => earlier,
        }
    }
}

/// The positions of the rows that could not be read, in order.
pub open spec fn failed_positions<R, E>(rows: Seq<Result<R, E>>) -> Seq<int>
    decreases rows.len(),
{
    if rows.len() == 0 {
        seq![]
    } else {
        let earlier = failed_positions(rows.drop_last());
        match rows.last() {
            Ok(_) => earlier,
            Err(_) => earlier.push(rows.len() - 1),
        }
    }
}

/// Whether a row was read successfully.
pub open spec fn row_is_ok<R, E>(row: Result<R, E>) -> bool {
    row is Ok
}

/// The value of a row that was read successfully.
pub open spec fn row_value<R, E>(row: Result<R, E>) -> R {
    row->Ok_0
}

/// The values kept are exactly those of the rows that were read, in their
/// order: the successful rows, each replaced by its value.
pub proof fn lemma_parsed_values_are_the_ok_rows<R, E>(rows: Seq<Result<R, E>>)
    ensures
        parsed_values(rows) == rows.filter(|r: Result<R, E>| row_is_ok(r)).map_values(
            |r: Result<R, E>| row_value(r),
        ),
    decreases rows.len(),
{
    if rows.len() > 0 {
        let rest = rows.drop_last();
        lemma_parsed_values_are_the_ok_rows(rest);
        assert(rows == rest.push(rows.last()));
        rest.lemma_filter_push(rows.last(), |r: Result<R, E>| row_is_ok(r));
        let kept = rest.filter(|r: Result<R, E>| row_is_ok(r));
        assert(kept.push(rows.last()).map_values(|r: Result<R, E>| row_value(r)) =~= kept.map_values(
            |r: Result<R, E>| row_value(r),
        ).push(row_value(rows.last())));
    }
}

/// Reading one more row appends its value where it was read and nothing
/// where it failed; a failure is recorded at the new row's position.
pub proof fn lemma_one_more_row<R, E>(rows: Seq<Result<R, E>>, row: Result<R, E>)
    ensures
        row matches Ok(v) ==> parsed_values(rows.push(row)) == parsed_values(rows).push(v)
            && failed_positions(rows.push(row)) == failed_positions(rows),
        row is Err ==> parsed_values(rows.push(row)) == parsed_values(rows)
            && failed_positions(rows.push(row)) == failed_positions(rows).push(rows.len() as int),
{
    assert(rows.push(row).drop_last() == rows);
}

/// The failures recorded are exactly the rows that could not be read: a
/// position is recorded where and only where its row failed, the positions
/// increase, and every row is either kept or recorded.
pub proof fn lemma_failed_positions_are_the_failed_rows<R, E>(rows: Seq<Result<R, E>>)
    ensures
        forall|i: int| 0 <= i < rows.len() ==> (rows[i] is Err <==> failed_positions(rows).contains(i)),
        forall|j: int, k: int| 0 <= j < k < failed_positions(rows).len() ==> failed_positions(rows)[j]
            < failed_positions(rows)[k],
        forall|k: int| 0 <= k < failed_positions(rows).len() ==> 0 <= #[trigger] failed_positions(rows)[k]
            < rows.len(),
        parsed_values(rows).len() + failed_positions(rows).len() == rows.len(),
    decreases rows.len(),
{
    if rows.len() > 0 {
        let rest = rows.drop_last();
        lemma_failed_positions_are_the_failed_rows(rest);
        assert(forall|i: int| 0 <= i < rest.len() ==> rest[i] == rows[i]);
        let before = failed_positions(rest);
        let after = failed_positions(rows);
        if rows.last() is Err {
            assert(after == before.push(rows.len() - 1));
            assert forall|i: int| 0 <= i < rows.len() implies (rows[i] is Err <==> after.contains(i)) by {
                if i < rows.len() - 1 {
                    if before.contains(i) {
                        let k = choose|k: int| 0 <= k < before.len() && before[k] == i;
                        assert(after[k] == i);
                    }
                    if after.contains(i) {
                        let k = choose|k: int| 0 <= k < after.len() && after[k] == i;
                        assert(k < before.len());
                        assert(before[k] == i);
                    }
                } else {
                    assert(after[after.len() - 1] == i);
                }
            }
        } else {
            assert(after == before);
            assert forall|i: int| 0 <= i < rows.len() implies (rows[i] is Err <==> after.contains(i)) by {
                if i == rows.len() - 1 {
                    if after.contains(i) {
                        let k = choose|k: int| 0 <= k < after.len() && after[k] == i;
                        assert(before[k] < rest.len());
                    }
                }
            }
        }
    }
}

/// Splits the rows read from one data file into the values that were read
/// and the positions of the rows that could not be, keeping the order. A row
/// that fails is skipped, not fatal.
pub fn collect_parsed_rows<R, E>(rows: Vec<Result<R, E>>) -> (r: (Vec<R>, Vec<usize>))
    ensures
        r.0@ == parsed_values(rows@),
        r.1@.map_values(|i: usize| i as int) == failed_positions(rows@),
{
    let ghost all = rows@;
    let count = rows.len();
    let mut values: Vec<R> = Vec::new();
    let mut failures: Vec<usize> = Vec::new();
    let mut index: usize = 0;
    for row in it: rows.into_iter()
        invariant
            it.seq() == all,
            index == it.index(),
            index <= all.len(),
            all.len() == count,
            values@ == parsed_values(all.take(index as int)),
            failures@.map_values(|i: usize| i as int) == failed_positions(all.take(index as int)),
    {
        assert(index < count);
        proof {
            assert(all.take(index as int + 1).drop_last() == all.take(index as int));
        }
        match row {
            Ok(value) => values.push(value),
            Err(_) => {
                proof {
                    assert(failures@.push(index).map_values(|i: usize| i as int) == failures@.map_values(
                        |i: usize| i as int,
                    ).push(index as int));
                }
                failures.push(index);
            },
        }
        index = index + 1;
    }
    proof {
        assert(all.take(all.len() as int) == all);
    }
    (values, failures)
}

} // verus!
