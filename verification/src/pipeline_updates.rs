//! Folding the outcomes of one operation applied to every live preview
//! pipeline (main, detail, navigation) into a single result.
use vstd::prelude::*;
use vstd::string::*;
use crate::text::{join, occurs_in};

verus! {

/// The line that reports one failed pipeline update.
pub open spec fn failure_line(pipeline: Seq<char>, operation: Seq<char>, error: Seq<char>) -> Seq<
    char,
> {
    pipeline + ": "@ + operation + ": "@ + error
}

/// The failure lines of the updates that failed, in the order given.
pub open spec fn failure_lines<'a>(operation: Seq<char>, updates: Seq<(&'a str, Result<(), String>)>) -> Seq<
    Seq<char>,
>
    decreases updates.len(),
{
    if updates.len() == 0 {
        Seq::empty()
    } else {
        let earlier = failure_lines(operation, updates.drop_last());
        match updates.last().1 {
            Ok(_) => earlier,
            Err(error) => earlier.push(failure_line(updates.last().0@, operation, error@)),
        }
    }
}

/// Whether every update succeeded.
pub open spec fn all_succeeded<'a>(updates: Seq<(&'a str, Result<(), String>)>) -> bool {
    forall|i: int| 0 <= i < updates.len() ==> (#[trigger] updates[i]).1 is Ok
}

/// No failure line is written exactly when every update succeeded.
pub proof fn lemma_no_failure_lines_iff_all_succeeded<'a>(
    operation: Seq<char>,
    updates: Seq<(&'a str, Result<(), String>)>,
)
    ensures
        (failure_lines(operation, updates).len() == 0) == all_succeeded(updates),
    decreases updates.len(),
{
    if updates.len() > 0 {
        let earlier = updates.drop_last();
        lemma_no_failure_lines_iff_all_succeeded(operation, earlier);
        if all_succeeded(updates) {
            assert forall|i: int| 0 <= i < earlier.len() implies (#[trigger] earlier[i]).1 is Ok by {
                assert(earlier[i] == updates[i]);
            }
        }
        if all_succeeded(earlier) && updates.last().1 is Ok {
            assert forall|i: int| 0 <= i < updates.len() implies (#[trigger] updates[i]).1 is Ok by {
                if i < earlier.len() {
                    assert(earlier[i] == updates[i]);
                }
            }
        }
    }
}

/// Every failed update has its own line, naming the pipeline, the operation
/// and the error.
pub proof fn lemma_each_failure_has_a_line<'a>(
    operation: Seq<char>,
    updates: Seq<(&'a str, Result<(), String>)>,
    i: int,
)
    requires
        0 <= i < updates.len(),
        updates[i].1 is Err,
    ensures
        failure_lines(operation, updates).contains(
            failure_line(updates[i].0@, operation, updates[i].1->Err_0@),
        ),
    decreases updates.len(),
{
    let earlier = updates.drop_last();
    if i < earlier.len() {
        assert(earlier[i] == updates[i]);
        lemma_each_failure_has_a_line(operation, earlier, i);
        let lines = failure_lines(operation, earlier);
        let k = choose|k: int|
            0 <= k < lines.len() && lines[k] == failure_line(
                updates[i].0@,
                operation,
                updates[i].1->Err_0@,
            );
        match updates.last().1 {
            Ok(_) => {},
            Err(error) => {
                assert(failure_lines(operation, updates)[k] == lines[k]);
            },
        }
    } else {
        let lines = failure_lines(operation, updates);
        assert(lines[lines.len() - 1] == failure_line(
            updates[i].0@,
            operation,
            updates[i].1->Err_0@,
        ));
    }
}

/// Each part of a joined text occurs in it.
pub proof fn lemma_join_contains_part(parts: Seq<Seq<char>>, separator: Seq<char>, k: int)
    requires
        0 <= k < parts.len(),
    ensures
        occurs_in(join(parts, separator), parts[k]),
    decreases parts.len(),
{
    let whole = join(parts, separator);
    if parts.len() == 1 {
        assert(whole.subrange(0int, 0int + parts[k].len()) =~= parts[k]);
        assert(occurs_in(whole, parts[k]));
    } else if k == parts.len() - 1 {
        let head = join(parts.drop_last(), separator) + separator;
        let at = head.len() as int;
        assert(whole.subrange(at, at + parts[k].len()) =~= parts[k]);
        assert(occurs_in(whole, parts[k]));
    } else {
        let earlier = parts.drop_last();
        assert(earlier[k] == parts[k]);
        lemma_join_contains_part(earlier, separator, k);
        let inner = join(earlier, separator);
        let at = choose|at: int|
            0 <= at && at + parts[k].len() <= inner.len() && #[trigger] inner.subrange(
                at,
                at + parts[k].len(),
            ) == parts[k];
        assert(whole.subrange(at, at + parts[k].len()) =~= inner.subrange(
            at,
            at + parts[k].len(),
        ));
        assert(occurs_in(whole, parts[k]));
    }
}

/// Folds per-pipeline outcomes of `operation`: success when every pipeline
/// succeeded, otherwise one error listing each failed pipeline as
/// `pipeline: operation: error`, separated by `; `.
pub fn collect_pipeline_update_results(operation: &str, updates: Vec<(&str, Result<(), String>)>) -> (result: Result<(), String>)
    ensures
        result is Ok <==> all_succeeded(updates@),
        match result {
            Ok(_) => failure_lines(operation@, updates@).len() == 0,
            Err(message) => message@ == join(failure_lines(operation@, updates@), "; "@),
        },
        forall|i: int|
            0 <= i < updates@.len() && (#[trigger] updates@[i]).1 is Err ==> (result matches Err(
                message,
            ) && occurs_in(
                message@,
                failure_line(updates@[i].0@, operation@, updates@[i].1->Err_0@),
            )),
{
    let mut message = String::new();
    let mut any_failed = false;
    let mut i: usize = 0;
    while i < updates.len()
        invariant
            i <= updates.len(),
            message@ == join(failure_lines(operation@, updates@.subrange(0, i as int)), "; "@),
            any_failed == (failure_lines(operation@, updates@.subrange(0, i as int)).len() > 0),
        decreases updates.len() - i,
    {
        let ghost before = failure_lines(operation@, updates@.subrange(0, i as int));
        proof {
            assert(updates@.subrange(0, i + 1).drop_last() =~= updates@.subrange(0, i as int));
        }
        match &updates[i].1 {
            Ok(_) => {},
            Err(error) => {
                if any_failed {
                    message.append("; ");
                }
                message.append(updates[i].0);
                message.append(": ");
                message.append(operation);
                message.append(": ");
                message.append(error.as_str());
                any_failed = true;
                proof {
                    let after = before.push(
                        failure_line(updates@[i as int].0@, operation@, error@),
                    );
                    assert(after.drop_last() =~= before);
                }
            },
        }
        i += 1;
    }
    proof {
        assert(updates@.subrange(0, updates@.len() as int) =~= updates@);
        lemma_no_failure_lines_iff_all_succeeded(operation@, updates@);
        assert forall|k: int|
            0 <= k < updates@.len() && (#[trigger] updates@[k]).1 is Err implies occurs_in(
            message@,
            failure_line(updates@[k].0@, operation@, updates@[k].1->Err_0@),
        ) by {
            lemma_each_failure_has_a_line(operation@, updates@, k);
            let lines = failure_lines(operation@, updates@);
            let j = choose|j: int|
                0 <= j < lines.len() && lines[j] == failure_line(
                    updates@[k].0@,
                    operation@,
                    updates@[k].1->Err_0@,
                );
            lemma_join_contains_part(lines, "; "@, j);
        }
    }
    if any_failed {
        Err(message)
    } else {
        Ok(())
    }
}

} // verus!
