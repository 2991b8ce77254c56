//! Rotation queues and what filesystem events do to one of them.
//!
//! A queue is an ordered list of image paths, the next one to show first.
//! Paths are compared as text.

use std::collections::VecDeque;
use vstd::prelude::*;

verus! {

/// The queue without every entry that `paths` names; what stays keeps its
/// order.
pub open spec fn without<A>(queue: Seq<A>, paths: Seq<A>) -> Seq<A> {
    queue.filter(|entry: A| !paths.contains(entry))
}

/// The reported paths that the queue does not hold, each once, in the order
/// in which they were first reported.
pub open spec fn newcomers<A>(queue: Seq<A>, paths: Seq<A>) -> Seq<A>
    decreases paths.len(),
{
    if paths.len() == 0 {
        Seq::empty()
    } else {
        let earlier = paths.drop_last();
        let path = paths.last();
        if queue.contains(path) || earlier.contains(path) {
            newcomers(queue, earlier)
        } else {
            newcomers(queue, earlier).push(path)
        }
    }
}

/// The queue after a creation event: the newcomers in front, the one
/// reported last frontmost, then what was resident and is not named by the
/// event.
pub open spec fn after_create<A>(queue: Seq<A>, paths: Seq<A>) -> Seq<A> {
    newcomers(queue, paths).reverse() + without(queue, paths)
}

/// The queue after a removal event: what the event does not name.
pub open spec fn after_remove<A>(queue: Seq<A>, paths: Seq<A>) -> Seq<A> {
    without(queue, paths)
}

/// Whether `path` stands at no more than one place of the queue.
pub open spec fn at_most_once<A>(queue: Seq<A>, path: A) -> bool {
    forall|i: int, j: int|
        0 <= i < queue.len() && 0 <= j < queue.len() && queue[i] == path && queue[j] == path ==> i
            == j
}

/// A path is a newcomer exactly when the event reports it and the queue
/// lacks it.
pub proof fn lemma_newcomers_contains<A>(queue: Seq<A>, paths: Seq<A>, path: A)
    ensures
        newcomers(queue, paths).contains(path) <==> paths.contains(path) && !queue.contains(path),
    decreases paths.len(),
{
    if paths.len() > 0 {
        let earlier = paths.drop_last();
        let last = paths.last();
        let fresh = newcomers(queue, earlier);
        lemma_newcomers_contains(queue, earlier, path);
        if paths.contains(path) {
            let i = choose|i: int| 0 <= i < paths.len() && paths[i] == path;
            if i < earlier.len() {
                assert(earlier[i] == path);
            }
        }
        if !queue.contains(last) && !earlier.contains(last) {
            assert(fresh.push(last).last() == last);
            if fresh.contains(path) {
                let i = choose|i: int| 0 <= i < fresh.len() && fresh[i] == path;
                assert(fresh.push(last)[i] == path);
            }
        }
    }
}

/// No path is a newcomer twice, and there are no more newcomers than
/// reported paths.
pub proof fn lemma_newcomers_distinct<A>(queue: Seq<A>, paths: Seq<A>)
    ensures
        newcomers(queue, paths).no_duplicates(),
        newcomers(queue, paths).len() <= paths.len(),
    decreases paths.len(),
{
    if paths.len() > 0 {
        lemma_newcomers_distinct(queue, paths.drop_last());
        lemma_newcomers_contains(queue, paths.drop_last(), paths.last());
    }
}

/// An entry is in the queue without the named paths exactly when it was in
/// the queue and is not named.
pub proof fn lemma_without_contains<A>(queue: Seq<A>, paths: Seq<A>, path: A)
    ensures
        without(queue, paths).contains(path) <==> queue.contains(path) && !paths.contains(path),
{
    let keep = |entry: A| !paths.contains(entry);
    let rest = queue.filter(keep);
    if rest.contains(path) {
        let k = choose|k: int| 0 <= k < rest.len() && rest[k] == path;
        queue.lemma_filter_pred(keep, k);
        queue.lemma_filter_contains_rev(keep, path);
    }
    if queue.contains(path) && !paths.contains(path) {
        let k = choose|k: int| 0 <= k < queue.len() && queue[k] == path;
        queue.lemma_filter_contains(keep, k);
    }
}

/// Taking entries out of a queue without duplicates leaves none.
pub proof fn lemma_without_distinct<A>(queue: Seq<A>, paths: Seq<A>)
    requires
        queue.no_duplicates(),
    ensures
        without(queue, paths).no_duplicates(),
    decreases queue.len(),
{
    let keep = |entry: A| !paths.contains(entry);
    reveal(Seq::filter);
    if queue.len() > 0 {
        let init = queue.drop_last();
        lemma_without_distinct(init, paths);
        if keep(queue.last()) {
            let rest = init.filter(keep);
            assert forall|i: int| 0 <= i < rest.len() implies rest[i] != queue.last() by {
                init.lemma_filter_contains_rev(keep, rest[i]);
            }
        }
    }
}

/// While the reported paths are pushed to the front, the queue holds what
/// was resident and what has been seen of the event.
proof fn lemma_front_insertion_contains<A>(resident: Seq<A>, seen: Seq<A>, path: A)
    ensures
        (newcomers(resident, seen).reverse() + resident).contains(path) <==> resident.contains(path)
            || seen.contains(path),
{
    let fresh = newcomers(resident, seen);
    let current = fresh.reverse() + resident;
    lemma_newcomers_contains(resident, seen, path);
    if fresh.contains(path) {
        let k = choose|k: int| 0 <= k < fresh.len() && fresh[k] == path;
        assert(current[fresh.len() - 1 - k] == path);
    }
    if resident.contains(path) {
        let k = choose|k: int| 0 <= k < resident.len() && resident[k] == path;
        assert(current[fresh.len() + k] == path);
    }
}

/// After a creation event an entry is in the queue exactly when it was
/// resident and the event does not name it, or the event names it and it
/// was not resident.
pub proof fn law_create_membership<A>(queue: Seq<A>, paths: Seq<A>, path: A)
    ensures
        after_create(queue, paths).contains(path) <==> (queue.contains(path) != paths.contains(
            path,
        )),
{
    let fresh = newcomers(queue, paths);
    let rest = without(queue, paths);
    let result = after_create(queue, paths);
    lemma_newcomers_contains(queue, paths, path);
    lemma_without_contains(queue, paths, path);
    if fresh.contains(path) {
        let k = choose|k: int| 0 <= k < fresh.len() && fresh[k] == path;
        assert(result[fresh.len() - 1 - k] == path);
    }
    if rest.contains(path) {
        let k = choose|k: int| 0 <= k < rest.len() && rest[k] == path;
        assert(result[fresh.len() + k] == path);
    }
}

/// Whatever the queue held before, after a creation event no path that the
/// event names is in the queue twice. So delivering the same event again,
/// for paths that are queued already, never produces a second copy.
pub proof fn law_create_never_queues_twice<A>(queue: Seq<A>, paths: Seq<A>, path: A)
    requires
        paths.contains(path),
    ensures
        at_most_once(after_create(queue, paths), path),
        at_most_once(after_create(after_create(queue, paths), paths), path),
{
    lemma_created_at_most_once(queue, paths, path);
    lemma_created_at_most_once(after_create(queue, paths), paths, path);
}

proof fn lemma_created_at_most_once<A>(queue: Seq<A>, paths: Seq<A>, path: A)
    requires
        paths.contains(path),
    ensures
        at_most_once(after_create(queue, paths), path),
{
    lemma_newcomers_distinct(queue, paths);
    lemma_without_contains(queue, paths, path);
}

/// A queue without duplicates has none after a creation event.
pub proof fn law_create_keeps_queue_distinct<A>(queue: Seq<A>, paths: Seq<A>)
    requires
        queue.no_duplicates(),
    ensures
        after_create(queue, paths).no_duplicates(),
{
    let fresh = newcomers(queue, paths);
    let rest = without(queue, paths);
    lemma_newcomers_distinct(queue, paths);
    lemma_without_distinct(queue, paths);
    assert forall|i: int, j: int|
        0 <= i < fresh.reverse().len() && 0 <= j < rest.len() implies fresh.reverse()[i]
        != rest[j] by {
        lemma_newcomers_contains(queue, paths, fresh.reverse()[i]);
        lemma_without_contains(queue, paths, rest[j]);
    }
    vstd::seq_lib::lemma_no_dup_in_concat(fresh.reverse(), rest);
}

/// A removal event takes every path it names out of the queue, wherever it
/// stood, and nothing else; a queue without duplicates has none afterwards.
pub proof fn law_remove_takes_named_paths<A>(queue: Seq<A>, paths: Seq<A>, path: A)
    ensures
        paths.contains(path) ==> !after_remove(queue, paths).contains(path),
        !paths.contains(path) ==> (after_remove(queue, paths).contains(path) <==> queue.contains(
            path,
        )),
        after_remove(queue, paths).len() <= queue.len(),
        queue.no_duplicates() ==> after_remove(queue, paths).no_duplicates(),
{
    lemma_without_contains(queue, paths, path);
    queue.lemma_filter_len(|entry: A| !paths.contains(entry));
    if queue.no_duplicates() {
        lemma_without_distinct(queue, paths);
    }
}

/// Whether the queue holds `path`.
pub fn queue_holds(queue: &VecDeque<String>, path: &String) -> (found: bool)
    ensures
        found == queue.deep_view().contains(path@),
{
    let mut i: usize = 0;
    while i < queue.len()
        invariant
            i <= queue.len(),
            forall|j: int| 0 <= j < i ==> queue.deep_view()[j] != path@,
        decreases queue.len() - i,
    {
        if queue[i] == *path {
            assert(queue.deep_view()[i as int] == path@);
            return true;
        }
        i += 1;
    }
    false
}

/// Whether `paths` names `path`.
pub fn names(paths: &Vec<String>, path: &String) -> (found: bool)
    ensures
        found == paths.deep_view().contains(path@),
{
    let mut i: usize = 0;
    while i < paths.len()
        invariant
            i <= paths.len(),
            forall|j: int| 0 <= j < i ==> paths.deep_view()[j] != path@,
        decreases paths.len() - i,
    {
        if paths[i] == *path {
            assert(paths.deep_view()[i as int] == path@);
            return true;
        }
        i += 1;
    }
    false
}

/// Applies a removal event to one queue: every entry that `paths` names
/// leaves, wherever it stands, and the entries that stay keep their order.
pub fn drop_named(queue: &mut VecDeque<String>, paths: &Vec<String>)
    ensures
        final(queue).deep_view() == after_remove(old(queue).deep_view(), paths.deep_view()),
{
    let ghost before = queue.deep_view();
    let ghost named = paths.deep_view();
    let mut kept: VecDeque<String> = VecDeque::new();
    while queue.len() > 0
        invariant
            named == paths.deep_view(),
            kept.deep_view() + without(queue.deep_view(), named) == without(before, named),
        decreases queue.len(),
    {
        let ghost pending = queue.deep_view();
        if let Some(entry) = queue.pop_front() {
            proof {
                assert(pending =~= seq![entry@] + queue.deep_view());
                queue.deep_view().lemma_filter_prepend(entry@, |e: Seq<char>| !named.contains(e));
            }
            if !names(paths, &entry) {
                kept.push_back(entry);
            }
        }
    }
    proof {
        reveal(Seq::filter);
    }
    *queue = kept;
}

/// Applies a creation event to one queue. Each reported path that the
/// queue does not hold is pushed to the front, in the order reported; then
/// every entry that was resident before and that the event names is removed.
pub fn enqueue_created(queue: &mut VecDeque<String>, paths: &Vec<String>)
    ensures
        final(queue).deep_view() == after_create(old(queue).deep_view(), paths.deep_view()),
{
    let ghost resident = queue.deep_view();
    let ghost reported = paths.deep_view();
    let mut pushed: usize = 0;
    let mut i: usize = 0;
    while i < paths.len()
        invariant
            i <= paths.len(),
            reported == paths.deep_view(),
            pushed == newcomers(resident, reported.take(i as int)).len(),
            pushed <= i,
            queue.deep_view() == newcomers(resident, reported.take(i as int)).reverse() + resident,
        decreases paths.len() - i,
    {
        let ghost seen = reported.take(i as int);
        let ghost fresh = newcomers(resident, seen);
        let ghost current = queue.deep_view();
        let ghost path = reported[i as int];
        proof {
            assert(reported.take(i + 1).drop_last() =~= seen);
            lemma_front_insertion_contains(resident, seen, path);
        }
        if !queue_holds(queue, &paths[i]) {
            queue.push_front(paths[i].clone());
            pushed += 1;
            proof {
                assert(seq![path] + current =~= fresh.push(path).reverse() + resident);
            }
        }
        i += 1;
    }
    assert(reported.take(paths.len() as int) =~= reported);
    let ghost fresh = newcomers(resident, reported);
    let ghost whole = queue.deep_view();
    let mut rest = queue.split_off(pushed);
    proof {
        assert(queue.deep_view() =~= whole.subrange(0, pushed as int));
        assert(rest.deep_view() =~= whole.subrange(pushed as int, whole.len() as int));
        assert(queue.deep_view() =~= fresh.reverse());
        assert(rest.deep_view() =~= resident);
    }
    drop_named(&mut rest, paths);
    queue.append(&mut rest);
}

} // verus!
