//! What holds of every record of foreign pointers.
use crate::foreign::{
    owner_search, with_line, ForeignPointer, ListHeaps, QueryPointer, Recording,
    MAX_FOREIGN_POINTERS, MAX_PROCESS_HEAPS,
};
use crate::measure_laws::Process;
use crate::region::{law_readable_by_state_and_flags, queried, FALSE};
use vstd::prelude::*;

verus! {

/// What `before` becomes when `pointers` are recorded one after the other.
pub open spec fn record_all(before: Seq<Seq<char>>, pointers: Seq<ForeignPointer>) -> Seq<Seq<char>>
    decreases pointers.len(),
{
    if pointers.len() == 0 {
        before
    } else {
        with_line(record_all(before, pointers.drop_last()), pointers.last().text())
    }
}

/// Of the pointers recorded since the record was last empty, it holds the first ones, up to its
/// limit and in the order in which they came.
pub proof fn law_first_pointers_are_kept(pointers: Seq<ForeignPointer>)
    ensures
        record_all(Seq::empty(), pointers) == pointers.take(
            if pointers.len() < MAX_FOREIGN_POINTERS {
                pointers.len() as int
            } else {
                MAX_FOREIGN_POINTERS as int
            },
        ).map_values(|p: ForeignPointer| p.text()),
    decreases pointers.len(),
{
    let all = record_all(Seq::empty(), pointers);
    if pointers.len() > 0 {
        law_first_pointers_are_kept(pointers.drop_last());
    }
    if pointers.len() <= MAX_FOREIGN_POINTERS {
        assert(all =~= pointers.take(pointers.len() as int).map_values(
            |p: ForeignPointer| p.text(),
        ));
    } else {
        assert(pointers.drop_last().take(MAX_FOREIGN_POINTERS as int) =~= pointers.take(
            MAX_FOREIGN_POINTERS as int,
        ));
    }
}

/// The number of heaps that are searched when the process has `count`.
pub open spec fn searched(count: u32) -> nat {
    if count < MAX_PROCESS_HEAPS {
        count as nat
    } else {
        MAX_PROCESS_HEAPS as nat
    }
}

/// Where the search for the owner of `ptr` stands after `answers`.
pub open spec fn search(
    ptr: usize,
    count: u32,
    heaps: [usize; MAX_PROCESS_HEAPS],
    answers: Seq<i32>,
) -> Recording
    decreases answers.len(),
{
    if answers.len() == 0 {
        (ListHeaps { ptr }).after(count, heaps)
    } else {
        match search(ptr, count, heaps, answers.drop_last()) {
            Recording::ValidateOwner(s) => s.after(answers.last()),
            other => other,
        }
    }
}

/// The heaps are asked in the order in which they were listed, each once and none beyond the limit.
/// The first that does not deny it owns the pointer; if all deny it, no heap does.
pub proof fn law_owner_search(
    ptr: usize,
    count: u32,
    heaps: [usize; MAX_PROCESS_HEAPS],
    denials: Seq<i32>,
    answer: i32,
)
    requires
        denials.len() <= count,
        denials.len() <= MAX_PROCESS_HEAPS,
        forall|i: int| 0 <= i < denials.len() ==> denials[i] == FALSE,
        answer != FALSE,
    ensures
        denials.len() == count || denials.len() == MAX_PROCESS_HEAPS ==> search(
            ptr,
            count,
            heaps,
            denials,
        ) == Recording::QueryPointer(QueryPointer { ptr, owner: None }),
        denials.len() < count && denials.len() < MAX_PROCESS_HEAPS ==> (search(
            ptr,
            count,
            heaps,
            denials,
        ) matches Recording::ValidateOwner(s) && s.ptr == ptr && s.heap
            == heaps@[denials.len() as int]),
        denials.len() < count && denials.len() < MAX_PROCESS_HEAPS ==> search(
            ptr,
            count,
            heaps,
            denials.push(answer),
        ) == Recording::QueryPointer(
            QueryPointer { ptr, owner: Some(heaps@[denials.len() as int]) },
        ),
{
    lemma_denials(ptr, count, heaps, denials);
    assert(denials.push(answer).drop_last() =~= denials);
}

proof fn lemma_denials(
    ptr: usize,
    count: u32,
    heaps: [usize; MAX_PROCESS_HEAPS],
    denials: Seq<i32>,
)
    requires
        denials.len() <= searched(count),
        forall|i: int| 0 <= i < denials.len() ==> denials[i] == FALSE,
    ensures
        search(ptr, count, heaps, denials) == owner_search(
            ptr,
            heaps,
            count as usize,
            denials.len() as usize,
        ),
    decreases denials.len(),
{
    if denials.len() > 0 {
        lemma_denials(ptr, count, heaps, denials.drop_last());
    }
}

/// Whether `owner` is the first of the searched heaps that does not deny owning `ptr`, or none if
/// they all do.
pub open spec fn is_owner(
    process: Process,
    heaps: Seq<usize>,
    ptr: usize,
    owner: Option<usize>,
) -> bool {
    match owner {
        Some(heap) => exists|i: int|
            {
                &&& 0 <= i < heaps.len()
                &&& #[trigger] heaps[i] == heap
                &&& (process.validate)(heap, ptr) != FALSE
                &&& forall|j: int|
                    0 <= j < i ==> (process.validate)(#[trigger] heaps[j], ptr) == FALSE
            },
        None => forall|i: int|
            0 <= i < heaps.len() ==> (process.validate)(#[trigger] heaps[i], ptr) == FALSE,
    }
}

/// The recording, resumed with what `process` answers; it has `count` heaps, and lists `heaps`.
pub open spec fn step(
    process: Process,
    count: u32,
    heaps: [usize; MAX_PROCESS_HEAPS],
    m: Recording,
) -> Recording {
    match m {
        Recording::ListHeaps(s) => s.after(count, heaps),
        Recording::ValidateOwner(s) => s.after((process.validate)(s.heap, s.ptr)),
        Recording::QueryPointer(s) => s.after((process.query)(s.ptr).0, (process.query)(s.ptr).1),
        Recording::Skip => m,
        Recording::Record(_) => m,
    }
}

/// The recording, resumed up to `steps` times.
pub open spec fn run(
    process: Process,
    count: u32,
    heaps: [usize; MAX_PROCESS_HEAPS],
    m: Recording,
    steps: nat,
) -> Recording
    decreases steps,
{
    if steps == 0 {
        m
    } else {
        run(process, count, heaps, step(process, count, heaps, m), (steps - 1) as nat)
    }
}

/// In a process that does not change meanwhile, a recording comes to the region that the pointer
/// lies in and to its owner: the first of the listed heaps that owns it.
pub proof fn law_recording(
    process: Process,
    count: u32,
    heaps: [usize; MAX_PROCESS_HEAPS],
    ptr: usize,
)
    ensures
        run(
            process,
            count,
            heaps,
            Recording::ListHeaps(ListHeaps { ptr }),
            MAX_PROCESS_HEAPS as nat + 2,
        ) matches Recording::Record(found) && {
            &&& found.ptr == ptr
            &&& found.region == queried((process.query)(ptr).0, (process.query)(ptr).1)
            &&& is_owner(process, heaps@.take(searched(count) as int), ptr, found.owner)
        },
{
    lemma_search(process, count, heaps, ptr, 0);
}

/// What a recording comes to: without an owner exactly if every heap that is searched denies the
/// pointer, and else with the first that does not; with the region that a query described, and
/// without one exactly if it described none. At most `MAX_PROCESS_HEAPS` heaps are searched, and no
/// more than there are.
pub proof fn law_recorded_owner_and_region(
    process: Process,
    count: u32,
    heaps: [usize; MAX_PROCESS_HEAPS],
    ptr: usize,
)
    ensures
        run(
            process,
            count,
            heaps,
            Recording::ListHeaps(ListHeaps { ptr }),
            MAX_PROCESS_HEAPS as nat + 2,
        ) matches Recording::Record(found) && {
            &&& found.ptr == ptr
            &&& (process.query)(ptr).0 != 0 ==> found.region == Some((process.query)(ptr).1)
            &&& (process.query)(ptr).0 == 0 ==> found.region is None
            &&& found.owner is None <==> forall|i: int|
                0 <= i < count && i < MAX_PROCESS_HEAPS ==> (process.validate)(
                    #[trigger] heaps@[i],
                    ptr,
                ) == FALSE
            &&& forall|i: int|
                0 <= i < count && i < MAX_PROCESS_HEAPS && (process.validate)(
                    #[trigger] heaps@[i],
                    ptr,
                ) != FALSE && (forall|j: int|
                    0 <= j < i ==> (process.validate)(#[trigger] heaps@[j], ptr) == FALSE)
                    ==> found.owner == Some(heaps@[i])
        },
{
    law_recording(process, count, heaps, ptr);
    law_readable_by_state_and_flags((process.query)(ptr).0, (process.query)(ptr).1);
    let listed = heaps@.take(searched(count) as int);
    let end = run(
        process,
        count,
        heaps,
        Recording::ListHeaps(ListHeaps { ptr }),
        MAX_PROCESS_HEAPS as nat + 2,
    );
    let found = end->Record_0;
    assert forall|i: int| 0 <= i < listed.len() implies #[trigger] listed[i] == heaps@[i] by {}
    match found.owner {
        None => {
            assert forall|i: int| 0 <= i < count && i < MAX_PROCESS_HEAPS implies (
            process.validate)(#[trigger] heaps@[i], ptr) == FALSE by {
                assert(listed[i] == heaps@[i]);
            }
        },
        Some(heap) => {
            let k = choose|k: int|
                {
                    &&& 0 <= k < listed.len()
                    &&& #[trigger] listed[k] == heap
                    &&& (process.validate)(heap, ptr) != FALSE
                    &&& forall|j: int|
                        0 <= j < k ==> (process.validate)(#[trigger] listed[j], ptr) == FALSE
                };
            assert(heaps@[k] == heap);
            assert forall|i: int|
                0 <= i < count && i < MAX_PROCESS_HEAPS && (process.validate)(
                    #[trigger] heaps@[i],
                    ptr,
                ) != FALSE && (forall|j: int|
                    0 <= j < i ==> (process.validate)(#[trigger] heaps@[j], ptr)
                        == FALSE) implies found.owner == Some(heaps@[i]) by {
                assert(listed[i] == heaps@[i]);
                if k < i {
                    assert((process.validate)(heaps@[k], ptr) == FALSE);
                }
            }
        },
    }
}

proof fn lemma_search(
    process: Process,
    count: u32,
    heaps: [usize; MAX_PROCESS_HEAPS],
    ptr: usize,
    next: nat,
)
    requires
        next <= searched(count),
        forall|j: int| 0 <= j < next ==> (process.validate)(#[trigger] heaps@[j], ptr) == FALSE,
    ensures
        run(
            process,
            count,
            heaps,
            owner_search(ptr, heaps, count as usize, next as usize),
            (MAX_PROCESS_HEAPS + 1 - next) as nat,
        ) matches Recording::Record(found) && {
            &&& found.ptr == ptr
            &&& found.region == queried((process.query)(ptr).0, (process.query)(ptr).1)
            &&& is_owner(process, heaps@.take(searched(count) as int), ptr, found.owner)
        },
    decreases searched(count) - next,
{
    let listed = heaps@.take(searched(count) as int);
    let m = owner_search(ptr, heaps, count as usize, next as usize);
    let steps = (MAX_PROCESS_HEAPS + 1 - next) as nat;
    if next == searched(count) {
        let end = step(process, count, heaps, m);
        lemma_finished(process, count, heaps, end, (steps - 1) as nat);
    } else {
        let heap = heaps@[next as int];
        assert(listed[next as int] == heap);
        if (process.validate)(heap, ptr) == FALSE {
            lemma_search(process, count, heaps, ptr, next + 1);
        } else {
            let found = step(process, count, heaps, m);
            let end = step(process, count, heaps, found);
            assert(steps >= 2);
            lemma_finished(process, count, heaps, end, (steps - 2) as nat);
            reveal_with_fuel(run, 3);
        }
    }
}

proof fn lemma_finished(
    process: Process,
    count: u32,
    heaps: [usize; MAX_PROCESS_HEAPS],
    m: Recording,
    steps: nat,
)
    requires
        m is Record || m is Skip,
    ensures
        run(process, count, heaps, m, steps) == m,
    decreases steps,
{
    if steps > 0 {
        lemma_finished(process, count, heaps, m, (steps - 1) as nat);
    }
}

} // verus!
