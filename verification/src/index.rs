//! The search index as the pipeline sees it: documents kept by identifier,
//! and bulk writes that add a document or replace the one that has its
//! identifier. What a whole run leaves in the index follows from that, and so
//! does the fact that a second run over the same records changes nothing.

use vstd::prelude::*;
use crate::batch::{batch_at, batch_count, batch_end, batches, BATCH_CAPACITY};
use crate::error::SyncError;
use crate::music_struct::DeezerId;
use crate::pipeline::{Event, Phase, PipelineView};
use crate::record::{project_all, Record};

verus! {

/// The index after one bulk write of `batch`: each document is added, or
/// replaces the document that has its identifier. Where a batch holds
/// several documents with one identifier the last of them stays.
pub open spec fn add_or_replace<R: Record>(
    index: Map<DeezerId, R::Projection>,
    batch: Seq<R::Projection>,
) -> Map<DeezerId, R::Projection>
    decreases batch.len(),
{
    if batch.len() == 0 {
        index
    } else {
        add_or_replace::<R>(index, batch.drop_last()).insert(
            R::projection_id(batch.last()),
            batch.last(),
        )
    }
}

/// The index after the bulk writes of `writes`, one after the other.
pub open spec fn write_all<R: Record>(
    index: Map<DeezerId, R::Projection>,
    writes: Seq<Seq<R::Projection>>,
) -> Map<DeezerId, R::Projection>
    decreases writes.len(),
{
    if writes.len() == 0 {
        index
    } else {
        add_or_replace::<R>(write_all::<R>(index, writes.drop_last()), writes.last())
    }
}

/// The index after a complete run over `source`: the projections of the
/// records are written batch by batch, in the order of the source.
pub open spec fn index_after_sync<R: Record>(
    index: Map<DeezerId, R::Projection>,
    source: Seq<R>,
) -> Map<DeezerId, R::Projection> {
    write_all::<R>(index, batches(project_all(source)))
}

/// The index after the writes that a pipeline has completed so far.
pub open spec fn index_after_run<R: Record>(
    index: Map<DeezerId, R::Projection>,
    run: PipelineView<R>,
) -> Map<DeezerId, R::Projection> {
    write_all::<R>(index, run.written)
}

/// Whether a document of `batch` has the identifier `id`.
pub open spec fn mentions<R: Record>(batch: Seq<R::Projection>, id: DeezerId) -> bool {
    exists|j: int| 0 <= j < batch.len() && R::projection_id(#[trigger] batch[j]) == id
}

/// Whether two indexes hold the same under `id`: the same document, or none.
pub open spec fn same_at<P>(a: Map<DeezerId, P>, b: Map<DeezerId, P>, id: DeezerId) -> bool {
    &&& a.dom().contains(id) == b.dom().contains(id)
    &&& a.dom().contains(id) ==> a[id] == b[id]
}

/// Whether the document at position `j` of `batch` is the last one of the
/// batch with its identifier.
pub open spec fn last_with_its_id<R: Record>(batch: Seq<R::Projection>, j: int) -> bool {
    &&& 0 <= j < batch.len()
    &&& forall|l: int|
        j < l < batch.len() ==> R::projection_id(#[trigger] batch[l]) != R::projection_id(
            batch[j],
        )
}

/// Whether no identifier occurs twice among `records`.
pub open spec fn distinct_ids<R: Record>(records: Seq<R>) -> bool {
    forall|i: int, j: int|
        0 <= i < j < records.len() ==> (#[trigger] records[i]).spec_id() != (
        #[trigger] records[j]).spec_id()
}

/// Two indexes that hold the same under every identifier are one index.
pub proof fn lemma_same_everywhere<P>(a: Map<DeezerId, P>, b: Map<DeezerId, P>)
    requires
        forall|id: DeezerId| same_at(a, b, id),
    ensures
        a == b,
{
    assert forall|id: DeezerId| #[trigger] a.dom().contains(id) == b.dom().contains(id) by {
        assert(same_at(a, b, id));
    }
    assert forall|id: DeezerId| #[trigger] a.dom().contains(id) implies a[id] == b[id] by {
        assert(same_at(a, b, id));
    }
    assert(a =~= b);
}

/// Writing two batches one after the other is writing them as one.
pub proof fn lemma_add_or_replace_concat<R: Record>(
    index: Map<DeezerId, R::Projection>,
    first: Seq<R::Projection>,
    second: Seq<R::Projection>,
)
    ensures
        add_or_replace::<R>(index, first + second) == add_or_replace::<R>(
            add_or_replace::<R>(index, first),
            second,
        ),
    decreases second.len(),
{
    if second.len() == 0 {
        assert(first + second =~= first);
    } else {
        lemma_add_or_replace_concat::<R>(index, first, second.drop_last());
        assert((first + second).drop_last() =~= first + second.drop_last());
    }
}

/// A bulk write touches the index only under the identifiers of its
/// documents, and under each of those it leaves the last document of the
/// batch that has the identifier.
pub proof fn lemma_add_or_replace_contents<R: Record>(
    index: Map<DeezerId, R::Projection>,
    batch: Seq<R::Projection>,
)
    ensures
        forall|id: DeezerId|
            !mentions::<R>(batch, id) ==> #[trigger] same_at(
                add_or_replace::<R>(index, batch),
                index,
                id,
            ),
        forall|j: int| #[trigger]
            last_with_its_id::<R>(batch, j) ==> ({
                let after = add_or_replace::<R>(index, batch);
                &&& after.dom().contains(R::projection_id(batch[j]))
                &&& after[R::projection_id(batch[j])] == batch[j]
            }),
    decreases batch.len(),
{
    if batch.len() > 0 {
        let front = batch.drop_last();
        let after = add_or_replace::<R>(index, batch);
        lemma_add_or_replace_contents::<R>(index, front);
        assert forall|id: DeezerId| !mentions::<R>(batch, id) implies #[trigger] same_at(
            after,
            index,
            id,
        ) by {
            assert(R::projection_id(batch[batch.len() - 1]) != id);
            if mentions::<R>(front, id) {
                let j = choose|j: int|
                    0 <= j < front.len() && R::projection_id(#[trigger] front[j]) == id;
                assert(R::projection_id(batch[j]) == id);
            }
            assert(same_at(add_or_replace::<R>(index, front), index, id));
        }
        assert forall|j: int| #[trigger] last_with_its_id::<R>(batch, j) implies {
            &&& after.dom().contains(R::projection_id(batch[j]))
            &&& after[R::projection_id(batch[j])] == batch[j]
        } by {
            if j < batch.len() - 1 {
                assert(front[j] == batch[j]);
                assert forall|l: int| j < l < front.len() implies R::projection_id(
                    #[trigger] front[l],
                ) != R::projection_id(front[j]) by {
                    assert(front[l] == batch[l]);
                }
                assert(last_with_its_id::<R>(front, j));
                assert(R::projection_id(batch[batch.len() - 1]) != R::projection_id(batch[j]));
            }
        }
    }
}

/// Two indexes that hold the same outside a set of identifiers hold the same
/// after one bulk write, outside that set and under every identifier that
/// the batch mentions.
pub proof fn lemma_add_or_replace_settles<R: Record>(
    a: Map<DeezerId, R::Projection>,
    b: Map<DeezerId, R::Projection>,
    batch: Seq<R::Projection>,
    unsettled: Set<DeezerId>,
)
    requires
        forall|id: DeezerId| !unsettled.contains(id) ==> same_at(a, b, id),
    ensures
        forall|id: DeezerId|
            mentions::<R>(batch, id) || !unsettled.contains(id) ==> #[trigger] same_at(
                add_or_replace::<R>(a, batch),
                add_or_replace::<R>(b, batch),
                id,
            ),
    decreases batch.len(),
{
    if batch.len() > 0 {
        let front = batch.drop_last();
        lemma_add_or_replace_settles::<R>(a, b, front, unsettled);
        assert forall|id: DeezerId|
            mentions::<R>(batch, id) || !unsettled.contains(id) implies #[trigger] same_at(
            add_or_replace::<R>(a, batch),
            add_or_replace::<R>(b, batch),
            id,
        ) by {
            if id != R::projection_id(batch.last()) {
                if mentions::<R>(batch, id) {
                    let j = choose|j: int|
                        0 <= j < batch.len() && R::projection_id(#[trigger] batch[j]) == id;
                    assert(front[j] == batch[j]);
                    assert(mentions::<R>(front, id));
                }
                assert(same_at(
                    add_or_replace::<R>(a, front),
                    add_or_replace::<R>(b, front),
                    id,
                ));
            }
        }
    }
}

/// Writing the same batch a second time changes nothing.
pub proof fn lemma_add_or_replace_idempotent<R: Record>(
    index: Map<DeezerId, R::Projection>,
    batch: Seq<R::Projection>,
)
    ensures
        add_or_replace::<R>(add_or_replace::<R>(index, batch), batch) == add_or_replace::<R>(
            index,
            batch,
        ),
{
    let once = add_or_replace::<R>(index, batch);
    let twice = add_or_replace::<R>(once, batch);
    let unsettled = Set::new(|id: DeezerId| mentions::<R>(batch, id));
    lemma_add_or_replace_contents::<R>(index, batch);
    assert forall|id: DeezerId| !unsettled.contains(id) implies same_at(once, index, id) by {
        assert(!mentions::<R>(batch, id));
    }
    lemma_add_or_replace_settles::<R>(once, index, batch, unsettled);
    assert forall|id: DeezerId| same_at(twice, once, id) by {
        assert(mentions::<R>(batch, id) || !unsettled.contains(id));
    }
    lemma_same_everywhere(twice, once);
}

/// The first `count` batches of a stream, written one after the other, leave
/// what one bulk write of the items that they hold would.
proof fn lemma_write_batches_prefix<R: Record>(
    index: Map<DeezerId, R::Projection>,
    stream: Seq<R::Projection>,
    count: nat,
)
    requires
        count <= batch_count(stream.len()),
    ensures
        write_all::<R>(index, batches(stream).take(count as int)) == add_or_replace::<R>(
            index,
            stream.take(
                if count == 0 {
                    0
                } else {
                    batch_end(stream.len(), count - 1)
                },
            ),
        ),
    decreases count,
{
    let writes = batches(stream).take(count as int);
    if count == 0 {
        assert(stream.take(0) =~= Seq::<R::Projection>::empty());
    } else {
        let before = (count - 1) as nat;
        lemma_write_batches_prefix::<R>(index, stream, before);
        assert(writes.drop_last() =~= batches(stream).take(before as int));
        assert(writes.last() == batch_at(stream, before as int));
        let start = before * BATCH_CAPACITY;
        let end = batch_end(stream.len(), before as int);
        assert(before > 0 ==> batch_end(stream.len(), before - 1) == start);
        assert(stream.take(start) + batch_at(stream, before as int) =~= stream.take(end));
        lemma_add_or_replace_concat::<R>(
            index,
            stream.take(start),
            batch_at(stream, before as int),
        );
    }
}

/// Cutting the stream into batches does not change what the index holds in
/// the end: a run leaves what one bulk write of every projection would.
pub proof fn lemma_sync_is_one_write<R: Record>(
    index: Map<DeezerId, R::Projection>,
    source: Seq<R>,
)
    ensures
        index_after_sync::<R>(index, source) == add_or_replace::<R>(index, project_all(source)),
{
    let stream = project_all(source);
    let count = batch_count(stream.len());
    lemma_write_batches_prefix::<R>(index, stream, count);
    assert(batches(stream).take(count as int) =~= batches(stream));
    if count > 0 {
        assert(stream.take(batch_end(stream.len(), count - 1)) =~= stream);
    } else {
        assert(stream.take(0) =~= stream);
    }
}

/// A second run over an unchanged source leaves the index as the first run
/// left it.
pub proof fn lemma_sync_is_idempotent<R: Record>(
    index: Map<DeezerId, R::Projection>,
    source: Seq<R>,
)
    ensures
        index_after_sync::<R>(index_after_sync::<R>(index, source), source)
            == index_after_sync::<R>(index, source),
{
    let once = index_after_sync::<R>(index, source);
    lemma_sync_is_one_write::<R>(index, source);
    lemma_sync_is_one_write::<R>(once, source);
    lemma_add_or_replace_idempotent::<R>(index, project_all(source));
}

/// After a run over a source in which no identifier occurs twice, the index
/// holds the projection of every record of the source under the record's
/// identifier, and what it held before under every other identifier.
pub proof fn lemma_sync_indexes_every_record<R: Record>(
    index: Map<DeezerId, R::Projection>,
    source: Seq<R>,
)
    requires
        distinct_ids(source),
    ensures
        forall|j: int|
            #![trigger source[j]]
            0 <= j < source.len() ==> ({
                let after = index_after_sync::<R>(index, source);
                &&& after.dom().contains(source[j].spec_id())
                &&& after[source[j].spec_id()] == source[j].spec_project()
            }),
        forall|id: DeezerId|
            !mentions::<R>(project_all(source), id) ==> #[trigger] same_at(
                index_after_sync::<R>(index, source),
                index,
                id,
            ),
{
    let stream = project_all(source);
    let after = index_after_sync::<R>(index, source);
    lemma_sync_is_one_write::<R>(index, source);
    lemma_add_or_replace_contents::<R>(index, stream);
    assert forall|j: int| 0 <= j < source.len() implies R::projection_id(#[trigger] stream[j])
        == source[j].spec_id() by {
        source[j].projection_keeps_id();
    }
    assert forall|j: int| #![trigger source[j]] 0 <= j < source.len() implies {
        &&& after.dom().contains(source[j].spec_id())
        &&& after[source[j].spec_id()] == source[j].spec_project()
    } by {
        assert(stream[j] == source[j].spec_project());
        assert forall|l: int| j < l < stream.len() implies R::projection_id(
            #[trigger] stream[l],
        ) != R::projection_id(stream[j]) by {
            assert(source[j].spec_id() != source[l].spec_id());
        }
        assert(last_with_its_id::<R>(stream, j));
    }
}

/// The order in which the cursor yields the records does not matter: two
/// sources that hold the same records, each identifier once, leave the same
/// index.
pub proof fn lemma_sync_ignores_order<R: Record>(
    index: Map<DeezerId, R::Projection>,
    first: Seq<R>,
    second: Seq<R>,
)
    requires
        distinct_ids(first),
        distinct_ids(second),
        forall|record: R| first.contains(record) <==> second.contains(record),
    ensures
        index_after_sync::<R>(index, first) == index_after_sync::<R>(index, second),
{
    let a = index_after_sync::<R>(index, first);
    let b = index_after_sync::<R>(index, second);
    lemma_sync_indexes_every_record::<R>(index, first);
    lemma_sync_indexes_every_record::<R>(index, second);
    assert forall|j: int| 0 <= j < first.len() implies R::projection_id(
        #[trigger] project_all(first)[j],
    ) == first[j].spec_id() by {
        first[j].projection_keeps_id();
    }
    assert forall|l: int| 0 <= l < second.len() implies R::projection_id(
        #[trigger] project_all(second)[l],
    ) == second[l].spec_id() by {
        second[l].projection_keeps_id();
    }
    assert forall|id: DeezerId| same_at(a, b, id) by {
        if mentions::<R>(project_all(first), id) {
            let j = choose|j: int|
                0 <= j < first.len() && R::projection_id(#[trigger] project_all(first)[j]) == id;
            assert(first.contains(first[j]));
            assert(second.contains(first[j]));
            let l = choose|l: int| 0 <= l < second.len() && second[l] == first[j];
            assert(second[l].spec_id() == id);
        } else if mentions::<R>(project_all(second), id) {
            let l = choose|l: int|
                0 <= l < second.len() && R::projection_id(#[trigger] project_all(second)[l])
                    == id;
            assert(second.contains(second[l]));
            assert(first.contains(second[l]));
            let j = choose|j: int| 0 <= j < first.len() && first[j] == second[l];
            assert(R::projection_id(project_all(first)[j]) == id);
        } else {
            assert(same_at(a, index, id));
            assert(same_at(b, index, id));
        }
    }
    lemma_same_everywhere(a, b);
}

/// A second run leaves the index as the first run left it, also where the
/// cursor yields the unchanged records in another order.
pub proof fn lemma_second_run_changes_nothing<R: Record>(
    index: Map<DeezerId, R::Projection>,
    first: Seq<R>,
    second: Seq<R>,
)
    requires
        distinct_ids(first),
        distinct_ids(second),
        forall|record: R| first.contains(record) <==> second.contains(record),
    ensures
        index_after_sync::<R>(index_after_sync::<R>(index, first), second)
            == index_after_sync::<R>(index, first),
{
    lemma_sync_ignores_order::<R>(index_after_sync::<R>(index, first), second, first);
    lemma_sync_is_idempotent::<R>(index, first);
}

/// A failure writes nothing: the index stays as the writes before the
/// failure left it, and as it was before the run if the first write is the
/// one that fails.
pub proof fn lemma_failure_writes_nothing<R: Record>(
    index: Map<DeezerId, R::Projection>,
    run: PipelineView<R>,
    error: SyncError,
)
    requires
        run.well_formed(),
        run.accepts(Event::Failed(error)),
    ensures
        run.next(Event::Failed(error)).phase == Phase::Failed,
        index_after_run::<R>(index, run.next(Event::Failed(error))) == index_after_run::<R>(
            index,
            run,
        ),
        run.written.len() == 0 ==> index_after_run::<R>(index, run.next(Event::Failed(error)))
            == index,
{
}

/// When a pipeline is done, the index holds what a complete run over the
/// records that the cursor yielded leaves.
pub proof fn lemma_done_index<R: Record>(
    index: Map<DeezerId, R::Projection>,
    run: PipelineView<R>,
)
    requires
        run.well_formed(),
        run.phase == Phase::Done,
    ensures
        index_after_run::<R>(index, run) == index_after_sync::<R>(index, run.consumed),
{
    assert(run.written =~= batches(project_all(run.consumed)));
}

} // verus!
