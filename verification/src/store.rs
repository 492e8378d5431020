//! The status store: one row per block identifier, with the submission
//! status and the layer-1 transaction hash as its mutable columns. The
//! store is viewed as a map from block identifier to row content; the only
//! statements this subsystem runs against it are keyed updates, which match
//! at most the one row with that key and never insert.

use vstd::prelude::*;
use crate::types::BlockStatus;

verus! {

/// One row of the status table.
#[derive(Clone, Debug)]
pub struct StoreRow {
    pub block_id: u64,
    pub status: BlockStatus,
    pub l1_tx_hash: Vec<u8>,
}

/// What a row's mutable columns hold.
pub ghost struct RowModel {
    pub status: BlockStatus,
    pub l1_tx_hash: Seq<u8>,
}

impl StoreRow {
    pub open spec fn model(&self) -> RowModel {
        RowModel { status: self.status, l1_tx_hash: self.l1_tx_hash@ }
    }
}

/// The table after `update <table> set status = ?, l1_tx_hash = ? where
/// block_id = ?`: both columns of the keyed row change; a missing key
/// matches no row and changes nothing.
pub open spec fn row_updated(
    m: Map<u64, RowModel>,
    block_id: u64,
    status: BlockStatus,
    l1_tx_hash: Seq<u8>,
) -> Map<u64, RowModel> {
    if m.contains_key(block_id) {
        m.insert(block_id, RowModel { status, l1_tx_hash })
    } else {
        m
    }
}

/// The table after `update <table> set status = ? where block_id = ?`: the
/// status column of the keyed row changes, its hash column stays.
pub open spec fn status_updated(m: Map<u64, RowModel>, block_id: u64, status: BlockStatus) -> Map<
    u64,
    RowModel,
> {
    if m.contains_key(block_id) {
        m.insert(block_id, RowModel { status, l1_tx_hash: m[block_id].l1_tx_hash })
    } else {
        m
    }
}

/// Replaying the full update with the same key and the same values leaves
/// the table exactly as after the first run.
pub proof fn lemma_update_idempotent(
    m: Map<u64, RowModel>,
    block_id: u64,
    status: BlockStatus,
    l1_tx_hash: Seq<u8>,
)
    ensures
        row_updated(row_updated(m, block_id, status, l1_tx_hash), block_id, status, l1_tx_hash)
            == row_updated(m, block_id, status, l1_tx_hash),
{
    if m.contains_key(block_id) {
        assert(row_updated(row_updated(m, block_id, status, l1_tx_hash), block_id, status,
            l1_tx_hash) =~= row_updated(m, block_id, status, l1_tx_hash));
    }
}

/// Replaying the status-only update with the same key and status leaves the
/// table exactly as after the first run.
pub proof fn lemma_status_update_idempotent(m: Map<u64, RowModel>, block_id: u64, status: BlockStatus)
    ensures
        status_updated(status_updated(m, block_id, status), block_id, status) == status_updated(
            m,
            block_id,
            status,
        ),
{
    if m.contains_key(block_id) {
        assert(status_updated(status_updated(m, block_id, status), block_id, status)
            =~= status_updated(m, block_id, status));
    }
}

/// No two rows share a block identifier.
pub open spec fn unique_ids(rows: Seq<StoreRow>) -> bool {
    forall|i: int, j: int|
        0 <= i < j < rows.len() ==> rows[i].block_id != rows[j].block_id
}

/// The status table.
pub struct StatusStore {
    rows: Vec<StoreRow>,
}

impl View for StatusStore {
    type V = Map<u64, RowModel>;

    closed spec fn view(&self) -> Map<u64, RowModel> {
        StatusStore::map_of(self.rows@)
    }
}

impl StatusStore {
    /// The map a sequence of rows stands for; later rows win, though under
    /// `unique_ids` no two rows compete.
    closed spec fn map_of(rows: Seq<StoreRow>) -> Map<u64, RowModel>
        decreases rows.len(),
    {
        if rows.len() == 0 {
            Map::empty()
        } else {
            Self::map_of(rows.drop_last()).insert(rows.last().block_id, rows.last().model())
        }
    }

    /// The primary key is respected: no two rows share a block identifier.
    pub closed spec fn wf(&self) -> bool {
        unique_ids(self.rows@)
    }

    proof fn lemma_map_of_contains(rows: Seq<StoreRow>, block_id: u64)
        ensures
            Self::map_of(rows).contains_key(block_id) <==> exists|i: int|
                0 <= i < rows.len() && #[trigger] rows[i].block_id == block_id,
        decreases rows.len(),
    {
        if rows.len() > 0 {
            Self::lemma_map_of_contains(rows.drop_last(), block_id);
            if rows.last().block_id == block_id {
                assert(rows[rows.len() - 1].block_id == block_id);
            } else {
                if exists|i: int| 0 <= i < rows.len() && #[trigger] rows[i].block_id == block_id {
                    let i = choose|i: int|
                        0 <= i < rows.len() && #[trigger] rows[i].block_id == block_id;
                    assert(rows.drop_last()[i].block_id == block_id);
                }
                if exists|i: int|
                    0 <= i < rows.drop_last().len() && #[trigger] rows.drop_last()[i].block_id
                        == block_id {
                    let i = choose|i: int|
                        0 <= i < rows.drop_last().len() && #[trigger] rows.drop_last()[i].block_id
                            == block_id;
                    assert(rows[i].block_id == block_id);
                }
            }
        }
    }

    proof fn lemma_map_of_get(rows: Seq<StoreRow>, i: int)
        requires
            unique_ids(rows),
            0 <= i < rows.len(),
        ensures
            Self::map_of(rows).contains_key(rows[i].block_id),
            Self::map_of(rows)[rows[i].block_id] == rows[i].model(),
        decreases rows.len(),
    {
        if i < rows.len() - 1 {
            assert(rows.drop_last()[i] == rows[i]);
            Self::lemma_map_of_get(rows.drop_last(), i);
            assert(rows.last().block_id != rows[i].block_id);
        }
    }

    proof fn lemma_map_of_update(rows: Seq<StoreRow>, i: int, row: StoreRow)
        requires
            unique_ids(rows),
            0 <= i < rows.len(),
            row.block_id == rows[i].block_id,
        ensures
            Self::map_of(rows.update(i, row)) == Self::map_of(rows).insert(
                row.block_id,
                row.model(),
            ),
        decreases rows.len(),
    {
        let rows2 = rows.update(i, row);
        if i == rows.len() - 1 {
            assert(rows2.drop_last() =~= rows.drop_last());
            assert(rows2.last() == row);
            assert(Self::map_of(rows2) =~= Self::map_of(rows).insert(row.block_id, row.model()));
        } else {
            assert(rows2.drop_last() =~= rows.drop_last().update(i, row));
            assert(rows2.last() == rows.last());
            assert(rows.drop_last()[i] == rows[i]);
            Self::lemma_map_of_update(rows.drop_last(), i, row);
            assert(rows.last().block_id != row.block_id);
            assert(Self::map_of(rows2) =~= Self::map_of(rows).insert(row.block_id, row.model()));
        }
    }

    proof fn lemma_map_of_push(rows: Seq<StoreRow>, row: StoreRow)
        ensures
            Self::map_of(rows.push(row)) == Self::map_of(rows).insert(row.block_id, row.model()),
    {
        assert(rows.push(row).drop_last() =~= rows);
        assert(rows.push(row).last() == row);
    }

    /// An empty table.
    pub fn new() -> (s: Self)
        ensures
            s.wf(),
            s@ == Map::<u64, RowModel>::empty(),
    {
        StatusStore { rows: Vec::new() }
    }

    fn find_index(&self, block_id: u64) -> (r: Option<usize>)
        requires
            self.wf(),
        ensures
            match r {
                Some(i) => i < self.rows@.len() && self.rows@[i as int].block_id == block_id,
                None => !self@.contains_key(block_id),
            },
    {
        let n = self.rows.len();
        for i in 0..n
            invariant
                n == self.rows@.len(),
                forall|j: int| 0 <= j < i ==> self.rows@[j].block_id != block_id,
        {
            if self.rows[i].block_id == block_id {
                return Some(i);
            }
        }
        proof {
            Self::lemma_map_of_contains(self.rows@, block_id);
        }
        None
    }

    /// Creates the row for a new block: the upstream collaborator's way of
    /// seeding the table. This subsystem's own steps never insert.
    pub fn insert_row(&mut self, row: StoreRow)
        requires
            old(self).wf(),
            !old(self)@.contains_key(row.block_id),
        ensures
            final(self).wf(),
            final(self)@ == old(self)@.insert(row.block_id, row.model()),
    {
        proof {
            Self::lemma_map_of_contains(self.rows@, row.block_id);
            Self::lemma_map_of_push(self.rows@, row);
        }
        self.rows.push(row);
    }

    /// Runs `update <table> set status = ?, l1_tx_hash = ? where block_id =
    /// ?`: both columns of the keyed row change; with no such row the table
    /// is untouched. Returns whether a row matched.
    pub fn update_row(&mut self, block_id: u64, status: BlockStatus, l1_tx_hash: Vec<u8>) -> (updated:
        bool)
        requires
            old(self).wf(),
        ensures
            final(self).wf(),
            final(self)@ == row_updated(old(self)@, block_id, status, l1_tx_hash@),
            updated == old(self)@.contains_key(block_id),
    {
        match self.find_index(block_id) {
            Some(i) => {
                let row = StoreRow { block_id, status, l1_tx_hash };
                proof {
                    Self::lemma_map_of_get(self.rows@, i as int);
                    Self::lemma_map_of_update(self.rows@, i as int, row);
                }
                self.rows[i] = row;
                true
            },
            None => false,
        }
    }

    /// Runs `update <table> set status = ? where block_id = ?`: the status
    /// column of the keyed row changes, the hash column stays; with no such
    /// row the table is untouched. Returns whether a row matched.
    pub fn update_status(&mut self, block_id: u64, status: BlockStatus) -> (updated: bool)
        requires
            old(self).wf(),
        ensures
            final(self).wf(),
            final(self)@ == status_updated(old(self)@, block_id, status),
            updated == old(self)@.contains_key(block_id),
    {
        match self.find_index(block_id) {
            Some(i) => {
                proof {
                    Self::lemma_map_of_get(self.rows@, i as int);
                }
                let ghost pre = self.rows@;
                self.rows[i].status = status;
                proof {
                    Self::lemma_map_of_update(pre, i as int, self.rows@[i as int]);
                }
                true
            },
            None => false,
        }
    }

    /// The row for a block, if the table has one.
    pub fn get_row(&self, block_id: u64) -> (r: Option<&StoreRow>)
        requires
            self.wf(),
        ensures
            match r {
                Some(row) => {
                    &&& self@.contains_key(block_id)
                    &&& row.block_id == block_id
                    &&& row.model() == self@[block_id]
                },
                None => !self@.contains_key(block_id),
            },
    {
        match self.find_index(block_id) {
            Some(i) => {
                proof {
                    Self::lemma_map_of_get(self.rows@, i as int);
                }
                Some(&self.rows[i])
            },
            None => None,
        }
    }
}

} // verus!
