//! The two ways in which the cells of a line are stored.
use crate::attributes::{AttrModel, CellAttributes};
use crate::cell::{Cell, CellModel};
use crate::line::cells_view;
use vstd::prelude::*;

verus! {

/// A line that holds each of its cells.
#[derive(Debug, PartialEq, Eq)]
pub struct VecStorage {
    pub cells: Vec<Cell>,
}

/// Characters that stand side by side and have the same attributes.
#[derive(Debug, PartialEq, Eq)]
pub struct Cluster {
    pub text: Vec<char>,
    pub attrs: CellAttributes,
}

/// A line that holds the attributes of its cells once for each cluster.
#[derive(Debug, PartialEq, Eq)]
pub struct ClusteredLine {
    pub clusters: Vec<Cluster>,
}

#[derive(Debug, PartialEq, Eq)]
pub enum CellStorage {
    V(VecStorage),
    C(ClusteredLine),
}

/// A cell of a line, and its column.
#[derive(Debug, Clone, Copy, PartialEq, Eq)]
pub enum CellRef<'a> {
    CellRef { cell_index: usize, cell: &'a Cell },
    ClusterRef { cell_index: usize, text: char, attrs: &'a CellAttributes },
}

impl<'a> CellRef<'a> {
    pub open spec fn index(self) -> int {
        match self {
            CellRef::CellRef { cell_index, .. } => cell_index as int,
            CellRef::ClusterRef { cell_index, .. } => cell_index as int,
        }
    }

    pub open spec fn cell(self) -> CellModel {
        match self {
            CellRef::CellRef { cell, .. } => cell@,
            CellRef::ClusterRef { text, attrs, .. } => CellModel { text, attrs: attrs@ },
        }
    }
}

/// The cells of characters that have the same attributes.
pub open spec fn text_cells(text: Seq<char>, attrs: AttrModel) -> Seq<CellModel> {
    Seq::new(text.len(), |i: int| CellModel::with(text[i], attrs))
}

/// The cells of a cluster.
pub open spec fn cluster_cells(cluster: Cluster) -> Seq<CellModel> {
    text_cells(cluster.text@, cluster.attrs@)
}

/// The cells of the clusters from the first one on.
pub open spec fn clusters_cells(clusters: Seq<Cluster>) -> Seq<CellModel>
    decreases clusters.len(),
{
    if clusters.len() == 0 {
        Seq::empty()
    } else {
        cluster_cells(clusters[0]) + clusters_cells(clusters.drop_first())
    }
}

impl View for CellStorage {
    type V = Seq<CellModel>;

    /// The cells of the line.
    open spec fn view(&self) -> Seq<CellModel> {
        match self {
            CellStorage::V(storage) => cells_view(storage.cells@),
            CellStorage::C(line) => clusters_cells(line.clusters@),
        }
    }
}

pub struct VecStorageIter<'a> {
    cells: &'a Vec<Cell>,
    idx: usize,
}

impl<'a> VecStorageIter<'a> {
    /// How many cells were handed out.
    pub closed spec fn position(self) -> int {
        self.idx as int
    }

    /// The cells that are still to come.
    pub closed spec fn rest(self) -> Seq<CellModel> {
        cells_view(self.cells@).skip(self.idx as int)
    }

    pub closed spec fn wf(self) -> bool {
        self.idx <= self.cells@.len()
    }

    pub fn new(storage: &'a VecStorage) -> (iter: VecStorageIter<'a>)
        ensures
            iter.wf(),
            iter.position() == 0,
            iter.rest() == cells_view(storage.cells@),
    {
        let iter = VecStorageIter { cells: &storage.cells, idx: 0 };
        assert(iter.rest() =~= cells_view(storage.cells@));
        iter
    }

    pub fn next(&mut self) -> (cell: Option<CellRef<'a>>)
        requires
            old(self).wf(),
        ensures
            final(self).wf(),
            next_cell(old(self).rest(), old(self).position(), cell),
            final(self).rest() == rest_after(old(self).rest()),
            final(self).position() == old(self).position() + (old(self).rest().len()
                - final(self).rest().len()),
    {
        if self.idx < self.cells.len() {
            let cell_index: usize = self.idx;
            self.idx = cell_index + 1;
            assert(self.rest() =~= old(self).rest().drop_first());
            Some(CellRef::CellRef { cell_index, cell: &self.cells[cell_index] })
        } else {
            None
        }
    }
}

/// Whether an iterator hands out the first of the cells that are still to come, with
/// its column, and nothing where there is none.
pub open spec fn next_cell<'a>(
    rest: Seq<CellModel>,
    position: int,
    cell: Option<CellRef<'a>>,
) -> bool {
    match cell {
        Some(c) => rest.len() > 0 && c.cell() == rest[0] && c.index() == position,
        None => rest.len() == 0,
    }
}

/// The cells that are still to come after the next one.
pub open spec fn rest_after(rest: Seq<CellModel>) -> Seq<CellModel> {
    if rest.len() > 0 {
        rest.drop_first()
    } else {
        rest
    }
}

pub struct ClusterLineCellIter<'a> {
    clusters: &'a Vec<Cluster>,
    /// The cluster that the next cell is taken from.
    cluster: usize,
    /// How many cells of that cluster were handed out.
    offset: usize,
    idx: usize,
}

impl<'a> ClusterLineCellIter<'a> {
    /// How many cells were handed out.
    pub closed spec fn position(self) -> int {
        self.idx as int
    }

    /// The cells that are still to come.
    pub closed spec fn rest(self) -> Seq<CellModel> {
        clusters_cells(self.clusters@.skip(self.cluster as int)).skip(self.offset as int)
    }

    pub closed spec fn wf(self) -> bool {
        &&& self.cluster <= self.clusters@.len()
        &&& self.cluster < self.clusters@.len() ==> self.offset
            <= self.clusters@[self.cluster as int].text@.len()
        &&& self.cluster == self.clusters@.len() ==> self.offset == 0
        &&& self.idx + self.rest().len() <= usize::MAX
    }

    pub fn new(line: &'a ClusteredLine) -> (iter: ClusterLineCellIter<'a>)
        requires
            clusters_cells(line.clusters@).len() <= usize::MAX,
        ensures
            iter.wf(),
            iter.position() == 0,
            iter.rest() == clusters_cells(line.clusters@),
    {
        let iter = ClusterLineCellIter { clusters: &line.clusters, cluster: 0, offset: 0, idx: 0 };
        proof {
            assert(line.clusters@.skip(0) =~= line.clusters@);
            assert(iter.rest() =~= clusters_cells(line.clusters@));
        }
        iter
    }

    pub fn next(&mut self) -> (cell: Option<CellRef<'a>>)
        requires
            old(self).wf(),
        ensures
            final(self).wf(),
            next_cell(old(self).rest(), old(self).position(), cell),
            final(self).rest() == rest_after(old(self).rest()),
            final(self).position() == old(self).position() + (old(self).rest().len()
                - final(self).rest().len()),
    {
        let ghost rest = self.rest();
        let ghost clusters = self.clusters@;
        let ghost position = self.idx;
        while self.cluster < self.clusters.len() && self.offset
            == self.clusters[self.cluster].text.len()
            invariant
                self.wf(),
                self.rest() == rest,
                self.clusters@ == clusters,
                self.idx == position,
            decreases self.clusters@.len() - self.cluster,
        {
            let ghost left = self.clusters@.skip(self.cluster as int);
            assert(clusters_cells(left) == cluster_cells(left[0]) + clusters_cells(
                left.drop_first(),
            ));
            self.cluster += 1;
            self.offset = 0;
            proof {
                assert(left.drop_first() =~= self.clusters@.skip(self.cluster as int));
                assert(self.rest() =~= rest);
            }
        }
        if self.cluster < self.clusters.len() {
            let cell_index: usize = self.idx;
            let offset: usize = self.offset;
            let cluster = &self.clusters[self.cluster];
            let ghost left = self.clusters@.skip(self.cluster as int);
            assert(clusters_cells(left) == cluster_cells(left[0]) + clusters_cells(
                left.drop_first(),
            ));
            assert(rest[0] == cluster_cells(left[0])[offset as int]);
            self.offset = offset + 1;
            self.idx = cell_index + 1;
            assert(self.rest() =~= rest.drop_first());
            Some(
                CellRef::ClusterRef {
                    cell_index,
                    text: cluster.text[offset],
                    attrs: &cluster.attrs,
                },
            )
        } else {
            assert(self.clusters@.skip(self.cluster as int) =~= Seq::<Cluster>::empty());
            assert(rest =~= Seq::<CellModel>::empty());
            None
        }
    }
}

/// The cells of a line, from the first on.
pub enum VisibleCellIter<'a> {
    V(VecStorageIter<'a>),
    C(ClusterLineCellIter<'a>),
}

impl<'a> VisibleCellIter<'a> {
    /// How many cells were handed out.
    pub open spec fn position(self) -> int {
        match self {
            VisibleCellIter::V(iter) => iter.position(),
            VisibleCellIter::C(iter) => iter.position(),
        }
    }

    /// The cells that are still to come.
    pub open spec fn rest(self) -> Seq<CellModel> {
        match self {
            VisibleCellIter::V(iter) => iter.rest(),
            VisibleCellIter::C(iter) => iter.rest(),
        }
    }

    pub open spec fn wf(self) -> bool {
        match self {
            VisibleCellIter::V(iter) => iter.wf(),
            VisibleCellIter::C(iter) => iter.wf(),
        }
    }

    pub fn new(storage: &'a CellStorage) -> (iter: VisibleCellIter<'a>)
        requires
            storage@.len() <= usize::MAX,
        ensures
            iter.wf(),
            iter.position() == 0,
            iter.rest() == storage@,
    {
        match storage {
            CellStorage::V(storage) => VisibleCellIter::V(VecStorageIter::new(storage)),
            CellStorage::C(line) => VisibleCellIter::C(ClusterLineCellIter::new(line)),
        }
    }

    pub fn next(&mut self) -> (cell: Option<CellRef<'a>>)
        requires
            old(self).wf(),
        ensures
            final(self).wf(),
            next_cell(old(self).rest(), old(self).position(), cell),
            final(self).rest() == rest_after(old(self).rest()),
            final(self).position() == old(self).position() + (old(self).rest().len()
                - final(self).rest().len()),
    {
        match self {
            VisibleCellIter::V(iter) => iter.next(),
            VisibleCellIter::C(iter) => iter.next(),
        }
    }
}

/// The cells of a cluster are its characters, each with the attributes of the cluster.
pub proof fn law_cluster(cluster: Cluster)
    ensures
        clusters_cells(seq![cluster]).len() == cluster.text@.len(),
        forall|i: int|
            0 <= i < cluster.text@.len() ==> (#[trigger] clusters_cells(seq![cluster])[i]).text
                == cluster.text@[i] && clusters_cells(seq![cluster])[i].attrs == cluster.attrs@,
{
    reveal_with_fuel(clusters_cells, 2);
    assert(seq![cluster].drop_first() =~= Seq::<Cluster>::empty());
    assert(clusters_cells(seq![cluster]) =~= cluster_cells(cluster));
}

/// The cells of some clusters come before those of the clusters after them.
pub proof fn law_clusters_in_order(first: Seq<Cluster>, second: Seq<Cluster>)
    ensures
        clusters_cells(first + second) == clusters_cells(first) + clusters_cells(second),
    decreases first.len(),
{
    if first.len() == 0 {
        assert(first + second =~= second);
        assert(clusters_cells(first + second) =~= clusters_cells(first) + clusters_cells(second));
    } else {
        law_clusters_in_order(first.drop_first(), second);
        assert((first + second).drop_first() =~= first.drop_first() + second);
        assert(clusters_cells(first + second) =~= clusters_cells(first) + clusters_cells(second));
    }
}

/// Whether an iterator from a column on hands out these cells one after the other, and then
/// nothing.
pub open spec fn handed_out<'a>(rest: Seq<CellModel>, position: int, refs: Seq<CellRef<'a>>) -> bool
    decreases refs.len(),
{
    if refs.len() == 0 {
        next_cell(rest, position, None)
    } else {
        next_cell(rest, position, Some(refs[0])) && handed_out(
            rest_after(rest),
            position + 1,
            refs.drop_first(),
        )
    }
}

/// What an iterator hands out before it ends is every cell of the line once, in order and
/// with its column.
pub proof fn law_handed_out<'a>(rest: Seq<CellModel>, position: int, refs: Seq<CellRef<'a>>)
    requires
        handed_out(rest, position, refs),
    ensures
        refs.len() == rest.len(),
        forall|i: int|
            0 <= i < refs.len() ==> (#[trigger] refs[i]).cell() == rest[i] && refs[i].index()
                == position + i,
    decreases refs.len(),
{
    if refs.len() > 0 {
        let others = refs.drop_first();
        law_handed_out(rest_after(rest), position + 1, others);
        assert forall|i: int| 0 <= i < refs.len() implies (#[trigger] refs[i]).cell() == rest[i]
            && refs[i].index() == position + i by {
            if i > 0 {
                assert(refs[i] == others[i - 1]);
            }
        }
    }
}

} // verus!
