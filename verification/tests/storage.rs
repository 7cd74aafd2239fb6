use wezterm::attributes::{CellAttributes, Intensity};
use wezterm::cell::Cell;
use wezterm::storage::{
    CellRef, CellStorage, Cluster, ClusteredLine, VecStorage, VisibleCellIter,
};

fn bold() -> CellAttributes {
    let mut attrs = CellAttributes::default();
    attrs.rendition.intensity = Intensity::Bold;
    attrs
}

fn cells(storage: &CellStorage) -> Vec<(usize, char, Intensity)> {
    let mut iter = VisibleCellIter::new(storage);
    let mut out = Vec::new();
    while let Some(cell) = iter.next() {
        out.push(match cell {
            CellRef::CellRef { cell_index, cell } => {
                (cell_index, cell.text, cell.attrs.rendition.intensity)
            }
            CellRef::ClusterRef {
                cell_index,
                text,
                attrs,
            } => (cell_index, text, attrs.rendition.intensity),
        });
    }
    assert!(iter.next().is_none());
    out
}

#[test]
fn both_storages_hand_out_the_same_cells() {
    let by_cell = CellStorage::V(VecStorage {
        cells: vec![
            Cell::new('a', CellAttributes::default()),
            Cell::new('b', CellAttributes::default()),
            Cell::new('c', bold()),
        ],
    });
    let by_cluster = CellStorage::C(ClusteredLine {
        clusters: vec![
            Cluster {
                text: vec![],
                attrs: bold(),
            },
            Cluster {
                text: vec!['a', 'b'],
                attrs: CellAttributes::default(),
            },
            Cluster {
                text: vec!['c'],
                attrs: bold(),
            },
            Cluster {
                text: vec![],
                attrs: bold(),
            },
        ],
    });
    let expected = vec![
        (0, 'a', Intensity::Normal),
        (1, 'b', Intensity::Normal),
        (2, 'c', Intensity::Bold),
    ];
    assert_eq!(cells(&by_cell), expected);
    assert_eq!(cells(&by_cluster), expected);
}

#[test]
fn an_empty_line_has_no_cells() {
    assert!(cells(&CellStorage::V(VecStorage { cells: vec![] })).is_empty());
    assert!(cells(&CellStorage::C(ClusteredLine { clusters: vec![] })).is_empty());
}
