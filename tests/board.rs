use std::collections::HashSet;

use anyerr::board::{Position, Region, RegionKind, RegionVariant};

#[test]
fn region_kind() {
    {
        let region = RegionVariant::new_row(0);
        assert_eq!(RegionKind::Row, region.kind());
    }

    {
        let region = RegionVariant::new_column(0);
        assert_eq!(RegionKind::Column, region.kind());
    }

    {
        let region = RegionVariant::new_box(0, 0);
        assert_eq!(RegionKind::Box, region.kind());
    }
}

#[test]
fn region_size() {
    {
        let region = RegionVariant::new_row(0);
        assert_eq!(9, region.size());
    }

    {
        let region = RegionVariant::new_column(0);
        assert_eq!(9, region.size());
    }

    {
        let region = RegionVariant::new_box(0, 0);
        assert_eq!(9, region.size());
    }
}

#[test]
fn region_to_position() {
    {
        let region = RegionVariant::new_row(1);
        let actual: HashSet<_> = region.to_positions().into_iter().collect();
        let expected: HashSet<_> = (0..9).map(|column| Position::new(1, column)).collect();
        assert_eq!(expected, actual);
    }

    {
        let region = RegionVariant::new_column(2);
        let actual: HashSet<_> = region.to_positions().into_iter().collect();
        let expected: HashSet<_> = (0..9).map(|row| Position::new(row, 2)).collect();
        assert_eq!(expected, actual);
    }

    {
        let region = RegionVariant::new_box(1, 2);
        let actual: HashSet<_> = region.to_positions().into_iter().collect();
        let expected: HashSet<_> = [
            [(3, 6), (3, 7), (3, 8)],
            [(4, 6), (4, 7), (4, 8)],
            [(5, 6), (5, 7), (5, 8)],
        ]
        .iter()
        .flatten()
        .map(|&(row, column)| Position::new(row, column))
        .collect();
        assert_eq!(expected, actual);
    }
}

#[test]
fn region_variant_of_position() {
    {
        let region = RegionVariant::of_position(&Position::new(2, 3), RegionKind::Row);
        assert_eq!(RegionVariant::new_row(2), region);
    }

    {
        let region = RegionVariant::of_position(&Position::new(2, 3), RegionKind::Column);
        assert_eq!(RegionVariant::new_column(3), region);
    }

    {
        let region = RegionVariant::of_position(&Position::new(2, 3), RegionKind::Box);
        assert_eq!(RegionVariant::new_box(0, 1), region);
    }
}

#[test]
fn box_positions_come_row_by_row() {
    let region = RegionVariant::new_box(2, 0);
    let cells: Vec<(usize, usize)> = region
        .to_positions()
        .into_iter()
        .map(|p| (p.row(), p.column()))
        .collect();
    assert_eq!(
        cells,
        vec![(6, 0), (6, 1), (6, 2), (7, 0), (7, 1), (7, 2), (8, 0), (8, 1), (8, 2)]
    );
}

#[test]
fn position_setters_replace_one_coordinate() {
    let p = Position::new(4, 5).with_row(7);
    assert_eq!((p.row(), p.column()), (7, 5));
    let p = p.with_column(1);
    assert_eq!((p.row(), p.column()), (7, 1));
}

#[test]
fn boxes_beyond_the_board_are_numbered_too() {
    let region = RegionVariant::new_box(4, 5);
    let first = region.to_positions()[0];
    assert_eq!((first.row(), first.column()), (12, 15));
    let region = RegionVariant::of_position(&Position::new(20, 31), RegionKind::Box);
    assert_eq!(RegionVariant::new_box(6, 10), region);
}
