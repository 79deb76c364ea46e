use brawler::tile_map::{create_apartment_map, create_street_map, TileDraw, TileMap};

#[test]
fn built_in_maps() {
    let a = create_apartment_map();
    assert_eq!(a.tiles.len(), 6);
    assert!(a.tiles.iter().all(|r| r.len() == 10));
    assert_eq!(a.tiles[2][2], 2);
    assert_eq!(a.tiles[0][5], 1);
    assert_eq!(a.tiles[1][1], 0);
    let s = create_street_map();
    assert_eq!(s.tiles.len(), 6);
    assert!(s.tiles.iter().all(|r| r.len() == 8));
    assert_eq!(s.tiles[2][0], 3);
    assert_eq!(s.tiles[1][7], 5);
    assert_eq!(s.tiles[5][3], 4);
}

#[test]
fn plan_is_row_major_with_tileset_cells() {
    let m = TileMap::new(vec![vec![0, 5], vec![7, 3]]);
    let plan = m.tiles_to_draw(4);
    assert_eq!(
        plan,
        vec![
            TileDraw { column: 0, row: 0, src_column: 0, src_row: 0 },
            TileDraw { column: 1, row: 0, src_column: 1, src_row: 1 },
            TileDraw { column: 0, row: 1, src_column: 3, src_row: 1 },
            TileDraw { column: 1, row: 1, src_column: 3, src_row: 0 },
        ]
    );
}

#[test]
fn rectangular_plan_indexing() {
    let m = create_apartment_map();
    let plan = m.tiles_to_draw(3);
    assert_eq!(plan.len(), 60);
    for y in 0..6 {
        for x in 0..10 {
            let t = plan[y * 10 + x];
            let id = m.tiles[y][x];
            assert_eq!(t, TileDraw { column: x, row: y, src_column: id % 3, src_row: id / 3 });
        }
    }
}

#[test]
fn nothing_drawn_for_empty_maps_or_tilesets() {
    assert!(TileMap::new(vec![]).tiles_to_draw(4).is_empty());
    assert!(TileMap::new(vec![vec![], vec![1, 2]]).tiles_to_draw(4).is_empty());
    assert!(create_street_map().tiles_to_draw(0).is_empty());
}

#[test]
fn ragged_rows_are_all_drawn() {
    let m = TileMap::new(vec![vec![1], vec![], vec![2, 9]]);
    let plan = m.tiles_to_draw(8);
    assert_eq!(
        plan,
        vec![
            TileDraw { column: 0, row: 0, src_column: 1, src_row: 0 },
            TileDraw { column: 0, row: 2, src_column: 2, src_row: 0 },
            TileDraw { column: 1, row: 2, src_column: 1, src_row: 1 },
        ]
    );
}
