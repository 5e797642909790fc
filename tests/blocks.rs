use blockfield::block::{Aabb3, Block, BlockEvent, Entity, FieldEvent};
use blockfield::board::{Board, UnknownBlock};
use blockfield::grid::calculate_position;
use blockfield::pick::{click_on_block, pick, Button, ClickIntent};
use blockfield::visual::{
    bucket_for, rank_of, variant_for, Bucket, Contains, MaterialVariant, MeshVariant, Visual,
    VisualPool,
};

fn concealed() -> Visual {
    Visual { mesh: Some(MeshVariant::Hidden), material: Some(MaterialVariant::Hidden) }
}

fn revealed(b: Bucket) -> Visual {
    Visual {
        mesh: Some(MeshVariant::Revealed(b)),
        material: Some(MaterialVariant::Revealed(b)),
    }
}

#[test]
fn position_odd_dimension_is_centred() {
    assert_eq!(calculate_position([1, 1, 1], [3, 3, 3]), [0, 0, 0]);
}

#[test]
fn position_even_dimension_truncates() {
    assert_eq!(calculate_position([0, 0, 0], [4, 4, 4]), [-2, -2, -2]);
    assert_eq!(calculate_position([3, 0, 4], [4, 1, 5]), [1, 0, 2]);
}

#[test]
fn buckets_saturate_at_five() {
    assert_eq!(bucket_for(0), None);
    assert_eq!(bucket_for(1), Some(Bucket::One));
    assert_eq!(bucket_for(4), Some(Bucket::Four));
    assert_eq!(bucket_for(5), Some(Bucket::Five));
    assert_eq!(bucket_for(26), Some(Bucket::Five));
}

#[test]
fn visuals_follow_state() {
    assert_eq!(variant_for(false, None), concealed());
    assert_eq!(
        variant_for(true, None),
        Visual { mesh: Some(MeshVariant::Hidden), material: Some(MaterialVariant::Marked) }
    );
    assert_eq!(
        variant_for(true, Some(Contains::Mine)),
        Visual { mesh: Some(MeshVariant::Mine), material: Some(MaterialVariant::Mine) }
    );
    assert_eq!(
        variant_for(false, Some(Contains::Empty { adjacent_mines: 0 })),
        Visual { mesh: None, material: None }
    );
    assert_eq!(variant_for(false, Some(Contains::Empty { adjacent_mines: 2 })), revealed(Bucket::Two));
}

#[test]
fn new_block_is_concealed() {
    let bb = Aabb3 { min: [-1, -1, -1], max: [1, 1, 1] };
    let b = Block::new(bb, [2, 0, 1]);
    assert_eq!(b.index(), [2, 0, 1]);
    assert!(!b.marked());
    assert_eq!(b.revealed(), None);
    assert_eq!(b.bounds(), bb);
    assert_eq!(b.visual(), concealed());
}

#[test]
fn block_id_of_each_event() {
    assert_eq!(BlockEvent::Mark(Entity(4)).block_id(), Entity(4));
    assert_eq!(BlockEvent::Reveal(Entity(7), Contains::Mine).block_id(), Entity(7));
}

#[test]
fn spawn_lays_out_every_index() {
    let board = Board::spawn([2, 3, 4]);
    assert_eq!(board.len(), 24);
    let b = board.get(Entity(5)).unwrap();
    assert_eq!(b.index(), [0, 1, 1]);
    assert_eq!(b.bounds(), Aabb3 { min: [-3, -1, -3], max: [-1, 1, -1] });
    let last = board.get(Entity(23)).unwrap();
    assert_eq!(last.index(), [1, 2, 3]);
    assert_eq!(last.visual(), concealed());
    assert!(board.get(Entity(24)).is_none());
}

#[test]
fn spawn_empty_grid() {
    assert_eq!(Board::spawn([0, 5, 5]).len(), 0);
    assert_eq!(Board::spawn([5, 5, 0]).len(), 0);
}

#[test]
fn single_hit_is_targeted() {
    let board = Board::spawn([3, 1, 1]);
    let hits = vec![None, Some(7), None];
    assert_eq!(pick(&board, &hits), Some(Entity(1)));
    assert_eq!(
        click_on_block(&board, Button::Left, &hits),
        Some(ClickIntent::Field(FieldEvent::Reveal(Entity(1), [1, 0, 0])))
    );
    assert_eq!(
        click_on_block(&board, Button::Right, &hits),
        Some(ClickIntent::Block(BlockEvent::Mark(Entity(1))))
    );
    assert_eq!(click_on_block(&board, Button::Middle, &hits), None);
}

#[test]
fn miss_gives_no_intent() {
    let board = Board::spawn([2, 2, 1]);
    let hits = vec![None, None, None, None];
    assert_eq!(pick(&board, &hits), None);
    assert_eq!(click_on_block(&board, Button::Left, &hits), None);
    assert_eq!(click_on_block(&board, Button::Right, &hits), None);
}

#[test]
fn nearest_wins_and_first_among_equals() {
    let board = Board::spawn([4, 1, 1]);
    assert_eq!(pick(&board, &vec![Some(9), Some(3), Some(5), None]), Some(Entity(1)));
    assert_eq!(pick(&board, &vec![Some(9), Some(4), Some(6), Some(4)]), Some(Entity(1)));
    assert_eq!(pick(&board, &vec![Some(0), Some(0), None, None]), Some(Entity(0)));
}

#[test]
fn revealed_cells_are_not_picked() {
    let mut board = Board::spawn([2, 1, 1]);
    let ev = BlockEvent::Reveal(Entity(0), Contains::Empty { adjacent_mines: 1 });
    assert_eq!(board.handle_block_event(&ev), Ok(()));
    assert_eq!(pick(&board, &vec![Some(1), Some(8)]), Some(Entity(1)));
    assert_eq!(pick(&board, &vec![Some(1), None]), None);
    assert_eq!(click_on_block(&board, Button::Right, &vec![Some(1), None]), None);
}

#[test]
fn marking_twice_restores_cell() {
    let mut board = Board::spawn([1, 1, 1]);
    board.handle_block_event(&BlockEvent::Mark(Entity(0))).unwrap();
    let b = board.get(Entity(0)).unwrap();
    assert!(b.marked());
    assert_eq!(b.visual().material, Some(MaterialVariant::Marked));
    assert_eq!(b.visual().mesh, Some(MeshVariant::Hidden));
    board.handle_block_event(&BlockEvent::Mark(Entity(0))).unwrap();
    let b = board.get(Entity(0)).unwrap();
    assert!(!b.marked());
    assert_eq!(b.visual(), concealed());
}

#[test]
fn revealed_cell_ignores_later_events() {
    let mut board = Board::spawn([1, 1, 1]);
    board.handle_block_event(&BlockEvent::Reveal(Entity(0), Contains::Mine)).unwrap();
    let before = *board.get(Entity(0)).unwrap();
    board.handle_block_event(&BlockEvent::Mark(Entity(0))).unwrap();
    board
        .handle_block_event(&BlockEvent::Reveal(Entity(0), Contains::Empty { adjacent_mines: 2 }))
        .unwrap();
    let after = board.get(Entity(0)).unwrap();
    assert_eq!(after.revealed(), Some(Contains::Mine));
    assert_eq!(after.marked(), before.marked());
    assert_eq!(after.visual(), before.visual());
    assert_eq!(
        after.visual(),
        Visual { mesh: Some(MeshVariant::Mine), material: Some(MaterialVariant::Mine) }
    );
}

#[test]
fn unknown_cell_is_refused() {
    let mut board = Board::spawn([1, 1, 1]);
    assert_eq!(
        board.handle_block_event(&BlockEvent::Mark(Entity(3))),
        Err(UnknownBlock(Entity(3)))
    );
    assert!(!board.get(Entity(0)).unwrap().marked());
}

#[test]
fn reveal_counts_map_to_buckets() {
    let mut board = Board::spawn([3, 1, 1]);
    let events = vec![
        BlockEvent::Reveal(Entity(0), Contains::Empty { adjacent_mines: 0 }),
        BlockEvent::Reveal(Entity(1), Contains::Empty { adjacent_mines: 4 }),
        BlockEvent::Reveal(Entity(2), Contains::Empty { adjacent_mines: 9 }),
        BlockEvent::Mark(Entity(40)),
    ];
    assert_eq!(board.handle_block_events(&events), 1);
    assert_eq!(board.get(Entity(0)).unwrap().visual(), Visual { mesh: None, material: None });
    assert_eq!(board.get(Entity(1)).unwrap().visual(), revealed(Bucket::Four));
    assert_eq!(board.get(Entity(2)).unwrap().visual(), revealed(Bucket::Five));
}

#[test]
fn marked_then_revealed_shows_content() {
    let mut board = Board::spawn([1, 1, 1]);
    let events = vec![
        BlockEvent::Mark(Entity(0)),
        BlockEvent::Reveal(Entity(0), Contains::Empty { adjacent_mines: 1 }),
    ];
    assert_eq!(board.handle_block_events(&events), 0);
    assert_eq!(board.get(Entity(0)).unwrap().visual(), revealed(Bucket::One));
}

#[test]
fn click_reveal_end_to_end() {
    let mut board = Board::spawn([1, 1, 1]);
    let hits = vec![Some(12)];
    let intent = click_on_block(&board, Button::Left, &hits);
    assert_eq!(intent, Some(ClickIntent::Field(FieldEvent::Reveal(Entity(0), [0, 0, 0]))));
    let Some(ClickIntent::Field(FieldEvent::Reveal(e, _))) = intent else {
        panic!("expected a reveal request");
    };
    let events = vec![BlockEvent::Reveal(e, Contains::Empty { adjacent_mines: 3 })];
    assert_eq!(board.handle_block_events(&events), 0);
    let b = board.get(Entity(0)).unwrap();
    assert_eq!(b.revealed(), Some(Contains::Empty { adjacent_mines: 3 }));
    assert_eq!(b.visual(), revealed(Bucket::Three));
}

fn numbered_pool() -> VisualPool<u32, u32> {
    VisualPool {
        hidden_mesh: 10,
        revealed_meshes: [11, 12, 13, 14, 15],
        mine_mesh: 16,
        hidden_material: 20,
        marked_material: 21,
        revealed_materials: [22, 23, 24, 25, 26],
        mine_material: 27,
    }
}

#[test]
fn pool_lends_one_handle_per_variant() {
    let pool = numbered_pool();
    assert_eq!(*pool.mesh(MeshVariant::Hidden), 10);
    assert_eq!(*pool.mesh(MeshVariant::Revealed(Bucket::One)), 11);
    assert_eq!(*pool.mesh(MeshVariant::Revealed(Bucket::Five)), 15);
    assert_eq!(*pool.mesh(MeshVariant::Mine), 16);
    assert_eq!(*pool.material(MaterialVariant::Hidden), 20);
    assert_eq!(*pool.material(MaterialVariant::Marked), 21);
    assert_eq!(*pool.material(MaterialVariant::Revealed(Bucket::Three)), 24);
    assert_eq!(*pool.material(MaterialVariant::Mine), 27);
}

#[test]
fn revealed_three_uses_third_pool_entries() {
    let pool = numbered_pool();
    let mut board = Board::spawn([1, 1, 1]);
    let ev = BlockEvent::Reveal(Entity(0), Contains::Empty { adjacent_mines: 3 });
    board.handle_block_event(&ev).unwrap();
    let v = board.get(Entity(0)).unwrap().visual();
    assert_eq!(*pool.mesh(v.mesh.unwrap()), 13);
    assert_eq!(*pool.material(v.material.unwrap()), 24);
}

#[test]
fn bucket_ranks_in_order() {
    assert_eq!(rank_of(Bucket::One), 0);
    assert_eq!(rank_of(Bucket::Three), 2);
    assert_eq!(rank_of(Bucket::Five), 4);
}
