use opentale_blocks::block::Block;
use opentale_blocks::catalog::Catalog;
use opentale_blocks::catalog::CatalogError;
use opentale_blocks::descriptor::BlockDescriptor;
use opentale_blocks::facing::Facing;
use opentale_blocks::facing::ReflectionFacing;
use opentale_blocks::facing::RotDir;
use opentale_blocks::facing::YRotFacing;
use opentale_blocks::table::Table;
use opentale_blocks::table::TableEntry;

fn entry(declared_name: &str, block: BlockDescriptor) -> TableEntry {
    TableEntry {
        declared_name: declared_name.to_string(),
        block,
    }
}

/// A basic block, a pillar, and a Y-rotateable full block: id spans
/// 1, 1 and 4, so the total span is 7.
fn example_table() -> Table {
    let dirt = Block::new_basic("dirt_block".to_string()).with_texture("dirt.gif".to_string());
    let log = Block::new_pillar("log".to_string()).with_texture("log.gif".to_string());
    let furnace = Block::new_rotateable(
        BlockDescriptor::Full(Block::new_full("furnace".to_string())),
        RotDir::Y,
    );
    Table::new(vec![
        entry("Dirt", BlockDescriptor::Basic(dirt)),
        entry("Log", BlockDescriptor::Pillar(log)),
        entry("Furnace", BlockDescriptor::Rotateable(furnace)),
    ])
}

/// Two one-id blocks followed by a reflectable pillar: the preceding
/// blocks consume ids 1..3.
fn slab_table() -> Table {
    let dirt = Block::new_basic("dirt_block".to_string());
    let ore = Block::new_basic("iron_ore".to_string());
    let slab = Block::new_reflectable(BlockDescriptor::Pillar(Block::new_pillar(
        "stone_slab".to_string(),
    )));
    Table::new(vec![
        entry("Dirt", BlockDescriptor::Basic(dirt)),
        entry("IronOre", BlockDescriptor::Basic(ore)),
        entry("StoneSlab", BlockDescriptor::Reflectable(slab)),
    ])
}

#[test]
fn id_zero_is_the_empty_sentinel() {
    // Decoding id 0 yields the empty sentinel, for any catalog contents.
    let table = example_table();
    assert_eq!(Catalog::from_id(&table, 0).unwrap(), Catalog::Air);
    let empty = Table::new(Vec::new());
    assert_eq!(Catalog::from_id(&empty, 0).unwrap(), Catalog::Air);
    let slab = slab_table();
    assert_eq!(Catalog::from_id(&slab, 0).unwrap(), Catalog::Air);
}

#[test]
fn ids_at_or_beyond_the_span_are_rejected() {
    // Decoding an id >= total span raises InvalidVariantCode.
    let table = example_table();
    assert_eq!(table.id_span(), 7);
    assert_eq!(
        Catalog::from_id(&table, 7),
        Err(CatalogError::InvalidVariantCode)
    );
    assert_eq!(
        Catalog::from_id(&table, 1000),
        Err(CatalogError::InvalidVariantCode)
    );
    let empty = Table::new(Vec::new());
    assert_eq!(
        Catalog::from_id(&empty, 1),
        Err(CatalogError::InvalidVariantCode)
    );
}

#[test]
fn every_id_round_trips() {
    // Catalog::from_id(c.to_id()) == c for every constructible value.
    let table = example_table();
    for id in 0..table.id_span() {
        let c = Catalog::from_id(&table, id).unwrap();
        assert_eq!(c.to_id(&table), id);
        let again = Catalog::from_id(&table, c.to_id(&table)).unwrap();
        assert_eq!(again, c);
    }
}

#[test]
fn constructed_values_round_trip() {
    let table = example_table();
    let values = [
        Catalog::Air,
        Catalog::Block {
            entry: 0,
            variant: vec![],
        },
        Catalog::Block {
            entry: 1,
            variant: vec![],
        },
        Catalog::Block {
            entry: 2,
            variant: vec![Facing::Y(YRotFacing::North)],
        },
        Catalog::Block {
            entry: 2,
            variant: vec![Facing::Y(YRotFacing::South)],
        },
    ];
    for c in values {
        let id = c.to_id(&table);
        assert_eq!(Catalog::from_id(&table, id).unwrap(), c);
    }
}

#[test]
fn block_ids_follow_the_allocation() {
    let table = example_table();
    // Dirt occupies id 1, Log id 2, Furnace ids 3..7.
    assert_eq!(
        Catalog::Block {
            entry: 0,
            variant: vec![],
        }
        .to_id(&table),
        1
    );
    assert_eq!(
        Catalog::Block {
            entry: 1,
            variant: vec![],
        }
        .to_id(&table),
        2
    );
    assert_eq!(
        Catalog::Block {
            entry: 2,
            variant: vec![Facing::Y(YRotFacing::North)],
        }
        .to_id(&table),
        3
    );
    assert_eq!(
        Catalog::Block {
            entry: 2,
            variant: vec![Facing::Y(YRotFacing::South)],
        }
        .to_id(&table),
        6
    );
}

#[test]
fn reflected_down_of_the_third_block() {
    // Reflectable<Pillar> has id footprint 2.  Registered third, after
    // blocks consuming ids 1..3, encoding its Down variant (code 1)
    // yields id 3 + 1.
    let table = slab_table();
    let slab_rows = table.iter();
    assert_eq!(slab_rows[2].block.get_id_size(), 2);
    let down = Catalog::Block {
        entry: 2,
        variant: vec![Facing::Reflection(ReflectionFacing::Down)],
    };
    assert_eq!(down.to_id(&table), 4);
    let up = Catalog::Block {
        entry: 2,
        variant: vec![Facing::Reflection(ReflectionFacing::Up)],
    };
    assert_eq!(up.to_id(&table), 3);
}

#[test]
fn display_names() {
    let table = example_table();
    assert_eq!(Catalog::Air.display_name(&table), "Air");
    let dirt = Catalog::Block {
        entry: 0,
        variant: vec![],
    };
    assert_eq!(dirt.display_name(&table), "Dirt");
    let furnace = Catalog::Block {
        entry: 2,
        variant: vec![Facing::Y(YRotFacing::West)],
    };
    assert_eq!(furnace.display_name(&table), "Furnace[facing: west]");
}

#[test]
fn display_name_joins_nested_dimensions() {
    let stair = Block::new_reflectable(BlockDescriptor::Rotateable(Block::new_rotateable(
        BlockDescriptor::Full(Block::new_full("stone_stair".to_string())),
        RotDir::Y,
    )));
    let table = Table::new(vec![entry(
        "StoneStair",
        BlockDescriptor::Reflectable(stair),
    )]);
    assert_eq!(table.id_span(), 1 + 8);
    let c = Catalog::Block {
        entry: 0,
        variant: vec![
            Facing::Reflection(ReflectionFacing::Down),
            Facing::Y(YRotFacing::East),
        ],
    };
    assert_eq!(c.display_name(&table), "StoneStair[spin: down, facing: east]");
    // Outer digit high-order: Down(1) * 4 + East(2), offset by 1.
    assert_eq!(c.to_id(&table), 1 + 4 + 2);
}

#[test]
fn catalog_equality_compares_entry_and_state() {
    let a = Catalog::Block {
        entry: 2,
        variant: vec![Facing::Y(YRotFacing::North)],
    };
    let b = Catalog::Block {
        entry: 2,
        variant: vec![Facing::Y(YRotFacing::North)],
    };
    let c = Catalog::Block {
        entry: 2,
        variant: vec![Facing::Y(YRotFacing::West)],
    };
    assert_eq!(a, b);
    assert!(a != c);
    assert!(Catalog::Air != a);
    assert_eq!(Catalog::Air, Catalog::Air);
}
