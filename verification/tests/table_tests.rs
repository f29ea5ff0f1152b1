use opentale_blocks::BlockType;
use opentale_blocks::block::Block;
use opentale_blocks::descriptor::BlockDescriptor;
use opentale_blocks::facing::RotDir;
use opentale_blocks::pillar;
use opentale_blocks::table::Table;
use opentale_blocks::table::TableEntry;

fn entry(declared_name: &str, block: BlockDescriptor) -> TableEntry {
    TableEntry {
        declared_name: declared_name.to_string(),
        block,
    }
}

/// The catalog of the worked example: a basic block, a pillar, and a
/// Y-rotateable full block.
fn example_table() -> Table {
    let dirt = Block::new_basic("dirt_block".to_string()).with_texture("dirt.gif".to_string());
    let log = Block::new_pillar("log".to_string()).with_textures(pillar::Paths {
        up: "log_up.gif".to_string(),
        sides: "log_side.gif".to_string(),
        down: "log_down.gif".to_string(),
    });
    let furnace = Block::new_rotateable(
        BlockDescriptor::Full(
            Block::new_full("furnace".to_string()).with_texture("furnace.gif".to_string()),
        ),
        RotDir::Y,
    );
    Table::new(vec![
        entry("Dirt", BlockDescriptor::Basic(dirt)),
        entry("Log", BlockDescriptor::Pillar(log)),
        entry("Furnace", BlockDescriptor::Rotateable(furnace)),
    ])
}

#[test]
fn leaf_texture_footprints() {
    let basic = BlockDescriptor::Basic(Block::new_basic("a".to_string()));
    let custom = BlockDescriptor::Custom(Block::new_custom("b".to_string()));
    let pillar = BlockDescriptor::Pillar(Block::new_pillar("c".to_string()));
    let full = BlockDescriptor::Full(Block::new_full("d".to_string()));
    assert_eq!(basic.get_texture_size(), 1);
    assert_eq!(custom.get_texture_size(), 1);
    assert_eq!(pillar.get_texture_size(), 3);
    assert_eq!(full.get_texture_size(), 6);
    assert_eq!(basic.get_id_size(), 1);
    assert_eq!(custom.get_id_size(), 1);
    assert_eq!(pillar.get_id_size(), 1);
    assert_eq!(full.get_id_size(), 1);
}

#[test]
fn decorators_keep_the_texture_footprint() {
    let inner = BlockDescriptor::Pillar(Block::new_pillar("slab".to_string()));
    let reflectable = Block::new_reflectable(inner);
    assert_eq!(reflectable.get_texture_size(), 3);
    assert_eq!(reflectable.get_id_size(), 2);
    let nested = Block::new_rotateable(
        BlockDescriptor::Reflectable(reflectable),
        RotDir::Axis,
    );
    assert_eq!(nested.get_texture_size(), 3);
    assert_eq!(nested.get_id_size(), 3 * 2);
}

#[test]
fn composite_span_multiplies_layer_spans() {
    // span(Reflectable<Rotateable<Full, Y>>) == 2 * 4 * span(Full)
    let full = BlockDescriptor::Full(Block::new_full("stair".to_string()));
    assert_eq!(full.get_id_size(), 1);
    let rotated = Block::new_rotateable(full, RotDir::Y);
    let rotated = BlockDescriptor::Rotateable(rotated);
    assert_eq!(rotated.get_id_size(), 4);
    let reflected = BlockDescriptor::Reflectable(Block::new_reflectable(rotated));
    assert_eq!(reflected.get_id_size(), 2 * 4 * 1);
}

#[test]
fn example_allocation() {
    // Entries [Dirt: Basic(1, 1), Log: Pillar(3, 1), Furnace:
    // Rotateable<Full, Y>(6, 4)] give (texture_index, catalog_id):
    // Dirt(1, 1), Log(2, 2), Furnace(5, 3).
    let table = example_table();
    assert_eq!(table.len(), 3);
    let rows = table.iter();
    assert_eq!(rows[0].block.index(), 1);
    assert_eq!(rows[0].block.id(), 1);
    assert_eq!(rows[1].block.index(), 2);
    assert_eq!(rows[1].block.id(), 2);
    assert_eq!(rows[2].block.index(), 5);
    assert_eq!(rows[2].block.id(), 3);
}

#[test]
fn example_totals() {
    // Total texture slots: 1 + 1 + 3 + 6 == 11; total catalog ids:
    // 1 (empty) + 1 + 1 + 4 == 7.
    let table = example_table();
    assert_eq!(table.total_texture_size(), 11);
    assert_eq!(table.id_span(), 7);
}

#[test]
fn ranges_partition_without_gaps_or_overlaps() {
    let table = example_table();
    let rows = table.iter();
    // Texture ranges: [1, 2), [2, 5), [5, 11).
    let mut next_index = 1;
    let mut next_id = 1;
    for row in rows {
        assert_eq!(row.block.index(), next_index);
        assert_eq!(row.block.id(), next_id);
        next_index += row.block.get_texture_size();
        next_id += row.block.get_id_size();
    }
    assert_eq!(next_index, table.total_texture_size());
    assert_eq!(next_id, table.id_span());
}

#[test]
fn table_keeps_names_and_order() {
    let table = example_table();
    let rows = table.iter();
    assert_eq!(rows[0].declared_name, "Dirt");
    assert_eq!(rows[1].declared_name, "Log");
    assert_eq!(rows[2].declared_name, "Furnace");
    assert_eq!(rows[0].block.name(), "dirt_block");
    assert_eq!(rows[1].block.name(), "log");
    assert_eq!(rows[2].block.name(), "furnace");
    assert_eq!(table.get(1).declared_name, "Log");
}

#[test]
fn empty_table_reserves_only_the_sentinel() {
    let table = Table::new(Vec::new());
    assert_eq!(table.len(), 0);
    assert_eq!(table.id_span(), 1);
    assert_eq!(table.total_texture_size(), 1);
}
