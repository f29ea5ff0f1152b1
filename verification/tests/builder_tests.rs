use opentale_blocks::BlockType;
use opentale_blocks::block::Block;
use opentale_blocks::const_into::ConstInto;
use opentale_blocks::descriptor::BlockDescriptor;
use opentale_blocks::facing::RotDir;
use opentale_blocks::full;
use opentale_blocks::full::FullTexture;
use opentale_blocks::pillar;
use opentale_blocks::pillar::PillarTexture;

#[test]
fn basic_builder_sets_texture_and_model() {
    let b = Block::new_basic("dirt_block".to_string())
        .with_texture("dirt.gif".to_string())
        .with_model("cube.bbno".to_string());
    assert_eq!(b.name, "dirt_block");
    assert_eq!(b.texture, Some("dirt.gif".to_string()));
    assert_eq!(b.model, Some("cube.bbno".to_string()));
    assert_eq!(b.id, 0);
    assert_eq!(b.index, 0);
}

#[test]
fn custom_builder_sets_texture_and_model() {
    let c = Block::new_custom("stone_pile".to_string())
        .with_texture("stone_pile.gif".to_string())
        .with_model("pile.bbno".to_string());
    assert_eq!(c.name, "stone_pile");
    assert_eq!(c.texture, Some("stone_pile.gif".to_string()));
    assert_eq!(c.model, Some("pile.bbno".to_string()));
}

#[test]
fn full_builder_accepts_complete_paths() {
    let f = Block::new_full("furnace".to_string()).with_textures(full::Paths {
        up: "top.gif".to_string(),
        north: "north.gif".to_string(),
        west: "west.gif".to_string(),
        east: "east.gif".to_string(),
        south: "south.gif".to_string(),
        down: "down.gif".to_string(),
    });
    match &f.texture {
        FullTexture::Multiple(paths) => {
            assert_eq!(paths.up, Some("top.gif".to_string()));
            assert_eq!(paths.down, Some("down.gif".to_string()));
        }
        FullTexture::Single(_) => panic!("expected per-face textures"),
    }
}

#[test]
fn full_builder_accepts_partial_paths() {
    let partial = full::PathsInternal {
        up: Some("top.gif".to_string()),
        north: Some("north.gif".to_string()),
        west: None,
        east: None,
        south: None,
        down: None,
    };
    let f = Block::new_full("furnace".to_string()).with_textures(partial);
    match &f.texture {
        FullTexture::Multiple(paths) => {
            assert_eq!(paths.north, Some("north.gif".to_string()));
            assert_eq!(paths.west, None);
        }
        FullTexture::Single(_) => panic!("expected per-face textures"),
    }
}

#[test]
fn pillar_builder_sets_models() {
    let p = Block::new_pillar("log".to_string())
        .with_textures(pillar::Paths {
            up: "log_up.gif".to_string(),
            sides: "log_side.gif".to_string(),
            down: "log_down.gif".to_string(),
        })
        .with_models(pillar::Paths {
            up: "up.bbno".to_string(),
            sides: "side.bbno".to_string(),
            down: "down.bbno".to_string(),
        });
    match &p.texture {
        PillarTexture::Multiple(paths) => {
            assert_eq!(paths.sides, Some("log_side.gif".to_string()));
        }
        PillarTexture::Single(_) => panic!("expected per-face textures"),
    }
    assert_eq!(p.models.up, Some("up.bbno".to_string()));
}

#[test]
fn uniform_texture_stays_single() {
    let p = Block::new_pillar("log".to_string()).with_texture("log.gif".to_string());
    match &p.texture {
        PillarTexture::Single(t) => assert_eq!(*t, Some("log.gif".to_string())),
        PillarTexture::Multiple(_) => panic!("expected a uniform texture"),
    }
}

#[test]
fn paths_convert_to_complete_internal_sets() {
    let internal: pillar::PathsInternal = pillar::Paths {
        up: "a".to_string(),
        sides: "b".to_string(),
        down: "c".to_string(),
    }
    .const_into();
    assert_eq!(internal.up, Some("a".to_string()));
    assert_eq!(internal.sides, Some("b".to_string()));
    assert_eq!(internal.down, Some("c".to_string()));
}

#[test]
fn default_paths_are_unset() {
    let f = full::PathsInternal::default();
    assert!(f.up.is_none() && f.north.is_none() && f.west.is_none());
    assert!(f.east.is_none() && f.south.is_none() && f.down.is_none());
    let p = pillar::PathsInternal::default();
    assert!(p.up.is_none() && p.sides.is_none() && p.down.is_none());
}

#[test]
fn assignment_reaches_the_leaf_through_decorators() {
    let slab = Block::new_reflectable(BlockDescriptor::Pillar(Block::new_pillar(
        "stone_slab".to_string(),
    )));
    let slab = slab.with_index(9).with_id(17);
    assert_eq!(slab.index(), 9);
    assert_eq!(slab.id(), 17);
    assert_eq!(slab.name(), "stone_slab");

    let mut rot = Block::new_rotateable(
        BlockDescriptor::Reflectable(slab),
        RotDir::All,
    );
    rot.set_index(4);
    rot.set_id(5);
    assert_eq!(rot.index(), 4);
    assert_eq!(rot.id(), 5);
    assert_eq!(rot.name(), "stone_slab");
}

#[test]
fn leaf_setters_assign_in_place() {
    let mut b = Block::new_basic("iron_block".to_string());
    b.set_index(3);
    b.set_id(8);
    assert_eq!(b.index, 3);
    assert_eq!(b.id, 8);
    let d = BlockDescriptor::Basic(b);
    assert_eq!(d.index(), 3);
    assert_eq!(d.id(), 8);
    let d = d.with_index(10).with_id(12);
    assert_eq!(d.index(), 10);
    assert_eq!(d.id(), 12);
}
