use opentale_blocks::facing::AllRotFacing;
use opentale_blocks::facing::AxisRotFacing;
use opentale_blocks::facing::Dimension;
use opentale_blocks::facing::Facing;
use opentale_blocks::facing::ReflectionFacing;
use opentale_blocks::facing::RotDir;
use opentale_blocks::facing::YRotFacing;

#[test]
fn y_rot_encodes_onto_span() {
    assert_eq!(YRotFacing::get_id_span(), 4);
    assert_eq!(YRotFacing::North.to_id(), 0);
    assert_eq!(YRotFacing::West.to_id(), 1);
    assert_eq!(YRotFacing::East.to_id(), 2);
    assert_eq!(YRotFacing::South.to_id(), 3);
}

#[test]
fn y_rot_round_trips() {
    let all = [
        YRotFacing::North,
        YRotFacing::West,
        YRotFacing::East,
        YRotFacing::South,
    ];
    for v in all {
        let id = v.to_id();
        assert!(id < YRotFacing::get_id_span());
        assert_eq!(YRotFacing::from_id(id), v);
    }
    for id in 0..4 {
        assert_eq!(YRotFacing::from_id(id).to_id(), id);
    }
}

#[test]
fn axis_rot_round_trips() {
    assert_eq!(AxisRotFacing::get_id_span(), 3);
    let all = [AxisRotFacing::X, AxisRotFacing::Y, AxisRotFacing::Z];
    for v in all {
        let id = v.to_id();
        assert!(id < AxisRotFacing::get_id_span());
        assert_eq!(AxisRotFacing::from_id(id), v);
    }
    for id in 0..3 {
        assert_eq!(AxisRotFacing::from_id(id).to_id(), id);
    }
}

#[test]
fn all_rot_round_trips() {
    assert_eq!(AllRotFacing::get_id_span(), 6);
    let all = [
        AllRotFacing::Up,
        AllRotFacing::North,
        AllRotFacing::West,
        AllRotFacing::East,
        AllRotFacing::South,
        AllRotFacing::Down,
    ];
    for v in all {
        let id = v.to_id();
        assert!(id < AllRotFacing::get_id_span());
        assert_eq!(AllRotFacing::from_id(id), v);
    }
    for id in 0..6 {
        assert_eq!(AllRotFacing::from_id(id).to_id(), id);
    }
}

#[test]
fn reflection_round_trips() {
    assert_eq!(ReflectionFacing::get_id_span(), 2);
    assert_eq!(ReflectionFacing::Up.to_id(), 0);
    assert_eq!(ReflectionFacing::Down.to_id(), 1);
    assert_eq!(ReflectionFacing::from_id(0), ReflectionFacing::Up);
    assert_eq!(ReflectionFacing::from_id(1), ReflectionFacing::Down);
}

#[test]
fn facing_renders_with_dimension_labels() {
    assert_eq!(YRotFacing::North.to_string(), "facing: north");
    assert_eq!(YRotFacing::South.to_string(), "facing: south");
    assert_eq!(AxisRotFacing::Z.to_string(), "axis: z");
    assert_eq!(AllRotFacing::Down.to_string(), "direction: down");
    assert_eq!(ReflectionFacing::Up.to_string(), "spin: up");
    assert_eq!(
        Facing::Y(YRotFacing::West).to_string(),
        "facing: west"
    );
}

#[test]
fn dimension_spans() {
    assert_eq!(Dimension::RotY.span(), 4);
    assert_eq!(Dimension::RotAxis.span(), 3);
    assert_eq!(Dimension::RotAll.span(), 6);
    assert_eq!(Dimension::Reflection.span(), 2);
    assert_eq!(Dimension::of_rot(RotDir::Y), Dimension::RotY);
    assert_eq!(Dimension::of_rot(RotDir::Axis), Dimension::RotAxis);
    assert_eq!(Dimension::of_rot(RotDir::All), Dimension::RotAll);
}

#[test]
fn facing_codes_stay_inside_their_dimension() {
    let states = [
        Facing::Y(YRotFacing::East),
        Facing::Axis(AxisRotFacing::Y),
        Facing::All(AllRotFacing::South),
        Facing::Reflection(ReflectionFacing::Down),
    ];
    let dims = [
        Dimension::RotY,
        Dimension::RotAxis,
        Dimension::RotAll,
        Dimension::Reflection,
    ];
    for (f, d) in states.iter().zip(dims.iter()) {
        assert!(f.code() < d.span());
        assert_eq!(Facing::from_code(*d, f.code()), *f);
    }
}
