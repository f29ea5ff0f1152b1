use opentale_blocks::facing::AllRotFacing;
use opentale_blocks::facing::Dimension;
use opentale_blocks::facing::Facing;
use opentale_blocks::facing::ReflectionFacing;
use opentale_blocks::facing::YRotFacing;
use opentale_blocks::variant::decode_variant;
use opentale_blocks::variant::encode_variant;
use opentale_blocks::variant::render_variant;
use opentale_blocks::variant::span_of_dims;

#[test]
fn empty_composition_spans_one() {
    let dims: Vec<Dimension> = Vec::new();
    assert_eq!(span_of_dims(&dims), 1);
    let vals: Vec<Facing> = Vec::new();
    assert_eq!(encode_variant(&dims, &vals), 0);
    assert!(decode_variant(&dims, 0).is_empty());
    assert_eq!(render_variant(&vals), "");
}

#[test]
fn composite_span_is_the_product() {
    let dims = vec![Dimension::Reflection, Dimension::RotY];
    assert_eq!(span_of_dims(&dims), 8);
    let dims = vec![Dimension::RotAll, Dimension::RotAxis, Dimension::Reflection];
    assert_eq!(span_of_dims(&dims), 36);
}

#[test]
fn outer_dimension_is_the_high_order_digit() {
    let dims = vec![Dimension::Reflection, Dimension::RotY];
    // encode((t, u)) == encode(t) * span(u) + encode(u)
    let down_east = vec![
        Facing::Reflection(ReflectionFacing::Down),
        Facing::Y(YRotFacing::East),
    ];
    assert_eq!(encode_variant(&dims, &down_east), 1 * 4 + 2);
    let up_north = vec![
        Facing::Reflection(ReflectionFacing::Up),
        Facing::Y(YRotFacing::North),
    ];
    assert_eq!(encode_variant(&dims, &up_north), 0);
}

#[test]
fn every_code_round_trips() {
    let dims = vec![Dimension::Reflection, Dimension::RotY];
    for code in 0..8 {
        let vals = decode_variant(&dims, code);
        assert_eq!(vals.len(), 2);
        assert_eq!(encode_variant(&dims, &vals), code);
    }
}

#[test]
fn every_state_round_trips() {
    let dims = vec![Dimension::RotY, Dimension::Reflection];
    let ys = [
        YRotFacing::North,
        YRotFacing::West,
        YRotFacing::East,
        YRotFacing::South,
    ];
    let rs = [ReflectionFacing::Up, ReflectionFacing::Down];
    let mut seen = [false; 8];
    for y in ys {
        for r in rs {
            let vals = vec![Facing::Y(y), Facing::Reflection(r)];
            let code = encode_variant(&dims, &vals);
            assert!(code < 8);
            assert!(!seen[code], "encoding must be injective");
            seen[code] = true;
            let back = decode_variant(&dims, code);
            assert_eq!(back.len(), 2);
            assert_eq!(back[0], Facing::Y(y));
            assert_eq!(back[1], Facing::Reflection(r));
        }
    }
    assert!(seen.iter().all(|s| *s), "encoding must be onto [0, span)");
}

#[test]
fn render_joins_outer_to_inner() {
    let one = vec![Facing::All(AllRotFacing::Up)];
    assert_eq!(render_variant(&one), "direction: up");
    let two = vec![
        Facing::Reflection(ReflectionFacing::Down),
        Facing::Y(YRotFacing::East),
    ];
    assert_eq!(render_variant(&two), "spin: down, facing: east");
}
