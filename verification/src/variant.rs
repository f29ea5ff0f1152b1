//! The mixed-radix variant-space algebra.
//!
//! An ordered composition of orientation dimensions (outer to inner) spans
//! the product of the component spans.  A tuple of states is encoded into a
//! flat code by mixed-radix arithmetic: the outer dimension occupies the
//! high-order digit.  Encoding is a bijection onto `[0, span)`.

use vstd::arithmetic::div_mod::lemma_fundamental_div_mod;
use vstd::arithmetic::div_mod::lemma_fundamental_div_mod_converse;
use vstd::arithmetic::div_mod::lemma_mod_pos_bound;
use vstd::arithmetic::div_mod::lemma_multiply_divide_lt;
use vstd::prelude::*;
use vstd::string::StringExecFns;

use crate::facing::Dimension;
use crate::facing::Facing;
use crate::facing::lemma_dimension_span_positive;
use crate::facing::lemma_facing_bijection;

verus! {

/// The span of a composition of dimensions: the product of the component
/// spans, 1 for the empty composition.
pub open spec fn span_of(dims: Seq<Dimension>) -> nat
    decreases dims.len(),
{
    if dims.len() == 0 {
        1
    } else {
        dims[0].span_spec() * span_of(dims.skip(1))
    }
}

/// Whether a tuple of states belongs to a composition of dimensions:
/// one state per dimension, in the same order.
pub open spec fn matches_dims(dims: Seq<Dimension>, vals: Seq<Facing>) -> bool {
    &&& vals.len() == dims.len()
    &&& forall|i: int| 0 <= i < dims.len() ==> (#[trigger] vals[i]).dim_spec() == dims[i]
}

/// The mixed-radix encoding of a tuple of states: the outer state's code
/// times the span of the rest, plus the encoding of the rest.
pub open spec fn encode_of(dims: Seq<Dimension>, vals: Seq<Facing>) -> int
    decreases dims.len(),
{
    if dims.len() == 0 {
        0
    } else {
        vals[0].code_spec() * span_of(dims.skip(1)) + encode_of(dims.skip(1), vals.skip(1))
    }
}

/// The mixed-radix decoding of a flat code: the outer state is the
/// quotient by the span of the rest, the rest decodes the remainder.
pub open spec fn decode_of(dims: Seq<Dimension>, code: int) -> Seq<Facing>
    decreases dims.len(),
{
    if dims.len() == 0 {
        Seq::empty()
    } else {
        seq![Facing::from_code_spec(dims[0], code / span_of(dims.skip(1)) as int)]
            + decode_of(dims.skip(1), code % span_of(dims.skip(1)) as int)
    }
}

/// A composition of dimensions spans at least 1.
pub proof fn lemma_span_positive(dims: Seq<Dimension>)
    ensures
        span_of(dims) >= 1,
    decreases dims.len(),
{
    if dims.len() != 0 {
        lemma_dimension_span_positive(dims[0]);
        lemma_span_positive(dims.skip(1));
        assert(span_of(dims) >= 1) by (nonlinear_arith)
            requires
                span_of(dims) == dims[0].span_spec() * span_of(dims.skip(1)),
                dims[0].span_spec() >= 1,
                span_of(dims.skip(1)) >= 1,
        ;
    }
}

/// Prepending a dimension multiplies the span by that dimension's span.
pub proof fn lemma_span_cons(d: Dimension, rest: Seq<Dimension>)
    ensures
        span_of(seq![d] + rest) == d.span_spec() * span_of(rest),
{
    assert((seq![d] + rest)[0] == d);
    assert((seq![d] + rest).skip(1) =~= rest);
}

/// A matching suffix of a matching tuple still matches, and the state at
/// the split point belongs to the dimension there.
proof fn lemma_matches_suffix(dims: Seq<Dimension>, vals: Seq<Facing>)
    requires
        matches_dims(dims, vals),
        dims.len() > 0,
    ensures
        matches_dims(dims.skip(1), vals.skip(1)),
        vals[0].dim_spec() == dims[0],
{
    assert forall|i: int| 0 <= i < dims.skip(1).len() implies (#[trigger] vals.skip(1)[i]).dim_spec()
        == dims.skip(1)[i] by {
        assert(vals.skip(1)[i] == vals[i + 1]);
        assert(dims.skip(1)[i] == dims[i + 1]);
    }
}

/// The encoding of a tuple of states lies in `[0, span)`.
pub proof fn lemma_encode_bound(dims: Seq<Dimension>, vals: Seq<Facing>)
    requires
        matches_dims(dims, vals),
    ensures
        0 <= encode_of(dims, vals) < span_of(dims),
    decreases dims.len(),
{
    if dims.len() == 0 {
    } else {
        lemma_matches_suffix(dims, vals);
        lemma_encode_bound(dims.skip(1), vals.skip(1));
        lemma_facing_bijection(vals[0], dims[0], 0);
        assert(0 <= encode_of(dims, vals) < span_of(dims)) by (nonlinear_arith)
            requires
                encode_of(dims, vals) == vals[0].code_spec() * span_of(dims.skip(1)) + encode_of(
                    dims.skip(1),
                    vals.skip(1),
                ),
                span_of(dims) == dims[0].span_spec() * span_of(dims.skip(1)),
                0 <= vals[0].code_spec() < dims[0].span_spec(),
                0 <= encode_of(dims.skip(1), vals.skip(1)) < span_of(dims.skip(1)),
        ;
    }
}

/// Decoding the encoding of a tuple of states returns the same tuple.
pub proof fn lemma_decode_encode(dims: Seq<Dimension>, vals: Seq<Facing>)
    requires
        matches_dims(dims, vals),
    ensures
        decode_of(dims, encode_of(dims, vals)) == vals,
    decreases dims.len(),
{
    if dims.len() == 0 {
        assert(decode_of(dims, encode_of(dims, vals)) =~= vals);
    } else {
        let srest = span_of(dims.skip(1)) as int;
        let c0 = vals[0].code_spec();
        let crest = encode_of(dims.skip(1), vals.skip(1));
        let code = encode_of(dims, vals);
        lemma_matches_suffix(dims, vals);
        lemma_span_positive(dims.skip(1));
        lemma_encode_bound(dims.skip(1), vals.skip(1));
        lemma_fundamental_div_mod_converse(code, srest, c0, crest);
        lemma_facing_bijection(vals[0], dims[0], 0);
        lemma_decode_encode(dims.skip(1), vals.skip(1));
        assert(decode_of(dims, code) =~= vals);
    }
}

/// Decoding any code in `[0, span)` yields a tuple of states of the
/// composition, and encoding it returns the same code.
pub proof fn lemma_encode_decode(dims: Seq<Dimension>, code: int)
    requires
        0 <= code < span_of(dims),
    ensures
        matches_dims(dims, decode_of(dims, code)),
        encode_of(dims, decode_of(dims, code)) == code,
    decreases dims.len(),
{
    if dims.len() == 0 {
    } else {
        let srest = span_of(dims.skip(1)) as int;
        lemma_span_positive(dims.skip(1));
        let q = code / srest;
        let r = code % srest;
        assert(code < dims[0].span_spec() * srest);
        lemma_multiply_divide_lt(code, srest, dims[0].span_spec() as int);
        assert(srest * dims[0].span_spec() == dims[0].span_spec() * srest) by (nonlinear_arith);
        assert(q < dims[0].span_spec());
        lemma_div_nonneg(code, srest);
        lemma_mod_pos_bound(code, srest);
        lemma_facing_bijection(Facing::from_code_spec(dims[0], q), dims[0], q);
        lemma_encode_decode(dims.skip(1), r);
        let vals = decode_of(dims, code);
        let rest = decode_of(dims.skip(1), r);
        assert(vals == seq![Facing::from_code_spec(dims[0], q)] + rest);
        assert(vals.skip(1) =~= rest);
        assert forall|i: int| 0 <= i < dims.len() implies (#[trigger] vals[i]).dim_spec()
            == dims[i] by {
            if i > 0 {
                assert(vals[i] == rest[i - 1]);
                assert(rest[i - 1].dim_spec() == dims.skip(1)[i - 1]);
            }
        }
        lemma_fundamental_div_mod(code, srest);
        assert(encode_of(dims, vals) == q * srest + r);
    }
}

/// The quotient of nonnegative values is nonnegative.
proof fn lemma_div_nonneg(x: int, d: int)
    requires
        0 <= x,
        0 < d,
    ensures
        0 <= x / d,
{
    vstd::arithmetic::div_mod::lemma_div_pos_is_pos(x, d);
}

/// The span of the composition from position `i` on.
fn span_from(dims: &Vec<Dimension>, i: usize) -> (r: usize)
    requires
        i <= dims.len(),
        span_of(dims@.skip(i as int)) <= usize::MAX,
    ensures
        r == span_of(dims@.skip(i as int)),
        r >= 1,
    decreases dims.len() - i,
{
    proof {
        lemma_span_positive(dims@.skip(i as int));
    }
    if i == dims.len() {
        1
    } else {
        let ghost tail = dims@.skip(i as int);
        proof {
            assert(tail.skip(1) =~= dims@.skip(i + 1));
            lemma_span_positive(tail.skip(1));
            lemma_dimension_span_positive(tail[0]);
            assert(span_of(tail.skip(1)) <= span_of(tail)) by (nonlinear_arith)
                requires
                    span_of(tail) == tail[0].span_spec() * span_of(tail.skip(1)),
                    tail[0].span_spec() >= 1,
                    span_of(tail.skip(1)) >= 0,
            ;
        }
        let s = dims[i].span();
        let rest = span_from(dims, i + 1);
        proof {
            assert(s * rest == span_of(tail));
        }
        s * rest
    }
}

/// The span of a composition of dimensions.
pub fn span_of_dims(dims: &Vec<Dimension>) -> (r: usize)
    requires
        span_of(dims@) <= usize::MAX,
    ensures
        r == span_of(dims@),
        r >= 1,
{
    proof {
        assert(dims@.skip(0) =~= dims@);
    }
    span_from(dims, 0)
}

/// Encodes the suffix of a tuple of states from position `i` on.
fn encode_from(dims: &Vec<Dimension>, vals: &Vec<Facing>, i: usize) -> (r: usize)
    requires
        i <= dims.len(),
        matches_dims(dims@.skip(i as int), vals@.skip(i as int)),
        vals.len() == dims.len(),
        span_of(dims@.skip(i as int)) <= usize::MAX,
    ensures
        r == encode_of(dims@.skip(i as int), vals@.skip(i as int)),
        r < span_of(dims@.skip(i as int)),
    decreases dims.len() - i,
{
    if i == dims.len() {
        proof {
            assert(dims@.skip(i as int).len() == 0);
        }
        0
    } else {
        let ghost dtail = dims@.skip(i as int);
        let ghost vtail = vals@.skip(i as int);
        proof {
            lemma_matches_suffix(dtail, vtail);
            assert(dtail.skip(1) =~= dims@.skip(i + 1));
            assert(vtail.skip(1) =~= vals@.skip(i + 1));
            lemma_span_positive(dtail.skip(1));
            lemma_dimension_span_positive(dtail[0]);
            assert(span_of(dtail.skip(1)) <= span_of(dtail)) by (nonlinear_arith)
                requires
                    span_of(dtail) == dtail[0].span_spec() * span_of(dtail.skip(1)),
                    dtail[0].span_spec() >= 1,
                    span_of(dtail.skip(1)) >= 0,
            ;
        }
        let srest = span_from(dims, i + 1);
        let rest = encode_from(dims, vals, i + 1);
        let c = vals[i].code();
        proof {
            assert(vtail[0] == vals@[i as int]);
            lemma_facing_bijection(vtail[0], dtail[0], 0);
            assert(c * srest + rest < span_of(dtail) && c * srest + rest == encode_of(
                dtail,
                vtail,
            )) by (nonlinear_arith)
                requires
                    span_of(dtail) == dtail[0].span_spec() * span_of(dtail.skip(1)),
                    encode_of(dtail, vtail) == vtail[0].code_spec() * span_of(dtail.skip(1))
                        + encode_of(dtail.skip(1), vtail.skip(1)),
                    c == vtail[0].code_spec(),
                    srest == span_of(dtail.skip(1)),
                    rest == encode_of(dtail.skip(1), vtail.skip(1)),
                    0 <= c < dtail[0].span_spec(),
                    0 <= rest < span_of(dtail.skip(1)),
            ;
        }
        c * srest + rest
    }
}

/// Encodes a tuple of states into its flat code, which lies in
/// `[0, span)`.
pub fn encode_variant(dims: &Vec<Dimension>, vals: &Vec<Facing>) -> (r: usize)
    requires
        matches_dims(dims@, vals@),
        span_of(dims@) <= usize::MAX,
    ensures
        r == encode_of(dims@, vals@),
        r < span_of(dims@),
{
    proof {
        assert(dims@.skip(0) =~= dims@);
        assert(vals@.skip(0) =~= vals@);
    }
    encode_from(dims, vals, 0)
}

/// Decodes the suffix of a flat code from position `i` on.
fn decode_from(dims: &Vec<Dimension>, code: usize, i: usize) -> (r: Vec<Facing>)
    requires
        i <= dims.len(),
        span_of(dims@.skip(i as int)) <= usize::MAX,
        code < span_of(dims@.skip(i as int)),
    ensures
        r@ == decode_of(dims@.skip(i as int), code as int),
    decreases dims.len() - i,
{
    if i == dims.len() {
        proof {
            assert(decode_of(dims@.skip(i as int), code as int) =~= Seq::<Facing>::empty());
        }
        Vec::new()
    } else {
        let ghost dtail = dims@.skip(i as int);
        proof {
            assert(dtail.skip(1) =~= dims@.skip(i + 1));
            lemma_span_positive(dtail.skip(1));
            lemma_dimension_span_positive(dtail[0]);
            assert(span_of(dtail.skip(1)) <= span_of(dtail)) by (nonlinear_arith)
                requires
                    span_of(dtail) == dtail[0].span_spec() * span_of(dtail.skip(1)),
                    dtail[0].span_spec() >= 1,
                    span_of(dtail.skip(1)) >= 0,
            ;
        }
        let srest = span_from(dims, i + 1);
        let q = code / srest;
        let rem = code % srest;
        proof {
            assert(code < dtail[0].span_spec() * srest);
            lemma_multiply_divide_lt(code as int, srest as int, dtail[0].span_spec() as int);
            assert(srest * dtail[0].span_spec() == dtail[0].span_spec() * srest)
                by (nonlinear_arith);
            assert(q < dtail[0].span_spec());
        }
        let f = Facing::from_code(dims[i], q);
        let mut rest = decode_from(dims, rem, i + 1);
        rest.insert(0, f);
        proof {
            assert(rest@ =~= seq![f] + decode_of(dtail.skip(1), rem as int));
            assert(rest@ =~= decode_of(dtail, code as int));
        }
        rest
    }
}

/// Decodes a flat code in `[0, span)` into the tuple of states it
/// encodes.
pub fn decode_variant(dims: &Vec<Dimension>, code: usize) -> (r: Vec<Facing>)
    requires
        span_of(dims@) <= usize::MAX,
        code < span_of(dims@),
    ensures
        r@ == decode_of(dims@, code as int),
        matches_dims(dims@, r@),
        encode_of(dims@, r@) == code,
{
    proof {
        assert(dims@.skip(0) =~= dims@);
        lemma_encode_decode(dims@, code as int);
    }
    decode_from(dims, code, 0)
}

/// The rendering of a tuple of states: the components' renderings in
/// outer-to-inner order, joined with `", "`.
pub open spec fn render_of(vals: Seq<Facing>) -> Seq<char>
    decreases vals.len(),
{
    if vals.len() == 0 {
        Seq::empty()
    } else if vals.len() == 1 {
        vals[0].to_string_spec()
    } else {
        vals[0].to_string_spec() + ", "@ + render_of(vals.skip(1))
    }
}

/// Renders the suffix of a tuple of states from position `i` on.
fn render_from(vals: &Vec<Facing>, i: usize) -> (r: String)
    requires
        i <= vals.len(),
    ensures
        r@ == render_of(vals@.skip(i as int)),
    decreases vals.len() - i,
{
    if i == vals.len() {
        proof {
            assert(vals@.skip(i as int).len() == 0);
        }
        String::new()
    } else if i + 1 == vals.len() {
        proof {
            assert(vals@.skip(i as int).len() == 1);
            assert(vals@.skip(i as int)[0] == vals@[i as int]);
        }
        vals[i].to_string()
    } else {
        let ghost vtail = vals@.skip(i as int);
        let mut s = vals[i].to_string();
        s.append(", ");
        let rest = render_from(vals, i + 1);
        s.append(rest.as_str());
        proof {
            assert(vtail.skip(1) =~= vals@.skip(i + 1));
            assert(vtail[0] == vals@[i as int]);
            assert(s@ =~= vtail[0].to_string_spec() + ", "@ + render_of(vtail.skip(1)));
        }
        s
    }
}

/// Renders a tuple of states, e.g. `spin: down, facing: north`.
pub fn render_variant(vals: &Vec<Facing>) -> (r: String)
    ensures
        r@ == render_of(vals@),
{
    proof {
        assert(vals@.skip(0) =~= vals@);
    }
    render_from(vals, 0)
}

} // verus!
