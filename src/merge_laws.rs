//! What the border-radius handler guarantees over whole sequences of declarations.

use vstd::prelude::*;
use crate::border_radius::{
    BorderRadiusHandler, Property, Run, Size2D, flush_out, flush_run, handle_run, prefixed, shared_prefixes,
};
use crate::vendor_prefix::VendorPrefix;

verus! {

/// A fresh handler that has written nothing.
pub open spec fn fresh_run(targets: Option<VendorPrefix>) -> Run {
    Run { handler: BorderRadiusHandler::spec_new(targets), out: Seq::empty(), rules: Seq::empty() }
}

/// The run after feeding `props` in order to `r`.
pub open spec fn feed(r: Run, props: Seq<Property>, supported: bool) -> Run
    decreases props.len(),
{
    if props.len() == 0 {
        r
    } else {
        feed(handle_run(r, props[0], supported).1, props.drop_first(), supported)
    }
}

/// Two of the four corners, then the end of the block: two longhands, in
/// order, and no shorthand.
pub proof fn law_two_corners_two_longhands(targets: Option<VendorPrefix>, v1: Size2D, v2: Size2D, vp: VendorPrefix, supported: bool)
    requires
        vp.bits != 0,
    ensures
        flush_run(
            feed(
                fresh_run(targets),
                seq![Property::BorderTopLeftRadius(v1, vp), Property::BorderTopRightRadius(v2, vp)],
                supported,
            ),
            supported,
        ).out == seq![
            Property::BorderTopLeftRadius(v1, prefixed(vp, targets)),
            Property::BorderTopRightRadius(v2, prefixed(vp, targets)),
        ],
{
    let b = vp.bits;
    assert(b & !0u8 == b) by (bit_vector);
    let props = seq![Property::BorderTopLeftRadius(v1, vp), Property::BorderTopRightRadius(v2, vp)];
    let r0 = fresh_run(targets);
    let h0 = BorderRadiusHandler::spec_new(targets);
    let h1 = BorderRadiusHandler { top_left: Some((v1, vp)), has_any: true, ..h0 };
    let h2 = BorderRadiusHandler { top_right: Some((v2, vp)), ..h1 };
    let r1 = handle_run(r0, props[0], supported).1;
    assert(r1 == Run { handler: h1, out: Seq::<Property>::empty(), rules: Seq::<(Property, Property)>::empty() });
    let r2 = handle_run(r1, props[1], supported).1;
    assert(r2 == Run { handler: h2, out: Seq::<Property>::empty(), rules: Seq::<(Property, Property)>::empty() });
    assert(props.drop_first().drop_first() =~= Seq::<Property>::empty());
    assert(props.drop_first()[0] == props[1]);
    assert(feed(r1, props.drop_first(), supported) == feed(r2, props.drop_first().drop_first(), supported));
    assert(feed(r0, props, supported) == r2);
    assert(shared_prefixes(h2).bits == 0);
    assert(flush_out(h2, supported) =~= seq![
        Property::BorderTopLeftRadius(v1, prefixed(vp, targets)),
        Property::BorderTopRightRadius(v2, prefixed(vp, targets)),
    ]);
}

/// One corner twice, with another value under prefixes that do not overlap
/// the first: both are written, in input order.
pub proof fn law_changed_value_new_prefix_kept(
    targets: Option<VendorPrefix>,
    v1: Size2D,
    first_prefix: VendorPrefix,
    v2: Size2D,
    second_prefix: VendorPrefix,
    supported: bool,
)
    requires
        v1 != v2,
        first_prefix.bits != 0,
        second_prefix.bits != 0,
        first_prefix.bits & second_prefix.bits == 0,
    ensures
        flush_run(
            feed(
                fresh_run(targets),
                seq![Property::BorderTopLeftRadius(v1, first_prefix), Property::BorderTopLeftRadius(v2, second_prefix)],
                supported,
            ),
            supported,
        ).out == seq![
            Property::BorderTopLeftRadius(v1, prefixed(first_prefix, targets)),
            Property::BorderTopLeftRadius(v2, prefixed(second_prefix, targets)),
        ],
{
    let a = first_prefix.bits;
    let b = second_prefix.bits;
    assert(a & !0u8 == a) by (bit_vector);
    assert(b & !0u8 == b) by (bit_vector);
    let props = seq![Property::BorderTopLeftRadius(v1, first_prefix), Property::BorderTopLeftRadius(v2, second_prefix)];
    let r0 = fresh_run(targets);
    let h0 = BorderRadiusHandler::spec_new(targets);
    let h1 = BorderRadiusHandler { top_left: Some((v1, first_prefix)), has_any: true, ..h0 };
    let h2 = BorderRadiusHandler { top_left: Some((v2, second_prefix)), has_any: true, ..h0 };
    let r1 = handle_run(r0, props[0], supported).1;
    assert(r1 == Run { handler: h1, out: Seq::<Property>::empty(), rules: Seq::<(Property, Property)>::empty() });
    assert(!first_prefix.has(second_prefix));
    assert(flush_out(h1, supported) =~= seq![Property::BorderTopLeftRadius(v1, prefixed(first_prefix, targets))]);
    assert(h1.cleared() == h0);
    let r2 = handle_run(r1, props[1], supported).1;
    assert(r2 == Run { handler: h2, out: seq![Property::BorderTopLeftRadius(v1, prefixed(first_prefix, targets))], rules: Seq::<(Property, Property)>::empty() });
    assert(props.drop_first().drop_first() =~= Seq::<Property>::empty());
    assert(props.drop_first()[0] == props[1]);
    assert(feed(r1, props.drop_first(), supported) == feed(r2, props.drop_first().drop_first(), supported));
    assert(feed(r0, props, supported) == r2);
    assert(flush_out(h2, supported) =~= seq![Property::BorderTopLeftRadius(v2, prefixed(second_prefix, targets))]);
    assert(flush_run(r2, supported).out =~= seq![
        Property::BorderTopLeftRadius(v1, prefixed(first_prefix, targets)),
        Property::BorderTopLeftRadius(v2, prefixed(second_prefix, targets)),
    ]);
}

} // verus!
