use css_media::border_radius::{
    BorderRadius, BorderRadiusHandler, LengthPercentage, Property, PropertyHandlerContext, PropertyId, Size2D,
    UnparsedProperty, is_border_radius_property, is_logical_border_radius_property,
};
use css_media::vendor_prefix::VendorPrefix;

fn px(v: i32) -> Size2D {
    Size2D(LengthPercentage::Px(v), LengthPercentage::Px(v))
}

fn run(targets: Option<VendorPrefix>, supported: bool, props: &[Property]) -> (Vec<Property>, Vec<(Property, Property)>, Vec<bool>) {
    let mut handler = BorderRadiusHandler::new(targets);
    let mut dest = Vec::new();
    let mut context = PropertyHandlerContext::new(supported);
    let mut handled = Vec::new();
    for p in props {
        handled.push(handler.handle_property(p, &mut dest, &mut context));
    }
    handler.finalize(&mut dest, &mut context);
    (dest, context.logical_rules, handled)
}

#[test]
fn four_equal_corners_make_one_shorthand() {
    let none = VendorPrefix::none();
    let (out, rules, _) = run(None, true, &[
        Property::BorderTopLeftRadius(px(4), none),
        Property::BorderTopRightRadius(px(4), none),
        Property::BorderBottomLeftRadius(px(4), none),
        Property::BorderBottomRightRadius(px(4), none),
    ]);
    let expected = BorderRadius { top_left: px(4), top_right: px(4), bottom_left: px(4), bottom_right: px(4) };
    assert_eq!(out, vec![Property::BorderRadius(expected, none)]);
    assert!(rules.is_empty());
}

#[test]
fn shorthand_prefix_expands_to_targets() {
    let none = VendorPrefix::none();
    let targets = VendorPrefix::none().union(VendorPrefix::webkit());
    let value = BorderRadius { top_left: px(1), top_right: px(2), bottom_left: px(3), bottom_right: px(4) };
    let (out, _, _) = run(Some(targets), true, &[Property::BorderRadius(value, none)]);
    assert_eq!(out, vec![Property::BorderRadius(value, targets)]);
}

#[test]
fn two_corners_make_two_longhands() {
    let none = VendorPrefix::none();
    let (out, _, _) = run(None, true, &[
        Property::BorderTopLeftRadius(px(1), none),
        Property::BorderBottomRightRadius(px(2), none),
    ]);
    assert_eq!(out, vec![
        Property::BorderTopLeftRadius(px(1), none),
        Property::BorderBottomRightRadius(px(2), none),
    ]);
}

#[test]
fn changed_value_under_new_prefix_keeps_both() {
    let webkit = VendorPrefix::webkit();
    let none = VendorPrefix::none();
    let (out, _, _) = run(None, true, &[
        Property::BorderTopLeftRadius(px(1), webkit),
        Property::BorderTopLeftRadius(px(2), none),
    ]);
    assert_eq!(out, vec![
        Property::BorderTopLeftRadius(px(1), webkit),
        Property::BorderTopLeftRadius(px(2), none),
    ]);
}

#[test]
fn same_value_under_new_prefix_merges() {
    let webkit = VendorPrefix::webkit();
    let none = VendorPrefix::none();
    let (out, _, _) = run(None, true, &[
        Property::BorderTopLeftRadius(px(1), webkit),
        Property::BorderTopLeftRadius(px(1), none),
    ]);
    assert_eq!(out, vec![Property::BorderTopLeftRadius(px(1), webkit.union(none))]);
}

#[test]
fn shorthand_then_extra_prefix_on_one_corner() {
    let none = VendorPrefix::none();
    let webkit = VendorPrefix::webkit();
    let value = BorderRadius { top_left: px(1), top_right: px(1), bottom_left: px(1), bottom_right: px(1) };
    let (out, _, _) = run(None, true, &[
        Property::BorderRadius(value, none),
        Property::BorderTopLeftRadius(px(1), webkit),
    ]);
    assert_eq!(out, vec![Property::BorderRadius(value, none), Property::BorderTopLeftRadius(px(1), webkit)]);
}

#[test]
fn category_switches_keep_three_groups() {
    let none = VendorPrefix::none();
    let (out, rules, _) = run(None, true, &[
        Property::BorderTopLeftRadius(px(1), none),
        Property::BorderStartStartRadius(px(2)),
        Property::BorderTopLeftRadius(px(3), none),
    ]);
    assert_eq!(out, vec![
        Property::BorderTopLeftRadius(px(1), none),
        Property::BorderStartStartRadius(px(2)),
        Property::BorderTopLeftRadius(px(3), none),
    ]);
    assert!(rules.is_empty());
}

#[test]
fn logical_corner_without_support_becomes_rule_pair() {
    let none = VendorPrefix::none();
    let (out, rules, _) = run(None, false, &[Property::BorderStartEndRadius(px(5))]);
    assert!(out.is_empty());
    assert_eq!(rules, vec![(
        Property::BorderTopRightRadius(px(5), none),
        Property::BorderTopLeftRadius(px(5), none),
    )]);
}

#[test]
fn unparsed_logical_corner_becomes_unparsed_pair() {
    let webkit = VendorPrefix::webkit();
    let raw = UnparsedProperty { property_id: PropertyId::BorderEndEndRadius, value: "var(--r)".to_string() };
    let (out, rules, _) = run(Some(webkit), false, &[Property::Unparsed(raw)]);
    assert!(out.is_empty());
    assert_eq!(rules, vec![(
        Property::Unparsed(UnparsedProperty { property_id: PropertyId::BorderBottomRightRadius(webkit), value: "var(--r)".to_string() }),
        Property::Unparsed(UnparsedProperty { property_id: PropertyId::BorderBottomLeftRadius(webkit), value: "var(--r)".to_string() }),
    )]);
}

#[test]
fn unparsed_physical_corner_is_written_with_prefixes() {
    let none = VendorPrefix::none();
    let targets = VendorPrefix::webkit().union(VendorPrefix::moz());
    let raw = UnparsedProperty { property_id: PropertyId::BorderTopLeftRadius(none), value: "var(--r)".to_string() };
    let (out, _, handled) = run(Some(targets), true, &[
        Property::BorderBottomLeftRadius(px(1), none),
        Property::Unparsed(raw),
    ]);
    assert_eq!(handled, vec![true, true]);
    assert_eq!(out, vec![
        Property::BorderBottomLeftRadius(px(1), targets),
        Property::Unparsed(UnparsedProperty { property_id: PropertyId::BorderTopLeftRadius(targets), value: "var(--r)".to_string() }),
    ]);
}

#[test]
fn other_properties_are_not_handled() {
    let raw = UnparsedProperty { property_id: PropertyId::Other, value: "x".to_string() };
    let (out, rules, handled) = run(None, true, &[Property::Other("color".to_string()), Property::Unparsed(raw)]);
    assert_eq!(handled, vec![false, false]);
    assert!(out.is_empty());
    assert!(rules.is_empty());
}

#[test]
fn nothing_fed_writes_nothing() {
    let (out, rules, _) = run(None, true, &[]);
    assert!(out.is_empty());
    assert!(rules.is_empty());
}

#[test]
fn property_id_classes() {
    let none = VendorPrefix::none();
    assert!(is_logical_border_radius_property(&PropertyId::BorderStartStartRadius));
    assert!(!is_logical_border_radius_property(&PropertyId::BorderTopLeftRadius(none)));
    assert!(is_border_radius_property(&PropertyId::BorderRadius(none)));
    assert!(is_border_radius_property(&PropertyId::BorderEndEndRadius));
    assert!(!is_border_radius_property(&PropertyId::Other));
}

#[test]
fn default_border_radius_is_zero() {
    let zero = Size2D(LengthPercentage::Px(0), LengthPercentage::Px(0));
    let d = BorderRadius::default();
    assert_eq!(d, BorderRadius { top_left: zero, top_right: zero, bottom_left: zero, bottom_right: zero });
}

#[test]
fn vendor_prefix_set_operations() {
    let a = VendorPrefix::webkit().union(VendorPrefix::moz());
    let b = VendorPrefix::moz().union(VendorPrefix::ms());
    assert_eq!(a.intersection(b), VendorPrefix::moz());
    assert!(a.contains(VendorPrefix::webkit()));
    assert!(!a.contains(b));
    let mut c = a;
    c.remove(VendorPrefix::moz());
    assert_eq!(c, VendorPrefix::webkit());
    assert!(VendorPrefix::empty().is_empty());
    assert!(!VendorPrefix::o().is_empty());
    assert_eq!(a.bits, 6);
}
