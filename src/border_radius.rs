//! The border-radius property family, and the handler that merges its declarations.

use vstd::prelude::*;
use crate::vendor_prefix::{VendorPrefix, NONE_BIT};

verus! {

/// A length in pixels or a percentage.
#[derive(Clone, Copy, Debug, PartialEq, Eq, Structural)]
pub enum LengthPercentage {
    Px(i32),
    Percentage(i32),
}

/// The x and y radius of one corner.
#[derive(Clone, Copy, Debug, PartialEq, Eq, Structural)]
pub struct Size2D(pub LengthPercentage, pub LengthPercentage);

/// A value for the [border-radius](https://www.w3.org/TR/css-backgrounds-3/#border-radius) property.
#[derive(Clone, Copy, Debug, PartialEq, Eq, Structural)]
pub struct BorderRadius {
    pub top_left: Size2D,
    pub top_right: Size2D,
    pub bottom_left: Size2D,
    pub bottom_right: Size2D,
}

pub open spec fn zero_size() -> Size2D {
    Size2D(LengthPercentage::Px(0), LengthPercentage::Px(0))
}

impl Default for BorderRadius {
    fn default() -> (r: BorderRadius)
        ensures
            r == (BorderRadius {
                top_left: zero_size(),
                top_right: zero_size(),
                bottom_left: zero_size(),
                bottom_right: zero_size(),
            }),
    {
        let zero = Size2D(LengthPercentage::Px(0), LengthPercentage::Px(0));
        BorderRadius { top_left: zero, top_right: zero, bottom_left: zero, bottom_right: zero }
    }
}

/// Which property a declaration sets, with its vendor prefixes where it has them.
#[derive(Clone, Copy, Debug, PartialEq, Eq, Structural)]
pub enum PropertyId {
    BorderTopLeftRadius(VendorPrefix),
    BorderTopRightRadius(VendorPrefix),
    BorderBottomLeftRadius(VendorPrefix),
    BorderBottomRightRadius(VendorPrefix),
    BorderRadius(VendorPrefix),
    BorderStartStartRadius,
    BorderStartEndRadius,
    BorderEndStartRadius,
    BorderEndEndRadius,
    Other,
}

/// A declaration whose value was kept as written.
#[derive(Clone, Debug, PartialEq)]
pub struct UnparsedProperty {
    pub property_id: PropertyId,
    pub value: String,
}

/// A declaration.
#[derive(Clone, Debug, PartialEq)]
pub enum Property {
    BorderTopLeftRadius(Size2D, VendorPrefix),
    BorderTopRightRadius(Size2D, VendorPrefix),
    BorderBottomLeftRadius(Size2D, VendorPrefix),
    BorderBottomRightRadius(Size2D, VendorPrefix),
    BorderStartStartRadius(Size2D),
    BorderStartEndRadius(Size2D),
    BorderEndStartRadius(Size2D),
    BorderEndEndRadius(Size2D),
    BorderRadius(BorderRadius, VendorPrefix),
    Unparsed(UnparsedProperty),
    /// A declaration of any other property.
    Other(String),
}

/// A physical corner.
#[derive(Clone, Copy, Debug, PartialEq, Eq, Structural)]
pub enum Corner {
    TopLeft,
    TopRight,
    BottomLeft,
    BottomRight,
}

/// A flow-relative corner.
#[derive(Clone, Copy, Debug, PartialEq, Eq, Structural)]
pub enum LogicalCorner {
    StartStart,
    StartEnd,
    EndStart,
    EndEnd,
}

/// The group of corner properties that was accepted last.
#[derive(Clone, Copy, Debug, PartialEq, Eq, Structural)]
pub enum PropertyCategory {
    Logical,
    Physical,
}

pub open spec fn corner_property(c: Corner, v: Size2D, p: VendorPrefix) -> Property {
    match c {
        Corner::TopLeft => Property::BorderTopLeftRadius(v, p),
        Corner::TopRight => Property::BorderTopRightRadius(v, p),
        Corner::BottomLeft => Property::BorderBottomLeftRadius(v, p),
        Corner::BottomRight => Property::BorderBottomRightRadius(v, p),
    }
}

pub open spec fn corner_id(c: Corner, p: VendorPrefix) -> PropertyId {
    match c {
        Corner::TopLeft => PropertyId::BorderTopLeftRadius(p),
        Corner::TopRight => PropertyId::BorderTopRightRadius(p),
        Corner::BottomLeft => PropertyId::BorderBottomLeftRadius(p),
        Corner::BottomRight => PropertyId::BorderBottomRightRadius(p),
    }
}

/// The physical corners that a flow-relative corner stands for, left to right
/// and right to left.
pub open spec fn physical_pair(l: LogicalCorner) -> (Corner, Corner) {
    match l {
        LogicalCorner::StartStart => (Corner::TopLeft, Corner::TopRight),
        LogicalCorner::StartEnd => (Corner::TopRight, Corner::TopLeft),
        LogicalCorner::EndStart => (Corner::BottomLeft, Corner::BottomRight),
        LogicalCorner::EndEnd => (Corner::BottomRight, Corner::BottomLeft),
    }
}

fn make_corner_property(c: Corner, v: Size2D, p: VendorPrefix) -> (r: Property)
    ensures
        r == corner_property(c, v, p),
{
    match c {
        Corner::TopLeft => Property::BorderTopLeftRadius(v, p),
        Corner::TopRight => Property::BorderTopRightRadius(v, p),
        Corner::BottomLeft => Property::BorderBottomLeftRadius(v, p),
        Corner::BottomRight => Property::BorderBottomRightRadius(v, p),
    }
}

fn make_corner_id(c: Corner, p: VendorPrefix) -> (r: PropertyId)
    ensures
        r == corner_id(c, p),
{
    match c {
        Corner::TopLeft => PropertyId::BorderTopLeftRadius(p),
        Corner::TopRight => PropertyId::BorderTopRightRadius(p),
        Corner::BottomLeft => PropertyId::BorderBottomLeftRadius(p),
        Corner::BottomRight => PropertyId::BorderBottomRightRadius(p),
    }
}

/// The prefixes of a property id, where it has them.
pub open spec fn id_prefix(id: PropertyId) -> Option<VendorPrefix> {
    match id {
        PropertyId::BorderTopLeftRadius(p) => Some(p),
        PropertyId::BorderTopRightRadius(p) => Some(p),
        PropertyId::BorderBottomLeftRadius(p) => Some(p),
        PropertyId::BorderBottomRightRadius(p) => Some(p),
        PropertyId::BorderRadius(p) => Some(p),
        _ => None,
    }
}

/// `id` with its prefixes replaced by `p`, where it has prefixes.
pub open spec fn id_with_prefix(id: PropertyId, p: VendorPrefix) -> PropertyId {
    match id {
        PropertyId::BorderTopLeftRadius(_) => PropertyId::BorderTopLeftRadius(p),
        PropertyId::BorderTopRightRadius(_) => PropertyId::BorderTopRightRadius(p),
        PropertyId::BorderBottomLeftRadius(_) => PropertyId::BorderBottomLeftRadius(p),
        PropertyId::BorderBottomRightRadius(_) => PropertyId::BorderBottomRightRadius(p),
        PropertyId::BorderRadius(_) => PropertyId::BorderRadius(p),
        _ => id,
    }
}

pub open spec fn unprefixed() -> VendorPrefix {
    VendorPrefix { bits: NONE_BIT }
}

/// The prefixes to write for `vp`: where it holds the unprefixed form and
/// targets are configured, the prefixes that the targets need.
pub open spec fn prefixed(vp: VendorPrefix, targets: Option<VendorPrefix>) -> VendorPrefix {
    if vp.has(unprefixed()) && targets is Some {
        targets->Some_0
    } else {
        vp
    }
}

fn prefixes_for(vp: VendorPrefix, targets: Option<VendorPrefix>) -> (r: VendorPrefix)
    ensures
        r == prefixed(vp, targets),
{
    if vp.contains(VendorPrefix::none()) {
        if let Some(t) = targets {
            return t;
        }
    }
    vp
}

pub open spec fn is_logical_id(id: PropertyId) -> bool {
    id is BorderStartStartRadius || id is BorderStartEndRadius || id is BorderEndStartRadius
        || id is BorderEndEndRadius
}

pub open spec fn is_border_radius_id(id: PropertyId) -> bool {
    !(id is Other)
}

/// Whether `property_id` is one of the four flow-relative corner properties.
pub fn is_logical_border_radius_property(property_id: &PropertyId) -> (r: bool)
    ensures
        r == is_logical_id(*property_id),
{
    match property_id {
        PropertyId::BorderStartStartRadius
        | PropertyId::BorderStartEndRadius
        | PropertyId::BorderEndStartRadius
        | PropertyId::BorderEndEndRadius => true,
        _ => false,
    }
}

/// Whether `property_id` is a corner property or the shorthand.
pub fn is_border_radius_property(property_id: &PropertyId) -> (r: bool)
    ensures
        r == is_border_radius_id(*property_id),
{
    if is_logical_border_radius_property(property_id) {
        return true;
    }
    match property_id {
        PropertyId::BorderTopLeftRadius(_)
        | PropertyId::BorderTopRightRadius(_)
        | PropertyId::BorderBottomLeftRadius(_)
        | PropertyId::BorderBottomRightRadius(_)
        | PropertyId::BorderRadius(_) => true,
        _ => false,
    }
}

pub open spec fn unparsed_with_prefixes(u: UnparsedProperty, targets: Option<VendorPrefix>) -> UnparsedProperty {
    match id_prefix(u.property_id) {
        Some(p) => UnparsedProperty { property_id: id_with_prefix(u.property_id, prefixed(p, targets)), value: u.value },
        None => u,
    }
}

impl UnparsedProperty {
    /// A copy whose unprefixed form, if it has one, is expanded to the prefixes
    /// that the targets need.
    pub fn get_prefixed(&self, targets: Option<VendorPrefix>) -> (r: UnparsedProperty)
        ensures
            r == unparsed_with_prefixes(*self, targets),
    {
        let value = self.value.clone();
        let property_id = match self.property_id {
            PropertyId::BorderTopLeftRadius(p) => PropertyId::BorderTopLeftRadius(prefixes_for(p, targets)),
            PropertyId::BorderTopRightRadius(p) => PropertyId::BorderTopRightRadius(prefixes_for(p, targets)),
            PropertyId::BorderBottomLeftRadius(p) => PropertyId::BorderBottomLeftRadius(prefixes_for(p, targets)),
            PropertyId::BorderBottomRightRadius(p) => PropertyId::BorderBottomRightRadius(prefixes_for(p, targets)),
            PropertyId::BorderRadius(p) => PropertyId::BorderRadius(prefixes_for(p, targets)),
            id => id,
        };
        UnparsedProperty { property_id, value }
    }

    /// A copy with another property id.
    pub fn with_property_id(&self, property_id: PropertyId) -> (r: UnparsedProperty)
        ensures
            r == (UnparsedProperty { property_id, value: self.value }),
    {
        UnparsedProperty { property_id, value: self.value.clone() }
    }
}

impl Property {
    /// An equal copy.
    pub fn duplicate(&self) -> (r: Property)
        ensures
            r == *self,
    {
        match self {
            Property::BorderTopLeftRadius(v, p) => Property::BorderTopLeftRadius(*v, *p),
            Property::BorderTopRightRadius(v, p) => Property::BorderTopRightRadius(*v, *p),
            Property::BorderBottomLeftRadius(v, p) => Property::BorderBottomLeftRadius(*v, *p),
            Property::BorderBottomRightRadius(v, p) => Property::BorderBottomRightRadius(*v, *p),
            Property::BorderStartStartRadius(v) => Property::BorderStartStartRadius(*v),
            Property::BorderStartEndRadius(v) => Property::BorderStartEndRadius(*v),
            Property::BorderEndStartRadius(v) => Property::BorderEndStartRadius(*v),
            Property::BorderEndEndRadius(v) => Property::BorderEndEndRadius(*v),
            Property::BorderRadius(v, p) => Property::BorderRadius(*v, *p),
            Property::Unparsed(u) => Property::Unparsed(u.with_property_id(u.property_id)),
            Property::Other(s) => Property::Other(s.clone()),
        }
    }
}

/// What the handler is told about its surroundings, and where it registers
/// the left-to-right / right-to-left pairs that stand for flow-relative corners.
pub struct PropertyHandlerContext {
    /// Whether the targets support the flow-relative corner properties.
    pub logical_supported: bool,
    /// Registered pairs, left to right first.
    pub logical_rules: Vec<(Property, Property)>,
}

impl PropertyHandlerContext {
    pub fn new(logical_supported: bool) -> (r: PropertyHandlerContext)
        ensures
            r.logical_supported == logical_supported,
            r.logical_rules@ == Seq::<(Property, Property)>::empty(),
    {
        PropertyHandlerContext { logical_supported, logical_rules: Vec::new() }
    }

    pub fn add_logical_rule(&mut self, ltr: Property, rtl: Property)
        ensures
            final(self).logical_supported == old(self).logical_supported,
            final(self).logical_rules@ == old(self).logical_rules@.push((ltr, rtl)),
    {
        self.logical_rules.push((ltr, rtl));
    }
}

/// Merges the border-radius declarations of one block into as few as possible,
/// keeping their order.
pub struct BorderRadiusHandler {
    /// The prefixes that the configured targets need, if targets are configured.
    pub targets: Option<VendorPrefix>,
    pub top_left: Option<(Size2D, VendorPrefix)>,
    pub top_right: Option<(Size2D, VendorPrefix)>,
    pub bottom_left: Option<(Size2D, VendorPrefix)>,
    pub bottom_right: Option<(Size2D, VendorPrefix)>,
    pub start_start: Option<Property>,
    pub start_end: Option<Property>,
    pub end_start: Option<Property>,
    pub end_end: Option<Property>,
    pub category: PropertyCategory,
    pub has_any: bool,
}

/// A handler, and what it has written so far: declarations, and registered pairs.
pub struct Run {
    pub handler: BorderRadiusHandler,
    pub out: Seq<Property>,
    pub rules: Seq<(Property, Property)>,
}

pub open spec fn run_of(h: BorderRadiusHandler, dest: Seq<Property>, ctx: PropertyHandlerContext) -> Run {
    Run { handler: h, out: dest, rules: ctx.logical_rules@ }
}

impl BorderRadiusHandler {
    pub open spec fn spec_new(targets: Option<VendorPrefix>) -> BorderRadiusHandler {
        BorderRadiusHandler {
            targets,
            top_left: None,
            top_right: None,
            bottom_left: None,
            bottom_right: None,
            start_start: None,
            start_end: None,
            end_start: None,
            end_end: None,
            category: PropertyCategory::Physical,
            has_any: false,
        }
    }

    pub open spec fn corner(self, c: Corner) -> Option<(Size2D, VendorPrefix)> {
        match c {
            Corner::TopLeft => self.top_left,
            Corner::TopRight => self.top_right,
            Corner::BottomLeft => self.bottom_left,
            Corner::BottomRight => self.bottom_right,
        }
    }

    pub open spec fn set_corner(self, c: Corner, v: Option<(Size2D, VendorPrefix)>) -> BorderRadiusHandler {
        match c {
            Corner::TopLeft => BorderRadiusHandler { top_left: v, ..self },
            Corner::TopRight => BorderRadiusHandler { top_right: v, ..self },
            Corner::BottomLeft => BorderRadiusHandler { bottom_left: v, ..self },
            Corner::BottomRight => BorderRadiusHandler { bottom_right: v, ..self },
        }
    }

    pub open spec fn logical(self, l: LogicalCorner) -> Option<Property> {
        match l {
            LogicalCorner::StartStart => self.start_start,
            LogicalCorner::StartEnd => self.start_end,
            LogicalCorner::EndStart => self.end_start,
            LogicalCorner::EndEnd => self.end_end,
        }
    }

    pub open spec fn set_logical(self, l: LogicalCorner, v: Option<Property>) -> BorderRadiusHandler {
        match l {
            LogicalCorner::StartStart => BorderRadiusHandler { start_start: v, ..self },
            LogicalCorner::StartEnd => BorderRadiusHandler { start_end: v, ..self },
            LogicalCorner::EndStart => BorderRadiusHandler { end_start: v, ..self },
            LogicalCorner::EndEnd => BorderRadiusHandler { end_end: v, ..self },
        }
    }

    /// Some slot holds a declaration.
    pub open spec fn pending(self) -> bool {
        self.top_left is Some || self.top_right is Some || self.bottom_left is Some || self.bottom_right is Some
            || self.start_start is Some || self.start_end is Some || self.end_start is Some || self.end_end is Some
    }

    /// Whatever is pending is marked as such.
    pub open spec fn covered(self) -> bool {
        self.pending() ==> self.has_any
    }

    /// The mark says exactly whether something is pending.
    pub open spec fn wf(self) -> bool {
        self.has_any == self.pending()
    }

    pub open spec fn spec_targets(self) -> Option<VendorPrefix> {
        self.targets
    }

    pub open spec fn spec_category(self) -> PropertyCategory {
        self.category
    }

    pub open spec fn spec_has_any(self) -> bool {
        self.has_any
    }

    pub open spec fn with_state(self, category: PropertyCategory, has_any: bool) -> BorderRadiusHandler {
        BorderRadiusHandler { category, has_any, ..self }
    }

    /// Nothing pending: every slot empty.
    pub open spec fn cleared(self) -> BorderRadiusHandler {
        BorderRadiusHandler {
            top_left: None,
            top_right: None,
            bottom_left: None,
            bottom_right: None,
            start_start: None,
            start_end: None,
            end_start: None,
            end_end: None,
            has_any: false,
            ..self
        }
    }
}

/// The prefixes that all four physical corners share, if all four are pending.
pub open spec fn shared_prefixes(h: BorderRadiusHandler) -> VendorPrefix {
    match (h.corner(Corner::TopLeft), h.corner(Corner::TopRight), h.corner(Corner::BottomLeft), h.corner(Corner::BottomRight)) {
        (Some(a), Some(b), Some(c), Some(d)) => VendorPrefix { bits: a.1.bits & b.1.bits & c.1.bits & d.1.bits },
        _ => VendorPrefix { bits: 0 },
    }
}

/// The shorthand that a flush writes: one, where all four corners share a prefix.
pub open spec fn shorthand_out(h: BorderRadiusHandler) -> Seq<Property> {
    let shared = shared_prefixes(h);
    if shared.bits != 0 {
        seq![Property::BorderRadius(
            BorderRadius {
                top_left: h.corner(Corner::TopLeft)->Some_0.0,
                top_right: h.corner(Corner::TopRight)->Some_0.0,
                bottom_left: h.corner(Corner::BottomLeft)->Some_0.0,
                bottom_right: h.corner(Corner::BottomRight)->Some_0.0,
            },
            prefixed(shared, h.spec_targets()),
        )]
    } else {
        Seq::empty()
    }
}

/// The longhand that a flush writes for corner `c`: one, where the corner has
/// prefixes beyond those the shorthand took.
pub open spec fn longhand_out(h: BorderRadiusHandler, c: Corner) -> Seq<Property> {
    match h.corner(c) {
        Some((v, p)) => {
            let rest = VendorPrefix { bits: p.bits & !shared_prefixes(h).bits };
            if rest.bits != 0 {
                seq![corner_property(c, v, prefixed(rest, h.spec_targets()))]
            } else {
                Seq::empty()
            }
        },
        None => Seq::empty(),
    }
}

/// A pending flow-relative corner is written as it is where the targets support it.
pub open spec fn logical_out(h: BorderRadiusHandler, l: LogicalCorner, supported: bool) -> Seq<Property> {
    match h.logical(l) {
        Some(p) => if supported { seq![p] } else { Seq::empty() },
        None => Seq::empty(),
    }
}

/// Elsewhere it becomes a pair of physical corners, one per direction.
pub open spec fn logical_rule(h: BorderRadiusHandler, l: LogicalCorner, supported: bool) -> Seq<(Property, Property)> {
    let (ltr, rtl) = physical_pair(l);
    let vp = match h.spec_targets() {
        Some(t) => t,
        None => unprefixed(),
    };
    match h.logical(l) {
        Some(p) => if supported {
            Seq::empty()
        } else {
            match p {
                Property::BorderStartStartRadius(v) => seq![(corner_property(ltr, v, vp), corner_property(rtl, v, vp))],
                Property::BorderStartEndRadius(v) => seq![(corner_property(ltr, v, vp), corner_property(rtl, v, vp))],
                Property::BorderEndStartRadius(v) => seq![(corner_property(ltr, v, vp), corner_property(rtl, v, vp))],
                Property::BorderEndEndRadius(v) => seq![(corner_property(ltr, v, vp), corner_property(rtl, v, vp))],
                Property::Unparsed(u) => seq![(
                    Property::Unparsed(UnparsedProperty { property_id: corner_id(ltr, vp), value: u.value }),
                    Property::Unparsed(UnparsedProperty { property_id: corner_id(rtl, vp), value: u.value }),
                )],
                _ => Seq::empty(),
            }
        },
        None => Seq::empty(),
    }
}

/// Everything a flush writes: the shorthand, then the corner leftovers, then
/// the flow-relative corners; nothing if nothing is pending.
pub open spec fn flush_out(h: BorderRadiusHandler, supported: bool) -> Seq<Property> {
    if !h.spec_has_any() {
        Seq::empty()
    } else {
        shorthand_out(h) + longhand_out(h, Corner::TopLeft) + longhand_out(h, Corner::TopRight)
            + longhand_out(h, Corner::BottomLeft) + longhand_out(h, Corner::BottomRight)
            + logical_out(h, LogicalCorner::StartStart, supported) + logical_out(h, LogicalCorner::StartEnd, supported)
            + logical_out(h, LogicalCorner::EndStart, supported) + logical_out(h, LogicalCorner::EndEnd, supported)
    }
}

pub open spec fn flush_rules(h: BorderRadiusHandler, supported: bool) -> Seq<(Property, Property)> {
    if !h.spec_has_any() {
        Seq::empty()
    } else {
        logical_rule(h, LogicalCorner::StartStart, supported) + logical_rule(h, LogicalCorner::StartEnd, supported)
            + logical_rule(h, LogicalCorner::EndStart, supported) + logical_rule(h, LogicalCorner::EndEnd, supported)
    }
}

pub open spec fn flush_run(r: Run, supported: bool) -> Run {
    if !r.handler.spec_has_any() {
        r
    } else {
        Run {
            handler: r.handler.cleared(),
            out: r.out + flush_out(r.handler, supported),
            rules: r.rules + flush_rules(r.handler, supported),
        }
    }
}

/// Before corner `c` takes `val` under `vp`: a pending other value whose
/// prefixes do not hold `vp` is flushed first.
pub open spec fn maybe_flush_run(r: Run, c: Corner, val: Size2D, vp: VendorPrefix, supported: bool) -> Run {
    match r.handler.corner(c) {
        Some((v, p)) => if v != val && !p.has(vp) { flush_run(r, supported) } else { r },
        None => r,
    }
}

/// Corner `c` takes `val`, and `vp` joins its prefixes.
pub open spec fn merge_corner(h: BorderRadiusHandler, c: Corner, val: Size2D, vp: VendorPrefix) -> BorderRadiusHandler {
    match h.corner(c) {
        Some((_, p)) => h.set_corner(c, Some((val, VendorPrefix { bits: p.bits | vp.bits }))),
        None => h.set_corner(c, Some((val, vp))).with_state(h.spec_category(), true),
    }
}

pub open spec fn physical_run(r: Run, c: Corner, val: Size2D, vp: VendorPrefix, supported: bool) -> Run {
    let r1 = if r.handler.spec_category() != PropertyCategory::Physical { flush_run(r, supported) } else { r };
    let r2 = maybe_flush_run(r1, c, val, vp, supported);
    let h = merge_corner(r2.handler, c, val, vp);
    Run { handler: h.with_state(PropertyCategory::Physical, h.spec_has_any()), ..r2 }
}

pub open spec fn logical_run(r: Run, l: LogicalCorner, p: Property, supported: bool) -> Run {
    let r1 = if r.handler.spec_category() != PropertyCategory::Logical { flush_run(r, supported) } else { r };
    Run { handler: r1.handler.set_logical(l, Some(p)).with_state(PropertyCategory::Logical, true), ..r1 }
}

pub open spec fn shorthand_run(r: Run, val: BorderRadius, vp: VendorPrefix, supported: bool) -> Run {
    let h0 = r.handler.set_logical(LogicalCorner::StartStart, None).set_logical(LogicalCorner::StartEnd, None)
        .set_logical(LogicalCorner::EndStart, None).set_logical(LogicalCorner::EndEnd, None);
    let r0 = Run { handler: h0, ..r };
    let r1 = maybe_flush_run(r0, Corner::TopLeft, val.top_left, vp, supported);
    let r2 = maybe_flush_run(r1, Corner::TopRight, val.top_right, vp, supported);
    let r3 = maybe_flush_run(r2, Corner::BottomLeft, val.bottom_left, vp, supported);
    let r4 = maybe_flush_run(r3, Corner::BottomRight, val.bottom_right, vp, supported);
    let r5 = physical_run(r4, Corner::TopLeft, val.top_left, vp, supported);
    let r6 = physical_run(r5, Corner::TopRight, val.top_right, vp, supported);
    let r7 = physical_run(r6, Corner::BottomLeft, val.bottom_left, vp, supported);
    physical_run(r7, Corner::BottomRight, val.bottom_right, vp, supported)
}

/// Whether `p` is handled, and the run after it.
pub open spec fn handle_run(r: Run, p: Property, supported: bool) -> (bool, Run) {
    match p {
        Property::BorderTopLeftRadius(v, vp) => (true, physical_run(r, Corner::TopLeft, v, vp, supported)),
        Property::BorderTopRightRadius(v, vp) => (true, physical_run(r, Corner::TopRight, v, vp, supported)),
        Property::BorderBottomLeftRadius(v, vp) => (true, physical_run(r, Corner::BottomLeft, v, vp, supported)),
        Property::BorderBottomRightRadius(v, vp) => (true, physical_run(r, Corner::BottomRight, v, vp, supported)),
        Property::BorderStartStartRadius(_) => (true, logical_run(r, LogicalCorner::StartStart, p, supported)),
        Property::BorderStartEndRadius(_) => (true, logical_run(r, LogicalCorner::StartEnd, p, supported)),
        Property::BorderEndStartRadius(_) => (true, logical_run(r, LogicalCorner::EndStart, p, supported)),
        Property::BorderEndEndRadius(_) => (true, logical_run(r, LogicalCorner::EndEnd, p, supported)),
        Property::BorderRadius(v, vp) => (true, shorthand_run(r, v, vp, supported)),
        Property::Unparsed(u) => match u.property_id {
            PropertyId::BorderStartStartRadius => (true, logical_run(r, LogicalCorner::StartStart, p, supported)),
            PropertyId::BorderStartEndRadius => (true, logical_run(r, LogicalCorner::StartEnd, p, supported)),
            PropertyId::BorderEndStartRadius => (true, logical_run(r, LogicalCorner::EndStart, p, supported)),
            PropertyId::BorderEndEndRadius => (true, logical_run(r, LogicalCorner::EndEnd, p, supported)),
            PropertyId::Other => (false, r),
            _ => {
                let r1 = flush_run(r, supported);
                (true, Run {
                    out: r1.out.push(Property::Unparsed(unparsed_with_prefixes(u, r.handler.spec_targets()))),
                    ..r1
                })
            },
        },
        Property::Other(_) => (false, r),
    }
}

fn pair_of(l: LogicalCorner) -> (r: (Corner, Corner))
    ensures
        r == physical_pair(l),
{
    match l {
        LogicalCorner::StartStart => (Corner::TopLeft, Corner::TopRight),
        LogicalCorner::StartEnd => (Corner::TopRight, Corner::TopLeft),
        LogicalCorner::EndStart => (Corner::BottomLeft, Corner::BottomRight),
        LogicalCorner::EndEnd => (Corner::BottomRight, Corner::BottomLeft),
    }
}

impl BorderRadiusHandler {
    /// A handler with nothing pending, for targets that need the prefixes
    /// `targets` (`None`: no targets configured).
    pub fn new(targets: Option<VendorPrefix>) -> (r: Self)
        ensures
            r == Self::spec_new(targets),
            r.wf(),
    {
        BorderRadiusHandler {
            targets,
            top_left: None,
            top_right: None,
            bottom_left: None,
            bottom_right: None,
            start_start: None,
            start_end: None,
            end_start: None,
            end_end: None,
            category: PropertyCategory::Physical,
            has_any: false,
        }
    }

    fn get_corner(&self, c: Corner) -> (r: Option<(Size2D, VendorPrefix)>)
        ensures
            r == self.corner(c),
    {
        match c {
            Corner::TopLeft => self.top_left,
            Corner::TopRight => self.top_right,
            Corner::BottomLeft => self.bottom_left,
            Corner::BottomRight => self.bottom_right,
        }
    }

    fn put_corner(&mut self, c: Corner, v: Option<(Size2D, VendorPrefix)>)
        ensures
            *final(self) == old(self).set_corner(c, v),
    {
        match c {
            Corner::TopLeft => self.top_left = v,
            Corner::TopRight => self.top_right = v,
            Corner::BottomLeft => self.bottom_left = v,
            Corner::BottomRight => self.bottom_right = v,
        }
    }

    fn get_logical(&self, l: LogicalCorner) -> (r: &Option<Property>)
        ensures
            *r == self.logical(l),
    {
        match l {
            LogicalCorner::StartStart => &self.start_start,
            LogicalCorner::StartEnd => &self.start_end,
            LogicalCorner::EndStart => &self.end_start,
            LogicalCorner::EndEnd => &self.end_end,
        }
    }

    fn put_logical(&mut self, l: LogicalCorner, v: Option<Property>)
        ensures
            *final(self) == old(self).set_logical(l, v),
    {
        match l {
            LogicalCorner::StartStart => self.start_start = v,
            LogicalCorner::StartEnd => self.start_end = v,
            LogicalCorner::EndStart => self.end_start = v,
            LogicalCorner::EndEnd => self.end_end = v,
        }
    }

    fn shared(&self) -> (r: VendorPrefix)
        ensures
            r == shared_prefixes(*self),
    {
        match (self.top_left, self.top_right, self.bottom_left, self.bottom_right) {
            (Some(a), Some(b), Some(c), Some(d)) => a.1.intersection(b.1).intersection(c.1).intersection(d.1),
            _ => VendorPrefix::empty(),
        }
    }

    fn push_longhand(&self, c: Corner, shared: VendorPrefix, dest: &mut Vec<Property>)
        requires
            shared == shared_prefixes(*self),
        ensures
            final(dest)@ == old(dest)@ + longhand_out(*self, c),
    {
        match self.get_corner(c) {
            Some((v, p)) => {
                let mut rest = p;
                rest.remove(shared);
                if !rest.is_empty() {
                    dest.push(make_corner_property(c, v, prefixes_for(rest, self.targets)));
                    assert(final(dest)@ =~= old(dest)@ + longhand_out(*self, c));
                } else {
                    assert(final(dest)@ =~= old(dest)@ + longhand_out(*self, c));
                }
            },
            None => {
                assert(final(dest)@ =~= old(dest)@ + longhand_out(*self, c));
            },
        }
    }

    fn push_logical(&self, l: LogicalCorner, supported: bool, dest: &mut Vec<Property>, context: &mut PropertyHandlerContext)
        ensures
            final(dest)@ == old(dest)@ + logical_out(*self, l, supported),
            final(context).logical_rules@ == old(context).logical_rules@ + logical_rule(*self, l, supported),
            final(context).logical_supported == old(context).logical_supported,
    {
        let (ltr, rtl) = pair_of(l);
        let vp = match self.targets {
            Some(t) => t,
            None => VendorPrefix::none(),
        };
        match self.get_logical(l) {
            Some(p) => {
                if supported {
                    dest.push(p.duplicate());
                } else {
                    match p {
                        Property::BorderStartStartRadius(v)
                        | Property::BorderStartEndRadius(v)
                        | Property::BorderEndStartRadius(v)
                        | Property::BorderEndEndRadius(v) => {
                            context.add_logical_rule(make_corner_property(ltr, *v, vp), make_corner_property(rtl, *v, vp));
                        },
                        Property::Unparsed(u) => {
                            context.add_logical_rule(
                                Property::Unparsed(u.with_property_id(make_corner_id(ltr, vp))),
                                Property::Unparsed(u.with_property_id(make_corner_id(rtl, vp))),
                            );
                        },
                        _ => {},
                    }
                }
            },
            None => {},
        }
        assert(final(dest)@ =~= old(dest)@ + logical_out(*self, l, supported));
        assert(final(context).logical_rules@ =~= old(context).logical_rules@ + logical_rule(*self, l, supported));
    }

    fn push_shorthand(&self, shared: VendorPrefix, dest: &mut Vec<Property>)
        requires
            shared == shared_prefixes(*self),
        ensures
            final(dest)@ == old(dest)@ + shorthand_out(*self),
    {
        if !shared.is_empty() {
            if let (Some(a), Some(b), Some(c), Some(d)) = (self.top_left, self.top_right, self.bottom_left, self.bottom_right) {
                dest.push(Property::BorderRadius(
                    BorderRadius { top_left: a.0, top_right: b.0, bottom_left: c.0, bottom_right: d.0 },
                    prefixes_for(shared, self.targets),
                ));
            }
        }
        assert(final(dest)@ =~= old(dest)@ + shorthand_out(*self));
    }

    fn push_physical(&self, dest: &mut Vec<Property>)
        ensures
            final(dest)@ == old(dest)@ + (shorthand_out(*self) + longhand_out(*self, Corner::TopLeft)
                + longhand_out(*self, Corner::TopRight) + longhand_out(*self, Corner::BottomLeft)
                + longhand_out(*self, Corner::BottomRight)),
    {
        let shared = self.shared();
        self.push_shorthand(shared, dest);
        self.push_longhand(Corner::TopLeft, shared, dest);
        self.push_longhand(Corner::TopRight, shared, dest);
        self.push_longhand(Corner::BottomLeft, shared, dest);
        self.push_longhand(Corner::BottomRight, shared, dest);
        assert(final(dest)@ =~= old(dest)@ + (shorthand_out(*self) + longhand_out(*self, Corner::TopLeft)
            + longhand_out(*self, Corner::TopRight) + longhand_out(*self, Corner::BottomLeft)
            + longhand_out(*self, Corner::BottomRight)));
    }

    fn push_logicals(&self, dest: &mut Vec<Property>, context: &mut PropertyHandlerContext)
        ensures
            final(dest)@ == old(dest)@ + (logical_out(*self, LogicalCorner::StartStart, old(context).logical_supported)
                + logical_out(*self, LogicalCorner::StartEnd, old(context).logical_supported)
                + logical_out(*self, LogicalCorner::EndStart, old(context).logical_supported)
                + logical_out(*self, LogicalCorner::EndEnd, old(context).logical_supported)),
            final(context).logical_rules@ == old(context).logical_rules@ + flush_rules(*self, old(context).logical_supported)
                || !self.spec_has_any(),
            final(context).logical_supported == old(context).logical_supported,
    {
        let supported = context.logical_supported;
        self.push_logical(LogicalCorner::StartStart, supported, dest, context);
        self.push_logical(LogicalCorner::StartEnd, supported, dest, context);
        self.push_logical(LogicalCorner::EndStart, supported, dest, context);
        self.push_logical(LogicalCorner::EndEnd, supported, dest, context);
        assert(final(dest)@ =~= old(dest)@ + (logical_out(*self, LogicalCorner::StartStart, supported)
            + logical_out(*self, LogicalCorner::StartEnd, supported)
            + logical_out(*self, LogicalCorner::EndStart, supported)
            + logical_out(*self, LogicalCorner::EndEnd, supported)));
        assert(!self.spec_has_any() || final(context).logical_rules@ =~= old(context).logical_rules@ + flush_rules(*self, supported));
    }

    /// Writes everything pending, and leaves nothing pending.
    fn flush(&mut self, dest: &mut Vec<Property>, context: &mut PropertyHandlerContext)
        ensures
            run_of(*final(self), final(dest)@, *final(context)) == flush_run(
                run_of(*old(self), old(dest)@, *old(context)),
                old(context).logical_supported,
            ),
            final(context).logical_supported == old(context).logical_supported,
            old(self).covered() ==> final(self).wf() && !final(self).pending(),
    {
        if !self.has_any {
            return;
        }
        let ghost h = *self;
        let ghost d0 = dest@;
        self.push_physical(dest);
        self.push_logicals(dest, context);
        assert(dest@ =~= d0 + flush_out(h, context.logical_supported));
        self.top_left = None;
        self.top_right = None;
        self.bottom_left = None;
        self.bottom_right = None;
        self.start_start = None;
        self.start_end = None;
        self.end_start = None;
        self.end_end = None;
        self.has_any = false;
        assert(*self == h.cleared());
    }

    fn maybe_flush(&mut self, c: Corner, val: Size2D, vp: VendorPrefix, dest: &mut Vec<Property>, context: &mut PropertyHandlerContext)
        ensures
            run_of(*final(self), final(dest)@, *final(context)) == maybe_flush_run(
                run_of(*old(self), old(dest)@, *old(context)),
                c,
                val,
                vp,
                old(context).logical_supported,
            ),
            final(context).logical_supported == old(context).logical_supported,
            old(self).covered() ==> final(self).covered(),
    {
        // Two different values under prefixes that do not overlap: flush now to keep their order.
        if let Some((v, p)) = self.get_corner(c) {
            if v != val && !p.contains(vp) {
                self.flush(dest, context);
            }
        }
    }

    fn physical(&mut self, c: Corner, val: Size2D, vp: VendorPrefix, dest: &mut Vec<Property>, context: &mut PropertyHandlerContext)
        requires
            old(self).covered(),
        ensures
            run_of(*final(self), final(dest)@, *final(context)) == physical_run(
                run_of(*old(self), old(dest)@, *old(context)),
                c,
                val,
                vp,
                old(context).logical_supported,
            ),
            final(context).logical_supported == old(context).logical_supported,
            final(self).wf(),
            final(self).corner(c) is Some,
    {
        if self.category != PropertyCategory::Physical {
            self.flush(dest, context);
        }
        self.maybe_flush(c, val, vp, dest, context);
        match self.get_corner(c) {
            Some((_, p)) => self.put_corner(c, Some((val, p.union(vp)))),
            None => {
                self.put_corner(c, Some((val, vp)));
                self.has_any = true;
            },
        }
        self.category = PropertyCategory::Physical;
    }

    fn logical_corner(&mut self, l: LogicalCorner, p: Property, dest: &mut Vec<Property>, context: &mut PropertyHandlerContext)
        ensures
            run_of(*final(self), final(dest)@, *final(context)) == logical_run(
                run_of(*old(self), old(dest)@, *old(context)),
                l,
                p,
                old(context).logical_supported,
            ),
            final(context).logical_supported == old(context).logical_supported,
            final(self).wf(),
    {
        if self.category != PropertyCategory::Logical {
            self.flush(dest, context);
        }
        self.put_logical(l, Some(p));
        self.category = PropertyCategory::Logical;
        self.has_any = true;
    }

    /// Takes one declaration. Returns `false`, writing nothing, for a
    /// declaration outside the border-radius family.
    pub fn handle_property(&mut self, property: &Property, dest: &mut Vec<Property>, context: &mut PropertyHandlerContext) -> (r: bool)
        requires
            old(self).wf(),
        ensures
            (r, run_of(*final(self), final(dest)@, *final(context))) == handle_run(
                run_of(*old(self), old(dest)@, *old(context)),
                *property,
                old(context).logical_supported,
            ),
            final(context).logical_supported == old(context).logical_supported,
            final(self).wf(),
    {
        match property {
            Property::BorderTopLeftRadius(v, vp) => self.physical(Corner::TopLeft, *v, *vp, dest, context),
            Property::BorderTopRightRadius(v, vp) => self.physical(Corner::TopRight, *v, *vp, dest, context),
            Property::BorderBottomLeftRadius(v, vp) => self.physical(Corner::BottomLeft, *v, *vp, dest, context),
            Property::BorderBottomRightRadius(v, vp) => self.physical(Corner::BottomRight, *v, *vp, dest, context),
            Property::BorderStartStartRadius(_) => self.logical_corner(LogicalCorner::StartStart, property.duplicate(), dest, context),
            Property::BorderStartEndRadius(_) => self.logical_corner(LogicalCorner::StartEnd, property.duplicate(), dest, context),
            Property::BorderEndStartRadius(_) => self.logical_corner(LogicalCorner::EndStart, property.duplicate(), dest, context),
            Property::BorderEndEndRadius(_) => self.logical_corner(LogicalCorner::EndEnd, property.duplicate(), dest, context),
            Property::BorderRadius(val, vp) => {
                self.put_logical(LogicalCorner::StartStart, None);
                self.put_logical(LogicalCorner::StartEnd, None);
                self.put_logical(LogicalCorner::EndStart, None);
                self.put_logical(LogicalCorner::EndEnd, None);
                self.maybe_flush(Corner::TopLeft, val.top_left, *vp, dest, context);
                self.maybe_flush(Corner::TopRight, val.top_right, *vp, dest, context);
                self.maybe_flush(Corner::BottomLeft, val.bottom_left, *vp, dest, context);
                self.maybe_flush(Corner::BottomRight, val.bottom_right, *vp, dest, context);
                self.physical(Corner::TopLeft, val.top_left, *vp, dest, context);
                self.physical(Corner::TopRight, val.top_right, *vp, dest, context);
                self.physical(Corner::BottomLeft, val.bottom_left, *vp, dest, context);
                self.physical(Corner::BottomRight, val.bottom_right, *vp, dest, context);
            },
            Property::Unparsed(u) => {
                if !is_border_radius_property(&u.property_id) {
                    return false;
                }
                // A value that could not be parsed still gets its prefixes.
                match u.property_id {
                    PropertyId::BorderStartStartRadius => self.logical_corner(LogicalCorner::StartStart, property.duplicate(), dest, context),
                    PropertyId::BorderStartEndRadius => self.logical_corner(LogicalCorner::StartEnd, property.duplicate(), dest, context),
                    PropertyId::BorderEndStartRadius => self.logical_corner(LogicalCorner::EndStart, property.duplicate(), dest, context),
                    PropertyId::BorderEndEndRadius => self.logical_corner(LogicalCorner::EndEnd, property.duplicate(), dest, context),
                    _ => {
                        let prefixed_value = u.get_prefixed(self.targets);
                        self.flush(dest, context);
                        dest.push(Property::Unparsed(prefixed_value));
                    },
                }
            },
            Property::Other(_) => return false,
        }
        true
    }

    /// Writes everything still pending; called once, at the end of the block.
    pub fn finalize(&mut self, dest: &mut Vec<Property>, context: &mut PropertyHandlerContext)
        requires
            old(self).wf(),
        ensures
            run_of(*final(self), final(dest)@, *final(context)) == flush_run(
                run_of(*old(self), old(dest)@, *old(context)),
                old(context).logical_supported,
            ),
            final(context).logical_supported == old(context).logical_supported,
            final(self).wf(),
            !final(self).pending(),
    {
        self.flush(dest, context);
    }
}

} // verus!
