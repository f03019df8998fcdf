//! The horizontal stack: flexbox enums and the style strings a row stack and
//! its items carry.

use vstd::prelude::*;
use vstd::string::StringExecFns;
use crate::decimal::i32_to_dec;
use crate::decimal::spec_dec;

verus! {

/// The CSS `align-items` values a stack offers.
#[derive(Debug, Clone, Copy, PartialEq, Eq, Structural)]
pub enum AlignItems {
    FlexStart,
    Center,
    FlexEnd,
    Stretch,
    Baseline,
}

impl Default for AlignItems {
    /// Items align to the start of the cross axis by default.
    fn default() -> (r: Self)
        ensures
            r == AlignItems::FlexStart,
    {
        AlignItems::FlexStart
    }
}

impl AlignItems {
    /// The CSS keyword for this value.
    pub open spec fn spec_css_value(self) -> Seq<char> {
        match self {
            AlignItems::FlexStart => "flex-start"@,
            AlignItems::Center => "center"@,
            AlignItems::FlexEnd => "flex-end"@,
            AlignItems::Stretch => "stretch"@,
            AlignItems::Baseline => "baseline"@,
        }
    }

    /// The CSS keyword for this value.
    pub fn to_css_value(self) -> (r: &'static str)
        ensures
            r@ == self.spec_css_value(),
    {
        match self {
            AlignItems::FlexStart => "flex-start",
            AlignItems::Center => "center",
            AlignItems::FlexEnd => "flex-end",
            AlignItems::Stretch => "stretch",
            AlignItems::Baseline => "baseline",
        }
    }
}

/// The CSS `justify-content` values a stack offers.
#[derive(Debug, Clone, Copy, PartialEq, Eq, Structural)]
pub enum JustifyContent {
    FlexStart,
    Center,
    FlexEnd,
    SpaceBetween,
    SpaceAround,
    SpaceEvenly,
}

impl Default for JustifyContent {
    /// Content packs to the start of the main axis by default.
    fn default() -> (r: Self)
        ensures
            r == JustifyContent::FlexStart,
    {
        JustifyContent::FlexStart
    }
}

impl JustifyContent {
    /// The CSS keyword for this value.
    pub open spec fn spec_css_value(self) -> Seq<char> {
        match self {
            JustifyContent::FlexStart => "flex-start"@,
            JustifyContent::Center => "center"@,
            JustifyContent::FlexEnd => "flex-end"@,
            JustifyContent::SpaceBetween => "space-between"@,
            JustifyContent::SpaceAround => "space-around"@,
            JustifyContent::SpaceEvenly => "space-evenly"@,
        }
    }

    /// The CSS keyword for this value.
    pub fn to_css_value(self) -> (r: &'static str)
        ensures
            r@ == self.spec_css_value(),
    {
        match self {
            JustifyContent::FlexStart => "flex-start",
            JustifyContent::Center => "center",
            JustifyContent::FlexEnd => "flex-end",
            JustifyContent::SpaceBetween => "space-between",
            JustifyContent::SpaceAround => "space-around",
            JustifyContent::SpaceEvenly => "space-evenly",
        }
    }
}

/// The CSS `flex-wrap` values a stack offers.
#[derive(Debug, Clone, Copy, PartialEq, Eq, Structural)]
pub enum FlexWrap {
    NoWrap,
    Wrap,
    WrapReverse,
}

impl Default for FlexWrap {
    /// A stack does not wrap by default.
    fn default() -> (r: Self)
        ensures
            r == FlexWrap::NoWrap,
    {
        FlexWrap::NoWrap
    }
}

impl FlexWrap {
    /// The CSS keyword for this value.
    pub open spec fn spec_css_value(self) -> Seq<char> {
        match self {
            FlexWrap::NoWrap => "nowrap"@,
            FlexWrap::Wrap => "wrap"@,
            FlexWrap::WrapReverse => "wrap-reverse"@,
        }
    }

    /// The CSS keyword for this value.
    pub fn to_css_value(self) -> (r: &'static str)
        ensures
            r@ == self.spec_css_value(),
    {
        match self {
            FlexWrap::NoWrap => "nowrap",
            FlexWrap::Wrap => "wrap",
            FlexWrap::WrapReverse => "wrap-reverse",
        }
    }
}

/// The `gap` declaration an optional, non-empty spacing contributes.
pub open spec fn spec_gap_fragment(spacing: Option<Seq<char>>) -> Seq<char> {
    match spacing {
        Some(s) => if s.len() == 0 {
            Seq::<char>::empty()
        } else {
            "gap:"@ + s + ";"@
        },
        None => Seq::<char>::empty(),
    }
}

/// The whole base style of a row stack: direction, optional gap, alignment,
/// justification and wrapping, in that order.
pub open spec fn spec_hstack_base_style(
    spacing: Option<Seq<char>>,
    align: AlignItems,
    justify: JustifyContent,
    wrap: FlexWrap,
) -> Seq<char> {
    "display:flex;flex-direction:row;"@ + spec_gap_fragment(spacing) + "align-items:"@
        + align.spec_css_value() + ";"@ + "justify-content:"@ + justify.spec_css_value() + ";"@
        + "flex-wrap:"@ + wrap.spec_css_value() + ";"@
}

/// Builds the base style of a row stack. An absent or empty spacing
/// contributes no `gap` declaration.
pub fn hstack_base_style(
    spacing: Option<&String>,
    align: AlignItems,
    justify: JustifyContent,
    wrap: FlexWrap,
) -> (r: String)
    ensures
        r@ == spec_hstack_base_style(
            match spacing {
                Some(s) => Some(s@),
                None => None,
            },
            align,
            justify,
            wrap,
        ),
{
    let mut styles = String::from_str("display:flex;flex-direction:row;");
    if let Some(spacing_val) = spacing {
        if !spacing_val.as_str().is_empty() {
            styles.append("gap:");
            styles.append(spacing_val.as_str());
            styles.append(";");
        }
    }
    styles.append("align-items:");
    styles.append(align.to_css_value());
    styles.append(";");
    styles.append("justify-content:");
    styles.append(justify.to_css_value());
    styles.append(";");
    styles.append("flex-wrap:");
    styles.append(wrap.to_css_value());
    styles.append(";");
    proof {
        assert(styles@ =~= spec_hstack_base_style(
            match spacing {
                Some(s) => Some(s@),
                None => None,
            },
            align,
            justify,
            wrap,
        ));
    }
    styles
}

/// The `flex-grow` or `flex-shrink` declaration an optional flag contributes:
/// `1` for true, `0` for false, nothing when absent.
pub open spec fn spec_flex_flag_fragment(name: Seq<char>, flag: Option<bool>) -> Seq<char> {
    match flag {
        Some(v) => name + (if v {
            "1;"@
        } else {
            "0;"@
        }),
        None => Seq::<char>::empty(),
    }
}

/// The declaration an optional, non-empty string value contributes.
pub open spec fn spec_named_fragment(name: Seq<char>, value: Option<Seq<char>>) -> Seq<char> {
    match value {
        Some(v) => if v.len() == 0 {
            Seq::<char>::empty()
        } else {
            name + v + ";"@
        },
        None => Seq::<char>::empty(),
    }
}

/// The `order` declaration an optional order contributes.
pub open spec fn spec_order_fragment(order: Option<int>) -> Seq<char> {
    match order {
        Some(n) => "order:"@ + spec_dec(n) + ";"@,
        None => Seq::<char>::empty(),
    }
}

/// The whole style of a row-stack item: grow, shrink, basis, self-alignment
/// and order, in that order, each only when given.
pub open spec fn spec_hstack_item_style(
    grow: Option<bool>,
    shrink: Option<bool>,
    basis: Option<Seq<char>>,
    align_self: Option<Seq<char>>,
    order: Option<int>,
) -> Seq<char> {
    spec_flex_flag_fragment("flex-grow:"@, grow) + spec_flex_flag_fragment("flex-shrink:"@, shrink)
        + spec_named_fragment("flex-basis:"@, basis) + spec_named_fragment("align-self:"@, align_self)
        + spec_order_fragment(order)
}

/// Builds the style of a row-stack item. Absent inputs contribute nothing;
/// an empty basis or self-alignment contributes nothing either.
pub fn hstack_item_style(
    grow: Option<bool>,
    shrink: Option<bool>,
    basis: Option<&String>,
    align_self: Option<&String>,
    order: Option<i32>,
) -> (r: String)
    ensures
        r@ == spec_hstack_item_style(
            grow,
            shrink,
            match basis {
                Some(s) => Some(s@),
                None => None,
            },
            match align_self {
                Some(s) => Some(s@),
                None => None,
            },
            match order {
                Some(n) => Some(n as int),
                None => None,
            },
        ),
{
    let ghost g_grow = spec_flex_flag_fragment("flex-grow:"@, grow);
    let ghost g_shrink = spec_flex_flag_fragment("flex-shrink:"@, shrink);
    let ghost g_basis = spec_named_fragment(
        "flex-basis:"@,
        match basis {
            Some(s) => Some(s@),
            None => None,
        },
    );
    let ghost g_align = spec_named_fragment(
        "align-self:"@,
        match align_self {
            Some(s) => Some(s@),
            None => None,
        },
    );
    let ghost g_order = spec_order_fragment(
        match order {
            Some(n) => Some(n as int),
            None => None,
        },
    );
    let mut styles = String::new();
    if let Some(grow_val) = grow {
        styles.append("flex-grow:");
        styles.append(if grow_val {
            "1;"
        } else {
            "0;"
        });
    }
    proof {
        assert(styles@ =~= g_grow);
    }
    if let Some(shrink_val) = shrink {
        styles.append("flex-shrink:");
        styles.append(if shrink_val {
            "1;"
        } else {
            "0;"
        });
    }
    proof {
        assert(styles@ =~= g_grow + g_shrink);
    }
    if let Some(basis_val) = basis {
        if !basis_val.as_str().is_empty() {
            styles.append("flex-basis:");
            styles.append(basis_val.as_str());
            styles.append(";");
        }
    }
    proof {
        assert(styles@ =~= g_grow + g_shrink + g_basis);
    }
    if let Some(align_val) = align_self {
        if !align_val.as_str().is_empty() {
            styles.append("align-self:");
            styles.append(align_val.as_str());
            styles.append(";");
        }
    }
    proof {
        assert(styles@ =~= g_grow + g_shrink + g_basis + g_align);
    }
    if let Some(order_val) = order {
        styles.append("order:");
        let rendered = i32_to_dec(order_val);
        styles.append(rendered.as_str());
        styles.append(";");
    }
    proof {
        assert(styles@ =~= g_grow + g_shrink + g_basis + g_align + g_order);
    }
    styles
}

} // verus!
