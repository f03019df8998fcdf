//! The vertical stack: flexbox enums and the style strings a column stack and
//! its items carry. Unlike the row stack, every flexbox input here is
//! optional and an absent one contributes no declaration at all.

use vstd::prelude::*;
use vstd::string::StringExecFns;
use crate::decimal::i32_to_dec;
use crate::hstack::spec_gap_fragment;
use crate::hstack::spec_flex_flag_fragment;
use crate::hstack::spec_named_fragment;
use crate::hstack::spec_order_fragment;

verus! {

/// The CSS `align-items` values a column stack offers.
#[derive(Clone, Debug, PartialEq, Eq, Structural)]
pub enum AlignItems {
    FlexStart,
    Center,
    FlexEnd,
    Stretch,
    Baseline,
}

impl Default for AlignItems {
    /// Items align to the start of the cross axis by default.
    fn default() -> (r: Self)
        ensures
            r == AlignItems::FlexStart,
    {
        AlignItems::FlexStart
    }
}

impl AlignItems {
    /// The CSS keyword for this value.
    pub open spec fn spec_css_value(self) -> Seq<char> {
        match self {
            AlignItems::FlexStart => "flex-start"@,
            AlignItems::Center => "center"@,
            AlignItems::FlexEnd => "flex-end"@,
            AlignItems::Stretch => "stretch"@,
            AlignItems::Baseline => "baseline"@,
        }
    }

    /// The CSS keyword for this value.
    pub fn to_css_value(&self) -> (r: &'static str)
        ensures
            r@ == self.spec_css_value(),
    {
        match self {
            AlignItems::FlexStart => "flex-start",
            AlignItems::Center => "center",
            AlignItems::FlexEnd => "flex-end",
            AlignItems::Stretch => "stretch",
            AlignItems::Baseline => "baseline",
        }
    }
}

/// The CSS `justify-content` values a column stack offers.
#[derive(Clone, Debug, PartialEq, Eq, Structural)]
pub enum JustifyContent {
    FlexStart,
    Center,
    FlexEnd,
    SpaceBetween,
    SpaceAround,
    SpaceEvenly,
}

impl Default for JustifyContent {
    /// Content packs to the start of the main axis by default.
    fn default() -> (r: Self)
        ensures
            r == JustifyContent::FlexStart,
    {
        JustifyContent::FlexStart
    }
}

impl JustifyContent {
    /// The CSS keyword for this value.
    pub open spec fn spec_css_value(self) -> Seq<char> {
        match self {
            JustifyContent::FlexStart => "flex-start"@,
            JustifyContent::Center => "center"@,
            JustifyContent::FlexEnd => "flex-end"@,
            JustifyContent::SpaceBetween => "space-between"@,
            JustifyContent::SpaceAround => "space-around"@,
            JustifyContent::SpaceEvenly => "space-evenly"@,
        }
    }

    /// The CSS keyword for this value.
    pub fn to_css_value(&self) -> (r: &'static str)
        ensures
            r@ == self.spec_css_value(),
    {
        match self {
            JustifyContent::FlexStart => "flex-start",
            JustifyContent::Center => "center",
            JustifyContent::FlexEnd => "flex-end",
            JustifyContent::SpaceBetween => "space-between",
            JustifyContent::SpaceAround => "space-around",
            JustifyContent::SpaceEvenly => "space-evenly",
        }
    }
}

/// The CSS `flex-wrap` values a column stack offers.
#[derive(Clone, Debug, PartialEq, Eq, Structural)]
pub enum FlexWrap {
    NoWrap,
    Wrap,
    WrapReverse,
}

impl Default for FlexWrap {
    /// A stack does not wrap by default.
    fn default() -> (r: Self)
        ensures
            r == FlexWrap::NoWrap,
    {
        FlexWrap::NoWrap
    }
}

impl FlexWrap {
    /// The CSS keyword for this value.
    pub open spec fn spec_css_value(self) -> Seq<char> {
        match self {
            FlexWrap::NoWrap => "nowrap"@,
            FlexWrap::Wrap => "wrap"@,
            FlexWrap::WrapReverse => "wrap-reverse"@,
        }
    }

    /// The CSS keyword for this value.
    pub fn to_css_value(&self) -> (r: &'static str)
        ensures
            r@ == self.spec_css_value(),
    {
        match self {
            FlexWrap::NoWrap => "nowrap",
            FlexWrap::Wrap => "wrap",
            FlexWrap::WrapReverse => "wrap-reverse",
        }
    }
}

/// The `align-items` declaration an optional alignment contributes.
pub open spec fn spec_align_fragment(align: Option<AlignItems>) -> Seq<char> {
    match align {
        Some(a) => "align-items:"@ + a.spec_css_value() + ";"@,
        None => Seq::<char>::empty(),
    }
}

/// The `justify-content` declaration an optional justification contributes.
pub open spec fn spec_justify_fragment(justify: Option<JustifyContent>) -> Seq<char> {
    match justify {
        Some(j) => "justify-content:"@ + j.spec_css_value() + ";"@,
        None => Seq::<char>::empty(),
    }
}

/// The `flex-wrap` declaration an optional wrapping contributes.
pub open spec fn spec_wrap_fragment(wrap: Option<FlexWrap>) -> Seq<char> {
    match wrap {
        Some(w) => "flex-wrap:"@ + w.spec_css_value() + ";"@,
        None => Seq::<char>::empty(),
    }
}

/// The `align-self` declaration an optional self-alignment contributes.
pub open spec fn spec_align_self_fragment(align_self: Option<AlignItems>) -> Seq<char> {
    match align_self {
        Some(a) => "align-self:"@ + a.spec_css_value() + ";"@,
        None => Seq::<char>::empty(),
    }
}

/// A raw trailing user style: appended as given when non-empty.
pub open spec fn spec_raw_style_fragment(style: Option<Seq<char>>) -> Seq<char> {
    match style {
        Some(s) => if s.len() == 0 {
            Seq::<char>::empty()
        } else {
            s
        },
        None => Seq::<char>::empty(),
    }
}

/// The whole base style of a column stack: direction, then optional gap,
/// alignment, justification and wrapping, in that order.
pub open spec fn spec_vstack_base_style(
    spacing: Option<Seq<char>>,
    align: Option<AlignItems>,
    justify: Option<JustifyContent>,
    wrap: Option<FlexWrap>,
) -> Seq<char> {
    "display:flex;flex-direction:column;"@ + spec_gap_fragment(spacing) + spec_align_fragment(align)
        + spec_justify_fragment(justify) + spec_wrap_fragment(wrap)
}

/// Builds the base style of a column stack. Absent inputs contribute no
/// declaration; an empty spacing contributes none either.
pub fn vstack_base_style(
    spacing: Option<&String>,
    align: Option<&AlignItems>,
    justify: Option<&JustifyContent>,
    wrap: Option<&FlexWrap>,
) -> (r: String)
    ensures
        r@ == spec_vstack_base_style(
            match spacing {
                Some(s) => Some(s@),
                None => None,
            },
            match align {
                Some(a) => Some(*a),
                None => None,
            },
            match justify {
                Some(j) => Some(*j),
                None => None,
            },
            match wrap {
                Some(w) => Some(*w),
                None => None,
            },
        ),
{
    let ghost g_gap = spec_gap_fragment(
        match spacing {
            Some(s) => Some(s@),
            None => None,
        },
    );
    let ghost g_align = spec_align_fragment(
        match align {
            Some(a) => Some(*a),
            None => None,
        },
    );
    let ghost g_justify = spec_justify_fragment(
        match justify {
            Some(j) => Some(*j),
            None => None,
        },
    );
    let ghost g_wrap = spec_wrap_fragment(
        match wrap {
            Some(w) => Some(*w),
            None => None,
        },
    );
    let ghost g_base = "display:flex;flex-direction:column;"@;
    let mut styles = String::from_str("display:flex;flex-direction:column;");
    if let Some(val) = spacing {
        if !val.as_str().is_empty() {
            styles.append("gap:");
            styles.append(val.as_str());
            styles.append(";");
        }
    }
    proof {
        assert(styles@ =~= g_base + g_gap);
    }
    if let Some(val) = align {
        styles.append("align-items:");
        styles.append(val.to_css_value());
        styles.append(";");
    }
    proof {
        assert(styles@ =~= g_base + g_gap + g_align);
    }
    if let Some(val) = justify {
        styles.append("justify-content:");
        styles.append(val.to_css_value());
        styles.append(";");
    }
    proof {
        assert(styles@ =~= g_base + g_gap + g_align + g_justify);
    }
    if let Some(val) = wrap {
        styles.append("flex-wrap:");
        styles.append(val.to_css_value());
        styles.append(";");
    }
    proof {
        assert(styles@ =~= g_base + g_gap + g_align + g_justify + g_wrap);
    }
    styles
}

/// The whole style of a column-stack item: self-alignment, flex shorthand,
/// order, grow, shrink, basis, then a raw user style, in that order, each
/// only when given.
pub open spec fn spec_vstack_item_style(
    align_self: Option<AlignItems>,
    flex: Option<Seq<char>>,
    order: Option<int>,
    grow: Option<bool>,
    shrink: Option<bool>,
    basis: Option<Seq<char>>,
    style: Option<Seq<char>>,
) -> Seq<char> {
    spec_align_self_fragment(align_self) + spec_named_fragment("flex:"@, flex)
        + spec_order_fragment(order) + spec_flex_flag_fragment("flex-grow:"@, grow)
        + spec_flex_flag_fragment("flex-shrink:"@, shrink) + spec_named_fragment(
        "flex-basis:"@,
        basis,
    ) + spec_raw_style_fragment(style)
}

/// The leading declarations of a column-stack item: self-alignment, flex
/// shorthand and order.
fn vstack_item_style_lead(align_self: Option<&AlignItems>, flex: Option<&String>, order: Option<
    i32,
>) -> (r: String)
    ensures
        r@ == spec_align_self_fragment(
            match align_self {
                Some(a) => Some(*a),
                None => None,
            },
        ) + spec_named_fragment(
            "flex:"@,
            match flex {
                Some(s) => Some(s@),
                None => None,
            },
        ) + spec_order_fragment(
            match order {
                Some(n) => Some(n as int),
                None => None,
            },
        ),
{
    let ghost g_align = spec_align_self_fragment(
        match align_self {
            Some(a) => Some(*a),
            None => None,
        },
    );
    let ghost g_flex = spec_named_fragment(
        "flex:"@,
        match flex {
            Some(s) => Some(s@),
            None => None,
        },
    );
    let mut styles = String::new();
    if let Some(val) = align_self {
        styles.append("align-self:");
        styles.append(val.to_css_value());
        styles.append(";");
    }
    proof {
        assert(styles@ =~= g_align);
    }
    if let Some(val) = flex {
        if !val.as_str().is_empty() {
            styles.append("flex:");
            styles.append(val.as_str());
            styles.append(";");
        }
    }
    proof {
        assert(styles@ =~= g_align + g_flex);
    }
    if let Some(val) = order {
        styles.append("order:");
        let rendered = i32_to_dec(val);
        styles.append(rendered.as_str());
        styles.append(";");
    }
    proof {
        assert(styles@ =~= g_align + g_flex + spec_order_fragment(
            match order {
                Some(n) => Some(n as int),
                None => None,
            },
        ));
    }
    styles
}

/// The trailing declarations of a column-stack item: grow, shrink, basis and
/// the raw user style.
fn vstack_item_style_tail(
    grow: Option<bool>,
    shrink: Option<bool>,
    basis: Option<&String>,
    style: Option<&String>,
) -> (r: String)
    ensures
        r@ == spec_flex_flag_fragment("flex-grow:"@, grow) + spec_flex_flag_fragment(
            "flex-shrink:"@,
            shrink,
        ) + spec_named_fragment(
            "flex-basis:"@,
            match basis {
                Some(s) => Some(s@),
                None => None,
            },
        ) + spec_raw_style_fragment(
            match style {
                Some(s) => Some(s@),
                None => None,
            },
        ),
{
    let ghost g_grow = spec_flex_flag_fragment("flex-grow:"@, grow);
    let ghost g_shrink = spec_flex_flag_fragment("flex-shrink:"@, shrink);
    let ghost g_basis = spec_named_fragment(
        "flex-basis:"@,
        match basis {
            Some(s) => Some(s@),
            None => None,
        },
    );
    let mut styles = String::new();
    if let Some(val) = grow {
        styles.append("flex-grow:");
        styles.append(if val {
            "1;"
        } else {
            "0;"
        });
    }
    proof {
        assert(styles@ =~= g_grow);
    }
    if let Some(val) = shrink {
        styles.append("flex-shrink:");
        styles.append(if val {
            "1;"
        } else {
            "0;"
        });
    }
    proof {
        assert(styles@ =~= g_grow + g_shrink);
    }
    if let Some(val) = basis {
        if !val.as_str().is_empty() {
            styles.append("flex-basis:");
            styles.append(val.as_str());
            styles.append(";");
        }
    }
    proof {
        assert(styles@ =~= g_grow + g_shrink + g_basis);
    }
    if let Some(val) = style {
        if !val.as_str().is_empty() {
            styles.append(val.as_str());
        }
    }
    proof {
        assert(styles@ =~= g_grow + g_shrink + g_basis + spec_raw_style_fragment(
            match style {
                Some(s) => Some(s@),
                None => None,
            },
        ));
    }
    styles
}

/// Builds the style of a column-stack item. Absent inputs contribute
/// nothing; an empty flex, basis or trailing style contributes nothing
/// either. The trailing user style is appended exactly as given.
pub fn vstack_item_style(
    align_self: Option<&AlignItems>,
    flex: Option<&String>,
    order: Option<i32>,
    grow: Option<bool>,
    shrink: Option<bool>,
    basis: Option<&String>,
    style: Option<&String>,
) -> (r: String)
    ensures
        r@ == spec_vstack_item_style(
            match align_self {
                Some(a) => Some(*a),
                None => None,
            },
            match flex {
                Some(s) => Some(s@),
                None => None,
            },
            match order {
                Some(n) => Some(n as int),
                None => None,
            },
            grow,
            shrink,
            match basis {
                Some(s) => Some(s@),
                None => None,
            },
            match style {
                Some(s) => Some(s@),
                None => None,
            },
        ),
{
    let mut styles = vstack_item_style_lead(align_self, flex, order);
    let tail = vstack_item_style_tail(grow, shrink, basis, style);
    styles.append(tail.as_str());
    proof {
        assert(styles@ =~= spec_vstack_item_style(
            match align_self {
                Some(a) => Some(*a),
                None => None,
            },
            match flex {
                Some(s) => Some(s@),
                None => None,
            },
            match order {
                Some(n) => Some(n as int),
                None => None,
            },
            grow,
            shrink,
            match basis {
                Some(s) => Some(s@),
                None => None,
            },
            match style {
                Some(s) => Some(s@),
                None => None,
            },
        ));
    }
    styles
}

} // verus!
