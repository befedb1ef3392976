//! The pen styles a user can switch between, the names by which the
//! `pen-style` action knows them, and what a pen toggle does when it is
//! toggled.
use vstd::prelude::*;

verus! {

/// One of the pens of the toolbar.
#[derive(Clone, Copy, Debug, PartialEq, Eq, Structural)]
pub enum PenStyle {
    Brush,
    Shaper,
    Typewriter,
    Eraser,
    Selector,
    Tools,
}

/// The name under which the `pen-style` action takes a pen style.
pub open spec fn pen_style_name(style: PenStyle) -> Seq<char> {
    match style {
        PenStyle::Brush => "brush"@,
        PenStyle::Shaper => "shaper"@,
        PenStyle::Typewriter => "typewriter"@,
        PenStyle::Eraser => "eraser"@,
        PenStyle::Selector => "selector"@,
        PenStyle::Tools => "tools"@,
    }
}

/// Every pen style, in the order of the toolbar: the order in which the
/// pen toggles are wired and the pages of the pens sidebar are set up.
pub open spec fn toolbar_order() -> Seq<PenStyle> {
    seq![
        PenStyle::Brush,
        PenStyle::Shaper,
        PenStyle::Typewriter,
        PenStyle::Eraser,
        PenStyle::Selector,
        PenStyle::Tools,
    ]
}

/// A request to activate a named application action with a string
/// parameter.
#[derive(Clone, Copy, Debug, PartialEq, Eq)]
pub struct ActionActivation {
    pub action: &'static str,
    pub parameter: &'static str,
}

impl PenStyle {
    /// The name of this pen style, as the `pen-style` action expects it.
    pub fn name(&self) -> (res: &'static str)
        ensures
            res@ == pen_style_name(*self),
    {
        match self {
            PenStyle::Brush => "brush",
            PenStyle::Shaper => "shaper",
            PenStyle::Typewriter => "typewriter",
            PenStyle::Eraser => "eraser",
            PenStyle::Selector => "selector",
            PenStyle::Tools => "tools",
        }
    }

    /// All pen styles in toolbar order.
    pub fn all() -> (res: Vec<PenStyle>)
        ensures
            res@ == toolbar_order(),
    {
        let mut v: Vec<PenStyle> = Vec::new();
        v.push(PenStyle::Brush);
        v.push(PenStyle::Shaper);
        v.push(PenStyle::Typewriter);
        v.push(PenStyle::Eraser);
        v.push(PenStyle::Selector);
        v.push(PenStyle::Tools);
        v
    }
}

/// What the toggle of a pen style does when its state changes: switching a
/// toggle on activates the `pen-style` action with the name of its pen
/// style; switching it off does nothing.
pub fn pen_toggle_activation(style: PenStyle, is_active: bool) -> (res: Option<ActionActivation>)
    ensures
        res is Some <==> is_active,
        res matches Some(a) ==> a.action@ == "pen-style"@ && a.parameter@ == pen_style_name(style),
{
    if is_active {
        Some(ActionActivation { action: "pen-style", parameter: style.name() })
    } else {
        None
    }
}

/// Distinct pen styles have distinct action names, so the action parameter
/// always tells which toggle was switched on.
pub proof fn lemma_pen_style_names_distinct(a: PenStyle, b: PenStyle)
    ensures
        pen_style_name(a) == pen_style_name(b) ==> a == b,
{
    reveal_strlit("brush");
    reveal_strlit("shaper");
    reveal_strlit("typewriter");
    reveal_strlit("eraser");
    reveal_strlit("selector");
    reveal_strlit("tools");
    if pen_style_name(a) == pen_style_name(b) && a != b {
        let na = pen_style_name(a);
        let nb = pen_style_name(b);
        assert(na.len() != nb.len() || na[0] != nb[0] || na[1] != nb[1]);
    }
}

/// The toolbar order lists every pen style exactly once.
pub proof fn lemma_toolbar_order_complete(style: PenStyle)
    ensures
        toolbar_order().contains(style),
        toolbar_order().len() == 6,
        toolbar_order().no_duplicates(),
{
    let s = toolbar_order();
    let i: int = match style {
        PenStyle::Brush => 0,
        PenStyle::Shaper => 1,
        PenStyle::Typewriter => 2,
        PenStyle::Eraser => 3,
        PenStyle::Selector => 4,
        PenStyle::Tools => 5,
    };
    assert(s[i] == style);
}

} // verus!
