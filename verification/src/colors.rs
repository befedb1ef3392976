//! The global colour picker: one stroke colour and one fill colour shared by
//! every pen. A change of either colour may first act on the current
//! selection, and is then written into the configuration of every pen that
//! has such a colour.
//!
//! The colour type is a parameter: these rules never look inside a colour.
//! Where a rule depends on whether two colours are equal, the caller
//! compares them and passes the answer.
use vstd::prelude::*;
use crate::pen_style::PenStyle;

verus! {

/// The colours held by the pen configurations that the colour picker
/// drives.
#[derive(Clone, Copy, Debug)]
pub struct PenColors<C> {
    pub brush_marker_stroke: Option<C>,
    pub brush_solid_stroke: Option<C>,
    pub brush_textured_stroke: Option<C>,
    pub shaper_smooth_stroke: Option<C>,
    pub shaper_rough_stroke: Option<C>,
    pub typewriter_text: C,
    pub brush_marker_fill: Option<C>,
    pub brush_solid_fill: Option<C>,
    pub shaper_smooth_fill: Option<C>,
    pub shaper_rough_fill: Option<C>,
}

/// What a colour change does to the current selection before the pen
/// configurations are updated.
#[derive(Clone, Copy, Debug, PartialEq, Eq, Structural)]
pub enum SelectionRecolor {
    /// Leave the selection as it is.
    Nothing,
    /// Give the selected text of the typewriter the new colour.
    RestyleSelectedText,
    /// Give the strokes of the selection the new stroke colour.
    RecolorSelectedStrokes,
    /// Give the strokes of the selection the new fill colour.
    RecolorSelectedFills,
}

impl<C> PenColors<C> {
    /// These colours after the stroke colour was set to `color`: every pen
    /// colour that draws lines or text takes it; fill colours stay.
    pub open spec fn with_stroke_color(self, color: C) -> Self {
        PenColors {
            brush_marker_stroke: Some(color),
            brush_solid_stroke: Some(color),
            brush_textured_stroke: Some(color),
            shaper_smooth_stroke: Some(color),
            shaper_rough_stroke: Some(color),
            typewriter_text: color,
            ..self
        }
    }

    /// These colours after the fill colour was set to `color`: every pen
    /// colour that fills shapes takes it; stroke and text colours stay.
    pub open spec fn with_fill_color(self, color: C) -> Self {
        PenColors {
            brush_marker_fill: Some(color),
            brush_solid_fill: Some(color),
            shaper_smooth_fill: Some(color),
            shaper_rough_fill: Some(color),
            ..self
        }
    }
}

impl<C: Copy> PenColors<C> {
    /// Writes a new stroke colour into every pen configuration that has
    /// one: the three brush styles, the two shaper styles and the
    /// typewriter's text.
    pub fn apply_stroke_color(&mut self, color: C)
        ensures
            *final(self) == old(self).with_stroke_color(color),
    {
        self.brush_marker_stroke = Some(color);
        self.brush_solid_stroke = Some(color);
        self.brush_textured_stroke = Some(color);
        self.shaper_smooth_stroke = Some(color);
        self.shaper_rough_stroke = Some(color);
        self.typewriter_text = color;
    }

    /// Writes a new fill colour into every pen configuration that has one:
    /// the marker and solid brushes and the two shaper styles.
    pub fn apply_fill_color(&mut self, color: C)
        ensures
            *final(self) == old(self).with_fill_color(color),
    {
        self.brush_marker_fill = Some(color);
        self.brush_solid_fill = Some(color);
        self.shaper_smooth_fill = Some(color);
        self.shaper_rough_fill = Some(color);
    }
}

/// What a new stroke colour does to the selection, for the pen in use.
pub open spec fn stroke_recolor_spec(current: PenStyle, text_color_differs: bool) -> SelectionRecolor {
    match current {
        PenStyle::Typewriter => if text_color_differs {
            SelectionRecolor::RestyleSelectedText
        } else {
            SelectionRecolor::Nothing
        },
        PenStyle::Selector => SelectionRecolor::RecolorSelectedStrokes,
        _ => SelectionRecolor::Nothing,
    }
}

/// What a new fill colour does to the selection, for the pen in use.
pub open spec fn fill_recolor_spec(current: PenStyle) -> SelectionRecolor {
    match current {
        PenStyle::Selector => SelectionRecolor::RecolorSelectedFills,
        _ => SelectionRecolor::Nothing,
    }
}

/// Decides what a new stroke colour does to the selection. With the
/// typewriter in use, the selected text is restyled when the new colour
/// differs from the typewriter's text colour (`text_color_differs`); with
/// the selector in use, the selected strokes are recoloured; with any other
/// pen, nothing happens to the selection.
pub fn stroke_color_recolor(current: PenStyle, text_color_differs: bool) -> (res: SelectionRecolor)
    ensures
        res == stroke_recolor_spec(current, text_color_differs),
{
    match current {
        PenStyle::Typewriter => {
            if text_color_differs {
                SelectionRecolor::RestyleSelectedText
            } else {
                SelectionRecolor::Nothing
            }
        },
        PenStyle::Selector => SelectionRecolor::RecolorSelectedStrokes,
        PenStyle::Brush | PenStyle::Shaper | PenStyle::Eraser | PenStyle::Tools => {
            SelectionRecolor::Nothing
        },
    }
}

/// Decides what a new fill colour does to the selection: with the selector
/// in use the selected strokes take the fill colour; otherwise nothing
/// happens to the selection.
pub fn fill_color_recolor(current: PenStyle) -> (res: SelectionRecolor)
    ensures
        res == fill_recolor_spec(current),
{
    match current {
        PenStyle::Selector => SelectionRecolor::RecolorSelectedFills,
        PenStyle::Typewriter | PenStyle::Brush | PenStyle::Shaper | PenStyle::Eraser
        | PenStyle::Tools => SelectionRecolor::Nothing,
    }
}

/// The colour picker is global: after a stroke colour is chosen, every pen
/// that draws lines or text uses it, whatever pen was in use.
pub proof fn lemma_stroke_color_reaches_every_pen<C>(colors: PenColors<C>, color: C)
    ensures
        ({
            let after = colors.with_stroke_color(color);
            &&& after.brush_marker_stroke == Some(color)
            &&& after.brush_solid_stroke == Some(color)
            &&& after.brush_textured_stroke == Some(color)
            &&& after.shaper_smooth_stroke == Some(color)
            &&& after.shaper_rough_stroke == Some(color)
            &&& after.typewriter_text == color
        }),
{
}

/// The colour picker is global: after a fill colour is chosen, every pen
/// that fills shapes (marker, solid brush, smooth and rough shaper) uses
/// it, whether or not it had a fill colour before; stroke and text colours
/// are not touched.
pub proof fn lemma_fill_color_reaches_every_filling_pen<C>(colors: PenColors<C>, color: C)
    ensures
        ({
            let after = colors.with_fill_color(color);
            &&& after.brush_marker_fill == Some(color)
            &&& after.brush_solid_fill == Some(color)
            &&& after.shaper_smooth_fill == Some(color)
            &&& after.shaper_rough_fill == Some(color)
            &&& after.brush_marker_stroke == colors.brush_marker_stroke
            &&& after.brush_solid_stroke == colors.brush_solid_stroke
            &&& after.brush_textured_stroke == colors.brush_textured_stroke
            &&& after.shaper_smooth_stroke == colors.shaper_smooth_stroke
            &&& after.shaper_rough_stroke == colors.shaper_rough_stroke
            &&& after.typewriter_text == colors.typewriter_text
        }),
{
}

/// Choosing the same colour again changes nothing.
pub proof fn lemma_color_choice_idempotent<C>(colors: PenColors<C>, color: C)
    ensures
        colors.with_stroke_color(color).with_stroke_color(color) == colors.with_stroke_color(color),
        colors.with_fill_color(color).with_fill_color(color) == colors.with_fill_color(color),
{
}

/// Only the last choice counts: choosing one colour and then another
/// leaves the pens as if only the second had been chosen.
pub proof fn lemma_last_color_choice_wins<C>(colors: PenColors<C>, first: C, second: C)
    ensures
        colors.with_stroke_color(first).with_stroke_color(second) == colors.with_stroke_color(second),
        colors.with_fill_color(first).with_fill_color(second) == colors.with_fill_color(second),
{
}

/// Stroke and fill colours are independent: choosing them in either order
/// gives the same pens.
pub proof fn lemma_stroke_and_fill_independent<C>(colors: PenColors<C>, stroke: C, fill: C)
    ensures
        colors.with_stroke_color(stroke).with_fill_color(fill)
            == colors.with_fill_color(fill).with_stroke_color(stroke),
{
}

/// A colour change touches the selection only while the typewriter or the
/// selector is in use, and the typewriter's text only when its colour
/// actually changes.
pub proof fn lemma_selection_untouched_by_other_pens(current: PenStyle, text_color_differs: bool)
    ensures
        (current != PenStyle::Typewriter && current != PenStyle::Selector)
            ==> stroke_recolor_spec(current, text_color_differs) == SelectionRecolor::Nothing,
        current != PenStyle::Selector ==> fill_recolor_spec(current) == SelectionRecolor::Nothing,
        !text_color_differs ==> stroke_recolor_spec(current, text_color_differs)
            != SelectionRecolor::RestyleSelectedText,
{
}

} // verus!
