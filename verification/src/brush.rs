use vstd::prelude::*;

use crate::color::{lerp_color, scale_alpha, scaled_alpha, Color};
use crate::gradient::Gradient;

verus! {

/// What a brush paints with.
#[derive(Debug)]
pub enum BrushStyle {
    /// A fresh brush that no style has been set on yet.
    Unset,
    /// A single solid color.
    Solid(Color),
    /// A gradient swept from left to right.
    Horizontal(Gradient),
    /// A gradient swept from top to bottom.
    Vertical(Gradient),
}

/// The value of a brush style, with each gradient read as its stop list.
pub enum BrushView {
    Unset,
    Solid(Color),
    Horizontal(Seq<Color>),
    Vertical(Seq<Color>),
}

impl View for BrushStyle {
    type V = BrushView;

    open spec fn view(&self) -> BrushView {
        match self {
            BrushStyle::Unset => BrushView::Unset,
            BrushStyle::Solid(c) => BrushView::Solid(*c),
            BrushStyle::Horizontal(g) => BrushView::Horizontal(g@),
            BrushStyle::Vertical(g) => BrushView::Vertical(g@),
        }
    }
}

/// A brush style with the alpha channel of every color it paints with
/// scaled by `mult` in units of 1/255.
pub open spec fn scaled_brush(v: BrushView, mult: u8) -> BrushView {
    match v {
        BrushView::Unset => BrushView::Unset,
        BrushView::Solid(c) => BrushView::Solid(scaled_alpha(c, mult)),
        BrushView::Horizontal(s) => BrushView::Horizontal(
            s.map_values(|c: Color| scaled_alpha(c, mult)),
        ),
        BrushView::Vertical(s) => BrushView::Vertical(
            s.map_values(|c: Color| scaled_alpha(c, mult)),
        ),
    }
}

/// A brush style moved `t` of the way towards `other`, with `t` in units
/// of 1/255: matching solid colors interpolate channel by channel, and
/// matching gradient sweeps of one resolution interpolate stop by stop.
/// Styles of different kinds, and gradients of different resolutions,
/// have no matching parts and leave the style unchanged.
pub open spec fn mixed_brush(v: BrushView, other: BrushView, t: u8) -> BrushView {
    match (v, other) {
        (BrushView::Solid(x), BrushView::Solid(y)) => BrushView::Solid(lerp_color(x, y, t)),
        (BrushView::Horizontal(x), BrushView::Horizontal(y)) => {
            if x.len() == y.len() {
                BrushView::Horizontal(Seq::new(x.len(), |i: int| lerp_color(x[i], y[i], t)))
            } else {
                v
            }
        },
        (BrushView::Vertical(x), BrushView::Vertical(y)) => {
            if x.len() == y.len() {
                BrushView::Vertical(Seq::new(x.len(), |i: int| lerp_color(x[i], y[i], t)))
            } else {
                v
            }
        },
        _ => v,
    }
}

/// A brush: the style the canvas paints shapes with.
#[derive(Debug)]
pub struct Brush {
    style: BrushStyle,
}

impl View for Brush {
    type V = BrushView;

    closed spec fn view(&self) -> BrushView {
        self.style@
    }
}

impl Brush {
    /// A fresh brush with no style set.
    pub fn new() -> (b: Self)
        ensures
            b@ == BrushView::Unset,
    {
        Brush { style: BrushStyle::Unset }
    }

    /// Paints with a single solid color.
    pub fn solid(&mut self, color: Color)
        ensures
            final(self)@ == BrushView::Solid(color),
    {
        self.style = BrushStyle::Solid(color);
    }

    /// Paints with the given gradient swept from left to right.
    pub fn horizontal(&mut self, gradient: &Gradient)
        ensures
            final(self)@ == BrushView::Horizontal(gradient@),
    {
        self.style = BrushStyle::Horizontal(gradient.clone());
    }

    /// Paints with a two-stop gradient swept from left to right.
    pub fn horizontal_from_two(&mut self, left: Color, right: Color)
        ensures
            final(self)@ == BrushView::Horizontal(seq![left, right]),
    {
        self.style = BrushStyle::Horizontal(Self::two_stop(left, right));
    }

    /// Paints with the given gradient swept from top to bottom.
    pub fn vertical(&mut self, gradient: &Gradient)
        ensures
            final(self)@ == BrushView::Vertical(gradient@),
    {
        self.style = BrushStyle::Vertical(gradient.clone());
    }

    /// Paints with a two-stop gradient swept from top to bottom.
    pub fn vertical_from_two(&mut self, top: Color, bottom: Color)
        ensures
            final(self)@ == BrushView::Vertical(seq![top, bottom]),
    {
        self.style = BrushStyle::Vertical(Self::two_stop(top, bottom));
    }

    /// A gradient holding exactly the two given stops.
    fn two_stop(first: Color, second: Color) -> (g: Gradient)
        ensures
            g@ == seq![first, second],
    {
        let mut stops: Vec<Color> = Vec::new();
        stops.push(first);
        stops.push(second);
        proof {
            assert(stops@ =~= seq![first, second]);
        }
        Gradient::from_colors(stops.as_slice())
    }

    /// Moves this brush's style `t` of the way towards `other`'s, with
    /// `t` in units of 1/255, as `mixed_brush` says: matching parts
    /// interpolate, anything unmatched is left unchanged.
    pub fn interpolate_with(&mut self, other: &Self, t: u8)
        ensures
            final(self)@ == mixed_brush(old(self)@, other@, t),
    {
        let mixed = match (&self.style, &other.style) {
            (BrushStyle::Solid(x), BrushStyle::Solid(y)) => BrushStyle::Solid(
                Color::interpolate(x, y, t),
            ),
            (BrushStyle::Horizontal(x), BrushStyle::Horizontal(y)) => {
                let mut mixed_gradient = x.clone();
                mixed_gradient.interpolate_with(y, t);
                proof {
                    if x@.len() == y@.len() {
                        assert(mixed_gradient@ =~= Seq::new(
                            x@.len(),
                            |i: int| lerp_color(x@[i], y@[i], t),
                        ));
                    }
                }
                BrushStyle::Horizontal(mixed_gradient)
            },
            (BrushStyle::Vertical(x), BrushStyle::Vertical(y)) => {
                let mut mixed_gradient = x.clone();
                mixed_gradient.interpolate_with(y, t);
                proof {
                    if x@.len() == y@.len() {
                        assert(mixed_gradient@ =~= Seq::new(
                            x@.len(),
                            |i: int| lerp_color(x@[i], y@[i], t),
                        ));
                    }
                }
                BrushStyle::Vertical(mixed_gradient)
            },
            _ => {
                return ;
            },
        };
        self.style = mixed;
    }

    /// Scales the alpha channel of every color this brush paints with by
    /// `mult` in units of 1/255.
    pub fn multiply_alpha(&mut self, mult: u8)
        ensures
            final(self)@ == scaled_brush(old(self)@, mult),
    {
        let scaled = match &self.style {
            BrushStyle::Unset => BrushStyle::Unset,
            BrushStyle::Solid(c) => BrushStyle::Solid(scale_alpha(*c, mult)),
            BrushStyle::Horizontal(g) => {
                let mut scaled_gradient = g.clone();
                scaled_gradient.multiply_alpha(mult);
                proof {
                    assert(scaled_gradient@ =~= g@.map_values(|c: Color| scaled_alpha(c, mult)));
                }
                BrushStyle::Horizontal(scaled_gradient)
            },
            BrushStyle::Vertical(g) => {
                let mut scaled_gradient = g.clone();
                scaled_gradient.multiply_alpha(mult);
                proof {
                    assert(scaled_gradient@ =~= g@.map_values(|c: Color| scaled_alpha(c, mult)));
                }
                BrushStyle::Vertical(scaled_gradient)
            },
        };
        self.style = scaled;
    }

    /// The style this brush paints with.
    pub fn raw(&self) -> (r: &BrushStyle)
        ensures
            r@ == self@,
    {
        &self.style
    }
}

impl Default for Brush {
    /// The default brush has no style set.
    fn default() -> (b: Self)
        ensures
            b@ == BrushView::Unset,
    {
        Brush::new()
    }
}

impl Clone for Brush {
    /// A clone paints with the same style.
    fn clone(&self) -> (b: Self)
        ensures
            b@ == self@,
    {
        let style = match &self.style {
            BrushStyle::Unset => BrushStyle::Unset,
            BrushStyle::Solid(c) => BrushStyle::Solid(*c),
            BrushStyle::Horizontal(g) => BrushStyle::Horizontal(g.clone()),
            BrushStyle::Vertical(g) => BrushStyle::Vertical(g.clone()),
        };
        Brush { style }
    }
}

} // verus!
