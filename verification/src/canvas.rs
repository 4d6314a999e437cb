use vstd::prelude::*;

use crate::brush::{Brush, BrushView};
use crate::color::{transparent_values, Color};

verus! {

/// The observable state of a canvas: its size and pairing mode, the draw
/// state shapes are painted with, the stack of saved draw states, and the
/// frame bookkeeping.
pub struct CanvasView {
    pub width: u32,
    pub height: u32,
    pub windowless: bool,
    pub native_pixel_scale: bool,
    pub color: Color,
    pub brush: BrushView,
    pub saved: Seq<(Color, BrushView)>,
    pub frame_count: i32,
    pub screenshot_requested: bool,
}

/// A canvas: the drawing surface's client-side state.
pub struct Canvas {
    width: u32,
    height: u32,
    windowless: bool,
    native_pixel_scale: bool,
    color: Color,
    brush: Brush,
    saved: Vec<(Color, Brush)>,
    frame_count: i32,
    screenshot_requested: bool,
}

impl View for Canvas {
    type V = CanvasView;

    closed spec fn view(&self) -> CanvasView {
        CanvasView {
            width: self.width,
            height: self.height,
            windowless: self.windowless,
            native_pixel_scale: self.native_pixel_scale,
            color: self.color,
            brush: self.brush@,
            saved: self.saved@.map_values(|entry: (Color, Brush)| (entry.0, entry.1@)),
            frame_count: self.frame_count,
            screenshot_requested: self.screenshot_requested,
        }
    }
}

impl Canvas {
    /// A fresh canvas: unsized, not windowless, logically scaled, painting
    /// transparent black with no brush style, with an empty save stack and
    /// no frames submitted.
    pub fn new() -> (c: Self)
        ensures
            c@ == (CanvasView {
                width: 0,
                height: 0,
                windowless: false,
                native_pixel_scale: false,
                color: Color { values: transparent_values() },
                brush: BrushView::Unset,
                saved: Seq::<(Color, BrushView)>::empty(),
                frame_count: 0,
                screenshot_requested: false,
            }),
    {
        let c = Canvas {
            width: 0,
            height: 0,
            windowless: false,
            native_pixel_scale: false,
            color: Color::transparent(),
            brush: Brush::new(),
            saved: Vec::new(),
            frame_count: 0,
            screenshot_requested: false,
        };
        proof {
            assert(c@.saved =~= Seq::<(Color, BrushView)>::empty());
        }
        c
    }

    /// Resizes the drawing surface.
    pub fn set_dimensions(&mut self, width: u32, height: u32)
        ensures
            final(self)@ == (CanvasView { width, height, ..old(self)@ }),
    {
        self.width = width;
        self.height = height;
    }

    /// Detaches the canvas from any window and gives it its own surface
    /// of the given size.
    pub fn set_windowless(&mut self, width: u32, height: u32)
        ensures
            final(self)@ == (CanvasView { width, height, windowless: true, ..old(self)@ }),
    {
        self.width = width;
        self.height = height;
        self.windowless = true;
    }

    /// Leaves windowless mode.
    pub fn remove_from_window(&mut self)
        ensures
            final(self)@ == (CanvasView { windowless: false, ..old(self)@ }),
    {
        self.windowless = false;
    }

    /// Draws in the surface's native pixels.
    pub fn set_native_pixel_scale(&mut self)
        ensures
            final(self)@ == (CanvasView { native_pixel_scale: true, ..old(self)@ }),
    {
        self.native_pixel_scale = true;
    }

    /// Draws in logical pixels scaled by the DPI scale.
    pub fn set_logical_pixel_scale(&mut self)
        ensures
            final(self)@ == (CanvasView { native_pixel_scale: false, ..old(self)@ }),
    {
        self.native_pixel_scale = false;
    }

    /// Sets the color the next shapes are painted with.
    pub fn set_color(&mut self, color: Color)
        ensures
            final(self)@ == (CanvasView { color, ..old(self)@ }),
    {
        self.color = color;
    }

    /// Sets the brush the next shapes are painted with.
    pub fn set_brush(&mut self, brush: &Brush)
        ensures
            final(self)@ == (CanvasView { brush: brush@, ..old(self)@ }),
    {
        self.brush = brush.clone();
    }

    /// Pushes the current color and brush onto the save stack.
    pub fn save_state(&mut self)
        ensures
            final(self)@ == (CanvasView {
                saved: old(self)@.saved.push((old(self)@.color, old(self)@.brush)),
                ..old(self)@
            }),
    {
        let entry = (self.color, self.brush.clone());
        self.saved.push(entry);
        proof {
            assert(self@.saved =~= old(self)@.saved.push((old(self)@.color, old(self)@.brush)));
        }
    }

    /// Pops the most recently saved color and brush, making them current
    /// again; with nothing saved, the canvas is left unchanged.
    pub fn restore_state(&mut self)
        ensures
            old(self)@.saved.len() > 0 ==> final(self)@ == (CanvasView {
                color: old(self)@.saved.last().0,
                brush: old(self)@.saved.last().1,
                saved: old(self)@.saved.drop_last(),
                ..old(self)@
            }),
            old(self)@.saved.len() == 0 ==> final(self)@ == old(self)@,
    {
        match self.saved.pop() {
            Some(entry) => {
                self.color = entry.0;
                self.brush = entry.1;
                proof {
                    assert(self@.saved =~= old(self)@.saved.drop_last());
                }
            },
            None => {
                proof {
                    assert(self@.saved =~= old(self)@.saved);
                }
            },
        }
    }

    /// Submits the drawn frame to the given render pass: the frame count
    /// moves up by one and any pending screenshot request is consumed.
    #[allow(unused_variables)]
    pub fn submit(&mut self, submit_pass: i32)
        requires
            old(self)@.frame_count < i32::MAX,
        ensures
            final(self)@ == (CanvasView {
                frame_count: (old(self)@.frame_count + 1) as i32,
                screenshot_requested: false,
                ..old(self)@
            }),
    {
        self.frame_count = self.frame_count + 1;
        self.screenshot_requested = false;
    }

    /// Asks the next submitted frame to be captured as a screenshot.
    pub fn reqeust_screenshot(&mut self)
        ensures
            final(self)@ == (CanvasView { screenshot_requested: true, ..old(self)@ }),
    {
        self.screenshot_requested = true;
    }

    /// How many frames have been submitted.
    pub fn frame_count(&self) -> (r: i32)
        ensures
            r == self@.frame_count,
    {
        self.frame_count
    }
}

} // verus!
