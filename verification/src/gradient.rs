use vstd::prelude::*;

use crate::color::{lerp_color, scale_alpha, scaled_alpha, transparent_values, Color};

verus! {

/// The color a fresh gradient stop starts with: fully transparent black.
pub open spec fn default_stop() -> Color {
    Color { values: transparent_values() }
}

/// The stop list after the resolution is set to `n`: the list is cut
/// short, or padded with default stops, to hold exactly `n` colors.
pub open spec fn resized_stops(s: Seq<Color>, n: nat) -> Seq<Color> {
    if n <= s.len() {
        s.take(n as int)
    } else {
        s + Seq::new((n - s.len()) as nat, |i: int| default_stop())
    }
}

/// A gradient: a resizable list of color stops.
#[derive(Debug)]
pub struct Gradient {
    colors: Vec<Color>,
}

impl View for Gradient {
    type V = Seq<Color>;

    closed spec fn view(&self) -> Seq<Color> {
        self.colors@
    }
}

impl Gradient {
    /// An empty gradient, with no stops.
    pub fn new() -> (g: Self)
        ensures
            g@ == Seq::<Color>::empty(),
    {
        Gradient { colors: Vec::new() }
    }

    /// A gradient holding exactly the given stops, in order.
    pub fn from_colors(colors: &[Color]) -> (g: Self)
        ensures
            g@ == colors@,
    {
        let mut stops: Vec<Color> = Vec::new();
        let mut i: usize = 0;
        while i < colors.len()
            invariant
                i <= colors@.len(),
                stops@ == colors@.take(i as int),
            decreases colors@.len() - i,
        {
            stops.push(colors[i]);
            proof {
                assert(stops@ =~= colors@.take(i + 1));
            }
            i = i + 1;
        }
        proof {
            assert(colors@.take(colors@.len() as int) =~= colors@);
        }
        Gradient { colors: stops }
    }

    /// Sets the number of stops: extra stops are dropped from the end,
    /// and new stops start as the default stop.
    pub fn set_resolution(&mut self, resolution: usize)
        ensures
            final(self)@ == resized_stops(old(self)@, resolution as nat),
    {
        if resolution <= self.colors.len() {
            self.colors.truncate(resolution);
            proof {
                assert(final(self)@ =~= resized_stops(old(self)@, resolution as nat));
            }
        } else {
            while self.colors.len() < resolution
                invariant
                    old(self)@.len() <= self.colors@.len() <= resolution,
                    self.colors@.take(old(self)@.len() as int) == old(self)@,
                    forall|j: int|
                        old(self)@.len() <= j < self.colors@.len() ==> self.colors@[j]
                            == default_stop(),
                decreases resolution - self.colors@.len(),
            {
                let stop = Color::transparent();
                self.colors.push(stop);
                proof {
                    assert(self.colors@.take(old(self)@.len() as int) =~= old(self)@);
                }
            }
            proof {
                assert(self.colors@ =~= resized_stops(old(self)@, resolution as nat));
            }
        }
    }

    /// The number of stops.
    pub fn resolution(&self) -> (r: usize)
        ensures
            r == self@.len(),
    {
        self.colors.len()
    }

    /// The stop at the given index, or `None` past the last stop.
    pub fn color(&self, index: usize) -> (r: Option<Color>)
        ensures
            index < self@.len() ==> r == Some(self@[index as int]),
            index >= self@.len() ==> r is None,
    {
        if index >= self.colors.len() {
            return None;
        }
        Some(self.colors[index])
    }

    /// Replaces the stop at the given index; past the last stop nothing
    /// changes and the call reports failure.
    pub fn set_color(&mut self, index: usize, color: Color) -> (r: Result<(), ()>)
        ensures
            index < old(self)@.len() ==> r is Ok && final(self)@ == old(self)@.update(
                index as int,
                color,
            ),
            index >= old(self)@.len() ==> r is Err && final(self)@ == old(self)@,
    {
        if index >= self.colors.len() {
            return Err(());
        }
        self.colors[index] = color;
        Ok(())
    }

    /// Moves every stop `t` of the way towards the matching stop of
    /// `other`, with `t` in units of 1/255.  Gradients of different
    /// resolutions have no matching stops and are left unchanged.
    pub fn interpolate_with(&mut self, other: &Gradient, t: u8)
        ensures
            final(self)@.len() == old(self)@.len(),
            old(self)@.len() == other@.len() ==> forall|i: int|
                0 <= i < old(self)@.len() ==> final(self)@[i] == lerp_color(
                    old(self)@[i],
                    other@[i],
                    t,
                ),
            old(self)@.len() != other@.len() ==> final(self)@ == old(self)@,
    {
        if self.colors.len() != other.colors.len() {
            return ;
        }
        let mut i: usize = 0;
        while i < self.colors.len()
            invariant
                i <= self.colors@.len(),
                self.colors@.len() == old(self)@.len() == other@.len(),
                forall|j: int|
                    0 <= j < i ==> self.colors@[j] == lerp_color(old(self)@[j], other@[j], t),
                forall|j: int| i <= j < self.colors@.len() ==> self.colors@[j] == old(self)@[j],
            decreases self.colors@.len() - i,
        {
            let mixed = Color::interpolate(&self.colors[i], &other.colors[i], t);
            self.colors[i] = mixed;
            i = i + 1;
        }
    }

    /// Scales the alpha channel of every stop by `mult` in units of
    /// 1/255.
    pub fn multiply_alpha(&mut self, mult: u8)
        ensures
            final(self)@.len() == old(self)@.len(),
            forall|i: int|
                0 <= i < old(self)@.len() ==> final(self)@[i] == scaled_alpha(
                    old(self)@[i],
                    mult,
                ),
    {
        let mut i: usize = 0;
        while i < self.colors.len()
            invariant
                i <= self.colors@.len(),
                self.colors@.len() == old(self)@.len(),
                forall|j: int| 0 <= j < i ==> self.colors@[j] == scaled_alpha(old(self)@[j], mult),
                forall|j: int| i <= j < self.colors@.len() ==> self.colors@[j] == old(self)@[j],
            decreases self.colors@.len() - i,
        {
            let scaled = scale_alpha(self.colors[i], mult);
            self.colors[i] = scaled;
            i = i + 1;
        }
    }

    /// The stop list itself.
    pub fn raw(&self) -> (r: &Vec<Color>)
        ensures
            r@ == self@,
    {
        &self.colors
    }
}

impl Default for Gradient {
    /// The default gradient is empty.
    fn default() -> (g: Self)
        ensures
            g@ == Seq::<Color>::empty(),
    {
        Gradient::new()
    }
}

impl Clone for Gradient {
    /// A clone holds the same stops.
    fn clone(&self) -> (g: Self)
        ensures
            g@ == self@,
    {
        Gradient::from_colors(self.colors.as_slice())
    }
}

impl PartialEq for Gradient {
    /// Gradients are equal when they hold the same stops in the same
    /// order.
    fn eq(&self, other: &Self) -> (r: bool) {
        if self.colors.len() != other.colors.len() {
            return false;
        }
        let mut i: usize = 0;
        while i < self.colors.len()
            invariant
                i <= self.colors@.len(),
                self.colors@.len() == other.colors@.len(),
                forall|j: int| 0 <= j < i ==> self.colors@[j] == other.colors@[j],
            decreases self.colors@.len() - i,
        {
            if self.colors[i] != other.colors[i] {
                return false;
            }
            i = i + 1;
        }
        proof {
            assert(self@ =~= other@);
        }
        true
    }
}

impl Eq for Gradient {

}

impl vstd::std_specs::cmp::PartialEqSpecImpl for Gradient {
    open spec fn obeys_eq_spec() -> bool {
        true
    }

    open spec fn eq_spec(&self, other: &Self) -> bool {
        self@ == other@
    }
}

} // verus!
