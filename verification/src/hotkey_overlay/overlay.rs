//! The overlay itself: whether it is open, and what has been drawn for which output.

use crate::hotkey_overlay::binds;
use crate::hotkey_overlay::binds::{Config, ModKey};
use crate::hotkey_overlay::rows;
use crate::hotkey_overlay::rows::{Reader, SectionRows};
use crate::measure::Measure;
use crate::text;
use std::collections::HashMap;
use vstd::prelude::*;
use vstd::std_specs::hash::*;

verus! {

/// Logical size of an output.
#[derive(Debug, Clone, Copy, PartialEq, Eq, Structural)]
pub struct OutputSize {
    pub w: Measure,
    pub h: Measure,
}

impl OutputSize {
    /// Both extents are the same numbers.
    pub open spec fn same(self, other: OutputSize) -> bool {
        self.w.same(other.w) && self.h.same(other.h)
    }

    pub fn equals(self, other: OutputSize) -> (r: bool)
        ensures
            r == self.same(other),
    {
        self.w.equals(other.w) && self.h.equals(other.h)
    }
}

/// A texture, and the scale it was drawn at.
#[derive(Debug)]
pub struct Drawing<T> {
    pub texture: T,
    pub scale: Measure,
}

/// What came of drawing the overlay for an output.
#[derive(Debug)]
pub struct RenderedOverlay<T> {
    /// Nothing if drawing failed.
    pub buffer: Option<Drawing<T>>,
    /// Output size the overlay was laid out for; the column flow depends on it.
    pub output_size: OutputSize,
}

impl<T> RenderedOverlay<T> {
    /// It can still be shown on an output of this size and scale.
    pub open spec fn current(self, output_size: OutputSize, scale: Measure) -> bool {
        &&& self.output_size.same(output_size)
        &&& match self.buffer {
            Some(drawing) => drawing.scale.same(scale),
            None => true,
        }
    }

    pub fn is_current(&self, output_size: OutputSize, scale: Measure) -> (r: bool)
        ensures
            r == self.current(output_size, scale),
    {
        self.output_size.equals(output_size) && match &self.buffer {
            Some(drawing) => drawing.scale.equals(scale),
            None => true,
        }
    }
}

/// What has to be done to show the overlay on an output.
#[derive(Debug, Clone, Copy, PartialEq, Eq, Structural)]
pub enum RenderStep {
    /// Nothing: it is closed.
    Closed,
    /// What is stored for the output can be shown.
    Stored,
    /// It has to be drawn for the output, and what came of that stored.
    Draw,
}

/// The overlay as a mathematical value.
#[verifier::ext_equal]
pub struct OverlayView<T> {
    pub is_open: bool,
    pub mod_key: ModKey,
    /// What has been drawn, by output.
    pub buffers: Map<u64, RenderedOverlay<T>>,
}

impl<T> OverlayView<T> {
    /// Only what was drawn for these outputs is left.
    pub open spec fn pruned(self, alive: Seq<u64>) -> OverlayView<T> {
        OverlayView { buffers: self.buffers.restrict(alive.to_set()), ..self }
    }

    /// Something is stored that can still be shown on the output.
    pub open spec fn stores(self, output: u64, output_size: OutputSize, scale: Measure) -> bool {
        self.buffers.contains_key(output) && self.buffers[output].current(output_size, scale)
    }

    /// The overlay after it was asked for on an output, and what has to be done then.
    pub open spec fn asked(
        self,
        output: u64,
        output_size: OutputSize,
        scale: Measure,
        alive: Seq<u64>,
    ) -> (OverlayView<T>, RenderStep) {
        let left = self.pruned(alive);
        if !self.is_open {
            (self, RenderStep::Closed)
        } else if left.stores(output, output_size, scale) {
            (left, RenderStep::Stored)
        } else {
            (OverlayView { buffers: left.buffers.remove(output), ..left }, RenderStep::Draw)
        }
    }

    /// The overlay after what came of drawing it was stored.
    pub open spec fn stored(self, output: u64, rendered: RenderedOverlay<T>) -> OverlayView<T> {
        OverlayView { buffers: self.buffers.insert(output, rendered), ..self }
    }

    /// The overlay after a change of the hotkeys.
    pub open spec fn reconfigured(self, mod_key: ModKey) -> OverlayView<T> {
        OverlayView { is_open: self.is_open, mod_key, buffers: Map::empty() }
    }
}

/// The overlay that lists the important hotkeys.
///
/// Outputs go by numbers that are theirs alone; `T` is a texture.
#[derive(Debug)]
pub struct HotkeyOverlay<T> {
    is_open: bool,
    mod_key: ModKey,
    buffers: HashMap<u64, RenderedOverlay<T>>,
}

impl<T> View for HotkeyOverlay<T> {
    type V = OverlayView<T>;

    closed spec fn view(&self) -> OverlayView<T> {
        OverlayView { is_open: self.is_open, mod_key: self.mod_key, buffers: self.buffers@ }
    }
}

proof fn longer_prefix_holds_one_more(ids: Seq<u64>, i: int)
    requires
        0 <= i < ids.len(),
    ensures
        ids.take(i + 1).to_set() == ids.take(i).to_set().insert(ids[i]),
{
    let short = ids.take(i);
    let long = ids.take(i + 1);
    assert forall|id: u64| long.to_set().contains(id) == short.to_set().insert(ids[i]).contains(
        id,
    ) by {
        if short.contains(id) {
            let k = choose|k: int| 0 <= k < short.len() && short[k] == id;
            assert(long[k] == id);
        }
        assert(long[i] == ids[i]);
        if long.contains(id) && id != ids[i] {
            let k = choose|k: int| 0 <= k < long.len() && long[k] == id;
            assert(short[k] == id);
        }
    }
    assert(long.to_set() =~= short.to_set().insert(ids[i]));
}

impl<T> HotkeyOverlay<T> {
    /// A closed overlay.
    pub fn new(mod_key: ModKey) -> (overlay: Self)
        ensures
            overlay@ == (OverlayView { is_open: false, mod_key, buffers: Map::<u64, RenderedOverlay<T>>::empty() }),
    {
        HotkeyOverlay { is_open: false, mod_key, buffers: HashMap::new() }
    }

    /// Opens the overlay; whether that changed anything.
    pub fn show(&mut self) -> (changed: bool)
        ensures
            changed == !old(self)@.is_open,
            final(self)@ == (OverlayView { is_open: true, ..old(self)@ }),
    {
        if !self.is_open {
            self.is_open = true;
            true
        } else {
            false
        }
    }

    /// Closes the overlay; whether that changed anything.
    pub fn hide_overlay(&mut self) -> (changed: bool)
        ensures
            changed == old(self)@.is_open,
            final(self)@ == (OverlayView { is_open: false, ..old(self)@ }),
    {
        if self.is_open {
            self.is_open = false;
            true
        } else {
            false
        }
    }

    pub fn is_open(&self) -> (open: bool)
        ensures
            open == self@.is_open,
    {
        self.is_open
    }

    /// Takes a change of the hotkeys into account: everything has to be drawn anew.
    pub fn on_hotkey_config_updated(&mut self, mod_key: ModKey)
        ensures
            final(self)@ == old(self)@.reconfigured(mod_key),
    {
        self.mod_key = mod_key;
        self.buffers.clear();
    }

    /// Forgets what was drawn for outputs other than these.
    fn retain_alive(&mut self, alive: &Vec<u64>)
        ensures
            final(self)@ == old(self)@.pruned(alive@),
    {
        broadcast use group_hash_axioms;

        let ghost start = self.buffers@;
        let mut rest: HashMap<u64, RenderedOverlay<T>> = HashMap::new();
        let mut left: HashMap<u64, RenderedOverlay<T>> = HashMap::new();
        std::mem::swap(&mut rest, &mut self.buffers);
        let n: usize = alive.len();
        let mut i: usize = 0;
        while i < n
            invariant
                n == alive@.len(),
                i <= n,
                start == old(self)@.buffers,
                self.is_open == old(self)@.is_open,
                self.mod_key == old(self)@.mod_key,
                left@ == start.restrict(alive@.take(i as int).to_set()),
                rest@ == start.remove_keys(alive@.take(i as int).to_set()),
            decreases n - i,
        {
            broadcast use group_hash_axioms;

            let output: u64 = alive[i];
            let ghost before = alive@.take(i as int).to_set();
            let ghost after = alive@.take(i + 1).to_set();
            proof {
                longer_prefix_holds_one_more(alive@, i as int);
            }
            if let Some(rendered) = rest.remove(&output) {
                left.insert(output, rendered);
            }
            assert(left@ =~= start.restrict(after));
            assert(rest@ =~= start.remove_keys(after));
            i = i + 1;
        }
        assert(alive@.take(n as int) =~= alive@);
        self.buffers = left;
    }

    /// Asks for the overlay on an output of the given size and scale; `alive` are the outputs that
    /// still exist. What is stored for others is forgotten, and so is what is stored for this one
    /// if the output's size or scale is no longer what it was drawn for.
    pub fn render(
        &mut self,
        output: u64,
        output_size: OutputSize,
        scale: Measure,
        alive: &Vec<u64>,
    ) -> (step: RenderStep)
        ensures
            (final(self)@, step) == old(self)@.asked(output, output_size, scale, alive@),
    {
        broadcast use group_hash_axioms;

        if !self.is_open {
            return RenderStep::Closed;
        }
        self.retain_alive(alive);
        let current: bool = match self.buffers.get(&output) {
            Some(rendered) => rendered.is_current(output_size, scale),
            None => false,
        };
        if current {
            RenderStep::Stored
        } else {
            let ghost before = self.buffers@;
            self.buffers.remove(&output);
            assert(self.buffers@ =~= before.remove(output));
            RenderStep::Draw
        }
    }

    /// Stores what came of drawing the overlay for an output: a drawing, or nothing if it failed.
    pub fn store(&mut self, output: u64, output_size: OutputSize, buffer: Option<Drawing<T>>)
        ensures
            final(self)@ == old(self)@.stored(output, (RenderedOverlay { buffer, output_size })),
    {
        broadcast use group_hash_axioms;

        self.buffers.insert(output, RenderedOverlay { buffer, output_size });
    }

    /// The drawing stored for an output.
    pub fn buffer(&self, output: u64) -> (drawing: Option<&Drawing<T>>)
        ensures
            match drawing {
                Some(drawing) => self@.buffers.contains_key(output)
                    && self@.buffers[output].buffer == Some(*drawing),
                None => self@.buffers.contains_key(output) ==> self@.buffers[output].buffer is None,
            },
    {
        broadcast use group_hash_axioms;

        match self.buffers.get(&output) {
            Some(rendered) => rendered.buffer.as_ref(),
            None => None,
        }
    }

    /// The rows to draw.
    pub fn rows(&self, config: &Config) -> (list: Vec<SectionRows>)
        ensures
            rows::section_rows_views(list@) == rows::overlay_rows_of(
                binds::bind_views(config.binds@),
                config.hide_not_bound,
                Reader { screen_reader: false, mod_key: self@.mod_key },
            ),
    {
        rows::overlay_rows(config, Reader { screen_reader: false, mod_key: self.mod_key })
    }

    /// The titles of the rows that [`Self::a11y_text`] reads out, as markup.
    pub fn a11y_titles(&self, config: &Config) -> (titles: Vec<String>)
        ensures
            text::texts(titles@) == rows::titles_of(
                rows::overlay_rows_of(
                    binds::bind_views(config.binds@),
                    config.hide_not_bound,
                    Reader { screen_reader: true, mod_key: self@.mod_key },
                ),
            ),
    {
        let list: Vec<SectionRows> = rows::overlay_rows(
            config,
            Reader { screen_reader: true, mod_key: self.mod_key },
        );
        rows::markup_titles(&list)
    }

    /// The overlay for a screen reader. `plain` holds, row by row, what the row's title reads
    /// without its markup, or nothing where the markup could not be parsed.
    pub fn a11y_text(&self, config: &Config, plain: &Vec<Option<String>>) -> (said: String)
        ensures
            said@ == rows::a11y_of(
                rows::overlay_rows_of(
                    binds::bind_views(config.binds@),
                    config.hide_not_bound,
                    Reader { screen_reader: true, mod_key: self@.mod_key },
                ),
                plain@,
            ),
    {
        let list: Vec<SectionRows> = rows::overlay_rows(
            config,
            Reader { screen_reader: true, mod_key: self.mod_key },
        );
        rows::a11y_text(&list, plain)
    }
}

/// What was drawn for an output is shown until the output's size or scale changes: asking again
/// calls for no drawing and keeps what is stored.
pub proof fn drawing_is_kept<T>(
    overlay: OverlayView<T>,
    output: u64,
    rendered: RenderedOverlay<T>,
    output_size: OutputSize,
    scale: Measure,
    alive: Seq<u64>,
)
    requires
        overlay.is_open,
        alive.contains(output),
    ensures
        ({
            let (after, step) = overlay.stored(output, rendered).asked(
                output,
                output_size,
                scale,
                alive,
            );
            if rendered.current(output_size, scale) {
                &&& step == RenderStep::Stored
                &&& after.buffers.contains_key(output)
                &&& after.buffers[output] == rendered
            } else {
                step == RenderStep::Draw
            }
        }),
{
}

/// Asking for the overlay on one output leaves alone what is stored for other outputs that still
/// exist, and stores nothing for any.
pub proof fn asking_leaves_other_outputs<T>(
    overlay: OverlayView<T>,
    output: u64,
    output_size: OutputSize,
    scale: Measure,
    alive: Seq<u64>,
    other: u64,
)
    requires
        other != output,
        alive.contains(other),
    ensures
        ({
            let after = overlay.asked(output, output_size, scale, alive).0;
            &&& after.buffers.contains_key(other) == overlay.buffers.contains_key(other)
            &&& overlay.buffers.contains_key(other) ==> after.buffers[other]
                == overlay.buffers[other]
        }),
{
}

/// While the overlay is open, nothing is stored for an output that no longer exists once the
/// overlay has been asked for.
pub proof fn dead_outputs_are_forgotten<T>(
    overlay: OverlayView<T>,
    output: u64,
    output_size: OutputSize,
    scale: Measure,
    alive: Seq<u64>,
    dead: u64,
)
    requires
        overlay.is_open,
        !alive.contains(dead),
    ensures
        !overlay.asked(output, output_size, scale, alive).0.buffers.contains_key(dead),
{
}

/// After a change of the hotkeys the overlay, if open, has to be drawn anew for every output.
pub proof fn reconfigured_overlay_is_drawn_anew<T>(
    overlay: OverlayView<T>,
    mod_key: ModKey,
    output: u64,
    output_size: OutputSize,
    scale: Measure,
    alive: Seq<u64>,
)
    ensures
        overlay.reconfigured(mod_key).asked(output, output_size, scale, alive).1
            == if overlay.is_open {
            RenderStep::Draw
        } else {
            RenderStep::Closed
        },
{
}

/// What was drawn is still good exactly for an output of the same width and height, and of the
/// scale of the drawing, if there is one.
pub proof fn drawings_go_with_size_and_scale<T>(
    rendered: RenderedOverlay<T>,
    output_size: OutputSize,
    scale: Measure,
)
    ensures
        rendered.current(output_size, scale) <==> !rendered.output_size.w.nan()
            && !output_size.w.nan() && rendered.output_size.w.rank() == output_size.w.rank()
            && !rendered.output_size.h.nan() && !output_size.h.nan()
            && rendered.output_size.h.rank() == output_size.h.rank() && (
        rendered.buffer matches Some(drawing) ==> !drawing.scale.nan() && !scale.nan()
            && drawing.scale.rank() == scale.rank()),
{
}

/// Asking for the overlay: nothing happens while it is closed; else outputs that no longer exist
/// are forgotten, and what is stored for this one is used if it is still good and dropped if not.
/// Neither opens or closes the overlay nor changes its modifier.
pub proof fn asking_goes_by_what_is_stored<T>(
    overlay: OverlayView<T>,
    output: u64,
    output_size: OutputSize,
    scale: Measure,
    alive: Seq<u64>,
    id: u64,
)
    ensures
        ({
            let (after, step) = overlay.asked(output, output_size, scale, alive);
            let good = alive.contains(output) && overlay.buffers.contains_key(output)
                && overlay.buffers[output].current(output_size, scale);
            &&& after.is_open == overlay.is_open
            &&& after.mod_key == overlay.mod_key
            &&& !overlay.is_open ==> step is Closed && after.buffers == overlay.buffers
            &&& overlay.is_open ==> (step is Stored <==> good) && (step is Draw <==> !good)
            &&& overlay.is_open ==> (after.buffers.contains_key(id) <==> alive.contains(id)
                && overlay.buffers.contains_key(id) && (id == output ==> good))
            &&& after.buffers.contains_key(id) ==> after.buffers[id] == overlay.buffers[id]
        }),
{
}

/// Storing what came of drawing for one output leaves the others alone.
pub proof fn storing_replaces_one_output<T>(
    overlay: OverlayView<T>,
    output: u64,
    rendered: RenderedOverlay<T>,
    other: u64,
)
    ensures
        ({
            let after = overlay.stored(output, rendered);
            &&& after.is_open == overlay.is_open && after.mod_key == overlay.mod_key
            &&& after.buffers.contains_key(output) && after.buffers[output] == rendered
            &&& other != output ==> (after.buffers.contains_key(other)
                <==> overlay.buffers.contains_key(other)) && (overlay.buffers.contains_key(other)
                ==> after.buffers[other] == overlay.buffers[other])
        }),
{
}

/// A change of the hotkeys takes the new modifier, forgets every drawing, and leaves the overlay
/// open or closed.
pub proof fn reconfiguring_forgets_all_drawings<T>(
    overlay: OverlayView<T>,
    mod_key: ModKey,
    output: u64,
)
    ensures
        overlay.reconfigured(mod_key).is_open == overlay.is_open,
        overlay.reconfigured(mod_key).mod_key == mod_key,
        !overlay.reconfigured(mod_key).buffers.contains_key(output),
{
}

} // verus!
