use vstd::prelude::*;

use crate::channel::{after_receive, DeliveryChannel};
use crate::grid::{col_count, grid_dimensions, row_count};
use crate::input::{forward_input, input_bytes, InputEvent};

verus! {

/// The session dimensions after a resize to (`rows`, `cols`), and whether they changed.
pub open spec fn resized(dims: Option<(u16, u16)>, rows: u16, cols: u16) -> (Option<(u16, u16)>, bool) {
    (Some((rows, cols)), dims != Some((rows, cols)))
}

/// What the host must do to the terminal session this frame, in this order: resize it,
/// write the input bytes, then apply the output chunk.
pub struct FrameActions {
    pub resize: Option<(u16, u16)>,
    pub input: Vec<u8>,
    pub output: Option<Vec<u8>>,
}

/// The render loop driver: the one place that, frame by frame, reconciles the drawing
/// area, the keyboard and the shell's output.
pub struct TemplateApp {
    dims: Option<(u16, u16)>,
}

impl TemplateApp {
    /// The (rows, columns) last given to the session, if any.
    pub closed spec fn spec_dims(&self) -> Option<(u16, u16)> {
        self.dims
    }

    /// A driver that has not sized the session yet.
    pub fn new() -> (r: Self)
        ensures
            r.spec_dims() is None,
    {
        TemplateApp { dims: None }
    }

    pub fn dims(&self) -> (r: Option<(u16, u16)>)
        ensures
            r == self.spec_dims(),
    {
        self.dims
    }

    /// Records the dimensions (`rows`, `cols`) and tells whether the session must be
    /// resized: only when they differ from the last ones, so repeating a resize is a no-op.
    pub fn resize(&mut self, rows: u16, cols: u16) -> (changed: bool)
        ensures
            (final(self).spec_dims(), changed) == resized(old(self).spec_dims(), rows, cols),
    {
        let changed = match self.dims {
            Some((r, c)) => !(r == rows && c == cols),
            None => true,
        };
        self.dims = Some((rows, cols));
        changed
    }

    /// Takes at most one chunk from `channel` for the session's grid, however many wait.
    pub fn drain_and_apply(&self, channel: &mut DeliveryChannel) -> (r: Option<Vec<u8>>)
        requires
            old(channel).wf(),
        ensures
            final(channel).wf(),
            final(channel).spec_capacity() == old(channel).spec_capacity(),
            final(channel)@ == after_receive(old(channel)@),
            old(channel)@.len() - final(channel)@.len() <= 1,
            r is None <==> old(channel)@.len() == 0,
            r matches Some(c) ==> c@ == old(channel)@[0],
    {
        channel.try_receive()
    }

    /// One frame: sizes the session to a `width` by `height` pixel area, gathers the
    /// frame's input bytes, and takes at most one pending output chunk.
    pub fn frame(
        &mut self,
        width: u32,
        height: u32,
        events: &Vec<InputEvent>,
        channel: &mut DeliveryChannel,
    ) -> (r: FrameActions)
        requires
            old(channel).wf(),
        ensures
            ({
                let rows = row_count(height as nat) as u16;
                let cols = col_count(width as nat) as u16;
                let (dims, changed) = resized(old(self).spec_dims(), rows, cols);
                &&& final(self).spec_dims() == dims
                &&& r.resize == (if changed { Some((rows, cols)) } else { None::<(u16, u16)> })
            }),
            r.input@ == input_bytes(events@),
            final(channel).wf(),
            final(channel).spec_capacity() == old(channel).spec_capacity(),
            final(channel)@ == after_receive(old(channel)@),
            r.output is None <==> old(channel)@.len() == 0,
            r.output matches Some(c) ==> c@ == old(channel)@[0],
    {
        let (rows, cols) = grid_dimensions(width, height);
        let changed = self.resize(rows, cols);
        let resize = if changed { Some((rows, cols)) } else { None };
        let input = forward_input(events);
        let output = self.drain_and_apply(channel);
        FrameActions { resize, input, output }
    }
}

} // verus!
