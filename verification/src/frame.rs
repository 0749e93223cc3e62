//! The frame loop's decisions: one call per frame takes the input, runs the
//! three controllers in order, and says what to draw.
use vstd::prelude::*;
use crate::camera::{CameraState, Point};
use crate::input::FrameInput;
use crate::interaction::InteractionState;
use crate::pan::{pan_applied, pan_settled, update_pan};
use crate::spotlight::{
    dispatch_scroll, engage_pulse, plain_background, plain_color, pulse_started, radius_advanced,
    route_for, route_scroll, scroll_routed, shader_uniforms, spotlight_tint, tint_color,
    uniforms_for, update_radius, Rgba, ShaderUniforms,
};
use crate::zoom::{
    pick_pivot, pivot_for, scroll_amount, scroll_total, update_zoom, zoom_applied, zoom_settled,
};

verus! {

/// The camera and the interaction state, owned by the frame loop.
#[derive(Clone, Copy, Debug, PartialEq, Eq, Structural)]
pub struct Viewport {
    pub camera: CameraState,
    pub interaction: InteractionState,
}

/// What the frame loop does after a step.
#[derive(Clone, Copy, Debug, PartialEq, Eq, Structural)]
pub enum FrameAction {
    /// Leave the loop.
    Exit,
    /// Clear to `background` and draw the image through `camera`.
    Draw { camera: CameraState, background: Rgba },
    /// Clear to `background`, hand `uniforms` to the spotlight shader, and
    /// draw the image through `camera` and the shader.
    DrawSpotlight { camera: CameraState, background: Rgba, uniforms: ShaderUniforms },
}

/// Whether the spotlight is shown this frame: exactly when a spotlight key is
/// held.
pub open spec fn spotlight_shown(input: FrameInput) -> bool {
    input.spotlight_down.either()
}

/// Whether the frame ends the loop: exactly when the secondary pointer button
/// is held.
pub open spec fn exit_requested(input: FrameInput) -> bool {
    input.secondary_down
}

/// The frame's signed scroll input.
pub open spec fn scroll_of(input: FrameInput) -> i64 {
    scroll_total(input.wheel as int, input.zoom_in_down, input.zoom_out_down)
}

/// The interaction state after the frame's input went in. A spotlight key
/// that just went down starts the pulse. Scroll input other than zero goes
/// down its route and sets the pivot: to the centre of the screen when a zoom
/// key is held, else to the mouse.
pub open spec fn input_received(state: InteractionState, input: FrameInput) -> InteractionState {
    let pulsed = if input.spotlight_pressed.either() {
        pulse_started(state)
    } else {
        state
    };
    let amount = scroll_of(input);
    if amount != 0 {
        let routed = scroll_routed(
            pulsed,
            amount as int,
            route_for(input.spotlight_down.either(), input.fine_down.either()),
        );
        InteractionState {
            zoom_velocity: routed.zoom_velocity,
            zoom_pivot: pivot_for(
                input.zoom_in_down || input.zoom_out_down,
                input.mouse,
                input.screen.center_point(),
            ),
            pan_velocity: routed.pan_velocity,
            spotlight_radius: routed.spotlight_radius,
            spotlight_radius_velocity: routed.spotlight_radius_velocity,
        }
    } else {
        pulsed
    }
}

/// What the frame loop does with the state that a step left.
pub open spec fn action_for(after: Viewport, input: FrameInput) -> FrameAction {
    if exit_requested(input) {
        FrameAction::Exit
    } else if spotlight_shown(input) {
        FrameAction::DrawSpotlight {
            camera: after.camera,
            background: tint_color(),
            uniforms: uniforms_for(after.interaction, input.mouse, input.screen),
        }
    } else {
        FrameAction::Draw { camera: after.camera, background: plain_color() }
    }
}

impl Viewport {
    /// Zoom and spotlight radius lie in their ranges.
    pub open spec fn wf(self) -> bool {
        self.camera.wf() && self.interaction.wf()
    }

    /// The state before the first frame: zoom 1.0 on `target`, everything at
    /// rest.
    pub fn new(target: Point, mouse: Point) -> (viewport: Viewport)
        ensures
            viewport == (Viewport {
                camera: CameraState { target, zoom: crate::camera::ZOOM_MIN },
                interaction: InteractionState::neutral(mouse),
            }),
            viewport.wf(),
    {
        Viewport { camera: CameraState::new(target), interaction: InteractionState::new(mouse) }
    }

    /// Whether zoom and spotlight radius lie in their ranges.
    pub fn is_valid(&self) -> (ok: bool)
        ensures
            ok == self.wf(),
    {
        self.camera.is_valid() && self.interaction.is_valid()
    }

    /// The state after one frame. A frame that ends the loop changes
    /// nothing. Any other takes the input in, then runs the zoom controller,
    /// the radius animation and the pan controller, in that order.
    pub open spec fn stepped(self, input: FrameInput) -> Viewport {
        if exit_requested(input) {
            self
        } else {
            let received = input_received(self.interaction, input);
            let center = input.screen.center_point();
            let zoomed = zoom_applied(self.camera, received, center, input.dt as int);
            let settled = radius_advanced(zoom_settled(received, input.dt as int), input.dt as int);
            Viewport {
                camera: pan_applied(zoomed, settled, input),
                interaction: pan_settled(zoomed, settled, input),
            }
        }
    }

    /// The state after a run of frames, one input each.
    pub open spec fn ran(self, inputs: Seq<FrameInput>) -> Viewport
        decreases inputs.len(),
    {
        if inputs.len() == 0 {
            self
        } else {
            self.ran(inputs.drop_last()).stepped(inputs.last())
        }
    }

    /// Takes the frame's input into the interaction state.
    pub fn receive(&mut self, input: &FrameInput)
        ensures
            final(self).interaction == input_received(old(self).interaction, *input),
            final(self).camera == old(self).camera,
            old(self).interaction.wf() ==> final(self).interaction.wf(),
    {
        if input.spotlight_pressed.any() {
            engage_pulse(&mut self.interaction);
        }
        let amount = scroll_amount(input.wheel, input.zoom_in_down, input.zoom_out_down);
        if amount != 0 {
            let route = route_scroll(input.spotlight_down.any(), input.fine_down.any());
            dispatch_scroll(&mut self.interaction, amount, route);
            self.interaction.zoom_pivot = pick_pivot(
                input.zoom_in_down || input.zoom_out_down,
                input.mouse,
                input.screen.center(),
            );
        }
    }

    /// Runs one frame and says what the loop does next.
    pub fn step(&mut self, input: &FrameInput) -> (action: FrameAction)
        requires
            old(self).wf(),
        ensures
            *final(self) == old(self).stepped(*input),
            action == action_for(*final(self), *input),
            final(self).wf(),
    {
        if input.secondary_down {
            return FrameAction::Exit;
        }
        self.receive(input);
        update_zoom(&mut self.camera, &mut self.interaction, input.screen.center(), input.dt);
        update_radius(&mut self.interaction, input.dt);
        update_pan(&mut self.camera, &mut self.interaction, input);
        if input.spotlight_down.any() {
            FrameAction::DrawSpotlight {
                camera: self.camera,
                background: spotlight_tint(),
                uniforms: shader_uniforms(&self.interaction, input.mouse, input.screen),
            }
        } else {
            FrameAction::Draw { camera: self.camera, background: plain_background() }
        }
    }
}

/// All of `inputs` are quiet frames of `dt` microseconds.
pub open spec fn all_quiet(inputs: Seq<FrameInput>, dt: u32) -> bool {
    forall|i: int| 0 <= i < inputs.len() ==> (#[trigger] inputs[i]).is_quiet() && inputs[i].dt == dt
}

/// Range invariant of one frame: whatever the input and the frame time, a
/// step leaves the zoom factor in `[ZOOM_MIN, ZOOM_MAX]` and the spotlight
/// radius in `[RADIUS_MIN, RADIUS_MAX]`.
pub proof fn lemma_step_keeps_ranges(viewport: Viewport, input: FrameInput)
    requires
        viewport.wf(),
    ensures
        viewport.stepped(input).wf(),
{
}

/// Range invariant of a run: after any sequence of inputs the zoom factor and
/// the spotlight radius are still in their ranges.
pub proof fn lemma_run_keeps_ranges(viewport: Viewport, inputs: Seq<FrameInput>)
    requires
        viewport.wf(),
    ensures
        viewport.ran(inputs).wf(),
    decreases inputs.len(),
{
    if inputs.len() > 0 {
        lemma_run_keeps_ranges(viewport, inputs.drop_last());
        lemma_step_keeps_ranges(viewport.ran(inputs.drop_last()), inputs.last());
    }
}

/// The spotlight pulse: in a frame in which a spotlight key goes down, the
/// radius animation starts from the pulse's radius, and without scroll input
/// from the pulse's velocity, so that radius and radius velocity after the
/// frame do not depend on what they were before it.
pub proof fn lemma_pulse_overrides(viewport: Viewport, other: Viewport, input: FrameInput)
    requires
        input.spotlight_pressed.either(),
        !exit_requested(input),
    ensures
        input_received(viewport.interaction, input).spotlight_radius
            == crate::spotlight::PULSE_RADIUS,
        scroll_of(input) == 0 ==> input_received(
            viewport.interaction,
            input,
        ).spotlight_radius_velocity == crate::spotlight::PULSE_VELOCITY,
        viewport.stepped(input).interaction.spotlight_radius == other.stepped(
            input,
        ).interaction.spotlight_radius,
        viewport.stepped(input).interaction.spotlight_radius_velocity == other.stepped(
            input,
        ).interaction.spotlight_radius_velocity,
{
}

/// A quiet frame lets the zoom velocity and the radius velocity decay by one
/// step each, keeps the pivot, and slows the pan velocity while that is above
/// the momentum threshold.
pub proof fn lemma_quiet_frame(viewport: Viewport, input: FrameInput)
    requires
        input.is_quiet(),
    ensures
        viewport.stepped(input).interaction.zoom_velocity == crate::fixed::decayed(
            viewport.interaction.zoom_velocity as int,
            input.dt as int,
            crate::zoom::ZOOM_DECAY_RATE as int,
        ),
        viewport.stepped(input).interaction.spotlight_radius_velocity == crate::fixed::decayed(
            viewport.interaction.spotlight_radius_velocity as int,
            input.dt as int,
            crate::spotlight::RADIUS_DECAY_RATE as int,
        ),
        viewport.stepped(input).interaction.zoom_pivot == viewport.interaction.zoom_pivot,
        viewport.stepped(input).interaction.pan_velocity == if crate::pan::has_momentum(
            viewport.interaction.pan_velocity,
        ) {
            crate::pan::slowed(viewport.interaction.pan_velocity, input.dt as int)
        } else {
            viewport.interaction.pan_velocity
        },
{
    assert(scroll_of(input) == 0);
}

/// Over a run of quiet frames of equal length the zoom velocity and the
/// radius velocity are what that many decay steps leave of them.
pub proof fn lemma_quiet_run(viewport: Viewport, inputs: Seq<FrameInput>, dt: u32)
    requires
        all_quiet(inputs, dt),
    ensures
        viewport.ran(inputs).interaction.zoom_velocity == crate::fixed::decayed_for(
            viewport.interaction.zoom_velocity as int,
            dt as int,
            crate::zoom::ZOOM_DECAY_RATE as int,
            inputs.len(),
        ),
        viewport.ran(inputs).interaction.spotlight_radius_velocity == crate::fixed::decayed_for(
            viewport.interaction.spotlight_radius_velocity as int,
            dt as int,
            crate::spotlight::RADIUS_DECAY_RATE as int,
            inputs.len(),
        ),
    decreases inputs.len(),
{
    if inputs.len() > 0 {
        let earlier = inputs.drop_last();
        assert forall|i: int| 0 <= i < earlier.len() implies (#[trigger] earlier[i]).is_quiet()
            && earlier[i].dt == dt by {
            assert(earlier[i] == inputs[i]);
        }
        lemma_quiet_run(viewport, earlier, dt);
        assert(inputs.last() == inputs[inputs.len() - 1]);
        lemma_quiet_frame(viewport.ran(earlier), inputs.last());
    }
}

/// Decay convergence: with no further input, at a frame time between 1/64 s
/// and 1/4 s, a zoom velocity and a radius velocity of at most 100 000 units
/// per second are below a thousandth of a unit per second after 300 frames,
/// and stay there.
pub proof fn lemma_velocities_settle(viewport: Viewport, inputs: Seq<FrameInput>, dt: u32)
    requires
        all_quiet(inputs, dt),
        15_625 <= dt <= 250_000,
        inputs.len() >= 300,
        crate::fixed::magnitude(viewport.interaction.zoom_velocity as int) <= 100_000
            * crate::fixed::MICRO,
        crate::fixed::magnitude(viewport.interaction.spotlight_radius_velocity as int) <= 100_000
            * crate::fixed::MICRO,
    ensures
        crate::fixed::magnitude(viewport.ran(inputs).interaction.zoom_velocity as int) < 1_000,
        crate::fixed::magnitude(viewport.ran(inputs).interaction.spotlight_radius_velocity as int)
            < 1_000,
{
    lemma_quiet_run(viewport, inputs, dt);
    crate::fixed::lemma_decay_settles(
        viewport.interaction.zoom_velocity as int,
        dt as int,
        crate::zoom::ZOOM_DECAY_RATE as int,
        inputs.len(),
    );
    crate::fixed::lemma_decay_settles(
        viewport.interaction.spotlight_radius_velocity as int,
        dt as int,
        crate::spotlight::RADIUS_DECAY_RATE as int,
        inputs.len(),
    );
}

/// No input in `inputs` holds the primary pointer button.
pub open spec fn none_dragging(inputs: Seq<FrameInput>) -> bool {
    forall|i: int| 0 <= i < inputs.len() ==> !(#[trigger] inputs[i]).primary_down
}

/// The momentum cutoff is final: once the pan velocity is at or below the
/// threshold it stays what it is over any run of frames without dragging,
/// whatever else the input holds, so momentum never moves the target again.
pub proof fn lemma_cutoff_is_final(viewport: Viewport, inputs: Seq<FrameInput>)
    requires
        none_dragging(inputs),
        !crate::pan::has_momentum(viewport.interaction.pan_velocity),
    ensures
        viewport.ran(inputs).interaction.pan_velocity == viewport.interaction.pan_velocity,
    decreases inputs.len(),
{
    if inputs.len() > 0 {
        let earlier = inputs.drop_last();
        assert forall|i: int| 0 <= i < earlier.len() implies !(#[trigger] earlier[i]).primary_down by {
            assert(earlier[i] == inputs[i]);
        }
        lemma_cutoff_is_final(viewport, earlier);
        assert(inputs.last() == inputs[inputs.len() - 1]);
    }
}

/// Rest is stable: with the pan velocity at or below the momentum threshold
/// and the zoom velocity inside the dead zone, a quiet frame of at most 1/4 s
/// moves neither the target nor the zoom factor, and leaves both velocities
/// where a further quiet frame does the same.
pub proof fn lemma_rest_persists(viewport: Viewport, input: FrameInput)
    requires
        input.is_quiet(),
        input.dt <= 250_000,
        !crate::pan::has_momentum(viewport.interaction.pan_velocity),
        !crate::zoom::zoom_engaged(viewport.interaction.zoom_velocity as int),
    ensures
        viewport.stepped(input).camera == viewport.camera,
        viewport.stepped(input).interaction.pan_velocity == viewport.interaction.pan_velocity,
        !crate::zoom::zoom_engaged(viewport.stepped(input).interaction.zoom_velocity as int),
{
    lemma_quiet_frame(viewport, input);
    crate::fixed::lemma_decay_toward_zero(
        viewport.interaction.zoom_velocity as int,
        input.dt as int,
        crate::zoom::ZOOM_DECAY_RATE as int,
    );
    let received = input_received(viewport.interaction, input);
    let settled = radius_advanced(zoom_settled(received, input.dt as int), input.dt as int);
    crate::pan::lemma_momentum_cutoff(viewport.camera, settled, input);
}

} // verus!
