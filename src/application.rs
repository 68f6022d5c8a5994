//! The application: its lifecycle, and what it does with each event.
//!
//! The platform loop belongs to the embedding program. For each event it calls
//! [`Application::process_event`] and carries out the returned [`LoopStep`]: it
//! reconfigures the surface, draws the frames, and stops when told to.
use vstd::prelude::*;
use crate::events::{ApplicationEvent, Event};
use crate::layers::{handler_of, layer_asked, overlay_asked, scenes_of, updated, Layer, LayerSlot, LayerStack};
use crate::renderer::frame::{frame_commands, frame_error, names_after, FrameError, FramePlanner, RenderCommand};
use crate::renderer::SceneSnapshot;
use crate::window::WindowProps;

verus! {

/// `Created`, then `Running` once the loop starts, then `Closing` for good once the
/// window is closed.
#[derive(Debug, Clone, Copy, PartialEq, Eq, Structural)]
pub enum AppState {
    Created,
    Running,
    Closing,
}

/// The state after `event`: closing the window closes the application, from any
/// state; nothing else changes the state.
pub open spec fn state_after(state: AppState, event: Event) -> AppState {
    if state == AppState::Closing || event.is_window_closed() {
        AppState::Closing
    } else {
        state
    }
}

/// The surface size to configure after `event`, when it is a resize.
pub open spec fn resize_of(event: Event) -> Option<[u32; 2]> {
    match event {
        Event::ApplicationEvent(ApplicationEvent::WindowResized { width, height }) => Some([width, height]),
        _ => None,
    }
}

/// Closing the window ends the loop, whatever the state and whatever the layers do with
/// the event; and it is the only event that does.
pub proof fn lemma_window_closed_ends_loop(state: AppState, event: Event)
    ensures
        state_after(state, Event::ApplicationEvent(ApplicationEvent::WindowClosed)) == AppState::Closing,
        state != AppState::Closing && state_after(state, event) == AppState::Closing ==> event.is_window_closed(),
        state == AppState::Closing ==> state_after(state, event) == AppState::Closing,
{
}

/// The entries the event meets at dispatch: updated first when the event is a render
/// request, as they were otherwise.
pub open spec fn before_dispatch<L: Layer>(s: Seq<L>, event: Event) -> Seq<L> {
    if event.is_render_requested() {
        updated(s)
    } else {
        s
    }
}

/// The scenes of `frames`, in order.
pub open spec fn frame_scenes(frames: Seq<Frame>) -> Seq<SceneSnapshot> {
    frames.map_values(|f: Frame| f.scene)
}

/// One frame to draw: the scene it shows and the commands that draw it.
#[derive(Debug)]
pub struct Frame {
    pub scene: SceneSnapshot,
    pub commands: Result<Vec<RenderCommand>, FrameError>,
}

/// The cached texture names after planning `frames` in order, starting from `names`.
pub open spec fn names_after_frames(names: Seq<Seq<char>>, frames: Seq<Frame>) -> Seq<Seq<char>>
    decreases frames.len(),
{
    if frames.len() == 0 {
        names
    } else {
        let before = names_after_frames(names, frames.drop_last());
        match frames.last().commands {
            Ok(_) => names_after(before, frames.last().scene.renderables@),
            Err(_) => before,
        }
    }
}

/// Whether each of `frames` holds the plan for its objects, made in order from a cache
/// that starts out holding `names`.
pub open spec fn frames_planned(names: Seq<Seq<char>>, frames: Seq<Frame>) -> bool
    decreases frames.len(),
{
    frames.len() == 0 || {
        let before = names_after_frames(names, frames.drop_last());
        &&& frames_planned(names, frames.drop_last())
        &&& match frames.last().commands {
            Ok(commands) => frame_error(before, frames.last().scene.renderables@) is None
                && commands@ == frame_commands(before, frames.last().scene.renderables@),
            Err(e) => frame_error(before, frames.last().scene.renderables@) == Some(e),
        }
    }
}

/// What the loop must do after one event.
#[derive(Debug)]
pub struct LoopStep {
    /// Stop the loop.
    pub exit: bool,
    /// Reconfigure the swap surface to this size before the next frame.
    pub resize_surface: Option<[u32; 2]>,
    /// Draw these frames, in order.
    pub frames: Vec<Frame>,
    /// The layer or overlay that consumed the event, if any.
    pub handled_by: Option<LayerSlot>,
}

/// The application: its layers, the frame planner with its texture cache, and its
/// lifecycle state.
pub struct Application<L> {
    layerstack: LayerStack<L>,
    planner: FramePlanner,
    window_props: WindowProps,
    state: AppState,
}

impl<L: Layer> Application<L> {
    pub closed spec fn state_view(&self) -> AppState {
        self.state
    }

    pub closed spec fn props(&self) -> WindowProps {
        self.window_props
    }

    pub closed spec fn stack(&self) -> LayerStack<L> {
        self.layerstack
    }

    /// The names of the textures that the frames planned so far upload.
    pub closed spec fn cached_textures(&self) -> Seq<Seq<char>> {
        self.planner.cached()
    }

    pub closed spec fn wf(&self) -> bool {
        self.planner.wf()
    }

    pub fn new(window_props: WindowProps) -> (r: Self)
        ensures
            r.wf(),
            r.props() == window_props,
            r.state_view() == AppState::Created,
            r.stack().layers_view() == Seq::<L>::empty(),
            r.stack().overlays_view() == Seq::<L>::empty(),
            r.cached_textures() == Seq::<Seq<char>>::empty(),
    {
        Application { layerstack: LayerStack::new(), planner: FramePlanner::new(), window_props, state: AppState::Created }
    }

    pub fn push_layer(&mut self, layer: L)
        ensures
            final(self).stack().layers_view() == old(self).stack().layers_view().push(layer),
            final(self).stack().overlays_view() == old(self).stack().overlays_view(),
            final(self).state_view() == old(self).state_view(),
            final(self).cached_textures() == old(self).cached_textures(),
            final(self).wf() == old(self).wf(),
    {
        self.layerstack.push_layer(layer);
    }

    pub fn push_overlay(&mut self, overlay: L)
        ensures
            final(self).stack().overlays_view() == old(self).stack().overlays_view().push(overlay),
            final(self).stack().layers_view() == old(self).stack().layers_view(),
            final(self).state_view() == old(self).state_view(),
            final(self).cached_textures() == old(self).cached_textures(),
            final(self).wf() == old(self).wf(),
    {
        self.layerstack.push_overlay(overlay);
    }

    /// Starts the loop: a created application is running from now on.
    pub fn start(&mut self)
        ensures
            final(self).state_view() == (if old(self).state_view() == AppState::Created {
                AppState::Running
            } else {
                old(self).state_view()
            }),
            final(self).stack() == old(self).stack(),
            final(self).cached_textures() == old(self).cached_textures(),
            final(self).wf() == old(self).wf(),
    {
        if self.state == AppState::Created {
            self.state = AppState::Running;
        }
    }

    pub fn state(&self) -> (r: AppState)
        ensures
            r == self.state_view(),
    {
        self.state
    }

    pub fn window_props(&self) -> (r: &WindowProps)
        ensures
            *r == self.props(),
    {
        &self.window_props
    }

    pub fn layer_stack(&self) -> (r: &LayerStack<L>)
        ensures
            *r == self.stack(),
    {
        &self.layerstack
    }

    /// Plans one frame for each layer, then each overlay, that exposes a scene.
    fn render_scenes(&mut self) -> (r: Vec<Frame>)
        requires
            old(self).wf(),
        ensures
            final(self).wf(),
            final(self).state_view() == old(self).state_view(),
            final(self).stack() == old(self).stack(),
            frame_scenes(r@) == scenes_of(old(self).stack().layers_view()) + scenes_of(
                old(self).stack().overlays_view(),
            ),
            frames_planned(old(self).cached_textures(), r@),
            final(self).cached_textures() == names_after_frames(old(self).cached_textures(), r@),
    {
        let ghost layers = self.layerstack.layers_view();
        let ghost overlays = self.layerstack.overlays_view();
        let mut frames: Vec<Frame> = Vec::new();
        assert(frame_scenes(frames@) =~= scenes_of(layers.take(0)));
        let mut i: usize = 0;
        while i < self.layerstack.layers().len()
            invariant
                i <= layers.len(),
                layers == old(self).stack().layers_view(),
                overlays == old(self).stack().overlays_view(),
                self.wf(),
                self.state == old(self).state,
                self.layerstack == old(self).layerstack,
                frame_scenes(frames@) == scenes_of(layers.take(i as int)),
                frames_planned(old(self).cached_textures(), frames@),
                self.cached_textures() == names_after_frames(old(self).cached_textures(), frames@),
            decreases self.layerstack.layers_view().len() - i,
        {
            let ghost frames0 = frames@;
            let scene = self.layerstack.layers()[i].as_scene();
            proof {
                assert(layers.take(i + 1).drop_last() =~= layers.take(i as int));
                assert(layers.take(i + 1).last() == layers[i as int]);
            }
            if let Some(scene) = scene {
                let frame = self.plan(scene);
                frames.push(frame);
                assert(frames@.drop_last() == frames0);
                assert(frame_scenes(frames@) =~= frame_scenes(frames0).push(frames@.last().scene));
            }
            i = i + 1;
        }
        assert(layers.take(i as int) =~= layers);
        assert(scenes_of(layers) + scenes_of(overlays.take(0)) =~= scenes_of(layers));
        let mut k: usize = 0;
        while k < self.layerstack.overlays().len()
            invariant
                k <= overlays.len(),
                layers == old(self).stack().layers_view(),
                overlays == old(self).stack().overlays_view(),
                self.wf(),
                self.state == old(self).state,
                self.layerstack == old(self).layerstack,
                frame_scenes(frames@) == scenes_of(layers) + scenes_of(overlays.take(k as int)),
                frames_planned(old(self).cached_textures(), frames@),
                self.cached_textures() == names_after_frames(old(self).cached_textures(), frames@),
            decreases self.layerstack.overlays_view().len() - k,
        {
            let ghost frames0 = frames@;
            let scene = self.layerstack.overlays()[k].as_scene();
            proof {
                assert(overlays.take(k + 1).drop_last() =~= overlays.take(k as int));
                assert(overlays.take(k + 1).last() == overlays[k as int]);
            }
            if let Some(scene) = scene {
                let frame = self.plan(scene);
                frames.push(frame);
                assert(frames@.drop_last() == frames0);
                assert(frame_scenes(frames@) =~= frame_scenes(frames0).push(frames@.last().scene));
                assert(scenes_of(layers) + scenes_of(overlays.take(k + 1)) =~= (scenes_of(layers) + scenes_of(
                    overlays.take(k as int),
                )).push(scene));
            }
            k = k + 1;
        }
        assert(overlays.take(k as int) =~= overlays);
        frames
    }

    /// Plans the frame of one scene.
    fn plan(&mut self, scene: SceneSnapshot) -> (r: Frame)
        requires
            old(self).wf(),
        ensures
            final(self).wf(),
            final(self).state_view() == old(self).state_view(),
            final(self).stack() == old(self).stack(),
            r.scene == scene,
            match r.commands {
                Ok(commands) => frame_error(old(self).cached_textures(), scene.renderables@) is None
                    && commands@ == frame_commands(old(self).cached_textures(), scene.renderables@)
                    && final(self).cached_textures() == names_after(old(self).cached_textures(), scene.renderables@),
                Err(e) => frame_error(old(self).cached_textures(), scene.renderables@) == Some(e)
                    && final(self).cached_textures() == old(self).cached_textures(),
            },
    {
        let commands = self.planner.try_plan_frame(&scene.renderables);
        Frame { scene, commands }
    }

    /// Handles one event. Closing the window moves the application to `Closing` and ends
    /// the loop. A resize asks for the surface to be reconfigured. A render request
    /// updates every layer and overlay, then plans a frame for each that exposes a
    /// scene. Then the event is offered to the overlays and layers, newest overlay
    /// first, until one consumes it. Once closing, events are ignored.
    pub fn process_event(&mut self, event: &Event) -> (r: LoopStep)
        requires
            old(self).wf(),
        ensures
            final(self).wf(),
            final(self).state_view() == state_after(old(self).state_view(), *event),
            r.exit == (final(self).state_view() == AppState::Closing),
            old(self).state_view() == AppState::Closing ==> r.resize_surface is None && r.frames@.len() == 0
                && r.handled_by is None && final(self).stack() == old(self).stack()
                && final(self).cached_textures() == old(self).cached_textures(),
            old(self).state_view() != AppState::Closing ==> r.resize_surface == resize_of(*event),
            old(self).state_view() != AppState::Closing ==> r.handled_by == handler_of(
                before_dispatch(old(self).stack().overlays_view(), *event),
                before_dispatch(old(self).stack().layers_view(), *event),
                *event,
            ),
            final(self).stack().overlays_view().len() == old(self).stack().overlays_view().len(),
            final(self).stack().layers_view().len() == old(self).stack().layers_view().len(),
            old(self).state_view() != AppState::Closing ==> forall|i: int|
                0 <= i < old(self).stack().overlays_view().len() && !overlay_asked(
                    before_dispatch(old(self).stack().overlays_view(), *event),
                    *event,
                    i,
                ) ==> #[trigger] final(self).stack().overlays_view()[i] == before_dispatch(
                    old(self).stack().overlays_view(),
                    *event,
                )[i],
            old(self).state_view() != AppState::Closing ==> forall|j: int|
                0 <= j < old(self).stack().layers_view().len() && !layer_asked(
                    before_dispatch(old(self).stack().overlays_view(), *event),
                    before_dispatch(old(self).stack().layers_view(), *event),
                    *event,
                    j,
                ) ==> #[trigger] final(self).stack().layers_view()[j] == before_dispatch(
                    old(self).stack().layers_view(),
                    *event,
                )[j],
            old(self).state_view() != AppState::Closing && event.is_render_requested() ==> frame_scenes(r.frames@)
                == scenes_of(updated(old(self).stack().layers_view())) + scenes_of(
                updated(old(self).stack().overlays_view()),
            ),
            !event.is_render_requested() ==> r.frames@.len() == 0 && final(self).cached_textures()
                == old(self).cached_textures(),
            frames_planned(old(self).cached_textures(), r.frames@),
            final(self).cached_textures() == names_after_frames(old(self).cached_textures(), r.frames@),
    {
        if self.state == AppState::Closing {
            let r = LoopStep { exit: true, resize_surface: None, frames: Vec::new(), handled_by: None };
            assert(r.frames@ =~= Seq::<Frame>::empty());
            assert(self.layerstack == old(self).layerstack);
            return r;
        }
        if event.is_window_closed() {
            self.state = AppState::Closing;
        }
        let resize_surface = match event {
            Event::ApplicationEvent(ApplicationEvent::WindowResized { width, height }) => Some([*width, *height]),
            _ => None,
        };
        let mut frames: Vec<Frame> = Vec::new();
        if event.is_render_requested() {
            self.layerstack.update();
            frames = self.render_scenes();
        }
        let handled_by = self.layerstack.dispatch(event);
        LoopStep { exit: self.state == AppState::Closing, resize_surface, frames, handled_by }
    }
}

} // verus!
