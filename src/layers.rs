//! Layers, overlays and the order in which they see events.
use vstd::prelude::*;
use crate::events::Event;
use crate::renderer::SceneSnapshot;

verus! {

/// A unit of the application that is updated once per frame and may consume events.
///
/// `consumes`, `after_update` and `scene` describe what `handle_event`, `update` and
/// `as_scene` do. Implementations written in ordinary Rust provide them as plain
/// methods that give the same answer, the same state and the same scene.
pub trait Layer: Sized {
    /// Whether this layer, in its present state, consumes `event`.
    spec fn consumes(&self, event: Event) -> bool;

    /// The layer's state after one update.
    spec fn after_update(&self) -> Self;

    /// What the layer draws in its present state, when it is a scene.
    spec fn scene(&self) -> Option<SceneSnapshot>;

    /// Advances the layer by one frame.
    fn update(&mut self)
        ensures
            *final(self) == old(self).after_update(),
    ;

    /// Lets the layer react to `event`; returns whether it consumed the event.
    fn handle_event(&mut self, event: &Event) -> (handled: bool)
        ensures
            handled == old(self).consumes(*event),
    ;

    /// The layer's name, for diagnostics.
    fn get_name(&self) -> &str;

    /// What the layer draws, when it is a scene; `None` for layers that draw nothing.
    fn as_scene(&self) -> (r: Option<SceneSnapshot>)
        ensures
            r == self.scene(),
    ;
}

/// The entries of `s`, each updated once.
pub open spec fn updated<L: Layer>(s: Seq<L>) -> Seq<L> {
    s.map_values(|l: L| l.after_update())
}

/// The scenes that the entries of `s` expose, in order; entries that draw nothing are
/// skipped.
pub open spec fn scenes_of<L: Layer>(s: Seq<L>) -> Seq<SceneSnapshot>
    decreases s.len(),
{
    if s.len() == 0 {
        Seq::empty()
    } else {
        match s.last().scene() {
            Some(scene) => scenes_of(s.drop_last()).push(scene),
            None => scenes_of(s.drop_last()),
        }
    }
}

/// Where a layer stands in a [`LayerStack`]: the index of an overlay or of a layer,
/// counted in the order in which they were pushed.
#[derive(Debug, Clone, Copy, PartialEq, Eq, Structural)]
pub enum LayerSlot {
    Overlay(usize),
    Layer(usize),
}

/// The index of the most recently pushed entry of `s` that consumes `event`.
pub open spec fn last_consuming<L: Layer>(s: Seq<L>, event: Event) -> Option<int>
    decreases s.len(),
{
    if s.len() == 0 {
        None
    } else if s.last().consumes(event) {
        Some(s.len() - 1)
    } else {
        last_consuming(s.drop_last(), event)
    }
}

/// The entry of a stack with these overlays and layers that handles `event`: the
/// newest overlay that consumes it, else the newest layer that consumes it.
pub open spec fn handler_of<L: Layer>(overlays: Seq<L>, layers: Seq<L>, event: Event) -> Option<LayerSlot> {
    match last_consuming(overlays, event) {
        Some(i) => Some(LayerSlot::Overlay(i as usize)),
        None => match last_consuming(layers, event) {
            Some(j) => Some(LayerSlot::Layer(j as usize)),
            None => None,
        },
    }
}

/// Whether overlay `i` is asked about `event`: every overlay from the newest down to
/// the one that consumes it.
pub open spec fn overlay_asked<L: Layer>(overlays: Seq<L>, event: Event, i: int) -> bool {
    match last_consuming(overlays, event) {
        Some(k) => k <= i,
        None => true,
    }
}

/// Whether layer `j` is asked about `event`: none of the overlays consumed it, and `j`
/// lies between the newest layer and the one that consumes it.
pub open spec fn layer_asked<L: Layer>(overlays: Seq<L>, layers: Seq<L>, event: Event, j: int) -> bool {
    last_consuming(overlays, event) is None && match last_consuming(layers, event) {
        Some(k) => k <= j,
        None => true,
    }
}

/// What `last_consuming` picks: an entry that consumes the event with no newer entry
/// that does; or nothing, when no entry consumes it.
pub proof fn lemma_last_consuming<L: Layer>(s: Seq<L>, event: Event)
    ensures
        match last_consuming(s, event) {
            Some(k) => 0 <= k < s.len() && s[k].consumes(event) && forall|j: int|
                k < j < s.len() ==> !#[trigger] s[j].consumes(event),
            None => forall|j: int| 0 <= j < s.len() ==> !#[trigger] s[j].consumes(event),
        },
    decreases s.len(),
{
    if s.len() > 0 && !s.last().consumes(event) {
        lemma_last_consuming(s.drop_last(), event);
        assert forall|j: int| 0 <= j < s.len() - 1 implies s.drop_last()[j] == s[j] by {}
    }
}

/// The converse of [`lemma_last_consuming`]: an entry that consumes the event with no
/// newer entry that does is the one picked.
pub proof fn lemma_last_consuming_is<L: Layer>(s: Seq<L>, event: Event, k: int)
    requires
        0 <= k < s.len(),
        s[k].consumes(event),
        forall|j: int| k < j < s.len() ==> !#[trigger] s[j].consumes(event),
    ensures
        last_consuming(s, event) == Some(k),
    decreases s.len(),
{
    if k < s.len() - 1 {
        assert(!s[s.len() - 1].consumes(event));
        lemma_last_consuming_is(s.drop_last(), event, k);
    }
}

/// Lemma: when no entry from index `i` on consumes the event, the pick is the same
/// as on the first `i` entries.
pub proof fn lemma_last_consuming_prefix<L: Layer>(s: Seq<L>, event: Event, i: int)
    requires
        0 <= i <= s.len(),
        forall|j: int| i <= j < s.len() ==> !#[trigger] s[j].consumes(event),
    ensures
        last_consuming(s, event) == last_consuming(s.subrange(0, i), event),
    decreases s.len(),
{
    if i < s.len() {
        assert(!s[s.len() - 1].consumes(event));
        assert(s.drop_last().subrange(0, i) =~= s.subrange(0, i));
        lemma_last_consuming_prefix(s.drop_last(), event, i);
    } else {
        assert(s.subrange(0, i) =~= s);
    }
}

/// An overlay that consumes an event shields every layer from it: the event is
/// handled by an overlay, and no layer is asked about it.
pub proof fn lemma_consuming_overlay_shields_layers<L: Layer>(
    overlays: Seq<L>,
    layers: Seq<L>,
    event: Event,
    i: int,
)
    requires
        0 <= i < overlays.len(),
        overlays[i].consumes(event),
    ensures
        handler_of(overlays, layers, event) matches Some(LayerSlot::Overlay(_)),
        forall|j: int| 0 <= j < layers.len() ==> !layer_asked(overlays, layers, event, j),
{
    lemma_last_consuming(overlays, event);
}

/// Overlays are asked newest first. Of two overlays, a newer one that consumes the
/// event handles it and the older one is not asked; when only the older one consumes
/// it, the newer one is asked and declines, and the older one handles it.
pub proof fn lemma_newest_overlay_asked_first<L: Layer>(older: L, newer: L, layers: Seq<L>, event: Event)
    ensures
        newer.consumes(event) ==> handler_of(seq![older, newer], layers, event) == Some(LayerSlot::Overlay(1))
            && !overlay_asked(seq![older, newer], event, 0),
        !newer.consumes(event) && older.consumes(event) ==> handler_of(seq![older, newer], layers, event)
            == Some(LayerSlot::Overlay(0)) && overlay_asked(seq![older, newer], event, 1)
            && overlay_asked(seq![older, newer], event, 0),
{
    let overlays = seq![older, newer];
    if newer.consumes(event) {
        lemma_last_consuming_is(overlays, event, 1);
    } else if older.consumes(event) {
        lemma_last_consuming_is(overlays, event, 0);
    }
}

/// Layers and overlays, each in the order in which they were pushed.
///
/// Overlays see events before layers; within each sequence the most recently pushed
/// entry is asked first. Updates run over layers first, then overlays.
pub struct LayerStack<L> {
    layers: Vec<L>,
    overlays: Vec<L>,
}

impl<L: Layer> LayerStack<L> {
    /// The layers, oldest first.
    pub closed spec fn layers_view(&self) -> Seq<L> {
        self.layers@
    }

    /// The overlays, oldest first.
    pub closed spec fn overlays_view(&self) -> Seq<L> {
        self.overlays@
    }

    /// The entry of this stack that handles `event`.
    pub open spec fn handler(&self, event: Event) -> Option<LayerSlot> {
        handler_of(self.overlays_view(), self.layers_view(), event)
    }

    pub fn new() -> (r: Self)
        ensures
            r.layers_view() == Seq::<L>::empty(),
            r.overlays_view() == Seq::<L>::empty(),
    {
        LayerStack { layers: Vec::new(), overlays: Vec::new() }
    }

    pub fn push_layer(&mut self, layer: L)
        ensures
            final(self).layers_view() == old(self).layers_view().push(layer),
            final(self).overlays_view() == old(self).overlays_view(),
    {
        self.layers.push(layer);
    }

    pub fn push_overlay(&mut self, overlay: L)
        ensures
            final(self).overlays_view() == old(self).overlays_view().push(overlay),
            final(self).layers_view() == old(self).layers_view(),
    {
        self.overlays.push(overlay);
    }

    /// Removes the most recently pushed layer, if there is one.
    pub fn pop_layer(&mut self)
        ensures
            old(self).layers_view().len() > 0 ==> final(self).layers_view() == old(self).layers_view().drop_last(),
            old(self).layers_view().len() == 0 ==> final(self).layers_view() == old(self).layers_view(),
            final(self).overlays_view() == old(self).overlays_view(),
    {
        let _ = self.layers.pop();
    }

    /// Removes the most recently pushed overlay, if there is one.
    pub fn pop_overlay(&mut self)
        ensures
            old(self).overlays_view().len() > 0 ==> final(self).overlays_view() == old(self).overlays_view().drop_last(),
            old(self).overlays_view().len() == 0 ==> final(self).overlays_view() == old(self).overlays_view(),
            final(self).layers_view() == old(self).layers_view(),
    {
        let _ = self.overlays.pop();
    }

    /// The layers, oldest first.
    pub fn layers(&self) -> (r: &[L])
        ensures
            r@ == self.layers_view(),
    {
        self.layers.as_slice()
    }

    /// The overlays, oldest first.
    pub fn overlays(&self) -> (r: &[L])
        ensures
            r@ == self.overlays_view(),
    {
        self.overlays.as_slice()
    }

    /// Offers `event` to the overlays, newest first, then to the layers, newest first,
    /// and stops at the first that consumes it. Returns that entry, if any.
    ///
    /// Entries that are not asked are left as they were.
    pub fn dispatch(&mut self, event: &Event) -> (r: Option<LayerSlot>)
        ensures
            r == old(self).handler(*event),
            final(self).overlays_view().len() == old(self).overlays_view().len(),
            final(self).layers_view().len() == old(self).layers_view().len(),
            forall|i: int|
                0 <= i < old(self).overlays_view().len() && !overlay_asked(old(self).overlays_view(), *event, i)
                    ==> #[trigger] final(self).overlays_view()[i] == old(self).overlays_view()[i],
            forall|j: int|
                0 <= j < old(self).layers_view().len()
                    && !layer_asked(old(self).overlays_view(), old(self).layers_view(), *event, j)
                    ==> #[trigger] final(self).layers_view()[j] == old(self).layers_view()[j],
    {
        let ghost overlays0 = self.overlays@;
        let ghost layers0 = self.layers@;
        let mut i: usize = self.overlays.len();
        while i > 0
            invariant
                overlays0 == old(self).overlays@,
                layers0 == old(self).layers@,
                i <= overlays0.len(),
                self.overlays@.len() == overlays0.len(),
                self.layers@ == layers0,
                forall|j: int| 0 <= j < i ==> #[trigger] self.overlays@[j] == overlays0[j],
                forall|j: int| i <= j < overlays0.len() ==> !#[trigger] overlays0[j].consumes(*event),
            decreases i,
        {
            i = i - 1;
            let handled = self.overlays[i].handle_event(event);
            if handled {
                proof {
                    lemma_last_consuming_is(overlays0, *event, i as int);
                }
                return Some(LayerSlot::Overlay(i));
            }
        }
        proof {
            lemma_last_consuming_prefix(overlays0, *event, 0);
            assert(overlays0.subrange(0, 0) =~= Seq::<L>::empty());
        }
        let mut j: usize = self.layers.len();
        while j > 0
            invariant
                overlays0 == old(self).overlays@,
                layers0 == old(self).layers@,
                j <= layers0.len(),
                self.layers@.len() == layers0.len(),
                self.overlays@.len() == overlays0.len(),
                last_consuming(overlays0, *event) is None,
                forall|k: int| 0 <= k < j ==> #[trigger] self.layers@[k] == layers0[k],
                forall|k: int| j <= k < layers0.len() ==> !#[trigger] layers0[k].consumes(*event),
            decreases j,
        {
            j = j - 1;
            let handled = self.layers[j].handle_event(event);
            if handled {
                proof {
                    lemma_last_consuming_is(layers0, *event, j as int);
                }
                return Some(LayerSlot::Layer(j));
            }
        }
        proof {
            lemma_last_consuming_prefix(layers0, *event, 0);
            assert(layers0.subrange(0, 0) =~= Seq::<L>::empty());
        }
        None
    }

    /// Updates every layer, then every overlay, each once, oldest first.
    pub fn update(&mut self)
        ensures
            final(self).layers_view() == updated(old(self).layers_view()),
            final(self).overlays_view() == updated(old(self).overlays_view()),
    {
        let mut i: usize = 0;
        while i < self.layers.len()
            invariant
                i <= self.layers@.len(),
                self.layers@.len() == old(self).layers_view().len(),
                self.overlays@ == old(self).overlays_view(),
                forall|j: int| 0 <= j < i ==> #[trigger] self.layers@[j] == old(self).layers_view()[j].after_update(),
                forall|j: int| i <= j < self.layers@.len() ==> #[trigger] self.layers@[j] == old(self).layers_view()[j],
            decreases self.layers@.len() - i,
        {
            self.layers[i].update();
            i = i + 1;
        }
        assert(self.layers@ =~= updated(old(self).layers_view()));
        let mut k: usize = 0;
        while k < self.overlays.len()
            invariant
                k <= self.overlays@.len(),
                self.overlays@.len() == old(self).overlays_view().len(),
                self.layers@ == updated(old(self).layers_view()),
                forall|j: int| 0 <= j < k ==> #[trigger] self.overlays@[j] == old(self).overlays_view()[j].after_update(),
                forall|j: int| k <= j < self.overlays@.len() ==> #[trigger] self.overlays@[j] == old(self).overlays_view()[j],
            decreases self.overlays@.len() - k,
        {
            self.overlays[k].update();
            k = k + 1;
        }
        assert(self.overlays@ =~= updated(old(self).overlays_view()));
    }
}

} // verus!
