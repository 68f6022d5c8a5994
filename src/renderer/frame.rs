//! The commands that draw one frame of a scene, in the order they must run.
use vstd::prelude::*;
use super::Renderable;
use super::texture_cache::{inserted, lookup_in, TextureCache, TextureLookup};

verus! {

/// One step of drawing a frame. `object` is the index of a renderable in the list the
/// frame was planned for; `slot` is a texture's slot in the renderer's texture cache.
#[derive(Debug, Clone, Copy, PartialEq, Eq, Structural)]
pub enum RenderCommand {
    /// Take the next drawable target from the swap surface; failing is fatal for the frame.
    AcquireFrame,
    /// Open the recording scope that all draws of the frame go into.
    BeginPass,
    /// Compile the object's shader.
    CompileShader { object: usize },
    /// Build a render pipeline from that shader and the vertex layout, and bind it.
    BuildPipeline { object: usize },
    /// Build a vertex buffer from the object's mesh, and bind it.
    BuildVertexBuffer { object: usize },
    /// Upload the object's texture into the given (new) cache slot.
    UploadTexture { object: usize, slot: usize },
    /// Bind the texture held in the given cache slot.
    BindTexture { slot: usize },
    /// Build and bind a fresh uniform buffer with the object's model, view and
    /// projection matrices.
    WriteUniforms { object: usize },
    /// Draw the object's vertices as one triangle list.
    Draw { object: usize, vertex_count: u32 },
    /// Close the recording scope.
    EndPass,
    /// Submit everything recorded as one batch.
    Submit,
    /// Present the frame.
    Present,
}

/// The texture steps of object `object`, whose texture key is `key`, when the cache
/// holds `names`.
pub open spec fn texture_commands(object: int, key: Option<Seq<char>>, names: Seq<Seq<char>>) -> Seq<RenderCommand> {
    match key {
        None => Seq::empty(),
        Some(k) => match lookup_in(names, k) {
            TextureLookup::Cached(s) => seq![RenderCommand::BindTexture { slot: s }],
            TextureLookup::Upload(s) => seq![
                RenderCommand::UploadTexture { object: object as usize, slot: s },
                RenderCommand::BindTexture { slot: s },
            ],
        },
    }
}

/// The steps that draw object `object` when the cache holds `names`.
pub open spec fn object_commands(object: int, r: Renderable, names: Seq<Seq<char>>) -> Seq<RenderCommand> {
    seq![
        RenderCommand::CompileShader { object: object as usize },
        RenderCommand::BuildPipeline { object: object as usize },
        RenderCommand::BuildVertexBuffer { object: object as usize },
    ] + texture_commands(object, r.texture_key(), names) + seq![
        RenderCommand::WriteUniforms { object: object as usize },
        RenderCommand::Draw { object: object as usize, vertex_count: r.vertex_count() as u32 },
    ]
}

/// The cached names after drawing `objects`, starting from `names`.
pub open spec fn names_after(names: Seq<Seq<char>>, objects: Seq<Renderable>) -> Seq<Seq<char>>
    decreases objects.len(),
{
    if objects.len() == 0 {
        names
    } else {
        let before = names_after(names, objects.drop_last());
        match objects.last().texture_key() {
            Some(k) => inserted(before, k),
            None => before,
        }
    }
}

/// The steps that draw `objects` in order, starting from a cache that holds `names`.
pub open spec fn draw_commands(names: Seq<Seq<char>>, objects: Seq<Renderable>) -> Seq<RenderCommand>
    decreases objects.len(),
{
    if objects.len() == 0 {
        Seq::empty()
    } else {
        draw_commands(names, objects.drop_last()) + object_commands(
            objects.len() - 1,
            objects.last(),
            names_after(names, objects.drop_last()),
        )
    }
}

/// The whole frame: acquire, record every object's draw in one pass, submit, present.
pub open spec fn frame_commands(names: Seq<Seq<char>>, objects: Seq<Renderable>) -> Seq<RenderCommand> {
    seq![RenderCommand::AcquireFrame, RenderCommand::BeginPass] + draw_commands(names, objects) + seq![
        RenderCommand::EndPass,
        RenderCommand::Submit,
        RenderCommand::Present,
    ]
}

/// The number of texture uploads among `commands`.
pub open spec fn upload_count(commands: Seq<RenderCommand>) -> nat
    decreases commands.len(),
{
    if commands.len() == 0 {
        0
    } else {
        upload_count(commands.drop_last()) + if commands.last() is UploadTexture { 1nat } else { 0nat }
    }
}

/// Lemma: uploads in two runs of commands add up.
pub proof fn lemma_upload_count_add(a: Seq<RenderCommand>, b: Seq<RenderCommand>)
    ensures
        upload_count(a + b) == upload_count(a) + upload_count(b),
    decreases b.len(),
{
    if b.len() > 0 {
        assert((a + b).drop_last() =~= a + b.drop_last());
        lemma_upload_count_add(a, b.drop_last());
    } else {
        assert(a + b =~= a);
    }
}

/// Lemma: commands without an upload count none.
pub proof fn lemma_no_uploads(commands: Seq<RenderCommand>)
    requires
        forall|i: int| 0 <= i < commands.len() ==> !(#[trigger] commands[i] is UploadTexture),
    ensures
        upload_count(commands) == 0,
    decreases commands.len(),
{
    if commands.len() > 0 {
        lemma_no_uploads(commands.drop_last());
    }
}

/// Lemma: the cache grows by at most one name per object.
pub proof fn lemma_names_after_len(names: Seq<Seq<char>>, objects: Seq<Renderable>)
    ensures
        names.len() <= names_after(names, objects).len() <= names.len() + objects.len(),
    decreases objects.len(),
{
    if objects.len() > 0 {
        lemma_names_after_len(names, objects.drop_last());
    }
}

/// Lemma: drawing the first `i + 1` objects is drawing the first `i`, then object `i`.
proof fn lemma_take_succ(objects: Seq<Renderable>, i: int)
    requires
        0 <= i < objects.len(),
    ensures
        objects.take(i + 1).drop_last() == objects.take(i),
        objects.take(i + 1).last() == objects[i],
{
    assert(objects.take(i + 1).drop_last() =~= objects.take(i));
}

/// Every upload a frame makes brings a new name into the cache: the number of uploads
/// is the number of names the cache gains. With the cache holding no name twice, no
/// texture name is ever uploaded twice.
pub proof fn lemma_uploads_are_new_names(names: Seq<Seq<char>>, objects: Seq<Renderable>)
    ensures
        upload_count(frame_commands(names, objects)) + names.len() == names_after(names, objects).len(),
    decreases objects.len(),
{
    lemma_draw_uploads(names, objects);
    let head = seq![RenderCommand::AcquireFrame, RenderCommand::BeginPass];
    let tail = seq![RenderCommand::EndPass, RenderCommand::Submit, RenderCommand::Present];
    lemma_upload_count_add(head, draw_commands(names, objects));
    lemma_upload_count_add(head + draw_commands(names, objects), tail);
    lemma_no_uploads(head);
    lemma_no_uploads(tail);
}

proof fn lemma_draw_uploads(names: Seq<Seq<char>>, objects: Seq<Renderable>)
    ensures
        upload_count(draw_commands(names, objects)) + names.len() == names_after(names, objects).len(),
    decreases objects.len(),
{
    if objects.len() > 0 {
        let rest = objects.drop_last();
        let before = names_after(names, rest);
        lemma_draw_uploads(names, rest);
        let o = objects.last();
        let n = objects.len() - 1;
        let front = seq![
            RenderCommand::CompileShader { object: n as usize },
            RenderCommand::BuildPipeline { object: n as usize },
            RenderCommand::BuildVertexBuffer { object: n as usize },
        ];
        let tex = texture_commands(n, o.texture_key(), before);
        let back = seq![
            RenderCommand::WriteUniforms { object: n as usize },
            RenderCommand::Draw { object: n as usize, vertex_count: o.vertex_count() as u32 },
        ];
        lemma_upload_count_add(draw_commands(names, rest), object_commands(n, o, before));
        lemma_upload_count_add(front + tex, back);
        lemma_upload_count_add(front, tex);
        lemma_no_uploads(front);
        lemma_no_uploads(back);
        match o.texture_key() {
            None => {
                assert(upload_count(tex) == 0);
            },
            Some(k) => {
                if before.contains(k) {
                    assert(tex.drop_last() =~= Seq::<RenderCommand>::empty());
                    assert(upload_count(Seq::<RenderCommand>::empty()) == 0);
                    assert(upload_count(tex) == 0);
                } else {
                    let slot = before.len() as usize;
                    assert(tex == seq![
                        RenderCommand::UploadTexture { object: n as usize, slot },
                        RenderCommand::BindTexture { slot },
                    ]);
                    assert(tex.drop_last().drop_last() =~= Seq::<RenderCommand>::empty());
                    assert(tex.drop_last().last() is UploadTexture);
                    assert(upload_count(Seq::<RenderCommand>::empty()) == 0);
                    assert(upload_count(tex.drop_last()) == 1);
                    assert(upload_count(tex) == 1);
                    assert(names_after(names, objects) == before.push(k));
                }
            },
        }
    }
}

/// Two objects drawn with textures of the same name cause one upload at most: none
/// when the name is cached already, one (for the first object) otherwise.
pub proof fn lemma_same_texture_uploaded_once(names: Seq<Seq<char>>, a: Renderable, b: Renderable, key: Seq<char>)
    requires
        a.texture_key() == Some(key),
        b.texture_key() == Some(key),
    ensures
        upload_count(frame_commands(names, seq![a, b])) == if names.contains(key) { 0nat } else { 1nat },
{
    let objects = seq![a, b];
    lemma_uploads_are_new_names(names, objects);
    assert(objects.drop_last() =~= seq![a]);
    assert(seq![a].drop_last() =~= Seq::<Renderable>::empty());
    assert(names_after(names, seq![a]) == inserted(names, key)) by {
        assert(seq![a].drop_last() =~= Seq::<Renderable>::empty());
        assert(names_after(names, Seq::<Renderable>::empty()) == names);
        assert(seq![a].last() == a);
    }
    assert(objects.last() == b);
    assert(names_after(names, objects) == inserted(inserted(names, key), key));
    if !names.contains(key) {
        assert(names.push(key).contains(key)) by {
            assert(names.push(key)[names.len() as int] == key);
        }
    }
}

/// Why a frame could not be planned.
#[derive(Debug, Clone, Copy, PartialEq, Eq, Structural)]
pub enum FrameError {
    /// An object has more vertices than one draw call can cover.
    TooManyVertices,
    /// The texture cache could not hold the frame's textures.
    CacheFull,
}

/// Whether a frame of `objects` can be planned with a cache holding `names`, and if
/// not, why.
pub open spec fn frame_error(names: Seq<Seq<char>>, objects: Seq<Renderable>) -> Option<FrameError> {
    if names.len() + objects.len() >= usize::MAX {
        Some(FrameError::CacheFull)
    } else if exists|i: int| 0 <= i < objects.len() && #[trigger] objects[i].vertex_count() > u32::MAX {
        Some(FrameError::TooManyVertices)
    } else {
        None
    }
}

/// Plans frames, keeping track of the textures its plans upload.
pub struct FramePlanner {
    textures: TextureCache,
}

impl FramePlanner {
    /// The names of the textures that the frames planned so far upload, in upload order.
    pub closed spec fn cached(&self) -> Seq<Seq<char>> {
        self.textures.view()
    }

    pub closed spec fn wf(&self) -> bool {
        self.textures.wf()
    }

    pub fn new() -> (r: Self)
        ensures
            r.cached() == Seq::<Seq<char>>::empty(),
            r.wf(),
    {
        FramePlanner { textures: TextureCache::new() }
    }

    /// The number of textures that the frames planned so far upload.
    pub fn cached_count(&self) -> (r: usize)
        ensures
            r == self.cached().len(),
    {
        self.textures.len()
    }

    /// The commands that draw `renderables`, in order, as one frame. Textures whose
    /// name is not cached yet are uploaded, and cached from then on.
    pub fn plan_frame(&mut self, renderables: &Vec<Renderable>) -> (r: Vec<RenderCommand>)
        requires
            old(self).wf(),
            old(self).cached().len() + renderables@.len() < usize::MAX,
            forall|i: int| 0 <= i < renderables@.len() ==> #[trigger] renderables@[i].vertex_count() <= u32::MAX,
        ensures
            final(self).wf(),
            r@ == frame_commands(old(self).cached(), renderables@),
            final(self).cached() == names_after(old(self).cached(), renderables@),
    {
        let ghost names0 = self.cached();
        let mut commands: Vec<RenderCommand> = Vec::new();
        commands.push(RenderCommand::AcquireFrame);
        commands.push(RenderCommand::BeginPass);
        assert(renderables@.take(0) =~= Seq::<Renderable>::empty());
        assert(commands@ =~= seq![RenderCommand::AcquireFrame, RenderCommand::BeginPass]
            + draw_commands(names0, renderables@.take(0)));
        let mut i: usize = 0;
        while i < renderables.len()
            invariant
                i <= renderables@.len(),
                names0 == old(self).cached(),
                self.wf(),
                self.cached() == names_after(names0, renderables@.take(i as int)),
                commands@ == seq![RenderCommand::AcquireFrame, RenderCommand::BeginPass]
                    + draw_commands(names0, renderables@.take(i as int)),
                names0.len() + renderables@.len() < usize::MAX,
                forall|k: int| 0 <= k < renderables@.len() ==> #[trigger] renderables@[k].vertex_count() <= u32::MAX,
            decreases renderables@.len() - i,
        {
            let r = &renderables[i];
            let ghost before = self.cached();
            let ghost commands0 = commands@;
            proof {
                lemma_take_succ(renderables@, i as int);
                lemma_names_after_len(names0, renderables@.take(i as int));
            }
            commands.push(RenderCommand::CompileShader { object: i });
            commands.push(RenderCommand::BuildPipeline { object: i });
            commands.push(RenderCommand::BuildVertexBuffer { object: i });
            match &r.material.texture {
                Some(t) => {
                    match self.textures.get_or_insert(&t.name) {
                        TextureLookup::Cached(slot) => {
                            commands.push(RenderCommand::BindTexture { slot });
                        },
                        TextureLookup::Upload(slot) => {
                            commands.push(RenderCommand::UploadTexture { object: i, slot });
                            commands.push(RenderCommand::BindTexture { slot });
                        },
                    }
                },
                None => {},
            }
            commands.push(RenderCommand::WriteUniforms { object: i });
            let vertex_count = r.mesh.vertices.len() as u32;
            commands.push(RenderCommand::Draw { object: i, vertex_count });
            assert(commands@ =~= commands0 + object_commands(i as int, *r, before));
            i = i + 1;
        }
        assert(renderables@.take(i as int) =~= renderables@);
        commands.push(RenderCommand::EndPass);
        commands.push(RenderCommand::Submit);
        commands.push(RenderCommand::Present);
        assert(commands@ =~= frame_commands(names0, renderables@));
        commands
    }

    /// Plans a frame of `renderables` as [`Self::plan_frame`] does, or reports why it
    /// cannot, leaving the cache as it was.
    pub fn try_plan_frame(&mut self, renderables: &Vec<Renderable>) -> (r: Result<Vec<RenderCommand>, FrameError>)
        requires
            old(self).wf(),
        ensures
            final(self).wf(),
            match r {
                Ok(commands) => frame_error(old(self).cached(), renderables@) is None
                    && commands@ == frame_commands(old(self).cached(), renderables@)
                    && final(self).cached() == names_after(old(self).cached(), renderables@),
                Err(e) => frame_error(old(self).cached(), renderables@) == Some(e)
                    && final(self).cached() == old(self).cached(),
            },
    {
        if self.textures.len() >= usize::MAX - renderables.len() {
            return Err(FrameError::CacheFull);
        }
        let mut i: usize = 0;
        while i < renderables.len()
            invariant
                i <= renderables@.len(),
                self.wf(),
                self.cached() == old(self).cached(),
                self.cached().len() + renderables@.len() < usize::MAX,
                forall|k: int| 0 <= k < i ==> #[trigger] renderables@[k].vertex_count() <= u32::MAX,
            decreases renderables@.len() - i,
        {
            if renderables[i].mesh.vertices.len() > u32::MAX as usize {
                assert(renderables@[i as int].vertex_count() > u32::MAX);
                return Err(FrameError::TooManyVertices);
            }
            i = i + 1;
        }
        Ok(self.plan_frame(renderables))
    }
}

} // verus!
