//! The render context: applies queued changes, composites frames, keeps
//! each pipeline's epochs and the queue of epochs whose frame completed.

use vstd::prelude::*;
use crate::api::{ApiMsg, WrAPI, pipeline_key};
use crate::display_list::BuiltDisplayList;
use crate::geom::{WrColor, WrSize};
use crate::ids::{Epoch, FontKey, ImageKey, PipelineId, WrExternalImageId, WrWindowId};
use crate::resources::{ImageData, ImageResource};
use crate::table::{Key, KeyTable, keys_distinct, lemma_entries_in_map, map_of};

verus! {

/// The display list that a pipeline shows, with its epoch.
#[derive(Debug)]
pub struct SceneEntry {
    pub epoch: Epoch,
    pub viewport: WrSize,
    /// The colour behind the content, if any.
    pub background: Option<WrColor>,
    /// Whether scroll positions carry over from the previous list.
    pub preserve_frame_state: bool,
    pub list: BuiltDisplayList,
}

/// A signal for the producer, delivered through its notifier.
#[derive(Clone, Copy, Debug, PartialEq, Eq, Structural)]
pub enum Notification {
    NewFrameReady,
    NewScrollFrameReady(bool),
    ExternalEvent(usize),
}

/// The GPU context could not be set up; the message says why.
#[derive(Clone, Debug)]
pub struct DeviceInitError {
    pub message: String,
}

/// Why a readback was refused.
#[derive(Clone, Copy, Debug, PartialEq, Eq, Structural)]
pub enum ReadbackError {
    /// No frame has been rendered yet.
    NotRendered,
    /// The buffer does not hold exactly `width * height * 4` bytes.
    WrongBufferSize,
}

/// Where the pixels of an image come from when a frame is drawn.
#[derive(Clone, Copy, Debug, PartialEq, Eq, Structural)]
pub enum ImageSource {
    /// No image is registered under the key: the command draws nothing.
    Missing,
    Raw,
    Blob,
    External(WrExternalImageId),
    /// An external image while no handler is installed: the command draws
    /// nothing.
    NoHandler,
}

/// A live renderer.
pub struct WrRenderer {
    pub window_id: WrWindowId,
    pub window_width: u32,
    pub window_height: u32,
    pub profiler_enabled: bool,
    pub has_external_image_handler: bool,
    pub root_pipeline: Option<PipelineId>,
    pub frame_requested: bool,
    pub has_rendered: bool,
    pub scene: KeyTable<SceneEntry>,
    pub images: KeyTable<ImageResource>,
    pub fonts: KeyTable<Vec<u8>>,
    pub current: KeyTable<Epoch>,
    pub rendered: KeyTable<Epoch>,
    pub notifications: Vec<Notification>,
    /// The last epoch handed out by a flush, for each pipeline.
    pub reported: Ghost<Map<Key, Epoch>>,
}

impl WrRenderer {
    pub open spec fn wf(&self) -> bool {
        &&& self.scene.wf()
        &&& self.images.wf()
        &&& self.fonts.wf()
        &&& self.current.wf()
        &&& self.rendered.wf()
        &&& forall|k: Key| #[trigger]
            self.current.view().contains_key(k) ==> self.scene.view().contains_key(k)
                && self.current.view()[k].0 <= self.scene.view()[k].epoch.0
        &&& forall|k: Key| #[trigger]
            self.rendered.view().contains_key(k) ==> self.current.view().contains_key(k)
                && self.rendered.view()[k] == self.current.view()[k]
        &&& forall|k: Key| #[trigger]
            self.reported@.contains_key(k) ==> self.current.view().contains_key(k)
                && self.reported@[k].0 <= self.current.view()[k].0
    }

    /// The epoch of `p`'s display list in the scene.
    pub open spec fn scene_epoch(&self, p: PipelineId) -> Option<Epoch> {
        if self.scene.view().contains_key(pipeline_key(p)) {
            Some(self.scene.view()[pipeline_key(p)].epoch)
        } else {
            None
        }
    }

    /// The epoch last rendered for `p`.
    pub open spec fn spec_current_epoch(&self, p: PipelineId) -> Option<Epoch> {
        if self.current.view().contains_key(pipeline_key(p)) {
            Some(self.current.view()[pipeline_key(p)])
        } else {
            None
        }
    }
}

/// What the queued changes act on: the scene, the resources and the
/// renderer's settings.
pub struct RendererModel {
    pub scene: Map<Key, SceneEntry>,
    pub images: Map<Key, ImageResource>,
    pub fonts: Map<Key, Vec<u8>>,
    pub root_pipeline: Option<PipelineId>,
    pub window: (u32, u32),
    pub frame_requested: bool,
    pub notifications: Seq<Notification>,
}

impl WrRenderer {
    pub open spec fn model(&self) -> RendererModel {
        RendererModel {
            scene: self.scene.view(),
            images: self.images.view(),
            fonts: self.fonts.view(),
            root_pipeline: self.root_pipeline,
            window: (self.window_width, self.window_height),
            frame_requested: self.frame_requested,
            notifications: self.notifications@,
        }
    }
}

/// The model after one queued change. A display list whose epoch is not
/// above the one in the scene for its pipeline is ignored.
pub open spec fn apply_msg(m: RendererModel, msg: ApiMsg) -> RendererModel {
    match msg {
        ApiMsg::SetDisplayList { pipeline_id, epoch, viewport, background, preserve_frame_state, list } => {
            let k = pipeline_key(pipeline_id);
            if !m.scene.contains_key(k) || m.scene[k].epoch.0 < epoch.0 {
                RendererModel {
                    scene: m.scene.insert(k, SceneEntry { epoch, viewport, background, preserve_frame_state, list }),
                    ..m
                }
            } else {
                m
            }
        },
        ApiMsg::AddImage { key, descriptor, data } => RendererModel {
            images: m.images.insert((key.0, key.1), ImageResource { descriptor, data }),
            ..m
        },
        ApiMsg::UpdateImage { key, descriptor, data } => RendererModel {
            images: m.images.insert((key.0, key.1), ImageResource { descriptor, data }),
            ..m
        },
        ApiMsg::DeleteImage(key) => RendererModel { images: m.images.remove((key.0, key.1)), ..m },
        ApiMsg::AddRawFont { key, bytes } => RendererModel { fonts: m.fonts.insert((key.0, key.1), bytes), ..m },
        ApiMsg::DeleteFont(key) => RendererModel { fonts: m.fonts.remove((key.0, key.1)), ..m },
        ApiMsg::SetRootPipeline(p) => RendererModel { root_pipeline: Some(p), ..m },
        ApiMsg::SetWindowParameters { width, height } => RendererModel { window: (width, height), ..m },
        ApiMsg::GenerateFrame => RendererModel { frame_requested: true, ..m },
        ApiMsg::ExternalEvent(e) => RendererModel {
            notifications: m.notifications.push(Notification::ExternalEvent(e)),
            ..m
        },
    }
}

/// The model after a sequence of queued changes, applied in order.
pub open spec fn apply_all(m: RendererModel, msgs: Seq<ApiMsg>) -> RendererModel
    decreases msgs.len(),
{
    if msgs.len() == 0 {
        m
    } else {
        apply_msg(apply_all(m, msgs.drop_last()), msgs.last())
    }
}

/// Creates a renderer and its producer connection once the GPU context is
/// set up; `device` is the outcome of setting it up.
pub fn wr_window_new(
    window_id: WrWindowId,
    window_width: u32,
    window_height: u32,
    enable_profiler: bool,
    device: Result<(), String>,
) -> (r: Result<(WrAPI, WrRenderer), DeviceInitError>)
    ensures
        r is Ok <==> device is Ok,
        device is Err ==> r->Err_0.message == device->Err_0,
        r is Ok ==> ({
            let (api, renderer) = r->Ok_0;
            &&& api.wf()
            &&& api.id_namespace.0 == 0
            &&& api.messages@.len() == 0
            &&& api.submitted.view() == Map::<Key, Epoch>::empty()
            &&& renderer.wf()
            &&& renderer.window_id == window_id
            &&& renderer.window_width == window_width
            &&& renderer.window_height == window_height
            &&& renderer.profiler_enabled == enable_profiler
            &&& !renderer.has_external_image_handler
            &&& !renderer.has_rendered
            &&& renderer.scene.view().is_empty()
            &&& renderer.images.view().is_empty()
            &&& renderer.fonts.view().is_empty()
            &&& renderer.current.view().is_empty()
            &&& renderer.rendered.view().is_empty()
            &&& renderer.root_pipeline is None
            &&& renderer.notifications@.len() == 0
            &&& !renderer.frame_requested
            &&& renderer.reported@ == Map::<Key, Epoch>::empty()
        }),
{
    match device {
        Err(message) => Err(DeviceInitError { message }),
        Ok(()) => {
            let renderer = WrRenderer {
                window_id,
                window_width,
                window_height,
                profiler_enabled: enable_profiler,
                has_external_image_handler: false,
                root_pipeline: None,
                frame_requested: false,
                has_rendered: false,
                scene: KeyTable::new(),
                images: KeyTable::new(),
                fonts: KeyTable::new(),
                current: KeyTable::new(),
                rendered: KeyTable::new(),
                notifications: Vec::new(),
                reported: Ghost(Map::empty()),
            };
            let api = WrAPI::new(crate::ids::IdNamespace(0));
            Ok((api, renderer))
        },
    }
}

/// Installs the producer's external-image handler when one is given; when
/// none is given, a handler installed earlier stays installed.
pub fn wr_renderer_set_external_image_handler(renderer: &mut WrRenderer, handler_given: bool)
    requires
        old(renderer).wf(),
    ensures
        final(renderer).wf(),
        handler_given ==> *final(renderer) == (WrRenderer { has_external_image_handler: true, ..*old(renderer) }),
        !handler_given ==> *final(renderer) == *old(renderer),
{
    if handler_given {
        renderer.has_external_image_handler = true;
    }
}

pub fn wr_renderer_set_profiler_enabled(renderer: &mut WrRenderer, enabled: bool)
    requires
        old(renderer).wf(),
    ensures
        final(renderer).wf(),
        *final(renderer) == (WrRenderer { profiler_enabled: enabled, ..*old(renderer) }),
{
    renderer.profiler_enabled = enabled;
}

impl WrRenderer {
    /// Applies one queued change.
    pub fn apply(&mut self, msg: ApiMsg)
        requires
            old(self).wf(),
        ensures
            final(self).wf(),
            final(self).current == old(self).current,
            final(self).rendered == old(self).rendered,
            final(self).reported == old(self).reported,
            final(self).has_rendered == old(self).has_rendered,
            final(self).window_id == old(self).window_id,
            final(self).profiler_enabled == old(self).profiler_enabled,
            final(self).has_external_image_handler == old(self).has_external_image_handler,
            final(self).model() == apply_msg(old(self).model(), msg),
    {
        match msg {
            ApiMsg::SetDisplayList { pipeline_id, epoch, viewport, background, preserve_frame_state, list } => {
                let k = (pipeline_id.0, pipeline_id.1);
                let newer = match self.scene.get(k) {
                    Some(entry) => entry.epoch.0 < epoch.0,
                    None => true,
                };
                if newer {
                    self.scene.set(k, SceneEntry { epoch, viewport, background, preserve_frame_state, list });
                    assert forall|k2: Key| #[trigger] self.current.view().contains_key(k2) implies self.scene.view().contains_key(k2)
                        && self.current.view()[k2].0 <= self.scene.view()[k2].epoch.0 by {
                        assert(old(self).current.view().contains_key(k2));
                    }
                }
            },
            ApiMsg::AddImage { key, descriptor, data } => {
                self.images.set((key.0, key.1), ImageResource { descriptor, data });
            },
            ApiMsg::UpdateImage { key, descriptor, data } => {
                self.images.set((key.0, key.1), ImageResource { descriptor, data });
            },
            ApiMsg::DeleteImage(key) => {
                let _ = self.images.remove((key.0, key.1));
            },
            ApiMsg::AddRawFont { key, bytes } => {
                self.fonts.set((key.0, key.1), bytes);
            },
            ApiMsg::DeleteFont(key) => {
                let _ = self.fonts.remove((key.0, key.1));
            },
            ApiMsg::SetRootPipeline(p) => {
                self.root_pipeline = Some(p);
            },
            ApiMsg::SetWindowParameters { width, height } => {
                self.window_width = width;
                self.window_height = height;
            },
            ApiMsg::GenerateFrame => {
                self.frame_requested = true;
            },
            ApiMsg::ExternalEvent(e) => {
                self.notifications.push(Notification::ExternalEvent(e));
            },
        }
    }
}

/// Applies, in order, every change that `api` has queued, without drawing.
pub fn wr_renderer_update(renderer: &mut WrRenderer, api: &mut WrAPI)
    requires
        old(renderer).wf(),
    ensures
        final(renderer).wf(),
        final(renderer).model() == apply_all(old(renderer).model(), old(api).messages@),
        final(renderer).current == old(renderer).current,
        final(renderer).rendered == old(renderer).rendered,
        final(renderer).reported == old(renderer).reported,
        final(renderer).has_rendered == old(renderer).has_rendered,
        final(renderer).has_external_image_handler == old(renderer).has_external_image_handler,
        final(api).messages@.len() == 0,
        final(api).id_namespace == old(api).id_namespace,
        final(api).submitted == old(api).submitted,
{
    let mut msgs: Vec<ApiMsg> = Vec::new();
    std::mem::swap(&mut msgs, &mut api.messages);
    let ghost all = msgs@;
    let ghost m0 = renderer.model();
    let ghost cur = renderer.current;
    let ghost ren = renderer.rendered;
    let ghost rep = renderer.reported@;
    let ghost done: int = 0;
    proof {
        assert(all.take(0) =~= Seq::<ApiMsg>::empty());
        assert(all.skip(0) =~= all);
    }
    while msgs.len() > 0
        invariant
            renderer.wf(),
            0 <= done <= all.len(),
            msgs@ == all.skip(done),
            renderer.model() == apply_all(m0, all.take(done)),
            renderer.current == cur,
            renderer.rendered == ren,
            renderer.reported@ == rep,
            renderer.has_rendered == old(renderer).has_rendered,
            renderer.has_external_image_handler == old(renderer).has_external_image_handler,
        decreases msgs.len(),
    {
        let msg = msgs.remove(0);
        proof {
            assert(msg == all[done]);
            assert(all.take(done + 1).drop_last() =~= all.take(done));
            assert(msgs@ =~= all.skip(done + 1));
        }
        renderer.apply(msg);
        proof {
            done = done + 1;
        }
    }
    proof {
        assert(all.take(done) =~= all);
    }
}

/// Composites a frame from the scene: every pipeline's current epoch becomes
/// the epoch of its display list in the scene, and each pipeline whose epoch
/// advanced joins the queue of rendered epochs.
pub fn wr_renderer_render(renderer: &mut WrRenderer, width: u32, height: u32)
    requires
        old(renderer).wf(),
    ensures
        final(renderer).wf(),
        final(renderer).has_rendered,
        final(renderer).scene == old(renderer).scene,
        final(renderer).images == old(renderer).images,
        final(renderer).fonts == old(renderer).fonts,
        final(renderer).root_pipeline == old(renderer).root_pipeline,
        final(renderer).window_id == old(renderer).window_id,
        final(renderer).window_width == old(renderer).window_width,
        final(renderer).window_height == old(renderer).window_height,
        final(renderer).profiler_enabled == old(renderer).profiler_enabled,
        final(renderer).has_external_image_handler == old(renderer).has_external_image_handler,
        final(renderer).reported == old(renderer).reported,
        !final(renderer).frame_requested,
        final(renderer).notifications@ == old(renderer).notifications@.push(Notification::NewFrameReady),
        final(renderer).current.view() == Map::new(
            |k: Key| old(renderer).scene.view().contains_key(k) || old(renderer).current.view().contains_key(k),
            |k: Key| old(renderer).scene.view()[k].epoch,
        ),
        final(renderer).rendered.view() == old(renderer).rendered.view().union_prefer_right(
            Map::new(
                |k: Key| old(renderer).scene.view().contains_key(k) && (!old(renderer).current.view().contains_key(k)
                    || old(renderer).current.view()[k] != old(renderer).scene.view()[k].epoch),
                |k: Key| old(renderer).scene.view()[k].epoch,
            ),
        ),
{
    let ghost s = renderer.scene.entries@;
    let ghost old_current = renderer.current.view();
    let ghost old_rendered = renderer.rendered.view();
    let ghost sc = renderer.scene;
    let ghost imgs = renderer.images;
    let ghost rep = renderer.reported@;
    let ghost notes = renderer.notifications@;
    let ghost fonts = renderer.fonts;
    let ghost root = renderer.root_pipeline;
    proof {
        lemma_entries_in_map(s);
    }
    let mut i: usize = 0;
    while i < renderer.scene.entries.len()
        invariant
            renderer.wf(),
            renderer.scene.entries@ == s,
            renderer.scene == sc,
            renderer.images == imgs,
            renderer.reported@ == rep,
            renderer.notifications@ == notes,
            renderer.fonts == fonts,
            renderer.root_pipeline == root,
            renderer.window_id == old(renderer).window_id,
            renderer.window_width == old(renderer).window_width,
            renderer.window_height == old(renderer).window_height,
            renderer.profiler_enabled == old(renderer).profiler_enabled,
            renderer.has_external_image_handler == old(renderer).has_external_image_handler,
            keys_distinct(s),
            renderer.scene.view() == map_of(s),
            forall|j: int| 0 <= j < s.len() ==> map_of(s).contains_key(#[trigger] s[j].0) && map_of(s)[s[j].0] == s[j].1,
            forall|k: Key| map_of(s).contains_key(k) ==> exists|j: int| 0 <= j < s.len() && s[j].0 == k,
            i <= s.len(),
            renderer.current.view() == Map::new(
                |k: Key| (exists|j: int| 0 <= j < i && s[j].0 == k) || old_current.contains_key(k),
                |k: Key| if exists|j: int| 0 <= j < i && s[j].0 == k { map_of(s)[k].epoch } else { old_current[k] },
            ),
            renderer.rendered.view() == old_rendered.union_prefer_right(
                Map::new(
                    |k: Key| (exists|j: int| 0 <= j < i && s[j].0 == k) && (!old_current.contains_key(k) || old_current[k] != map_of(s)[k].epoch),
                    |k: Key| map_of(s)[k].epoch,
                ),
            ),
        decreases s.len() - i,
    {
        let k = renderer.scene.entries[i].0;
        let e = renderer.scene.entries[i].1.epoch;
        let advanced = match renderer.current.get(k) {
            Some(c) => c.0 != e.0,
            None => true,
        };
        proof {
            assert(forall|j: int| 0 <= j < i ==> s[j].0 != k);
        }
        renderer.current.set(k, e);
        if advanced {
            renderer.rendered.set(k, e);
        }
        proof {
            assert(renderer.current.view() =~= Map::new(
                |k: Key| (exists|j: int| 0 <= j < i + 1 && s[j].0 == k) || old_current.contains_key(k),
                |k: Key| if exists|j: int| 0 <= j < i + 1 && s[j].0 == k { map_of(s)[k].epoch } else { old_current[k] },
            ));
            assert(renderer.rendered.view() =~= old_rendered.union_prefer_right(
                Map::new(
                    |k: Key| (exists|j: int| 0 <= j < i + 1 && s[j].0 == k) && (!old_current.contains_key(k) || old_current[k] != map_of(s)[k].epoch),
                    |k: Key| map_of(s)[k].epoch,
                ),
            ));
        }
        i = i + 1;
    }
    renderer.has_rendered = true;
    renderer.frame_requested = false;
    renderer.notifications.push(Notification::NewFrameReady);
}

/// The epoch last rendered for `pipeline_id`.
pub fn wr_renderer_current_epoch(renderer: &WrRenderer, pipeline_id: PipelineId) -> (r: Option<Epoch>)
    requires
        renderer.wf(),
    ensures
        r == renderer.spec_current_epoch(pipeline_id),
{
    match renderer.current.get((pipeline_id.0, pipeline_id.1)) {
        Some(e) => Some(*e),
        None => None,
    }
}

/// The (pipeline, epoch) pairs of frames that completed, handed out one by one.
pub struct WrRenderedEpochs {
    pub data: Vec<(PipelineId, Epoch)>,
}

/// Drains the queue of pipelines whose frame advanced since the last flush.
/// Each pair carries the pipeline's current epoch, which is never below an
/// epoch an earlier flush reported for that pipeline.
pub fn wr_renderer_flush_rendered_epochs(renderer: &mut WrRenderer) -> (r: WrRenderedEpochs)
    requires
        old(renderer).wf(),
    ensures
        final(renderer).wf(),
        final(renderer).rendered.view().is_empty(),
        final(renderer).current == old(renderer).current,
        final(renderer).scene == old(renderer).scene,
        final(renderer).model() == old(renderer).model(),
        final(renderer).has_rendered == old(renderer).has_rendered,
        final(renderer).has_external_image_handler == old(renderer).has_external_image_handler,
        final(renderer).window_id == old(renderer).window_id,
        final(renderer).profiler_enabled == old(renderer).profiler_enabled,
        final(renderer).reported@ == old(renderer).reported@.union_prefer_right(old(renderer).rendered.view()),
        forall|i: int, j: int| 0 <= i < j < r.data@.len() ==> r.data@[i].0 != r.data@[j].0,
        forall|i: int| 0 <= i < r.data@.len() ==> {
            let (p, e) = #[trigger] r.data@[i];
            &&& old(renderer).rendered.view().contains_key(pipeline_key(p))
            &&& old(renderer).rendered.view()[pipeline_key(p)] == e
            &&& old(renderer).spec_current_epoch(p) == Some(e)
            &&& old(renderer).reported@.contains_key(pipeline_key(p)) ==> old(renderer).reported@[pipeline_key(p)].0 <= e.0
        },
        forall|k: Key| #[trigger] old(renderer).rendered.view().contains_key(k) ==> exists|i: int| 0 <= i < r.data@.len() && pipeline_key(r.data@[i].0) == k,
{
    let entries = renderer.rendered.drain();
    let ghost es = entries@;
    proof {
        lemma_entries_in_map(es);
    }
    let mut data: Vec<(PipelineId, Epoch)> = Vec::new();
    let mut i: usize = 0;
    while i < entries.len()
        invariant
            i <= entries.len(),
            es == entries@,
            keys_distinct(es),
            data@.len() == i,
            forall|j: int| 0 <= j < i ==> data@[j] == (PipelineId(es[j].0.0, es[j].0.1), es[j].1),
        decreases entries.len() - i,
    {
        let (k, e) = entries[i];
        data.push((PipelineId(k.0, k.1), e));
        i = i + 1;
    }
    proof {
        let old_r = old(renderer);
        assert forall|a: int, b: int| 0 <= a < b < data@.len() implies data@[a].0 != data@[b].0 by {
            assert(es[a].0 != es[b].0);
        }
        assert forall|a: int| 0 <= a < data@.len() implies {
            let (p, e) = #[trigger] data@[a];
            &&& old_r.rendered.view().contains_key(pipeline_key(p))
            &&& old_r.rendered.view()[pipeline_key(p)] == e
            &&& old_r.spec_current_epoch(p) == Some(e)
            &&& old_r.reported@.contains_key(pipeline_key(p)) ==> old_r.reported@[pipeline_key(p)].0 <= e.0
        } by {
            assert(pipeline_key(data@[a].0) == es[a].0);
            assert(old_r.rendered.view().contains_key(es[a].0));
        }
        assert forall|k: Key| #[trigger] old_r.rendered.view().contains_key(k) implies exists|a: int| 0 <= a < data@.len() && pipeline_key(data@[a].0) == k by {
            let a = choose|a: int| 0 <= a < es.len() && es[a].0 == k;
            assert(pipeline_key(data@[a].0) == k);
        }
    }
    renderer.reported = Ghost(renderer.reported@.union_prefer_right(map_of(es)));
    WrRenderedEpochs { data }
}

/// Hands out the next (pipeline, epoch) pair, if any is left.
pub fn wr_rendered_epochs_next(pipeline_epochs: &mut WrRenderedEpochs) -> (r: Option<(PipelineId, Epoch)>)
    ensures
        old(pipeline_epochs).data@.len() == 0 ==> r is None && final(pipeline_epochs).data@ == old(pipeline_epochs).data@,
        old(pipeline_epochs).data@.len() > 0 ==> r == Some(old(pipeline_epochs).data@.last()) && final(pipeline_epochs).data@ == old(pipeline_epochs).data@.drop_last(),
{
    pipeline_epochs.data.pop()
}

/// The number of bytes that a readback of `width` by `height` pixels needs.
pub open spec fn readback_len(width: u32, height: u32) -> int {
    width as int * height as int * 4
}

/// Checks a readback of the last rendered frame into a buffer of
/// `buffer_size` bytes, and returns the number of bytes to copy.
pub fn wr_renderer_readback(renderer: &WrRenderer, width: u32, height: u32, buffer_size: usize) -> (r: Result<usize, ReadbackError>)
    ensures
        !renderer.has_rendered ==> r == Err::<usize, ReadbackError>(ReadbackError::NotRendered),
        renderer.has_rendered && buffer_size as int != readback_len(width, height) ==> r == Err::<usize, ReadbackError>(ReadbackError::WrongBufferSize),
        renderer.has_rendered && buffer_size as int == readback_len(width, height) ==> r == Ok::<usize, ReadbackError>(buffer_size),
{
    if !renderer.has_rendered {
        return Err(ReadbackError::NotRendered);
    }
    proof {
        assert(width as int * height as int <= 0xffff_ffff * 0xffff_ffff) by (nonlinear_arith)
            requires
                width <= 0xffff_ffff,
                height <= 0xffff_ffff,
        ;
    }
    let needed: u128 = width as u128 * height as u128 * 4;
    if needed != buffer_size as u128 {
        Err(ReadbackError::WrongBufferSize)
    } else {
        Ok(buffer_size)
    }
}

/// Where the pixels of image `key` come from in the next frame.
pub fn resolve_image(renderer: &WrRenderer, key: ImageKey) -> (r: ImageSource)
    requires
        renderer.wf(),
    ensures
        !renderer.images.view().contains_key((key.0, key.1)) <==> r == ImageSource::Missing,
        renderer.images.view().contains_key((key.0, key.1)) ==> r == match renderer.images.view()[(key.0, key.1)].data {
            ImageData::Raw(_) => ImageSource::Raw,
            ImageData::Blob(_) => ImageSource::Blob,
            ImageData::External(id, _) => if renderer.has_external_image_handler {
                ImageSource::External(id)
            } else {
                ImageSource::NoHandler
            },
        },
{
    match renderer.images.get((key.0, key.1)) {
        None => ImageSource::Missing,
        Some(img) => match &img.data {
            ImageData::Raw(_) => ImageSource::Raw,
            ImageData::Blob(_) => ImageSource::Blob,
            ImageData::External(id, _) => if renderer.has_external_image_handler {
                ImageSource::External(*id)
            } else {
                ImageSource::NoHandler
            },
        },
    }
}

/// Whether font `key` is registered.
pub fn has_font(renderer: &WrRenderer, key: FontKey) -> (r: bool)
    requires
        renderer.wf(),
    ensures
        r == renderer.fonts.view().contains_key((key.0, key.1)),
{
    renderer.fonts.get((key.0, key.1)).is_some()
}

/// Takes the signals queued for the producer's notifier, oldest first.
pub fn take_notifications(renderer: &mut WrRenderer) -> (r: Vec<Notification>)
    requires
        old(renderer).wf(),
    ensures
        final(renderer).wf(),
        r@ == old(renderer).notifications@,
        final(renderer).notifications@.len() == 0,
        final(renderer).current == old(renderer).current,
        final(renderer).rendered == old(renderer).rendered,
{
    let mut r: Vec<Notification> = Vec::new();
    std::mem::swap(&mut r, &mut renderer.notifications);
    r
}

} // verus!
