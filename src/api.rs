//! The producer's side of the renderer: calls that queue resource changes
//! and display-list submissions for the render context to apply at its next
//! update.

use vstd::prelude::*;
use crate::codec::{DecodeError, WrBuiltDisplayListDescriptor, decode, spec_decode};
use crate::display_list::{BuiltDisplayList, DisplayListView};
use crate::geom::{WrColor, WrSize};
use crate::ids::{Epoch, FontKey, IdNamespace, ImageKey, PipelineId, WrExternalImageId};
use crate::resources::{ExternalImageType, ImageData, ImageDescriptor, WrImageDescriptor};
use crate::table::{Key, KeyTable};

verus! {

/// One queued change for the render context.
#[derive(Debug)]
pub enum ApiMsg {
    SetDisplayList {
        pipeline_id: PipelineId,
        epoch: Epoch,
        viewport: WrSize,
        background: Option<WrColor>,
        preserve_frame_state: bool,
        list: BuiltDisplayList,
    },
    AddImage { key: ImageKey, descriptor: ImageDescriptor, data: ImageData },
    UpdateImage { key: ImageKey, descriptor: ImageDescriptor, data: ImageData },
    DeleteImage(ImageKey),
    AddRawFont { key: FontKey, bytes: Vec<u8> },
    DeleteFont(FontKey),
    SetRootPipeline(PipelineId),
    SetWindowParameters { width: u32, height: u32 },
    GenerateFrame,
    ExternalEvent(usize),
}

/// Why a display-list submission was refused.
#[derive(Clone, Copy, Debug, PartialEq, Eq, Structural)]
pub enum SubmitError {
    /// The buffer and descriptor do not hold a display list.
    Decode(DecodeError),
    /// The epoch is not above the last one submitted for the pipeline.
    EpochNotIncreasing,
}

/// A producer connection: its id namespace, the last epoch it submitted for
/// each pipeline, and the changes it has queued.
pub struct WrAPI {
    pub id_namespace: IdNamespace,
    pub submitted: KeyTable<Epoch>,
    pub messages: Vec<ApiMsg>,
}

pub open spec fn pipeline_key(p: PipelineId) -> Key {
    (p.0, p.1)
}

impl WrAPI {
    pub open spec fn wf(&self) -> bool {
        self.submitted.wf()
    }

    pub fn new(id_namespace: IdNamespace) -> (api: WrAPI)
        ensures
            api.wf(),
            api.id_namespace == id_namespace,
            api.submitted.view() == Map::<Key, Epoch>::empty(),
            api.messages@.len() == 0,
    {
        WrAPI { id_namespace, submitted: KeyTable::new(), messages: Vec::new() }
    }

    /// The last epoch submitted for `p`.
    pub fn last_submitted(&self, p: PipelineId) -> (r: Option<Epoch>)
        requires
            self.wf(),
        ensures
            r == (if self.submitted.view().contains_key(pipeline_key(p)) {
                Some(self.submitted.view()[pipeline_key(p)])
            } else {
                None
            }),
    {
        match self.submitted.get((p.0, p.1)) {
            Some(e) => Some(*e),
            None => None,
        }
    }
}

/// Whether `epoch` may follow what `api` last submitted for `p`.
pub open spec fn epoch_accepted(api: &WrAPI, p: PipelineId, epoch: Epoch) -> bool {
    !api.submitted.view().contains_key(pipeline_key(p)) || api.submitted.view()[pipeline_key(
        p,
    )].0 < epoch.0
}

/// Queues an image given by its pixels.
pub fn wr_api_add_image(api: &mut WrAPI, image_key: ImageKey, descriptor: &WrImageDescriptor, bytes: Vec<u8>)
    ensures
        final(api).id_namespace == old(api).id_namespace,
        final(api).submitted == old(api).submitted,
        final(api).messages@ == old(api).messages@.push(
            ApiMsg::AddImage { key: image_key, descriptor: descriptor.spec_to_descriptor(), data: ImageData::Raw(bytes) },
        ),
{
    api.messages.push(ApiMsg::AddImage { key: image_key, descriptor: descriptor.to_descriptor(), data: ImageData::Raw(bytes) });
}

/// Queues an image given by encoded vector data.
pub fn wr_api_add_blob_image(api: &mut WrAPI, image_key: ImageKey, descriptor: &WrImageDescriptor, bytes: Vec<u8>)
    ensures
        final(api).id_namespace == old(api).id_namespace,
        final(api).submitted == old(api).submitted,
        final(api).messages@ == old(api).messages@.push(
            ApiMsg::AddImage { key: image_key, descriptor: descriptor.spec_to_descriptor(), data: ImageData::Blob(bytes) },
        ),
{
    api.messages.push(ApiMsg::AddImage { key: image_key, descriptor: descriptor.to_descriptor(), data: ImageData::Blob(bytes) });
}

/// Queues an image that lives in a producer-owned texture.
pub fn wr_api_add_external_image_handle(api: &mut WrAPI, image_key: ImageKey, descriptor: &WrImageDescriptor, external_image_id: u64)
    ensures
        final(api).id_namespace == old(api).id_namespace,
        final(api).submitted == old(api).submitted,
        final(api).messages@ == old(api).messages@.push(
            ApiMsg::AddImage {
                key: image_key,
                descriptor: descriptor.spec_to_descriptor(),
                data: ImageData::External(WrExternalImageId(external_image_id), ExternalImageType::Texture2DHandle),
            },
        ),
{
    api.messages.push(ApiMsg::AddImage {
        key: image_key,
        descriptor: descriptor.to_descriptor(),
        data: ImageData::External(WrExternalImageId(external_image_id), ExternalImageType::Texture2DHandle),
    });
}

/// Queues an image that lives in a producer-owned pixel buffer.
pub fn wr_api_add_external_image_buffer(api: &mut WrAPI, image_key: ImageKey, descriptor: &WrImageDescriptor, external_image_id: u64)
    ensures
        final(api).id_namespace == old(api).id_namespace,
        final(api).submitted == old(api).submitted,
        final(api).messages@ == old(api).messages@.push(
            ApiMsg::AddImage {
                key: image_key,
                descriptor: descriptor.spec_to_descriptor(),
                data: ImageData::External(WrExternalImageId(external_image_id), ExternalImageType::ExternalBuffer),
            },
        ),
{
    api.messages.push(ApiMsg::AddImage {
        key: image_key,
        descriptor: descriptor.to_descriptor(),
        data: ImageData::External(WrExternalImageId(external_image_id), ExternalImageType::ExternalBuffer),
    });
}

/// Queues new pixels for an image.
pub fn wr_api_update_image(api: &mut WrAPI, key: ImageKey, descriptor: &WrImageDescriptor, bytes: Vec<u8>)
    ensures
        final(api).id_namespace == old(api).id_namespace,
        final(api).submitted == old(api).submitted,
        final(api).messages@ == old(api).messages@.push(
            ApiMsg::UpdateImage { key, descriptor: descriptor.spec_to_descriptor(), data: ImageData::Raw(bytes) },
        ),
{
    api.messages.push(ApiMsg::UpdateImage { key, descriptor: descriptor.to_descriptor(), data: ImageData::Raw(bytes) });
}

/// Queues the deletion of an image.
pub fn wr_api_delete_image(api: &mut WrAPI, key: ImageKey)
    ensures
        final(api).id_namespace == old(api).id_namespace,
        final(api).submitted == old(api).submitted,
        final(api).messages@ == old(api).messages@.push(ApiMsg::DeleteImage(key)),
{
    api.messages.push(ApiMsg::DeleteImage(key));
}

/// Queues a font given by its file bytes.
pub fn wr_api_add_raw_font(api: &mut WrAPI, key: FontKey, font_buffer: Vec<u8>)
    ensures
        final(api).id_namespace == old(api).id_namespace,
        final(api).submitted == old(api).submitted,
        final(api).messages@ == old(api).messages@.push(ApiMsg::AddRawFont { key, bytes: font_buffer }),
{
    api.messages.push(ApiMsg::AddRawFont { key, bytes: font_buffer });
}

/// Queues the deletion of a font.
pub fn wr_api_delete_font(api: &mut WrAPI, key: FontKey)
    ensures
        final(api).id_namespace == old(api).id_namespace,
        final(api).submitted == old(api).submitted,
        final(api).messages@ == old(api).messages@.push(ApiMsg::DeleteFont(key)),
{
    api.messages.push(ApiMsg::DeleteFont(key));
}

/// Makes `pipeline_id` the root pipeline and asks for a frame.
pub fn wr_api_set_root_pipeline(api: &mut WrAPI, pipeline_id: PipelineId)
    ensures
        final(api).id_namespace == old(api).id_namespace,
        final(api).submitted == old(api).submitted,
        final(api).messages@ == old(api).messages@.push(ApiMsg::SetRootPipeline(pipeline_id)).push(ApiMsg::GenerateFrame),
{
    api.messages.push(ApiMsg::SetRootPipeline(pipeline_id));
    api.messages.push(ApiMsg::GenerateFrame);
}

/// Queues a new window size.
pub fn wr_api_set_window_parameters(api: &mut WrAPI, width: u32, height: u32)
    ensures
        final(api).id_namespace == old(api).id_namespace,
        final(api).submitted == old(api).submitted,
        final(api).messages@ == old(api).messages@.push(ApiMsg::SetWindowParameters { width, height }),
{
    api.messages.push(ApiMsg::SetWindowParameters { width, height });
}

/// Asks for a frame to be composited from the latest display lists.
pub fn wr_api_generate_frame(api: &mut WrAPI)
    ensures
        final(api).id_namespace == old(api).id_namespace,
        final(api).submitted == old(api).submitted,
        final(api).messages@ == old(api).messages@.push(ApiMsg::GenerateFrame),
{
    api.messages.push(ApiMsg::GenerateFrame);
}

/// Queues an event to be handed back to the producer through the notifier.
pub fn wr_api_send_external_event(api: &mut WrAPI, evt: usize)
    ensures
        final(api).id_namespace == old(api).id_namespace,
        final(api).submitted == old(api).submitted,
        final(api).messages@ == old(api).messages@.push(ApiMsg::ExternalEvent(evt)),
{
    api.messages.push(ApiMsg::ExternalEvent(evt));
}

/// The namespace that this connection allocates keys in.
pub fn wr_api_get_namespace(api: &WrAPI) -> (r: IdNamespace)
    ensures
        r == api.id_namespace,
{
    api.id_namespace
}

/// The colour behind the root pipeline's content.
pub open spec fn root_background() -> WrColor {
    WrColor { r: 77, g: 0, b: 0, a: 255 }
}

pub fn root_background_color() -> (c: WrColor)
    ensures
        c == root_background(),
{
    WrColor { r: 77, g: 0, b: 0, a: 255 }
}

/// Queues `list` as the display list of `pipeline_id` at `epoch`, which must
/// be above the last epoch submitted for that pipeline.
pub fn submit_display_list(
    api: &mut WrAPI,
    epoch: Epoch,
    viewport: WrSize,
    pipeline_id: PipelineId,
    background: Option<WrColor>,
    preserve_frame_state: bool,
    list: BuiltDisplayList,
) -> (r: Result<(), SubmitError>)
    requires
        old(api).wf(),
    ensures
        final(api).wf(),
        final(api).id_namespace == old(api).id_namespace,
        r is Ok <==> epoch_accepted(old(api), pipeline_id, epoch),
        r is Err ==> r->Err_0 == SubmitError::EpochNotIncreasing && final(api).submitted == old(api).submitted && final(api).messages@ == old(api).messages@,
        r is Ok ==> final(api).submitted.view() == old(api).submitted.view().insert(pipeline_key(pipeline_id), epoch),
        r is Ok ==> final(api).messages@ == old(api).messages@.push(
            ApiMsg::SetDisplayList { pipeline_id, epoch, viewport, background, preserve_frame_state, list },
        ),
{
    if let Some(last) = api.last_submitted(pipeline_id) {
        if epoch.0 <= last.0 {
            return Err(SubmitError::EpochNotIncreasing);
        }
    }
    api.submitted.set((pipeline_id.0, pipeline_id.1), epoch);
    api.messages.push(ApiMsg::SetDisplayList { pipeline_id, epoch, viewport, background, preserve_frame_state, list });
    Ok(())
}

/// Decodes an encoded display list and queues it as the display list of
/// `pipeline_id` at `epoch`.
pub fn wr_api_set_root_display_list(
    api: &mut WrAPI,
    epoch: Epoch,
    viewport: WrSize,
    pipeline_id: PipelineId,
    dl_descriptor: WrBuiltDisplayListDescriptor,
    dl_data: Vec<u8>,
) -> (r: Result<(), SubmitError>)
    requires
        old(api).wf(),
    ensures
        final(api).wf(),
        final(api).id_namespace == old(api).id_namespace,
        r is Ok <==> (spec_decode(dl_data@, dl_descriptor) is Ok && epoch_accepted(old(api), pipeline_id, epoch)),
        spec_decode(dl_data@, dl_descriptor) is Err ==> r == Err::<(), SubmitError>(SubmitError::Decode(spec_decode(dl_data@, dl_descriptor)->Err_0)),
        r is Err ==> final(api).submitted == old(api).submitted && final(api).messages@ == old(api).messages@,
        r is Ok ==> final(api).submitted.view() == old(api).submitted.view().insert(pipeline_key(pipeline_id), epoch),
        r is Ok ==> exists|list: BuiltDisplayList|
            #![trigger list@]
            final(api).messages@ == old(api).messages@.push(
                ApiMsg::SetDisplayList {
                    pipeline_id,
                    epoch,
                    viewport,
                    background: Some(root_background()),
                    preserve_frame_state: true,
                    list,
                },
            ) && Ok::<DisplayListView, DecodeError>(list@) == spec_decode(dl_data@, dl_descriptor),
{
    match decode(&dl_data, &dl_descriptor) {
        Err(e) => Err(SubmitError::Decode(e)),
        Ok(list) => {
            let ghost l = list;
            let r = submit_display_list(api, epoch, viewport, pipeline_id, Some(root_background_color()), true, list);
            assert(r is Ok ==> final(api).messages@ == old(api).messages@.push(
                ApiMsg::SetDisplayList {
                    pipeline_id,
                    epoch,
                    viewport,
                    background: Some(root_background()),
                    preserve_frame_state: true,
                    list: l,
                },
            ) && l@ == l@);
            r
        },
    }
}

/// Queues an empty display list for `pipeline_id` at `epoch`.
pub fn wr_api_clear_root_display_list(api: &mut WrAPI, epoch: Epoch, pipeline_id: PipelineId) -> (r: Result<(), SubmitError>)
    requires
        old(api).wf(),
    ensures
        final(api).wf(),
        final(api).id_namespace == old(api).id_namespace,
        r is Ok <==> epoch_accepted(old(api), pipeline_id, epoch),
        r is Err ==> r->Err_0 == SubmitError::EpochNotIncreasing && final(api).submitted == old(api).submitted && final(api).messages@ == old(api).messages@,
        r is Ok ==> final(api).submitted.view() == old(api).submitted.view().insert(pipeline_key(pipeline_id), epoch),
        r is Ok ==> exists|list: BuiltDisplayList|
            #![trigger list@]
            final(api).messages@ == old(api).messages@.push(
                ApiMsg::SetDisplayList {
                    pipeline_id,
                    epoch,
                    viewport: WrSize { width: 0, height: 0 },
                    background: Some(root_background()),
                    preserve_frame_state: true,
                    list,
                },
            ) && list@ == DisplayListView::empty(),
{
    let list = BuiltDisplayList::new();
    let ghost l = list;
    let r = submit_display_list(
        api,
        epoch,
        WrSize { width: 0, height: 0 },
        pipeline_id,
        Some(root_background_color()),
        true,
        list,
    );
    assert(r is Ok ==> final(api).messages@ == old(api).messages@.push(
        ApiMsg::SetDisplayList {
            pipeline_id,
            epoch,
            viewport: WrSize { width: 0, height: 0 },
            background: Some(root_background()),
            preserve_frame_state: true,
            list: l,
        },
    ) && l@ == DisplayListView::empty());
    r
}

} // verus!
