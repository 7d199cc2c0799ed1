//! Render proxies: where the simulation hands render data over to the
//! render side, one whole snapshot at a time.

use super::label::{holds_label, label_views, PipelineLabelView, RenderPipelineLabel};
use vstd::prelude::*;

verus! {

/// A GPU buffer, by the handle under which the host keeps it.
#[derive(Debug, Clone, Copy, PartialEq, Eq, Structural)]
pub struct BufferHandle {
    pub id: u64,
}

/// A range of bytes of a buffer, from `start` up to `end`.
#[derive(Debug, Clone, Copy, PartialEq, Eq, Structural)]
pub struct BufferSlice {
    pub start: u64,
    pub end: u64,
}

impl BufferSlice {
    /// The number of bytes in the range, which is none where the range ends
    /// before it starts.
    pub open spec fn spec_len(&self) -> u64 {
        if self.end >= self.start {
            (self.end - self.start) as u64
        } else {
            0
        }
    }

    #[verifier::when_used_as_spec(spec_len)]
    pub fn len(&self) -> (bytes: u64)
        ensures
            bytes == self.spec_len(),
    {
        if self.end >= self.start {
            self.end - self.start
        } else {
            0
        }
    }
}

/// A view of the render data of one primitive type, good for one frame.
#[derive(Debug, Clone, Copy)]
pub struct PrimitiveRenderState<'a> {
    /// The render pipelines that this data is submitted to.
    pub pipeline: &'a [RenderPipelineLabel<'a>],
    pub vertex_buffer: BufferHandle,
    pub buffer_slice: BufferSlice,
}

/// The render data of one primitive type, apart from where it is stored.
pub struct RenderStateView {
    pub pipeline: Seq<PipelineLabelView>,
    pub vertex_buffer: BufferHandle,
    pub buffer_slice: BufferSlice,
}

impl<'a> View for PrimitiveRenderState<'a> {
    type V = RenderStateView;

    open spec fn view(&self) -> RenderStateView {
        RenderStateView {
            pipeline: label_views(self.pipeline@),
            vertex_buffer: self.vertex_buffer,
            buffer_slice: self.buffer_slice,
        }
    }
}

/// What a proxy hands out for a pipeline: the data that was published last,
/// where there is any and it goes to that pipeline.
pub open spec fn collectable(
    published: Option<RenderStateView>,
    pipeline_type: PipelineLabelView,
) -> Option<RenderStateView> {
    match published {
        Some(data) if data.pipeline.contains(pipeline_type) => Some(data),
        _ => None,
    }
}

/// A proxy that keeps the render data of one primitive type for the render
/// side. The simulation publishes into it; the frame driver collects from it.
pub trait RenderProxy {
    /// What was published last, if anything was.
    spec fn published(&self) -> Option<RenderStateView>;

    /// The render data for one pipeline, to be fetched every frame. There is
    /// none before the first publication, and none for a pipeline that the
    /// published data does not go to.
    fn collect_renderdata<'a>(&'a self, pipeline_type: RenderPipelineLabel<'_>) -> (collected:
        Result<PrimitiveRenderState<'a>, ()>)
        ensures
            collected matches Ok(state) ==> collectable(self.published(), pipeline_type@) == Some(
                state@,
            ),
            collected is Err ==> collectable(self.published(), pipeline_type@) is None,
    ;
}

/// One publication of a primitive type's render data.
pub struct Publication<'l> {
    /// The simulation tick that the data is of.
    pub tick: u64,
    pub pipeline: Vec<RenderPipelineLabel<'l>>,
    pub vertex_buffer: BufferHandle,
    pub buffer_slice: BufferSlice,
}

/// A publication, apart from where it is stored.
pub struct PublicationView {
    pub tick: u64,
    pub state: RenderStateView,
}

impl<'l> View for Publication<'l> {
    type V = PublicationView;

    open spec fn view(&self) -> PublicationView {
        PublicationView {
            tick: self.tick,
            state: RenderStateView {
                pipeline: label_views(self.pipeline@),
                vertex_buffer: self.vertex_buffer,
                buffer_slice: self.buffer_slice,
            },
        }
    }
}

/// A render proxy that keeps the last publication whole: a publication
/// replaces the one before it in a single step, so that what is collected is
/// always the data of one tick.
pub struct SnapshotProxy<'l> {
    latest: Option<Publication<'l>>,
}

impl<'l> SnapshotProxy<'l> {
    /// The publication that the proxy keeps.
    pub closed spec fn latest(&self) -> Option<PublicationView> {
        match self.latest {
            Some(publication) => Some(publication@),
            None => None,
        }
    }

    /// A proxy that nothing was published into.
    pub fn new() -> (proxy: Self)
        ensures
            proxy.latest() is None,
    {
        SnapshotProxy { latest: None }
    }

    /// Replaces what the proxy keeps by the given publication.
    pub fn publish(&mut self, publication: Publication<'l>)
        ensures
            final(self).latest() == Some(publication@),
    {
        self.latest = Some(publication);
    }

    /// A copy of the proxy as it is now, for the frame driver to collect
    /// from while the simulation goes on publishing.
    pub fn snapshot(&self) -> (copy: Self)
        ensures
            copy.latest() == self.latest(),
    {
        match &self.latest {
            Some(publication) => {
                let mut pipeline: Vec<RenderPipelineLabel<'l>> = Vec::new();
                let mut i: usize = 0;
                while i < publication.pipeline.len()
                    invariant
                        i <= publication.pipeline@.len(),
                        pipeline@ == publication.pipeline@.take(i as int),
                    decreases publication.pipeline.len() - i,
                {
                    pipeline.push(publication.pipeline[i]);
                    assert(publication.pipeline@.take(i + 1) =~= publication.pipeline@.take(
                        i as int,
                    ).push(publication.pipeline@[i as int]));
                    i += 1;
                }
                assert(publication.pipeline@.take(publication.pipeline@.len() as int)
                    =~= publication.pipeline@);
                SnapshotProxy {
                    latest: Some(
                        Publication {
                            tick: publication.tick,
                            pipeline,
                            vertex_buffer: publication.vertex_buffer,
                            buffer_slice: publication.buffer_slice,
                        },
                    ),
                }
            },
            None => SnapshotProxy { latest: None },
        }
    }

    /// The tick of the publication that the proxy keeps.
    pub fn published_tick(&self) -> (tick: Option<u64>)
        ensures
            tick == match self.latest() {
                Some(publication) => Some(publication.tick),
                None => None,
            },
    {
        match &self.latest {
            Some(publication) => Some(publication.tick),
            None => None,
        }
    }
}

impl<'l> RenderProxy for SnapshotProxy<'l> {
    open spec fn published(&self) -> Option<RenderStateView> {
        match self.latest() {
            Some(publication) => Some(publication.state),
            None => None,
        }
    }

    fn collect_renderdata<'a>(&'a self, pipeline_type: RenderPipelineLabel<'_>) -> (collected:
        Result<PrimitiveRenderState<'a>, ()>) {
        match &self.latest {
            Some(publication) => {
                if holds_label(publication.pipeline.as_slice(), pipeline_type) {
                    Ok(
                        PrimitiveRenderState {
                            pipeline: publication.pipeline.as_slice(),
                            vertex_buffer: publication.vertex_buffer,
                            buffer_slice: publication.buffer_slice,
                        },
                    )
                } else {
                    Err(())
                }
            },
            None => Err(()),
        }
    }
}

/// A call on a render proxy, from the simulation or from the frame driver.
pub enum ProxyCall {
    Publish(PublicationView),
    Collect(PipelineLabelView),
}

/// What a proxy keeps after a sequence of calls: a publication replaces
/// what was kept, a collection leaves it.
pub open spec fn kept_after(kept: Option<PublicationView>, calls: Seq<ProxyCall>) -> Option<
    PublicationView,
>
    decreases calls.len(),
{
    if calls.len() == 0 {
        kept
    } else {
        match calls.last() {
            ProxyCall::Publish(publication) => Some(publication),
            ProxyCall::Collect(_) => kept_after(kept, calls.drop_last()),
        }
    }
}

/// What a proxy that keeps `kept` hands out for a pipeline.
pub open spec fn handed_out(kept: Option<PublicationView>, pipeline_type: PipelineLabelView) -> Option<
    RenderStateView,
> {
    match kept {
        Some(publication) => collectable(Some(publication.state), pipeline_type),
        None => None,
    }
}

/// Whether `source` is the publication that the first `count` calls leave
/// in the proxy: the last one published among them, or, where none of them
/// publishes, the one that the proxy kept before.
pub open spec fn is_latest_publication(
    kept: Option<PublicationView>,
    calls: Seq<ProxyCall>,
    count: int,
    source: PublicationView,
) -> bool {
    ||| exists|j: int|
        {
            &&& 0 <= j < count
            &&& #[trigger] calls[j] == ProxyCall::Publish(source)
            &&& forall|k: int| j < k < count ==> !(#[trigger] calls[k] is Publish)
        }
    ||| {
        &&& kept == Some(source)
        &&& forall|k: int| 0 <= k < count ==> !(#[trigger] calls[k] is Publish)
    }
}

proof fn lemma_kept_is_latest(kept: Option<PublicationView>, calls: Seq<ProxyCall>)
    ensures
        kept_after(kept, calls) matches Some(source) ==> is_latest_publication(
            kept,
            calls,
            calls.len() as int,
            source,
        ),
    decreases calls.len(),
{
    if calls.len() > 0 {
        let earlier = calls.drop_last();
        lemma_kept_is_latest(kept, earlier);
        match calls.last() {
            ProxyCall::Publish(publication) => {
                assert(calls[calls.len() - 1] == ProxyCall::Publish(publication));
            },
            ProxyCall::Collect(_) => {
                if let Some(source) = kept_after(kept, earlier) {
                    if exists|j: int|
                        {
                            &&& 0 <= j < earlier.len()
                            &&& #[trigger] earlier[j] == ProxyCall::Publish(source)
                            &&& forall|k: int|
                                j < k < earlier.len() ==> !(#[trigger] earlier[k] is Publish)
                        } {
                        let j = choose|j: int|
                            {
                                &&& 0 <= j < earlier.len()
                                &&& #[trigger] earlier[j] == ProxyCall::Publish(source)
                                &&& forall|k: int|
                                    j < k < earlier.len() ==> !(#[trigger] earlier[k] is Publish)
                            };
                        assert(calls[j] == ProxyCall::Publish(source));
                        assert forall|k: int| j < k < calls.len() implies !(#[trigger] calls[k]
                            is Publish) by {
                            if k < earlier.len() {
                                assert(calls[k] == earlier[k]);
                            }
                        }
                    } else {
                        assert forall|k: int| 0 <= k < calls.len() implies !(#[trigger] calls[k]
                            is Publish) by {
                            if k < earlier.len() {
                                assert(calls[k] == earlier[k]);
                            }
                        }
                    }
                }
            },
        }
    }
}

/// However publications and collections follow one another, whatever a
/// collection hands out is the data of one publication, whole: pipelines,
/// vertex buffer and byte range are those of the last publication before
/// the collection, and so of one tick.
pub proof fn lemma_collected_data_is_of_one_publication(
    kept: Option<PublicationView>,
    calls: Seq<ProxyCall>,
    at: int,
)
    requires
        0 <= at < calls.len(),
        calls[at] is Collect,
    ensures
        handed_out(kept_after(kept, calls.take(at)), calls[at]->Collect_0) matches Some(state)
            ==> exists|source: PublicationView|
            {
                &&& #[trigger] is_latest_publication(kept, calls, at, source)
                &&& state == source.state
            },
{
    let earlier = calls.take(at);
    lemma_kept_is_latest(kept, earlier);
    if let Some(source) = kept_after(kept, earlier) {
        if exists|j: int|
            {
                &&& 0 <= j < at
                &&& #[trigger] earlier[j] == ProxyCall::Publish(source)
                &&& forall|k: int| j < k < at ==> !(#[trigger] earlier[k] is Publish)
            } {
            let j = choose|j: int|
                {
                    &&& 0 <= j < at
                    &&& #[trigger] earlier[j] == ProxyCall::Publish(source)
                    &&& forall|k: int| j < k < at ==> !(#[trigger] earlier[k] is Publish)
                };
            assert(calls[j] == ProxyCall::Publish(source));
            assert forall|k: int| j < k < at implies !(#[trigger] calls[k] is Publish) by {
                assert(calls[k] == earlier[k]);
            }
        } else {
            assert forall|k: int| 0 <= k < at implies !(#[trigger] calls[k] is Publish) by {
                assert(calls[k] == earlier[k]);
            }
        }
        assert(is_latest_publication(kept, calls, at, source));
    }
}

} // verus!
