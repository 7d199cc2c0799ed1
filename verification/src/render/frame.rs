//! The frame driver: what is done, and in which order, for one redraw request.

use super::device::{DeviceError, DeviceStatus, GraphInterfaceResource};
use super::surface::{FrameDirective, SurfaceError, EXIT_GPU_FAILURE};
use super::windows::{holds_window, lemma_push_keeps_distinct};
use crate::component::label::{label_views, PipelineLabelView, RenderPipelineLabel};
use crate::component::proxy::{
    collectable, BufferHandle, BufferSlice, RenderProxy, RenderStateView,
};
use vstd::prelude::*;

verus! {

/// One draw: the render data of one primitive type under one pipeline.
#[derive(Debug, Clone, Copy, PartialEq, Eq, Structural)]
pub struct DrawCall {
    /// Which of the registered pipelines is bound for the draw.
    pub pipeline: usize,
    /// Which of the registered primitive types the data is of.
    pub primitive: usize,
    pub vertex_buffer: BufferHandle,
    pub buffer_slice: BufferSlice,
}

/// The render pass of one surface.
#[derive(Debug)]
pub struct RenderPass {
    /// The window whose acquired texture the pass draws to.
    pub target: u64,
    pub draws: Vec<DrawCall>,
}

/// The commands of one frame: one buffer for the device, whatever the number
/// of surfaces.
#[derive(Debug)]
pub struct CommandBuffer {
    pub passes: Vec<RenderPass>,
}

/// What each proxy of a list has published.
pub open spec fn published_of<P: RenderProxy>(proxies: Seq<P>) -> Seq<Option<RenderStateView>> {
    Seq::new(proxies.len(), |i: int| proxies[i].published())
}

/// The draws under one pipeline, over the first `count` primitive types, in
/// their order: one for each type whose proxy hands out data for the
/// pipeline.
pub open spec fn pipeline_draws(
    label: PipelineLabelView,
    pipeline: int,
    published: Seq<Option<RenderStateView>>,
    count: int,
) -> Seq<DrawCall>
    decreases count,
{
    if count <= 0 {
        Seq::empty()
    } else {
        let earlier = pipeline_draws(label, pipeline, published, count - 1);
        match collectable(published[count - 1], label) {
            Some(state) => earlier.push(
                DrawCall {
                    pipeline: pipeline as usize,
                    primitive: (count - 1) as usize,
                    vertex_buffer: state.vertex_buffer,
                    buffer_slice: state.buffer_slice,
                },
            ),
            None => earlier,
        }
    }
}

/// The draws of a frame over the first `count` pipelines: pipeline by
/// pipeline, so that each pipeline is bound once.
pub open spec fn frame_draws(
    labels: Seq<PipelineLabelView>,
    published: Seq<Option<RenderStateView>>,
    count: int,
) -> Seq<DrawCall>
    decreases count,
{
    if count <= 0 {
        Seq::empty()
    } else {
        frame_draws(labels, published, count - 1) + pipeline_draws(
            labels[count - 1],
            count - 1,
            published,
            published.len() as int,
        )
    }
}

/// Whether a list of draws holds the draw of the given primitive type's data
/// under the given pipeline.
pub open spec fn draws_data(
    draws: Seq<DrawCall>,
    pipeline: int,
    primitive: int,
    state: RenderStateView,
) -> bool {
    draws.contains(
        DrawCall {
            pipeline: pipeline as usize,
            primitive: primitive as usize,
            vertex_buffer: state.vertex_buffer,
            buffer_slice: state.buffer_slice,
        },
    )
}

proof fn lemma_pipeline_draws(
    label: PipelineLabelView,
    pipeline: int,
    published: Seq<Option<RenderStateView>>,
    count: int,
)
    requires
        0 <= pipeline <= usize::MAX,
        0 <= count <= published.len() <= usize::MAX,
    ensures
        forall|k: int|
            0 <= k < pipeline_draws(label, pipeline, published, count).len() ==> ({
                let draw = #[trigger] pipeline_draws(label, pipeline, published, count)[k];
                &&& draw.pipeline == pipeline
                &&& draw.primitive < count
                &&& collectable(published[draw.primitive as int], label) matches Some(state)
                &&& draw.vertex_buffer == state.vertex_buffer
                &&& draw.buffer_slice == state.buffer_slice
            }),
        forall|i: int, j: int|
            0 <= i < j < pipeline_draws(label, pipeline, published, count).len() ==> (
            #[trigger] pipeline_draws(label, pipeline, published, count)[i]).primitive < (
            #[trigger] pipeline_draws(label, pipeline, published, count)[j]).primitive,
        forall|q: int|
            0 <= q < count ==> (#[trigger] collectable(published[q], label) matches Some(state)
                ==> draws_data(
                pipeline_draws(label, pipeline, published, count),
                pipeline,
                q,
                state,
            )),
    decreases count,
{
    if count > 0 {
        lemma_pipeline_draws(label, pipeline, published, count - 1);
        let earlier = pipeline_draws(label, pipeline, published, count - 1);
        let draws = pipeline_draws(label, pipeline, published, count);
        assert forall|q: int| 0 <= q < count implies (#[trigger] collectable(published[q], label)
            matches Some(state) ==> draws_data(draws, pipeline, q, state)) by {
            if let Some(state) = collectable(published[q], label) {
                let wanted = DrawCall {
                    pipeline: pipeline as usize,
                    primitive: q as usize,
                    vertex_buffer: state.vertex_buffer,
                    buffer_slice: state.buffer_slice,
                };
                if q < count - 1 {
                    assert(earlier.contains(wanted));
                    let k = choose|k: int| 0 <= k < earlier.len() && earlier[k] == wanted;
                    assert(draws[k] == wanted);
                } else {
                    assert(draws[earlier.len() as int] == wanted);
                }
            }
        }
    }
}

/// The draws of a frame are grouped by pipeline, in the order of the
/// pipelines, and within a pipeline they follow the order of the primitive
/// types, so that no pipeline is bound twice and nothing is drawn twice.
/// Every draw is of data that its primitive type's proxy hands out for its
/// pipeline, and all such data is drawn.
pub proof fn lemma_frame_draws_are_grouped(
    labels: Seq<PipelineLabelView>,
    published: Seq<Option<RenderStateView>>,
    count: int,
)
    requires
        0 <= count <= labels.len() <= usize::MAX,
        published.len() <= usize::MAX,
    ensures
        forall|k: int|
            0 <= k < frame_draws(labels, published, count).len() ==> ({
                let draw = #[trigger] frame_draws(labels, published, count)[k];
                &&& draw.pipeline < count
                &&& draw.primitive < published.len()
                &&& collectable(published[draw.primitive as int], labels[draw.pipeline as int])
                    matches Some(state)
                &&& draw.vertex_buffer == state.vertex_buffer
                &&& draw.buffer_slice == state.buffer_slice
            }),
        forall|i: int, j: int|
            0 <= i < j < frame_draws(labels, published, count).len() ==> ({
                let first = #[trigger] frame_draws(labels, published, count)[i];
                let second = #[trigger] frame_draws(labels, published, count)[j];
                first.pipeline < second.pipeline || (first.pipeline == second.pipeline
                    && first.primitive < second.primitive)
            }),
        forall|p: int, q: int|
            0 <= p < count && 0 <= q < published.len() ==> (#[trigger] collectable(
                published[q],
                labels[p],
            ) matches Some(state) ==> draws_data(
                frame_draws(labels, published, count),
                p,
                q,
                state,
            )),
    decreases count,
{
    if count > 0 {
        lemma_frame_draws_are_grouped(labels, published, count - 1);
        lemma_pipeline_draws(labels[count - 1], count - 1, published, published.len() as int);
        let earlier = frame_draws(labels, published, count - 1);
        let under = pipeline_draws(labels[count - 1], count - 1, published, published.len() as int);
        let draws = frame_draws(labels, published, count);
        assert(draws == earlier + under);
        assert forall|k: int| 0 <= k < draws.len() implies {
            let draw = #[trigger] draws[k];
            &&& draw.pipeline < count
            &&& draw.primitive < published.len()
            &&& collectable(published[draw.primitive as int], labels[draw.pipeline as int])
                matches Some(state)
            &&& draw.vertex_buffer == state.vertex_buffer
            &&& draw.buffer_slice == state.buffer_slice
        } by {
            if k < earlier.len() {
                assert(draws[k] == earlier[k]);
            } else {
                assert(draws[k] == under[k - earlier.len()]);
            }
        }
        assert forall|i: int, j: int| 0 <= i < j < draws.len() implies {
            let first = #[trigger] draws[i];
            let second = #[trigger] draws[j];
            first.pipeline < second.pipeline || (first.pipeline == second.pipeline
                && first.primitive < second.primitive)
        } by {
            if j < earlier.len() {
                assert(draws[i] == earlier[i] && draws[j] == earlier[j]);
            } else if i < earlier.len() {
                assert(draws[i] == earlier[i]);
                assert(draws[j] == under[j - earlier.len()]);
            } else {
                assert(draws[i] == under[i - earlier.len()]);
                assert(draws[j] == under[j - earlier.len()]);
            }
        }
        assert forall|p: int, q: int| 0 <= p < count && 0 <= q < published.len() implies (
        #[trigger] collectable(published[q], labels[p]) matches Some(state) ==> draws_data(
            draws,
            p,
            q,
            state,
        )) by {
            if let Some(state) = collectable(published[q], labels[p]) {
                let wanted = DrawCall {
                    pipeline: p as usize,
                    primitive: q as usize,
                    vertex_buffer: state.vertex_buffer,
                    buffer_slice: state.buffer_slice,
                };
                if p < count - 1 {
                    assert(draws_data(earlier, p, q, state));
                    let k = choose|k: int| 0 <= k < earlier.len() && earlier[k] == wanted;
                    assert(draws[k] == wanted);
                } else {
                    assert(draws_data(under, p, q, state));
                    let k = choose|k: int| 0 <= k < under.len() && under[k] == wanted;
                    assert(draws[earlier.len() + k] == wanted);
                }
            }
        }
    }
}

/// Collects the render data of every primitive type for every pipeline. A
/// proxy that has no data for a pipeline is passed over.
pub fn collect_frame_draws<P: RenderProxy>(
    pipelines: &[RenderPipelineLabel<'_>],
    proxies: &[P],
) -> (draws: Vec<DrawCall>)
    ensures
        draws@ == frame_draws(
            label_views(pipelines@),
            published_of(proxies@),
            pipelines@.len() as int,
        ),
{
    let ghost labels = label_views(pipelines@);
    let ghost published = published_of(proxies@);
    let mut draws: Vec<DrawCall> = Vec::new();
    let mut p: usize = 0;
    while p < pipelines.len()
        invariant
            p <= pipelines.len(),
            labels == label_views(pipelines@),
            published == published_of(proxies@),
            draws@ == frame_draws(labels, published, p as int),
        decreases pipelines.len() - p,
    {
        let ghost before = draws@;
        let mut q: usize = 0;
        while q < proxies.len()
            invariant
                p < pipelines.len(),
                q <= proxies.len(),
                labels == label_views(pipelines@),
                published == published_of(proxies@),
                draws@ == before + pipeline_draws(labels[p as int], p as int, published, q as int),
            decreases proxies.len() - q,
        {
            let ghost under = pipeline_draws(labels[p as int], p as int, published, q as int);
            match proxies[q].collect_renderdata(pipelines[p]) {
                Ok(state) => {
                    draws.push(
                        DrawCall {
                            pipeline: p,
                            primitive: q,
                            vertex_buffer: state.vertex_buffer,
                            buffer_slice: state.buffer_slice,
                        },
                    );
                    assert(draws@ =~= before + under.push(draws@.last()));
                },
                Err(_) => {},
            }
            q += 1;
        }
        p += 1;
    }
    draws
}

/// How far the frame driver has come in the frame at hand.
#[derive(Debug, Clone, Copy, PartialEq, Eq, Structural)]
pub enum FramePhase {
    /// Between frames.
    Idle,
    /// Textures are being acquired.
    Acquiring,
    /// The command buffer was encoded and waits to be submitted.
    Encoded,
    /// The command buffer was submitted; the textures wait to be presented.
    Submitted,
}

/// The frame driver. It runs once per redraw request, in this order: acquire
/// the texture of every configured surface, collect the render data, encode
/// one command buffer, submit it, present every acquired texture, count the
/// frame. The host does the GPU work and reports each step back.
pub struct FrameDriver {
    phase: FramePhase,
    targets: Vec<u64>,
    acquired: Vec<u64>,
    frames: u64,
}

impl FrameDriver {
    /// No window is held twice, every window that is held was asked for,
    /// nothing is left over between frames, and there is something to
    /// present whenever a command buffer is under way.
    #[verifier::type_invariant]
    spec fn well_formed(&self) -> bool {
        &&& self.targets@.no_duplicates()
        &&& self.acquired@.no_duplicates()
        &&& forall|i: int|
            0 <= i < self.acquired@.len() ==> self.targets@.contains(#[trigger] self.acquired@[i])
        &&& self.phase is Idle ==> self.targets@.len() == 0 && self.acquired@.len() == 0
        &&& self.phase is Encoded || self.phase is Submitted ==> self.acquired@.len() > 0
    }

    pub closed spec fn phase(&self) -> FramePhase {
        self.phase
    }

    /// The windows whose texture the frame at hand was to acquire.
    pub closed spec fn targets(&self) -> Seq<u64> {
        self.targets@
    }

    /// The windows whose texture the frame at hand holds, in the order in
    /// which they were acquired.
    pub closed spec fn acquired_windows(&self) -> Seq<u64> {
        self.acquired@
    }

    /// The number of frames whose presentation was enqueued.
    pub closed spec fn frames(&self) -> u64 {
        self.frames
    }

    /// Whether a texture that was acquired for the window belongs to the
    /// frame at hand: the frame asked for it and does not hold it yet.
    pub open spec fn awaits(&self, window: u64) -> bool {
        &&& self.phase() is Acquiring
        &&& self.targets().contains(window)
        &&& !self.acquired_windows().contains(window)
    }

    /// A frame driver that has drawn no frame yet.
    pub fn new() -> (driver: Self)
        ensures
            driver.phase() == FramePhase::Idle,
            driver.targets() == Seq::<u64>::empty(),
            driver.acquired_windows() == Seq::<u64>::empty(),
            driver.frames() == 0,
    {
        FrameDriver { phase: FramePhase::Idle, targets: Vec::new(), acquired: Vec::new(), frames: 0 }
    }

    pub fn current_phase(&self) -> (phase: FramePhase)
        ensures
            phase == self.phase(),
    {
        self.phase
    }

    pub fn frame_count(&self) -> (frames: u64)
        ensures
            frames == self.frames(),
    {
        self.frames
    }

    /// Begins a frame on a redraw request. Returns the windows to acquire a
    /// texture for: every window that frames are drawn to, once. Where there
    /// is none, or a frame is under way, nothing begins.
    pub fn begin(&mut self, resource: &GraphInterfaceResource) -> (targets: Vec<u64>)
        ensures
            final(self).frames() == old(self).frames(),
            old(self).phase() is Idle ==> ({
                &&& targets@.no_duplicates()
                &&& forall|window: u64| targets@.contains(window) <==> resource.presents_to(window)
                &&& final(self).targets() == targets@
                &&& final(self).acquired_windows() == Seq::<u64>::empty()
                &&& final(self).phase() == if targets@.len() > 0 {
                    FramePhase::Acquiring
                } else {
                    FramePhase::Idle
                }
            }),
            !(old(self).phase() is Idle) ==> ({
                &&& targets@ == Seq::<u64>::empty()
                &&& final(self).phase() == old(self).phase()
                &&& final(self).targets() == old(self).targets()
                &&& final(self).acquired_windows() == old(self).acquired_windows()
            }),
    {
        proof {
            use_type_invariant(&*self);
        }
        match self.phase {
            FramePhase::Idle => {
                let targets = resource.frame_targets();
                if targets.len() > 0 {
                    let asked = targets.clone();
                    assert(asked@ =~= targets@);
                    *self = FrameDriver {
                        phase: FramePhase::Acquiring,
                        targets: asked,
                        acquired: Vec::new(),
                        frames: self.frames,
                    };
                }
                assert(self.targets@ =~= targets@);
                targets
            },
            _ => Vec::new(),
        }
    }

    /// Takes note of how an attempt to acquire a window's texture ended. The
    /// surfaces decide what follows. A texture that the frame at hand did
    /// not ask for, or holds already, is not drawn to. Where the process is
    /// to end, the frame is given up.
    pub fn acquired(
        &mut self,
        resource: &mut GraphInterfaceResource,
        window: u64,
        outcome: Result<(), SurfaceError>,
    ) -> (directive: FrameDirective)
        ensures
            final(resource).constrained_host() == old(resource).constrained_host(),
            final(self).frames() == old(self).frames(),
            ({
                let (status, surfaces, decided) = GraphInterfaceResource::after_acquire(
                    old(resource).status(),
                    old(resource).surfaces(),
                    window,
                    outcome,
                );
                &&& final(resource).status() == status
                &&& final(resource).surfaces() == surfaces
                &&& directive == if decided is Render && !old(self).awaits(window) {
                    FrameDirective::Skip
                } else {
                    decided
                }
                &&& final(self).phase() == if decided is Exit {
                    FramePhase::Idle
                } else {
                    old(self).phase()
                }
                &&& final(self).targets() == if decided is Exit {
                    Seq::<u64>::empty()
                } else {
                    old(self).targets()
                }
                &&& final(self).acquired_windows() == if decided is Exit {
                    Seq::<u64>::empty()
                } else if directive is Render {
                    old(self).acquired_windows().push(window)
                } else {
                    old(self).acquired_windows()
                }
            }),
    {
        proof {
            use_type_invariant(&*self);
        }
        let decided = resource.acquired(window, outcome);
        match decided {
            FrameDirective::Render => {
                let acquiring = match self.phase {
                    FramePhase::Acquiring => true,
                    _ => false,
                };
                if acquiring && holds_window(&self.targets, window) && !holds_window(
                    &self.acquired,
                    window,
                ) {
                    let ghost held = self.acquired@;
                    let asked = self.targets.clone();
                    let mut acquired = self.acquired.clone();
                    assert(asked@ =~= self.targets@);
                    assert(acquired@ =~= held);
                    acquired.push(window);
                    proof {
                        lemma_push_keeps_distinct(held, window);
                    }
                    assert forall|i: int| 0 <= i < acquired@.len() implies asked@.contains(
                        #[trigger] acquired@[i],
                    ) by {
                        if i < held.len() {
                            assert(acquired@[i] == held[i]);
                        }
                    }
                    *self = FrameDriver {
                        phase: FramePhase::Acquiring,
                        targets: asked,
                        acquired,
                        frames: self.frames,
                    };
                    FrameDirective::Render
                } else {
                    FrameDirective::Skip
                }
            },
            FrameDirective::Exit(code) => {
                *self = FrameDriver {
                    phase: FramePhase::Idle,
                    targets: Vec::new(),
                    acquired: Vec::new(),
                    frames: self.frames,
                };
                FrameDirective::Exit(code)
            },
            other => other,
        }
    }

    /// Takes note that the GPU reported that it is out of memory, be it at
    /// acquisition, at submission or in between. The frame is given up,
    /// every surface is retired, and the process is to end.
    pub fn out_of_memory(&mut self, resource: &mut GraphInterfaceResource) -> (directive:
        FrameDirective)
        ensures
            final(resource).constrained_host() == old(resource).constrained_host(),
            final(resource).status() == DeviceStatus::Failed(DeviceError::OutOfMemory),
            final(resource).surfaces() == GraphInterfaceResource::all_retired(
                old(resource).surfaces(),
            ),
            final(self).frames() == old(self).frames(),
            final(self).phase() == FramePhase::Idle,
            final(self).targets() == Seq::<u64>::empty(),
            final(self).acquired_windows() == Seq::<u64>::empty(),
            directive == FrameDirective::Exit(EXIT_GPU_FAILURE),
    {
        *self = FrameDriver {
            phase: FramePhase::Idle,
            targets: Vec::new(),
            acquired: Vec::new(),
            frames: self.frames,
        };
        resource.out_of_memory()
    }

    /// Encodes the frame once every acquisition is settled: one command
    /// buffer, with one render pass for each acquired texture, each pass
    /// with the draws of every pipeline. Where no texture was acquired the
    /// frame ends here, with nothing to submit.
    pub fn encode<P: RenderProxy>(
        &mut self,
        pipelines: &[RenderPipelineLabel<'_>],
        proxies: &[P],
    ) -> (commands: Option<CommandBuffer>)
        ensures
            final(self).frames() == old(self).frames(),
            final(self).targets() == if old(self).phase() is Acquiring && old(
                self,
            ).acquired_windows().len() == 0 {
                Seq::<u64>::empty()
            } else {
                old(self).targets()
            },
            final(self).acquired_windows() == old(self).acquired_windows(),
            final(self).phase() == match old(self).phase() {
                FramePhase::Acquiring => if old(self).acquired_windows().len() > 0 {
                    FramePhase::Encoded
                } else {
                    FramePhase::Idle
                },
                phase => phase,
            },
            commands is Some <==> old(self).phase() is Acquiring && old(
                self,
            ).acquired_windows().len() > 0,
            commands matches Some(buffer) ==> ({
                &&& buffer.passes@.len() == old(self).acquired_windows().len()
                &&& forall|i: int, j: int|
                    0 <= i < j < buffer.passes@.len() ==> (#[trigger] buffer.passes@[i]).target != (
                    #[trigger] buffer.passes@[j]).target
                &&& forall|i: int|
                    0 <= i < buffer.passes@.len() ==> ({
                        &&& (#[trigger] buffer.passes@[i]).target == old(self).acquired_windows()[i]
                        &&& buffer.passes@[i].draws@ == frame_draws(
                            label_views(pipelines@),
                            published_of(proxies@),
                            pipelines@.len() as int,
                        )
                    })
            }),
    {
        proof {
            use_type_invariant(&*self);
        }
        match self.phase {
            FramePhase::Acquiring => {},
            _ => {
                return None;
            },
        }
        if self.acquired.len() == 0 {
            *self = FrameDriver {
                phase: FramePhase::Idle,
                targets: Vec::new(),
                acquired: Vec::new(),
                frames: self.frames,
            };
            return None;
        }
        let draws = collect_frame_draws(pipelines, proxies);
        let mut passes: Vec<RenderPass> = Vec::new();
        let mut i: usize = 0;
        while i < self.acquired.len()
            invariant
                i <= self.acquired@.len(),
                passes@.len() == i,
                forall|j: int|
                    0 <= j < i ==> ({
                        &&& (#[trigger] passes@[j]).target == self.acquired@[j]
                        &&& passes@[j].draws@ == draws@
                    }),
            decreases self.acquired.len() - i,
        {
            let copy = copy_draws(&draws);
            passes.push(RenderPass { target: self.acquired[i], draws: copy });
            i += 1;
        }
        self.phase = FramePhase::Encoded;
        Some(CommandBuffer { passes })
    }

    /// Takes note that the command buffer was handed to the queue. Returns
    /// the windows whose texture is to be presented now: those that the
    /// frame acquired. Before the submission nothing is presented.
    pub fn submitted(&mut self) -> (present: Vec<u64>)
        ensures
            final(self).frames() == old(self).frames(),
            final(self).targets() == old(self).targets(),
            final(self).acquired_windows() == old(self).acquired_windows(),
            final(self).phase() == match old(self).phase() {
                FramePhase::Encoded => FramePhase::Submitted,
                phase => phase,
            },
            present@ == if old(self).phase() is Encoded {
                old(self).acquired_windows()
            } else {
                Seq::<u64>::empty()
            },
            present@.no_duplicates(),
    {
        proof {
            use_type_invariant(&*self);
        }
        match self.phase {
            FramePhase::Encoded => {
                self.phase = FramePhase::Submitted;
                let present = self.acquired.clone();
                assert(present@ =~= self.acquired@);
                present
            },
            _ => Vec::new(),
        }
    }

    /// Takes note that every acquired texture was handed over for
    /// presentation: the frame is over and is counted. Returns the number of
    /// frames so far.
    pub fn presented(&mut self) -> (frames: u64)
        requires
            old(self).frames() < u64::MAX,
        ensures
            frames == final(self).frames(),
            old(self).phase() is Submitted ==> ({
                &&& final(self).frames() == old(self).frames() + 1
                &&& final(self).phase() == FramePhase::Idle
                &&& final(self).targets() == Seq::<u64>::empty()
                &&& final(self).acquired_windows() == Seq::<u64>::empty()
            }),
            !(old(self).phase() is Submitted) ==> ({
                &&& final(self).frames() == old(self).frames()
                &&& final(self).phase() == old(self).phase()
                &&& final(self).targets() == old(self).targets()
                &&& final(self).acquired_windows() == old(self).acquired_windows()
            }),
    {
        match self.phase {
            FramePhase::Submitted => {
                *self = FrameDriver {
                    phase: FramePhase::Idle,
                    targets: Vec::new(),
                    acquired: Vec::new(),
                    frames: self.frames + 1,
                };
            },
            _ => {},
        }
        self.frames
    }
}

/// A copy of a list of draws.
fn copy_draws(draws: &Vec<DrawCall>) -> (copy: Vec<DrawCall>)
    ensures
        copy@ == draws@,
{
    let mut copy: Vec<DrawCall> = Vec::new();
    let mut i: usize = 0;
    while i < draws.len()
        invariant
            i <= draws.len(),
            copy@ == draws@.take(i as int),
        decreases draws.len() - i,
    {
        copy.push(draws[i]);
        assert(draws@.take(i + 1) =~= draws@.take(i as int).push(draws@[i as int]));
        i += 1;
    }
    assert(draws@.take(draws@.len() as int) =~= draws@);
    copy
}

} // verus!
