//! The lifecycle controller: initialization, per-frame submission with a
//! one-token synchronization gate, resize, and ordered teardown.
use vstd::prelude::*;
use crate::gpu_model::{Command, GpuState, Resource, run, lemma_run_push, empty_gpu};
use crate::surface::{
    Extent, depth_desc_spec, depth_texture_desc, make_surface_config, surface_settings_spec,
};
use crate::tint::{Rgba8, TintStore};

verus! {

broadcast use lemma_run_push;

/// Indices in the static geometry: six faces of two triangles each.
pub const INDEX_COUNT: u32 = 36;

/// Recording buffers in the command encoder, so the CPU can record one frame
/// while the GPU still works on the previous one.
pub const ENCODER_BUFFER_COUNT: u32 = 2;

/// Why a frame was not rendered.
#[derive(Clone, Copy, Debug, PartialEq, Eq, Structural)]
pub enum FrameError {
    /// The surface had no frame to give; try again on the next tick.
    AcquisitionFailed,
    /// Every submission token number has been used.
    TokensExhausted,
}

/// The controller's state: the last requested size, the size and generation
/// of the current depth pair, the submission in flight, the number of
/// submissions, and whether the GPU objects are alive.
pub struct ControllerView {
    pub size: Extent,
    pub depth_size: Extent,
    pub generation: u64,
    pub pending: Option<u64>,
    pub submitted: nat,
    pub active: bool,
}

/// Owns the GPU objects of the renderer, as an abstract set of handles, and
/// decides the commands that create, use and destroy them.
pub struct Controller {
    size: Extent,
    depth_size: Extent,
    generation: u64,
    pending: Option<u64>,
    submitted: u64,
    active: bool,
}

impl View for Controller {
    type V = ControllerView;

    closed spec fn view(&self) -> ControllerView {
        ControllerView {
            size: self.size,
            depth_size: self.depth_size,
            generation: self.generation,
            pending: self.pending,
            submitted: self.submitted as nat,
            active: self.active,
        }
    }
}

/// Everything a running controller owns, with the depth pair of a generation.
pub open spec fn owned(g: u64) -> Set<Resource> {
    set![
        Resource::Context,
        Resource::Surface,
        Resource::VertexBuffer,
        Resource::IndexBuffer,
        Resource::DepthTexture(g),
        Resource::DepthView(g),
        Resource::Pipeline,
        Resource::CommandEncoder,
    ]
}

/// The GPU as a controller in this state leaves it between calls.
pub open spec fn gpu_of(v: ControllerView) -> GpuState {
    GpuState {
        live: if v.active {
            owned(v.generation)
        } else {
            Set::empty()
        },
        pending: v.pending,
        submitted: v.submitted,
        recording: false,
    }
}

/// Appends a wait on the submission in flight, if there is one.
pub open spec fn drain(cmds: Seq<Command>, pending: Option<u64>) -> Seq<Command> {
    match pending {
        Some(t) => cmds.push(Command::Wait(t)),
        None => cmds,
    }
}

/// The generation after `g`; it differs from `g` for every `g`.
pub open spec fn next_generation(g: u64) -> u64 {
    if g == u64::MAX {
        0
    } else {
        (g + 1) as u64
    }
}

pub open spec fn init_script(size: Extent) -> Seq<Command> {
    seq![
        Command::CreateContext,
        Command::CreateSurface(surface_settings_spec(size)),
        Command::CreateVertexBuffer,
        Command::CreateIndexBuffer,
        Command::CreateDepthTexture(0, depth_desc_spec(size)),
        Command::CreateDepthView(0),
        Command::CreatePipeline,
        Command::CreateCommandEncoder(ENCODER_BUFFER_COUNT),
    ]
}

pub open spec fn resize_script(pending: Option<u64>, g: u64, size: Extent) -> Seq<Command> {
    drain(seq![], pending)
        .push(Command::DestroyDepthView(g))
        .push(Command::DestroyDepthTexture(g))
        .push(Command::CreateDepthTexture(next_generation(g), depth_desc_spec(size)))
        .push(Command::CreateDepthView(next_generation(g)))
        .push(Command::ReconfigureSurface(surface_settings_spec(size)))
}

/// The recording of one frame, up to presenting it.
pub open spec fn frame_body(g: u64, clear: Rgba8) -> Seq<Command> {
    Seq::empty()
        .push(Command::StartEncoder)
        .push(Command::InitColorTarget)
        .push(Command::InitDepthTarget(g))
        .push(Command::BeginPass(clear, g))
        .push(Command::BindPipeline)
        .push(Command::BindUniforms)
        .push(Command::BindGeometry)
        .push(Command::DrawIndexed(INDEX_COUNT))
        .push(Command::EndPass)
        .push(Command::Present)
}

/// One frame: record it, wait on the submission in flight, submit.
pub open spec fn frame_script(pending: Option<u64>, g: u64, clear: Rgba8, token: u64) -> Seq<
    Command,
> {
    drain(frame_body(g, clear), pending).push(Command::Submit(token))
}

pub open spec fn shutdown_script(pending: Option<u64>, g: u64) -> Seq<Command> {
    drain(seq![], pending)
        .push(Command::DestroyVertexBuffer)
        .push(Command::DestroyIndexBuffer)
        .push(Command::DestroyDepthView(g))
        .push(Command::DestroyDepthTexture(g))
        .push(Command::DestroyCommandEncoder)
        .push(Command::DestroyPipeline)
        .push(Command::DestroySurface)
        .push(Command::DestroyContext)
}

/// The state after `resize(size)`.
pub open spec fn resized(v: ControllerView, size: Extent) -> ControllerView {
    if size.degenerate() || !v.active {
        ControllerView { size, ..v }
    } else {
        ControllerView {
            size,
            depth_size: size,
            generation: next_generation(v.generation),
            pending: None,
            ..v
        }
    }
}

/// The commands `resize(size)` returns.
pub open spec fn resize_commands(v: ControllerView, size: Extent) -> Seq<Command> {
    if size.degenerate() || !v.active {
        seq![]
    } else {
        resize_script(v.pending, v.generation, size)
    }
}

/// Whether a tick renders in this state.
pub open spec fn renders(v: ControllerView) -> bool {
    v.active && !v.size.degenerate()
}

/// What `tick` returns, given the tint color it reads.
pub open spec fn tick_outcome(v: ControllerView, clear: Rgba8, acquired: bool) -> Result<
    Seq<Command>,
    FrameError,
> {
    if !renders(v) {
        Ok(seq![])
    } else if !acquired {
        Err(FrameError::AcquisitionFailed)
    } else if v.submitted >= u64::MAX {
        Err(FrameError::TokensExhausted)
    } else {
        Ok(frame_script(v.pending, v.generation, clear, v.submitted as u64))
    }
}

/// The state after `tick`.
pub open spec fn ticked(v: ControllerView, acquired: bool) -> ControllerView {
    if renders(v) && acquired && v.submitted < u64::MAX {
        ControllerView { pending: Some(v.submitted as u64), submitted: v.submitted + 1, ..v }
    } else {
        v
    }
}

/// The state after `shutdown`.
pub open spec fn shut_down(v: ControllerView) -> ControllerView {
    if v.active {
        ControllerView { pending: None, active: false, ..v }
    } else {
        v
    }
}

/// The commands `shutdown` returns.
pub open spec fn shutdown_commands(v: ControllerView) -> Seq<Command> {
    if v.active {
        shutdown_script(v.pending, v.generation)
    } else {
        seq![]
    }
}

/// Everything the initialization script creates, destroyed in the reverse
/// order of creation.
pub open spec fn teardown_order() -> Seq<Command> {
    Seq::<Command>::empty().push(Command::DestroyCommandEncoder).push(Command::DestroyPipeline).push(Command::DestroyDepthView(0)).push(Command::DestroyDepthTexture(0)).push(Command::DestroyIndexBuffer).push(Command::DestroyVertexBuffer).push(Command::DestroySurface).push(Command::DestroyContext)
}

/// The commands that release what the first `k` commands of the
/// initialization script created.
pub open spec fn release_script(k: nat) -> Seq<Command> {
    teardown_order().subrange(8 - k, 8)
}

proof fn lemma_release_valid(size: Extent, k: nat)
    requires
        k <= 8,
    ensures
        run(empty_gpu(), init_script(size).take(k as int)) is Some,
        run(run(empty_gpu(), init_script(size).take(k as int))->Some_0, release_script(k)) == Some(empty_gpu()),
{
    if k == 0 {
        assert(init_script(size).take(0) =~= Seq::<Command>::empty());
        assert(release_script(0) =~= Seq::<Command>::empty());
        let s = run(empty_gpu(), init_script(size).take(0)).unwrap();
        assert(run(s, release_script(0)).unwrap().live =~= Set::<Resource>::empty());
    } else if k == 1 {
        assert(init_script(size).take(1) =~= Seq::<Command>::empty().push(Command::CreateContext));
        assert(release_script(1) =~= Seq::<Command>::empty().push(Command::DestroyContext));
        let s = run(empty_gpu(), init_script(size).take(1)).unwrap();
        assert(run(s, release_script(1)).unwrap().live =~= Set::<Resource>::empty());
    } else if k == 2 {
        assert(init_script(size).take(2) =~= Seq::<Command>::empty().push(Command::CreateContext).push(Command::CreateSurface(surface_settings_spec(size))));
        assert(release_script(2) =~= Seq::<Command>::empty().push(Command::DestroySurface).push(Command::DestroyContext));
        let s = run(empty_gpu(), init_script(size).take(2)).unwrap();
        assert(run(s, release_script(2)).unwrap().live =~= Set::<Resource>::empty());
    } else if k == 3 {
        assert(init_script(size).take(3) =~= Seq::<Command>::empty().push(Command::CreateContext).push(Command::CreateSurface(surface_settings_spec(size))).push(Command::CreateVertexBuffer));
        assert(release_script(3) =~= Seq::<Command>::empty().push(Command::DestroyVertexBuffer).push(Command::DestroySurface).push(Command::DestroyContext));
        let s = run(empty_gpu(), init_script(size).take(3)).unwrap();
        assert(run(s, release_script(3)).unwrap().live =~= Set::<Resource>::empty());
    } else if k == 4 {
        assert(init_script(size).take(4) =~= Seq::<Command>::empty().push(Command::CreateContext).push(Command::CreateSurface(surface_settings_spec(size))).push(Command::CreateVertexBuffer).push(Command::CreateIndexBuffer));
        assert(release_script(4) =~= Seq::<Command>::empty().push(Command::DestroyIndexBuffer).push(Command::DestroyVertexBuffer).push(Command::DestroySurface).push(Command::DestroyContext));
        let s = run(empty_gpu(), init_script(size).take(4)).unwrap();
        assert(run(s, release_script(4)).unwrap().live =~= Set::<Resource>::empty());
    } else if k == 5 {
        assert(init_script(size).take(5) =~= Seq::<Command>::empty().push(Command::CreateContext).push(Command::CreateSurface(surface_settings_spec(size))).push(Command::CreateVertexBuffer).push(Command::CreateIndexBuffer).push(Command::CreateDepthTexture(0, depth_desc_spec(size))));
        assert(release_script(5) =~= Seq::<Command>::empty().push(Command::DestroyDepthTexture(0)).push(Command::DestroyIndexBuffer).push(Command::DestroyVertexBuffer).push(Command::DestroySurface).push(Command::DestroyContext));
        let s = run(empty_gpu(), init_script(size).take(5)).unwrap();
        assert(run(s, release_script(5)).unwrap().live =~= Set::<Resource>::empty());
    } else if k == 6 {
        assert(init_script(size).take(6) =~= Seq::<Command>::empty().push(Command::CreateContext).push(Command::CreateSurface(surface_settings_spec(size))).push(Command::CreateVertexBuffer).push(Command::CreateIndexBuffer).push(Command::CreateDepthTexture(0, depth_desc_spec(size))).push(Command::CreateDepthView(0)));
        assert(release_script(6) =~= Seq::<Command>::empty().push(Command::DestroyDepthView(0)).push(Command::DestroyDepthTexture(0)).push(Command::DestroyIndexBuffer).push(Command::DestroyVertexBuffer).push(Command::DestroySurface).push(Command::DestroyContext));
        let s = run(empty_gpu(), init_script(size).take(6)).unwrap();
        assert(run(s, release_script(6)).unwrap().live =~= Set::<Resource>::empty());
    } else if k == 7 {
        assert(init_script(size).take(7) =~= Seq::<Command>::empty().push(Command::CreateContext).push(Command::CreateSurface(surface_settings_spec(size))).push(Command::CreateVertexBuffer).push(Command::CreateIndexBuffer).push(Command::CreateDepthTexture(0, depth_desc_spec(size))).push(Command::CreateDepthView(0)).push(Command::CreatePipeline));
        assert(release_script(7) =~= Seq::<Command>::empty().push(Command::DestroyPipeline).push(Command::DestroyDepthView(0)).push(Command::DestroyDepthTexture(0)).push(Command::DestroyIndexBuffer).push(Command::DestroyVertexBuffer).push(Command::DestroySurface).push(Command::DestroyContext));
        let s = run(empty_gpu(), init_script(size).take(7)).unwrap();
        assert(run(s, release_script(7)).unwrap().live =~= Set::<Resource>::empty());
    } else if k == 8 {
        assert(init_script(size).take(8) =~= Seq::<Command>::empty().push(Command::CreateContext).push(Command::CreateSurface(surface_settings_spec(size))).push(Command::CreateVertexBuffer).push(Command::CreateIndexBuffer).push(Command::CreateDepthTexture(0, depth_desc_spec(size))).push(Command::CreateDepthView(0)).push(Command::CreatePipeline).push(Command::CreateCommandEncoder(ENCODER_BUFFER_COUNT)));
        assert(release_script(8) =~= Seq::<Command>::empty().push(Command::DestroyCommandEncoder).push(Command::DestroyPipeline).push(Command::DestroyDepthView(0)).push(Command::DestroyDepthTexture(0)).push(Command::DestroyIndexBuffer).push(Command::DestroyVertexBuffer).push(Command::DestroySurface).push(Command::DestroyContext));
        let s = run(empty_gpu(), init_script(size).take(8)).unwrap();
        assert(run(s, release_script(8)).unwrap().live =~= Set::<Resource>::empty());
    }
}

/// Releases what an initialization that stopped part way created: given how
/// many commands of the initialization script completed (more than its
/// length counts as all of them), the commands that destroy those objects in
/// the reverse order of their creation, leaving nothing alive.
pub fn abandon_initialization(size: Extent, completed: usize) -> (cmds: Vec<Command>)
    ensures
        ({
            let k = if completed > 8 { 8nat } else { completed as nat };
            &&& cmds@ == release_script(k)
            &&& run(empty_gpu(), init_script(size).take(k as int)) is Some
            &&& run(run(empty_gpu(), init_script(size).take(k as int))->Some_0, cmds@) == Some(empty_gpu())
        }),
{
    let k: usize = if completed > 8 { 8 } else { completed };
    let mut cmds: Vec<Command> = Vec::new();
    if k >= 8 {
        cmds.push(Command::DestroyCommandEncoder);
    }
    if k >= 7 {
        cmds.push(Command::DestroyPipeline);
    }
    if k >= 6 {
        cmds.push(Command::DestroyDepthView(0));
    }
    if k >= 5 {
        cmds.push(Command::DestroyDepthTexture(0));
    }
    if k >= 4 {
        cmds.push(Command::DestroyIndexBuffer);
    }
    if k >= 3 {
        cmds.push(Command::DestroyVertexBuffer);
    }
    if k >= 2 {
        cmds.push(Command::DestroySurface);
    }
    if k >= 1 {
        cmds.push(Command::DestroyContext);
    }
    proof {
        lemma_release_valid(size, k as nat);
        assert(cmds@ =~= release_script(k as nat));
    }
    cmds
}

fn push_drain(cmds: &mut Vec<Command>, pending: Option<u64>)
    ensures
        final(cmds)@ == drain(old(cmds)@, pending),
{
    if let Some(t) = pending {
        cmds.push(Command::Wait(t));
    }
}

fn next_gen(g: u64) -> (r: u64)
    ensures
        r == next_generation(g),
{
    if g == u64::MAX {
        0
    } else {
        g + 1
    }
}

impl Controller {
    /// Creates the controller for a surface of the given size, with the
    /// script that creates every GPU object it owns.
    pub fn initialize(size: Extent) -> (r: (Controller, Vec<Command>))
        ensures
            r.0@ == (ControllerView {
                size,
                depth_size: size,
                generation: 0,
                pending: None,
                submitted: 0,
                active: true,
            }),
            r.1@ == init_script(size),
            run(empty_gpu(), r.1@) == Some(gpu_of(r.0@)),
    {
        let mut cmds: Vec<Command> = Vec::new();
        cmds.push(Command::CreateContext);
        cmds.push(Command::CreateSurface(make_surface_config(size)));
        cmds.push(Command::CreateVertexBuffer);
        cmds.push(Command::CreateIndexBuffer);
        cmds.push(Command::CreateDepthTexture(0, depth_texture_desc(size)));
        cmds.push(Command::CreateDepthView(0));
        cmds.push(Command::CreatePipeline);
        cmds.push(Command::CreateCommandEncoder(ENCODER_BUFFER_COUNT));
        let c = Controller {
            size,
            depth_size: size,
            generation: 0,
            pending: None,
            submitted: 0,
            active: true,
        };
        assert(cmds@ =~= init_script(size));
        let ghost s = run(empty_gpu(), cmds@).unwrap();
        assert(s.live =~= owned(0));
        (c, cmds)
    }

    /// Handles a new window size. A size with a zero side is only recorded,
    /// so that ticks skip rendering; the GPU is not touched. Any other size
    /// (on a live controller) drains the submission in flight, replaces the
    /// depth view and texture, in that order, by a pair of the new size, and
    /// reconfigures the surface in place.
    pub fn resize(&mut self, size: Extent) -> (cmds: Vec<Command>)
        ensures
            final(self)@ == resized(old(self)@, size),
            cmds@ == resize_commands(old(self)@, size),
            run(gpu_of(old(self)@), cmds@) == Some(gpu_of(final(self)@)),
    {
        let mut cmds: Vec<Command> = Vec::new();
        self.size = size;
        if size.is_degenerate() || !self.active {
            return cmds;
        }
        let g = self.generation;
        let next = next_gen(g);
        let ghost start = gpu_of(old(self)@);
        push_drain(&mut cmds, self.pending);
        self.pending = None;
        cmds.push(Command::DestroyDepthView(g));
        cmds.push(Command::DestroyDepthTexture(g));
        cmds.push(Command::CreateDepthTexture(next, depth_texture_desc(size)));
        cmds.push(Command::CreateDepthView(next));
        cmds.push(Command::ReconfigureSurface(make_surface_config(size)));
        self.depth_size = size;
        self.generation = next;
        proof {
            let d = drain(seq![], old(self)@.pending);
            let s0 = run(start, d).unwrap();
            assert(s0.live == start.live && s0.pending.is_none() && !s0.recording);
            let s = run(start, cmds@).unwrap();
            assert(s.live =~= owned(next));
        }
        cmds
    }

    /// Whether a tick would render: the controller is live and the current
    /// size has no zero side.
    pub fn wants_frame(&self) -> (r: bool)
        ensures
            r == renders(self@),
    {
        self.active && !self.size.is_degenerate()
    }

    /// Records and submits one frame, cleared to the tint store's color.
    /// `acquired` tells whether the surface gave a frame to render into.
    /// Nothing is done when the controller would not render; a frame that
    /// could not be acquired is reported, and the state is left as it was.
    /// Otherwise the frame is recorded, the previous submission is waited on,
    /// and the new one is submitted under the next token number, which the
    /// controller then holds as the only submission in flight.
    pub fn tick(&mut self, tint: &TintStore, acquired: bool) -> (r: Result<Vec<Command>, FrameError>)
        ensures
            final(self)@ == ticked(old(self)@, acquired),
            r is Ok <==> tick_outcome(old(self)@, tint.color(), acquired) is Ok,
            r is Ok ==> tick_outcome(old(self)@, tint.color(), acquired)->Ok_0 == r->Ok_0@,
            r is Err ==> tick_outcome(old(self)@, tint.color(), acquired) == Err::<
                Seq<Command>,
                FrameError,
            >(r->Err_0),
            r is Ok ==> run(gpu_of(old(self)@), r->Ok_0@) == Some(gpu_of(final(self)@)),
    {
        if !self.wants_frame() {
            return Ok(Vec::new());
        }
        if !acquired {
            return Err(FrameError::AcquisitionFailed);
        }
        if self.submitted == u64::MAX {
            return Err(FrameError::TokensExhausted);
        }
        let g = self.generation;
        let clear = tint.get_background_color();
        let token = self.submitted;
        let ghost start = gpu_of(old(self)@);
        let mut cmds: Vec<Command> = Vec::new();
        cmds.push(Command::StartEncoder);
        cmds.push(Command::InitColorTarget);
        cmds.push(Command::InitDepthTarget(g));
        cmds.push(Command::BeginPass(clear, g));
        cmds.push(Command::BindPipeline);
        cmds.push(Command::BindUniforms);
        cmds.push(Command::BindGeometry);
        cmds.push(Command::DrawIndexed(INDEX_COUNT));
        cmds.push(Command::EndPass);
        cmds.push(Command::Present);
        let ghost body = cmds@;
        push_drain(&mut cmds, self.pending);
        cmds.push(Command::Submit(token));
        self.pending = Some(token);
        self.submitted = token + 1;
        proof {
            let s1 = run(start, body).unwrap();
            assert(s1.live == start.live && s1.recording && s1.pending == start.pending);
            let s2 = run(start, drain(body, old(self)@.pending)).unwrap();
            assert(s2.live == start.live && s2.recording && s2.pending.is_none());
            let s = run(start, cmds@).unwrap();
            assert(s.live =~= start.live);
        }
        Ok(cmds)
    }

    /// Tears the controller down: waits for the submission in flight, then
    /// destroys the geometry buffers, the depth view and texture, the command
    /// encoder, the pipeline, the surface and finally the context. A second
    /// call finds nothing left and returns an empty script.
    pub fn shutdown(&mut self) -> (cmds: Vec<Command>)
        ensures
            final(self)@ == shut_down(old(self)@),
            cmds@ == shutdown_commands(old(self)@),
            run(gpu_of(old(self)@), cmds@) == Some(gpu_of(final(self)@)),
    {
        let mut cmds: Vec<Command> = Vec::new();
        if !self.active {
            return cmds;
        }
        let g = self.generation;
        let ghost start = gpu_of(old(self)@);
        push_drain(&mut cmds, self.pending);
        cmds.push(Command::DestroyVertexBuffer);
        cmds.push(Command::DestroyIndexBuffer);
        cmds.push(Command::DestroyDepthView(g));
        cmds.push(Command::DestroyDepthTexture(g));
        cmds.push(Command::DestroyCommandEncoder);
        cmds.push(Command::DestroyPipeline);
        cmds.push(Command::DestroySurface);
        cmds.push(Command::DestroyContext);
        self.pending = None;
        self.active = false;
        proof {
            let d = drain(seq![], old(self)@.pending);
            let s0 = run(start, d).unwrap();
            assert(s0.live == start.live && s0.pending.is_none() && !s0.recording);
            let s6 = run(start, d.push(Command::DestroyVertexBuffer).push(Command::DestroyIndexBuffer)
                .push(Command::DestroyDepthView(g)).push(Command::DestroyDepthTexture(g))
                .push(Command::DestroyCommandEncoder).push(Command::DestroyPipeline)
                .push(Command::DestroySurface)).unwrap();
            assert(s6.live =~= set![Resource::Context]);
            let s = run(start, cmds@).unwrap();
            assert(s.live =~= Set::<Resource>::empty());
        }
        cmds
    }

    /// The last size requested.
    pub fn size(&self) -> (r: Extent)
        ensures
            r == self@.size,
    {
        self.size
    }

    /// The size of the current depth texture and view.
    pub fn depth_extent(&self) -> (r: Extent)
        ensures
            r == self@.depth_size,
    {
        self.depth_size
    }

    /// The generation of the current depth texture and view.
    pub fn depth_generation(&self) -> (r: u64)
        ensures
            r == self@.generation,
    {
        self.generation
    }

    /// The token of the submission in flight, if any.
    pub fn pending_token(&self) -> (r: Option<u64>)
        ensures
            r == self@.pending,
    {
        self.pending
    }

    /// How many frames have been submitted.
    pub fn submission_count(&self) -> (r: u64)
        ensures
            r == self@.submitted,
    {
        self.submitted
    }

    /// Whether the GPU objects are alive, that is, shutdown has not run.
    pub fn is_active(&self) -> (r: bool)
        ensures
            r == self@.active,
    {
        self.active
    }
}

} // verus!
