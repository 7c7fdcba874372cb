//! GPU commands and the resource model they are checked against.
//!
//! A script of commands is valid when every command finds what it needs: a
//! resource is created only while absent and destroyed only while live, with
//! no submitted work still in flight and no dependent resource left behind;
//! commands are recorded only between starting the encoder and submitting;
//! and a new submission is issued only once the previous one was waited on.
use vstd::prelude::*;
use crate::surface::{DepthTextureDesc, SurfaceSettings};
use crate::tint::Rgba8;

verus! {

/// A GPU object owned by the lifecycle controller. Depth objects carry the
/// generation of the size they were made for.
#[derive(Clone, Copy, Debug, PartialEq, Eq, Structural)]
pub enum Resource {
    Context,
    Surface,
    VertexBuffer,
    IndexBuffer,
    DepthTexture(u64),
    DepthView(u64),
    Pipeline,
    CommandEncoder,
}

/// One GPU operation to perform, in the order a script lists them.
#[derive(Clone, Copy, Debug, PartialEq, Eq, Structural)]
pub enum Command {
    CreateContext,
    CreateSurface(SurfaceSettings),
    /// Upload the static vertex data and wait for the upload.
    CreateVertexBuffer,
    /// Upload the static index data and wait for the upload.
    CreateIndexBuffer,
    CreateDepthTexture(u64, DepthTextureDesc),
    CreateDepthView(u64),
    CreatePipeline,
    /// Create the command encoder with the given number of recording buffers.
    CreateCommandEncoder(u32),
    /// Reconfigure the surface in place.
    ReconfigureSurface(SurfaceSettings),
    /// Block until the submission with this token has completed.
    Wait(u64),
    StartEncoder,
    InitColorTarget,
    InitDepthTarget(u64),
    /// Open the render pass: clear the color target to the color and the
    /// depth target of the generation to the far value.
    BeginPass(Rgba8, u64),
    BindPipeline,
    BindUniforms,
    BindGeometry,
    /// One indexed draw of this many indices.
    DrawIndexed(u32),
    EndPass,
    Present,
    /// Submit the recording; its completion token is the given number.
    Submit(u64),
    DestroyVertexBuffer,
    DestroyIndexBuffer,
    DestroyDepthView(u64),
    DestroyDepthTexture(u64),
    DestroyCommandEncoder,
    DestroyPipeline,
    DestroySurface,
    DestroyContext,
}

/// What the GPU holds: the live resources, the submission still in flight
/// (at most one), how many submissions were made, and whether a recording is open.
pub struct GpuState {
    pub live: Set<Resource>,
    pub pending: Option<u64>,
    pub submitted: nat,
    pub recording: bool,
}

pub open spec fn created_by(c: Command) -> Option<Resource> {
    match c {
        Command::CreateContext => Some(Resource::Context),
        Command::CreateSurface(_) => Some(Resource::Surface),
        Command::CreateVertexBuffer => Some(Resource::VertexBuffer),
        Command::CreateIndexBuffer => Some(Resource::IndexBuffer),
        Command::CreateDepthTexture(g, _) => Some(Resource::DepthTexture(g)),
        Command::CreateDepthView(g) => Some(Resource::DepthView(g)),
        Command::CreatePipeline => Some(Resource::Pipeline),
        Command::CreateCommandEncoder(_) => Some(Resource::CommandEncoder),
        _ => None,
    }
}

pub open spec fn destroyed_by(c: Command) -> Option<Resource> {
    match c {
        Command::DestroyVertexBuffer => Some(Resource::VertexBuffer),
        Command::DestroyIndexBuffer => Some(Resource::IndexBuffer),
        Command::DestroyDepthView(g) => Some(Resource::DepthView(g)),
        Command::DestroyDepthTexture(g) => Some(Resource::DepthTexture(g)),
        Command::DestroyCommandEncoder => Some(Resource::CommandEncoder),
        Command::DestroyPipeline => Some(Resource::Pipeline),
        Command::DestroySurface => Some(Resource::Surface),
        Command::DestroyContext => Some(Resource::Context),
        _ => None,
    }
}

/// What must already be live to create a resource: the context for anything
/// else, and a depth texture for its view.
pub open spec fn create_ok(live: Set<Resource>, r: Resource) -> bool {
    &&& !live.contains(r)
    &&& (r != Resource::Context ==> live.contains(Resource::Context))
    &&& (r is DepthView ==> live.contains(Resource::DepthTexture(r->DepthView_0)))
}

/// What must be gone before a resource is destroyed: a texture's view before
/// the texture, and everything else before the context.
pub open spec fn destroy_ok(live: Set<Resource>, r: Resource) -> bool {
    &&& live.contains(r)
    &&& (r is DepthTexture ==> !live.contains(Resource::DepthView(r->DepthTexture_0)))
    &&& (r == Resource::Context ==> live =~= set![Resource::Context])
}

/// What a command recorded into an open pass reads.
pub open spec fn record_ok(live: Set<Resource>, c: Command) -> bool {
    match c {
        Command::InitColorTarget => live.contains(Resource::Surface),
        Command::InitDepthTarget(g) => live.contains(Resource::DepthTexture(g)),
        Command::BeginPass(_, g) => live.contains(Resource::DepthView(g)),
        Command::BindPipeline => live.contains(Resource::Pipeline),
        Command::BindUniforms => true,
        Command::BindGeometry => live.contains(Resource::VertexBuffer),
        Command::DrawIndexed(_) => live.contains(Resource::IndexBuffer),
        Command::EndPass => true,
        Command::Present => live.contains(Resource::Surface),
        _ => false,
    }
}

/// The effect of one command, or `None` where the command is not allowed.
pub open spec fn step(s: GpuState, c: Command) -> Option<GpuState> {
    if let Some(r) = created_by(c) {
        if create_ok(s.live, r) && !s.recording {
            Some(GpuState { live: s.live.insert(r), ..s })
        } else {
            None
        }
    } else if let Some(r) = destroyed_by(c) {
        if destroy_ok(s.live, r) && s.pending.is_none() && !s.recording {
            Some(GpuState { live: s.live.remove(r), ..s })
        } else {
            None
        }
    } else {
        match c {
            Command::ReconfigureSurface(_) => if s.live.contains(Resource::Surface) && !s.recording {
                Some(s)
            } else {
                None
            },
            Command::Wait(t) => if s.pending == Some(t) {
                Some(GpuState { pending: None, ..s })
            } else {
                None
            },
            Command::StartEncoder => if s.live.contains(Resource::CommandEncoder) && !s.recording {
                Some(GpuState { recording: true, ..s })
            } else {
                None
            },
            Command::Submit(t) => if s.recording && s.pending.is_none() && s.live.contains(
                Resource::CommandEncoder,
            ) {
                Some(GpuState { pending: Some(t), submitted: s.submitted + 1, recording: false, ..s })
            } else {
                None
            },
            _ => if s.recording && record_ok(s.live, c) {
                Some(s)
            } else {
                None
            },
        }
    }
}

/// Runs a script from a state: the final state, or `None` where some command
/// is not allowed where it stands.
pub open spec fn run(s: GpuState, cmds: Seq<Command>) -> Option<GpuState>
    decreases cmds.len(),
{
    if cmds.len() == 0 {
        Some(s)
    } else {
        match run(s, cmds.drop_last()) {
            Some(t) => step(t, cmds.last()),
            None => None,
        }
    }
}

/// Running a script with one more command runs that command last.
pub broadcast proof fn lemma_run_push(s: GpuState, cmds: Seq<Command>, c: Command)
    ensures
        #[trigger] run(s, cmds.push(c)) == match run(s, cmds) {
            Some(t) => step(t, c),
            None => None,
        },
{
    assert(cmds.push(c).drop_last() =~= cmds);
}

/// Running two scripts one after the other is running their concatenation.
pub proof fn lemma_run_concat(s: GpuState, a: Seq<Command>, b: Seq<Command>)
    ensures
        run(s, a + b) == match run(s, a) {
            Some(t) => run(t, b),
            None => None,
        },
    decreases b.len(),
{
    if b.len() == 0 {
        assert(a + b =~= a);
    } else {
        lemma_run_concat(s, a, b.drop_last());
        assert((a + b).drop_last() =~= a + b.drop_last());
        assert((a + b).last() == b.last());
    }
}

/// The GPU before anything was created.
pub open spec fn empty_gpu() -> GpuState {
    GpuState { live: Set::empty(), pending: None, submitted: 0, recording: false }
}

/// How many submissions a script makes.
pub open spec fn submissions(cmds: Seq<Command>) -> nat
    decreases cmds.len(),
{
    if cmds.len() == 0 {
        0
    } else {
        submissions(cmds.drop_last()) + if cmds.last() is Submit {
            1nat
        } else {
            0nat
        }
    }
}

/// A valid script adds to the submission count exactly the submissions it makes.
pub proof fn lemma_run_counts_submissions(s: GpuState, cmds: Seq<Command>)
    requires
        run(s, cmds).is_some(),
    ensures
        run(s, cmds).unwrap().submitted == s.submitted + submissions(cmds),
    decreases cmds.len(),
{
    if cmds.len() > 0 {
        lemma_run_counts_submissions(s, cmds.drop_last());
    }
}

} // verus!
