//! Properties of sequences of lifecycle calls.
use vstd::prelude::*;
use crate::gpu_model::{Command, run, lemma_run_concat, lemma_run_push, submissions, lemma_run_counts_submissions};
use crate::lifecycle::{
    ControllerView, FrameError, drain, frame_body, gpu_of, next_generation, owned, renders,
    resize_commands, resized, shut_down, shutdown_commands, tick_outcome, ticked,
};
use crate::surface::Extent;
use crate::tint::Rgba8;

verus! {

broadcast use lemma_run_push;

/// The state after resizing to each size in turn.
pub open spec fn resizes(v: ControllerView, sizes: Seq<Extent>) -> ControllerView
    decreases sizes.len(),
{
    if sizes.len() == 0 {
        v
    } else {
        resized(resizes(v, sizes.drop_last()), sizes.last())
    }
}

/// All commands of resizing to each size in turn.
pub open spec fn resizes_commands(v: ControllerView, sizes: Seq<Extent>) -> Seq<Command>
    decreases sizes.len(),
{
    if sizes.len() == 0 {
        seq![]
    } else {
        resizes_commands(v, sizes.drop_last()) + resize_commands(
            resizes(v, sizes.drop_last()),
            sizes.last(),
        )
    }
}

/// After any non-empty run of resizes to sizes without a zero side, the depth
/// pair has the size requested last, and the whole run of commands is valid:
/// nothing is destroyed twice or while in use, and the controller ends owning
/// exactly one depth pair.
pub proof fn lemma_depth_follows_last_resize(v: ControllerView, sizes: Seq<Extent>)
    requires
        v.active,
        sizes.len() > 0,
        forall|i: int| 0 <= i < sizes.len() ==> !(#[trigger] sizes[i]).degenerate(),
    ensures
        resizes(v, sizes).depth_size == sizes.last(),
        resizes(v, sizes).size == sizes.last(),
        resizes(v, sizes).active,
        run(gpu_of(v), resizes_commands(v, sizes)) == Some(gpu_of(resizes(v, sizes))),
    decreases sizes.len(),
{
    lemma_resizes_valid(v, sizes);
}

proof fn lemma_resizes_valid(v: ControllerView, sizes: Seq<Extent>)
    requires
        v.active,
        forall|i: int| 0 <= i < sizes.len() ==> !(#[trigger] sizes[i]).degenerate(),
    ensures
        resizes(v, sizes).active,
        sizes.len() > 0 ==> resizes(v, sizes).depth_size == sizes.last(),
        sizes.len() > 0 ==> resizes(v, sizes).size == sizes.last(),
        run(gpu_of(v), resizes_commands(v, sizes)) == Some(gpu_of(resizes(v, sizes))),
    decreases sizes.len(),
{
    if sizes.len() > 0 {
        let init = sizes.drop_last();
        assert forall|i: int| 0 <= i < init.len() implies !(#[trigger] init[i]).degenerate() by {
            assert(init[i] == sizes[i]);
        }
        lemma_resizes_valid(v, init);
        let w = resizes(v, init);
        assert(!sizes[sizes.len() - 1].degenerate());
        lemma_resize_valid(w, sizes.last());
        lemma_run_concat(gpu_of(v), resizes_commands(v, init), resize_commands(w, sizes.last()));
    }
}

/// A live controller's resize script is valid from the state it leaves the GPU in.
proof fn lemma_resize_valid(v: ControllerView, size: Extent)
    requires
        v.active,
    ensures
        run(gpu_of(v), resize_commands(v, size)) == Some(gpu_of(resized(v, size))),
{
    if !size.degenerate() {
        let start = gpu_of(v);
        let d = drain(seq![], v.pending);
        let s0 = run(start, d).unwrap();
        assert(s0.live == start.live && s0.pending.is_none() && !s0.recording);
        let s = run(start, resize_commands(v, size)).unwrap();
        assert(s.live =~= owned(next_generation(v.generation)));
    }
}

/// A resize to a size with a zero side touches no GPU object, keeps the depth
/// pair and the submission in flight, and makes the next tick do nothing.
pub proof fn lemma_degenerate_resize_pauses(v: ControllerView, size: Extent, clear: Rgba8, acquired: bool)
    requires
        size.degenerate(),
    ensures
        resize_commands(v, size) == Seq::<Command>::empty(),
        resized(v, size).depth_size == v.depth_size,
        resized(v, size).generation == v.generation,
        resized(v, size).pending == v.pending,
        tick_outcome(resized(v, size), clear, acquired) == Ok::<Seq<Command>, FrameError>(seq![]),
        ticked(resized(v, size), acquired) == resized(v, size),
{
}

/// The state after `n` ticks that each acquired a frame.
pub open spec fn ticks(v: ControllerView, n: nat) -> ControllerView
    decreases n,
{
    if n == 0 {
        v
    } else {
        ticked(ticks(v, (n - 1) as nat), true)
    }
}

/// All commands of `n` ticks that each acquired a frame, with the same tint.
pub open spec fn ticks_commands(v: ControllerView, clear: Rgba8, n: nat) -> Seq<Command>
    decreases n,
{
    if n == 0 {
        seq![]
    } else {
        ticks_commands(v, clear, (n - 1) as nat) + tick_outcome(
            ticks(v, (n - 1) as nat),
            clear,
            true,
        )->Ok_0
    }
}

/// `n` rendering ticks make exactly `n` submissions through a valid script;
/// afterwards the last one is the only submission in flight.
pub proof fn lemma_ticks_submit_each_once(v: ControllerView, clear: Rgba8, n: nat)
    requires
        renders(v),
        v.submitted + n <= u64::MAX,
    ensures
        run(gpu_of(v), ticks_commands(v, clear, n)) == Some(gpu_of(ticks(v, n))),
        submissions(ticks_commands(v, clear, n)) == n,
        ticks(v, n).submitted == v.submitted + n,
        renders(ticks(v, n)),
        n > 0 ==> ticks(v, n).pending == Some((v.submitted + n - 1) as u64),
    decreases n,
{
    if n > 0 {
        let m = (n - 1) as nat;
        lemma_ticks_submit_each_once(v, clear, m);
        let w = ticks(v, m);
        let f = tick_outcome(w, clear, true)->Ok_0;
        lemma_frame_valid(w, clear);
        lemma_run_concat(gpu_of(v), ticks_commands(v, clear, m), f);
        lemma_run_counts_submissions(gpu_of(v), ticks_commands(v, clear, n));
    }
}

/// One rendering tick's script is valid from the state the controller leaves
/// the GPU in.
proof fn lemma_frame_valid(v: ControllerView, clear: Rgba8)
    requires
        renders(v),
        v.submitted < u64::MAX,
    ensures
        run(gpu_of(v), tick_outcome(v, clear, true)->Ok_0) == Some(gpu_of(ticked(v, true))),
{
    let start = gpu_of(v);
    let body = frame_body(v.generation, clear);
    let s1 = run(start, body).unwrap();
    assert(s1.live == start.live && s1.recording && s1.pending == start.pending);
    let s2 = run(start, drain(body, v.pending)).unwrap();
    assert(s2.live == start.live && s2.recording && s2.pending.is_none());
    let s = run(start, tick_outcome(v, clear, true)->Ok_0).unwrap();
    assert(s.live =~= start.live);
}

/// Each frame submits once, last, and where a submission was in flight the
/// frame waits on it right before its own submission; the pass is cleared to
/// the tint color it was given.
pub proof fn lemma_frame_waits_then_submits(v: ControllerView, clear: Rgba8)
    requires
        renders(v),
        v.submitted < u64::MAX,
    ensures
        ({
            let f = tick_outcome(v, clear, true)->Ok_0;
            &&& f.last() == Command::Submit(v.submitted as u64)
            &&& submissions(f) == 1
            &&& f[3] == Command::BeginPass(clear, v.generation)
            &&& v.pending is Some ==> f[f.len() - 2] == Command::Wait(v.pending->Some_0)
        }),
{
    lemma_frame_valid(v, clear);
    lemma_run_counts_submissions(gpu_of(v), tick_outcome(v, clear, true)->Ok_0);
}

/// Shutting down twice is the same as once: the second call finds nothing to
/// do, and the two scripts together destroy every object exactly once.
pub proof fn lemma_shutdown_twice(v: ControllerView)
    ensures
        shutdown_commands(shut_down(v)) == Seq::<Command>::empty(),
        shut_down(shut_down(v)) == shut_down(v),
        run(gpu_of(v), shutdown_commands(v) + shutdown_commands(shut_down(v))) == Some(
            gpu_of(shut_down(v)),
        ),
        gpu_of(shut_down(v)).live.is_empty(),
        v.active ==> gpu_of(shut_down(v)).pending is None,
{
    lemma_shutdown_valid(v);
    lemma_run_concat(gpu_of(v), shutdown_commands(v), shutdown_commands(shut_down(v)));
    assert(gpu_of(shut_down(v)).live =~= Set::empty());
}

proof fn lemma_shutdown_valid(v: ControllerView)
    ensures
        run(gpu_of(v), shutdown_commands(v)) == Some(gpu_of(shut_down(v))),
{
    if v.active {
        let g = v.generation;
        let start = gpu_of(v);
        let d = drain(seq![], v.pending);
        let s0 = run(start, d).unwrap();
        assert(s0.live == start.live && s0.pending.is_none() && !s0.recording);
        let s6 = run(
            start,
            d.push(Command::DestroyVertexBuffer).push(Command::DestroyIndexBuffer).push(
                Command::DestroyDepthView(g),
            ).push(Command::DestroyDepthTexture(g)).push(Command::DestroyCommandEncoder).push(
                Command::DestroyPipeline,
            ).push(Command::DestroySurface),
        ).unwrap();
        assert(s6.live =~= set![crate::gpu_model::Resource::Context]);
        let s = run(start, shutdown_commands(v)).unwrap();
        assert(s.live =~= Set::<crate::gpu_model::Resource>::empty());
    }
}

} // verus!
