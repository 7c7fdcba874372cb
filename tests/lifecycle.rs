use frame_core::gpu_model::Command;
use frame_core::input::{handle_key, home_light_position, Key, LightPosition};
use frame_core::lifecycle::{Controller, FrameError, ENCODER_BUFFER_COUNT, INDEX_COUNT};
use frame_core::surface::{
    depth_texture_desc, make_surface_config, DepthTextureDesc, Extent, PresentMode,
    SurfaceColorSpace,
};
use frame_core::tint::{set_background_color, Rgba8, TintStore};

fn ext(width: u32, height: u32) -> Extent {
    Extent { width, height }
}

fn count(cmds: &[Command], c: Command) -> usize {
    cmds.iter().filter(|x| **x == c).count()
}

fn submits(cmds: &[Command]) -> usize {
    cmds.iter().filter(|x| matches!(x, Command::Submit(_))).count()
}

#[test]
fn initialize_creates_everything_once() {
    let (c, cmds) = Controller::initialize(ext(500, 500));
    assert_eq!(
        cmds,
        vec![
            Command::CreateContext,
            Command::CreateSurface(make_surface_config(ext(500, 500))),
            Command::CreateVertexBuffer,
            Command::CreateIndexBuffer,
            Command::CreateDepthTexture(0, depth_texture_desc(ext(500, 500))),
            Command::CreateDepthView(0),
            Command::CreatePipeline,
            Command::CreateCommandEncoder(2),
        ]
    );
    assert_eq!(ENCODER_BUFFER_COUNT, 2);
    assert_eq!(c.depth_extent(), ext(500, 500));
    assert_eq!(c.pending_token(), None);
    assert!(c.is_active());
}

#[test]
fn end_to_end_scenario() {
    let tint = TintStore::new();
    let (mut c, _) = Controller::initialize(ext(500, 500));
    let mut all: Vec<Command> = Vec::new();

    let f1 = c.tick(&tint, true).unwrap();
    assert_eq!(submits(&f1), 1);
    assert_eq!(c.pending_token(), Some(0));
    assert_eq!(c.depth_extent(), ext(500, 500));
    all.extend(f1);

    let r = c.resize(ext(800, 600));
    assert_eq!(r[0], Command::Wait(0));
    all.extend(r);
    let f2 = c.tick(&tint, true).unwrap();
    assert_eq!(submits(&f2), 1);
    assert_eq!(c.depth_extent(), ext(800, 600));
    all.extend(f2);
    assert_eq!(count(&all, Command::DestroyDepthView(0)), 1);
    assert_eq!(count(&all, Command::DestroyDepthTexture(0)), 1);

    let r = c.resize(ext(0, 10));
    assert!(r.is_empty());
    let f3 = c.tick(&tint, true).unwrap();
    assert!(f3.is_empty());
    assert_eq!(c.submission_count(), 2);

    let s1 = c.shutdown();
    let s2 = c.shutdown();
    assert!(s2.is_empty());
    all.extend(s1);
    for cmd in [
        Command::DestroyVertexBuffer,
        Command::DestroyIndexBuffer,
        Command::DestroyDepthView(1),
        Command::DestroyDepthTexture(1),
        Command::DestroyCommandEncoder,
        Command::DestroyPipeline,
        Command::DestroySurface,
        Command::DestroyContext,
    ] {
        assert_eq!(count(&all, cmd), 1);
    }
    assert_eq!(count(&all, Command::DestroyDepthView(0)), 1);
}

#[test]
fn resizes_track_last_size() {
    let (mut c, _) = Controller::initialize(ext(100, 100));
    for (w, h) in [(640, 480), (1, 1), (1920, 1080), (300, 700)] {
        c.resize(ext(w, h));
    }
    assert_eq!(c.depth_extent(), ext(300, 700));
    assert_eq!(c.size(), ext(300, 700));
    assert_eq!(c.depth_generation(), 4);
}

#[test]
fn resize_replaces_depth_view_then_texture() {
    let tint = TintStore::new();
    let (mut c, _) = Controller::initialize(ext(100, 100));
    c.tick(&tint, true).unwrap();
    let r = c.resize(ext(640, 480));
    assert_eq!(
        r,
        vec![
            Command::Wait(0),
            Command::DestroyDepthView(0),
            Command::DestroyDepthTexture(0),
            Command::CreateDepthTexture(1, depth_texture_desc(ext(640, 480))),
            Command::CreateDepthView(1),
            Command::ReconfigureSurface(make_surface_config(ext(640, 480))),
        ]
    );
    assert_eq!(c.pending_token(), None);
}

#[test]
fn zero_resize_then_tick_does_nothing() {
    let tint = TintStore::new();
    let (mut c, _) = Controller::initialize(ext(100, 100));
    c.tick(&tint, true).unwrap();
    for size in [ext(0, 10), ext(10, 0), ext(0, 0)] {
        let r = c.resize(size);
        assert!(r.is_empty());
        assert_eq!(c.depth_extent(), ext(100, 100));
        assert!(!c.wants_frame());
        let f = c.tick(&tint, true).unwrap();
        assert!(f.is_empty());
        assert_eq!(c.submission_count(), 1);
        assert_eq!(c.pending_token(), Some(0));
    }
}

#[test]
fn ticks_submit_once_each_after_waiting() {
    let tint = TintStore::new();
    let (mut c, _) = Controller::initialize(ext(100, 100));
    for n in 0..5u64 {
        let f = c.tick(&tint, true).unwrap();
        assert_eq!(submits(&f), 1);
        assert_eq!(*f.last().unwrap(), Command::Submit(n));
        if n == 0 {
            assert_eq!(f.len(), 11);
        } else {
            assert_eq!(f.len(), 12);
            assert_eq!(f[f.len() - 2], Command::Wait(n - 1));
        }
        assert_eq!(count(&f, Command::DrawIndexed(INDEX_COUNT)), 1);
        assert_eq!(c.pending_token(), Some(n));
    }
    assert_eq!(c.submission_count(), 5);
    assert_eq!(INDEX_COUNT, 36);
}

#[test]
fn failed_acquisition_is_reported_and_retried() {
    let tint = TintStore::new();
    let (mut c, _) = Controller::initialize(ext(100, 100));
    assert_eq!(c.tick(&tint, false), Err(FrameError::AcquisitionFailed));
    assert_eq!(c.submission_count(), 0);
    let f = c.tick(&tint, true).unwrap();
    assert_eq!(*f.last().unwrap(), Command::Submit(0));
}

#[test]
fn shutdown_twice_is_harmless() {
    let tint = TintStore::new();
    let (mut c, _) = Controller::initialize(ext(100, 100));
    c.tick(&tint, true).unwrap();
    let s1 = c.shutdown();
    assert_eq!(
        s1,
        vec![
            Command::Wait(0),
            Command::DestroyVertexBuffer,
            Command::DestroyIndexBuffer,
            Command::DestroyDepthView(0),
            Command::DestroyDepthTexture(0),
            Command::DestroyCommandEncoder,
            Command::DestroyPipeline,
            Command::DestroySurface,
            Command::DestroyContext,
        ]
    );
    assert!(c.shutdown().is_empty());
    assert!(!c.is_active());
    assert!(c.resize(ext(10, 10)).is_empty());
    assert!(c.tick(&tint, true).unwrap().is_empty());
}

#[test]
fn tint_sets_clear_color() {
    let mut tint = TintStore::new();
    set_background_color(&mut tint, 10, 20, 30, 255);
    let (mut c, _) = Controller::initialize(ext(100, 100));
    let f = c.tick(&tint, true).unwrap();
    let clear = Rgba8 { r: 10, g: 20, b: 30, a: 255 };
    assert_eq!(f[3], Command::BeginPass(clear, 0));
    let norm: Vec<f32> = [clear.r, clear.g, clear.b, clear.a].iter().map(|v| *v as f32 / 255.0).collect();
    assert_eq!(norm, vec![10.0 / 255.0, 20.0 / 255.0, 30.0 / 255.0, 1.0]);
}

#[test]
fn tint_defaults_to_opaque_black() {
    let tint = TintStore::new();
    assert_eq!(tint.get_background_color(), Rgba8 { r: 0, g: 0, b: 0, a: 255 });
    let (mut c, _) = Controller::initialize(ext(100, 100));
    let f = c.tick(&tint, true).unwrap();
    assert_eq!(f[3], Command::BeginPass(Rgba8 { r: 0, g: 0, b: 0, a: 255 }, 0));
}

#[test]
fn tint_last_writer_wins() {
    let mut tint = TintStore::new();
    set_background_color(&mut tint, 1, 2, 3, 4);
    set_background_color(&mut tint, 200, 100, 50, 0);
    assert_eq!(tint.get_background_color(), Rgba8 { r: 200, g: 100, b: 50, a: 0 });
}

#[test]
fn descriptors_follow_size() {
    assert_eq!(
        depth_texture_desc(ext(800, 600)),
        DepthTextureDesc {
            width: 800,
            height: 600,
            depth: 1,
            mip_level_count: 1,
            array_layer_count: 1,
            sample_count: 1,
        }
    );
    let s = make_surface_config(ext(800, 600));
    assert_eq!((s.width, s.height, s.depth), (800, 600, 1));
    assert!(s.render_target && !s.transparent && !s.allow_exclusive_full_screen);
    assert_eq!(s.present_mode, PresentMode::Recent);
    assert_eq!(s.color_space, SurfaceColorSpace::Srgb);
}

#[test]
fn keys_move_the_light() {
    let mut p = home_light_position();
    assert_eq!(p, LightPosition { x_steps: 4, y_steps: 6, z_steps: 4 });
    assert!(handle_key(&mut p, Key::W));
    assert!(handle_key(&mut p, Key::D));
    assert!(handle_key(&mut p, Key::Q));
    assert_eq!(p, LightPosition { x_steps: 5, y_steps: 7, z_steps: 3 });
    assert!(handle_key(&mut p, Key::S));
    assert!(handle_key(&mut p, Key::A));
    assert!(handle_key(&mut p, Key::E));
    assert!(handle_key(&mut p, Key::E));
    assert_eq!(p, LightPosition { x_steps: 4, y_steps: 5, z_steps: 4 });
    assert!(!handle_key(&mut p, Key::Other));
    assert_eq!(p, LightPosition { x_steps: 4, y_steps: 5, z_steps: 4 });
    assert!(handle_key(&mut p, Key::R));
    assert_eq!(p, home_light_position());
}

#[test]
fn light_steps_stop_at_the_range_ends() {
    let mut p = LightPosition { x_steps: i64::MIN, y_steps: i64::MAX, z_steps: 0 };
    assert!(handle_key(&mut p, Key::A));
    assert!(handle_key(&mut p, Key::Q));
    assert_eq!(p, LightPosition { x_steps: i64::MIN, y_steps: i64::MAX, z_steps: 0 });
}
