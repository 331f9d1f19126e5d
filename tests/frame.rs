use physarum::frame::{workgroup_count, Extent, FrameOrchestrator, Pass, WORKGROUP_SIZE};
use physarum::settings::Display;

fn display(width: u32, height: u32) -> Display {
    Display { width, height, fullscreen: false }
}

#[test]
fn workgroups_round_up() {
    assert_eq!(WORKGROUP_SIZE, 64);
    assert_eq!(workgroup_count(0), 0);
    assert_eq!(workgroup_count(1), 1);
    assert_eq!(workgroup_count(64), 1);
    assert_eq!(workgroup_count(65), 2);
    assert_eq!(workgroup_count(1000), 16);
    assert_eq!(workgroup_count(u32::MAX), 67_108_864);
}

#[test]
fn new_orchestrator_starts_at_time_zero() {
    let o = FrameOrchestrator::new(&display(1920, 1080), 5000);
    assert_eq!(o.time_nanos(), 0);
    assert_eq!(o.delta_nanos(), 0);
    assert_eq!(o.num_agents(), 5000);
    assert_eq!(o.extent(), Extent { width: 1920, height: 1080 });
}

#[test]
fn extent_follows_display() {
    let e = Extent::of_display(&Display { width: 800, height: 600, fullscreen: true });
    assert_eq!(e, Extent { width: 800, height: 600 });
}

#[test]
fn tick_gives_passes_in_order() {
    let mut o = FrameOrchestrator::new(&display(640, 480), 130);
    let passes = o.tick(16_000_000);
    assert_eq!(
        passes,
        vec![
            Pass::Compute { workgroups: 3 },
            Pass::Render,
            Pass::CopyBack { extent: Extent { width: 640, height: 480 } },
            Pass::Blit,
        ]
    );
}

#[test]
fn time_is_sum_of_deltas() {
    let mut o = FrameOrchestrator::new(&display(10, 10), 1);
    let deltas: [u64; 4] = [5, 0, 17, 1_000_000_000];
    let mut sum: u64 = 0;
    for d in deltas {
        o.tick(d);
        sum += d;
        assert_eq!(o.time_nanos(), sum);
        assert_eq!(o.delta_nanos(), d);
    }
    assert_eq!(o.time_nanos(), 1_000_000_022);
}

#[test]
fn single_still_agent_time_still_advances() {
    let mut o = FrameOrchestrator::new(&display(256, 256), 1);
    for _ in 0..10 {
        let passes = o.tick(1_000_000);
        assert_eq!(passes[0], Pass::Compute { workgroups: 1 });
    }
    assert_eq!(o.time_nanos(), 10_000_000);
    assert_eq!(o.num_agents(), 1);
}

#[test]
fn thousand_agents_hundred_ticks_at_sixty_hz() {
    let mut o = FrameOrchestrator::new(&display(1280, 720), 1000);
    let delta: u64 = 16_666_667;
    for _ in 0..100 {
        let passes = o.tick(delta);
        assert_eq!(passes.len(), 4);
        assert_eq!(passes[0], Pass::Compute { workgroups: 16 });
    }
    assert_eq!(o.time_nanos(), 1_666_666_700);
    let seconds = o.time_nanos() as f64 / 1e9;
    assert!((seconds - 100.0 / 60.0).abs() < 1e-6);
}

#[test]
fn tick_up_to_the_largest_time() {
    let mut o = FrameOrchestrator::new(&display(1, 1), 0);
    let passes = o.tick(u64::MAX);
    assert_eq!(o.time_nanos(), u64::MAX);
    assert_eq!(passes[0], Pass::Compute { workgroups: 0 });
}
