use tile_render::area::Area;
use tile_render::common::Ping;
use tile_render::device::graphics_queue_family;
use tile_render::present::{AcquireOutcome, FlushOutcome, FrameEnd, LoopStep, PresentLoop, RecreateOutcome};
use tile_render::s_render::{self, letterbox, world_area, FramePlan, RenderThing};
use tile_render::server::{Game, GameAction, REPLY_DELAY_NANOS};
use tile_render::texture::{load_tileset, tileset_pixels, DecodedImage, TextureError};

const WORLD: [[i32; 20]; 20] = [
    [4, 1, 1, 1, 1, 1, 1, 1, 1, 1, 1, 1, 1, 1, 1, 1, 1, 1, 1, 1],
    [1, 1, 2, 1, 1, 4, 4, 1, 2, 3,139, 5, 2, 2, 1, 5, 2, 1, 5, 1],
    [2, 3, 1, 5, 4, 1, 3, 3, 3, 1, 5, 5, 1, 3, 4, 5, 2, 1, 5, 2],
    [3, 3, 3, 2, 4, 1, 3, 3, 2, 2, 2, 3, 5, 4, 2, 3, 2, 2, 1, 4],
    [4, 3, 2, 4, 1, 3, 1, 2, 5, 3, 5, 5, 4, 1, 5, 2, 5, 1, 4, 3],
    [5, 5, 5, 1, 5, 3, 2, 3, 5, 5, 3, 5, 1, 4, 2, 1, 4, 4, 4, 5],
    [2, 2, 5, 3, 3, 4, 5, 5, 2, 3, 2, 4, 1, 2, 2, 3, 1, 2, 3, 2],
    [5, 1, 4, 3, 4, 4, 3, 4, 4, 1, 5, 3, 3, 4, 1, 4, 4, 5, 1, 2],
    [1, 5, 1, 3, 4, 2, 1, 1, 5, 5, 3, 2, 4, 4, 1, 4, 4, 1, 1, 1],
    [2, 3, 5, 2, 2, 2, 2, 4, 1, 2, 5, 5, 4, 1, 5, 3, 2, 2, 3, 4],
    [4, 4, 3, 1, 1, 2, 2, 3, 4, 3, 5, 3, 2, 3, 1, 3, 2, 5, 2, 5],
    [5, 3, 2, 4, 5, 1, 1, 1, 4, 4, 5, 5, 4, 2, 1, 4, 3, 1, 1, 4],
    [4, 2, 4, 3, 2, 2, 4, 3, 3, 5, 3, 1, 5, 1, 4, 5, 4, 5, 3, 2],
    [5, 4, 4, 2, 1, 3, 1, 1, 2, 2, 1, 1, 5, 4, 2, 3, 1, 5, 3, 1],
    [5, 1, 3, 5, 3, 3, 2, 4, 2, 3, 2, 5, 4, 5, 1, 5, 3, 3, 1, 3],
    [3, 2, 4, 5, 5, 4, 5, 5, 5, 2, 3, 5, 2, 4, 5, 2, 4, 3, 2, 5],
    [1, 3, 3, 2, 1, 2, 1, 3, 1, 3, 1, 4, 1, 3, 5, 4, 2, 3, 1, 3],
    [4, 4, 3, 3, 4, 1, 3, 3, 5, 4, 4, 3, 3, 5, 4, 1, 5, 1, 4, 5],
    [1, 4, 2, 1, 3, 1, 4, 2, 2, 2, 2, 5, 4, 3, 4, 1, 3, 2, 1, 2],
    [3, 4, 4, 3, 5, 4, 3, 2, 1, 3, 4, 5, 5, 5, 5, 4, 1, 3, 4, 3]
];

fn edited_world() -> Vec<Vec<i32>> {
    let mut w: Vec<Vec<i32>> = WORLD.iter().map(|r| r.to_vec()).collect();
    w[1][2] = 0;
    w
}

fn expected_tiles(x: usize, y: usize) -> Vec<i32> {
    let w = edited_world();
    let mut out = Vec::new();
    for r in y..y + 11 {
        for c in x..x + 16 {
            out.push(w[r][c]);
        }
    }
    out
}

fn run_frames(r: &mut RenderThing, n: u64) -> FramePlan {
    let mut last = r.frame(1920, 1080);
    for _ in 1..n {
        last = r.frame(1920, 1080);
    }
    last
}

fn small_area() -> Area {
    Area::from(vec![vec![1, 2, 3], vec![4, 5, 6]])
}

#[test]
fn area_reads_and_writes_tiles() {
    let mut a = small_area();
    assert_eq!(a.width(), 3);
    assert_eq!(a.height(), 2);
    assert_eq!(a.tile(2, 1), 6);
    a.set_tile(2, 1, 0);
    assert_eq!(a.tile(2, 1), 0);
    assert_eq!(a.tile(1, 1), 5);
    assert_eq!(a.tiles(), vec![1, 2, 3, 4, 5, 0]);
}

#[test]
fn area_view_slice_cuts_columns_and_rows() {
    let a = small_area();
    let s = a.view_slice(1, 3, 0, 2).expect("in range");
    assert_eq!(s.width(), 2);
    assert_eq!(s.height(), 2);
    assert_eq!(s.tiles(), vec![2, 3, 5, 6]);
    let empty = a.view_slice(1, 1, 1, 2).expect("empty columns are in range");
    assert_eq!(empty.tiles(), Vec::<i32>::new());
}

#[test]
fn area_view_slice_refuses_ranges_off_the_map() {
    let a = small_area();
    assert!(a.view_slice(0, 4, 0, 1).is_none());
    assert!(a.view_slice(0, 1, 0, 3).is_none());
    assert!(a.view_slice(2, 1, 0, 1).is_none());
    assert!(a.view_slice(usize::MAX, 15, 0, 1).is_none());
}

#[test]
fn world_map_is_twenty_by_twenty() {
    let w = world_area();
    assert_eq!(w.width(), 20);
    assert_eq!(w.height(), 20);
    assert_eq!(w.tile(10, 1), 139);
    assert_eq!(w.tile(2, 1), 2);
}

#[test]
fn new_renderer_starts_at_origin_moving_forward() {
    let r = s_render::new();
    assert_eq!(r.ticks(), 0);
    assert_eq!(r.camera(), (0, 0));
    assert!(r.forward());
}

#[test]
fn first_frame_shows_top_left_of_edited_world() {
    let mut r = s_render::new();
    let plan = r.frame(1920, 1080);
    assert_eq!(r.ticks(), 1);
    assert_eq!(r.camera(), (0, 0));
    assert_eq!(plan.src_min, (0, 0, 0));
    assert_eq!(plan.src_max, (240, 160, 1));
    assert_eq!(plan.dst_min, (240, 60, 0));
    assert_eq!(plan.dst_max, (1680, 1020, 1));
    let tiles = plan.tiles.expect("camera on the map");
    assert_eq!(tiles.len(), 176);
    assert_eq!(tiles, expected_tiles(0, 0));
    assert_eq!(tiles[16 + 2], 0);
}

#[test]
fn offset_grows_every_ten_frames_and_wraps_at_sixteen() {
    let mut r = s_render::new();
    let plan = run_frames(&mut r, 10);
    assert_eq!(plan.src_min, (1, 1, 0));
    let plan = run_frames(&mut r, 145);
    assert_eq!(r.ticks(), 155);
    assert_eq!(plan.src_min, (15, 15, 0));
    assert_eq!(plan.src_max, (255, 175, 1));
    let plan = run_frames(&mut r, 5);
    assert_eq!(r.ticks(), 160);
    assert_eq!(plan.src_min, (0, 0, 0));
}

#[test]
fn camera_steps_every_hundred_sixty_frames() {
    let mut r = s_render::new();
    run_frames(&mut r, 159);
    assert_eq!(r.camera(), (0, 0));
    let plan = run_frames(&mut r, 1);
    assert_eq!(r.camera(), (1, 1));
    assert_eq!(plan.tiles.expect("on the map"), expected_tiles(1, 1));
}

#[test]
fn camera_turns_back_at_the_right_edge() {
    let mut r = s_render::new();
    run_frames(&mut r, 639);
    assert_eq!(r.camera(), (3, 3));
    assert!(r.forward());
    let plan = run_frames(&mut r, 1);
    assert_eq!(r.camera(), (4, 4));
    assert!(!r.forward());
    assert_eq!(plan.src_min, (0, 0, 0));
    assert_eq!(plan.tiles.expect("on the map"), expected_tiles(4, 4));
    let plan = run_frames(&mut r, 1);
    assert_eq!(plan.src_min, (16, 16, 0));
    assert_eq!(plan.src_max, (256, 176, 1));
    run_frames(&mut r, 159);
    assert_eq!(r.ticks(), 800);
    assert_eq!(r.camera(), (3, 3));
    assert!(!r.forward());
}

#[test]
fn camera_leaves_the_map_then_comes_back() {
    let mut r = s_render::new();
    let plan = run_frames(&mut r, 1280);
    assert_eq!(r.camera(), (0, 0));
    assert!(!r.forward());
    assert!(plan.tiles.is_some());
    let plan = run_frames(&mut r, 160);
    assert_eq!(r.ticks(), 1440);
    assert_eq!(r.camera(), (-1, -1));
    assert!(r.forward());
    assert!(plan.tiles.is_none());
    let plan = run_frames(&mut r, 160);
    assert_eq!(r.camera(), (0, 0));
    assert!(r.forward());
    assert_eq!(plan.tiles.expect("on the map"), expected_tiles(0, 0));
}

#[test]
fn letterbox_scales_by_whole_factors_and_centres() {
    assert_eq!(letterbox(1920, 1080), ((240, 60, 0), (1680, 1020, 1)));
    assert_eq!(letterbox(240, 160), ((0, 0, 0), (240, 160, 1)));
    assert_eq!(letterbox(721, 500), ((0, 10, 0), (720, 490, 1)));
    assert_eq!(letterbox(481, 160), ((120, 0, 0), (360, 160, 1)));
}

#[test]
fn letterbox_of_a_window_smaller_than_the_view_is_empty() {
    assert_eq!(letterbox(100, 100), ((50, 50, 0), (50, 50, 1)));
    assert_eq!(letterbox(0, 0), ((0, 0, 0), (0, 0, 1)));
}

#[test]
fn letterbox_rounds_toward_zero_for_negative_sizes() {
    assert_eq!(letterbox(-481, 160), ((0, 240, 0), (-480, -80, 1)));
}

#[test]
fn game_answers_ten_pings_then_stops() {
    let mut g = Game::new();
    assert_eq!(g.counter(), 0);
    let mut ping = Ping { id: 7 };
    for k in 1..=10usize {
        match g.handle(ping) {
            GameAction::SendLater { ping: reply, delay_nanos } => {
                assert_eq!(reply.id, 7 + k);
                assert_eq!(delay_nanos, REPLY_DELAY_NANOS);
                assert_eq!(delay_nanos, 100);
                ping = reply;
            }
            GameAction::Stop => panic!("stopped after {} pings", k),
        }
        assert_eq!(g.counter(), k);
    }
    assert_eq!(g.handle(ping), GameAction::Stop);
    assert_eq!(g.counter(), 11);
}

#[test]
fn present_loop_rebuilds_after_out_of_date_acquire() {
    let mut l = PresentLoop::new();
    assert!(!l.needs_recreate());
    assert_eq!(l.after_acquire(AcquireOutcome::Acquired), LoopStep::Proceed);
    assert!(!l.needs_recreate());
    assert_eq!(l.after_acquire(AcquireOutcome::OutOfDate), LoopStep::Restart);
    assert!(l.needs_recreate());
    assert_eq!(l.after_recreate(RecreateOutcome::UnsupportedDimensions), LoopStep::Restart);
    assert!(l.needs_recreate());
    assert_eq!(l.after_recreate(RecreateOutcome::Recreated), LoopStep::Proceed);
    assert!(!l.needs_recreate());
}

#[test]
fn present_loop_handles_flush_outcomes() {
    let mut l = PresentLoop::new();
    assert_eq!(l.after_flush(FlushOutcome::Flushed), FrameEnd::KeepFuture);
    assert!(!l.needs_recreate());
    assert_eq!(l.after_flush(FlushOutcome::Failed), FrameEnd::ReportAndReset);
    assert!(!l.needs_recreate());
    assert_eq!(l.after_flush(FlushOutcome::OutOfDate), FrameEnd::ResetFuture);
    assert!(l.needs_recreate());
}

#[test]
fn present_loop_aborts_on_other_failures() {
    let mut l = PresentLoop::new();
    assert_eq!(l.after_acquire(AcquireOutcome::Failed), LoopStep::Abort);
    assert_eq!(l.after_recreate(RecreateOutcome::Failed), LoopStep::Abort);
}

#[test]
fn graphics_family_is_the_first_that_draws() {
    assert_eq!(graphics_queue_family(&[false, true, true]), Some(1));
    assert_eq!(graphics_queue_family(&[true]), Some(0));
    assert_eq!(graphics_queue_family(&[false, false]), None);
    assert_eq!(graphics_queue_family(&[]), None);
}

#[test]
fn tileset_png_decodes_to_rgba() {
    let rgb: Vec<u8> = vec![10, 20, 30, 40, 50, 60];
    let mut png = Vec::new();
    image::png::PNGEncoder::new(&mut png)
        .encode(&rgb, 2, 1, image::ColorType::RGB(8))
        .expect("encode");
    let pixels = load_tileset(&png).expect("decodes");
    assert_eq!(pixels, vec![10, 20, 30, 255, 40, 50, 60, 255]);
}

#[test]
fn tileset_refuses_bytes_that_are_not_png() {
    assert_eq!(load_tileset(&[1, 2, 3, 4]), Err(TextureError::Undecodable));
}

#[test]
fn tileset_pixels_passes_decoded_bytes_through() {
    let d = DecodedImage { width: 1, height: 1, rgba: vec![1, 2, 3, 4] };
    assert_eq!(tileset_pixels(Some(d)), Ok(vec![1, 2, 3, 4]));
    assert_eq!(tileset_pixels(None), Err(TextureError::Undecodable));
}
