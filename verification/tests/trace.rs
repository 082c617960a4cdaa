//! Scenarios against the recorded native surface: what crosses the
//! boundary, in what order, and what never crosses at all.

use gfx::camera::{Camera3D, Camera3DProjection, Scalar, Vector3};
use gfx::color::{Color, Rgba};
use gfx::native::NativeCall;
use gfx::window::{DrawTextError, InitWindowError, init_window};

fn scalar(v: f32) -> Scalar {
    Scalar { bits: v.to_bits() }
}

fn vec3(x: f32, y: f32, z: f32) -> Vector3 {
    Vector3 { x: scalar(x), y: scalar(y), z: scalar(z) }
}

fn pos(calls: &[NativeCall], wanted: fn(&NativeCall) -> bool) -> usize {
    calls.iter().position(|c| wanted(c)).unwrap()
}

#[test]
fn open_and_close_cross_exactly_once() {
    let window = init_window(800, 600, "zappy").unwrap();
    assert_eq!(window.title(), "zappy");
    let calls = window.close();
    assert_eq!(
        calls[0],
        NativeCall::OpenWindow { width: 800, height: 600, title: "zappy".to_string() }
    );
    assert_eq!(*calls.last().unwrap(), NativeCall::CloseWindow);
    let opens = calls
        .iter()
        .filter(|c| matches!(c, NativeCall::OpenWindow { .. }))
        .count();
    let closes = calls
        .iter()
        .filter(|c| matches!(c, NativeCall::CloseWindow))
        .count();
    assert_eq!(opens, 1);
    assert_eq!(closes, 1);
}

#[test]
fn title_with_embedded_terminator_is_rejected_before_any_call() {
    let r = init_window(800, 600, "zap\0py");
    assert!(matches!(r, Err(InitWindowError::TitleContainsNul)));
}

#[test]
fn draw_text_crosses_with_native_color_bytes() {
    let window = init_window(800, 600, "zappy").unwrap();
    let mut pen = window.begin_drawing();
    pen.draw_text("urmom", 770, 263, 75, Color::Blue).unwrap();
    let calls = pen.finish().close();
    assert!(calls.contains(&NativeCall::DrawText {
        text: "urmom".to_string(),
        x: 770,
        y: 263,
        font_size: 75,
        color: Rgba { r: 0, g: 121, b: 241, a: 255 },
    }));
}

#[test]
fn text_with_embedded_terminator_never_crosses() {
    let window = init_window(800, 600, "zappy").unwrap();
    let mut pen = window.begin_drawing();
    let before: usize = 2; // open + begin-frame
    let r = pen.draw_text("ur\0mom", 10, 10, 20, Color::Black);
    assert_eq!(r, Err(DrawTextError::TextContainsNul));
    let calls = pen.finish().close();
    // Nothing was recorded for the rejected draw: only end-frame and close
    // follow the two calls that were already there.
    assert_eq!(calls.len(), before + 2);
    assert!(!calls.iter().any(|c| matches!(c, NativeCall::DrawText { .. })));
}

#[test]
fn three_d_mode_ends_before_its_frame_ends() {
    let window = init_window(800, 600, "zappy").unwrap();
    let camera = Camera3D {
        position: vec3(10.0, 10.0, 10.0),
        target: vec3(0.0, 0.0, 0.0),
        up: vec3(0.0, 1.0, 0.0),
        fovy: scalar(45.0),
        projection: Camera3DProjection::Perspective,
    };
    let mut pen = window.begin_drawing();
    pen.clear_background(Color::RayWhite);
    let mut pen3d = pen.begin_mode_3d(camera.clone());
    pen3d.draw_grid(10, scalar(1.0));
    pen3d.draw_cube(vec3(0.0, 0.0, 0.0), scalar(2.0), scalar(2.0), scalar(2.0), Color::Red);
    pen3d.draw_cube_wires(
        vec3(0.0, 0.0, 0.0),
        scalar(2.0),
        scalar(2.0),
        scalar(2.0),
        Color::Blue,
    );
    let mut pen = pen3d.finish();
    pen.draw_text("Urmom", 800 / 64, 0, 600 / 8, Color::Blue).unwrap();
    let window = pen.finish();
    let calls = window.close();

    let begin_frame = pos(&calls, |c| matches!(c, NativeCall::BeginFrame));
    let begin_mode = pos(&calls, |c| matches!(c, NativeCall::BeginMode3D { .. }));
    let end_mode = pos(&calls, |c| matches!(c, NativeCall::EndMode3D));
    let end_frame = pos(&calls, |c| matches!(c, NativeCall::EndFrame));
    let close = pos(&calls, |c| matches!(c, NativeCall::CloseWindow));
    assert!(begin_frame < begin_mode);
    assert!(begin_mode < end_mode);
    assert!(end_mode < end_frame);
    assert!(end_frame < close);

    // The camera crossed as its raw snapshot, projection already encoded.
    match &calls[begin_mode] {
        NativeCall::BeginMode3D { camera: raw } => {
            assert_eq!(*raw, camera.to_raw());
            assert_eq!(raw.projection, 0);
        }
        _ => unreachable!(),
    }
    // The grid and cubes crossed inside the 3D scope.
    let grid = pos(&calls, |c| matches!(c, NativeCall::DrawGrid { .. }));
    assert!(begin_mode < grid && grid < end_mode);
}

#[test]
fn idle_calls_are_recorded_with_their_replies() {
    let mut window = init_window(640, 480, "zappy").unwrap();
    let monitor = window.get_current_monitor(3);
    assert_eq!(monitor.id(), 3);
    assert_eq!(monitor.get_refresh_rate(144), 144);
    window.set_target_fps(60);
    window.disable_cursor();
    window.enable_cursor();
    assert!(!window.should_close(false));
    assert!(window.should_close(true));
    let calls = window.close();
    assert_eq!(
        calls,
        vec![
            NativeCall::OpenWindow { width: 640, height: 480, title: "zappy".to_string() },
            NativeCall::CurrentMonitor { reply: 3 },
            NativeCall::SetTargetFps { fps: 60 },
            NativeCall::DisableCursor,
            NativeCall::EnableCursor,
            NativeCall::ShouldClose { reply: false },
            NativeCall::ShouldClose { reply: true },
            NativeCall::CloseWindow,
        ]
    );
}
