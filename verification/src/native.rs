//! The recorded native surface.
//!
//! Every call the wrapper would issue across the foreign boundary is held as
//! a [`NativeCall`], in issue order. In specifications a call is abstracted
//! to an [`Event`] (its view), and a whole recording to a sequence of events.
//! The [`run`] function is the boundary's protocol: it replays a sequence
//! through a small [`Phase`] machine and yields `None` as soon as a call is
//! out of place — a frame ended twice, 3D mode begun outside a frame, a call
//! after close. The handle types in [`crate::window`] keep their recordings
//! accepted by this machine at all times; the lemmas at the bottom turn that
//! acceptance into the ordering facts a reader expects (one open and one
//! close, balanced frames, 3D mode always closed before its frame ends).

use crate::camera::{RawCamera3D, Scalar, Vector3};
use crate::color::Rgba;
use vstd::prelude::*;

verus! {

/// One call across the foreign boundary, as the wrapper would issue it.
/// Queries carry the native layer's reply, so a recording shows the whole
/// exchange.
#[derive(Clone, PartialEq, Debug)]
#[allow(inconsistent_fields)]
pub enum NativeCall {
    OpenWindow { width: i32, height: i32, title: String },
    CloseWindow,
    ShouldClose { reply: bool },
    CurrentMonitor { reply: i32 },
    EnableCursor,
    DisableCursor,
    SetTargetFps { fps: i32 },
    BeginFrame,
    EndFrame,
    ClearBackground { color: Rgba },
    DrawText { text: String, x: i32, y: i32, font_size: i32, color: Rgba },
    BeginMode3D { camera: RawCamera3D },
    EndMode3D,
    DrawGrid { slices: i32, spacing: Scalar },
    DrawCube { position: Vector3, width: Scalar, height: Scalar, length: Scalar, color: Rgba },
    DrawCubeWires {
        position: Vector3,
        width: Scalar,
        height: Scalar,
        length: Scalar,
        color: Rgba,
    },
}

/// The specification-level form of one boundary call: text is a character
/// sequence, everything else crosses as the plain value it is.
#[allow(inconsistent_fields)]
pub enum Event {
    OpenWindow { width: i32, height: i32, title: Seq<char> },
    CloseWindow,
    ShouldClose { reply: bool },
    CurrentMonitor { reply: i32 },
    EnableCursor,
    DisableCursor,
    SetTargetFps { fps: i32 },
    BeginFrame,
    EndFrame,
    ClearBackground { color: Rgba },
    DrawText { text: Seq<char>, x: i32, y: i32, font_size: i32, color: Rgba },
    BeginMode3D { camera: RawCamera3D },
    EndMode3D,
    DrawGrid { slices: i32, spacing: Scalar },
    DrawCube { position: Vector3, width: Scalar, height: Scalar, length: Scalar, color: Rgba },
    DrawCubeWires {
        position: Vector3,
        width: Scalar,
        height: Scalar,
        length: Scalar,
        color: Rgba,
    },
}

impl View for NativeCall {
    type V = Event;

    open spec fn view(&self) -> Event {
        match self {
            NativeCall::OpenWindow { width, height, title } => Event::OpenWindow {
                width: *width,
                height: *height,
                title: title@,
            },
            NativeCall::CloseWindow => Event::CloseWindow,
            NativeCall::ShouldClose { reply } => Event::ShouldClose { reply: *reply },
            NativeCall::CurrentMonitor { reply } => Event::CurrentMonitor { reply: *reply },
            NativeCall::EnableCursor => Event::EnableCursor,
            NativeCall::DisableCursor => Event::DisableCursor,
            NativeCall::SetTargetFps { fps } => Event::SetTargetFps { fps: *fps },
            NativeCall::BeginFrame => Event::BeginFrame,
            NativeCall::EndFrame => Event::EndFrame,
            NativeCall::ClearBackground { color } => Event::ClearBackground { color: *color },
            NativeCall::DrawText { text, x, y, font_size, color } => Event::DrawText {
                text: text@,
                x: *x,
                y: *y,
                font_size: *font_size,
                color: *color,
            },
            NativeCall::BeginMode3D { camera } => Event::BeginMode3D { camera: *camera },
            NativeCall::EndMode3D => Event::EndMode3D,
            NativeCall::DrawGrid { slices, spacing } => Event::DrawGrid {
                slices: *slices,
                spacing: *spacing,
            },
            NativeCall::DrawCube { position, width, height, length, color } => Event::DrawCube {
                position: *position,
                width: *width,
                height: *height,
                length: *length,
                color: *color,
            },
            NativeCall::DrawCubeWires {
                position,
                width,
                height,
                length,
                color,
            } => Event::DrawCubeWires {
                position: *position,
                width: *width,
                height: *height,
                length: *length,
                color: *color,
            },
        }
    }
}

/// A recording, abstracted call by call.
pub open spec fn events_of(calls: Seq<NativeCall>) -> Seq<Event> {
    calls.map_values(|c: NativeCall| c@)
}

/// Abstraction commutes with recording one more call.
pub proof fn lemma_events_push(calls: Seq<NativeCall>, c: NativeCall)
    ensures
        events_of(calls.push(c)) == events_of(calls).push(c@),
{
    assert(events_of(calls.push(c)) =~= events_of(calls).push(c@));
}

/// Where the boundary protocol stands after a sequence of calls.
#[derive(Clone, Copy, PartialEq, Eq, Structural, Debug)]
pub enum Phase {
    /// No window has been opened.
    NotOpen,
    /// The window is open and no frame is being drawn.
    Idle,
    /// A frame is open; 2D drawing is valid.
    Frame,
    /// 3D mode is open inside the current frame.
    Mode3D,
    /// The window has been closed; nothing more may be issued.
    Closed,
}

/// One step of the boundary protocol: which calls are in place in which
/// phase, and where each leads. `None` means the call is out of place.
pub open spec fn step(p: Phase, e: Event) -> Option<Phase> {
    match e {
        Event::OpenWindow { .. } => if p is NotOpen {
            Some(Phase::Idle)
        } else {
            None
        },
        Event::CloseWindow => if p is Idle {
            Some(Phase::Closed)
        } else {
            None
        },
        Event::ShouldClose { .. } => if p is Idle {
            Some(Phase::Idle)
        } else {
            None
        },
        Event::CurrentMonitor { .. } => if p is Idle {
            Some(Phase::Idle)
        } else {
            None
        },
        Event::EnableCursor => if p is Idle {
            Some(Phase::Idle)
        } else {
            None
        },
        Event::DisableCursor => if p is Idle {
            Some(Phase::Idle)
        } else {
            None
        },
        Event::SetTargetFps { .. } => if p is Idle {
            Some(Phase::Idle)
        } else {
            None
        },
        Event::BeginFrame => if p is Idle {
            Some(Phase::Frame)
        } else {
            None
        },
        Event::EndFrame => if p is Frame {
            Some(Phase::Idle)
        } else {
            None
        },
        Event::ClearBackground { .. } => if p is Frame {
            Some(Phase::Frame)
        } else {
            None
        },
        Event::DrawText { .. } => if p is Frame {
            Some(Phase::Frame)
        } else {
            None
        },
        Event::BeginMode3D { .. } => if p is Frame {
            Some(Phase::Mode3D)
        } else {
            None
        },
        Event::EndMode3D => if p is Mode3D {
            Some(Phase::Frame)
        } else {
            None
        },
        Event::DrawGrid { .. } => if p is Mode3D {
            Some(Phase::Mode3D)
        } else {
            None
        },
        Event::DrawCube { .. } => if p is Mode3D {
            Some(Phase::Mode3D)
        } else {
            None
        },
        Event::DrawCubeWires { .. } => if p is Mode3D {
            Some(Phase::Mode3D)
        } else {
            None
        },
    }
}

/// Replays a whole sequence of boundary calls from the initial phase.
/// `Some(p)` means every call was in place and the protocol now stands at
/// `p`; `None` means some call was out of place.
pub open spec fn run(s: Seq<Event>) -> Option<Phase>
    decreases s.len(),
{
    if s.len() == 0 {
        Some(Phase::NotOpen)
    } else {
        match run(s.drop_last()) {
            Some(p) => step(p, s.last()),
            None => None,
        }
    }
}

/// Replaying one more call steps the machine once.
pub proof fn lemma_run_push(s: Seq<Event>, e: Event)
    ensures
        run(s.push(e)) == (match run(s) {
            Some(p) => step(p, e),
            None => None::<Phase>,
        }),
{
    assert(s.push(e).drop_last() =~= s);
    assert(s.push(e).last() == e);
}

/// The scope-delimiting calls a recording can be measured by.
#[derive(Clone, Copy, PartialEq, Eq, Structural, Debug)]
pub enum ScopeMark {
    Open,
    Close,
    BeginFrame,
    EndFrame,
    BeginMode,
    EndMode,
}

/// Whether one call is the given scope mark.
pub open spec fn is_mark(e: Event, k: ScopeMark) -> bool {
    match k {
        ScopeMark::Open => e is OpenWindow,
        ScopeMark::Close => e is CloseWindow,
        ScopeMark::BeginFrame => e is BeginFrame,
        ScopeMark::EndFrame => e is EndFrame,
        ScopeMark::BeginMode => e is BeginMode3D,
        ScopeMark::EndMode => e is EndMode3D,
    }
}

/// How many calls in the sequence are the given scope mark.
pub open spec fn mark_count(s: Seq<Event>, k: ScopeMark) -> int
    decreases s.len(),
{
    if s.len() == 0 {
        0
    } else {
        mark_count(s.drop_last(), k) + if is_mark(s.last(), k) {
            1int
        } else {
            0int
        }
    }
}

/// Law: what the phase tells about a recording's scope marks. In every
/// accepted recording the window was opened exactly once unless nothing ran
/// yet, closed exactly once iff the machine reached its end, every begun
/// frame but at most the current one has been ended, and every begun 3D
/// mode but at most the current one has been ended.
pub proof fn lemma_run_mark_counts(s: Seq<Event>, p: Phase)
    requires
        run(s) == Some(p),
    ensures
        mark_count(s, ScopeMark::Open) == if p is NotOpen {
            0int
        } else {
            1int
        },
        mark_count(s, ScopeMark::Close) == if p is Closed {
            1int
        } else {
            0int
        },
        mark_count(s, ScopeMark::BeginFrame) == mark_count(s, ScopeMark::EndFrame) + if p is Frame
            || p is Mode3D {
            1int
        } else {
            0int
        },
        mark_count(s, ScopeMark::BeginMode) == mark_count(s, ScopeMark::EndMode) + if p is Mode3D {
            1int
        } else {
            0int
        },
    decreases s.len(),
{
    if s.len() == 0 {
    } else {
        let q = run(s.drop_last())->Some_0;
        lemma_run_mark_counts(s.drop_last(), q);
    }
}

/// An accepted recording is accepted up to any point.
pub proof fn lemma_run_prefix(s: Seq<Event>, i: int)
    requires
        run(s) is Some,
        0 <= i <= s.len(),
    ensures
        run(s.take(i)) is Some,
    decreases s.len(),
{
    if i == s.len() {
        assert(s.take(i) =~= s);
    } else {
        assert(s.drop_last().take(i) =~= s.take(i));
        lemma_run_prefix(s.drop_last(), i);
    }
}

/// Law: a frame never ends over an open 3D mode. At any point where an
/// accepted recording ends a frame, every 3D mode begun so far has already
/// been ended — end-3D always precedes end-frame.
pub proof fn lemma_end_frame_closes_mode(s: Seq<Event>, j: int)
    requires
        run(s) is Some,
        0 <= j < s.len(),
        s[j] is EndFrame,
    ensures
        mark_count(s.take(j), ScopeMark::BeginMode) == mark_count(s.take(j), ScopeMark::EndMode),
{
    lemma_run_prefix(s, j + 1);
    lemma_run_push(s.take(j), s[j]);
    assert(s.take(j).push(s[j]) =~= s.take(j + 1));
    let p = run(s.take(j))->Some_0;
    assert(step(p, s[j]) is Some);
    lemma_run_mark_counts(s.take(j), p);
}

/// In an accepted recording that stands in 3D mode at point `t` and in a
/// bare frame at point `j`, the mode was ended somewhere between the two.
proof fn lemma_mode_closes_between(s: Seq<Event>, t: int, j: int)
    requires
        run(s) is Some,
        0 <= t <= j <= s.len(),
        run(s.take(t)) == Some(Phase::Mode3D),
        run(s.take(j)) == Some(Phase::Frame),
    ensures
        exists|k: int| t <= k < j && s[k] is EndMode3D,
    decreases j - t,
{
    lemma_run_prefix(s, t + 1);
    lemma_run_push(s.take(t), s[t]);
    assert(s.take(t).push(s[t]) =~= s.take(t + 1));
    if s[t] is EndMode3D {
        assert(t <= t < j && s[t] is EndMode3D);
    } else {
        assert(run(s.take(t + 1)) == Some(Phase::Mode3D));
        lemma_mode_closes_between(s, t + 1, j);
    }
}

/// Law: ending a frame is always preceded by ending any 3D mode open in
/// it. Wherever an accepted recording begins 3D mode and later ends the
/// enclosing frame, an end-3D call stands strictly between the two.
pub proof fn lemma_end_mode_precedes_end_frame(s: Seq<Event>, i: int, j: int)
    requires
        run(s) is Some,
        0 <= i < j < s.len(),
        s[i] is BeginMode3D,
        s[j] is EndFrame,
    ensures
        exists|k: int| i < k < j && s[k] is EndMode3D,
{
    lemma_run_prefix(s, i + 1);
    lemma_run_push(s.take(i), s[i]);
    assert(s.take(i).push(s[i]) =~= s.take(i + 1));
    assert(run(s.take(i + 1)) == Some(Phase::Mode3D));
    lemma_run_prefix(s, j + 1);
    lemma_run_push(s.take(j), s[j]);
    assert(s.take(j).push(s[j]) =~= s.take(j + 1));
    assert(run(s.take(j)) == Some(Phase::Frame));
    lemma_mode_closes_between(s, i + 1, j);
    let k = choose|k: int| i + 1 <= k < j && s[k] is EndMode3D;
    assert(i < k < j && s[k] is EndMode3D);
}

/// Law: the window never closes over an open frame or 3D mode. At the
/// point where an accepted recording closes the window, frames and 3D
/// modes are balanced — every end precedes the close.
pub proof fn lemma_close_balances_scopes(s: Seq<Event>, j: int)
    requires
        run(s) is Some,
        0 <= j < s.len(),
        s[j] is CloseWindow,
    ensures
        mark_count(s.take(j), ScopeMark::BeginFrame) == mark_count(s.take(j), ScopeMark::EndFrame),
        mark_count(s.take(j), ScopeMark::BeginMode) == mark_count(s.take(j), ScopeMark::EndMode),
{
    lemma_run_prefix(s, j + 1);
    lemma_run_push(s.take(j), s[j]);
    assert(s.take(j).push(s[j]) =~= s.take(j + 1));
    let p = run(s.take(j))->Some_0;
    assert(step(p, s[j]) is Some);
    lemma_run_mark_counts(s.take(j), p);
}

} // verus!
