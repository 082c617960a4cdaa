//! The scoped handle types: window, frame, and 3D mode.
//!
//! Ownership makes the scopes nest: a [`Pen`] can only be made by consuming
//! the [`Window`], a [`Pen3D`] only by consuming the [`Pen`], and each
//! `finish` hands the enclosing handle back. So a frame cannot begin while
//! one is open, the window cannot close under an open frame, and 3D mode
//! cannot outlive its frame — none of these misuses can even be written.
//! On top of that, every handle keeps its recording accepted by the
//! boundary protocol ([`run`]), and every method's contract states exactly
//! which call it records.
//!
//! Text crossing the boundary (a window title, drawn text) must not contain
//! an embedded NUL terminator; it is checked here, before the call is
//! recorded, and a bad string is a typed error with nothing recorded.

use crate::camera::Camera3D;
use crate::camera::Scalar;
use crate::camera::Vector3;
use crate::camera::camera_raw;
use crate::color::Color;
use crate::color::rgba_of;
use crate::native::Event;
use crate::native::NativeCall;
use crate::native::Phase;
use crate::native::events_of;
use crate::native::lemma_events_push;
use crate::native::lemma_run_push;
use crate::native::run;
use crate::native::step;
use vstd::prelude::*;
use vstd::string::StrSliceExecFns;

verus! {

/// What goes wrong when a window is opened: the title held an embedded NUL
/// terminator.
#[derive(Clone, Copy, PartialEq, Eq, Structural, Debug)]
pub enum InitWindowError {
    TitleContainsNul,
}

/// What goes wrong when text is drawn: the text held an embedded NUL
/// terminator.
#[derive(Clone, Copy, PartialEq, Eq, Structural, Debug)]
pub enum DrawTextError {
    TextContainsNul,
}

/// True when the string holds an embedded NUL terminator and so must not
/// cross the native boundary.
pub open spec fn contains_nul(s: Seq<char>) -> bool {
    exists|i: int| 0 <= i < s.len() && s[i] == '\0'
}

/// Scans a string for an embedded NUL terminator.
fn str_has_nul(s: &str) -> (b: bool)
    ensures
        b == contains_nul(s@),
{
    let n = s.unicode_len();
    let mut i: usize = 0;
    while i < n
        invariant
            i <= n,
            n == s@.len(),
            forall|j: int| 0 <= j < i ==> s@[j] != '\0',
        decreases n - i,
    {
        if s.get_char(i) == '\0' {
            assert(contains_nul(s@));
            return true;
        }
        i = i + 1;
    }
    false
}

/// The open native window: owner of the window resource and of the
/// recording of every call issued on it.
pub struct Window {
    title: String,
    calls: Vec<NativeCall>,
}

/// The identity of a physical display: an integer index handed out by the
/// native layer, with no lifetime of its own.
pub struct Monitor {
    id: i32,
}

/// An open frame. It owns the window for as long as the frame is open, so
/// frames cannot overlap and the window cannot close mid-frame.
pub struct Pen {
    window: Window,
}

/// Open 3D mode inside a frame. It owns the frame for as long as the mode
/// is open, so the frame cannot end before the mode does.
pub struct Pen3D {
    pen: Pen,
}

impl Window {
    /// The recording of every boundary call issued so far, in issue order.
    pub closed spec fn events(&self) -> Seq<Event> {
        events_of(self.calls@)
    }

    /// The window's title, as validated at opening.
    pub closed spec fn title_view(&self) -> Seq<char> {
        self.title@
    }

    /// A window stands between frames: its recording is accepted by the
    /// boundary protocol and the protocol is idle.
    pub open spec fn wf(&self) -> bool {
        run(self.events()) == Some(Phase::Idle)
    }

    /// The title the window was opened with.
    pub fn title(&self) -> (t: &str)
        ensures
            t@ == self.title_view(),
    {
        self.title.as_str()
    }

    /// Polls whether the user asked to close the window; `reply` is the
    /// native layer's answer to the poll, supplied by the driver. The poll
    /// is recorded and the answer returned as it came.
    pub fn should_close(&mut self, reply: bool) -> (r: bool)
        requires
            old(self).wf(),
        ensures
            final(self).wf(),
            r == reply,
            final(self).events() == old(self).events().push(Event::ShouldClose { reply }),
            final(self).title_view() == old(self).title_view(),
    {
        self.record(NativeCall::ShouldClose { reply });
        reply
    }

    /// Opens a frame, consuming the window until the frame is finished.
    pub fn begin_drawing(self) -> (pen: Pen)
        requires
            self.wf(),
        ensures
            pen.wf(),
            pen.events() == self.events().push(Event::BeginFrame),
            pen.title_view() == self.title_view(),
    {
        let mut w = self;
        proof {
            lemma_events_push(w.calls@, NativeCall::BeginFrame);
            lemma_run_push(w.events(), NativeCall::BeginFrame@);
        }
        w.calls.push(NativeCall::BeginFrame);
        Pen { window: w }
    }

    /// Asks the OS to show and free the cursor; the call is recorded.
    pub fn enable_cursor(&mut self)
        requires
            old(self).wf(),
        ensures
            final(self).wf(),
            final(self).events() == old(self).events().push(Event::EnableCursor),
            final(self).title_view() == old(self).title_view(),
    {
        self.record(NativeCall::EnableCursor);
    }

    /// Asks the OS to hide and capture the cursor; the call is recorded.
    pub fn disable_cursor(&mut self)
        requires
            old(self).wf(),
        ensures
            final(self).wf(),
            final(self).events() == old(self).events().push(Event::DisableCursor),
            final(self).title_view() == old(self).title_view(),
    {
        self.record(NativeCall::DisableCursor);
    }

    /// Advises the native layer of a frame-rate cap; the call is recorded.
    pub fn set_target_fps(&mut self, fps: i32)
        requires
            old(self).wf(),
        ensures
            final(self).wf(),
            final(self).events() == old(self).events().push(Event::SetTargetFps { fps }),
            final(self).title_view() == old(self).title_view(),
    {
        self.record(NativeCall::SetTargetFps { fps });
    }

    /// Asks which display the window currently occupies; `reply` is the
    /// native layer's answer, supplied by the driver. The query is recorded
    /// and the monitor handle carries the answered index.
    pub fn get_current_monitor(&mut self, reply: i32) -> (m: Monitor)
        requires
            old(self).wf(),
        ensures
            final(self).wf(),
            m.spec_id() == reply,
            final(self).events() == old(self).events().push(Event::CurrentMonitor { reply }),
            final(self).title_view() == old(self).title_view(),
    {
        self.record(NativeCall::CurrentMonitor { reply });
        Monitor { id: reply }
    }

    /// Closes the window — exactly once, since the window is consumed —
    /// and hands back the complete recording, which ends with the close and
    /// is accepted by the boundary protocol in its final phase.
    pub fn close(self) -> (calls: Vec<NativeCall>)
        requires
            self.wf(),
        ensures
            events_of(calls@) == self.events().push(Event::CloseWindow),
            run(events_of(calls@)) == Some(Phase::Closed),
    {
        let mut w = self;
        proof {
            lemma_events_push(w.calls@, NativeCall::CloseWindow);
            lemma_run_push(w.events(), NativeCall::CloseWindow@);
        }
        w.calls.push(NativeCall::CloseWindow);
        w.calls
    }

    /// Records one idle-phase call. Callers pass a call whose event keeps
    /// the protocol idle.
    fn record(&mut self, c: NativeCall)
        requires
            old(self).wf(),
            step(Phase::Idle, c@) == Some(Phase::Idle),
        ensures
            final(self).wf(),
            final(self).events() == old(self).events().push(c@),
            final(self).title_view() == old(self).title_view(),
    {
        proof {
            lemma_events_push(self.calls@, c);
            lemma_run_push(self.events(), c@);
        }
        self.calls.push(c);
    }
}

impl Monitor {
    /// The display index the native layer answered with.
    pub closed spec fn spec_id(&self) -> i32 {
        self.id
    }

    /// The stored display index, for the driver's refresh-rate lookup.
    pub fn id(&self) -> (r: i32)
        ensures
            r == self.spec_id(),
    {
        self.id
    }

    /// Looks up this monitor's refresh rate in Hz; `reply` is the native
    /// layer's answer for the stored index, supplied by the driver. The
    /// index is passed through unvalidated — an out-of-range index is the
    /// native layer's own contract — and the answer is returned as it came.
    pub fn get_refresh_rate(&self, reply: i32) -> (r: i32)
        ensures
            r == reply,
    {
        reply
    }
}

impl Pen {
    /// The recording of every boundary call issued so far, in issue order.
    pub closed spec fn events(&self) -> Seq<Event> {
        self.window.events()
    }

    /// The enclosed window's title.
    pub closed spec fn title_view(&self) -> Seq<char> {
        self.window.title_view()
    }

    /// A pen stands inside an open frame.
    pub open spec fn wf(&self) -> bool {
        run(self.events()) == Some(Phase::Frame)
    }

    /// Fills the frame with a solid color; the call is recorded with the
    /// color already in its native byte form.
    pub fn clear_background(&mut self, color: Color)
        requires
            old(self).wf(),
        ensures
            final(self).wf(),
            final(self).events() == old(self).events().push(
                Event::ClearBackground { color: rgba_of(color) },
            ),
            final(self).title_view() == old(self).title_view(),
    {
        let c = color.rgba();
        self.record(NativeCall::ClearBackground { color: c });
    }

    /// Draws text at the given pixel position and size. The text is
    /// validated first: with an embedded NUL terminator nothing is recorded
    /// and the typed error comes back; otherwise exactly the draw call is
    /// recorded, with the color in its native byte form.
    pub fn draw_text(&mut self, text: &str, pos_x: i32, pos_y: i32, font_size: i32, color: Color)
        -> (r: Result<(), DrawTextError>)
        requires
            old(self).wf(),
        ensures
            final(self).wf(),
            final(self).title_view() == old(self).title_view(),
            contains_nul(text@) ==> r == Result::<(), DrawTextError>::Err(
                DrawTextError::TextContainsNul,
            ) && final(self).events() == old(self).events(),
            !contains_nul(text@) ==> r == Result::<(), DrawTextError>::Ok(())
                && final(self).events() == old(self).events().push(
                Event::DrawText {
                    text: text@,
                    x: pos_x,
                    y: pos_y,
                    font_size: font_size,
                    color: rgba_of(color),
                },
            ),
    {
        if str_has_nul(text) {
            return Err(DrawTextError::TextContainsNul);
        }
        let c = color.rgba();
        self.record(
            NativeCall::DrawText {
                text: text.to_owned(),
                x: pos_x,
                y: pos_y,
                font_size: font_size,
                color: c,
            },
        );
        Ok(())
    }

    /// Opens 3D mode, consuming the pen until the mode is finished. The
    /// camera crosses the boundary as its raw snapshot.
    pub fn begin_mode_3d(self, camera: Camera3D) -> (pen3d: Pen3D)
        requires
            self.wf(),
        ensures
            pen3d.wf(),
            pen3d.events() == self.events().push(Event::BeginMode3D { camera: camera_raw(camera) }),
            pen3d.title_view() == self.title_view(),
    {
        let raw = camera.to_raw();
        let mut p = self;
        proof {
            lemma_events_push(p.window.calls@, NativeCall::BeginMode3D { camera: raw });
            lemma_run_push(p.events(), NativeCall::BeginMode3D { camera: raw }@);
        }
        p.window.calls.push(NativeCall::BeginMode3D { camera: raw });
        Pen3D { pen: p }
    }

    /// Ends the frame — exactly once, since the pen is consumed — and hands
    /// the window back for the next frame.
    pub fn finish(self) -> (w: Window)
        requires
            self.wf(),
        ensures
            w.wf(),
            w.events() == self.events().push(Event::EndFrame),
            w.title_view() == self.title_view(),
    {
        let mut p = self;
        proof {
            lemma_events_push(p.window.calls@, NativeCall::EndFrame);
            lemma_run_push(p.events(), NativeCall::EndFrame@);
        }
        p.window.calls.push(NativeCall::EndFrame);
        p.window
    }

    /// Records one in-frame call. Callers pass a call whose event keeps the
    /// protocol in the frame phase.
    fn record(&mut self, c: NativeCall)
        requires
            old(self).wf(),
            step(Phase::Frame, c@) == Some(Phase::Frame),
        ensures
            final(self).wf(),
            final(self).events() == old(self).events().push(c@),
            final(self).title_view() == old(self).title_view(),
    {
        proof {
            lemma_events_push(self.window.calls@, c);
            lemma_run_push(self.events(), c@);
        }
        self.window.calls.push(c);
    }
}

impl Pen3D {
    /// The recording of every boundary call issued so far, in issue order.
    pub closed spec fn events(&self) -> Seq<Event> {
        self.pen.events()
    }

    /// The enclosed window's title.
    pub closed spec fn title_view(&self) -> Seq<char> {
        self.pen.title_view()
    }

    /// A 3D pen stands inside open 3D mode.
    pub open spec fn wf(&self) -> bool {
        run(self.events()) == Some(Phase::Mode3D)
    }

    /// Draws the reference ground grid; the call is recorded.
    pub fn draw_grid(&mut self, slices: i32, spacing: Scalar)
        requires
            old(self).wf(),
        ensures
            final(self).wf(),
            final(self).events() == old(self).events().push(Event::DrawGrid { slices, spacing }),
            final(self).title_view() == old(self).title_view(),
    {
        self.record(NativeCall::DrawGrid { slices, spacing });
    }

    /// Draws a solid cuboid; the call is recorded with the color in its
    /// native byte form.
    pub fn draw_cube(
        &mut self,
        position: Vector3,
        width: Scalar,
        height: Scalar,
        length: Scalar,
        color: Color,
    )
        requires
            old(self).wf(),
        ensures
            final(self).wf(),
            final(self).events() == old(self).events().push(
                Event::DrawCube { position, width, height, length, color: rgba_of(color) },
            ),
            final(self).title_view() == old(self).title_view(),
    {
        let c = color.rgba();
        self.record(NativeCall::DrawCube { position, width, height, length, color: c });
    }

    /// Draws a wireframe cuboid; the call is recorded with the color in its
    /// native byte form.
    pub fn draw_cube_wires(
        &mut self,
        position: Vector3,
        width: Scalar,
        height: Scalar,
        length: Scalar,
        color: Color,
    )
        requires
            old(self).wf(),
        ensures
            final(self).wf(),
            final(self).events() == old(self).events().push(
                Event::DrawCubeWires { position, width, height, length, color: rgba_of(color) },
            ),
            final(self).title_view() == old(self).title_view(),
    {
        let c = color.rgba();
        self.record(NativeCall::DrawCubeWires { position, width, height, length, color: c });
    }

    /// Ends 3D mode — exactly once, since the handle is consumed — and
    /// hands the frame back for further 2D drawing.
    pub fn finish(self) -> (pen: Pen)
        requires
            self.wf(),
        ensures
            pen.wf(),
            pen.events() == self.events().push(Event::EndMode3D),
            pen.title_view() == self.title_view(),
    {
        let mut p = self;
        proof {
            lemma_events_push(p.pen.window.calls@, NativeCall::EndMode3D);
            lemma_run_push(p.events(), NativeCall::EndMode3D@);
        }
        p.pen.window.calls.push(NativeCall::EndMode3D);
        p.pen
    }

    /// Records one 3D-mode call. Callers pass a call whose event keeps the
    /// protocol in the 3D phase.
    fn record(&mut self, c: NativeCall)
        requires
            old(self).wf(),
            step(Phase::Mode3D, c@) == Some(Phase::Mode3D),
        ensures
            final(self).wf(),
            final(self).events() == old(self).events().push(c@),
            final(self).title_view() == old(self).title_view(),
    {
        proof {
            lemma_events_push(self.pen.window.calls@, c);
            lemma_run_push(self.events(), c@);
        }
        self.pen.window.calls.push(c);
    }
}

/// Opens the native window at the given pixel size. The title is validated
/// first: with an embedded NUL terminator the typed error comes back and
/// nothing crosses the boundary; otherwise the returned window owns the
/// resource and its recording holds exactly the opening call.
pub fn init_window(width: i32, height: i32, title: &str) -> (r: Result<Window, InitWindowError>)
    ensures
        contains_nul(title@) ==> r == Result::<Window, InitWindowError>::Err(
            InitWindowError::TitleContainsNul,
        ),
        !contains_nul(title@) ==> (r matches Ok(w) && w.wf() && w.title_view() == title@
            && w.events() == seq![Event::OpenWindow { width, height, title: title@ }]),
{
    if str_has_nul(title) {
        return Err(InitWindowError::TitleContainsNul);
    }
    let mut calls: Vec<NativeCall> = Vec::new();
    let ghost empty = calls@;
    let c = NativeCall::OpenWindow { width, height, title: title.to_owned() };
    let ghost gc = c;
    calls.push(c);
    let w = Window { title: title.to_owned(), calls };
    proof {
        assert(events_of(empty) =~= Seq::<Event>::empty());
        lemma_events_push(empty, gc);
        lemma_run_push(events_of(empty), gc@);
        assert(w.events() =~= seq![Event::OpenWindow { width, height, title: title@ }]);
    }
    Ok(w)
}

} // verus!
