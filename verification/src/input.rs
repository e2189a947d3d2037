//! The input pipeline: pointer events, the gesture recognizer, the diff that
//! turns two device samples into events, and the replay plan for a received event.

use vstd::prelude::*;
use std::time::Instant;
use crate::clock::clock_elapsed;
use crate::clock::clock_now;
use crate::clock::duration_millis;
use crate::config::ScreenLayout;
use crate::text::spec_optional_text;

verus! {

/// Most samples a stroke keeps; older ones are evicted first.
pub const MAX_GESTURE_POINTS: usize = 100;

/// Fewest samples a stroke needs before a gesture is looked for.
pub const MIN_GESTURE_POINTS: usize = 5;

/// Shortest duration of a stroke, in milliseconds, before a gesture is looked for.
pub const MIN_GESTURE_MILLIS: u128 = 500;

/// The net displacement that a stroke has to exceed to count as a gesture.
pub const MIN_GESTURE_DISTANCE: i64 = 50;

/// One of the four directions a stroke can point in.
#[derive(Debug, Clone, Copy, PartialEq, Eq, Structural)]
pub enum Gesture {
    Right,
    Down,
    Left,
    Up,
}

impl Gesture {
    /// The name under which a gesture is reported.
    pub open spec fn spec_label(self) -> Seq<char> {
        match self {
            Gesture::Right => "right"@,
            Gesture::Down => "down"@,
            Gesture::Left => "left"@,
            Gesture::Up => "up"@,
        }
    }

    /// The name under which a gesture is reported.
    pub fn label(self) -> (name: String)
        ensures
            name@ == self.spec_label(),
    {
        match self {
            Gesture::Right => "right".to_string(),
            Gesture::Down => "down".to_string(),
            Gesture::Left => "left".to_string(),
            Gesture::Up => "up".to_string(),
        }
    }
}

/// The sector that the displacement `(dx, dy)` points into, with `y` growing
/// downwards.
///
/// The plane is cut into four quarter-turn sectors centred on the axes: right
/// around 0 degrees, down around 90, left around 180, up around -90. A
/// displacement that lies exactly on the diagonal between two sectors belongs
/// to the one that comes later in the order right, down, left, up.
pub open spec fn sector_of(dx: int, dy: int) -> Gesture {
    if dx > 0 && -dx < dy && dy < dx {
        Gesture::Right
    } else if dy > 0 && -dy < dx && dx <= dy {
        Gesture::Down
    } else if dx < 0 && dx < dy && dy <= -dx {
        Gesture::Left
    } else {
        Gesture::Up
    }
}

/// The sector that follows `sector` a quarter turn on: right, down, left, up
/// and right again.
pub open spec fn next_sector(sector: Gesture) -> Gesture {
    match sector {
        Gesture::Right => Gesture::Down,
        Gesture::Down => Gesture::Left,
        Gesture::Left => Gesture::Up,
        Gesture::Up => Gesture::Right,
    }
}

/// A displacement along an axis points into the sector of that axis.
pub proof fn lemma_sector_on_axes(d: int)
    requires
        d > 0,
    ensures
        sector_of(d, 0) == Gesture::Right,
        sector_of(0, d) == Gesture::Down,
        sector_of(-d, 0) == Gesture::Left,
        sector_of(0, -d) == Gesture::Up,
{
}

/// A displacement on a diagonal belongs to the later of the two sectors that
/// meet there: to down before right, to left before down, and to up before
/// both left and right.
pub proof fn lemma_sector_on_diagonals(d: int)
    requires
        d > 0,
    ensures
        sector_of(d, d) == Gesture::Down,
        sector_of(-d, d) == Gesture::Left,
        sector_of(-d, -d) == Gesture::Up,
        sector_of(d, -d) == Gesture::Up,
{
}

/// Off the diagonals the four sectors are quarter turns of each other: a
/// displacement turned by a quarter points into the next sector.
pub proof fn lemma_sector_quarter_turn(dx: int, dy: int)
    requires
        dx != dy,
        dx != -dy,
    ensures
        sector_of(-dy, dx) == next_sector(sector_of(dx, dy)),
{
}

/// The gesture of a stroke with the samples `points` that has lasted
/// `elapsed_ms` milliseconds, if it has one.
///
/// A stroke has a gesture once it holds at least five samples, has lasted at
/// least half a second, and its last sample lies more than fifty units from
/// its first: at exactly fifty units there is none yet. The gesture is the
/// sector of that net displacement.
pub open spec fn spec_gesture(points: Seq<(i32, i32)>, elapsed_ms: int) -> Option<Gesture> {
    if points.len() < MIN_GESTURE_POINTS || elapsed_ms < MIN_GESTURE_MILLIS {
        None
    } else {
        let dx = points.last().0 - points.first().0;
        let dy = points.last().1 - points.first().1;
        if dx * dx + dy * dy <= MIN_GESTURE_DISTANCE * MIN_GESTURE_DISTANCE {
            None
        } else {
            Some(sector_of(dx, dy))
        }
    }
}

/// A stroke has a gesture exactly when it holds five samples or more, has
/// lasted 500 milliseconds or more, and the square of its net displacement
/// exceeds the square of fifty. How long it has lasted beyond that changes
/// nothing.
pub proof fn lemma_gesture_conditions(points: Seq<(i32, i32)>, elapsed_ms: int)
    ensures
        spec_gesture(points, elapsed_ms) is Some <==> points.len() >= 5 && elapsed_ms >= 500 && (
        points.last().0 - points.first().0) * (points.last().0 - points.first().0) + (
        points.last().1 - points.first().1) * (points.last().1 - points.first().1) > 2500,
        elapsed_ms >= 500 ==> spec_gesture(points, elapsed_ms) == spec_gesture(points, 500),
{
}

/// The samples of a stroke after `(x, y)` has been recorded: the new sample
/// goes last, and the oldest one leaves once more than a hundred are held.
pub open spec fn spec_add_point(points: Seq<(i32, i32)>, x: i32, y: i32) -> Seq<(i32, i32)> {
    let pushed = points.push((x, y));
    if pushed.len() > MAX_GESTURE_POINTS {
        pushed.subrange(1, pushed.len() as int)
    } else {
        pushed
    }
}

/// The rolling window of pointer samples of one stroke.
#[derive(Debug, Clone)]
pub struct GestureTracker {
    pub points: Vec<(i32, i32)>,
    pub start_time: Instant,
    pub is_active: bool,
}

impl GestureTracker {
    /// The window holds no more samples than its cap.
    pub open spec fn wf(&self) -> bool {
        self.points@.len() <= MAX_GESTURE_POINTS
    }

    /// An idle tracker without samples, whose stroke starts at the clock
    /// reading `now`.
    pub fn new_at(now: Instant) -> (tracker: Self)
        ensures
            tracker.points@ == Seq::<(i32, i32)>::empty(),
            tracker.start_time == now,
            !tracker.is_active,
            tracker.wf(),
    {
        GestureTracker { points: Vec::new(), start_time: now, is_active: false }
    }

    /// An idle tracker without samples, whose stroke starts now.
    pub fn new() -> (tracker: Self)
        ensures
            tracker.points@ == Seq::<(i32, i32)>::empty(),
            !tracker.is_active,
            tracker.wf(),
    {
        GestureTracker::new_at(clock_now())
    }

    /// Records a sample, evicting the oldest one when the window is full.
    pub fn add_point(&mut self, x: i32, y: i32)
        ensures
            final(self).points@ == spec_add_point(old(self).points@, x, y),
            final(self).is_active == old(self).is_active,
            final(self).start_time == old(self).start_time,
            old(self).wf() ==> final(self).wf(),
    {
        self.points.push((x, y));
        if self.points.len() > MAX_GESTURE_POINTS {
            let _ = self.points.remove(0);
        }
    }

    /// The gesture of the stroke, given how long it has lasted.
    pub fn detect_gesture_after(&self, elapsed_ms: u128) -> (gesture: Option<Gesture>)
        ensures
            gesture == spec_gesture(self.points@, elapsed_ms as int),
    {
        let n = self.points.len();
        if n < MIN_GESTURE_POINTS || elapsed_ms < MIN_GESTURE_MILLIS {
            return None;
        }
        let first = self.points[0];
        let last = self.points[n - 1];
        let dx: i64 = last.0 as i64 - first.0 as i64;
        let dy: i64 = last.1 as i64 - first.1 as i64;
        if -MIN_GESTURE_DISTANCE <= dx && dx <= MIN_GESTURE_DISTANCE && -MIN_GESTURE_DISTANCE
            <= dy && dy <= MIN_GESTURE_DISTANCE {
            assert(0 <= dx * dx <= 2500 && 0 <= dy * dy <= 2500) by (nonlinear_arith)
                requires
                    -50 <= dx <= 50,
                    -50 <= dy <= 50,
            ;
            if dx * dx + dy * dy <= MIN_GESTURE_DISTANCE * MIN_GESTURE_DISTANCE {
                return None;
            }
        } else {
            assert(dx * dx + dy * dy > 2500) by (nonlinear_arith)
                requires
                    dx < -50 || dx > 50 || dy < -50 || dy > 50,
            ;
        }
        let gesture = if dx > 0 && -dx < dy && dy < dx {
            Gesture::Right
        } else if dy > 0 && -dy < dx && dx <= dy {
            Gesture::Down
        } else if dx < 0 && dx < dy && dy <= -dx {
            Gesture::Left
        } else {
            Gesture::Up
        };
        Some(gesture)
    }

    /// The name of the stroke's gesture, judged by the time that has passed
    /// since the stroke began.
    ///
    /// The clock decides how long the stroke has lasted, so the result is the
    /// gesture of the samples at some duration: none, or the gesture that the
    /// samples have once the stroke is old enough.
    pub fn detect_gesture(&self) -> (name: Option<String>)
        ensures
            exists|elapsed_ms: int|
                0 <= elapsed_ms && spec_optional_text(name) == spec_label_of(
                    #[trigger] spec_gesture(self.points@, elapsed_ms),
                ),
            name is None || spec_optional_text(name) == spec_label_of(
                spec_gesture(self.points@, MIN_GESTURE_MILLIS as int),
            ),
    {
        let elapsed = clock_elapsed(&self.start_time);
        let elapsed_ms = duration_millis(&elapsed);
        let name = gesture_name(self.detect_gesture_after(elapsed_ms));
        proof {
            let witness = elapsed_ms as int;
            assert(spec_optional_text(name) == spec_label_of(spec_gesture(self.points@, witness)));
        }
        name
    }

    /// Forgets the stroke and lets the next one begin at the clock reading
    /// `now`: no samples, idle, and the stroke timer at `now`.
    pub fn reset_at(&mut self, now: Instant)
        ensures
            final(self).points@ == Seq::<(i32, i32)>::empty(),
            !final(self).is_active,
            final(self).start_time == now,
            final(self).wf(),
    {
        self.points.clear();
        self.start_time = now;
        self.is_active = false;
    }

    /// Forgets the stroke: no samples, idle, and the stroke timer starts anew
    /// at the present reading of the clock.
    pub fn reset(&mut self)
        ensures
            final(self).points@ == Seq::<(i32, i32)>::empty(),
            !final(self).is_active,
            final(self).wf(),
    {
        self.reset_at(clock_now());
    }
}

/// The name of an optional gesture.
pub open spec fn spec_label_of(gesture: Option<Gesture>) -> Option<Seq<char>> {
    match gesture {
        Some(g) => Some(g.spec_label()),
        None => None,
    }
}

/// The name under which an optional gesture is reported.
pub fn gesture_name(gesture: Option<Gesture>) -> (name: Option<String>)
    ensures
        spec_optional_text(name) == spec_label_of(gesture),
{
    match gesture {
        Some(g) => Some(g.label()),
        None => None,
    }
}

/// A pointer button.
#[derive(Debug, Clone, Copy, PartialEq, Eq, Structural)]
pub enum MouseButton {
    Left,
    Right,
    Middle,
}

impl MouseButton {
    /// The name that stands for the button in an event.
    pub open spec fn spec_name(self) -> Seq<char> {
        match self {
            MouseButton::Left => "left"@,
            MouseButton::Right => "right"@,
            MouseButton::Middle => "middle"@,
        }
    }

    /// The button that a name stands for; other names stand for none.
    pub open spec fn spec_from_name(name: Seq<char>) -> Option<MouseButton> {
        if name == "left"@ {
            Some(MouseButton::Left)
        } else if name == "right"@ {
            Some(MouseButton::Right)
        } else if name == "middle"@ {
            Some(MouseButton::Middle)
        } else {
            None
        }
    }

    /// The button at a position of a device sample: left, right, middle from
    /// position 0; further positions stand for none.
    pub open spec fn spec_from_index(index: int) -> Option<MouseButton> {
        if index == 0 {
            Some(MouseButton::Left)
        } else if index == 1 {
            Some(MouseButton::Right)
        } else if index == 2 {
            Some(MouseButton::Middle)
        } else {
            None
        }
    }

    /// The name that stands for the button in an event.
    pub fn name(self) -> (name: String)
        ensures
            name@ == self.spec_name(),
    {
        match self {
            MouseButton::Left => "left".to_string(),
            MouseButton::Right => "right".to_string(),
            MouseButton::Middle => "middle".to_string(),
        }
    }

    /// The button that a name stands for, if any.
    pub fn from_name(name: &String) -> (button: Option<MouseButton>)
        ensures
            button == Self::spec_from_name(name@),
    {
        if *name == "left".to_string() {
            Some(MouseButton::Left)
        } else if *name == "right".to_string() {
            Some(MouseButton::Right)
        } else if *name == "middle".to_string() {
            Some(MouseButton::Middle)
        } else {
            None
        }
    }

    /// The button at a position of a device sample, if any.
    pub fn from_index(index: usize) -> (button: Option<MouseButton>)
        ensures
            button == Self::spec_from_index(index as int),
    {
        if index == 0 {
            Some(MouseButton::Left)
        } else if index == 1 {
            Some(MouseButton::Right)
        } else if index == 2 {
            Some(MouseButton::Middle)
        } else {
            None
        }
    }
}

/// One change of the pointer: a move, or one button edge, or a wheel tick, at
/// absolute screen coordinates.
#[derive(Debug, PartialEq, Eq)]
pub struct MouseEvent {
    pub x: i32,
    pub y: i32,
    pub button: Option<String>,
    pub pressed: bool,
    pub wheel_x: i32,
    pub wheel_y: i32,
}

/// What a pointer event says, with the button's name as a sequence of characters.
pub struct MouseEventView {
    pub x: i32,
    pub y: i32,
    pub button: Option<Seq<char>>,
    pub pressed: bool,
    pub wheel_x: i32,
    pub wheel_y: i32,
}

impl View for MouseEvent {
    type V = MouseEventView;

    open spec fn view(&self) -> MouseEventView {
        MouseEventView {
            x: self.x,
            y: self.y,
            button: match self.button {
                Some(name) => Some(name@),
                None => None,
            },
            pressed: self.pressed,
            wheel_x: self.wheel_x,
            wheel_y: self.wheel_y,
        }
    }
}

impl Clone for MouseEvent {
    fn clone(&self) -> (res: Self)
        ensures
            res@ == self@,
    {
        MouseEvent {
            x: self.x,
            y: self.y,
            button: match &self.button {
                Some(name) => Some(name.clone()),
                None => None,
            },
            pressed: self.pressed,
            wheel_x: self.wheel_x,
            wheel_y: self.wheel_y,
        }
    }
}

/// What each event of a sequence says, in the same order.
pub open spec fn event_views(events: Seq<MouseEvent>) -> Seq<MouseEventView> {
    events.map_values(|e: MouseEvent| e@)
}

/// One change of the keyboard: a key edge with the modifiers held.
#[derive(Debug, Clone, PartialEq, Eq)]
pub struct KeyboardEvent {
    pub key: String,
    pub pressed: bool,
    pub modifiers: Vec<String>,
}

/// The event for a move of the pointer to `(x, y)`.
pub open spec fn spec_move_event(x: i32, y: i32) -> MouseEventView {
    MouseEventView { x, y, button: None, pressed: false, wheel_x: 0, wheel_y: 0 }
}

/// The event for an edge of `button` while the pointer is at `(x, y)`.
pub open spec fn spec_button_event(x: i32, y: i32, button: MouseButton, pressed: bool)
    -> MouseEventView {
    MouseEventView { x, y, button: Some(button.spec_name()), pressed, wheel_x: 0, wheel_y: 0 }
}

/// One reading of the pointing device: where the pointer is, and for each
/// button position whether it is held down.
#[derive(Debug, PartialEq, Eq)]
pub struct MouseSample {
    pub coords: (i32, i32),
    pub button_pressed: Vec<bool>,
}

impl MouseSample {
    /// The reading of a device at rest at the origin.
    pub fn new() -> (sample: Self)
        ensures
            sample.coords == (0i32, 0i32),
            sample.button_pressed@ == Seq::<bool>::empty(),
    {
        MouseSample { coords: (0, 0), button_pressed: Vec::new() }
    }
}

/// Whether position `index` of a reading is held down; a position that the
/// reading lacks counts as released.
pub open spec fn spec_held(buttons: Seq<bool>, index: int) -> bool {
    0 <= index < buttons.len() && buttons[index]
}

/// The event, if any, for the button at position `index`: one edge if the
/// current reading has the position, its state differs from the last reading,
/// and the position stands for a button.
pub open spec fn spec_edge_events(
    coords: (i32, i32),
    buttons: Seq<bool>,
    last_buttons: Seq<bool>,
    index: int,
) -> Seq<MouseEventView> {
    if 0 <= index < buttons.len() && buttons[index] != spec_held(last_buttons, index) {
        match MouseButton::spec_from_index(index) {
            Some(button) => seq![spec_button_event(coords.0, coords.1, button, buttons[index])],
            None => Seq::empty(),
        }
    } else {
        Seq::empty()
    }
}

/// The move event of a tick, if the pointer is not where it last was.
pub open spec fn spec_move_events(coords: (i32, i32), last_coords: (i32, i32)) -> Seq<
    MouseEventView,
> {
    if coords != last_coords {
        seq![spec_move_event(coords.0, coords.1)]
    } else {
        Seq::empty()
    }
}

/// The move event and the edges of the first `count` button positions.
pub open spec fn spec_capture_upto(
    coords: (i32, i32),
    buttons: Seq<bool>,
    last_coords: (i32, i32),
    last_buttons: Seq<bool>,
    count: int,
) -> Seq<MouseEventView>
    decreases count,
{
    if count <= 0 {
        spec_move_events(coords, last_coords)
    } else {
        spec_capture_upto(coords, buttons, last_coords, last_buttons, count - 1)
            + spec_edge_events(coords, buttons, last_buttons, count - 1)
    }
}

/// The events of one tick: a move if the pointer is elsewhere, then one edge
/// for each of the left, right and middle buttons whose state has flipped, in
/// that order. Positions past the middle button yield nothing.
pub open spec fn spec_capture(
    coords: (i32, i32),
    buttons: Seq<bool>,
    last_coords: (i32, i32),
    last_buttons: Seq<bool>,
) -> Seq<MouseEventView> {
    spec_move_events(coords, last_coords) + spec_edge_events(coords, buttons, last_buttons, 0)
        + spec_edge_events(coords, buttons, last_buttons, 1) + spec_edge_events(
        coords,
        buttons,
        last_buttons,
        2,
    )
}

/// Positions past the middle button add no event, so the events of all
/// positions are those of the first three.
pub proof fn lemma_capture_upto(
    coords: (i32, i32),
    buttons: Seq<bool>,
    last_coords: (i32, i32),
    last_buttons: Seq<bool>,
    count: int,
)
    requires
        count >= 3,
    ensures
        spec_capture_upto(coords, buttons, last_coords, last_buttons, count) == spec_capture(
            coords,
            buttons,
            last_coords,
            last_buttons,
        ),
    decreases count,
{
    reveal_with_fuel(spec_capture_upto, 4);
    if count > 3 {
        lemma_capture_upto(coords, buttons, last_coords, last_buttons, count - 1);
        assert(spec_edge_events(coords, buttons, last_buttons, count - 1) == Seq::<
            MouseEventView,
        >::empty());
        assert(spec_capture_upto(coords, buttons, last_coords, last_buttons, count - 1)
            + Seq::<MouseEventView>::empty() == spec_capture_upto(
            coords,
            buttons,
            last_coords,
            last_buttons,
            count - 1,
        ));
    }
}

/// Whether an event says exactly one thing: a move, or one edge of a button.
pub open spec fn spec_single_change(event: MouseEventView) -> bool {
    event.wheel_x == 0 && event.wheel_y == 0 && (event.button is None ==> !event.pressed)
}

/// A reading that equals the reading before it yields no event.
pub proof fn lemma_capture_of_same_reading(coords: (i32, i32), buttons: Seq<bool>)
    ensures
        spec_capture(coords, buttons, coords, buttons) == Seq::<MouseEventView>::empty(),
{
}

/// A tick yields at most four events, each says exactly one thing, and each
/// is at the pointer's current place.
pub proof fn lemma_capture_events(
    coords: (i32, i32),
    buttons: Seq<bool>,
    last_coords: (i32, i32),
    last_buttons: Seq<bool>,
)
    ensures
        spec_capture(coords, buttons, last_coords, last_buttons).len() <= 4,
        forall|i: int|
            0 <= i < spec_capture(coords, buttons, last_coords, last_buttons).len() ==> {
                let event = #[trigger] spec_capture(coords, buttons, last_coords, last_buttons)[i];
                spec_single_change(event) && event.x == coords.0 && event.y == coords.1
            },
{
}

/// The events that lead from the reading `last` to the reading `current`.
pub fn diff_mouse_state(current: &MouseSample, last: &MouseSample) -> (events: Vec<MouseEvent>)
    ensures
        event_views(events@) == spec_capture(
            current.coords,
            current.button_pressed@,
            last.coords,
            last.button_pressed@,
        ),
{
    let mut events: Vec<MouseEvent> = Vec::new();
    let x = current.coords.0;
    let y = current.coords.1;
    if x != last.coords.0 || y != last.coords.1 {
        events.push(MouseEvent { x, y, button: None, pressed: false, wheel_x: 0, wheel_y: 0 });
    }
    assert(event_views(events@) == spec_move_events(current.coords, last.coords));
    let n = current.button_pressed.len();
    let mut i: usize = 0;
    while i < n
        invariant
            i <= n,
            n == current.button_pressed@.len(),
            x == current.coords.0,
            y == current.coords.1,
            event_views(events@) == spec_capture_upto(
                current.coords,
                current.button_pressed@,
                last.coords,
                last.button_pressed@,
                i as int,
            ),
        decreases n - i,
    {
        let pressed = current.button_pressed[i];
        let last_pressed = if i < last.button_pressed.len() {
            last.button_pressed[i]
        } else {
            false
        };
        let ghost before = events@;
        if pressed != last_pressed {
            match MouseButton::from_index(i) {
                Some(button) => {
                    events.push(
                        MouseEvent {
                            x,
                            y,
                            button: Some(button.name()),
                            pressed,
                            wheel_x: 0,
                            wheel_y: 0,
                        },
                    );
                },
                None => {},
            }
        }
        assert(event_views(events@) == event_views(before) + spec_edge_events(
            current.coords,
            current.button_pressed@,
            last.button_pressed@,
            i as int,
        ));
        i = i + 1;
    }
    proof {
        if n >= 3 {
            lemma_capture_upto(
                current.coords,
                current.button_pressed@,
                last.coords,
                last.button_pressed@,
                n as int,
            );
        } else {
            reveal_with_fuel(spec_capture_upto, 4);
            assert(spec_capture_upto(
                current.coords,
                current.button_pressed@,
                last.coords,
                last.button_pressed@,
                n as int,
            ) == spec_capture(
                current.coords,
                current.button_pressed@,
                last.coords,
                last.button_pressed@,
            ));
        }
    }
    events
}

/// One action on the local pointing device.
#[derive(Debug, Clone, Copy, PartialEq, Eq, Structural)]
pub enum InjectionStep {
    MoveTo { x: i32, y: i32 },
    ButtonDown(MouseButton),
    ButtonUp(MouseButton),
    ScrollX(i32),
    ScrollY(i32),
}

/// The edge of `button`: a press or a release.
pub open spec fn spec_button_step(button: MouseButton, pressed: bool) -> InjectionStep {
    if pressed {
        InjectionStep::ButtonDown(button)
    } else {
        InjectionStep::ButtonUp(button)
    }
}

/// The scroll actions of an event: horizontal, then vertical, each only for a
/// delta that is not zero.
pub open spec fn spec_wheel_steps(wheel_x: i32, wheel_y: i32) -> Seq<InjectionStep> {
    (if wheel_x != 0 {
        seq![InjectionStep::ScrollX(wheel_x)]
    } else {
        Seq::empty()
    }) + (if wheel_y != 0 {
        seq![InjectionStep::ScrollY(wheel_y)]
    } else {
        Seq::empty()
    })
}

/// The actions that replay an event, in the order in which they are applied:
/// the move to the event's coordinates, then the button edge, then the wheel.
/// An event whose button name stands for no button is replayed as the move alone.
pub open spec fn spec_injection(event: MouseEventView) -> Seq<InjectionStep> {
    let arrive = seq![InjectionStep::MoveTo { x: event.x, y: event.y }];
    match event.button {
        None => arrive + spec_wheel_steps(event.wheel_x, event.wheel_y),
        Some(name) => match MouseButton::spec_from_name(name) {
            Some(button) => arrive + seq![spec_button_step(button, event.pressed)]
                + spec_wheel_steps(event.wheel_x, event.wheel_y),
            None => arrive,
        },
    }
}

/// Whether a step presses or releases a button.
pub open spec fn is_button_step(step: InjectionStep) -> bool {
    step is ButtonDown || step is ButtonUp
}

/// Whether a step turns the wheel.
pub open spec fn is_scroll_step(step: InjectionStep) -> bool {
    step is ScrollX || step is ScrollY
}

/// The replay of every event starts with the move to the event's coordinates
/// and moves the pointer only then; a button edge comes before every scroll,
/// and a horizontal scroll before a vertical one.
pub proof fn lemma_injection_order(event: MouseEventView)
    ensures
        spec_injection(event).len() >= 1,
        spec_injection(event)[0] == (InjectionStep::MoveTo { x: event.x, y: event.y }),
        forall|i: int|
            1 <= i < spec_injection(event).len() ==> !(#[trigger] spec_injection(event)[i]
                is MoveTo),
        forall|i: int, j: int|
            0 <= i < j < spec_injection(event).len() ==> !(is_scroll_step(
                #[trigger] spec_injection(event)[i],
            ) && is_button_step(#[trigger] spec_injection(event)[j])),
        forall|i: int, j: int|
            0 <= i < j < spec_injection(event).len() ==> !(#[trigger] spec_injection(event)[i]
                is ScrollY && #[trigger] spec_injection(event)[j] is ScrollX),
{
}

/// The actions that replay `event` on the local device, in order.
pub fn injection_steps(event: &MouseEvent) -> (steps: Vec<InjectionStep>)
    ensures
        steps@ == spec_injection(event@),
{
    let mut steps: Vec<InjectionStep> = Vec::new();
    steps.push(InjectionStep::MoveTo { x: event.x, y: event.y });
    match &event.button {
        Some(name) => {
            match MouseButton::from_name(name) {
                Some(button) => {
                    if event.pressed {
                        steps.push(InjectionStep::ButtonDown(button));
                    } else {
                        steps.push(InjectionStep::ButtonUp(button));
                    }
                },
                None => {
                    return steps;
                },
            }
        },
        None => {},
    }
    if event.wheel_x != 0 {
        steps.push(InjectionStep::ScrollX(event.wheel_x));
    }
    if event.wheel_y != 0 {
        steps.push(InjectionStep::ScrollY(event.wheel_y));
    }
    steps
}

/// Slowest cursor speed, in thousandths of the device's own speed.
pub const MIN_CURSOR_SPEED: u32 = 100;

/// Fastest cursor speed, in thousandths of the device's own speed.
pub const MAX_CURSOR_SPEED: u32 = 5000;

/// The cursor speed that a request for `speed` thousandths results in: the
/// nearest speed between a tenth and five times the device's own.
pub open spec fn spec_clamp_speed(speed: int) -> int {
    if speed < MIN_CURSOR_SPEED {
        MIN_CURSOR_SPEED as int
    } else if speed > MAX_CURSOR_SPEED {
        MAX_CURSOR_SPEED as int
    } else {
        speed
    }
}

/// The cursor speed that a request for `speed` thousandths results in.
pub fn clamp_cursor_speed(speed: i64) -> (clamped: u32)
    ensures
        clamped == spec_clamp_speed(speed as int),
        MIN_CURSOR_SPEED <= clamped <= MAX_CURSOR_SPEED,
{
    if speed < 100 {
        MIN_CURSOR_SPEED
    } else if speed > 5000 {
        MAX_CURSOR_SPEED
    } else {
        speed as u32
    }
}

/// A raw delta scaled by a cursor speed in thousandths: the speed is clamped
/// first, and the product is rounded towards zero.
pub open spec fn spec_scale_delta(delta: int, speed: int) -> int {
    let factor = spec_clamp_speed(speed);
    if delta >= 0 {
        (delta * factor) / 1000
    } else {
        -(((-delta) * factor) / 1000)
    }
}

/// The nearest value to `value` that a 32-bit coordinate can hold.
pub open spec fn spec_saturate(value: int) -> int {
    if value < i32::MIN {
        i32::MIN as int
    } else if value > i32::MAX {
        i32::MAX as int
    } else {
        value
    }
}

/// The nearest value to `value` that a 32-bit coordinate can hold.
pub fn saturate(value: i64) -> (nearest: i32)
    ensures
        nearest == spec_saturate(value as int),
{
    if value < -0x8000_0000 {
        i32::MIN
    } else if value > 0x7fff_ffff {
        i32::MAX
    } else {
        value as i32
    }
}

/// Scales a raw delta by a cursor speed before it is injected. A result past
/// the range of a coordinate stops at the end of that range.
pub fn scale_delta(delta: i32, speed: u32) -> (scaled: i32)
    ensures
        scaled == spec_saturate(spec_scale_delta(delta as int, speed as int)),
{
    let factor: u64 = clamp_cursor_speed(speed as i64) as u64;
    let magnitude: u64 = if delta >= 0 {
        delta as u64
    } else {
        (-(delta as i64)) as u64
    };
    assert(magnitude * factor <= 0x8000_0000 * 5000) by (nonlinear_arith)
        requires
            magnitude <= 0x8000_0000,
            factor <= 5000,
    ;
    let scaled: u64 = (magnitude * factor) / 1000;
    if delta >= 0 {
        if scaled > 0x7fff_ffff {
            i32::MAX
        } else {
            scaled as i32
        }
    } else {
        if scaled >= 0x8000_0000 {
            i32::MIN
        } else {
            -(scaled as i32)
        }
    }
}

/// Settings of the input pipeline. Speeds and sensitivities are in thousandths.
#[derive(Debug, Clone, Copy, PartialEq, Eq, Structural)]
pub struct InputConfig {
    pub cursor_speed: u32,
    pub mouse_acceleration: bool,
    pub acceleration_sensitivity: u32,
    pub cursor_locked: bool,
    pub locked_screen: Option<u32>,
    pub gesture_enabled: bool,
    pub gesture_sensitivity: u32,
}

impl InputConfig {
    /// The settings of a fresh pipeline: the device's own speed, nothing
    /// locked, no acceleration, no gestures.
    pub open spec fn spec_initial() -> InputConfig {
        InputConfig {
            cursor_speed: 1000,
            mouse_acceleration: false,
            acceleration_sensitivity: 1000,
            cursor_locked: false,
            locked_screen: None,
            gesture_enabled: false,
            gesture_sensitivity: 1000,
        }
    }

    /// The settings of a fresh pipeline.
    pub fn initial() -> (config: Self)
        ensures
            config == Self::spec_initial(),
    {
        InputConfig {
            cursor_speed: 1000,
            mouse_acceleration: false,
            acceleration_sensitivity: 1000,
            cursor_locked: false,
            locked_screen: None,
            gesture_enabled: false,
            gesture_sensitivity: 1000,
        }
    }
}

/// The rectangle of one display in the host's desktop.
#[derive(Debug, Clone, Copy, PartialEq, Eq, Structural)]
pub struct ScreenBounds {
    pub x: i32,
    pub y: i32,
    pub width: u32,
    pub height: u32,
    pub primary: bool,
}

/// Where the pointer arrives on the neighbouring screen when the pointer at
/// `(x, y)` hands authority over, if it does.
///
/// In a horizontal layout the neighbour lies to the right: the pointer hands
/// over once it is within `zone` pixels of the screen's right edge or past it,
/// and arrives as far right of the neighbour's left edge as it was past the
/// shared edge, at the edge itself if it had not crossed. A vertical layout
/// does the same downwards with the bottom edge. The coordinate along the
/// shared edge is kept. A custom layout never hands over by itself.
pub open spec fn spec_edge_transition(
    layout: ScreenLayout,
    screen: ScreenBounds,
    zone: u32,
    x: i32,
    y: i32,
) -> Option<(i32, i32)> {
    match layout {
        ScreenLayout::Horizontal => {
            let edge = screen.x + screen.width;
            if x >= edge - zone {
                Some(
                    (
                        if x > edge {
                            spec_saturate(x - edge) as i32
                        } else {
                            0i32
                        },
                        y,
                    ),
                )
            } else {
                None
            }
        },
        ScreenLayout::Vertical => {
            let edge = screen.y + screen.height;
            if y >= edge - zone {
                Some(
                    (
                        x,
                        if y > edge {
                            spec_saturate(y - edge) as i32
                        } else {
                            0i32
                        },
                    ),
                )
            } else {
                None
            }
        },
        ScreenLayout::Custom => None,
    }
}

/// Decides whether the pointer at `(x, y)` on `screen` hands authority to the
/// neighbouring host, and where it arrives there.
pub fn edge_transition(layout: ScreenLayout, screen: &ScreenBounds, zone: u32, x: i32, y: i32) -> (arrival:
    Option<(i32, i32)>)
    ensures
        arrival == spec_edge_transition(layout, *screen, zone, x, y),
{
    match layout {
        ScreenLayout::Horizontal => {
            let edge: i64 = screen.x as i64 + screen.width as i64;
            if x as i64 >= edge - zone as i64 {
                let local: i32 = if x as i64 > edge {
                    saturate(x as i64 - edge)
                } else {
                    0
                };
                Some((local, y))
            } else {
                None
            }
        },
        ScreenLayout::Vertical => {
            let edge: i64 = screen.y as i64 + screen.height as i64;
            if y as i64 >= edge - zone as i64 {
                let local: i32 = if y as i64 > edge {
                    saturate(y as i64 - edge)
                } else {
                    0
                };
                Some((x, local))
            } else {
                None
            }
        },
        ScreenLayout::Custom => None,
    }
}

/// The input pipeline of one host: the last device reading, the settings, and
/// the gesture window.
#[derive(Debug)]
pub struct InputManager {
    pub last_mouse_state: MouseSample,
    pub config: InputConfig,
    pub gesture_tracker: GestureTracker,
}

impl InputManager {
    /// A pipeline that has seen no reading yet, with the initial settings.
    pub fn new() -> (manager: Self)
        ensures
            manager.last_mouse_state.coords == (0i32, 0i32),
            manager.last_mouse_state.button_pressed@ == Seq::<bool>::empty(),
            manager.config == InputConfig::spec_initial(),
            manager.gesture_tracker.points@ == Seq::<(i32, i32)>::empty(),
            !manager.gesture_tracker.is_active,
    {
        InputManager {
            last_mouse_state: MouseSample::new(),
            config: InputConfig::initial(),
            gesture_tracker: GestureTracker::new(),
        }
    }

    /// Takes the device reading of a tick: yields the events that lead to it
    /// from the reading before, and remembers it for the next tick.
    pub fn capture_mouse_events(&mut self, current: MouseSample) -> (events: Vec<MouseEvent>)
        ensures
            event_views(events@) == spec_capture(
                current.coords,
                current.button_pressed@,
                old(self).last_mouse_state.coords,
                old(self).last_mouse_state.button_pressed@,
            ),
            final(self).last_mouse_state == current,
            final(self).config == old(self).config,
            final(self).gesture_tracker == old(self).gesture_tracker,
    {
        let events = diff_mouse_state(&current, &self.last_mouse_state);
        self.last_mouse_state = current;
        events
    }

    /// The actions that replay a received event on the local device, in order.
    pub fn emulate_mouse_event(&self, event: MouseEvent) -> (steps: Vec<InjectionStep>)
        ensures
            steps@ == spec_injection(event@),
    {
        injection_steps(&event)
    }

    /// The action that puts the pointer at `(x, y)`.
    pub fn set_mouse_position(&self, x: i32, y: i32) -> (step: InjectionStep)
        ensures
            step == (InjectionStep::MoveTo { x, y }),
    {
        InjectionStep::MoveTo { x, y }
    }

    /// The displays of a host of which nothing else is known: one primary
    /// display of 1920 by 1080 at the origin.
    pub fn get_screen_bounds(&self) -> (screens: Vec<ScreenBounds>)
        ensures
            screens@ == seq![
                ScreenBounds { x: 0, y: 0, width: 1920, height: 1080, primary: true },
            ],
    {
        let mut screens: Vec<ScreenBounds> = Vec::new();
        screens.push(ScreenBounds { x: 0, y: 0, width: 1920, height: 1080, primary: true });
        screens
    }
}

/// Confines the cursor to the display with the given index.
pub fn lock_cursor_to_screen(manager: &mut InputManager, screen_index: u32)
    ensures
        final(manager).config == (InputConfig {
            cursor_locked: true,
            locked_screen: Some(screen_index),
            ..old(manager).config
        }),
        final(manager).last_mouse_state == old(manager).last_mouse_state,
        final(manager).gesture_tracker == old(manager).gesture_tracker,
{
    manager.config.cursor_locked = true;
    manager.config.locked_screen = Some(screen_index);
}

/// Lets the cursor leave the display it was confined to.
pub fn unlock_cursor(manager: &mut InputManager)
    ensures
        final(manager).config == (InputConfig {
            cursor_locked: false,
            locked_screen: None,
            ..old(manager).config
        }),
        final(manager).last_mouse_state == old(manager).last_mouse_state,
        final(manager).gesture_tracker == old(manager).gesture_tracker,
{
    manager.config.cursor_locked = false;
    manager.config.locked_screen = None;
}

/// Sets the cursor speed to the nearest allowed speed to `speed` thousandths.
pub fn set_cursor_speed(manager: &mut InputManager, speed: i64)
    ensures
        final(manager).config == (InputConfig {
            cursor_speed: spec_clamp_speed(speed as int) as u32,
            ..old(manager).config
        }),
        final(manager).last_mouse_state == old(manager).last_mouse_state,
        final(manager).gesture_tracker == old(manager).gesture_tracker,
{
    manager.config.cursor_speed = clamp_cursor_speed(speed);
}

/// Switches pointer acceleration on or off.
pub fn enable_mouse_acceleration(manager: &mut InputManager, enable: bool)
    ensures
        final(manager).config == (InputConfig {
            mouse_acceleration: enable,
            ..old(manager).config
        }),
        final(manager).last_mouse_state == old(manager).last_mouse_state,
        final(manager).gesture_tracker == old(manager).gesture_tracker,
{
    manager.config.mouse_acceleration = enable;
}

} // verus!
