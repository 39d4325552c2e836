//! Virtual-input model: maps physical key/button codes to a small fixed set
//! of virtual input slots and tracks pointer position, scroll delta and
//! transient text input. Scenes query this stable surface instead of
//! depending on device-specific codes.

use vstd::prelude::*;

verus! {

/// Number of virtual input slots scenes can query.
pub const MAX_KEY_STATE: usize = 8;

/// Number of physical scan codes the mapping table covers.
pub const MAX_SCAN_CODE_MAPPING: usize = 146;

/// Number of physical pointer buttons the mapping table covers.
pub const MAX_MOUSE_BUTTON: usize = 5;

/// Which wheel of a pointing device a scroll event came from. Only the
/// vertical wheel feeds the input state; other axes are ignored.
#[derive(Clone, Copy)]
pub enum Wheel {
    VerticalWheel,
    HorizontalWheel,
}

/// One physical input event as the platform layer delivers it, reduced to
/// plain values. `Unrecognized` stands for every event class the input
/// layer does not handle; the orchestrator applies its own fallback to
/// `Closed` and `Unrecognized`.
#[derive(Clone, Copy)]
pub enum Event {
    Closed,
    TextEntered { unicode: char },
    KeyPressed { scan: usize },
    KeyReleased { scan: usize },
    MouseWheelScrolled { wheel: Wheel, delta: i32 },
    MouseButtonPressed { button: usize },
    MouseButtonReleased { button: usize },
    MouseMoved { x: i32, y: i32 },
    Unrecognized,
}

/// Mathematical model of the input state.
#[verifier::ext_equal]
pub struct InputStateView {
    pub key_state: Seq<bool>,
    pub scan_code_mapping: Seq<usize>,
    pub mouse_x: int,
    pub mouse_y: int,
    pub wheel_delta: int,
    pub mouse_button_mapping: Seq<usize>,
    pub last_input_char: Seq<char>,
}

impl InputStateView {
    /// Tables have their fixed sizes.
    pub open spec fn wf(self) -> bool {
        &&& self.key_state.len() == MAX_KEY_STATE
        &&& self.scan_code_mapping.len() == MAX_SCAN_CODE_MAPPING
        &&& self.mouse_button_mapping.len() == MAX_MOUSE_BUTTON
    }

    /// The state the input layer starts in: every slot released, every
    /// physical code unmapped (sentinel index), transient fields zero.
    pub open spec fn initial() -> InputStateView {
        InputStateView {
            key_state: Seq::new(MAX_KEY_STATE as nat, |i: int| false),
            scan_code_mapping: Seq::new(MAX_SCAN_CODE_MAPPING as nat, |i: int| MAX_KEY_STATE),
            mouse_x: 0,
            mouse_y: 0,
            wheel_delta: 0,
            mouse_button_mapping: Seq::new(MAX_MOUSE_BUTTON as nat, |i: int| MAX_KEY_STATE),
            last_input_char: Seq::empty(),
        }
    }
}

/// Virtual slot index a scan code maps to; out-of-range codes fall to the
/// sentinel `MAX_KEY_STATE`, which every consumer treats as a no-op.
pub open spec fn key_index_of_scan(v: InputStateView, scan: usize) -> usize {
    if scan < MAX_SCAN_CODE_MAPPING {
        v.scan_code_mapping[scan as int]
    } else {
        MAX_KEY_STATE
    }
}

/// Virtual slot index a pointer button maps to, with the same sentinel rule.
pub open spec fn key_index_of_button(v: InputStateView, button: usize) -> usize {
    if button < MAX_MOUSE_BUTTON {
        v.mouse_button_mapping[button as int]
    } else {
        MAX_KEY_STATE
    }
}

/// What querying a virtual slot yields: out-of-range indices (the sentinel
/// included) always read false.
pub open spec fn key_at(v: InputStateView, key_index: usize) -> bool {
    if key_index < MAX_KEY_STATE {
        v.key_state[key_index as int]
    } else {
        false
    }
}

/// Writes one virtual slot; an out-of-range index leaves the state untouched.
pub open spec fn with_key(v: InputStateView, key_index: usize, value: bool) -> InputStateView {
    if key_index < MAX_KEY_STATE {
        InputStateView { key_state: v.key_state.update(key_index as int, value), ..v }
    } else {
        v
    }
}

/// Configures one scan-code mapping; out-of-range codes or slot indices are
/// rejected silently so misconfiguration can never corrupt the table.
pub open spec fn load_scan_mapping(
    v: InputStateView,
    scan: usize,
    key_index: usize,
) -> InputStateView {
    if scan < MAX_SCAN_CODE_MAPPING && key_index < MAX_KEY_STATE {
        InputStateView {
            scan_code_mapping: v.scan_code_mapping.update(scan as int, key_index),
            ..v
        }
    } else {
        v
    }
}

/// Configures one pointer-button mapping, with the same rejection rule.
pub open spec fn load_button_mapping(
    v: InputStateView,
    button: usize,
    key_index: usize,
) -> InputStateView {
    if button < MAX_MOUSE_BUTTON && key_index < MAX_KEY_STATE {
        InputStateView {
            mouse_button_mapping: v.mouse_button_mapping.update(button as int, key_index),
            ..v
        }
    } else {
        v
    }
}

/// Each entry of a bulk-loaded table, clamped to the sentinel so the table
/// never holds an index past the virtual-slot range.
pub open spec fn clamped_table(t: Seq<usize>) -> Seq<usize> {
    Seq::new(t.len(), |i: int| if t[i] > MAX_KEY_STATE { MAX_KEY_STATE } else { t[i] })
}

/// Whether the input layer recognizes (and so consumes) an event.
pub open spec fn recognized(e: Event) -> bool {
    match e {
        Event::Closed => false,
        Event::TextEntered { .. } => true,
        Event::KeyPressed { .. } => true,
        Event::KeyReleased { .. } => true,
        Event::MouseWheelScrolled { wheel, .. } => wheel is VerticalWheel,
        Event::MouseButtonPressed { .. } => true,
        Event::MouseButtonReleased { .. } => true,
        Event::MouseMoved { .. } => true,
        Event::Unrecognized => false,
    }
}

/// Effect of one event on the input state. Unrecognized events leave the
/// state untouched.
pub open spec fn apply_event(v: InputStateView, e: Event) -> InputStateView {
    match e {
        Event::Closed => v,
        Event::TextEntered { unicode } => InputStateView {
            last_input_char: v.last_input_char.push(unicode),
            ..v
        },
        Event::KeyPressed { scan } => with_key(v, key_index_of_scan(v, scan), true),
        Event::KeyReleased { scan } => with_key(v, key_index_of_scan(v, scan), false),
        Event::MouseWheelScrolled { wheel, delta } => if wheel is VerticalWheel {
            InputStateView { wheel_delta: delta as int, ..v }
        } else {
            v
        },
        Event::MouseButtonPressed { button } => with_key(
            v,
            key_index_of_button(v, button),
            true,
        ),
        Event::MouseButtonReleased { button } => with_key(
            v,
            key_index_of_button(v, button),
            false,
        ),
        Event::MouseMoved { x, y } => InputStateView { mouse_x: x as int, mouse_y: y as int, ..v },
        Event::Unrecognized => v,
    }
}

/// Effect of a whole frame's batch of events, applied in order.
pub open spec fn apply_events(v: InputStateView, es: Seq<Event>) -> InputStateView
    decreases es.len(),
{
    if es.len() == 0 {
        v
    } else {
        apply_event(apply_events(v, es.drop_last()), es.last())
    }
}

/// The frame-boundary wipe: scroll delta and text buffer are transient and
/// reset exactly once per frame; everything else carries over.
pub open spec fn clear_transient(v: InputStateView) -> InputStateView {
    InputStateView { wheel_delta: 0, last_input_char: Seq::empty(), ..v }
}

/// Holds the virtual-slot flags and the physical-to-virtual mapping tables.
pub struct InputState {
    key_state: Vec<bool>,
    scan_code_mapping: Vec<usize>,
    mouse_x: i32,
    mouse_y: i32,
    wheel_delta: i32,
    mouse_button_mapping: Vec<usize>,
    last_input_char: Vec<char>,
}

impl View for InputState {
    type V = InputStateView;

    closed spec fn view(&self) -> InputStateView {
        InputStateView {
            key_state: self.key_state@,
            scan_code_mapping: self.scan_code_mapping@,
            mouse_x: self.mouse_x as int,
            mouse_y: self.mouse_y as int,
            wheel_delta: self.wheel_delta as int,
            mouse_button_mapping: self.mouse_button_mapping@,
            last_input_char: self.last_input_char@,
        }
    }
}

impl InputState {
    pub fn new() -> (s: InputState)
        ensures
            s@ == InputStateView::initial(),
            s@.wf(),
    {
        let s = InputState {
            key_state: vec![false; MAX_KEY_STATE],
            scan_code_mapping: vec![MAX_KEY_STATE; MAX_SCAN_CODE_MAPPING],
            mouse_x: 0,
            mouse_y: 0,
            wheel_delta: 0,
            mouse_button_mapping: vec![MAX_KEY_STATE; MAX_MOUSE_BUTTON],
            last_input_char: Vec::new(),
        };
        proof {
            assert(s@.key_state =~= InputStateView::initial().key_state);
            assert(s@.scan_code_mapping =~= InputStateView::initial().scan_code_mapping);
            assert(s@.mouse_button_mapping =~= InputStateView::initial().mouse_button_mapping);
            assert(s@.last_input_char =~= InputStateView::initial().last_input_char);
            assert(s@ =~= InputStateView::initial());
        }
        s
    }

    /// Replaces the whole scan-code table; every entry is clamped to the
    /// sentinel so an oversized index can never enter the table.
    pub fn load_scan_code_table(&mut self, table: Vec<usize>)
        requires
            old(self)@.wf(),
            table@.len() == MAX_SCAN_CODE_MAPPING,
        ensures
            final(self)@ == (InputStateView {
                scan_code_mapping: clamped_table(table@),
                ..old(self)@
            }),
            final(self)@.wf(),
    {
        let mut m: Vec<usize> = Vec::new();
        let mut i: usize = 0;
        while i < MAX_SCAN_CODE_MAPPING
            invariant
                table@.len() == MAX_SCAN_CODE_MAPPING,
                i <= MAX_SCAN_CODE_MAPPING,
                m@.len() == i,
                forall|j: int| 0 <= j < i ==> m@[j] == clamped_table(table@)[j],
            decreases MAX_SCAN_CODE_MAPPING - i,
        {
            let e = table[i];
            if e > MAX_KEY_STATE {
                m.push(MAX_KEY_STATE);
            } else {
                m.push(e);
            }
            i = i + 1;
        }
        proof {
            assert(m@ =~= clamped_table(table@));
        }
        self.scan_code_mapping = m;
        proof {
            assert(final(self)@ =~= (InputStateView {
                scan_code_mapping: clamped_table(table@),
                ..old(self)@
            }));
        }
    }

    /// Replaces the whole pointer-button table, with the same clamping.
    pub fn load_mouse_button_table(&mut self, table: Vec<usize>)
        requires
            old(self)@.wf(),
            table@.len() == MAX_MOUSE_BUTTON,
        ensures
            final(self)@ == (InputStateView {
                mouse_button_mapping: clamped_table(table@),
                ..old(self)@
            }),
            final(self)@.wf(),
    {
        let mut m: Vec<usize> = Vec::new();
        let mut i: usize = 0;
        while i < MAX_MOUSE_BUTTON
            invariant
                table@.len() == MAX_MOUSE_BUTTON,
                i <= MAX_MOUSE_BUTTON,
                m@.len() == i,
                forall|j: int| 0 <= j < i ==> m@[j] == clamped_table(table@)[j],
            decreases MAX_MOUSE_BUTTON - i,
        {
            let e = table[i];
            if e > MAX_KEY_STATE {
                m.push(MAX_KEY_STATE);
            } else {
                m.push(e);
            }
            i = i + 1;
        }
        proof {
            assert(m@ =~= clamped_table(table@));
        }
        self.mouse_button_mapping = m;
        proof {
            assert(final(self)@ =~= (InputStateView {
                mouse_button_mapping: clamped_table(table@),
                ..old(self)@
            }));
        }
    }

    /// Configuration-time mapping of one scan code to one virtual slot.
    pub fn load_scan_code_mapping(&mut self, scancode: usize, key_index: usize)
        requires
            old(self)@.wf(),
        ensures
            final(self)@ == load_scan_mapping(old(self)@, scancode, key_index),
            final(self)@.wf(),
    {
        if scancode >= MAX_SCAN_CODE_MAPPING || key_index >= MAX_KEY_STATE {
            return;
        }
        self.scan_code_mapping.set(scancode, key_index);
    }

    /// Configuration-time mapping of one pointer button to one virtual slot.
    pub fn load_mouse_button_mapping(&mut self, button: usize, key_index: usize)
        requires
            old(self)@.wf(),
        ensures
            final(self)@ == load_button_mapping(old(self)@, button, key_index),
            final(self)@.wf(),
    {
        if button >= MAX_MOUSE_BUTTON || key_index >= MAX_KEY_STATE {
            return;
        }
        self.mouse_button_mapping.set(button, key_index);
    }

    /// Virtual slot a scan code is mapped to; unmapped and out-of-range
    /// codes yield the sentinel index.
    pub fn get_key_index_from_scan_code(&self, scancode: usize) -> (r: usize)
        requires
            self@.wf(),
        ensures
            r == key_index_of_scan(self@, scancode),
    {
        if scancode >= MAX_SCAN_CODE_MAPPING {
            return MAX_KEY_STATE;
        }
        self.scan_code_mapping[scancode]
    }

    /// Virtual slot a pointer button is mapped to, with the same sentinel.
    pub fn get_key_index_from_mouse_button(&self, button: usize) -> (r: usize)
        requires
            self@.wf(),
        ensures
            r == key_index_of_button(self@, button),
    {
        if button >= MAX_MOUSE_BUTTON {
            return MAX_KEY_STATE;
        }
        self.mouse_button_mapping[button]
    }

    fn on_scancode_pressed(&mut self, scancode: usize)
        requires
            old(self)@.wf(),
        ensures
            final(self)@ == with_key(old(self)@, key_index_of_scan(old(self)@, scancode), true),
            final(self)@.wf(),
    {
        let key_index = self.get_key_index_from_scan_code(scancode);
        if key_index < MAX_KEY_STATE {
            self.key_state.set(key_index, true);
        }
    }

    fn on_scancode_released(&mut self, scancode: usize)
        requires
            old(self)@.wf(),
        ensures
            final(self)@ == with_key(old(self)@, key_index_of_scan(old(self)@, scancode), false),
            final(self)@.wf(),
    {
        let key_index = self.get_key_index_from_scan_code(scancode);
        if key_index < MAX_KEY_STATE {
            self.key_state.set(key_index, false);
        }
    }

    fn on_mouse_button_pressed(&mut self, button: usize)
        requires
            old(self)@.wf(),
        ensures
            final(self)@ == with_key(old(self)@, key_index_of_button(old(self)@, button), true),
            final(self)@.wf(),
    {
        let key_index = self.get_key_index_from_mouse_button(button);
        if key_index < MAX_KEY_STATE {
            self.key_state.set(key_index, true);
        }
    }

    fn on_mouse_button_released(&mut self, button: usize)
        requires
            old(self)@.wf(),
        ensures
            final(self)@ == with_key(old(self)@, key_index_of_button(old(self)@, button), false),
            final(self)@.wf(),
    {
        let key_index = self.get_key_index_from_mouse_button(button);
        if key_index < MAX_KEY_STATE {
            self.key_state.set(key_index, false);
        }
    }

    fn on_wheel_scrolled(&mut self, delta: i32)
        ensures
            final(self)@ == (InputStateView { wheel_delta: delta as int, ..old(self)@ }),
    {
        self.wheel_delta = delta;
    }

    fn on_mouse_moved(&mut self, x: i32, y: i32)
        ensures
            final(self)@ == (InputStateView { mouse_x: x as int, mouse_y: y as int, ..old(self)@ }),
    {
        self.mouse_x = x;
        self.mouse_y = y;
    }

    /// State of one virtual slot; indices at or past the capacity always
    /// read false, so an unmapped code can never appear pressed.
    pub fn get_key_state(&self, key_index: usize) -> (r: bool)
        requires
            self@.wf(),
        ensures
            r == key_at(self@, key_index),
    {
        if key_index < MAX_KEY_STATE {
            return self.key_state[key_index];
        }
        false
    }

    pub fn get_mouse_x(&self) -> (r: i32)
        ensures
            r as int == self@.mouse_x,
    {
        self.mouse_x
    }

    pub fn get_mouse_y(&self) -> (r: i32)
        ensures
            r as int == self@.mouse_y,
    {
        self.mouse_y
    }

    /// Scroll delta accumulated for the current frame only.
    pub fn get_wheel_delta(&self) -> (r: i32)
        ensures
            r as int == self@.wheel_delta,
    {
        self.wheel_delta
    }

    /// Characters entered since the last frame boundary, in order.
    pub fn get_input_chars(&self) -> (r: &Vec<char>)
        ensures
            r@ == self@.last_input_char,
    {
        &self.last_input_char
    }

    /// Matches the input-relevant event classes and updates the state;
    /// reports false for every class it does not consume so the caller can
    /// apply fallback handling.
    pub fn on_event(&mut self, event: Event) -> (matched: bool)
        requires
            old(self)@.wf(),
        ensures
            final(self)@ == apply_event(old(self)@, event),
            matched == recognized(event),
            final(self)@.wf(),
    {
        match event {
            Event::KeyReleased { scan } => {
                self.on_scancode_released(scan);
                true
            },
            Event::KeyPressed { scan } => {
                self.on_scancode_pressed(scan);
                true
            },
            Event::MouseMoved { x, y } => {
                self.on_mouse_moved(x, y);
                true
            },
            Event::MouseWheelScrolled { wheel, delta } => {
                match wheel {
                    Wheel::HorizontalWheel => false,
                    Wheel::VerticalWheel => {
                        self.on_wheel_scrolled(delta);
                        true
                    },
                }
            },
            Event::MouseButtonPressed { button } => {
                self.on_mouse_button_pressed(button);
                true
            },
            Event::MouseButtonReleased { button } => {
                self.on_mouse_button_released(button);
                true
            },
            Event::TextEntered { unicode } => {
                self.last_input_char.push(unicode);
                true
            },
            Event::Closed => false,
            Event::Unrecognized => false,
        }
    }

    /// The frame-boundary wipe: called exactly once per frame, before that
    /// frame's events are applied.
    pub fn clear_state(&mut self)
        ensures
            final(self)@ == clear_transient(old(self)@),
    {
        self.wheel_delta = 0;
        self.last_input_char.clear();
    }
}

/// In the initial state every physical code — scan code or pointer button —
/// derives the sentinel virtual index.
pub proof fn lemma_initially_unmapped(scan: usize, button: usize)
    ensures
        key_index_of_scan(InputStateView::initial(), scan) == MAX_KEY_STATE,
        key_index_of_button(InputStateView::initial(), button) == MAX_KEY_STATE,
{
}

/// Events and frame wipes never touch the mapping tables: only the
/// explicit configuration calls do.
pub proof fn lemma_events_preserve_mappings(v: InputStateView, e: Event)
    ensures
        apply_event(v, e).scan_code_mapping == v.scan_code_mapping,
        apply_event(v, e).mouse_button_mapping == v.mouse_button_mapping,
        clear_transient(v).scan_code_mapping == v.scan_code_mapping,
        clear_transient(v).mouse_button_mapping == v.mouse_button_mapping,
{
}

/// Configuring one scan code leaves every other scan code's mapping as it
/// was.
pub proof fn lemma_load_other_scan_preserved(
    v: InputStateView,
    scan: usize,
    key_index: usize,
    other: usize,
)
    requires
        v.wf(),
        other != scan,
    ensures
        key_index_of_scan(load_scan_mapping(v, scan, key_index), other) == key_index_of_scan(
            v,
            other,
        ),
{
}

/// A physical code whose mapping still holds the sentinel — one that was
/// never explicitly mapped — is a safe no-op: its derived virtual index
/// always reads false, pressing or releasing it changes nothing, and the
/// event still counts as recognized and handled.
pub proof fn lemma_unmapped_code_is_inert(v: InputStateView, scan: usize, button: usize)
    requires
        v.wf(),
        key_index_of_scan(v, scan) == MAX_KEY_STATE,
        key_index_of_button(v, button) == MAX_KEY_STATE,
    ensures
        !key_at(v, key_index_of_scan(v, scan)),
        !key_at(v, key_index_of_button(v, button)),
        recognized(Event::KeyPressed { scan }),
        recognized(Event::MouseButtonPressed { button }),
        apply_event(v, Event::KeyPressed { scan }) == v,
        apply_event(v, Event::KeyReleased { scan }) == v,
        apply_event(v, Event::MouseButtonPressed { button }) == v,
        apply_event(v, Event::MouseButtonReleased { button }) == v,
{
}

/// A frame that begins with no events reads a zero scroll delta and an
/// empty text buffer, whatever the prior state held.
pub proof fn lemma_fresh_frame_is_blank(v: InputStateView)
    ensures
        apply_events(clear_transient(v), Seq::empty()).wheel_delta == 0,
        apply_events(clear_transient(v), Seq::empty()).last_input_char == Seq::<char>::empty(),
{
}

/// A whole frame that carries no events leaves every virtual slot as it
/// was: a pressed slot stays pressed across idle ticks.
pub proof fn lemma_idle_frame_keeps_slots(v: InputStateView)
    ensures
        apply_events(clear_transient(v), Seq::empty()).key_state == v.key_state,
{
}

/// Mapping the same physical code twice keeps only the second mapping:
/// configuration overwrites, it never accumulates.
pub proof fn lemma_remap_overwrites(
    v: InputStateView,
    scan: usize,
    first: usize,
    second: usize,
)
    requires
        v.wf(),
        scan < MAX_SCAN_CODE_MAPPING,
        first < MAX_KEY_STATE,
        second < MAX_KEY_STATE,
    ensures
        load_scan_mapping(load_scan_mapping(v, scan, first), scan, second) == load_scan_mapping(
            v,
            scan,
            second,
        ),
{
    assert(load_scan_mapping(load_scan_mapping(v, scan, first), scan, second).scan_code_mapping
        =~= load_scan_mapping(v, scan, second).scan_code_mapping);
    assert(load_scan_mapping(load_scan_mapping(v, scan, first), scan, second) =~= load_scan_mapping(
        v,
        scan,
        second,
    ));
}

/// Round trip: after mapping a code to a slot, pressing that code makes
/// exactly that slot read true.
pub proof fn lemma_mapping_round_trip(v: InputStateView, scan: usize, slot: usize)
    requires
        v.wf(),
        scan < MAX_SCAN_CODE_MAPPING,
        slot < MAX_KEY_STATE,
    ensures
        key_at(apply_event(load_scan_mapping(v, scan, slot), Event::KeyPressed { scan }), slot),
{
}

/// Virtual-slot flags persist across frame boundaries and across every
/// event that is not a key or button event: once pressed, a slot stays
/// pressed until its release event arrives.
pub proof fn lemma_keys_persist(v: InputStateView, e: Event)
    requires
        !(e is KeyPressed),
        !(e is KeyReleased),
        !(e is MouseButtonPressed),
        !(e is MouseButtonReleased),
    ensures
        apply_event(v, e).key_state == v.key_state,
        clear_transient(v).key_state == v.key_state,
{
}

} // verus!
