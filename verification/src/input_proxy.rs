use vstd::prelude::*;

use crate::text::{path_has_prefix, path_starts_with};

verus! {

/// Event type numbers of the Linux input subsystem (`linux/input-event-codes.h`).
pub const EV_SYN: u16 = 0x00;
pub const EV_KEY: u16 = 0x01;
pub const EV_ABS: u16 = 0x03;

/// Key, button and axis codes of the Linux input subsystem that the proxy watches.
pub const KEY_W: u16 = 17;
pub const KEY_ENTER: u16 = 28;
pub const BTN_EAST: u16 = 0x131;
pub const ABS_Z: u16 = 0x02;
pub const ABS_RZ: u16 = 0x05;

/// One input event as read from or written to an evdev device.
#[derive(Clone, Copy, Debug, PartialEq, Eq, Structural)]
pub struct RawInputEvent {
    pub event_type: u16,
    pub code: u16,
    pub value: i32,
}

/// A deterministic pseudo-random sample for the time slot of length `interval_ms`
/// that contains `elapsed_ms` (a SplitMix64 finalizer over the slot number plus `salt`).
pub open spec fn misfire_value(elapsed_ms: u64, interval_ms: u64, salt: u64) -> u64 {
    let v0 = (elapsed_ms / interval_ms).wrapping_add(salt);
    let v1 = (v0 ^ (v0 >> 30u64)).wrapping_mul(0xbf58_476d_1ce4_e5b9u64);
    let v2 = (v1 ^ (v1 >> 27u64)).wrapping_mul(0x94d0_49bb_1331_11ebu64);
    v2 ^ (v2 >> 31u64)
}

/// Share of the analog throttle passed through in the current 180 ms slot while
/// restricted, in percent; `None` cuts the throttle completely.
pub open spec fn pulse_percent(elapsed_ms: u64) -> Option<i32> {
    let sample = misfire_value(elapsed_ms, 180, 0x6d2b_79f5);
    if sample % 100 < 18 {
        None
    } else {
        Some((40 + (sample >> 8u64) % 29) as i32)
    }
}

/// Whether the keyboard throttle may be held in the current 220 ms slot while restricted.
pub open spec fn digital_window_open(elapsed_ms: u64) -> bool {
    misfire_value(elapsed_ms, 220, 0xa511_e9b3) % 100 >= 34
}

pub open spec fn clamp_int(x: int, lo: int, hi: int) -> int {
    if x < lo {
        lo
    } else if x > hi {
        hi
    } else {
        x
    }
}

/// The inputs on which limiting an analog throttle computes without overflow
/// and with a non-empty axis range.
pub open spec fn analog_limit_defined(value: i32, minimum: i32, maximum: i32, elapsed_ms: u64) -> bool {
    match pulse_percent(elapsed_ms) {
        None => true,
        Some(percent) => {
            &&& i32::MIN <= value - minimum <= i32::MAX
            &&& i32::MIN <= maximum - minimum <= i32::MAX
            &&& minimum <= maximum
            &&& clamp_int(value - minimum, 0, maximum - minimum) * percent <= i32::MAX
        },
    }
}

/// The analog throttle position passed on.
pub open spec fn limited_analog(
    value: i32,
    minimum: i32,
    maximum: i32,
    restricted: bool,
    elapsed_ms: u64,
) -> int {
    if !restricted {
        value as int
    } else {
        match pulse_percent(elapsed_ms) {
            None => minimum as int,
            Some(percent) => minimum + clamp_int(value - minimum, 0, maximum - minimum) * percent
                / 100,
        }
    }
}

/// The keyboard throttle state passed on.
pub open spec fn limited_digital(pressed: bool, restricted: bool, elapsed_ms: u64) -> bool {
    pressed && (!restricted || digital_window_open(elapsed_ms))
}

/// Whether the keyboard throttle key is passed on as held.
pub fn limit_digital_throttle(pressed: bool, restricted: bool, elapsed_ms: u64) -> (held: bool)
    ensures
        held == limited_digital(pressed, restricted, elapsed_ms),
{
    pressed && (!restricted || digital_throttle_window(elapsed_ms))
}

/// The analog throttle position passed on: unchanged unless restricted; while
/// restricted, either the axis minimum or a pulse share of the travel above it.
pub fn limit_analog_throttle(
    value: i32,
    minimum: i32,
    maximum: i32,
    restricted: bool,
    elapsed_ms: u64,
) -> (limited: i32)
    requires
        restricted ==> analog_limit_defined(value, minimum, maximum, elapsed_ms),
    ensures
        limited == limited_analog(value, minimum, maximum, restricted, elapsed_ms),
{
    if !restricted {
        return value;
    }
    let percent = match throttle_percent(elapsed_ms) {
        Some(percent) => percent,
        None => return minimum,
    };
    let offset = value - minimum;
    let range = maximum - minimum;
    let clamped = if offset < 0 {
        0
    } else if offset > range {
        range
    } else {
        offset
    };
    assert(0 <= clamped * percent / 100 <= clamped) by (nonlinear_arith)
        requires
            0 <= clamped,
            0 <= percent <= 100,
    ;
    minimum + clamped * percent / 100
}

/// Checks the inputs of `limit_analog_throttle` for the cases that are not defined.
pub fn analog_limit_is_defined(value: i32, minimum: i32, maximum: i32, elapsed_ms: u64) -> (defined:
    bool)
    ensures
        defined == analog_limit_defined(value, minimum, maximum, elapsed_ms),
{
    let percent = match throttle_percent(elapsed_ms) {
        Some(percent) => percent as i64,
        None => return true,
    };
    let offset = value as i64 - minimum as i64;
    let range = maximum as i64 - minimum as i64;
    if offset < i32::MIN as i64 || offset > i32::MAX as i64 || range < i32::MIN as i64 || range
        > i32::MAX as i64 || minimum > maximum {
        return false;
    }
    let clamped = if offset < 0 {
        0
    } else if offset > range {
        range
    } else {
        offset
    };
    assert(0 <= clamped * percent <= 0x1_0000_0000 * 100) by (nonlinear_arith)
        requires
            0 <= clamped <= 0x1_0000_0000,
            0 <= percent <= 100,
    ;
    clamped * percent <= i32::MAX as i64
}

fn throttle_percent(elapsed_ms: u64) -> (percent: Option<i32>)
    ensures
        percent == pulse_percent(elapsed_ms),
        percent matches Some(p) ==> 40 <= p <= 68,
{
    let sample = misfire_sample(elapsed_ms, 180, 0x6d2b_79f5);
    if sample % 100 < 18 {
        None
    } else {
        Some(40 + ((sample >> 8) % 29) as i32)
    }
}

fn digital_throttle_window(elapsed_ms: u64) -> (open: bool)
    ensures
        open == digital_window_open(elapsed_ms),
{
    misfire_sample(elapsed_ms, 220, 0xa511_e9b3) % 100 >= 34
}

fn misfire_sample(elapsed_ms: u64, interval_ms: u64, salt: u64) -> (sample: u64)
    requires
        interval_ms > 0,
    ensures
        sample == misfire_value(elapsed_ms, interval_ms, salt),
{
    let mut value = (elapsed_ms / interval_ms).wrapping_add(salt);
    value = (value ^ (value >> 30)).wrapping_mul(0xbf58_476d_1ce4_e5b9);
    value = (value ^ (value >> 27)).wrapping_mul(0x94d0_49bb_1331_11eb);
    value ^ (value >> 31)
}

/// The value a virtual copy of an axis starts at: triggers rest at their
/// minimum, every other axis at zero brought into its range.
pub open spec fn initial_axis(axis: u16, minimum: i32, maximum: i32) -> i32 {
    if axis == ABS_Z || axis == ABS_RZ {
        minimum
    } else {
        clamp_int(0, minimum as int, maximum as int) as i32
    }
}

pub fn initial_axis_value(axis: u16, minimum: i32, maximum: i32) -> (value: i32)
    requires
        axis != ABS_Z && axis != ABS_RZ ==> minimum <= maximum,
    ensures
        value == initial_axis(axis, minimum, maximum),
{
    if axis == ABS_Z || axis == ABS_RZ {
        minimum
    } else if 0 < minimum {
        minimum
    } else if 0 > maximum {
        maximum
    } else {
        0
    }
}

/// What happens to one physical event: whether it is passed on, and whether it
/// reports the refuel button being pressed (`Some(true)`) or released.
#[derive(Clone, Copy, Debug, PartialEq, Eq, Structural)]
pub struct ProxyDecision {
    pub forward: Option<RawInputEvent>,
    pub refuel_pressed: Option<bool>,
}

/// The keyboard events passed on unchanged: all but the throttle key and
/// synchronization events.
pub open spec fn keyboard_forward(event: RawInputEvent) -> Option<RawInputEvent> {
    if event.event_type == EV_KEY {
        if event.code == KEY_W {
            None
        } else {
            Some(event)
        }
    } else if event.event_type != EV_SYN {
        Some(event)
    } else {
        None
    }
}

/// Enter reports the refuel button.
pub open spec fn keyboard_refuel(event: RawInputEvent) -> Option<bool> {
    if event.event_type == EV_KEY && event.code == KEY_ENTER {
        Some(event.value != 0)
    } else {
        None
    }
}

/// The controller events passed on unchanged: all but the right trigger and
/// synchronization events.
pub open spec fn controller_forward(event: RawInputEvent) -> Option<RawInputEvent> {
    if event.event_type == EV_ABS {
        if event.code == ABS_RZ {
            None
        } else {
            Some(event)
        }
    } else if event.event_type != EV_SYN {
        Some(event)
    } else {
        None
    }
}

/// Button B (east) reports the refuel button.
pub open spec fn controller_refuel(event: RawInputEvent) -> Option<bool> {
    if event.event_type == EV_KEY && event.code == BTN_EAST {
        Some(event.value != 0)
    } else {
        None
    }
}

/// The keyboard throttle proxy: whether W is physically held and whether the
/// virtual keyboard currently reports it held.
pub struct KeyboardProxy {
    pressed: bool,
    emitted: bool,
}

impl View for KeyboardProxy {
    type V = (bool, bool);

    closed spec fn view(&self) -> (bool, bool) {
        (self.pressed, self.emitted)
    }
}

impl KeyboardProxy {
    pub fn new() -> (proxy: Self)
        ensures
            proxy@ == (false, false),
    {
        KeyboardProxy { pressed: false, emitted: false }
    }

    /// Takes one physical keyboard event.
    pub fn on_event(&mut self, event: RawInputEvent) -> (decision: ProxyDecision)
        ensures
            decision.forward == keyboard_forward(event),
            decision.refuel_pressed == keyboard_refuel(event),
            final(self)@.0 == if event.event_type == EV_KEY && event.code == KEY_W {
                event.value != 0
            } else {
                old(self)@.0
            },
            final(self)@.1 == old(self)@.1,
    {
        let mut refuel_pressed = None;
        if event.event_type == EV_KEY {
            if event.code == KEY_ENTER {
                refuel_pressed = Some(event.value != 0);
            }
            if event.code == KEY_W {
                self.pressed = event.value != 0;
                return ProxyDecision { forward: None, refuel_pressed };
            }
            ProxyDecision { forward: Some(event), refuel_pressed }
        } else if event.event_type != EV_SYN {
            ProxyDecision { forward: Some(event), refuel_pressed }
        } else {
            ProxyDecision { forward: None, refuel_pressed }
        }
    }

    /// Decides the throttle key state for this poll; returns the W event to emit
    /// when that state changed.
    pub fn on_tick(&mut self, restricted: bool, elapsed_ms: u64) -> (emit: Option<RawInputEvent>)
        ensures
            final(self)@ == (old(self)@.0, limited_digital(old(self)@.0, restricted, elapsed_ms)),
            emit == if final(self)@.1 != old(self)@.1 {
                Some(
                    RawInputEvent {
                        event_type: EV_KEY,
                        code: KEY_W,
                        value: if final(self)@.1 {
                            1i32
                        } else {
                            0i32
                        },
                    },
                )
            } else {
                None
            },
    {
        let desired = limit_digital_throttle(self.pressed, restricted, elapsed_ms);
        if desired != self.emitted {
            self.emitted = desired;
            Some(RawInputEvent { event_type: EV_KEY, code: KEY_W, value: if desired { 1 } else { 0 } })
        } else {
            None
        }
    }
}

/// What one poll of a proxy passes on: the events for the virtual device, in
/// order, and the refuel-button reports, in order.
pub struct ProxyPoll {
    pub events: Vec<RawInputEvent>,
    pub refuel_reports: Vec<bool>,
}

/// The keyboard events of a batch that are passed on unchanged, in order.
pub open spec fn keyboard_forwarded(events: Seq<RawInputEvent>) -> Seq<RawInputEvent>
    decreases events.len(),
{
    if events.len() == 0 {
        Seq::empty()
    } else {
        keyboard_forwarded(events.drop_last()) + match keyboard_forward(events.last()) {
            Some(event) => seq![event],
            None => Seq::empty(),
        }
    }
}

/// The refuel-button reports of a batch of keyboard events, in order.
pub open spec fn keyboard_refuel_reports(events: Seq<RawInputEvent>) -> Seq<bool>
    decreases events.len(),
{
    if events.len() == 0 {
        Seq::empty()
    } else {
        keyboard_refuel_reports(events.drop_last()) + match keyboard_refuel(events.last()) {
            Some(pressed) => seq![pressed],
            None => Seq::empty(),
        }
    }
}

/// Whether W is physically held after `events`, when it was `held` before:
/// the latest W event decides.
pub open spec fn w_held_after(held: bool, events: Seq<RawInputEvent>) -> bool
    decreases events.len(),
{
    if events.len() == 0 {
        held
    } else if events.last().event_type == EV_KEY && events.last().code == KEY_W {
        events.last().value != 0
    } else {
        w_held_after(held, events.drop_last())
    }
}

/// The W event that reports the key held or released.
pub open spec fn w_event(held: bool) -> RawInputEvent {
    RawInputEvent { event_type: EV_KEY, code: KEY_W, value: if held { 1i32 } else { 0i32 } }
}

/// Keyboard proxy state (W held, W reported) and output after one poll that
/// reads `events`: the events passed on, then a W event when the limited
/// throttle differs from what the virtual keyboard last reported.
pub open spec fn keyboard_poll(
    state: (bool, bool),
    events: Seq<RawInputEvent>,
    restricted: bool,
    elapsed_ms: u64,
) -> ((bool, bool), Seq<RawInputEvent>) {
    let held = w_held_after(state.0, events);
    let reported = limited_digital(held, restricted, elapsed_ms);
    (
        (held, reported),
        keyboard_forwarded(events) + if reported != state.1 {
            seq![w_event(reported)]
        } else {
            Seq::empty()
        },
    )
}

impl KeyboardProxy {
    /// One poll: takes the batch of physical events read since the last poll,
    /// then decides the throttle key for this poll.
    pub fn poll(&mut self, events: &Vec<RawInputEvent>, restricted: bool, elapsed_ms: u64) -> (out:
        ProxyPoll)
        ensures
            (final(self)@, out.events@) == keyboard_poll(old(self)@, events@, restricted, elapsed_ms),
            out.refuel_reports@ == keyboard_refuel_reports(events@),
    {
        let ghost start = self@;
        let mut output: Vec<RawInputEvent> = Vec::new();
        let mut refuel_reports: Vec<bool> = Vec::new();
        let mut i: usize = 0;
        while i < events.len()
            invariant
                i <= events@.len(),
                self@ == (w_held_after(start.0, events@.subrange(0, i as int)), start.1),
                output@ == keyboard_forwarded(events@.subrange(0, i as int)),
                refuel_reports@ == keyboard_refuel_reports(events@.subrange(0, i as int)),
            decreases events@.len() - i,
        {
            let event = events[i];
            let decision = self.on_event(event);
            if let Some(forwarded) = decision.forward {
                output.push(forwarded);
            }
            if let Some(pressed) = decision.refuel_pressed {
                refuel_reports.push(pressed);
            }
            assert(events@.subrange(0, i + 1).drop_last() == events@.subrange(0, i as int));
            assert(events@.subrange(0, i + 1).last() == event);
            i = i + 1;
        }
        assert(events@.subrange(0, events@.len() as int) == events@);
        if let Some(event) = self.on_tick(restricted, elapsed_ms) {
            output.push(event);
        }
        assert(output@ == keyboard_poll(start, events@, restricted, elapsed_ms).1);
        ProxyPoll { events: output, refuel_reports }
    }
}

/// The physical events read by a run of polls, all batches in order.
pub open spec fn events_read(polls: Seq<(Seq<RawInputEvent>, bool, u64)>) -> Seq<RawInputEvent>
    decreases polls.len(),
{
    if polls.len() == 0 {
        Seq::empty()
    } else {
        events_read(polls.drop_last()) + polls.last().0
    }
}

/// The keyboard proxy state after a run of polls, each given as its batch of
/// events, the restriction flag and the milliseconds since the proxy started,
/// from a new proxy.
pub open spec fn keyboard_after(polls: Seq<(Seq<RawInputEvent>, bool, u64)>) -> (bool, bool)
    decreases polls.len(),
{
    if polls.len() == 0 {
        (false, false)
    } else {
        keyboard_poll(
            keyboard_after(polls.drop_last()),
            polls.last().0,
            polls.last().1,
            polls.last().2,
        ).0
    }
}

/// What the virtual keyboard reports for W after poll `i` of a run: the limited
/// throttle for whether the latest W event read so far held the key.
pub open spec fn w_reported(polls: Seq<(Seq<RawInputEvent>, bool, u64)>, i: int) -> bool {
    limited_digital(
        w_held_after(false, events_read(polls.take(i + 1))),
        polls[i].1,
        polls[i].2,
    )
}

proof fn lemma_w_held_after_concat(held: bool, a: Seq<RawInputEvent>, b: Seq<RawInputEvent>)
    ensures
        w_held_after(held, a + b) == w_held_after(w_held_after(held, a), b),
    decreases b.len(),
{
    if b.len() > 0 {
        assert((a + b).drop_last() == a + b.drop_last());
        assert((a + b).last() == b.last());
        lemma_w_held_after_concat(held, a, b.drop_last());
    }
}

proof fn lemma_keyboard_after(polls: Seq<(Seq<RawInputEvent>, bool, u64)>)
    ensures
        keyboard_after(polls).0 == w_held_after(false, events_read(polls)),
        polls.len() == 0 ==> !keyboard_after(polls).1,
        polls.len() > 0 ==> keyboard_after(polls).1 == w_reported(polls, polls.len() - 1),
    decreases polls.len(),
{
    if polls.len() > 0 {
        lemma_keyboard_after(polls.drop_last());
        lemma_w_held_after_concat(false, events_read(polls.drop_last()), polls.last().0);
        assert(polls.take(polls.len() as int) == polls);
    }
}

/// A run of keyboard polls from a new proxy: at each poll the virtual keyboard
/// receives, in order, every event of the batch except synchronization events
/// and W, then one W event exactly when the throttle the limiter allows for the
/// latest physical W state differs from what it reported last (released at
/// first).
pub proof fn lemma_keyboard_poll_run(polls: Seq<(Seq<RawInputEvent>, bool, u64)>, i: int)
    requires
        0 <= i < polls.len(),
    ensures
        keyboard_poll(keyboard_after(polls.take(i)), polls[i].0, polls[i].1, polls[i].2).1
            == keyboard_forwarded(polls[i].0) + if w_reported(polls, i) != (i > 0 && w_reported(
            polls,
            i - 1,
        )) {
            seq![w_event(w_reported(polls, i))]
        } else {
            Seq::empty()
        },
{
    let before = polls.take(i);
    lemma_keyboard_after(before);
    lemma_w_held_after_concat(false, events_read(before), polls[i].0);
    assert(polls.take(i + 1).drop_last() == before);
    assert(polls.take(i + 1).last() == polls[i]);
    if i > 0 {
        assert(before.take(i) == polls.take(i));
        assert(before[i - 1] == polls[i - 1]);
        assert(before.take(i - 1 + 1) == polls.take(i - 1 + 1));
    }
}

/// The right-trigger proxy: the trigger's physical position, the position the
/// virtual controller reports, and the trigger axis range.
pub struct TriggerProxy {
    trigger_value: i32,
    emitted_trigger: i32,
    minimum: i32,
    maximum: i32,
}

/// Trigger position, reported position, axis minimum and axis maximum.
pub struct TriggerView {
    pub value: i32,
    pub emitted: i32,
    pub minimum: i32,
    pub maximum: i32,
}

impl View for TriggerProxy {
    type V = TriggerView;

    closed spec fn view(&self) -> TriggerView {
        TriggerView {
            value: self.trigger_value,
            emitted: self.emitted_trigger,
            minimum: self.minimum,
            maximum: self.maximum,
        }
    }
}

impl TriggerProxy {
    /// A proxy for a trigger axis with the given range, resting at its minimum.
    pub fn new(minimum: i32, maximum: i32) -> (proxy: Self)
        ensures
            proxy@ == (TriggerView { value: minimum, emitted: minimum, minimum, maximum }),
    {
        TriggerProxy { trigger_value: minimum, emitted_trigger: minimum, minimum, maximum }
    }

    pub fn trigger_value(&self) -> (value: i32)
        ensures
            value == self@.value,
    {
        self.trigger_value
    }

    /// Takes one physical controller event.
    pub fn on_event(&mut self, event: RawInputEvent) -> (decision: ProxyDecision)
        ensures
            decision.forward == controller_forward(event),
            decision.refuel_pressed == controller_refuel(event),
            final(self)@ == (TriggerView {
                value: if event.event_type == EV_ABS && event.code == ABS_RZ {
                    event.value
                } else {
                    old(self)@.value
                },
                ..old(self)@
            }),
    {
        if event.event_type == EV_ABS {
            if event.code == ABS_RZ {
                self.trigger_value = event.value;
                ProxyDecision { forward: None, refuel_pressed: None }
            } else {
                ProxyDecision { forward: Some(event), refuel_pressed: None }
            }
        } else if event.event_type != EV_SYN {
            let refuel_pressed = if event.event_type == EV_KEY && event.code == BTN_EAST {
                Some(event.value != 0)
            } else {
                None
            };
            ProxyDecision { forward: Some(event), refuel_pressed }
        } else {
            ProxyDecision { forward: None, refuel_pressed: None }
        }
    }

    /// Decides the trigger position for this poll; returns the trigger event to
    /// emit when that position changed.
    pub fn on_tick(&mut self, restricted: bool, elapsed_ms: u64) -> (emit: Option<RawInputEvent>)
        requires
            restricted ==> analog_limit_defined(
                old(self)@.value,
                old(self)@.minimum,
                old(self)@.maximum,
                elapsed_ms,
            ),
        ensures
            final(self)@.emitted == limited_analog(
                old(self)@.value,
                old(self)@.minimum,
                old(self)@.maximum,
                restricted,
                elapsed_ms,
            ),
            final(self)@ == (TriggerView { emitted: final(self)@.emitted, ..old(self)@ }),
            emit == if final(self)@.emitted != old(self)@.emitted {
                Some(RawInputEvent { event_type: EV_ABS, code: ABS_RZ, value: final(self)@.emitted })
            } else {
                None
            },
    {
        let desired = limit_analog_throttle(
            self.trigger_value,
            self.minimum,
            self.maximum,
            restricted,
            elapsed_ms,
        );
        if desired != self.emitted_trigger {
            self.emitted_trigger = desired;
            Some(RawInputEvent { event_type: EV_ABS, code: ABS_RZ, value: desired })
        } else {
            None
        }
    }
}

/// Without a restriction both throttles are passed on exactly as pressed.
pub proof fn lemma_unrestricted_throttle_passes_through(
    pressed: bool,
    value: i32,
    minimum: i32,
    maximum: i32,
    elapsed_ms: u64,
)
    ensures
        limited_digital(pressed, false, elapsed_ms) == pressed,
        limited_analog(value, minimum, maximum, false, elapsed_ms) == value,
{
}

/// While restricted, the throttle key is never reported held unless it is
/// physically held, and the trigger is either cut to its minimum or passed at 40
/// to 68 percent of its travel above the minimum, never more than is pressed.
pub proof fn lemma_restricted_throttle_stays_in_pulse_band(
    pressed: bool,
    value: i32,
    minimum: i32,
    maximum: i32,
    elapsed_ms: u64,
)
    requires
        analog_limit_defined(value, minimum, maximum, elapsed_ms),
    ensures
        limited_digital(pressed, true, elapsed_ms) ==> pressed,
        ({
            let travel = clamp_int(value - minimum, 0, maximum - minimum);
            let out = limited_analog(value, minimum, maximum, true, elapsed_ms);
            ||| out == minimum
            ||| minimum + travel * 40 / 100 <= out <= minimum + travel * 68 / 100
        }),
{
    if let Some(percent) = pulse_percent(elapsed_ms) {
        let sample = misfire_value(elapsed_ms, 180, 0x6d2b_79f5);
        assert(0 <= (sample >> 8u64) % 29 < 29);
        assert(40 <= percent <= 68);
        let travel = clamp_int(value - minimum, 0, maximum - minimum);
        assert(travel * 40 / 100 <= travel * percent / 100 <= travel * 68 / 100) by (nonlinear_arith)
            requires
                0 <= travel,
                40 <= percent <= 68,
        ;
    }
}

/// The proxies pass every event on unchanged except the throttle they limit
/// (W on the keyboard, the right trigger on the controller) and synchronization
/// events, which the virtual device writes itself.
pub proof fn lemma_proxies_forward_other_input(event: RawInputEvent)
    ensures
        event.event_type != EV_SYN && !(event.event_type == EV_KEY && event.code == KEY_W)
            ==> keyboard_forward(event) == Some(event),
        event.event_type != EV_SYN && !(event.event_type == EV_ABS && event.code == ABS_RZ)
            ==> controller_forward(event) == Some(event),
        event.event_type == EV_KEY && event.code == KEY_W ==> keyboard_forward(event) is None,
        event.event_type == EV_ABS && event.code == ABS_RZ ==> controller_forward(event) is None,
{
}

} // verus!

verus! {

/// Enter on the keyboard and B on the controller report the refuel button held
/// for every non-zero value, a press or the kernel's autorepeat while the key is
/// held, and released only for 0; no other event reports the button, and a
/// single-event poll reports exactly what the event says.
pub proof fn lemma_refuel_button_reports_held_until_released(event: RawInputEvent)
    ensures
        event.event_type == EV_KEY && event.code == KEY_ENTER ==> {
            &&& (keyboard_refuel(event) == Some(true) <==> event.value != 0)
            &&& (keyboard_refuel(event) == Some(false) <==> event.value == 0)
            &&& keyboard_refuel_reports(seq![event]) == seq![event.value != 0]
        },
        event.event_type == EV_KEY && event.code == BTN_EAST ==> {
            &&& (controller_refuel(event) == Some(true) <==> event.value != 0)
            &&& (controller_refuel(event) == Some(false) <==> event.value == 0)
        },
        !(event.event_type == EV_KEY && event.code == KEY_ENTER) ==> keyboard_refuel(event) is None,
        !(event.event_type == EV_KEY && event.code == BTN_EAST) ==> controller_refuel(event) is None,
{
    assert(seq![event].drop_last() == Seq::<RawInputEvent>::empty());
    assert(seq![event].last() == event);
    assert(keyboard_refuel_reports(Seq::<RawInputEvent>::empty()) == Seq::<bool>::empty());
    if event.event_type == EV_KEY && event.code == KEY_ENTER {
        assert(keyboard_refuel_reports(seq![event]) == Seq::<bool>::empty() + seq![event.value
            != 0]);
        assert(Seq::<bool>::empty() + seq![event.value != 0] == seq![event.value != 0]);
    }
}

/// The sysfs directory under which the kernel places the devices that software
/// created, such as uinput devices.
pub open spec fn virtual_devices_dir() -> Seq<char> {
    "/sys/devices/virtual"@
}

/// Whether a canonical sysfs device path belongs to a virtual input device
/// (one the proxy itself, or another program, created), which must not be
/// used as the source of a proxy.
pub fn is_virtual_sysfs_path(path: &str) -> (is_virtual: bool)
    ensures
        is_virtual == path_has_prefix(path@, virtual_devices_dir()),
{
    path_starts_with(path, "/sys/devices/virtual")
}

/// Handle on the running throttle proxies: the restriction flag they read and
/// the refuel-button flags they write, each shared with one proxy thread.
pub struct InputProxy {
    restricted: std::sync::Arc<std::sync::atomic::AtomicBool>,
    refuel_keyboard: std::sync::Arc<std::sync::atomic::AtomicBool>,
    refuel_controller: std::sync::Arc<std::sync::atomic::AtomicBool>,
}

impl InputProxy {
    /// The flag that tells both proxies whether to restrict the throttle.
    pub closed spec fn restriction_flag(&self) -> std::sync::Arc<std::sync::atomic::AtomicBool> {
        self.restricted
    }

    /// The flags that the keyboard and controller proxies set while refuel is held.
    pub closed spec fn refuel_flags(&self) -> (
        std::sync::Arc<std::sync::atomic::AtomicBool>,
        std::sync::Arc<std::sync::atomic::AtomicBool>,
    ) {
        (self.refuel_keyboard, self.refuel_controller)
    }

    /// Takes the flags that were handed to the keyboard and controller proxies.
    pub fn from_shared(
        restricted: std::sync::Arc<std::sync::atomic::AtomicBool>,
        refuel_keyboard: std::sync::Arc<std::sync::atomic::AtomicBool>,
        refuel_controller: std::sync::Arc<std::sync::atomic::AtomicBool>,
    ) -> (proxy: InputProxy)
        ensures
            proxy.restriction_flag() == restricted,
            proxy.refuel_flags() == (refuel_keyboard, refuel_controller),
    {
        InputProxy { restricted, refuel_keyboard, refuel_controller }
    }

    /// Switches the throttle restriction on or off for both proxies.
    pub fn set_restricted(&self, restricted: bool) {
        self.restricted.store(restricted, std::sync::atomic::Ordering::Relaxed);
    }

    /// Whether the refuel button is held on the keyboard or on the controller.
    pub fn refuel_pressed(&self) -> (pressed: bool) {
        self.refuel_keyboard.load(std::sync::atomic::Ordering::Relaxed)
            || self.refuel_controller.load(std::sync::atomic::Ordering::Relaxed)
    }
}

} // verus!
