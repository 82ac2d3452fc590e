//! One iteration of the event loop: classify and transform a batch of raw
//! events under the layout flag and the pre-batch snapshot.

use vstd::prelude::*;
use crate::codes::{EV_KEY, KEY_CODE_COUNT};
use crate::event::{led_sync, led_sync_of, LogicalEvent, KEY_RELEASE, LED_MAX_BRIGHTNESS};
use crate::layout::{dvorak_of, remap};
use crate::snapshot::{bypass_held, is_bypass_active, KeyStateSnapshot};
use crate::toggle::ToggleState;

verus! {

/// What one batch produces: the events for the virtual device, in order,
/// and the LED events for the physical device.
pub struct BatchOutput {
    pub forwarded: Vec<LogicalEvent>,
    pub led_sync: Vec<LogicalEvent>,
}

/// The abstract result of a batch, and the layout flag after it.
pub struct BatchModel {
    pub forwarded: Seq<LogicalEvent>,
    pub led_sync: Seq<LogicalEvent>,
    pub active: bool,
}

/// How an event that is neither a synchronization marker nor a hotkey event
/// is forwarded: key events take their Dvorak code while the layout is
/// active and no bypass modifier is held; everything else passes unchanged.
pub open spec fn translated(e: LogicalEvent, active: bool, bypass: bool) -> LogicalEvent {
    if active && !bypass && e.is_key() {
        LogicalEvent { category: e.category, code: dvorak_of(e.code), value: e.value }
    } else {
        e
    }
}

/// The effect of one event on the batch so far.
pub open spec fn step_model(m: BatchModel, e: LogicalEvent, bypass: bool) -> BatchModel {
    if e.is_sync() {
        m
    } else if e.is_hotkey() {
        if e.value == KEY_RELEASE {
            BatchModel {
                forwarded: m.forwarded,
                led_sync: m.led_sync.push(led_sync_of(!m.active)),
                active: !m.active,
            }
        } else {
            m
        }
    } else {
        BatchModel {
            forwarded: m.forwarded.push(translated(e, m.active, bypass)),
            led_sync: m.led_sync,
            active: m.active,
        }
    }
}

/// The batch's events taken in order from the given layout flag.
pub open spec fn run(events: Seq<LogicalEvent>, active: bool, bypass: bool) -> BatchModel
    decreases events.len(),
{
    if events.len() == 0 {
        BatchModel { forwarded: Seq::empty(), led_sync: Seq::empty(), active }
    } else {
        step_model(run(events.drop_last(), active, bypass), events.last(), bypass)
    }
}

/// Forwards one event that is neither a synchronization marker nor a
/// hotkey event.
pub fn translate_event(e: LogicalEvent, active: bool, bypass: bool) -> (r: LogicalEvent)
    ensures
        r == translated(e, active, bypass),
{
    if active && !bypass && e.category == EV_KEY {
        LogicalEvent { category: e.category, code: remap(e.code), value: e.value }
    } else {
        e
    }
}

/// Processes one batch. Synchronization markers are dropped; hotkey events
/// are consumed, and each hotkey release flips the layout and yields one LED
/// event; every other event is forwarded in order, remapped when the layout
/// is active and no control key is held in the snapshot.
pub fn process_batch(
    toggle: &mut ToggleState,
    snapshot: &KeyStateSnapshot,
    events: &Vec<LogicalEvent>,
) -> (out: BatchOutput)
    ensures
        out.forwarded@ == run(events@, old(toggle)@, bypass_held(snapshot@)).forwarded,
        out.led_sync@ == run(events@, old(toggle)@, bypass_held(snapshot@)).led_sync,
        final(toggle)@ == run(events@, old(toggle)@, bypass_held(snapshot@)).active,
{
    let bypass = is_bypass_active(snapshot);
    let ghost start = toggle@;
    let mut forwarded: Vec<LogicalEvent> = Vec::new();
    let mut leds: Vec<LogicalEvent> = Vec::new();
    let mut i: usize = 0;
    while i < events.len()
        invariant
            i <= events@.len(),
            bypass == bypass_held(snapshot@),
            forwarded@ == run(events@.subrange(0, i as int), start, bypass).forwarded,
            leds@ == run(events@.subrange(0, i as int), start, bypass).led_sync,
            toggle@ == run(events@.subrange(0, i as int), start, bypass).active,
        decreases events@.len() - i,
    {
        let e = events[i];
        proof {
            assert(events@.subrange(0, i + 1).drop_last() =~= events@.subrange(0, i as int));
        }
        if e.is_sync_event() {
        } else if e.is_hotkey_event() {
            if e.value == KEY_RELEASE {
                let now = toggle.on_hotkey_release();
                leds.push(led_sync(now));
            }
        } else {
            let f = translate_event(e, toggle.is_active(), bypass);
            forwarded.push(f);
        }
        i += 1;
    }
    proof {
        assert(events@.subrange(0, events@.len() as int) =~= events@);
    }
    BatchOutput { forwarded, led_sync: leds }
}

/// The key codes that the virtual device declares it may emit: every
/// defined key code, in increasing order.
pub fn capability_codes() -> (r: Vec<u16>)
    ensures
        r@ == Seq::new(KEY_CODE_COUNT as nat, |i: int| i as u16),
{
    let mut r: Vec<u16> = Vec::new();
    let mut c: u16 = 0;
    while c < KEY_CODE_COUNT
        invariant
            c <= KEY_CODE_COUNT,
            r@ == Seq::new(c as nat, |i: int| i as u16),
        decreases KEY_CODE_COUNT - c,
    {
        r.push(c);
        c += 1;
        assert(r@ =~= Seq::new(c as nat, |i: int| i as u16));
    }
    r
}

/// A batch taken one event further: the model of `events.push(e)` is one
/// step past the model of `events`.
proof fn lemma_run_push(events: Seq<LogicalEvent>, e: LogicalEvent, active: bool, bypass: bool)
    ensures
        run(events.push(e), active, bypass) == step_model(run(events, active, bypass), e, bypass),
{
    assert(events.push(e).drop_last() =~= events);
}

/// While a control key is held, a batch without hotkey events comes out as
/// it went in, less its synchronization markers, whatever the layout flag.
pub proof fn lemma_bypass_passthrough(events: Seq<LogicalEvent>, active: bool)
    requires
        forall|i: int| 0 <= i < events.len() ==> !(#[trigger] events[i]).is_hotkey(),
    ensures
        run(events, active, true).forwarded == events.filter(|e: LogicalEvent| !e.is_sync()),
        run(events, active, true).led_sync.len() == 0,
        run(events, active, true).active == active,
    decreases events.len(),
{
    reveal(Seq::filter);
    if events.len() > 0 {
        let init = events.drop_last();
        assert forall|i: int| 0 <= i < init.len() implies !(#[trigger] init[i]).is_hotkey() by {
            assert(init[i] == events[i]);
        }
        lemma_bypass_passthrough(init, active);
        assert(!events[events.len() - 1].is_hotkey());
    }
}

/// A press or a repeat of the hotkey changes nothing: it is consumed and
/// leaves the layout flag and the LED events as they were.
pub proof fn lemma_hotkey_press_keeps_toggle(
    events: Seq<LogicalEvent>,
    e: LogicalEvent,
    active: bool,
    bypass: bool,
)
    requires
        e.is_hotkey(),
        e.value != KEY_RELEASE,
    ensures
        run(events.push(e), active, bypass) == run(events, active, bypass),
{
    lemma_run_push(events, e, active, bypass);
}

/// A release of the hotkey flips the layout flag exactly once, forwards
/// nothing, and adds exactly one LED event, lit at full brightness when the
/// layout is now active and dark when it is not.
pub proof fn lemma_hotkey_release_toggles(
    events: Seq<LogicalEvent>,
    e: LogicalEvent,
    active: bool,
    bypass: bool,
)
    requires
        e.is_hotkey_release(),
    ensures
        run(events.push(e), active, bypass).active == !run(events, active, bypass).active,
        run(events.push(e), active, bypass).forwarded == run(events, active, bypass).forwarded,
        run(events.push(e), active, bypass).led_sync == run(events, active, bypass).led_sync.push(
            led_sync_of(run(events.push(e), active, bypass).active),
        ),
        run(events.push(e), active, bypass).led_sync.last().value == (if run(
            events.push(e),
            active,
            bypass,
        ).active {
            LED_MAX_BRIGHTNESS
        } else {
            0
        }),
{
    lemma_run_push(events, e, active, bypass);
}

/// Only hotkey releases produce LED events: any other event leaves them as
/// they were.
pub proof fn lemma_led_only_on_release(
    events: Seq<LogicalEvent>,
    e: LogicalEvent,
    active: bool,
    bypass: bool,
)
    requires
        !e.is_hotkey_release(),
    ensures
        run(events.push(e), active, bypass).led_sync == run(events, active, bypass).led_sync,
        run(events.push(e), active, bypass).active == run(events, active, bypass).active,
{
    lemma_run_push(events, e, active, bypass);
}

/// `n` hotkey releases in a row leave the layout flag as it was when `n` is
/// even, and flipped when `n` is odd.
pub proof fn lemma_release_parity(release: LogicalEvent, n: nat, active: bool, bypass: bool)
    requires
        release.is_hotkey_release(),
    ensures
        run(Seq::new(n, |i: int| release), active, bypass).active == (if n % 2 == 0 {
            active
        } else {
            !active
        }),
    decreases n,
{
    if n > 0 {
        let prev = Seq::new((n - 1) as nat, |i: int| release);
        assert(Seq::new(n, |i: int| release) =~= prev.push(release));
        lemma_release_parity(release, (n - 1) as nat, active, bypass);
        lemma_run_push(prev, release, active, bypass);
    }
}

/// A batch of events that are neither synchronization markers nor hotkey
/// events is forwarded whole and in order, each event transformed on its
/// own, and leaves the layout flag as it was.
pub proof fn lemma_order_preserved(events: Seq<LogicalEvent>, active: bool, bypass: bool)
    requires
        forall|i: int|
            0 <= i < events.len() ==> !(#[trigger] events[i]).is_sync() && !events[i].is_hotkey(),
    ensures
        run(events, active, bypass).forwarded == events.map_values(
            |e: LogicalEvent| translated(e, active, bypass),
        ),
        run(events, active, bypass).active == active,
    decreases events.len(),
{
    if events.len() > 0 {
        let init = events.drop_last();
        assert forall|i: int| 0 <= i < init.len() implies !(#[trigger] init[i]).is_sync()
            && !init[i].is_hotkey() by {
            assert(init[i] == events[i]);
        }
        lemma_order_preserved(init, active, bypass);
        assert(!events[events.len() - 1].is_sync() && !events[events.len() - 1].is_hotkey());
        assert(events.map_values(|e: LogicalEvent| translated(e, active, bypass)) =~= init.map_values(
            |e: LogicalEvent| translated(e, active, bypass),
        ).push(translated(events.last(), active, bypass)));
    }
}

} // verus!
