//! Real-time rewrite of relative-scroll events.
//!
//! Each wheel axis carries a fixed-point fractional accumulator in
//! thousandths of a detent.  A raw wheel event is normalized to one detent
//! by sign, scaled by the configured per-axis speed, and the whole detents
//! of the accumulator are emitted while the fractional remainder is kept
//! for the next event.  The two high-resolution wheel codes are dropped to
//! avoid double counting; every other event passes through unchanged.

use vstd::prelude::*;

use crate::constants::{PID_BOLT_RECEIVER, PID_MX_MASTER_3S_BT, PID_MX_MASTER_3S_USB, VID_LOGITECH};
use crate::types::{ScrollWheelConfig, ThumbWheelConfig};

verus! {

/// Kernel event type of relative-axis events.
pub const EV_RELATIVE: u16 = 0x02;

/// Primary vertical wheel axis code.
pub const REL_WHEEL: u16 = 0x08;

/// Primary horizontal wheel axis code.
pub const REL_HWHEEL: u16 = 0x06;

/// High-resolution vertical wheel axis code (dropped by the remap).
pub const REL_WHEEL_HI_RES: u16 = 0x0B;

/// High-resolution horizontal wheel axis code (dropped by the remap).
pub const REL_HWHEEL_HI_RES: u16 = 0x0C;

/// One kernel input event, as plain values.
#[derive(Debug, Clone, Copy, PartialEq, Eq, Structural)]
pub struct InputEventData {
    pub event_type: u16,
    pub code: u16,
    pub value: i32,
}

/// A raw wheel value normalized by sign: one detent per event, magnitude
/// discarded.
pub open spec fn spec_sign(value: i32) -> int {
    if value > 0 {
        1
    } else if value < 0 {
        -1
    } else {
        0
    }
}

/// Division by 1000 truncated toward zero, as the accumulator arithmetic
/// uses it.
pub open spec fn spec_trunc_div_milli(a: int) -> int {
    if a >= 0 {
        a / 1000
    } else {
        -((-a) / 1000)
    }
}

/// One axis of the remap: the configured speed and the carried fractional
/// accumulator, both in thousandths of a detent.
pub struct AxisRemap {
    pub speed_milli: u32,
    pub accumulator_milli: i64,
}

impl AxisRemap {
    /// The accumulator always holds a proper fraction: the remainder after
    /// whole detents were emitted.
    pub open spec fn spec_wf(self) -> bool {
        -1000 < self.accumulator_milli < 1000
    }

    pub fn new(speed_milli: u32) -> (r: Self)
        ensures
            r.spec_wf(),
            r.speed_milli == speed_milli,
            r.accumulator_milli == 0,
    {
        AxisRemap { speed_milli, accumulator_milli: 0 }
    }

    /// One raw wheel event on this axis: add the sign of the value times
    /// the speed to the accumulator, emit its whole detents (truncation
    /// toward zero), and keep the fractional remainder.
    pub fn step(&mut self, raw_value: i32) -> (emit: i64)
        requires
            old(self).spec_wf(),
        ensures
            final(self).spec_wf(),
            final(self).speed_milli == old(self).speed_milli,
            ({
                let acc = old(self).accumulator_milli + spec_sign(raw_value) * old(
                    self,
                ).speed_milli;
                emit == spec_trunc_div_milli(acc) && final(self).accumulator_milli == acc - 1000
                    * spec_trunc_div_milli(acc)
            }),
    {
        let sign: i64 = if raw_value > 0 {
            1
        } else if raw_value < 0 {
            -1
        } else {
            0
        };
        let acc: i64 = self.accumulator_milli + sign * (self.speed_milli as i64);
        let emit: i64 = if acc >= 0 {
            acc / 1000
        } else {
            -((-acc) / 1000)
        };
        proof {
            if acc >= 0 {
                vstd::arithmetic::div_mod::lemma_fundamental_div_mod(acc as int, 1000);
            } else {
                vstd::arithmetic::div_mod::lemma_fundamental_div_mod(-acc as int, 1000);
            }
        }
        self.accumulator_milli = acc - emit * 1000;
        emit
    }
}

/// The needle occurs in the haystack starting at position `i`.
pub open spec fn spec_occurs_at(haystack: Seq<u8>, needle: Seq<u8>, i: int) -> bool {
    0 <= i && i + needle.len() <= haystack.len() && (forall|k: int|
        0 <= k < needle.len() ==> haystack[i + k] == #[trigger] needle[k])
}

/// The needle occurs somewhere in the haystack.
pub open spec fn spec_contains_bytes(haystack: Seq<u8>, needle: Seq<u8>) -> bool {
    exists|i: int| spec_occurs_at(haystack, needle, i)
}

/// Whether the needle occurs in the haystack.
pub fn contains_bytes(haystack: &Vec<u8>, needle: &Vec<u8>) -> (r: bool)
    ensures
        r == spec_contains_bytes(haystack@, needle@),
{
    if needle.len() > haystack.len() {
        return false;
    }
    let mut i: usize = 0;
    while i <= haystack.len() - needle.len()
        invariant
            needle@.len() <= haystack@.len(),
            i <= haystack@.len() - needle@.len() + 1,
            forall|j: int| 0 <= j < i ==> !spec_occurs_at(haystack@, needle@, j),
        decreases haystack@.len() - needle@.len() + 1 - i,
    {
        let mut k: usize = 0;
        let mut mismatch = false;
        while k < needle.len() && !mismatch
            invariant
                i + needle@.len() <= haystack@.len(),
                haystack@.len() <= usize::MAX,
                k <= needle@.len(),
                !mismatch ==> forall|t: int|
                    0 <= t < k ==> haystack@[i + t] == #[trigger] needle@[t],
                mismatch ==> !spec_occurs_at(haystack@, needle@, i as int),
            decreases needle@.len() - k,
        {
            if haystack[i + k] != needle[k] {
                mismatch = true;
            }
            k += 1;
        }
        if !mismatch {
            proof {
                assert(spec_occurs_at(haystack@, needle@, i as int));
            }
            return true;
        }
        i += 1;
    }
    proof {
        assert forall|j: int| !spec_occurs_at(haystack@, needle@, j) by {
            if 0 <= j && j + needle@.len() <= haystack@.len() {
                assert(j < haystack@.len() - needle@.len() + 1);
            }
        }
    }
    false
}

/// The bytes of `Virtual`, the marker that names synthetic sinks.
pub open spec fn spec_virtual_marker() -> Seq<u8> {
    seq![0x56u8, 0x69, 0x72, 0x74, 0x75, 0x61, 0x6C]
}

/// The bytes of `Mouse`, the first role marker.
pub open spec fn spec_mouse_marker() -> Seq<u8> {
    seq![0x4Du8, 0x6F, 0x75, 0x73, 0x65]
}

/// The bytes of `Pointer`, the second role marker.
pub open spec fn spec_pointer_marker() -> Seq<u8> {
    seq![0x50u8, 0x6F, 0x69, 0x6E, 0x74, 0x65, 0x72]
}

/// One enumerated input source, as the plain values the selection reads:
/// its reported name bytes, its vendor/product identity, and whether it
/// reports relative-axis events.
#[derive(Debug, Clone, PartialEq, Eq)]
pub struct InputSourceInfo {
    pub name: Vec<u8>,
    pub vendor_id: u16,
    pub product_id: u16,
    pub has_relative: bool,
}

/// Whether an enumerated input source is the physical wheel source to
/// grab: not a synthetic sink (no `Virtual` marker in its name), named as
/// a mouse or pointer, one of the allowed vendor/product identities, and
/// reporting relative axes.
pub open spec fn spec_source_matches(s: InputSourceInfo) -> bool {
    !spec_contains_bytes(s.name@, spec_virtual_marker()) && (spec_contains_bytes(
        s.name@,
        spec_mouse_marker(),
    ) || spec_contains_bytes(s.name@, spec_pointer_marker())) && s.vendor_id == VID_LOGITECH && (
    s.product_id == PID_MX_MASTER_3S_USB || s.product_id == PID_MX_MASTER_3S_BT || s.product_id
        == PID_BOLT_RECEIVER) && s.has_relative
}

fn virtual_marker() -> (r: Vec<u8>)
    ensures
        r@ == spec_virtual_marker(),
{
    let mut out: Vec<u8> = Vec::new();
    out.push(0x56);
    out.push(0x69);
    out.push(0x72);
    out.push(0x74);
    out.push(0x75);
    out.push(0x61);
    out.push(0x6C);
    proof {
        assert(out@ =~= spec_virtual_marker());
    }
    out
}

fn mouse_marker() -> (r: Vec<u8>)
    ensures
        r@ == spec_mouse_marker(),
{
    let mut out: Vec<u8> = Vec::new();
    out.push(0x4D);
    out.push(0x6F);
    out.push(0x75);
    out.push(0x73);
    out.push(0x65);
    proof {
        assert(out@ =~= spec_mouse_marker());
    }
    out
}

fn pointer_marker() -> (r: Vec<u8>)
    ensures
        r@ == spec_pointer_marker(),
{
    let mut out: Vec<u8> = Vec::new();
    out.push(0x50);
    out.push(0x6F);
    out.push(0x69);
    out.push(0x6E);
    out.push(0x74);
    out.push(0x65);
    out.push(0x72);
    proof {
        assert(out@ =~= spec_pointer_marker());
    }
    out
}

/// Find the physical input source to grab: the first enumerated source
/// that `spec_source_matches` accepts.  `None` exactly when no source
/// matches; the engine then does not start.
pub fn select_input_source(sources: &Vec<InputSourceInfo>) -> (r: Option<usize>)
    ensures
        r matches Some(i) ==> i < sources@.len() && spec_source_matches(sources@[i as int])
            && forall|j: int| 0 <= j < i ==> !spec_source_matches(sources@[j]),
        r is None <==> forall|j: int| 0 <= j < sources@.len() ==> !spec_source_matches(sources@[j]),
{
    let virtual_marker = virtual_marker();
    let mouse_marker = mouse_marker();
    let pointer_marker = pointer_marker();
    let mut i: usize = 0;
    while i < sources.len()
        invariant
            virtual_marker@ == spec_virtual_marker(),
            mouse_marker@ == spec_mouse_marker(),
            pointer_marker@ == spec_pointer_marker(),
            i <= sources@.len(),
            forall|j: int| 0 <= j < i ==> !spec_source_matches(sources@[j]),
        decreases sources@.len() - i,
    {
        let s = &sources[i];
        if !contains_bytes(&s.name, &virtual_marker) && (contains_bytes(&s.name, &mouse_marker)
            || contains_bytes(&s.name, &pointer_marker)) && s.vendor_id == VID_LOGITECH && (
        s.product_id == PID_MX_MASTER_3S_USB || s.product_id == PID_MX_MASTER_3S_BT || s.product_id
            == PID_BOLT_RECEIVER) && s.has_relative {
            return Some(i);
        }
        i += 1;
    }
    None
}

/// What the remap engine does with one event, run independently for the
/// vertical and the horizontal axis.
pub struct ScrollHandler {
    pub config: ScrollWheelConfig,
    pub thumbwheel_config: ThumbWheelConfig,
    pub vertical: AxisRemap,
    pub horizontal: AxisRemap,
}

impl ScrollHandler {
    pub open spec fn spec_config(self) -> ScrollWheelConfig {
        self.config
    }

    pub open spec fn spec_thumbwheel_config(self) -> ThumbWheelConfig {
        self.thumbwheel_config
    }

    pub open spec fn spec_vertical(self) -> AxisRemap {
        self.vertical
    }

    pub open spec fn spec_horizontal(self) -> AxisRemap {
        self.horizontal
    }

    pub open spec fn spec_wf(self) -> bool {
        self.spec_vertical().spec_wf() && self.spec_horizontal().spec_wf()
            && self.spec_vertical().speed_milli == self.spec_config().vertical_speed_milli
            && self.spec_horizontal().speed_milli == self.spec_config().horizontal_speed_milli
    }

    /// A fresh engine: both accumulators start at zero.
    pub fn new(config: ScrollWheelConfig, thumbwheel_config: ThumbWheelConfig) -> (r: Self)
        ensures
            r.spec_wf(),
            r.spec_config() == config,
            r.spec_thumbwheel_config() == thumbwheel_config,
            r.spec_vertical().accumulator_milli == 0,
            r.spec_horizontal().accumulator_milli == 0,
    {
        ScrollHandler {
            config,
            thumbwheel_config,
            vertical: AxisRemap::new(config.vertical_speed_milli),
            horizontal: AxisRemap::new(config.horizontal_speed_milli),
        }
    }

    pub fn config(&self) -> (r: &ScrollWheelConfig)
        ensures
            *r == self.spec_config(),
    {
        &self.config
    }

    pub fn thumbwheel_config(&self) -> (r: &ThumbWheelConfig)
        ensures
            *r == self.spec_thumbwheel_config(),
    {
        &self.thumbwheel_config
    }

    /// Rewrite one event.  A primary wheel event is remapped through its
    /// axis accumulator and emitted only when a whole detent is due; the
    /// two high-resolution wheel codes are dropped, whatever their value;
    /// every other event is forwarded unchanged, in order.
    pub fn process_event(&mut self, event: InputEventData) -> (out: Option<InputEventData>)
        requires
            old(self).spec_wf(),
        ensures
            final(self).spec_wf(),
            final(self).spec_config() == old(self).spec_config(),
            final(self).spec_thumbwheel_config() == old(self).spec_thumbwheel_config(),
            (event.event_type == EV_RELATIVE && (event.code == REL_WHEEL_HI_RES || event.code
                == REL_HWHEEL_HI_RES)) ==> out is None && *final(self) == *old(self),
            !(event.event_type == EV_RELATIVE && (event.code == REL_WHEEL || event.code
                == REL_HWHEEL || event.code == REL_WHEEL_HI_RES || event.code
                == REL_HWHEEL_HI_RES)) ==> out == Some(event) && *final(self) == *old(self),
            (event.event_type == EV_RELATIVE && event.code == REL_WHEEL) ==> ({
                let acc = old(self).spec_vertical().accumulator_milli + spec_sign(event.value)
                    * old(self).spec_config().vertical_speed_milli;
                let emit = spec_trunc_div_milli(acc);
                final(self).spec_vertical().accumulator_milli == acc - 1000 * emit
                    && final(self).spec_horizontal() == old(self).spec_horizontal() && out == (if emit != 0 {
                    Some(
                        InputEventData {
                            event_type: EV_RELATIVE,
                            code: REL_WHEEL,
                            value: emit as i32,
                        },
                    )
                } else {
                    Option::<InputEventData>::None
                })
            }),
            (event.event_type == EV_RELATIVE && event.code == REL_HWHEEL) ==> ({
                let acc = old(self).spec_horizontal().accumulator_milli + spec_sign(event.value)
                    * old(self).spec_config().horizontal_speed_milli;
                let emit = spec_trunc_div_milli(acc);
                final(self).spec_horizontal().accumulator_milli == acc - 1000 * emit
                    && final(self).spec_vertical() == old(self).spec_vertical() && out == (if emit != 0 {
                    Some(
                        InputEventData {
                            event_type: EV_RELATIVE,
                            code: REL_HWHEEL,
                            value: emit as i32,
                        },
                    )
                } else {
                    Option::<InputEventData>::None
                })
            }),
    {
        if event.event_type == EV_RELATIVE {
            if event.code == REL_WHEEL {
                let emit = self.vertical.step(event.value);
                if emit != 0 {
                    return Some(
                        InputEventData {
                            event_type: EV_RELATIVE,
                            code: REL_WHEEL,
                            value: emit as i32,
                        },
                    );
                }
                return None;
            } else if event.code == REL_HWHEEL {
                let emit = self.horizontal.step(event.value);
                if emit != 0 {
                    return Some(
                        InputEventData {
                            event_type: EV_RELATIVE,
                            code: REL_HWHEEL,
                            value: emit as i32,
                        },
                    );
                }
                return None;
            } else if event.code == REL_WHEEL_HI_RES || event.code == REL_HWHEEL_HI_RES {
                return None;
            }
        }
        Some(event)
    }
}

impl ScrollHandler {
    /// What one event does to the engine: the successor state and what is
    /// emitted for it.
    pub open spec fn spec_step(self, e: InputEventData) -> (ScrollHandler, Option<InputEventData>) {
        if e.event_type == EV_RELATIVE && e.code == REL_WHEEL {
            let acc = self.vertical.accumulator_milli + spec_sign(e.value)
                * self.vertical.speed_milli;
            let emit = spec_trunc_div_milli(acc);
            let stepped = ScrollHandler {
                config: self.config,
                thumbwheel_config: self.thumbwheel_config,
                vertical: AxisRemap {
                    speed_milli: self.vertical.speed_milli,
                    accumulator_milli: (acc - 1000 * emit) as i64,
                },
                horizontal: self.horizontal,
            };
            (
                stepped,
                if emit != 0 {
                    Some(InputEventData { event_type: EV_RELATIVE, code: REL_WHEEL, value: emit as i32 })
                } else {
                    Option::None
                },
            )
        } else if e.event_type == EV_RELATIVE && e.code == REL_HWHEEL {
            let acc = self.horizontal.accumulator_milli + spec_sign(e.value)
                * self.horizontal.speed_milli;
            let emit = spec_trunc_div_milli(acc);
            let stepped = ScrollHandler {
                config: self.config,
                thumbwheel_config: self.thumbwheel_config,
                vertical: self.vertical,
                horizontal: AxisRemap {
                    speed_milli: self.horizontal.speed_milli,
                    accumulator_milli: (acc - 1000 * emit) as i64,
                },
            };
            (
                stepped,
                if emit != 0 {
                    Some(InputEventData { event_type: EV_RELATIVE, code: REL_HWHEEL, value: emit as i32 })
                } else {
                    Option::None
                },
            )
        } else if e.event_type == EV_RELATIVE && (e.code == REL_WHEEL_HI_RES || e.code
            == REL_HWHEEL_HI_RES) {
            (self, Option::None)
        } else {
            (self, Some(e))
        }
    }

    /// What a whole batch of events does: the final state and the emitted
    /// stream.  Each input contributes its own output (or nothing) in
    /// place, so output order follows input order exactly: non-wheel
    /// events pass in order, and wheel events are only ever suppressed,
    /// never reordered.
    pub open spec fn spec_run(self, events: Seq<InputEventData>) -> (
        ScrollHandler,
        Seq<InputEventData>,
    )
        decreases events.len(),
    {
        if events.len() == 0 {
            (self, Seq::empty())
        } else {
            let (stepped, first_out) = self.spec_step(events[0]);
            let (finished, rest) = stepped.spec_run(events.drop_first());
            (
                finished,
                match first_out {
                    Some(e) => seq![e] + rest,
                    Option::None => rest,
                },
            )
        }
    }
}

/// The fractional remainder after emitting the whole detents of an
/// accumulator value lies strictly within one detent.
pub proof fn lemma_trunc_rem_range(a: int)
    ensures
        -1000 < a - 1000 * spec_trunc_div_milli(a) < 1000,
{
    if a >= 0 {
        vstd::arithmetic::div_mod::lemma_fundamental_div_mod(a, 1000);
    } else {
        vstd::arithmetic::div_mod::lemma_fundamental_div_mod(-a, 1000);
    }
}

impl ScrollHandler {
    /// Rewrite a batch of fetched events in order.  The emitted stream and
    /// the engine state afterwards are exactly what `spec_run` says.
    pub fn process_events(&mut self, events: &Vec<InputEventData>) -> (out: Vec<InputEventData>)
        requires
            old(self).spec_wf(),
        ensures
            final(self).spec_wf(),
            (*final(self), out@) == old(self).spec_run(events@),
    {
        let mut out: Vec<InputEventData> = Vec::new();
        let mut i: usize = 0;
        proof {
            assert(events@.skip(0) =~= events@);
            let (_, remaining_out) = self.spec_run(events@);
            assert(out@ + remaining_out =~= remaining_out);
        }
        while i < events.len()
            invariant
                self.spec_wf(),
                i <= events@.len(),
                ({
                    let (finished, full_out) = old(self).spec_run(events@);
                    let (ahead, remaining_out) = self.spec_run(events@.skip(i as int));
                    finished == ahead && full_out == out@ + remaining_out
                }),
            decreases events@.len() - i,
        {
            let event = events[i];
            let ghost at_entry = *self;
            let emitted = self.process_event(event);
            proof {
                let acc_v = at_entry.vertical.accumulator_milli + spec_sign(event.value)
                    * at_entry.vertical.speed_milli;
                let acc_h = at_entry.horizontal.accumulator_milli + spec_sign(event.value)
                    * at_entry.horizontal.speed_milli;
                lemma_trunc_rem_range(acc_v);
                lemma_trunc_rem_range(acc_h);
                assert((*self, emitted) == at_entry.spec_step(event));
                assert(events@.skip(i as int).drop_first() =~= events@.skip(i as int + 1));
                assert(events@.skip(i as int)[0] == events@[i as int]);
            }
            match emitted {
                Some(e) => {
                    out.push(e);
                    proof {
                        let (_, remaining_out) = self.spec_run(events@.skip(i as int + 1));
                        assert(seq![e] + remaining_out =~= Seq::<InputEventData>::empty().push(e)
                            + remaining_out);
                        assert(out@ + remaining_out =~= out@.drop_last() + (seq![e]
                            + remaining_out));
                    }
                },
                Option::None => {},
            }
            i += 1;
        }
        proof {
            assert(events@.skip(events@.len() as int) =~= Seq::<InputEventData>::empty());
        }
        out
    }
}

} // verus!
