//! The battery interface codec and the threshold controller's state and
//! decision policy.
//!
//! Three control-interface entries carry the battery's state as text:
//! capacity (a base-10 integer), charge behaviour (`auto`, `inhibit-charge`
//! or `force-discharge`) and charging status (`Charging`, `Discharging` or
//! `Not charging`), each with optional surrounding whitespace. This module
//! owns that encoding, keeps the one-cycle-behind snapshot of the battery,
//! and decides once per cycle whether to alter the charge behaviour. The
//! reads and writes themselves happen outside: every function here works on
//! the bytes an entry held, or on the reported outcome of a write.

use vstd::prelude::*;

use crate::config::Config;
use crate::text::{spec_parse_i32, trim, trim_end, trim_end_spec, trim_spec};

verus! {

/// An error raised while reading from or writing to the control interface.
#[derive(Debug, Clone, Copy, PartialEq, Eq, Structural)]
pub enum BatteryError {
    /// An entry could not be read or written, or the capacity entry did not
    /// hold a valid integer.
    NotAccessible,
    /// An entry's text matched none of its recognized literals.
    UnexpectedValue,
}

/// The commanded charging policy, as held by the charge-behaviour entry.
#[derive(Debug, Clone, Copy, PartialEq, Eq, Structural)]
pub enum ChargeBehaviour {
    Auto,
    InhibitCharge,
    ForceDischarge,
}

/// The hardware-reported charging activity, as held by the status entry.
#[derive(Debug, Clone, Copy, PartialEq, Eq, Structural)]
pub enum ChargingStatus {
    Charging,
    Discharging,
    NotCharging,
}

/// The literal written to the charge-behaviour entry for each policy:
/// `auto`, `inhibit-charge` or `force-discharge`.
pub open spec fn spec_render_charge_behaviour(b: ChargeBehaviour) -> Seq<u8> {
    match b {
        ChargeBehaviour::Auto => seq![97u8, 117u8, 116u8, 111u8],
        ChargeBehaviour::InhibitCharge => seq![
            105u8, 110u8, 104u8, 105u8, 98u8, 105u8, 116u8, 45u8, 99u8, 104u8, 97u8, 114u8, 103u8,
            101u8,
        ],
        ChargeBehaviour::ForceDischarge => seq![
            102u8, 111u8, 114u8, 99u8, 101u8, 45u8, 100u8, 105u8, 115u8, 99u8, 104u8, 97u8, 114u8,
            103u8, 101u8,
        ],
    }
}

/// The literal the status entry holds for each charging activity:
/// `Charging`, `Discharging` or `Not charging`.
pub open spec fn spec_render_charging_status(s: ChargingStatus) -> Seq<u8> {
    match s {
        ChargingStatus::Charging => seq![67u8, 104u8, 97u8, 114u8, 103u8, 105u8, 110u8, 103u8],
        ChargingStatus::Discharging => seq![
            68u8, 105u8, 115u8, 99u8, 104u8, 97u8, 114u8, 103u8, 105u8, 110u8, 103u8,
        ],
        ChargingStatus::NotCharging => seq![
            78u8, 111u8, 116u8, 32u8, 99u8, 104u8, 97u8, 114u8, 103u8, 105u8, 110u8, 103u8,
        ],
    }
}

/// What parsing the charge-behaviour entry's text yields: the policy whose
/// literal the trimmed text equals, or `UnexpectedValue` when it equals none.
pub open spec fn spec_parse_charge_behaviour(s: Seq<u8>) -> Result<ChargeBehaviour, BatteryError> {
    let t = trim_spec(s);
    if t == spec_render_charge_behaviour(ChargeBehaviour::Auto) {
        Ok(ChargeBehaviour::Auto)
    } else if t == spec_render_charge_behaviour(ChargeBehaviour::InhibitCharge) {
        Ok(ChargeBehaviour::InhibitCharge)
    } else if t == spec_render_charge_behaviour(ChargeBehaviour::ForceDischarge) {
        Ok(ChargeBehaviour::ForceDischarge)
    } else {
        Err(BatteryError::UnexpectedValue)
    }
}

/// What parsing the status entry's text yields, in the same way.
pub open spec fn spec_parse_charging_status(s: Seq<u8>) -> Result<ChargingStatus, BatteryError> {
    let t = trim_spec(s);
    if t == spec_render_charging_status(ChargingStatus::Charging) {
        Ok(ChargingStatus::Charging)
    } else if t == spec_render_charging_status(ChargingStatus::Discharging) {
        Ok(ChargingStatus::Discharging)
    } else if t == spec_render_charging_status(ChargingStatus::NotCharging) {
        Ok(ChargingStatus::NotCharging)
    } else {
        Err(BatteryError::UnexpectedValue)
    }
}

/// What parsing the capacity entry's text yields: its trailing whitespace is
/// trimmed and the rest read as a base-10 integer; any failure to parse is
/// `NotAccessible`.
pub open spec fn spec_parse_capacity(s: Seq<u8>) -> Result<i32, BatteryError> {
    match spec_parse_i32(trim_end_spec(s)) {
        Some(v) => Ok(v),
        None => Err(BatteryError::NotAccessible),
    }
}

/// Serializes a charging policy to the literal the control interface expects.
pub fn render_charge_behaviour(b: ChargeBehaviour) -> (r: Vec<u8>)
    ensures
        r@ == spec_render_charge_behaviour(b),
{
    let mut v: Vec<u8> = Vec::new();
    match b {
        ChargeBehaviour::Auto => {
            v.push(97);  // a
            v.push(117);  // u
            v.push(116);  // t
            v.push(111);  // o
        },
        ChargeBehaviour::InhibitCharge => {
            v.push(105);  // i
            v.push(110);  // n
            v.push(104);  // h
            v.push(105);  // i
            v.push(98);  // b
            v.push(105);  // i
            v.push(116);  // t
            v.push(45);  // -
            v.push(99);  // c
            v.push(104);  // h
            v.push(97);  // a
            v.push(114);  // r
            v.push(103);  // g
            v.push(101);  // e
        },
        ChargeBehaviour::ForceDischarge => {
            v.push(102);  // f
            v.push(111);  // o
            v.push(114);  // r
            v.push(99);  // c
            v.push(101);  // e
            v.push(45);  // -
            v.push(100);  // d
            v.push(105);  // i
            v.push(115);  // s
            v.push(99);  // c
            v.push(104);  // h
            v.push(97);  // a
            v.push(114);  // r
            v.push(103);  // g
            v.push(101);  // e
        },
    }
    proof {
        assert(v@ =~= spec_render_charge_behaviour(b));
    }
    v
}

/// Serializes a charging status to the literal the status entry reports.
pub fn render_charging_status(s: ChargingStatus) -> (r: Vec<u8>)
    ensures
        r@ == spec_render_charging_status(s),
{
    let mut v: Vec<u8> = Vec::new();
    match s {
        ChargingStatus::Charging => {
            v.push(67);  // C
            v.push(104);  // h
            v.push(97);  // a
            v.push(114);  // r
            v.push(103);  // g
            v.push(105);  // i
            v.push(110);  // n
            v.push(103);  // g
        },
        ChargingStatus::Discharging => {
            v.push(68);  // D
            v.push(105);  // i
            v.push(115);  // s
            v.push(99);  // c
            v.push(104);  // h
            v.push(97);  // a
            v.push(114);  // r
            v.push(103);  // g
            v.push(105);  // i
            v.push(110);  // n
            v.push(103);  // g
        },
        ChargingStatus::NotCharging => {
            v.push(78);  // N
            v.push(111);  // o
            v.push(116);  // t
            v.push(32);  // space
            v.push(99);  // c
            v.push(104);  // h
            v.push(97);  // a
            v.push(114);  // r
            v.push(103);  // g
            v.push(105);  // i
            v.push(110);  // n
            v.push(103);  // g
        },
    }
    proof {
        assert(v@ =~= spec_render_charging_status(s));
    }
    v
}

fn bytes_eq(a: &Vec<u8>, b: &Vec<u8>) -> (r: bool)
    ensures
        r == (a@ == b@),
{
    if a.len() != b.len() {
        return false;
    }
    let mut i: usize = 0;
    while i < a.len()
        invariant
            i <= a@.len(),
            a@.len() == b@.len(),
            forall|k: int| 0 <= k < i ==> a@[k] == b@[k],
        decreases a@.len() - i,
    {
        if a[i] != b[i] {
            return false;
        }
        i = i + 1;
    }
    proof {
        assert(a@ =~= b@);
    }
    true
}

/// Parses the capacity entry's text: trailing whitespace trimmed, the rest
/// read as a base-10 integer, any malformed or out-of-range text rejected as
/// `NotAccessible`.
pub fn parse_capacity(text: &Vec<u8>) -> (r: Result<i32, BatteryError>)
    ensures
        r == spec_parse_capacity(text@),
{
    let t = trim_end(text);
    match crate::text::parse_i32(&t) {
        Some(v) => Ok(v),
        None => Err(BatteryError::NotAccessible),
    }
}

/// Parses the charge-behaviour entry's text: whitespace trimmed, the rest
/// matched against the three policy literals.
pub fn parse_charge_behaviour(text: &Vec<u8>) -> (r: Result<ChargeBehaviour, BatteryError>)
    ensures
        r == spec_parse_charge_behaviour(text@),
{
    let t = trim(text);
    if bytes_eq(&t, &render_charge_behaviour(ChargeBehaviour::Auto)) {
        Ok(ChargeBehaviour::Auto)
    } else if bytes_eq(&t, &render_charge_behaviour(ChargeBehaviour::InhibitCharge)) {
        Ok(ChargeBehaviour::InhibitCharge)
    } else if bytes_eq(&t, &render_charge_behaviour(ChargeBehaviour::ForceDischarge)) {
        Ok(ChargeBehaviour::ForceDischarge)
    } else {
        Err(BatteryError::UnexpectedValue)
    }
}

/// Parses the status entry's text: whitespace trimmed, the rest matched
/// against the three status literals.
pub fn parse_charging_status(text: &Vec<u8>) -> (r: Result<ChargingStatus, BatteryError>)
    ensures
        r == spec_parse_charging_status(text@),
{
    let t = trim(text);
    if bytes_eq(&t, &render_charging_status(ChargingStatus::Charging)) {
        Ok(ChargingStatus::Charging)
    } else if bytes_eq(&t, &render_charging_status(ChargingStatus::Discharging)) {
        Ok(ChargingStatus::Discharging)
    } else if bytes_eq(&t, &render_charging_status(ChargingStatus::NotCharging)) {
        Ok(ChargingStatus::NotCharging)
    } else {
        Err(BatteryError::UnexpectedValue)
    }
}

/// The bytes a control-interface entry held, or `None` when the entry could
/// not be read at all.
pub open spec fn opt_bytes(o: Option<&Vec<u8>>) -> Option<Seq<u8>> {
    match o {
        Some(v) => Some(v@),
        None => None,
    }
}

/// What refreshing capacity from a read outcome yields: `NotAccessible` when
/// the entry could not be read, the parse result otherwise.
pub open spec fn spec_read_capacity(text: Option<Seq<u8>>) -> Result<i32, BatteryError> {
    match text {
        Some(t) => spec_parse_capacity(t),
        None => Err(BatteryError::NotAccessible),
    }
}

/// What refreshing the charge behaviour from a read outcome yields.
pub open spec fn spec_read_charge_behaviour(text: Option<Seq<u8>>) -> Result<
    ChargeBehaviour,
    BatteryError,
> {
    match text {
        Some(t) => spec_parse_charge_behaviour(t),
        None => Err(BatteryError::NotAccessible),
    }
}

/// What refreshing the charging status from a read outcome yields.
pub open spec fn spec_read_charging_status(text: Option<Seq<u8>>) -> Result<
    ChargingStatus,
    BatteryError,
> {
    match text {
        Some(t) => spec_parse_charging_status(t),
        None => Err(BatteryError::NotAccessible),
    }
}

/// The one-cycle-behind snapshot of the battery, refreshed in place each
/// polling cycle. `charge_behaviour` always equals the last value either
/// successfully read from or successfully written to the control interface:
/// a failed write never updates it.
pub struct BatteryState {
    /// Last capacity percentage read; out-of-range readings propagate as-is.
    pub capacity: i32,
    /// Last charge behaviour read from or successfully written to the entry.
    pub charge_behaviour: ChargeBehaviour,
    /// Last charging status read; read-only from this controller's side.
    pub charging_status: ChargingStatus,
}

impl BatteryState {
    /// Builds the initial snapshot from the first read of the three entries,
    /// in the fixed order capacity, behaviour, status; the first failure is
    /// the result, and without a valid reading no state exists.
    pub fn new(cap: Option<&Vec<u8>>, beh: Option<&Vec<u8>>, st: Option<&Vec<u8>>) -> (r: Result<
        BatteryState,
        BatteryError,
    >)
        ensures
            match r {
                Ok(b) => spec_read_capacity(opt_bytes(cap)) == Ok::<i32, BatteryError>(b.capacity)
                    && spec_read_charge_behaviour(opt_bytes(beh)) == Ok::<
                    ChargeBehaviour,
                    BatteryError,
                >(b.charge_behaviour) && spec_read_charging_status(opt_bytes(st)) == Ok::<
                    ChargingStatus,
                    BatteryError,
                >(b.charging_status),
                Err(e) => match spec_read_capacity(opt_bytes(cap)) {
                    Err(e1) => e == e1,
                    Ok(_) => match spec_read_charge_behaviour(opt_bytes(beh)) {
                        Err(e2) => e == e2,
                        Ok(_) => match spec_read_charging_status(opt_bytes(st)) {
                            Err(e3) => e == e3,
                            Ok(_) => false,
                        },
                    },
                },
            },
    {
        let mut state = BatteryState {
            capacity: 0,
            charge_behaviour: ChargeBehaviour::Auto,
            charging_status: ChargingStatus::Discharging,
        };
        match state.refresh(cap, beh, st) {
            Ok(()) => Ok(state),
            Err(e) => Err(e),
        }
    }

    pub fn get_capacity(&self) -> (r: i32)
        ensures
            r == self.capacity,
    {
        self.capacity
    }

    pub fn get_charge_behaviour(&self) -> (r: ChargeBehaviour)
        ensures
            r == self.charge_behaviour,
    {
        self.charge_behaviour
    }

    pub fn get_charging_status(&self) -> (r: ChargingStatus)
        ensures
            r == self.charging_status,
    {
        self.charging_status
    }

    /// Records the outcome of writing a charge behaviour to the control
    /// interface. Only a successful write updates the cached field; after a
    /// failed write the snapshot is unchanged and the cycle fails with
    /// `NotAccessible`.
    pub fn set_charge_behaviour(
        &mut self,
        behaviour: ChargeBehaviour,
        write_succeeded: bool,
    ) -> (r: Result<(), BatteryError>)
        ensures
            write_succeeded ==> r == Ok::<(), BatteryError>(()) && final(self).charge_behaviour
                == behaviour && final(self).capacity == old(self).capacity && final(self).charging_status == old(self).charging_status,
            !write_succeeded ==> r == Err::<(), BatteryError>(BatteryError::NotAccessible) && *final(self) == *old(self),
    {
        if !write_succeeded {
            return Err(BatteryError::NotAccessible);
        }
        self.charge_behaviour = behaviour;
        Ok(())
    }

    /// Refreshes the capacity field from the capacity entry's read outcome;
    /// on any failure the snapshot is unchanged.
    pub fn refresh_capacity(&mut self, text: Option<&Vec<u8>>) -> (r: Result<(), BatteryError>)
        ensures
            match spec_read_capacity(opt_bytes(text)) {
                Ok(v) => r == Ok::<(), BatteryError>(()) && final(self).capacity == v && final(self).charge_behaviour == old(self).charge_behaviour && final(self).charging_status
                    == old(self).charging_status,
                Err(e) => r == Err::<(), BatteryError>(e) && *final(self) == *old(self),
            },
    {
        match text {
            Some(t) => match parse_capacity(t) {
                Ok(v) => {
                    self.capacity = v;
                    Ok(())
                },
                Err(e) => Err(e),
            },
            None => Err(BatteryError::NotAccessible),
        }
    }

    /// Refreshes the charge-behaviour field from its entry's read outcome;
    /// on any failure the snapshot is unchanged.
    pub fn refresh_charge_behaviour(&mut self, text: Option<&Vec<u8>>) -> (r: Result<
        (),
        BatteryError,
    >)
        ensures
            match spec_read_charge_behaviour(opt_bytes(text)) {
                Ok(b) => r == Ok::<(), BatteryError>(()) && final(self).charge_behaviour == b
                    && final(self).capacity == old(self).capacity && final(self).charging_status
                    == old(self).charging_status,
                Err(e) => r == Err::<(), BatteryError>(e) && *final(self) == *old(self),
            },
    {
        match text {
            Some(t) => match parse_charge_behaviour(t) {
                Ok(b) => {
                    self.charge_behaviour = b;
                    Ok(())
                },
                Err(e) => Err(e),
            },
            None => Err(BatteryError::NotAccessible),
        }
    }

    /// Refreshes the charging-status field from its entry's read outcome;
    /// on any failure the snapshot is unchanged.
    pub fn refresh_charging_status(&mut self, text: Option<&Vec<u8>>) -> (r: Result<
        (),
        BatteryError,
    >)
        ensures
            match spec_read_charging_status(opt_bytes(text)) {
                Ok(s) => r == Ok::<(), BatteryError>(()) && final(self).charging_status == s
                    && final(self).capacity == old(self).capacity && final(self).charge_behaviour
                    == old(self).charge_behaviour,
                Err(e) => r == Err::<(), BatteryError>(e) && *final(self) == *old(self),
            },
    {
        match text {
            Some(t) => match parse_charging_status(t) {
                Ok(s) => {
                    self.charging_status = s;
                    Ok(())
                },
                Err(e) => Err(e),
            },
            None => Err(BatteryError::NotAccessible),
        }
    }

    /// Refreshes the whole snapshot from the three entries' read outcomes,
    /// in the fixed order capacity, behaviour, status. A failure partway
    /// through stops there: fields already refreshed that cycle keep their
    /// new values, the remaining fields keep the previous cycle's.
    pub fn refresh(
        &mut self,
        cap: Option<&Vec<u8>>,
        beh: Option<&Vec<u8>>,
        st: Option<&Vec<u8>>,
    ) -> (r: Result<(), BatteryError>)
        ensures
            match spec_read_capacity(opt_bytes(cap)) {
                Err(e) => r == Err::<(), BatteryError>(e) && *final(self) == *old(self),
                Ok(c) => final(self).capacity == c && match spec_read_charge_behaviour(
                    opt_bytes(beh),
                ) {
                    Err(e) => r == Err::<(), BatteryError>(e) && final(self).charge_behaviour
                        == old(self).charge_behaviour && final(self).charging_status == old(self).charging_status,
                    Ok(b) => final(self).charge_behaviour == b && match spec_read_charging_status(
                        opt_bytes(st),
                    ) {
                        Err(e) => r == Err::<(), BatteryError>(e) && final(self).charging_status
                            == old(self).charging_status,
                        Ok(s) => r == Ok::<(), BatteryError>(()) && final(self).charging_status
                            == s,
                    },
                },
            },
    {
        match self.refresh_capacity(cap) {
            Ok(()) => {},
            Err(e) => {
                return Err(e);
            },
        }
        match self.refresh_charge_behaviour(beh) {
            Ok(()) => {},
            Err(e) => {
                return Err(e);
            },
        }
        self.refresh_charging_status(st)
    }
}

/// Rule 1, highest priority: the battery is charging at or above the stop
/// threshold and charging is not yet inhibited, so inhibit it.
pub open spec fn stop_rule_applies(
    status: ChargingStatus,
    capacity: int,
    behaviour: ChargeBehaviour,
    stop_threshold: int,
) -> bool {
    status == ChargingStatus::Charging && capacity >= stop_threshold && behaviour
        != ChargeBehaviour::InhibitCharge
}

/// Rule 2: capacity has drained to the start threshold or below and charging
/// is not already automatic, so resume it — whatever the charging status,
/// which also covers a device replugged below the resume threshold.
pub open spec fn resume_rule_applies(
    capacity: int,
    behaviour: ChargeBehaviour,
    start_threshold: int,
) -> bool {
    capacity <= start_threshold && behaviour != ChargeBehaviour::Auto
}

/// Rule 3, the safety net: the charger was disconnected while charging was
/// held off, so clear the inhibition and let charging resume on reconnection
/// even above the resume threshold.
pub open spec fn safety_rule_applies(status: ChargingStatus, behaviour: ChargeBehaviour) -> bool {
    status == ChargingStatus::Discharging && behaviour != ChargeBehaviour::Auto
}

/// The behaviour to write this cycle, if any: the three rules tried in
/// strict priority order, first match wins.
pub open spec fn spec_decide(
    status: ChargingStatus,
    capacity: int,
    behaviour: ChargeBehaviour,
    stop_threshold: int,
    start_threshold: int,
) -> Option<ChargeBehaviour> {
    if stop_rule_applies(status, capacity, behaviour, stop_threshold) {
        Some(ChargeBehaviour::InhibitCharge)
    } else if resume_rule_applies(capacity, behaviour, start_threshold) {
        Some(ChargeBehaviour::Auto)
    } else if safety_rule_applies(status, behaviour) {
        Some(ChargeBehaviour::Auto)
    } else {
        None
    }
}

impl BatteryState {
    /// Evaluates the decision rules against the current snapshot and the
    /// configured thresholds: the behaviour to write this cycle, or `None`
    /// when the cycle is a no-op.
    pub fn decide(&self, config: &Config) -> (r: Option<ChargeBehaviour>)
        ensures
            r == spec_decide(
                self.charging_status,
                self.capacity as int,
                self.charge_behaviour,
                config.stop_charging_threshold as int,
                config.start_charging_threshold as int,
            ),
    {
        if self.charging_status == ChargingStatus::Charging && self.capacity
            >= config.get_stop_charging_threshold() && self.charge_behaviour
            != ChargeBehaviour::InhibitCharge {
            Some(ChargeBehaviour::InhibitCharge)
        } else if self.capacity <= config.get_start_charging_threshold() && self.charge_behaviour
            != ChargeBehaviour::Auto {
            Some(ChargeBehaviour::Auto)
        } else if self.charging_status == ChargingStatus::Discharging && self.charge_behaviour
            != ChargeBehaviour::Auto {
            Some(ChargeBehaviour::Auto)
        } else {
            None
        }
    }
}

/// When none of the three rules applies, a cycle decides on no write at all,
/// so the charge behaviour is left exactly as it was.
pub proof fn lemma_noop_cycle_idempotent(
    status: ChargingStatus,
    capacity: int,
    behaviour: ChargeBehaviour,
    stop_threshold: int,
    start_threshold: int,
)
    requires
        !stop_rule_applies(status, capacity, behaviour, stop_threshold),
        !resume_rule_applies(capacity, behaviour, start_threshold),
        !safety_rule_applies(status, behaviour),
    ensures
        spec_decide(status, capacity, behaviour, stop_threshold, start_threshold) is None,
{
}

/// Every cycle decides on at most one write, and ties between rules resolve
/// deterministically by priority: whenever rule 1 applies it alone decides,
/// even if capacity also sits at or below the start threshold; rule 2 decides
/// only when rule 1 does not; rule 3 only when neither earlier rule does.
pub proof fn lemma_at_most_one_write(
    status: ChargingStatus,
    capacity: int,
    behaviour: ChargeBehaviour,
    stop_threshold: int,
    start_threshold: int,
)
    ensures
        spec_decide(status, capacity, behaviour, stop_threshold, start_threshold) is Some ==> (
        stop_rule_applies(status, capacity, behaviour, stop_threshold) || resume_rule_applies(
            capacity,
            behaviour,
            start_threshold,
        ) || safety_rule_applies(status, behaviour)),
        stop_rule_applies(status, capacity, behaviour, stop_threshold) ==> spec_decide(
            status,
            capacity,
            behaviour,
            stop_threshold,
            start_threshold,
        ) == Some(ChargeBehaviour::InhibitCharge),
        !stop_rule_applies(status, capacity, behaviour, stop_threshold) && resume_rule_applies(
            capacity,
            behaviour,
            start_threshold,
        ) ==> spec_decide(status, capacity, behaviour, stop_threshold, start_threshold) == Some(
            ChargeBehaviour::Auto,
        ),
        !stop_rule_applies(status, capacity, behaviour, stop_threshold) && !resume_rule_applies(
            capacity,
            behaviour,
            start_threshold,
        ) && safety_rule_applies(status, behaviour) ==> spec_decide(
            status,
            capacity,
            behaviour,
            stop_threshold,
            start_threshold,
        ) == Some(ChargeBehaviour::Auto),
{
}

/// Capacity exactly at the stop threshold while charging under the `Auto`
/// behaviour already triggers the inhibition: rule 1 compares with `>=`.
pub proof fn lemma_stop_boundary(stop_threshold: int, start_threshold: int)
    ensures
        spec_decide(
            ChargingStatus::Charging,
            stop_threshold,
            ChargeBehaviour::Auto,
            stop_threshold,
            start_threshold,
        ) == Some(ChargeBehaviour::InhibitCharge),
{
}

/// Capacity exactly at the start threshold while charging is inhibited
/// already triggers the resume: rule 2 compares with `<=`, and rule 1 cannot
/// pre-empt it because the behaviour is already `InhibitCharge`.
pub proof fn lemma_resume_boundary(
    status: ChargingStatus,
    stop_threshold: int,
    start_threshold: int,
)
    ensures
        spec_decide(
            status,
            start_threshold,
            ChargeBehaviour::InhibitCharge,
            stop_threshold,
            start_threshold,
        ) == Some(ChargeBehaviour::Auto),
{
}

/// Serializing a charge behaviour and parsing the literal back yields the
/// original variant.
pub proof fn lemma_charge_behaviour_round_trip(b: ChargeBehaviour)
    ensures
        spec_parse_charge_behaviour(spec_render_charge_behaviour(b)) == Ok::<
            ChargeBehaviour,
            BatteryError,
        >(b),
{
    let lit = spec_render_charge_behaviour(b);
    assert(trim_spec(lit) == lit);
    match b {
        ChargeBehaviour::Auto => {},
        ChargeBehaviour::InhibitCharge => {
            assert(lit != spec_render_charge_behaviour(ChargeBehaviour::Auto));
        },
        ChargeBehaviour::ForceDischarge => {
            assert(lit != spec_render_charge_behaviour(ChargeBehaviour::Auto));
            assert(lit != spec_render_charge_behaviour(ChargeBehaviour::InhibitCharge));
        },
    }
}

/// Serializing a charging status and parsing the literal back yields the
/// original variant.
pub proof fn lemma_charging_status_round_trip(s: ChargingStatus)
    ensures
        spec_parse_charging_status(spec_render_charging_status(s)) == Ok::<
            ChargingStatus,
            BatteryError,
        >(s),
{
    let lit = spec_render_charging_status(s);
    assert(trim_spec(lit) == lit);
    match s {
        ChargingStatus::Charging => {},
        ChargingStatus::Discharging => {
            assert(lit != spec_render_charging_status(ChargingStatus::Charging));
        },
        ChargingStatus::NotCharging => {
            assert(lit != spec_render_charging_status(ChargingStatus::Charging));
            assert(lit != spec_render_charging_status(ChargingStatus::Discharging));
        },
    }
}

} // verus!
