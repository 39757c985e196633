//! Printer state, printer information and the G-code and temperature stores.
use vstd::prelude::*;

use crate::{Float32};

verus! {

/// The state Klipper reports for the printer.
#[derive(Debug, Clone, Copy, PartialEq, Eq, Structural)]
pub enum PrinterState {
    Ready,
    Paused,
    Standby,
    Printing,
    Complete,
    Cancelled,
    Error,
    Startup,
    Shutdown,
    Disconnected,
}

/// The result of `printer.info`.
#[derive(Debug, Clone, PartialEq)]
pub struct PrinterInfoResponse {
    pub state: PrinterState,
    pub state_message: String,
    pub hostname: String,
    pub klipper_path: String,
    pub python_path: String,
    pub process_id: i32,
    pub user_id: i32,
    pub group_id: i32,
    pub log_file: String,
    pub config_file: String,
    pub software_version: String,
    pub cpu_info: String,
}

/// Whether a stored G-code line was a command or a response.
#[derive(Debug, Clone, Copy, PartialEq, Eq, Structural)]
pub enum GcodeType {
    Command,
    Response,
}

/// One line of the G-code store.
#[derive(Debug, Clone, PartialEq)]
pub struct GcodeStore {
    pub message: String,
    pub time: Float32,
    pub typee: GcodeType,
}

/// The history of one item of the temperature store.
#[derive(Debug, Clone, PartialEq)]
pub enum TempStoreData {
    TempTgtsPowers {
        temperatures: Vec<Float32>,
        targets: Vec<Float32>,
        powers: Vec<Float32>,
    },
    Temp {
        temperatures: Vec<Float32>,
    },
}

/// The names of the items in the temperature store.
#[derive(Debug, Clone, PartialEq, Eq, Hash)]
pub enum HeaterNames {
    HeaterBed,
    Extruder,
    Extruder1,
    Extruder2,
    Extruder3,
    Extruder4,
    Extruder5,
    Extruder6,
    Extruder7,
    Extruder8,
    Extruder9,
    Extruder10,
    TemperatureFan,
    TemperatureSensor,
    NameStr(String),
}

/// The temperature store: an entry per item name.
#[derive(Debug, Clone, PartialEq)]
pub struct TemperatureStore {
    /// Each item name once, with its data.
    pub items: Vec<(HeaterNames, TempStoreData)>,
}

/// The identity of an item name: a number for each fixed name, and the text
/// for a name given as a string. Two names are the same item exactly when
/// their identities are equal.
pub open spec fn heater_key(h: HeaterNames) -> (int, Seq<char>) {
    match h {
        HeaterNames::HeaterBed => (0, Seq::empty()),
        HeaterNames::Extruder => (1, Seq::empty()),
        HeaterNames::Extruder1 => (2, Seq::empty()),
        HeaterNames::Extruder2 => (3, Seq::empty()),
        HeaterNames::Extruder3 => (4, Seq::empty()),
        HeaterNames::Extruder4 => (5, Seq::empty()),
        HeaterNames::Extruder5 => (6, Seq::empty()),
        HeaterNames::Extruder6 => (7, Seq::empty()),
        HeaterNames::Extruder7 => (8, Seq::empty()),
        HeaterNames::Extruder8 => (9, Seq::empty()),
        HeaterNames::Extruder9 => (10, Seq::empty()),
        HeaterNames::Extruder10 => (11, Seq::empty()),
        HeaterNames::TemperatureFan => (12, Seq::empty()),
        HeaterNames::TemperatureSensor => (13, Seq::empty()),
        HeaterNames::NameStr(s) => (14, s@),
    }
}

/// The number of a name's kind.
fn heater_kind(h: &HeaterNames) -> (n: u8)
    ensures
        n == heater_key(*h).0,
{
    match h {
        HeaterNames::HeaterBed => 0,
        HeaterNames::Extruder => 1,
        HeaterNames::Extruder1 => 2,
        HeaterNames::Extruder2 => 3,
        HeaterNames::Extruder3 => 4,
        HeaterNames::Extruder4 => 5,
        HeaterNames::Extruder5 => 6,
        HeaterNames::Extruder6 => 7,
        HeaterNames::Extruder7 => 8,
        HeaterNames::Extruder8 => 9,
        HeaterNames::Extruder9 => 10,
        HeaterNames::Extruder10 => 11,
        HeaterNames::TemperatureFan => 12,
        HeaterNames::TemperatureSensor => 13,
        HeaterNames::NameStr(_) => 14,
    }
}

/// Whether two names denote the same item.
pub fn same_heater(a: &HeaterNames, b: &HeaterNames) -> (r: bool)
    ensures
        r == (heater_key(*a) == heater_key(*b)),
{
    match a {
        HeaterNames::NameStr(x) => match b {
            HeaterNames::NameStr(y) => x.eq(y),
            _ => false,
        },
        _ => heater_kind(a) == heater_kind(b),
    }
}

impl TemperatureStore {
    /// No item name occurs twice.
    pub open spec fn wf(self) -> bool {
        forall|i: int, j: int|
            0 <= i < j < self.items@.len() ==> heater_key(#[trigger] self.items@[i].0)
                != heater_key(#[trigger] self.items@[j].0)
    }

    /// Whether the store holds `data` for the item whose identity is `key`.
    pub open spec fn holds(self, key: (int, Seq<char>), data: TempStoreData) -> bool {
        exists|i: int|
            0 <= i < self.items@.len() && heater_key(#[trigger] self.items@[i].0) == key
                && self.items@[i].1 == data
    }

    /// An empty store.
    pub fn new() -> (s: Self)
        ensures
            s.wf(),
            s.items@.len() == 0,
    {
        TemperatureStore { items: Vec::new() }
    }

    /// Stores `value` for the item `key`, in place of what the store held for
    /// it; every other item keeps its data.
    pub fn add_to_hashmap(&mut self, key: HeaterNames, value: TempStoreData)
        requires
            old(self).wf(),
        ensures
            final(self).wf(),
            forall|d: TempStoreData| #[trigger]
                final(self).holds(heater_key(key), d) <==> d == value,
            forall|k: (int, Seq<char>), d: TempStoreData|
                k != heater_key(key) ==> (#[trigger] final(self).holds(k, d) <==> old(
                    self,
                ).holds(k, d)),
    {
        let ghost k0 = heater_key(key);
        let ghost v0 = value;
        let mut i: usize = 0;
        while i < self.items.len()
            invariant
                i <= self.items@.len(),
                self.items@ == old(self).items@,
                self.wf(),
                k0 == heater_key(key),
                v0 == value,
                forall|j: int| 0 <= j < i ==> heater_key(#[trigger] self.items@[j].0) != k0,
            decreases self.items@.len() - i,
        {
            if same_heater(&self.items[i].0, &key) {
                let ghost before = self.items@;
                self.items.set(i, (key, value));
                proof {
                    assert(self.items@ == before.update(i as int, (key, value)));
                    assert forall|a: int, b: int|
                        0 <= a < b < self.items@.len() implies heater_key(
                            #[trigger] self.items@[a].0,
                        ) != heater_key(#[trigger] self.items@[b].0) by {
                        assert(heater_key(before[a].0) != heater_key(before[b].0));
                    }
                    assert(heater_key(self.items@[i as int].0) == k0);
                    assert(self.holds(k0, v0));
                    assert forall|d: TempStoreData| #[trigger] self.holds(k0, d) implies d == v0 by {
                        let w = choose|w: int|
                            0 <= w < self.items@.len() && heater_key(#[trigger] self.items@[w].0)
                                == k0 && self.items@[w].1 == d;
                        if w != i {
                            if w < i {
                                assert(heater_key(before[w].0) != heater_key(before[i as int].0));
                            } else {
                                assert(heater_key(before[i as int].0) != heater_key(before[w].0));
                            }
                        }
                    }
                    assert forall|k: (int, Seq<char>), d: TempStoreData|
                        k != k0 implies (#[trigger] self.holds(k, d) <==> old(self).holds(k, d)) by {
                        if self.holds(k, d) {
                            let w = choose|w: int|
                                0 <= w < self.items@.len() && heater_key(
                                    #[trigger] self.items@[w].0,
                                ) == k && self.items@[w].1 == d;
                            assert(before[w] == self.items@[w]);
                        }
                        if old(self).holds(k, d) {
                            let w = choose|w: int|
                                0 <= w < before.len() && heater_key(#[trigger] before[w].0) == k
                                    && before[w].1 == d;
                            assert(before[w] == self.items@[w]);
                        }
                    }
                }
                return;
            }
            i = i + 1;
        }
        let ghost before = self.items@;
        self.items.push((key, value));
        proof {
            let n = before.len() as int;
            assert(self.items@[n] == (key, value));
            assert forall|a: int, b: int|
                0 <= a < b < self.items@.len() implies heater_key(#[trigger] self.items@[a].0)
                    != heater_key(#[trigger] self.items@[b].0) by {
                if b < n {
                    assert(heater_key(before[a].0) != heater_key(before[b].0));
                } else {
                    assert(before[a] == self.items@[a]);
                }
            }
            assert(heater_key(self.items@[n].0) == k0);
            assert(self.holds(k0, v0));
            assert forall|d: TempStoreData| #[trigger] self.holds(k0, d) implies d == v0 by {
                let w = choose|w: int|
                    0 <= w < self.items@.len() && heater_key(#[trigger] self.items@[w].0) == k0
                        && self.items@[w].1 == d;
                if w < n {
                    assert(before[w] == self.items@[w]);
                }
            }
            assert forall|k: (int, Seq<char>), d: TempStoreData|
                k != k0 implies (#[trigger] self.holds(k, d) <==> old(self).holds(k, d)) by {
                if self.holds(k, d) {
                    let w = choose|w: int|
                        0 <= w < self.items@.len() && heater_key(#[trigger] self.items@[w].0) == k
                            && self.items@[w].1 == d;
                    assert(w < n);
                    assert(before[w] == self.items@[w]);
                }
                if old(self).holds(k, d) {
                    let w = choose|w: int|
                        0 <= w < before.len() && heater_key(#[trigger] before[w].0) == k
                            && before[w].1 == d;
                    assert(before[w] == self.items@[w]);
                }
            }
        }
    }
}

} // verus!
