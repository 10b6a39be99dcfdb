//! The hardware topology: one backend description per slot, and the
//! validated configuration that the dispenser runs with.

use vstd::prelude::*;
use vstd::string::*;
use crate::latch::Latch;
use crate::text::{
    all_digits, dec_parses, dec_str, dec_val, parse_u32, parse_u64, split_commas,
    split_commas_spec, u64_to_dec,
};

verus! {

/// How one slot's hardware is wired.
///
/// GPIO lines are identified by their line offset on the controller's
/// single GPIO chip; the surrounding binary claims the lines and performs
/// the reads and writes.
pub enum SlotConfig {
    /// A 1-wire bus address; actuation writes to the device's control
    /// file, sensing checks that its identity file is openable.
    OWFS(String),
    /// A vend output line and a stocked input line.
    GPIO { vend: u32, stocked: u32 },
    /// A vend output line, a stock input line, and a completion sensor
    /// line that confirms the physical drop finished.
    NewdrinkSmall { vend: u32, stock: u32, cam: u32 },
}

/// The three wiring shapes, without their per-slot data.
#[derive(Clone, Copy, Debug, PartialEq, Eq, Structural)]
pub enum SlotKind {
    Owfs,
    Gpio,
    NewdrinkSmall,
}

/// The display identity of a slot: the bus address, or the dot-joined
/// line offsets in declaration order.
pub open spec fn display_spec(slot: SlotConfig) -> Seq<char> {
    match slot {
        SlotConfig::OWFS(id) => id@,
        SlotConfig::GPIO { vend, stocked } => dec_str(vend as nat) + seq!['.'] + dec_str(
            stocked as nat,
        ),
        SlotConfig::NewdrinkSmall { vend, stock, cam } => dec_str(vend as nat) + seq!['.']
            + dec_str(stock as nat) + seq!['.'] + dec_str(cam as nat),
    }
}

impl SlotConfig {
    /// The wiring shape of this slot.
    pub open spec fn kind_spec(&self) -> SlotKind {
        match self {
            SlotConfig::OWFS(_) => SlotKind::Owfs,
            SlotConfig::GPIO { .. } => SlotKind::Gpio,
            SlotConfig::NewdrinkSmall { .. } => SlotKind::NewdrinkSmall,
        }
    }

    /// The wiring shape of this slot.
    pub fn kind(&self) -> (k: SlotKind)
        ensures
            k == self.kind_spec(),
    {
        match self {
            SlotConfig::OWFS(_) => SlotKind::Owfs,
            SlotConfig::GPIO { .. } => SlotKind::Gpio,
            SlotConfig::NewdrinkSmall { .. } => SlotKind::NewdrinkSmall,
        }
    }

    /// The stable human-readable identity used in status reports and logs.
    pub fn display(&self) -> (s: String)
        ensures
            s@ == display_spec(*self),
    {
        proof {
            reveal_strlit(".");
        }
        match self {
            SlotConfig::OWFS(id) => id.clone(),
            SlotConfig::GPIO { vend, stocked } => {
                let mut s = u64_to_dec(*vend as u64);
                s.append(".");
                let t = u64_to_dec(*stocked as u64);
                s.append(t.as_str());
                proof {
                    assert(s@ =~= display_spec(*self));
                }
                s
            },
            SlotConfig::NewdrinkSmall { vend, stock, cam } => {
                let mut s = u64_to_dec(*vend as u64);
                s.append(".");
                let t = u64_to_dec(*stock as u64);
                s.append(t.as_str());
                s.append(".");
                let u = u64_to_dec(*cam as u64);
                s.append(u.as_str());
                proof {
                    assert(s@ =~= display_spec(*self));
                }
                s
            },
        }
    }
}

/// The validated configuration, immutable after construction: the sensor
/// address (empty means the temperature sensor is disabled), the slot
/// list in wiring order (1-indexed externally), the optional shared
/// latch, and the timing parameters in milliseconds.
pub struct ConfigData {
    pub temperature_id: String,
    pub slots: Vec<SlotConfig>,
    pub latch: Option<Latch>,
    pub drop_delay: u64,
    pub poll_delay: u64,
}

/// Why a raw configuration is refused. Startup is fatal on any of
/// these: the process must not run with an invalid or ambiguous
/// hardware topology.
#[derive(Clone, Copy, Debug, PartialEq, Eq, Structural)]
pub enum ConfigError {
    /// A required value is absent: no topology source at all, a pin
    /// list without its companion lists, or a missing delay.
    MissingValue,
    /// A numeric field is not a decimal number in range.
    BadNumber,
    /// Parallel pin lists of different lengths: an ambiguous topology.
    MismatchedPins,
}

/// The raw key/value configuration as the process environment supplies
/// it: one optional string per key, not yet validated. The three
/// topology sources are tried in order: bus addresses, then the sensed
/// three-line slots, then the plain two-line slots.
pub struct RawConfig {
    pub slot_addresses: Option<String>,
    pub new_vend_pins: Option<String>,
    pub new_stock_pins: Option<String>,
    pub new_cam_pins: Option<String>,
    pub vend_pins: Option<String>,
    pub stocked_pins: Option<String>,
    pub temperature_id: Option<String>,
    pub latch_pin: Option<String>,
    pub drop_delay: Option<String>,
    pub poll_delay: Option<String>,
}

/// The mathematical content of a raw configuration: each value as a
/// character sequence.
#[verifier::ext_equal]
pub ghost struct RawModel {
    pub slot_addresses: Option<Seq<char>>,
    pub new_vend_pins: Option<Seq<char>>,
    pub new_stock_pins: Option<Seq<char>>,
    pub new_cam_pins: Option<Seq<char>>,
    pub vend_pins: Option<Seq<char>>,
    pub stocked_pins: Option<Seq<char>>,
    pub temperature_id: Option<Seq<char>>,
    pub latch_pin: Option<Seq<char>>,
    pub drop_delay: Option<Seq<char>>,
    pub poll_delay: Option<Seq<char>>,
}

impl RawConfig {
    /// The mathematical content of this raw configuration.
    pub open spec fn model(&self) -> RawModel {
        RawModel {
            slot_addresses: match self.slot_addresses {
                Some(s) => Some(s@),
                None => None,
            },
            new_vend_pins: match self.new_vend_pins {
                Some(s) => Some(s@),
                None => None,
            },
            new_stock_pins: match self.new_stock_pins {
                Some(s) => Some(s@),
                None => None,
            },
            new_cam_pins: match self.new_cam_pins {
                Some(s) => Some(s@),
                None => None,
            },
            vend_pins: match self.vend_pins {
                Some(s) => Some(s@),
                None => None,
            },
            stocked_pins: match self.stocked_pins {
                Some(s) => Some(s@),
                None => None,
            },
            temperature_id: match self.temperature_id {
                Some(s) => Some(s@),
                None => None,
            },
            latch_pin: match self.latch_pin {
                Some(s) => Some(s@),
                None => None,
            },
            drop_delay: match self.drop_delay {
                Some(s) => Some(s@),
                None => None,
            },
            poll_delay: match self.poll_delay {
                Some(s) => Some(s@),
                None => None,
            },
        }
    }
}

/// The mathematical content of one slot's wiring.
#[verifier::ext_equal]
pub ghost enum SlotModel {
    Owfs { id: Seq<char> },
    Gpio { vend: u32, stocked: u32 },
    NewdrinkSmall { vend: u32, stock: u32, cam: u32 },
}

/// The mathematical content of a validated configuration.
#[verifier::ext_equal]
pub ghost struct ConfigModel {
    pub temperature_id: Seq<char>,
    pub slots: Seq<SlotModel>,
    pub latch: Option<u32>,
    pub drop_delay: u64,
    pub poll_delay: u64,
}

impl SlotConfig {
    /// The mathematical content of this slot's wiring.
    pub open spec fn model(&self) -> SlotModel {
        match self {
            SlotConfig::OWFS(id) => SlotModel::Owfs { id: id@ },
            SlotConfig::GPIO { vend, stocked } => SlotModel::Gpio {
                vend: *vend,
                stocked: *stocked,
            },
            SlotConfig::NewdrinkSmall { vend, stock, cam } => SlotModel::NewdrinkSmall {
                vend: *vend,
                stock: *stock,
                cam: *cam,
            },
        }
    }
}

impl ConfigData {
    /// The mathematical content of this configuration.
    pub open spec fn model(&self) -> ConfigModel {
        ConfigModel {
            temperature_id: self.temperature_id@,
            slots: self.slots@.map_values(|s: SlotConfig| s.model()),
            latch: match self.latch {
                Some(l) => Some(l.line),
                None => None,
            },
            drop_delay: self.drop_delay,
            poll_delay: self.poll_delay,
        }
    }
}

/// Every piece of a pin list is a line offset: a decimal number that
/// fits in a `u32`.
pub open spec fn all_parse_u32(pieces: Seq<Seq<char>>) -> bool {
    forall|i: int| 0 <= i < pieces.len() ==> dec_parses(#[trigger] pieces[i], u32::MAX as int)
}

/// The slot list a raw configuration describes, or why it describes
/// none. Bus addresses are taken as they stand; pin lists must be
/// parallel lists of line offsets of one common length.
pub open spec fn resolve_slots(raw: RawModel) -> Result<Seq<SlotModel>, ConfigError> {
    if raw.slot_addresses is Some {
        Ok(
            split_commas_spec(raw.slot_addresses->0).map_values(
                |p: Seq<char>| SlotModel::Owfs { id: p },
            ),
        )
    } else if raw.new_vend_pins is Some {
        if raw.new_stock_pins is None || raw.new_cam_pins is None {
            Err(ConfigError::MissingValue)
        } else {
            let vends = split_commas_spec(raw.new_vend_pins->0);
            let stocks = split_commas_spec(raw.new_stock_pins->0);
            let cams = split_commas_spec(raw.new_cam_pins->0);
            if !(all_parse_u32(vends) && all_parse_u32(stocks) && all_parse_u32(cams)) {
                Err(ConfigError::BadNumber)
            } else if vends.len() != stocks.len() || vends.len() != cams.len() {
                Err(ConfigError::MismatchedPins)
            } else {
                Ok(
                    Seq::new(
                        vends.len(),
                        |i: int| SlotModel::NewdrinkSmall {
                            vend: dec_val(vends[i]) as u32,
                            stock: dec_val(stocks[i]) as u32,
                            cam: dec_val(cams[i]) as u32,
                        },
                    ),
                )
            }
        }
    } else if raw.vend_pins is Some {
        if raw.stocked_pins is None {
            Err(ConfigError::MissingValue)
        } else {
            let vends = split_commas_spec(raw.vend_pins->0);
            let stockeds = split_commas_spec(raw.stocked_pins->0);
            if !(all_parse_u32(vends) && all_parse_u32(stockeds)) {
                Err(ConfigError::BadNumber)
            } else if vends.len() != stockeds.len() {
                Err(ConfigError::MismatchedPins)
            } else {
                Ok(
                    Seq::new(
                        vends.len(),
                        |i: int| SlotModel::Gpio {
                            vend: dec_val(vends[i]) as u32,
                            stocked: dec_val(stockeds[i]) as u32,
                        },
                    ),
                )
            }
        }
    } else {
        Err(ConfigError::MissingValue)
    }
}

/// What a raw configuration resolves to, or the first fault found:
/// the topology first, then the latch pin, then the two delays. A
/// missing temperature address is not a fault: it resolves to the
/// empty address, which disables the sensor.
pub open spec fn resolve_model(raw: RawModel) -> Result<ConfigModel, ConfigError> {
    match resolve_slots(raw) {
        Err(e) => Err(e),
        Ok(slots) => {
            if raw.latch_pin is Some && !dec_parses(raw.latch_pin->0, u32::MAX as int) {
                Err(ConfigError::BadNumber)
            } else if raw.drop_delay is None {
                Err(ConfigError::MissingValue)
            } else if !dec_parses(raw.drop_delay->0, u64::MAX as int) {
                Err(ConfigError::BadNumber)
            } else if raw.poll_delay is None {
                Err(ConfigError::MissingValue)
            } else if !dec_parses(raw.poll_delay->0, u64::MAX as int) {
                Err(ConfigError::BadNumber)
            } else {
                Ok(
                    ConfigModel {
                        temperature_id: match raw.temperature_id {
                            Some(t) => t,
                            None => Seq::empty(),
                        },
                        slots,
                        latch: match raw.latch_pin {
                            Some(pin) => Some(dec_val(pin) as u32),
                            None => None,
                        },
                        drop_delay: dec_val(raw.drop_delay->0) as u64,
                        poll_delay: dec_val(raw.poll_delay->0) as u64,
                    },
                )
            }
        },
    }
}

/// Parses every piece of a pin list as a line offset.
fn parse_u32_list(items: &Vec<String>) -> (r: Option<Vec<u32>>)
    ensures
        r is Some <==> all_parse_u32(items@.map_values(|t: String| t@)),
        r matches Some(v) ==> {
            &&& v@.len() == items@.len()
            &&& forall|i: int|
                0 <= i < v@.len() ==> (#[trigger] v@[i]) as int == dec_val(items@[i]@)
        },
{
    let mut out: Vec<u32> = Vec::new();
    let mut i: usize = 0;
    while i < items.len()
        invariant
            i <= items@.len(),
            out@.len() == i,
            forall|j: int| 0 <= j < i ==> dec_parses(#[trigger] items@[j]@, u32::MAX as int),
            forall|j: int| 0 <= j < i ==> (#[trigger] out@[j]) as int == dec_val(items@[j]@),
        decreases items@.len() - i,
    {
        match parse_u32(items[i].as_str()) {
            Some(v) => {
                out.push(v);
            },
            None => {
                proof {
                    assert(items@.map_values(|t: String| t@)[i as int] == items@[i as int]@);
                }
                return None;
            },
        }
        i = i + 1;
    }
    proof {
        let m = items@.map_values(|t: String| t@);
        assert forall|j: int| 0 <= j < m.len() implies dec_parses(
            #[trigger] m[j],
            u32::MAX as int,
        ) by {
            assert(m[j] == items@[j]@);
        }
    }
    Some(out)
}

/// Builds the slot list a raw configuration describes, trying the three
/// topology sources in order.
fn resolve_slot_list(raw: &RawConfig) -> (r: Result<Vec<SlotConfig>, ConfigError>)
    ensures
        r matches Ok(v) ==> Ok::<Seq<SlotModel>, ConfigError>(
            v@.map_values(|s: SlotConfig| s.model()),
        ) == resolve_slots(raw.model()),
        r matches Err(e) ==> Err::<Seq<SlotModel>, ConfigError>(e) == resolve_slots(raw.model()),
{
    match &raw.slot_addresses {
        Some(addresses) => {
            let pieces = split_commas(addresses.as_str());
            let mut slots: Vec<SlotConfig> = Vec::new();
            let mut i: usize = 0;
            while i < pieces.len()
                invariant
                    i <= pieces@.len(),
                    slots@.len() == i,
                    forall|j: int|
                        0 <= j < i ==> {
                            &&& (#[trigger] slots@[j]) matches SlotConfig::OWFS(id)
                            &&& id@ == pieces@[j]@
                        },
                decreases pieces@.len() - i,
            {
                slots.push(SlotConfig::OWFS(pieces[i].clone()));
                i = i + 1;
            }
            proof {
                let lhs = slots@.map_values(|s: SlotConfig| s.model());
                let rhs = split_commas_spec(addresses@).map_values(
                    |p: Seq<char>| SlotModel::Owfs { id: p },
                );
                assert forall|j: int| 0 <= j < lhs.len() implies lhs[j] == rhs[j] by {
                    assert(split_commas_spec(addresses@)[j] == pieces@.map_values(
                        |t: String| t@,
                    )[j]);
                    assert(pieces@.map_values(|t: String| t@)[j] == pieces@[j]@);
                }
                assert(lhs =~= rhs);
            }
            Ok(slots)
        },
        None => {
            match &raw.new_vend_pins {
                Some(vend) => {
                    let stock = match &raw.new_stock_pins {
                        Some(s) => s,
                        None => {
                            return Err(ConfigError::MissingValue);
                        },
                    };
                    let cam = match &raw.new_cam_pins {
                        Some(s) => s,
                        None => {
                            return Err(ConfigError::MissingValue);
                        },
                    };
                    let vend_pieces = split_commas(vend.as_str());
                    let stock_pieces = split_commas(stock.as_str());
                    let cam_pieces = split_commas(cam.as_str());
                    let vends = match parse_u32_list(&vend_pieces) {
                        Some(v) => v,
                        None => {
                            return Err(ConfigError::BadNumber);
                        },
                    };
                    let stocks = match parse_u32_list(&stock_pieces) {
                        Some(v) => v,
                        None => {
                            return Err(ConfigError::BadNumber);
                        },
                    };
                    let cams = match parse_u32_list(&cam_pieces) {
                        Some(v) => v,
                        None => {
                            return Err(ConfigError::BadNumber);
                        },
                    };
                    if vends.len() != stocks.len() || vends.len() != cams.len() {
                        return Err(ConfigError::MismatchedPins);
                    }
                    let mut slots: Vec<SlotConfig> = Vec::new();
                    let mut i: usize = 0;
                    while i < vends.len()
                        invariant
                            i <= vends@.len(),
                            vends@.len() == stocks@.len() == cams@.len(),
                            slots@.len() == i,
                            forall|j: int|
                                0 <= j < i ==> {
                                    &&& (#[trigger] slots@[j]) matches
                                        SlotConfig::NewdrinkSmall { vend, stock, cam }
                                    &&& vend == vends@[j]
                                    &&& stock == stocks@[j]
                                    &&& cam == cams@[j]
                                },
                        decreases vends@.len() - i,
                    {
                        slots.push(
                            SlotConfig::NewdrinkSmall {
                                vend: vends[i],
                                stock: stocks[i],
                                cam: cams[i],
                            },
                        );
                        i = i + 1;
                    }
                    proof {
                        let vs = split_commas_spec(vend@);
                        let ss = split_commas_spec(stock@);
                        let cs = split_commas_spec(cam@);
                        let lhs = slots@.map_values(|s: SlotConfig| s.model());
                        let rhs = Seq::new(
                            vs.len(),
                            |j: int| SlotModel::NewdrinkSmall {
                                vend: dec_val(vs[j]) as u32,
                                stock: dec_val(ss[j]) as u32,
                                cam: dec_val(cs[j]) as u32,
                            },
                        );
                        assert(vs == vend_pieces@.map_values(|t: String| t@));
                        assert(ss == stock_pieces@.map_values(|t: String| t@));
                        assert(cs == cam_pieces@.map_values(|t: String| t@));
                        assert forall|j: int| 0 <= j < lhs.len() implies lhs[j] == rhs[j] by {
                            assert(vs[j] == vend_pieces@[j]@);
                            assert(ss[j] == stock_pieces@[j]@);
                            assert(cs[j] == cam_pieces@[j]@);
                        }
                        assert(lhs =~= rhs);
                    }
                    Ok(slots)
                },
                None => {
                    match &raw.vend_pins {
                        Some(vend) => {
                            let stocked = match &raw.stocked_pins {
                                Some(s) => s,
                                None => {
                                    return Err(ConfigError::MissingValue);
                                },
                            };
                            let vend_pieces = split_commas(vend.as_str());
                            let stocked_pieces = split_commas(stocked.as_str());
                            let vends = match parse_u32_list(&vend_pieces) {
                                Some(v) => v,
                                None => {
                                    return Err(ConfigError::BadNumber);
                                },
                            };
                            let stockeds = match parse_u32_list(&stocked_pieces) {
                                Some(v) => v,
                                None => {
                                    return Err(ConfigError::BadNumber);
                                },
                            };
                            if vends.len() != stockeds.len() {
                                return Err(ConfigError::MismatchedPins);
                            }
                            let mut slots: Vec<SlotConfig> = Vec::new();
                            let mut i: usize = 0;
                            while i < vends.len()
                                invariant
                                    i <= vends@.len(),
                                    vends@.len() == stockeds@.len(),
                                    slots@.len() == i,
                                    forall|j: int|
                                        0 <= j < i ==> {
                                            &&& (#[trigger] slots@[j]) matches
                                                SlotConfig::GPIO { vend, stocked }
                                            &&& vend == vends@[j]
                                            &&& stocked == stockeds@[j]
                                        },
                                decreases vends@.len() - i,
                            {
                                slots.push(
                                    SlotConfig::GPIO { vend: vends[i], stocked: stockeds[i] },
                                );
                                i = i + 1;
                            }
                            proof {
                                let vs = split_commas_spec(vend@);
                                let ss = split_commas_spec(stocked@);
                                let lhs = slots@.map_values(|s: SlotConfig| s.model());
                                let rhs = Seq::new(
                                    vs.len(),
                                    |j: int| SlotModel::Gpio {
                                        vend: dec_val(vs[j]) as u32,
                                        stocked: dec_val(ss[j]) as u32,
                                    },
                                );
                                assert(vs == vend_pieces@.map_values(|t: String| t@));
                                assert(ss == stocked_pieces@.map_values(|t: String| t@));
                                assert forall|j: int| 0 <= j < lhs.len() implies lhs[j] == rhs[j]
                                by {
                                    assert(vs[j] == vend_pieces@[j]@);
                                    assert(ss[j] == stocked_pieces@[j]@);
                                }
                                assert(lhs =~= rhs);
                            }
                            Ok(slots)
                        },
                        None => Err(ConfigError::MissingValue),
                    }
                },
            }
        },
    }
}

impl ConfigData {
    /// Resolves a raw configuration into the validated configuration the
    /// dispenser runs with, or refuses it with the first fault found:
    /// the topology, then the latch pin, then the two delays. A missing
    /// temperature address resolves to the empty address, which
    /// disables the sensor rather than refusing startup.
    pub fn new(raw: RawConfig) -> (r: Result<ConfigData, ConfigError>)
        ensures
            r matches Ok(c) ==> Ok::<ConfigModel, ConfigError>(c.model()) == resolve_model(
                raw.model(),
            ),
            r matches Err(e) ==> Err::<ConfigModel, ConfigError>(e) == resolve_model(raw.model()),
    {
        let slots = match resolve_slot_list(&raw) {
            Ok(v) => v,
            Err(e) => {
                return Err(e);
            },
        };
        let latch: Option<Latch> = match &raw.latch_pin {
            Some(pin) => {
                match parse_u32(pin.as_str()) {
                    Some(v) => Some(Latch { line: v }),
                    None => {
                        return Err(ConfigError::BadNumber);
                    },
                }
            },
            None => None,
        };
        let drop_delay = match &raw.drop_delay {
            Some(s) => {
                match parse_u64(s.as_str()) {
                    Some(v) => v,
                    None => {
                        return Err(ConfigError::BadNumber);
                    },
                }
            },
            None => {
                return Err(ConfigError::MissingValue);
            },
        };
        let poll_delay = match &raw.poll_delay {
            Some(s) => {
                match parse_u64(s.as_str()) {
                    Some(v) => v,
                    None => {
                        return Err(ConfigError::BadNumber);
                    },
                }
            },
            None => {
                return Err(ConfigError::MissingValue);
            },
        };
        let ghost rm = raw.model();
        let temperature_id = match raw.temperature_id {
            Some(t) => t,
            None => String::new(),
        };
        let c = ConfigData { temperature_id, slots, latch, drop_delay, poll_delay };
        proof {
            assert(c.model() =~= resolve_model(rm)->Ok_0);
        }
        Ok(c)
    }
}

} // verus!
