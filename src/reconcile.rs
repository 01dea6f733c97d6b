use vstd::prelude::*;
use crate::model::{Document, HashdKnob, Knob, Switch, Workload};
use crate::ratio::{clamp_ratio, ratio_of, ratio_of_spec, scale, scale_spec, RATIO_ONE};
use crate::state::{hashd_of, CmdState, HashdCmd, StateView};

verus! {

/// Measured facts that knob readouts are scaled by.
#[derive(Clone, Copy, Debug)]
pub struct SystemInfo {
    /// Benchmarked write bandwidth, bytes per second.
    pub wbps: u64,
    /// Benchmarked memory footprint of a workload, bytes.
    pub hashd_mem_size: u64,
    /// Benchmarked memory fraction, a ratio.
    pub hashd_mem_frac: u64,
    pub total_memory: u64,
    /// The workload's own default address spreads, ratios.
    pub dfl_file_addr_stdev: u64,
    pub dfl_anon_addr_stdev: u64,
}

/// A knob's value in engineering units.
#[derive(Clone, Copy, Debug, PartialEq, Eq, Structural)]
pub enum Readout {
    Millis(u64),
    Bytes(u64),
    /// A ratio in millionths, shown as a percentage.
    Percent(u64),
}

/// What a knob's widgets show: the slider ratio and the readout.
#[derive(Clone, Copy, Debug, PartialEq, Eq, Structural)]
pub struct KnobView {
    pub ratio: u64,
    pub readout: Readout,
}

/// Whether switch `sw` shows as on in state `v`.
pub open spec fn switch_on(v: StateView, sw: Switch) -> bool {
    match sw {
        Switch::BenchHashd => v.bench_hashd_next > v.bench_hashd_cur,
        Switch::BenchHashdLoop => v.bench_hashd_next == u64::MAX,
        Switch::BenchIoCost => v.bench_iocost_next > v.bench_iocost_cur,
        Switch::BenchNeeded => v.bench_hashd_cur == 0 || v.bench_iocost_cur == 0,
        Switch::Hashd(w) => hashd_of(v, w).active,
        Switch::Sideload(tag, _) => v.sideloads.contains_key(tag@),
        Switch::Sysload(tag, _) => v.sysloads.contains_key(tag@),
        Switch::CpuResCtl => v.cpu,
        Switch::MemResCtl => v.mem,
        Switch::IoResCtl => v.io,
        Switch::Oomd => v.oomd,
        Switch::OomdWorkMemPressure => v.oomd_work_mempress,
        Switch::OomdWorkSenpai => v.oomd_work_senpai,
        Switch::OomdSysMemPressure => v.oomd_sys_mempress,
        Switch::OomdSysSenpai => v.oomd_sys_senpai,
    }
}

pub open spec fn min_spec(a: u64, b: u64) -> u64 {
    if a < b {
        a
    } else {
        b
    }
}

/// The unclamped ratio of a workload knob.
pub open spec fn hashd_knob_raw(h: HashdCmd, k: HashdKnob, info: SystemInfo) -> int {
    match k {
        HashdKnob::Load => h.rps_target_ratio as int,
        HashdKnob::LatTargetPct => h.lat_target_pct as int,
        HashdKnob::LatTarget => h.lat_target as int,
        HashdKnob::Mem => match h.mem_ratio {
            Some(r) => r as int,
            None => info.hashd_mem_frac as int,
        },
        HashdKnob::FileAddrStdev => match h.file_addr_stdev {
            Some(r) => min_spec(r, RATIO_ONE) as int,
            None => info.dfl_file_addr_stdev as int,
        },
        HashdKnob::AnonAddrStdev => match h.anon_addr_stdev {
            Some(r) => min_spec(r, RATIO_ONE) as int,
            None => info.dfl_anon_addr_stdev as int,
        },
        HashdKnob::File => h.file_ratio as int,
        HashdKnob::FileMax => h.file_max_ratio as int,
        HashdKnob::LogBps => ratio_of_spec(h.log_bps, info.wbps),
        HashdKnob::Weight => h.weight as int,
    }
}

/// The unclamped ratio of knob `k` in state `v`.
pub open spec fn knob_raw(v: StateView, k: Knob, info: SystemInfo) -> int {
    match k {
        Knob::Hashd(w, hk) => hashd_knob_raw(hashd_of(v, w), hk, info),
        Knob::SysCpuRatio => v.sys_cpu_ratio as int,
        Knob::SysIoRatio => v.sys_io_ratio as int,
        Knob::MemMargin => v.mem_margin as int,
        Knob::Balloon => v.balloon_ratio as int,
        Knob::CpuHeadroom => v.cpu_headroom as int,
    }
}

/// The ratio that knob `k` shows in state `v`, clamped to the unit interval.
pub open spec fn knob_ratio(v: StateView, k: Knob, info: SystemInfo) -> u64 {
    let raw = knob_raw(v, k, info);
    if raw > RATIO_ONE {
        RATIO_ONE
    } else {
        raw as u64
    }
}

/// Ratio `r` of knob `k` in engineering units: a latency target in
/// milliseconds, a size or bandwidth in bytes, or else a percentage.
pub open spec fn denorm(k: Knob, r: u64, info: SystemInfo) -> Readout {
    match k {
        Knob::Hashd(_, HashdKnob::LatTarget) => Readout::Millis(scale_spec(1000, r) as u64),
        Knob::Hashd(_, HashdKnob::Mem) => Readout::Bytes(scale_spec(info.hashd_mem_size, r) as u64),
        Knob::Hashd(_, HashdKnob::LogBps) => Readout::Bytes(scale_spec(info.wbps, r) as u64),
        Knob::MemMargin | Knob::Balloon => Readout::Bytes(scale_spec(info.total_memory, r) as u64),
        _ => Readout::Percent(r),
    }
}

/// The readout of knob `k` in state `v`. The log bandwidth is shown as
/// stored, capped at the benchmarked bandwidth.
pub open spec fn knob_readout(v: StateView, k: Knob, info: SystemInfo) -> Readout {
    match k {
        Knob::Hashd(w, HashdKnob::LogBps) => Readout::Bytes(
            min_spec(hashd_of(v, w).log_bps, info.wbps),
        ),
        _ => denorm(k, knob_ratio(v, k, info), info),
    }
}

pub open spec fn knob_view(v: StateView, k: Knob, info: SystemInfo) -> KnobView {
    KnobView { ratio: knob_ratio(v, k, info), readout: knob_readout(v, k, info) }
}

/// Whether switch `sw` shows as on in `cs`.
pub fn switch_value(sw: &Switch, cs: &CmdState) -> (r: bool)
    requires
        cs.wf(),
    ensures
        r == switch_on(cs@, *sw),
{
    match sw {
        Switch::BenchHashd => cs.bench_hashd_next > cs.bench_hashd_cur,
        Switch::BenchHashdLoop => cs.bench_hashd_next == u64::MAX,
        Switch::BenchIoCost => cs.bench_iocost_next > cs.bench_iocost_cur,
        Switch::BenchNeeded => cs.bench_hashd_cur == 0 || cs.bench_iocost_cur == 0,
        Switch::Hashd(Workload::A) => cs.hashd_a.active,
        Switch::Hashd(Workload::B) => cs.hashd_b.active,
        Switch::Sideload(tag, _) => cs.sideloads.contains(tag),
        Switch::Sysload(tag, _) => cs.sysloads.contains(tag),
        Switch::CpuResCtl => cs.cpu,
        Switch::MemResCtl => cs.mem,
        Switch::IoResCtl => cs.io,
        Switch::Oomd => cs.oomd,
        Switch::OomdWorkMemPressure => cs.oomd_work_mempress,
        Switch::OomdWorkSenpai => cs.oomd_work_senpai,
        Switch::OomdSysMemPressure => cs.oomd_sys_mempress,
        Switch::OomdSysSenpai => cs.oomd_sys_senpai,
    }
}

/// A workload's memory ratio: its own, or else the benchmarked one.
pub fn hmem_ratio(knob: Option<u64>, info: &SystemInfo) -> (r: u64)
    ensures
        r == match knob {
            Some(v) => v,
            None => info.hashd_mem_frac,
        },
{
    match knob {
        Some(v) => v,
        None => info.hashd_mem_frac,
    }
}

/// A workload's file address spread, capped at one.
pub fn hashd_cmd_file_addr_stdev(hashd: &HashdCmd, info: &SystemInfo) -> (r: u64)
    ensures
        r == hashd_knob_raw(*hashd, HashdKnob::FileAddrStdev, *info),
{
    match hashd.file_addr_stdev {
        Some(v) => if v < RATIO_ONE {
            v
        } else {
            RATIO_ONE
        },
        None => info.dfl_file_addr_stdev,
    }
}

/// A workload's anonymous-memory address spread, capped at one.
pub fn hashd_cmd_anon_addr_stdev(hashd: &HashdCmd, info: &SystemInfo) -> (r: u64)
    ensures
        r == hashd_knob_raw(*hashd, HashdKnob::AnonAddrStdev, *info),
{
    match hashd.anon_addr_stdev {
        Some(v) => if v < RATIO_ONE {
            v
        } else {
            RATIO_ONE
        },
        None => info.dfl_anon_addr_stdev,
    }
}

fn hashd_knob_ratio(h: &HashdCmd, k: HashdKnob, info: &SystemInfo) -> (r: u64)
    ensures
        r == (if hashd_knob_raw(*h, k, *info) > RATIO_ONE {
            RATIO_ONE as int
        } else {
            hashd_knob_raw(*h, k, *info)
        }),
{
    let raw: u64 = match k {
        HashdKnob::Load => h.rps_target_ratio,
        HashdKnob::LatTargetPct => h.lat_target_pct,
        HashdKnob::LatTarget => h.lat_target,
        HashdKnob::Mem => hmem_ratio(h.mem_ratio, info),
        HashdKnob::FileAddrStdev => hashd_cmd_file_addr_stdev(h, info),
        HashdKnob::AnonAddrStdev => hashd_cmd_anon_addr_stdev(h, info),
        HashdKnob::File => h.file_ratio,
        HashdKnob::FileMax => h.file_max_ratio,
        HashdKnob::LogBps => {
            let q = ratio_of(h.log_bps, info.wbps);
            if q > RATIO_ONE as u128 {
                RATIO_ONE
            } else {
                q as u64
            }
        },
        HashdKnob::Weight => h.weight,
    };
    clamp_ratio(raw)
}

/// Ratio `r` of knob `k` in engineering units.
pub fn format_knob_val(k: Knob, r: u64, info: &SystemInfo) -> (res: Readout)
    requires
        r <= RATIO_ONE,
    ensures
        res == denorm(k, r, *info),
{
    match k {
        Knob::Hashd(_, HashdKnob::LatTarget) => Readout::Millis(scale(1000, r)),
        Knob::Hashd(_, HashdKnob::Mem) => Readout::Bytes(scale(info.hashd_mem_size, r)),
        Knob::Hashd(_, HashdKnob::LogBps) => Readout::Bytes(scale(info.wbps, r)),
        Knob::MemMargin | Knob::Balloon => Readout::Bytes(scale(info.total_memory, r)),
        _ => Readout::Percent(r),
    }
}

/// What the widgets of knob `k` show in `cs`.
pub fn refresh_one_knob(k: Knob, cs: &CmdState, info: &SystemInfo) -> (r: KnobView)
    requires
        cs.wf(),
    ensures
        r == knob_view(cs@, k, *info),
{
    let ratio = match k {
        Knob::Hashd(Workload::A, hk) => hashd_knob_ratio(&cs.hashd_a, hk, info),
        Knob::Hashd(Workload::B, hk) => hashd_knob_ratio(&cs.hashd_b, hk, info),
        Knob::SysCpuRatio => clamp_ratio(cs.sys_cpu_ratio),
        Knob::SysIoRatio => clamp_ratio(cs.sys_io_ratio),
        Knob::MemMargin => clamp_ratio(cs.mem_margin),
        Knob::Balloon => clamp_ratio(cs.balloon_ratio),
        Knob::CpuHeadroom => clamp_ratio(cs.cpu_headroom),
    };
    let readout = match k {
        Knob::Hashd(w, HashdKnob::LogBps) => {
            let b = match w {
                Workload::A => cs.hashd_a.log_bps,
                Workload::B => cs.hashd_b.log_bps,
            };
            Readout::Bytes(
                if b < info.wbps {
                    b
                } else {
                    info.wbps
                },
            )
        },
        _ => format_knob_val(k, ratio, info),
    };
    KnobView { ratio, readout }
}

/// The checked state of each switch of `doc`, in the order of `doc.toggles`.
pub fn refresh_toggles(doc: &Document, cs: &CmdState) -> (r: Vec<bool>)
    requires
        cs.wf(),
    ensures
        r@.len() == doc.toggles@.len(),
        forall|i: int| 0 <= i < r@.len() ==> r@[i] == switch_on(cs@, #[trigger] doc.toggles@[i]),
{
    let mut r: Vec<bool> = Vec::new();
    let mut i: usize = 0;
    while i < doc.toggles.len()
        invariant
            cs.wf(),
            i <= doc.toggles@.len(),
            r@.len() == i,
            forall|j: int| 0 <= j < i ==> r@[j] == switch_on(cs@, #[trigger] doc.toggles@[j]),
        decreases doc.toggles@.len() - i,
    {
        r.push(switch_value(&doc.toggles[i], cs));
        i = i + 1;
    }
    r
}

/// What the widgets of each knob of `doc` show, in the order of `doc.knobs`.
pub fn refresh_knobs(doc: &Document, cs: &CmdState, info: &SystemInfo) -> (r: Vec<KnobView>)
    requires
        cs.wf(),
    ensures
        r@.len() == doc.knobs@.len(),
        forall|i: int|
            0 <= i < r@.len() ==> r@[i] == knob_view(cs@, #[trigger] doc.knobs@[i], *info),
{
    let mut r: Vec<KnobView> = Vec::new();
    let mut i: usize = 0;
    while i < doc.knobs.len()
        invariant
            cs.wf(),
            i <= doc.knobs@.len(),
            r@.len() == i,
            forall|j: int|
                0 <= j < i ==> r@[j] == knob_view(cs@, #[trigger] doc.knobs@[j], *info),
        decreases doc.knobs@.len() - i,
    {
        r.push(refresh_one_knob(doc.knobs[i], cs, info));
        i = i + 1;
    }
    r
}

/// Brings the widgets of `doc` up to date with `cs`: whether each switch
/// is checked, and what each knob shows.
pub fn refresh_cur_doc(doc: &Document, cs: &CmdState, info: &SystemInfo) -> (r: (Vec<bool>, Vec<KnobView>))
    requires
        cs.wf(),
    ensures
        r.0@.len() == doc.toggles@.len(),
        forall|i: int| 0 <= i < r.0@.len() ==> r.0@[i] == switch_on(cs@, #[trigger] doc.toggles@[i]),
        r.1@.len() == doc.knobs@.len(),
        forall|i: int|
            0 <= i < r.1@.len() ==> r.1@[i] == knob_view(cs@, #[trigger] doc.knobs@[i], *info),
{
    (refresh_toggles(doc, cs), refresh_knobs(doc, cs, info))
}

} // verus!
