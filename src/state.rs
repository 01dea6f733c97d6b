use vstd::prelude::*;
use crate::instances::Instances;
use crate::model::{HashdKnob, Knob, Reset, Switch, Workload};
use crate::ratio::{scale, scale_spec, RATIO_ONE};

verus! {

/// The parameters of one load-generating workload. Ratios are in millionths
/// (see `RATIO_ONE`); `lat_target` is a latency in microseconds.
#[derive(Clone, Copy, Debug, PartialEq, Eq)]
pub struct HashdCmd {
    pub active: bool,
    pub rps_target_ratio: u64,
    pub lat_target_pct: u64,
    pub lat_target: u64,
    /// `None` follows the benchmarked memory fraction.
    pub mem_ratio: Option<u64>,
    /// `None` follows the workload's own default.
    pub file_addr_stdev: Option<u64>,
    /// `None` follows the workload's own default.
    pub anon_addr_stdev: Option<u64>,
    pub file_ratio: u64,
    pub file_max_ratio: u64,
    /// Log write bandwidth, bytes per second.
    pub log_bps: u64,
    pub weight: u64,
}

/// The defaults that the reset policies restore.
#[derive(Clone, Copy, Debug)]
pub struct Defaults {
    /// Workload tunables; the activity flag in it is not used.
    pub hashd: HashdCmd,
    pub sys_cpu_ratio: u64,
    pub sys_io_ratio: u64,
    /// Memory margin as a ratio of total memory.
    pub mem_margin: u64,
    pub balloon_ratio: u64,
    pub cpu_headroom: u64,
}

/// The configuration that the control agent is asked to enforce.
#[derive(Clone, Debug, PartialEq, Eq)]
pub struct CmdState {
    /// Requested and completed benchmark sequence numbers; `next > cur` means
    /// a run is pending, `next == u64::MAX` means benchmarking loops.
    pub bench_hashd_next: u64,
    pub bench_hashd_cur: u64,
    pub bench_iocost_next: u64,
    pub bench_iocost_cur: u64,
    pub hashd_a: HashdCmd,
    pub hashd_b: HashdCmd,
    pub sideloads: Instances,
    pub sysloads: Instances,
    pub cpu: bool,
    pub mem: bool,
    pub io: bool,
    pub oomd: bool,
    pub oomd_work_mempress: bool,
    pub oomd_work_senpai: bool,
    pub oomd_sys_mempress: bool,
    pub oomd_sys_senpai: bool,
    pub sys_cpu_ratio: u64,
    pub sys_io_ratio: u64,
    pub mem_margin: u64,
    pub balloon_ratio: u64,
    pub cpu_headroom: u64,
}

/// `CmdState` with the instance sets seen as maps from tag to instance id.
pub struct StateView {
    pub bench_hashd_next: u64,
    pub bench_hashd_cur: u64,
    pub bench_iocost_next: u64,
    pub bench_iocost_cur: u64,
    pub hashd_a: HashdCmd,
    pub hashd_b: HashdCmd,
    pub sideloads: Map<Seq<char>, Seq<char>>,
    pub sysloads: Map<Seq<char>, Seq<char>>,
    pub cpu: bool,
    pub mem: bool,
    pub io: bool,
    pub oomd: bool,
    pub oomd_work_mempress: bool,
    pub oomd_work_senpai: bool,
    pub oomd_sys_mempress: bool,
    pub oomd_sys_senpai: bool,
    pub sys_cpu_ratio: u64,
    pub sys_io_ratio: u64,
    pub mem_margin: u64,
    pub balloon_ratio: u64,
    pub cpu_headroom: u64,
}

impl View for CmdState {
    type V = StateView;

    open spec fn view(&self) -> StateView {
        StateView {
            bench_hashd_next: self.bench_hashd_next,
            bench_hashd_cur: self.bench_hashd_cur,
            bench_iocost_next: self.bench_iocost_next,
            bench_iocost_cur: self.bench_iocost_cur,
            hashd_a: self.hashd_a,
            hashd_b: self.hashd_b,
            sideloads: self.sideloads@,
            sysloads: self.sysloads@,
            cpu: self.cpu,
            mem: self.mem,
            io: self.io,
            oomd: self.oomd,
            oomd_work_mempress: self.oomd_work_mempress,
            oomd_work_senpai: self.oomd_work_senpai,
            oomd_sys_mempress: self.oomd_sys_mempress,
            oomd_sys_senpai: self.oomd_sys_senpai,
            sys_cpu_ratio: self.sys_cpu_ratio,
            sys_io_ratio: self.sys_io_ratio,
            mem_margin: self.mem_margin,
            balloon_ratio: self.balloon_ratio,
            cpu_headroom: self.cpu_headroom,
        }
    }
}

pub open spec fn hashd_of(v: StateView, w: Workload) -> HashdCmd {
    match w {
        Workload::A => v.hashd_a,
        Workload::B => v.hashd_b,
    }
}

pub open spec fn with_hashd(v: StateView, w: Workload, h: HashdCmd) -> StateView {
    match w {
        Workload::A => StateView { hashd_a: h, ..v },
        Workload::B => StateView { hashd_b: h, ..v },
    }
}

/// The sequence number that requests one more benchmark run after `cur`.
pub open spec fn next_seq(cur: u64) -> u64 {
    if cur < u64::MAX {
        (cur + 1) as u64
    } else {
        cur
    }
}

/// The state after switch `sw` is turned on (`on`) or off.
pub open spec fn apply_switch(v: StateView, sw: Switch, on: bool) -> StateView {
    match sw {
        Switch::BenchHashd => StateView {
            bench_hashd_next: if on {
                next_seq(v.bench_hashd_cur)
            } else {
                v.bench_hashd_cur
            },
            ..v
        },
        Switch::BenchHashdLoop => StateView {
            bench_hashd_next: if on {
                u64::MAX
            } else {
                v.bench_hashd_cur
            },
            ..v
        },
        Switch::BenchIoCost => StateView {
            bench_iocost_next: if on {
                next_seq(v.bench_iocost_cur)
            } else {
                v.bench_iocost_cur
            },
            ..v
        },
        Switch::BenchNeeded => StateView {
            bench_hashd_next: if v.bench_hashd_cur == 0 {
                1
            } else {
                v.bench_hashd_next
            },
            bench_iocost_next: if v.bench_iocost_cur == 0 {
                1
            } else {
                v.bench_iocost_next
            },
            ..v
        },
        Switch::Hashd(w) => with_hashd(v, w, HashdCmd { active: on, ..hashd_of(v, w) }),
        Switch::Sideload(tag, id) => StateView {
            sideloads: if on {
                v.sideloads.insert(tag@, id@)
            } else {
                v.sideloads.remove(tag@)
            },
            ..v
        },
        Switch::Sysload(tag, id) => StateView {
            sysloads: if on {
                v.sysloads.insert(tag@, id@)
            } else {
                v.sysloads.remove(tag@)
            },
            ..v
        },
        Switch::CpuResCtl => StateView { cpu: on, ..v },
        Switch::MemResCtl => StateView { mem: on, ..v },
        Switch::IoResCtl => StateView { io: on, ..v },
        Switch::Oomd => StateView { oomd: on, ..v },
        Switch::OomdWorkMemPressure => StateView { oomd_work_mempress: on, ..v },
        Switch::OomdWorkSenpai => StateView { oomd_work_senpai: on, ..v },
        Switch::OomdSysMemPressure => StateView { oomd_sys_mempress: on, ..v },
        Switch::OomdSysSenpai => StateView { oomd_sys_senpai: on, ..v },
    }
}

/// What an address-spread knob stores for ratio `r`: the ratio itself below
/// one, and a spread wide enough to be uniform at one.
pub open spec fn stdev_value(r: u64) -> u64 {
    if r < RATIO_ONE {
        r
    } else {
        (100 * RATIO_ONE) as u64
    }
}

/// Workload parameters after knob `k` is set to ratio `r`; `wbps` is the
/// benchmarked write bandwidth that the log knob is a ratio of.
pub open spec fn hashd_with_knob(h: HashdCmd, k: HashdKnob, r: u64, wbps: u64) -> HashdCmd {
    match k {
        HashdKnob::Load => HashdCmd { rps_target_ratio: r, ..h },
        HashdKnob::LatTargetPct => HashdCmd { lat_target_pct: r, ..h },
        HashdKnob::LatTarget => HashdCmd { lat_target: r, ..h },
        HashdKnob::Mem => HashdCmd { mem_ratio: Some(r), ..h },
        HashdKnob::FileAddrStdev => HashdCmd { file_addr_stdev: Some(stdev_value(r)), ..h },
        HashdKnob::AnonAddrStdev => HashdCmd { anon_addr_stdev: Some(stdev_value(r)), ..h },
        HashdKnob::File => HashdCmd { file_ratio: r, ..h },
        HashdKnob::FileMax => HashdCmd { file_max_ratio: r, ..h },
        HashdKnob::LogBps => HashdCmd { log_bps: scale_spec(wbps, r) as u64, ..h },
        HashdKnob::Weight => HashdCmd { weight: r, ..h },
    }
}

/// The state after knob `k` is set to ratio `r`.
pub open spec fn apply_knob(v: StateView, k: Knob, r: u64, wbps: u64) -> StateView {
    match k {
        Knob::Hashd(w, hk) => with_hashd(v, w, hashd_with_knob(hashd_of(v, w), hk, r, wbps)),
        Knob::SysCpuRatio => StateView { sys_cpu_ratio: r, ..v },
        Knob::SysIoRatio => StateView { sys_io_ratio: r, ..v },
        Knob::MemMargin => StateView { mem_margin: r, ..v },
        Knob::Balloon => StateView { balloon_ratio: r, ..v },
        Knob::CpuHeadroom => StateView { cpu_headroom: r, ..v },
    }
}

pub open spec fn reset_benches(v: StateView) -> StateView {
    StateView {
        bench_hashd_next: v.bench_hashd_cur,
        bench_iocost_next: v.bench_iocost_cur,
        ..v
    }
}

pub open spec fn reset_hashds(v: StateView) -> StateView {
    StateView {
        hashd_a: HashdCmd { active: false, ..v.hashd_a },
        hashd_b: HashdCmd { active: false, ..v.hashd_b },
        ..v
    }
}

pub open spec fn reset_hashd_params(v: StateView, d: Defaults) -> StateView {
    StateView {
        hashd_a: HashdCmd { active: v.hashd_a.active, ..d.hashd },
        hashd_b: HashdCmd { active: v.hashd_b.active, ..d.hashd },
        ..v
    }
}

pub open spec fn reset_secondaries(v: StateView) -> StateView {
    StateView { sideloads: Map::empty(), sysloads: Map::empty(), ..v }
}

pub open spec fn reset_resctl(v: StateView) -> StateView {
    StateView { cpu: true, mem: true, io: true, ..v }
}

pub open spec fn reset_resctl_params(v: StateView, d: Defaults) -> StateView {
    StateView {
        sys_cpu_ratio: d.sys_cpu_ratio,
        sys_io_ratio: d.sys_io_ratio,
        mem_margin: d.mem_margin,
        balloon_ratio: d.balloon_ratio,
        cpu_headroom: d.cpu_headroom,
        ..v
    }
}

pub open spec fn reset_oomd(v: StateView) -> StateView {
    StateView {
        oomd: true,
        oomd_work_mempress: true,
        oomd_work_senpai: false,
        oomd_sys_mempress: true,
        oomd_sys_senpai: false,
        ..v
    }
}

pub open spec fn reset_all(v: StateView) -> StateView {
    reset_oomd(reset_resctl(reset_secondaries(reset_hashds(reset_benches(v)))))
}

/// The state after reset policy `p`.
pub open spec fn apply_reset(v: StateView, p: Reset, d: Defaults) -> StateView {
    match p {
        Reset::Benches => reset_benches(v),
        Reset::Hashds => reset_hashds(v),
        Reset::HashdParams => reset_hashd_params(v, d),
        Reset::Sideloads => StateView { sideloads: Map::empty(), ..v },
        Reset::Sysloads => StateView { sysloads: Map::empty(), ..v },
        Reset::ResCtl => reset_resctl(v),
        Reset::ResCtlParams => reset_resctl_params(v, d),
        Reset::Oomd => reset_oomd(v),
        Reset::Graph => v,
        Reset::Secondaries => reset_secondaries(v),
        Reset::AllWorkloads => reset_secondaries(reset_hashds(v)),
        Reset::Protections => reset_oomd(reset_resctl(v)),
        Reset::All => reset_all(v),
        Reset::Params => reset_resctl_params(reset_hashd_params(v, d), d),
        Reset::AllWithParams => reset_resctl_params(reset_hashd_params(reset_all(v), d), d),
        Reset::Prep => reset_resctl_params(
            reset_hashd_params(reset_oomd(reset_resctl(reset_secondaries(v))), d),
            d,
        ),
    }
}

/// Whether reset policy `p` also clears the graph view.
pub open spec fn reset_clears_graph(p: Reset) -> bool {
    match p {
        Reset::Graph | Reset::All | Reset::AllWithParams | Reset::Prep => true,
        _ => false,
    }
}

pub fn reset_clears_graph_exec(p: Reset) -> (r: bool)
    ensures
        r == reset_clears_graph(p),
{
    match p {
        Reset::Graph | Reset::All | Reset::AllWithParams | Reset::Prep => true,
        _ => false,
    }
}

fn next_seq_exec(cur: u64) -> (r: u64)
    ensures
        r == next_seq(cur),
{
    if cur < u64::MAX {
        cur + 1
    } else {
        cur
    }
}

fn stdev_value_exec(r: u64) -> (res: u64)
    ensures
        res == stdev_value(r),
{
    if r < RATIO_ONE {
        r
    } else {
        100 * RATIO_ONE
    }
}

/// Workload parameters with knob `k` set to ratio `r`.
pub fn set_hashd_knob(h: HashdCmd, k: HashdKnob, r: u64, wbps: u64) -> (res: HashdCmd)
    requires
        r <= RATIO_ONE,
    ensures
        res == hashd_with_knob(h, k, r, wbps),
{
    match k {
        HashdKnob::Load => HashdCmd { rps_target_ratio: r, ..h },
        HashdKnob::LatTargetPct => HashdCmd { lat_target_pct: r, ..h },
        HashdKnob::LatTarget => HashdCmd { lat_target: r, ..h },
        HashdKnob::Mem => HashdCmd { mem_ratio: Some(r), ..h },
        HashdKnob::FileAddrStdev => HashdCmd { file_addr_stdev: Some(stdev_value_exec(r)), ..h },
        HashdKnob::AnonAddrStdev => HashdCmd { anon_addr_stdev: Some(stdev_value_exec(r)), ..h },
        HashdKnob::File => HashdCmd { file_ratio: r, ..h },
        HashdKnob::FileMax => HashdCmd { file_max_ratio: r, ..h },
        HashdKnob::LogBps => HashdCmd { log_bps: scale(wbps, r), ..h },
        HashdKnob::Weight => HashdCmd { weight: r, ..h },
    }
}

impl CmdState {
    pub open spec fn wf(&self) -> bool {
        self.sideloads.wf() && self.sysloads.wf()
    }

    /// A copy of the state, as submitted to the agent.
    pub fn snapshot(&self) -> (r: CmdState)
        requires
            self.wf(),
        ensures
            r.wf(),
            r@ == self@,
    {
        CmdState {
            bench_hashd_next: self.bench_hashd_next,
            bench_hashd_cur: self.bench_hashd_cur,
            bench_iocost_next: self.bench_iocost_next,
            bench_iocost_cur: self.bench_iocost_cur,
            hashd_a: self.hashd_a,
            hashd_b: self.hashd_b,
            sideloads: self.sideloads.copy(),
            sysloads: self.sysloads.copy(),
            cpu: self.cpu,
            mem: self.mem,
            io: self.io,
            oomd: self.oomd,
            oomd_work_mempress: self.oomd_work_mempress,
            oomd_work_senpai: self.oomd_work_senpai,
            oomd_sys_mempress: self.oomd_sys_mempress,
            oomd_sys_senpai: self.oomd_sys_senpai,
            sys_cpu_ratio: self.sys_cpu_ratio,
            sys_io_ratio: self.sys_io_ratio,
            mem_margin: self.mem_margin,
            balloon_ratio: self.balloon_ratio,
            cpu_headroom: self.cpu_headroom,
        }
    }

    fn set_hashd(&mut self, w: Workload, h: HashdCmd)
        requires
            old(self).wf(),
        ensures
            final(self).wf(),
            final(self)@ == with_hashd(old(self)@, w, h),
    {
        match w {
            Workload::A => self.hashd_a = h,
            Workload::B => self.hashd_b = h,
        }
    }

    fn hashd(&self, w: Workload) -> (h: HashdCmd)
        ensures
            h == hashd_of(self@, w),
    {
        match w {
            Workload::A => self.hashd_a,
            Workload::B => self.hashd_b,
        }
    }

    /// Turns switch `sw` on or off.
    #[verifier::rlimit(50)]
    pub fn set_switch(&mut self, sw: &Switch, on: bool)
        requires
            old(self).wf(),
        ensures
            final(self).wf(),
            final(self)@ == apply_switch(old(self)@, *sw, on),
    {
        match sw {
            Switch::BenchHashd => {
                self.bench_hashd_next = if on {
                    next_seq_exec(self.bench_hashd_cur)
                } else {
                    self.bench_hashd_cur
                };
            },
            Switch::BenchHashdLoop => {
                self.bench_hashd_next = if on {
                    u64::MAX
                } else {
                    self.bench_hashd_cur
                };
            },
            Switch::BenchIoCost => {
                self.bench_iocost_next = if on {
                    next_seq_exec(self.bench_iocost_cur)
                } else {
                    self.bench_iocost_cur
                };
            },
            Switch::BenchNeeded => {
                if self.bench_hashd_cur == 0 {
                    self.bench_hashd_next = 1;
                }
                if self.bench_iocost_cur == 0 {
                    self.bench_iocost_next = 1;
                }
            },
            Switch::Hashd(w) => {
                let h = self.hashd(*w);
                self.set_hashd(*w, HashdCmd { active: on, ..h });
            },
            Switch::Sideload(tag, id) => {
                if on {
                    self.sideloads.set(tag.clone(), id.clone());
                } else {
                    self.sideloads.remove(tag);
                }
            },
            Switch::Sysload(tag, id) => {
                if on {
                    self.sysloads.set(tag.clone(), id.clone());
                } else {
                    self.sysloads.remove(tag);
                }
            },
            Switch::CpuResCtl => self.cpu = on,
            Switch::MemResCtl => self.mem = on,
            Switch::IoResCtl => self.io = on,
            Switch::Oomd => self.oomd = on,
            Switch::OomdWorkMemPressure => self.oomd_work_mempress = on,
            Switch::OomdWorkSenpai => self.oomd_work_senpai = on,
            Switch::OomdSysMemPressure => self.oomd_sys_mempress = on,
            Switch::OomdSysSenpai => self.oomd_sys_senpai = on,
        }
    }

    /// Sets knob `k` to ratio `r`; `wbps` is the benchmarked write bandwidth.
    pub fn set_knob(&mut self, k: Knob, r: u64, wbps: u64)
        requires
            old(self).wf(),
            r <= RATIO_ONE,
        ensures
            final(self).wf(),
            final(self)@ == apply_knob(old(self)@, k, r, wbps),
    {
        match k {
            Knob::Hashd(w, hk) => {
                let h = self.hashd(w);
                self.set_hashd(w, set_hashd_knob(h, hk, r, wbps));
            },
            Knob::SysCpuRatio => self.sys_cpu_ratio = r,
            Knob::SysIoRatio => self.sys_io_ratio = r,
            Knob::MemMargin => self.mem_margin = r,
            Knob::Balloon => self.balloon_ratio = r,
            Knob::CpuHeadroom => self.cpu_headroom = r,
        }
    }

    fn reset_benches(&mut self)
        requires
            old(self).wf(),
        ensures
            final(self).wf(),
            final(self)@ == reset_benches(old(self)@),
    {
        self.bench_hashd_next = self.bench_hashd_cur;
        self.bench_iocost_next = self.bench_iocost_cur;
    }

    fn reset_hashds(&mut self)
        requires
            old(self).wf(),
        ensures
            final(self).wf(),
            final(self)@ == reset_hashds(old(self)@),
    {
        self.hashd_a.active = false;
        self.hashd_b.active = false;
    }

    fn reset_hashd_params(&mut self, d: &Defaults)
        requires
            old(self).wf(),
        ensures
            final(self).wf(),
            final(self)@ == reset_hashd_params(old(self)@, *d),
    {
        self.hashd_a = HashdCmd { active: self.hashd_a.active, ..d.hashd };
        self.hashd_b = HashdCmd { active: self.hashd_b.active, ..d.hashd };
    }

    fn reset_secondaries(&mut self)
        requires
            old(self).wf(),
        ensures
            final(self).wf(),
            final(self)@ == reset_secondaries(old(self)@),
    {
        self.sideloads.clear();
        self.sysloads.clear();
    }

    fn reset_resctl(&mut self)
        requires
            old(self).wf(),
        ensures
            final(self).wf(),
            final(self)@ == reset_resctl(old(self)@),
    {
        self.cpu = true;
        self.mem = true;
        self.io = true;
    }

    fn reset_resctl_params(&mut self, d: &Defaults)
        requires
            old(self).wf(),
        ensures
            final(self).wf(),
            final(self)@ == reset_resctl_params(old(self)@, *d),
    {
        self.sys_cpu_ratio = d.sys_cpu_ratio;
        self.sys_io_ratio = d.sys_io_ratio;
        self.mem_margin = d.mem_margin;
        self.balloon_ratio = d.balloon_ratio;
        self.cpu_headroom = d.cpu_headroom;
    }

    fn reset_oomd(&mut self)
        requires
            old(self).wf(),
        ensures
            final(self).wf(),
            final(self)@ == reset_oomd(old(self)@),
    {
        self.oomd = true;
        self.oomd_work_mempress = true;
        self.oomd_work_senpai = false;
        self.oomd_sys_mempress = true;
        self.oomd_sys_senpai = false;
    }

    fn reset_all(&mut self)
        requires
            old(self).wf(),
        ensures
            final(self).wf(),
            final(self)@ == reset_all(old(self)@),
    {
        self.reset_benches();
        self.reset_hashds();
        self.reset_secondaries();
        self.reset_resctl();
        self.reset_oomd();
    }

    /// Applies reset policy `p`, restoring parameters from `d`. Clearing the
    /// graph view, where the policy asks for it, is the caller's part.
    pub fn reset(&mut self, p: Reset, d: &Defaults)
        requires
            old(self).wf(),
        ensures
            final(self).wf(),
            final(self)@ == apply_reset(old(self)@, p, *d),
    {
        match p {
            Reset::Benches => self.reset_benches(),
            Reset::Hashds => self.reset_hashds(),
            Reset::HashdParams => self.reset_hashd_params(d),
            Reset::Sideloads => self.sideloads.clear(),
            Reset::Sysloads => self.sysloads.clear(),
            Reset::ResCtl => self.reset_resctl(),
            Reset::ResCtlParams => self.reset_resctl_params(d),
            Reset::Oomd => self.reset_oomd(),
            Reset::Graph => {},
            Reset::Secondaries => self.reset_secondaries(),
            Reset::AllWorkloads => {
                self.reset_hashds();
                self.reset_secondaries();
            },
            Reset::Protections => {
                self.reset_resctl();
                self.reset_oomd();
            },
            Reset::All => self.reset_all(),
            Reset::Params => {
                self.reset_hashd_params(d);
                self.reset_resctl_params(d);
            },
            Reset::AllWithParams => {
                self.reset_all();
                self.reset_hashd_params(d);
                self.reset_resctl_params(d);
            },
            Reset::Prep => {
                self.reset_secondaries();
                self.reset_resctl();
                self.reset_oomd();
                self.reset_hashd_params(d);
                self.reset_resctl_params(d);
            },
        }
    }

    /// Takes in the benchmark runs that the agent reports as completed.
    pub fn refresh(&mut self, hashd_cur: u64, iocost_cur: u64)
        requires
            old(self).wf(),
        ensures
            final(self).wf(),
            final(self)@ == (StateView {
                bench_hashd_cur: hashd_cur,
                bench_iocost_cur: iocost_cur,
                ..old(self)@
            }),
    {
        self.bench_hashd_cur = hashd_cur;
        self.bench_iocost_cur = iocost_cur;
    }
}

} // verus!
