use resctl_doc::instances::Instances;
use resctl_doc::interp::{Effect, Interp};
use resctl_doc::model::{Command, HashdKnob, Knob, Reset, Switch, Workload};
use resctl_doc::ratio::{slider_ratio, slider_slot, RATIO_ONE};
use resctl_doc::state::{CmdState, Defaults, HashdCmd};

fn hashd(active: bool) -> HashdCmd {
    HashdCmd {
        active,
        rps_target_ratio: 300_000,
        lat_target_pct: 900_000,
        lat_target: 100_000,
        mem_ratio: None,
        file_addr_stdev: None,
        anon_addr_stdev: None,
        file_ratio: 250_000,
        file_max_ratio: 500_000,
        log_bps: 1 << 20,
        weight: 1_000_000,
    }
}

fn defaults() -> Defaults {
    Defaults {
        hashd: hashd(false),
        sys_cpu_ratio: 100_000,
        sys_io_ratio: 100_000,
        mem_margin: 50_000,
        balloon_ratio: 0,
        cpu_headroom: 200_000,
    }
}

fn state() -> CmdState {
    CmdState {
        bench_hashd_next: 3,
        bench_hashd_cur: 2,
        bench_iocost_next: 1,
        bench_iocost_cur: 1,
        hashd_a: hashd(false),
        hashd_b: hashd(false),
        sideloads: Instances::new(),
        sysloads: Instances::new(),
        cpu: false,
        mem: false,
        io: true,
        oomd: false,
        oomd_work_mempress: false,
        oomd_work_senpai: true,
        oomd_sys_mempress: false,
        oomd_sys_senpai: true,
        sys_cpu_ratio: 700_000,
        sys_io_ratio: 700_000,
        mem_margin: 700_000,
        balloon_ratio: 700_000,
        cpu_headroom: 700_000,
    }
}

fn interp() -> Interp {
    Interp::new(state(), defaults(), 4_000_000)
}

fn s(x: &str) -> String {
    x.to_string()
}

#[test]
fn enable_then_disable_leaves_disabled() {
    let mut it = interp();
    it.exec_one_cmd(&Command::On(Switch::CpuResCtl));
    assert!(it.state.cpu);
    it.exec_one_cmd(&Command::Off(Switch::CpuResCtl));
    assert!(!it.state.cpu);
    assert_eq!(kinds(&it.effects), vec!["sync", "apply", "reconcile", "apply", "reconcile"]);
    match (&it.effects[1], &it.effects[3]) {
        (Effect::Apply(first), Effect::Apply(second)) => {
            assert!(first.cpu);
            assert!(!second.cpu);
        }
        _ => panic!("expected submissions"),
    }
}

#[test]
fn disable_then_enable_leaves_enabled() {
    let mut it = interp();
    it.exec_one_cmd(&Command::Off(Switch::Hashd(Workload::B)));
    it.exec_one_cmd(&Command::On(Switch::Hashd(Workload::B)));
    assert!(it.state.hashd_b.active);
    assert!(!it.state.hashd_a.active);
    assert_eq!(it.effects[2], Effect::Sync);
}

#[test]
fn bench_switches() {
    let mut it = interp();
    it.exec_one_cmd(&Command::On(Switch::BenchHashdLoop));
    assert_eq!(it.state.bench_hashd_next, u64::MAX);
    it.exec_one_cmd(&Command::Off(Switch::BenchHashdLoop));
    assert_eq!(it.state.bench_hashd_next, 2);
    it.exec_one_cmd(&Command::On(Switch::BenchHashd));
    assert_eq!(it.state.bench_hashd_next, 3);
    it.exec_one_cmd(&Command::On(Switch::BenchIoCost));
    assert_eq!(it.state.bench_iocost_next, 2);
    it.exec_one_cmd(&Command::Off(Switch::BenchIoCost));
    assert_eq!(it.state.bench_iocost_next, 1);
}

#[test]
fn bench_needed_requests_only_missing_runs() {
    let mut it = interp();
    it.state.bench_hashd_cur = 0;
    it.state.bench_hashd_next = 0;
    it.exec_one_cmd(&Command::On(Switch::BenchNeeded));
    assert_eq!(it.state.bench_hashd_next, 1);
    assert_eq!(it.state.bench_iocost_next, 1);
}

#[test]
fn sideload_reenable_overwrites_id() {
    let mut it = interp();
    it.exec_one_cmd(&Command::On(Switch::Sideload(s("t"), s("1"))));
    it.exec_one_cmd(&Command::On(Switch::Sideload(s("t"), s("2"))));
    assert!(it.state.sideloads.contains(&s("t")));
    it.exec_one_cmd(&Command::Off(Switch::Sideload(s("t"), s("2"))));
    assert!(!it.state.sideloads.contains(&s("t")));
}

#[test]
fn disabling_inactive_sysload_is_noop() {
    let mut it = interp();
    it.exec_one_cmd(&Command::On(Switch::Sysload(s("a"), s("1"))));
    it.exec_one_cmd(&Command::Off(Switch::Sysload(s("b"), s("1"))));
    assert!(it.state.sysloads.contains(&s("a")));
    assert!(!it.state.sysloads.contains(&s("b")));
}

#[test]
fn instances_keep_one_id_per_tag() {
    let mut m = Instances::new();
    m.set(s("t"), s("1"));
    m.set(s("t"), s("2"));
    m.set(s("u"), s("3"));
    m.remove(&s("t"));
    assert!(!m.contains(&s("t")));
    assert!(m.contains(&s("u")));
    m.remove(&s("absent"));
    assert!(m.contains(&s("u")));
    m.clear();
    assert!(!m.contains(&s("u")));
}

#[test]
fn knob_values_are_stored() {
    let mut it = interp();
    it.exec_one_cmd(&Command::Knob(Knob::Hashd(Workload::A, HashdKnob::Load), Some(500_000)));
    assert_eq!(it.state.hashd_a.rps_target_ratio, 500_000);
    it.exec_one_cmd(&Command::Knob(Knob::Hashd(Workload::B, HashdKnob::Mem), Some(250_000)));
    assert_eq!(it.state.hashd_b.mem_ratio, Some(250_000));
    it.exec_one_cmd(&Command::Knob(Knob::Hashd(Workload::A, HashdKnob::LogBps), Some(750_000)));
    assert_eq!(it.state.hashd_a.log_bps, 3_000_000);
    it.exec_one_cmd(&Command::Knob(Knob::Hashd(Workload::A, HashdKnob::FileAddrStdev), Some(RATIO_ONE)));
    assert_eq!(it.state.hashd_a.file_addr_stdev, Some(100 * RATIO_ONE));
    it.exec_one_cmd(&Command::Knob(Knob::Hashd(Workload::A, HashdKnob::AnonAddrStdev), Some(999_999)));
    assert_eq!(it.state.hashd_a.anon_addr_stdev, Some(999_999));
    it.exec_one_cmd(&Command::Knob(Knob::MemMargin, Some(0)));
    assert_eq!(it.state.mem_margin, 0);
    assert_eq!(it.state.hashd_b.rps_target_ratio, 300_000);
}

#[test]
fn log_bandwidth_rounds_to_nearest() {
    let mut it = Interp::new(state(), defaults(), 3);
    it.exec_one_cmd(&Command::Knob(Knob::Hashd(Workload::B, HashdKnob::LogBps), Some(500_000)));
    assert_eq!(it.state.hashd_b.log_bps, 2);
}

#[test]
fn reset_all_with_params_matches_steps() {
    let mut a = interp();
    a.exec_one_cmd(&Command::On(Switch::Hashd(Workload::A)));
    a.exec_one_cmd(&Command::On(Switch::Sideload(s("x"), s("1"))));
    a.exec_one_cmd(&Command::Knob(Knob::Hashd(Workload::A, HashdKnob::Weight), Some(10)));
    a.exec_one_cmd(&Command::Reset(Reset::AllWithParams));

    let mut b = interp();
    b.exec_one_cmd(&Command::On(Switch::Hashd(Workload::A)));
    b.exec_one_cmd(&Command::On(Switch::Sideload(s("x"), s("1"))));
    b.exec_one_cmd(&Command::Knob(Knob::Hashd(Workload::A, HashdKnob::Weight), Some(10)));
    b.exec_one_cmd(&Command::Reset(Reset::All));
    b.exec_one_cmd(&Command::Reset(Reset::HashdParams));
    b.exec_one_cmd(&Command::Reset(Reset::ResCtlParams));

    assert!(!a.state.hashd_a.active && !b.state.hashd_a.active);
    assert_eq!(a.state.hashd_a.weight, b.state.hashd_a.weight);
    assert_eq!(a.state.hashd_a.weight, 1_000_000);
    assert!(!a.state.sideloads.contains(&s("x")));
    assert!(a.state.cpu && a.state.mem && a.state.io);
    assert!(a.state.oomd && a.state.oomd_work_mempress && !a.state.oomd_work_senpai);
    assert!(a.state.oomd_sys_mempress && !a.state.oomd_sys_senpai);
    assert_eq!(a.state.bench_hashd_next, a.state.bench_hashd_cur);
    assert_eq!(a.state.sys_cpu_ratio, 100_000);
    assert_eq!(b.state.sys_cpu_ratio, 100_000);
    assert_eq!(a.state.mem_margin, 50_000);
    assert_eq!(a.state.cpu_headroom, b.state.cpu_headroom);
    assert!(a.effects.contains(&Effect::ClearGraph));
}

#[test]
fn workload_params_reset_keeps_activity() {
    let mut it = interp();
    it.exec_one_cmd(&Command::On(Switch::Hashd(Workload::A)));
    it.exec_one_cmd(&Command::Knob(Knob::Hashd(Workload::A, HashdKnob::File), Some(1)));
    it.exec_one_cmd(&Command::Reset(Reset::HashdParams));
    assert!(it.state.hashd_a.active);
    assert_eq!(it.state.hashd_a.file_ratio, 250_000);
}

#[test]
fn reset_prep_and_protections() {
    let mut it = interp();
    it.exec_one_cmd(&Command::On(Switch::Hashd(Workload::A)));
    it.exec_one_cmd(&Command::Reset(Reset::Prep));
    assert!(it.state.hashd_a.active);
    assert!(it.state.cpu && it.state.oomd);
    assert_eq!(it.state.bench_hashd_next, 3);
    let mut p = interp();
    p.exec_one_cmd(&Command::Reset(Reset::Protections));
    assert!(p.state.cpu && p.state.mem && p.state.oomd && !p.state.oomd_sys_senpai);
    assert!(!p.effects.contains(&Effect::ClearGraph));
}

#[test]
fn graph_commands_show_and_clear() {
    let mut it = interp();
    it.exec_one_cmd(&Command::Graph(s("RpsCpu")));
    it.exec_one_cmd(&Command::Graph(s("")));
    assert_eq!(
        kinds(&it.effects),
        vec!["show RpsCpu", "apply", "reconcile", "clear", "apply", "reconcile"]
    );
}

#[test]
fn group_submits_the_state_after_each_member() {
    let mut it = interp();
    it.exec_cmd(&Command::Group(vec![
        Command::On(Switch::Hashd(Workload::A)),
        Command::Knob(Knob::Hashd(Workload::A, HashdKnob::Load), Some(500_000)),
    ]));
    let applied: Vec<&CmdState> = it
        .effects
        .iter()
        .filter_map(|e| match e {
            Effect::Apply(cs) => Some(cs),
            _ => None,
        })
        .collect();
    assert_eq!(applied.len(), 2);
    assert!(applied[0].hashd_a.active);
    assert_eq!(applied[0].hashd_a.rps_target_ratio, 300_000);
    assert!(applied[1].hashd_a.active);
    assert_eq!(applied[1].hashd_a.rps_target_ratio, 500_000);
}

#[test]
fn group_runs_each_member() {
    let mut it = interp();
    let g = Command::Group(vec![
        Command::On(Switch::Hashd(Workload::A)),
        Command::Knob(Knob::Hashd(Workload::A, HashdKnob::Load), Some(500_000)),
    ]);
    it.exec_cmd(&g);
    assert!(it.state.hashd_a.active);
    assert_eq!(it.state.hashd_a.rps_target_ratio, 500_000);
    assert_eq!(it.effects.len(), 5);
}

#[test]
fn toggle_becomes_enable_or_disable() {
    let mut it = interp();
    let t = Command::Toggle(Switch::IoResCtl);
    it.exec_toggle(&t, false);
    assert!(!it.state.io);
    it.exec_toggle(&t, true);
    assert!(it.state.io);
    assert_eq!(it.effects[2], Effect::Sync);
}

#[test]
fn slider_move_sets_ratio() {
    let mut it = interp();
    let k = Command::Knob(Knob::SysIoRatio, None);
    let r = it.exec_knob(&k, 5, 11);
    assert_eq!(r, 500_000);
    assert_eq!(it.state.sys_io_ratio, 500_000);
    let r = it.exec_knob(&k, 10, 11);
    assert_eq!(r, RATIO_ONE);
    let r = it.exec_knob(&k, 1, 4);
    assert_eq!(r, 333_333);
}

#[test]
fn refresh_takes_completed_runs() {
    let mut cs = state();
    cs.refresh(3, 5);
    assert_eq!(cs.bench_hashd_cur, 3);
    assert_eq!(cs.bench_iocost_cur, 5);
}

fn kinds(effects: &[Effect]) -> Vec<String> {
    effects
        .iter()
        .map(|e| match e {
            Effect::Sync => "sync".to_string(),
            Effect::Apply(_) => "apply".to_string(),
            Effect::ShowGraph(t) => format!("show {}", t),
            Effect::ClearGraph => "clear".to_string(),
            Effect::Reconcile => "reconcile".to_string(),
        })
        .collect()
}

#[test]
fn slider_position_comes_back() {
    let range = RATIO_ONE as usize + 1;
    for val in [0, 1, 2, 499_999, 500_000, range - 2, range - 1] {
        assert_eq!(slider_slot(slider_ratio(val, range), range), val);
    }
    for range in [2usize, 3, 7, 56] {
        for val in 0..range {
            assert_eq!(slider_slot(slider_ratio(val, range), range), val);
        }
    }
    let mut it = interp();
    let k = Command::Knob(Knob::Hashd(Workload::A, HashdKnob::Load), None);
    let r = it.exec_knob(&k, 1, 3_000);
    assert_eq!(slider_slot(r, 3_000), 1);
}
