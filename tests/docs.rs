use resctl_doc::corpus::{find_doc, load_docs, Corpus, LoadError};
use resctl_doc::instances::Instances;
use resctl_doc::interp::{Effect, Interp};
use resctl_doc::model::{Command, Document, HashdKnob, Knob, Paragraph, Switch, Workload};
use resctl_doc::nav::{NavError, Navigator};
use resctl_doc::ratio::{scale, slider_slot, RATIO_ONE};
use resctl_doc::reconcile::{
    format_knob_val, refresh_knobs, refresh_toggles, KnobView, Readout, SystemInfo,
};
use resctl_doc::render::{render_cmd, render_doc, slider_range, Block, Widget};
use resctl_doc::state::{CmdState, Defaults, HashdCmd};
use resctl_doc::tags::{format_markup_tags, AgentStatus, TagText};

fn s(x: &str) -> String {
    x.to_string()
}

fn hashd() -> HashdCmd {
    HashdCmd {
        active: false,
        rps_target_ratio: 0,
        lat_target_pct: 0,
        lat_target: 0,
        mem_ratio: None,
        file_addr_stdev: None,
        anon_addr_stdev: None,
        file_ratio: 0,
        file_max_ratio: 0,
        log_bps: 0,
        weight: 0,
    }
}

fn state() -> CmdState {
    CmdState {
        bench_hashd_next: 0,
        bench_hashd_cur: 0,
        bench_iocost_next: 0,
        bench_iocost_cur: 0,
        hashd_a: hashd(),
        hashd_b: hashd(),
        sideloads: Instances::new(),
        sysloads: Instances::new(),
        cpu: true,
        mem: true,
        io: true,
        oomd: true,
        oomd_work_mempress: true,
        oomd_work_senpai: false,
        oomd_sys_mempress: true,
        oomd_sys_senpai: false,
        sys_cpu_ratio: 0,
        sys_io_ratio: 0,
        mem_margin: 0,
        balloon_ratio: 0,
        cpu_headroom: 0,
    }
}

fn defaults() -> Defaults {
    Defaults {
        hashd: hashd(),
        sys_cpu_ratio: 0,
        sys_io_ratio: 0,
        mem_margin: 0,
        balloon_ratio: 0,
        cpu_headroom: 0,
    }
}

fn info() -> SystemInfo {
    SystemInfo {
        wbps: 1000,
        hashd_mem_size: 4000,
        hashd_mem_frac: 600_000,
        total_memory: 8000,
        dfl_file_addr_stdev: 100_000,
        dfl_anon_addr_stdev: 200_000,
    }
}

fn doc(id: &str, pre: Vec<Command>, post: Vec<Command>, body: Vec<Paragraph>) -> Document {
    Document {
        id: s(id),
        desc: s("desc"),
        body,
        pre_cmds: pre,
        post_cmds: post,
        toggles: vec![],
        knobs: vec![],
    }
}

/// Each document enables its own switch on entry and disables it on exit.
fn three_docs() -> Corpus {
    let docs = vec![
        doc("a", vec![Command::On(Switch::CpuResCtl)], vec![Command::Off(Switch::CpuResCtl)], vec![]),
        doc("b", vec![Command::On(Switch::MemResCtl)], vec![Command::Off(Switch::MemResCtl)], vec![]),
        doc("c", vec![Command::On(Switch::IoResCtl)], vec![Command::Off(Switch::IoResCtl)], vec![]),
        doc("index", vec![], vec![], vec![]),
    ];
    load_docs(docs, vec![s("RpsCpu")]).unwrap()
}

fn fresh() -> Interp {
    let mut cs = state();
    cs.cpu = false;
    cs.mem = false;
    cs.io = false;
    Interp::new(cs, defaults(), 1000)
}

#[test]
fn corpus_with_resolving_references_loads() {
    let docs = vec![
        doc("index", vec![], vec![], vec![Paragraph::Prompt(s("go"), Command::Jump(s("next")))]),
        doc("next", vec![Command::Graph(s("RpsCpu"))], vec![], vec![
            Paragraph::Text(None, s("text")),
            Paragraph::Prompt(s("cpu"), Command::Toggle(Switch::CpuResCtl)),
            Paragraph::Prompt(s("load"), Command::Knob(Knob::SysCpuRatio, None)),
        ]),
    ];
    let c = load_docs(docs, vec![s("RpsCpu")]).unwrap();
    assert_eq!(c.docs.len(), 2);
    assert_eq!(find_doc(&c.docs, &s("next")), Some(1));
    assert_eq!(find_doc(&c.docs, &s("none")), None);
}

#[test]
fn dangling_jump_target_is_refused() {
    let docs = vec![doc("index", vec![], vec![], vec![Paragraph::Prompt(s("go"), Command::Jump(s("nowhere")))])];
    assert_eq!(load_docs(docs, vec![]).err(), Some(LoadError::BadCommand(s("index"))));
}

#[test]
fn unknown_graph_tag_is_refused() {
    let docs = vec![doc("index", vec![], vec![Command::Graph(s("Bogus"))], vec![])];
    assert_eq!(load_docs(docs, vec![s("RpsCpu")]).err(), Some(LoadError::BadCommand(s("index"))));
}

#[test]
fn duplicate_ids_are_refused() {
    let docs = vec![doc("a", vec![], vec![], vec![]), doc("a", vec![], vec![], vec![])];
    assert_eq!(load_docs(docs, vec![]).err(), Some(LoadError::DuplicateId(s("a"))));
}

#[test]
fn out_of_place_commands_are_refused() {
    let jump_on_exit = vec![doc("a", vec![], vec![Command::Jump(s("a"))], vec![])];
    assert!(load_docs(jump_on_exit, vec![]).is_err());
    let toggle_on_entry = vec![doc("a", vec![Command::Toggle(Switch::Oomd)], vec![], vec![])];
    assert!(load_docs(toggle_on_entry, vec![]).is_err());
    let big_ratio = vec![doc("a", vec![Command::Knob(Knob::Balloon, Some(RATIO_ONE + 1))], vec![], vec![])];
    assert!(load_docs(big_ratio, vec![]).is_err());
    let nested = vec![doc("a", vec![Command::Group(vec![Command::Jump(s("a"))])], vec![], vec![])];
    assert!(load_docs(nested, vec![]).is_err());
}

#[test]
fn back_twice_returns_to_start_with_empty_history() {
    let c = three_docs();
    let mut nav = Navigator::new();
    let mut it = fresh();
    nav.show_doc(&mut it, &c, &s("a"), true, false).unwrap();
    assert_eq!(nav.cur, Some(0));
    assert!(nav.history.is_empty());
    nav.show_doc(&mut it, &c, &s("b"), true, false).unwrap();
    nav.show_doc(&mut it, &c, &s("c"), true, false).unwrap();
    assert_eq!(nav.history, vec![s("a"), s("b")]);
    let mark = it.effects.len();
    nav.back(&mut it, &c).unwrap();
    nav.back(&mut it, &c).unwrap();
    assert_eq!(nav.cur, Some(0));
    assert!(nav.history.is_empty());
    assert!(it.state.cpu && !it.state.mem && !it.state.io);
    let backward: Vec<Effect> = it.effects[mark..].to_vec();

    let mut nav2 = Navigator::new();
    let mut it2 = fresh();
    for t in ["a", "b", "c"] {
        nav2.show_doc(&mut it2, &c, &s(t), true, false).unwrap();
    }
    let mark2 = it2.effects.len();
    nav2.show_doc(&mut it2, &c, &s("b"), true, false).unwrap();
    nav2.show_doc(&mut it2, &c, &s("a"), true, false).unwrap();
    assert_eq!(backward, it2.effects[mark2..].to_vec());
    assert_eq!(nav2.cur, Some(0));
    assert_eq!(nav2.history.len(), 4);
    assert_eq!(it.state.cpu, it2.state.cpu);
    assert_eq!(it.state.mem, it2.state.mem);
}

#[test]
fn back_with_no_history_does_nothing() {
    let c = three_docs();
    let mut nav = Navigator::new();
    let mut it = fresh();
    assert_eq!(nav.back(&mut it, &c), Ok(()));
    assert_eq!(nav.cur, None);
    assert!(it.effects.is_empty());
}

#[test]
fn post_layout_opens_index_then_redisplays() {
    let c = three_docs();
    let mut nav = Navigator::new();
    let mut it = fresh();
    nav.post_layout(&mut it, &c).unwrap();
    assert_eq!(nav.cur, Some(3));
    assert!(nav.history.is_empty());
    assert_eq!(it.effects, vec![Effect::Reconcile]);
    nav.post_layout(&mut it, &c).unwrap();
    assert_eq!(nav.cur, Some(3));
    assert_eq!(it.effects, vec![Effect::Reconcile, Effect::Reconcile]);
}

#[test]
fn entry_redirect_runs_exits_again_and_records() {
    let docs = vec![
        doc("a", vec![], vec![Command::Off(Switch::Oomd)], vec![]),
        doc("r", vec![Command::On(Switch::CpuResCtl), Command::Jump(s("t")), Command::On(Switch::MemResCtl)], vec![], vec![]),
        doc("t", vec![Command::On(Switch::IoResCtl)], vec![], vec![]),
    ];
    let c = load_docs(docs, vec![]).unwrap();
    let mut nav = Navigator::new();
    let mut it = fresh();
    nav.show_doc(&mut it, &c, &s("a"), true, false).unwrap();
    it.effects.clear();
    nav.show_doc(&mut it, &c, &s("r"), true, true).unwrap();
    assert_eq!(nav.cur, Some(2));
    assert_eq!(nav.history, vec![s("a")]);
    assert!(it.state.cpu && it.state.io && !it.state.mem);
    // exit of a, entry of r up to the redirect, exit of a, entry of t
    assert_eq!(it.effects.len(), 2 + 3 + 2 + 3 + 1);
}

#[test]
fn redirect_loop_is_an_error() {
    let docs = vec![
        doc("x", vec![Command::Jump(s("y"))], vec![], vec![]),
        doc("y", vec![Command::Jump(s("x"))], vec![], vec![]),
    ];
    let c = load_docs(docs, vec![]).unwrap();
    let mut nav = Navigator::new();
    let mut it = fresh();
    assert_eq!(
        nav.show_doc(&mut it, &c, &s("x"), true, false),
        Err(NavError::RedirectLoop(s("x")))
    );
    assert!(it.effects.is_empty());
}

#[test]
fn reconciliation_is_stable() {
    let mut d = doc("a", vec![], vec![], vec![]);
    d.toggles = vec![Switch::Sideload(s("t"), s("ID")), Switch::Hashd(Workload::A), Switch::BenchNeeded];
    d.knobs = vec![Knob::Hashd(Workload::A, HashdKnob::Mem), Knob::SysCpuRatio];
    let mut cs = state();
    cs.sideloads.set(s("t"), s("9"));
    cs.sys_cpu_ratio = 2 * RATIO_ONE;
    let t1 = refresh_toggles(&d, &cs);
    let t2 = refresh_toggles(&d, &cs);
    assert_eq!(t1, vec![true, false, true]);
    assert_eq!(t1, t2);
    let k1 = refresh_knobs(&d, &cs, &info());
    let k2 = refresh_knobs(&d, &cs, &info());
    assert_eq!(k1, k2);
    assert_eq!(k1[0], KnobView { ratio: 600_000, readout: Readout::Bytes(2400) });
    assert_eq!(k1[1], KnobView { ratio: RATIO_ONE, readout: Readout::Percent(RATIO_ONE) });
}

#[test]
fn knob_round_trip_at_quarters() {
    let knobs = [
        Knob::Hashd(Workload::A, HashdKnob::LatTarget),
        Knob::Hashd(Workload::B, HashdKnob::Mem),
        Knob::Hashd(Workload::A, HashdKnob::LogBps),
        Knob::Hashd(Workload::B, HashdKnob::FileAddrStdev),
        Knob::Balloon,
        Knob::CpuHeadroom,
    ];
    for k in knobs {
        for r in [0, 250_000, 500_000, 750_000, RATIO_ONE] {
            let mut it = fresh();
            it.exec_one_cmd(&Command::Knob(k, Some(r)));
            let mut d = doc("a", vec![], vec![], vec![]);
            d.knobs = vec![k];
            let v = refresh_knobs(&d, &it.state, &info());
            assert_eq!(v[0].readout, format_knob_val(k, r, &info()));
        }
    }
    assert_eq!(format_knob_val(Knob::Hashd(Workload::A, HashdKnob::LatTarget), 250_000, &info()), Readout::Millis(250));
    assert_eq!(format_knob_val(Knob::MemMargin, 750_000, &info()), Readout::Bytes(6000));
    assert_eq!(format_knob_val(Knob::Hashd(Workload::A, HashdKnob::LogBps), 500_000, &info()), Readout::Bytes(500));
}

#[test]
fn log_bandwidth_readout_caps_at_benchmark() {
    let mut cs = state();
    cs.hashd_b.log_bps = 5000;
    let mut d = doc("a", vec![], vec![], vec![]);
    d.knobs = vec![Knob::Hashd(Workload::B, HashdKnob::LogBps)];
    let v = refresh_knobs(&d, &cs, &info());
    assert_eq!(v[0], KnobView { ratio: RATIO_ONE, readout: Readout::Bytes(1000) });
    cs.hashd_b.log_bps = 250;
    let v = refresh_knobs(&d, &cs, &info());
    assert_eq!(v[0], KnobView { ratio: 250_000, readout: Readout::Bytes(250) });
}

#[test]
fn enable_and_half_load_end_to_end() {
    let mut it = fresh();
    it.exec_cmd(&Command::Group(vec![
        Command::On(Switch::Hashd(Workload::A)),
        Command::Knob(Knob::Hashd(Workload::A, HashdKnob::Load), Some(RATIO_ONE / 2)),
    ]));
    assert!(it.state.hashd_a.active);
    assert_eq!(it.state.hashd_a.rps_target_ratio, 500_000);
    let mut d = doc("a", vec![], vec![], vec![]);
    d.toggles = vec![Switch::Hashd(Workload::A)];
    d.knobs = vec![Knob::Hashd(Workload::A, HashdKnob::Load)];
    assert_eq!(refresh_toggles(&d, &it.state), vec![true]);
    let k = refresh_knobs(&d, &it.state, &info());
    assert_eq!(k[0].ratio, 500_000);
    assert_eq!(slider_slot(k[0].ratio, 21), 10);
    assert_eq!(slider_slot(k[0].ratio, 20), 10);
}

#[test]
fn default_spreads_and_memory_fraction_show() {
    let mut cs = state();
    cs.hashd_a.file_addr_stdev = Some(100 * RATIO_ONE);
    let mut d = doc("a", vec![], vec![], vec![]);
    d.knobs = vec![
        Knob::Hashd(Workload::A, HashdKnob::FileAddrStdev),
        Knob::Hashd(Workload::A, HashdKnob::AnonAddrStdev),
        Knob::Hashd(Workload::A, HashdKnob::Mem),
    ];
    let v = refresh_knobs(&d, &cs, &info());
    assert_eq!(v[0].ratio, RATIO_ONE);
    assert_eq!(v[1].ratio, 200_000);
    assert_eq!(v[2].ratio, 600_000);
}

fn status() -> AgentStatus {
    AgentStatus {
        sysreqs: vec![s("Cgroup2"), s("Btrfs")],
        satisfied: vec![s("Cgroup2")],
        missed: 1,
        hashd_seq: 0,
        iocost_seq: 2,
        bench_balloon_size: 1 << 30,
        hashd_mem_size: 1000,
        hashd_mem_frac: 500_000,
    }
}

#[test]
fn tags_resolve() {
    let st = status();
    assert_eq!(format_markup_tags("SysReq::Cgroup2", &st), Some(TagText::Req(true)));
    assert_eq!(format_markup_tags("SysReq::Btrfs", &st), Some(TagText::Req(false)));
    assert_eq!(format_markup_tags("SysReq::Nope", &st), Some(TagText::Unknown));
    assert_eq!(format_markup_tags("MissedSysReqs", &st), Some(TagText::Count(1)));
    assert_eq!(format_markup_tags("NeedBenchHashd", &st), Some(TagText::Marker));
    assert_eq!(format_markup_tags("NeedBenchIoCost", &st), None);
    assert_eq!(format_markup_tags("NeedBench", &st), Some(TagText::Marker));
    assert_eq!(format_markup_tags("HaveBench", &st), None);
    assert_eq!(format_markup_tags("BenchBalloonSize", &st), Some(TagText::Size(1 << 30)));
    assert_eq!(format_markup_tags("HashdMemSize", &st), Some(TagText::Size(500)));
    assert_eq!(format_markup_tags("Whatever", &st), Some(TagText::Unknown));
    assert_eq!(format_markup_tags("", &st), Some(TagText::Unknown));
}

#[test]
fn tags_follow_benchmarks_and_misses() {
    let mut st = status();
    st.missed = 0;
    st.hashd_seq = 1;
    assert_eq!(format_markup_tags("MissedSysReqs", &st), None);
    assert_eq!(format_markup_tags("NeedBench", &st), None);
    assert_eq!(format_markup_tags("HaveBench", &st), Some(TagText::Marker));
    assert_eq!(format_markup_tags("NeedBenchHashd", &st), None);
}

#[test]
fn body_layout_spacing() {
    let d = doc("a", vec![], vec![], vec![
        Paragraph::Text(None, s("one")),
        Paragraph::Text(Some(s("  ")), s("")),
        Paragraph::Text(None, s("two")),
        Paragraph::Prompt(s("p"), Command::On(Switch::Oomd)),
        Paragraph::Prompt(s("q"), Command::Jump(s("a"))),
        Paragraph::Text(None, s("three")),
    ]);
    assert_eq!(
        render_doc(&d),
        vec![
            Block::FocusSpacer,
            Block::Text(0),
            Block::FocusSpacer,
            Block::Text(1),
            Block::Spacer,
            Block::Text(2),
            Block::Spacer,
            Block::Prompt(3),
            Block::Prompt(4),
            Block::Spacer,
            Block::Text(5),
        ]
    );
}

#[test]
fn prompt_widgets() {
    assert_eq!(render_cmd(&Command::Toggle(Switch::Oomd), 80, 10), Widget::Checkbox);
    assert_eq!(render_cmd(&Command::Knob(Knob::Balloon, None), 80, 10), Widget::Slider(55));
    assert_eq!(render_cmd(&Command::Knob(Knob::Balloon, Some(1)), 80, 10), Widget::Button);
    assert_eq!(render_cmd(&Command::Jump(s("a")), 80, 10), Widget::Link);
    assert_eq!(render_cmd(&Command::Group(vec![]), 80, 10), Widget::Button);
    assert_eq!(slider_range(20, 10), 5);
    assert_eq!(slider_range(5, 10), 5);
    assert_eq!(slider_range(31, 10), 6);
}

#[test]
fn scaling_rounds_half_up() {
    assert_eq!(scale(3, 500_000), 2);
    assert_eq!(scale(1000, 333_333), 333);
    assert_eq!(scale(u64::MAX, RATIO_ONE), u64::MAX);
    assert_eq!(slider_slot(2 * RATIO_ONE, 11), 10);
    assert_eq!(slider_slot(0, 1), 0);
}

#[test]
fn secondary_tags_are_collected_once() {
    let docs = vec![
        doc(
            "index",
            vec![Command::On(Switch::Sideload(s("a"), s("1")))],
            vec![Command::Group(vec![Command::On(Switch::Sysload(s("s"), s("1")))])],
            vec![
                Paragraph::Prompt(s("t"), Command::Toggle(Switch::Sideload(s("a"), s("2")))),
                Paragraph::Prompt(s("u"), Command::On(Switch::Sideload(s("b"), s("1")))),
                Paragraph::Prompt(s("v"), Command::Off(Switch::Sideload(s("off"), s("1")))),
            ],
        ),
    ];
    let c = load_docs(docs, vec![]).unwrap();
    assert_eq!(c.sideload_names, vec![s("a"), s("b")]);
    assert_eq!(c.sysload_names, vec![s("s")]);
}

#[test]
fn refresh_cur_doc_reports_both() {
    let mut d = doc("a", vec![], vec![], vec![]);
    d.toggles = vec![Switch::Oomd, Switch::OomdSysSenpai];
    d.knobs = vec![Knob::Hashd(Workload::B, HashdKnob::LatTarget)];
    let mut cs = state();
    cs.hashd_b.lat_target = 75_000;
    let (t, k) = resctl_doc::reconcile::refresh_cur_doc(&d, &cs, &info());
    assert_eq!(t, vec![true, false]);
    assert_eq!(k, vec![KnobView { ratio: 75_000, readout: Readout::Millis(75) }]);
}

#[test]
fn memory_size_tag_saturates() {
    let mut st = status();
    st.hashd_mem_size = u64::MAX;
    st.hashd_mem_frac = 2 * RATIO_ONE;
    assert_eq!(format_markup_tags("HashdMemSize", &st), Some(TagText::Size(u64::MAX)));
    st.hashd_mem_size = 3;
    st.hashd_mem_frac = 1_500_000;
    assert_eq!(format_markup_tags("HashdMemSize", &st), Some(TagText::Size(5)));
}
