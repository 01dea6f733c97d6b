use vstd::prelude::*;

verus! {

/// One of the two load-generating workloads.
#[derive(Clone, Copy, Debug, PartialEq, Eq, Structural)]
pub enum Workload {
    A,
    B,
}

/// A boolean control. The two secondary-workload switches carry the tag of the
/// workload and the id of the instance to start.
#[derive(Clone, Debug, PartialEq, Eq)]
pub enum Switch {
    BenchHashd,
    BenchHashdLoop,
    BenchIoCost,
    BenchNeeded,
    Hashd(Workload),
    Sideload(String, String),
    Sysload(String, String),
    CpuResCtl,
    MemResCtl,
    IoResCtl,
    Oomd,
    OomdWorkMemPressure,
    OomdWorkSenpai,
    OomdSysMemPressure,
    OomdSysSenpai,
}

/// A tunable of one workload.
#[derive(Clone, Copy, Debug, PartialEq, Eq, Structural)]
pub enum HashdKnob {
    Load,
    LatTargetPct,
    LatTarget,
    Mem,
    FileAddrStdev,
    AnonAddrStdev,
    File,
    FileMax,
    LogBps,
    Weight,
}

/// A continuous control, set as a ratio in the unit interval.
#[derive(Clone, Copy, Debug, PartialEq, Eq, Structural)]
pub enum Knob {
    Hashd(Workload, HashdKnob),
    SysCpuRatio,
    SysIoRatio,
    MemMargin,
    Balloon,
    CpuHeadroom,
}

/// The reset policies; the composite ones are unions of the simple ones.
#[derive(Clone, Copy, Debug, PartialEq, Eq, Structural)]
pub enum Reset {
    Benches,
    Hashds,
    HashdParams,
    Sideloads,
    Sysloads,
    ResCtl,
    ResCtlParams,
    Oomd,
    Graph,
    Secondaries,
    AllWorkloads,
    Protections,
    All,
    Params,
    AllWithParams,
    Prep,
}

/// A directive of a document.
#[derive(Debug)]
pub enum Command {
    On(Switch),
    Off(Switch),
    /// A checkbox; executed as `On` or `Off` from the box's new state.
    Toggle(Switch),
    /// Sets a knob to a ratio; `None` is a slider that only shows the knob.
    Knob(Knob, Option<u64>),
    /// Shows the named graph; an empty tag clears the graph view.
    Graph(String),
    Reset(Reset),
    /// Moves to another document.
    Jump(String),
    Group(Vec<Command>),
}

/// A paragraph of a document body.
#[derive(Debug)]
pub enum Paragraph {
    /// Narrative text, with an optional indent.
    Text(Option<String>, String),
    /// A prompt label and the directive that it triggers.
    Prompt(String, Command),
}

/// A parsed document.
#[derive(Debug)]
pub struct Document {
    pub id: String,
    pub desc: String,
    pub body: Vec<Paragraph>,
    /// Run on entry, in order; a `Jump` among them redirects.
    pub pre_cmds: Vec<Command>,
    /// Run on exit, in order.
    pub post_cmds: Vec<Command>,
    /// The switches that the document shows.
    pub toggles: Vec<Switch>,
    /// The knobs that the document shows.
    pub knobs: Vec<Knob>,
}

} // verus!
