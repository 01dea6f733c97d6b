use vstd::prelude::*;
use crate::model::{Command, Switch};
use crate::ratio::{slider_ratio, slider_ratio_spec, slider_slot_spec, RATIO_ONE};
use crate::state::{
    apply_knob, apply_reset, apply_switch, reset_clears_graph, reset_clears_graph_exec, CmdState,
    Defaults, StateView,
};

verus! {

/// An outside action that executing a command asks for, in the order asked.
#[derive(Clone, Debug, PartialEq, Eq)]
pub enum Effect {
    /// Wait until the agent has acknowledged the last submitted state.
    Sync,
    /// Submit this state, the one that the command left.
    Apply(CmdState),
    /// Show the named graph.
    ShowGraph(String),
    /// Clear the graph view.
    ClearGraph,
    /// Bring the current document's widgets up to date with the state.
    Reconcile,
}

/// `Effect` with the submitted state and the graph name seen as values.
pub enum EffectView {
    Sync,
    Apply(StateView),
    ShowGraph(Seq<char>),
    ClearGraph,
    Reconcile,
}

impl View for Effect {
    type V = EffectView;

    open spec fn view(&self) -> EffectView {
        match self {
            Effect::Sync => EffectView::Sync,
            Effect::Apply(cs) => EffectView::Apply(cs@),
            Effect::ShowGraph(tag) => EffectView::ShowGraph(tag@),
            Effect::ClearGraph => EffectView::ClearGraph,
            Effect::Reconcile => EffectView::Reconcile,
        }
    }
}

/// A sequence of effects, each seen as its view.
pub open spec fn effects_view(s: Seq<Effect>) -> Seq<EffectView> {
    s.map_values(|e: Effect| e@)
}

proof fn lemma_view_push(s: Seq<Effect>, e: Effect)
    ensures
        effects_view(s.push(e)) == effects_view(s).push(e@),
{
    assert(effects_view(s.push(e)) =~= effects_view(s).push(e@));
}

/// A command that the interpreter executes by itself: not a toggle, a jump,
/// a group or a display-only slider.
pub open spec fn is_direct(c: Command) -> bool {
    match c {
        Command::On(_) | Command::Off(_) | Command::Graph(_) | Command::Reset(_) => true,
        Command::Knob(_, Some(r)) => r <= RATIO_ONE,
        _ => false,
    }
}

/// A command that `exec_cmd` takes: a direct command or a group of them.
pub open spec fn is_executable(c: Command) -> bool {
    match c {
        Command::Group(g) => forall|i: int| 0 <= i < g@.len() ==> is_direct(#[trigger] g@[i]),
        _ => is_direct(c),
    }
}

/// The direct commands that executing `c` runs, in order.
pub open spec fn flatten(c: Command) -> Seq<Command> {
    match c {
        Command::Group(g) => g@,
        _ => seq![c],
    }
}

/// The state after direct command `c`.
pub open spec fn cmd_state(v: StateView, c: Command, wbps: u64, d: Defaults) -> StateView {
    match c {
        Command::On(sw) => apply_switch(v, sw, true),
        Command::Off(sw) => apply_switch(v, sw, false),
        Command::Knob(k, Some(r)) => apply_knob(v, k, r, wbps),
        Command::Reset(p) => apply_reset(v, p, d),
        _ => v,
    }
}

/// The graph effects of direct command `c`.
pub open spec fn graph_effects(c: Command) -> Seq<EffectView> {
    match c {
        Command::Graph(tag) => if tag@.len() > 0 {
            seq![EffectView::ShowGraph(tag@)]
        } else {
            seq![EffectView::ClearGraph]
        },
        Command::Reset(p) => if reset_clears_graph(p) {
            seq![EffectView::ClearGraph]
        } else {
            seq![]
        },
        _ => seq![],
    }
}

/// The effects of direct command `c`, which leaves state `after`: a sync
/// before any enable, the graph effects, then `after` is submitted and the
/// widgets reconciled.
pub open spec fn cmd_effects(c: Command, after: StateView) -> Seq<EffectView> {
    let pre = if c is On {
        seq![EffectView::Sync]
    } else {
        seq![]
    };
    pre + graph_effects(c) + seq![EffectView::Apply(after), EffectView::Reconcile]
}

/// The state after the direct commands `cs`, in order.
pub open spec fn run_state(v: StateView, cs: Seq<Command>, wbps: u64, d: Defaults) -> StateView
    decreases cs.len(),
{
    if cs.len() == 0 {
        v
    } else {
        cmd_state(run_state(v, cs.drop_last(), wbps, d), cs.last(), wbps, d)
    }
}

/// The effects of the direct commands `cs` run from state `v`, in order.
pub open spec fn run_effects(v: StateView, cs: Seq<Command>, wbps: u64, d: Defaults) -> Seq<
    EffectView,
>
    decreases cs.len(),
{
    if cs.len() == 0 {
        seq![]
    } else {
        run_effects(v, cs.drop_last(), wbps, d) + cmd_effects(cs.last(), run_state(v, cs, wbps, d))
    }
}

/// The direct commands that executing each of `cs` in turn runs.
pub open spec fn flat_all(cs: Seq<Command>) -> Seq<Command>
    decreases cs.len(),
{
    if cs.len() == 0 {
        seq![]
    } else {
        flat_all(cs.drop_last()) + flatten(cs.last())
    }
}

/// Running `a + b` is running `a`, then `b`.
pub proof fn lemma_run_concat(v: StateView, a: Seq<Command>, b: Seq<Command>, wbps: u64, d: Defaults)
    ensures
        run_state(v, a + b, wbps, d) == run_state(run_state(v, a, wbps, d), b, wbps, d),
        run_effects(v, a + b, wbps, d) == run_effects(v, a, wbps, d) + run_effects(
            run_state(v, a, wbps, d),
            b,
            wbps,
            d,
        ),
    decreases b.len(),
{
    let va = run_state(v, a, wbps, d);
    if b.len() == 0 {
        assert(a + b =~= a);
        assert(run_effects(v, a, wbps, d) + run_effects(va, b, wbps, d) =~= run_effects(
            v,
            a,
            wbps,
            d,
        ));
    } else {
        lemma_run_concat(v, a, b.drop_last(), wbps, d);
        assert((a + b).drop_last() =~= a + b.drop_last());
        assert((a + b).last() == b.last());
        assert(run_effects(v, a + b, wbps, d) =~= run_effects(v, a, wbps, d) + run_effects(
            va,
            b,
            wbps,
            d,
        ));
    }
}

/// The control state together with what executing commands needs, and the
/// effects asked for so far.
pub struct Interp {
    pub state: CmdState,
    pub defaults: Defaults,
    /// Benchmarked write bandwidth, bytes per second.
    pub wbps: u64,
    pub effects: Vec<Effect>,
}

impl Interp {
    pub open spec fn wf(&self) -> bool {
        self.state.wf()
    }

    /// Same defaults and bandwidth.
    pub open spec fn same_env(&self, o: &Interp) -> bool {
        self.defaults == o.defaults && self.wbps == o.wbps
    }

    pub fn new(state: CmdState, defaults: Defaults, wbps: u64) -> (r: Interp)
        requires
            state.wf(),
        ensures
            r.wf(),
            r.state@ == state@,
            r.defaults == defaults,
            r.wbps == wbps,
            r.effects@ == Seq::<Effect>::empty(),
    {
        Interp { state, defaults, wbps, effects: Vec::new() }
    }

    /// Asks for one more effect.
    pub fn push_effect(&mut self, e: Effect)
        requires
            old(self).wf(),
        ensures
            final(self).wf(),
            final(self).state == old(self).state,
            final(self).same_env(old(self)),
            effects_view(final(self).effects@) == effects_view(old(self).effects@).push(e@),
    {
        proof {
            lemma_view_push(self.effects@, e);
        }
        self.effects.push(e);
    }

    /// Submits the state as it stands and reconciles the widgets.
    fn submit(&mut self)
        requires
            old(self).wf(),
        ensures
            final(self).wf(),
            final(self).state == old(self).state,
            final(self).same_env(old(self)),
            effects_view(final(self).effects@) == effects_view(old(self).effects@) + seq![
                EffectView::Apply(old(self).state@),
                EffectView::Reconcile,
            ],
    {
        let snap = self.state.snapshot();
        self.push_effect(Effect::Apply(snap));
        self.push_effect(Effect::Reconcile);
        proof {
            assert(effects_view(self.effects@) =~= effects_view(old(self).effects@) + seq![
                EffectView::Apply(old(self).state@),
                EffectView::Reconcile,
            ]);
        }
    }

    fn exec_switch(&mut self, sw: &Switch, on: bool)
        requires
            old(self).wf(),
        ensures
            final(self).wf(),
            final(self).same_env(old(self)),
            final(self).state@ == apply_switch(old(self).state@, *sw, on),
            effects_view(final(self).effects@) == effects_view(old(self).effects@) + (if on {
                seq![EffectView::Sync]
            } else {
                seq![]
            }) + seq![EffectView::Apply(final(self).state@), EffectView::Reconcile],
    {
        let ghost e0 = effects_view(self.effects@);
        if on {
            // flush a preceding disable before this enable can overwrite it
            self.push_effect(Effect::Sync);
        }
        let ghost e1 = effects_view(self.effects@);
        self.state.set_switch(sw, on);
        self.submit();
        proof {
            let pre = if on {
                seq![EffectView::Sync]
            } else {
                seq![]
            };
            assert(e1 =~= e0 + pre);
            assert(effects_view(self.effects@) =~= e0 + pre + seq![
                EffectView::Apply(self.state@),
                EffectView::Reconcile,
            ]);
        }
    }

    /// Executes one direct command.
    pub fn exec_one_cmd(&mut self, cmd: &Command)
        requires
            old(self).wf(),
            is_direct(*cmd),
        ensures
            final(self).wf(),
            final(self).same_env(old(self)),
            final(self).state@ == cmd_state(
                old(self).state@,
                *cmd,
                old(self).wbps,
                old(self).defaults,
            ),
            effects_view(final(self).effects@) == effects_view(old(self).effects@) + cmd_effects(
                *cmd,
                final(self).state@,
            ),
    {
        let ghost e0 = effects_view(self.effects@);
        match cmd {
            Command::On(sw) => {
                self.exec_switch(sw, true);
            },
            Command::Off(sw) => {
                self.exec_switch(sw, false);
            },
            Command::Knob(k, Some(r)) => {
                self.state.set_knob(*k, *r, self.wbps);
                self.submit();
            },
            Command::Graph(tag) => {
                if !tag.as_str().is_empty() {
                    self.push_effect(Effect::ShowGraph(tag.clone()));
                } else {
                    self.push_effect(Effect::ClearGraph);
                }
                self.submit();
            },
            Command::Reset(p) => {
                self.state.reset(*p, &self.defaults);
                if reset_clears_graph_exec(*p) {
                    self.push_effect(Effect::ClearGraph);
                }
                self.submit();
            },
            _ => {},
        }
        proof {
            assert(effects_view(self.effects@) =~= e0 + cmd_effects(*cmd, self.state@));
        }
    }

    /// Executes a direct command, or each member of a group in order. A group
    /// is not atomic: each member is submitted on its own.
    pub fn exec_cmd(&mut self, cmd: &Command)
        requires
            old(self).wf(),
            is_executable(*cmd),
        ensures
            final(self).wf(),
            final(self).same_env(old(self)),
            final(self).state@ == run_state(
                old(self).state@,
                flatten(*cmd),
                old(self).wbps,
                old(self).defaults,
            ),
            effects_view(final(self).effects@) == effects_view(old(self).effects@) + run_effects(
                old(self).state@,
                flatten(*cmd),
                old(self).wbps,
                old(self).defaults,
            ),
    {
        let ghost v0 = self.state@;
        let ghost e0 = effects_view(self.effects@);
        match cmd {
            Command::Group(g) => {
                let mut i: usize = 0;
                while i < g.len()
                    invariant
                        self.wf(),
                        self.same_env(old(self)),
                        i <= g@.len(),
                        forall|j: int| 0 <= j < g@.len() ==> is_direct(#[trigger] g@[j]),
                        v0 == old(self).state@,
                        e0 == effects_view(old(self).effects@),
                        self.state@ == run_state(v0, g@.take(i as int), self.wbps, self.defaults),
                        effects_view(self.effects@) == e0 + run_effects(
                            v0,
                            g@.take(i as int),
                            self.wbps,
                            self.defaults,
                        ),
                    decreases g@.len() - i,
                {
                    let ghost i0 = i as int;
                    proof {
                        assert(g@.take(i0 + 1).drop_last() =~= g@.take(i0));
                        assert(g@.take(i0 + 1).last() == g@[i0]);
                    }
                    self.exec_one_cmd(&g[i]);
                    i = i + 1;
                    proof {
                        assert(effects_view(self.effects@) =~= e0 + run_effects(
                            v0,
                            g@.take(i0 + 1),
                            self.wbps,
                            self.defaults,
                        ));
                    }
                }
                proof {
                    assert(g@.take(g@.len() as int) =~= g@);
                }
            },
            _ => {
                self.exec_one_cmd(cmd);
                proof {
                    let s = seq![*cmd];
                    assert(flatten(*cmd) == s);
                    assert(s.drop_last() =~= Seq::<Command>::empty());
                    assert(s.last() == *cmd);
                    assert(run_effects(v0, s.drop_last(), self.wbps, self.defaults)
                        =~= Seq::<EffectView>::empty());
                    assert(run_state(v0, s.drop_last(), self.wbps, self.defaults) == v0);
                    assert(effects_view(self.effects@) =~= e0 + run_effects(
                        v0,
                        s,
                        self.wbps,
                        self.defaults,
                    ));
                }
            },
        }
    }

    /// Executes a checkbox change: `Toggle(sw)` becomes `On(sw)` when the box
    /// is checked and `Off(sw)` when it is cleared.
    pub fn exec_toggle(&mut self, cmd: &Command, val: bool)
        requires
            old(self).wf(),
            cmd is Toggle,
        ensures
            final(self).wf(),
            final(self).same_env(old(self)),
            final(self).state@ == apply_switch(old(self).state@, cmd->Toggle_0, val),
            effects_view(final(self).effects@) == effects_view(old(self).effects@) + cmd_effects(
                if val {
                    Command::On(cmd->Toggle_0)
                } else {
                    Command::Off(cmd->Toggle_0)
                },
                final(self).state@,
            ),
    {
        if let Command::Toggle(sw) = cmd {
            self.exec_switch(sw, val);
            proof {
                let c = if val {
                    Command::On(*sw)
                } else {
                    Command::Off(*sw)
                };
                assert(effects_view(self.effects@) =~= effects_view(old(self).effects@)
                    + cmd_effects(c, self.state@));
            }
        }
    }

    /// Executes a slider move to position `val` of `range`: the knob is set to
    /// `val / (range - 1)`. Returns that ratio, which reconciliation shows at
    /// position `val` again.
    pub fn exec_knob(&mut self, cmd: &Command, val: usize, range: usize) -> (r: u64)
        requires
            old(self).wf(),
            cmd is Knob,
            range >= 2,
            val < range,
            range - 1 <= RATIO_ONE,
        ensures
            final(self).wf(),
            final(self).same_env(old(self)),
            r == slider_ratio_spec(val, range),
            r <= RATIO_ONE,
            slider_slot_spec(r, range) == val,
            final(self).state@ == apply_knob(old(self).state@, cmd->Knob_0, r, old(self).wbps),
            effects_view(final(self).effects@) == effects_view(old(self).effects@) + cmd_effects(
                Command::Knob(cmd->Knob_0, Some(r)),
                final(self).state@,
            ),
    {
        if let Command::Knob(k, _) = cmd {
            let r = slider_ratio(val, range);
            let c = Command::Knob(*k, Some(r));
            self.exec_one_cmd(&c);
            r
        } else {
            0
        }
    }

    /// Executes the first `n` commands of `cmds`, in order.
    pub fn exec_cmds(&mut self, cmds: &Vec<Command>, n: usize)
        requires
            old(self).wf(),
            n <= cmds@.len(),
            forall|i: int| 0 <= i < n ==> is_executable(#[trigger] cmds@[i]),
        ensures
            final(self).wf(),
            final(self).same_env(old(self)),
            final(self).state@ == run_state(
                old(self).state@,
                flat_all(cmds@.take(n as int)),
                old(self).wbps,
                old(self).defaults,
            ),
            effects_view(final(self).effects@) == effects_view(old(self).effects@) + run_effects(
                old(self).state@,
                flat_all(cmds@.take(n as int)),
                old(self).wbps,
                old(self).defaults,
            ),
    {
        let ghost v0 = self.state@;
        let ghost e0 = effects_view(self.effects@);
        let mut i: usize = 0;
        proof {
            assert(cmds@.take(0) =~= Seq::<Command>::empty());
            assert(effects_view(self.effects@) =~= e0 + run_effects(
                v0,
                flat_all(cmds@.take(0)),
                self.wbps,
                self.defaults,
            ));
        }
        while i < n
            invariant
                self.wf(),
                self.same_env(old(self)),
                i <= n,
                n <= cmds@.len(),
                forall|j: int| 0 <= j < n ==> is_executable(#[trigger] cmds@[j]),
                v0 == old(self).state@,
                e0 == effects_view(old(self).effects@),
                self.state@ == run_state(v0, flat_all(cmds@.take(i as int)), self.wbps, self.defaults),
                effects_view(self.effects@) == e0 + run_effects(
                    v0,
                    flat_all(cmds@.take(i as int)),
                    self.wbps,
                    self.defaults,
                ),
            decreases n - i,
        {
            let ghost i0 = i as int;
            proof {
                assert(cmds@.take(i0 + 1).drop_last() =~= cmds@.take(i0));
                assert(cmds@.take(i0 + 1).last() == cmds@[i0]);
                lemma_run_concat(
                    v0,
                    flat_all(cmds@.take(i0)),
                    flatten(cmds@[i0]),
                    self.wbps,
                    self.defaults,
                );
            }
            self.exec_cmd(&cmds[i]);
            i = i + 1;
            proof {
                assert(effects_view(self.effects@) =~= e0 + run_effects(
                    v0,
                    flat_all(cmds@.take(i0 + 1)),
                    self.wbps,
                    self.defaults,
                ));
            }
        }
    }
}

} // verus!
