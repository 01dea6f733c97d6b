use vstd::prelude::*;
use crate::interp::{cmd_effects, cmd_state, run_state, EffectView};
use crate::model::{Command, HashdKnob, Knob, Reset, Switch, Workload};
use crate::nav::{jump_dest, jump_from, jump_history, jumped, NavError};
use crate::corpus::{corpus_valid, ids_unique};
use crate::model::Document;
use crate::ratio::{scale_spec, slider_slot_spec, RATIO_ONE};
use crate::reconcile::{denorm, knob_ratio, knob_readout, knob_view, switch_on, SystemInfo};
use crate::state::{apply_knob, apply_reset, apply_switch, reset_clears_graph, Defaults, StateView};

verus! {

#[verifier::rlimit(100)]
proof fn lemma_last_flag_wins(v: StateView, sw: Switch, first: bool, second: bool)
    requires
        !(sw is Sideload),
        !(sw is Sysload),
    ensures
        apply_switch(apply_switch(v, sw, first), sw, second) == apply_switch(v, sw, second),
{
    match sw {
        Switch::Hashd(w) => {
            let h = crate::state::hashd_of(v, w);
            let v1 = apply_switch(v, sw, first);
            assert(crate::state::hashd_of(v1, w) == crate::state::HashdCmd { active: first, ..h });
        },
        _ => {},
    }
}

/// Turning a switch on and then off, or off and then on, leaves the state
/// that the second command alone would: the last command wins.
pub proof fn lemma_last_switch_wins(v: StateView, sw: Switch, first: bool, second: bool)
    ensures
        apply_switch(apply_switch(v, sw, first), sw, second) == apply_switch(v, sw, second),
{
    match sw {
        Switch::Sideload(t, id) => {
            let m = if first {
                v.sideloads.insert(t@, id@)
            } else {
                v.sideloads.remove(t@)
            };
            if second {
                assert(m.insert(t@, id@) =~= v.sideloads.insert(t@, id@));
            } else {
                assert(m.remove(t@) =~= v.sideloads.remove(t@));
            }
        },
        Switch::Sysload(t, id) => {
            let m = if first {
                v.sysloads.insert(t@, id@)
            } else {
                v.sysloads.remove(t@)
            };
            if second {
                assert(m.insert(t@, id@) =~= v.sysloads.insert(t@, id@));
            } else {
                assert(m.remove(t@) =~= v.sysloads.remove(t@));
            }
        },
        _ => lemma_last_flag_wins(v, sw, first, second),
    }
}

/// An enable first waits for the agent to acknowledge what was submitted
/// before, so that it cannot be overtaken by an earlier disable; the state
/// it leaves is submitted after that. A disable is submitted at once.
pub proof fn lemma_enable_syncs_first(sw: Switch, after: StateView)
    ensures
        cmd_effects(Command::On(sw), after)[0] == EffectView::Sync,
        cmd_effects(Command::On(sw), after) == seq![
            EffectView::Sync,
            EffectView::Apply(after),
            EffectView::Reconcile,
        ],
        cmd_effects(Command::Off(sw), after) == seq![EffectView::Apply(after), EffectView::Reconcile],
{
    assert(cmd_effects(Command::On(sw), after) =~= seq![
        EffectView::Sync,
        EffectView::Apply(after),
        EffectView::Reconcile,
    ]);
    assert(cmd_effects(Command::Off(sw), after) =~= seq![
        EffectView::Apply(after),
        EffectView::Reconcile,
    ]);
}

/// Setting a knob to a ratio in the unit interval and reading it back shows
/// that ratio in engineering units; every knob but the log bandwidth, whose
/// ratio is recomputed from bytes, also shows the ratio itself.
pub proof fn lemma_knob_round_trip(v: StateView, k: Knob, r: u64, info: SystemInfo)
    requires
        r <= RATIO_ONE,
    ensures
        knob_readout(apply_knob(v, k, r, info.wbps), k, info) == denorm(k, r, info),
        !(k matches Knob::Hashd(_, HashdKnob::LogBps)) ==> knob_ratio(
            apply_knob(v, k, r, info.wbps),
            k,
            info,
        ) == r,
{
    let x = info.wbps;
    assert(scale_spec(x, r) <= x) by {
        assert(x * r <= x * RATIO_ONE) by (nonlinear_arith)
            requires
                r <= RATIO_ONE,
        ;
        assert((x * r + RATIO_ONE / 2) / (RATIO_ONE as int) <= x) by (nonlinear_arith)
            requires
                x * r <= x * RATIO_ONE,
        ;
    }
}

/// Reset `AllWithParams` is reset `All`, then `HashdParams`, then
/// `ResCtlParams`, from any state, and clears the graph as `All` does.
pub proof fn lemma_all_with_params(v: StateView, d: Defaults)
    ensures
        apply_reset(v, Reset::AllWithParams, d) == apply_reset(
            apply_reset(apply_reset(v, Reset::All, d), Reset::HashdParams, d),
            Reset::ResCtlParams,
            d,
        ),
        reset_clears_graph(Reset::AllWithParams) == (reset_clears_graph(Reset::All)
            || reset_clears_graph(Reset::HashdParams) || reset_clears_graph(Reset::ResCtlParams)),
{
}

/// Enabling a sideload tag twice with two ids leaves one instance of the
/// tag, with the second id; disabling a tag that is not running changes
/// nothing.
pub proof fn lemma_sideload_idempotent(v: StateView, tag: String, id1: String, id2: String)
    ensures
        apply_switch(
            apply_switch(v, Switch::Sideload(tag, id1), true),
            Switch::Sideload(tag, id2),
            true,
        ).sideloads == v.sideloads.insert(tag@, id2@),
        apply_switch(
            apply_switch(v, Switch::Sideload(tag, id1), true),
            Switch::Sideload(tag, id2),
            true,
        ).sideloads[tag@] == id2@,
        !v.sideloads.contains_key(tag@) ==> apply_switch(v, Switch::Sideload(tag, id1), false)
            == v,
{
    assert(v.sideloads.insert(tag@, id1@).insert(tag@, id2@) =~= v.sideloads.insert(tag@, id2@));
    if !v.sideloads.contains_key(tag@) {
        assert(v.sideloads.remove(tag@) =~= v.sideloads);
    }
}

/// Going back runs the same exit and entry commands as a jump to the same
/// document; only the history differs. So jumping A to B to C and going back
/// twice runs what jumping A, B, C, B, A runs, and, where none of the three
/// redirects on entry, ends at A with the history it started with.
pub proof fn lemma_back_and_forth(docs: Seq<Document>, graphs: Seq<String>, a: usize, b: usize, c: usize, hist: Seq<String>)
    requires
        corpus_valid(docs, graphs),
        a < docs.len(),
        b < docs.len(),
        c < docs.len(),
        jump_from(docs[a as int].pre_cmds@, 0) == docs[a as int].pre_cmds@.len(),
        jump_from(docs[b as int].pre_cmds@, 0) == docs[b as int].pre_cmds@.len(),
        jump_from(docs[c as int].pre_cmds@, 0) == docs[c as int].pre_cmds@.len(),
    ensures
        jump_dest(docs, docs[a as int].id@) == Some((a as int, false)),
        jump_dest(docs, docs[b as int].id@) == Some((b as int, false)),
        jump_dest(docs, docs[c as int].id@) == Some((c as int, false)),
        ({
            let h1 = jump_history(docs, hist, Some(a), false, false);
            let h2 = jump_history(docs, h1, Some(b), false, false);
            let h3 = jump_history(docs, h2.drop_last(), Some(c), true, false);
            let h4 = jump_history(docs, h3.drop_last(), Some(b), true, false);
            &&& h2.last()@ == docs[b as int].id@
            &&& h3.last()@ == docs[a as int].id@
            &&& h4 == hist
        }),
{
    lemma_lands(docs, graphs, a);
    lemma_lands(docs, graphs, b);
    lemma_lands(docs, graphs, c);
    let h1 = hist.push(docs[a as int].id);
    let h2 = h1.push(docs[b as int].id);
    assert(h2.drop_last() =~= h1);
    assert(h1.drop_last() =~= hist);
}

/// A jump that goes back and a forward jump to the same document, from the
/// same place and state, run the same commands and land in the same place.
pub proof fn lemma_back_runs_as_jump(
    docs: Seq<Document>,
    wbps: u64,
    d: Defaults,
    target: Seq<char>,
    cur0: Option<usize>,
    hist0: Seq<String>,
    v0: StateView,
    e0: Seq<EffectView>,
    r1: Result<(), NavError>,
    cur1: Option<usize>,
    hist1: Seq<String>,
    v1: StateView,
    e1: Seq<EffectView>,
    r2: Result<(), NavError>,
    cur2: Option<usize>,
    hist2: Seq<String>,
    v2: StateView,
    e2: Seq<EffectView>,
)
    requires
        jumped(docs, wbps, d, target, true, cur0, hist0, v0, e0, r1, cur1, hist1, v1, e1),
        jumped(docs, wbps, d, target, false, cur0, hist0, v0, e0, r2, cur2, hist2, v2, e2),
    ensures
        r1 is Ok <==> r2 is Ok,
        cur1 == cur2,
        v1 == v2,
        e1 == e2,
{
}

proof fn lemma_lands(docs: Seq<Document>, graphs: Seq<String>, i: usize)
    requires
        corpus_valid(docs, graphs),
        i < docs.len(),
        jump_from(docs[i as int].pre_cmds@, 0) == docs[i as int].pre_cmds@.len(),
    ensures
        jump_dest(docs, docs[i as int].id@) == Some((i as int, false)),
{
    let id = docs[i as int].id@;
    assert(docs[i as int].id@ == id);
    let j = crate::nav::doc_at(docs, id);
    assert(docs[j].id@ == id);
    assert(ids_unique(docs));
}

/// Reconciling twice with no change in between shows the same thing: what
/// each widget shows is a function of the state alone.
pub proof fn lemma_reconcile_stable(
    toggles: Seq<Switch>,
    knobs: Seq<Knob>,
    v: StateView,
    info: SystemInfo,
    t1: Seq<bool>,
    t2: Seq<bool>,
    k1: Seq<crate::reconcile::KnobView>,
    k2: Seq<crate::reconcile::KnobView>,
)
    requires
        t1.len() == toggles.len() && forall|i: int| 0 <= i < t1.len() ==> t1[i] == switch_on(v, #[trigger] toggles[i]),
        t2.len() == toggles.len() && forall|i: int| 0 <= i < t2.len() ==> t2[i] == switch_on(v, #[trigger] toggles[i]),
        k1.len() == knobs.len() && forall|i: int| 0 <= i < k1.len() ==> k1[i] == knob_view(v, #[trigger] knobs[i], info),
        k2.len() == knobs.len() && forall|i: int| 0 <= i < k2.len() ==> k2[i] == knob_view(v, #[trigger] knobs[i], info),
    ensures
        t1 == t2,
        k1 == k2,
{
    assert forall|i: int| 0 <= i < t1.len() implies t1[i] == t2[i] by {
        assert(t1[i] == switch_on(v, toggles[i]));
    }
    assert forall|i: int| 0 <= i < k1.len() implies k1[i] == k2[i] by {
        assert(k1[i] == knob_view(v, knobs[i], info));
    }
    assert(t1 =~= t2);
    assert(k1 =~= k2);
}

/// Enabling workload A and setting its load to one half, as one group,
/// leaves A active at exactly half load, whatever came before; reconciling
/// then checks its box and puts its slider at the middle position.
pub proof fn lemma_enable_and_load(v: StateView, info: SystemInfo, d: Defaults, range: usize)
    requires
        range >= 1,
    ensures
        ({
            let g = seq![
                Command::On(Switch::Hashd(Workload::A)),
                Command::Knob(Knob::Hashd(Workload::A, HashdKnob::Load), Some((RATIO_ONE / 2) as u64)),
            ];
            let v2 = run_state(v, g, info.wbps, d);
            &&& v2.hashd_a.active
            &&& v2.hashd_a.rps_target_ratio == RATIO_ONE / 2
            &&& switch_on(v2, Switch::Hashd(Workload::A))
            &&& knob_ratio(v2, Knob::Hashd(Workload::A, HashdKnob::Load), info) == RATIO_ONE / 2
            &&& slider_slot_spec(knob_ratio(v2, Knob::Hashd(Workload::A, HashdKnob::Load), info), range)
                == ((range - 1) * RATIO_ONE / 2 + RATIO_ONE / 2) / (RATIO_ONE as int)
        }),
{
    let g = seq![
        Command::On(Switch::Hashd(Workload::A)),
        Command::Knob(Knob::Hashd(Workload::A, HashdKnob::Load), Some((RATIO_ONE / 2) as u64)),
    ];
    assert(g.drop_last().drop_last() =~= Seq::<Command>::empty());
    assert(g.drop_last().last() == g[0]);
    assert(g.last() == g[1]);
    let v1 = cmd_state(v, g[0], info.wbps, d);
    assert(run_state(v, g.drop_last().drop_last(), info.wbps, d) == v);
    assert(run_state(v, g.drop_last(), info.wbps, d) == v1);
    assert(v1.hashd_a.active);
    let v2 = cmd_state(v1, g[1], info.wbps, d);
    assert(run_state(v, g, info.wbps, d) == v2);
    assert(v2.hashd_a.active);
    assert(v2.hashd_a.rps_target_ratio == RATIO_ONE / 2);
    let x = (range - 1) as u64;
    assert(x * (RATIO_ONE / 2) == (range - 1) * RATIO_ONE / 2) by (nonlinear_arith)
        requires
            x == range - 1,
    ;
}

} // verus!
