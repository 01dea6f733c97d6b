use vstd::prelude::*;
use crate::corpus::{corpus_valid, doc_ok, exec_ok, find_doc, has_doc, pre_ok, Corpus};
use crate::interp::{
    effects_view, flat_all, is_direct, is_executable, run_effects, run_state, Effect, EffectView,
    Interp,
};
use crate::model::{Command, Document};
use crate::state::{Defaults, StateView};

verus! {

/// The document shown and the way back.
pub struct Navigator {
    /// The index of the current document in the corpus; `None` before the
    /// first document is shown.
    pub cur: Option<usize>,
    /// The ids of the documents left by a forward jump, oldest first.
    pub history: Vec<String>,
}

#[derive(Clone, Debug, PartialEq, Eq)]
pub enum NavError {
    /// Entering this document redirects without end.
    RedirectLoop(String),
}

pub open spec fn doc_at(docs: Seq<Document>, id: Seq<char>) -> int {
    choose|i: int| 0 <= i < docs.len() && #[trigger] docs[i].id@ == id
}

/// The index of the first `Jump` in `cs` at or after `i`, or `cs.len()`.
pub open spec fn jump_from(cs: Seq<Command>, i: int) -> int
    decreases cs.len() - i,
{
    if i >= cs.len() {
        cs.len() as int
    } else if cs[i] is Jump {
        i
    } else {
        jump_from(cs, i + 1)
    }
}

/// Where entering the document with id `target` lands, following at most
/// `fuel` redirects, and whether it was redirected.
pub open spec fn landing(docs: Seq<Document>, target: Seq<char>, fuel: nat) -> Option<(int, bool)>
    decreases fuel,
{
    if !has_doc(docs, target) {
        None
    } else {
        let t = doc_at(docs, target);
        let pre = docs[t].pre_cmds@;
        let j = jump_from(pre, 0);
        if j < pre.len() {
            if fuel == 0 {
                None
            } else {
                match landing(docs, pre[j]->Jump_0@, (fuel - 1) as nat) {
                    Some((dest, _)) => Some((dest, true)),
                    None => None,
                }
            }
        } else {
            Some((t, false))
        }
    }
}

/// The commands run when jumping to `target` while leaving a document whose
/// exit commands are `exits`: the exits, then the target's entry commands up
/// to its first redirect; a redirect starts over with the same exits.
pub open spec fn entry_cmds(
    docs: Seq<Document>,
    exits: Seq<Command>,
    target: Seq<char>,
    fuel: nat,
) -> Seq<Command>
    decreases fuel,
{
    let t = doc_at(docs, target);
    let pre = docs[t].pre_cmds@;
    let j = jump_from(pre, 0);
    let here = exits + flat_all(pre.take(j));
    if j < pre.len() && fuel > 0 {
        here + entry_cmds(docs, exits, pre[j]->Jump_0@, (fuel - 1) as nat)
    } else {
        here
    }
}

/// The exit commands of the current document, run in order.
pub open spec fn exits_of(docs: Seq<Document>, cur: Option<usize>) -> Seq<Command> {
    match cur {
        Some(c) => flat_all(docs[c as int].post_cmds@),
        None => seq![],
    }
}

/// The commands that a jump from `cur` to `target` runs.
pub open spec fn jump_cmds(docs: Seq<Document>, cur: Option<usize>, target: Seq<char>) -> Seq<Command> {
    entry_cmds(docs, exits_of(docs, cur), target, docs.len() as nat)
}

/// Where a jump to `target` lands.
pub open spec fn jump_dest(docs: Seq<Document>, target: Seq<char>) -> Option<(int, bool)> {
    landing(docs, target, docs.len() as nat)
}

/// The history after a jump from `cur`: the left document is recorded unless
/// the jump goes back, but always where a redirect happened.
pub open spec fn jump_history(
    docs: Seq<Document>,
    hist: Seq<String>,
    cur: Option<usize>,
    back: bool,
    redirected: bool,
) -> Seq<String> {
    match cur {
        Some(c) => if !back || redirected {
            hist.push(docs[c as int].id)
        } else {
            hist
        },
        None => hist,
    }
}



/// What a jump from `cur0` to `target` does: where it lands, what is run,
/// what is recorded; or, where it redirects without end, that nothing
/// changes.
pub open spec fn jumped(
    docs: Seq<Document>,
    wbps: u64,
    d: Defaults,
    target: Seq<char>,
    back: bool,
    cur0: Option<usize>,
    hist0: Seq<String>,
    v0: StateView,
    e0: Seq<EffectView>,
    r: Result<(), NavError>,
    cur1: Option<usize>,
    hist1: Seq<String>,
    v1: StateView,
    e1: Seq<EffectView>,
) -> bool {
    match jump_dest(docs, target) {
        Some((dest, red)) => {
            &&& r is Ok
            &&& cur1 == Some(dest as usize)
            &&& hist1 == jump_history(docs, hist0, cur0, back, red)
            &&& v1 == run_state(v0, jump_cmds(docs, cur0, target), wbps, d)
            &&& e1 == e0 + run_effects(v0, jump_cmds(docs, cur0, target), wbps, d) + seq![
                EffectView::Reconcile,
            ]
        },
        None => {
            &&& r is Err
            &&& cur1 == cur0
            &&& hist1 == hist0
            &&& v1 == v0
            &&& e1 == e0
        },
    }
}

proof fn lemma_jump_from(cs: Seq<Command>, k: int)
    requires
        0 <= k <= cs.len(),
    ensures
        k <= jump_from(cs, k) <= cs.len(),
        jump_from(cs, k) < cs.len() ==> cs[jump_from(cs, k)] is Jump,
        forall|i: int| k <= i < jump_from(cs, k) ==> !(#[trigger] cs[i] is Jump),
    decreases cs.len() - k,
{
    if k < cs.len() && !(cs[k] is Jump) {
        lemma_jump_from(cs, k + 1);
    }
}


proof fn lemma_landing_in_range(docs: Seq<Document>, target: Seq<char>, fuel: nat)
    ensures
        landing(docs, target, fuel) matches Some((dest, _)) ==> 0 <= dest < docs.len(),
    decreases fuel,
{
    if has_doc(docs, target) {
        let t = doc_at(docs, target);
        let pre = docs[t].pre_cmds@;
        let j = jump_from(pre, 0);
        if j < pre.len() && fuel > 0 {
            lemma_landing_in_range(docs, pre[j]->Jump_0@, (fuel - 1) as nat);
        }
    }
}

proof fn lemma_exec_ok_executable(c: Command, graphs: Seq<String>)
    requires
        exec_ok(c, graphs),
    ensures
        is_executable(c),
{
    if let Command::Group(g) = c {
        assert forall|i: int| 0 <= i < g@.len() implies is_direct(#[trigger] g@[i]) by {
            assert(crate::corpus::direct_ok(g@[i], graphs));
        }
    }
}

proof fn lemma_doc_at(docs: Seq<Document>, i: int)
    requires
        crate::corpus::ids_unique(docs),
        0 <= i < docs.len(),
    ensures
        has_doc(docs, docs[i].id@),
        doc_at(docs, docs[i].id@) == i,
{
    let id = docs[i].id@;
    assert(docs[i].id@ == id);
    let j = doc_at(docs, id);
    assert(docs[j].id@ == id);
}

/// The index of the first `Jump` of `cs`, or its length.
fn first_jump(cs: &Vec<Command>) -> (j: usize)
    ensures
        j == jump_from(cs@, 0),
{
    let mut i: usize = 0;
    while i < cs.len()
        invariant
            i <= cs@.len(),
            jump_from(cs@, i as int) == jump_from(cs@, 0),
        decreases cs@.len() - i,
    {
        if let Command::Jump(_) = &cs[i] {
            return i;
        }
        i = i + 1;
    }
    i
}

/// Where entering `target` lands within `fuel` redirects.
fn resolve(corpus: &Corpus, target: &String, fuel: usize) -> (r: Option<(usize, bool)>)
    requires
        corpus_valid(corpus.docs@, corpus.graph_tags@),
    ensures
        match r {
            Some((d, red)) => landing(corpus.docs@, target@, fuel as nat) == Some((d as int, red)),
            None => landing(corpus.docs@, target@, fuel as nat) is None,
        },
    decreases fuel,
{
    match find_doc(&corpus.docs, target) {
        None => None,
        Some(t) => {
            proof {
                lemma_doc_at(corpus.docs@, t as int);
            }
            let pre = &corpus.docs[t].pre_cmds;
            let j = first_jump(pre);
            proof {
                lemma_jump_from(pre@, 0);
            }
            if j < pre.len() {
                if fuel == 0 {
                    None
                } else {
                    match &pre[j] {
                        Command::Jump(t2) => match resolve(corpus, t2, fuel - 1) {
                            Some((d, _)) => Some((d, true)),
                            None => None,
                        },
                        _ => None,
                    }
                }
            } else {
                Some((t, false))
            }
        },
    }
}

impl Navigator {
    /// The current document and every document in the history exist.
    pub open spec fn wf(&self, docs: Seq<Document>) -> bool {
        &&& self.cur matches Some(c) ==> c < docs.len()
        &&& forall|i: int| 0 <= i < self.history@.len() ==> has_doc(docs, #[trigger] self.history@[i]@)
    }

    pub fn new() -> (r: Navigator)
        ensures
            r.cur is None,
            r.history@ == Seq::<String>::empty(),
    {
        Navigator { cur: None, history: Vec::new() }
    }

    /// Runs the commands of a jump from `cur` to `target` and returns where
    /// it lands.
    fn enter(interp: &mut Interp, corpus: &Corpus, cur: Option<usize>, target: &String, fuel: usize) -> (dest: usize)
        requires
            old(interp).wf(),
            corpus_valid(corpus.docs@, corpus.graph_tags@),
            cur matches Some(c) ==> c < corpus.docs@.len(),
            landing(corpus.docs@, target@, fuel as nat) is Some,
        ensures
            final(interp).wf(),
            final(interp).same_env(old(interp)),
            dest == (landing(corpus.docs@, target@, fuel as nat)->0).0,
            final(interp).state@ == run_state(
                old(interp).state@,
                entry_cmds(corpus.docs@, exits_of(corpus.docs@, cur), target@, fuel as nat),
                old(interp).wbps,
                old(interp).defaults,
            ),
            effects_view(final(interp).effects@) == effects_view(old(interp).effects@) + run_effects(
                old(interp).state@,
                entry_cmds(corpus.docs@, exits_of(corpus.docs@, cur), target@, fuel as nat),
                old(interp).wbps,
                old(interp).defaults,
            ),
        decreases fuel,
    {
        let ghost docs = corpus.docs@;
        let ghost exits = exits_of(docs, cur);
        let ghost v0 = interp.state@;
        let ghost e0 = effects_view(interp.effects@);
        if let Some(c) = cur {
            let post = &corpus.docs[c].post_cmds;
            proof {
                assert(doc_ok(docs[c as int], docs, corpus.graph_tags@));
                assert forall|i: int| 0 <= i < post@.len() implies is_executable(#[trigger] post@[i]) by {
                    lemma_exec_ok_executable(post@[i], corpus.graph_tags@);
                }
                assert(post@.take(post@.len() as int) =~= post@);
            }
            interp.exec_cmds(post, post.len());
        } else {
            proof {
                assert(exits =~= Seq::<Command>::empty());
                assert(effects_view(interp.effects@) =~= e0 + run_effects(
                    v0,
                    exits,
                    interp.wbps,
                    interp.defaults,
                ));
            }
        }
        let t = match find_doc(&corpus.docs, target) {
            Some(t) => t,
            None => 0,
        };
        proof {
            lemma_doc_at(docs, t as int);
        }
        let pre = &corpus.docs[t].pre_cmds;
        let j = first_jump(pre);
        proof {
            assert(doc_ok(docs[t as int], docs, corpus.graph_tags@));
            lemma_jump_from(pre@, 0);
            assert forall|i: int| 0 <= i < j implies is_executable(#[trigger] pre@[i]) by {
                assert(pre_ok(pre@[i], docs, corpus.graph_tags@));
                lemma_exec_ok_executable(pre@[i], corpus.graph_tags@);
            }
            crate::interp::lemma_run_concat(v0, exits, flat_all(pre@.take(j as int)), interp.wbps, interp.defaults);
        }
        interp.exec_cmds(pre, j);
        let ghost here = exits + flat_all(pre@.take(j as int));
        if j < pre.len() && fuel > 0 {
            match &pre[j] {
                Command::Jump(t2) => {
                    let d = Self::enter(interp, corpus, cur, t2, fuel - 1);
                    proof {
                        let rest = entry_cmds(docs, exits, t2@, (fuel - 1) as nat);
                        crate::interp::lemma_run_concat(v0, here, rest, interp.wbps, interp.defaults);
                        assert(effects_view(interp.effects@) =~= e0 + run_effects(
                            v0,
                            here + rest,
                            interp.wbps,
                            interp.defaults,
                        ));
                    }
                    d
                },
                _ => t,
            }
        } else {
            t
        }
    }

    /// Shows the document with id `target`. A jump runs the current
    /// document's exit commands and the target's entry commands, following
    /// redirects, and records the document left unless it goes back; without
    /// a jump the document is only put on screen. The widgets are reconciled
    /// last.
    pub fn show_doc(
        &mut self,
        interp: &mut Interp,
        corpus: &Corpus,
        target: &String,
        jump: bool,
        back: bool,
    ) -> (r: Result<(), NavError>)
        requires
            old(interp).wf(),
            corpus_valid(corpus.docs@, corpus.graph_tags@),
            old(self).wf(corpus.docs@),
            has_doc(corpus.docs@, target@),
        ensures
            final(interp).wf(),
            final(interp).same_env(old(interp)),
            final(self).wf(corpus.docs@),
            jump ==> jumped(
                corpus.docs@,
                old(interp).wbps,
                old(interp).defaults,
                target@,
                back,
                old(self).cur,
                old(self).history@,
                old(interp).state@,
                effects_view(old(interp).effects@),
                r,
                final(self).cur,
                final(self).history@,
                final(interp).state@,
                effects_view(final(interp).effects@),
            ),
            !jump ==> r is Ok,
            !jump ==> final(self).cur == Some(doc_at(corpus.docs@, target@) as usize),
            !jump ==> final(self).history@ == old(self).history@,
            !jump ==> final(interp).state@ == old(interp).state@,
            !jump ==> effects_view(final(interp).effects@) == effects_view(old(interp).effects@).push(
                EffectView::Reconcile,
            ),
    {
        let ghost docs = corpus.docs@;
        let t = match find_doc(&corpus.docs, target) {
            Some(t) => t,
            None => 0,
        };
        proof {
            lemma_doc_at(docs, t as int);
        }
        if !jump {
            self.cur = Some(t);
            interp.push_effect(Effect::Reconcile);
            return Ok(());
        }
        let fuel = corpus.docs.len();
        let red = match resolve(corpus, target, fuel) {
            Some((_, red)) => red,
            None => {
                return Err(NavError::RedirectLoop(target.clone()));
            },
        };
        let cur = self.cur;
        proof {
            lemma_landing_in_range(docs, target@, fuel as nat);
        }
        let ghost e1 = effects_view(interp.effects@);
        let ghost v1 = interp.state@;
        let dest = Self::enter(interp, corpus, cur, target, fuel);
        if let Some(c) = cur {
            if !back || red {
                proof {
                    lemma_doc_at(docs, c as int);
                }
                self.history.push(corpus.docs[c].id.clone());
            }
        }
        self.cur = Some(dest);
        interp.push_effect(Effect::Reconcile);
        proof {
            assert(effects_view(interp.effects@) =~= e1 + run_effects(
                v1,
                jump_cmds(docs, cur, target@),
                interp.wbps,
                interp.defaults,
            ) + seq![EffectView::Reconcile]);
        }
        Ok(())
    }

    /// Goes back to the document left by the last forward jump, running the
    /// same exit and entry commands as a jump there, without recording the
    /// document left. With no history nothing happens.
    pub fn back(&mut self, interp: &mut Interp, corpus: &Corpus) -> (r: Result<(), NavError>)
        requires
            old(interp).wf(),
            corpus_valid(corpus.docs@, corpus.graph_tags@),
            old(self).wf(corpus.docs@),
        ensures
            final(interp).wf(),
            final(interp).same_env(old(interp)),
            final(self).wf(corpus.docs@),
            old(self).history@.len() == 0 ==> r is Ok && final(self).cur == old(self).cur
                && final(self).history@ == old(self).history@ && final(interp).state@ == old(
                interp,
            ).state@ && final(interp).effects@ == old(interp).effects@,
            old(self).history@.len() > 0 ==> jumped(
                corpus.docs@,
                old(interp).wbps,
                old(interp).defaults,
                old(self).history@.last()@,
                true,
                old(self).cur,
                old(self).history@.drop_last(),
                old(interp).state@,
                effects_view(old(interp).effects@),
                r,
                final(self).cur,
                final(self).history@,
                final(interp).state@,
                effects_view(final(interp).effects@),
            ),
    {
        let ghost h0 = self.history@;
        match self.history.pop() {
            None => Ok(()),
            Some(id) => {
                proof {
                    assert(h0[h0.len() - 1] == id);
                    assert(self.history@ =~= h0.drop_last());
                    assert forall|i: int| 0 <= i < self.history@.len() implies has_doc(
                        corpus.docs@,
                        #[trigger] self.history@[i]@,
                    ) by {
                        assert(self.history@[i] == h0[i]);
                    }
                }
                self.show_doc(interp, corpus, &id, true, true)
            },
        }
    }

    /// Puts a document on screen once the layout exists: the index on the
    /// first call, by a jump; the current document, without one, later.
    pub fn post_layout(&mut self, interp: &mut Interp, corpus: &Corpus) -> (r: Result<(), NavError>)
        requires
            old(interp).wf(),
            corpus_valid(corpus.docs@, corpus.graph_tags@),
            old(self).wf(corpus.docs@),
            old(self).cur is None ==> has_doc(corpus.docs@, "index"@),
        ensures
            final(interp).wf(),
            final(interp).same_env(old(interp)),
            final(self).wf(corpus.docs@),
            old(self).cur is None ==> jumped(
                corpus.docs@,
                old(interp).wbps,
                old(interp).defaults,
                "index"@,
                false,
                old(self).cur,
                old(self).history@,
                old(interp).state@,
                effects_view(old(interp).effects@),
                r,
                final(self).cur,
                final(self).history@,
                final(interp).state@,
                effects_view(final(interp).effects@),
            ),
            old(self).cur is Some ==> r is Ok && final(self).cur == old(self).cur
                && final(self).history@ == old(self).history@ && final(interp).state@ == old(
                interp,
            ).state@ && effects_view(final(interp).effects@) == effects_view(
                old(interp).effects@,
            ).push(EffectView::Reconcile),
    {
        match self.cur {
            None => {
                let index = "index".to_owned();
                self.show_doc(interp, corpus, &index, true, false)
            },
            Some(c) => {
                let id = corpus.docs[c].id.clone();
                proof {
                    lemma_doc_at(corpus.docs@, c as int);
                }
                self.show_doc(interp, corpus, &id, false, false)
            },
        }
    }
}

} // verus!
