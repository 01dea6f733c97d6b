use vstd::prelude::*;
use crate::interp::is_direct;
use crate::model::{Command, Document, Paragraph, Switch};
use crate::ratio::RATIO_ONE;

verus! {

/// The documents, checked so that every reference among them resolves.
pub struct Corpus {
    pub docs: Vec<Document>,
    /// The names of the graphs that a `Graph` command may show.
    pub graph_tags: Vec<String>,
    /// The sideload tags that the documents start or toggle, each once.
    pub sideload_names: Vec<String>,
    /// The sysload tags that the documents start or toggle, each once.
    pub sysload_names: Vec<String>,
}

/// Why a set of documents was refused.
#[derive(Clone, Debug, PartialEq, Eq)]
pub enum LoadError {
    /// Two documents have this id.
    DuplicateId(String),
    /// A document holds a command that cannot stand where it stands, or a
    /// reference that does not resolve.
    BadCommand(String),
}

pub open spec fn has_doc(docs: Seq<Document>, id: Seq<char>) -> bool {
    exists|i: int| 0 <= i < docs.len() && #[trigger] docs[i].id@ == id
}

pub open spec fn ids_unique(docs: Seq<Document>) -> bool {
    forall|i: int, j: int|
        0 <= i < docs.len() && 0 <= j < docs.len() && #[trigger] docs[i].id@ == #[trigger] docs[j].id@
            ==> i == j
}

pub open spec fn graph_known(graphs: Seq<String>, tag: Seq<char>) -> bool {
    tag.len() == 0 || exists|j: int| 0 <= j < graphs.len() && #[trigger] graphs[j]@ == tag
}

/// A direct command whose graph tag, if any, names a known graph.
pub open spec fn direct_ok(c: Command, graphs: Seq<String>) -> bool {
    is_direct(c) && (c is Graph ==> graph_known(graphs, c->Graph_0@))
}

/// A command that can be executed and whose graph tags resolve.
pub open spec fn exec_ok(c: Command, graphs: Seq<String>) -> bool {
    match c {
        Command::Group(g) => forall|i: int| 0 <= i < g@.len() ==> direct_ok(#[trigger] g@[i], graphs),
        _ => direct_ok(c, graphs),
    }
}

pub open spec fn jump_ok(c: Command, docs: Seq<Document>) -> bool {
    c is Jump && has_doc(docs, c->Jump_0@)
}

/// What may stand among a document's entry commands.
pub open spec fn pre_ok(c: Command, docs: Seq<Document>, graphs: Seq<String>) -> bool {
    exec_ok(c, graphs) || jump_ok(c, docs)
}

/// What may stand behind a prompt: also a checkbox or a slider.
pub open spec fn prompt_ok(c: Command, docs: Seq<Document>, graphs: Seq<String>) -> bool {
    exec_ok(c, graphs) || jump_ok(c, docs) || c is Toggle || (c is Knob && c->Knob_1 is None)
}

pub open spec fn para_ok(p: Paragraph, docs: Seq<Document>, graphs: Seq<String>) -> bool {
    match p {
        Paragraph::Prompt(_, c) => prompt_ok(c, docs, graphs),
        Paragraph::Text(_, _) => true,
    }
}

pub open spec fn doc_ok(d: Document, docs: Seq<Document>, graphs: Seq<String>) -> bool {
    &&& forall|i: int| 0 <= i < d.pre_cmds@.len() ==> pre_ok(#[trigger] d.pre_cmds@[i], docs, graphs)
    &&& forall|i: int| 0 <= i < d.post_cmds@.len() ==> exec_ok(#[trigger] d.post_cmds@[i], graphs)
    &&& forall|i: int| 0 <= i < d.body@.len() ==> para_ok(#[trigger] d.body@[i], docs, graphs)
}

/// Unique ids, and every document's commands resolve and can be executed.
pub open spec fn corpus_valid(docs: Seq<Document>, graphs: Seq<String>) -> bool {
    ids_unique(docs) && forall|i: int| 0 <= i < docs.len() ==> doc_ok(#[trigger] docs[i], docs, graphs)
}


/// The secondary-workload tag that command `c` starts or toggles, if any:
/// of a sideload where `side`, else of a sysload.
pub open spec fn switch_tag(c: Command, side: bool) -> Set<Seq<char>> {
    match c {
        Command::On(sw) | Command::Toggle(sw) => match sw {
            Switch::Sideload(t, _) => if side {
                set![t@]
            } else {
                Set::empty()
            },
            Switch::Sysload(t, _) => if side {
                Set::empty()
            } else {
                set![t@]
            },
            _ => Set::empty(),
        },
        _ => Set::empty(),
    }
}

/// The tags that a command names, looking one level into groups.
pub open spec fn group_tags(cs: Seq<Command>, side: bool) -> Set<Seq<char>>
    decreases cs.len(),
{
    if cs.len() == 0 {
        Set::empty()
    } else {
        group_tags(cs.drop_last(), side) + switch_tag(cs.last(), side)
    }
}

pub open spec fn cmd_tags(c: Command, side: bool) -> Set<Seq<char>> {
    match c {
        Command::Group(g) => group_tags(g@, side),
        _ => switch_tag(c, side),
    }
}

pub open spec fn cmds_tags(cs: Seq<Command>, side: bool) -> Set<Seq<char>>
    decreases cs.len(),
{
    if cs.len() == 0 {
        Set::empty()
    } else {
        cmds_tags(cs.drop_last(), side) + cmd_tags(cs.last(), side)
    }
}

pub open spec fn para_tags(p: Paragraph, side: bool) -> Set<Seq<char>> {
    match p {
        Paragraph::Prompt(_, c) => cmd_tags(c, side),
        Paragraph::Text(_, _) => Set::empty(),
    }
}

pub open spec fn body_tags(ps: Seq<Paragraph>, side: bool) -> Set<Seq<char>>
    decreases ps.len(),
{
    if ps.len() == 0 {
        Set::empty()
    } else {
        body_tags(ps.drop_last(), side) + para_tags(ps.last(), side)
    }
}

/// The tags that a document's entry commands, prompts and exit commands name.
pub open spec fn doc_tags(d: Document, side: bool) -> Set<Seq<char>> {
    cmds_tags(d.pre_cmds@, side) + body_tags(d.body@, side) + cmds_tags(d.post_cmds@, side)
}

pub open spec fn docs_tags(docs: Seq<Document>, side: bool) -> Set<Seq<char>>
    decreases docs.len(),
{
    if docs.len() == 0 {
        Set::empty()
    } else {
        docs_tags(docs.drop_last(), side) + doc_tags(docs.last(), side)
    }
}

/// The names held, as a set.
pub open spec fn name_set(names: Seq<String>) -> Set<Seq<char>> {
    Set::new(|k: Seq<char>| exists|i: int| 0 <= i < names.len() && #[trigger] names[i]@ == k)
}

/// Adds `tag` to `names` unless it is there.
fn add_name(names: &mut Vec<String>, tag: &String)
    ensures
        name_set(final(names)@) == name_set(old(names)@).insert(tag@),
{
    let mut i: usize = 0;
    while i < names.len()
        invariant
            i <= names@.len(),
            forall|j: int| 0 <= j < i ==> names@[j]@ != tag@,
        decreases names@.len() - i,
    {
        if names[i] == *tag {
            assert(name_set(names@).insert(tag@) =~= name_set(names@));
            return;
        }
        i = i + 1;
    }
    let ghost n0 = names@;
    names.push(tag.clone());
    assert forall|k: Seq<char>| name_set(names@).contains(k) == name_set(n0).insert(tag@).contains(k) by {
        if name_set(names@).contains(k) {
            let j = choose|j: int| 0 <= j < names@.len() && #[trigger] names@[j]@ == k;
            if j < n0.len() {
                assert(n0[j]@ == k);
            }
        }
        if name_set(n0).contains(k) {
            let j = choose|j: int| 0 <= j < n0.len() && #[trigger] n0[j]@ == k;
            assert(names@[j]@ == k);
        }
        if k == tag@ {
            assert(names@[n0.len() as int]@ == k);
        }
    }
    assert(name_set(names@) =~= name_set(n0).insert(tag@));
}

/// Records the secondary-workload tag that `c` starts or toggles.
fn register_one_cmd(c: &Command, side: &mut Vec<String>, sys: &mut Vec<String>)
    ensures
        name_set(final(side)@) == name_set(old(side)@) + switch_tag(*c, true),
        name_set(final(sys)@) == name_set(old(sys)@) + switch_tag(*c, false),
{
    match c {
        Command::On(sw) | Command::Toggle(sw) => match sw {
            Switch::Sideload(t, _) => {
                add_name(side, t);
                assert(name_set(sys@) + switch_tag(*c, false) =~= name_set(sys@));
                assert(name_set(old(side)@).insert(t@) =~= name_set(old(side)@) + switch_tag(*c, true));
            },
            Switch::Sysload(t, _) => {
                add_name(sys, t);
                assert(name_set(side@) + switch_tag(*c, true) =~= name_set(side@));
                assert(name_set(old(sys)@).insert(t@) =~= name_set(old(sys)@) + switch_tag(*c, false));
            },
            _ => {
                assert(name_set(side@) + switch_tag(*c, true) =~= name_set(side@));
                assert(name_set(sys@) + switch_tag(*c, false) =~= name_set(sys@));
            },
        },
        _ => {
            assert(name_set(side@) + switch_tag(*c, true) =~= name_set(side@));
            assert(name_set(sys@) + switch_tag(*c, false) =~= name_set(sys@));
        },
    }
}

/// Records the tags that `c`, or each member of the group `c`, names.
fn register_cmd(c: &Command, side: &mut Vec<String>, sys: &mut Vec<String>)
    ensures
        name_set(final(side)@) == name_set(old(side)@) + cmd_tags(*c, true),
        name_set(final(sys)@) == name_set(old(sys)@) + cmd_tags(*c, false),
{
    match c {
        Command::Group(g) => {
            let ghost s0 = name_set(side@);
            let ghost y0 = name_set(sys@);
            let mut i: usize = 0;
            proof {
                assert(g@.take(0) =~= Seq::<Command>::empty());
                assert(s0 + group_tags(g@.take(0), true) =~= s0);
                assert(y0 + group_tags(g@.take(0), false) =~= y0);
            }
            while i < g.len()
                invariant
                    i <= g@.len(),
                    name_set(side@) == s0 + group_tags(g@.take(i as int), true),
                    name_set(sys@) == y0 + group_tags(g@.take(i as int), false),
                decreases g@.len() - i,
            {
                let ghost i0 = i as int;
                proof {
                    assert(g@.take(i0 + 1).drop_last() =~= g@.take(i0));
                    assert(g@.take(i0 + 1).last() == g@[i0]);
                }
                register_one_cmd(&g[i], side, sys);
                i = i + 1;
                proof {
                    assert(name_set(side@) =~= s0 + group_tags(g@.take(i0 + 1), true));
                    assert(name_set(sys@) =~= y0 + group_tags(g@.take(i0 + 1), false));
                }
            }
            proof {
                assert(g@.take(g@.len() as int) =~= g@);
            }
        },
        _ => register_one_cmd(c, side, sys),
    }
}

fn register_cmds(cs: &Vec<Command>, side: &mut Vec<String>, sys: &mut Vec<String>)
    ensures
        name_set(final(side)@) == name_set(old(side)@) + cmds_tags(cs@, true),
        name_set(final(sys)@) == name_set(old(sys)@) + cmds_tags(cs@, false),
{
    let ghost s0 = name_set(side@);
    let ghost y0 = name_set(sys@);
    let mut i: usize = 0;
    proof {
        assert(cs@.take(0) =~= Seq::<Command>::empty());
        assert(s0 + cmds_tags(cs@.take(0), true) =~= s0);
        assert(y0 + cmds_tags(cs@.take(0), false) =~= y0);
    }
    while i < cs.len()
        invariant
            i <= cs@.len(),
            name_set(side@) == s0 + cmds_tags(cs@.take(i as int), true),
            name_set(sys@) == y0 + cmds_tags(cs@.take(i as int), false),
        decreases cs@.len() - i,
    {
        let ghost i0 = i as int;
        proof {
            assert(cs@.take(i0 + 1).drop_last() =~= cs@.take(i0));
            assert(cs@.take(i0 + 1).last() == cs@[i0]);
        }
        register_cmd(&cs[i], side, sys);
        i = i + 1;
        proof {
            assert(name_set(side@) =~= s0 + cmds_tags(cs@.take(i0 + 1), true));
            assert(name_set(sys@) =~= y0 + cmds_tags(cs@.take(i0 + 1), false));
        }
    }
    proof {
        assert(cs@.take(cs@.len() as int) =~= cs@);
    }
}

fn register_body(ps: &Vec<Paragraph>, side: &mut Vec<String>, sys: &mut Vec<String>)
    ensures
        name_set(final(side)@) == name_set(old(side)@) + body_tags(ps@, true),
        name_set(final(sys)@) == name_set(old(sys)@) + body_tags(ps@, false),
{
    let ghost s0 = name_set(side@);
    let ghost y0 = name_set(sys@);
    let mut i: usize = 0;
    proof {
        assert(ps@.take(0) =~= Seq::<Paragraph>::empty());
        assert(s0 + body_tags(ps@.take(0), true) =~= s0);
        assert(y0 + body_tags(ps@.take(0), false) =~= y0);
    }
    while i < ps.len()
        invariant
            i <= ps@.len(),
            name_set(side@) == s0 + body_tags(ps@.take(i as int), true),
            name_set(sys@) == y0 + body_tags(ps@.take(i as int), false),
        decreases ps@.len() - i,
    {
        let ghost i0 = i as int;
        proof {
            assert(ps@.take(i0 + 1).drop_last() =~= ps@.take(i0));
            assert(ps@.take(i0 + 1).last() == ps@[i0]);
        }
        match &ps[i] {
            Paragraph::Prompt(_, c) => register_cmd(c, side, sys),
            Paragraph::Text(_, _) => {},
        }
        i = i + 1;
        proof {
            assert(name_set(side@) =~= s0 + body_tags(ps@.take(i0 + 1), true));
            assert(name_set(sys@) =~= y0 + body_tags(ps@.take(i0 + 1), false));
        }
    }
    proof {
        assert(ps@.take(ps@.len() as int) =~= ps@);
    }
}

/// The sideload and the sysload tags that the documents start or toggle,
/// each once.
pub fn secondary_names(docs: &Vec<Document>) -> (r: (Vec<String>, Vec<String>))
    ensures
        name_set(r.0@) == docs_tags(docs@, true),
        name_set(r.1@) == docs_tags(docs@, false),
{
    let mut side: Vec<String> = Vec::new();
    let mut sys: Vec<String> = Vec::new();
    let mut i: usize = 0;
    proof {
        assert(docs@.take(0) =~= Seq::<Document>::empty());
        assert(name_set(side@) =~= Set::<Seq<char>>::empty());
        assert(name_set(sys@) =~= Set::<Seq<char>>::empty());
    }
    while i < docs.len()
        invariant
            i <= docs@.len(),
            name_set(side@) == docs_tags(docs@.take(i as int), true),
            name_set(sys@) == docs_tags(docs@.take(i as int), false),
        decreases docs@.len() - i,
    {
        let ghost i0 = i as int;
        proof {
            assert(docs@.take(i0 + 1).drop_last() =~= docs@.take(i0));
            assert(docs@.take(i0 + 1).last() == docs@[i0]);
        }
        register_cmds(&docs[i].pre_cmds, &mut side, &mut sys);
        register_body(&docs[i].body, &mut side, &mut sys);
        register_cmds(&docs[i].post_cmds, &mut side, &mut sys);
        i = i + 1;
        proof {
            assert(name_set(side@) =~= docs_tags(docs@.take(i0 + 1), true));
            assert(name_set(sys@) =~= docs_tags(docs@.take(i0 + 1), false));
        }
    }
    proof {
        assert(docs@.take(docs@.len() as int) =~= docs@);
    }
    (side, sys)
}

/// The index of the document with id `id`.
pub fn find_doc(docs: &Vec<Document>, id: &String) -> (r: Option<usize>)
    ensures
        match r {
            Some(i) => i < docs@.len() && docs@[i as int].id@ == id@,
            None => !has_doc(docs@, id@),
        },
{
    let mut i: usize = 0;
    while i < docs.len()
        invariant
            i <= docs@.len(),
            forall|j: int| 0 <= j < i ==> docs@[j].id@ != id@,
        decreases docs@.len() - i,
    {
        if docs[i].id == *id {
            return Some(i);
        }
        i = i + 1;
    }
    None
}

fn check_graph(graphs: &Vec<String>, tag: &String) -> (r: bool)
    ensures
        r == graph_known(graphs@, tag@),
{
    if tag.as_str().is_empty() {
        return true;
    }
    let mut i: usize = 0;
    while i < graphs.len()
        invariant
            i <= graphs@.len(),
            forall|j: int| 0 <= j < i ==> graphs@[j]@ != tag@,
        decreases graphs@.len() - i,
    {
        if graphs[i] == *tag {
            return true;
        }
        i = i + 1;
    }
    false
}

fn check_direct(c: &Command, graphs: &Vec<String>) -> (r: bool)
    ensures
        r == direct_ok(*c, graphs@),
{
    match c {
        Command::On(_) | Command::Off(_) | Command::Reset(_) => true,
        Command::Knob(_, Some(v)) => *v <= RATIO_ONE,
        Command::Graph(tag) => check_graph(graphs, tag),
        _ => false,
    }
}

fn check_group(g: &Vec<Command>, graphs: &Vec<String>) -> (r: bool)
    ensures
        r == forall|i: int| 0 <= i < g@.len() ==> direct_ok(#[trigger] g@[i], graphs@),
{
    let mut i: usize = 0;
    while i < g.len()
        invariant
            i <= g@.len(),
            forall|j: int| 0 <= j < i ==> direct_ok(#[trigger] g@[j], graphs@),
        decreases g@.len() - i,
    {
        if !check_direct(&g[i], graphs) {
            return false;
        }
        i = i + 1;
    }
    true
}

fn check_exec(c: &Command, graphs: &Vec<String>) -> (r: bool)
    ensures
        r == exec_ok(*c, graphs@),
{
    match c {
        Command::Group(g) => check_group(g, graphs),
        _ => check_direct(c, graphs),
    }
}

fn check_jump(c: &Command, docs: &Vec<Document>) -> (r: bool)
    ensures
        r == jump_ok(*c, docs@),
{
    match c {
        Command::Jump(t) => find_doc(docs, t).is_some(),
        _ => false,
    }
}

fn check_prompt(c: &Command, docs: &Vec<Document>, graphs: &Vec<String>) -> (r: bool)
    ensures
        r == prompt_ok(*c, docs@, graphs@),
{
    match c {
        Command::Toggle(_) | Command::Knob(_, None) => true,
        _ => check_exec(c, graphs) || check_jump(c, docs),
    }
}

fn check_doc(d: &Document, docs: &Vec<Document>, graphs: &Vec<String>) -> (r: bool)
    ensures
        r == doc_ok(*d, docs@, graphs@),
{
    let mut i: usize = 0;
    while i < d.pre_cmds.len()
        invariant
            i <= d.pre_cmds@.len(),
            forall|j: int| 0 <= j < i ==> pre_ok(#[trigger] d.pre_cmds@[j], docs@, graphs@),
        decreases d.pre_cmds@.len() - i,
    {
        if !(check_exec(&d.pre_cmds[i], graphs) || check_jump(&d.pre_cmds[i], docs)) {
            return false;
        }
        i = i + 1;
    }
    let mut i: usize = 0;
    while i < d.post_cmds.len()
        invariant
            i <= d.post_cmds@.len(),
            forall|j: int| 0 <= j < i ==> exec_ok(#[trigger] d.post_cmds@[j], graphs@),
        decreases d.post_cmds@.len() - i,
    {
        if !check_exec(&d.post_cmds[i], graphs) {
            return false;
        }
        i = i + 1;
    }
    let mut i: usize = 0;
    while i < d.body.len()
        invariant
            i <= d.body@.len(),
            forall|j: int| 0 <= j < d.pre_cmds@.len() ==> pre_ok(#[trigger] d.pre_cmds@[j], docs@, graphs@),
            forall|j: int| 0 <= j < d.post_cmds@.len() ==> exec_ok(#[trigger] d.post_cmds@[j], graphs@),
            forall|j: int| 0 <= j < i ==> para_ok(#[trigger] d.body@[j], docs@, graphs@),
        decreases d.body@.len() - i,
    {
        if let Paragraph::Prompt(_, c) = &d.body[i] {
            if !check_prompt(c, docs, graphs) {
                return false;
            }
        }
        i = i + 1;
    }
    true
}

/// Checks a set of documents and, where every reference resolves, takes
/// them as the corpus.
pub fn load_docs(docs: Vec<Document>, graph_tags: Vec<String>) -> (r: Result<Corpus, LoadError>)
    ensures
        r is Ok <==> corpus_valid(docs@, graph_tags@),
        r matches Err(LoadError::DuplicateId(_)) <==> !ids_unique(docs@),
        r matches Ok(c) ==> c.docs@ == docs@ && c.graph_tags@ == graph_tags@,
        r matches Ok(c) ==> name_set(c.sideload_names@) == docs_tags(docs@, true) && name_set(
            c.sysload_names@,
        ) == docs_tags(docs@, false),
{
    let mut i: usize = 0;
    while i < docs.len()
        invariant
            i <= docs@.len(),
            forall|a: int, b: int|
                0 <= a < i && 0 <= b < docs@.len() && #[trigger] docs@[a].id@ == #[trigger] docs@[b].id@
                    ==> a == b,
        decreases docs@.len() - i,
    {
        let mut j: usize = 0;
        while j < docs.len()
            invariant
                i < docs@.len(),
                j <= docs@.len(),
                forall|b: int| 0 <= b < j && docs@[i as int].id@ == #[trigger] docs@[b].id@ ==> b == i,
            decreases docs@.len() - j,
        {
            if j != i && docs[j].id == docs[i].id {
                assert(docs@[i as int].id@ == docs@[j as int].id@);
                return Err(LoadError::DuplicateId(docs[i].id.clone()));
            }
            j = j + 1;
        }
        i = i + 1;
    }
    let mut i: usize = 0;
    while i < docs.len()
        invariant
            i <= docs@.len(),
            ids_unique(docs@),
            forall|j: int| 0 <= j < i ==> doc_ok(#[trigger] docs@[j], docs@, graph_tags@),
        decreases docs@.len() - i,
    {
        if !check_doc(&docs[i], &docs, &graph_tags) {
            return Err(LoadError::BadCommand(docs[i].id.clone()));
        }
        i = i + 1;
    }
    let (sideload_names, sysload_names) = secondary_names(&docs);
    Ok(Corpus { docs, graph_tags, sideload_names, sysload_names })
}

} // verus!
