use vstd::prelude::*;
use crate::ratio::{scale_sat, scale_sat_spec};

verus! {

/// What the agent reports that tags are resolved against.
#[derive(Clone, Debug)]
pub struct AgentStatus {
    /// The names of all system requirements.
    pub sysreqs: Vec<String>,
    /// The names of those that are satisfied.
    pub satisfied: Vec<String>,
    /// How many requirements are missed.
    pub missed: u64,
    /// Completed benchmark runs.
    pub hashd_seq: u64,
    pub iocost_seq: u64,
    /// The balloon size that benchmarking uses, bytes.
    pub bench_balloon_size: u64,
    /// Benchmarked memory footprint of a workload, bytes.
    pub hashd_mem_size: u64,
    /// Benchmarked memory fraction, a ratio.
    pub hashd_mem_frac: u64,
}

/// What a tag displays.
#[derive(Clone, Copy, Debug, PartialEq, Eq, Structural)]
pub enum TagText {
    /// The tag itself, styled as satisfied or as alerting.
    Req(bool),
    /// A count.
    Count(u64),
    /// An empty marker.
    Marker,
    /// A size in bytes.
    Size(u64),
    /// The tag between percent signs: no such tag.
    Unknown,
}

pub open spec fn names_hold(names: Seq<String>, name: Seq<char>) -> bool {
    exists|i: int| 0 <= i < names.len() && #[trigger] names[i]@ == name
}

pub open spec fn is_req_tag(tag: Seq<char>) -> bool {
    tag.len() >= 8 && tag.subrange(0, 8) == "SysReq::"@
}

/// What `tag` displays given `st`; `None` hides it.
pub open spec fn tag_text(tag: Seq<char>, st: AgentStatus) -> Option<TagText> {
    if is_req_tag(tag) {
        let name = tag.subrange(8, tag.len() as int);
        if names_hold(st.sysreqs@, name) {
            Some(TagText::Req(names_hold(st.satisfied@, name)))
        } else {
            Some(TagText::Unknown)
        }
    } else if tag == "MissedSysReqs"@ {
        if st.missed > 0 {
            Some(TagText::Count(st.missed))
        } else {
            None
        }
    } else if tag == "NeedBenchHashd"@ {
        if st.hashd_seq > 0 {
            None
        } else {
            Some(TagText::Marker)
        }
    } else if tag == "NeedBenchIoCost"@ {
        if st.iocost_seq > 0 {
            None
        } else {
            Some(TagText::Marker)
        }
    } else if tag == "NeedBench"@ {
        if st.hashd_seq > 0 && st.iocost_seq > 0 {
            None
        } else {
            Some(TagText::Marker)
        }
    } else if tag == "HaveBench"@ {
        if st.hashd_seq > 0 && st.iocost_seq > 0 {
            Some(TagText::Marker)
        } else {
            None
        }
    } else if tag == "BenchBalloonSize"@ {
        Some(TagText::Size(st.bench_balloon_size))
    } else if tag == "HashdMemSize"@ {
        Some(TagText::Size(scale_sat_spec(st.hashd_mem_size, st.hashd_mem_frac) as u64))
    } else {
        Some(TagText::Unknown)
    }
}

fn find_name(names: &Vec<String>, name: &String) -> (r: bool)
    ensures
        r == names_hold(names@, name@),
{
    let mut i: usize = 0;
    while i < names.len()
        invariant
            i <= names@.len(),
            forall|j: int| 0 <= j < i ==> names@[j]@ != name@,
        decreases names@.len() - i,
    {
        if names[i] == *name {
            return true;
        }
        i = i + 1;
    }
    false
}

fn str_is(s: &str, lit: &str) -> (r: bool)
    ensures
        r == (s@ == lit@),
{
    s.to_owned() == lit.to_owned()
}

/// What `tag` displays given `st`; `None` hides it. Unknown tags display
/// as themselves between percent signs rather than failing.
pub fn format_markup_tags(tag: &str, st: &AgentStatus) -> (r: Option<TagText>)
    ensures
        r == tag_text(tag@, *st),
{
    let n = tag.unicode_len();
    if n >= 8 && str_is(tag.substring_char(0, 8), "SysReq::") {
        let name = tag.substring_char(8, n).to_owned();
        if find_name(&st.sysreqs, &name) {
            return Some(TagText::Req(find_name(&st.satisfied, &name)));
        } else {
            return Some(TagText::Unknown);
        }
    }
    if str_is(tag, "MissedSysReqs") {
        if st.missed > 0 {
            Some(TagText::Count(st.missed))
        } else {
            None
        }
    } else if str_is(tag, "NeedBenchHashd") {
        if st.hashd_seq > 0 {
            None
        } else {
            Some(TagText::Marker)
        }
    } else if str_is(tag, "NeedBenchIoCost") {
        if st.iocost_seq > 0 {
            None
        } else {
            Some(TagText::Marker)
        }
    } else if str_is(tag, "NeedBench") {
        if st.hashd_seq > 0 && st.iocost_seq > 0 {
            None
        } else {
            Some(TagText::Marker)
        }
    } else if str_is(tag, "HaveBench") {
        if st.hashd_seq > 0 && st.iocost_seq > 0 {
            Some(TagText::Marker)
        } else {
            None
        }
    } else if str_is(tag, "BenchBalloonSize") {
        Some(TagText::Size(st.bench_balloon_size))
    } else if str_is(tag, "HashdMemSize") {
        Some(TagText::Size(scale_sat(st.hashd_mem_size, st.hashd_mem_frac)))
    } else {
        Some(TagText::Unknown)
    }
}

} // verus!
