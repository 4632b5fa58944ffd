//! The stats websocket: one sample of `docker stats` per line.

use vstd::prelude::*;
use crate::flow::push_str;
use crate::text::{joined, lemma_split_undoes_join, split_char, split_on, views};

verus! {

/// The Go template for `docker stats`: six fields separated by `|`.
pub open spec fn stats_format() -> Seq<char> {
    "{{.CPUPerc}}|{{.MemUsage}}|{{.MemPerc}}|{{.NetIO}}|{{.BlockIO}}|{{.PIDs}}"@
}

pub open spec fn stats_args(container_id: Seq<char>) -> Seq<Seq<char>> {
    seq!["stats"@, container_id, "--format"@, stats_format()]
}

pub fn build_stats_args(container_id: &str) -> (r: Vec<String>)
    ensures
        views(r@) == stats_args(container_id@),
{
    let mut r: Vec<String> = Vec::new();
    push_str(&mut r, "stats");
    push_str(&mut r, container_id);
    push_str(&mut r, "--format");
    push_str(&mut r, "{{.CPUPerc}}|{{.MemUsage}}|{{.MemPerc}}|{{.NetIO}}|{{.BlockIO}}|{{.PIDs}}");
    assert(views(r@) =~= stats_args(container_id@));
    r
}

/// One sample, each field as Docker printed it.
#[derive(Clone, Debug, PartialEq, Eq)]
pub struct StatsSample {
    pub cpu: String,
    pub mem_usage: String,
    pub mem_percent: String,
    pub net_io: String,
    pub block_io: String,
    pub pids: String,
}

impl StatsSample {
    pub open spec fn fields(self) -> Seq<Seq<char>> {
        seq![self.cpu@, self.mem_usage@, self.mem_percent@, self.net_io@, self.block_io@, self.pids@]
    }
}

/// The sample on a line: its six `|`-separated fields; a line with another
/// number of fields is skipped.
pub fn parse_stats_line(line: &str) -> (r: Option<StatsSample>)
    ensures
        r is Some <==> split_on(line@, '|').len() == 6,
        r matches Some(s) ==> s.fields() == split_on(line@, '|'),
{
    let mut parts = split_char(line, '|');
    if parts.len() != 6 {
        return None;
    }
    let pids = parts.pop().unwrap();
    let block_io = parts.pop().unwrap();
    let net_io = parts.pop().unwrap();
    let mem_percent = parts.pop().unwrap();
    let mem_usage = parts.pop().unwrap();
    let cpu = parts.pop().unwrap();
    let s = StatsSample { cpu, mem_usage, mem_percent, net_io, block_io, pids };
    assert(s.fields() =~= split_on(line@, '|'));
    Some(s)
}

/// A line made of six fields that hold no `|` gives those fields back.
pub proof fn lemma_sample_line_round_trip(fields: Seq<Seq<char>>)
    requires
        fields.len() == 6,
        forall|i: int| 0 <= i < 6 ==> !(#[trigger] fields[i]).contains('|'),
    ensures
        split_on(joined(fields, seq!['|']), '|') == fields,
{
    lemma_split_undoes_join(fields, '|');
}

} // verus!
