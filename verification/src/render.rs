//! The metric renderer: a pure mapping from a snapshot, or from the fact
//! that no snapshot could be obtained, to Prometheus exposition text.
//!
//! Every metric renders as a `# HELP` line, a `# TYPE` line and exactly one
//! unlabelled sample line; metric blocks are separated by single newlines and
//! the text carries no trailing newline. On failure only the liveness gauge
//! `opcache_up` is emitted, valued 0.
use vstd::prelude::*;
use vstd::string::StringExecFns;
use crate::snapshot::Opcache;
use crate::snapshot::OpcacheV;
use crate::text::append_dec_i64;
use crate::text::dec_int;

verus! {

/// Whether a metric is a point-in-time value or a monotonic accumulator.
#[derive(Debug, Clone, Copy, PartialEq, Eq, Structural)]
pub enum MetricType {
    Gauge,
    Counter,
}

/// A sample value: a boolean (rendered 0/1), an integer, or literal
/// number text.
#[derive(Debug, Clone)]
pub enum MetricValue {
    Bool(bool),
    Int(i64),
    Num(String),
}

/// Mathematical image of [`MetricValue`].
pub enum MetricValueV {
    Bool(bool),
    Int(int),
    Num(Seq<char>),
}

impl View for MetricValue {
    type V = MetricValueV;

    open spec fn view(&self) -> MetricValueV {
        match self {
            MetricValue::Bool(b) => MetricValueV::Bool(*b),
            MetricValue::Int(i) => MetricValueV::Int(*i as int),
            MetricValue::Num(s) => MetricValueV::Num(s@),
        }
    }
}

/// One metric: its name, type, help text and sample value, built fresh per
/// render call.
#[derive(Debug, Clone)]
pub struct MetricSample {
    pub name: String,
    pub mtype: MetricType,
    pub help: String,
    pub value: MetricValue,
}

/// Mathematical image of [`MetricSample`].
pub struct MetricSampleV {
    pub name: Seq<char>,
    pub mtype: MetricType,
    pub help: Seq<char>,
    pub value: MetricValueV,
}

impl View for MetricSample {
    type V = MetricSampleV;

    open spec fn view(&self) -> MetricSampleV {
        MetricSampleV {
            name: self.name@,
            mtype: self.mtype,
            help: self.help@,
            value: self.value@,
        }
    }
}

/// The exposition keyword of a metric type.
pub open spec fn type_text(t: MetricType) -> Seq<char> {
    match t {
        MetricType::Gauge => "gauge"@,
        MetricType::Counter => "counter"@,
    }
}

/// The text of a sample value.
pub open spec fn value_text(v: MetricValueV) -> Seq<char> {
    match v {
        MetricValueV::Bool(b) => if b {
            "1"@
        } else {
            "0"@
        },
        MetricValueV::Int(i) => dec_int(i),
        MetricValueV::Num(t) => t,
    }
}

/// One metric's block: HELP line, TYPE line and sample line, the block
/// itself free of blank lines and of a trailing newline.
pub open spec fn block_text(m: MetricSampleV) -> Seq<char> {
    "# HELP "@ + m.name + " "@ + m.help + "\n"@ + "# TYPE "@ + m.name + " "@ + type_text(m.mtype)
        + "\n"@ + m.name + " "@ + value_text(m.value)
}

/// The blocks of the samples from index `i` on, separated by newlines.
pub open spec fn joined_from(s: Seq<MetricSampleV>, i: int) -> Seq<char>
    decreases s.len() - i,
{
    if i < 0 || i >= s.len() {
        Seq::empty()
    } else if i == s.len() - 1 {
        block_text(s[i])
    } else {
        block_text(s[i]) + "\n"@ + joined_from(s, i + 1)
    }
}

/// The mathematical images of a sample list.
pub open spec fn sample_views(s: Seq<MetricSample>) -> Seq<MetricSampleV> {
    s.map_values(|m: MetricSample| m@)
}

/// Shorthand for one sample image.
pub open spec fn sv(name: Seq<char>, t: MetricType, help: Seq<char>, v: MetricValueV) -> MetricSampleV {
    MetricSampleV { name: name, mtype: t, help: help, value: v }
}

/// The liveness sample: whether the scrape obtained a snapshot.
pub open spec fn up_sample(up: bool) -> MetricSampleV {
    sv("opcache_up"@, MetricType::Gauge, "Opcache Scrape Successful"@, MetricValueV::Bool(up))
}

/// The canonical sample list of a snapshot: the liveness gauge valued 1,
/// then one metric per snapshot field, named for the field path, in a fixed
/// order, the monotonically accumulating statistics typed as counters.
pub open spec fn samples_spec(op: OpcacheV) -> Seq<MetricSampleV> {
    seq![
        up_sample(true),
        sv("opcache_opcache_enabled"@, MetricType::Gauge, "Opcache Enabled"@,
            MetricValueV::Bool(op.opcache_enabled)),
        sv("opcache_cache_full"@, MetricType::Gauge, "Opcache Cache Full"@,
            MetricValueV::Bool(op.cache_full)),
        sv("opcache_restart_pending"@, MetricType::Gauge, "Opcache Restart Pending"@,
            MetricValueV::Bool(op.restart_pending)),
        sv("opcache_restart_in_progress"@, MetricType::Gauge, "Opcache Restart In Progress"@,
            MetricValueV::Bool(op.restart_in_progress)),
        sv("opcache_memory_usage_used_memory"@, MetricType::Gauge, "Opcache Used Memory"@,
            MetricValueV::Int(op.memory_usage.used_memory)),
        sv("opcache_memory_usage_free_memory"@, MetricType::Gauge, "Opcache Free Memory"@,
            MetricValueV::Int(op.memory_usage.free_memory)),
        sv("opcache_memory_usage_wasted_memory"@, MetricType::Gauge, "Opcache Wasted Memory"@,
            MetricValueV::Int(op.memory_usage.wasted_memory)),
        sv("opcache_memory_usage_current_wasted_percentage"@, MetricType::Gauge,
            "Opcache Wasted Memory Percentage"@,
            MetricValueV::Num(op.memory_usage.current_wasted_percentage)),
        sv("opcache_interned_strings_usage_buffer_size"@, MetricType::Gauge,
            "Opcache Interned Strings Buffer Size"@,
            MetricValueV::Int(op.interned_strings_usage.buffer_size)),
        sv("opcache_interned_strings_usage_used_memory"@, MetricType::Gauge,
            "Opcache Interned Strings Used Memory"@,
            MetricValueV::Int(op.interned_strings_usage.used_memory)),
        sv("opcache_interned_strings_usage_free_memory"@, MetricType::Gauge,
            "Opcache Interned Strings Free Memory"@,
            MetricValueV::Int(op.interned_strings_usage.free_memory)),
        sv("opcache_interned_strings_usage_number_of_strings"@, MetricType::Gauge,
            "Opcache Interned Strings Number of Strings"@,
            MetricValueV::Int(op.interned_strings_usage.number_of_strings)),
        sv("opcache_opcache_statistics_num_cached_scripts"@, MetricType::Gauge,
            "Opcache Cached Scripts"@,
            MetricValueV::Int(op.opcache_statistics.num_cached_scripts)),
        sv("opcache_opcache_statistics_num_cached_keys"@, MetricType::Gauge,
            "Opcache Cached Keys"@,
            MetricValueV::Int(op.opcache_statistics.num_cached_keys)),
        sv("opcache_opcache_statistics_max_cached_keys"@, MetricType::Gauge,
            "Opcache Max Cached Keys"@,
            MetricValueV::Int(op.opcache_statistics.max_cached_keys)),
        sv("opcache_opcache_statistics_hits"@, MetricType::Counter, "Opcache Hits"@,
            MetricValueV::Int(op.opcache_statistics.hits)),
        sv("opcache_opcache_statistics_start_time"@, MetricType::Gauge, "Opcache Start Time"@,
            MetricValueV::Int(op.opcache_statistics.start_time)),
        sv("opcache_opcache_statistics_last_restart_time"@, MetricType::Gauge,
            "Opcache Last Restart Time"@,
            MetricValueV::Int(op.opcache_statistics.last_restart_time)),
        sv("opcache_opcache_statistics_oom_restarts"@, MetricType::Counter,
            "Opcache OOM Restarts"@,
            MetricValueV::Int(op.opcache_statistics.oom_restarts)),
        sv("opcache_opcache_statistics_hash_restarts"@, MetricType::Counter,
            "Opcache Hash Restarts"@,
            MetricValueV::Int(op.opcache_statistics.hash_restarts)),
        sv("opcache_opcache_statistics_manual_restarts"@, MetricType::Counter,
            "Opcache Manual Restarts"@,
            MetricValueV::Int(op.opcache_statistics.manual_restarts)),
        sv("opcache_opcache_statistics_misses"@, MetricType::Counter, "Opcache Misses"@,
            MetricValueV::Int(op.opcache_statistics.misses)),
        sv("opcache_opcache_statistics_blacklist_misses"@, MetricType::Counter,
            "Opcache Blacklist Misses"@,
            MetricValueV::Int(op.opcache_statistics.blacklist_misses)),
        sv("opcache_opcache_statistics_blacklist_miss_ratio"@, MetricType::Gauge,
            "Opcache Blacklist Miss Ratio"@,
            MetricValueV::Num(op.opcache_statistics.blacklist_miss_ratio)),
        sv("opcache_opcache_statistics_opcache_hit_rate"@, MetricType::Gauge,
            "Opcache Hit Rate"@,
            MetricValueV::Num(op.opcache_statistics.opcache_hit_rate)),
    ]
}

/// The full exposition text of a snapshot.
pub open spec fn render_spec(op: OpcacheV) -> Seq<char> {
    joined_from(samples_spec(op), 0)
}

/// The exposition text of a failed scrape: the liveness gauge alone,
/// valued 0.
pub open spec fn render_failure_text() -> Seq<char> {
    block_text(up_sample(false))
}

/// Builds one sample.
fn sample(name: &str, t: MetricType, help: &str, value: MetricValue) -> (r: MetricSample)
    ensures
        r@ == sv(name@, t, help@, value@),
{
    MetricSample {
        name: String::from_str(name),
        mtype: t,
        help: String::from_str(help),
        value: value,
    }
}

/// Builds the canonical sample list of a snapshot.
pub fn build_samples(op: &Opcache) -> (r: Vec<MetricSample>)
    ensures
        sample_views(r@) == samples_spec(op@),
{
    let mut v: Vec<MetricSample> = Vec::new();
    v.push(sample("opcache_up", MetricType::Gauge, "Opcache Scrape Successful",
        MetricValue::Bool(true)));
    v.push(sample("opcache_opcache_enabled", MetricType::Gauge, "Opcache Enabled",
        MetricValue::Bool(op.opcache_enabled)));
    v.push(sample("opcache_cache_full", MetricType::Gauge, "Opcache Cache Full",
        MetricValue::Bool(op.cache_full)));
    v.push(sample("opcache_restart_pending", MetricType::Gauge, "Opcache Restart Pending",
        MetricValue::Bool(op.restart_pending)));
    v.push(sample("opcache_restart_in_progress", MetricType::Gauge,
        "Opcache Restart In Progress", MetricValue::Bool(op.restart_in_progress)));
    v.push(sample("opcache_memory_usage_used_memory", MetricType::Gauge, "Opcache Used Memory",
        MetricValue::Int(op.memory_usage.used_memory)));
    v.push(sample("opcache_memory_usage_free_memory", MetricType::Gauge, "Opcache Free Memory",
        MetricValue::Int(op.memory_usage.free_memory)));
    v.push(sample("opcache_memory_usage_wasted_memory", MetricType::Gauge,
        "Opcache Wasted Memory", MetricValue::Int(op.memory_usage.wasted_memory)));
    v.push(sample("opcache_memory_usage_current_wasted_percentage", MetricType::Gauge,
        "Opcache Wasted Memory Percentage",
        MetricValue::Num(op.memory_usage.current_wasted_percentage.clone())));
    v.push(sample("opcache_interned_strings_usage_buffer_size", MetricType::Gauge,
        "Opcache Interned Strings Buffer Size",
        MetricValue::Int(op.interned_strings_usage.buffer_size)));
    v.push(sample("opcache_interned_strings_usage_used_memory", MetricType::Gauge,
        "Opcache Interned Strings Used Memory",
        MetricValue::Int(op.interned_strings_usage.used_memory)));
    v.push(sample("opcache_interned_strings_usage_free_memory", MetricType::Gauge,
        "Opcache Interned Strings Free Memory",
        MetricValue::Int(op.interned_strings_usage.free_memory)));
    v.push(sample("opcache_interned_strings_usage_number_of_strings", MetricType::Gauge,
        "Opcache Interned Strings Number of Strings",
        MetricValue::Int(op.interned_strings_usage.number_of_strings)));
    v.push(sample("opcache_opcache_statistics_num_cached_scripts", MetricType::Gauge,
        "Opcache Cached Scripts", MetricValue::Int(op.opcache_statistics.num_cached_scripts)));
    v.push(sample("opcache_opcache_statistics_num_cached_keys", MetricType::Gauge,
        "Opcache Cached Keys", MetricValue::Int(op.opcache_statistics.num_cached_keys)));
    v.push(sample("opcache_opcache_statistics_max_cached_keys", MetricType::Gauge,
        "Opcache Max Cached Keys", MetricValue::Int(op.opcache_statistics.max_cached_keys)));
    v.push(sample("opcache_opcache_statistics_hits", MetricType::Counter, "Opcache Hits",
        MetricValue::Int(op.opcache_statistics.hits)));
    v.push(sample("opcache_opcache_statistics_start_time", MetricType::Gauge,
        "Opcache Start Time", MetricValue::Int(op.opcache_statistics.start_time)));
    v.push(sample("opcache_opcache_statistics_last_restart_time", MetricType::Gauge,
        "Opcache Last Restart Time", MetricValue::Int(op.opcache_statistics.last_restart_time)));
    v.push(sample("opcache_opcache_statistics_oom_restarts", MetricType::Counter,
        "Opcache OOM Restarts", MetricValue::Int(op.opcache_statistics.oom_restarts)));
    v.push(sample("opcache_opcache_statistics_hash_restarts", MetricType::Counter,
        "Opcache Hash Restarts", MetricValue::Int(op.opcache_statistics.hash_restarts)));
    v.push(sample("opcache_opcache_statistics_manual_restarts", MetricType::Counter,
        "Opcache Manual Restarts", MetricValue::Int(op.opcache_statistics.manual_restarts)));
    v.push(sample("opcache_opcache_statistics_misses", MetricType::Counter, "Opcache Misses",
        MetricValue::Int(op.opcache_statistics.misses)));
    v.push(sample("opcache_opcache_statistics_blacklist_misses", MetricType::Counter,
        "Opcache Blacklist Misses", MetricValue::Int(op.opcache_statistics.blacklist_misses)));
    v.push(sample("opcache_opcache_statistics_blacklist_miss_ratio", MetricType::Gauge,
        "Opcache Blacklist Miss Ratio",
        MetricValue::Num(op.opcache_statistics.blacklist_miss_ratio.clone())));
    v.push(sample("opcache_opcache_statistics_opcache_hit_rate", MetricType::Gauge,
        "Opcache Hit Rate", MetricValue::Num(op.opcache_statistics.opcache_hit_rate.clone())));
    proof {
        assert(sample_views(v@) =~= samples_spec(op@));
    }
    v
}

/// Renders one metric's block.
fn render_block(m: &MetricSample) -> (r: String)
    ensures
        r@ == block_text(m@),
{
    let mut s = String::new();
    s.append("# HELP ");
    s.append(m.name.as_str());
    s.append(" ");
    s.append(m.help.as_str());
    s.append("\n");
    s.append("# TYPE ");
    s.append(m.name.as_str());
    s.append(" ");
    match m.mtype {
        MetricType::Gauge => s.append("gauge"),
        MetricType::Counter => s.append("counter"),
    }
    s.append("\n");
    s.append(m.name.as_str());
    s.append(" ");
    match &m.value {
        MetricValue::Bool(b) => {
            if *b {
                s.append("1");
            } else {
                s.append("0");
            }
        },
        MetricValue::Int(i) => {
            append_dec_i64(&mut s, *i);
        },
        MetricValue::Num(t) => {
            s.append(t.as_str());
        },
    }
    proof {
        assert(s@ =~= block_text(m@));
    }
    s
}

/// Renders the blocks of a sample list from index `i` on.
fn render_from(samples: &Vec<MetricSample>, i: usize) -> (r: String)
    requires
        i <= samples@.len(),
    ensures
        r@ == joined_from(sample_views(samples@), i as int),
    decreases samples@.len() - i,
{
    if i >= samples.len() {
        String::new()
    } else {
        let mut s = render_block(&samples[i]);
        if i + 1 < samples.len() {
            s.append("\n");
            let rest = render_from(samples, i + 1);
            s.append(rest.as_str());
            proof {
                assert(s@ =~= joined_from(sample_views(samples@), i as int));
            }
        } else {
            proof {
                assert(s@ =~= joined_from(sample_views(samples@), i as int));
            }
        }
        s
    }
}

/// Renders the full metric set of a snapshot.
pub fn render_opcache_stats(op: &Opcache) -> (r: String)
    ensures
        r@ == render_spec(op@),
{
    let samples = build_samples(op);
    render_from(&samples, 0)
}

/// Renders the degraded output of a failed scrape: the liveness gauge alone,
/// valued 0, so that a 0 liveness value together with the absence of every
/// other series is itself the failure signal.
pub fn render_scrape_failure() -> (r: String)
    ensures
        r@ == render_failure_text(),
{
    render_block(&sample("opcache_up", MetricType::Gauge, "Opcache Scrape Successful",
        MetricValue::Bool(false)))
}

/// The fixed list of metric names and types that every successful render
/// carries, in order.
pub open spec fn metric_heads() -> Seq<(Seq<char>, MetricType)> {
    seq![
        ("opcache_up"@, MetricType::Gauge),
        ("opcache_opcache_enabled"@, MetricType::Gauge),
        ("opcache_cache_full"@, MetricType::Gauge),
        ("opcache_restart_pending"@, MetricType::Gauge),
        ("opcache_restart_in_progress"@, MetricType::Gauge),
        ("opcache_memory_usage_used_memory"@, MetricType::Gauge),
        ("opcache_memory_usage_free_memory"@, MetricType::Gauge),
        ("opcache_memory_usage_wasted_memory"@, MetricType::Gauge),
        ("opcache_memory_usage_current_wasted_percentage"@, MetricType::Gauge),
        ("opcache_interned_strings_usage_buffer_size"@, MetricType::Gauge),
        ("opcache_interned_strings_usage_used_memory"@, MetricType::Gauge),
        ("opcache_interned_strings_usage_free_memory"@, MetricType::Gauge),
        ("opcache_interned_strings_usage_number_of_strings"@, MetricType::Gauge),
        ("opcache_opcache_statistics_num_cached_scripts"@, MetricType::Gauge),
        ("opcache_opcache_statistics_num_cached_keys"@, MetricType::Gauge),
        ("opcache_opcache_statistics_max_cached_keys"@, MetricType::Gauge),
        ("opcache_opcache_statistics_hits"@, MetricType::Counter),
        ("opcache_opcache_statistics_start_time"@, MetricType::Gauge),
        ("opcache_opcache_statistics_last_restart_time"@, MetricType::Gauge),
        ("opcache_opcache_statistics_oom_restarts"@, MetricType::Counter),
        ("opcache_opcache_statistics_hash_restarts"@, MetricType::Counter),
        ("opcache_opcache_statistics_manual_restarts"@, MetricType::Counter),
        ("opcache_opcache_statistics_misses"@, MetricType::Counter),
        ("opcache_opcache_statistics_blacklist_misses"@, MetricType::Counter),
        ("opcache_opcache_statistics_blacklist_miss_ratio"@, MetricType::Gauge),
        ("opcache_opcache_statistics_opcache_hit_rate"@, MetricType::Gauge),
    ]
}

/// The names and types of a sample list.
pub open spec fn heads_of(s: Seq<MetricSampleV>) -> Seq<(Seq<char>, MetricType)> {
    s.map_values(|m: MetricSampleV| (m.name, m.mtype))
}

/// Law: whatever the snapshot holds, a successful render carries exactly the
/// fixed metric names with their declared types, in the fixed order.
pub proof fn lemma_fixed_metric_heads(op: OpcacheV)
    ensures
        heads_of(samples_spec(op)) == metric_heads(),
{
    assert(heads_of(samples_spec(op)) =~= metric_heads());
}

} // verus!
