//! The typed snapshot of the worker's opcache status payload.
//!
//! Counters and sizes are integers. The fields the worker reports as
//! fractional values (percentages, rates, per-script memory) are carried as
//! their literal JSON number text: the pipeline never computes with them, it
//! only reproduces them in the exposition output.
use vstd::prelude::*;
use crate::php_date_format::PhpDate;

verus! {

/// Memory accounting of the bytecode cache.
#[derive(Debug, Clone)]
pub struct MemoryUsage {
    pub used_memory: i64,
    pub free_memory: i64,
    pub wasted_memory: i64,
    /// JSON number text of the wasted-memory percentage.
    pub current_wasted_percentage: String,
}

/// Memory accounting of the interned-string buffer.
#[derive(Debug, Clone)]
pub struct InternedStringsUsage {
    pub buffer_size: i64,
    pub used_memory: i64,
    pub free_memory: i64,
    pub number_of_strings: i64,
}

/// Cache population, hit and restart statistics.
#[derive(Debug, Clone)]
pub struct OpcacheStatistics {
    pub num_cached_scripts: i64,
    pub num_cached_keys: i64,
    pub max_cached_keys: i64,
    pub hits: i64,
    pub start_time: i64,
    pub last_restart_time: i64,
    pub oom_restarts: i64,
    pub hash_restarts: i64,
    pub manual_restarts: i64,
    pub misses: i64,
    pub blacklist_misses: i64,
    /// JSON number text of the blacklist miss ratio.
    pub blacklist_miss_ratio: String,
    /// JSON number text of the hit rate.
    pub opcache_hit_rate: String,
}

/// One cached script's record.
#[derive(Debug, Clone)]
pub struct Scripts {
    pub full_path: String,
    pub hits: i64,
    /// JSON number text of the script's memory consumption.
    pub memory_consumption: String,
    pub last_used: PhpDate,
    pub last_used_timestamp: i64,
    pub timestamp: i64,
}

/// The whole decoded status payload.
#[derive(Debug, Clone)]
pub struct Opcache {
    pub opcache_enabled: bool,
    pub cache_full: bool,
    pub restart_pending: bool,
    pub restart_in_progress: bool,
    pub memory_usage: MemoryUsage,
    pub interned_strings_usage: InternedStringsUsage,
    pub opcache_statistics: OpcacheStatistics,
    /// The per-script records, keyed by absolute file path, in the order
    /// the payload lists them.
    pub scripts: Vec<(String, Scripts)>,
}

/// Mathematical image of [`MemoryUsage`].
pub struct MemoryUsageV {
    pub used_memory: int,
    pub free_memory: int,
    pub wasted_memory: int,
    pub current_wasted_percentage: Seq<char>,
}

/// Mathematical image of [`InternedStringsUsage`].
pub struct InternedStringsUsageV {
    pub buffer_size: int,
    pub used_memory: int,
    pub free_memory: int,
    pub number_of_strings: int,
}

/// Mathematical image of [`OpcacheStatistics`].
pub struct OpcacheStatisticsV {
    pub num_cached_scripts: int,
    pub num_cached_keys: int,
    pub max_cached_keys: int,
    pub hits: int,
    pub start_time: int,
    pub last_restart_time: int,
    pub oom_restarts: int,
    pub hash_restarts: int,
    pub manual_restarts: int,
    pub misses: int,
    pub blacklist_misses: int,
    pub blacklist_miss_ratio: Seq<char>,
    pub opcache_hit_rate: Seq<char>,
}

/// Mathematical image of [`Scripts`].
pub struct ScriptsV {
    pub full_path: Seq<char>,
    pub hits: int,
    pub memory_consumption: Seq<char>,
    pub last_used: PhpDate,
    pub last_used_timestamp: int,
    pub timestamp: int,
}

/// Mathematical image of [`Opcache`].
pub struct OpcacheV {
    pub opcache_enabled: bool,
    pub cache_full: bool,
    pub restart_pending: bool,
    pub restart_in_progress: bool,
    pub memory_usage: MemoryUsageV,
    pub interned_strings_usage: InternedStringsUsageV,
    pub opcache_statistics: OpcacheStatisticsV,
    pub scripts: Seq<(Seq<char>, ScriptsV)>,
}

impl View for MemoryUsage {
    type V = MemoryUsageV;

    open spec fn view(&self) -> MemoryUsageV {
        MemoryUsageV {
            used_memory: self.used_memory as int,
            free_memory: self.free_memory as int,
            wasted_memory: self.wasted_memory as int,
            current_wasted_percentage: self.current_wasted_percentage@,
        }
    }
}

impl View for InternedStringsUsage {
    type V = InternedStringsUsageV;

    open spec fn view(&self) -> InternedStringsUsageV {
        InternedStringsUsageV {
            buffer_size: self.buffer_size as int,
            used_memory: self.used_memory as int,
            free_memory: self.free_memory as int,
            number_of_strings: self.number_of_strings as int,
        }
    }
}

impl View for OpcacheStatistics {
    type V = OpcacheStatisticsV;

    open spec fn view(&self) -> OpcacheStatisticsV {
        OpcacheStatisticsV {
            num_cached_scripts: self.num_cached_scripts as int,
            num_cached_keys: self.num_cached_keys as int,
            max_cached_keys: self.max_cached_keys as int,
            hits: self.hits as int,
            start_time: self.start_time as int,
            last_restart_time: self.last_restart_time as int,
            oom_restarts: self.oom_restarts as int,
            hash_restarts: self.hash_restarts as int,
            manual_restarts: self.manual_restarts as int,
            misses: self.misses as int,
            blacklist_misses: self.blacklist_misses as int,
            blacklist_miss_ratio: self.blacklist_miss_ratio@,
            opcache_hit_rate: self.opcache_hit_rate@,
        }
    }
}

impl View for Scripts {
    type V = ScriptsV;

    open spec fn view(&self) -> ScriptsV {
        ScriptsV {
            full_path: self.full_path@,
            hits: self.hits as int,
            memory_consumption: self.memory_consumption@,
            last_used: self.last_used,
            last_used_timestamp: self.last_used_timestamp as int,
            timestamp: self.timestamp as int,
        }
    }
}

/// Mathematical image of a scripts list.
pub open spec fn scripts_views(v: Seq<(String, Scripts)>) -> Seq<(Seq<char>, ScriptsV)> {
    v.map_values(|e: (String, Scripts)| (e.0@, e.1@))
}

impl View for Opcache {
    type V = OpcacheV;

    open spec fn view(&self) -> OpcacheV {
        OpcacheV {
            opcache_enabled: self.opcache_enabled,
            cache_full: self.cache_full,
            restart_pending: self.restart_pending,
            restart_in_progress: self.restart_in_progress,
            memory_usage: self.memory_usage@,
            interned_strings_usage: self.interned_strings_usage@,
            opcache_statistics: self.opcache_statistics@,
            scripts: scripts_views(self.scripts@),
        }
    }
}

} // verus!
