//! The optimisation search: the strategy configuration and the named parameters of
//! simulated annealing.
//!
//! Temperatures, thresholds and factors are fixed-point scores in millionths; counts
//! are stored as scores too and read back as their whole part.

use vstd::prelude::*;
use vstd::string::*;
use crate::config::metadata::{metadata_views, numeric_param, ParamType, ParameterMetadata};
use crate::config::weights::settings::{
    apply_named_overrides, apply_overrides, distinct_names, find_weight_exec,
    lemma_apply_overrides_distinct, lemma_set_entry_distinct, score_count, score_to_count,
    set_entry, set_named_score, weight_entries, weight_or,
};
use crate::error::ForgeError;
use crate::text::{decimal, u64_to_decimal};
use crate::types::Score;
use crate::validator::Validator;

verus! {

/// Largest annealing temperature accepted (1000.0), as a score.
pub const MAX_TEMP: i64 = 1_000_000_000;
/// Largest number of search epochs.
pub const MAX_SEARCH_EPOCHS: usize = 1_000_000;
/// Largest number of search steps per epoch.
pub const MAX_SEARCH_STEPS: usize = 5_000_000;
/// Largest fast-path optimisation limit.
pub const MAX_OPT_LIMIT_FAST: usize = 10_000;
/// Smallest minimum temperature accepted (0.0001), as a score.
pub const MIN_TEMP_FLOOR: i64 = 100;

/// Default number of search epochs.
pub const DEFAULT_SEARCH_EPOCHS: usize = 10_000;
/// Default number of search steps per epoch.
pub const DEFAULT_SEARCH_STEPS: usize = 100_000;
/// Default search patience.
pub const DEFAULT_SEARCH_PATIENCE: usize = 500;
/// Default patience threshold (0.1), as a score.
pub const DEFAULT_SEARCH_PATIENCE_THRESHOLD: i64 = 100_000;
/// Default minimum temperature (0.005), as a score.
pub const DEFAULT_TEMP_MIN: i64 = 5_000;
/// Default maximum temperature (20.0), as a score.
pub const DEFAULT_TEMP_MAX: i64 = 20_000_000;
/// Default fast-path optimisation limit.
pub const DEFAULT_OPT_LIMIT_FAST: usize = 100;
/// Default slow-path optimisation limit.
pub const DEFAULT_OPT_LIMIT_SLOW: usize = 1500;
/// Default number of reheats.
pub const DEFAULT_REHEATS: usize = 3;
/// Default reheat factor (0.5), as a score.
pub const DEFAULT_REHEAT_FACTOR: i64 = 500_000;

/// The strategy of the optimisation search.
#[derive(Debug, Clone)]
pub enum SearchConfig {
    /// Simulated annealing.
    Annealing {
        /// Total number of mutation steps.
        steps: usize,
        /// Initial temperature (higher is more chaotic).
        start_temp: Score,
        /// Final temperature (lower is more greedy).
        end_temp: Score,
        /// Seed of the random number generator, for deterministic replay.
        seed: u64,
        /// Steps without improvement before reheating.
        patience: usize,
        /// Number of times to reheat.
        reheats: usize,
        /// Multiplier of the start temperature when reheating.
        reheat_factor: Score,
        /// Whether thumb keys take part in swap suggestions.
        include_thumbs: bool,
    },
}

/// The first problem with a search configuration, if any.
pub open spec fn search_config_error(c: SearchConfig) -> Option<Seq<char>> {
    match c {
        SearchConfig::Annealing { steps, start_temp, end_temp, reheat_factor, .. } => {
            if steps == 0 {
                Some("Steps must be > 0"@)
            } else if start_temp@ < 0 {
                Some("Start temp must be >= 0"@)
            } else if end_temp@ < 0 {
                Some("End temp must be >= 0"@)
            } else if reheat_factor@ <= 0 {
                Some("Reheat factor must be > 0"@)
            } else {
                None
            }
        },
    }
}

impl Default for SearchConfig {
    /// 100 000 steps from temperature 100 down to 0.01, seed 42, patience 500, three
    /// reheats at half the start temperature, thumbs left out.
    fn default() -> (r: Self)
        ensures
            r matches SearchConfig::Annealing { steps, start_temp, end_temp, seed, patience, reheats, reheat_factor, include_thumbs }
                && steps == 100_000 && start_temp@ == 100_000_000 && end_temp@ == 10_000 && seed == 42
                && patience == 500 && reheats == 3 && reheat_factor@ == 500_000 && !include_thumbs,
    {
        SearchConfig::Annealing {
            steps: 100_000,
            start_temp: Score::from_scaled_i64(100_000_000),
            end_temp: Score::from_scaled_i64(10_000),
            seed: 42,
            patience: 500,
            reheats: 3,
            reheat_factor: Score::from_scaled_i64(500_000),
            include_thumbs: false,
        }
    }
}

impl SearchConfig {
    /// Checks that the parameters are within safe bounds: at least one step,
    /// non-negative temperatures and a positive reheat factor.
    pub fn validate(&self) -> (r: Result<(), ForgeError>)
        ensures
            r is Ok <==> search_config_error(*self) is None,
            r matches Err(e) ==> e matches ForgeError::InvalidData(m) && search_config_error(*self) == Some(m@),
    {
        match self {
            SearchConfig::Annealing { steps, start_temp, end_temp, reheat_factor, .. } => {
                if *steps == 0 {
                    return Err(ForgeError::InvalidData(String::from_str("Steps must be > 0")));
                }
                if start_temp.raw() < 0 {
                    return Err(ForgeError::InvalidData(String::from_str("Start temp must be >= 0")));
                }
                if end_temp.raw() < 0 {
                    return Err(ForgeError::InvalidData(String::from_str("End temp must be >= 0")));
                }
                if reheat_factor.raw() <= 0 {
                    return Err(ForgeError::InvalidData(String::from_str("Reheat factor must be > 0")));
                }
            },
        }
        Ok(())
    }

    /// Whether thumb keys take part in swap suggestions.
    pub fn include_thumbs(&self) -> (r: bool)
        ensures
            self matches SearchConfig::Annealing { include_thumbs, .. } && r == include_thumbs,
    {
        match self {
            SearchConfig::Annealing { include_thumbs, .. } => *include_thumbs,
        }
    }
}

/// Named parameters of simulated annealing, with a seed and the thumb switch.
#[derive(Debug, Clone)]
pub struct SearchParams {
    /// The parameters, as (name, value) entries; a name's value is its first entry.
    pub params: Vec<(String, Score)>,
    /// Seed of the random number generator, for deterministic replay.
    pub seed: Option<u64>,
    /// Whether thumb keys take part in swap suggestions.
    pub include_thumbs: bool,
}

/// The score that stands for a count.
pub open spec fn count_raw(n: int) -> i64 {
    (n * 1_000_000) as i64
}

/// The default parameters, in order.
pub open spec fn default_search_entries() -> Seq<(Seq<char>, i64)> {
    seq![
        ("search_epochs"@, count_raw(DEFAULT_SEARCH_EPOCHS as int)),
        ("search_steps"@, count_raw(DEFAULT_SEARCH_STEPS as int)),
        ("search_patience"@, count_raw(DEFAULT_SEARCH_PATIENCE as int)),
        ("search_patience_threshold"@, DEFAULT_SEARCH_PATIENCE_THRESHOLD),
        ("temp_min"@, DEFAULT_TEMP_MIN),
        ("temp_max"@, DEFAULT_TEMP_MAX),
        ("opt_limit_fast"@, count_raw(DEFAULT_OPT_LIMIT_FAST as int)),
        ("opt_limit_slow"@, count_raw(DEFAULT_OPT_LIMIT_SLOW as int)),
        ("reheats"@, count_raw(DEFAULT_REHEATS as int)),
        ("reheat_factor"@, DEFAULT_REHEAT_FACTOR),
    ]
}

/// The default parameters have distinct names.
pub proof fn lemma_default_search_distinct()
    ensures
        distinct_names(default_search_entries()),
{
    reveal_strlit("search_epochs");
    reveal_strlit("search_steps");
    reveal_strlit("search_patience");
    reveal_strlit("search_patience_threshold");
    reveal_strlit("temp_min");
    reveal_strlit("temp_max");
    reveal_strlit("opt_limit_fast");
    reveal_strlit("opt_limit_slow");
    reveal_strlit("reheats");
    reveal_strlit("reheat_factor");
    let e = default_search_entries();
    assert forall|i: int, j: int| 0 <= i < j < e.len() implies (#[trigger] e[i]).0 != (#[trigger] e[j]).0 by {
        if e[i].0 == e[j].0 {
            assert(e[i].0.len() == e[j].0.len());
            assert(e[i].0[0] == e[j].0[0]);
            assert(e[i].0[e[i].0.len() - 1] == e[j].0[e[j].0.len() - 1]);
        }
    }
}

/// The number of search epochs named in `e`.
pub open spec fn epochs_of(e: Seq<(Seq<char>, i64)>) -> int {
    score_count(weight_or(e, "search_epochs"@, count_raw(DEFAULT_SEARCH_EPOCHS as int)))
}

/// The number of steps per epoch named in `e`.
pub open spec fn steps_of(e: Seq<(Seq<char>, i64)>) -> int {
    score_count(weight_or(e, "search_steps"@, count_raw(DEFAULT_SEARCH_STEPS as int)))
}

/// The fast-path optimisation limit named in `e`.
pub open spec fn opt_fast_of(e: Seq<(Seq<char>, i64)>) -> int {
    score_count(weight_or(e, "opt_limit_fast"@, count_raw(DEFAULT_OPT_LIMIT_FAST as int)))
}

/// The slow-path optimisation limit named in `e`.
pub open spec fn opt_slow_of(e: Seq<(Seq<char>, i64)>) -> int {
    score_count(weight_or(e, "opt_limit_slow"@, count_raw(DEFAULT_OPT_LIMIT_SLOW as int)))
}

/// The raw minimum temperature named in `e`.
pub open spec fn temp_min_of(e: Seq<(Seq<char>, i64)>) -> i64 {
    weight_or(e, "temp_min"@, DEFAULT_TEMP_MIN)
}

/// The raw maximum temperature named in `e`.
pub open spec fn temp_max_of(e: Seq<(Seq<char>, i64)>) -> i64 {
    weight_or(e, "temp_max"@, DEFAULT_TEMP_MAX)
}

/// The raw patience threshold named in `e`.
pub open spec fn threshold_of(e: Seq<(Seq<char>, i64)>) -> i64 {
    weight_or(e, "search_patience_threshold"@, DEFAULT_SEARCH_PATIENCE_THRESHOLD)
}

/// The first problem with a set of search parameters, checked in a fixed order:
/// epochs, steps, the fast and slow limits, the temperatures, then the threshold.
pub open spec fn search_params_error(e: Seq<(Seq<char>, i64)>) -> Option<Seq<char>> {
    if epochs_of(e) == 0 {
        Some("search_epochs must be > 0"@)
    } else if epochs_of(e) > MAX_SEARCH_EPOCHS {
        Some("search_epochs exceeds limit ("@ + decimal(MAX_SEARCH_EPOCHS as int) + ")"@)
    } else if steps_of(e) == 0 {
        Some("search_steps must be > 0"@)
    } else if steps_of(e) > MAX_SEARCH_STEPS {
        Some("search_steps exceeds limit ("@ + decimal(MAX_SEARCH_STEPS as int) + ")"@)
    } else if opt_fast_of(e) == 0 {
        Some("opt_limit_fast must be > 0"@)
    } else if opt_fast_of(e) > MAX_OPT_LIMIT_FAST {
        Some("opt_limit_fast exceeds limit ("@ + decimal(MAX_OPT_LIMIT_FAST as int) + ")"@)
    } else if opt_slow_of(e) < opt_fast_of(e) {
        Some("opt_limit_slow must be >= opt_limit_fast"@)
    } else if temp_min_of(e) < 0 || temp_max_of(e) < 0 {
        Some("Temperature cannot be negative"@)
    } else if temp_max_of(e) > MAX_TEMP {
        Some("temp_max exceeds limit ("@ + decimal(MAX_TEMP / 1_000_000) + ")"@)
    } else if temp_min_of(e) < MIN_TEMP_FLOOR {
        Some("temp_min too low (underflow risk)"@)
    } else if !(temp_min_of(e) < temp_max_of(e)) {
        Some("temp_min must be < temp_max"@)
    } else if threshold_of(e) < 0 || threshold_of(e) > 1_000_000 {
        Some("search_patience_threshold must be between 0.0 and 1.0"@)
    } else {
        None
    }
}

/// The parameters offered to editors: (key, label, description, type, raw minimum,
/// raw maximum, raw default).
pub open spec fn search_schema_spec() -> Seq<(Seq<char>, Seq<char>, Seq<char>, ParamType, Option<i64>, Option<i64>, i64)> {
    seq![
        ("search_epochs"@, "Search Epochs"@, "Number of independent search runs to perform."@,
            ParamType::Integer, Some(1_000_000i64), Some(count_raw(MAX_SEARCH_EPOCHS as int)), count_raw(DEFAULT_SEARCH_EPOCHS as int)),
        ("search_steps"@, "Steps per Epoch"@, "Maximum mutations to attempt per epoch."@,
            ParamType::Integer, Some(1_000_000_000i64), Some(count_raw(MAX_SEARCH_STEPS as int)), count_raw(DEFAULT_SEARCH_STEPS as int)),
        ("temp_max"@, "Start Temperature"@, "Initial chaos level (higher = more exploration)."@,
            ParamType::Float, Some(100_000i64), Some(MAX_TEMP), DEFAULT_TEMP_MAX),
        ("temp_min"@, "End Temperature"@, "Final greediness level (lower = more exploitation)."@,
            ParamType::Float, Some(MIN_TEMP_FLOOR), Some(1_000_000i64), DEFAULT_TEMP_MIN),
        ("search_patience"@, "Patience"@, "Steps without improvement before reheating."@,
            ParamType::Integer, Some(10_000_000i64), Some(10_000_000_000i64), count_raw(DEFAULT_SEARCH_PATIENCE as int)),
        ("reheats"@, "Reheats"@, "Number of times to spike temperature when stuck."@,
            ParamType::Integer, Some(0i64), Some(10_000_000i64), count_raw(DEFAULT_REHEATS as int)),
    ]
}

/// The score that stands for a count of at most a million million.
fn count_score(n: usize) -> (r: i64)
    requires
        n <= 1_000_000_000_000,
    ensures
        r == count_raw(n as int),
{
    (n as i64) * 1_000_000
}

impl SearchParams {
    /// Well formed: no parameter name occurs twice, as in a map.
    pub open spec fn well_formed(&self) -> bool {
        distinct_names(weight_entries(self.params@))
    }
}

impl Default for SearchParams {
    /// The default parameters, no seed, thumbs left out.
    fn default() -> (r: Self)
        ensures
            weight_entries(r.params@) == default_search_entries(),
            r.well_formed(),
            r.seed is None,
            !r.include_thumbs,
    {
        let mut p: Vec<(String, Score)> = Vec::new();
        p.push((String::from_str("search_epochs"), Score::from_scaled_i64(count_score(DEFAULT_SEARCH_EPOCHS))));
        p.push((String::from_str("search_steps"), Score::from_scaled_i64(count_score(DEFAULT_SEARCH_STEPS))));
        p.push((String::from_str("search_patience"), Score::from_scaled_i64(count_score(DEFAULT_SEARCH_PATIENCE))));
        p.push((String::from_str("search_patience_threshold"), Score::from_scaled_i64(DEFAULT_SEARCH_PATIENCE_THRESHOLD)));
        p.push((String::from_str("temp_min"), Score::from_scaled_i64(DEFAULT_TEMP_MIN)));
        p.push((String::from_str("temp_max"), Score::from_scaled_i64(DEFAULT_TEMP_MAX)));
        p.push((String::from_str("opt_limit_fast"), Score::from_scaled_i64(count_score(DEFAULT_OPT_LIMIT_FAST))));
        p.push((String::from_str("opt_limit_slow"), Score::from_scaled_i64(count_score(DEFAULT_OPT_LIMIT_SLOW))));
        p.push((String::from_str("reheats"), Score::from_scaled_i64(count_score(DEFAULT_REHEATS))));
        p.push((String::from_str("reheat_factor"), Score::from_scaled_i64(DEFAULT_REHEAT_FACTOR)));
        assert(weight_entries(p@) =~= default_search_entries());
        proof { lemma_default_search_distinct(); }
        SearchParams { params: p, seed: None, include_thumbs: false }
    }
}

impl SearchParams {
    /// The parameters offered to editors.
    pub fn schema() -> (r: Vec<ParameterMetadata>)
        ensures
            metadata_views(r@) == search_schema_spec(),
    {
        let mut v: Vec<ParameterMetadata> = Vec::new();
        v.push(numeric_param("search_epochs", "Search Epochs", "Number of independent search runs to perform.",
            ParamType::Integer, 1_000_000, count_score(MAX_SEARCH_EPOCHS), count_score(DEFAULT_SEARCH_EPOCHS)));
        v.push(numeric_param("search_steps", "Steps per Epoch", "Maximum mutations to attempt per epoch.",
            ParamType::Integer, 1_000_000_000, count_score(MAX_SEARCH_STEPS), count_score(DEFAULT_SEARCH_STEPS)));
        v.push(numeric_param("temp_max", "Start Temperature", "Initial chaos level (higher = more exploration).",
            ParamType::Float, 100_000, MAX_TEMP, DEFAULT_TEMP_MAX));
        v.push(numeric_param("temp_min", "End Temperature", "Final greediness level (lower = more exploitation).",
            ParamType::Float, MIN_TEMP_FLOOR, 1_000_000, DEFAULT_TEMP_MIN));
        v.push(numeric_param("search_patience", "Patience", "Steps without improvement before reheating.",
            ParamType::Integer, 10_000_000, 10_000_000_000, count_score(DEFAULT_SEARCH_PATIENCE)));
        v.push(numeric_param("reheats", "Reheats", "Number of times to spike temperature when stuck.",
            ParamType::Integer, 0, 10_000_000, count_score(DEFAULT_REHEATS)));
        assert(metadata_views(v@) =~= search_schema_spec());
        v
    }

    /// The default parameters with the given overrides set in turn, no seed and the
    /// given thumb switch; the result must validate.
    pub fn from_overrides(overrides: Vec<(String, Score)>, include_thumbs: bool) -> (r: Result<SearchParams, String>)
        ensures
            ({
                let e = apply_overrides(default_search_entries(), weight_entries(overrides@));
                match r {
                    Ok(p) => search_params_error(e) is None && p.well_formed() && weight_entries(p.params@) == e
                        && p.seed is None && p.include_thumbs == include_thumbs,
                    Err(m) => search_params_error(e) == Some(m@),
                }
            }),
    {
        let mut p = SearchParams::default();
        proof { lemma_apply_overrides_distinct(default_search_entries(), weight_entries(overrides@)); }
        apply_named_overrides(&mut p.params, &overrides);
        p.seed = None;
        p.include_thumbs = include_thumbs;
        match p.validate() {
            Ok(()) => Ok(p),
            Err(m) => Err(m),
        }
    }

    /// The parameter named `key`, or `default` when there is none.
    pub fn get_param(&self, key: &str, default: Score) -> (r: Score)
        ensures
            r@ == weight_or(weight_entries(self.params@), key@, default@),
    {
        match find_weight_exec(&self.params, key) {
            Some(s) => s,
            None => default,
        }
    }

    /// Sets the parameter named `key` to `value`: the first entry of that name takes the
    /// value, or a new entry is appended when there is none.
    pub fn set_param(&mut self, key: &str, value: Score)
        ensures
            weight_entries(final(self).params@) == set_entry(weight_entries(old(self).params@), key@, value@),
            final(self).seed == old(self).seed,
            final(self).include_thumbs == old(self).include_thumbs,
            old(self).well_formed() ==> final(self).well_formed(),
    {
        proof {
            if self.well_formed() {
                lemma_set_entry_distinct(weight_entries(self.params@), key@, value@);
            }
        }
        set_named_score(&mut self.params, key, value);
    }

    /// Number of independent search epochs.
    pub fn get_search_epochs(&self) -> (r: usize)
        ensures
            r == epochs_of(weight_entries(self.params@)),
    {
        score_to_count(self.get_param("search_epochs", Score::from_scaled_i64(count_score(DEFAULT_SEARCH_EPOCHS))).raw())
    }

    /// Largest number of mutation steps per epoch.
    pub fn get_search_steps(&self) -> (r: usize)
        ensures
            r == steps_of(weight_entries(self.params@)),
    {
        score_to_count(self.get_param("search_steps", Score::from_scaled_i64(count_score(DEFAULT_SEARCH_STEPS))).raw())
    }

    /// Steps without improvement before a reheat.
    pub fn get_search_patience(&self) -> (r: usize)
        ensures
            r == score_count(weight_or(weight_entries(self.params@), "search_patience"@, count_raw(DEFAULT_SEARCH_PATIENCE as int))),
    {
        score_to_count(self.get_param("search_patience", Score::from_scaled_i64(count_score(DEFAULT_SEARCH_PATIENCE))).raw())
    }

    /// Threshold for resetting patience.
    pub fn get_search_patience_threshold(&self) -> (r: Score)
        ensures
            r@ == threshold_of(weight_entries(self.params@)),
    {
        self.get_param("search_patience_threshold", Score::from_scaled_i64(DEFAULT_SEARCH_PATIENCE_THRESHOLD))
    }

    /// Minimum temperature.
    pub fn get_temp_min(&self) -> (r: Score)
        ensures
            r@ == temp_min_of(weight_entries(self.params@)),
    {
        self.get_param("temp_min", Score::from_scaled_i64(DEFAULT_TEMP_MIN))
    }

    /// Maximum temperature.
    pub fn get_temp_max(&self) -> (r: Score)
        ensures
            r@ == temp_max_of(weight_entries(self.params@)),
    {
        self.get_param("temp_max", Score::from_scaled_i64(DEFAULT_TEMP_MAX))
    }

    /// Optimisation limit of the fast path.
    pub fn get_opt_limit_fast(&self) -> (r: usize)
        ensures
            r == opt_fast_of(weight_entries(self.params@)),
    {
        score_to_count(self.get_param("opt_limit_fast", Score::from_scaled_i64(count_score(DEFAULT_OPT_LIMIT_FAST))).raw())
    }

    /// Optimisation limit of the slow path.
    pub fn get_opt_limit_slow(&self) -> (r: usize)
        ensures
            r == opt_slow_of(weight_entries(self.params@)),
    {
        score_to_count(self.get_param("opt_limit_slow", Score::from_scaled_i64(count_score(DEFAULT_OPT_LIMIT_SLOW))).raw())
    }

    /// Number of reheats.
    pub fn get_reheats(&self) -> (r: usize)
        ensures
            r == score_count(weight_or(weight_entries(self.params@), "reheats"@, count_raw(DEFAULT_REHEATS as int))),
    {
        score_to_count(self.get_param("reheats", Score::from_scaled_i64(count_score(DEFAULT_REHEATS))).raw())
    }

    /// Factor the temperature is multiplied by when reheating.
    pub fn get_reheat_factor(&self) -> (r: Score)
        ensures
            r@ == weight_or(weight_entries(self.params@), "reheat_factor"@, DEFAULT_REHEAT_FACTOR),
    {
        self.get_param("reheat_factor", Score::from_scaled_i64(DEFAULT_REHEAT_FACTOR))
    }
}

impl Validator for SearchParams {
    /// Checks epochs, steps, the fast and slow limits, the temperatures and the
    /// patience threshold, in that order.
    fn validate(&self) -> (r: Result<(), String>)
        ensures
            match r {
                Ok(()) => search_params_error(weight_entries(self.params@)) is None,
                Err(m) => search_params_error(weight_entries(self.params@)) == Some(m@),
            },
    {
        let epochs = self.get_search_epochs();
        if epochs == 0 {
            return Err(String::from_str("search_epochs must be > 0"));
        }
        if epochs > MAX_SEARCH_EPOCHS {
            let mut m = String::from_str("search_epochs exceeds limit (");
            m.append(u64_to_decimal(MAX_SEARCH_EPOCHS as u64).as_str());
            m.append(")");
            return Err(m);
        }
        let steps = self.get_search_steps();
        if steps == 0 {
            return Err(String::from_str("search_steps must be > 0"));
        }
        if steps > MAX_SEARCH_STEPS {
            let mut m = String::from_str("search_steps exceeds limit (");
            m.append(u64_to_decimal(MAX_SEARCH_STEPS as u64).as_str());
            m.append(")");
            return Err(m);
        }
        let fast = self.get_opt_limit_fast();
        if fast == 0 {
            return Err(String::from_str("opt_limit_fast must be > 0"));
        }
        if fast > MAX_OPT_LIMIT_FAST {
            let mut m = String::from_str("opt_limit_fast exceeds limit (");
            m.append(u64_to_decimal(MAX_OPT_LIMIT_FAST as u64).as_str());
            m.append(")");
            return Err(m);
        }
        if self.get_opt_limit_slow() < fast {
            return Err(String::from_str("opt_limit_slow must be >= opt_limit_fast"));
        }
        let tmin = self.get_temp_min().raw();
        let tmax = self.get_temp_max().raw();
        if tmin < 0 || tmax < 0 {
            return Err(String::from_str("Temperature cannot be negative"));
        }
        if tmax > MAX_TEMP {
            let mut m = String::from_str("temp_max exceeds limit (");
            m.append(u64_to_decimal((MAX_TEMP / 1_000_000) as u64).as_str());
            m.append(")");
            return Err(m);
        }
        if tmin < MIN_TEMP_FLOOR {
            return Err(String::from_str("temp_min too low (underflow risk)"));
        }
        if !(tmin < tmax) {
            return Err(String::from_str("temp_min must be < temp_max"));
        }
        let th = self.get_search_patience_threshold().raw();
        if th < 0 || th > 1_000_000 {
            return Err(String::from_str("search_patience_threshold must be between 0.0 and 1.0"));
        }
        Ok(())
    }
}

} // verus!
