//! Routes a stream of text lines to named sinks chosen by ordered,
//! first-match-wins regular-expression filters.
//!
//! `config` builds the sink registry from the declarations, `router` decides
//! where each line goes, and `summary` renders the registry for dry
//! validation. Reading input, opening files and writing are left to the
//! caller, which performs the actions that the router returns.

mod config;
mod matcher;
mod router;
mod summary;

pub use config::{
    built_from, destination_for, discard_marker, failing_sinks, invert_flag, is_discard_name,
    process_config, registry_wf, same_declaration, sink_compiles, template_sinks, Destination,
    FilterConfig, PatternError, SinkConfig,
};
pub use matcher::{
    pattern_texts, set_compiles, set_default_options, set_is_match, set_patterns,
};
pub use router::{
    claimed_by, effective_match, exit_code, first_match, first_match_from, lemma_default_fallback,
    lemma_dispatch_deterministic, lemma_first_match_from, lemma_first_match_wins,
    lemma_invert_negates, on_write_error, route, route_all, route_line, route_lines, same_rules,
    sink_matches, Action, Termination, WriteTarget,
};
pub use summary::{
    bool_text, display_config_summary, max_file_name_len, max_name_len, pad, summary_line,
};
