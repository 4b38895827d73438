//! Sink declarations and the validated sink registry built from them.

use vstd::prelude::*;

use crate::matcher::{compile_set, pattern_texts, set_compiles, set_default_options, set_patterns};

verus! {

/// One sink declaration, as read from the configuration document.
#[derive(Debug)]
pub struct SinkConfig {
    pub name: String,
    pub file_name: String,
    pub patterns: Vec<String>,
    pub invert: Option<bool>,
}

/// Where the lines that a sink claims go.
#[derive(Debug, Clone, Copy, PartialEq, Eq, Structural)]
pub enum Destination {
    /// The line is consumed and written nowhere.
    Discard,
    /// The line is appended to the file named by the sink's `file_name`.
    File,
}

/// A validated sink: its compiled pattern set, its destination and its
/// invert flag.
#[derive(Debug)]
pub struct FilterConfig {
    pub name: String,
    pub file_name: String,
    pub destination: Destination,
    pub regex_set: regex::RegexSet,
    pub invert: bool,
}

impl FilterConfig {
    /// The sink's pattern set was compiled with the default options, so its
    /// answers are those of its pattern texts.
    pub open spec fn wf(&self) -> bool {
        set_default_options(self.regex_set)
    }
}

/// Every sink of a registry is well formed.
pub open spec fn registry_wf(fs: Seq<FilterConfig>) -> bool {
    forall|i: int| 0 <= i < fs.len() ==> (#[trigger] fs[i]).wf()
}

/// A pattern list that failed to compile, with the sink that declared it.
#[derive(Debug)]
pub struct PatternError {
    /// Position of the sink in the declaration order.
    pub index: usize,
    pub sink_name: String,
    pub message: String,
}

/// The `file_name` value that selects the discard destination.
pub open spec fn discard_marker() -> Seq<char> {
    "null"@
}

/// A missing invert flag means no inversion.
pub open spec fn invert_flag(invert: Option<bool>) -> bool {
    match invert {
        Some(b) => b,
        None => false,
    }
}

/// The destination of a sink: nothing is written in dry validation or for
/// the discard marker, otherwise the named file.
pub open spec fn destination_for(file_name: Seq<char>, validate_only: bool) -> Destination {
    if validate_only || file_name == discard_marker() {
        Destination::Discard
    } else {
        Destination::File
    }
}

/// Whether the patterns of a declaration compile into one set.
pub open spec fn sink_compiles(c: SinkConfig) -> bool {
    set_compiles(pattern_texts(c.patterns@))
}

/// The positions of the declarations whose patterns do not compile, in order.
pub open spec fn failing_sinks(cs: Seq<SinkConfig>) -> Seq<int>
    decreases cs.len(),
{
    if cs.len() == 0 {
        seq![]
    } else {
        let rest = failing_sinks(cs.drop_last());
        if sink_compiles(cs.last()) {
            rest
        } else {
            rest.push(cs.len() - 1)
        }
    }
}

/// `f` is the sink that declaration `c` describes.
pub open spec fn built_from(f: FilterConfig, c: SinkConfig, validate_only: bool) -> bool {
    &&& f.name@ == c.name@
    &&& f.file_name@ == c.file_name@
    &&& f.destination == destination_for(c.file_name@, validate_only)
    &&& set_patterns(f.regex_set) == pattern_texts(c.patterns@)
    &&& f.invert == invert_flag(c.invert)
    &&& f.wf()
}

/// Whether `file_name` is the discard marker.
pub fn is_discard_name(file_name: &String) -> (r: bool)
    ensures
        r == (file_name@ == discard_marker()),
{
    let marker = String::from_str("null");
    *file_name == marker
}

/// Builds the sink registry from the declarations, in declaration order.
///
/// Every declaration's patterns are compiled before anything is decided, so
/// that all failures are reported together: the result is `Err` with one
/// error per failing declaration, in order, or `Ok` with one sink per
/// declaration. In dry validation no sink gets a file destination.
pub fn process_config(sinks: Vec<SinkConfig>, validate_only: bool) -> (r: Result<Vec<FilterConfig>, Vec<PatternError>>)
    ensures
        r is Ok <==> failing_sinks(sinks@).len() == 0,
        r matches Ok(fs) ==> {
            &&& fs@.len() == sinks@.len()
            &&& forall|i: int| 0 <= i < sinks@.len() ==> built_from(#[trigger] fs@[i], sinks@[i], validate_only)
        },
        r matches Err(errs) ==> {
            &&& errs@.len() == failing_sinks(sinks@).len()
            &&& forall|k: int| 0 <= k < errs@.len() ==> {
                &&& #[trigger] errs@[k].index == failing_sinks(sinks@)[k]
                &&& errs@[k].sink_name@ == sinks@[failing_sinks(sinks@)[k]].name@
            }
        },
{
    let mut filters: Vec<FilterConfig> = Vec::new();
    let mut errors: Vec<PatternError> = Vec::new();
    let n = sinks.len();
    let mut i: usize = 0;
    while i < n
        invariant
            n == sinks@.len(),
            0 <= i <= n,
            errors@.len() == failing_sinks(sinks@.take(i as int)).len(),
            forall|k: int| 0 <= k < errors@.len() ==> {
                &&& #[trigger] errors@[k].index == failing_sinks(sinks@.take(i as int))[k]
                &&& 0 <= errors@[k].index < i
                &&& errors@[k].sink_name@ == sinks@[errors@[k].index as int].name@
            },
            errors@.len() == 0 ==> filters@.len() == i,
            errors@.len() == 0 ==> forall|j: int| 0 <= j < i ==> built_from(#[trigger] filters@[j], sinks@[j], validate_only),
        decreases n - i,
    {
        let sink = &sinks[i];
        proof {
            assert(sinks@.take(i + 1).drop_last() =~= sinks@.take(i as int));
            assert(sinks@.take(i + 1).last() == sinks@[i as int]);
        }
        match compile_set(&sink.patterns) {
            Ok(set) => {
                if errors.len() == 0 {
                    let invert = match sink.invert {
                        Some(b) => b,
                        None => false,
                    };
                    let destination = if validate_only || is_discard_name(&sink.file_name) {
                        Destination::Discard
                    } else {
                        Destination::File
                    };
                    filters.push(FilterConfig {
                        name: sink.name.clone(),
                        file_name: sink.file_name.clone(),
                        destination,
                        regex_set: set,
                        invert,
                    });
                }
            },
            Err(e) => {
                errors.push(PatternError { index: i, sink_name: sink.name.clone(), message: e.to_string() });
            },
        }
        i = i + 1;
    }
    proof {
        assert(sinks@.take(n as int) =~= sinks@);
    }
    if errors.len() == 0 {
        Ok(filters)
    } else {
        Err(errors)
    }
}

/// Two sinks with the same name, file name, patterns and invert flag.
pub open spec fn same_declaration(a: FilterConfig, b: FilterConfig) -> bool {
    &&& a.name@ == b.name@
    &&& a.file_name@ == b.file_name@
    &&& set_patterns(a.regex_set) == set_patterns(b.regex_set)
    &&& a.invert == b.invert
}

/// Sinks compare by what was declared for them: name, file name, pattern
/// texts and invert flag; the destination's state and the options the set
/// was compiled with are not compared.
impl PartialEq for FilterConfig {
    fn eq(&self, other: &FilterConfig) -> (r: bool) {
        if !(self.name == other.name) || !(self.file_name == other.file_name) || self.invert != other.invert {
            return false;
        }
        let a = self.regex_set.patterns();
        let b = other.regex_set.patterns();
        if a.len() != b.len() {
            proof {
                assert(pattern_texts(a@).len() != pattern_texts(b@).len());
            }
            return false;
        }
        let mut i: usize = 0;
        while i < a.len()
            invariant
                a@.len() == b@.len(),
                0 <= i <= a@.len(),
                pattern_texts(a@) == set_patterns(self.regex_set),
                pattern_texts(b@) == set_patterns(other.regex_set),
                forall|j: int| 0 <= j < i ==> (#[trigger] a@[j])@ == b@[j]@,
            decreases a@.len() - i,
        {
            if !(a[i] == b[i]) {
                proof {
                    assert(a@[i as int]@ != b@[i as int]@);
                    assert(pattern_texts(a@)[i as int] != pattern_texts(b@)[i as int]);
                    assert(pattern_texts(a@) != pattern_texts(b@));
                }
                return false;
            }
            i = i + 1;
        }
        proof {
            assert(pattern_texts(a@) =~= pattern_texts(b@));
        }
        true
    }
}

impl vstd::std_specs::cmp::PartialEqSpecImpl for FilterConfig {
    open spec fn obeys_eq_spec() -> bool {
        true
    }

    open spec fn eq_spec(&self, other: &FilterConfig) -> bool {
        same_declaration(*self, *other)
    }
}

/// The two sink declarations of the sample configuration document.
pub fn template_sinks() -> (r: Vec<SinkConfig>)
    ensures
        r@.len() == 2,
        r@[0].name@ == "first_sink"@,
        r@[0].file_name@ == "first_output.txt"@,
        pattern_texts(r@[0].patterns@) == seq!["^[a-zA-Z0-9]+$"@],
        r@[0].invert is None,
        r@[1].name@ == "second_sink"@,
        r@[1].file_name@ == "second_output.txt"@,
        pattern_texts(r@[1].patterns@) == seq!["\u{f0}\u{178}\u{2dc}\u{17d}*"@],
        r@[1].invert is None,
{
    let first = SinkConfig {
        name: String::from_str("first_sink"),
        file_name: String::from_str("first_output.txt"),
        patterns: vec![String::from_str("^[a-zA-Z0-9]+$")],
        invert: None,
    };
    let second = SinkConfig {
        name: String::from_str("second_sink"),
        file_name: String::from_str("second_output.txt"),
        patterns: vec![String::from_str("\u{f0}\u{178}\u{2dc}\u{17d}*")],
        invert: None,
    };
    proof {
        assert(pattern_texts(first.patterns@) =~= seq!["^[a-zA-Z0-9]+$"@]);
        assert(pattern_texts(second.patterns@) =~= seq!["\u{f0}\u{178}\u{2dc}\u{17d}*"@]);
    }
    vec![first, second]
}

} // verus!
