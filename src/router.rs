//! The line router: which destination each input line goes to.

use vstd::prelude::*;

use crate::config::{registry_wf, Destination, FilterConfig};
use crate::matcher::{set_is_match, set_patterns};

verus! {

/// What to do with one input line.
#[derive(Debug, Clone, Copy, PartialEq, Eq, Structural)]
pub enum Action {
    /// Sink `i` claims the line and it is written to the sink's file.
    Write(usize),
    /// Sink `i` claims the line and discards it.
    Consume(usize),
    /// No sink claims the line and it goes to the default output.
    PassThrough,
    /// No sink claims the line and pass-through is off: it is dropped.
    Drop,
}

/// A destination that a write went to.
#[derive(Debug, Clone, Copy, PartialEq, Eq, Structural)]
pub enum WriteTarget {
    Sink(usize),
    Default,
}

/// How the process ends.
#[derive(Debug, Clone, Copy, PartialEq, Eq, Structural)]
pub enum Termination {
    Success,
    Failure,
}

/// Whether sink `f` claims `line`: its raw match result, flipped when the
/// sink is inverted.
pub open spec fn effective_match(f: FilterConfig, line: Seq<char>) -> bool {
    let raw = set_is_match(set_patterns(f.regex_set), line);
    if f.invert {
        !raw
    } else {
        raw
    }
}

/// The first sink at position `i` or later that claims `line`.
pub open spec fn first_match_from(fs: Seq<FilterConfig>, line: Seq<char>, i: int) -> Option<int>
    decreases fs.len() - i,
{
    if i < 0 || i >= fs.len() {
        None
    } else if effective_match(fs[i], line) {
        Some(i)
    } else {
        first_match_from(fs, line, i + 1)
    }
}

/// The first sink, in registry order, that claims `line`.
pub open spec fn first_match(fs: Seq<FilterConfig>, line: Seq<char>) -> Option<int> {
    first_match_from(fs, line, 0)
}

/// The action for `line`: the first claiming sink's destination, else the
/// default output when pass-through is on, else nothing.
pub open spec fn route(fs: Seq<FilterConfig>, line: Seq<char>, pass_through: bool) -> Action {
    match first_match(fs, line) {
        Some(i) => if fs[i].destination == Destination::File {
            Action::Write(i as usize)
        } else {
            Action::Consume(i as usize)
        },
        None => if pass_through {
            Action::PassThrough
        } else {
            Action::Drop
        },
    }
}

/// The sink that an action hands the line to, if any.
pub open spec fn claimed_by(a: Action) -> Option<int> {
    match a {
        Action::Write(i) => Some(i as int),
        Action::Consume(i) => Some(i as int),
        _ => None,
    }
}

/// The actions for a sequence of lines, one per line, in order.
pub open spec fn route_all(fs: Seq<FilterConfig>, lines: Seq<String>, pass_through: bool) -> Seq<Action> {
    lines.map_values(|l: String| route(fs, l@, pass_through))
}

/// Two registries that agree, sink by sink, on everything that routing reads.
pub open spec fn same_rules(a: Seq<FilterConfig>, b: Seq<FilterConfig>) -> bool {
    &&& a.len() == b.len()
    &&& forall|i: int|
        0 <= i < a.len() ==> {
            &&& set_patterns(#[trigger] a[i].regex_set) == set_patterns(b[i].regex_set)
            &&& a[i].invert == b[i].invert
            &&& a[i].destination == b[i].destination
        }
}

/// Whether sink `f` claims `line`.
pub fn sink_matches(f: &FilterConfig, line: &str) -> (r: bool)
    requires
        f.wf(),
    ensures
        r == effective_match(*f, line@),
{
    let raw = f.regex_set.is_match(line);
    if f.invert {
        !raw
    } else {
        raw
    }
}

/// Decides where `line` goes: sinks are tried in registry order and the
/// first that claims the line takes it; no later sink sees it.
pub fn route_line(filters: &Vec<FilterConfig>, line: &str, pass_through: bool) -> (r: Action)
    requires
        registry_wf(filters@),
    ensures
        r == route(filters@, line@, pass_through),
{
    let n = filters.len();
    let mut i: usize = 0;
    while i < n
        invariant
            n == filters@.len(),
            registry_wf(filters@),
            0 <= i <= n,
            first_match(filters@, line@) == first_match_from(filters@, line@, i as int),
        decreases n - i,
    {
        if sink_matches(&filters[i], line) {
            return if filters[i].destination == Destination::File {
                Action::Write(i)
            } else {
                Action::Consume(i)
            };
        }
        i = i + 1;
    }
    if pass_through {
        Action::PassThrough
    } else {
        Action::Drop
    }
}

/// Decides where each of `lines` goes, in order.
pub fn route_lines(filters: &Vec<FilterConfig>, lines: &Vec<String>, pass_through: bool) -> (r: Vec<Action>)
    requires
        registry_wf(filters@),
    ensures
        r@ == route_all(filters@, lines@, pass_through),
{
    let mut actions: Vec<Action> = Vec::new();
    let n = lines.len();
    let mut k: usize = 0;
    while k < n
        invariant
            n == lines@.len(),
            registry_wf(filters@),
            0 <= k <= n,
            actions@ == route_all(filters@, lines@.take(k as int), pass_through),
        decreases n - k,
    {
        let a = route_line(filters, lines[k].as_str(), pass_through);
        proof {
            assert(lines@.take(k + 1) =~= lines@.take(k as int).push(lines@[k as int]));
        }
        actions.push(a);
        assert(actions@ =~= route_all(filters@, lines@.take(k + 1), pass_through));
        k = k + 1;
    }
    assert(lines@.take(n as int) =~= lines@);
    actions
}

/// How a failed write ends the run: a closed reader of the default output
/// ends it successfully, any other failure ends it with an error.
pub fn on_write_error(target: WriteTarget, broken_pipe: bool) -> (r: Termination)
    ensures
        r == (if target == WriteTarget::Default && broken_pipe {
            Termination::Success
        } else {
            Termination::Failure
        }),
{
    match target {
        WriteTarget::Default => if broken_pipe {
            Termination::Success
        } else {
            Termination::Failure
        },
        WriteTarget::Sink(_) => Termination::Failure,
    }
}

/// The process exit status for a termination.
pub fn exit_code(t: Termination) -> (r: i32)
    ensures
        t == Termination::Success ==> r == 0,
        t == Termination::Failure ==> r == 1,
{
    match t {
        Termination::Success => 0,
        Termination::Failure => 1,
    }
}

/// `first_match_from` finds a claiming sink at or after `i` with no
/// claiming sink between `i` and it, or finds none when no sink from `i` on
/// claims the line.
pub proof fn lemma_first_match_from(fs: Seq<FilterConfig>, line: Seq<char>, i: int)
    requires
        registry_wf(fs),
        0 <= i,
    ensures
        first_match_from(fs, line, i) matches Some(m) ==> {
            &&& i <= m < fs.len()
            &&& effective_match(fs[m], line)
            &&& forall|j: int| i <= j < m ==> !effective_match(#[trigger] fs[j], line)
        },
        first_match_from(fs, line, i) is None ==> forall|j: int|
            i <= j < fs.len() ==> !effective_match(#[trigger] fs[j], line),
    decreases fs.len() - i,
{
    if i < fs.len() && !effective_match(fs[i], line) {
        lemma_first_match_from(fs, line, i + 1);
    }
}

/// First match wins: sink `i` receives a line exactly when it claims the
/// line and no sink before it does; then no other sink receives it.
pub proof fn lemma_first_match_wins(fs: Seq<FilterConfig>, line: Seq<char>, pass_through: bool, i: int)
    requires
        registry_wf(fs),
        0 <= i < fs.len() <= usize::MAX,
    ensures
        claimed_by(route(fs, line, pass_through)) == Some(i) <==> {
            &&& effective_match(fs[i], line)
            &&& forall|j: int| 0 <= j < i ==> !effective_match(#[trigger] fs[j], line)
        },
        claimed_by(route(fs, line, pass_through)) == Some(i) ==> forall|j: int|
            j != i ==> claimed_by(route(fs, line, pass_through)) != Some(j),
{
    lemma_first_match_from(fs, line, 0);
    match first_match(fs, line) {
        Some(m) => {
            if effective_match(fs[i], line) && forall|j: int| 0 <= j < i ==> !effective_match(#[trigger] fs[j], line) {
                if m < i {
                    assert(!effective_match(fs[m], line));
                } else if m > i {
                    assert(!effective_match(fs[i], line));
                }
            }
        },
        None => {
            assert(!effective_match(fs[i], line));
        },
    }
}

/// Default fallback: a line that no sink claims goes to the default output
/// when pass-through is on and is dropped when it is off; only such lines
/// go there.
pub proof fn lemma_default_fallback(fs: Seq<FilterConfig>, line: Seq<char>, pass_through: bool)
    requires
        registry_wf(fs),
    ensures
        (forall|j: int| 0 <= j < fs.len() ==> !effective_match(#[trigger] fs[j], line)) ==>
            route(fs, line, pass_through) == (if pass_through {
                Action::PassThrough
            } else {
                Action::Drop
            }),
        route(fs, line, pass_through) == Action::PassThrough <==> pass_through && forall|j: int|
            0 <= j < fs.len() ==> !effective_match(#[trigger] fs[j], line),
        route(fs, line, pass_through) == Action::Drop <==> !pass_through && forall|j: int|
            0 <= j < fs.len() ==> !effective_match(#[trigger] fs[j], line),
{
    lemma_first_match_from(fs, line, 0);
    if let Some(m) = first_match(fs, line) {
        assert(effective_match(fs[m], line));
    }
}

/// Inverting a sink negates its decision: with the same patterns, compiled
/// with the default options, the
/// inverted sink claims exactly the lines the plain one does not, also as
/// the only sink of a registry.
pub proof fn lemma_invert_negates(f: FilterConfig, g: FilterConfig, line: Seq<char>, pass_through: bool)
    requires
        f.wf(),
        g.wf(),
        set_patterns(g.regex_set) == set_patterns(f.regex_set),
        g.invert == !f.invert,
    ensures
        effective_match(g, line) == !effective_match(f, line),
        claimed_by(route(seq![g], line, pass_through)) is Some <==> claimed_by(
            route(seq![f], line, pass_through),
        ) is None,
{
    reveal_with_fuel(first_match_from, 2);
}

/// Routing reads only each sink's patterns, invert flag and destination.
proof fn lemma_same_rules_first_match(a: Seq<FilterConfig>, b: Seq<FilterConfig>, line: Seq<char>, i: int)
    requires
        registry_wf(a),
        registry_wf(b),
        same_rules(a, b),
        0 <= i,
    ensures
        first_match_from(a, line, i) == first_match_from(b, line, i),
    decreases a.len() - i,
{
    if i < a.len() {
        assert(set_patterns(a[i].regex_set) == set_patterns(b[i].regex_set));
        lemma_same_rules_first_match(a, b, line, i + 1);
    }
}

/// Determinism: well-formed registries that agree on every sink's
/// patterns, invert flag and destination route the same line sequence to the same sequence of
/// destinations.
pub proof fn lemma_dispatch_deterministic(
    a: Seq<FilterConfig>,
    b: Seq<FilterConfig>,
    lines: Seq<String>,
    pass_through: bool,
)
    requires
        registry_wf(a),
        registry_wf(b),
        same_rules(a, b),
    ensures
        route_all(a, lines, pass_through) == route_all(b, lines, pass_through),
{
    assert forall|k: int| 0 <= k < lines.len() implies route(a, #[trigger] lines[k]@, pass_through) == route(
        b,
        lines[k]@,
        pass_through,
    ) by {
        lemma_same_rules_first_match(a, b, lines[k]@, 0);
        if let Some(m) = first_match(a, lines[k]@) {
            lemma_first_match_from(a, lines[k]@, 0);
            assert(a[m].destination == b[m].destination);
        }
    }
    assert(route_all(a, lines, pass_through) =~= route_all(b, lines, pass_through));
}

} // verus!
