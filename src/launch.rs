//! Choosing which candidate command to spawn, in priority order.
use vstd::prelude::*;

verus! {

/// One candidate: an executable name and its arguments.
pub struct LaunchCommand {
    pub program: String,
    pub args: Vec<String>,
}

impl LaunchCommand {
    pub fn new(program: String, args: Vec<String>) -> (r: Self)
        ensures
            r.program == program,
            r.args == args,
    {
        LaunchCommand { program, args }
    }

    /// The executable name as text.
    pub open spec fn program_text(&self) -> Seq<char> {
        self.program@
    }

    /// The arguments as texts, in order.
    pub open spec fn arg_texts(&self) -> Seq<Seq<char>> {
        self.args@.map_values(|a: String| a@)
    }
}

/// The candidates to try, highest priority first.
pub struct LaunchCommandSet {
    pub candidates: Vec<LaunchCommand>,
}

/// What the launcher does next.
#[derive(PartialEq, Eq, Structural, Clone, Copy, Debug)]
pub enum LaunchStep {
    /// Spawn the candidate at this index.
    Attempt(usize),
    /// The candidate at this index was spawned; its handle is the result.
    Launched(usize),
    /// Every candidate failed to spawn.
    Failed,
}

/// The first step for a set of `n` candidates.
pub open spec fn first_step_of(n: usize) -> LaunchStep {
    if n == 0 {
        LaunchStep::Failed
    } else {
        LaunchStep::Attempt(0)
    }
}

/// The step after spawning candidate `i` of `n` succeeded (`spawned`) or failed.
pub open spec fn step_after_attempt(n: usize, i: usize, spawned: bool) -> LaunchStep {
    if spawned {
        LaunchStep::Launched(i)
    } else if i + 1 < n {
        LaunchStep::Attempt((i + 1) as usize)
    } else {
        LaunchStep::Failed
    }
}

/// The launcher driven from candidate `i` on, where `spawnable[k]` tells
/// whether spawning candidate `k` succeeds: the indices attempted, in order,
/// and the index that was launched, if any.
pub open spec fn run_from(n: usize, spawnable: Seq<bool>, i: usize) -> (Seq<int>, Option<int>)
    decreases n - i,
{
    if i >= n {
        (seq![], None)
    } else {
        match step_after_attempt(n, i, spawnable[i as int]) {
            LaunchStep::Launched(j) => (seq![i as int], Some(j as int)),
            LaunchStep::Attempt(j) => {
                if i < j && j <= n {
                    let rest = run_from(n, spawnable, j);
                    (seq![i as int] + rest.0, rest.1)
                } else {
                    (seq![i as int], None)
                }
            },
            LaunchStep::Failed => (seq![i as int], None),
        }
    }
}

/// The whole launch over `n` candidates: the indices attempted, in order,
/// and the index that was launched, if any.
pub open spec fn launch_run(n: usize, spawnable: Seq<bool>) -> (Seq<int>, Option<int>) {
    match first_step_of(n) {
        LaunchStep::Attempt(j) => run_from(n, spawnable, j),
        _ => (seq![], None),
    }
}

impl LaunchCommandSet {
    pub fn new(candidates: Vec<LaunchCommand>) -> (r: Self)
        ensures
            r.candidates == candidates,
    {
        LaunchCommandSet { candidates }
    }

    pub open spec fn count(&self) -> usize {
        self.candidates@.len() as usize
    }

    /// The two ways to start the backend on port 7600: its installed
    /// command line entry point first, then the interpreter running the same
    /// module.
    pub fn service_commands() -> (r: Self)
        ensures
            r.candidates@.len() == 2,
            r.candidates@[0].program_text() == "xeen"@,
            r.candidates@[0].arg_texts() == seq!["server"@, "--port"@, "7600"@],
            r.candidates@[1].program_text() == "python3"@,
            r.candidates@[1].arg_texts() == seq!["-m"@, "xeen.cli"@, "server"@, "--port"@, "7600"@],
    {
        let primary = LaunchCommand::new(
            "xeen".to_owned(),
            vec!["server".to_owned(), "--port".to_owned(), "7600".to_owned()],
        );
        let fallback = LaunchCommand::new(
            "python3".to_owned(),
            vec![
                "-m".to_owned(),
                "xeen.cli".to_owned(),
                "server".to_owned(),
                "--port".to_owned(),
                "7600".to_owned(),
            ],
        );
        assert(primary.arg_texts() =~= seq!["server"@, "--port"@, "7600"@]);
        assert(fallback.arg_texts() =~= seq!["-m"@, "xeen.cli"@, "server"@, "--port"@, "7600"@]);
        LaunchCommandSet { candidates: vec![primary, fallback] }
    }

    pub fn len(&self) -> (r: usize)
        ensures
            r == self.candidates@.len(),
    {
        self.candidates.len()
    }

    /// The candidate at index `i`.
    pub fn get(&self, i: usize) -> (r: &LaunchCommand)
        requires
            i < self.candidates@.len(),
        ensures
            *r == self.candidates@[i as int],
    {
        &self.candidates[i]
    }

    /// The launcher's first step: try the highest-priority candidate, or fail
    /// at once when there is none.
    pub fn first_step(&self) -> (r: LaunchStep)
        ensures
            r == first_step_of(self.count()),
    {
        if self.candidates.len() == 0 {
            LaunchStep::Failed
        } else {
            LaunchStep::Attempt(0)
        }
    }

    /// The launcher's step after candidate `i` was attempted: a success ends
    /// the launch with that candidate, a failure moves on to the next one, or
    /// fails the launch after the last one.
    pub fn step_after(&self, i: usize, spawned: bool) -> (r: LaunchStep)
        requires
            i < self.candidates@.len(),
        ensures
            r == step_after_attempt(self.count(), i, spawned),
    {
        if spawned {
            LaunchStep::Launched(i)
        } else if i < self.candidates.len() - 1 {
            LaunchStep::Attempt(i + 1)
        } else {
            LaunchStep::Failed
        }
    }
}

proof fn lemma_run_from_first_spawnable(n: usize, spawnable: Seq<bool>, i: usize, f: int)
    requires
        spawnable.len() == n,
        i <= f < n,
        spawnable[f],
        forall|k: int| i <= k < f ==> !spawnable[k],
    ensures
        run_from(n, spawnable, i).0 =~= Seq::new((f - i + 1) as nat, |k: int| i + k),
        run_from(n, spawnable, i).1 == Some(f),
    decreases n - i,
{
    if i < f {
        lemma_run_from_first_spawnable(n, spawnable, (i + 1) as usize, f);
    }
}

proof fn lemma_run_from_none_spawnable(n: usize, spawnable: Seq<bool>, i: usize)
    requires
        spawnable.len() == n,
        i < n,
        forall|k: int| i <= k < n ==> !spawnable[k],
    ensures
        run_from(n, spawnable, i).0 =~= Seq::new((n - i) as nat, |k: int| i + k),
        run_from(n, spawnable, i).1 is None,
    decreases n - i,
{
    if i + 1 < n {
        lemma_run_from_none_spawnable(n, spawnable, (i + 1) as usize);
    }
}

/// Where some candidate can be spawned, the launch ends with the first
/// spawnable candidate in priority order, having attempted exactly the
/// candidates up to it, in order, and none after it.
pub proof fn launch_stops_at_first_spawnable(n: usize, spawnable: Seq<bool>)
    requires
        spawnable.len() == n,
        exists|k: int| 0 <= k < n && spawnable[k],
    ensures
        launch_run(n, spawnable).1 matches Some(f) && {
            &&& 0 <= f < n
            &&& spawnable[f]
            &&& forall|k: int| 0 <= k < f ==> !spawnable[k]
            &&& launch_run(n, spawnable).0 == Seq::new((f + 1) as nat, |k: int| k)
        },
{
    let w = choose|k: int| 0 <= k < n && spawnable[k];
    let f = first_true(spawnable, w);
    lemma_run_from_first_spawnable(n, spawnable, 0, f);
    assert(Seq::new((f + 1) as nat, |k: int| 0 + k) =~= Seq::new((f + 1) as nat, |k: int| k));
}

/// Where no candidate can be spawned, the launch fails after attempting
/// every candidate exactly once, in priority order.
pub proof fn launch_fails_after_every_candidate(n: usize, spawnable: Seq<bool>)
    requires
        spawnable.len() == n,
        forall|k: int| 0 <= k < n ==> !spawnable[k],
    ensures
        launch_run(n, spawnable).0 == Seq::new(n as nat, |k: int| k),
        launch_run(n, spawnable).1 is None,
{
    if n > 0 {
        lemma_run_from_none_spawnable(n, spawnable, 0);
        assert(Seq::new(n as nat, |k: int| 0 + k) =~= Seq::new(n as nat, |k: int| k));
    } else {
        assert(launch_run(n, spawnable).0 =~= Seq::new(n as nat, |k: int| k));
    }
}

/// The least index at or below `w` that holds `true`, given that `w` does.
proof fn first_true(s: Seq<bool>, w: int) -> (f: int)
    requires
        0 <= w < s.len(),
        s[w],
    ensures
        0 <= f <= w,
        s[f],
        forall|k: int| 0 <= k < f ==> !s[k],
    decreases w,
{
    if exists|k: int| 0 <= k < w && s[k] {
        let v = choose|k: int| 0 <= k < w && s[k];
        first_true(s, v)
    } else {
        w
    }
}

} // verus!
