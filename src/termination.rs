//! Why a bounded run loses nothing: the outcome `NonTerminating` is reported
//! only for programs that never end.
use vstd::prelude::*;
use vstd::relations::injective_on;
use vstd::set_lib::{lemma_int_range, lemma_len_subset, lemma_map_size, set_int_range};

use crate::emulator::{run_from, run_spec, step_spec, Cycle, EmuState};
use crate::error::EmuError;

verus! {

/// The state after `k` cycles from `s`.
pub open spec fn advance(s: EmuState, k: nat) -> EmuState
    decreases k,
{
    if k == 0 {
        s
    } else {
        advance(step_spec(s).0, (k - 1) as nat)
    }
}

/// Each of the first `k` cycles from `s` runs an instruction and goes on.
pub open spec fn runs(s: EmuState, k: nat) -> bool {
    forall|j: nat| j < k ==> #[trigger] step_spec(advance(s, j)).1 == Ok::<Cycle, EmuError>(Cycle::Running)
}

/// Two states that agree on memory and instruction pointer take the same path.
pub open spec fn same_control(s: EmuState, t: EmuState) -> bool {
    s.memory == t.memory && s.eip == t.eip
}

proof fn lemma_advance_add(s: EmuState, a: nat, b: nat)
    ensures
        advance(s, a + b) == advance(advance(s, a), b),
    decreases a,
{
    if a > 0 {
        lemma_advance_add(step_spec(s).0, (a - 1) as nat, b);
        assert((a + b - 1) as nat == (a - 1) as nat + b);
    }
}

proof fn lemma_step_same_control(s: EmuState, t: EmuState)
    requires
        same_control(s, t),
    ensures
        step_spec(s).1 == step_spec(t).1,
        same_control(step_spec(s).0, step_spec(t).0),
        step_spec(s).0.memory == s.memory,
{
}

proof fn lemma_advance_same_control(s: EmuState, t: EmuState, k: nat)
    requires
        same_control(s, t),
    ensures
        same_control(advance(s, k), advance(t, k)),
        advance(s, k).memory == s.memory,
    decreases k,
{
    lemma_step_same_control(s, t);
    if k > 0 {
        lemma_advance_same_control(step_spec(s).0, step_spec(t).0, (k - 1) as nat);
    }
}

/// A run that is out of fuel has gone on in every cycle so far.
proof fn lemma_out_of_fuel_runs(s: EmuState, fuel: nat)
    requires
        run_from(s, fuel).1 matches Err(EmuError::NonTerminating { .. }),
    ensures
        runs(s, fuel),
        advance(s, fuel).eip < s.memory.len(),
    decreases fuel,
{
    lemma_advance_same_control(s, s, fuel);
    if fuel > 0 {
        let t = step_spec(s).0;
        lemma_out_of_fuel_runs(t, (fuel - 1) as nat);
        assert forall|j: nat| j < fuel implies #[trigger] step_spec(advance(s, j)).1 == Ok::<
            Cycle,
            EmuError,
        >(Cycle::Running) by {
            if j > 0 {
                assert(advance(s, j) == advance(t, (j - 1) as nat));
            }
        }
    }
}

/// While every cycle goes on, running with fuel is running that many cycles
/// and going on from there.
proof fn lemma_run_from_runs(s: EmuState, k: nat, fuel: nat)
    requires
        runs(s, k),
        k <= fuel,
    ensures
        run_from(s, fuel) == run_from(advance(s, k), (fuel - k) as nat),
    decreases k,
{
    if k > 0 {
        let t = step_spec(s).0;
        assert(step_spec(advance(s, 0)).1 == Ok::<Cycle, EmuError>(Cycle::Running));
        assert forall|j: nat| j < (k - 1) as nat implies #[trigger] step_spec(advance(t, j)).1
            == Ok::<Cycle, EmuError>(Cycle::Running) by {
            assert(advance(s, j + 1) == advance(t, j));
        }
        lemma_run_from_runs(t, (k - 1) as nat, (fuel - 1) as nat);
    }
}

/// Among `n + 1` offsets below `n`, two are equal.
proof fn lemma_pigeonhole(f: spec_fn(int) -> int, n: int)
    requires
        n >= 0,
        forall|k: int| 0 <= k <= n ==> 0 <= #[trigger] f(k) < n,
    ensures
        exists|i: int, j: int| 0 <= i < j <= n && #[trigger] f(i) == #[trigger] f(j),
{
    let dom = set_int_range(0, n + 1);
    let img = set_int_range(0, n);
    lemma_int_range(0, n + 1);
    lemma_int_range(0, n);
    if !(exists|i: int, j: int| 0 <= i < j <= n && #[trigger] f(i) == #[trigger] f(j)) {
        assert(injective_on(f, dom)) by {
            assert forall|a: int, b: int| dom.contains(a) && dom.contains(b) && #[trigger] f(a)
                == #[trigger] f(b) implies a == b by {
                if a < b {
                    assert(0 <= a < b <= n && f(a) == f(b));
                } else if b < a {
                    assert(0 <= b < a <= n && f(b) == f(a));
                }
            }
        }
        lemma_map_size(dom, dom.map(f), f);
        assert(dom.map(f).subset_of(img)) by {
            assert forall|y: int| dom.map(f).contains(y) implies img.contains(y) by {
                let x = choose|x: int| dom.contains(x) && f(x) == y;
                assert(0 <= f(x) < n);
            }
        }
        lemma_len_subset(dom.map(f), img);
    }
}

/// Once the path from `s` returns to a state with the same memory and
/// instruction pointer after `p` cycles that all went on, it goes on forever.
proof fn lemma_cycle_runs_forever(u: EmuState, p: nat, m: nat)
    requires
        p > 0,
        runs(u, p),
        same_control(u, advance(u, p)),
    ensures
        step_spec(advance(u, m)).1 == Ok::<Cycle, EmuError>(Cycle::Running),
    decreases m,
{
    if m >= p {
        let r = (m - p) as nat;
        lemma_cycle_runs_forever(u, p, r);
        lemma_advance_add(u, p, r);
        assert(p + r == m);
        lemma_advance_same_control(advance(u, p), u, r);
        lemma_step_same_control(advance(u, m), advance(u, r));
    }
}

/// A program whose run is reported `NonTerminating` does not end with any
/// amount of fuel either: the report stands for a run that never ends.
pub proof fn lemma_non_terminating_never_ends(s: EmuState, fuel: nat)
    requires
        run_spec(s).1 matches Err(EmuError::NonTerminating { .. }),
    ensures
        run_from(s, fuel).1 matches Err(EmuError::NonTerminating { .. }),
{
    let n = s.memory.len();
    lemma_out_of_fuel_runs(s, n);
    let f = |k: int| advance(s, k as nat).eip as int;
    assert forall|k: int| 0 <= k <= n implies 0 <= #[trigger] f(k) < n by {
        lemma_advance_same_control(s, s, k as nat);
        if k < n {
            assert(step_spec(advance(s, k as nat)).1 == Ok::<Cycle, EmuError>(Cycle::Running));
        }
    }
    lemma_pigeonhole(f, n as int);
    let (i, j) = choose|i: int, j: int| 0 <= i < j <= n && #[trigger] f(i) == #[trigger] f(j);
    let u = advance(s, i as nat);
    let p = (j - i) as nat;
    lemma_advance_add(s, i as nat, p);
    assert(i as nat + p == j as nat);
    lemma_advance_same_control(s, s, i as nat);
    lemma_advance_same_control(s, s, j as nat);
    assert forall|q: nat| q < p implies #[trigger] step_spec(advance(u, q)).1 == Ok::<
        Cycle,
        EmuError,
    >(Cycle::Running) by {
        lemma_advance_add(s, i as nat, q);
        assert(step_spec(advance(s, (i as nat + q) as nat)).1 == Ok::<Cycle, EmuError>(Cycle::Running));
    }
    assert forall|k: nat| k < fuel + 1 implies #[trigger] step_spec(advance(s, k)).1 == Ok::<
        Cycle,
        EmuError,
    >(Cycle::Running) by {
        if k >= i {
            let q = (k - i) as nat;
            lemma_advance_add(s, i as nat, q);
            assert(i as nat + q == k);
            lemma_cycle_runs_forever(u, p, q);
        } else {
            assert(k < n);
        }
    }
    lemma_run_from_runs(s, fuel, fuel);
    assert(step_spec(advance(s, fuel)).1 == Ok::<Cycle, EmuError>(Cycle::Running));
    lemma_advance_same_control(s, s, fuel);
}

/// A run that ends within its fuel ends in the same state, the same way,
/// with any more fuel.
pub proof fn lemma_more_fuel_same_end(s: EmuState, fuel: nat, more: nat)
    requires
        !(run_from(s, fuel).1 matches Err(EmuError::NonTerminating { .. })),
    ensures
        run_from(s, fuel + more) == run_from(s, fuel),
    decreases fuel,
{
    if s.eip < s.memory.len() && fuel > 0 {
        if step_spec(s).1 == Ok::<Cycle, EmuError>(Cycle::Running) {
            lemma_more_fuel_same_end(step_spec(s).0, (fuel - 1) as nat, more);
            assert((fuel + more - 1) as nat == (fuel - 1) as nat + more);
        }
    }
}

/// The bounded run loses nothing: a run reported as ended or failed gives the
/// same state and outcome with any fuel from the memory's size on.
pub proof fn lemma_run_spec_is_final(s: EmuState, fuel: nat)
    requires
        fuel >= s.memory.len(),
        !(run_spec(s).1 matches Err(EmuError::NonTerminating { .. })),
    ensures
        run_from(s, fuel) == run_spec(s),
{
    lemma_more_fuel_same_end(s, s.memory.len(), (fuel - s.memory.len()) as nat);
}

} // verus!
