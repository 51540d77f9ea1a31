//! The demonstration circuits' statements as plain data.
//!
//! The proving libraries consume circuits through their own traits and field
//! element types, which stay outside this crate's reach. The relations the
//! demonstration circuits enforce are small enough to state exactly, so this
//! module keeps each circuit as plain 64-bit data together with a verified
//! account of when an assignment satisfies it. The demonstration witnesses
//! are small integers embedded into fields far wider than 64 bits, so
//! integer arithmetic below matches the field arithmetic the constraint
//! systems actually run.

use vstd::prelude::*;

verus! {

/// The rank-1 equality circuit: private witnesses `a` and `b`, public input
/// `c`, one constraint `(a + b) * 1 = c`. A field left `None` is an
/// unassigned variable; proving demands a full assignment, while parameter
/// generation runs with none.
#[derive(Clone, Copy, Debug)]
pub struct Circuit {
    /// First private witness.
    pub a: Option<u64>,
    /// Second private witness.
    pub b: Option<u64>,
    /// Public input the verifier checks against.
    pub c: Option<u64>,
}

/// Whether every variable of the equality circuit carries a value.
pub open spec fn fully_assigned(c: Circuit) -> bool {
    c.a is Some && c.b is Some && c.c is Some
}

/// Whether a fully assigned equality circuit satisfies its one constraint.
pub open spec fn equality_holds(c: Circuit) -> bool {
    c.a->Some_0 + c.b->Some_0 == c.c->Some_0
}

impl Circuit {
    /// The circuit with no variables assigned, as parameter generation uses it.
    pub fn blank() -> (c: Circuit)
        ensures
            c.a is None && c.b is None && c.c is None,
    {
        Circuit { a: None, b: None, c: None }
    }

    /// An assignment of all three variables.
    pub fn assigned(a: u64, b: u64, c: u64) -> (out: Circuit)
        ensures
            out.a == Some(a) && out.b == Some(b) && out.c == Some(c),
            fully_assigned(out),
    {
        Circuit { a: Some(a), b: Some(b), c: Some(c) }
    }

    /// Whether a prover holding this assignment can satisfy the constraint:
    /// every variable is assigned and `a + b = c`. Proving with anything
    /// less fails, either for a missing assignment or for an unsatisfied
    /// constraint.
    pub fn satisfied(&self) -> (r: bool)
        ensures
            r == (fully_assigned(*self) && equality_holds(*self)),
    {
        match (self.a, self.b, self.c) {
            (Some(a), Some(b), Some(c)) => (a as u128) + (b as u128) == (c as u128),
            _ => false,
        }
    }

    /// The public input the verifier must be given for this assignment, if
    /// one is assigned.
    pub fn public_input(&self) -> (r: Option<u64>)
        ensures
            r == self.c,
    {
        self.c
    }
}

/// The arithmetic-gate circuit of the PLONK demonstration: witnesses `a` and
/// `b`, one addition gate binding public input `c` to `a + b`, and one
/// multiplication gate binding public input `d` to `a * b`.
#[derive(Clone, Copy, Debug)]
pub struct TestCircuit {
    /// First witness, fed to both gates.
    pub a: u64,
    /// Second witness, fed to both gates.
    pub b: u64,
    /// Public input of the addition gate.
    pub c: u64,
    /// Public input of the multiplication gate.
    pub d: u64,
}

/// Whether an assignment satisfies both gates of the arithmetic circuit.
pub open spec fn gates_hold(t: TestCircuit) -> bool {
    t.a + t.b == t.c && t.a * t.b == t.d
}

impl Default for TestCircuit {
    /// The all-zero assignment the demonstration proves: both gates hold
    /// trivially of it.
    fn default() -> (t: TestCircuit)
        ensures
            t.a == 0 && t.b == 0 && t.c == 0 && t.d == 0,
    {
        TestCircuit { a: 0, b: 0, c: 0, d: 0 }
    }
}

impl TestCircuit {
    /// Whether this assignment satisfies both gates: `a + b = c` and
    /// `a * b = d`.
    pub fn gates_satisfied(&self) -> (r: bool)
        ensures
            r == gates_hold(*self),
    {
        let sum_ok = (self.a as u128) + (self.b as u128) == (self.c as u128);
        proof {
            vstd::arithmetic::mul::lemma_mul_upper_bound(
                self.a as int, u64::MAX as int, self.b as int, u64::MAX as int);
        }
        let prod_ok = (self.a as u128) * (self.b as u128) == (self.d as u128);
        sum_ok && prod_ok
    }
}

/// The all-zero assignment satisfies the arithmetic circuit: the PLONK
/// demonstration's default instance proves successfully.
pub proof fn lemma_default_assignment_satisfies(t: TestCircuit)
    requires
        t.a == 0 && t.b == 0 && t.c == 0 && t.d == 0,
    ensures
        gates_hold(t),
{
}

} // verus!
