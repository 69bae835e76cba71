use vstd::prelude::*;

verus! {

/// A literal is a signed variable index. Zero closes a clause and the least
/// `i32` has no negation, so neither names a literal.
pub open spec fn valid_literal(lit: i32) -> bool {
    lit != 0 && lit != i32::MIN
}

/// Whether every member of `lits` is a literal.
pub open spec fn valid_literals(lits: Seq<i32>) -> bool {
    forall|i: int| 0 <= i < lits.len() ==> valid_literal(#[trigger] lits[i])
}

/// The variable that a literal speaks of: its magnitude.
pub open spec fn spec_variable(lit: i32) -> i32
    recommends
        lit != i32::MIN,
{
    if lit < 0 {
        (-lit) as i32
    } else {
        lit
    }
}

/// Tests whether `lit` names a literal.
pub fn is_valid_literal(lit: i32) -> (r: bool)
    ensures
        r == valid_literal(lit),
{
    lit != 0 && lit != i32::MIN
}

/// Tests whether every member of `lits` names a literal.
pub fn are_valid_literals(lits: &[i32]) -> (r: bool)
    ensures
        r == valid_literals(lits@),
{
    let mut i: usize = 0;
    while i < lits.len()
        invariant
            i <= lits.len(),
            forall|j: int| 0 <= j < i ==> valid_literal(#[trigger] lits@[j]),
        decreases lits.len() - i,
    {
        if !is_valid_literal(lits[i]) {
            return false;
        }
        i += 1;
    }
    true
}

/// The variable that a literal speaks of.
pub fn variable(lit: i32) -> (r: i32)
    requires
        lit != i32::MIN,
    ensures
        r == spec_variable(lit),
        r >= 0,
        r == 0 <==> lit == 0,
{
    if lit < 0 {
        -lit
    } else {
        lit
    }
}

/// A sequence with one more member holds literals only if the sequence
/// before did and the new member is a literal.
pub proof fn lemma_valid_literals_push(lits: Seq<i32>, lit: i32)
    ensures
        valid_literals(lits.push(lit)) <==> valid_literals(lits) && valid_literal(lit),
{
    let longer = lits.push(lit);
    if valid_literals(longer) {
        assert(longer[lits.len() as int] == lit);
        assert forall|i: int| 0 <= i < lits.len() implies valid_literal(#[trigger] lits[i]) by {
            assert(longer[i] == lits[i]);
        }
    }
}

} // verus!
