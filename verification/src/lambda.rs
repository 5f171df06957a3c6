//! The operand layout of lambda terms and their applications.

use vstd::prelude::*;

verus! {

/// The operands of a lambda term: its parameters, in order, then its body.
pub fn lambda_operands(params: &[u64], body: u64) -> (r: Vec<u64>)
    ensures
        r@ == params@.push(body),
{
    let mut ops: Vec<u64> = Vec::new();
    for i in 0..params.len()
        invariant
            ops@ == params@.take(i as int),
    {
        ops.push(params[i]);
        assert(params@.take(i + 1) =~= params@.take(i as int).push(params@[i as int]));
    }
    ops.push(body);
    assert(params@.take(params@.len() as int) =~= params@);
    ops
}

/// The operands of an application: the applied function, then the arguments in order.
pub fn apply_operands(function: u64, args: &[u64]) -> (r: Vec<u64>)
    ensures
        r@ == seq![function] + args@,
{
    let mut ops: Vec<u64> = Vec::new();
    ops.push(function);
    for i in 0..args.len()
        invariant
            ops@ == seq![function] + args@.take(i as int),
    {
        ops.push(args[i]);
        assert(args@.take(i + 1) =~= args@.take(i as int).push(args@[i as int]));
        assert(seq![function] + args@.take(i + 1) =~= (seq![function] + args@.take(i as int)).push(args@[i as int]));
    }
    assert(args@.take(args@.len() as int) =~= args@);
    ops
}

} // verus!
