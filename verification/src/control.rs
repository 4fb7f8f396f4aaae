//! The two control-flow operators: binary null-coalescing (`if_null`) and
//! variadic multi-branch conditional selection (`case_when`).

use vstd::prelude::*;

use crate::data_type::opt_view;
use crate::data_type::Evaluable;
use crate::data_type::ScalarValueRef;
use crate::data_type::ValView;

verus! {

/// The error taxonomy shared by every scalar function of the evaluator. The
/// two control-flow operators themselves never fail — their `Result` wrapper
/// exists to keep the invocation signature uniform with fallible scalar
/// functions elsewhere in the evaluator; only the checked entry point rejects
/// an argument list, as a type mismatch.
#[derive(Clone, Copy, Debug, PartialEq, Eq, Structural)]
pub enum EvalError {
    /// An argument reference did not hold the value type the instantiation
    /// expects — a contract violation the function catalog prevents.
    TypeMismatch,
    /// A failure from elsewhere in the evaluation pipeline, passed through
    /// unchanged.
    Propagated,
}

/// What null-coalescing returns: the first operand when present, otherwise the
/// second (which may itself be NULL).
pub open spec fn coalesce_view<V>(lhs: Option<V>, rhs: Option<V>) -> Option<V> {
    if lhs is Some {
        lhs
    } else {
        rhs
    }
}

/// SQL `IFNULL`: returns the first operand unchanged when it is present,
/// otherwise the second unchanged (which may itself be NULL). Pure and total;
/// the `Ok` wrapper is the uniform call contract.
pub fn if_null<T: Evaluable>(lhs: &Option<T>, rhs: &Option<T>) -> (r: Result<
    Option<T>,
    EvalError,
>)
    ensures
        r matches Ok(v) && opt_view(v) == coalesce_view(opt_view(*lhs), opt_view(*rhs)),
{
    if lhs.is_some() {
        return Ok(T::into_owned(lhs));
    }
    Ok(T::into_owned(rhs))
}

/// Whether a condition value selects its branch: an integer condition is
/// truthy exactly when it is non-NULL and non-zero. A NULL condition is never
/// truthy — SQL three-valued logic says an unknown condition selects nothing.
pub open spec fn cond_truthy(v: ValView) -> bool {
    v matches ValView::Int(Some(c)) && c != 0
}

/// The content of a sequence of type-erased argument references.
pub open spec fn refs_view(args: Seq<ScalarValueRef>) -> Seq<ValView> {
    args.map_values(|a: ScalarValueRef| a@)
}

/// Well-formed conditional-select arguments for result type `T`, read as
/// consecutive (condition, result) chunks of two with an optional trailing
/// unpaired else-value: every position that starts a full pair holds an
/// integer condition, and every result position — the second of a pair, or a
/// trailing unpaired one — holds type `T`. The function catalog establishes
/// this shape when it binds an instantiation to an opcode.
pub open spec fn case_when_args_wf<T: Evaluable>(vs: Seq<ValView>) -> bool {
    &&& forall|i: int|
        #![trigger vs[i]]
        0 <= i && i + 1 < vs.len() && i % 2 == 0 ==> vs[i] is Int
    &&& forall|i: int|
        #![trigger vs[i]]
        0 <= i < vs.len() && (i % 2 == 1 || i + 1 == vs.len()) ==> T::holds(vs[i])
}

/// The value a conditional select returns: scanning the chunks left to right,
/// the result paired with the first truthy condition; failing that, the
/// trailing unpaired else-value; failing that, NULL.
pub open spec fn case_when_view<T: Evaluable>(vs: Seq<ValView>) -> Option<T::V>
    decreases vs.len(),
{
    if vs.len() == 0 {
        None
    } else if vs.len() == 1 {
        T::value_of(vs[0])
    } else if cond_truthy(vs[0]) {
        T::value_of(vs[1])
    } else {
        case_when_view::<T>(vs.skip(2))
    }
}

/// SQL `CASE WHEN`: scans already-evaluated (condition, result) argument pairs
/// in order and returns the result bound to the first truthy condition; an
/// unpaired trailing argument is the unconditional else-value; with no match
/// and no else-value the result is NULL. At most one result value is ever
/// read, and no chunk after the first match is considered. Pure and total
/// over well-formed argument lists; the `Ok` wrapper is the uniform call
/// contract.
pub fn case_when<T: Evaluable>(args: &[ScalarValueRef<'_>]) -> (r: Result<Option<T>, EvalError>)
    requires
        case_when_args_wf::<T>(refs_view(args@)),
    ensures
        r matches Ok(v) && opt_view(v) == case_when_view::<T>(refs_view(args@)),
{
    let ghost vs = refs_view(args@);
    proof {
        assert(vs.skip(0) =~= vs);
    }
    let mut i: usize = 0;
    loop
        invariant
            case_when_args_wf::<T>(vs),
            vs == refs_view(args@),
            vs.len() == args@.len(),
            i % 2 == 0,
            i <= args.len(),
            case_when_view::<T>(vs) == case_when_view::<T>(vs.skip(i as int)),
        decreases args@.len() - i,
    {
        if i >= args.len() {
            assert(vs.skip(i as int).len() == 0);
            return Ok(None);
        }
        assert(vs[i as int] == args@[i as int]@);
        if i + 1 == args.len() {
            // the trailing unpaired chunk: an unconditional else-branch
            assert(vs.skip(i as int) =~= seq![vs[i as int]]);
            let ret: &Option<T> = Evaluable::borrow_scalar_value_ref(&args[i]);
            return Ok(T::into_owned(ret));
        }
        let cond: &Option<i64> = Evaluable::borrow_scalar_value_ref(&args[i]);
        let c: i64 = match cond {
            Some(x) => *x,
            None => 0,
        };
        proof {
            assert(vs.skip(i as int)[0] == vs[i as int]);
            assert(vs.skip(i as int)[1] == vs[i as int + 1]);
        }
        if c != 0 {
            assert(cond_truthy(vs[i as int]));
            assert(vs[i as int + 1] == args@[i as int + 1]@);
            let ret: &Option<T> = Evaluable::borrow_scalar_value_ref(&args[i + 1]);
            return Ok(T::into_owned(ret));
        }
        proof {
            assert(!cond_truthy(vs[i as int]));
            assert(vs.skip(i as int).skip(2) =~= vs.skip(i as int + 2));
        }
        i = i + 2;
    }
}

/// Whether an argument list has the chunk shape `case_when` expects for
/// result type `T`: the per-branch type check run over every position, so the
/// homogeneity invariant can be enforced at binding time rather than trusted.
pub fn case_when_args_well_formed<T: Evaluable>(args: &[ScalarValueRef<'_>]) -> (r: bool)
    ensures
        r == case_when_args_wf::<T>(refs_view(args@)),
{
    let ghost vs = refs_view(args@);
    let mut i: usize = 0;
    while i < args.len()
        invariant
            vs == refs_view(args@),
            vs.len() == args@.len(),
            i <= args.len(),
            forall|j: int|
                #![trigger vs[j]]
                0 <= j < i ==> {
                    &&& j + 1 < vs.len() && j % 2 == 0 ==> vs[j] is Int
                    &&& j % 2 == 1 || j + 1 == vs.len() ==> T::holds(vs[j])
                },
        decreases args@.len() - i,
    {
        assert(vs[i as int] == args@[i as int]@);
        let ok: bool = if i % 2 == 0 && i + 1 < args.len() {
            <i64 as Evaluable>::holds_scalar_value_ref(&args[i])
        } else {
            T::holds_scalar_value_ref(&args[i])
        };
        if !ok {
            return false;
        }
        i = i + 1;
    }
    true
}

/// `case_when`, with the per-branch type check enforced on every call: a
/// malformed argument list is rejected as a type mismatch instead of being a
/// contract the caller must uphold.
pub fn checked_case_when<T: Evaluable>(args: &[ScalarValueRef<'_>]) -> (r: Result<
    Option<T>,
    EvalError,
>)
    ensures
        case_when_args_wf::<T>(refs_view(args@)) ==> (r matches Ok(v) && opt_view(v)
            == case_when_view::<T>(refs_view(args@))),
        !case_when_args_wf::<T>(refs_view(args@)) ==> r == Err::<Option<T>, EvalError>(
            EvalError::TypeMismatch,
        ),
{
    if case_when_args_well_formed::<T>(args) {
        case_when::<T>(args)
    } else {
        Err(EvalError::TypeMismatch)
    }
}

/// Null-coalescing is deterministic: its value is a function of the two
/// operand values alone — the first unchanged when present, otherwise the
/// second unchanged, including when the second is also NULL.
pub proof fn lemma_coalesce_deterministic<V>(lhs: Option<V>, rhs: Option<V>)
    ensures
        lhs is Some ==> coalesce_view(lhs, rhs) == lhs,
        lhs is None ==> coalesce_view(lhs, rhs) == rhs,
{
}

/// Re-invoking null-coalescing with identical inputs yields an identical
/// output: any two results that satisfy `if_null`'s contract on equal operands
/// carry equal values — the operator keeps no hidden state.
pub proof fn lemma_if_null_repeatable<V>(lhs: Option<V>, rhs: Option<V>, r1: Option<V>, r2: Option<
    V,
>)
    requires
        r1 == coalesce_view(lhs, rhs),
        r2 == coalesce_view(lhs, rhs),
    ensures
        r1 == r2,
{
}

/// Re-invoking the conditional select with an identical argument list yields
/// an identical output: any two results that satisfy `case_when`'s contract on
/// equal argument lists carry equal values — there is no hidden state.
pub proof fn lemma_case_when_repeatable<T: Evaluable>(
    vs: Seq<ValView>,
    r1: Option<T::V>,
    r2: Option<T::V>,
)
    requires
        r1 == case_when_view::<T>(vs),
        r2 == case_when_view::<T>(vs),
    ensures
        r1 == r2,
{
}

/// First match wins: when the condition starting at position `2 * k` is truthy
/// and every condition before it is not, the conditional select returns the
/// value bound to that condition, and no later chunk matters.
pub proof fn lemma_case_when_first_match<T: Evaluable>(vs: Seq<ValView>, k: int)
    requires
        0 <= k,
        2 * k + 1 < vs.len(),
        cond_truthy(vs[2 * k]),
        forall|i: int| #![trigger vs[i]] 0 <= i < 2 * k && i % 2 == 0 ==> !cond_truthy(vs[i]),
    ensures
        case_when_view::<T>(vs) == T::value_of(vs[2 * k + 1]),
    decreases k,
{
    if k > 0 {
        let tail = vs.skip(2);
        assert(!cond_truthy(vs[0]));
        assert forall|i: int| #![trigger tail[i]] 0 <= i < 2 * (k - 1) && i % 2 == 0 implies !cond_truthy(
            tail[i],
        ) by {
            assert(tail[i] == vs[i + 2]);
            assert((i + 2) % 2 == 0);
        }
        assert(tail[2 * (k - 1)] == vs[2 * k]);
        lemma_case_when_first_match::<T>(tail, k - 1);
        assert(tail[2 * (k - 1) + 1] == vs[2 * k + 1]);
    }
}

/// No match, with an else-branch: when no condition is truthy and the argument
/// list has a trailing unpaired value, the conditional select returns that
/// else-value.
pub proof fn lemma_case_when_else<T: Evaluable>(vs: Seq<ValView>)
    requires
        vs.len() % 2 == 1,
        forall|i: int| #![trigger vs[i]] 0 <= i && i + 1 < vs.len() && i % 2 == 0 ==> !cond_truthy(vs[i]),
    ensures
        case_when_view::<T>(vs) == T::value_of(vs[vs.len() - 1]),
    decreases vs.len(),
{
    if vs.len() > 1 {
        let tail = vs.skip(2);
        assert(!cond_truthy(vs[0]));
        assert forall|i: int| #![trigger tail[i]] 0 <= i && i + 1 < tail.len() && i % 2 == 0 implies !cond_truthy(
            tail[i],
        ) by {
            assert(tail[i] == vs[i + 2]);
            assert((i + 2) % 2 == 0);
        }
        lemma_case_when_else::<T>(tail);
        assert(tail[tail.len() - 1] == vs[vs.len() - 1]);
    }
}

/// No match, no else-branch: when no condition is truthy and every argument is
/// part of a full (condition, result) pair, the conditional select is NULL.
pub proof fn lemma_case_when_exhausted<T: Evaluable>(vs: Seq<ValView>)
    requires
        vs.len() % 2 == 0,
        forall|i: int| #![trigger vs[i]] 0 <= i < vs.len() && i % 2 == 0 ==> !cond_truthy(vs[i]),
    ensures
        case_when_view::<T>(vs) is None,
    decreases vs.len(),
{
    if vs.len() > 0 {
        let tail = vs.skip(2);
        assert(!cond_truthy(vs[0]));
        assert forall|i: int| #![trigger tail[i]] 0 <= i < tail.len() && i % 2 == 0 implies !cond_truthy(
            tail[i],
        ) by {
            assert(tail[i] == vs[i + 2]);
            assert((i + 2) % 2 == 0);
        }
        lemma_case_when_exhausted::<T>(tail);
    }
}

/// Arity boundary, below: with no arguments at all the conditional select is
/// NULL.
pub proof fn lemma_case_when_empty<T: Evaluable>()
    ensures
        case_when_view::<T>(Seq::empty()) is None,
{
}

/// Arity boundary, above: a single argument is a bare else-branch and is
/// returned unconditionally.
pub proof fn lemma_case_when_single<T: Evaluable>(v: ValView)
    ensures
        case_when_view::<T>(seq![v]) == T::value_of(v),
{
}

} // verus!
