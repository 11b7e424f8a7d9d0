//! Signature patterns: declarative acceptance rules over a call's static
//! argument types.

use vstd::prelude::*;
use crate::types::DataType;

verus! {

/// How often a function's result may change between calls on equal inputs.
#[derive(Debug, PartialEq, Eq, Structural, Clone, Copy)]
pub enum Volatility {
    Immutable,
    Stable,
    Volatile,
}

/// One argument-shape rule: a single acceptance test over a call's
/// positional argument types.
#[derive(Debug)]
pub enum ShapePattern {
    /// Positional exact match, no coercion.
    Exact(Vec<DataType>),
    /// Any number of arguments, each individually unconstrained.
    VariadicAny,
    /// Any number of arguments; when at least one is given, all must share
    /// one type (strict equality, not widenable).
    VariadicEqual,
    /// Exactly one argument of any container kind.
    UniformArray,
    /// Exactly two arguments, the first a container kind, the second
    /// unconstrained.
    ArrayAndElement,
    /// Exactly two arguments, the second a container kind, the first
    /// unconstrained.
    ElementAndArray,
}

impl ShapePattern {
    /// Whether this shape accepts a call with the given argument types.
    pub open spec fn accepts(self, args: Seq<DataType>) -> bool {
        match self {
            ShapePattern::Exact(expected) => {
                &&& args.len() == expected@.len()
                &&& forall|i: int| 0 <= i < args.len() ==> #[trigger] args[i] == expected@[i]
            },
            ShapePattern::VariadicAny => true,
            ShapePattern::VariadicEqual => forall|i: int|
                0 <= i < args.len() ==> #[trigger] args[i] == args[0],
            ShapePattern::UniformArray => args.len() == 1 && args[0].is_container(),
            ShapePattern::ArrayAndElement => args.len() == 2 && args[0].is_container(),
            ShapePattern::ElementAndArray => args.len() == 2 && args[1].is_container(),
        }
    }

    /// Runtime acceptance test for one shape.
    #[verifier::loop_isolation(false)]
    pub fn matches_types(&self, args: &Vec<DataType>) -> (r: bool)
        ensures
            r == self.accepts(args@),
    {
        match self {
            ShapePattern::Exact(expected) => {
                if args.len() != expected.len() {
                    return false;
                }
                let mut i: usize = 0;
                while i < args.len()
                    invariant
                        0 <= i <= args@.len(),
                        forall|j: int| 0 <= j < i ==> #[trigger] args@[j] == expected@[j],
                    decreases args@.len() - i,
                {
                    if !crate::types::type_eq(&args[i], &expected[i]) {
                        return false;
                    }
                    i = i + 1;
                }
                true
            },
            ShapePattern::VariadicAny => true,
            ShapePattern::VariadicEqual => {
                if args.len() == 0 {
                    return true;
                }
                let mut i: usize = 1;
                while i < args.len()
                    invariant
                        1 <= i <= args@.len(),
                        forall|j: int| 0 <= j < i ==> #[trigger] args@[j] == args@[0],
                    decreases args@.len() - i,
                {
                    if !crate::types::type_eq(&args[i], &args[0]) {
                        return false;
                    }
                    i = i + 1;
                }
                true
            },
            ShapePattern::UniformArray => args.len() == 1 && args[0].container_kind(),
            ShapePattern::ArrayAndElement => args.len() == 2 && args[0].container_kind(),
            ShapePattern::ElementAndArray => args.len() == 2 && args[1].container_kind(),
        }
    }
}

/// The argument-type shapes one function accepts: a single shape, or an
/// alternation of shapes tried in declared order, first acceptance winning.
#[derive(Debug)]
pub enum TypeSignature {
    Shape(ShapePattern),
    OneOf(Vec<ShapePattern>),
}

impl TypeSignature {
    /// Whether this signature accepts a call with the given argument types.
    pub open spec fn accepts(self, args: Seq<DataType>) -> bool {
        match self {
            TypeSignature::Shape(shape) => shape.accepts(args),
            TypeSignature::OneOf(alts) => exists|i: int|
                0 <= i < alts@.len() && #[trigger] alts@[i].accepts(args),
        }
    }

    /// Runtime acceptance test.
    pub fn matches_types(&self, args: &Vec<DataType>) -> (r: bool)
        ensures
            r == self.accepts(args@),
    {
        match self {
            TypeSignature::Shape(shape) => shape.matches_types(args),
            TypeSignature::OneOf(alts) => first_accepting(alts, args).is_some(),
        }
    }
}

/// The index of the first alternative, in declared order, that accepts the
/// given argument types; `None` when no alternative accepts them.
#[verifier::loop_isolation(false)]
pub fn first_accepting(alts: &Vec<ShapePattern>, args: &Vec<DataType>) -> (r: Option<usize>)
    ensures
        r == first_match(alts@, args@, 0),
        (r is Some) == exists|i: int|
            0 <= i < alts@.len() && #[trigger] alts@[i].accepts(args@),
        r matches Some(i) ==> {
            &&& 0 <= i < alts@.len()
            &&& alts@[i as int].accepts(args@)
            &&& forall|j: int| 0 <= j < i ==> !(#[trigger] alts@[j].accepts(args@))
        },
{
    let mut i: usize = 0;
    while i < alts.len()
        invariant
            0 <= i <= alts@.len(),
            forall|j: int| 0 <= j < i ==> !(#[trigger] alts@[j].accepts(args@)),
            first_match(alts@, args@, 0) == first_match(alts@, args@, i as int),
        decreases alts@.len() - i,
    {
        if alts[i].matches_types(args) {
            return Some(i);
        }
        i = i + 1;
    }
    None
}

/// The first alternative at or after position `k`, in declared order, that
/// accepts the argument types.
pub open spec fn first_match(alts: Seq<ShapePattern>, args: Seq<DataType>, k: int) -> Option<
    usize,
>
    decreases alts.len() - k,
{
    if k < 0 || k >= alts.len() {
        None
    } else if alts[k].accepts(args) {
        Some(k as usize)
    } else {
        first_match(alts, args, k + 1)
    }
}

/// Alternation law: when alternative `i` accepts the call and no earlier
/// alternative does, `i` is exactly the alternative that determines
/// acceptance — even if a later alternative would also match — and the
/// alternation as a whole accepts the call.
pub proof fn lemma_first_alternative_wins(alts: Seq<ShapePattern>, args: Seq<DataType>, i: usize)
    requires
        0 <= i < alts.len(),
        alts[i as int].accepts(args),
        forall|j: int| 0 <= j < i ==> !(#[trigger] alts[j].accepts(args)),
    ensures
        first_match(alts, args, 0) == Some(i),
    decreases i,
{
    lemma_first_match_step(alts, args, 0, i);
}

/// Helper for the alternation law: from position `k`, when everything in
/// `[k, i)` rejects and `i` accepts, the first match from `k` is `i`.
proof fn lemma_first_match_step(alts: Seq<ShapePattern>, args: Seq<DataType>, k: int, i: usize)
    requires
        0 <= k <= i < alts.len(),
        alts[i as int].accepts(args),
        forall|j: int| k <= j < i ==> !(#[trigger] alts[j].accepts(args)),
    ensures
        first_match(alts, args, k) == Some(i),
    decreases i - k,
{
    if k < i {
        lemma_first_match_step(alts, args, k + 1, i);
    }
}

} // verus!
