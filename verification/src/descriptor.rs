//! Function descriptors: the immutable bundle of identity, accepted shapes,
//! return-type rule and dispatch rule for one function.

use vstd::prelude::*;
use vstd::string::StringExecFns;
use crate::dispatch::{
    arrays_uniform,
    batch_len,
    mixed_length_text,
    route,
    route_spec,
    normalize_values,
    ArrayHandle,
    ColumnarValue,
    DispatchRule,
    KernelCall,
};
use crate::failure::{ExecutionError, PlanningError};
use crate::resolve::{apply_rule, rule_result, ReturnRule};
use crate::signature::{TypeSignature, Volatility};
use crate::types::DataType;

verus! {

/// One function of the library: canonical name, alias set, accepted argument
/// shapes, volatility, return-type rule, and dispatch rule. Built once at
/// registry initialization and never mutated.
#[derive(Debug)]
pub struct FunctionDescriptor {
    pub canonical_name: String,
    pub aliases: Vec<String>,
    pub signature: TypeSignature,
    pub volatility: Volatility,
    pub rule: ReturnRule,
    pub dispatch: DispatchRule,
}

/// Whether `name` is one of the descriptor's declared names.
pub open spec fn has_alias(d: FunctionDescriptor, name: Seq<char>) -> bool {
    exists|k: int| 0 <= k < d.aliases@.len() && (#[trigger] d.aliases@[k])@ == name
}

impl FunctionDescriptor {
    /// Dispatch coverage: every argument-type tuple the static signature
    /// accepts routes to some kernel, so a well-typed plan is never built
    /// for a call its dispatcher cannot execute.
    pub open spec fn dispatch_covers(self) -> bool {
        forall|arg_types: Seq<DataType>|
            #[trigger] self.signature.accepts(arg_types) ==> route_spec(
                self.dispatch,
                arg_types,
            ) is Some
    }

    /// Well-formedness: the alias set is non-empty, contains the canonical
    /// name, and the dispatch rule covers everything the signature accepts.
    pub open spec fn wf(self) -> bool {
        &&& self.aliases@.len() > 0
        &&& has_alias(self, self.canonical_name@)
        &&& self.dispatch_covers()
    }

    /// The function's canonical (public) name.
    pub fn name(&self) -> (r: &String)
        ensures
            r@ == self.canonical_name@,
    {
        &self.canonical_name
    }

    /// Every name the function answers to, canonical name included.
    pub fn alias_names(&self) -> (r: &Vec<String>)
        ensures
            r@ == self.aliases@,
    {
        &self.aliases
    }

    /// Whether the function's signature accepts a call with the given static
    /// argument types.
    pub fn accepts(&self, arg_types: &Vec<DataType>) -> (r: bool)
        ensures
            r == self.signature.accepts(arg_types@),
    {
        self.signature.matches_types(arg_types)
    }

    /// The function's result type for the given static argument types, for
    /// the planner to attach to the plan node. Fails with a planning error,
    /// naming the function and its accepted kinds, exactly where the
    /// return-type rule is undefined.
    pub fn return_type(&self, arg_types: &Vec<DataType>) -> (r: Result<DataType, PlanningError>)
        ensures
            (r is Ok) == (rule_result(self.rule, arg_types@) is Some),
            r matches Ok(t) ==> rule_result(self.rule, arg_types@) == Some(t),
            r matches Err(e) ==> e.function@ == self.canonical_name@ && e.message@
                == domain_text(self.rule),
    {
        match apply_rule(&self.rule, arg_types) {
            Some(t) => Ok(t),
            None => Err(
                PlanningError {
                    function: self.canonical_name.clone(),
                    message: domain_description(&self.rule),
                },
            ),
        }
    }

    /// Route a call's materialized column batches: normalize broadcast
    /// scalars into arrays, then select the one kernel that must run on
    /// them. Fails with an execution error when the arrays disagree about
    /// the batch length, or when the first argument's runtime kind has no
    /// implemented kernel — the latter is reachable even on a well-typed
    /// plan, and is distinct from any planning failure.
    pub fn invoke(&self, args: &Vec<ColumnarValue>) -> (r: Result<KernelCall, ExecutionError>)
        ensures
            (r is Ok) == (arrays_uniform(args@) && route_spec(
                self.dispatch,
                args@.map_values(|v: ColumnarValue| v.dtype_spec()),
            ) is Some),
            r matches Ok(call) ==> {
                &&& route_spec(
                    self.dispatch,
                    args@.map_values(|v: ColumnarValue| v.dtype_spec()),
                ) == Some(call.kernel)
                &&& call.args@.len() == args@.len()
                &&& forall|i: int|
                    0 <= i < args@.len() ==> (#[trigger] call.args@[i]).dtype
                        == args@[i].dtype_spec()
                &&& forall|i: int|
                    0 <= i < args@.len() ==> (#[trigger] call.args@[i]).len == batch_len(args@)
            },
            r matches Err(e) ==> {
                &&& e.function@ == self.canonical_name@
                &&& e.message@ == if arrays_uniform(args@) {
                    no_kernel_text()
                } else {
                    mixed_length_text()
                }
            },
    {
        let arrays = match normalize_values(&self.canonical_name, args) {
            Ok(arrays) => arrays,
            Err(e) => {
                return Err(e);
            },
        };
        assert(arrays@.map_values(|a: ArrayHandle| a.dtype) =~= args@.map_values(
            |v: ColumnarValue| v.dtype_spec(),
        ));
        match route(&self.dispatch, &arrays) {
            Some(kernel) => Ok(KernelCall { kernel, args: arrays }),
            None => Err(
                ExecutionError {
                    function: self.canonical_name.clone(),
                    message: String::from_str("no kernel for the runtime argument kind"),
                },
            ),
        }
    }
}

/// The accepted kind set of each return-type rule, as the text a planning
/// failure carries.
pub open spec fn domain_text(rule: ReturnRule) -> Seq<char> {
    match rule {
        ReturnRule::ElementText => "can only accept a List, LargeList or FixedSizeList argument"@,
        ReturnRule::RangeList => "can only accept one to three Int64 arguments, or Date32, Date32 and Interval"@,
        ReturnRule::DimensionList => "can only accept a List, LargeList or FixedSizeList argument"@,
        ReturnRule::UnsignedCount => "can only accept a List, LargeList or FixedSizeList argument"@,
        ReturnRule::FirstArgument => "can only accept a container argument followed by an element"@,
        ReturnRule::SecondArgument => "can only accept an element followed by a container argument"@,
        ReturnRule::ConcatWiden => "can only accept List arguments"@,
        ReturnRule::WrapInList => "accepts any arguments"@,
    }
}

/// The text of the failure reported when a runtime argument kind has no
/// implemented kernel.
pub open spec fn no_kernel_text() -> Seq<char> {
    "no kernel for the runtime argument kind"@
}

/// The accepted kinds of each return-type rule, as text for planning errors.
fn domain_description(rule: &ReturnRule) -> (r: String)
    ensures
        r@ == domain_text(*rule),
{
    let text = match rule {
        ReturnRule::ElementText => "can only accept a List, LargeList or FixedSizeList argument",
        ReturnRule::RangeList => "can only accept one to three Int64 arguments, or Date32, Date32 and Interval",
        ReturnRule::DimensionList => "can only accept a List, LargeList or FixedSizeList argument",
        ReturnRule::UnsignedCount => "can only accept a List, LargeList or FixedSizeList argument",
        ReturnRule::FirstArgument => "can only accept a container argument followed by an element",
        ReturnRule::SecondArgument => "can only accept an element followed by a container argument",
        ReturnRule::ConcatWiden => "can only accept List arguments",
        ReturnRule::WrapInList => "accepts any arguments",
    };
    String::from_str(text)
}

/// Alias law: a well-formed descriptor's alias set is non-empty and contains
/// its canonical name.
pub proof fn lemma_aliases_contain_canonical(d: FunctionDescriptor)
    requires
        d.wf(),
    ensures
        d.aliases@.len() > 0,
        has_alias(d, d.canonical_name@),
{
}

/// Soundness law: a call the static signature accepts always has a kernel —
/// planning never approves a call its dispatcher cannot route when the
/// runtime types match the planned types.
pub proof fn lemma_accepted_call_routes(d: FunctionDescriptor, arg_types: Seq<DataType>)
    requires
        d.wf(),
        d.signature.accepts(arg_types),
    ensures
        route_spec(d.dispatch, arg_types) is Some,
{
}

} // verus!
