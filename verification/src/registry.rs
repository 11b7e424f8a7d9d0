//! The registry: a build-once, read-many mapping from every declared name —
//! canonical and alias — to its function descriptor. Lookups are pure reads;
//! a collision between two descriptors claiming one name is a build-time
//! configuration failure, never a runtime one.

use vstd::prelude::*;
use vstd::string::StringExecFns;
use crate::descriptor::{has_alias, FunctionDescriptor};
use crate::dispatch::{DispatchRule, KernelId};
use crate::failure::RegistryError;
use crate::functions::built;
use crate::resolve::ReturnRule;
use crate::functions::{
    ArrayAppend,
    ArrayConcat,
    ArrayDims,
    ArrayNdims,
    ArrayPrepend,
    ArrayToString,
    Cardinality,
    GenSeries,
    MakeArray,
    Range,
};

verus! {

/// Whether two descriptors claim a common name.
pub open spec fn descriptors_collide(a: FunctionDescriptor, b: FunctionDescriptor) -> bool {
    exists|k: int| 0 <= k < a.aliases@.len() && has_alias(b, (#[trigger] a.aliases@[k])@)
}

/// Whether no two descriptors of the sequence claim a common name.
pub open spec fn names_disjoint(descs: Seq<FunctionDescriptor>) -> bool {
    forall|i: int, j: int|
        0 <= i < j < descs.len() ==> !descriptors_collide(
            #[trigger] descs[i],
            #[trigger] descs[j],
        )
}

/// Whether the descriptor answers to `name` at run time.
#[verifier::loop_isolation(false)]
pub fn answers_to(d: &FunctionDescriptor, name: &String) -> (r: bool)
    ensures
        r == has_alias(*d, name@),
{
    let mut k: usize = 0;
    while k < d.aliases.len()
        invariant
            0 <= k <= d.aliases@.len(),
            forall|j: int| 0 <= j < k ==> (#[trigger] d.aliases@[j])@ != name@,
        decreases d.aliases@.len() - k,
    {
        if d.aliases[k] == *name {
            return true;
        }
        k = k + 1;
    }
    false
}

/// Whether two descriptors claim a common name, at run time.
#[verifier::loop_isolation(false)]
fn collides_with(a: &FunctionDescriptor, b: &FunctionDescriptor) -> (r: bool)
    ensures
        r == descriptors_collide(*a, *b),
{
    let mut k: usize = 0;
    while k < a.aliases.len()
        invariant
            0 <= k <= a.aliases@.len(),
            forall|j: int| 0 <= j < k ==> !has_alias(*b, (#[trigger] a.aliases@[j])@),
        decreases a.aliases@.len() - k,
    {
        if answers_to(b, &a.aliases[k]) {
            return true;
        }
        k = k + 1;
    }
    false
}

/// The text of the failure reported when two descriptors claim one name.
pub open spec fn collision_text() -> Seq<char> {
    "two descriptors claim one name"@
}

/// The immutable name-to-descriptor mapping, built once at initialization
/// and read concurrently thereafter.
#[derive(Debug)]
pub struct Registry {
    pub descriptors: Vec<FunctionDescriptor>,
}

impl Registry {
    /// Well-formedness: every descriptor is well-formed and no two claim a
    /// common name.
    pub open spec fn wf(self) -> bool {
        &&& names_disjoint(self.descriptors@)
        &&& forall|i: int|
            0 <= i < self.descriptors@.len() ==> (#[trigger] self.descriptors@[i]).wf()
    }

    /// Build a registry from descriptors, rejecting any collision between
    /// two descriptors over a claimed name.
    #[verifier::loop_isolation(false)]
    pub fn build(descriptors: Vec<FunctionDescriptor>) -> (r: Result<Registry, RegistryError>)
        ensures
            (r is Ok) == names_disjoint(descriptors@),
            r matches Ok(reg) ==> reg.descriptors@ == descriptors@,
            r matches Err(e) ==> e.message@ == collision_text(),
    {
        let mut i: usize = 0;
        while i < descriptors.len()
            invariant
                0 <= i <= descriptors@.len(),
                forall|p: int, q: int|
                    0 <= p < q < i ==> !descriptors_collide(
                        #[trigger] descriptors@[p],
                        #[trigger] descriptors@[q],
                    ),
            decreases descriptors@.len() - i,
        {
            let mut j: usize = 0;
            while j < i
                invariant
                    0 <= j <= i < descriptors@.len(),
                    forall|p: int|
                        0 <= p < j ==> !descriptors_collide(
                            #[trigger] descriptors@[p],
                            descriptors@[i as int],
                        ),
                decreases i - j,
            {
                if collides_with(&descriptors[j], &descriptors[i]) {
                    return Err(
                        RegistryError {
                            message: String::from_str("two descriptors claim one name"),
                        },
                    );
                }
                j = j + 1;
            }
            i = i + 1;
        }
        Ok(Registry { descriptors })
    }

    /// Resolve a name to its descriptor: the first descriptor, in
    /// registration order, that answers to the name, or `None` when no
    /// registered function does.
    #[verifier::loop_isolation(false)]
    pub fn resolve(&self, name: &String) -> (r: Option<&FunctionDescriptor>)
        ensures
            (r is Some) == exists|i: int|
                0 <= i < self.descriptors@.len() && has_alias(
                    #[trigger] self.descriptors@[i],
                    name@,
                ),
            r matches Some(d) ==> {
                &&& has_alias(*d, name@)
                &&& exists|i: int|
                    {
                        &&& 0 <= i < self.descriptors@.len()
                        &&& #[trigger] self.descriptors@[i] == *d
                        &&& forall|j: int|
                            0 <= j < i ==> !has_alias(#[trigger] self.descriptors@[j], name@)
                    }
            },
    {
        let mut i: usize = 0;
        while i < self.descriptors.len()
            invariant
                0 <= i <= self.descriptors@.len(),
                forall|j: int|
                    0 <= j < i ==> !has_alias(#[trigger] self.descriptors@[j], name@),
            decreases self.descriptors@.len() - i,
        {
            if answers_to(&self.descriptors[i], name) {
                return Some(&self.descriptors[i]);
            }
            i = i + 1;
        }
        None
    }

    /// The standard function family: every descriptor of the library,
    /// registered under its canonical name and aliases. The declared names
    /// are pairwise disjoint across descriptors, so the build always
    /// succeeds.
    pub fn standard() -> (r: Result<Registry, RegistryError>)
        ensures
            r is Ok,
            r matches Ok(reg) ==> {
                &&& reg.wf()
                &&& reg.descriptors@.len() == 10
                &&& built(
                    reg.descriptors@[0],
                    "array_to_string"@,
                    ReturnRule::ElementText,
                    DispatchRule::Fixed(KernelId::TextJoin),
                )
                &&& built(
                    reg.descriptors@[1],
                    "range"@,
                    ReturnRule::RangeList,
                    DispatchRule::RangeByKind { inclusive: false },
                )
                &&& built(
                    reg.descriptors@[2],
                    "generate_series"@,
                    ReturnRule::RangeList,
                    DispatchRule::RangeByKind { inclusive: true },
                )
                &&& built(
                    reg.descriptors@[3],
                    "array_dims"@,
                    ReturnRule::DimensionList,
                    DispatchRule::Fixed(KernelId::Dims),
                )
                &&& built(
                    reg.descriptors@[4],
                    "cardinality"@,
                    ReturnRule::UnsignedCount,
                    DispatchRule::Fixed(KernelId::Cardinality),
                )
                &&& built(
                    reg.descriptors@[5],
                    "array_ndims"@,
                    ReturnRule::UnsignedCount,
                    DispatchRule::Fixed(KernelId::Ndims),
                )
                &&& built(
                    reg.descriptors@[6],
                    "array_append"@,
                    ReturnRule::FirstArgument,
                    DispatchRule::Fixed(KernelId::Append),
                )
                &&& built(
                    reg.descriptors@[7],
                    "array_prepend"@,
                    ReturnRule::SecondArgument,
                    DispatchRule::Fixed(KernelId::Prepend),
                )
                &&& built(
                    reg.descriptors@[8],
                    "array_concat"@,
                    ReturnRule::ConcatWiden,
                    DispatchRule::Fixed(KernelId::Concat),
                )
                &&& built(
                    reg.descriptors@[9],
                    "make_array"@,
                    ReturnRule::WrapInList,
                    DispatchRule::Fixed(KernelId::MakeArray),
                )
            },
    {
        let mut descriptors: Vec<FunctionDescriptor> = Vec::new();
        descriptors.push(ArrayToString::new().descriptor);
        descriptors.push(Range::new().descriptor);
        descriptors.push(GenSeries::new().descriptor);
        descriptors.push(ArrayDims::new().descriptor);
        descriptors.push(Cardinality::new().descriptor);
        descriptors.push(ArrayNdims::new().descriptor);
        descriptors.push(ArrayAppend::new().descriptor);
        descriptors.push(ArrayPrepend::new().descriptor);
        descriptors.push(ArrayConcat::new().descriptor);
        descriptors.push(MakeArray::new().descriptor);
        assert(forall|i: int|
            0 <= i < descriptors@.len() ==> (#[trigger] descriptors@[i]).wf());
        proof {
            lemma_standard_names_disjoint(descriptors@);
        }
        Registry::build(descriptors)
    }
}

/// The declared names of the standard family are pairwise disjoint across
/// descriptors: no alias of one function is an alias of another. Stated over
/// the alias views the ten constructors pin.
#[verifier::rlimit(60)]
proof fn lemma_standard_names_disjoint(ds: Seq<FunctionDescriptor>)
    requires
        ds.len() == 10,
        ds[0].aliases@.len() == 4,
        ds[0].aliases@[0]@ == "array_to_string"@,
        ds[0].aliases@[1]@ == "list_to_string"@,
        ds[0].aliases@[2]@ == "array_join"@,
        ds[0].aliases@[3]@ == "list_join"@,
        ds[1].aliases@.len() == 1,
        ds[1].aliases@[0]@ == "range"@,
        ds[2].aliases@.len() == 1,
        ds[2].aliases@[0]@ == "generate_series"@,
        ds[3].aliases@.len() == 2,
        ds[3].aliases@[0]@ == "array_dims"@,
        ds[3].aliases@[1]@ == "list_dims"@,
        ds[4].aliases@.len() == 1,
        ds[4].aliases@[0]@ == "cardinality"@,
        ds[5].aliases@.len() == 2,
        ds[5].aliases@[0]@ == "array_ndims"@,
        ds[5].aliases@[1]@ == "list_ndims"@,
        ds[6].aliases@.len() == 4,
        ds[6].aliases@[0]@ == "array_append"@,
        ds[6].aliases@[1]@ == "list_append"@,
        ds[6].aliases@[2]@ == "array_push_back"@,
        ds[6].aliases@[3]@ == "list_push_back"@,
        ds[7].aliases@.len() == 4,
        ds[7].aliases@[0]@ == "array_prepend"@,
        ds[7].aliases@[1]@ == "list_prepend"@,
        ds[7].aliases@[2]@ == "array_push_front"@,
        ds[7].aliases@[3]@ == "list_push_front"@,
        ds[8].aliases@.len() == 4,
        ds[8].aliases@[0]@ == "array_concat"@,
        ds[8].aliases@[1]@ == "array_cat"@,
        ds[8].aliases@[2]@ == "list_concat"@,
        ds[8].aliases@[3]@ == "list_cat"@,
        ds[9].aliases@.len() == 2,
        ds[9].aliases@[0]@ == "make_array"@,
        ds[9].aliases@[1]@ == "make_list"@,
    ensures
        names_disjoint(ds),
{
    reveal_strlit("array_to_string");
    reveal_strlit("list_to_string");
    reveal_strlit("array_join");
    reveal_strlit("list_join");
    reveal_strlit("range");
    reveal_strlit("generate_series");
    reveal_strlit("array_dims");
    reveal_strlit("list_dims");
    reveal_strlit("cardinality");
    reveal_strlit("array_ndims");
    reveal_strlit("list_ndims");
    reveal_strlit("array_append");
    reveal_strlit("list_append");
    reveal_strlit("array_push_back");
    reveal_strlit("list_push_back");
    reveal_strlit("array_prepend");
    reveal_strlit("list_prepend");
    reveal_strlit("array_push_front");
    reveal_strlit("list_push_front");
    reveal_strlit("array_concat");
    reveal_strlit("array_cat");
    reveal_strlit("list_concat");
    reveal_strlit("list_cat");
    reveal_strlit("make_array");
    reveal_strlit("make_list");
    // Lengths separate most pairs of names.
    assert("array_to_string"@.len() == 15 && "list_to_string"@.len() == 14 && "array_join"@.len()
        == 10 && "list_join"@.len() == 9);
    assert("range"@.len() == 5 && "generate_series"@.len() == 15);
    assert("array_dims"@.len() == 10 && "list_dims"@.len() == 9 && "cardinality"@.len() == 11);
    assert("array_ndims"@.len() == 11 && "list_ndims"@.len() == 10);
    assert("array_append"@.len() == 12 && "list_append"@.len() == 11 && "array_push_back"@.len()
        == 15 && "list_push_back"@.len() == 14);
    assert("array_prepend"@.len() == 13 && "list_prepend"@.len() == 12
        && "array_push_front"@.len() == 16 && "list_push_front"@.len() == 15);
    assert("array_concat"@.len() == 12 && "array_cat"@.len() == 9 && "list_concat"@.len() == 11
        && "list_cat"@.len() == 8);
    assert("make_array"@.len() == 10 && "make_list"@.len() == 9);
    // A first or distinguishing character separates the equal-length pairs.
    assert("array_to_string"@[0] == 'a' && "generate_series"@[0] == 'g'
        && "array_push_back"@[0] == 'a' && "list_push_front"@[0] == 'l');
    assert("array_to_string"@[6] == 't' && "array_push_back"@[6] == 'p');
    assert("list_to_string"@[5] == 't' && "list_push_back"@[5] == 'p');
    assert("array_append"@[0] == 'a' && "list_prepend"@[0] == 'l' && "array_concat"@[0] == 'a');
    assert("array_append"@[6] == 'a' && "array_concat"@[6] == 'c');
    assert("cardinality"@[0] == 'c' && "array_ndims"@[0] == 'a' && "list_append"@[0] == 'l'
        && "list_concat"@[0] == 'l');
    assert("list_append"@[5] == 'a' && "list_concat"@[5] == 'c');
    assert("array_join"@[0] == 'a' && "array_dims"@[0] == 'a' && "list_ndims"@[0] == 'l'
        && "make_array"@[0] == 'm');
    assert("array_join"@[6] == 'j' && "array_dims"@[6] == 'd');
    assert("list_join"@[0] == 'l' && "list_dims"@[0] == 'l' && "array_cat"@[0] == 'a'
        && "make_list"@[0] == 'm');
    assert("list_join"@[5] == 'j' && "list_dims"@[5] == 'd');
    assert(!descriptors_collide(ds[0], ds[1]));
    assert(!descriptors_collide(ds[0], ds[2]));
    assert(!descriptors_collide(ds[0], ds[3]));
    assert(!descriptors_collide(ds[0], ds[4]));
    assert(!descriptors_collide(ds[0], ds[5]));
    assert(!descriptors_collide(ds[0], ds[6]));
    assert(!descriptors_collide(ds[0], ds[7]));
    assert(!descriptors_collide(ds[0], ds[8]));
    assert(!descriptors_collide(ds[0], ds[9]));
    assert(!descriptors_collide(ds[1], ds[2]));
    assert(!descriptors_collide(ds[1], ds[3]));
    assert(!descriptors_collide(ds[1], ds[4]));
    assert(!descriptors_collide(ds[1], ds[5]));
    assert(!descriptors_collide(ds[1], ds[6]));
    assert(!descriptors_collide(ds[1], ds[7]));
    assert(!descriptors_collide(ds[1], ds[8]));
    assert(!descriptors_collide(ds[1], ds[9]));
    assert(!descriptors_collide(ds[2], ds[3]));
    assert(!descriptors_collide(ds[2], ds[4]));
    assert(!descriptors_collide(ds[2], ds[5]));
    assert(!descriptors_collide(ds[2], ds[6]));
    assert(!descriptors_collide(ds[2], ds[7]));
    assert(!descriptors_collide(ds[2], ds[8]));
    assert(!descriptors_collide(ds[2], ds[9]));
    assert(!descriptors_collide(ds[3], ds[4]));
    assert(!descriptors_collide(ds[3], ds[5]));
    assert(!descriptors_collide(ds[3], ds[6]));
    assert(!descriptors_collide(ds[3], ds[7]));
    assert(!descriptors_collide(ds[3], ds[8]));
    assert(!descriptors_collide(ds[3], ds[9]));
    assert(!descriptors_collide(ds[4], ds[5]));
    assert(!descriptors_collide(ds[4], ds[6]));
    assert(!descriptors_collide(ds[4], ds[7]));
    assert(!descriptors_collide(ds[4], ds[8]));
    assert(!descriptors_collide(ds[4], ds[9]));
    assert(!descriptors_collide(ds[5], ds[6]));
    assert(!descriptors_collide(ds[5], ds[7]));
    assert(!descriptors_collide(ds[5], ds[8]));
    assert(!descriptors_collide(ds[5], ds[9]));
    assert(!descriptors_collide(ds[6], ds[7]));
    assert(!descriptors_collide(ds[6], ds[8]));
    assert(!descriptors_collide(ds[6], ds[9]));
    assert(!descriptors_collide(ds[7], ds[8]));
    assert(!descriptors_collide(ds[7], ds[9]));
    assert(!descriptors_collide(ds[8], ds[9]));
    assert forall|i: int, j: int| 0 <= i < j < ds.len() implies !descriptors_collide(
        #[trigger] ds[i],
        #[trigger] ds[j],
    ) by {}
}

} // verus!
