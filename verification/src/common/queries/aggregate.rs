//! This module provides the functionality to aggregate results when they include a relationship

use crate::common::queries::converters::{ConversionErrors, ToOutputConverter};
use std::hash::Hash;
use vstd::prelude::*;
use vstd::std_specs::cmp::PartialEqSpec;

verus! {

/// A trait for types with an identifier
pub trait AggregateRoot<Id, T>: Sized {
    /// The identifier of this root.
    closed spec fn root_id_of(&self) -> Id {
        arbitrary()
    }

    /// This root with the children `children` in place of its own.
    closed spec fn with_children(self, children: Seq<T>) -> Self {
        arbitrary()
    }

    /// This root with the child `child` added.
    closed spec fn with_child(self, child: T) -> Self {
        arbitrary()
    }

    /// Return the root identifier
    fn id(&self) -> (r: &Id)
        ensures
            *r == self.root_id_of(),
    ;

    /// Add a new child to the current root
    fn add_child(&mut self, child: T)
        ensures
            *final(self) == old(self).with_child(child),
    ;

    /// Add children to the current root
    fn add_children(&mut self, children: Vec<T>)
        ensures
            *final(self) == old(self).with_children(children@),
    ;
}

/// A trait for types with an identifier
pub trait WithId<Id> {
    /// The identifier.
    closed spec fn id_of(&self) -> Id {
        arbitrary()
    }

    /// Returns the identifier
    fn id(&self) -> (r: &Id)
        ensures
            *r == self.id_of(),
    ;
}

/// A trait for types with the reference id for their parent type
pub trait WithRootId<Id> {
    /// The identifier of the parent.
    closed spec fn parent_id_of(&self) -> Id {
        arbitrary()
    }

    /// Returns the root identifier
    fn root_id(&self) -> (r: &Id)
        ensures
            *r == self.parent_id_of(),
    ;
}

/// What converting, in order, the children of `children` whose parent is
/// `id` gives: their outputs, or the first conversion error.
pub open spec fn children_outputs<Id: PartialEq, C: WithRootId<Id> + ToOutputConverter<O>, O>(
    children: Seq<C>,
    id: Id,
) -> Result<Seq<O>, ConversionErrors>
    decreases children.len(),
{
    if children.len() == 0 {
        Ok(Seq::empty())
    } else {
        match children_outputs(children.drop_last(), id) {
            Err(e) => Err(e),
            Ok(outputs) => if children.last().parent_id_of().eq_spec(&id) {
                match children.last().output() {
                    Ok(o) => Ok(outputs.push(o)),
                    Err(e) => Err(e),
                }
            } else {
                Ok(outputs)
            },
        }
    }
}

/// Once the conversion of the first children fails, so does the conversion
/// of all of them, with the same error.
pub proof fn lemma_children_outputs_error<Id: PartialEq, C: WithRootId<Id> + ToOutputConverter<O>, O>(
    children: Seq<C>,
    k: int,
    id: Id,
)
    requires
        0 <= k <= children.len(),
        children_outputs(children.take(k), id) is Err,
    ensures
        children_outputs(children, id) == children_outputs(children.take(k), id),
    decreases children.len() - k,
{
    if k < children.len() {
        assert(children.take(k + 1).drop_last() =~= children.take(k));
        lemma_children_outputs_error(children, k + 1, id);
    } else {
        assert(children.take(k) =~= children);
    }
}

/// Where every child of `id` converts, the children's outputs are the outputs of exactly the
/// children whose parent is `id`, in their order: each of them is kept whatever the
/// children before it, and no other child is.
pub proof fn lemma_children_outputs_of_parent<Id: PartialEq, C: WithRootId<Id> + ToOutputConverter<O>, O>(
    children: Seq<C>,
    id: Id,
)
    requires
        forall|i: int|
            0 <= i < children.len() && (#[trigger] children[i]).parent_id_of().eq_spec(&id) ==> children[i].output() is Ok,
    ensures
        children_outputs(children, id) matches Ok(outputs) && outputs == children.filter(
            |c: C| c.parent_id_of().eq_spec(&id),
        ).map_values(|c: C| c.output()->Ok_0),
    decreases children.len(),
{
    let pred = |c: C| c.parent_id_of().eq_spec(&id);
    let out = |c: C| c.output()->Ok_0;
    reveal(Seq::filter);
    if children.len() == 0 {
        assert(children.filter(pred) =~= Seq::<C>::empty());
        assert(children.filter(pred).map_values(out) =~= Seq::<O>::empty());
    } else {
        let rest = children.drop_last();
        assert forall|i: int|
            0 <= i < rest.len() && (#[trigger] rest[i]).parent_id_of().eq_spec(&id) implies rest[i].output() is Ok by {
            assert(rest[i] == children[i]);
        }
        lemma_children_outputs_of_parent(rest, id);
        let last = children.last();
        assert(last == children[children.len() - 1]);
        if pred(last) {
            assert(children.filter(pred) == rest.filter(pred).push(last));
            assert(rest.filter(pred).push(last).map_values(out) =~= rest.filter(pred).map_values(out).push(out(last)));
        } else {
            assert(children.filter(pred) == rest.filter(pred));
        }
    }
}

/// An aggregate has the main purpose to merge results when they are in a sort of relationship.
pub trait Aggregate {
    /// the unique identifier type
    type Id: Eq + Hash + Clone;
    /// the root row type
    type RootRowType: WithId<Self::Id> + ToOutputConverter<Self::RootOutput>;
    /// the children row type
    type ChildRowType: WithRootId<Self::Id> + ToOutputConverter<Self::ChildOutput>;
    /// the root output type
    type RootOutput: AggregateRoot<Self::Id, Self::ChildOutput>;
    /// the children output type
    type ChildOutput;

    /// Initialize an aggregate with a root and zero, one or more children:
    /// no root gives `None`; else the root is converted, and the children
    /// whose root id is the root's id are converted and given to it, in
    /// order; the first conversion that fails gives its error.
    fn init(root_row: Option<Self::RootRowType>, children_rows: Vec<Self::ChildRowType>) -> (r: Result<
        Option<Self::RootOutput>,
        ConversionErrors,
    >)
        ensures
            root_row is None ==> r == Ok::<Option<Self::RootOutput>, ConversionErrors>(None),
            root_row matches Some(row) ==> match row.output() {
                Err(e) => r == Err::<Option<Self::RootOutput>, ConversionErrors>(e),
                Ok(root) => Self::Id::obeys_eq_spec() ==> match children_outputs(
                    children_rows@,
                    root.root_id_of(),
                ) {
                    Err(e) => r == Err::<Option<Self::RootOutput>, ConversionErrors>(e),
                    Ok(children) => r == Ok::<Option<Self::RootOutput>, ConversionErrors>(
                        Some(
                            if children_rows@.len() > 0 {
                                root.with_children(children)
                            } else {
                                root
                            },
                        ),
                    ),
                },
            },
    {
        match root_row {
            Some(root_row) => {
                let mut root_output = match root_row.to_output() {
                    Ok(o) => o,
                    Err(e) => {
                        return Err(e);
                    },
                };
                let ghost root0 = root_output;
                let children_len = children_rows.len();
                if children_len > 0 {
                    let ghost all = children_rows@;
                    let mut children_output: Vec<Self::ChildOutput> = Vec::new();
                    #[verifier::loop_isolation(false)]
                    for child in it: children_rows.into_iter()
                        invariant
                            it.seq() == all,
                            root_output == root0,
                            Self::Id::obeys_eq_spec() ==> children_outputs(all.take(it.index() as int), root0.root_id_of())
                                == Ok::<Seq<Self::ChildOutput>, ConversionErrors>(children_output@),
                    {
                        let ghost i = it.index();
                        assert(child == all[i as int]);
                        assert(all.take(i + 1).drop_last() =~= all.take(i as int));
                        let keep = *child.root_id() == *root_output.id();
                        if keep {
                            match child.to_output() {
                                Ok(c) => {
                                    children_output.push(c);
                                },
                                Err(e) => {
                                    proof {
                                        if Self::Id::obeys_eq_spec() {
                                            lemma_children_outputs_error(all, i + 1, root0.root_id_of());
                                        }
                                    }
                                    return Err(e);
                                },
                            }
                        }
                    }
                    assert(all.take(all.len() as int) =~= all);
                    root_output.add_children(children_output);
                }
                Ok(Some(root_output))
            },
            None => Ok(None),
        }
    }
}

} // verus!
