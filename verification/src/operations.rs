//! Operations on an image, and the list of them as it is read from a
//! message in which some operations may be unknown.

use vstd::prelude::*;
use crate::orientation::Rotation;
use crate::text::views;

verus! {

/// An operation on an image.
#[derive(Debug, Clone, Copy, PartialEq, Eq, Structural)]
pub enum Operation {
    Rotate(Rotation),
}

/// One entry of a list of operations as it was read: an operation, or the
/// reason why the entry could not be read as one.
#[derive(Debug)]
pub enum MaybeOperation {
    Operation(Operation),
    Unknown(String),
}

/// A list of operations as it was read.
#[derive(Debug)]
pub struct OperationsIntermediate {
    pub operations: Vec<MaybeOperation>,
}

/// The operations of a list, and the reasons for the entries that could not
/// be read.
#[derive(Debug)]
pub struct Operations {
    operations: Vec<Operation>,
    unknown_operations: Vec<String>,
}

/// The operations among the entries, in their order.
pub open spec fn known_of(entries: Seq<MaybeOperation>) -> Seq<Operation>
    decreases entries.len(),
{
    if entries.len() == 0 {
        Seq::empty()
    } else {
        match entries.last() {
            MaybeOperation::Operation(operation) => known_of(entries.drop_last()).push(operation),
            MaybeOperation::Unknown(_) => known_of(entries.drop_last()),
        }
    }
}

/// The reasons of the entries that are no operations, in their order.
pub open spec fn unknown_of(entries: Seq<MaybeOperation>) -> Seq<Seq<char>>
    decreases entries.len(),
{
    if entries.len() == 0 {
        Seq::empty()
    } else {
        match entries.last() {
            MaybeOperation::Operation(_) => unknown_of(entries.drop_last()),
            MaybeOperation::Unknown(reason) => unknown_of(entries.drop_last()).push(reason@),
        }
    }
}

impl MaybeOperation {
    pub fn operation(&self) -> (operation: Option<&Operation>)
        ensures
            operation is Some <==> self is Operation,
            operation is Some ==> *operation->0 == self->Operation_0,
    {
        match self {
            MaybeOperation::Operation(operation) => Some(operation),
            MaybeOperation::Unknown(_) => None,
        }
    }

    pub fn unknown(&self) -> (reason: Option<String>)
        ensures
            reason is Some <==> self is Unknown,
            reason is Some ==> reason->0@ == self->Unknown_0@,
    {
        match self {
            MaybeOperation::Operation(_) => None,
            MaybeOperation::Unknown(reason) => Some(reason.clone()),
        }
    }
}

impl Operations {
    /// The operations, in the order in which they are to be done.
    pub closed spec fn known(self) -> Seq<Operation> {
        self.operations@
    }

    /// The reasons for the entries that were not understood.
    pub closed spec fn unknown(self) -> Seq<Seq<char>> {
        views(self.unknown_operations@)
    }

    pub fn new(operations: Vec<Operation>) -> (list: Operations)
        ensures
            list.known() == operations@,
            list.unknown() == Seq::<Seq<char>>::empty(),
    {
        let list = Operations { operations, unknown_operations: Vec::new() };
        assert(views(list.unknown_operations@) =~= Seq::<Seq<char>>::empty());
        list
    }

    pub fn operations(&self) -> (operations: &[Operation])
        ensures
            operations@ == self.known(),
    {
        self.operations.as_slice()
    }

    /// The reasons for all entries that were not understood when the list
    /// was read.
    pub fn unknown_operations(&self) -> (reasons: &[String])
        ensures
            views(reasons@) == self.unknown(),
    {
        self.unknown_operations.as_slice()
    }
}

/// An entry that is not understood does not make the list unreadable: the
/// operations that are understood are kept, and the others are listed.
impl From<OperationsIntermediate> for Operations {
    fn from(list: OperationsIntermediate) -> (operations: Operations)
        ensures
            operations.known() == known_of(list.operations@),
            operations.unknown() == unknown_of(list.operations@),
    {
        let mut operations: Vec<Operation> = Vec::new();
        let mut unknown_operations: Vec<String> = Vec::new();
        let mut i: usize = 0;
        assert(list.operations@.subrange(0, 0) =~= Seq::empty());
        assert(views(unknown_operations@) =~= Seq::<Seq<char>>::empty());
        while i < list.operations.len()
            invariant
                0 <= i <= list.operations@.len(),
                operations@ == known_of(list.operations@.subrange(0, i as int)),
                views(unknown_operations@) == unknown_of(list.operations@.subrange(0, i as int)),
            decreases list.operations@.len() - i,
        {
            let ghost upto = list.operations@.subrange(0, i + 1);
            proof {
                assert(upto.drop_last() =~= list.operations@.subrange(0, i as int));
                assert(upto.last() == list.operations@[i as int]);
            }
            if let Some(operation) = list.operations[i].operation() {
                operations.push(*operation);
            }
            if let Some(reason) = list.operations[i].unknown() {
                let ghost before = views(unknown_operations@);
                unknown_operations.push(reason);
                assert(views(unknown_operations@) =~= before.push(reason@));
            }
            i += 1;
        }
        assert(list.operations@.subrange(0, list.operations@.len() as int) =~= list.operations@);
        Operations { operations, unknown_operations }
    }
}

impl vstd::std_specs::convert::FromSpecImpl<OperationsIntermediate> for Operations {
    /// The result is stated by `from` itself, over the two lists.
    open spec fn obeys_from_spec() -> bool {
        false
    }

    open spec fn from_spec(list: OperationsIntermediate) -> Self {
        arbitrary()
    }
}

} // verus!
