//! The routes of a schema document and the operations under each.
use vstd::prelude::*;
use crate::common::Attribute;

pub mod uri;

verus! {

/// Where a parameter of an operation is found in a request.
#[derive(Debug, Clone, Copy, PartialEq, Eq, Structural)]
pub enum In {
    Path,
    FormData,
    Body,
    Header,
    Query,
}

/// A declared parameter of an operation.
#[derive(Debug, PartialEq)]
pub struct Parameter {
    pub name: String,
    pub in_: In,
    pub required: bool,
    pub attribute: Attribute,
}

/// The methods under which a path can hold an operation, in the order in
/// which they are visited.
#[derive(Debug, Clone, Copy, PartialEq, Eq, Structural)]
pub enum Method {
    Put,
    Post,
    Get,
    Patch,
    Delete,
}

/// One operation of a path, with the parameters that it declares.
#[derive(Debug, PartialEq)]
pub struct Operation {
    pub parameters: Option<Vec<Parameter>>,
}

/// The operations of one path, one slot for each method.
#[derive(Debug, PartialEq)]
pub struct Operations {
    pub put: Option<Operation>,
    pub post: Option<Operation>,
    pub get: Option<Operation>,
    pub patch: Option<Operation>,
    pub delete: Option<Operation>,
}

/// The routes of a schema, by their templates.
pub type Paths = std::collections::BTreeMap<String, Operations>;

/// The place of a method in the order in which operations are visited.
pub open spec fn rank(method: Method) -> int {
    match method {
        Method::Put => 0,
        Method::Post => 1,
        Method::Get => 2,
        Method::Patch => 3,
        Method::Delete => 4,
    }
}

/// The method that is visited at place `place`.
pub open spec fn method_at(place: int) -> Method {
    if place <= 0 {
        Method::Put
    } else if place == 1 {
        Method::Post
    } else if place == 2 {
        Method::Get
    } else if place == 3 {
        Method::Patch
    } else {
        Method::Delete
    }
}

impl Operations {
    /// The slot of `method`.
    pub open spec fn slot(&self, method: Method) -> Option<Operation> {
        match method {
            Method::Put => self.put,
            Method::Post => self.post,
            Method::Get => self.get,
            Method::Patch => self.patch,
            Method::Delete => self.delete,
        }
    }

    /// The first place at or after `from` whose slot is filled; 5 where
    /// there is none.
    pub open spec fn next_filled(&self, from: int) -> int
        decreases 5 - from,
    {
        if from >= 5 {
            5
        } else if from >= 0 && self.slot(method_at(from)) is Some {
            from
        } else {
            self.next_filled(from + 1)
        }
    }

    /// The filled slots from place `from` on, each with its method, in the
    /// order in which they are visited.
    pub open spec fn filled(&self, from: int) -> Seq<(Method, Operation)>
        decreases 5 - from,
    {
        if from < 0 || from >= 5 {
            Seq::empty()
        } else {
            match self.slot(method_at(from)) {
                Some(operation) => seq![(method_at(from), operation)] + self.filled(from + 1),
                None => self.filled(from + 1),
            }
        }
    }

    /// The filled slots from `from` on begin with the next filled slot.
    pub proof fn lemma_filled(&self, from: int)
        requires
            0 <= from <= 5,
        ensures
            ({
                let found = self.next_filled(from);
                if found < 5 {
                    from <= found && self.slot(method_at(found)) is Some && self.filled(from)
                        == seq![(method_at(found), self.slot(method_at(found))->Some_0)]
                        + self.filled(found + 1)
                } else {
                    self.filled(from) == Seq::<(Method, Operation)>::empty()
                }
            }),
        decreases 5 - from,
    {
        if from < 5 && self.slot(method_at(from)) is None {
            self.lemma_filled(from + 1);
        }
    }

    /// Starts a visit of the filled slots, in the order put, post, get,
    /// patch, delete.
    pub fn iter(&self) -> (visit: OperationsIter<'_>)
        ensures
            visit.operations == self,
            visit.place() == 0,
    {
        OperationsIter { operations: self, next: Method::Put, done: false }
    }
}

/// A visit of the filled slots of an `Operations`, each once.
pub struct OperationsIter<'a> {
    pub operations: &'a Operations,
    pub next: Method,
    pub done: bool,
}

impl<'a> OperationsIter<'a> {
    /// The place of the slot that is looked at next; 5 when every slot has
    /// been looked at.
    pub open spec fn place(&self) -> int {
        if self.done {
            5
        } else {
            rank(self.next)
        }
    }

    /// Moves on to the next filled slot and hands out its method and
    /// operation; `None` when no filled slot is left.
    pub fn next(&mut self) -> (item: Option<(Method, &'a Operation)>)
        ensures
            final(self).operations == old(self).operations,
            ({
                let found = old(self).operations.next_filled(old(self).place());
                &&& final(self).place() == if found < 5 {
                    found + 1
                } else {
                    5
                }
                &&& match item {
                    Some((method, operation)) => found < 5 && method == method_at(found) && Some(
                        *operation,
                    ) == old(self).operations.slot(method),
                    None => found == 5,
                }
            }),
    {
        loop
            invariant
                self.operations == old(self).operations,
                old(self).place() <= self.place() <= 5,
                old(self).operations.next_filled(old(self).place()) == self.operations.next_filled(
                    self.place(),
                ),
            decreases 5 - self.place(),
        {
            if self.done {
                return None;
            }
            let this = self.next;
            let operations: &'a Operations = self.operations;
            let option = match self.next {
                Method::Put => {
                    self.next = Method::Post;
                    &operations.put
                },
                Method::Post => {
                    self.next = Method::Get;
                    &operations.post
                },
                Method::Get => {
                    self.next = Method::Patch;
                    &operations.get
                },
                Method::Patch => {
                    self.next = Method::Delete;
                    &operations.patch
                },
                Method::Delete => {
                    self.done = true;
                    &operations.delete
                },
            };
            match option {
                Some(operation) => {
                    return Some((this, operation));
                },
                None => {},
            }
        }
    }

    /// Visits what is left and hands out every filled slot, in order.
    pub fn collect(&mut self) -> (items: Vec<(Method, &'a Operation)>)
        ensures
            final(self).operations == old(self).operations,
            final(self).place() == 5,
            ({
                let expected = old(self).operations.filled(old(self).place());
                &&& items@.len() == expected.len()
                &&& forall|k: int|
                    0 <= k < items@.len() ==> (#[trigger] items@[k]).0 == expected[k].0
                        && *items@[k].1 == expected[k].1
            }),
    {
        let ghost expected = self.operations.filled(self.place());
        let mut items: Vec<(Method, &'a Operation)> = Vec::new();
        loop
            invariant
                self.operations == old(self).operations,
                0 <= self.place() <= 5,
                expected == old(self).operations.filled(old(self).place()),
                items@.len() + self.operations.filled(self.place()).len() == expected.len(),
                forall|k: int|
                    0 <= k < items@.len() ==> (#[trigger] items@[k]).0 == expected[k].0
                        && *items@[k].1 == expected[k].1,
                forall|k: int|
                    0 <= k < self.operations.filled(self.place()).len() ==> expected[items@.len()
                        + k] == #[trigger] self.operations.filled(self.place())[k],
            decreases 5 - self.place(),
        {
            let ghost rest = self.operations.filled(self.place());
            proof {
                self.operations.lemma_filled(self.place());
            }
            match self.next() {
                Some(item) => {
                    proof {
                        let after = self.operations.filled(self.place());
                        assert(rest == seq![(item.0, *item.1)] + after);
                        assert(rest[0] == (item.0, *item.1));
                        assert forall|k: int| 0 <= k < after.len() implies expected[items@.len()
                            + 1 + k] == #[trigger] after[k] by {
                            assert(rest[k + 1] == after[k]);
                        }
                    }
                    items.push(item);
                },
                None => {
                    return items;
                },
            }
        }
    }
}

} // verus!
