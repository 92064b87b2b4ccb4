use crate::Cons;
use vstd::prelude::*;
use vstd::std_specs::convert::FromSpecImpl;

verus! {

impl<Head, Tail> Cons<Head, Tail> {
    /// Constructs a new [`Cons`] with provided head and tail values.
    pub fn new(head: Head, tail: Tail) -> (out: Self)
        ensures
            out == Cons(head, tail),
    {
        Self(head, tail)
    }

    /// Converts self into head value, discarding its tail.
    pub fn into_head(self) -> (head: Head)
        ensures
            head == self.0,
    {
        let Self(head, _) = self;
        head
    }

    /// Converts self into tail value, discarding its head.
    pub fn into_tail(self) -> (tail: Tail)
        ensures
            tail == self.1,
    {
        let Self(_, tail) = self;
        tail
    }

    /// Borrows head value of self by reference.
    pub fn head(&self) -> (head: &Head)
        ensures
            *head == self.0,
    {
        let Self(head, _) = self;
        head
    }

    /// Borrows head value of self by mutable reference.
    ///
    /// What is written through the reference replaces the head; the tail
    /// stays as it is.
    pub fn head_mut(&mut self) -> (head: &mut Head)
        ensures
            *head == old(self).0,
            *final(self) == Cons(*final(head), old(self).1),
    {
        &mut self.0
    }

    /// Borrows tail value of self by reference.
    pub fn tail(&self) -> (tail: &Tail)
        ensures
            *tail == self.1,
    {
        let Self(_, tail) = self;
        tail
    }

    /// Borrows tail value of self by mutable reference.
    ///
    /// What is written through the reference replaces the tail; the head
    /// stays as it is.
    pub fn tail_mut(&mut self) -> (tail: &mut Tail)
        ensures
            *tail == old(self).1,
            *final(self) == Cons(old(self).0, *final(tail)),
    {
        &mut self.1
    }
}

impl<Head, Tail> AsRef<Cons<Head, Tail>> for Cons<Head, Tail> {
    fn as_ref(&self) -> (out: &Cons<Head, Tail>)
        ensures
            *out == *self,
    {
        self
    }
}

impl<Head, Tail> AsMut<Cons<Head, Tail>> for Cons<Head, Tail> {
    fn as_mut(&mut self) -> (out: &mut Cons<Head, Tail>)
        ensures
            *out == *old(self),
            *final(self) == *final(out),
    {
        self
    }
}

impl<Head, Tail> From<(Head, Tail)> for Cons<Head, Tail> {
    fn from(value: (Head, Tail)) -> (out: Self) {
        let (head, tail) = value;
        Self(head, tail)
    }
}

impl<Head, Tail> FromSpecImpl<(Head, Tail)> for Cons<Head, Tail> {
    open spec fn obeys_from_spec() -> bool {
        true
    }

    open spec fn from_spec(value: (Head, Tail)) -> Self {
        Cons(value.0, value.1)
    }
}

impl<Head, Tail> From<Cons<Head, Tail>> for (Head, Tail) {
    fn from(value: Cons<Head, Tail>) -> (out: Self) {
        let Cons(head, tail) = value;
        (head, tail)
    }
}

impl<Head, Tail> FromSpecImpl<Cons<Head, Tail>> for (Head, Tail) {
    open spec fn obeys_from_spec() -> bool {
        true
    }

    open spec fn from_spec(value: Cons<Head, Tail>) -> Self {
        (value.0, value.1)
    }
}

} // verus!
