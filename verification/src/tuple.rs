//! Compatibility of heterogenous lists with tuples.
//!
//! A heterogenous list of twelve elements or fewer converts into the tuple of
//! its elements, and such a tuple into the list of its parts. The conversion
//! keeps the order and the type of every element: it only gives the same
//! values another shape.

use crate::{Cons, HList, Nil};
use vstd::prelude::*;
use vstd::std_specs::convert::FromSpecImpl;

verus! {

/// Convert the heterogenous list into tuple.
pub trait IntoTuple: Sized {
    /// Type of tuple the heterogenous list will be converted to.
    type Output;

    /// The tuple of the elements of the list, in order; a tuple itself.
    spec fn spec_into_tuple(self) -> Self::Output;

    /// Converts the heterogenous list into tuple.
    fn into_tuple(self) -> (out: Self::Output)
        ensures
            out == self.spec_into_tuple(),
    ;
}

/// Convert the tuple into heterogenous list.
pub trait IntoHList: Sized {
    /// Type of heterogenous list the tuple will be converted to.
    type Output: HList;

    /// The heterogenous list of the parts of the tuple, in order; a
    /// heterogenous list itself.
    spec fn spec_into_hlist(self) -> Self::Output;

    /// Converts the tuple into heterogenous list.
    fn into_hlist(self) -> (out: Self::Output)
        ensures
            out == self.spec_into_hlist(),
    ;
}

impl<L> IntoHList for L where L: HList {
    type Output = Self;

    open spec fn spec_into_hlist(self) -> Self {
        self
    }

    fn into_hlist(self) -> (out: Self) {
        self
    }
}

/// Tuples that lose nothing on the way to a heterogenous list and back, nor
/// does their list on the way to a tuple and back: proved for each tuple of
/// twelve parts or fewer.
pub trait TupleBridge: IntoHList where Self::Output: IntoTuple<Output = Self> {
    /// The tuple of the list of a tuple is that tuple.
    proof fn lemma_round_trip(self)
        ensures
            self.spec_into_hlist().spec_into_tuple() == self,
    ;

    /// The list of the tuple of a list is that list.
    proof fn lemma_round_trip_back(list: Self::Output)
        ensures
            list.spec_into_tuple().spec_into_hlist() == list,
    ;
}

/// The empty heterogenous list, from the empty tuple.
impl From<()> for Nil {
    fn from(value: ()) -> (out: Self) {
        Nil
    }
}

impl FromSpecImpl<()> for Nil {
    open spec fn obeys_from_spec() -> bool {
        true
    }

    open spec fn from_spec(value: ()) -> Self {
        Nil
    }
}

/// The empty tuple, from the empty heterogenous list.
impl From<Nil> for () {
    fn from(value: Nil) -> (out: Self) {
        ()
    }
}

impl FromSpecImpl<Nil> for () {
    open spec fn obeys_from_spec() -> bool {
        true
    }

    open spec fn from_spec(value: Nil) -> Self {
        ()
    }
}

impl IntoTuple for Nil {
    type Output = ();

    open spec fn spec_into_tuple(self) -> () {
        ()
    }

    fn into_tuple(self) -> (out: ()) {
        From::from(self)
    }
}

impl IntoTuple for () {
    type Output = Self;

    open spec fn spec_into_tuple(self) -> Self {
        self
    }

    fn into_tuple(self) -> (out: Self) {
        self
    }
}

impl IntoHList for () {
    type Output = Nil;

    open spec fn spec_into_hlist(self) -> Nil {
        Nil
    }

    fn into_hlist(self) -> (out: Nil) {
        From::from(self)
    }
}

impl TupleBridge for () {
    proof fn lemma_round_trip(self) {
    }

    proof fn lemma_round_trip_back(list: Nil) {
    }
}

/// The heterogenous list of the part of a tuple, in order.
impl<A> From<(A,)> for Cons<A, Nil> {
    fn from(value: (A,)) -> (out: Self) {
        let (a,) = value;
        Cons(a, Nil)
    }
}

impl<A> FromSpecImpl<(A,)> for Cons<A, Nil> {
    open spec fn obeys_from_spec() -> bool {
        true
    }

    open spec fn from_spec(value: (A,)) -> Self {
        Cons(value.0, Nil)
    }
}

/// The tuple of the element of a heterogenous list, in order.
impl<A> From<Cons<A, Nil>> for (A,) {
    fn from(value: Cons<A, Nil>) -> (out: Self) {
        let Cons(a, Nil) = value;
        (a,)
    }
}

impl<A> FromSpecImpl<Cons<A, Nil>> for (A,) {
    open spec fn obeys_from_spec() -> bool {
        true
    }

    open spec fn from_spec(value: Cons<A, Nil>) -> Self {
        (value.0,)
    }
}

impl<A> IntoTuple for Cons<A, Nil> {
    type Output = (A,);

    open spec fn spec_into_tuple(self) -> (A,) {
        (self.0,)
    }

    fn into_tuple(self) -> (out: (A,)) {
        From::from(self)
    }
}

impl<A> IntoTuple for (A,) {
    type Output = Self;

    open spec fn spec_into_tuple(self) -> Self {
        self
    }

    fn into_tuple(self) -> (out: Self) {
        self
    }
}

impl<A> IntoHList for (A,) {
    type Output = Cons<A, Nil>;

    open spec fn spec_into_hlist(self) -> Cons<A, Nil> {
        Cons(self.0, Nil)
    }

    fn into_hlist(self) -> (out: Cons<A, Nil>) {
        From::from(self)
    }
}

impl<A> TupleBridge for (A,) {
    proof fn lemma_round_trip(self) {
    }

    proof fn lemma_round_trip_back(list: Cons<A, Nil>) {
        assert(list.1 == Nil);
    }
}

/// The heterogenous list of the parts of a tuple, in order.
impl<A, B> From<(A, B)> for Cons<A, Cons<B, Nil>> {
    fn from(value: (A, B)) -> (out: Self) {
        let (a, b) = value;
        Cons(a, Cons(b, Nil))
    }
}

impl<A, B> FromSpecImpl<(A, B)> for Cons<A, Cons<B, Nil>> {
    open spec fn obeys_from_spec() -> bool {
        true
    }

    open spec fn from_spec(value: (A, B)) -> Self {
        Cons(value.0, Cons(value.1, Nil))
    }
}

/// The tuple of the elements of a heterogenous list, in order.
impl<A, B> From<Cons<A, Cons<B, Nil>>> for (A, B) {
    fn from(value: Cons<A, Cons<B, Nil>>) -> (out: Self) {
        let Cons(a, Cons(b, Nil)) = value;
        (a, b)
    }
}

impl<A, B> FromSpecImpl<Cons<A, Cons<B, Nil>>> for (A, B) {
    open spec fn obeys_from_spec() -> bool {
        true
    }

    open spec fn from_spec(value: Cons<A, Cons<B, Nil>>) -> Self {
        (value.0, value.1.0)
    }
}

impl<A, B> IntoTuple for Cons<A, Cons<B, Nil>> {
    type Output = (A, B);

    open spec fn spec_into_tuple(self) -> (A, B) {
        (self.0, self.1.0)
    }

    fn into_tuple(self) -> (out: (A, B)) {
        From::from(self)
    }
}

impl<A, B> IntoTuple for (A, B) {
    type Output = Self;

    open spec fn spec_into_tuple(self) -> Self {
        self
    }

    fn into_tuple(self) -> (out: Self) {
        self
    }
}

impl<A, B> IntoHList for (A, B) {
    type Output = Cons<A, Cons<B, Nil>>;

    open spec fn spec_into_hlist(self) -> Cons<A, Cons<B, Nil>> {
        Cons(self.0, Cons(self.1, Nil))
    }

    fn into_hlist(self) -> (out: Cons<A, Cons<B, Nil>>) {
        From::from(self)
    }
}

impl<A, B> TupleBridge for (A, B) {
    proof fn lemma_round_trip(self) {
    }

    proof fn lemma_round_trip_back(list: Cons<A, Cons<B, Nil>>) {
        assert(list.1.1 == Nil);
    }
}

/// The heterogenous list of the parts of a tuple, in order.
impl<A, B, C> From<(A, B, C)> for Cons<A, Cons<B, Cons<C, Nil>>> {
    fn from(value: (A, B, C)) -> (out: Self) {
        let (a, b, c) = value;
        Cons(a, Cons(b, Cons(c, Nil)))
    }
}

impl<A, B, C> FromSpecImpl<(A, B, C)> for Cons<A, Cons<B, Cons<C, Nil>>> {
    open spec fn obeys_from_spec() -> bool {
        true
    }

    open spec fn from_spec(value: (A, B, C)) -> Self {
        Cons(value.0, Cons(value.1, Cons(value.2, Nil)))
    }
}

/// The tuple of the elements of a heterogenous list, in order.
impl<A, B, C> From<Cons<A, Cons<B, Cons<C, Nil>>>> for (A, B, C) {
    fn from(value: Cons<A, Cons<B, Cons<C, Nil>>>) -> (out: Self) {
        let Cons(a, Cons(b, Cons(c, Nil))) = value;
        (a, b, c)
    }
}

impl<A, B, C> FromSpecImpl<Cons<A, Cons<B, Cons<C, Nil>>>> for (A, B, C) {
    open spec fn obeys_from_spec() -> bool {
        true
    }

    open spec fn from_spec(value: Cons<A, Cons<B, Cons<C, Nil>>>) -> Self {
        (value.0, value.1.0, value.1.1.0)
    }
}

impl<A, B, C> IntoTuple for Cons<A, Cons<B, Cons<C, Nil>>> {
    type Output = (A, B, C);

    open spec fn spec_into_tuple(self) -> (A, B, C) {
        (self.0, self.1.0, self.1.1.0)
    }

    fn into_tuple(self) -> (out: (A, B, C)) {
        From::from(self)
    }
}

impl<A, B, C> IntoTuple for (A, B, C) {
    type Output = Self;

    open spec fn spec_into_tuple(self) -> Self {
        self
    }

    fn into_tuple(self) -> (out: Self) {
        self
    }
}

impl<A, B, C> IntoHList for (A, B, C) {
    type Output = Cons<A, Cons<B, Cons<C, Nil>>>;

    open spec fn spec_into_hlist(self) -> Cons<A, Cons<B, Cons<C, Nil>>> {
        Cons(self.0, Cons(self.1, Cons(self.2, Nil)))
    }

    fn into_hlist(self) -> (out: Cons<A, Cons<B, Cons<C, Nil>>>) {
        From::from(self)
    }
}

impl<A, B, C> TupleBridge for (A, B, C) {
    proof fn lemma_round_trip(self) {
    }

    proof fn lemma_round_trip_back(list: Cons<A, Cons<B, Cons<C, Nil>>>) {
        assert(list.1.1.1 == Nil);
    }
}

/// The heterogenous list of the parts of a tuple, in order.
impl<A, B, C, D> From<(A, B, C, D)> for Cons<A, Cons<B, Cons<C, Cons<D, Nil>>>> {
    fn from(value: (A, B, C, D)) -> (out: Self) {
        let (a, b, c, d) = value;
        Cons(a, Cons(b, Cons(c, Cons(d, Nil))))
    }
}

impl<A, B, C, D> FromSpecImpl<(A, B, C, D)> for Cons<A, Cons<B, Cons<C, Cons<D, Nil>>>> {
    open spec fn obeys_from_spec() -> bool {
        true
    }

    open spec fn from_spec(value: (A, B, C, D)) -> Self {
        Cons(value.0, Cons(value.1, Cons(value.2, Cons(value.3, Nil))))
    }
}

/// The tuple of the elements of a heterogenous list, in order.
impl<A, B, C, D> From<Cons<A, Cons<B, Cons<C, Cons<D, Nil>>>>> for (A, B, C, D) {
    fn from(value: Cons<A, Cons<B, Cons<C, Cons<D, Nil>>>>) -> (out: Self) {
        let Cons(a, Cons(b, Cons(c, Cons(d, Nil)))) = value;
        (a, b, c, d)
    }
}

impl<A, B, C, D> FromSpecImpl<Cons<A, Cons<B, Cons<C, Cons<D, Nil>>>>> for (A, B, C, D) {
    open spec fn obeys_from_spec() -> bool {
        true
    }

    open spec fn from_spec(value: Cons<A, Cons<B, Cons<C, Cons<D, Nil>>>>) -> Self {
        (value.0, value.1.0, value.1.1.0, value.1.1.1.0)
    }
}

impl<A, B, C, D> IntoTuple for Cons<A, Cons<B, Cons<C, Cons<D, Nil>>>> {
    type Output = (A, B, C, D);

    open spec fn spec_into_tuple(self) -> (A, B, C, D) {
        (self.0, self.1.0, self.1.1.0, self.1.1.1.0)
    }

    fn into_tuple(self) -> (out: (A, B, C, D)) {
        From::from(self)
    }
}

impl<A, B, C, D> IntoTuple for (A, B, C, D) {
    type Output = Self;

    open spec fn spec_into_tuple(self) -> Self {
        self
    }

    fn into_tuple(self) -> (out: Self) {
        self
    }
}

impl<A, B, C, D> IntoHList for (A, B, C, D) {
    type Output = Cons<A, Cons<B, Cons<C, Cons<D, Nil>>>>;

    open spec fn spec_into_hlist(self) -> Cons<A, Cons<B, Cons<C, Cons<D, Nil>>>> {
        Cons(self.0, Cons(self.1, Cons(self.2, Cons(self.3, Nil))))
    }

    fn into_hlist(self) -> (out: Cons<A, Cons<B, Cons<C, Cons<D, Nil>>>>) {
        From::from(self)
    }
}

impl<A, B, C, D> TupleBridge for (A, B, C, D) {
    proof fn lemma_round_trip(self) {
    }

    proof fn lemma_round_trip_back(list: Cons<A, Cons<B, Cons<C, Cons<D, Nil>>>>) {
        assert(list.1.1.1.1 == Nil);
    }
}

/// The heterogenous list of the parts of a tuple, in order.
impl<A, B, C, D, E> From<(A, B, C, D, E)> for Cons<A, Cons<B, Cons<C, Cons<D, Cons<E, Nil>>>>> {
    fn from(value: (A, B, C, D, E)) -> (out: Self) {
        let (a, b, c, d, e) = value;
        Cons(a, Cons(b, Cons(c, Cons(d, Cons(e, Nil)))))
    }
}

impl<A, B, C, D, E> FromSpecImpl<(A, B, C, D, E)> for Cons<A, Cons<B, Cons<C, Cons<D, Cons<E, Nil>>>>> {
    open spec fn obeys_from_spec() -> bool {
        true
    }

    open spec fn from_spec(value: (A, B, C, D, E)) -> Self {
        Cons(value.0, Cons(value.1, Cons(value.2, Cons(value.3, Cons(value.4, Nil)))))
    }
}

/// The tuple of the elements of a heterogenous list, in order.
impl<A, B, C, D, E> From<Cons<A, Cons<B, Cons<C, Cons<D, Cons<E, Nil>>>>>> for (A, B, C, D, E) {
    fn from(value: Cons<A, Cons<B, Cons<C, Cons<D, Cons<E, Nil>>>>>) -> (out: Self) {
        let Cons(a, Cons(b, Cons(c, Cons(d, Cons(e, Nil))))) = value;
        (a, b, c, d, e)
    }
}

impl<A, B, C, D, E> FromSpecImpl<Cons<A, Cons<B, Cons<C, Cons<D, Cons<E, Nil>>>>>> for (A, B, C, D, E) {
    open spec fn obeys_from_spec() -> bool {
        true
    }

    open spec fn from_spec(value: Cons<A, Cons<B, Cons<C, Cons<D, Cons<E, Nil>>>>>) -> Self {
        (value.0, value.1.0, value.1.1.0, value.1.1.1.0, value.1.1.1.1.0)
    }
}

impl<A, B, C, D, E> IntoTuple for Cons<A, Cons<B, Cons<C, Cons<D, Cons<E, Nil>>>>> {
    type Output = (A, B, C, D, E);

    open spec fn spec_into_tuple(self) -> (A, B, C, D, E) {
        (self.0, self.1.0, self.1.1.0, self.1.1.1.0, self.1.1.1.1.0)
    }

    fn into_tuple(self) -> (out: (A, B, C, D, E)) {
        From::from(self)
    }
}

impl<A, B, C, D, E> IntoTuple for (A, B, C, D, E) {
    type Output = Self;

    open spec fn spec_into_tuple(self) -> Self {
        self
    }

    fn into_tuple(self) -> (out: Self) {
        self
    }
}

impl<A, B, C, D, E> IntoHList for (A, B, C, D, E) {
    type Output = Cons<A, Cons<B, Cons<C, Cons<D, Cons<E, Nil>>>>>;

    open spec fn spec_into_hlist(self) -> Cons<A, Cons<B, Cons<C, Cons<D, Cons<E, Nil>>>>> {
        Cons(self.0, Cons(self.1, Cons(self.2, Cons(self.3, Cons(self.4, Nil)))))
    }

    fn into_hlist(self) -> (out: Cons<A, Cons<B, Cons<C, Cons<D, Cons<E, Nil>>>>>) {
        From::from(self)
    }
}

impl<A, B, C, D, E> TupleBridge for (A, B, C, D, E) {
    proof fn lemma_round_trip(self) {
    }

    proof fn lemma_round_trip_back(list: Cons<A, Cons<B, Cons<C, Cons<D, Cons<E, Nil>>>>>) {
        assert(list.1.1.1.1.1 == Nil);
    }
}

/// The heterogenous list of the parts of a tuple, in order.
impl<A, B, C, D, E, F> From<(A, B, C, D, E, F)> for Cons<A, Cons<B, Cons<C, Cons<D, Cons<E, Cons<F, Nil>>>>>> {
    fn from(value: (A, B, C, D, E, F)) -> (out: Self) {
        let (a, b, c, d, e, f) = value;
        Cons(a, Cons(b, Cons(c, Cons(d, Cons(e, Cons(f, Nil))))))
    }
}

impl<A, B, C, D, E, F> FromSpecImpl<(A, B, C, D, E, F)> for Cons<A, Cons<B, Cons<C, Cons<D, Cons<E, Cons<F, Nil>>>>>> {
    open spec fn obeys_from_spec() -> bool {
        true
    }

    open spec fn from_spec(value: (A, B, C, D, E, F)) -> Self {
        Cons(value.0, Cons(value.1, Cons(value.2, Cons(value.3, Cons(value.4, Cons(value.5, Nil))))))
    }
}

/// The tuple of the elements of a heterogenous list, in order.
impl<A, B, C, D, E, F> From<Cons<A, Cons<B, Cons<C, Cons<D, Cons<E, Cons<F, Nil>>>>>>> for (A, B, C, D, E, F) {
    fn from(value: Cons<A, Cons<B, Cons<C, Cons<D, Cons<E, Cons<F, Nil>>>>>>) -> (out: Self) {
        let Cons(a, Cons(b, Cons(c, Cons(d, Cons(e, Cons(f, Nil)))))) = value;
        (a, b, c, d, e, f)
    }
}

impl<A, B, C, D, E, F> FromSpecImpl<Cons<A, Cons<B, Cons<C, Cons<D, Cons<E, Cons<F, Nil>>>>>>> for (A, B, C, D, E, F) {
    open spec fn obeys_from_spec() -> bool {
        true
    }

    open spec fn from_spec(value: Cons<A, Cons<B, Cons<C, Cons<D, Cons<E, Cons<F, Nil>>>>>>) -> Self {
        (value.0, value.1.0, value.1.1.0, value.1.1.1.0, value.1.1.1.1.0, value.1.1.1.1.1.0)
    }
}

impl<A, B, C, D, E, F> IntoTuple for Cons<A, Cons<B, Cons<C, Cons<D, Cons<E, Cons<F, Nil>>>>>> {
    type Output = (A, B, C, D, E, F);

    open spec fn spec_into_tuple(self) -> (A, B, C, D, E, F) {
        (self.0, self.1.0, self.1.1.0, self.1.1.1.0, self.1.1.1.1.0, self.1.1.1.1.1.0)
    }

    fn into_tuple(self) -> (out: (A, B, C, D, E, F)) {
        From::from(self)
    }
}

impl<A, B, C, D, E, F> IntoTuple for (A, B, C, D, E, F) {
    type Output = Self;

    open spec fn spec_into_tuple(self) -> Self {
        self
    }

    fn into_tuple(self) -> (out: Self) {
        self
    }
}

impl<A, B, C, D, E, F> IntoHList for (A, B, C, D, E, F) {
    type Output = Cons<A, Cons<B, Cons<C, Cons<D, Cons<E, Cons<F, Nil>>>>>>;

    open spec fn spec_into_hlist(self) -> Cons<A, Cons<B, Cons<C, Cons<D, Cons<E, Cons<F, Nil>>>>>> {
        Cons(self.0, Cons(self.1, Cons(self.2, Cons(self.3, Cons(self.4, Cons(self.5, Nil))))))
    }

    fn into_hlist(self) -> (out: Cons<A, Cons<B, Cons<C, Cons<D, Cons<E, Cons<F, Nil>>>>>>) {
        From::from(self)
    }
}

impl<A, B, C, D, E, F> TupleBridge for (A, B, C, D, E, F) {
    proof fn lemma_round_trip(self) {
    }

    proof fn lemma_round_trip_back(list: Cons<A, Cons<B, Cons<C, Cons<D, Cons<E, Cons<F, Nil>>>>>>) {
        assert(list.1.1.1.1.1.1 == Nil);
    }
}

/// The heterogenous list of the parts of a tuple, in order.
impl<A, B, C, D, E, F, G> From<(A, B, C, D, E, F, G)> for Cons<A, Cons<B, Cons<C, Cons<D, Cons<E, Cons<F, Cons<G, Nil>>>>>>> {
    fn from(value: (A, B, C, D, E, F, G)) -> (out: Self) {
        let (a, b, c, d, e, f, g) = value;
        Cons(a, Cons(b, Cons(c, Cons(d, Cons(e, Cons(f, Cons(g, Nil)))))))
    }
}

impl<A, B, C, D, E, F, G> FromSpecImpl<(A, B, C, D, E, F, G)> for Cons<A, Cons<B, Cons<C, Cons<D, Cons<E, Cons<F, Cons<G, Nil>>>>>>> {
    open spec fn obeys_from_spec() -> bool {
        true
    }

    open spec fn from_spec(value: (A, B, C, D, E, F, G)) -> Self {
        Cons(value.0, Cons(value.1, Cons(value.2, Cons(value.3, Cons(value.4, Cons(value.5, Cons(value.6, Nil)))))))
    }
}

/// The tuple of the elements of a heterogenous list, in order.
impl<A, B, C, D, E, F, G> From<Cons<A, Cons<B, Cons<C, Cons<D, Cons<E, Cons<F, Cons<G, Nil>>>>>>>> for (A, B, C, D, E, F, G) {
    fn from(value: Cons<A, Cons<B, Cons<C, Cons<D, Cons<E, Cons<F, Cons<G, Nil>>>>>>>) -> (out: Self) {
        let Cons(a, Cons(b, Cons(c, Cons(d, Cons(e, Cons(f, Cons(g, Nil))))))) = value;
        (a, b, c, d, e, f, g)
    }
}

impl<A, B, C, D, E, F, G> FromSpecImpl<Cons<A, Cons<B, Cons<C, Cons<D, Cons<E, Cons<F, Cons<G, Nil>>>>>>>> for (A, B, C, D, E, F, G) {
    open spec fn obeys_from_spec() -> bool {
        true
    }

    open spec fn from_spec(value: Cons<A, Cons<B, Cons<C, Cons<D, Cons<E, Cons<F, Cons<G, Nil>>>>>>>) -> Self {
        (value.0, value.1.0, value.1.1.0, value.1.1.1.0, value.1.1.1.1.0, value.1.1.1.1.1.0, value.1.1.1.1.1.1.0)
    }
}

impl<A, B, C, D, E, F, G> IntoTuple for Cons<A, Cons<B, Cons<C, Cons<D, Cons<E, Cons<F, Cons<G, Nil>>>>>>> {
    type Output = (A, B, C, D, E, F, G);

    open spec fn spec_into_tuple(self) -> (A, B, C, D, E, F, G) {
        (self.0, self.1.0, self.1.1.0, self.1.1.1.0, self.1.1.1.1.0, self.1.1.1.1.1.0, self.1.1.1.1.1.1.0)
    }

    fn into_tuple(self) -> (out: (A, B, C, D, E, F, G)) {
        From::from(self)
    }
}

impl<A, B, C, D, E, F, G> IntoTuple for (A, B, C, D, E, F, G) {
    type Output = Self;

    open spec fn spec_into_tuple(self) -> Self {
        self
    }

    fn into_tuple(self) -> (out: Self) {
        self
    }
}

impl<A, B, C, D, E, F, G> IntoHList for (A, B, C, D, E, F, G) {
    type Output = Cons<A, Cons<B, Cons<C, Cons<D, Cons<E, Cons<F, Cons<G, Nil>>>>>>>;

    open spec fn spec_into_hlist(self) -> Cons<A, Cons<B, Cons<C, Cons<D, Cons<E, Cons<F, Cons<G, Nil>>>>>>> {
        Cons(self.0, Cons(self.1, Cons(self.2, Cons(self.3, Cons(self.4, Cons(self.5, Cons(self.6, Nil)))))))
    }

    fn into_hlist(self) -> (out: Cons<A, Cons<B, Cons<C, Cons<D, Cons<E, Cons<F, Cons<G, Nil>>>>>>>) {
        From::from(self)
    }
}

impl<A, B, C, D, E, F, G> TupleBridge for (A, B, C, D, E, F, G) {
    proof fn lemma_round_trip(self) {
    }

    proof fn lemma_round_trip_back(list: Cons<A, Cons<B, Cons<C, Cons<D, Cons<E, Cons<F, Cons<G, Nil>>>>>>>) {
        assert(list.1.1.1.1.1.1.1 == Nil);
    }
}

/// The heterogenous list of the parts of a tuple, in order.
impl<A, B, C, D, E, F, G, H> From<(A, B, C, D, E, F, G, H)> for Cons<A, Cons<B, Cons<C, Cons<D, Cons<E, Cons<F, Cons<G, Cons<H, Nil>>>>>>>> {
    fn from(value: (A, B, C, D, E, F, G, H)) -> (out: Self) {
        let (a, b, c, d, e, f, g, h) = value;
        Cons(a, Cons(b, Cons(c, Cons(d, Cons(e, Cons(f, Cons(g, Cons(h, Nil))))))))
    }
}

impl<A, B, C, D, E, F, G, H> FromSpecImpl<(A, B, C, D, E, F, G, H)> for Cons<A, Cons<B, Cons<C, Cons<D, Cons<E, Cons<F, Cons<G, Cons<H, Nil>>>>>>>> {
    open spec fn obeys_from_spec() -> bool {
        true
    }

    open spec fn from_spec(value: (A, B, C, D, E, F, G, H)) -> Self {
        Cons(value.0, Cons(value.1, Cons(value.2, Cons(value.3, Cons(value.4, Cons(value.5, Cons(value.6, Cons(value.7, Nil))))))))
    }
}

/// The tuple of the elements of a heterogenous list, in order.
impl<A, B, C, D, E, F, G, H> From<Cons<A, Cons<B, Cons<C, Cons<D, Cons<E, Cons<F, Cons<G, Cons<H, Nil>>>>>>>>> for (A, B, C, D, E, F, G, H) {
    fn from(value: Cons<A, Cons<B, Cons<C, Cons<D, Cons<E, Cons<F, Cons<G, Cons<H, Nil>>>>>>>>) -> (out: Self) {
        let Cons(a, Cons(b, Cons(c, Cons(d, Cons(e, Cons(f, Cons(g, Cons(h, Nil)))))))) = value;
        (a, b, c, d, e, f, g, h)
    }
}

impl<A, B, C, D, E, F, G, H> FromSpecImpl<Cons<A, Cons<B, Cons<C, Cons<D, Cons<E, Cons<F, Cons<G, Cons<H, Nil>>>>>>>>> for (A, B, C, D, E, F, G, H) {
    open spec fn obeys_from_spec() -> bool {
        true
    }

    open spec fn from_spec(value: Cons<A, Cons<B, Cons<C, Cons<D, Cons<E, Cons<F, Cons<G, Cons<H, Nil>>>>>>>>) -> Self {
        (value.0, value.1.0, value.1.1.0, value.1.1.1.0, value.1.1.1.1.0, value.1.1.1.1.1.0, value.1.1.1.1.1.1.0, value.1.1.1.1.1.1.1.0)
    }
}

impl<A, B, C, D, E, F, G, H> IntoTuple for Cons<A, Cons<B, Cons<C, Cons<D, Cons<E, Cons<F, Cons<G, Cons<H, Nil>>>>>>>> {
    type Output = (A, B, C, D, E, F, G, H);

    open spec fn spec_into_tuple(self) -> (A, B, C, D, E, F, G, H) {
        (self.0, self.1.0, self.1.1.0, self.1.1.1.0, self.1.1.1.1.0, self.1.1.1.1.1.0, self.1.1.1.1.1.1.0, self.1.1.1.1.1.1.1.0)
    }

    fn into_tuple(self) -> (out: (A, B, C, D, E, F, G, H)) {
        From::from(self)
    }
}

impl<A, B, C, D, E, F, G, H> IntoTuple for (A, B, C, D, E, F, G, H) {
    type Output = Self;

    open spec fn spec_into_tuple(self) -> Self {
        self
    }

    fn into_tuple(self) -> (out: Self) {
        self
    }
}

impl<A, B, C, D, E, F, G, H> IntoHList for (A, B, C, D, E, F, G, H) {
    type Output = Cons<A, Cons<B, Cons<C, Cons<D, Cons<E, Cons<F, Cons<G, Cons<H, Nil>>>>>>>>;

    open spec fn spec_into_hlist(self) -> Cons<A, Cons<B, Cons<C, Cons<D, Cons<E, Cons<F, Cons<G, Cons<H, Nil>>>>>>>> {
        Cons(self.0, Cons(self.1, Cons(self.2, Cons(self.3, Cons(self.4, Cons(self.5, Cons(self.6, Cons(self.7, Nil))))))))
    }

    fn into_hlist(self) -> (out: Cons<A, Cons<B, Cons<C, Cons<D, Cons<E, Cons<F, Cons<G, Cons<H, Nil>>>>>>>>) {
        From::from(self)
    }
}

impl<A, B, C, D, E, F, G, H> TupleBridge for (A, B, C, D, E, F, G, H) {
    proof fn lemma_round_trip(self) {
    }

    proof fn lemma_round_trip_back(list: Cons<A, Cons<B, Cons<C, Cons<D, Cons<E, Cons<F, Cons<G, Cons<H, Nil>>>>>>>>) {
        assert(list.1.1.1.1.1.1.1.1 == Nil);
    }
}

/// The heterogenous list of the parts of a tuple, in order.
impl<A, B, C, D, E, F, G, H, I> From<(A, B, C, D, E, F, G, H, I)> for Cons<A, Cons<B, Cons<C, Cons<D, Cons<E, Cons<F, Cons<G, Cons<H, Cons<I, Nil>>>>>>>>> {
    fn from(value: (A, B, C, D, E, F, G, H, I)) -> (out: Self) {
        let (a, b, c, d, e, f, g, h, i) = value;
        Cons(a, Cons(b, Cons(c, Cons(d, Cons(e, Cons(f, Cons(g, Cons(h, Cons(i, Nil)))))))))
    }
}

impl<A, B, C, D, E, F, G, H, I> FromSpecImpl<(A, B, C, D, E, F, G, H, I)> for Cons<A, Cons<B, Cons<C, Cons<D, Cons<E, Cons<F, Cons<G, Cons<H, Cons<I, Nil>>>>>>>>> {
    open spec fn obeys_from_spec() -> bool {
        true
    }

    open spec fn from_spec(value: (A, B, C, D, E, F, G, H, I)) -> Self {
        Cons(value.0, Cons(value.1, Cons(value.2, Cons(value.3, Cons(value.4, Cons(value.5, Cons(value.6, Cons(value.7, Cons(value.8, Nil)))))))))
    }
}

/// The tuple of the elements of a heterogenous list, in order.
impl<A, B, C, D, E, F, G, H, I> From<Cons<A, Cons<B, Cons<C, Cons<D, Cons<E, Cons<F, Cons<G, Cons<H, Cons<I, Nil>>>>>>>>>> for (A, B, C, D, E, F, G, H, I) {
    fn from(value: Cons<A, Cons<B, Cons<C, Cons<D, Cons<E, Cons<F, Cons<G, Cons<H, Cons<I, Nil>>>>>>>>>) -> (out: Self) {
        let Cons(a, Cons(b, Cons(c, Cons(d, Cons(e, Cons(f, Cons(g, Cons(h, Cons(i, Nil))))))))) = value;
        (a, b, c, d, e, f, g, h, i)
    }
}

impl<A, B, C, D, E, F, G, H, I> FromSpecImpl<Cons<A, Cons<B, Cons<C, Cons<D, Cons<E, Cons<F, Cons<G, Cons<H, Cons<I, Nil>>>>>>>>>> for (A, B, C, D, E, F, G, H, I) {
    open spec fn obeys_from_spec() -> bool {
        true
    }

    open spec fn from_spec(value: Cons<A, Cons<B, Cons<C, Cons<D, Cons<E, Cons<F, Cons<G, Cons<H, Cons<I, Nil>>>>>>>>>) -> Self {
        (value.0, value.1.0, value.1.1.0, value.1.1.1.0, value.1.1.1.1.0, value.1.1.1.1.1.0, value.1.1.1.1.1.1.0, value.1.1.1.1.1.1.1.0, value.1.1.1.1.1.1.1.1.0)
    }
}

impl<A, B, C, D, E, F, G, H, I> IntoTuple for Cons<A, Cons<B, Cons<C, Cons<D, Cons<E, Cons<F, Cons<G, Cons<H, Cons<I, Nil>>>>>>>>> {
    type Output = (A, B, C, D, E, F, G, H, I);

    open spec fn spec_into_tuple(self) -> (A, B, C, D, E, F, G, H, I) {
        (self.0, self.1.0, self.1.1.0, self.1.1.1.0, self.1.1.1.1.0, self.1.1.1.1.1.0, self.1.1.1.1.1.1.0, self.1.1.1.1.1.1.1.0, self.1.1.1.1.1.1.1.1.0)
    }

    fn into_tuple(self) -> (out: (A, B, C, D, E, F, G, H, I)) {
        From::from(self)
    }
}

impl<A, B, C, D, E, F, G, H, I> IntoTuple for (A, B, C, D, E, F, G, H, I) {
    type Output = Self;

    open spec fn spec_into_tuple(self) -> Self {
        self
    }

    fn into_tuple(self) -> (out: Self) {
        self
    }
}

impl<A, B, C, D, E, F, G, H, I> IntoHList for (A, B, C, D, E, F, G, H, I) {
    type Output = Cons<A, Cons<B, Cons<C, Cons<D, Cons<E, Cons<F, Cons<G, Cons<H, Cons<I, Nil>>>>>>>>>;

    open spec fn spec_into_hlist(self) -> Cons<A, Cons<B, Cons<C, Cons<D, Cons<E, Cons<F, Cons<G, Cons<H, Cons<I, Nil>>>>>>>>> {
        Cons(self.0, Cons(self.1, Cons(self.2, Cons(self.3, Cons(self.4, Cons(self.5, Cons(self.6, Cons(self.7, Cons(self.8, Nil)))))))))
    }

    fn into_hlist(self) -> (out: Cons<A, Cons<B, Cons<C, Cons<D, Cons<E, Cons<F, Cons<G, Cons<H, Cons<I, Nil>>>>>>>>>) {
        From::from(self)
    }
}

impl<A, B, C, D, E, F, G, H, I> TupleBridge for (A, B, C, D, E, F, G, H, I) {
    proof fn lemma_round_trip(self) {
    }

    proof fn lemma_round_trip_back(list: Cons<A, Cons<B, Cons<C, Cons<D, Cons<E, Cons<F, Cons<G, Cons<H, Cons<I, Nil>>>>>>>>>) {
        assert(list.1.1.1.1.1.1.1.1.1 == Nil);
    }
}

/// The heterogenous list of the parts of a tuple, in order.
impl<A, B, C, D, E, F, G, H, I, J> From<(A, B, C, D, E, F, G, H, I, J)> for Cons<A, Cons<B, Cons<C, Cons<D, Cons<E, Cons<F, Cons<G, Cons<H, Cons<I, Cons<J, Nil>>>>>>>>>> {
    fn from(value: (A, B, C, D, E, F, G, H, I, J)) -> (out: Self) {
        let (a, b, c, d, e, f, g, h, i, j) = value;
        Cons(a, Cons(b, Cons(c, Cons(d, Cons(e, Cons(f, Cons(g, Cons(h, Cons(i, Cons(j, Nil))))))))))
    }
}

impl<A, B, C, D, E, F, G, H, I, J> FromSpecImpl<(A, B, C, D, E, F, G, H, I, J)> for Cons<A, Cons<B, Cons<C, Cons<D, Cons<E, Cons<F, Cons<G, Cons<H, Cons<I, Cons<J, Nil>>>>>>>>>> {
    open spec fn obeys_from_spec() -> bool {
        true
    }

    open spec fn from_spec(value: (A, B, C, D, E, F, G, H, I, J)) -> Self {
        Cons(value.0, Cons(value.1, Cons(value.2, Cons(value.3, Cons(value.4, Cons(value.5, Cons(value.6, Cons(value.7, Cons(value.8, Cons(value.9, Nil))))))))))
    }
}

/// The tuple of the elements of a heterogenous list, in order.
impl<A, B, C, D, E, F, G, H, I, J> From<Cons<A, Cons<B, Cons<C, Cons<D, Cons<E, Cons<F, Cons<G, Cons<H, Cons<I, Cons<J, Nil>>>>>>>>>>> for (A, B, C, D, E, F, G, H, I, J) {
    fn from(value: Cons<A, Cons<B, Cons<C, Cons<D, Cons<E, Cons<F, Cons<G, Cons<H, Cons<I, Cons<J, Nil>>>>>>>>>>) -> (out: Self) {
        let Cons(a, Cons(b, Cons(c, Cons(d, Cons(e, Cons(f, Cons(g, Cons(h, Cons(i, Cons(j, Nil)))))))))) = value;
        (a, b, c, d, e, f, g, h, i, j)
    }
}

impl<A, B, C, D, E, F, G, H, I, J> FromSpecImpl<Cons<A, Cons<B, Cons<C, Cons<D, Cons<E, Cons<F, Cons<G, Cons<H, Cons<I, Cons<J, Nil>>>>>>>>>>> for (A, B, C, D, E, F, G, H, I, J) {
    open spec fn obeys_from_spec() -> bool {
        true
    }

    open spec fn from_spec(value: Cons<A, Cons<B, Cons<C, Cons<D, Cons<E, Cons<F, Cons<G, Cons<H, Cons<I, Cons<J, Nil>>>>>>>>>>) -> Self {
        (value.0, value.1.0, value.1.1.0, value.1.1.1.0, value.1.1.1.1.0, value.1.1.1.1.1.0, value.1.1.1.1.1.1.0, value.1.1.1.1.1.1.1.0, value.1.1.1.1.1.1.1.1.0, value.1.1.1.1.1.1.1.1.1.0)
    }
}

impl<A, B, C, D, E, F, G, H, I, J> IntoTuple for Cons<A, Cons<B, Cons<C, Cons<D, Cons<E, Cons<F, Cons<G, Cons<H, Cons<I, Cons<J, Nil>>>>>>>>>> {
    type Output = (A, B, C, D, E, F, G, H, I, J);

    open spec fn spec_into_tuple(self) -> (A, B, C, D, E, F, G, H, I, J) {
        (self.0, self.1.0, self.1.1.0, self.1.1.1.0, self.1.1.1.1.0, self.1.1.1.1.1.0, self.1.1.1.1.1.1.0, self.1.1.1.1.1.1.1.0, self.1.1.1.1.1.1.1.1.0, self.1.1.1.1.1.1.1.1.1.0)
    }

    fn into_tuple(self) -> (out: (A, B, C, D, E, F, G, H, I, J)) {
        From::from(self)
    }
}

impl<A, B, C, D, E, F, G, H, I, J> IntoTuple for (A, B, C, D, E, F, G, H, I, J) {
    type Output = Self;

    open spec fn spec_into_tuple(self) -> Self {
        self
    }

    fn into_tuple(self) -> (out: Self) {
        self
    }
}

impl<A, B, C, D, E, F, G, H, I, J> IntoHList for (A, B, C, D, E, F, G, H, I, J) {
    type Output = Cons<A, Cons<B, Cons<C, Cons<D, Cons<E, Cons<F, Cons<G, Cons<H, Cons<I, Cons<J, Nil>>>>>>>>>>;

    open spec fn spec_into_hlist(self) -> Cons<A, Cons<B, Cons<C, Cons<D, Cons<E, Cons<F, Cons<G, Cons<H, Cons<I, Cons<J, Nil>>>>>>>>>> {
        Cons(self.0, Cons(self.1, Cons(self.2, Cons(self.3, Cons(self.4, Cons(self.5, Cons(self.6, Cons(self.7, Cons(self.8, Cons(self.9, Nil))))))))))
    }

    fn into_hlist(self) -> (out: Cons<A, Cons<B, Cons<C, Cons<D, Cons<E, Cons<F, Cons<G, Cons<H, Cons<I, Cons<J, Nil>>>>>>>>>>) {
        From::from(self)
    }
}

impl<A, B, C, D, E, F, G, H, I, J> TupleBridge for (A, B, C, D, E, F, G, H, I, J) {
    proof fn lemma_round_trip(self) {
    }

    proof fn lemma_round_trip_back(list: Cons<A, Cons<B, Cons<C, Cons<D, Cons<E, Cons<F, Cons<G, Cons<H, Cons<I, Cons<J, Nil>>>>>>>>>>) {
        assert(list.1.1.1.1.1.1.1.1.1.1 == Nil);
    }
}

/// The heterogenous list of the parts of a tuple, in order.
impl<A, B, C, D, E, F, G, H, I, J, K> From<(A, B, C, D, E, F, G, H, I, J, K)> for Cons<A, Cons<B, Cons<C, Cons<D, Cons<E, Cons<F, Cons<G, Cons<H, Cons<I, Cons<J, Cons<K, Nil>>>>>>>>>>> {
    fn from(value: (A, B, C, D, E, F, G, H, I, J, K)) -> (out: Self) {
        let (a, b, c, d, e, f, g, h, i, j, k) = value;
        Cons(a, Cons(b, Cons(c, Cons(d, Cons(e, Cons(f, Cons(g, Cons(h, Cons(i, Cons(j, Cons(k, Nil)))))))))))
    }
}

impl<A, B, C, D, E, F, G, H, I, J, K> FromSpecImpl<(A, B, C, D, E, F, G, H, I, J, K)> for Cons<A, Cons<B, Cons<C, Cons<D, Cons<E, Cons<F, Cons<G, Cons<H, Cons<I, Cons<J, Cons<K, Nil>>>>>>>>>>> {
    open spec fn obeys_from_spec() -> bool {
        true
    }

    open spec fn from_spec(value: (A, B, C, D, E, F, G, H, I, J, K)) -> Self {
        Cons(value.0, Cons(value.1, Cons(value.2, Cons(value.3, Cons(value.4, Cons(value.5, Cons(value.6, Cons(value.7, Cons(value.8, Cons(value.9, Cons(value.10, Nil)))))))))))
    }
}

/// The tuple of the elements of a heterogenous list, in order.
impl<A, B, C, D, E, F, G, H, I, J, K> From<Cons<A, Cons<B, Cons<C, Cons<D, Cons<E, Cons<F, Cons<G, Cons<H, Cons<I, Cons<J, Cons<K, Nil>>>>>>>>>>>> for (A, B, C, D, E, F, G, H, I, J, K) {
    fn from(value: Cons<A, Cons<B, Cons<C, Cons<D, Cons<E, Cons<F, Cons<G, Cons<H, Cons<I, Cons<J, Cons<K, Nil>>>>>>>>>>>) -> (out: Self) {
        let Cons(a, Cons(b, Cons(c, Cons(d, Cons(e, Cons(f, Cons(g, Cons(h, Cons(i, Cons(j, Cons(k, Nil))))))))))) = value;
        (a, b, c, d, e, f, g, h, i, j, k)
    }
}

impl<A, B, C, D, E, F, G, H, I, J, K> FromSpecImpl<Cons<A, Cons<B, Cons<C, Cons<D, Cons<E, Cons<F, Cons<G, Cons<H, Cons<I, Cons<J, Cons<K, Nil>>>>>>>>>>>> for (A, B, C, D, E, F, G, H, I, J, K) {
    open spec fn obeys_from_spec() -> bool {
        true
    }

    open spec fn from_spec(value: Cons<A, Cons<B, Cons<C, Cons<D, Cons<E, Cons<F, Cons<G, Cons<H, Cons<I, Cons<J, Cons<K, Nil>>>>>>>>>>>) -> Self {
        (value.0, value.1.0, value.1.1.0, value.1.1.1.0, value.1.1.1.1.0, value.1.1.1.1.1.0, value.1.1.1.1.1.1.0, value.1.1.1.1.1.1.1.0, value.1.1.1.1.1.1.1.1.0, value.1.1.1.1.1.1.1.1.1.0, value.1.1.1.1.1.1.1.1.1.1.0)
    }
}

impl<A, B, C, D, E, F, G, H, I, J, K> IntoTuple for Cons<A, Cons<B, Cons<C, Cons<D, Cons<E, Cons<F, Cons<G, Cons<H, Cons<I, Cons<J, Cons<K, Nil>>>>>>>>>>> {
    type Output = (A, B, C, D, E, F, G, H, I, J, K);

    open spec fn spec_into_tuple(self) -> (A, B, C, D, E, F, G, H, I, J, K) {
        (self.0, self.1.0, self.1.1.0, self.1.1.1.0, self.1.1.1.1.0, self.1.1.1.1.1.0, self.1.1.1.1.1.1.0, self.1.1.1.1.1.1.1.0, self.1.1.1.1.1.1.1.1.0, self.1.1.1.1.1.1.1.1.1.0, self.1.1.1.1.1.1.1.1.1.1.0)
    }

    fn into_tuple(self) -> (out: (A, B, C, D, E, F, G, H, I, J, K)) {
        From::from(self)
    }
}

impl<A, B, C, D, E, F, G, H, I, J, K> IntoTuple for (A, B, C, D, E, F, G, H, I, J, K) {
    type Output = Self;

    open spec fn spec_into_tuple(self) -> Self {
        self
    }

    fn into_tuple(self) -> (out: Self) {
        self
    }
}

impl<A, B, C, D, E, F, G, H, I, J, K> IntoHList for (A, B, C, D, E, F, G, H, I, J, K) {
    type Output = Cons<A, Cons<B, Cons<C, Cons<D, Cons<E, Cons<F, Cons<G, Cons<H, Cons<I, Cons<J, Cons<K, Nil>>>>>>>>>>>;

    open spec fn spec_into_hlist(self) -> Cons<A, Cons<B, Cons<C, Cons<D, Cons<E, Cons<F, Cons<G, Cons<H, Cons<I, Cons<J, Cons<K, Nil>>>>>>>>>>> {
        Cons(self.0, Cons(self.1, Cons(self.2, Cons(self.3, Cons(self.4, Cons(self.5, Cons(self.6, Cons(self.7, Cons(self.8, Cons(self.9, Cons(self.10, Nil)))))))))))
    }

    fn into_hlist(self) -> (out: Cons<A, Cons<B, Cons<C, Cons<D, Cons<E, Cons<F, Cons<G, Cons<H, Cons<I, Cons<J, Cons<K, Nil>>>>>>>>>>>) {
        From::from(self)
    }
}

impl<A, B, C, D, E, F, G, H, I, J, K> TupleBridge for (A, B, C, D, E, F, G, H, I, J, K) {
    proof fn lemma_round_trip(self) {
    }

    proof fn lemma_round_trip_back(list: Cons<A, Cons<B, Cons<C, Cons<D, Cons<E, Cons<F, Cons<G, Cons<H, Cons<I, Cons<J, Cons<K, Nil>>>>>>>>>>>) {
        assert(list.1.1.1.1.1.1.1.1.1.1.1 == Nil);
    }
}

/// The heterogenous list of the parts of a tuple, in order.
impl<A, B, C, D, E, F, G, H, I, J, K, L> From<(A, B, C, D, E, F, G, H, I, J, K, L)> for Cons<A, Cons<B, Cons<C, Cons<D, Cons<E, Cons<F, Cons<G, Cons<H, Cons<I, Cons<J, Cons<K, Cons<L, Nil>>>>>>>>>>>> {
    fn from(value: (A, B, C, D, E, F, G, H, I, J, K, L)) -> (out: Self) {
        let (a, b, c, d, e, f, g, h, i, j, k, l) = value;
        Cons(a, Cons(b, Cons(c, Cons(d, Cons(e, Cons(f, Cons(g, Cons(h, Cons(i, Cons(j, Cons(k, Cons(l, Nil))))))))))))
    }
}

impl<A, B, C, D, E, F, G, H, I, J, K, L> FromSpecImpl<(A, B, C, D, E, F, G, H, I, J, K, L)> for Cons<A, Cons<B, Cons<C, Cons<D, Cons<E, Cons<F, Cons<G, Cons<H, Cons<I, Cons<J, Cons<K, Cons<L, Nil>>>>>>>>>>>> {
    open spec fn obeys_from_spec() -> bool {
        true
    }

    open spec fn from_spec(value: (A, B, C, D, E, F, G, H, I, J, K, L)) -> Self {
        Cons(value.0, Cons(value.1, Cons(value.2, Cons(value.3, Cons(value.4, Cons(value.5, Cons(value.6, Cons(value.7, Cons(value.8, Cons(value.9, Cons(value.10, Cons(value.11, Nil))))))))))))
    }
}

/// The tuple of the elements of a heterogenous list, in order.
impl<A, B, C, D, E, F, G, H, I, J, K, L> From<Cons<A, Cons<B, Cons<C, Cons<D, Cons<E, Cons<F, Cons<G, Cons<H, Cons<I, Cons<J, Cons<K, Cons<L, Nil>>>>>>>>>>>>> for (A, B, C, D, E, F, G, H, I, J, K, L) {
    fn from(value: Cons<A, Cons<B, Cons<C, Cons<D, Cons<E, Cons<F, Cons<G, Cons<H, Cons<I, Cons<J, Cons<K, Cons<L, Nil>>>>>>>>>>>>) -> (out: Self) {
        let Cons(a, Cons(b, Cons(c, Cons(d, Cons(e, Cons(f, Cons(g, Cons(h, Cons(i, Cons(j, Cons(k, Cons(l, Nil)))))))))))) = value;
        (a, b, c, d, e, f, g, h, i, j, k, l)
    }
}

impl<A, B, C, D, E, F, G, H, I, J, K, L> FromSpecImpl<Cons<A, Cons<B, Cons<C, Cons<D, Cons<E, Cons<F, Cons<G, Cons<H, Cons<I, Cons<J, Cons<K, Cons<L, Nil>>>>>>>>>>>>> for (A, B, C, D, E, F, G, H, I, J, K, L) {
    open spec fn obeys_from_spec() -> bool {
        true
    }

    open spec fn from_spec(value: Cons<A, Cons<B, Cons<C, Cons<D, Cons<E, Cons<F, Cons<G, Cons<H, Cons<I, Cons<J, Cons<K, Cons<L, Nil>>>>>>>>>>>>) -> Self {
        (value.0, value.1.0, value.1.1.0, value.1.1.1.0, value.1.1.1.1.0, value.1.1.1.1.1.0, value.1.1.1.1.1.1.0, value.1.1.1.1.1.1.1.0, value.1.1.1.1.1.1.1.1.0, value.1.1.1.1.1.1.1.1.1.0, value.1.1.1.1.1.1.1.1.1.1.0, value.1.1.1.1.1.1.1.1.1.1.1.0)
    }
}

impl<A, B, C, D, E, F, G, H, I, J, K, L> IntoTuple for Cons<A, Cons<B, Cons<C, Cons<D, Cons<E, Cons<F, Cons<G, Cons<H, Cons<I, Cons<J, Cons<K, Cons<L, Nil>>>>>>>>>>>> {
    type Output = (A, B, C, D, E, F, G, H, I, J, K, L);

    open spec fn spec_into_tuple(self) -> (A, B, C, D, E, F, G, H, I, J, K, L) {
        (self.0, self.1.0, self.1.1.0, self.1.1.1.0, self.1.1.1.1.0, self.1.1.1.1.1.0, self.1.1.1.1.1.1.0, self.1.1.1.1.1.1.1.0, self.1.1.1.1.1.1.1.1.0, self.1.1.1.1.1.1.1.1.1.0, self.1.1.1.1.1.1.1.1.1.1.0, self.1.1.1.1.1.1.1.1.1.1.1.0)
    }

    fn into_tuple(self) -> (out: (A, B, C, D, E, F, G, H, I, J, K, L)) {
        From::from(self)
    }
}

impl<A, B, C, D, E, F, G, H, I, J, K, L> IntoTuple for (A, B, C, D, E, F, G, H, I, J, K, L) {
    type Output = Self;

    open spec fn spec_into_tuple(self) -> Self {
        self
    }

    fn into_tuple(self) -> (out: Self) {
        self
    }
}

impl<A, B, C, D, E, F, G, H, I, J, K, L> IntoHList for (A, B, C, D, E, F, G, H, I, J, K, L) {
    type Output = Cons<A, Cons<B, Cons<C, Cons<D, Cons<E, Cons<F, Cons<G, Cons<H, Cons<I, Cons<J, Cons<K, Cons<L, Nil>>>>>>>>>>>>;

    open spec fn spec_into_hlist(self) -> Cons<A, Cons<B, Cons<C, Cons<D, Cons<E, Cons<F, Cons<G, Cons<H, Cons<I, Cons<J, Cons<K, Cons<L, Nil>>>>>>>>>>>> {
        Cons(self.0, Cons(self.1, Cons(self.2, Cons(self.3, Cons(self.4, Cons(self.5, Cons(self.6, Cons(self.7, Cons(self.8, Cons(self.9, Cons(self.10, Cons(self.11, Nil))))))))))))
    }

    fn into_hlist(self) -> (out: Cons<A, Cons<B, Cons<C, Cons<D, Cons<E, Cons<F, Cons<G, Cons<H, Cons<I, Cons<J, Cons<K, Cons<L, Nil>>>>>>>>>>>>) {
        From::from(self)
    }
}

impl<A, B, C, D, E, F, G, H, I, J, K, L> TupleBridge for (A, B, C, D, E, F, G, H, I, J, K, L) {
    proof fn lemma_round_trip(self) {
    }

    proof fn lemma_round_trip_back(list: Cons<A, Cons<B, Cons<C, Cons<D, Cons<E, Cons<F, Cons<G, Cons<H, Cons<I, Cons<J, Cons<K, Cons<L, Nil>>>>>>>>>>>>) {
        assert(list.1.1.1.1.1.1.1.1.1.1.1.1 == Nil);
    }
}
} // verus!
