//! A fixed-length column of `i64` values kept in an `nalgebra::DVector`.
use crate::decimal::{decimal, push_decimal};
use nalgebra::DVector;
use vstd::prelude::*;

verus! {

/// A dense column vector of `i64` values whose length is fixed when it is made.
///
/// The values live in an `nalgebra::DVector`; the type is opaque to proofs,
/// which see it through its view, the sequence of its elements.
#[verifier::external_body]
pub struct Array {
    data: DVector<i64>,
}

/// The elements held by an array, from the first row to the last.
pub uninterp spec fn array_elems(a: Array) -> Seq<i64>;

/// How `nalgebra` displays a column vector that holds the given elements.
pub uninterp spec fn column_text(elems: Seq<i64>) -> Seq<char>;

impl View for Array {
    type V = Seq<i64>;

    open spec fn view(&self) -> Seq<i64> {
        array_elems(*self)
    }
}

/// Relies on `DVector::zeros`: `n` rows, each holding zero.
#[verifier::external_body]
fn dvector_zeros(n: usize) -> (r: Array)
    ensures
        array_elems(r) == Seq::new(n as nat, |i: int| 0i64),
{
    Array { data: DVector::zeros(n) }
}

/// Relies on `DVector::from_element`: `n` rows, each holding `x`.
#[verifier::external_body]
fn dvector_from_element(n: usize, x: i64) -> (r: Array)
    ensures
        array_elems(r) == Seq::new(n as nat, |i: int| x),
{
    Array { data: DVector::from_element(n, x) }
}

/// Relies on `DVector::from_vec`: one row per element of `v`, in order.
#[verifier::external_body]
fn dvector_from_vec(v: Vec<i64>) -> (r: Array)
    ensures
        array_elems(r) == v@,
{
    Array { data: DVector::from_vec(v) }
}

/// Relies on `Matrix::as_slice`: the entries column by column, which for a
/// single column is the rows in order.
#[verifier::external_body]
fn dvector_as_slice(a: &Array) -> (r: &[i64])
    ensures
        r@ == array_elems(*a),
{
    a.data.as_slice()
}

/// Relies on `IndexMut<usize>` for `Matrix`: writes the entry at `i`.
#[verifier::external_body]
fn dvector_set(a: &mut Array, i: usize, x: i64)
    requires
        i < array_elems(*old(a)).len(),
    ensures
        array_elems(*final(a)) == array_elems(*old(a)).update(i as int, x),
{
    a.data[i] = x;
}

/// Relies on the `Display` impl of `Matrix`.
#[verifier::external_body]
fn dvector_text(a: &Array) -> (r: String)
    ensures
        r@ == column_text(array_elems(*a)),
{
    a.data.to_string()
}

/// Relies on the `Clone` impl of `Matrix`: the copy holds the same entries.
#[verifier::external_body]
fn dvector_clone(a: &Array) -> (r: Array)
    ensures
        array_elems(r) == array_elems(*a),
{
    Array { data: a.data.clone() }
}

/// The heading that the text of an array begins with.
pub open spec fn length_heading() -> Seq<char> {
    "Vector with length: "@
}

/// The text of an array with the given elements: its length, then the column.
pub open spec fn array_text(elems: Seq<i64>) -> Seq<char> {
    length_heading() + decimal(elems.len()) + "\n "@ + column_text(elems)
}

/// Round trip: reading back, in order, every element of an array made from
/// a sequence gives that sequence exactly, for every length including zero.
pub proof fn lemma_read_back(s: Seq<i64>, a: Array)
    requires
        a@ == s,
    ensures
        a@.len() == s.len(),
        Seq::new(a@.len(), |i: int| a@[i]) == s,
{
    assert(Seq::new(a@.len(), |i: int| a@[i]) =~= s);
}

impl Array {
    /// An array of `n` zeros.
    pub fn zeros(n: usize) -> (r: Array)
        ensures
            r@ == Seq::new(n as nat, |i: int| 0i64),
    {
        dvector_zeros(n)
    }

    /// An array of `n` ones.
    pub fn ones(n: usize) -> (r: Array)
        ensures
            r@ == Seq::new(n as nat, |i: int| 1i64),
    {
        dvector_from_element(n, 1)
    }

    /// An array that takes over the elements of `v`, in order.
    pub fn from_vec(v: Vec<i64>) -> (r: Array)
        ensures
            r@ == v@,
    {
        dvector_from_vec(v)
    }

    /// An array holding a copy of the elements of `s`, in order.
    pub fn from_slice(s: &[i64]) -> (r: Array)
        ensures
            r@ == s@,
    {
        let mut v: Vec<i64> = Vec::with_capacity(s.len());
        let mut i: usize = 0;
        while i < s.len()
            invariant
                i <= s@.len(),
                v@ == s@.subrange(0, i as int),
            decreases s@.len() - i,
        {
            v.push(s[i]);
            i = i + 1;
            assert(v@ =~= s@.subrange(0, i as int));
        }
        assert(v@ =~= s@);
        dvector_from_vec(v)
    }

    /// An array holding the elements of `a`, in order.
    pub fn from_array<const N: usize>(a: [i64; N]) -> (r: Array)
        ensures
            r@ == a@,
    {
        Array::from_slice(a.as_slice())
    }

    /// The number of elements.
    pub fn len(&self) -> (r: usize)
        ensures
            r == self@.len(),
    {
        dvector_as_slice(self).len()
    }

    /// Whether the array holds no element.
    pub fn is_empty(&self) -> (r: bool)
        ensures
            r == (self@.len() == 0),
    {
        dvector_as_slice(self).len() == 0
    }

    /// The element at `i`.
    pub fn get(&self, i: usize) -> (r: i64)
        requires
            i < self@.len(),
        ensures
            r == self@[i as int],
    {
        dvector_as_slice(self)[i]
    }

    /// Replaces the element at `i` with `x`; the length stays the same.
    pub fn set(&mut self, i: usize, x: i64)
        requires
            i < old(self)@.len(),
        ensures
            final(self)@ == old(self)@.update(i as int, x),
    {
        dvector_set(self, i, x)
    }

    /// The elements, in order.
    pub fn as_slice(&self) -> (r: &[i64])
        ensures
            r@ == self@,
    {
        dvector_as_slice(self)
    }

    /// A copy of the elements, in order.
    pub fn to_vec(&self) -> (r: Vec<i64>)
        ensures
            r@ == self@,
    {
        let s = dvector_as_slice(self);
        let mut v: Vec<i64> = Vec::with_capacity(s.len());
        let mut i: usize = 0;
        while i < s.len()
            invariant
                i <= s@.len(),
                s@ == self@,
                v@ == s@.subrange(0, i as int),
            decreases s@.len() - i,
        {
            v.push(s[i]);
            i = i + 1;
            assert(v@ =~= s@.subrange(0, i as int));
        }
        assert(v@ =~= s@);
        v
    }

    /// The text of the array: "Vector with length: ", its length in decimal,
    /// a line break and a space, then the column as `nalgebra` displays it.
    pub fn to_string(&self) -> (r: String)
        ensures
            r@ == array_text(self@),
    {
        let column = dvector_text(self);
        compose_text(self.len(), column.as_str())
    }
}

/// The text of an array of length `len` whose column displays as `column`.
pub fn compose_text(len: usize, column: &str) -> (r: String)
    ensures
        r@ == length_heading() + decimal(len as nat) + "\n "@ + column@,
{
    let mut r = String::from_str("Vector with length: ");
    push_decimal(&mut r, len);
    r.append("\n ");
    r.append(column);
    r
}

impl From<Vec<i64>> for Array {
    fn from(v: Vec<i64>) -> (r: Array)
        ensures
            r@ == v@,
    {
        Array::from_vec(v)
    }
}

// Two arrays with the same elements need not be the same value to a proof,
// so each `from` states its result through the view, in its own `ensures`.
impl vstd::std_specs::convert::FromSpecImpl<Vec<i64>> for Array {
    open spec fn obeys_from_spec() -> bool {
        false
    }

    open spec fn from_spec(v: Vec<i64>) -> Array {
        choose|a: Array| a@ == v@
    }
}

impl<'a> From<&'a [i64]> for Array {
    fn from(s: &'a [i64]) -> (r: Array)
        ensures
            r@ == s@,
    {
        Array::from_slice(s)
    }
}

impl<'a> vstd::std_specs::convert::FromSpecImpl<&'a [i64]> for Array {
    open spec fn obeys_from_spec() -> bool {
        false
    }

    open spec fn from_spec(s: &'a [i64]) -> Array {
        choose|a: Array| a@ == s@
    }
}

impl<const N: usize> From<[i64; N]> for Array {
    fn from(a: [i64; N]) -> (r: Array)
        ensures
            r@ == a@,
    {
        Array::from_array(a)
    }
}

impl<const N: usize> vstd::std_specs::convert::FromSpecImpl<[i64; N]> for Array {
    open spec fn obeys_from_spec() -> bool {
        false
    }

    open spec fn from_spec(a: [i64; N]) -> Array {
        choose|r: Array| r@ == a@
    }
}

impl Clone for Array {
    fn clone(&self) -> (r: Array)
        ensures
            r@ == self@,
    {
        dvector_clone(self)
    }
}

} // verus!
