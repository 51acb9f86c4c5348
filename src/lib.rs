use vstd::prelude::*;

pub mod codec;
pub mod option3_box;

verus! {

/// A value that is either missing, explicitly null, or present.
///
/// The three states are distinct: a missing field ("leave it unchanged")
/// is not the same as an explicit null ("clear it").
#[derive(Copy, Clone, PartialEq, Eq, PartialOrd, Ord, Debug, Hash)]
pub enum Option3<T> {
    /// The value was not provided.
    Absent,
    /// The value was provided and explicitly marked as null.
    Null,
    /// The value was provided and holds a payload.
    Present(T),
}

impl<T> Option3<T> {
    /// Returns the payload; the value must be present.
    pub fn unwrap(self) -> (r: T)
        requires
            self is Present,
        ensures
            r == self->0,
    {
        self.to_option().expect("called `Option3::unwrap()` on an `Absent` or `Null` value")
    }

    /// Returns the payload when present, and `default` otherwise.
    pub fn unwrap_or(self, default: T) -> (r: T)
        ensures
            self is Present ==> r == self->0,
            self !is Present ==> r == default,
    {
        match self {
            Option3::Present(x) => x,
            _ => default,
        }
    }

    /// Returns `true` when the value is present.
    pub fn is_some(&self) -> (r: bool)
        ensures
            r == (*self is Present),
    {
        matches!(*self, Option3::Present(_))
    }

    /// Returns `true` when the value is absent.
    pub fn is_none(&self) -> (r: bool)
        ensures
            r == (*self is Absent),
    {
        matches!(*self, Option3::Absent)
    }

    /// Returns `true` when the value is an explicit null.
    pub fn is_null(&self) -> (r: bool)
        ensures
            r == (*self is Null),
    {
        matches!(*self, Option3::Null)
    }

    /// Borrows the payload, keeping the state.
    pub fn as_ref(&self) -> (r: Option3<&T>)
        ensures
            r is Absent <==> *self is Absent,
            r is Null <==> *self is Null,
            r is Present <==> *self is Present,
            *self is Present ==> *r->0 == self->0,
    {
        match self {
            Option3::Present(x) => Option3::Present(x),
            Option3::Absent => Option3::Absent,
            Option3::Null => Option3::Null,
        }
    }

    /// Applies `f` to a present payload; the other two states pass through.
    pub fn map<U, F: FnOnce(T) -> U>(self, f: F) -> (r: Option3<U>)
        requires
            self is Present ==> f.requires((self->0,)),
        ensures
            self is Absent ==> r is Absent,
            self is Null ==> r is Null,
            self is Present ==> r is Present && f.ensures((self->0,), r->0),
    {
        match self {
            Option3::Present(x) => Option3::Present(f(x)),
            Option3::Absent => Option3::Absent,
            Option3::Null => Option3::Null,
        }
    }

    /// Returns the payload; the value must be present. Unverified callers
    /// that break this get a panic carrying `msg`.
    pub fn expect(self, msg: &str) -> (r: T)
        requires
            self is Present,
        ensures
            r == self->0,
    {
        self.to_option().expect(msg)
    }

    /// Keeps a present payload that satisfies `predicate`; everything else,
    /// an explicit null included, becomes `Absent`.
    pub fn filter<P: FnOnce(&T) -> bool>(self, predicate: P) -> (r: Option3<T>)
        requires
            self is Present ==> predicate.requires((&self->0,)),
        ensures
            r !is Null,
            self !is Present ==> r is Absent,
            self is Present && r is Present ==> r->0 == self->0 && predicate.ensures(
                (&self->0,),
                true,
            ),
            self is Present && r is Absent ==> predicate.ensures((&self->0,), false),
    {
        if let Option3::Present(x) = self {
            if predicate(&x) {
                return Option3::Present(x);
            }
        }
        Option3::Absent
    }

    /// Projects onto `Option`: `Absent` and `Null` both become `None`.
    pub fn to_option(self) -> (r: Option<T>)
        ensures
            self is Present ==> r == Some(self->0),
            self !is Present ==> r is None,
    {
        match self {
            Option3::Present(x) => Some(x),
            _ => None,
        }
    }

    /// Projects onto `Result`: `Absent` and `Null` both become `Err(err)`.
    pub fn ok_or<E>(self, err: E) -> (r: Result<T, E>)
        ensures
            self is Present ==> r == Ok::<T, E>(self->0),
            self !is Present ==> r == Err::<T, E>(err),
    {
        match self {
            Option3::Present(v) => Ok(v),
            _ => Err(err),
        }
    }
}

impl<'a, T: Clone> Option3<&'a T> {
    /// Clones a borrowed payload, keeping the state.
    pub fn cloned(self) -> (r: Option3<T>)
        ensures
            r is Absent <==> self is Absent,
            r is Null <==> self is Null,
            r is Present <==> self is Present,
            self is Present ==> cloned::<T>(*self->0, r->0),
    {
        self.map(|t: &T| -> (c: T)
            ensures
                cloned::<T>(*t, c),
            { t.clone() })
    }
}

impl<'a, T: Clone> Option3<&'a mut T> {
    /// Clones a mutably borrowed payload, keeping the state.
    pub fn cloned(self) -> (r: Option3<T>)
        ensures
            r is Absent <==> self is Absent,
            r is Null <==> self is Null,
            r is Present <==> self is Present,
            self is Present ==> cloned::<T>(*self->0, r->0),
    {
        self.map(|t: &mut T| -> (c: T)
            ensures
                cloned::<T>(*old(t), c),
            { t.clone() })
    }
}

impl<T> Option3<Option3<T>> {
    /// Removes one level of nesting. An outer `Present` gives way to the
    /// inner value; an outer `Absent` or `Null` wins over anything inside.
    pub fn flatten(self) -> (r: Option3<T>)
        ensures
            self is Present ==> r == self->0,
            self is Absent ==> r is Absent,
            self is Null ==> r is Null,
    {
        match self {
            Option3::Present(Option3::Present(x)) => Option3::Present(x),
            Option3::Present(r) => r,
            Option3::Absent => Option3::Absent,
            Option3::Null => Option3::Null,
        }
    }
}

impl<T> Default for Option3<T> {
    /// A missing value is `Absent`.
    fn default() -> (r: Self)
        ensures
            r is Absent,
    {
        Option3::Absent
    }
}

/// The state that an `Option` becomes: `Some(x)` is present, `None` absent.
pub open spec fn option3_of<T>(o: Option<T>) -> Option3<T> {
    match o {
        Some(x) => Option3::Present(x),
        None => Option3::Absent,
    }
}

impl<T> From<Option<T>> for Option3<T> {
    fn from(t: Option<T>) -> (r: Self) {
        match t {
            Some(thing) => Option3::Present(thing),
            None => Option3::Absent,
        }
    }
}

impl<T> vstd::std_specs::convert::FromSpecImpl<Option<T>> for Option3<T> {
    open spec fn obeys_from_spec() -> bool {
        true
    }

    open spec fn from_spec(v: Option<T>) -> Option3<T> {
        option3_of(v)
    }
}

/// Every value is in exactly one of the three states that `is_some`,
/// `is_none` and `is_null` report.
pub proof fn lemma_exactly_one_state<T>(o: Option3<T>)
    ensures
        o is Present || o is Absent || o is Null,
        !(o is Present && o is Absent),
        !(o is Present && o is Null),
        !(o is Absent && o is Null),
{
}

} // verus!
