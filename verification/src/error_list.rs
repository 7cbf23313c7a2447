use vstd::prelude::*;
use vstd::std_specs::convert::FromSpecImpl;
use crate::diagnostic::Diagnostic;
use crate::span::SourceSpan;
use crate::taxonomy::TypeError;

verus! {

/// One error on the heap, as a typing pass hands it on.
#[derive(Clone, Debug, PartialEq, Eq)]
pub struct Error {
    pub inner: Box<TypeError>,
}

impl View for Error {
    type V = TypeError;

    open spec fn view(&self) -> TypeError {
        *self.inner
    }
}

impl From<TypeError> for Error {
    fn from(err: TypeError) -> (boxed: Error) {
        Error { inner: Box::new(err) }
    }
}

impl FromSpecImpl<TypeError> for Error {
    open spec fn obeys_from_spec() -> bool {
        true
    }

    open spec fn from_spec(err: TypeError) -> Error {
        Error { inner: Box::new(err) }
    }
}

impl Error {
    /// The byte offset the error is ordered by.
    pub fn offset(&self) -> (offset: usize)
        ensures
            offset == self@@.offset(),
    {
        self.inner.offset()
    }

    /// The span the error is anchored to.
    pub fn span(&self) -> (span: &SourceSpan)
        ensures
            *span == self@@.span(),
    {
        self.inner.span()
    }

    /// The diagnostic of the error.
    pub fn build_report(&self) -> (d: Diagnostic)
        ensures
            self@@.is_report(d@),
    {
        self.inner.build_report()
    }
}

/// The errors of one typing pass, in the order they were found. Nothing
/// is ever removed from the list or merged in it.
#[derive(Clone, Debug, PartialEq, Eq)]
pub struct Errors {
    pub items: Vec<Error>,
}

/// The errors that `items` hold, in their order.
pub open spec fn unboxed(items: Seq<Error>) -> Seq<TypeError> {
    Seq::new(items.len(), |i: int| items[i]@)
}

impl View for Errors {
    type V = Seq<TypeError>;

    open spec fn view(&self) -> Seq<TypeError> {
        unboxed(self.items@)
    }
}

impl From<TypeError> for Errors {
    fn from(err: TypeError) -> (list: Errors)
        ensures
            list@ == seq![err],
    {
        let list = Errors { items: vec![Error::from(err)] };
        assert(list@ =~= seq![err]);
        list
    }
}

/// A list has no value in specifications but through its view, so the
/// conversion is stated by the contract of `from` itself.
impl FromSpecImpl<TypeError> for Errors {
    open spec fn obeys_from_spec() -> bool {
        false
    }

    open spec fn from_spec(err: TypeError) -> Errors {
        arbitrary()
    }
}

impl<T> From<TypeError> for Result<T, Errors> {
    fn from(err: TypeError) -> (failed: Result<T, Errors>)
        ensures
            failed is Err,
            failed->Err_0@ == seq![err],
    {
        Err(Errors::from(err))
    }
}

/// As for the list: the failed result is stated by the contract of `from`.
impl<T> FromSpecImpl<TypeError> for Result<T, Errors> {
    open spec fn obeys_from_spec() -> bool {
        false
    }

    open spec fn from_spec(err: TypeError) -> Result<T, Errors> {
        arbitrary()
    }
}

impl Errors {
    /// The list without errors.
    pub fn new() -> (list: Errors)
        ensures
            list@ == Seq::<TypeError>::empty(),
    {
        let list = Errors { items: Vec::new() };
        assert(list@ =~= Seq::<TypeError>::empty());
        list
    }

    /// How many errors the list holds.
    pub fn len(&self) -> (n: usize)
        ensures
            n == self@.len(),
    {
        self.items.len()
    }

    /// The error found as number `i`, counted from zero.
    pub fn get(&self, i: usize) -> (err: Option<&Error>)
        ensures
            i < self@.len() ==> err.is_some() && err.unwrap()@ == self@[i as int],
            i >= self@.len() ==> err.is_none(),
    {
        if i < self.items.len() {
            Some(&self.items[i])
        } else {
            None
        }
    }

    /// Puts `err` behind the errors found so far.
    pub fn push(&mut self, err: Error)
        ensures
            final(self)@ == old(self)@.push(err@),
    {
        self.items.push(err);
        assert(self@ =~= old(self)@.push(err@));
    }

    /// Puts the errors of `other` behind those of the list, in their order.
    pub fn append(&mut self, other: Errors)
        ensures
            final(self)@ == old(self)@ + other@,
    {
        let mut rest = other.items;
        self.items.append(&mut rest);
        assert(self@ =~= old(self)@ + other@);
    }
}

} // verus!
