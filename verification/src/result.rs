use vstd::prelude::*;

verus! {

/// A type indicating a failure to convert to `Refined`.
///
/// It keeps the value that was refused, so the caller gets it back, and a
/// message that says why it was refused.
#[derive(Debug)]
pub struct Error<T> {
    value: T,
    message: String,
}

impl<T> Error<T> {
    /// The value that was refused.
    pub closed spec fn value(&self) -> T {
        self.value
    }

    /// The message, as the characters it displays.
    pub closed spec fn message(&self) -> Seq<char> {
        self.message@
    }

    /// Builds an error that holds `value` and displays `message`.
    pub fn new(value: T, message: String) -> (err: Self)
        ensures
            err.value() == value,
            err.message() == message@,
    {
        Self { value, message }
    }

    /// Gives back the value that was refused.
    pub fn into_value(self) -> (value: T)
        ensures
            value == self.value(),
    {
        self.value
    }

    /// The text this error displays: its message, unchanged.
    pub fn to_string(&self) -> (text: String)
        ensures
            text@ == self.message(),
    {
        self.message.clone()
    }
}

/// What `into_value` gives back of an error is the value that `new` was given.
pub proof fn lemma_into_value_of_new<T>(value: T, message: String, err: Error<T>, back: T)
    requires
        call_ensures(Error::<T>::new, (value, message), err),
        call_ensures(Error::<T>::into_value, (err,), back),
    ensures
        back == value,
{
}

/// The text an error displays is the message that `new` was given.
pub proof fn lemma_to_string_of_new<T>(value: T, message: String, err: Error<T>, text: String)
    requires
        call_ensures(Error::<T>::new, (value, message), err),
        call_ensures(Error::<T>::to_string, (&err,), text),
    ensures
        text@ == message@,
{
}

} // verus!
