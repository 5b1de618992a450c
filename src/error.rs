use vstd::prelude::*;

verus! {

/// The one error of the library: a description of what could not be read.
#[derive(Debug)]
pub struct CustomError {
    message: String,
}

impl View for CustomError {
    type V = Seq<char>;

    closed spec fn view(&self) -> Seq<char> {
        self.message@
    }
}

impl CustomError {
    pub fn new(message: &str) -> (r: Self)
        ensures
            r@ == message@,
    {
        CustomError { message: message.to_owned() }
    }

    /// The description that the error was made with.
    pub fn message(&self) -> (r: &str)
        ensures
            r@ == self@,
    {
        self.message.as_str()
    }
}

} // verus!
