//! A trait whose implementation is the kind of code that a derive would
//! write: the same for every type but for the type's name.

use vstd::prelude::*;
use vstd::string::StringExecFns;

verus! {

/// A type that can greet.
pub trait HelloWorld {
    /// The greeting of the implementing type, for whoever prints it.
    fn hello_world() -> String;
}

/// A type with nothing in it, to hang an implementation on.
#[derive(Clone, Copy, Debug)]
pub struct MyStruct;

impl HelloWorld for MyStruct {
    fn hello_world() -> (greeting: String)
        ensures
            greeting@ == "Hello, World! from MANUAL implementation for MyStruct (derive concept)"@,
    {
        String::from_str("Hello, World! from MANUAL implementation for MyStruct (derive concept)")
    }
}

} // verus!
