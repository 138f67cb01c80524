use vstd::prelude::*;

verus! {

/// Does nothing; present so that callers can reach a function two modules deep.
pub fn dummy_func() {
}

/// A small record with one public and one private field.
#[derive(Debug)]
pub struct DummyStruct {
    pub pubint: i32,
    privstr: String,
}

impl View for DummyStruct {
    /// The public number and the private text.
    type V = (i32, Seq<char>);

    closed spec fn view(&self) -> (i32, Seq<char>) {
        (self.pubint, self.privstr@)
    }
}

impl DummyStruct {

    /// A record holding `1` and the text `"new"`.
    pub fn new() -> (r: Self)
        ensures
            r@ == (1i32, "new"@),
    {
        DummyStruct { pubint: 1, privstr: String::from_str("new") }
    }
}

} // verus!
