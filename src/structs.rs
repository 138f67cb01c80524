use vstd::prelude::*;

verus! {

/// A user with a name and an age.
#[derive(Debug)]
pub struct User {
    pub name: String,
    pub age: usize,
}

/// The address formed from the user's name and the `@gmail.com` domain.
pub fn email(user: &User) -> (r: String)
    ensures
        r@ == user.name@ + "@gmail.com"@,
{
    let mut x = user.name.clone();
    x.append("@gmail.com");
    x
}

impl User {
    /// The address formed from the user's name, the `+method` tag and the `@gmail.com` domain.
    pub fn email_method(&self) -> (r: String)
        ensures
            r@ == self.name@ + "+method@gmail.com"@,
    {
        let mut x: String = self.name.clone();
        x.append("+method@gmail.com");
        x
    }

    /// A user with the given name and age.
    pub fn new_user(name: String, age: usize) -> (r: Self)
        ensures
            r.name == name,
            r.age == age,
    {
        User { name, age }
    }
}

} // verus!
