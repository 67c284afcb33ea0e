//! Sample declarations, one of each documentable kind, that editor
//! integrations run their symbol queries on.

use vstd::prelude::*;
use vstd::string::StringExecFns;

verus! {

/// A user account.
#[derive(Debug, Clone)]
pub struct User {
    pub name: String,
    pub first_name: String,
    pub last_name: String,
    pub email: String,
}

/// A function whose body declares a local variable.
#[allow(unused_variables)]
pub fn nested_var() {
    let y: i32 = 4;
}

/// A function with an empty body.
pub fn greet() {
}

/// The name under which a user is shown: first name, a space, last name.
pub fn get_display_name(u: &User) -> (name: String)
    ensures
        name@ == u.first_name@ + " "@ + u.last_name@,
{
    let mut name = String::new();
    name.append(u.first_name.as_str());
    name.append(" ");
    name.append(u.last_name.as_str());
    assert(name@ =~= u.first_name@ + " "@ + u.last_name@);
    name
}

} // verus!
