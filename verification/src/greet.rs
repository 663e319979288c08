//! A greeting page.

use vstd::prelude::*;

verus! {

pub struct HelloTemplate {
    pub name: String,
}

/// The greeting for `name`.
pub fn greet_template(name: String) -> (t: HelloTemplate)
    ensures
        t.name == name,
{
    HelloTemplate { name }
}

} // verus!
