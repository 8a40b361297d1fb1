//! The names that follow from the name of a model, of a service or of a
//! method: a table is named by the snake case of its model, a method by
//! the camel case of its function.
//!
//! Where a word begins and ends is decided by the `heck` crate, on the
//! segmentation of Unicode text. The crate names the two results and
//! reasons about the names alone.

use vstd::prelude::*;

verus! {

/// The snake case of a text, as `heck` computes it: the words of the text
/// in lower case, with `_` between each two.
pub uninterp spec fn snake_case(s: Seq<char>) -> Seq<char>;

/// The camel case of a text, as `heck` computes it: the words of the text,
/// each with a capital first letter, with nothing between them.
pub uninterp spec fn camel_case(s: Seq<char>) -> Seq<char>;

/// `heck::SnakeCase::to_snake_case` on a `str`. It returns a new string that
/// depends on the characters of its argument alone, and does not panic; the
/// contract gives that string its name and claims nothing else of it.
#[verifier::external_body]
fn to_snake_case(s: &str) -> (r: String)
    ensures
        r@ == snake_case(s@),
{
    heck::SnakeCase::to_snake_case(s)
}

/// `heck::CamelCase::to_camel_case` on a `str`. It returns a new string that
/// depends on the characters of its argument alone, and does not panic; the
/// contract gives that string its name and claims nothing else of it.
#[verifier::external_body]
fn to_camel_case(s: &str) -> (r: String)
    ensures
        r@ == camel_case(s@),
{
    heck::CamelCase::to_camel_case(s)
}

/// The name of the table of a model: the snake case of the name of the
/// model.
pub fn table_name(model: &str) -> (name: String)
    ensures
        name@ == snake_case(model@),
{
    to_snake_case(model)
}

/// The name of the module that holds the server of a service, from the
/// snake case of the name of the service: `_server` follows it.
pub fn server_module_of(snake: &str) -> (name: String)
    ensures
        name@ == snake@ + "_server"@,
{
    let mut name = String::new();
    name.append(snake);
    name.append("_server");
    assert(name@ =~= snake@ + "_server"@);
    name
}

/// The name of the module that holds the server of a service: the snake
/// case of the name of the service, and `_server`.
pub fn server_module(service: &str) -> (name: String)
    ensures
        name@ == snake_case(service@) + "_server"@,
{
    let snake = to_snake_case(service);
    server_module_of(snake.as_str())
}

/// The name of the function behind a method: the snake case of the name of
/// the method.
pub fn method_function(method: &str) -> (name: String)
    ensures
        name@ == snake_case(method@),
{
    to_snake_case(method)
}

/// The name of the method of a function: the camel case of the name of the
/// function.
pub fn method_name(function: &str) -> (name: String)
    ensures
        name@ == camel_case(function@),
{
    to_camel_case(function)
}

} // verus!
