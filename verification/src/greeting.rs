//! The greeting text and the functions that compose it.

use crate::trim::{trim, trimmed};
use vstd::prelude::*;

verus! {

/// The greeting for `name`: the words `Hello, `, the name, and an exclamation mark.
pub open spec fn greeting_text(name: Seq<char>) -> Seq<char> {
    "Hello, "@ + name + "!"@
}

/// The greeting for `name` that also says where it comes from: `Hello, `, the
/// name, ` from `, the origin, and an exclamation mark.
pub open spec fn greeting_text_from(name: Seq<char>, origin: Seq<char>) -> Seq<char> {
    "Hello, "@ + name + " from "@ + origin + "!"@
}

/// Composes the greeting for `name`.
pub fn greet(name: &str) -> (text: String)
    ensures
        text@ == greeting_text(name@),
{
    let mut text = String::from_str("Hello, ");
    text.append(name);
    text.append("!");
    text
}

/// Composes the greeting for `name` that names `origin` as its sender.
pub fn greet_from(name: &str, origin: &str) -> (text: String)
    ensures
        text@ == greeting_text_from(name@, origin@),
{
    let mut text = String::from_str("Hello, ");
    text.append(name);
    text.append(" from ");
    text.append(origin);
    text.append("!");
    text
}

/// Composes one greeting for each of `names`, in their order.
pub fn greet_all(names: &[&str]) -> (texts: Vec<String>)
    ensures
        texts@.len() == names@.len(),
        forall|i: int|
            0 <= i < names@.len() ==> (#[trigger] texts@[i])@ == greeting_text(names@[i]@),
{
    let mut texts: Vec<String> = Vec::new();
    let mut done: usize = 0;
    while done < names.len()
        invariant
            done <= names@.len(),
            texts@.len() == done,
            forall|i: int|
                0 <= i < done ==> (#[trigger] texts@[i])@ == greeting_text(names@[i]@),
        decreases names@.len() - done,
    {
        texts.push(greet(names[done]));
        done += 1;
    }
    texts
}

/// Someone who greets one fixed name.
pub struct Greeter {
    name: String,
}

impl View for Greeter {
    type V = Seq<char>;

    /// The name that this greeter greets.
    closed spec fn view(&self) -> Seq<char> {
        self.name@
    }
}

impl Greeter {
    /// A greeter for `name`.
    pub fn new(name: &str) -> (greeter: Greeter)
        ensures
            greeter@ == name@,
    {
        Greeter { name: name.to_string() }
    }

    /// Composes the greeting for this greeter's name.
    pub fn greet(&self) -> (text: String)
        ensures
            text@ == greeting_text(self@),
    {
        self::greet(self.name.as_str())
    }
}

/// Composes the greeting for the name that `input` holds between the white space
/// around it, as for a name read from a line of input.
pub fn greet_trimmed(input: &str) -> (text: String)
    ensures
        text@ == greeting_text(trimmed(input@)),
{
    greet(trim(input))
}

/// The text that the worker of the thread demonstration sends to its consumer.
pub fn thread_message() -> (message: &'static str)
    ensures
        message@ == "Hello from thread!"@,
{
    "Hello from thread!"
}

} // verus!
