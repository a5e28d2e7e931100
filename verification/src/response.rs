//! The greeting and the record that carries it.

use vstd::prelude::*;
use vstd::string::StringExecFns;

verus! {

/// The text that greets `name`: a fixed opening, the name as it is, and an
/// exclamation mark.
pub open spec fn greeting(name: Seq<char>) -> Seq<char> {
    "Hello, "@ + name + "!"@
}

/// The body of a successful answer: one field, the greeting.
#[derive(Debug, PartialEq, Eq)]
pub struct HelloWorldResponse {
    pub message: String,
}

impl View for HelloWorldResponse {
    type V = Seq<char>;

    /// A response is its message.
    open spec fn view(&self) -> Seq<char> {
        self.message@
    }
}

impl HelloWorldResponse {
    /// Greets `name`. Every string is taken, and none is altered: quoting for
    /// the wire is left to whoever serialises the record.
    pub fn greet(name: &str) -> (response: HelloWorldResponse)
        ensures
            response@ == greeting(name@),
    {
        let mut message = String::from_str("Hello, ");
        message.append(name);
        message.append("!");
        HelloWorldResponse { message }
    }
}

/// The same name is always greeted with the same message: two responses that
/// greet one name read alike.
pub proof fn lemma_greeting_deterministic(
    first: HelloWorldResponse,
    second: HelloWorldResponse,
    name: Seq<char>,
)
    requires
        first@ == greeting(name),
        second@ == greeting(name),
    ensures
        first@ == second@,
        first.message@ == "Hello, "@ + name + "!"@,
{
}

/// A greeting holds the name as it was given: after the seven characters of
/// the opening comes the name, character for character, and after the name
/// the exclamation mark and nothing more.
pub proof fn lemma_greeting_carries_name(name: Seq<char>)
    ensures
        greeting(name).len() == name.len() + 8,
        greeting(name).subrange(0, 7) == "Hello, "@,
        greeting(name).subrange(7, 7 + name.len() as int) == name,
        greeting(name)[7 + name.len() as int] == '!',
{
    reveal_strlit("Hello, ");
    reveal_strlit("!");
    assert(greeting(name).subrange(0, 7) =~= "Hello, "@);
    assert(greeting(name).subrange(7, 7 + name.len() as int) =~= name);
}

/// Names that differ are greeted differently.
pub proof fn lemma_greeting_injective(first: Seq<char>, second: Seq<char>)
    requires
        greeting(first) == greeting(second),
    ensures
        first == second,
{
    lemma_greeting_carries_name(first);
    lemma_greeting_carries_name(second);
}

} // verus!
