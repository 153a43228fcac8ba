//! The greeting command.

use vstd::prelude::*;
use vstd::string::StringExecFns;

verus! {

/// The text that greets `name`: a fixed opening, the name as given, and a
/// fixed close.
pub open spec fn greeting(name: Seq<char>) -> Seq<char> {
    "Hello, "@ + name + "! You've been greeted from Rust!"@
}

/// Greets `name`. Every name is accepted and none is altered.
pub fn greet(name: &str) -> (text: String)
    ensures
        text@ == greeting(name@),
{
    let mut text = String::from_str("Hello, ");
    text.append(name);
    text.append("! You've been greeted from Rust!");
    text
}

/// A greeting is longer than its name by the length of the fixed text.
pub proof fn lemma_greeting_len(name: Seq<char>)
    ensures
        greeting(name).len() == name.len() + 39,
{
    reveal_strlit("Hello, ");
    reveal_strlit("! You've been greeted from Rust!");
}

/// A greeting holds its name unchanged, right behind the opening.
pub proof fn lemma_greeting_holds_name(name: Seq<char>)
    ensures
        greeting(name).subrange(7, 7 + name.len() as int) == name,
{
    reveal_strlit("Hello, ");
    reveal_strlit("! You've been greeted from Rust!");
    assert(greeting(name).subrange(7, 7 + name.len() as int) =~= name);
}

/// Two names that are greeted alike are the same name.
pub proof fn lemma_greeting_injective(a: Seq<char>, b: Seq<char>)
    requires
        greeting(a) == greeting(b),
    ensures
        a == b,
{
    lemma_greeting_len(a);
    lemma_greeting_len(b);
    lemma_greeting_holds_name(a);
    lemma_greeting_holds_name(b);
}

} // verus!
