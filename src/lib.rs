use vstd::prelude::*;
use vstd::string::StringExecFns;

verus! {

/// The label that every engine made by `Engine::new` carries.
pub open spec fn engine_label() -> Seq<char> {
    "DreamDisk25 Engine (Rust)"@
}

/// The line that an engine with the given label emits when it runs.
pub open spec fn running_line(label: Seq<char>) -> Seq<char> {
    label + " running"@
}

/// An engine: an identifying label, fixed when the engine is made.
pub struct Engine {
    pub name: &'static str,
}

impl Engine {
    /// The line this engine emits when it runs.
    pub open spec fn line(&self) -> Seq<char> {
        running_line(self.name@)
    }

    /// Makes an engine carrying the fixed label.
    pub fn new() -> (r: Engine)
        ensures
            r.name@ == engine_label(),
    {
        Engine { name: "DreamDisk25 Engine (Rust)" }
    }

    /// The line that running this engine writes out: its label followed
    /// by `" running"`. Defined for every engine; it cannot fail.
    pub fn status_line(&self) -> (r: String)
        ensures
            r@ == self.line(),
            r@ == running_line(self.name@),
    {
        let s = String::from_str(self.name);
        s.concat(" running")
    }
}

/// Running the same engine twice writes the same line both times: the line
/// is determined by the engine alone, and nothing changes the label.
pub proof fn lemma_line_repeatable(e: Engine, first: Seq<char>, second: Seq<char>)
    requires
        first == e.line(),
        second == e.line(),
    ensures
        first == second,
{
}

/// Every engine that carries the fixed label writes exactly
/// `"DreamDisk25 Engine (Rust) running"` when it runs.
pub proof fn lemma_constructed_line(e: Engine)
    requires
        e.name@ == engine_label(),
    ensures
        e.line() == "DreamDisk25 Engine (Rust) running"@,
{
    reveal_strlit("DreamDisk25 Engine (Rust)");
    reveal_strlit(" running");
    reveal_strlit("DreamDisk25 Engine (Rust) running");
    assert(e.line() =~= "DreamDisk25 Engine (Rust) running"@);
}

} // verus!
