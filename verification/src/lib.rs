//! A minimal cross-language call bridge: one stateless procedure that emits a
//! fixed greeting line on standard output. The verified library holds the
//! greeting itself and a transcript model of the lines the bridge writes; the
//! foreign-function glue and the actual write to standard output live outside
//! the verified code.
use vstd::prelude::*;

verus! {

/// The fixed text that one call of the bridge function writes, without the
/// line terminator.
pub open spec fn greeting() -> Seq<char> {
    "Hello from Rust!"@
}

/// The text of the greeting line, ready to be written to standard output by
/// the caller that owns the stream.
pub fn greeting_message() -> (s: String)
    ensures
        s@ == greeting(),
{
    "Hello from Rust!".to_owned()
}

/// The lines that `n` successive calls of the bridge function write: `n`
/// copies of the greeting, in call order.
pub open spec fn bridge_output(n: nat) -> Seq<Seq<char>>
    decreases n,
{
    if n == 0 {
        Seq::empty()
    } else {
        bridge_output((n - 1) as nat).push(greeting())
    }
}

/// Calling the bridge function `n` times produces exactly `n` lines, each
/// equal to the greeting, in call order, with nothing else among them.
pub proof fn lemma_bridge_output(n: nat)
    ensures
        bridge_output(n).len() == n,
        forall|i: int| 0 <= i < n ==> bridge_output(n)[i] == greeting(),
    decreases n,
{
    if n > 0 {
        lemma_bridge_output((n - 1) as nat);
    }
}

/// A record of the lines the bridge function has written, in the order it
/// wrote them. It stands for the standard-output stream, which the verified
/// code cannot touch: the caller that owns the stream writes each recorded
/// line as it is produced.
pub struct Transcript {
    lines: Vec<String>,
}

impl View for Transcript {
    type V = Seq<Seq<char>>;

    closed spec fn view(&self) -> Seq<Seq<char>> {
        self.lines@.map_values(|s: String| s@)
    }
}

impl Transcript {
    /// A transcript with no lines: nothing has been written yet.
    pub fn new() -> (t: Transcript)
        ensures
            t@ =~= Seq::<Seq<char>>::empty(),
    {
        Transcript { lines: Vec::new() }
    }

    /// One call of the bridge function: exactly one greeting line is
    /// appended, and the lines already written stay as they are.
    pub fn print_simple_log(&mut self)
        ensures
            final(self)@ =~= old(self)@.push(greeting()),
    {
        let line = greeting_message();
        self.lines.push(line);
    }

    /// The recorded lines, oldest first.
    pub fn lines(&self) -> (r: &Vec<String>)
        ensures
            r@.map_values(|s: String| s@) == self@,
    {
        &self.lines
    }
}

/// The transcript left by `n` successive calls of the bridge function,
/// starting from nothing written.
pub fn run_bridge(n: usize) -> (t: Transcript)
    ensures
        t@ == bridge_output(n as nat),
{
    let mut t = Transcript::new();
    let mut i: usize = 0;
    while i < n
        invariant
            i <= n,
            t@ == bridge_output(i as nat),
        decreases n - i,
    {
        t.print_simple_log();
        i = i + 1;
    }
    t
}

} // verus!
