//! The transition function: an ordered builder of rules and the compiled
//! partial map the machine executes against.

use vstd::prelude::*;
use vstd::string::StringExecFns;

use crate::universe::machine::{state_chars, Action, State, Write};
use crate::universe::{symbol_chars, Symbol};

verus! {

/// A transition key: the machine's current state and the scanned symbol.
#[derive(Debug, Clone, Copy, PartialEq, Eq, Structural)]
pub struct Input(pub State, pub Symbol);

impl Input {
    pub fn current_state(&self) -> (s: State)
        ensures
            s == self.0,
    {
        self.0
    }

    pub fn scanned_symbol(&self) -> (s: Symbol)
        ensures
            s == self.1,
    {
        self.1
    }
}

/// A transition value: the write effect, the head action and the next
/// state (which may be the halt state).
#[derive(Debug, Clone, Copy, PartialEq, Eq, Structural)]
pub struct Output(pub Write, pub Action, pub State);

impl Output {
    pub fn print_symbol(&self) -> (w: Write)
        ensures
            w == self.0,
    {
        self.0
    }

    pub fn move_head(&self) -> (a: Action)
        ensures
            a == self.1,
    {
        self.1
    }

    pub fn next_state(&self) -> (s: State)
        ensures
            s == self.2,
    {
        self.2
    }
}

/// The error for a lookup of a (state, symbol) pair that no rule covers.
/// It carries exactly the offending pair.
#[derive(Debug, Clone, Copy, PartialEq, Eq, Structural)]
pub struct TransitionError {
    pub current_state: State,
    pub scanned_symbol: Symbol,
}

/// The display text of a transition error: the offending pair followed by
/// `-> ?`.
pub open spec fn error_chars(e: TransitionError) -> Seq<char> {
    state_chars(e.current_state) + seq![',', ' '] + symbol_chars(e.scanned_symbol) + seq![
        ' ',
        '-',
        '>',
        ' ',
        '?',
    ]
}

impl TransitionError {
    /// The display text, exactly `error_chars`.
    pub fn render(&self) -> (r: String)
        ensures
            r@ == error_chars(*self),
    {
        let mut out = self.current_state.render();
        out.append(", ");
        let symbol = self.scanned_symbol.render();
        out.append(symbol.as_str());
        out.append(" -> ?");
        proof {
            reveal_strlit(", ");
            reveal_strlit(" -> ?");
            assert(out@ =~= error_chars(*self));
        }
        out
    }
}

/// The partial map that a sequence of rules compiles to: a later rule for
/// the same key overwrites an earlier one.
pub open spec fn table_of(entries: Seq<(Input, Output)>) -> Map<Input, Output>
    decreases entries.len(),
{
    if entries.len() == 0 {
        Map::<Input, Output>::empty()
    } else {
        table_of(entries.drop_last()).insert(entries.last().0, entries.last().1)
    }
}

/// A key is in the compiled table exactly when some rule declares it.
pub proof fn lemma_table_of_contains(entries: Seq<(Input, Output)>, key: Input)
    ensures
        table_of(entries).contains_key(key) <==> exists|i: int|
            0 <= i < entries.len() && entries[i].0 == key,
    decreases entries.len(),
{
    if entries.len() > 0 {
        let prefix = entries.drop_last();
        lemma_table_of_contains(prefix, key);
        if table_of(entries).contains_key(key) {
            if entries.last().0 == key {
                assert(entries[entries.len() - 1].0 == key);
            } else {
                let i = choose|i: int| 0 <= i < prefix.len() && prefix[i].0 == key;
                assert(entries[i].0 == key);
            }
        }
        if exists|i: int| 0 <= i < entries.len() && entries[i].0 == key {
            let i = choose|i: int| 0 <= i < entries.len() && entries[i].0 == key;
            if i < entries.len() - 1 {
                assert(prefix[i].0 == key);
            }
        }
    }
}

/// Duplicate-overwrite semantics: the rule at index `i` decides the
/// compiled table's value for its key whenever no later rule declares the
/// same key. In particular the last addition for a key always wins and any
/// earlier addition for it is not observable.
pub proof fn lemma_table_of_last_wins(entries: Seq<(Input, Output)>, i: int)
    requires
        0 <= i < entries.len(),
        forall|j: int| i < j < entries.len() ==> entries[j].0 != entries[i].0,
    ensures
        table_of(entries).contains_key(entries[i].0),
        table_of(entries)[entries[i].0] == entries[i].1,
    decreases entries.len(),
{
    if i < entries.len() - 1 {
        let prefix = entries.drop_last();
        assert(forall|j: int| i < j < prefix.len() ==> prefix[j].0 != prefix[i].0);
        lemma_table_of_last_wins(prefix, i);
        assert(entries.last().0 != entries[i].0);
    }
}

/// The compiled lookup table mapping (state, symbol) to (write, action,
/// next state). It never changes once built; its view is the partial map
/// of `table_of` over the rules it was built from.
pub struct TransitionFunction {
    entries: Vec<(Input, Output)>,
}

impl View for TransitionFunction {
    type V = Map<Input, Output>;

    closed spec fn view(&self) -> Map<Input, Output> {
        table_of(self.entries@)
    }
}

impl Default for TransitionFunction {
    /// The empty transition function: every lookup fails.
    fn default() -> (tf: TransitionFunction)
        ensures
            tf@ == Map::<Input, Output>::empty(),
    {
        TransitionFunction { entries: Vec::new() }
    }
}

impl TransitionFunction {
    /// Looks up the output for (current state, scanned symbol). This is
    /// the sole place a non-halt execution step can fail: an unmapped pair
    /// is reported as an `Err` carrying that exact pair.
    pub fn act(&self, current_state: State, scanned_symbol: Symbol) -> (r: Result<
        Output,
        TransitionError,
    >)
        ensures
            self@.contains_key(Input(current_state, scanned_symbol)) ==> r == Ok::<
                Output,
                TransitionError,
            >(self@[Input(current_state, scanned_symbol)]),
            !self@.contains_key(Input(current_state, scanned_symbol)) ==> r == Err::<
                Output,
                TransitionError,
            >(TransitionError { current_state, scanned_symbol }),
    {
        let key = Input(current_state, scanned_symbol);
        let mut j = self.entries.len();
        while j > 0
            invariant
                j <= self.entries.len(),
                key == Input(current_state, scanned_symbol),
                forall|k: int| j <= k < self.entries@.len() ==> self.entries@[k].0 != key,
            decreases j,
        {
            j = j - 1;
            let (inp, out) = self.entries[j];
            if inp == key {
                proof {
                    lemma_table_of_last_wins(self.entries@, j as int);
                }
                return Ok(out);
            }
        }
        proof {
            lemma_table_of_contains(self.entries@, key);
        }
        Err(TransitionError { current_state, scanned_symbol })
    }
}

/// An append-only ordered sequence of rules, used both to compile the
/// lookup table and to preserve declaration order for listings.
pub struct TransitionFunctionBuilder {
    rules: Vec<(Input, Output)>,
}

impl View for TransitionFunctionBuilder {
    type V = Seq<(Input, Output)>;

    closed spec fn view(&self) -> Seq<(Input, Output)> {
        self.rules@
    }
}

impl Default for TransitionFunctionBuilder {
    /// A builder with no rules yet.
    fn default() -> (b: TransitionFunctionBuilder)
        ensures
            b@ == Seq::<(Input, Output)>::empty(),
    {
        TransitionFunctionBuilder { rules: Vec::new() }
    }
}

impl TransitionFunctionBuilder {
    /// Appends one rule. No validation is performed: a duplicate or
    /// contradictory rule is accepted silently, and on compile the later
    /// one wins.
    pub fn add(
        &mut self,
        current_state: State,
        input_symbol: Symbol,
        write_action: Write,
        move_head: Action,
        next_state: State,
    )
        ensures
            final(self)@ == old(self)@.push(
                (Input(current_state, input_symbol), Output(write_action, move_head, next_state)),
            ),
    {
        self.rules.push(
            (Input(current_state, input_symbol), Output(write_action, move_head, next_state)),
        );
    }

    /// The rules in their original insertion order, for display and
    /// listing purposes; this does not affect execution.
    pub fn added(&self) -> (r: Vec<(Input, Output)>)
        ensures
            r@ == self@,
    {
        let mut out: Vec<(Input, Output)> = Vec::new();
        let mut i: usize = 0;
        while i < self.rules.len()
            invariant
                i <= self.rules.len(),
                out@ == self.rules@.subrange(0, i as int),
            decreases self.rules.len() - i,
        {
            out.push(self.rules[i]);
            proof {
                assert(out@ =~= self.rules@.subrange(0, i + 1 as int));
            }
            i = i + 1;
        }
        proof {
            assert(out@ =~= self.rules@);
        }
        out
    }

    /// Compiles the accumulated rules into an immutable lookup table. If
    /// the same key was added more than once, the table keeps the last
    /// value added for it.
    pub fn build(&self) -> (tf: TransitionFunction)
        ensures
            tf@ == table_of(self@),
    {
        TransitionFunction { entries: self.added() }
    }
}

} // verus!
