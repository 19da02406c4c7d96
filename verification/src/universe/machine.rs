//! Control states, head actions, write effects, and the machine that
//! decides one step at a time.

use vstd::prelude::*;

use crate::universe::function::{Input, Output, TransitionError, TransitionFunction};
use crate::universe::{symbol_chars, Symbol};

use crate::text::{decimal_digits, decimal_string};
use vstd::string::StringExecFns;

verus! {

/// A control state: either a numbered state or the distinguished halt
/// value, written `!`. The halt value is terminal and absorbing: a machine
/// that reaches it never consults its transition function again.
#[derive(Debug, Clone, Copy, PartialEq, Eq, Structural)]
pub struct State(pub Option<usize>);

/// The display text of a state: the halt value renders as `!`, a numbered
/// state as its decimal number.
pub open spec fn state_chars(s: State) -> Seq<char> {
    match s.0 {
        None => seq!['!'],
        Some(n) => decimal_digits(n as nat),
    }
}

impl State {
    /// The distinguished halt state.
    pub fn halt() -> (s: State)
        ensures
            s == State(None::<usize>),
    {
        State(None)
    }

    /// Whether this is the halt state.
    pub open spec fn spec_is_halted(&self) -> bool {
        self.0 is None
    }

    /// Whether this is the halt state.
    #[verifier::when_used_as_spec(spec_is_halted)]
    pub fn is_halted(&self) -> (r: bool)
        ensures
            r == self.spec_is_halted(),
    {
        self.0.is_none()
    }

    /// The display text, exactly `state_chars`.
    pub fn render(&self) -> (r: String)
        ensures
            r@ == state_chars(*self),
    {
        match self.0 {
            None => {
                let r = String::from_str("!");
                proof {
                    reveal_strlit("!");
                    assert(r@ =~= seq!['!']);
                }
                r
            },
            Some(n) => decimal_string(n),
        }
    }
}

impl From<usize> for State {
    fn from(value: usize) -> (s: State) {
        State(Some(value))
    }
}

impl vstd::std_specs::convert::FromSpecImpl<usize> for State {
    open spec fn obeys_from_spec() -> bool {
        true
    }

    open spec fn from_spec(value: usize) -> State {
        State(Some(value))
    }
}

impl Default for State {
    /// The default state is the halt state.
    fn default() -> (s: State)
        ensures
            s == State(None::<usize>),
    {
        State(None)
    }
}

/// A head-movement instruction: one cell left, one cell right, or stay.
#[derive(Debug, Clone, Copy, PartialEq, Eq, Structural)]
pub enum Action {
    L,
    R,
    N,
}

/// How far an action moves the head: `L` one cell down, `R` one cell up,
/// `N` not at all.
pub open spec fn move_delta(action: Action) -> int {
    match action {
        Action::L => -1,
        Action::R => 1,
        Action::N => 0,
    }
}

/// The display text of an action: its letter.
pub open spec fn action_chars(a: Action) -> Seq<char> {
    match a {
        Action::L => seq!['L'],
        Action::R => seq!['R'],
        Action::N => seq!['N'],
    }
}

impl Action {
    /// The display text, exactly `action_chars`.
    pub fn render(&self) -> (r: String)
        ensures
            r@ == action_chars(*self),
    {
        let r = match self {
            Action::L => String::from_str("L"),
            Action::R => String::from_str("R"),
            Action::N => String::from_str("N"),
        };
        proof {
            reveal_strlit("L");
            reveal_strlit("R");
            reveal_strlit("N");
            assert(r@ =~= action_chars(*self));
        }
        r
    }
}

/// A cell-mutation instruction: print a symbol, erase the cell, or leave
/// the tape alone.
#[derive(Debug, Clone, Copy, PartialEq, Eq, Structural)]
pub enum Write {
    Print(Symbol),
    Erase,
    NoEffect,
}

/// The display text of a write effect: `W(<symbol>)` for a print, `E` for
/// an erase, `N` for no effect.
pub open spec fn write_chars(w: Write) -> Seq<char> {
    match w {
        Write::Print(s) => seq!['W', '('] + symbol_chars(s) + seq![')'],
        Write::Erase => seq!['E'],
        Write::NoEffect => seq!['N'],
    }
}

impl Write {
    /// The display text, exactly `write_chars`.
    pub fn render(&self) -> (r: String)
        ensures
            r@ == write_chars(*self),
    {
        match self {
            Write::Print(s) => {
                let mut out = String::from_str("W(");
                let inner = s.render();
                out.append(inner.as_str());
                out.append(")");
                proof {
                    reveal_strlit("W(");
                    reveal_strlit(")");
                    assert(out@ =~= write_chars(*self));
                }
                out
            },
            Write::Erase => {
                let r = String::from_str("E");
                proof {
                    reveal_strlit("E");
                    assert(r@ =~= seq!['E']);
                }
                r
            },
            Write::NoEffect => {
                let r = String::from_str("N");
                proof {
                    reveal_strlit("N");
                    assert(r@ =~= seq!['N']);
                }
                r
            },
        }
    }
}

impl From<Symbol> for Write {
    fn from(symbol: Symbol) -> (w: Write) {
        Write::Print(symbol)
    }
}

impl vstd::std_specs::convert::FromSpecImpl<Symbol> for Write {
    open spec fn obeys_from_spec() -> bool {
        true
    }

    open spec fn from_spec(symbol: Symbol) -> Write {
        Write::Print(symbol)
    }
}

/// The machine as mathematics: its control state and the compiled rule
/// table it consults.
#[verifier::ext_equal]
pub ghost struct MachineModel {
    pub state: State,
    pub table: Map<Input, Output>,
}

/// One machine decision. A halted machine does nothing, unconditionally.
/// A running machine looks up (state, scanned symbol): on a hit it moves
/// to the rule's next state and reports the rule's write and action; on a
/// miss it stays unchanged and reports the offending pair as an error.
pub open spec fn machine_step(m: MachineModel, scanned_symbol: Symbol) -> (MachineModel, Result<
    (Write, Action),
    TransitionError,
>) {
    if m.state.spec_is_halted() {
        (m, Ok((Write::NoEffect, Action::N)))
    } else if m.table.contains_key(Input(m.state, scanned_symbol)) {
        let out = m.table[Input(m.state, scanned_symbol)];
        (MachineModel { state: out.2, table: m.table }, Ok((out.0, out.1)))
    } else {
        (m, Err(TransitionError { current_state: m.state, scanned_symbol }))
    }
}

/// Halt is absorbing: a halted machine's step changes nothing and reports
/// `(NoEffect, N)`, however often it is asked.
pub proof fn lemma_halted_machine_step(m: MachineModel, scanned_symbol: Symbol)
    requires
        m.state.spec_is_halted(),
    ensures
        machine_step(m, scanned_symbol) == (m, Ok::<(Write, Action), TransitionError>(
            (Write::NoEffect, Action::N),
        )),
{
}

/// An undefined transition fails cleanly: the error carries exactly the
/// offending (state, symbol) pair and the machine is left unchanged.
pub proof fn lemma_undefined_transition(m: MachineModel, scanned_symbol: Symbol)
    requires
        !m.state.spec_is_halted(),
        !m.table.contains_key(Input(m.state, scanned_symbol)),
    ensures
        machine_step(m, scanned_symbol) == (m, Err::<(Write, Action), TransitionError>(
            TransitionError { current_state: m.state, scanned_symbol },
        )),
{
}

/// The current control state plus a compiled transition function. The
/// machine owns only its state; the transition function is read-only once
/// built.
pub struct Machine {
    pub state: State,
    transition_function: TransitionFunction,
}

impl View for Machine {
    type V = MachineModel;

    closed spec fn view(&self) -> MachineModel {
        MachineModel { state: self.state, table: self.transition_function@ }
    }
}

impl Default for Machine {
    /// The default machine is halted and has no rules.
    fn default() -> (m: Machine)
        ensures
            m@ == (MachineModel { state: State(None), table: Map::<Input, Output>::empty() }),
    {
        Machine { state: State(None), transition_function: TransitionFunction::default() }
    }
}

impl Machine {
    pub fn new(initial_state: State, transition_function: TransitionFunction) -> (m: Machine)
        ensures
            m@ == (MachineModel { state: initial_state, table: transition_function@ }),
    {
        Machine { state: initial_state, transition_function }
    }

    /// One decision step, exactly `machine_step` on the machine's model.
    pub fn tick(&mut self, scanned_symbol: Symbol) -> (r: Result<(Write, Action), TransitionError>)
        ensures
            final(self)@ == machine_step(old(self)@, scanned_symbol).0,
            r == machine_step(old(self)@, scanned_symbol).1,
    {
        if self.state.is_halted() {
            return Ok((Write::NoEffect, Action::N));
        }

        match self.transition_function.act(self.state, scanned_symbol) {
            Ok(out) => {
                self.state = out.2;
                Ok((out.0, out.1))
            },
            Err(e) => Err(e),
        }
    }
}

} // verus!
