//! The composed runtime: a tape, a head position and a machine.

use vstd::prelude::*;

pub mod function;
pub mod machine;
pub mod tape;

use crate::universe::function::{TransitionError, TransitionFunction};
use crate::universe::machine::{
    machine_step, move_delta, Action, Machine, MachineModel, State, Write,
};
use crate::universe::tape::{Tape, TapeModel};

use crate::text::{decimal_digits, decimal_string};
use vstd::string::StringExecFns;

verus! {

/// One cell value on the tape: either a numbered symbol or the
/// distinguished blank, written `_`.
#[derive(Debug, Clone, Copy, PartialEq, Eq, Structural)]
pub struct Symbol(pub Option<usize>);

/// The display text of a symbol: the blank renders as `_`, a numbered
/// symbol as its decimal number.
pub open spec fn symbol_chars(s: Symbol) -> Seq<char> {
    match s.0 {
        None => seq!['_'],
        Some(n) => decimal_digits(n as nat),
    }
}

impl Symbol {
    /// The blank symbol.
    pub fn empty() -> (s: Symbol)
        ensures
            s == Symbol(None::<usize>),
    {
        Symbol(None)
    }

    /// Whether this is the blank symbol.
    pub open spec fn spec_is_empty(&self) -> bool {
        self.0 is None
    }

    /// Whether this is the blank symbol.
    #[verifier::when_used_as_spec(spec_is_empty)]
    pub fn is_empty(&self) -> (r: bool)
        ensures
            r == self.spec_is_empty(),
    {
        self.0.is_none()
    }

    /// The display text, exactly `symbol_chars`.
    pub fn render(&self) -> (r: String)
        ensures
            r@ == symbol_chars(*self),
    {
        match self.0 {
            None => {
                let r = String::from_str("_");
                proof {
                    reveal_strlit("_");
                    assert(r@ =~= seq!['_']);
                }
                r
            },
            Some(n) => decimal_string(n),
        }
    }
}

impl From<usize> for Symbol {
    fn from(value: usize) -> (s: Symbol) {
        Symbol(Some(value))
    }
}

impl vstd::std_specs::convert::FromSpecImpl<usize> for Symbol {
    open spec fn obeys_from_spec() -> bool {
        true
    }

    open spec fn from_spec(value: usize) -> Symbol {
        Symbol(Some(value))
    }
}

impl Default for Symbol {
    /// The default symbol is the blank.
    fn default() -> (s: Symbol)
        ensures
            s == Symbol(None::<usize>),
    {
        Symbol(None)
    }
}

/// The universe as mathematics: its tape, its head position and its
/// machine.
#[verifier::ext_equal]
pub ghost struct UniverseModel {
    pub tape: TapeModel,
    pub pos: int,
    pub machine: MachineModel,
}

/// One full fetch-decide-write-move cycle. The symbol under the head is
/// read and handed to the machine; when the machine decides a step, its
/// write effect is applied to the tape at the head and the head moves by
/// the action's delta; when the machine fails (an undefined transition),
/// nothing changes and the error is passed through.
pub open spec fn universe_step(u: UniverseModel) -> (UniverseModel, Result<
    (Write, Action),
    TransitionError,
>) {
    let scanned = u.tape.read_at(u.pos);
    let stepped = machine_step(u.machine, scanned);
    match stepped.1 {
        Ok(wa) => (
            UniverseModel {
                tape: u.tape.written(wa.0, u.pos),
                pos: u.pos + move_delta(wa.1),
                machine: stepped.0,
            },
            Ok(wa),
        ),
        Err(e) => (u, Err(e)),
    }
}

/// The universe after `n` cycles, keeping only the resulting state.
pub open spec fn run_steps(u: UniverseModel, n: nat) -> UniverseModel
    decreases n,
{
    if n == 0 {
        u
    } else {
        universe_step(run_steps(u, (n - 1) as nat)).0
    }
}

/// Halt idempotence: once the machine is halted, every further cycle
/// reports `(NoEffect, N)` and leaves the whole universe — tape, head and
/// machine — exactly as it was, however many times it is repeated.
pub proof fn lemma_halt_idempotence(u: UniverseModel, n: nat)
    requires
        u.machine.state.spec_is_halted(),
    ensures
        run_steps(u, n) == u,
        universe_step(u).1 == Ok::<(Write, Action), TransitionError>((Write::NoEffect, Action::N)),
        universe_step(u).0 == u,
    decreases n,
{
    if n > 0 {
        lemma_halt_idempotence(u, (n - 1) as nat);
    }
}

/// Head movement: a cycle whose reported action is `L` moves the head
/// down by exactly one, `R` up by exactly one, and `N` leaves it where it
/// was; a failed cycle leaves it unchanged too.
pub proof fn lemma_head_movement(u: UniverseModel)
    ensures
        universe_step(u).1 matches Ok(wa) && wa.1 == Action::L ==> universe_step(u).0.pos == u.pos
            - 1,
        universe_step(u).1 matches Ok(wa) && wa.1 == Action::R ==> universe_step(u).0.pos == u.pos
            + 1,
        universe_step(u).1 matches Ok(wa) && wa.1 == Action::N ==> universe_step(u).0.pos == u.pos,
        universe_step(u).1 is Err ==> universe_step(u).0.pos == u.pos,
{
}

/// Exactly one tape, one signed head position, and one machine, advanced
/// one cycle at a time through `tick`. The engine never stops itself: the
/// caller loops over `tick` and checks the machine's state for
/// halted-ness to know when to stop.
pub struct Universe {
    pub tape: Tape,
    pub pos: isize,
    pub machine: Machine,
}

impl View for Universe {
    type V = UniverseModel;

    open spec fn view(&self) -> UniverseModel {
        UniverseModel { tape: self.tape@, pos: self.pos as int, machine: self.machine@ }
    }
}

impl Default for Universe {
    /// The default universe: an empty tape, the head at position 0, and a
    /// halted machine with no rules.
    fn default() -> (u: Universe)
        ensures
            u@.tape.positive == Seq::<Symbol>::empty(),
            u@.tape.negative == Seq::<Symbol>::empty(),
            u@.pos == 0,
            u@.machine == (MachineModel {
                state: State(None),
                table: Map::<
                    crate::universe::function::Input,
                    crate::universe::function::Output,
                >::empty(),
            }),
    {
        let tape = Tape::default();
        proof {
            assert(tape@.positive =~= Seq::<Symbol>::empty());
            assert(tape@.negative =~= Seq::<Symbol>::empty());
        }
        Universe { tape, pos: 0, machine: Machine::default() }
    }
}

impl Universe {
    /// Builds a tape holding `initial_tape` from position 1 upward, sets
    /// the head, and constructs the machine around the given compiled
    /// transition function.
    pub fn new(
        initial_tape: Vec<Symbol>,
        initial_pos: usize,
        initial_state: State,
        transition_function: TransitionFunction,
    ) -> (u: Universe)
        requires
            initial_pos <= isize::MAX as usize,
        ensures
            u@.tape.positive == initial_tape@,
            u@.tape.negative == Seq::<Symbol>::empty(),
            u@.pos == initial_pos as int,
            u@.machine == (MachineModel { state: initial_state, table: transition_function@ }),
    {
        let tape = Tape::from_symbols(initial_tape);
        proof {
            assert(tape@.negative =~= Seq::<Symbol>::empty());
        }
        Universe {
            tape,
            pos: initial_pos as isize,
            machine: Machine::new(initial_state, transition_function),
        }
    }

    /// Moves the head by one action's delta.
    fn shift(&mut self, action: Action)
        requires
            action == Action::L ==> old(self).pos > isize::MIN,
            action == Action::R ==> old(self).pos < isize::MAX,
        ensures
            final(self).pos == old(self).pos + move_delta(action),
            final(self).tape == old(self).tape,
            final(self).machine == old(self).machine,
    {
        match action {
            Action::L => self.pos = self.pos - 1,
            Action::R => self.pos = self.pos + 1,
            Action::N => {},
        }
    }

    /// One externally driven step, exactly `universe_step` on the
    /// universe's model: reads the symbol at the head, lets the machine
    /// decide, writes the returned effect back at the head, moves the
    /// head per the returned action, and reports the machine's (write,
    /// action) pair — or propagates the machine's error, mutating
    /// nothing. The precondition only keeps the new head position
    /// representable on this machine.
    pub fn tick(&mut self) -> (r: Result<(Write, Action), TransitionError>)
        requires
            isize::MIN as int <= universe_step(old(self)@).0.pos <= isize::MAX as int,
        ensures
            final(self)@ == universe_step(old(self)@).0,
            r == universe_step(old(self)@).1,
    {
        let scanned_symbol = self.tape.read(self.pos);

        match self.machine.tick(scanned_symbol) {
            Ok((print, action)) => {
                self.tape.write(print, self.pos);
                self.shift(action);
                proof {
                    assert(self@ =~= universe_step(old(self)@).0);
                }
                Ok((print, action))
            },
            Err(e) => Err(e),
        }
    }
}

} // verus!

