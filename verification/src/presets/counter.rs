//! A binary counting preset: the machine repeatedly increments a binary
//! number written on the tape, and never halts.

use vstd::prelude::*;
use vstd::string::StringExecFns;

use crate::display::DisplayStateAs;
use crate::presets::UniverseMetadata;
use crate::universe::function::{table_of, Input, Output, TransitionFunctionBuilder};
use crate::universe::machine::{Action, State, Write};
use crate::universe::{Symbol, Universe};

verus! {

/// The rule table of the binary counter, in declaration order. State 1
/// writes the increment, state 2 returns the head to the low end.
pub open spec fn counter_binary_rules() -> Seq<(Input, Output)> {
    seq![
        (
            Input(State(Some(1)), Symbol(None)),
            Output(Write::Print(Symbol(Some(1))), Action::R, State(Some(2))),
        ),
        (
            Input(State(Some(1)), Symbol(Some(0))),
            Output(Write::Print(Symbol(Some(1))), Action::R, State(Some(2))),
        ),
        (
            Input(State(Some(1)), Symbol(Some(1))),
            Output(Write::Print(Symbol(Some(0))), Action::L, State(Some(1))),
        ),
        (Input(State(Some(2)), Symbol(None)), Output(Write::NoEffect, Action::L, State(Some(1)))),
        (
            Input(State(Some(2)), Symbol(Some(0))),
            Output(Write::NoEffect, Action::R, State(Some(2))),
        ),
        (
            Input(State(Some(2)), Symbol(Some(1))),
            Output(Write::NoEffect, Action::R, State(Some(2))),
        ),
    ]
}

/// What `counter_binary` packs: its name, alphabets, display names, rules
/// and starting universe.
pub open spec fn is_counter_binary(m: UniverseMetadata) -> bool {
    &&& m.name@ == "binary counting"@
    &&& m.head_offset_hint == 0
    &&& m.symbol_set@ == seq![Symbol(Some(0)), Symbol(Some(1))]
    &&& m.state_set@ == seq![State(Some(1)), State(Some(2))]
    &&& m.display_state_as@.len() == 2
    &&& m.display_state_as@[0].0 == State(Some(1)) && m.display_state_as@[0].1@ == "write"@
    &&& m.display_state_as@[1].0 == State(Some(2)) && m.display_state_as@[1].1@ == "return"@
    &&& m.transition_function_builder@ == counter_binary_rules()
    &&& m.universe@.tape.positive == Seq::<Symbol>::empty()
    &&& m.universe@.tape.negative == Seq::<Symbol>::empty()
    &&& m.universe@.pos == 0
    &&& m.universe@.machine.state == State(Some(2))
    &&& m.universe@.machine.table == table_of(counter_binary_rules())
}

/// The binary counter, packaged with its metadata. It starts in the
/// return state and never reaches halt.
pub fn counter_binary() -> (m: UniverseMetadata)
    ensures
        is_counter_binary(m),
{
    let name = String::from_str("binary counting");
    let initial_head: usize = 0;

    let se = Symbol::empty();
    let s0 = Symbol::from(0);
    let s1 = Symbol::from(1);

    let s_w = State::from(1);
    let s_r = State::from(2);

    let mut display_state_as: DisplayStateAs = Vec::new();
    display_state_as.push((s_w, String::from_str("write")));
    display_state_as.push((s_r, String::from_str("return")));

    let mut builder = TransitionFunctionBuilder::default();
    builder.add(s_w, se, Write::from(s1), Action::R, s_r);
    builder.add(s_w, s0, Write::from(s1), Action::R, s_r);
    builder.add(s_w, s1, Write::from(s0), Action::L, s_w);
    builder.add(s_r, se, Write::NoEffect, Action::L, s_w);
    builder.add(s_r, s0, Write::NoEffect, Action::R, s_r);
    builder.add(s_r, s1, Write::NoEffect, Action::R, s_r);
    proof {
        assert(builder@ =~= counter_binary_rules());
    }

    let transition_function = builder.build();
    let universe = Universe::new(Vec::new(), initial_head, s_r, transition_function);

    let mut symbol_set: Vec<Symbol> = Vec::new();
    symbol_set.push(s0);
    symbol_set.push(s1);
    let mut state_set: Vec<State> = Vec::new();
    state_set.push(s_w);
    state_set.push(s_r);
    proof {
        assert(symbol_set@ =~= seq![Symbol(Some(0)), Symbol(Some(1))]);
        assert(state_set@ =~= seq![State(Some(1)), State(Some(2))]);
    }

    UniverseMetadata {
        name,
        head_offset_hint: initial_head,
        symbol_set,
        state_set,
        display_state_as,
        transition_function_builder: builder,
        universe,
    }
}

} // verus!
