//! The busy beaver presets: reference machines that print as many marks
//! as they can before halting, used as golden-trace fixtures.

use vstd::prelude::*;
use vstd::string::StringExecFns;

use crate::display::DisplayStateAs;
use crate::presets::UniverseMetadata;
use crate::universe::function::{table_of, Input, Output, TransitionFunctionBuilder};
use crate::universe::machine::{Action, State, Write};
use crate::universe::{Symbol, Universe};

verus! {

/// The rule table of the one-state busy beaver, in declaration
/// order.
pub open spec fn one_state_busy_beaver_rules() -> Seq<(Input, Output)> {
    seq![
        (Input(State(Some(0)), Symbol(None)), Output(Write::Print(Symbol(Some(1))), Action::R, State(None))),
        (Input(State(Some(0)), Symbol(Some(1))), Output(Write::Print(Symbol(Some(1))), Action::L, State(None))),
    ]
}

/// What `one_state_busy_beaver` packs: its name, alphabets, display
/// names, rules and starting universe.
pub open spec fn is_one_state_busy_beaver(m: UniverseMetadata) -> bool {
    &&& m.name@ == "2-state, 2-symbol busy beaver"@
    &&& m.head_offset_hint == 0
    &&& m.symbol_set@ == seq![Symbol(None), Symbol(Some(1))]
    &&& m.state_set@ == seq![State(Some(0))]
    &&& m.display_state_as@.len() == 1
    &&& m.display_state_as@[0].0 == State(Some(0)) && m.display_state_as@[0].1@ == "A"@
    &&& m.transition_function_builder@ == one_state_busy_beaver_rules()
    &&& m.universe@.tape.positive == Seq::<Symbol>::empty()
    &&& m.universe@.tape.negative == Seq::<Symbol>::empty()
    &&& m.universe@.pos == 0
    &&& m.universe@.machine.state == State(Some(0))
    &&& m.universe@.machine.table == table_of(one_state_busy_beaver_rules())
}

/// The one-state busy beaver, packaged with its metadata.
pub fn one_state_busy_beaver() -> (m: UniverseMetadata)
    ensures
        is_one_state_busy_beaver(m),
{
    let name = String::from_str("2-state, 2-symbol busy beaver");
    let initial_head: usize = 0;

    let s0 = Symbol::empty();
    let s1 = Symbol::from(1);

    let s_a = State::from(0);

    let mut display_state_as: DisplayStateAs = Vec::new();
    display_state_as.push((s_a, String::from_str("A")));

    let mut builder = TransitionFunctionBuilder::default();
    builder.add(s_a, s0, Write::from(s1), Action::R, State::halt());
    builder.add(s_a, s1, Write::from(s1), Action::L, State::halt());
    proof {
        assert(builder@ =~= one_state_busy_beaver_rules());
    }

    let transition_function = builder.build();
    let universe = Universe::new(Vec::new(), initial_head, s_a, transition_function);

    let mut symbol_set: Vec<Symbol> = Vec::new();
    symbol_set.push(s0);
    symbol_set.push(s1);
    let mut state_set: Vec<State> = Vec::new();
    state_set.push(s_a);
    proof {
        assert(symbol_set@ =~= seq![Symbol(None), Symbol(Some(1))]);
        assert(state_set@ =~= seq![State(Some(0))]);
    }

    UniverseMetadata {
        name,
        head_offset_hint: initial_head,
        symbol_set,
        state_set,
        display_state_as,
        transition_function_builder: builder,
        universe,
    }
}

/// The rule table of the two-state busy beaver, in declaration
/// order.
pub open spec fn two_state_busy_beaver_rules() -> Seq<(Input, Output)> {
    seq![
        (Input(State(Some(0)), Symbol(None)), Output(Write::Print(Symbol(Some(1))), Action::R, State(Some(1)))),
        (Input(State(Some(0)), Symbol(Some(1))), Output(Write::Print(Symbol(Some(1))), Action::L, State(Some(1)))),
        (Input(State(Some(1)), Symbol(None)), Output(Write::Print(Symbol(Some(1))), Action::L, State(Some(0)))),
        (Input(State(Some(1)), Symbol(Some(1))), Output(Write::Print(Symbol(Some(1))), Action::R, State(None))),
    ]
}

/// What `two_state_busy_beaver` packs: its name, alphabets, display
/// names, rules and starting universe.
pub open spec fn is_two_state_busy_beaver(m: UniverseMetadata) -> bool {
    &&& m.name@ == "2-state, 2-symbol busy beaver"@
    &&& m.head_offset_hint == 2
    &&& m.symbol_set@ == seq![Symbol(None), Symbol(Some(1))]
    &&& m.state_set@ == seq![State(Some(0)), State(Some(1))]
    &&& m.display_state_as@.len() == 2
    &&& m.display_state_as@[0].0 == State(Some(0)) && m.display_state_as@[0].1@ == "A"@
    &&& m.display_state_as@[1].0 == State(Some(1)) && m.display_state_as@[1].1@ == "B"@
    &&& m.transition_function_builder@ == two_state_busy_beaver_rules()
    &&& m.universe@.tape.positive == Seq::<Symbol>::empty()
    &&& m.universe@.tape.negative == Seq::<Symbol>::empty()
    &&& m.universe@.pos == 2
    &&& m.universe@.machine.state == State(Some(0))
    &&& m.universe@.machine.table == table_of(two_state_busy_beaver_rules())
}

/// The two-state busy beaver, packaged with its metadata.
pub fn two_state_busy_beaver() -> (m: UniverseMetadata)
    ensures
        is_two_state_busy_beaver(m),
{
    let name = String::from_str("2-state, 2-symbol busy beaver");
    let initial_head: usize = 2;

    let s0 = Symbol::empty();
    let s1 = Symbol::from(1);

    let s_a = State::from(0);
    let s_b = State::from(1);

    let mut display_state_as: DisplayStateAs = Vec::new();
    display_state_as.push((s_a, String::from_str("A")));
    display_state_as.push((s_b, String::from_str("B")));

    let mut builder = TransitionFunctionBuilder::default();
    builder.add(s_a, s0, Write::from(s1), Action::R, s_b);
    builder.add(s_a, s1, Write::from(s1), Action::L, s_b);
    builder.add(s_b, s0, Write::from(s1), Action::L, s_a);
    builder.add(s_b, s1, Write::from(s1), Action::R, State::halt());
    proof {
        assert(builder@ =~= two_state_busy_beaver_rules());
    }

    let transition_function = builder.build();
    let universe = Universe::new(Vec::new(), initial_head, s_a, transition_function);

    let mut symbol_set: Vec<Symbol> = Vec::new();
    symbol_set.push(s0);
    symbol_set.push(s1);
    let mut state_set: Vec<State> = Vec::new();
    state_set.push(s_a);
    state_set.push(s_b);
    proof {
        assert(symbol_set@ =~= seq![Symbol(None), Symbol(Some(1))]);
        assert(state_set@ =~= seq![State(Some(0)), State(Some(1))]);
    }

    UniverseMetadata {
        name,
        head_offset_hint: initial_head,
        symbol_set,
        state_set,
        display_state_as,
        transition_function_builder: builder,
        universe,
    }
}

/// The rule table of the three-state busy beaver, in declaration
/// order.
pub open spec fn three_state_busy_beaver_rules() -> Seq<(Input, Output)> {
    seq![
        (Input(State(Some(0)), Symbol(None)), Output(Write::Print(Symbol(Some(1))), Action::R, State(Some(1)))),
        (Input(State(Some(0)), Symbol(Some(1))), Output(Write::Print(Symbol(Some(1))), Action::R, State(None))),
        (Input(State(Some(1)), Symbol(None)), Output(Write::Print(Symbol(None)), Action::R, State(Some(2)))),
        (Input(State(Some(1)), Symbol(Some(1))), Output(Write::Print(Symbol(Some(1))), Action::R, State(Some(1)))),
        (Input(State(Some(2)), Symbol(None)), Output(Write::Print(Symbol(Some(1))), Action::L, State(Some(2)))),
        (Input(State(Some(2)), Symbol(Some(1))), Output(Write::Print(Symbol(Some(1))), Action::L, State(Some(0)))),
    ]
}

/// What `three_state_busy_beaver` packs: its name, alphabets, display
/// names, rules and starting universe.
pub open spec fn is_three_state_busy_beaver(m: UniverseMetadata) -> bool {
    &&& m.name@ == "3-state, 2-symbol busy beaver"@
    &&& m.head_offset_hint == 1
    &&& m.symbol_set@ == seq![Symbol(None), Symbol(Some(1))]
    &&& m.state_set@ == seq![State(Some(0)), State(Some(1)), State(Some(2))]
    &&& m.display_state_as@.len() == 3
    &&& m.display_state_as@[0].0 == State(Some(0)) && m.display_state_as@[0].1@ == "A"@
    &&& m.display_state_as@[1].0 == State(Some(1)) && m.display_state_as@[1].1@ == "B"@
    &&& m.display_state_as@[2].0 == State(Some(2)) && m.display_state_as@[2].1@ == "C"@
    &&& m.transition_function_builder@ == three_state_busy_beaver_rules()
    &&& m.universe@.tape.positive == Seq::<Symbol>::empty()
    &&& m.universe@.tape.negative == Seq::<Symbol>::empty()
    &&& m.universe@.pos == 1
    &&& m.universe@.machine.state == State(Some(0))
    &&& m.universe@.machine.table == table_of(three_state_busy_beaver_rules())
}

/// The three-state busy beaver, packaged with its metadata.
pub fn three_state_busy_beaver() -> (m: UniverseMetadata)
    ensures
        is_three_state_busy_beaver(m),
{
    let name = String::from_str("3-state, 2-symbol busy beaver");
    let initial_head: usize = 1;

    let s0 = Symbol::empty();
    let s1 = Symbol::from(1);

    let s_a = State::from(0);
    let s_b = State::from(1);
    let s_c = State::from(2);

    let mut display_state_as: DisplayStateAs = Vec::new();
    display_state_as.push((s_a, String::from_str("A")));
    display_state_as.push((s_b, String::from_str("B")));
    display_state_as.push((s_c, String::from_str("C")));

    let mut builder = TransitionFunctionBuilder::default();
    builder.add(s_a, s0, Write::from(s1), Action::R, s_b);
    builder.add(s_a, s1, Write::from(s1), Action::R, State::halt());
    builder.add(s_b, s0, Write::from(s0), Action::R, s_c);
    builder.add(s_b, s1, Write::from(s1), Action::R, s_b);
    builder.add(s_c, s0, Write::from(s1), Action::L, s_c);
    builder.add(s_c, s1, Write::from(s1), Action::L, s_a);
    proof {
        assert(builder@ =~= three_state_busy_beaver_rules());
    }

    let transition_function = builder.build();
    let universe = Universe::new(Vec::new(), initial_head, s_a, transition_function);

    let mut symbol_set: Vec<Symbol> = Vec::new();
    symbol_set.push(s0);
    symbol_set.push(s1);
    let mut state_set: Vec<State> = Vec::new();
    state_set.push(s_a);
    state_set.push(s_b);
    state_set.push(s_c);
    proof {
        assert(symbol_set@ =~= seq![Symbol(None), Symbol(Some(1))]);
        assert(state_set@ =~= seq![State(Some(0)), State(Some(1)), State(Some(2))]);
    }

    UniverseMetadata {
        name,
        head_offset_hint: initial_head,
        symbol_set,
        state_set,
        display_state_as,
        transition_function_builder: builder,
        universe,
    }
}

/// The rule table of the four-state busy beaver, in declaration
/// order.
pub open spec fn four_state_busy_beaver_rules() -> Seq<(Input, Output)> {
    seq![
        (Input(State(Some(0)), Symbol(None)), Output(Write::Print(Symbol(Some(1))), Action::R, State(Some(1)))),
        (Input(State(Some(0)), Symbol(Some(1))), Output(Write::Print(Symbol(Some(1))), Action::L, State(Some(1)))),
        (Input(State(Some(1)), Symbol(None)), Output(Write::Print(Symbol(Some(1))), Action::L, State(Some(0)))),
        (Input(State(Some(1)), Symbol(Some(1))), Output(Write::Print(Symbol(None)), Action::L, State(Some(2)))),
        (Input(State(Some(2)), Symbol(None)), Output(Write::Print(Symbol(Some(1))), Action::R, State(None))),
        (Input(State(Some(2)), Symbol(Some(1))), Output(Write::Print(Symbol(Some(1))), Action::L, State(Some(3)))),
        (Input(State(Some(3)), Symbol(None)), Output(Write::Print(Symbol(Some(1))), Action::R, State(Some(3)))),
        (Input(State(Some(3)), Symbol(Some(1))), Output(Write::Print(Symbol(None)), Action::R, State(Some(0)))),
    ]
}

/// What `four_state_busy_beaver` packs: its name, alphabets, display
/// names, rules and starting universe.
pub open spec fn is_four_state_busy_beaver(m: UniverseMetadata) -> bool {
    &&& m.name@ == "4-state, 2-symbol busy beaver"@
    &&& m.head_offset_hint == 9
    &&& m.symbol_set@ == seq![Symbol(None), Symbol(Some(1))]
    &&& m.state_set@ == seq![State(Some(0)), State(Some(1)), State(Some(2))]
    &&& m.display_state_as@.len() == 4
    &&& m.display_state_as@[0].0 == State(Some(0)) && m.display_state_as@[0].1@ == "A"@
    &&& m.display_state_as@[1].0 == State(Some(1)) && m.display_state_as@[1].1@ == "B"@
    &&& m.display_state_as@[2].0 == State(Some(2)) && m.display_state_as@[2].1@ == "C"@
    &&& m.display_state_as@[3].0 == State(Some(3)) && m.display_state_as@[3].1@ == "D"@
    &&& m.transition_function_builder@ == four_state_busy_beaver_rules()
    &&& m.universe@.tape.positive == Seq::<Symbol>::empty()
    &&& m.universe@.tape.negative == Seq::<Symbol>::empty()
    &&& m.universe@.pos == 9
    &&& m.universe@.machine.state == State(Some(0))
    &&& m.universe@.machine.table == table_of(four_state_busy_beaver_rules())
}

/// The four-state busy beaver, packaged with its metadata.
pub fn four_state_busy_beaver() -> (m: UniverseMetadata)
    ensures
        is_four_state_busy_beaver(m),
{
    let name = String::from_str("4-state, 2-symbol busy beaver");
    let initial_head: usize = 9;

    let s0 = Symbol::empty();
    let s1 = Symbol::from(1);

    let s_a = State::from(0);
    let s_b = State::from(1);
    let s_c = State::from(2);
    let s_d = State::from(3);

    let mut display_state_as: DisplayStateAs = Vec::new();
    display_state_as.push((s_a, String::from_str("A")));
    display_state_as.push((s_b, String::from_str("B")));
    display_state_as.push((s_c, String::from_str("C")));
    display_state_as.push((s_d, String::from_str("D")));

    let mut builder = TransitionFunctionBuilder::default();
    builder.add(s_a, s0, Write::from(s1), Action::R, s_b);
    builder.add(s_a, s1, Write::from(s1), Action::L, s_b);
    builder.add(s_b, s0, Write::from(s1), Action::L, s_a);
    builder.add(s_b, s1, Write::from(s0), Action::L, s_c);
    builder.add(s_c, s0, Write::from(s1), Action::R, State::halt());
    builder.add(s_c, s1, Write::from(s1), Action::L, s_d);
    builder.add(s_d, s0, Write::from(s1), Action::R, s_d);
    builder.add(s_d, s1, Write::from(s0), Action::R, s_a);
    proof {
        assert(builder@ =~= four_state_busy_beaver_rules());
    }

    let transition_function = builder.build();
    let universe = Universe::new(Vec::new(), initial_head, s_a, transition_function);

    let mut symbol_set: Vec<Symbol> = Vec::new();
    symbol_set.push(s0);
    symbol_set.push(s1);
    let mut state_set: Vec<State> = Vec::new();
    state_set.push(s_a);
    state_set.push(s_b);
    state_set.push(s_c);
    proof {
        assert(symbol_set@ =~= seq![Symbol(None), Symbol(Some(1))]);
        assert(state_set@ =~= seq![State(Some(0)), State(Some(1)), State(Some(2))]);
    }

    UniverseMetadata {
        name,
        head_offset_hint: initial_head,
        symbol_set,
        state_set,
        display_state_as,
        transition_function_builder: builder,
        universe,
    }
}

/// The rule table of the five-state busy beaver, in declaration
/// order.
pub open spec fn five_state_busy_beaver_rules() -> Seq<(Input, Output)> {
    seq![
        (Input(State(Some(0)), Symbol(None)), Output(Write::Print(Symbol(Some(1))), Action::R, State(Some(1)))),
        (Input(State(Some(0)), Symbol(Some(1))), Output(Write::Print(Symbol(Some(1))), Action::L, State(Some(2)))),
        (Input(State(Some(1)), Symbol(None)), Output(Write::Print(Symbol(Some(1))), Action::R, State(Some(2)))),
        (Input(State(Some(1)), Symbol(Some(1))), Output(Write::Print(Symbol(Some(1))), Action::R, State(Some(1)))),
        (Input(State(Some(2)), Symbol(None)), Output(Write::Print(Symbol(Some(1))), Action::R, State(Some(3)))),
        (Input(State(Some(2)), Symbol(Some(1))), Output(Write::Print(Symbol(None)), Action::L, State(Some(4)))),
        (Input(State(Some(3)), Symbol(None)), Output(Write::Print(Symbol(Some(1))), Action::L, State(Some(0)))),
        (Input(State(Some(3)), Symbol(Some(1))), Output(Write::Print(Symbol(Some(1))), Action::L, State(Some(3)))),
        (Input(State(Some(4)), Symbol(None)), Output(Write::Print(Symbol(Some(1))), Action::R, State(None))),
        (Input(State(Some(4)), Symbol(Some(1))), Output(Write::Print(Symbol(None)), Action::L, State(Some(0)))),
    ]
}

/// What `five_state_busy_beaver` packs: its name, alphabets, display
/// names, rules and starting universe.
pub open spec fn is_five_state_busy_beaver(m: UniverseMetadata) -> bool {
    &&& m.name@ == "5-state, 2-symbol busy beaver"@
    &&& m.head_offset_hint == 300
    &&& m.symbol_set@ == seq![Symbol(None), Symbol(Some(1))]
    &&& m.state_set@ == seq![State(Some(0)), State(Some(1)), State(Some(2))]
    &&& m.display_state_as@.len() == 5
    &&& m.display_state_as@[0].0 == State(Some(0)) && m.display_state_as@[0].1@ == "A"@
    &&& m.display_state_as@[1].0 == State(Some(1)) && m.display_state_as@[1].1@ == "B"@
    &&& m.display_state_as@[2].0 == State(Some(2)) && m.display_state_as@[2].1@ == "C"@
    &&& m.display_state_as@[3].0 == State(Some(3)) && m.display_state_as@[3].1@ == "D"@
    &&& m.display_state_as@[4].0 == State(Some(4)) && m.display_state_as@[4].1@ == "E"@
    &&& m.transition_function_builder@ == five_state_busy_beaver_rules()
    &&& m.universe@.tape.positive == Seq::<Symbol>::empty()
    &&& m.universe@.tape.negative == Seq::<Symbol>::empty()
    &&& m.universe@.pos == 300
    &&& m.universe@.machine.state == State(Some(0))
    &&& m.universe@.machine.table == table_of(five_state_busy_beaver_rules())
}

/// The five-state busy beaver, packaged with its metadata.
pub fn five_state_busy_beaver() -> (m: UniverseMetadata)
    ensures
        is_five_state_busy_beaver(m),
{
    let name = String::from_str("5-state, 2-symbol busy beaver");
    let initial_head: usize = 300;

    let s0 = Symbol::empty();
    let s1 = Symbol::from(1);

    let s_a = State::from(0);
    let s_b = State::from(1);
    let s_c = State::from(2);
    let s_d = State::from(3);
    let s_e = State::from(4);

    let mut display_state_as: DisplayStateAs = Vec::new();
    display_state_as.push((s_a, String::from_str("A")));
    display_state_as.push((s_b, String::from_str("B")));
    display_state_as.push((s_c, String::from_str("C")));
    display_state_as.push((s_d, String::from_str("D")));
    display_state_as.push((s_e, String::from_str("E")));

    let mut builder = TransitionFunctionBuilder::default();
    builder.add(s_a, s0, Write::from(s1), Action::R, s_b);
    builder.add(s_a, s1, Write::from(s1), Action::L, s_c);
    builder.add(s_b, s0, Write::from(s1), Action::R, s_c);
    builder.add(s_b, s1, Write::from(s1), Action::R, s_b);
    builder.add(s_c, s0, Write::from(s1), Action::R, s_d);
    builder.add(s_c, s1, Write::from(s0), Action::L, s_e);
    builder.add(s_d, s0, Write::from(s1), Action::L, s_a);
    builder.add(s_d, s1, Write::from(s1), Action::L, s_d);
    builder.add(s_e, s0, Write::from(s1), Action::R, State::halt());
    builder.add(s_e, s1, Write::from(s0), Action::L, s_a);
    proof {
        assert(builder@ =~= five_state_busy_beaver_rules());
    }

    let transition_function = builder.build();
    let universe = Universe::new(Vec::new(), initial_head, s_a, transition_function);

    let mut symbol_set: Vec<Symbol> = Vec::new();
    symbol_set.push(s0);
    symbol_set.push(s1);
    let mut state_set: Vec<State> = Vec::new();
    state_set.push(s_a);
    state_set.push(s_b);
    state_set.push(s_c);
    proof {
        assert(symbol_set@ =~= seq![Symbol(None), Symbol(Some(1))]);
        assert(state_set@ =~= seq![State(Some(0)), State(Some(1)), State(Some(2))]);
    }

    UniverseMetadata {
        name,
        head_offset_hint: initial_head,
        symbol_set,
        state_set,
        display_state_as,
        transition_function_builder: builder,
        universe,
    }
}

} // verus!
