use little_turing_machine::display::display_state;
use little_turing_machine::presets::counter::counter_binary;
use little_turing_machine::presets::UniverseMetadata;
use little_turing_machine::universe::function::TransitionFunctionBuilder;
use little_turing_machine::universe::machine::{Action, State, Write};
use little_turing_machine::universe::{Symbol, Universe};

#[test]
fn new_universe_places_symbols_from_position_one() {
    let tf = TransitionFunctionBuilder::default().build();
    let universe = Universe::new(vec![Symbol::from(4), Symbol::from(5)], 1, State::halt(), tf);
    assert_eq!(universe.pos, 1);
    assert_eq!(universe.tape.read(1), Symbol::from(4));
    assert_eq!(universe.tape.read(2), Symbol::from(5));
    assert_eq!(universe.tape.read(0), Symbol::empty());
}

#[test]
fn halted_universe_ticks_are_noops() {
    let tf = TransitionFunctionBuilder::default().build();
    let mut universe = Universe::new(vec![Symbol::from(1)], 1, State::halt(), tf);
    let before = universe.tape.all_symbols();
    for _ in 0..3 {
        let (write, action) = universe.tick().unwrap();
        assert_eq!(write, Write::NoEffect);
        assert_eq!(action, Action::N);
        assert_eq!(universe.pos, 1);
        assert_eq!(universe.tape.all_symbols(), before);
        assert!(universe.machine.state.is_halted());
    }
}

#[test]
fn head_moves_by_exactly_one() {
    let mut builder = TransitionFunctionBuilder::default();
    builder.add(State::from(0), Symbol::empty(), Write::NoEffect, Action::R, State::from(1));
    builder.add(State::from(1), Symbol::empty(), Write::NoEffect, Action::L, State::from(2));
    builder.add(State::from(2), Symbol::empty(), Write::NoEffect, Action::N, State::halt());
    let mut universe = Universe::new(Vec::new(), 5, State::from(0), builder.build());

    let (_, action) = universe.tick().unwrap();
    assert_eq!(action, Action::R);
    assert_eq!(universe.pos, 6);

    let (_, action) = universe.tick().unwrap();
    assert_eq!(action, Action::L);
    assert_eq!(universe.pos, 5);

    let (_, action) = universe.tick().unwrap();
    assert_eq!(action, Action::N);
    assert_eq!(universe.pos, 5);
}

#[test]
fn failed_tick_changes_nothing() {
    let tf = TransitionFunctionBuilder::default().build();
    let mut universe = Universe::new(vec![Symbol::from(1)], 1, State::from(0), tf);
    let before = universe.tape.all_symbols();
    let err = universe.tick().unwrap_err();
    assert_eq!(err.current_state, State::from(0));
    assert_eq!(err.scanned_symbol, Symbol::from(1));
    assert_eq!(universe.pos, 1);
    assert_eq!(universe.machine.state, State::from(0));
    assert_eq!(universe.tape.all_symbols(), before);
}

#[test]
fn universe_writes_at_the_head() {
    let mut builder = TransitionFunctionBuilder::default();
    builder.add(
        State::from(0),
        Symbol::empty(),
        Write::Print(Symbol::from(1)),
        Action::L,
        State::halt(),
    );
    let mut universe = Universe::new(Vec::new(), 0, State::from(0), builder.build());
    universe.tick().unwrap();
    assert_eq!(universe.pos, -1);
    assert_eq!(universe.tape.read(0), Symbol::from(1));
    assert!(universe.machine.state.is_halted());
}

#[test]
fn counter_counts_up_in_binary() {
    let mut counter = counter_binary();
    // The counter starts in the return state on an empty tape: the first
    // tick steps left onto fresh tape, then each increment prints from the
    // low end. After enough steps the written content starts with the
    // current binary value, low bit at the left end of its block.
    for _ in 0..4 {
        counter.universe.tick().unwrap();
    }
    // head 0 -> return reads blank, moves left to -1 in write state;
    // write state reads blank, prints 1, moves right in return state;
    // return reads blank at 0, moves left back onto the 1 in write state;
    // write reads 1, prints 0, moves left staying in write state.
    assert_eq!(counter.universe.tape.read(-1), Symbol::from(0));
    assert_eq!(counter.universe.pos, -2);
}

#[test]
fn unknown_preset_is_reported_verbatim() {
    let err = match UniverseMetadata::try_from(String::from("nope")) {
        Err(e) => e,
        Ok(_) => panic!("expected an unknown-preset error"),
    };
    assert_eq!(err, String::from("unknown preset: nope"));
}

#[test]
fn presets_are_found_by_name() {
    let meta = UniverseMetadata::try_from(String::from("beaver_3")).unwrap();
    assert_eq!(meta.name, String::from("3-state, 2-symbol busy beaver"));
    let meta = UniverseMetadata::try_from(String::from("counter_2")).unwrap();
    assert_eq!(meta.name, String::from("binary counting"));
    let meta = UniverseMetadata::try_from(String::from("beaver_2")).unwrap();
    assert_eq!(meta.name, String::from("2-state, 2-symbol busy beaver"));
}

#[test]
fn default_universe_is_halted_and_empty() {
    let universe = Universe::default();
    assert!(universe.machine.state.is_halted());
    assert_eq!(universe.pos, 0);
    assert_eq!(universe.tape.all_symbols(), Vec::new());
    assert_eq!(universe.tape.render(), String::new());
}

#[test]
fn write_from_symbol_is_a_print() {
    assert_eq!(Write::from(Symbol::from(3)), Write::Print(Symbol::from(3)));
}

#[test]
fn display_state_prefers_listed_names() {
    let names = vec![(State::from(0), String::from("A")), (State::from(1), String::from("B"))];
    assert_eq!(display_state(State::from(0), &names), String::from("A"));
    assert_eq!(display_state(State::from(1), &names), String::from("B"));
    assert_eq!(display_state(State::from(7), &names), String::from("7"));
    assert_eq!(display_state(State::halt(), &names), String::from("!"));
}
