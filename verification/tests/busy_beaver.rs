use little_turing_machine::presets::busy_beaver::{
    five_state_busy_beaver, four_state_busy_beaver, one_state_busy_beaver,
    three_state_busy_beaver, two_state_busy_beaver,
};
use little_turing_machine::universe::tape::Tape;
use little_turing_machine::universe::Symbol;

#[test]
fn verify_one_state_busy_beaver() {
    let s1 = Symbol::from(1);
    let mut beaver = one_state_busy_beaver();

    assert_eq!(beaver.universe.tape.all_symbols(), Vec::new());
    beaver.universe.tick().unwrap();
    assert_eq!(beaver.universe.tape.all_symbols(), vec![s1]);
    beaver.universe.tick().unwrap();
}

#[test]
fn verify_two_state_busy_beaver() {
    let (s0, s1) = (Symbol::empty(), Symbol::from(1));
    let mut beaver = two_state_busy_beaver();

    assert_eq!(beaver.universe.tape.all_symbols(), Vec::new());
    beaver.universe.tick().unwrap();
    assert_eq!(beaver.universe.tape.all_symbols(), vec![s0, s0, s1]);
    beaver.universe.tick().unwrap();
    assert_eq!(beaver.universe.tape.all_symbols(), vec![s0, s0, s1, s1]);
    beaver.universe.tick().unwrap();
    assert_eq!(beaver.universe.tape.all_symbols(), vec![s0, s0, s1, s1]);
    beaver.universe.tick().unwrap();
    assert_eq!(beaver.universe.tape.all_symbols(), vec![s0, s1, s1, s1]);
    beaver.universe.tick().unwrap();
    assert_eq!(beaver.universe.tape.all_symbols(), vec![s1, s1, s1, s1]);
    beaver.universe.tick().unwrap();
}

#[test]
fn verify_three_state_busy_beaver() {
    let (s0, s1) = (Symbol::empty(), Symbol::from(1));
    let mut beaver = three_state_busy_beaver();

    assert_eq!(beaver.universe.tape.all_symbols(), Vec::new());
    beaver.universe.tick().unwrap();
    assert_eq!(beaver.universe.tape.all_symbols(), vec![s0, s1]);
    beaver.universe.tick().unwrap();
    assert_eq!(beaver.universe.tape.all_symbols(), vec![s0, s1, s0]);
    beaver.universe.tick().unwrap();
    assert_eq!(beaver.universe.tape.all_symbols(), vec![s0, s1, s0, s1]);
    beaver.universe.tick().unwrap();
    assert_eq!(beaver.universe.tape.all_symbols(), vec![s0, s1, s1, s1]);
    beaver.universe.tick().unwrap();
    assert_eq!(beaver.universe.tape.all_symbols(), vec![s0, s1, s1, s1]);
    beaver.universe.tick().unwrap();
    assert_eq!(beaver.universe.tape.all_symbols(), vec![s1, s1, s1, s1]);
    beaver.universe.tick().unwrap();
    assert_eq!(beaver.universe.tape.all_symbols(), vec![s1, s1, s1, s1]);
    beaver.universe.tick().unwrap();
    assert_eq!(beaver.universe.tape.all_symbols(), vec![s1, s1, s1, s1]);
    beaver.universe.tick().unwrap();
    assert_eq!(beaver.universe.tape.all_symbols(), vec![s1, s1, s1, s1]);
    beaver.universe.tick().unwrap();
    assert_eq!(beaver.universe.tape.all_symbols(), vec![s1, s1, s1, s1, s0]);
    beaver.universe.tick().unwrap();
    assert_eq!(beaver.universe.tape.all_symbols(), vec![s1, s1, s1, s1, s0, s1]);
    beaver.universe.tick().unwrap();
    assert_eq!(beaver.universe.tape.all_symbols(), vec![s1, s1, s1, s1, s1, s1]);
    beaver.universe.tick().unwrap();
    assert_eq!(beaver.universe.tape.all_symbols(), vec![s1, s1, s1, s1, s1, s1]);
    beaver.universe.tick().unwrap();
}

#[test]
fn three_state_busy_beaver_halts_with_six_ones() {
    let mut beaver = three_state_busy_beaver();
    let mut steps = 0;
    while !beaver.universe.machine.state.is_halted() {
        beaver.universe.tick().unwrap();
        steps += 1;
        assert!(steps <= 100);
    }
    // The fourteenth tick is the halting transition; the tape already
    // holds its final six marks two ticks earlier.
    assert_eq!(steps, 14);
    assert_eq!(beaver.universe.tape.trimmed_symbols(), vec![Symbol::from(1); 6]);
    let expected = Tape::from_symbols(vec![Symbol::from(1); 6]);
    assert_eq!(beaver.universe.tape, expected);
}

#[test]
fn busy_beaver_metadata_is_packed() {
    let beaver = four_state_busy_beaver();
    assert_eq!(beaver.name, String::from("4-state, 2-symbol busy beaver"));
    assert_eq!(beaver.head_offset_hint, 9);
    assert_eq!(beaver.universe.pos, 9);
    assert_eq!(beaver.transition_function_builder.added().len(), 8);

    let beaver = five_state_busy_beaver();
    assert_eq!(beaver.name, String::from("5-state, 2-symbol busy beaver"));
    assert_eq!(beaver.head_offset_hint, 300);
    assert_eq!(beaver.transition_function_builder.added().len(), 10);
}
