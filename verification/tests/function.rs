use little_turing_machine::universe::function::TransitionFunctionBuilder;
use little_turing_machine::universe::machine::{Action, State, Write};
use little_turing_machine::universe::Symbol;

#[test]
fn added_keeps_declaration_order() {
    let mut builder = TransitionFunctionBuilder::default();
    builder.add(State::from(0), Symbol::empty(), Write::Erase, Action::N, State::from(1));
    builder.add(State::from(1), Symbol::from(1), Write::NoEffect, Action::L, State::halt());

    let added = builder.added();
    assert_eq!(added.len(), 2);
    assert_eq!(added[0].0.current_state(), State::from(0));
    assert_eq!(added[0].0.scanned_symbol(), Symbol::empty());
    assert_eq!(added[0].1.print_symbol(), Write::Erase);
    assert_eq!(added[0].1.move_head(), Action::N);
    assert_eq!(added[0].1.next_state(), State::from(1));
    assert_eq!(added[1].0.current_state(), State::from(1));
    assert_eq!(added[1].1.next_state(), State::halt());
}

#[test]
fn act_returns_the_added_output() {
    let mut builder = TransitionFunctionBuilder::default();
    builder.add(
        State::from(0),
        Symbol::from(1),
        Write::Print(Symbol::from(2)),
        Action::R,
        State::from(3),
    );
    let tf = builder.build();

    let out = tf.act(State::from(0), Symbol::from(1)).unwrap();
    assert_eq!(out.print_symbol(), Write::Print(Symbol::from(2)));
    assert_eq!(out.move_head(), Action::R);
    assert_eq!(out.next_state(), State::from(3));
}

#[test]
fn last_added_rule_wins_on_duplicate() {
    let mut builder = TransitionFunctionBuilder::default();
    let key_state = State::from(0);
    let key_symbol = Symbol::empty();
    builder.add(key_state, key_symbol, Write::Print(Symbol::from(1)), Action::R, State::from(1));
    builder.add(key_state, key_symbol, Write::Print(Symbol::from(2)), Action::L, State::halt());
    let tf = builder.build();

    let out = tf.act(key_state, key_symbol).unwrap();
    assert_eq!(out.print_symbol(), Write::Print(Symbol::from(2)));
    assert_eq!(out.move_head(), Action::L);
    assert!(out.next_state().is_halted());
}

#[test]
fn every_added_pair_is_defined() {
    let mut builder = TransitionFunctionBuilder::default();
    builder.add(State::from(0), Symbol::empty(), Write::Erase, Action::N, State::from(0));
    builder.add(State::from(0), Symbol::from(1), Write::NoEffect, Action::R, State::from(0));
    builder.add(State::from(1), Symbol::from(1), Write::NoEffect, Action::L, State::from(0));
    let tf = builder.build();

    for (input, _) in builder.added() {
        assert!(tf.act(input.current_state(), input.scanned_symbol()).is_ok());
    }
}

#[test]
fn act_on_missing_pair_is_an_error() {
    let mut builder = TransitionFunctionBuilder::default();
    builder.add(State::from(0), Symbol::empty(), Write::Erase, Action::N, State::from(0));
    let tf = builder.build();

    let err = tf.act(State::from(0), Symbol::from(1)).unwrap_err();
    assert_eq!(err.current_state, State::from(0));
    assert_eq!(err.scanned_symbol, Symbol::from(1));
    assert_eq!(err.render(), String::from("0, 1 -> ?"));

    let err = tf.act(State::from(9), Symbol::empty()).unwrap_err();
    assert_eq!(err.render(), String::from("9, _ -> ?"));
}
