use little_turing_machine::universe::machine::Write;
use little_turing_machine::universe::tape::Tape;
use little_turing_machine::universe::Symbol;

#[test]
fn empty_symbol_is_default() {
    assert_eq!(Symbol::empty(), Symbol::default());
}

#[test]
fn read_empty_tape() {
    let tape = Tape::default();
    assert_eq!(tape.read(0), Symbol::empty());
    assert_eq!(tape.read(1), Symbol::empty());
    assert_eq!(tape.read(2), Symbol::empty());
}

#[test]
fn read_empty_tape_negative() {
    let tape = Tape::default();
    assert_eq!(tape.read(-2), Symbol::empty());
    assert_eq!(tape.read(-1), Symbol::empty());
}

#[test]
fn test_multiple_symbols() {
    let expected_tape = Tape::from_symbols(vec![
        Symbol::empty(),
        Symbol::from(5),
        Symbol::from(6),
        Symbol::from(4),
    ]);
    let mut tape = Tape::default();

    tape.write(Write::Print(Symbol::from(4)), 3);
    tape.write(Write::Print(Symbol::from(5)), 1);
    tape.write(Write::Print(Symbol::from(6)), 2);

    assert_eq!(tape, expected_tape);
}

#[test]
fn multiple_symbol_negative() {
    let mut tape = Tape::default();
    tape.write(Write::Print(Symbol::from(4)), -3);
    tape.write(Write::Print(Symbol::from(5)), -1);
    tape.write(Write::Print(Symbol::from(6)), -2);

    assert_eq!(tape.render(), String::from("465_"));
}

#[test]
fn multiple_symbols_edge() {
    let mut tape = Tape::default();
    tape.write(Write::Print(Symbol::from(4)), 1);
    tape.write(Write::Print(Symbol::from(5)), -1);
    tape.write(Write::Print(Symbol::from(6)), 0);

    assert_eq!(tape.render(), String::from("564"));
}

#[test]
fn multiple_symbol_positive() {
    let mut tape = Tape::default();
    tape.write(Write::Print(Symbol::from(4)), 3);
    tape.write(Write::Print(Symbol::from(5)), 1);
    tape.write(Write::Print(Symbol::from(6)), 2);

    assert_eq!(tape.render(), String::from("_564"));
}

#[test]
fn test_different_offsets_equal() {
    let mut tape1 = Tape::default();
    tape1.write(Write::Print(Symbol::from(4)), 3);
    tape1.write(Write::Print(Symbol::from(5)), 1);
    tape1.write(Write::Print(Symbol::from(6)), 2);

    let mut tape2 = Tape::default();
    tape2.write(Write::Print(Symbol::from(4)), 1);
    tape2.write(Write::Print(Symbol::from(5)), -1);
    tape2.write(Write::Print(Symbol::from(6)), 0);

    assert_eq!(tape1, tape2);
}

#[test]
fn same_pattern_at_positive_and_negative_offsets_is_equal() {
    let mut tape1 = Tape::default();
    tape1.write(Write::Print(Symbol::from(1)), 1);
    tape1.write(Write::Print(Symbol::from(1)), 2);

    let mut tape2 = Tape::default();
    tape2.write(Write::Print(Symbol::from(1)), -3);
    tape2.write(Write::Print(Symbol::from(1)), -2);

    assert_eq!(tape1, tape2);
}

#[test]
fn write_to_empty_tape_positive() {
    for (index, expected) in [(0, "3"), (1, "_3"), (8, "________3")] {
        let mut tape = Tape::default();
        tape.write(Write::Print(Symbol::from(3)), index);
        assert_eq!(tape.render(), String::from(expected));
    }
}

#[test]
fn write_to_empty_tape_negative() {
    let mut tape = Tape::default();
    tape.write(Write::Print(Symbol::from(3)), -1);
    assert_eq!(tape.render(), String::from("3_"));
}

#[test]
fn read_write_to_empty_tape() {
    for index in [0, -1, -2, 3] {
        let mut tape = Tape::default();
        tape.write(Write::Print(Symbol::from(3)), index);
        assert_eq!(tape.read(index), Symbol::from(3));
    }
}

#[test]
fn erase_last_written_cell_reads_blank() {
    for position in [-4, 0, 5] {
        let mut tape = Tape::default();
        tape.write(Write::Print(Symbol::from(9)), position);
        tape.write(Write::Erase, position);
        assert!(tape.read(position).is_empty());
    }
}

#[test]
fn erase_shifts_later_cells_down() {
    let mut tape = Tape::default();
    tape.write(Write::Print(Symbol::from(4)), 1);
    tape.write(Write::Print(Symbol::from(5)), 2);
    tape.write(Write::Erase, 1);
    assert_eq!(tape.read(1), Symbol::from(5));
    assert_eq!(tape.read(2), Symbol::empty());
}

#[test]
fn erase_outside_bounds_is_noop() {
    let mut tape = Tape::default();
    tape.write(Write::Print(Symbol::from(4)), 1);
    let before = tape.all_symbols();
    tape.write(Write::Erase, 7);
    tape.write(Write::Erase, -5);
    assert_eq!(tape.all_symbols(), before);
}

#[test]
fn no_effect_never_mutates() {
    let mut tape = Tape::default();
    tape.write(Write::Print(Symbol::from(4)), 2);
    let before = tape.all_symbols();
    tape.write(Write::NoEffect, 2);
    tape.write(Write::NoEffect, 100);
    assert_eq!(tape.all_symbols(), before);
}

#[test]
fn symbols_synthesizes_blanks_in_window() {
    let mut tape = Tape::default();
    tape.write(Write::Print(Symbol::from(4)), -1);
    tape.write(Write::Print(Symbol::from(5)), 1);
    let window = tape.symbols(-2..3);
    assert_eq!(
        window,
        vec![
            Symbol::empty(),
            Symbol::from(4),
            Symbol::empty(),
            Symbol::from(5),
            Symbol::empty(),
        ]
    );
}

#[test]
fn symbols_of_backwards_range_is_empty() {
    let mut tape = Tape::default();
    tape.write(Write::Print(Symbol::from(4)), 1);
    assert_eq!(tape.symbols(3..-3), Vec::new());
}

#[test]
fn trimmed_symbols_drops_surrounding_blanks() {
    let mut tape = Tape::default();
    tape.write(Write::Print(Symbol::from(7)), 3);
    tape.write(Write::Print(Symbol::from(8)), 4);
    assert_eq!(tape.trimmed_symbols(), vec![Symbol::from(7), Symbol::from(8)]);
}

#[test]
fn all_blank_tapes_are_equal() {
    let mut tape1 = Tape::default();
    tape1.write(Write::Print(Symbol::empty()), 4);
    let tape2 = Tape::default();
    assert_eq!(tape1, tape2);
}
