//! Human-readable names for states in listings.

use vstd::prelude::*;

use crate::universe::machine::{state_chars, State};

verus! {

/// Display names for states, in declaration order; the first entry listed
/// for a state wins.
pub type DisplayStateAs = Vec<(State, String)>;

/// The first name listed for `state`, if any.
pub open spec fn lookup_name(names: Seq<(State, String)>, state: State) -> Option<Seq<char>>
    decreases names.len(),
{
    if names.len() == 0 {
        None
    } else if names[0].0 == state {
        Some(names[0].1@)
    } else {
        lookup_name(names.drop_first(), state)
    }
}

/// The text a state displays as: `!` for the halt state, the listed name
/// for a state that has one, and the state's number otherwise.
pub open spec fn display_state_chars(state: State, names: Seq<(State, String)>) -> Seq<char> {
    if state.spec_is_halted() {
        state_chars(state)
    } else {
        match lookup_name(names, state) {
            Some(name) => name,
            None => state_chars(state),
        }
    }
}

/// Renders a state for a listing, exactly `display_state_chars`.
pub fn display_state(state: State, display_state_as: &DisplayStateAs) -> (r: String)
    ensures
        r@ == display_state_chars(state, display_state_as@),
{
    if state.is_halted() {
        return state.render();
    }
    proof {
        assert(display_state_as@.subrange(0, display_state_as@.len() as int)
            =~= display_state_as@);
    }
    let mut i: usize = 0;
    while i < display_state_as.len()
        invariant
            i <= display_state_as@.len(),
            !state.spec_is_halted(),
            lookup_name(display_state_as@, state) == lookup_name(
                display_state_as@.subrange(i as int, display_state_as@.len() as int),
                state,
            ),
        decreases display_state_as@.len() - i,
    {
        let entry = &display_state_as[i];
        proof {
            assert(display_state_as@.subrange(i as int, display_state_as@.len() as int)[0] == display_state_as@[i as int]);
        }
        if entry.0 == state {
            let found = entry.1.clone();
            proof {
                let tail = display_state_as@.subrange(i as int, display_state_as@.len() as int);
                assert(lookup_name(tail, state) == Some(display_state_as@[i as int].1@));
                assert(found@ == display_state_as@[i as int].1@);
                assert(found@ == display_state_chars(state, display_state_as@));
            }
            return found;
        }
        proof {
            assert(display_state_as@.subrange(i as int, display_state_as@.len() as int).drop_first() =~= display_state_as@.subrange(
                i + 1 as int,
                display_state_as@.len() as int,
            ));
        }
        i = i + 1;
    }
    state.render()
}

} // verus!
