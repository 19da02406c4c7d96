//! Ready-made machines: busy beaver variants and a binary counter, each
//! packaged with display metadata.

use vstd::prelude::*;
use vstd::string::StringExecFns;

pub mod busy_beaver;
pub mod counter;

use crate::display::DisplayStateAs;
use crate::universe::function::{Input, Output, TransitionFunctionBuilder};
use crate::universe::machine::{MachineModel, State};
use crate::universe::{Symbol, Universe};

use self::busy_beaver::{
    five_state_busy_beaver, four_state_busy_beaver, is_five_state_busy_beaver,
    is_four_state_busy_beaver, is_three_state_busy_beaver, is_two_state_busy_beaver,
    three_state_busy_beaver, two_state_busy_beaver,
};
use self::counter::{counter_binary, is_counter_binary};

verus! {

/// A universe with the metadata a viewer needs for an elegant listing:
/// a name, a hint where the head started, the symbol and state alphabets,
/// display names for the states, and the rule builder in declaration
/// order.
pub struct UniverseMetadata {
    pub name: String,
    pub head_offset_hint: usize,
    pub symbol_set: Vec<Symbol>,
    pub state_set: Vec<State>,
    pub display_state_as: DisplayStateAs,
    pub transition_function_builder: TransitionFunctionBuilder,
    pub universe: Universe,
}

impl Default for UniverseMetadata {
    /// An inert default: no name, no alphabets, no rules, and a halted
    /// universe.
    fn default() -> (m: UniverseMetadata)
        ensures
            m.name@ == Seq::<char>::empty(),
            m.head_offset_hint == 0,
            m.symbol_set@ == Seq::<Symbol>::empty(),
            m.state_set@ == Seq::<State>::empty(),
            m.display_state_as@ == Seq::<(State, String)>::empty(),
            m.transition_function_builder@ == Seq::<(Input, Output)>::empty(),
            m.universe@.machine == (MachineModel {
                state: State(None),
                table: Map::<Input, Output>::empty(),
            }),
            m.universe@.pos == 0,
    {
        UniverseMetadata {
            name: String::new(),
            head_offset_hint: 0,
            symbol_set: Vec::new(),
            state_set: Vec::new(),
            display_state_as: Vec::new(),
            transition_function_builder: TransitionFunctionBuilder::default(),
            universe: Universe::default(),
        }
    }
}

impl UniverseMetadata {
    /// Picks a preset by its command-line name; an unknown name is
    /// reported back verbatim.
    pub fn try_from(value: String) -> (r: Result<UniverseMetadata, String>)
        ensures
            value@ == "beaver_2"@ ==> (r matches Ok(m) && is_two_state_busy_beaver(m)),
            value@ == "beaver_3"@ ==> (r matches Ok(m) && is_three_state_busy_beaver(m)),
            value@ == "beaver_4"@ ==> (r matches Ok(m) && is_four_state_busy_beaver(m)),
            value@ == "beaver_5"@ ==> (r matches Ok(m) && is_five_state_busy_beaver(m)),
            value@ == "counter_2"@ ==> (r matches Ok(m) && is_counter_binary(m)),
            !(value@ == "beaver_2"@ || value@ == "beaver_3"@ || value@ == "beaver_4"@ || value@
                == "beaver_5"@ || value@ == "counter_2"@) ==> (r matches Err(e) && e@
                == "unknown preset: "@ + value@),
    {
        proof {
            reveal_strlit("beaver_2");
            reveal_strlit("beaver_3");
            reveal_strlit("beaver_4");
            reveal_strlit("beaver_5");
            reveal_strlit("counter_2");
            assert("beaver_2"@[7] == '2' && "beaver_3"@[7] == '3' && "beaver_4"@[7] == '4'
                && "beaver_5"@[7] == '5');
            assert("beaver_2"@ != "beaver_3"@ && "beaver_2"@ != "beaver_4"@ && "beaver_2"@
                != "beaver_5"@);
            assert("beaver_3"@ != "beaver_4"@ && "beaver_3"@ != "beaver_5"@ && "beaver_4"@
                != "beaver_5"@);
        }
        if value == String::from_str("beaver_2") {
            Ok(two_state_busy_beaver())
        } else if value == String::from_str("beaver_3") {
            Ok(three_state_busy_beaver())
        } else if value == String::from_str("beaver_4") {
            Ok(four_state_busy_beaver())
        } else if value == String::from_str("beaver_5") {
            Ok(five_state_busy_beaver())
        } else if value == String::from_str("counter_2") {
            Ok(counter_binary())
        } else {
            let mut message = String::from_str("unknown preset: ");
            message.append(value.as_str());
            Err(message)
        }
    }
}

} // verus!
